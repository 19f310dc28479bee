//! Builders of gRPC requests: a request contract, or a stream of requests,
//! bound to the channel that will carry it, and the same with a retry budget.

use vstd::prelude::*;

use crate::retry::RetryBudget;

verus! {

/// A request that is ready to be sent once over `channel`.
pub struct RequestBuilder<TChannel: Send + Sync + 'static, TRequest: Clone + Send + Sync + 'static> {
    input_contract: TRequest,
    channel: TChannel,
}

/// A request that is sent over `channel` and sent again after a failure,
/// up to `max_attempts_amount` more times.
pub struct RequestBuilderWithRetries<
    TChannel: Send + Sync + 'static,
    TRequest: Clone + Send + Sync + 'static,
> {
    input_contract: TRequest,
    channel: TChannel,
    max_attempts_amount: usize,
}

impl<TChannel: Send + Sync + 'static, TRequest: Clone + Send + Sync + 'static> RequestBuilder<
    TChannel,
    TRequest,
> {
    pub closed spec fn input_contract_spec(self) -> TRequest {
        self.input_contract
    }

    pub closed spec fn channel_spec(self) -> TChannel {
        self.channel
    }

    /// Binds `input_contract` to `channel`.
    pub fn new(input_contract: TRequest, channel: TChannel) -> (res: Self)
        ensures
            res.input_contract_spec() == input_contract,
            res.channel_spec() == channel,
    {
        Self { input_contract, channel }
    }

    /// The same request and channel, sent again after a failure up to
    /// `attempts_amount` more times.
    pub fn with_retries(self, attempts_amount: usize) -> (res: RequestBuilderWithRetries<
        TChannel,
        TRequest,
    >)
        ensures
            res.input_contract_spec() == self.input_contract_spec(),
            res.channel_spec() == self.channel_spec(),
            res.max_attempts_amount_spec() == attempts_amount,
    {
        RequestBuilderWithRetries::new(self.input_contract, self.channel, attempts_amount)
    }

    /// The request to send.
    pub fn input_contract(&self) -> (res: &TRequest)
        ensures
            *res == self.input_contract_spec(),
    {
        &self.input_contract
    }

    /// The channel to send it over.
    pub fn channel(&self) -> (res: &TChannel)
        ensures
            *res == self.channel_spec(),
    {
        &self.channel
    }

    /// The request and the channel, for sending.
    pub fn into_parts(self) -> (res: (TRequest, TChannel))
        ensures
            res == (self.input_contract_spec(), self.channel_spec()),
    {
        (self.input_contract, self.channel)
    }
}

impl<TChannel: Send + Sync + 'static, TRequest: Clone + Send + Sync + 'static> RequestBuilderWithRetries<
    TChannel,
    TRequest,
> {
    pub closed spec fn input_contract_spec(self) -> TRequest {
        self.input_contract
    }

    pub closed spec fn channel_spec(self) -> TChannel {
        self.channel
    }

    pub closed spec fn max_attempts_amount_spec(self) -> nat {
        self.max_attempts_amount as nat
    }

    /// Binds `input_contract` to `channel`, with `max_attempts_amount`
    /// retries allowed.
    pub fn new(input_contract: TRequest, channel: TChannel, max_attempts_amount: usize) -> (res: Self)
        ensures
            res.input_contract_spec() == input_contract,
            res.channel_spec() == channel,
            res.max_attempts_amount_spec() == max_attempts_amount,
    {
        Self { input_contract, channel, max_attempts_amount }
    }

    /// The request to send.
    pub fn input_contract(&self) -> (res: &TRequest)
        ensures
            *res == self.input_contract_spec(),
    {
        &self.input_contract
    }

    /// The channel to send it over.
    pub fn channel(&self) -> (res: &TChannel)
        ensures
            *res == self.channel_spec(),
    {
        &self.channel
    }

    /// The retries allowed.
    pub fn max_attempts_amount(&self) -> (res: usize)
        ensures
            res == self.max_attempts_amount_spec(),
    {
        self.max_attempts_amount
    }

    /// The budget with which the sends start: no retry taken yet, and
    /// `max_attempts_amount` allowed.
    pub fn retry_budget(&self) -> (res: RetryBudget)
        ensures
            res.attempt_no_spec() == 0,
            res.max_attempts_amount_spec() == self.max_attempts_amount_spec(),
    {
        RetryBudget::new(self.max_attempts_amount)
    }

    /// The request, the channel and the starting budget, for sending.
    pub fn into_parts(self) -> (res: (TRequest, TChannel, RetryBudget))
        ensures
            res.0 == self.input_contract_spec(),
            res.1 == self.channel_spec(),
            res.2.attempt_no_spec() == 0,
            res.2.max_attempts_amount_spec() == self.max_attempts_amount_spec(),
    {
        let budget = RetryBudget::new(self.max_attempts_amount);
        (self.input_contract, self.channel, budget)
    }
}


/// A stream of requests that is ready to be sent once over `channel`.
pub struct RequestBuilderWithStream<TChannel: Send + Sync + 'static, TRequestStream: Send + Sync + 'static> {
    input_stream: TRequestStream,
    channel: TChannel,
}

/// A stream of requests that is sent over `channel` and sent again after a
/// failure, up to `max_attempts_amount` more times.
pub struct RequestBuilderWithStreamWithRetries<
    TChannel: Send + Sync + 'static,
    TRequestStream: Send + Sync + 'static,
> {
    input_stream: TRequestStream,
    channel: TChannel,
    max_attempts_amount: usize,
}

impl<TChannel: Send + Sync + 'static, TRequestStream: Send + Sync + 'static> RequestBuilderWithStream<
    TChannel,
    TRequestStream,
> {
    pub closed spec fn input_stream_spec(self) -> TRequestStream {
        self.input_stream
    }

    pub closed spec fn channel_spec(self) -> TChannel {
        self.channel
    }

    /// Binds `input_stream` to `channel`.
    pub fn new(input_stream: TRequestStream, channel: TChannel) -> (res: Self)
        ensures
            res.input_stream_spec() == input_stream,
            res.channel_spec() == channel,
    {
        Self { input_stream, channel }
    }

    /// The same stream and channel, sent again after a failure up to
    /// `attempts_amount` more times.
    pub fn with_retries(self, attempts_amount: usize) -> (res: RequestBuilderWithStreamWithRetries<
        TChannel,
        TRequestStream,
    >)
        ensures
            res.input_stream_spec() == self.input_stream_spec(),
            res.channel_spec() == self.channel_spec(),
            res.max_attempts_amount_spec() == attempts_amount,
    {
        RequestBuilderWithStreamWithRetries::new(self.input_stream, self.channel, attempts_amount)
    }

    /// The channel to send over.
    pub fn channel(&self) -> (res: &TChannel)
        ensures
            *res == self.channel_spec(),
    {
        &self.channel
    }

    /// The stream and the channel, for sending.
    pub fn into_parts(self) -> (res: (TRequestStream, TChannel))
        ensures
            res == (self.input_stream_spec(), self.channel_spec()),
    {
        (self.input_stream, self.channel)
    }
}

impl<
    TChannel: Send + Sync + 'static,
    TRequestStream: Send + Sync + 'static,
> RequestBuilderWithStreamWithRetries<TChannel, TRequestStream> {
    pub closed spec fn input_stream_spec(self) -> TRequestStream {
        self.input_stream
    }

    pub closed spec fn channel_spec(self) -> TChannel {
        self.channel
    }

    pub closed spec fn max_attempts_amount_spec(self) -> nat {
        self.max_attempts_amount as nat
    }

    /// Binds `input_stream` to `channel`, with `max_attempts_amount`
    /// retries allowed.
    pub fn new(input_stream: TRequestStream, channel: TChannel, max_attempts_amount: usize) -> (res:
        Self)
        ensures
            res.input_stream_spec() == input_stream,
            res.channel_spec() == channel,
            res.max_attempts_amount_spec() == max_attempts_amount,
    {
        Self { input_stream, channel, max_attempts_amount }
    }

    /// The channel to send over.
    pub fn channel(&self) -> (res: &TChannel)
        ensures
            *res == self.channel_spec(),
    {
        &self.channel
    }

    /// The retries allowed.
    pub fn max_attempts_amount(&self) -> (res: usize)
        ensures
            res == self.max_attempts_amount_spec(),
    {
        self.max_attempts_amount
    }

    /// The stream, the channel and the starting budget, for sending.
    pub fn into_parts(self) -> (res: (TRequestStream, TChannel, RetryBudget))
        ensures
            res.0 == self.input_stream_spec(),
            res.1 == self.channel_spec(),
            res.2.attempt_no_spec() == 0,
            res.2.max_attempts_amount_spec() == self.max_attempts_amount_spec(),
    {
        let budget = RetryBudget::new(self.max_attempts_amount);
        (self.input_stream, self.channel, budget)
    }
}

} // verus!
