//! The shared channel of a pool: at most one open `tonic` channel, with the
//! host it was opened to and the service it serves, and the decisions of
//! the attempts that open it.

use vstd::prelude::*;

use crate::error::GrpcReadError;
use crate::retry::{attempts_made, law_failing_run_length, RetryBudget};

verus! {

/// An open `tonic` channel, carried through unchanged.
#[verifier::external_type_specification]
#[verifier::external_body]
pub struct ExChannel(tonic::transport::Channel);

/// A `tonic` endpoint, from which a channel is connected.
#[verifier::external_type_specification]
#[verifier::external_body]
pub struct ExEndpoint(tonic::transport::Endpoint);

/// The error of `http` for text that is no URI.
#[verifier::external_type_specification]
#[verifier::external_body]
pub struct ExInvalidUri(tonic::codegen::http::uri::InvalidUri);

/// Whether `tonic::transport::Channel::from_shared` accepts the text as a
/// URI. It depends on the text alone: it is the parse of the `http` crate.
pub uninterp spec fn from_shared_accepts(url: Seq<char>) -> bool;

/// The text of the URI that `tonic::transport::Channel::from_shared` parses
/// from `url` (the parse of `http::Uri::from_maybe_shared`), as the `Display`
/// of `http::Uri` renders it. It depends on the text alone.
pub uninterp spec fn parsed_uri_text(url: Seq<char>) -> Seq<char>;

/// The text of the URI of `endpoint`, as `tonic::transport::Endpoint::uri`
/// returns it and the `Display` of `http::Uri` renders it. It depends on
/// the endpoint alone.
pub uninterp spec fn endpoint_uri_text(endpoint: tonic::transport::Endpoint) -> Seq<char>;

/// Calls `tonic::transport::Channel::from_shared`, which parses the text as
/// a URI and builds an endpoint for it. Claimed: it fails exactly on the
/// texts that `from_shared_accepts` rejects, and the endpoint it builds
/// keeps the URI it parsed (`Endpoint::uri` gives it back). Nothing else is
/// claimed of the endpoint.
#[verifier::external_body]
fn channel_from_shared(url: String) -> (res: Result<
    tonic::transport::Endpoint,
    tonic::codegen::http::uri::InvalidUri,
>)
    ensures
        res is Ok <==> from_shared_accepts(url@),
        res matches Ok(endpoint) ==> endpoint_uri_text(endpoint) == parsed_uri_text(url@),
{
    tonic::transport::Channel::from_shared(url)
}

/// Calls `Clone::clone` of `tonic::transport::Channel`, which hands out a
/// second handle to the same connection. Claimed: the handle is what that
/// `clone` returns for `channel` (`cloned`); nothing more is claimed of it.
#[verifier::external_body]
fn clone_channel(channel: &tonic::transport::Channel) -> (res: tonic::transport::Channel)
    ensures
        cloned(*channel, res),
{
    channel.clone()
}

/// An open channel and what it was opened for.
pub struct ChannelData {
    pub channel: tonic::transport::Channel,
    pub host: String,
    pub service_name: &'static str,
}

/// The holder that `set` leaves: it holds `channel`, opened to `host` for
/// `service_name`.
pub open spec fn set_result(service_name: &'static str, host: String, channel: tonic::transport::Channel) -> GrpcChannelHolder {
    GrpcChannelHolder { channel: Some(ChannelData { channel, host, service_name }) }
}

/// Whether `reused` is what a reuse may hand back from `holder`: a clone of
/// the held channel where one is held, else nothing.
pub open spec fn reuse_result(holder: GrpcChannelHolder, reused: Option<tonic::transport::Channel>) -> bool {
    match holder.channel {
        Some(data) => reused matches Some(handle) && cloned(data.channel, handle),
        None => reused is None,
    }
}

/// The holder that `drop_channel` leaves, which holds nothing, and what it
/// hands back: what `holder` held.
pub open spec fn drop_result(holder: GrpcChannelHolder) -> (GrpcChannelHolder, Option<ChannelData>) {
    (GrpcChannelHolder { channel: None }, holder.channel)
}

/// Holds the channel that the requests and the pings of a pool share.
pub struct GrpcChannelHolder {
    pub channel: Option<ChannelData>,
}

impl Default for GrpcChannelHolder {
    fn default() -> (res: Self)
        ensures
            res.channel is None,
    {
        Self::new()
    }
}

impl GrpcChannelHolder {
    /// A holder with no channel.
    pub fn new() -> (res: Self)
        ensures
            res.channel is None,
    {
        GrpcChannelHolder { channel: None }
    }

    /// Keeps `channel`, opened to `host` for `service_name`, in place of
    /// whatever channel was held.
    pub fn set(&mut self, service_name: &'static str, host: String, channel: tonic::transport::Channel)
        ensures
            *final(self) == set_result(service_name, host, channel),
    {
        self.channel = Some(ChannelData { channel, host, service_name });
    }

    /// A handle to the held channel, if one is held: a clone of it.
    pub fn reuse_existing_channel(&self) -> (res: Option<tonic::transport::Channel>)
        ensures
            reuse_result(*self, res),
    {
        match &self.channel {
            Some(data) => Some(clone_channel(&data.channel)),
            None => None,
        }
    }

    /// Gives up the held channel: afterwards none is held, and the one that
    /// was held, if any, is handed back.
    pub fn drop_channel(&mut self) -> (res: Option<ChannelData>)
        ensures
            (*final(self), res) == drop_result(*old(self)),
    {
        self.channel.take()
    }
}

/// How many times a failed or timed-out connection is tried again.
pub const CONNECT_RETRIES: usize = 4;

/// How one connection attempt ended.
pub enum ConnectOutcome {
    Connected(tonic::transport::Channel),
    Failed(tonic::transport::Error),
    TimedOut,
}

/// What follows a connection attempt.
pub enum ConnectStep {
    /// The channel is open; the holder keeps it and this handle is returned.
    Established(tonic::transport::Channel),
    /// No retry is left: the connection fails with this error.
    GiveUp(GrpcReadError),
    /// The connection is to be tried again.
    TryAgain,
}

/// The state of the attempts to open a channel to one URL for one service.
pub struct ChannelConnector {
    connect_url: String,
    service_name: &'static str,
    budget: RetryBudget,
}

impl ChannelConnector {
    pub closed spec fn connect_url_spec(self) -> Seq<char> {
        self.connect_url@
    }

    pub closed spec fn service_name_spec(self) -> &'static str {
        self.service_name
    }

    /// The retries taken so far.
    pub closed spec fn attempt_no_spec(self) -> nat {
        self.budget.attempt_no_spec()
    }

    /// The retries allowed in all.
    pub closed spec fn max_attempts_amount_spec(self) -> nat {
        self.budget.max_attempts_amount_spec()
    }

    /// The attempts to open a channel to `connect_url` for `service_name`,
    /// none made yet, with `CONNECT_RETRIES` retries allowed.
    pub fn new(connect_url: String, service_name: &'static str) -> (res: Self)
        ensures
            res.connect_url_spec() == connect_url@,
            res.service_name_spec() == service_name,
            res.attempt_no_spec() == 0,
            res.max_attempts_amount_spec() == CONNECT_RETRIES,
    {
        ChannelConnector { connect_url, service_name, budget: RetryBudget::new(CONNECT_RETRIES) }
    }

    /// The URL the channel is opened to.
    pub fn connect_url(&self) -> (res: &String)
        ensures
            res@ == self.connect_url_spec(),
    {
        &self.connect_url
    }

    /// The retries taken so far.
    pub fn attempt_no(&self) -> (res: usize)
        ensures
            res == self.attempt_no_spec(),
    {
        self.budget.attempt_no()
    }

    /// The endpoint to connect to, parsed from the URL by `tonic`, with the
    /// URI of that URL; an error where the URL is no URI.
    pub fn endpoint(&self) -> (res: Result<
        tonic::transport::Endpoint,
        tonic::codegen::http::uri::InvalidUri,
    >)
        ensures
            res is Ok <==> from_shared_accepts(self.connect_url_spec()),
            res matches Ok(endpoint) ==> endpoint_uri_text(endpoint) == parsed_uri_text(
                self.connect_url_spec(),
            ),
    {
        channel_from_shared(self.connect_url.clone())
    }

    /// Handles how one connection attempt ended. An open channel is kept in
    /// `holder`, with the URL as its host and this connector's service, and
    /// a handle to it is returned. A failure or a timeout is tried again
    /// while retries are left; once none is left the connection fails, with
    /// the transport's error or with a timeout.
    pub fn on_outcome(&mut self, holder: &mut GrpcChannelHolder, outcome: ConnectOutcome) -> (step:
        ConnectStep)
        ensures
            final(self).connect_url_spec() == old(self).connect_url_spec(),
            final(self).service_name_spec() == old(self).service_name_spec(),
            final(self).max_attempts_amount_spec() == old(self).max_attempts_amount_spec(),
            match outcome {
                ConnectOutcome::Connected(channel) => {
                    &&& step matches ConnectStep::Established(handle) && cloned(channel, handle)
                    &&& final(holder).channel matches Some(data) && data.channel == channel
                        && data.host@ == old(self).connect_url_spec()
                        && data.service_name == old(self).service_name_spec()
                    &&& final(self).attempt_no_spec() == old(self).attempt_no_spec()
                },
                ConnectOutcome::Failed(err) => {
                    &&& *final(holder) == *old(holder)
                    &&& if old(self).attempt_no_spec() < old(self).max_attempts_amount_spec() {
                        step is TryAgain && final(self).attempt_no_spec() == old(self).attempt_no_spec() + 1
                    } else {
                        step == ConnectStep::GiveUp(GrpcReadError::TransportError(err))
                            && final(self).attempt_no_spec() == old(self).attempt_no_spec()
                    }
                },
                ConnectOutcome::TimedOut => {
                    &&& *final(holder) == *old(holder)
                    &&& if old(self).attempt_no_spec() < old(self).max_attempts_amount_spec() {
                        step is TryAgain && final(self).attempt_no_spec() == old(self).attempt_no_spec() + 1
                    } else {
                        step == ConnectStep::GiveUp(GrpcReadError::Timeout)
                            && final(self).attempt_no_spec() == old(self).attempt_no_spec()
                    }
                },
            },
    {
        match outcome {
            ConnectOutcome::Connected(channel) => {
                let handle = clone_channel(&channel);
                holder.set(self.service_name, self.connect_url.clone(), channel);
                ConnectStep::Established(handle)
            },
            ConnectOutcome::Failed(err) => {
                if self.budget.on_failure() {
                    ConnectStep::TryAgain
                } else {
                    ConnectStep::GiveUp(GrpcReadError::from(err))
                }
            },
            ConnectOutcome::TimedOut => {
                if self.budget.on_failure() {
                    ConnectStep::TryAgain
                } else {
                    ConnectStep::GiveUp(GrpcReadError::Timeout)
                }
            },
        }
    }
}

/// A read gives back the last write. After `set`, a reuse hands back a
/// clone of the channel that was set, and `drop_channel` hands back exactly
/// what was set; after that drop, a reuse hands back nothing.
pub proof fn law_reuse_after_set_and_drop(
    service_name: &'static str,
    host: String,
    channel: tonic::transport::Channel,
    reused_after_set: Option<tonic::transport::Channel>,
    reused_after_drop: Option<tonic::transport::Channel>,
)
    requires
        reuse_result(set_result(service_name, host, channel), reused_after_set),
        reuse_result(drop_result(set_result(service_name, host, channel)).0, reused_after_drop),
    ensures
        reused_after_set matches Some(handle) && cloned(channel, handle),
        drop_result(set_result(service_name, host, channel)).1 == Some(
            ChannelData { channel, host, service_name },
        ),
        reused_after_drop is None,
{
}

/// A channel that never opens is tried five times: once, and again for each
/// of the `CONNECT_RETRIES` retries, before the connection fails.
pub proof fn law_connection_attempts(outcomes: Seq<bool>)
    requires
        outcomes.len() > CONNECT_RETRIES,
        forall|i: int| 0 <= i < outcomes.len() ==> !outcomes[i],
    ensures
        attempts_made(0, CONNECT_RETRIES as nat, outcomes) == 5,
{
    law_failing_run_length(0, CONNECT_RETRIES as nat, outcomes);
}

} // verus!
