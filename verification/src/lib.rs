//! Verified core of a gRPC client toolkit: the error type of gRPC reads,
//! the retry budget shared by the retrying request builders and by channel
//! creation, the state of the shared channel holder, the decisions of the
//! background ping loop, and the settings that a generated client resolves.

pub mod error;
pub mod retry;
pub mod channel_holder;
pub mod channel_pool;
pub mod client_settings;
pub mod request_builder;
