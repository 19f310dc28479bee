//! The error that a gRPC read reports, and its conversions from the errors
//! of the transport, of a gRPC status and of an elapsed timer.

use vstd::prelude::*;
use vstd::std_specs::convert::FromSpecImpl;

verus! {

/// A transport failure of `tonic`, carried through unchanged.
#[verifier::external_type_specification]
#[verifier::external_body]
pub struct ExTransportError(tonic::transport::Error);

/// A gRPC status returned by the server, carried through unchanged.
#[verifier::external_type_specification]
#[verifier::external_body]
pub struct ExStatus(tonic::Status);

/// The error of a `tokio` timeout that elapsed.
#[verifier::external_type_specification]
#[verifier::external_body]
pub struct ExElapsed(tokio::time::error::Elapsed);

/// Why a gRPC read did not produce a response.
#[derive(Debug)]
pub enum GrpcReadError {
    /// The request, the connection or the ping did not finish in time.
    Timeout,
    /// The transport failed.
    TransportError(tonic::transport::Error),
    /// The server answered with a non-OK status.
    TonicStatus(tonic::Status),
}

impl From<tokio::time::error::Elapsed> for GrpcReadError {
    fn from(value: tokio::time::error::Elapsed) -> (res: Self) {
        GrpcReadError::Timeout
    }
}

impl FromSpecImpl<tokio::time::error::Elapsed> for GrpcReadError {
    open spec fn obeys_from_spec() -> bool {
        true
    }

    open spec fn from_spec(v: tokio::time::error::Elapsed) -> Self {
        GrpcReadError::Timeout
    }
}

impl From<tonic::Status> for GrpcReadError {
    fn from(value: tonic::Status) -> (res: Self) {
        GrpcReadError::TonicStatus(value)
    }
}

impl FromSpecImpl<tonic::Status> for GrpcReadError {
    open spec fn obeys_from_spec() -> bool {
        true
    }

    open spec fn from_spec(v: tonic::Status) -> Self {
        GrpcReadError::TonicStatus(v)
    }
}

impl From<tonic::transport::Error> for GrpcReadError {
    fn from(value: tonic::transport::Error) -> (res: Self) {
        GrpcReadError::TransportError(value)
    }
}

impl FromSpecImpl<tonic::transport::Error> for GrpcReadError {
    open spec fn obeys_from_spec() -> bool {
        true
    }

    open spec fn from_spec(v: tonic::transport::Error) -> Self {
        GrpcReadError::TransportError(v)
    }
}

} // verus!
