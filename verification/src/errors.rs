//! Error taxonomy for talking to the two external providers and for
//! process configuration.

use vstd::prelude::*;

verus! {

/// A failure while talking to an external provider.
///
/// `UpstreamUnavailable` is a transport/network failure, `UpstreamRejected`
/// carries a non-success HTTP status, and `MalformedResponse` means a
/// calendar payload did not have the expected nested shape.
#[derive(Clone, Copy, Debug, PartialEq, Eq, Structural)]
pub enum ServiceError {
    UpstreamUnavailable,
    UpstreamRejected(u16),
    MalformedResponse,
}

/// A required credential or identifier was absent at startup; fatal.
#[derive(Clone, Copy, Debug, PartialEq, Eq, Structural)]
pub enum ConfigError {
    ConfigurationMissing,
}

} // verus!
