//! TLS settings as the connection pipeline sees them: present, or absent with
//! a reason.
use vstd::prelude::*;

verus! {

/// A value that is either present or absent for a stated reason.
#[derive(Clone, Copy, Debug, PartialEq, Eq)]
pub enum Conditional<C, R> {
    Present(C),
    Absent(R),
}

/// Why a connection does not use TLS.
#[derive(Clone, Copy, Debug, PartialEq, Eq, Structural)]
pub enum ReasonForNoTls {
    /// TLS is switched off.
    Disabled,
    /// No client configuration has been provisioned yet.
    NotProvisioned,
    /// The destination has no identity to verify.
    NoIdentity,
    /// The destination is this host.
    Loopback,
    /// The traffic is not HTTP.
    NotHttp,
}

/// An opaque handle on a server identity that a TLS peer must present.
#[derive(Clone, Copy, Debug, PartialEq, Eq, Structural)]
pub struct Identity {
    pub id: u64,
}

/// An opaque handle on a provisioned TLS client configuration; each update of
/// the configuration carries a new generation.
#[derive(Clone, Copy, Debug, PartialEq, Eq, Structural)]
pub struct ClientConfig {
    pub generation: u64,
}

/// What a TLS connection is set up with: whom to expect and how to speak.
#[derive(Clone, Copy, Debug, PartialEq, Eq, Structural)]
pub struct ConnectionConfig {
    pub server_identity: Identity,
    pub config: ClientConfig,
}

pub type ConditionalIdentity = Conditional<Identity, ReasonForNoTls>;

pub type ConditionalClientConfig = Conditional<ClientConfig, ReasonForNoTls>;

pub type ConditionalConnectionConfig = Conditional<ConnectionConfig, ReasonForNoTls>;

/// TLS is active only when both sides are present; otherwise the first absent
/// side (the identity's, when both are absent) gives the reason.
pub open spec fn composed(
    identity: ConditionalIdentity,
    config: ConditionalClientConfig,
) -> ConditionalConnectionConfig {
    match identity {
        Conditional::Absent(reason) => Conditional::Absent(reason),
        Conditional::Present(id) => match config {
            Conditional::Absent(reason) => Conditional::Absent(reason),
            Conditional::Present(c) => Conditional::Present(ConnectionConfig { server_identity: id, config: c }),
        },
    }
}

/// Composes the TLS settings of a connection from the destination's identity
/// and the client's current configuration.
pub fn compose(identity: &ConditionalIdentity, config: &ConditionalClientConfig) -> (r: ConditionalConnectionConfig)
    ensures
        r == composed(*identity, *config),
{
    match identity {
        Conditional::Absent(reason) => Conditional::Absent(*reason),
        Conditional::Present(id) => match config {
            Conditional::Absent(reason) => Conditional::Absent(*reason),
            Conditional::Present(c) => Conditional::Present(ConnectionConfig { server_identity: *id, config: *c }),
        },
    }
}

} // verus!
