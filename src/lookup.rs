//! A connector that resolves its target's host each time it connects.
use std::marker::PhantomData;
use vstd::prelude::*;

use crate::svc;
use crate::tls::ConditionalConnectionConfig;
use crate::transport;
use crate::transport::{DnsError, HostAndPort, IpAddr, SocketAddr};

verus! {

/// Builds connectors for targets named by host.
pub struct Stack<T> {
    _p: PhantomData<T>,
}

/// A host to resolve, and the TLS settings of the connection to it.
#[derive(Clone, Debug)]
pub struct Target {
    pub host_and_port: HostAndPort,
    pub tls: ConditionalConnectionConfig,
}

/// A connector for one target.
#[derive(Clone, Debug)]
pub struct Connect {
    target: Target,
}

/// Failure of a connection attempt.
#[derive(Clone, Copy, Debug, PartialEq, Eq, Structural)]
pub enum Error {
    /// The transport connection failed.
    Io,
    /// The host could not be resolved.
    Resolve(DnsError),
}

/// Refusal of a target; no target is refused.
#[derive(Clone, Copy, Debug, PartialEq, Eq, Structural)]
pub struct InvalidTarget;

impl InvalidTarget {
    /// The message that describes this refusal.
    pub fn description(&self) -> (r: &'static str)
        ensures
            r@ == "Invalid target"@,
    {
        let r = "Invalid target";
        proof {
            reveal_strlit("Invalid target");
        }
        r
    }
}

impl<T> Stack<T> {
    pub fn new() -> Stack<T> {
        Stack { _p: PhantomData }
    }
}

impl Stack<Target> {
    /// A connector for `target`; every target is accepted.
    pub fn make(&self, target: &Target) -> (r: Result<Connect, InvalidTarget>)
        ensures
            r matches Ok(c) && c.host() == target.host_and_port.host@ && c.port() == target.host_and_port.port
                && c.tls() == target.tls,
    {
        Ok(
            Connect {
                target: Target {
                    host_and_port: HostAndPort {
                        host: target.host_and_port.host.clone(),
                        port: target.host_and_port.port,
                    },
                    tls: target.tls,
                },
            },
        )
    }
}

impl svc::Stack<Target> for Stack<Target> {
    type Value = Connect;
    type Error = InvalidTarget;

    fn make(&self, target: &Target) -> Result<Connect, InvalidTarget> {
        Stack::make(self, target)
    }
}

impl Connect {
    pub closed spec fn host(&self) -> Seq<char> {
        self.target.host_and_port.host@
    }

    pub closed spec fn port(&self) -> u16 {
        self.target.host_and_port.port
    }

    pub closed spec fn tls(&self) -> ConditionalConnectionConfig {
        self.target.tls
    }

    /// The host name to resolve before connecting.
    pub fn host_and_port(&self) -> (r: &HostAndPort)
        ensures
            r.host@ == self.host(),
            r.port == self.port(),
    {
        &self.target.host_and_port
    }

    /// Takes the outcome of resolving the host: an address gives the
    /// transport target to connect to, the resolved address with the
    /// target's port and TLS settings; a lookup failure is the connection's
    /// failure.
    pub fn resolved(&self, dns: Result<IpAddr, DnsError>) -> (r: Result<transport::Target, Error>)
        ensures
            match dns {
                Ok(ip) => r == Ok::<transport::Target, Error>(
                    transport::Target { addr: SocketAddr { ip, port: self.port() }, tls: self.tls() },
                ),
                Err(e) => r == Err::<transport::Target, Error>(Error::Resolve(e)),
            },
    {
        match dns {
            Ok(ip) => Ok(transport::Target::new(SocketAddr::new(ip, self.target.host_and_port.port), self.target.tls)),
            Err(e) => Err(Error::Resolve(e)),
        }
    }
}

} // verus!
