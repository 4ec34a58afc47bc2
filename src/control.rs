//! The client of the control plane: its configuration, and a pipeline that
//! resolves the controller's host once before building a client for it.
use std::marker::PhantomData;
use vstd::prelude::*;

use crate::http_client;
use crate::http_client::Settings;
use crate::svc;
use crate::tls;
use crate::tls::{ConditionalClientConfig, ConditionalIdentity, ReasonForNoTls};
use crate::transport::{decimal, DnsError, HostAndPort, IpAddr, SocketAddr, Target};
use crate::watch_tls::WithTls;

verus! {

/// How to reach the controller.
#[derive(Clone, Debug)]
pub struct Config {
    host_and_port: HostAndPort,
    tls_server_identity: ConditionalIdentity,
    tls_config: ConditionalClientConfig,
    backoff_ms: u64,
    connect_timeout_ms: u64,
}

impl Config {
    pub closed spec fn host(&self) -> Seq<char> {
        self.host_and_port.host@
    }

    pub closed spec fn port(&self) -> u16 {
        self.host_and_port.port
    }

    pub closed spec fn server_identity(&self) -> ConditionalIdentity {
        self.tls_server_identity
    }

    pub closed spec fn client_tls(&self) -> ConditionalClientConfig {
        self.tls_config
    }

    pub closed spec fn backoff(&self) -> u64 {
        self.backoff_ms
    }

    pub closed spec fn connect_timeout(&self) -> u64 {
        self.connect_timeout_ms
    }

    /// A configuration whose client TLS is disabled until one is supplied by
    /// `with_tls`. Durations are in milliseconds.
    pub fn new(
        host_and_port: HostAndPort,
        tls_server_identity: ConditionalIdentity,
        backoff_ms: u64,
        connect_timeout_ms: u64,
    ) -> (r: Config)
        ensures
            r.host() == host_and_port.host@,
            r.port() == host_and_port.port,
            r.server_identity() == tls_server_identity,
            r.client_tls() == tls::Conditional::<tls::ClientConfig, ReasonForNoTls>::Absent(
                ReasonForNoTls::Disabled,
            ),
            r.backoff() == backoff_ms,
            r.connect_timeout() == connect_timeout_ms,
    {
        Config {
            host_and_port,
            tls_server_identity,
            tls_config: tls::Conditional::Absent(ReasonForNoTls::Disabled),
            backoff_ms,
            connect_timeout_ms,
        }
    }

    /// The controller's address as text, `host:port`.
    pub fn to_string(&self) -> (r: String)
        ensures
            r@ == self.host() + seq![':'] + decimal(self.port() as nat),
    {
        self.host_and_port.to_string()
    }

    pub fn host_and_port(&self) -> (r: &HostAndPort)
        ensures
            r.host@ == self.host(),
            r.port == self.port(),
    {
        &self.host_and_port
    }

    /// The client's TLS settings.
    pub fn client_tls_config(&self) -> (r: ConditionalClientConfig)
        ensures
            r == self.client_tls(),
    {
        self.tls_config
    }

    /// This configuration with `tls_config` as the client's TLS settings.
    pub fn with_tls(&self, tls_config: &ConditionalClientConfig) -> (r: Config)
        ensures
            r.client_tls() == *tls_config,
            r.host() == self.host(),
            r.port() == self.port(),
            r.server_identity() == self.server_identity(),
            r.backoff() == self.backoff(),
            r.connect_timeout() == self.connect_timeout(),
    {
        Config {
            host_and_port: HostAndPort {
                host: self.host_and_port.host.clone(),
                port: self.host_and_port.port,
            },
            tls_server_identity: self.tls_server_identity,
            tls_config: *tls_config,
            backoff_ms: self.backoff_ms,
            connect_timeout_ms: self.connect_timeout_ms,
        }
    }
}

impl WithTls for Config {
    type WithTls = Config;

    fn with_tls(&self, tls_config: &ConditionalClientConfig) -> Config {
        Config::with_tls(self, tls_config)
    }
}

/// Failure of the resolve-then-build pipeline.
#[derive(Debug)]
pub enum Error<S, I> {
    /// The controller's host could not be resolved.
    Dns(DnsError),
    /// The inner factory refused the resolved target.
    Invalid(S),
    /// Building the inner service failed.
    Inner(I),
}

/// Binds an inner factory of HTTP clients into a resolve-then-build factory.
#[derive(Debug)]
pub struct Layer<M> {
    _p: PhantomData<M>,
}

/// A factory of resolve-then-build pipelines.
#[derive(Clone, Debug)]
pub struct Stack<M> {
    inner: M,
}

/// Starts a resolve-then-build pipeline for one configuration.
pub struct NewService<M> {
    config: Config,
    stack: M,
}

enum State<M> {
    Resolve { port: u16, identity: ConditionalIdentity, client_tls: ConditionalClientConfig, stack: M },
    Inner,
    Done,
}

/// One run of the pipeline: resolving, then building, then done. It does not
/// restart.
pub struct Init<M> {
    state: State<M>,
    requested: Ghost<Option<http_client::Config>>,
}

impl<M> Layer<M> {
    pub fn new() -> Layer<M> {
        Layer { _p: PhantomData }
    }
}

impl<M> svc::Layer<M> for Layer<M> {
    type Bound = Stack<M>;

    fn bind(&self, inner: M) -> Stack<M> {
        Stack { inner }
    }
}

impl<M: Clone> Stack<M> {
    /// A pipeline for `config`, which does nothing until it is started.
    pub fn make(&self, config: &Config) -> (r: NewService<M>)
        ensures
            r.config().host() == config.host(),
            r.config().port() == config.port(),
            r.config().server_identity() == config.server_identity(),
            r.config().client_tls() == config.client_tls(),
            r.config().backoff() == config.backoff(),
            r.config().connect_timeout() == config.connect_timeout(),
    {
        // A copy of `config`, with the TLS settings it already has.
        NewService { config: config.with_tls(&config.client_tls_config()), stack: self.inner.clone() }
    }
}

impl<M: Clone> svc::Stack<Config> for Stack<M> {
    type Value = NewService<M>;
    type Error = ();

    fn make(&self, config: &Config) -> Result<NewService<M>, ()> {
        Ok(Stack::make(self, config))
    }
}

impl<M> NewService<M> {
    pub closed spec fn config(&self) -> Config {
        self.config
    }

    /// The configuration whose host is to be resolved.
    pub fn config_ref(&self) -> (r: &Config)
        ensures
            *r == self.config(),
    {
        &self.config
    }

    /// Starts the pipeline in its resolving phase; nothing is requested from
    /// the inner factory yet.
    pub fn new_service(&self) -> (r: Init<M>)
        where M: Clone,
        ensures
            r.is_resolving(),
            r.port() == self.config().port(),
            r.server_identity() == self.config().server_identity(),
            r.client_tls() == self.config().client_tls(),
            r.requested() is None,
    {
        Init {
            state: State::Resolve {
                port: self.config.host_and_port.port,
                identity: self.config.tls_server_identity,
                client_tls: self.config.tls_config,
                stack: self.stack.clone(),
            },
            requested: Ghost(None),
        }
    }
}

/// What the pipeline is told: the outcome of the DNS lookup, or of building
/// the inner service.
pub enum Event<S, I> {
    Resolved(Result<IpAddr, DnsError>),
    Built(Result<S, I>),
}

/// What a step of the pipeline hands back: the inner factory's value, whose
/// construction is to be awaited, or the finished service.
pub enum Step<V, S> {
    Build(V),
    Ready(S),
}

/// What the inner factory is asked for once `ip` is known: the address `ip`
/// with the configured port; no TLS when the server identity is absent (its
/// reason), or else when the client configuration is absent (its reason);
/// active TLS combining both when both are present.
pub proof fn lemma_resolved_target_cases(
    ip: IpAddr,
    port: u16,
    id: tls::Identity,
    config: tls::ClientConfig,
    reason: ReasonForNoTls,
    client_tls: ConditionalClientConfig,
)
    ensures
        resolved_target(ip, port, tls::Conditional::Absent(reason), client_tls).target.tls
            == tls::Conditional::<tls::ConnectionConfig, ReasonForNoTls>::Absent(reason),
        resolved_target(ip, port, tls::Conditional::Present(id), tls::Conditional::Absent(reason)).target.tls
            == tls::Conditional::<tls::ConnectionConfig, ReasonForNoTls>::Absent(reason),
        resolved_target(ip, port, tls::Conditional::Present(id), tls::Conditional::Present(config)).target.tls
            == tls::Conditional::<tls::ConnectionConfig, ReasonForNoTls>::Present(
            tls::ConnectionConfig { server_identity: id, config },
        ),
        resolved_target(ip, port, tls::Conditional::Present(id), client_tls).target.addr == (SocketAddr {
            ip,
            port,
        }),
        resolved_target(ip, port, tls::Conditional::Present(id), client_tls).settings == Settings::Http2,
{
}

/// The pipeline is in exactly one of its phases.
pub proof fn lemma_phases_exclusive<M>(init: Init<M>)
    ensures
        init.is_resolving() || init.is_building() || init.is_done(),
        init.is_resolving() ==> !init.is_building() && !init.is_done(),
        init.is_building() ==> !init.is_done(),
{
}

/// The HTTP/2 client configuration that the pipeline asks the inner factory
/// for once `ip` is known.
pub open spec fn resolved_target(
    ip: IpAddr,
    port: u16,
    identity: ConditionalIdentity,
    client_tls: ConditionalClientConfig,
) -> http_client::Config {
    http_client::Config {
        target: Target { addr: SocketAddr { ip, port }, tls: tls::composed(identity, client_tls) },
        settings: Settings::Http2,
    }
}

impl<M> Init<M> {
    #[verifier::type_invariant]
    spec fn inv(&self) -> bool {
        self.state is Resolve ==> self.requested@ is None
    }

    pub closed spec fn is_resolving(&self) -> bool {
        self.state is Resolve
    }

    pub closed spec fn is_building(&self) -> bool {
        self.state is Inner
    }

    pub closed spec fn is_done(&self) -> bool {
        self.state is Done
    }

    pub closed spec fn port(&self) -> u16 {
        match self.state {
            State::Resolve { port, .. } => port,
            _ => 0,
        }
    }

    pub closed spec fn server_identity(&self) -> ConditionalIdentity {
        match self.state {
            State::Resolve { identity, .. } => identity,
            _ => tls::Conditional::Absent(ReasonForNoTls::Disabled),
        }
    }

    pub closed spec fn client_tls(&self) -> ConditionalClientConfig {
        match self.state {
            State::Resolve { client_tls, .. } => client_tls,
            _ => tls::Conditional::Absent(ReasonForNoTls::Disabled),
        }
    }

    /// The configuration handed to the inner factory, if it was asked.
    pub closed spec fn requested(&self) -> Option<http_client::Config> {
        self.requested@
    }

    /// Takes the outcome of the DNS lookup. On an address, asks the inner
    /// factory for an HTTP/2 client of that address and the configured port,
    /// with the composed TLS settings, and hands back what it built; that
    /// value's construction is then awaited and reported to `built`.
    pub fn resolved<I>(&mut self, dns: Result<IpAddr, DnsError>) -> (r: Result<M::Value, Error<M::Error, I>>)
        where M: svc::Stack<http_client::Config>,
        requires
            old(self).is_resolving(),
        ensures
            match dns {
                Err(e) => {
                    &&& r matches Err(Error::Dns(d)) && d == e
                    &&& final(self).is_done()
                    &&& final(self).requested() is None
                },
                Ok(ip) => {
                    &&& final(self).requested() == Some(
                        resolved_target(ip, old(self).port(), old(self).server_identity(), old(self).client_tls()),
                    )
                    &&& r is Ok ==> final(self).is_building()
                    &&& r is Err ==> (r matches Err(Error::Invalid(_))) && final(self).is_done()
                },
            },
    {
        proof {
            use_type_invariant(&*self);
        }
        let mut state = State::Done;
        std::mem::swap(&mut state, &mut self.state);
        match state {
            State::Resolve { port, identity, client_tls, stack } => {
                match dns {
                    Err(e) => Err(Error::Dns(e)),
                    Ok(ip) => {
                        let addr = SocketAddr::new(ip, port);
                        let target = Target::new(addr, tls::compose(&identity, &client_tls));
                        let config = http_client::Config::new(target, Settings::Http2);
                        self.requested = Ghost(Some(config));
                        match svc::Stack::make(&stack, &config) {
                            Ok(v) => {
                                self.state = State::Inner;
                                Ok(v)
                            },
                            Err(e) => Err(Error::Invalid(e)),
                        }
                    },
                }
            },
            // Not reached: the pipeline is resolving.
            _ => Err(Error::Dns(DnsError::ResolutionFailed)),
        }
    }

    /// Advances the pipeline by `event`: a DNS outcome while resolving (see
    /// `resolved`), a build outcome while building (see `built`).
    pub fn poll<S, I>(&mut self, event: Event<S, I>) -> (r: Result<Step<M::Value, S>, Error<M::Error, I>>)
        where M: svc::Stack<http_client::Config>,
        requires
            event is Resolved ==> old(self).is_resolving(),
            event is Built ==> old(self).is_building(),
        ensures
            match event {
                Event::Resolved(Err(e)) => {
                    &&& r matches Err(Error::Dns(d)) && d == e
                    &&& final(self).is_done()
                    &&& final(self).requested() is None
                },
                Event::Resolved(Ok(ip)) => {
                    &&& final(self).requested() == Some(
                        resolved_target(ip, old(self).port(), old(self).server_identity(), old(self).client_tls()),
                    )
                    &&& r is Ok ==> (r matches Ok(Step::Build(_))) && final(self).is_building()
                    &&& r is Err ==> (r matches Err(Error::Invalid(_))) && final(self).is_done()
                },
                Event::Built(Ok(s)) => {
                    &&& r == Ok::<Step<M::Value, S>, Error<M::Error, I>>(Step::Ready(s))
                    &&& final(self).is_done()
                    &&& final(self).requested() == old(self).requested()
                },
                Event::Built(Err(e)) => {
                    &&& r matches Err(Error::Inner(x)) && x == e
                    &&& final(self).is_done()
                    &&& final(self).requested() == old(self).requested()
                },
            },
    {
        match event {
            Event::Resolved(dns) => match self.resolved(dns) {
                Ok(v) => Ok(Step::Build(v)),
                Err(e) => Err(e),
            },
            Event::Built(inner) => match self.built(inner) {
                Ok(s) => Ok(Step::Ready(s)),
                Err(e) => Err(e),
            },
        }
    }

    /// Takes the outcome of building the inner service and ends the pipeline.
    pub fn built<S, I>(&mut self, inner: Result<S, I>) -> (r: Result<S, Error<M::Error, I>>)
        where M: svc::Stack<http_client::Config>,
        requires
            old(self).is_building(),
        ensures
            final(self).is_done(),
            final(self).requested() == old(self).requested(),
            match inner {
                Ok(s) => r == Ok::<S, Error<M::Error, I>>(s),
                Err(e) => r matches Err(Error::Inner(x)) && x == e,
            },
    {
        self.state = State::Done;
        match inner {
            Ok(s) => Ok(s),
            Err(e) => Err(Error::Inner(e)),
        }
    }
}

} // verus!
