//! A layer that rebuilds its inner service whenever the TLS client
//! configuration changes.
use std::marker::PhantomData;
use vstd::prelude::*;

use crate::svc;
use crate::svc::Async;
use crate::tls::ConditionalClientConfig;

verus! {

/// A target that can be given TLS client settings.
pub trait WithTls {
    type WithTls;

    fn with_tls(&self, tls: &ConditionalClientConfig) -> Self::WithTls;
}

} // verus!

verus! {

/// Binds an inner factory into one that follows the TLS client
/// configuration.
#[derive(Debug)]
pub struct Layer<T, M> {
    _p: PhantomData<(T, M)>,
}

/// A factory of services that are rebuilt on each TLS configuration change.
#[derive(Debug)]
pub struct Stack<T, M> {
    inner: M,
    _p: PhantomData<T>,
}

/// A target and the inner factory, from which an inner service is built for
/// any TLS configuration.
#[derive(Clone, Debug)]
pub struct StackWithTls<T, M> {
    target: T,
    inner: M,
}

/// Failure of a service that follows the TLS configuration.
#[derive(Debug)]
pub enum Error<I> {
    /// The last rebuild failed, so there is no inner service.
    Unavailable,
    /// The inner service failed.
    Inner(I),
}

/// A service that is rebuilt from the latest TLS configuration it observes.
///
/// The active inner service is the one built from the latest configuration
/// whose rebuild succeeded, and none after a rebuild that failed.
pub struct Service<T, M: svc::Stack<T::WithTls>> where T: WithTls {
    active: Option<(M::Value, Ghost<ConditionalClientConfig>)>,
    stack: StackWithTls<T, M>,
    served: Ghost<Seq<ConditionalClientConfig>>,
}

impl<T, M> Layer<T, M> {
    pub fn new() -> Layer<T, M> {
        Layer { _p: PhantomData }
    }
}

impl<T, M> svc::Layer<M> for Layer<T, M> {
    type Bound = Stack<T, M>;

    fn bind(&self, inner: M) -> Stack<T, M> {
        Stack { inner, _p: PhantomData }
    }
}

impl<T: WithTls + Clone, M: svc::Stack<T::WithTls> + Clone> Stack<T, M> {
    /// Builds a service for `target` from the configuration `current` that
    /// the watch holds now.
    pub fn make(&self, target: &T, current: &ConditionalClientConfig) -> (r: Result<Service<T, M>, M::Error>)
        ensures
            r matches Ok(s) ==> s.built_from() == Some(*current) && s.served().len() == 0,
    {
        let stack = StackWithTls { target: target.clone(), inner: self.inner.clone() };
        match svc::Stack::make(&stack, current) {
            Ok(v) => Ok(Service {
                active: Some((v, Ghost(*current))),
                stack,
                served: Ghost(Seq::empty()),
            }),
            Err(e) => Err(e),
        }
    }
}

impl<T: WithTls, M: svc::Stack<T::WithTls>> svc::Stack<ConditionalClientConfig> for StackWithTls<T, M> {
    type Value = M::Value;
    type Error = M::Error;

    fn make(&self, tls: &ConditionalClientConfig) -> Result<M::Value, M::Error> {
        svc::Stack::make(&self.inner, &self.target.with_tls(tls))
    }
}

impl<T: WithTls, M: svc::Stack<T::WithTls>> Service<T, M> {
    /// The configuration the active inner service was built from; none when
    /// there is no active inner service.
    pub closed spec fn built_from(&self) -> Option<ConditionalClientConfig> {
        match self.active {
            Some(a) => Some(a.1@),
            None => None,
        }
    }

    /// For each call that reached an inner service, the configuration that
    /// inner service was built from.
    pub closed spec fn served(&self) -> Seq<ConditionalClientConfig> {
        self.served@
    }

    /// What observing configuration `tls` does, `ok` telling whether the
    /// rebuild succeeded.
    pub open spec fn update_step(pre: Self, post: Self, tls: ConditionalClientConfig, ok: bool) -> bool {
        &&& post.served() == pre.served()
        &&& ok ==> post.built_from() == Some(tls)
        &&& !ok ==> post.built_from() is None
    }

    /// What a call does, `reached` telling whether an inner service took it.
    pub open spec fn call_step(pre: Self, post: Self, reached: bool) -> bool {
        &&& post.built_from() == pre.built_from()
        &&& reached <==> pre.built_from() is Some
        &&& reached ==> post.served() == pre.served().push(pre.built_from()->Some_0)
        &&& !reached ==> post.served() == pre.served()
    }

    /// Rebuilds the inner service from a newly observed configuration. On
    /// failure the error is handed back and the previous inner service is
    /// dropped.
    pub fn update(&mut self, tls: &ConditionalClientConfig) -> (r: Result<(), M::Error>)
        ensures
            Self::update_step(*old(self), *final(self), *tls, r is Ok),
    {
        self.active = None;
        match svc::Stack::make(&self.stack, tls) {
            Ok(v) => {
                self.active = Some((v, Ghost(*tls)));
                Ok(())
            },
            Err(e) => Err(e),
        }
    }

    /// Polls the active inner service.
    pub fn poll_ready(&mut self) -> (r: Result<Async, Error<<M::Value as svc::Service>::Error>>)
        where M::Value: svc::Service,
        ensures
            final(self).built_from() == old(self).built_from(),
            final(self).served() == old(self).served(),
            old(self).built_from() is None ==> r matches Err(Error::Unavailable),
            old(self).built_from() is Some ==> !(r matches Err(Error::Unavailable)),
    {
        match self.active.take() {
            Some((mut s, from)) => {
                let r = svc::Service::poll_ready(&mut s);
                self.active = Some((s, from));
                match r {
                    Ok(a) => Ok(a),
                    Err(e) => Err(Error::Inner(e)),
                }
            },
            None => Err(Error::Unavailable),
        }
    }

    /// Routes `request` to the active inner service.
    pub fn call(&mut self, request: <M::Value as svc::Service>::Request) -> (r: Result<
        <M::Value as svc::Service>::Response,
        Error<<M::Value as svc::Service>::Error>,
    >)
        where M::Value: svc::Service,
        ensures
            Self::call_step(*old(self), *final(self), !(r matches Err(Error::Unavailable))),
    {
        match self.active.take() {
            Some((mut s, from)) => {
                self.served = Ghost(self.served@.push(from@));
                let r = svc::Service::call(&mut s, request);
                self.active = Some((s, from));
                match r {
                    Ok(v) => Ok(v),
                    Err(e) => Err(Error::Inner(e)),
                }
            },
            None => Err(Error::Unavailable),
        }
    }
}

/// After any number of configuration updates whose rebuilds succeeded, with
/// no request between them, the next request is served by the inner service
/// built from the latest configuration. `configs[0]` is the configuration the
/// first state was built from, and `states[i + 1]` follows `states[i]` by the
/// update to `configs[i + 1]`.
pub proof fn lemma_latest_update_serves<T: WithTls, M: svc::Stack<T::WithTls>>(
    states: Seq<Service<T, M>>,
    configs: Seq<ConditionalClientConfig>,
    after: Service<T, M>,
    reached: bool,
)
    requires
        configs.len() >= 1,
        states.len() == configs.len(),
        states[0].built_from() == Some(configs[0]),
        forall|i: int|
            0 <= i < states.len() - 1 ==> #[trigger] Service::update_step(
                states[i],
                states[i + 1],
                configs[i + 1],
                true,
            ),
        Service::call_step(states.last(), after, reached),
    ensures
        reached,
        after.served().last() == configs.last(),
{
    let n = states.len() - 1;
    if n > 0 {
        let i = n - 1;
        assert(Service::update_step(states[i], states[i + 1], configs[i + 1], true));
    }
}

} // verus!
