//! A factory of single-serving clients: each request is served by an inner
//! service that has never served another, so an inner service that failed is
//! never used again.
use std::marker::PhantomData;
use vstd::prelude::*;

use crate::svc;
use crate::svc::Async;

verus! {

/// Binds an inner factory into a factory of disposable clients.
pub struct Layer<T> {
    _p: PhantomData<T>,
}

/// A factory that builds a disposable client for each target.
#[derive(Debug)]
pub struct Make<T, M> {
    inner: M,
    _p: PhantomData<T>,
}

/// A target together with the factory that accepted it, kept so that a fresh
/// inner service can be built whenever one is needed.
pub struct MakeValid<T, M> {
    target: T,
    make: M,
}

/// Failure of a disposable client.
#[derive(Debug)]
pub enum Error<S, M> {
    /// The inner service failed.
    Service(S),
    /// Building a fresh inner service from the already accepted target failed.
    /// The disposable client cannot serve any more and should be dropped.
    Rebuild(M),
}

/// A service that serves each request with a fresh inner service.
///
/// Inner services are numbered in the order they are built. At most one of
/// them is cached (the last one built), and every call consumes the inner
/// service that serves it.
pub struct Service<T, M: svc::Stack<T>> {
    next: Option<M::Value>,
    make: MakeValid<T, M>,
    built: Ghost<nat>,
    served: Ghost<Seq<nat>>,
}

pub fn layer<T>() -> Layer<T> {
    Layer { _p: PhantomData }
}

impl<T> Layer<T> {
    /// The factory of disposable clients built by `inner`.
    pub fn bind<N>(&self, inner: N) -> (r: Make<T, N>)
        ensures
            r.inner() == inner,
    {
        Make { inner, _p: PhantomData }
    }
}

impl<T, N> svc::Layer<N> for Layer<T> {
    type Bound = Make<T, N>;

    fn bind(&self, inner: N) -> Make<T, N> {
        Layer::bind(self, inner)
    }
}

impl<T, M> Make<T, M> {
    /// The inner factory.
    pub closed spec fn inner(&self) -> M {
        self.inner
    }
}

impl<T: Clone, M: svc::Stack<T> + Clone> Make<T, M> {
    /// Builds the first inner service for `target` right away, so that a
    /// target the inner factory refuses is refused here; that service is
    /// cached for the first call.
    pub fn make(&self, target: &T) -> (r: Result<Service<T, M>, M::Error>)
        ensures
            r matches Ok(s) ==> s.built() == 1 && s.has_next() && s.served().len() == 0,
    {
        let next = match svc::Stack::make(&self.inner, target) {
            Ok(s) => s,
            Err(e) => {
                return Err(e);
            },
        };
        let valid = MakeValid { make: self.inner.clone(), target: target.clone() };
        Ok(Service { next: Some(next), make: valid, built: Ghost(1), served: Ghost(Seq::empty()) })
    }
}

impl<T: Clone, M: svc::Stack<T> + Clone> svc::Stack<T> for Make<T, M> {
    type Value = Service<T, M>;
    type Error = M::Error;

    fn make(&self, target: &T) -> Result<Service<T, M>, M::Error> {
        Make::make(self, target)
    }
}

impl<T, M: svc::Stack<T>> MakeValid<T, M> {
    /// Builds a fresh inner service from the kept target.
    pub fn make_valid(&self) -> Result<M::Value, M::Error> {
        svc::Stack::make(&self.make, &self.target)
    }
}

impl<T, M: svc::Stack<T>> Service<T, M> {
    /// How many inner services have been built so far.
    pub closed spec fn built(&self) -> nat {
        self.built@
    }

    /// The number of the inner service that served each call, in order.
    pub closed spec fn served(&self) -> Seq<nat> {
        self.served@
    }

    /// Whether an inner service is cached for the next call.
    pub closed spec fn has_next(&self) -> bool {
        self.next is Some
    }

    #[verifier::type_invariant]
    spec fn inv(&self) -> bool {
        &&& forall|i: int| 0 <= i < self.served@.len() ==> #[trigger] self.served@[i] < self.built@
        &&& forall|i: int, j: int|
            0 <= i < j < self.served@.len() ==> #[trigger] self.served@[i] < #[trigger] self.served@[j]
        &&& self.next is Some ==> {
            &&& self.built@ > 0
            &&& forall|i: int| 0 <= i < self.served@.len() ==> #[trigger] self.served@[i] < self.built@ - 1
        }
    }

    /// Whether no call so far was served by inner service number `id`.
    pub open spec fn fresh(&self, id: nat) -> bool {
        forall|i: int| 0 <= i < self.served().len() ==> self.served()[i] != id
    }

    /// The number of the inner service that the next call uses: the cached
    /// one, or else the one that the call builds.
    pub open spec fn next_id(&self) -> nat {
        if self.has_next() { (self.built() - 1) as nat } else { self.built() }
    }

    /// What a call of `poll_ready` does, `ok` telling whether it returned `Ok`
    /// and `rebuild_failed` whether it failed to build a fresh inner service.
    /// A cached inner service is one that was built.
    pub open spec fn poll_ready_step(pre: Self, post: Self, ok: bool, rebuild_failed: bool) -> bool {
        &&& post.served() == pre.served()
        &&& pre.has_next() ==> pre.built() > 0
        &&& post.has_next() ==> post.built() > 0
        &&& pre.has_next() ==> post.has_next() && post.built() == pre.built() && !rebuild_failed
        &&& !pre.has_next() && rebuild_failed ==> !post.has_next() && post.built() == pre.built()
        &&& !pre.has_next() && !rebuild_failed ==> post.built() == pre.built() + 1
        &&& ok ==> post.has_next() && !rebuild_failed
    }

    /// What a call of `call` does, `served` telling whether an inner service
    /// was at hand to serve it. An inner service serves at most one call.
    pub open spec fn call_step(pre: Self, post: Self, served: bool) -> bool {
        &&& !post.has_next()
        &&& pre.has_next() ==> pre.built() > 0
        &&& served ==> {
            &&& pre.fresh(pre.next_id())
            &&& post.served() == pre.served().push(pre.next_id())
            &&& post.built() == pre.next_id() + 1
        }
        &&& !served ==> !pre.has_next() && post.served() == pre.served() && post.built() == pre.built()
    }

    /// Polls the cached inner service; with none cached, builds a fresh one,
    /// polls it, and caches it unless the poll failed.
    pub fn poll_ready(&mut self) -> (r: Result<Async, Error<<M::Value as svc::Service>::Error, M::Error>>)
        where M::Value: svc::Service,
        ensures
            Self::poll_ready_step(*old(self), *final(self), r is Ok, r matches Err(Error::Rebuild(_))),
    {
        proof {
            use_type_invariant(&*self);
        }
        let mut taken = None;
        std::mem::swap(&mut taken, &mut self.next);
        match taken {
            Some(mut s) => {
                let r = svc::Service::poll_ready(&mut s);
                self.next = Some(s);
                match r {
                    Ok(a) => Ok(a),
                    Err(e) => Err(Error::Service(e)),
                }
            },
            None => {
                let mut s = match self.make.make_valid() {
                    Ok(s) => s,
                    Err(e) => {
                        return Err(Error::Rebuild(e));
                    },
                };
                self.built = Ghost(self.built@ + 1);
                match svc::Service::poll_ready(&mut s) {
                    Ok(a) => {
                        self.next = Some(s);
                        Ok(a)
                    },
                    Err(e) => Err(Error::Service(e)),
                }
            },
        }
    }

    /// Serves `request` with the cached inner service, or with one built on
    /// the spot; either way that inner service is consumed.
    pub fn call(&mut self, request: <M::Value as svc::Service>::Request) -> (r: Result<
        <M::Value as svc::Service>::Response,
        Error<<M::Value as svc::Service>::Error, M::Error>,
    >)
        where M::Value: svc::Service,
        ensures
            Self::call_step(*old(self), *final(self), !(r matches Err(Error::Rebuild(_)))),
    {
        proof {
            use_type_invariant(&*self);
        }
        let mut taken = None;
        std::mem::swap(&mut taken, &mut self.next);
        let mut s = match taken {
            Some(s) => s,
            None => {
                match self.make.make_valid() {
                    Ok(s) => {
                        self.built = Ghost(self.built@ + 1);
                        s
                    },
                    Err(e) => {
                        return Err(Error::Rebuild(e));
                    },
                }
            },
        };
        self.served = Ghost(self.served@.push((self.built@ - 1) as nat));
        match svc::Service::call(&mut s, request) {
            Ok(v) => Ok(v),
            Err(e) => Err(Error::Service(e)),
        }
    }
}

impl<T, M: svc::Stack<T>> svc::Service for Service<T, M> where M::Value: svc::Service {
    type Request = <M::Value as svc::Service>::Request;
    type Response = <M::Value as svc::Service>::Response;
    type Error = Error<<M::Value as svc::Service>::Error, M::Error>;

    fn poll_ready(&mut self) -> Result<Async, Self::Error> {
        Service::poll_ready(self)
    }

    fn call(&mut self, request: Self::Request) -> Result<Self::Response, Self::Error> {
        Service::call(self, request)
    }
}

/// A poll that returned `Ok` leaves an inner service cached, so the poll that
/// follows it builds none.
pub proof fn lemma_ready_poll_builds_nothing_after<T, M: svc::Stack<T>>(
    s0: Service<T, M>,
    s1: Service<T, M>,
    s2: Service<T, M>,
    second_ok: bool,
    second_rebuild_failed: bool,
)
    requires
        Service::poll_ready_step(s0, s1, true, false),
        Service::poll_ready_step(s1, s2, second_ok, second_rebuild_failed),
    ensures
        s2.built() == s1.built(),
        s2.has_next(),
{
}

} // verus!
