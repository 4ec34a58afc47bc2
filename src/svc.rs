//! The composition vocabulary: factories (`Stack`) and services.
use vstd::prelude::*;

verus! {

/// Readiness reported by a service that did not fail.
#[derive(Clone, Copy, Debug, PartialEq, Eq, Structural)]
pub enum Async {
    Ready,
    NotReady,
}

/// A factory: builds a value (most often a `Service`) from a target.
pub trait Stack<T> {
    type Value;
    type Error;

    fn make(&self, target: &T) -> Result<Self::Value, Self::Error>;
}

/// A stateful request handler that is polled for readiness before each call.
pub trait Service {
    type Request;
    type Response;
    type Error;

    fn poll_ready(&mut self) -> Result<Async, Self::Error>;

    fn call(&mut self, request: Self::Request) -> Result<Self::Response, Self::Error>;
}

/// Wraps one factory to produce another.
pub trait Layer<M> {
    type Bound;

    fn bind(&self, inner: M) -> Self::Bound;
}

} // verus!
