use std::cell::{Cell, RefCell};
use std::rc::Rc;

use linkerd2_proxy::make_per_request::{self, Error};
use linkerd2_proxy::svc::{Async, Layer, Service, Stack};

/// An inner service that records which instance served each call.
struct Inner {
    id: u32,
    fail_calls: bool,
    log: Rc<RefCell<Vec<u32>>>,
}

impl Service for Inner {
    type Request = ();
    type Response = u32;
    type Error = u32;

    fn poll_ready(&mut self) -> Result<Async, u32> {
        Ok(Async::Ready)
    }

    fn call(&mut self, _request: ()) -> Result<u32, u32> {
        self.log.borrow_mut().push(self.id);
        if self.fail_calls {
            Err(self.id)
        } else {
            Ok(self.id)
        }
    }
}

#[derive(Clone)]
struct Factory {
    built: Rc<Cell<u32>>,
    refuse_after: u32,
    fail_calls: bool,
    log: Rc<RefCell<Vec<u32>>>,
}

impl Stack<u8> for Factory {
    type Value = Inner;
    type Error = &'static str;

    fn make(&self, _target: &u8) -> Result<Inner, &'static str> {
        let id = self.built.get();
        if id >= self.refuse_after {
            return Err("refused");
        }
        self.built.set(id + 1);
        Ok(Inner { id, fail_calls: self.fail_calls, log: self.log.clone() })
    }
}

fn factory(fail_calls: bool, refuse_after: u32) -> Factory {
    Factory {
        built: Rc::new(Cell::new(0)),
        refuse_after,
        fail_calls,
        log: Rc::new(RefCell::new(Vec::new())),
    }
}

#[test]
fn failed_instance_is_never_reused() {
    let f = factory(true, 100);
    let make = make_per_request::layer::<u8>().bind(f.clone());
    let mut svc = make.make(&7).unwrap();
    assert!(matches!(svc.call(()), Err(Error::Service(0))));
    assert!(matches!(svc.call(()), Err(Error::Service(1))));
    assert!(matches!(svc.poll_ready(), Ok(Async::Ready)));
    assert!(matches!(svc.call(()), Err(Error::Service(2))));
    assert_eq!(*f.log.borrow(), vec![0, 1, 2]);
}

#[test]
fn every_call_uses_a_distinct_instance() {
    let f = factory(false, 100);
    let make = make_per_request::layer::<u8>().bind(f.clone());
    let mut svc = make.make(&1).unwrap();
    let mut seen = Vec::new();
    for _ in 0..5 {
        assert!(svc.poll_ready().is_ok());
        seen.push(svc.call(()).ok().unwrap());
    }
    assert_eq!(seen, vec![0, 1, 2, 3, 4]);
}

#[test]
fn ready_poll_then_poll_builds_nothing() {
    let f = factory(false, 100);
    let make = make_per_request::layer::<u8>().bind(f.clone());
    let mut svc = make.make(&1).unwrap();
    assert_eq!(f.built.get(), 1);
    assert!(matches!(svc.poll_ready(), Ok(Async::Ready)));
    assert!(matches!(svc.poll_ready(), Ok(Async::Ready)));
    assert_eq!(f.built.get(), 1);
    assert_eq!(svc.call(()).ok(), Some(0));
    assert!(matches!(svc.poll_ready(), Ok(Async::Ready)));
    assert_eq!(f.built.get(), 2);
    assert!(matches!(svc.poll_ready(), Ok(Async::Ready)));
    assert_eq!(f.built.get(), 2);
}

#[test]
fn refused_target_is_refused_by_the_wrapper() {
    let f = factory(false, 0);
    let make = make_per_request::layer::<u8>().bind(f);
    assert!(matches!(make.make(&1), Err("refused")));
}

#[test]
fn failed_rebuild_is_reported() {
    let f = factory(false, 1);
    let make = make_per_request::layer::<u8>().bind(f.clone());
    let mut svc = make.make(&1).unwrap();
    assert_eq!(svc.call(()).ok(), Some(0));
    assert!(matches!(svc.poll_ready(), Err(Error::Rebuild("refused"))));
    assert!(matches!(svc.call(()), Err(Error::Rebuild("refused"))));
}
