use linkerd2_proxy::svc::{Async, Layer, Service, Stack};
use linkerd2_proxy::tls::{ClientConfig, Conditional, ConditionalClientConfig, ReasonForNoTls};
use linkerd2_proxy::watch_tls::{self, Error, WithTls};

#[derive(Clone)]
struct Dest {
    name: u32,
}

struct DestWithTls {
    name: u32,
    tls: ConditionalClientConfig,
}

impl WithTls for Dest {
    type WithTls = DestWithTls;

    fn with_tls(&self, tls: &ConditionalClientConfig) -> DestWithTls {
        DestWithTls { name: self.name, tls: *tls }
    }
}

/// Serves each request with the TLS generation it was built from.
struct Inner {
    tls: ConditionalClientConfig,
}

impl Service for Inner {
    type Request = ();
    type Response = ConditionalClientConfig;
    type Error = ();

    fn poll_ready(&mut self) -> Result<Async, ()> {
        Ok(Async::Ready)
    }

    fn call(&mut self, _request: ()) -> Result<ConditionalClientConfig, ()> {
        Ok(self.tls)
    }
}

#[derive(Clone)]
struct Factory;

impl Stack<DestWithTls> for Factory {
    type Value = Inner;
    type Error = u64;

    fn make(&self, target: &DestWithTls) -> Result<Inner, u64> {
        match target.tls {
            Conditional::Present(ClientConfig { generation }) if generation >= 100 => Err(generation),
            tls => Ok(Inner { tls }),
        }
    }
}

fn generation(n: u64) -> ConditionalClientConfig {
    Conditional::Present(ClientConfig { generation: n })
}

#[test]
fn latest_update_serves_next_request() {
    let stack = watch_tls::Layer::<Dest, Factory>::new().bind(Factory);
    let mut svc = stack.make(&Dest { name: 1 }, &Conditional::Absent(ReasonForNoTls::NotProvisioned)).ok().unwrap();
    for n in 1..=5 {
        assert!(svc.update(&generation(n)).is_ok());
    }
    assert!(matches!(svc.poll_ready(), Ok(Async::Ready)));
    assert_eq!(svc.call(()).ok(), Some(generation(5)));
}

#[test]
fn no_update_serves_initial_config() {
    let stack = watch_tls::Layer::<Dest, Factory>::new().bind(Factory);
    let mut svc = stack.make(&Dest { name: 1 }, &generation(1)).ok().unwrap();
    assert_eq!(svc.call(()).ok(), Some(generation(1)));
}

#[test]
fn failed_rebuild_drops_stale_service() {
    let stack = watch_tls::Layer::<Dest, Factory>::new().bind(Factory);
    let mut svc = stack.make(&Dest { name: 1 }, &generation(1)).ok().unwrap();
    assert!(matches!(svc.update(&generation(100)), Err(100)));
    assert!(matches!(svc.poll_ready(), Err(Error::Unavailable)));
    assert!(matches!(svc.call(()), Err(Error::Unavailable)));
    assert!(svc.update(&generation(2)).is_ok());
    assert_eq!(svc.call(()).ok(), Some(generation(2)));
}

#[test]
fn initial_build_failure_is_reported() {
    let stack = watch_tls::Layer::<Dest, Factory>::new().bind(Factory);
    assert!(matches!(stack.make(&Dest { name: 1 }, &generation(150)), Err(150)));
}
