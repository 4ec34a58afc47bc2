//! Connection-management core of a proxy: factory/service composition, a
//! disposable per-request client, a protocol-polymorphic HTTP client, a
//! hot-reloadable TLS layer and a resolve-once-then-connect pipeline.
pub mod svc;
pub mod make_per_request;
pub mod tls;
pub mod transport;
pub mod lookup;
pub mod h1;
pub mod http_client;
pub mod watch_tls;
pub mod control;
