use linkerd2_proxy::h1::{strip_connection_headers, Header};
use linkerd2_proxy::http_client::{
    self, is_upgrade, Client, ClientServiceFuture, Error, Http11Upgrade, HttpBody, Method, Request, ResponseHead,
    Settings, Version, INTERNAL_ERROR,
};
use linkerd2_proxy::svc::{Async, Stack};
use linkerd2_proxy::tls::{Conditional, ReasonForNoTls};
use linkerd2_proxy::transport::{self, IpAddr, SocketAddr};

fn header(name: &str, value: &str) -> Header {
    Header::new(name.as_bytes().to_vec(), value.as_bytes().to_vec())
}

fn names(headers: &[Header]) -> Vec<String> {
    headers.iter().map(|h| String::from_utf8(h.name.clone()).unwrap()).collect()
}

fn head(status: u16, headers: Vec<Header>) -> ResponseHead {
    ResponseHead { status, version: Version::Http11, headers, http_connect: false }
}

fn request(method: Method, upgrade: Option<Http11Upgrade>) -> Request {
    Request { method, version: Version::Http11, headers: vec![header("host", "example.com")], upgrade }
}

fn h1_service() -> http_client::ClientService<u8> {
    let client = Client::new(&Settings::Http1 { was_absolute_form: false }, 0u8);
    let mut start = client.new_service();
    let svc: Result<Option<http_client::ClientService<u8>>, ()> = start.poll(Ok(Async::NotReady));
    svc.unwrap().unwrap()
}

#[test]
fn keep_alive_removed_from_plain_response() {
    let mut svc = h1_service();
    let (_, mut fut) = svc.call(request(Method::Get, None));
    let res = fut
        .poll(Ok(Some(head(200, vec![header("connection", "keep-alive"), header("content-length", "3")]))))
        .unwrap()
        .unwrap();
    assert_eq!(names(&res.head.headers), vec!["content-length"]);
    assert_eq!(res.body, HttpBody::Http1 { upgrade: None });
}

#[test]
fn upgrade_response_keeps_headers() {
    let mut svc = h1_service();
    let marker = Http11Upgrade { id: 4 };
    let (sent, mut fut) = svc.call(request(Method::Get, Some(marker)));
    assert_eq!(sent.upgrade, None);
    let res = fut
        .poll(Ok(Some(head(101, vec![header("connection", "upgrade"), header("upgrade", "websocket")]))))
        .unwrap()
        .unwrap();
    assert_eq!(names(&res.head.headers), vec!["connection", "upgrade"]);
    assert_eq!(res.body, HttpBody::Http1 { upgrade: Some(marker) });
}

#[test]
fn connect_with_upgrade_gets_tunnel_marker() {
    let mut svc = h1_service();
    let (_, mut fut) = svc.call(request(Method::Connect, Some(Http11Upgrade { id: 1 })));
    assert!(matches!(fut, ClientServiceFuture::Http1 { is_http_connect: true, .. }));
    let res = fut.poll(Ok(Some(head(200, vec![header("keep-alive", "timeout=5")])))).unwrap().unwrap();
    assert!(res.head.http_connect);
    assert!(is_upgrade(&res.head));
    assert_eq!(names(&res.head.headers), vec!["keep-alive"]);
}

#[test]
fn connect_without_upgrade_is_no_tunnel() {
    let mut svc = h1_service();
    let (_, mut fut) = svc.call(request(Method::Connect, None));
    let res = fut.poll(Ok(Some(head(200, vec![header("keep-alive", "timeout=5")])))).unwrap().unwrap();
    assert!(!res.head.http_connect);
    assert!(res.head.headers.is_empty());
}

#[test]
fn listed_headers_are_stripped() {
    let mut headers = vec![
        header("x-a", "1"),
        header("Connection", " X-B ,x-c,,"),
        header("x-b", "2"),
        header("X-C", "3"),
        header("connection", "x-a"),
        header("proxy-connection", "close"),
        header("Upgrade", "h2c"),
        header("x-d", "4"),
    ];
    strip_connection_headers(&mut headers);
    assert_eq!(names(&headers), vec!["x-a", "x-d"]);
}

#[test]
fn non_text_connection_value_lists_nothing() {
    let mut headers = vec![
        Header::new(b"connection".to_vec(), vec![b'x', b'-', b'a', 0x80]),
        header("x-a", "1"),
    ];
    strip_connection_headers(&mut headers);
    assert_eq!(names(&headers), vec!["x-a"]);
}

#[test]
fn upgrade_needs_http11() {
    let mut h = head(101, vec![]);
    assert!(is_upgrade(&h));
    h.version = Version::Http10;
    assert!(!is_upgrade(&h));
    let mut c = head(204, vec![]);
    assert!(!is_upgrade(&c));
    c.http_connect = true;
    assert!(is_upgrade(&c));
    c.status = 407;
    assert!(!is_upgrade(&c));
}

#[test]
fn http2_passes_response_through() {
    let client = Client::new(&Settings::Http2, 0u8);
    let mut start = client.new_service();
    let pending: Result<Option<http_client::ClientService<u8>>, &str> = start.poll(Ok(Async::NotReady));
    assert!(matches!(pending, Ok(None)));
    let failed: Result<Option<http_client::ClientService<u8>>, &str> = start.poll(Err("refused"));
    assert!(matches!(failed, Err("refused")));
    let mut svc = start.poll::<()>(Ok(Async::Ready)).unwrap().unwrap();
    assert!(matches!(svc.poll_ready(Ok(Async::NotReady)), Ok(Async::NotReady)));
    assert!(matches!(svc.poll_ready(Err(Error::Http2 { reason: Some(7) })), Err(Error::Http2 { reason: Some(7) })));
    let (sent, mut fut) = svc.call(request(Method::Connect, Some(Http11Upgrade { id: 2 })));
    assert_eq!(sent.upgrade, Some(Http11Upgrade { id: 2 }));
    let res = fut.poll(Ok(Some(head(200, vec![header("connection", "close")])))).unwrap().unwrap();
    assert_eq!(names(&res.head.headers), vec!["connection"]);
    assert_eq!(res.body, HttpBody::Http2);
}

#[test]
fn http1_is_always_ready() {
    let svc = h1_service();
    assert!(matches!(svc.poll_ready(Err(Error::Http1)), Ok(Async::Ready)));
}

#[test]
fn pending_and_failed_responses() {
    let mut fut = ClientServiceFuture::Http1 { upgrade: None, is_http_connect: false };
    assert!(matches!(fut.poll(Ok(None)), Ok(None)));
    assert!(matches!(fut.poll(Err(Error::Http1)), Err(Error::Http1)));
}

#[test]
fn error_reasons() {
    assert_eq!(INTERNAL_ERROR, 2);
    assert_eq!(Error::Http1.reason(), Some(2));
    assert_eq!(Error::Http2 { reason: Some(8) }.reason(), Some(8));
    assert_eq!(Error::Http2 { reason: None }.reason(), None);
}

#[derive(Clone)]
struct Connector {
    refuse: bool,
}

impl Stack<transport::Target> for Connector {
    type Value = u16;
    type Error = &'static str;

    fn make(&self, target: &transport::Target) -> Result<u16, &'static str> {
        if self.refuse {
            Err("no connector")
        } else {
            Ok(target.addr.port)
        }
    }
}

#[test]
fn stack_builds_client_of_configured_protocol() {
    let target = transport::Target::new(
        SocketAddr::new(IpAddr::V4(127, 0, 0, 1), 80),
        Conditional::Absent(ReasonForNoTls::Loopback),
    );
    let stack = http_client::Stack::new("out", Connector { refuse: false });
    assert_eq!(stack.name(), "out");
    let client = stack.make(&http_client::Config::new(target, Settings::Http2)).ok().unwrap();
    let mut start = client.new_service();
    assert!(matches!(start.poll::<()>(Ok(Async::NotReady)), Ok(None)));
    let refusing = http_client::Stack::new("out", Connector { refuse: true });
    assert!(matches!(refusing.make(&http_client::Config::new(target, Settings::Http2)), Err("no connector")));
}
