//! An HTTP client that speaks HTTP/1.1 or HTTP/2 behind one interface.
use vstd::prelude::*;

use crate::h1;
use crate::h1::Header;
use crate::svc;
use crate::svc::Async;
use crate::transport;

verus! {

/// The protocol a client speaks, fixed when it is built.
#[derive(Clone, Copy, Debug, PartialEq, Eq, Structural)]
pub enum Settings {
    /// HTTP/1.1; `was_absolute_form` tells whether request targets are
    /// written in absolute form.
    Http1 { was_absolute_form: bool },
    Http2,
}

/// Configures an HTTP client: where to connect and which protocol to speak.
#[derive(Clone, Copy, Debug, PartialEq, Eq)]
pub struct Config {
    pub target: transport::Target,
    pub settings: Settings,
}

impl Config {
    pub fn new(target: transport::Target, settings: Settings) -> (r: Config)
        ensures
            r == (Config { target, settings }),
    {
        Config { target, settings }
    }
}

/// A request method.
#[derive(Clone, Copy, Debug, PartialEq, Eq, Structural)]
pub enum Method {
    Options,
    Get,
    Post,
    Put,
    Delete,
    Head,
    Trace,
    Connect,
    Patch,
    Other,
}

/// An HTTP version.
#[derive(Clone, Copy, Debug, PartialEq, Eq, Structural)]
pub enum Version {
    Http09,
    Http10,
    Http11,
    H2,
    H3,
}

/// A handle on the pending upgrade of one HTTP/1.1 connection, carried by a
/// request that may upgrade.
#[derive(Clone, Copy, Debug, PartialEq, Eq, Structural)]
pub struct Http11Upgrade {
    pub id: u64,
}

/// The parts of a request that the client reads.
#[derive(Debug)]
pub struct Request {
    pub method: Method,
    pub version: Version,
    pub headers: Vec<Header>,
    /// The upgrade marker, if the request may upgrade its connection.
    pub upgrade: Option<Http11Upgrade>,
}

/// The head of a response; `http_connect` is the marker that a CONNECT
/// tunnel was asked for.
#[derive(Debug)]
pub struct ResponseHead {
    pub status: u16,
    pub version: Version,
    pub headers: Vec<Header>,
    pub http_connect: bool,
}

/// The body of a response, tagged with the protocol it came over.
#[derive(Clone, Copy, Debug, PartialEq, Eq, Structural)]
pub enum HttpBody {
    Http1 { upgrade: Option<Http11Upgrade> },
    Http2,
}

/// A response as the client hands it back.
#[derive(Debug)]
pub struct Response {
    pub head: ResponseHead,
    pub body: HttpBody,
}

/// The HTTP/2 error code `INTERNAL_ERROR`.
pub const INTERNAL_ERROR: u32 = 2;

/// A failure of the HTTP/1 or the HTTP/2 client. The variant names the
/// client it occurred in, not necessarily a protocol error.
#[derive(Clone, Copy, Debug, PartialEq, Eq, Structural)]
pub enum Error {
    Http1,
    Http2 { reason: Option<u32> },
}

impl Error {
    /// The HTTP/2 error code that best describes this failure: HTTP/1 has no
    /// codes, so its failures are internal errors.
    pub fn reason(&self) -> (r: Option<u32>)
        ensures
            match *self {
                Error::Http1 => r == Some(INTERNAL_ERROR),
                Error::Http2 { reason } => r == reason,
            },
    {
        match self {
            Error::Http1 => Some(INTERNAL_ERROR),
            Error::Http2 { reason } => *reason,
        }
    }
}

/// A response is an HTTP/1.1 upgrade when it switches protocols, or when it
/// accepts a CONNECT tunnel with a success status.
pub open spec fn is_upgrade_spec(head: &ResponseHead) -> bool {
    &&& head.version == Version::Http11
    &&& head.status == 101 || (head.http_connect && 200 <= head.status < 300)
}

pub fn is_upgrade(head: &ResponseHead) -> (r: bool)
    ensures
        r == is_upgrade_spec(head),
{
    if head.version != Version::Http11 {
        return false;
    }
    if head.status == 101 {
        return true;
    }
    head.http_connect && 200 <= head.status && head.status < 300
}

/// Builds clients: connects through `C` and speaks the configured protocol.
#[derive(Clone, Debug)]
pub struct Stack<C> {
    connect: C,
    proxy_name: &'static str,
}

enum ClientInner<C> {
    Http1 { connect: C, was_absolute_form: bool },
    Http2 { connect: C },
}

/// A client bound to one protocol, from which services are started.
pub struct Client<C> {
    inner: ClientInner<C>,
}

enum NewServiceInner<C> {
    Http1(Option<ClientService<C>>),
    Http2,
}

/// Starting a service: immediate for HTTP/1, a handshake for HTTP/2.
pub struct ClientNewServiceFuture<C> {
    inner: NewServiceInner<C>,
}

enum ServiceInner<C> {
    Http1 { connect: C, was_absolute_form: bool },
    Http2,
}

/// A service that serves requests over one protocol.
pub struct ClientService<C> {
    inner: ServiceInner<C>,
}

/// A response on its way: HTTP/1 keeps the upgrade marker of its request and
/// whether it asked for a CONNECT tunnel.
#[derive(Debug)]
pub enum ClientServiceFuture {
    Http1 { upgrade: Option<Http11Upgrade>, is_http_connect: bool },
    Http2,
}

/// The response future that a call with `method` and upgrade marker
/// `upgrade` starts on a service of protocol `settings`.
pub open spec fn future_for(settings: Settings, method: Method, upgrade: Option<Http11Upgrade>) -> ClientServiceFuture {
    match settings {
        Settings::Http1 { .. } => ClientServiceFuture::Http1 {
            upgrade,
            is_http_connect: upgrade is Some && method == Method::Connect,
        },
        Settings::Http2 => ClientServiceFuture::Http2,
    }
}

/// Whether the response that `fut` completes with carries the tunnel marker,
/// `marked` telling whether the response head already did.
pub open spec fn tunnel_marked(fut: ClientServiceFuture, marked: bool) -> bool {
    match fut {
        ClientServiceFuture::Http1 { is_http_connect, .. } => marked || is_http_connect,
        ClientServiceFuture::Http2 => marked,
    }
}

/// Over HTTP/1, a CONNECT request that carries an upgrade marker gets a
/// response that carries the tunnel marker.
pub proof fn lemma_connect_upgrade_is_tunnelled(
    was_absolute_form: bool,
    upgrade: Http11Upgrade,
    marked: bool,
)
    ensures
        tunnel_marked(
            future_for(Settings::Http1 { was_absolute_form }, Method::Connect, Some(upgrade)),
            marked,
        ),
{
}

impl<C> Stack<C> {
    pub fn new(proxy_name: &'static str, connect: C) -> (r: Stack<C>)
        ensures
            r.proxy_name() == proxy_name,
    {
        Stack { connect, proxy_name }
    }

    pub closed spec fn proxy_name(&self) -> &'static str {
        self.proxy_name
    }

    /// The name used to describe this client in diagnostics.
    pub fn name(&self) -> (r: &'static str)
        ensures
            r == self.proxy_name(),
    {
        self.proxy_name
    }

    /// Obtains a connector for the configured target and builds a client of
    /// the configured protocol; a connector failure is handed back.
    pub fn make(&self, config: &Config) -> (r: Result<Client<C::Value>, C::Error>)
        where C: svc::Stack<transport::Target>,
        ensures
            r matches Ok(c) ==> c.settings() == config.settings,
    {
        match svc::Stack::make(&self.connect, &config.target) {
            Ok(connect) => Ok(Client::new(&config.settings, connect)),
            Err(e) => Err(e),
        }
    }
}

impl<C: svc::Stack<transport::Target>> svc::Stack<Config> for Stack<C> {
    type Value = Client<C::Value>;
    type Error = C::Error;

    fn make(&self, config: &Config) -> Result<Client<C::Value>, C::Error> {
        Stack::make(self, config)
    }
}

impl<C> Client<C> {
    pub closed spec fn settings(&self) -> Settings {
        match self.inner {
            ClientInner::Http1 { was_absolute_form, .. } => Settings::Http1 { was_absolute_form },
            ClientInner::Http2 { .. } => Settings::Http2,
        }
    }

    /// A client of the protocol that `settings` names.
    pub fn new(settings: &Settings, connect: C) -> (r: Client<C>)
        ensures
            r.settings() == *settings,
    {
        match settings {
            Settings::Http1 { was_absolute_form } => Client {
                inner: ClientInner::Http1 { connect, was_absolute_form: *was_absolute_form },
            },
            Settings::Http2 => Client { inner: ClientInner::Http2 { connect } },
        }
    }

    /// Starts a service of this client's protocol.
    pub fn new_service(&self) -> (r: ClientNewServiceFuture<C>)
        where C: Clone,
        ensures
            r.settings() == self.settings(),
            !r.is_spent(),
    {
        match &self.inner {
            ClientInner::Http1 { connect, was_absolute_form } => ClientNewServiceFuture {
                inner: NewServiceInner::Http1(
                    Some(
                        ClientService {
                            inner: ServiceInner::Http1 {
                                connect: connect.clone(),
                                was_absolute_form: *was_absolute_form,
                            },
                        },
                    ),
                ),
            },
            ClientInner::Http2 { .. } => ClientNewServiceFuture { inner: NewServiceInner::Http2 },
        }
    }
}

impl<C> ClientNewServiceFuture<C> {
    #[verifier::type_invariant]
    spec fn inv(&self) -> bool {
        self.inner matches NewServiceInner::Http1(Some(s)) ==> s.settings() is Http1
    }

    pub closed spec fn settings(&self) -> Settings {
        match self.inner {
            NewServiceInner::Http1(Some(s)) => s.settings(),
            NewServiceInner::Http1(None) => Settings::Http1 { was_absolute_form: false },
            NewServiceInner::Http2 => Settings::Http2,
        }
    }

    /// Whether the HTTP/1 service has already been handed out.
    pub closed spec fn is_spent(&self) -> bool {
        self.inner matches NewServiceInner::Http1(None)
    }

    /// Advances the start. HTTP/1 is ready at once and ignores `handshake`;
    /// HTTP/2 is ready when its connection handshake, whose progress is
    /// `handshake`, is.
    pub fn poll<E>(&mut self, handshake: Result<Async, E>) -> (r: Result<Option<ClientService<C>>, E>)
        requires
            !old(self).is_spent(),
        ensures
            old(self).settings() is Http1 ==> (r matches Ok(Some(s)) && s.settings() == old(self).settings()
                && final(self).is_spent()),
            old(self).settings() is Http2 ==> match handshake {
                Ok(Async::Ready) => r matches Ok(Some(s)) && s.settings() is Http2,
                Ok(Async::NotReady) => r matches Ok(None),
                Err(e) => r matches Err(x) && x == e,
            },
    {
        proof {
            use_type_invariant(&*self);
        }
        let mut inner = NewServiceInner::Http1(None);
        std::mem::swap(&mut inner, &mut self.inner);
        match inner {
            NewServiceInner::Http1(s) => Ok(s),
            NewServiceInner::Http2 => {
                self.inner = NewServiceInner::Http2;
                match handshake {
                    Ok(Async::Ready) => Ok(Some(ClientService { inner: ServiceInner::Http2 })),
                    Ok(Async::NotReady) => Ok(None),
                    Err(e) => Err(e),
                }
            },
        }
    }
}

impl<C> ClientService<C> {
    pub closed spec fn settings(&self) -> Settings {
        match self.inner {
            ServiceInner::Http1 { was_absolute_form, .. } => Settings::Http1 { was_absolute_form },
            ServiceInner::Http2 => Settings::Http2,
        }
    }

    /// HTTP/1 is always ready, as it opens connections per request; HTTP/2
    /// reports the readiness `connection` of its multiplexed connection.
    pub fn poll_ready(&self, connection: Result<Async, Error>) -> (r: Result<Async, Error>)
        ensures
            self.settings() is Http1 ==> r == Ok::<Async, Error>(Async::Ready),
            self.settings() is Http2 ==> r == connection,
    {
        match &self.inner {
            ServiceInner::Http1 { .. } => Ok(Async::Ready),
            ServiceInner::Http2 => connection,
        }
    }

    /// Prepares `request` for sending. HTTP/1 takes the upgrade marker off the
    /// request and notes whether it asks for a CONNECT tunnel; HTTP/2 sends the
    /// request as it is.
    pub fn call(&mut self, request: Request) -> (r: (Request, ClientServiceFuture))
        ensures
            r.0.method == request.method,
            r.0.version == request.version,
            r.0.headers == request.headers,
            final(self).settings() == old(self).settings(),
            r.1 == future_for(old(self).settings(), request.method, request.upgrade),
            old(self).settings() is Http1 ==> r.0.upgrade is None,
            old(self).settings() is Http2 ==> r.0.upgrade == request.upgrade,
    {
        match &self.inner {
            ServiceInner::Http1 { .. } => {
                let mut request = request;
                let upgrade = request.upgrade.take();
                let is_http_connect = if upgrade.is_some() {
                    request.method == Method::Connect
                } else {
                    false
                };
                (request, ClientServiceFuture::Http1 { upgrade, is_http_connect })
            },
            ServiceInner::Http2 => (request, ClientServiceFuture::Http2),
        }
    }
}

impl ClientServiceFuture {
    /// Advances the response, whose progress on the wire is `response`.
    ///
    /// An HTTP/1 response gets a body tagged with the request's upgrade
    /// marker and, if the request asked for a CONNECT tunnel, the tunnel
    /// marker; unless it is then an upgrade, its connection headers are
    /// stripped. An HTTP/2 response only gets its body tagged.
    pub fn poll(&mut self, response: Result<Option<ResponseHead>, Error>) -> (r: Result<Option<Response>, Error>)
        ensures
            match response {
                Err(e) => r == Err::<Option<Response>, Error>(e),
                Ok(None) => r matches Ok(None) && *final(self) == *old(self),
                Ok(Some(head)) => (r matches Ok(Some(res)) && match *old(self) {
                    ClientServiceFuture::Http1 { upgrade, is_http_connect } => {
                        &&& res.body == HttpBody::Http1 { upgrade }
                        &&& res.head.status == head.status
                        &&& res.head.version == head.version
                        &&& res.head.http_connect == tunnel_marked(*old(self), head.http_connect)
                        &&& is_upgrade_spec(&res.head) ==> res.head.headers@ == head.headers@
                        &&& !is_upgrade_spec(&res.head) ==> res.head.headers@ == h1::stripped(head.headers@)
                    },
                    ClientServiceFuture::Http2 => {
                        &&& res.body == HttpBody::Http2
                        &&& res.head == head
                        &&& res.head.http_connect == tunnel_marked(*old(self), head.http_connect)
                    },
                }),
            },
    {
        match response {
            Err(e) => Err(e),
            Ok(None) => Ok(None),
            Ok(Some(head)) => match self {
                ClientServiceFuture::Http1 { upgrade, is_http_connect } => {
                    let body = HttpBody::Http1 { upgrade: upgrade.take() };
                    let mut head = head;
                    if *is_http_connect {
                        head.http_connect = true;
                    }
                    if !is_upgrade(&head) {
                        h1::strip_connection_headers(&mut head.headers);
                    }
                    Ok(Some(Response { head, body }))
                },
                ClientServiceFuture::Http2 => Ok(Some(Response { head, body: HttpBody::Http2 })),
            },
        }
    }
}

} // verus!
