//! HTTP protocol abstraction: request descriptors with value semantics,
//! the transport capability contract, and typed response decoding.

use vstd::prelude::*;
use vstd::string::StringExecFns;

use crate::domain::SecretString;
use crate::requests::APIError;

verus! {

/// HTTP method.
#[derive(Debug, Copy, Clone, Eq, PartialEq, Hash, Structural)]
pub enum Method {
    Delete,
    Get,
    Put,
    Post,
    Patch,
}

impl Method {
    /// The method name as sent on the wire.
    pub fn as_str(&self) -> (r: &'static str)
        ensures
            self is Delete ==> r@ == "DELETE"@,
            self is Get ==> r@ == "GET"@,
            self is Put ==> r@ == "PUT"@,
            self is Post ==> r@ == "POST"@,
            self is Patch ==> r@ == "PATCH"@,
    {
        match self {
            Method::Delete => "DELETE",
            Method::Get => "GET",
            Method::Put => "PUT",
            Method::Post => "POST",
            Method::Patch => "PATCH",
        }
    }
}

/// Mathematical model of a request descriptor: the header list keeps
/// insertion order and never holds a key twice.
pub ghost struct RequestModel {
    pub method: Method,
    pub url: Seq<char>,
    pub headers: Seq<(Seq<char>, Seq<char>)>,
    pub body: Option<Seq<u8>>,
}

/// Index of the entry carrying key `k`, or `-1` when no entry does.
pub open spec fn header_index(h: Seq<(Seq<char>, Seq<char>)>, k: Seq<char>) -> int
    decreases h.len(),
{
    if h.len() == 0 {
        -1
    } else if h[0].0 == k {
        0
    } else {
        let rest = header_index(h.skip(1), k);
        if rest == -1 {
            -1
        } else {
            rest + 1
        }
    }
}

/// The value stored under key `k`, if any.
pub open spec fn header_lookup(h: Seq<(Seq<char>, Seq<char>)>, k: Seq<char>) -> Option<Seq<char>> {
    let i = header_index(h, k);
    if i == -1 {
        None
    } else {
        Some(h[i].1)
    }
}

/// How many entries carry key `k`.
pub open spec fn header_count(h: Seq<(Seq<char>, Seq<char>)>, k: Seq<char>) -> nat
    decreases h.len(),
{
    if h.len() == 0 {
        0
    } else {
        header_count(h.skip(1), k) + if h[0].0 == k {
            1nat
        } else {
            0nat
        }
    }
}

/// No key occurs twice.
pub open spec fn header_keys_unique(h: Seq<(Seq<char>, Seq<char>)>) -> bool {
    forall|i: int, j: int| 0 <= i < j < h.len() ==> h[i].0 != h[j].0
}

/// Header insertion: replaces in place when the key is present
/// (last write wins), appends otherwise.
pub open spec fn headers_upsert(
    h: Seq<(Seq<char>, Seq<char>)>,
    k: Seq<char>,
    v: Seq<char>,
) -> Seq<(Seq<char>, Seq<char>)> {
    let i = header_index(h, k);
    if i == -1 {
        h.push((k, v))
    } else {
        h.update(i, (k, v))
    }
}

/// What `header_index` finds: either the key is absent, or the index is the
/// first entry carrying it.
pub proof fn lemma_header_index(h: Seq<(Seq<char>, Seq<char>)>, k: Seq<char>)
    ensures
        header_index(h, k) == -1 ==> forall|j: int| 0 <= j < h.len() ==> h[j].0 != k,
        header_index(h, k) != -1 ==> {
            let i = header_index(h, k);
            &&& 0 <= i < h.len()
            &&& h[i].0 == k
            &&& forall|j: int| 0 <= j < i ==> h[j].0 != k
        },
    decreases h.len(),
{
    if h.len() != 0 && h[0].0 != k {
        let t = h.skip(1);
        lemma_header_index(t, k);
        assert(forall|j: int| 0 <= j < t.len() ==> t[j] == h[j + 1]);
        if header_index(t, k) == -1 {
            assert forall|j: int| 0 <= j < h.len() implies h[j].0 != k by {
                if j > 0 {
                    assert(t[j - 1] == h[j]);
                }
            }
        } else {
            let i = header_index(t, k) + 1;
            assert(h[i] == t[i - 1]);
            assert forall|j: int| 0 <= j < i implies h[j].0 != k by {
                if j > 0 {
                    assert(t[j - 1] == h[j]);
                }
            }
        }
    }
}

/// A forward scan that saw no entry with key `k` before position `i`, and one
/// at `i` if `i` is in range, pins `header_index` down exactly.
pub proof fn lemma_header_index_of_scan(h: Seq<(Seq<char>, Seq<char>)>, k: Seq<char>, i: int)
    requires
        0 <= i <= h.len(),
        forall|j: int| 0 <= j < i ==> h[j].0 != k,
        i < h.len() ==> h[i].0 == k,
    ensures
        i < h.len() ==> header_index(h, k) == i,
        i == h.len() ==> header_index(h, k) == -1,
    decreases i,
{
    if h.len() == 0 {
    } else if i == 0 {
    } else {
        lemma_header_index_of_scan(h.skip(1), k, i - 1);
    }
}

/// After an upsert the key maps to the new value, every other key is
/// untouched, and uniqueness of keys is preserved.
pub proof fn lemma_headers_upsert(h: Seq<(Seq<char>, Seq<char>)>, k: Seq<char>, v: Seq<char>)
    requires
        header_keys_unique(h),
    ensures
        header_keys_unique(headers_upsert(h, k, v)),
        header_lookup(headers_upsert(h, k, v), k) == Some(v),
        header_count(headers_upsert(h, k, v), k) == 1,
        forall|k2: Seq<char>| k2 != k ==> header_lookup(headers_upsert(h, k, v), k2)
            == header_lookup(h, k2),
        forall|k2: Seq<char>| k2 != k ==> header_count(headers_upsert(h, k, v), k2)
            == header_count(h, k2),
{
    lemma_header_index(h, k);
    let u = headers_upsert(h, k, v);
    let i = header_index(h, k);
    if i == -1 {
        assert forall|x: int, y: int| 0 <= x < y < u.len() implies u[x].0 != u[y].0 by {}
        lemma_header_index_of_scan(u, k, h.len() as int);
        lemma_header_count_unique(u, k, h.len() as int);
        assert forall|k2: Seq<char>| k2 != k implies header_lookup(u, k2) == header_lookup(h, k2)
            && header_count(u, k2) == header_count(h, k2) by {
            lemma_header_push_other(h, (k, v), k2);
        }
    } else {
        assert forall|x: int, y: int| 0 <= x < y < u.len() implies u[x].0 != u[y].0 by {
            assert(h[x].0 != h[y].0);
        }
        lemma_header_index_of_scan(u, k, i);
        lemma_header_count_unique(u, k, i);
        assert forall|k2: Seq<char>| k2 != k implies header_lookup(u, k2) == header_lookup(h, k2)
            && header_count(u, k2) == header_count(h, k2) by {
            lemma_header_update_other(h, i, (k, v), k2);
        }
    }
}

/// In a key-unique list that holds `k` at `i`, `k` is counted exactly once.
proof fn lemma_header_count_unique(h: Seq<(Seq<char>, Seq<char>)>, k: Seq<char>, i: int)
    requires
        header_keys_unique(h),
        0 <= i < h.len(),
        h[i].0 == k,
    ensures
        header_count(h, k) == 1,
    decreases h.len(),
{
    if i == 0 {
        lemma_header_count_absent(h.skip(1), k);
    } else {
        assert(header_keys_unique(h.skip(1)));
        lemma_header_count_unique(h.skip(1), k, i - 1);
    }
}

/// A key no entry carries is counted zero times.
proof fn lemma_header_count_absent(h: Seq<(Seq<char>, Seq<char>)>, k: Seq<char>)
    requires
        forall|j: int| 0 <= j < h.len() ==> h[j].0 != k,
    ensures
        header_count(h, k) == 0,
    decreases h.len(),
{
    if h.len() != 0 {
        lemma_header_count_absent(h.skip(1), k);
    }
}

/// Appending an entry under another key changes nothing about `k2`.
proof fn lemma_header_push_other(
    h: Seq<(Seq<char>, Seq<char>)>,
    p: (Seq<char>, Seq<char>),
    k2: Seq<char>,
)
    requires
        p.0 != k2,
    ensures
        header_index(h.push(p), k2) == header_index(h, k2),
        header_lookup(h.push(p), k2) == header_lookup(h, k2),
        header_count(h.push(p), k2) == header_count(h, k2),
    decreases h.len(),
{
    let u = h.push(p);
    if h.len() == 0 {
        assert(u.len() == 1 && u[0] == p);
        assert(u.skip(1) =~= Seq::<(Seq<char>, Seq<char>)>::empty());
        assert(header_index(u.skip(1), k2) == -1);
        assert(header_count(u.skip(1), k2) == 0);
        assert(header_index(u, k2) == -1);
        assert(header_index(h, k2) == -1);
        assert(header_count(u, k2) == 0 && header_count(h, k2) == 0);
    } else {
        assert(u.skip(1) =~= h.skip(1).push(p));
        lemma_header_push_other(h.skip(1), p, k2);
        assert(u[0] == h[0]);
        if header_index(h, k2) != -1 {
            lemma_header_index(h, k2);
            assert(u[header_index(u, k2)].1 == h[header_index(h, k2)].1);
        }
    }
}

/// Replacing the entry at `i` by one under another key changes nothing
/// about `k2`, as long as the old entry was not under `k2` either.
proof fn lemma_header_update_other(
    h: Seq<(Seq<char>, Seq<char>)>,
    i: int,
    p: (Seq<char>, Seq<char>),
    k2: Seq<char>,
)
    requires
        0 <= i < h.len(),
        h[i].0 != k2,
        p.0 != k2,
    ensures
        header_index(h.update(i, p), k2) == header_index(h, k2),
        header_lookup(h.update(i, p), k2) == header_lookup(h, k2),
        header_count(h.update(i, p), k2) == header_count(h, k2),
    decreases h.len(),
{
    let u = h.update(i, p);
    if i == 0 {
        assert(u.skip(1) =~= h.skip(1));
        assert(u[0] == p && u[0].0 != k2 && h[0].0 != k2);
        if header_index(h.skip(1), k2) != -1 {
            lemma_header_index(h.skip(1), k2);
        }
    } else {
        assert(u.skip(1) =~= h.skip(1).update(i - 1, p));
        assert(u[0] == h[0]);
        lemma_header_update_other(h.skip(1), i - 1, p, k2);
        if header_index(h, k2) != -1 {
            lemma_header_index(h, k2);
            assert(u[header_index(u, k2)].1 == h[header_index(h, k2)].1);
        }
    }
}

/// HTTP Request representation. Immutable once built: every builder call
/// consumes the value and returns a new one.
#[derive(Debug)]
pub struct RequestData {
    method: Method,
    url: String,
    headers: Vec<(String, String)>,
    body: Option<Vec<u8>>,
}

impl View for RequestData {
    type V = RequestModel;

    closed spec fn view(&self) -> RequestModel {
        RequestModel {
            method: self.method,
            url: self.url@,
            headers: self.headers.deep_view(),
            body: match self.body {
                Some(b) => Some(b@),
                None => None,
            },
        }
    }
}

impl RequestData {
    /// The header list of a descriptor never carries a key twice.
    #[verifier::type_invariant]
    pub closed spec fn wf(self) -> bool {
        header_keys_unique(self@.headers)
    }

    pub fn new(method: Method, url: &str) -> (r: Self)
        ensures
            r@.method == method,
            r@.url == url@,
            r@.headers == Seq::<(Seq<char>, Seq<char>)>::empty(),
            r@.body is None,
    {
        let r = Self { method, url: String::from_str(url), headers: Vec::new(), body: None };
        proof {
            assert(r@.headers =~= Seq::<(Seq<char>, Seq<char>)>::empty());
        }
        r
    }

    /// Sets a header; an existing entry under the same key is replaced
    /// (last write wins).
    pub fn header(self, key: String, value: String) -> (r: Self)
        ensures
            r@.method == self@.method,
            r@.url == self@.url,
            r@.body == self@.body,
            r@.headers == headers_upsert(self@.headers, key@, value@),
    {
        proof {
            use_type_invariant(&self);
        }
        let RequestData { method, url, mut headers, body } = self;
        let ghost h0 = headers.deep_view();
        let n = headers.len();
        let mut i: usize = 0;
        while i < n
            invariant
                n == headers.len(),
                i <= n,
                headers.deep_view() == h0,
                header_keys_unique(h0),
                forall|j: int| 0 <= j < i ==> h0[j].0 != key@,
                method == self@.method,
                url@ == self@.url,
                h0 == self@.headers,
                (match body {
                    Some(b) => self@.body == Some(b@),
                    None => self@.body is None,
                }),
            decreases n - i,
        {
            let hit = headers[i].0 == key;
            if hit {
                proof {
                    lemma_header_index_of_scan(h0, key@, i as int);
                }
                headers.set(i, (key, value));
                proof {
                    assert(headers.deep_view() =~= h0.update(i as int, (key@, value@)));
                    lemma_headers_upsert(h0, key@, value@);
                }
                return Self { method, url, headers, body };
            }
            i += 1;
        }
        proof {
            lemma_header_index_of_scan(h0, key@, n as int);
        }
        headers.push((key, value));
        proof {
            assert(headers.deep_view() =~= h0.push((key@, value@)));
            lemma_headers_upsert(h0, key@, value@);
        }
        Self { method, url, headers, body }
    }

    /// Sets the `authorization` header to `Bearer <token>`.
    pub fn bearer_token(self, token: &str) -> (r: Self)
        ensures
            r@.method == self@.method,
            r@.url == self@.url,
            r@.body == self@.body,
            r@.headers == headers_upsert(self@.headers, "authorization"@, "Bearer "@ + token@),
    {
        let value = String::from_str("Bearer ").concat(token);
        self.header(String::from_str("authorization"), value)
    }

    /// Sets a raw request body.
    pub fn bytes(self, bytes: Vec<u8>) -> (r: Self)
        ensures
            r@.method == self@.method,
            r@.url == self@.url,
            r@.headers == self@.headers,
            r@.body == Some(bytes@),
    {
        proof {
            use_type_invariant(&self);
        }
        let RequestData { method, url, headers, body: _ } = self;
        Self { method, url, headers, body: Some(bytes) }
    }

    /// Sets an already-encoded JSON body together with its content type.
    pub fn json_bytes(self, bytes: Vec<u8>) -> (r: Self)
        ensures
            r@.method == self@.method,
            r@.url == self@.url,
            r@.headers == headers_upsert(self@.headers, "Content-Type"@, "application/json"@),
            r@.body == Some(bytes@),
    {
        self.bytes(bytes).header(
            String::from_str("Content-Type"),
            String::from_str("application/json"),
        )
    }

    pub fn method(&self) -> (r: Method)
        ensures
            r == self@.method,
    {
        self.method
    }

    pub fn url(&self) -> (r: &String)
        ensures
            r@ == self@.url,
    {
        &self.url
    }

    pub fn headers(&self) -> (r: &Vec<(String, String)>)
        ensures
            r.deep_view() == self@.headers,
    {
        &self.headers
    }

    pub fn body(&self) -> (r: &Option<Vec<u8>>)
        ensures
            r is Some <==> self@.body is Some,
            r matches Some(b) ==> (self@.body matches Some(bm) && b@ == bm),
    {
        &self.body
    }
}

/// Which protocol a proxy speaks.
#[derive(Debug, Copy, Clone, Eq, PartialEq, Structural)]
pub enum ProxyProtocol {
    Https,
    Socks5,
}

/// The scheme part of a proxy URL.
pub open spec fn proxy_protocol_name(p: ProxyProtocol) -> Seq<char> {
    match p {
        ProxyProtocol::Https => "https"@,
        ProxyProtocol::Socks5 => "socks5"@,
    }
}

/// Credentials for an authenticating proxy.
#[derive(Clone)]
pub struct ProxyAuth {
    pub username: String,
    pub password: SecretString,
}

/// A proxy the transport should send all requests through.
#[derive(Clone)]
pub struct Proxy {
    pub protocol: ProxyProtocol,
    pub auth: Option<ProxyAuth>,
    pub url: String,
    pub port: u16,
}

/// The `user:password@` part of a proxy URL, empty without credentials.
pub open spec fn proxy_auth_part(auth: Option<ProxyAuth>) -> Seq<char> {
    match auth {
        Some(a) => a.username@ + ":"@ + a.password@ + "@"@,
        None => Seq::empty(),
    }
}

/// The full proxy URL: `scheme://[user:password@]host:port`.
pub open spec fn proxy_url_spec(p: Proxy) -> Seq<char> {
    proxy_protocol_name(p.protocol) + "://"@ + proxy_auth_part(p.auth) + p.url@ + ":"@
        + crate::codec::dec_str_of(p.port as nat)
}

impl Proxy {
    /// Renders the proxy as the URL handed to the transport backend.
    pub fn as_url(&self) -> (r: String)
        ensures
            r@ == proxy_url_spec(*self),
    {
        let mut s = String::new();
        match self.protocol {
            ProxyProtocol::Https => s.append("https"),
            ProxyProtocol::Socks5 => s.append("socks5"),
        }
        s.append("://");
        match &self.auth {
            Some(a) => {
                s.append(a.username.as_str());
                s.append(":");
                s.append(a.password.expose_secret().as_str());
                s.append("@");
            },
            None => {},
        }
        s.append(self.url.as_str());
        s.append(":");
        crate::codec::push_u16_dec(&mut s, self.port);
        proof {
            assert(s@ =~= proxy_url_spec(*self));
        }
        s
    }
}

/// Configuration a transport backend is built from. Construction is pure
/// value plumbing; a backend validates it when it is built, so that an
/// invalid configuration fails at construction rather than at first use.
#[derive(Clone)]
pub struct ClientBuilder {
    pub app_version: String,
    pub base_url: String,
    pub request_timeout: Option<core::time::Duration>,
    pub connect_timeout: Option<core::time::Duration>,
    pub user_agent: String,
    pub proxy_url: Option<Proxy>,
    pub debug: bool,
    pub allow_http: bool,
}

impl ClientBuilder {
    /// A builder with the service's default endpoint, a placeholder app
    /// version and user agent, no timeouts and no proxy.
    pub fn new() -> (r: Self)
        ensures
            r.app_version@ == "proton-api"@,
            r.user_agent@ == "NoClient/0.1.0"@,
            r.base_url@ == "https://mail.proton.me/api"@,
            r.request_timeout is None,
            r.connect_timeout is None,
            r.proxy_url is None,
            !r.debug,
            !r.allow_http,
    {
        Self {
            app_version: String::from_str("proton-api"),
            user_agent: String::from_str("NoClient/0.1.0"),
            base_url: String::from_str("https://mail.proton.me/api"),
            request_timeout: None,
            connect_timeout: None,
            proxy_url: None,
            debug: false,
            allow_http: false,
        }
    }

    /// Set the app version submitted with every request,
    /// e.g.: my-client@1.4.0+beta.
    pub fn app_version(self, version: &str) -> (r: Self)
        ensures
            r.app_version@ == version@,
            r == (ClientBuilder { app_version: r.app_version, ..self }),
    {
        Self { app_version: String::from_str(version), ..self }
    }

    /// Set the user agent submitted with every request.
    pub fn user_agent(self, agent: &str) -> (r: Self)
        ensures
            r.user_agent@ == agent@,
            r == (ClientBuilder { user_agent: r.user_agent, ..self }),
    {
        Self { user_agent: String::from_str(agent), ..self }
    }

    /// Set the server's base url; by default the service's own is used.
    pub fn base_url(self, url: &str) -> (r: Self)
        ensures
            r.base_url@ == url@,
            r == (ClientBuilder { base_url: r.base_url, ..self }),
    {
        Self { base_url: String::from_str(url), ..self }
    }

    /// Set the full request timeout. By default there is none.
    pub fn request_timeout(self, duration: core::time::Duration) -> (r: Self)
        ensures
            r == (ClientBuilder { request_timeout: Some(duration), ..self }),
    {
        Self { request_timeout: Some(duration), ..self }
    }

    /// Set the connection timeout. By default there is none.
    pub fn connect_timeout(self, duration: core::time::Duration) -> (r: Self)
        ensures
            r == (ClientBuilder { connect_timeout: Some(duration), ..self }),
    {
        Self { connect_timeout: Some(duration), ..self }
    }

    /// Send all requests through the given proxy.
    pub fn with_proxy(self, proxy: Proxy) -> (r: Self)
        ensures
            r == (ClientBuilder { proxy_url: Some(proxy), ..self }),
    {
        Self { proxy_url: Some(proxy), ..self }
    }

    /// Allow plain-http requests.
    pub fn allow_http(self) -> (r: Self)
        ensures
            r == (ClientBuilder { allow_http: true, ..self }),
    {
        Self { allow_http: true, ..self }
    }

    /// Enable request debugging in the backend.
    pub fn debug(self) -> (r: Self)
        ensures
            r == (ClientBuilder { debug: true, ..self }),
    {
        Self { debug: true, ..self }
    }
}

/// Errors that may occur during an HTTP request. The kinds are disjoint and
/// are never silently merged.
#[derive(Debug)]
pub enum Error {
    /// The service answered with a non-2xx status.
    API(APIError),
    /// Too many redirects; carries the offending URL.
    Redirect(String),
    /// The connection or the full request timed out.
    Timeout,
    /// The connection could not be established or broke down.
    Connection(String),
    /// The request was malformed and could not be sent.
    Request(String),
    /// A body could not be encoded or decoded.
    EncodeOrDecode(String),
    /// Anything the other kinds do not cover.
    Other(String),
}

/// What the transport hands back: the status and the raw body.
#[derive(Debug)]
pub struct HttpResponse {
    pub status: u16,
    pub body: Vec<u8>,
}

/// Synchronous transport capability: send the descriptor, return status and
/// body, or a transport error. Concrete backends implement this outside the
/// library; nothing about the outcome is promised.
pub trait ClientSync {
    fn execute_raw(&self, request: &RequestData) -> Result<HttpResponse, Error>;
}

/// Request creation strategy; lets a session stamp outgoing requests with its
/// credentials.
pub trait RequestFactory {
    /// The descriptor this factory builds for a method and url.
    spec fn new_request_spec(&self, method: Method, url: Seq<char>) -> RequestModel;

    fn new_request(&self, method: Method, url: &str) -> (r: RequestData)
        ensures
            r@ == self.new_request_spec(method, url@),
    ;
}

/// Creates plain requests without any decoration.
#[derive(Copy, Clone)]
pub struct DefaultRequestFactory {}

impl RequestFactory for DefaultRequestFactory {
    open spec fn new_request_spec(&self, method: Method, url: Seq<char>) -> RequestModel {
        RequestModel { method, url, headers: Seq::empty(), body: None }
    }

    fn new_request(&self, method: Method, url: &str) -> (r: RequestData) {
        RequestData::new(method, url)
    }
}

/// Response decoding strategy: turns a 2xx body into the typed output.
pub trait FromResponse: Sized {
    type Output;

    /// Whether decoding succeeds on this body.
    spec fn good(body: Seq<u8>) -> bool;

    /// `o` is the decode of `body`.
    spec fn output_matches(body: Seq<u8>, o: Self::Output) -> bool;

    fn from_response_sync(body: Vec<u8>) -> (r: Result<Self::Output, Error>)
        ensures
            r is Ok <==> Self::good(body@),
            r matches Ok(o) ==> Self::output_matches(body@, o),
            r matches Err(e) ==> e is EncodeOrDecode,
    ;
}

/// Decoding strategy for endpoints whose response body is ignored.
#[derive(Copy, Clone)]
pub struct NoResponse {}

impl FromResponse for NoResponse {
    type Output = ();

    open spec fn good(body: Seq<u8>) -> bool {
        true
    }

    open spec fn output_matches(body: Seq<u8>, o: ()) -> bool {
        true
    }

    fn from_response_sync(body: Vec<u8>) -> (r: Result<(), Error>) {
        Ok(())
    }
}

/// A typed request: where it goes, how its body is built, and how its
/// response is decoded.
pub trait Request {
    type Response: FromResponse;

    spec fn method_spec(&self) -> Method;

    spec fn url_spec(&self) -> Seq<char>;

    /// How this request decorates the factory-built descriptor
    /// (body, extra headers).
    spec fn finish_spec(&self, base: RequestModel) -> RequestModel;

    fn build_request<F: RequestFactory>(&self, factory: &F) -> (r: RequestData)
        ensures
            r@ == self.finish_spec(factory.new_request_spec(self.method_spec(), self.url_spec())),
    ;
}

/// Runs a typed request once against a synchronous transport: build the
/// descriptor through the factory, execute it, turn a non-2xx status into an
/// [`APIError`], and decode a 2xx body. A success is always the decode of the
/// body the service sent.
pub fn execute_sync<R: Request, C: ClientSync, F: RequestFactory>(
    request: &R,
    client: &C,
    factory: &F,
) -> (r: Result<<R::Response as FromResponse>::Output, Error>)
    ensures
        r matches Ok(o) ==> exists|body: Seq<u8>|
            #[trigger] R::Response::good(body) && R::Response::output_matches(body, o),
{
    let data = request.build_request(factory);
    let response = match client.execute_raw(&data) {
        Ok(response) => response,
        Err(e) => {
            return Err(e);
        },
    };
    let body = match crate::requests::status_into_api_error(response) {
        Ok(body) => body,
        Err(e) => {
            return Err(e);
        },
    };
    let ghost body_model = body@;
    match R::Response::from_response_sync(body) {
        Ok(o) => {
            proof {
                assert(R::Response::good(body_model) && R::Response::output_matches(body_model, o));
            }
            Ok(o)
        },
        Err(e) => Err(e),
    }
}

} // verus!
