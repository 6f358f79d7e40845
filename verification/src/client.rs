//! The API clients, their builders, and the requests they send.
//!
//! A client describes each request as an [`ApiRequest`]: method, URL,
//! headers, query and body. Sending it, and retrying it on the schedule of a
//! [`RetryState`], is left to the caller's HTTP runtime.
use vstd::prelude::*;
use vstd::string::*;
use crate::retry::{RetryState, DEFAULT_MAX_ATTEMPTS, DEFAULT_BASE_DELAY_MS};

verus! {

/// The HTTP connection pool of `reqwest`; carried through untouched.
#[verifier::external_type_specification]
#[verifier::external_body]
pub struct ExHttpClient(reqwest::Client);

/// `reqwest::Client::new`: a connection pool with default settings.
///
/// Nothing is stated of the result, which is opaque to the library. The
/// outside function panics if the TLS backend cannot be initialised or the
/// system resolver configuration cannot be loaded; that depends on the
/// machine, not on any argument.
#[verifier::external_body]
fn new_http_client() -> reqwest::Client {
    reqwest::Client::new()
}

/// `<reqwest::Client as Clone>::clone`: another handle on the same
/// connection pool. Nothing is stated of the result, which is opaque.
pub assume_specification[ <reqwest::Client as Clone>::clone ](c: &reqwest::Client) -> reqwest::Client;

/// HTTP method of a request.
#[derive(Clone, Copy, PartialEq, Eq, Structural, Debug)]
pub enum Method {
    Get,
    Post,
    Put,
    Delete,
}

/// A request ready to be sent.
pub struct ApiRequest {
    pub method: Method,
    /// Full URL: the client's base URL followed by the path.
    pub url: String,
    /// Header names and values, in the order they are set.
    pub headers: Vec<(String, String)>,
    /// Query parameters, in the order they are appended to the URL.
    pub query: Vec<(String, String)>,
    /// JSON text of the body, if the request has one.
    pub body: Option<String>,
}

/// The settings a client, or its builder, holds.
pub struct ClientConfig {
    pub base_url: Seq<char>,
    /// The key sent with every request.
    pub key: Seq<char>,
    /// Attempts allowed per request, the first included.
    pub max_attempts: u32,
    /// Base delay of the exponential backoff, in milliseconds.
    pub base_delay_ms: u64,
}

/// Header that carries the key of the public API.
pub open spec fn api_key_header() -> Seq<char> {
    seq!['X', '-', 'A', 'P', 'I', '-', 'K', 'e', 'y']
}

/// Header that carries the key of the admin API.
pub open spec fn admin_key_header() -> Seq<char> {
    seq!['X', '-', 'A', 'd', 'm', 'i', 'n', '-', 'K', 'e', 'y']
}

/// The views of a list of name/value pairs.
pub open spec fn pairs_view(v: Vec<(String, String)>) -> Seq<(Seq<char>, Seq<char>)> {
    v@.map_values(|p: (String, String)| (p.0@, p.1@))
}

/// The view of an optional text.
pub open spec fn opt_view(o: Option<String>) -> Option<Seq<char>> {
    match o {
        Some(s) => Some(s@),
        None => None,
    }
}

/// What a request built on `base_url` with key header `header` and key `key`
/// is: the URL is the base URL followed by the path; the key header comes
/// first, and a request with a body also says that the body is JSON.
pub open spec fn is_request(
    r: ApiRequest,
    base_url: Seq<char>,
    header: Seq<char>,
    key: Seq<char>,
    method: Method,
    path: Seq<char>,
    query: Seq<(Seq<char>, Seq<char>)>,
    body: Option<Seq<char>>,
) -> bool {
    &&& r.method == method
    &&& r.url@ == base_url + path
    &&& pairs_view(r.query) == query
    &&& opt_view(r.body) == body
    &&& r.headers@.len() == if body is Some { 2int } else { 1int }
    &&& r.headers@[0].0@ == header
    &&& r.headers@[0].1@ == key
    &&& body is Some ==> {
        &&& r.headers@[1].0@ == seq!['C', 'o', 'n', 't', 'e', 'n', 't', '-', 'T', 'y', 'p', 'e']
        &&& r.headers@[1].1@ == seq![
            'a', 'p', 'p', 'l', 'i', 'c', 'a', 't', 'i', 'o', 'n', '/', 'j', 's', 'o', 'n',
        ]
    }
}

fn frame_request(
    base_url: &String,
    header: &str,
    key: &String,
    method: Method,
    path: &str,
    query: Vec<(String, String)>,
    body: Option<String>,
) -> (r: ApiRequest)
    ensures
        is_request(r, base_url@, header@, key@, method, path@, pairs_view(query), opt_view(body)),
{
    let mut url = base_url.clone();
    url.append(path);
    let mut headers: Vec<(String, String)> = Vec::new();
    headers.push((String::from_str(header), key.clone()));
    if body.is_some() {
        proof {
            reveal_strlit("Content-Type");
            reveal_strlit("application/json");
        }
        headers.push((String::from_str("Content-Type"), String::from_str("application/json")));
        assert(headers@[1].0@ =~= seq!['C', 'o', 'n', 't', 'e', 'n', 't', '-', 'T', 'y', 'p', 'e']);
        assert(headers@[1].1@ =~= seq![
            'a', 'p', 'p', 'l', 'i', 'c', 'a', 't', 'i', 'o', 'n', '/', 'j', 's', 'o', 'n',
        ]);
    }
    ApiRequest { method, url, headers, query, body }
}

/// HTTP client for the Synapse public API.
///
/// Construct via [`SynapseClient::builder`]. All requests are issued with the
/// configured API key and are retried automatically on transient failures.
pub struct SynapseClient {
    http: reqwest::Client,
    base_url: String,
    api_key: String,
    max_attempts: u32,
    base_delay_ms: u64,
}

/// Builder for [`SynapseClient`].
pub struct SynapseClientBuilder {
    base_url: String,
    api_key: String,
    max_attempts: u32,
    base_delay_ms: u64,
}

impl Clone for SynapseClient {
    /// Another client with the same settings, sharing the connection pool.
    fn clone(&self) -> (c: Self)
        ensures
            c@ == self@,
    {
        proof {
            use_type_invariant(self);
        }
        SynapseClient {
            http: self.http.clone(),
            base_url: self.base_url.clone(),
            api_key: self.api_key.clone(),
            max_attempts: self.max_attempts,
            base_delay_ms: self.base_delay_ms,
        }
    }
}

impl View for SynapseClient {
    type V = ClientConfig;

    closed spec fn view(&self) -> ClientConfig {
        ClientConfig {
            base_url: self.base_url@,
            key: self.api_key@,
            max_attempts: self.max_attempts,
            base_delay_ms: self.base_delay_ms,
        }
    }
}

impl SynapseClient {
    /// Every request is allowed at least one attempt.
    #[verifier::type_invariant]
    spec fn allows_an_attempt(self) -> bool {
        self.max_attempts >= 1
    }
}

impl View for SynapseClientBuilder {
    type V = ClientConfig;

    closed spec fn view(&self) -> ClientConfig {
        ClientConfig {
            base_url: self.base_url@,
            key: self.api_key@,
            max_attempts: self.max_attempts,
            base_delay_ms: self.base_delay_ms,
        }
    }
}

impl SynapseClientBuilder {
    /// Every request is allowed at least one attempt.
    #[verifier::type_invariant]
    spec fn allows_an_attempt(self) -> bool {
        self.max_attempts >= 1
    }
}

impl SynapseClient {
    /// Create a new [`SynapseClient`] with default retry settings.
    ///
    /// This is a convenience method equivalent to `SynapseClient::builder(url, key).build()`.
    pub fn new(base_url: &str, api_key: &str) -> (c: SynapseClient)
        ensures
            c@ == (ClientConfig {
                base_url: base_url@,
                key: api_key@,
                max_attempts: DEFAULT_MAX_ATTEMPTS,
                base_delay_ms: DEFAULT_BASE_DELAY_MS,
            }),
    {
        Self::builder(base_url, api_key).build()
    }

    /// Return a builder for constructing a [`SynapseClient`], with 3 attempts
    /// per request and a 200 ms base delay.
    pub fn builder(base_url: &str, api_key: &str) -> (b: SynapseClientBuilder)
        ensures
            b@ == (ClientConfig {
                base_url: base_url@,
                key: api_key@,
                max_attempts: DEFAULT_MAX_ATTEMPTS,
                base_delay_ms: DEFAULT_BASE_DELAY_MS,
            }),
    {
        SynapseClientBuilder {
            base_url: String::from_str(base_url),
            api_key: String::from_str(api_key),
            max_attempts: DEFAULT_MAX_ATTEMPTS,
            base_delay_ms: DEFAULT_BASE_DELAY_MS,
        }
    }

    /// The request for `method` on `path`, authenticated with the API key
    /// in the `X-API-Key` header.
    pub fn request(
        &self,
        method: Method,
        path: &str,
        query: Vec<(String, String)>,
        body: Option<String>,
    ) -> (r: ApiRequest)
        ensures
            is_request(
                r,
                self@.base_url,
                api_key_header(),
                self@.key,
                method,
                path@,
                pairs_view(query),
                opt_view(body),
            ),
    {
        proof {
            reveal_strlit("X-API-Key");
            assert("X-API-Key"@ =~= api_key_header());
        }
        frame_request(&self.base_url, "X-API-Key", &self.api_key, method, path, query, body)
    }

    /// A fresh retry schedule for one request, on this client's settings.
    pub fn retry(&self) -> (s: RetryState)
        ensures
            s@.max_attempts == self@.max_attempts,
            s@.base_delay_ms == self@.base_delay_ms,
            s@.attempts == 0,
    {
        proof {
            use_type_invariant(self);
        }
        RetryState::new(self.max_attempts, self.base_delay_ms)
    }

    /// The connection pool this client holds.
    pub closed spec fn pool(&self) -> reqwest::Client {
        self.http
    }

    /// The connection pool the requests go through: the one this client holds.
    pub fn http(&self) -> (h: &reqwest::Client)
        ensures
            *h == self.pool(),
    {
        &self.http
    }

    /// The base URL every path is appended to.
    pub fn base_url(&self) -> (s: &str)
        ensures
            s@ == self@.base_url,
    {
        self.base_url.as_str()
    }

    /// Attempts allowed per request, the first included.
    pub fn max_attempts(&self) -> (n: u32)
        ensures
            n == self@.max_attempts,
            n >= 1,
    {
        proof {
            use_type_invariant(self);
        }
        self.max_attempts
    }

    /// Base delay of the exponential backoff, in milliseconds.
    pub fn base_delay_ms(&self) -> (n: u64)
        ensures
            n == self@.base_delay_ms,
    {
        self.base_delay_ms
    }
}

impl SynapseClientBuilder {
    /// Set the maximum total number of attempts, including the first (default: 3).
    ///
    /// Values below 1 are treated as 1 (no retries).
    pub fn max_attempts(self, n: u32) -> (b: Self)
        ensures
            b@ == (ClientConfig { max_attempts: if n < 1 { 1 } else { n }, ..self@ }),
            b@.max_attempts >= 1,
    {
        SynapseClientBuilder { max_attempts: if n < 1 { 1 } else { n }, ..self }
    }

    /// Disable retry behaviour. The first failure is returned immediately.
    ///
    /// Use this when the caller manages its own retry loop.
    pub fn disable_retries(self) -> (b: Self)
        ensures
            b@ == (ClientConfig { max_attempts: 1, ..self@ }),
            b@.max_attempts >= 1,
    {
        SynapseClientBuilder { max_attempts: 1, ..self }
    }

    /// Set the base delay in milliseconds for exponential backoff (default: 200).
    pub fn base_delay_ms(self, ms: u64) -> (b: Self)
        ensures
            b@ == (ClientConfig { base_delay_ms: ms, ..self@ }),
            b@.max_attempts >= 1,
    {
        proof {
            use_type_invariant(&self);
        }
        SynapseClientBuilder { base_delay_ms: ms, ..self }
    }

    /// Build the [`SynapseClient`].
    pub fn build(self) -> (c: SynapseClient)
        ensures
            c@ == self@,
            c@.max_attempts >= 1,
    {
        proof {
            use_type_invariant(&self);
        }
        SynapseClient {
            http: new_http_client(),
            base_url: self.base_url,
            api_key: self.api_key,
            max_attempts: self.max_attempts,
            base_delay_ms: self.base_delay_ms,
        }
    }
}

/// HTTP client for the Synapse admin API.
///
/// Construct via [`AdminSynapseClient::builder`]. All requests are issued with the
/// configured admin API key and are retried automatically on transient failures.
pub struct AdminSynapseClient {
    http: reqwest::Client,
    base_url: String,
    admin_key: String,
    max_attempts: u32,
    base_delay_ms: u64,
}

/// Builder for [`AdminSynapseClient`].
pub struct AdminSynapseClientBuilder {
    base_url: String,
    admin_key: String,
    max_attempts: u32,
    base_delay_ms: u64,
}

impl Clone for AdminSynapseClient {
    /// Another client with the same settings, sharing the connection pool.
    fn clone(&self) -> (c: Self)
        ensures
            c@ == self@,
    {
        proof {
            use_type_invariant(self);
        }
        AdminSynapseClient {
            http: self.http.clone(),
            base_url: self.base_url.clone(),
            admin_key: self.admin_key.clone(),
            max_attempts: self.max_attempts,
            base_delay_ms: self.base_delay_ms,
        }
    }
}

impl View for AdminSynapseClient {
    type V = ClientConfig;

    closed spec fn view(&self) -> ClientConfig {
        ClientConfig {
            base_url: self.base_url@,
            key: self.admin_key@,
            max_attempts: self.max_attempts,
            base_delay_ms: self.base_delay_ms,
        }
    }
}

impl AdminSynapseClient {
    /// Every request is allowed at least one attempt.
    #[verifier::type_invariant]
    spec fn allows_an_attempt(self) -> bool {
        self.max_attempts >= 1
    }
}

impl View for AdminSynapseClientBuilder {
    type V = ClientConfig;

    closed spec fn view(&self) -> ClientConfig {
        ClientConfig {
            base_url: self.base_url@,
            key: self.admin_key@,
            max_attempts: self.max_attempts,
            base_delay_ms: self.base_delay_ms,
        }
    }
}

impl AdminSynapseClientBuilder {
    /// Every request is allowed at least one attempt.
    #[verifier::type_invariant]
    spec fn allows_an_attempt(self) -> bool {
        self.max_attempts >= 1
    }
}

impl AdminSynapseClient {
    /// Return a builder for constructing an [`AdminSynapseClient`], with 3
    /// attempts per request and a 200 ms base delay.
    pub fn builder(base_url: &str, admin_key: &str) -> (b: AdminSynapseClientBuilder)
        ensures
            b@ == (ClientConfig {
                base_url: base_url@,
                key: admin_key@,
                max_attempts: DEFAULT_MAX_ATTEMPTS,
                base_delay_ms: DEFAULT_BASE_DELAY_MS,
            }),
    {
        AdminSynapseClientBuilder {
            base_url: String::from_str(base_url),
            admin_key: String::from_str(admin_key),
            max_attempts: DEFAULT_MAX_ATTEMPTS,
            base_delay_ms: DEFAULT_BASE_DELAY_MS,
        }
    }

    /// The request for `method` on `path`, authenticated with the admin key
    /// in the `X-Admin-Key` header.
    pub fn request(
        &self,
        method: Method,
        path: &str,
        query: Vec<(String, String)>,
        body: Option<String>,
    ) -> (r: ApiRequest)
        ensures
            is_request(
                r,
                self@.base_url,
                admin_key_header(),
                self@.key,
                method,
                path@,
                pairs_view(query),
                opt_view(body),
            ),
    {
        proof {
            reveal_strlit("X-Admin-Key");
            assert("X-Admin-Key"@ =~= admin_key_header());
        }
        frame_request(&self.base_url, "X-Admin-Key", &self.admin_key, method, path, query, body)
    }

    /// A fresh retry schedule for one request, on this client's settings.
    pub fn retry(&self) -> (s: RetryState)
        ensures
            s@.max_attempts == self@.max_attempts,
            s@.base_delay_ms == self@.base_delay_ms,
            s@.attempts == 0,
    {
        proof {
            use_type_invariant(self);
        }
        RetryState::new(self.max_attempts, self.base_delay_ms)
    }

    /// The connection pool this client holds.
    pub closed spec fn pool(&self) -> reqwest::Client {
        self.http
    }

    /// The connection pool the requests go through: the one this client holds.
    pub fn http(&self) -> (h: &reqwest::Client)
        ensures
            *h == self.pool(),
    {
        &self.http
    }

    /// The base URL every path is appended to.
    pub fn base_url(&self) -> (s: &str)
        ensures
            s@ == self@.base_url,
    {
        self.base_url.as_str()
    }

    /// Attempts allowed per request, the first included.
    pub fn max_attempts(&self) -> (n: u32)
        ensures
            n == self@.max_attempts,
            n >= 1,
    {
        proof {
            use_type_invariant(self);
        }
        self.max_attempts
    }

    /// Base delay of the exponential backoff, in milliseconds.
    pub fn base_delay_ms(&self) -> (n: u64)
        ensures
            n == self@.base_delay_ms,
    {
        self.base_delay_ms
    }
}

impl AdminSynapseClientBuilder {
    /// Set the maximum total number of attempts, including the first (default: 3).
    ///
    /// Values below 1 are treated as 1 (no retries).
    pub fn max_attempts(self, n: u32) -> (b: Self)
        ensures
            b@ == (ClientConfig { max_attempts: if n < 1 { 1 } else { n }, ..self@ }),
            b@.max_attempts >= 1,
    {
        AdminSynapseClientBuilder { max_attempts: if n < 1 { 1 } else { n }, ..self }
    }

    /// Disable retry behaviour. The first failure is returned immediately.
    pub fn disable_retries(self) -> (b: Self)
        ensures
            b@ == (ClientConfig { max_attempts: 1, ..self@ }),
            b@.max_attempts >= 1,
    {
        AdminSynapseClientBuilder { max_attempts: 1, ..self }
    }

    /// Set the base delay in milliseconds for exponential backoff (default: 200).
    pub fn base_delay_ms(self, ms: u64) -> (b: Self)
        ensures
            b@ == (ClientConfig { base_delay_ms: ms, ..self@ }),
            b@.max_attempts >= 1,
    {
        proof {
            use_type_invariant(&self);
        }
        AdminSynapseClientBuilder { base_delay_ms: ms, ..self }
    }

    /// Build the [`AdminSynapseClient`].
    pub fn build(self) -> (c: AdminSynapseClient)
        ensures
            c@ == self@,
            c@.max_attempts >= 1,
    {
        proof {
            use_type_invariant(&self);
        }
        AdminSynapseClient {
            http: new_http_client(),
            base_url: self.base_url,
            admin_key: self.admin_key,
            max_attempts: self.max_attempts,
            base_delay_ms: self.base_delay_ms,
        }
    }
}

} // verus!
