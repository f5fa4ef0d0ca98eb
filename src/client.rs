//! The client: its base path, the three endpoint paths derived from it, and
//! the shared HTTP transport.
use vstd::prelude::*;
use vstd::string::StringExecFns;

verus! {

#[verifier::external_type_specification]
#[verifier::external_body]
pub struct ExHttpClient(reqwest::Client);

#[verifier::external_type_specification]
#[verifier::external_body]
pub struct ExHttpError(reqwest::Error);

/// Relies on reqwest's `Client::clone`, which the derived `Clone` of the
/// client calls: the copy shares the connection pool. Nothing more is stated.
pub assume_specification[ <reqwest::Client as Clone>::clone ](c: &reqwest::Client) -> reqwest::Client;

/// Seconds between two HTTP/2 keep-alive pings.
pub const KEEP_ALIVE_INTERVAL_SECS: u64 = 10;

/// The path of the quote endpoint under `base`.
pub open spec fn quote_path_of(base: Seq<char>) -> Seq<char> {
    base + "/quote"@
}

/// The path of the swap endpoint under `base`.
pub open spec fn swap_path_of(base: Seq<char>) -> Seq<char> {
    base + "/swap"@
}

/// The path of the swap-instructions endpoint under `base`.
pub open spec fn swap_instructions_path_of(base: Seq<char>) -> Seq<char> {
    base + "/swap-instructions"@
}

/// The settings of the shared transport.
#[derive(Clone, Copy, Debug, PartialEq, Eq)]
pub struct TransportConfig {
    /// Whether HTTP/2 keep-alive pings are sent on idle connections too.
    pub http2_keep_alive_while_idle: bool,
    /// How long an idle pooled connection is kept, in seconds; `None` keeps it.
    pub pool_idle_timeout_secs: Option<u64>,
    /// The interval between HTTP/2 keep-alive pings, in seconds.
    pub http2_keep_alive_interval_secs: Option<u64>,
}

impl TransportConfig {
    /// Pings while idle, never drops idle connections, pings every ten seconds.
    pub fn keep_alive() -> (r: TransportConfig)
        ensures
            r.http2_keep_alive_while_idle,
            r.pool_idle_timeout_secs is None,
            r.http2_keep_alive_interval_secs == Some(KEEP_ALIVE_INTERVAL_SECS),
    {
        TransportConfig {
            http2_keep_alive_while_idle: true,
            pool_idle_timeout_secs: None,
            http2_keep_alive_interval_secs: Some(KEEP_ALIVE_INTERVAL_SECS),
        }
    }
}

/// Relies on reqwest's `ClientBuilder`: `http2_keep_alive_while_idle`,
/// `pool_idle_timeout` and `http2_keep_alive_interval` only record a setting,
/// and `build` returns the client or the error of a TLS backend or resolver
/// that could not be set up. Whether it fails depends on the machine, so
/// nothing is promised of the outcome.
#[verifier::external_body]
fn build_http_client(config: &TransportConfig) -> (r: Result<reqwest::Client, reqwest::Error>) {
    reqwest::Client::builder()
        .http2_keep_alive_while_idle(config.http2_keep_alive_while_idle)
        .pool_idle_timeout(config.pool_idle_timeout_secs.map(std::time::Duration::from_secs))
        .http2_keep_alive_interval(
            config.http2_keep_alive_interval_secs.map(std::time::Duration::from_secs),
        )
        .build()
}

/// The HTTP method of a request.
#[derive(Clone, Copy, Debug, PartialEq, Eq, Structural)]
pub enum HttpMethod {
    Get,
    Post,
}

/// Where and how a request of one operation is sent.
#[derive(Clone, Debug)]
pub struct Endpoint {
    pub method: HttpMethod,
    pub url: String,
}

/// A client of the service. The paths are fixed when it is made; the
/// transport is shared by every request that it sends.
#[derive(Clone)]
pub struct JupiterSwapApiClient {
    pub base_path: String,
    pub quote_path: String,
    pub swap_path: String,
    pub swap_instructions_path: String,
    pub http_client: reqwest::Client,
}

impl JupiterSwapApiClient {
    /// Its paths are those that `base_path` gives.
    pub open spec fn has_paths_of(&self, base_path: Seq<char>) -> bool {
        &&& self.base_path@ == base_path
        &&& self.quote_path@ == quote_path_of(base_path)
        &&& self.swap_path@ == swap_path_of(base_path)
        &&& self.swap_instructions_path@ == swap_instructions_path_of(base_path)
    }

    /// Its paths are derived from its own base path.
    pub open spec fn wf(&self) -> bool {
        self.has_paths_of(self.base_path@)
    }

    /// A client over `base_path` that sends through `http_client`. It cannot
    /// fail, whatever the base path.
    pub fn with_http_client(base_path: String, http_client: reqwest::Client) -> (r: Self)
        ensures
            r.has_paths_of(base_path@),
            r.http_client == http_client,
    {
        let quote_path = base_path.clone().concat("/quote");
        let swap_path = base_path.clone().concat("/swap");
        let swap_instructions_path = base_path.clone().concat("/swap-instructions");
        JupiterSwapApiClient {
            base_path,
            quote_path,
            swap_path,
            swap_instructions_path,
            http_client,
        }
    }

    /// A client over `base_path` with a transport of its own, set up by
    /// `TransportConfig::keep_alive`. It fails only where that transport cannot
    /// be built.
    pub fn new(base_path: String) -> (r: Result<Self, reqwest::Error>)
        ensures
            r matches Ok(c) ==> c.has_paths_of(base_path@),
    {
        let config = TransportConfig::keep_alive();
        match build_http_client(&config) {
            Ok(http_client) => Ok(Self::with_http_client(base_path, http_client)),
            Err(e) => Err(e),
        }
    }

    /// A GET to the quote path.
    pub fn quote_endpoint(&self) -> (r: Endpoint)
        ensures
            r.method == HttpMethod::Get,
            r.url@ == self.quote_path@,
    {
        Endpoint { method: HttpMethod::Get, url: self.quote_path.clone() }
    }

    /// A POST to the swap path.
    pub fn swap_endpoint(&self) -> (r: Endpoint)
        ensures
            r.method == HttpMethod::Post,
            r.url@ == self.swap_path@,
    {
        Endpoint { method: HttpMethod::Post, url: self.swap_path.clone() }
    }

    /// A POST to the swap-instructions path.
    pub fn swap_instructions_endpoint(&self) -> (r: Endpoint)
        ensures
            r.method == HttpMethod::Post,
            r.url@ == self.swap_instructions_path@,
    {
        Endpoint { method: HttpMethod::Post, url: self.swap_instructions_path.clone() }
    }
}

} // verus!
