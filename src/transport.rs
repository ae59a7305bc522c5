use reqwest::Client as HttpTransport;
use vstd::prelude::*;

verus! {

#[verifier::external_type_specification]
#[verifier::external_body]
pub struct ExHttpTransport(HttpTransport);

#[verifier::external_type_specification]
#[verifier::external_body]
pub struct ExClientBuilder(reqwest::ClientBuilder);

#[verifier::external_type_specification]
#[verifier::external_body]
pub struct ExProxy(reqwest::Proxy);

/// Whether the transport takes a text as the URL of an upstream proxy.
pub uninterp spec fn proxy_ok(s: Seq<char>) -> bool;

/// Relies on `reqwest::Proxy::all`: it parses the text as a URL (with
/// `http://` put in front where the text has no scheme) and checks the
/// scheme; the outcome depends on the text alone. A refusal comes with the
/// transport's message.
#[verifier::external_body]
pub(crate) fn proxy_all(p: &str) -> (r: Result<reqwest::Proxy, String>)
    ensures
        r is Ok <==> proxy_ok(p@),
{
    reqwest::Proxy::all(p).map_err(|e| e.to_string())
}

/// Relies on `reqwest::ClientBuilder::new`.
#[verifier::external_body]
pub(crate) fn new_builder() -> reqwest::ClientBuilder {
    reqwest::ClientBuilder::new()
}

/// Relies on `reqwest::ClientBuilder::no_proxy`: no proxy, not even the
/// system's.
#[verifier::external_body]
pub(crate) fn builder_no_proxy(b: reqwest::ClientBuilder) -> reqwest::ClientBuilder {
    b.no_proxy()
}

/// Relies on `reqwest::ClientBuilder::proxy`: all traffic through `p`.
#[verifier::external_body]
pub(crate) fn builder_proxy(b: reqwest::ClientBuilder, p: reqwest::Proxy) -> reqwest::ClientBuilder {
    b.proxy(p)
}

/// Relies on `reqwest::ClientBuilder::user_agent`.
#[verifier::external_body]
pub(crate) fn builder_user_agent(b: reqwest::ClientBuilder, ua: &str) -> reqwest::ClientBuilder {
    b.user_agent(ua)
}

/// Relies on `reqwest::ClientBuilder::connection_verbose`.
#[verifier::external_body]
pub(crate) fn builder_verbose(b: reqwest::ClientBuilder, v: bool) -> reqwest::ClientBuilder {
    b.connection_verbose(v)
}

/// Relies on `reqwest::ClientBuilder::build`, which may fail where the TLS
/// backend cannot be set up; a failure comes with the transport's message.
#[verifier::external_body]
pub(crate) fn builder_build(b: reqwest::ClientBuilder) -> (r: Result<HttpTransport, String>) {
    b.build().map_err(|e| e.to_string())
}

/// Relies on `reqwest::Client`'s `Clone`: the copy shares the connection
/// pool and the configuration.
#[verifier::external_body]
pub(crate) fn share_client(c: &HttpTransport) -> HttpTransport {
    c.clone()
}

} // verus!
