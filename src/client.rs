use vstd::prelude::*;

use crate::config::{ClientOptions, ConfigView, ProxyView, TransportConfig, config_of, options_ok};
use crate::error::Error;
use crate::headers::{HeaderList, HeaderPolicy, RawHeader, all_well_formed, overrides_of};
use crate::http_parse::{method_accepts, method_ok, opt_view, parse_url, url_of};
use crate::naming::{download_name, download_name_of};
use crate::transport::{
    builder_build, builder_no_proxy, builder_proxy, builder_user_agent, builder_verbose,
    new_builder, proxy_all, proxy_ok, share_client,
};
use reqwest::Client as HttpTransport;
use vstd::string::StringExecFns;

verus! {

/// The options of one call.
#[derive(Debug)]
pub struct CallOptions {
    /// Seconds before the call gives up; `None` for the client's default.
    pub timeout_secs: Option<u64>,
    /// Headers that replace the defaults wholesale, as the host gave them.
    pub headers: Option<Vec<RawHeader>>,
}

/// One request, ready for the transport. Each call owns its own.
#[derive(Debug)]
pub struct RequestSpec {
    pub method: String,
    /// The serialisation of the parsed URL.
    pub url: String,
    pub timeout_secs: Option<u64>,
    pub headers: Option<HeaderList>,
}

/// One download: a request for `url` whose body goes to the file `name`.
#[derive(Debug)]
pub struct DownloadTask {
    /// The serialisation of the parsed URL.
    pub url: String,
    pub name: String,
    pub headers: Option<HeaderList>,
}

/// Whether a configuration names an upstream proxy the transport refuses.
pub open spec fn upstream_refused(c: ConfigView) -> bool {
    match c.proxy {
        ProxyView::Upstream(p) => !proxy_ok(p),
        _ => false,
    }
}

/// Whether the header overrides of a call are refused under a policy.
pub open spec fn headers_refused(policy: HeaderPolicy, raw: Option<Vec<RawHeader>>) -> bool {
    match raw {
        Some(r) => policy == HeaderPolicy::Strict && !all_well_formed(r@),
        None => false,
    }
}

/// The headers a request carries when its overrides are not refused.
pub open spec fn headers_match(h: Option<HeaderList>, raw: Option<Vec<RawHeader>>) -> bool {
    match (h, raw) {
        (None, None) => true,
        (Some(l), Some(r)) => l.wf() && l@ == overrides_of(r@),
        _ => false,
    }
}

/// Whether a call is refused before dispatch.
pub open spec fn call_refused(policy: HeaderPolicy, method: Seq<char>, url: Seq<char>, o: CallOptions) -> bool {
    !method_ok(method) || url_of(url) is None || headers_refused(policy, o.headers)
}

/// The request a call that is not refused prepares.
pub open spec fn request_matches(r: RequestSpec, method: Seq<char>, url: Seq<char>, o: CallOptions) -> bool {
    &&& r.method@ == method
    &&& url_of(url) == Some(r.url@)
    &&& r.timeout_secs == o.timeout_secs
    &&& headers_match(r.headers, o.headers)
}

fn build_overrides(raw: &Option<Vec<RawHeader>>, policy: HeaderPolicy) -> (r: Result<Option<HeaderList>, Error>)
    ensures
        r is Err <==> headers_refused(policy, *raw),
        r is Err ==> r->Err_0 is Validation,
        r is Ok ==> headers_match(r->Ok_0, *raw),
{
    match raw {
        None => Ok(None),
        Some(v) => match HeaderList::from_raw(v, policy) {
            Ok(l) => Ok(Some(l)),
            Err(e) => Err(e),
        },
    }
}

fn copy_overrides(h: &Option<HeaderList>) -> (r: Option<HeaderList>)
    ensures
        match (r, *h) {
            (None, None) => true,
            (Some(a), Some(b)) => a@ == b@,
            _ => false,
        },
{
    match h {
        None => None,
        Some(l) => Some(l.duplicate()),
    }
}

fn validated_method(method: &str) -> (r: Result<String, Error>)
    ensures
        r is Err <==> !method_ok(method@),
        r is Err ==> r->Err_0 is Validation,
        r is Ok ==> r->Ok_0@ == method@,
{
    if method_accepts(method) {
        Ok(String::from_str(method))
    } else {
        Err(Error::Validation(String::from_str("invalid HTTP method")))
    }
}

fn validated_url(url: &str) -> (r: Result<String, Error>)
    ensures
        r is Err <==> url_of(url@) is None,
        r is Err ==> r->Err_0 is Validation,
        r is Ok ==> url_of(url@) == Some(r->Ok_0@),
{
    match parse_url(url) {
        Ok(u) => Ok(u),
        Err(msg) => Err(Error::Validation(msg)),
    }
}

/// A handle on a configured transport. Copies made with [`Client::share`]
/// share the connection pool and the configuration, which no call changes.
pub struct Client {
    config: TransportConfig,
    transport: HttpTransport,
}

impl Client {
    pub closed spec fn config_view(&self) -> ConfigView {
        self.config@
    }

    /// Builds the transport once from validated options. Invalid options
    /// fail here, with a validation error; the transport itself may still
    /// fail to start.
    pub fn new(options: ClientOptions) -> (r: Result<Client, Error>)
        ensures
            !options_ok(options) ==> r is Err && r->Err_0 is Validation,
            options_ok(options) && r is Err ==> r->Err_0 is Transport,
            r is Ok ==> options_ok(options) && r->Ok_0.config_view() == config_of(options),
    {
        let config = match TransportConfig::from_options(options) {
            Ok(c) => c,
            Err(e) => return Err(e),
        };
        Self::with_config(config)
    }

    /// Builds the transport for a configuration, through the settings of
    /// [`TransportConfig::builder_plan`]. An upstream proxy the transport
    /// refuses is a validation error; any other failure is the transport's.
    pub fn with_config(config: TransportConfig) -> (r: Result<Client, Error>)
        ensures
            (r is Err && r->Err_0 is Validation) <==> upstream_refused(config@),
            r is Err && !(r->Err_0 is Validation) ==> r->Err_0 is Transport,
            r is Ok ==> r->Ok_0.config_view() == config@,
    {
        let plan = config.builder_plan();
        let mut b = new_builder();
        if plan.no_proxy {
            b = builder_no_proxy(b);
        }
        if let Some(p) = &plan.proxy {
            match proxy_all(p.as_str()) {
                Ok(px) => {
                    b = builder_proxy(b, px);
                },
                Err(msg) => return Err(Error::Validation(msg)),
            }
        }
        b = builder_user_agent(b, plan.user_agent.as_str());
        b = builder_verbose(b, plan.verbose);
        match builder_build(b) {
            Ok(transport) => Ok(Client { config, transport }),
            Err(msg) => Err(Error::Transport(msg)),
        }
    }

    pub fn config(&self) -> (r: &TransportConfig)
        ensures
            r@ == self.config_view(),
    {
        &self.config
    }

    /// The underlying transport, for the code that performs the I/O.
    pub fn transport(&self) -> &HttpTransport {
        &self.transport
    }

    /// A second handle on the same pool and configuration.
    pub fn share(&self) -> (r: Client)
        ensures
            r.config_view() == self.config_view(),
    {
        Client { config: self.config.duplicate(), transport: share_client(&self.transport) }
    }

    /// Prepares one request. A malformed method or URL, or (under the
    /// strict policy) a malformed header, refuses the call before dispatch;
    /// otherwise the request carries exactly this call's options.
    pub fn prepare(&self, method: &str, url: &str, options: &CallOptions) -> (r: Result<RequestSpec, Error>)
        ensures
            r is Err <==> call_refused(self.config_view().header_policy, method@, url@, *options),
            r is Err ==> r->Err_0 is Validation,
            r is Ok ==> request_matches(r->Ok_0, method@, url@, *options),
    {
        let method = match validated_method(method) {
            Ok(m) => m,
            Err(e) => return Err(e),
        };
        let url = match validated_url(url) {
            Ok(u) => u,
            Err(e) => return Err(e),
        };
        let headers = match build_overrides(&options.headers, self.config.header_policy) {
            Ok(h) => h,
            Err(e) => return Err(e),
        };
        Ok(RequestSpec { method, url, timeout_secs: options.timeout_secs, headers })
    }

    /// Prepares one request per URL, all with the same method and options.
    /// Any URL that does not parse refuses the whole batch before dispatch.
    pub fn prepare_batch(&self, method: &str, urls: &Vec<String>, options: &CallOptions) -> (r: Result<
        Vec<RequestSpec>,
        Error,
    >)
        ensures
            r is Err <==> (!method_ok(method@) || headers_refused(
                self.config_view().header_policy,
                options.headers,
            ) || exists|i: int| 0 <= i < urls@.len() && url_of(#[trigger] urls@[i]@) is None),
            r is Err ==> r->Err_0 is Validation,
            r is Ok ==> r->Ok_0@.len() == urls@.len() && forall|i: int|
                0 <= i < urls@.len() ==> request_matches(
                    #[trigger] r->Ok_0@[i],
                    method@,
                    urls@[i]@,
                    *options,
                ),
    {
        let m = match validated_method(method) {
            Ok(m) => m,
            Err(e) => return Err(e),
        };
        let headers = match build_overrides(&options.headers, self.config.header_policy) {
            Ok(h) => h,
            Err(e) => return Err(e),
        };
        let mut out: Vec<RequestSpec> = Vec::new();
        let mut i: usize = 0;
        while i < urls.len()
            invariant
                0 <= i <= urls@.len(),
                m@ == method@,
                headers_match(headers, options.headers),
                out@.len() == i,
                forall|j: int| 0 <= j < i ==> url_of(#[trigger] urls@[j]@) is Some,
                forall|j: int|
                    0 <= j < i ==> request_matches(#[trigger] out@[j], method@, urls@[j]@, *options),
            decreases urls@.len() - i,
        {
            let url = match validated_url(urls[i].as_str()) {
                Ok(u) => u,
                Err(e) => return Err(e),
            };
            let h = copy_overrides(&headers);
            out.push(
                RequestSpec {
                    method: String::from_str(m.as_str()),
                    url,
                    timeout_secs: options.timeout_secs,
                    headers: h,
                },
            );
            i = i + 1;
        }
        Ok(out)
    }

    /// Prepares a download of `url` to `name`, or to the URL's fingerprint
    /// where no name is given.
    pub fn prepare_download(&self, url: &str, name: Option<String>, headers: &Option<Vec<RawHeader>>) -> (r: Result<
        DownloadTask,
        Error,
    >)
        ensures
            r is Err <==> (url_of(url@) is None || headers_refused(
                self.config_view().header_policy,
                *headers,
            )),
            r is Err ==> r->Err_0 is Validation,
            r is Ok ==> {
                &&& url_of(url@) == Some(r->Ok_0.url@)
                &&& r->Ok_0.name@ == download_name_of(url@, opt_view(name))
                &&& name is None ==> r->Ok_0.name@.len() == 32
                &&& headers_match(r->Ok_0.headers, *headers)
            },
    {
        let name = download_name(url, name);
        let parsed = match validated_url(url) {
            Ok(u) => u,
            Err(e) => return Err(e),
        };
        let h = match build_overrides(headers, self.config.header_policy) {
            Ok(h) => h,
            Err(e) => return Err(e),
        };
        Ok(DownloadTask { url: parsed, name, headers: h })
    }

    /// Prepares one download per `(url, name)` item, all with the same
    /// headers. Any URL that does not parse refuses the whole batch.
    pub fn prepare_downloads(&self, items: &Vec<(String, Option<String>)>, headers: &Option<Vec<RawHeader>>) -> (r: Result<
        Vec<DownloadTask>,
        Error,
    >)
        ensures
            r is Err <==> (headers_refused(self.config_view().header_policy, *headers) || exists|i: int|
                0 <= i < items@.len() && url_of(#[trigger] items@[i].0@) is None),
            r is Err ==> r->Err_0 is Validation,
            r is Ok ==> r->Ok_0@.len() == items@.len() && forall|i: int|
                0 <= i < items@.len() ==> {
                    let t = #[trigger] r->Ok_0@[i];
                    &&& url_of(items@[i].0@) == Some(t.url@)
                    &&& t.name@ == download_name_of(items@[i].0@, opt_view(items@[i].1))
                    &&& items@[i].1 is None ==> t.name@.len() == 32
                    &&& headers_match(t.headers, *headers)
                },
    {
        let h = match build_overrides(headers, self.config.header_policy) {
            Ok(h) => h,
            Err(e) => return Err(e),
        };
        let mut out: Vec<DownloadTask> = Vec::new();
        let mut i: usize = 0;
        while i < items.len()
            invariant
                0 <= i <= items@.len(),
                headers_match(h, *headers),
                out@.len() == i,
                forall|j: int| 0 <= j < i ==> url_of(#[trigger] items@[j].0@) is Some,
                forall|j: int|
                    0 <= j < i ==> {
                        let t = #[trigger] out@[j];
                        &&& url_of(items@[j].0@) == Some(t.url@)
                        &&& t.name@ == download_name_of(items@[j].0@, opt_view(items@[j].1))
                        &&& items@[j].1 is None ==> t.name@.len() == 32
                        &&& headers_match(t.headers, *headers)
                    },
            decreases items@.len() - i,
        {
            let item = &items[i];
            let url = match validated_url(item.0.as_str()) {
                Ok(u) => u,
                Err(e) => return Err(e),
            };
            let given = match &item.1 {
                Some(n) => Some(n.clone()),
                None => None,
            };
            let name = download_name(item.0.as_str(), given);
            out.push(DownloadTask { url, name, headers: copy_overrides(&h) });
            i = i + 1;
        }
        Ok(out)
    }
}

/// Copies of one client do not mix their calls: whatever two copies
/// prepare concurrently, each request carries the timeout and headers of
/// its own call, and whether a call is refused depends on the shared
/// configuration and that call's own arguments alone.
pub proof fn lemma_calls_isolated(
    a: Client,
    b: Client,
    m1: Seq<char>,
    u1: Seq<char>,
    o1: CallOptions,
    r1: RequestSpec,
    m2: Seq<char>,
    u2: Seq<char>,
    o2: CallOptions,
    r2: RequestSpec,
)
    requires
        a.config_view() == b.config_view(),
        request_matches(r1, m1, u1, o1),
        request_matches(r2, m2, u2, o2),
    ensures
        r1.timeout_secs == o1.timeout_secs,
        r2.timeout_secs == o2.timeout_secs,
        headers_match(r1.headers, o1.headers),
        headers_match(r2.headers, o2.headers),
        r1.method@ == m1 && r2.method@ == m2,
        call_refused(a.config_view().header_policy, m2, u2, o2) == call_refused(
            b.config_view().header_policy,
            m2,
            u2,
            o2,
        ),
{
}

} // verus!
