use vstd::prelude::*;
use vstd::string::StringExecFns;

use crate::error::Error;
use crate::headers::HeaderPolicy;
use crate::http_parse::{header_value_accepts, value_ok};
use crate::transport::proxy_ok;

verus! {

/// How the transport reaches the network.
#[derive(Debug, Clone, PartialEq, Eq)]
pub enum ProxySetting {
    /// Nothing configured: the transport's own default.
    Off,
    /// An explicit "no proxy", the system's included.
    Bypass,
    /// All traffic through this upstream proxy.
    Upstream(String),
}

pub ghost enum ProxyView {
    Off,
    Bypass,
    Upstream(Seq<char>),
}

impl View for ProxySetting {
    type V = ProxyView;

    open spec fn view(&self) -> ProxyView {
        match self {
            ProxySetting::Off => ProxyView::Off,
            ProxySetting::Bypass => ProxyView::Bypass,
            ProxySetting::Upstream(p) => ProxyView::Upstream(p@),
        }
    }
}

/// The proxy value a host passed.
#[derive(Debug, Clone, PartialEq, Eq)]
pub enum ProxyOption {
    /// Left out.
    Absent,
    Text(String),
    /// A value that is not text: refused at construction.
    NotText,
}

/// What a host passes to build a client; a field other than the proxy is
/// `None` where the host left it out or gave a value of the wrong kind.
#[derive(Debug)]
pub struct ClientOptions {
    pub proxy: ProxyOption,
    pub user_agent: Option<String>,
    pub verbose: Option<bool>,
    pub header_policy: HeaderPolicy,
}

/// The plain settings that configure the transport: clear every proxy,
/// route all traffic through one, the user agent, and verbose connections.
#[derive(Debug)]
pub struct BuilderPlan {
    pub no_proxy: bool,
    pub proxy: Option<String>,
    pub user_agent: String,
    pub verbose: bool,
}

/// The fixed configuration of a client and of all its copies.
#[derive(Debug)]
pub struct TransportConfig {
    pub proxy: ProxySetting,
    pub user_agent: String,
    pub verbose: bool,
    pub header_policy: HeaderPolicy,
}

pub ghost struct ConfigView {
    pub proxy: ProxyView,
    pub user_agent: Seq<char>,
    pub verbose: bool,
    pub header_policy: HeaderPolicy,
}

impl View for TransportConfig {
    type V = ConfigView;

    open spec fn view(&self) -> ConfigView {
        ConfigView {
            proxy: self.proxy@,
            user_agent: self.user_agent@,
            verbose: self.verbose,
            header_policy: self.header_policy,
        }
    }
}

/// The user agent sent where the host names none.
pub open spec fn default_user_agent() -> Seq<char> {
    seq!['p', 'y', 'r', '/', '0', '.', '1', '.', '0']
}

pub open spec fn is_off(p: Seq<char>) -> bool {
    p == seq!['o', 'f', 'f']
}

pub open spec fn is_bypass(p: Seq<char>) -> bool {
    p == seq!['b', 'y', 'p', 'a', 's', 's'] || p == seq!['n', 'o', 'p', 'r', 'o', 'x', 'y']
}

/// The texts of the setting words, as the executable code writes them.
proof fn lemma_setting_words()
    ensures
        "off"@ == seq!['o', 'f', 'f'],
        "bypass"@ == seq!['b', 'y', 'p', 'a', 's', 's'],
        "noproxy"@ == seq!['n', 'o', 'p', 'r', 'o', 'x', 'y'],
        "pyr/0.1.0"@ == default_user_agent(),
{
    reveal_strlit("off");
    reveal_strlit("bypass");
    reveal_strlit("noproxy");
    reveal_strlit("pyr/0.1.0");
    assert("off"@ =~= seq!['o', 'f', 'f']);
    assert("bypass"@ =~= seq!['b', 'y', 'p', 'a', 's', 's']);
    assert("noproxy"@ =~= seq!['n', 'o', 'p', 'r', 'o', 'x', 'y']);
    assert("pyr/0.1.0"@ =~= default_user_agent());
}

/// The proxy setting a host value asks for, or `None` where it is not
/// text or names an upstream proxy the transport refuses.
pub open spec fn proxy_of(p: ProxyOption) -> Option<ProxyView> {
    match p {
        ProxyOption::Absent => Some(ProxyView::Off),
        ProxyOption::NotText => None,
        ProxyOption::Text(s) => {
            let t = s@;
            if is_off(t) {
                Some(ProxyView::Off)
            } else if is_bypass(t) {
                Some(ProxyView::Bypass)
            } else if proxy_ok(t) {
                Some(ProxyView::Upstream(t))
            } else {
                None
            }
        },
    }
}

/// Whether the options make a valid configuration.
pub open spec fn options_ok(o: ClientOptions) -> bool {
    &&& proxy_of(o.proxy) is Some
    &&& match o.user_agent {
        Some(ua) => value_ok(ua@),
        None => true,
    }
}

/// The configuration that valid options give.
pub open spec fn config_of(o: ClientOptions) -> ConfigView {
    ConfigView {
        proxy: proxy_of(o.proxy)->Some_0,
        user_agent: match o.user_agent {
            Some(ua) => ua@,
            None => default_user_agent(),
        },
        verbose: match o.verbose {
            Some(v) => v,
            None => false,
        },
        header_policy: o.header_policy,
    }
}

/// An invalid proxy value fails at construction: a value that is not text,
/// or a text that is no setting word and that the transport refuses as a
/// proxy URL, makes invalid options, which `Client::new` refuses with a
/// validation error before any request exists.
pub proof fn lemma_invalid_proxy_refused(o: ClientOptions)
    requires
        match o.proxy {
            ProxyOption::NotText => true,
            ProxyOption::Text(t) => !is_off(t@) && !is_bypass(t@) && !proxy_ok(t@),
            ProxyOption::Absent => false,
        },
    ensures
        !options_ok(o),
{
}

fn text_is(s: &String, lit: &str) -> (r: bool)
    ensures
        r == (s@ == lit@),
{
    let l = String::from_str(lit);
    s.eq(&l)
}

impl TransportConfig {
    /// Validates the options once, at construction: an upstream proxy the
    /// transport refuses, or a user agent that is no valid header value,
    /// fails here and never later.
    pub fn from_options(o: ClientOptions) -> (r: Result<TransportConfig, Error>)
        ensures
            r is Ok <==> options_ok(o),
            r is Err ==> r->Err_0 is Validation,
            r is Ok ==> r->Ok_0@ == config_of(o),
    {
        proof {
            lemma_setting_words();
        }
        let proxy = match o.proxy {
            ProxyOption::Absent => ProxySetting::Off,
            ProxyOption::NotText => {
                return Err(Error::Validation(String::from_str("unsupported proxy value")));
            },
            ProxyOption::Text(p) => {
                if text_is(&p, "off") {
                    ProxySetting::Off
                } else if text_is(&p, "bypass") || text_is(&p, "noproxy") {
                    ProxySetting::Bypass
                } else {
                    match crate::transport::proxy_all(p.as_str()) {
                        Ok(_) => ProxySetting::Upstream(p),
                        Err(msg) => {
                            return Err(Error::Validation(msg));
                        },
                    }
                }
            },
        };
        let user_agent = match o.user_agent {
            Some(ua) => {
                if !header_value_accepts(ua.as_str()) {
                    return Err(Error::Validation(String::from_str("invalid user agent")));
                }
                ua
            },
            None => {
                String::from_str("pyr/0.1.0")
            },
        };
        let verbose = match o.verbose {
            Some(v) => v,
            None => false,
        };
        Ok(TransportConfig { proxy, user_agent, verbose, header_policy: o.header_policy })
    }

    /// The settings handed to the transport's builder.
    pub fn builder_plan(&self) -> (r: BuilderPlan)
        ensures
            r.no_proxy == (self@.proxy == ProxyView::Bypass),
            match self@.proxy {
                ProxyView::Upstream(p) => r.proxy is Some && r.proxy->Some_0@ == p,
                _ => r.proxy is None,
            },
            r.user_agent@ == self@.user_agent,
            r.verbose == self@.verbose,
    {
        let (no_proxy, proxy) = match &self.proxy {
            ProxySetting::Off => (false, None),
            ProxySetting::Bypass => (true, None),
            ProxySetting::Upstream(p) => (false, Some(p.clone())),
        };
        BuilderPlan { no_proxy, proxy, user_agent: self.user_agent.clone(), verbose: self.verbose }
    }

    /// A copy with the same settings.
    pub fn duplicate(&self) -> (r: TransportConfig)
        ensures
            r@ == self@,
    {
        let proxy = match &self.proxy {
            ProxySetting::Off => ProxySetting::Off,
            ProxySetting::Bypass => ProxySetting::Bypass,
            ProxySetting::Upstream(p) => ProxySetting::Upstream(p.clone()),
        };
        TransportConfig {
            proxy,
            user_agent: self.user_agent.clone(),
            verbose: self.verbose,
            header_policy: self.header_policy,
        }
    }
}

} // verus!
