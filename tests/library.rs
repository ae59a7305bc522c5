use pyr::batch::{after_callback, after_request, collect_successes, finish_batch, finish_download_batch, ItemStep};
use pyr::client::{CallOptions, Client};
use pyr::config::{ClientOptions, ProxyOption, ProxySetting, TransportConfig};
use pyr::download::{DownloadAction, DownloadEvent, DownloadPhase, DownloadSession};
use pyr::error::Error;
use pyr::gate::{CancellationGate, GateState, Race};
use pyr::headers::{HeaderList, HeaderPolicy, RawHeader};
use pyr::naming::{download_name, fingerprint_name, to_hex};
use pyr::response::{Header, Response};
use pyr::types::BoxedBytes;

fn options(proxy: Option<&str>, ua: Option<&str>, verbose: Option<bool>, policy: HeaderPolicy) -> ClientOptions {
    ClientOptions {
        proxy: match proxy {
            Some(p) => ProxyOption::Text(p.to_string()),
            None => ProxyOption::Absent,
        },
        user_agent: ua.map(|s| s.to_string()),
        verbose,
        header_policy: policy,
    }
}

fn raw(k: &str, v: &str) -> RawHeader {
    (Some(k.to_string()), Some(v.to_string()))
}

fn client(policy: HeaderPolicy) -> Client {
    Client::new(options(None, None, None, policy)).expect("client builds")
}

fn no_options() -> CallOptions {
    CallOptions { timeout_secs: None, headers: None }
}

fn response(url: &str, status: u16, body: &[u8]) -> Response {
    Response::assemble(url.to_string(), status, Header::from_entries(vec![]), body.to_vec(), Some(body.len() as u64))
        .expect("lengths agree")
}

fn entries(list: &HeaderList) -> Vec<(String, String)> {
    (0..list.len()).map(|i| list.entry(i)).collect()
}

#[test]
fn boxed_bytes_keep_their_bytes() {
    let b = BoxedBytes::new(vec![1u8, 2, 3].into_boxed_slice());
    assert_eq!(b.as_slice(), &[1, 2, 3]);
    assert_eq!(b.len(), 3);
    assert!(!b.is_empty());
    assert_eq!(BoxedBytes::from_slice(&[9, 8]).into_vec(), vec![9, 8]);
    assert!(BoxedBytes::from_vec(vec![]).is_empty());
}

#[test]
fn header_names_are_normalised_and_replaced() {
    let input = vec![raw("X-Token", "a"), raw("Accept", "text/html"), raw("x-token", "b")];
    let list = HeaderList::from_raw(&input, HeaderPolicy::Lenient).unwrap();
    assert_eq!(
        entries(&list),
        vec![("x-token".to_string(), "b".to_string()), ("accept".to_string(), "text/html".to_string())]
    );
}

#[test]
fn lenient_headers_drop_malformed_entries() {
    let input = vec![
        raw("bad name", "v"),
        raw("good", "line\nbreak"),
        (None, Some("v".to_string())),
        (Some("k".to_string()), None),
        raw("ok", "fine"),
    ];
    let list = HeaderList::from_raw(&input, HeaderPolicy::Lenient).unwrap();
    assert_eq!(entries(&list), vec![("ok".to_string(), "fine".to_string())]);
}

#[test]
fn strict_headers_refuse_malformed_entries() {
    let input = vec![raw("ok", "fine"), raw("bad name", "v")];
    let r = HeaderList::from_raw(&input, HeaderPolicy::Strict);
    assert!(matches!(r, Err(Error::Validation(_))));
    let fine = HeaderList::from_raw(&vec![raw("ok", "fine")], HeaderPolicy::Strict).unwrap();
    assert_eq!(fine.len(), 1);
}

#[test]
fn response_header_lookup_and_walk() {
    let h = Header::from_entries(vec![
        ("content-type".to_string(), Some("text/plain".to_string())),
        ("set-cookie".to_string(), Some("a=1".to_string())),
        ("set-cookie".to_string(), Some("b=2".to_string())),
        ("x-bin".to_string(), None),
    ]);
    assert_eq!(h.get("Content-Type"), Some("text/plain".to_string()));
    assert_eq!(h.get("set-cookie"), Some("a=1".to_string()));
    assert_eq!(h.get("x-bin"), Some(String::new()));
    assert_eq!(h.get("missing"), None);
    assert_eq!(h.get("bad name"), None);
    let items = h.items();
    assert_eq!(
        items,
        vec![
            (Some("content-type".to_string()), Some("text/plain".to_string())),
            (Some("set-cookie".to_string()), Some("a=1".to_string())),
            (None, Some("b=2".to_string())),
            (Some("x-bin".to_string()), None),
        ]
    );
    assert_eq!(h.duplicate().items(), items);
}

#[test]
fn response_body_matches_declared_length() {
    let r = response("http://example.com/", 200, b"hello");
    assert_eq!(r.get_content(), b"hello");
    assert_eq!(r.get_url(), "http://example.com/");
    assert_eq!(r.status(), 200);
    let short = Response::assemble("http://example.com/".to_string(), 200, Header::from_entries(vec![]), b"hel".to_vec(), Some(5));
    assert!(matches!(short, Err(Error::Transport(_))));
    let undeclared = Response::assemble("u".to_string(), 200, Header::from_entries(vec![]), b"abc".to_vec(), None).unwrap();
    assert_eq!(undeclared.get_content().len(), 3);
}

#[test]
fn response_ok_is_the_success_class() {
    assert!(response("u", 200, b"").ok());
    assert!(response("u", 299, b"").ok());
    assert!(!response("u", 199, b"").ok());
    assert!(!response("u", 300, b"").ok());
    assert!(!response("u", 404, b"").ok());
}

#[test]
fn hex_is_two_lower_digits_per_byte() {
    assert_eq!(to_hex(&[0x00, 0x0f, 0xab, 0xff]), "000fabff");
    assert_eq!(to_hex(&[]), "");
}

#[test]
fn fingerprint_is_the_md5_hex_of_the_url() {
    assert_eq!(fingerprint_name(""), "d41d8cd98f00b204e9800998ecf8427e");
    assert_eq!(fingerprint_name("http://example.com"), "a9b9f04336ce0181a08e774e01113b31");
    assert_eq!(download_name("http://example.com", Some("out.bin".to_string())), "out.bin");
}

#[test]
fn download_name_is_stable_across_calls() {
    let c = client(HeaderPolicy::Lenient);
    let a = c.prepare_download("http://example.com/a.bin", None, &None).unwrap();
    let b = c.share().prepare_download("http://example.com/a.bin", None, &None).unwrap();
    assert_eq!(a.name, b.name);
    assert_eq!(a.name, "1a1d5d1dad9691d0df3d42e46cbc10cb");
    assert_eq!(a.url, "http://example.com/a.bin");
}

#[test]
fn proxy_settings_are_read_once() {
    let off = TransportConfig::from_options(options(Some("off"), None, None, HeaderPolicy::Lenient)).unwrap();
    assert_eq!(off.proxy, ProxySetting::Off);
    let none = TransportConfig::from_options(options(None, None, None, HeaderPolicy::Lenient)).unwrap();
    assert_eq!(none.proxy, ProxySetting::Off);
    let bypass = TransportConfig::from_options(options(Some("bypass"), None, None, HeaderPolicy::Lenient)).unwrap();
    assert_eq!(bypass.proxy, ProxySetting::Bypass);
    let noproxy = TransportConfig::from_options(options(Some("noproxy"), None, None, HeaderPolicy::Lenient)).unwrap();
    assert_eq!(noproxy.proxy, ProxySetting::Bypass);
    let up = TransportConfig::from_options(options(Some("http://proxy.local:3128"), None, None, HeaderPolicy::Lenient)).unwrap();
    assert_eq!(up.proxy, ProxySetting::Upstream("http://proxy.local:3128".to_string()));
}

#[test]
fn invalid_proxy_fails_at_construction() {
    let r = Client::new(options(Some("http://[::1"), None, None, HeaderPolicy::Lenient));
    assert!(matches!(r, Err(Error::Validation(_))));
    let c = TransportConfig::from_options(options(Some("ftp://proxy.local"), None, None, HeaderPolicy::Lenient));
    assert!(matches!(c, Err(Error::Validation(_))));
}

#[test]
fn user_agent_and_verbosity() {
    let d = TransportConfig::from_options(options(None, None, None, HeaderPolicy::Lenient)).unwrap();
    assert_eq!(d.user_agent, "pyr/0.1.0");
    assert!(!d.verbose);
    let c = TransportConfig::from_options(options(None, Some("agent/2"), Some(true), HeaderPolicy::Strict)).unwrap();
    assert_eq!(c.user_agent, "agent/2");
    assert!(c.verbose);
    assert_eq!(c.header_policy, HeaderPolicy::Strict);
    let bad = TransportConfig::from_options(options(None, Some("a\nb"), None, HeaderPolicy::Lenient));
    assert!(matches!(bad, Err(Error::Validation(_))));
}

#[test]
fn client_keeps_its_configuration() {
    let c = Client::new(options(Some("bypass"), Some("agent/3"), Some(true), HeaderPolicy::Lenient)).unwrap();
    let s = c.share();
    assert_eq!(s.config().proxy, ProxySetting::Bypass);
    assert_eq!(s.config().user_agent, "agent/3");
    assert!(s.config().verbose);
}

#[test]
fn prepare_validates_before_dispatch() {
    let c = client(HeaderPolicy::Lenient);
    assert!(matches!(c.prepare("GE T", "http://example.com", &no_options()), Err(Error::Validation(_))));
    assert!(matches!(c.prepare("", "http://example.com", &no_options()), Err(Error::Validation(_))));
    assert!(matches!(c.prepare("GET", "not a url", &no_options()), Err(Error::Validation(_))));
    let r = c.prepare("PATCH", "http://example.com", &no_options()).unwrap();
    assert_eq!(r.method, "PATCH");
    assert_eq!(r.url, "http://example.com/");
    assert_eq!(r.timeout_secs, None);
    assert!(r.headers.is_none());
}

#[test]
fn prepare_carries_the_call_options() {
    let c = client(HeaderPolicy::Lenient);
    let o = CallOptions { timeout_secs: Some(7), headers: Some(vec![raw("Accept", "*/*"), raw("bad name", "x")]) };
    let r = c.prepare("GET", "http://example.com/x", &o).unwrap();
    assert_eq!(r.timeout_secs, Some(7));
    assert_eq!(entries(r.headers.as_ref().unwrap()), vec![("accept".to_string(), "*/*".to_string())]);
    let strict = client(HeaderPolicy::Strict);
    assert!(matches!(strict.prepare("GET", "http://example.com/x", &o), Err(Error::Validation(_))));
}

#[test]
fn clones_do_not_share_call_state() {
    let a = client(HeaderPolicy::Lenient);
    let b = a.share();
    let o1 = CallOptions { timeout_secs: Some(1), headers: Some(vec![raw("x-who", "a")]) };
    let o2 = CallOptions { timeout_secs: Some(30), headers: Some(vec![raw("x-who", "b")]) };
    let r1 = a.prepare("GET", "http://example.com/1", &o1).unwrap();
    let r2 = b.prepare("GET", "http://example.com/2", &o2).unwrap();
    assert_eq!(r1.timeout_secs, Some(1));
    assert_eq!(r2.timeout_secs, Some(30));
    assert_eq!(entries(r1.headers.as_ref().unwrap()), vec![("x-who".to_string(), "a".to_string())]);
    assert_eq!(entries(r2.headers.as_ref().unwrap()), vec![("x-who".to_string(), "b".to_string())]);
}

#[test]
fn batch_preparation_refuses_any_bad_url() {
    let c = client(HeaderPolicy::Lenient);
    let urls = vec!["http://a.example/".to_string(), "::bad::".to_string()];
    assert!(matches!(c.prepare_batch("GET", &urls, &no_options()), Err(Error::Validation(_))));
    let good = vec!["http://a.example".to_string(), "https://b.example/p".to_string()];
    let rs = c.prepare_batch("HEAD", &good, &CallOptions { timeout_secs: Some(3), headers: None }).unwrap();
    assert_eq!(rs.len(), 2);
    assert_eq!(rs[0].url, "http://a.example/");
    assert_eq!(rs[1].url, "https://b.example/p");
    assert!(rs.iter().all(|r| r.method == "HEAD" && r.timeout_secs == Some(3)));
}

#[test]
fn download_batch_preparation_names_each_item() {
    let c = client(HeaderPolicy::Lenient);
    let items = vec![("http://example.com".to_string(), None), ("http://example.com/a.bin".to_string(), Some("mine".to_string()))];
    let ts = c.prepare_downloads(&items, &None).unwrap();
    assert_eq!(ts[0].name, "a9b9f04336ce0181a08e774e01113b31");
    assert_eq!(ts[1].name, "mine");
    let bad = vec![("nope".to_string(), None)];
    assert!(matches!(c.prepare_downloads(&bad, &None), Err(Error::Validation(_))));
}

#[test]
fn gate_first_event_decides() {
    let mut g = CancellationGate::new();
    assert_eq!(g.state(), GateState::Running);
    assert_eq!(g.settle(Race::Finished(Ok::<u32, Error>(5))), Ok(5));
    assert_eq!(g.state(), GateState::Completed);
    assert_eq!(g.settle(Race::Finished(Ok::<u32, Error>(6))), Err(Error::Cancelled));
    assert_eq!(g.state(), GateState::Completed);
    let mut h = CancellationGate::new();
    assert_eq!(h.settle(Race::<Result<u32, Error>>::Interrupted), Err(Error::Cancelled));
    assert_eq!(h.state(), GateState::Cancelled);
}

#[test]
fn batch_keeps_successes_in_order() {
    let rs: Vec<Result<u32, Error>> = vec![
        Ok(1),
        Err(Error::Transport("refused".to_string())),
        Ok(2),
        Err(Error::Transport("timeout".to_string())),
        Ok(3),
    ];
    assert_eq!(finish_batch(Race::Finished(rs)), Ok(vec![1, 2, 3]));
    assert_eq!(collect_successes::<u32>(vec![]), Vec::<u32>::new());
    assert_eq!(finish_batch(Race::<Vec<Result<u32, Error>>>::Interrupted), Err(Error::Cancelled));
}

#[test]
fn callback_failure_drops_only_its_item() {
    let outs: Vec<Result<String, String>> = vec![Ok("a".to_string()), Err("boom".to_string()), Ok("c".to_string())];
    let items: Vec<Result<String, Error>> = outs.into_iter().map(after_callback).collect();
    assert_eq!(items[1], Err(Error::Callback("boom".to_string())));
    assert_eq!(collect_successes(items), vec!["a".to_string(), "c".to_string()]);
}

#[test]
fn item_steps_follow_the_request() {
    assert!(matches!(after_request(Err(Error::Transport("x".to_string())), true), ItemStep::Drop(Error::Transport(_))));
    assert!(matches!(after_request(Ok(response("u", 200, b"")), true), ItemStep::Callback(_)));
    assert!(matches!(after_request(Ok(response("u", 200, b"")), false), ItemStep::Deliver(_)));
}

#[test]
fn download_batch_reports_success_despite_failures() {
    let rs = vec![Ok(()), Err(Error::Io("denied".to_string())), Err(Error::Transport("reset".to_string()))];
    assert_eq!(finish_download_batch(Race::Finished(rs)), Ok(()));
    assert_eq!(finish_download_batch(Race::Interrupted), Err(Error::Cancelled));
}

#[test]
fn download_session_streams_to_the_end() {
    let mut s = DownloadSession::new();
    assert_eq!(s.action(), DownloadAction::CreateFile);
    assert_eq!(s.step(DownloadEvent::FileCreated), DownloadAction::SendRequest);
    assert_eq!(s.step(DownloadEvent::Responded), DownloadAction::ReadChunk);
    assert_eq!(s.step(DownloadEvent::Chunk(10)), DownloadAction::WriteChunk);
    assert_eq!(s.step(DownloadEvent::Written), DownloadAction::ReadChunk);
    assert_eq!(s.step(DownloadEvent::Chunk(5)), DownloadAction::WriteChunk);
    assert_eq!(s.step(DownloadEvent::Written), DownloadAction::ReadChunk);
    assert_eq!(s.written(), 15);
    assert_eq!(s.step(DownloadEvent::EndOfBody), DownloadAction::Flush);
    assert_eq!(s.step(DownloadEvent::Flushed), DownloadAction::Stop);
    assert_eq!(s.phase(), DownloadPhase::Done);
    assert_eq!(s.outcome(), Some(Ok(())));
}

#[test]
fn interrupted_download_keeps_partial_file() {
    let mut s = DownloadSession::new();
    s.step(DownloadEvent::FileCreated);
    s.step(DownloadEvent::Responded);
    s.step(DownloadEvent::Chunk(4));
    s.step(DownloadEvent::Written);
    s.step(DownloadEvent::Chunk(4));
    assert_eq!(s.step(DownloadEvent::Interrupted), DownloadAction::Stop);
    assert_eq!(s.phase(), DownloadPhase::Cancelled);
    assert_eq!(s.written(), 4);
    assert_eq!(s.outcome(), Some(Err(Error::Cancelled)));
    assert_eq!(s.step(DownloadEvent::Written), DownloadAction::Stop);
    assert_eq!(s.written(), 4);
}

#[test]
fn download_failure_ends_the_session() {
    let mut s = DownloadSession::new();
    assert_eq!(s.step(DownloadEvent::Failed(Error::Io("denied".to_string()))), DownloadAction::Stop);
    assert_eq!(s.phase(), DownloadPhase::Failed);
    assert_eq!(s.outcome(), Some(Err(Error::Io("denied".to_string()))));
    let mut t = DownloadSession::new();
    assert_eq!(t.step(DownloadEvent::Chunk(3)), DownloadAction::CreateFile);
    assert_eq!(t.phase(), DownloadPhase::Creating);
}

#[test]
fn error_messages_reach_the_host() {
    assert_eq!(Error::Io("disk full".to_string()).message(), "disk full");
    assert_eq!(Error::Validation("bad url".to_string()).message(), "bad url");
    assert_eq!(Error::Cancelled.message(), "cancelled");
}

#[test]
fn boxed_bytes_from_an_array() {
    assert_eq!(BoxedBytes::from_array([7u8, 6, 5]).as_slice(), &[7, 6, 5]);
}

#[test]
fn methods_follow_the_transport_table() {
    let c = client(HeaderPolicy::Lenient);
    for m in ["A#B", "A$B", "A%B", "A&B", "A'B", "A B", "\u{e9}"] {
        assert!(matches!(c.prepare(m, "http://example.com", &no_options()), Err(Error::Validation(_))), "{}", m);
    }
    for m in ["GET", "M-SEARCH", "X.Y", "a!*+^_`|~9"] {
        assert!(c.prepare(m, "http://example.com", &no_options()).is_ok(), "{}", m);
    }
}

#[test]
fn header_names_take_the_transport_characters() {
    let input = vec![raw("X-Q\"#$%&'", "1"), raw("", "2"), raw("a:b", "3"), raw(&"a".repeat(70), "4")];
    let list = HeaderList::from_raw(&input, HeaderPolicy::Lenient).unwrap();
    assert_eq!(
        entries(&list),
        vec![("x-q\"#$%&'".to_string(), "1".to_string()), ("a".repeat(70), "4".to_string())]
    );
}

#[test]
fn proxy_of_the_wrong_kind_fails_at_construction() {
    let o = ClientOptions { proxy: ProxyOption::NotText, user_agent: None, verbose: None, header_policy: HeaderPolicy::Lenient };
    assert!(matches!(Client::new(o), Err(Error::Validation(_))));
}

#[test]
fn builder_plan_follows_the_configuration() {
    let up = TransportConfig::from_options(options(Some("http://proxy.local:3128"), Some("ua/1"), Some(true), HeaderPolicy::Lenient)).unwrap();
    let p = up.builder_plan();
    assert!(!p.no_proxy);
    assert_eq!(p.proxy, Some("http://proxy.local:3128".to_string()));
    assert_eq!(p.user_agent, "ua/1");
    assert!(p.verbose);
    let by = TransportConfig::from_options(options(Some("bypass"), None, None, HeaderPolicy::Lenient)).unwrap().builder_plan();
    assert!(by.no_proxy);
    assert_eq!(by.proxy, None);
    assert_eq!(by.user_agent, "pyr/0.1.0");
    let off = TransportConfig::from_options(options(Some("off"), None, None, HeaderPolicy::Lenient)).unwrap().builder_plan();
    assert!(!off.no_proxy && off.proxy.is_none());
}

#[test]
fn configuration_with_refused_upstream_fails_to_build() {
    let cfg = TransportConfig {
        proxy: ProxySetting::Upstream("ftp://proxy.local".to_string()),
        user_agent: "ua".to_string(),
        verbose: false,
        header_policy: HeaderPolicy::Lenient,
    };
    assert!(matches!(Client::with_config(cfg), Err(Error::Validation(_))));
}

#[test]
fn default_names_have_thirty_two_digits() {
    let n = download_name("http://example.com/x?y=1", None);
    assert_eq!(n.len(), 32);
    assert!(n.chars().all(|c| c.is_ascii_hexdigit() && !c.is_ascii_uppercase()));
}
