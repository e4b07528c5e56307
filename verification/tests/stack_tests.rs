use wire_trace::exec::{Error, Executor, Plan, Step, StepBody, StepOutput};
use wire_trace::http::{from_http1, refused, HttpRunner, HttpState, Transport};
use wire_trace::http1::Http1Runner;
use wire_trace::output::{
    copy_bytes, copy_opt, copy_pairs, AddContentLength, Http1PausePlan, HttpOutput,
    HttpPlanOutput, PausePoints, TcpOutput, TcpPlanOutput, Url,
};
use wire_trace::tee::Tee;
use wire_trace::output::TlsPause;
use wire_trace::tls::{pause_at, TlsPausePoint, TlsVersion};

fn silent() -> PausePoints {
    PausePoints { start: vec![], end: vec![] }
}

fn http_plan(scheme: &str, host: Option<&str>, port: Option<u16>) -> HttpPlanOutput {
    HttpPlanOutput {
        url: Url {
            scheme: scheme.as_bytes().to_vec(),
            host: host.map(|h| h.as_bytes().to_vec()),
            port,
            path: b"/hello".to_vec(),
            query: None,
        },
        method: Some(b"GET".to_vec()),
        add_content_length: AddContentLength::Auto,
        headers: vec![],
        body: vec![],
        pause: Http1PausePlan {
            request_headers: silent(),
            request_body: silent(),
            response_headers: silent(),
            response_body: silent(),
        },
    }
}

fn run_http(plan: HttpPlanOutput, reply: &[u8]) -> HttpOutput {
    let mut r = HttpRunner::new(plan).unwrap();
    r.start().unwrap();
    r.inner.start(1).unwrap();
    r.inner.header_flushed(Some(0)).unwrap();
    r.inner.flushed(2);
    r.inner.received(reply, 3);
    r.finish(4)
}

#[test]
fn http_runs_over_tcp_alone() {
    let mut r = HttpRunner::new(http_plan("http", Some("127.0.0.1"), Some(8080))).unwrap();
    assert_eq!(r.state, HttpState::Pending);
    assert_eq!(r.transports, vec![Transport::RawTcp, Transport::Tcp]);
    assert_eq!(r.size_hint(Some(7)), Some(30));
    assert_eq!(r.size_hint(None), Some(23));
    assert_eq!(r.executor_size_hint(), Some(0));
    let raw = r.raw_tcp_plan();
    assert_eq!(raw.dest_host, b"127.0.0.1".to_vec());
    assert_eq!(raw.dest_port, 8080);
    assert_eq!(raw.window, 1000);
    assert_eq!(raw.isn, 0);
    assert!(raw.src_host.is_none() && raw.src_port.is_none() && raw.segments.is_empty());
    let tcp = r.tcp_plan();
    assert_eq!(tcp.host, b"127.0.0.1".to_vec());
    assert_eq!(tcp.port, 8080);
    assert!(tcp.body.is_empty());
    assert_eq!(r.start().unwrap(), vec![Transport::RawTcp, Transport::Tcp]);
    assert_eq!(r.state, HttpState::Running);
    let e = r.start().unwrap_err();
    assert_eq!(e.message, "invalid state to call start");
}

#[test]
fn https_get_with_alpn_http11() {
    let r = HttpRunner::new(http_plan("https", Some("example.com"), Some(443))).unwrap();
    assert_eq!(r.transports, vec![Transport::RawTcp, Transport::Tcp, Transport::Tls]);
    let tls = r.tls_plan();
    assert_eq!(tls.host, b"example.com".to_vec());
    assert_eq!(tls.port, 443);
    assert_eq!(tls.alpn, vec![b"http/1.1".to_vec()]);
    let out = run_http(
        http_plan("https", Some("example.com"), Some(443)),
        b"HTTP/1.1 200 OK\r\nContent-Length: 5\r\n\r\nhello",
    );
    assert_eq!(out.protocol, Some("HTTP/1.1".to_string()));
    assert_eq!(out.request.as_ref().unwrap().protocol, b"HTTP/1.1".to_vec());
    assert_eq!(out.response.as_ref().unwrap().status_code, Some(200));
    assert_eq!(out.response.as_ref().unwrap().body, Some(b"hello".to_vec()));
    assert!(out.errors.is_empty());
}

#[test]
fn url_without_host_or_port_is_refused() {
    let e = HttpRunner::new(http_plan("http", None, None)).unwrap_err();
    assert_eq!(e.kind, "configuration");
    assert_eq!(e.message, "url is missing host");
    let e = HttpRunner::new(http_plan("http", Some("h"), None)).unwrap_err();
    assert_eq!(e.message, "url is missing port");
}

#[test]
fn the_error_of_the_exchange_becomes_the_error_list() {
    let out = run_http(http_plan("http", Some("h"), Some(80)), b"HELLO\r\n\r\n");
    assert_eq!(out.errors.len(), 1);
    assert_eq!(out.errors[0].kind, "io");
    assert_eq!(out.errors[0].message, "invalid HTTP version");
    assert!(out.response.unwrap().headers.is_none());
    assert!(out.request.is_some());
    assert_eq!(out.duration, 3);
    let plain = from_http1(Http1Runner::new(wire_trace::output::Http1PlanOutput {
        url: http_plan("http", Some("h"), Some(80)).url,
        method: None,
        version_string: None,
        add_content_length: AddContentLength::Never,
        headers: vec![],
        body: b"b".to_vec(),
        pause: http_plan("http", Some("h"), Some(80)).pause,
    }).finish(0));
    assert!(plain.errors.is_empty());
    assert!(plain.request.is_none() && plain.response.is_none());
    assert_eq!(plain.plan.body, b"b".to_vec());
    assert_eq!(plain.protocol, Some("HTTP/1.1".to_string()));
}

fn step(name: Option<&str>) -> Step {
    Step {
        name: name.map(|n| n.to_string()),
        body: StepBody::HTTP(http_plan("http", Some("h"), Some(80))),
    }
}

fn tcp_output(sent: &[u8]) -> StepOutput {
    StepOutput::TCP(TcpOutput {
        plan: TcpPlanOutput { host: b"h".to_vec(), port: 1, body: sent.to_vec() },
        sent: Some(sent.to_vec()),
        received: None,
        errors: vec![],
        duration: 0,
    })
}

fn sent_of(o: Option<&StepOutput>) -> Option<Vec<u8>> {
    match o {
        Some(StepOutput::TCP(t)) => t.sent.clone(),
        _ => None,
    }
}

#[test]
fn named_step_reference() {
    let plan = Plan { steps: vec![step(Some("a")), step(Some("b"))] };
    let mut e = Executor::new(&plan);
    assert_eq!(e.next(), Ok(0));
    assert!(e.get(&"a".to_string()).is_none());
    e.record(StepOutput::HTTP(run_http(
        http_plan("http", Some("h"), Some(80)),
        b"HTTP/1.1 200 OK\r\n\r\n",
    )));
    assert_eq!(e.next(), Ok(1));
    let seen = match e.get(&"a".to_string()) {
        Some(StepOutput::HTTP(h)) => h.response.as_ref().unwrap().status_code,
        _ => None,
    };
    assert_eq!(seen, Some(200));
    e.record(tcp_output(b"second"));
    assert_eq!(e.next(), Err(Error::Done));
    assert_eq!(e.names(), vec![&"a".to_string(), &"b".to_string()]);
    assert_eq!(sent_of(e.get(&"b".to_string())), Some(b"second".to_vec()));
}

#[test]
fn anonymous_steps_run_but_are_not_stored() {
    let plan = Plan { steps: vec![step(None), step(Some("x")), step(None)] };
    let mut e = Executor::new(&plan);
    assert_eq!(e.current, Some(0));
    e.record(tcp_output(b"0"));
    assert_eq!(e.next(), Ok(1));
    assert!(e.outputs.is_empty());
    e.record(tcp_output(b"1"));
    assert_eq!(e.next(), Ok(2));
    e.record(tcp_output(b"2"));
    assert_eq!(e.next(), Err(Error::Done));
    assert_eq!(e.outputs.len(), 1);
    assert_eq!(e.outputs[0].0, 1);
    assert_eq!(sent_of(e.get(&"x".to_string())), Some(b"1".to_vec()));
    assert!(e.get(&"y".to_string()).is_none());
}

#[test]
fn an_empty_plan_is_done_at_once() {
    let plan = Plan { steps: vec![] };
    let e = Executor::new(&plan);
    assert_eq!(e.next(), Err(Error::Done));
    assert_eq!(Error::Done.message(), "execution done");
}

#[test]
fn tee_records_what_passed() {
    let mut t = Tee::new();
    t.wrote(b"hello", 5);
    t.wrote(b"world", 2);
    t.wrote(b"xy", 9);
    t.read(b"abc");
    t.read(b"");
    t.read(b"d");
    let (writes, reads) = t.into_parts();
    assert_eq!(writes, b"hellowoxy".to_vec());
    assert_eq!(reads, b"abcd".to_vec());
}

#[test]
fn tls_versions_by_code_point() {
    assert_eq!(TlsVersion::from_code(0x0200), TlsVersion::SSL2);
    assert_eq!(TlsVersion::from_code(0x0300), TlsVersion::SSL3);
    assert_eq!(TlsVersion::from_code(0x0301), TlsVersion::TLS1_0);
    assert_eq!(TlsVersion::from_code(0x0302), TlsVersion::TLS1_1);
    assert_eq!(TlsVersion::from_code(0x0303), TlsVersion::TLS1_2);
    assert_eq!(TlsVersion::from_code(0x0304), TlsVersion::TLS1_3);
    assert_eq!(TlsVersion::from_code(0xFEFF), TlsVersion::DTLS1_0);
    assert_eq!(TlsVersion::from_code(0xFEFD), TlsVersion::DTLS1_2);
    assert_eq!(TlsVersion::from_code(0xFEFC), TlsVersion::DTLS1_3);
    assert_eq!(TlsVersion::from_code(0x0305), TlsVersion::Other(0x0305));
    assert_eq!(TlsVersion::from_code(0), TlsVersion::Other(0));
}

#[test]
fn tls_pauses_go_by_name() {
    let pauses = vec![
        TlsPause { after: b"close".to_vec(), duration: 1 },
        TlsPause { after: b"request_body".to_vec(), duration: 2 },
        TlsPause { after: b"open".to_vec(), duration: 3 },
        TlsPause { after: b"open".to_vec(), duration: 4 },
    ];
    assert_eq!(pause_at(&pauses, TlsPausePoint::Open), Some(3));
    assert_eq!(pause_at(&pauses, TlsPausePoint::RequestBody), Some(2));
    assert_eq!(pause_at(&vec![], TlsPausePoint::Open), None);
    assert_eq!(pause_at(&pauses[..1].to_vec(), TlsPausePoint::Open), None);
}

#[test]
fn copies_are_equal_to_their_source() {
    assert_eq!(copy_bytes(b"abc"), b"abc".to_vec());
    assert_eq!(copy_opt(&None), None);
    assert_eq!(copy_opt(&Some(b"q".to_vec())), Some(b"q".to_vec()));
    let pairs = vec![(b"a".to_vec(), b"1".to_vec()), (b"".to_vec(), b"".to_vec())];
    assert_eq!(copy_pairs(&pairs), pairs);
    let u = http_plan("https", Some("h"), Some(1)).url;
    let c = u.copy();
    assert_eq!(c.scheme, u.scheme);
    assert_eq!(c.host, u.host);
    assert_eq!(c.port, u.port);
    assert_eq!(c.path, u.path);
    assert_eq!(c.query, u.query);
}

#[test]
fn a_plan_with_a_name_given_twice_is_not_valid() {
    assert!(Plan { steps: vec![] }.validate());
    assert!(Plan { steps: vec![step(None), step(None)] }.validate());
    assert!(Plan { steps: vec![step(Some("a")), step(None), step(Some("b"))] }.validate());
    assert!(!Plan { steps: vec![step(Some("a")), step(Some("b")), step(Some("a"))] }.validate());
}

#[test]
fn the_inner_exchange_names_http11() {
    let r = HttpRunner::new(http_plan("http", Some("127.0.0.1"), Some(8080))).unwrap();
    assert_eq!(r.inner.out.plan.version_string, Some(b"HTTP/1.1".to_vec()));
    assert_eq!(r.inner.out.plan.method, Some(b"GET".to_vec()));
    assert_eq!(r.inner.out.plan.url.path, b"/hello".to_vec());
    assert_eq!(r.inner.header.to_vec(), b"GET /hello HTTP/1.1\r\n\r\n".to_vec());
    let mut r = r;
    r.set_name("first".to_string());
    r.start().unwrap();
    r.inner.start(0).unwrap();
    r.inner.header_flushed(Some(0)).unwrap();
    assert_eq!(
        r.inner.out.request.as_ref().unwrap().version_string,
        Some(b"HTTP/1.1".to_vec())
    );
    let out = r.finish(1);
    assert_eq!(out.name, "first");
    assert_eq!(out.request.unwrap().name, "first");
}

#[test]
fn a_step_that_cannot_be_set_up_still_has_a_trace() {
    let plan = http_plan("http", None, Some(80));
    let e = HttpRunner::new(http_plan("http", None, Some(80))).unwrap_err();
    let out = refused(plan, e);
    assert!(out.request.is_none() && out.response.is_none());
    assert_eq!(out.errors.len(), 1);
    assert_eq!(out.errors[0].kind, "configuration");
    assert_eq!(out.errors[0].message, "url is missing host");
    assert_eq!(out.protocol, None);
    assert_eq!(out.duration, 0);
    assert_eq!(out.plan.url.path, b"/hello".to_vec());
}
