use wire_trace::http1::{Action, Http1Runner, ReadOutcome, StartFailure, State};
use wire_trace::output::{
    AddContentLength, Http1PausePlan, Http1PlanOutput, PausePoints, TcpPlanOutput, TlsPlanOutput,
    Url,
};
use wire_trace::tcp::{TcpFailure, TcpRunner, TcpState};
use wire_trace::output::TlsPause;
use wire_trace::tls::{TlsRunner, TlsState, TlsVersion};

fn none() -> PausePoints {
    PausePoints { start: vec![], end: vec![] }
}

fn exchange(body: &[u8]) -> Http1Runner {
    Http1Runner::new(Http1PlanOutput {
        url: Url {
            scheme: b"http".to_vec(),
            host: Some(b"h".to_vec()),
            port: Some(80),
            path: b"/".to_vec(),
            query: None,
        },
        method: Some(b"POST".to_vec()),
        version_string: None,
        add_content_length: AddContentLength::Never,
        headers: vec![],
        body: body.to_vec(),
        pause: Http1PausePlan {
            request_headers: none(),
            request_body: none(),
            response_headers: none(),
            response_body: none(),
        },
    })
}

fn tcp_plan() -> TcpPlanOutput {
    TcpPlanOutput { host: b"h".to_vec(), port: 80, body: vec![] }
}

fn tls_plan(pause: Vec<TlsPause>) -> TlsPlanOutput {
    TlsPlanOutput {
        host: b"h".to_vec(),
        port: 443,
        alpn: vec![b"http/1.1".to_vec()],
        body: vec![],
        pause,
    }
}

#[test]
fn the_driver_is_led_through_the_exchange() {
    let mut r = exchange(b"abcd");
    assert_eq!(r.execute(), Action::Start);
    r.start(0).unwrap();
    assert_eq!(r.execute(), Action::SendHeader);
    r.header_flushed(Some(4)).unwrap();
    assert_eq!(r.execute(), Action::WriteBody(0));
    r.wrote(b"ab", 1);
    assert_eq!(r.execute(), Action::WriteBody(2));
    r.wrote(b"cd", 2);
    assert_eq!(r.execute(), Action::Flush);
    r.flushed(3);
    assert_eq!(r.execute(), Action::Read);
    assert!(matches!(r.received(b"HTTP/1.1 200 OK\r\n", 4), ReadOutcome::NeedMore));
    assert_eq!(r.execute(), Action::Read);
    r.received(b"\r\n", 5);
    assert_eq!(r.state, State::ReceivingBody);
    assert_eq!(r.execute(), Action::Read);
    r.received(b"x", 6);
    assert_eq!(r.execute(), Action::Read);
    r.received(b"", 7);
    assert!(r.ended);
    assert_eq!(r.execute(), Action::Finish);
    assert_eq!(r.finish(8).response.unwrap().body, Some(b"x".to_vec()));
}

#[test]
fn an_error_ends_the_exchange() {
    let mut r = exchange(b"abcd");
    r.start(0).unwrap();
    r.header_flushed(Some(4)).unwrap();
    r.wrote(b"ab", 1);
    r.io_failed("broken pipe".to_string(), 2);
    assert_eq!(r.execute(), Action::Finish);
    let out = r.finish(3);
    let e = out.error.unwrap();
    assert_eq!(e.kind, "io");
    assert_eq!(e.message, "broken pipe");
    assert_eq!(out.request.unwrap().body, b"ab".to_vec());
    assert!(out.response.is_none());
    let mut failed = exchange(b"");
    failed.transport_failed(StartFailure::Resolve, "no route".to_string());
    assert_eq!(failed.out.error.as_ref().unwrap().kind, "resolve");
    assert_eq!(failed.execute(), Action::Finish);
}

#[test]
fn tcp_records_what_moved_after_start() {
    let mut t = TcpRunner::new(tcp_plan());
    assert_eq!(t.state, TcpState::Pending);
    t.started(100);
    t.wrote(b"hello", 3);
    t.wrote(b"lo", 2);
    t.read(b"wor");
    t.read(b"ld");
    let out = t.finish(250);
    assert_eq!(out.sent, Some(b"hello".to_vec()));
    assert_eq!(out.received, Some(b"world".to_vec()));
    assert_eq!(out.duration, 150);
    assert!(out.errors.is_empty());
}

#[test]
fn tcp_start_failures_carry_their_kind() {
    let mut t = TcpRunner::new(tcp_plan());
    t.start_failed(TcpFailure::Resolve, "no such host".to_string());
    assert_eq!(t.state, TcpState::StartFailed);
    let out = t.finish(9);
    assert!(out.sent.is_none());
    assert!(out.received.is_none());
    assert_eq!(out.duration, 0);
    assert_eq!(out.errors.len(), 1);
    assert_eq!(out.errors[0].kind, "resolve");
    assert_eq!(out.errors[0].message, "no such host");
    let mut t = TcpRunner::new(tcp_plan());
    t.start_failed(TcpFailure::Connect, "refused".to_string());
    assert_eq!(t.finish(0).errors[0].kind, "connect");
}

#[test]
fn tcp_io_failure_keeps_the_partial_record() {
    let mut t = TcpRunner::new(tcp_plan());
    t.started(0);
    t.wrote(b"abc", 3);
    t.io_failed("reset by peer".to_string());
    let out = t.finish(5);
    assert_eq!(out.sent, Some(b"abc".to_vec()));
    assert_eq!(out.received, Some(vec![]));
    assert_eq!(out.errors[0].kind, "io");
    assert_eq!(out.errors[0].message, "reset by peer");
    assert_eq!(out.duration, 5);
}

#[test]
fn tls_session_reports_what_was_negotiated() {
    let pauses = vec![
        TlsPause { after: b"bogus".to_vec(), duration: 1 },
        TlsPause { after: b"open".to_vec(), duration: 20 },
        TlsPause { after: b"request_body".to_vec(), duration: 30 },
    ];
    let mut t = TlsRunner::new(tls_plan(pauses));
    assert_eq!(t.state, TlsState::Pending);
    t.handshake_started(10);
    assert_eq!(t.state, TlsState::Handshaking);
    let pause = t.established(Some(0x0304), Some(b"http/1.1".to_vec()), vec![vec![0x30, 0x82]]);
    assert_eq!(pause, Some(20));
    assert_eq!(t.state, TlsState::Established);
    t.wrote(b"GET /", 5);
    t.read(b"HTTP");
    assert_eq!(t.body_flushed(), Some(30));
    t.closed();
    assert_eq!(t.state, TlsState::Closed);
    let out = t.finish(110);
    assert!(out.errors.is_empty());
    assert_eq!(out.version, Some(TlsVersion::TLS1_3));
    assert_eq!(out.alpn, Some(b"http/1.1".to_vec()));
    assert_eq!(out.peer_certificates, vec![vec![0x30, 0x82]]);
    assert_eq!(out.sent, b"GET /".to_vec());
    assert_eq!(out.received, b"HTTP".to_vec());
    assert_eq!(out.duration, 100);
    assert_eq!(out.plan.alpn, vec![b"http/1.1".to_vec()]);
}

#[test]
fn tls_without_a_version_has_no_trace() {
    let mut t = TlsRunner::new(tls_plan(vec![]));
    t.handshake_started(0);
    assert_eq!(t.established(None, None, vec![]), None);
    assert_eq!(t.body_flushed(), None);
    let out = t.finish(1);
    assert!(out.version.is_none());
    assert_eq!(out.errors.len(), 1);
    assert_eq!(out.errors[0].kind, "tls");
    assert_eq!(out.errors[0].message, "finished before version established");
}

#[test]
fn tls_handshake_failure_is_a_tls_error() {
    let mut t = TlsRunner::new(tls_plan(vec![]));
    t.handshake_started(0);
    t.handshake_failed("invalid peer certificate".to_string());
    assert_eq!(t.state, TlsState::Failed);
    let out = t.finish(1);
    assert_eq!(out.errors.len(), 1);
    assert_eq!(out.errors[0].kind, "tls");
    assert_eq!(out.errors[0].message, "invalid peer certificate");
    assert!(out.sent.is_empty() && out.received.is_empty());
}
