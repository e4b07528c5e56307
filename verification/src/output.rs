//! The records that a step echoes and produces.
//!
//! Byte strings are `Vec<u8>`; durations are whole nanoseconds of a
//! monotonic clock.

use vstd::prelude::*;

verus! {

/// When a `Content-Length` header is added to the request.
#[derive(Clone, Copy, Debug, PartialEq, Eq, Structural)]
pub enum AddContentLength {
    Never,
    Auto,
    Always,
}

/// The parts of a resolved URL that the runners read.
#[derive(Clone, Debug)]
pub struct Url {
    pub scheme: Vec<u8>,
    pub host: Option<Vec<u8>>,
    /// The explicit port, or else the scheme's well-known one.
    pub port: Option<u16>,
    pub path: Vec<u8>,
    pub query: Option<Vec<u8>>,
}

/// A failure recorded on a step's output.
#[derive(Clone, Debug)]
pub struct HttpError {
    pub kind: String,
    pub message: String,
}

/// The resolved parameters of an HTTP step, echoed in its output.
#[derive(Clone, Debug)]
pub struct HttpPlanOutput {
    pub url: Url,
    pub method: Option<Vec<u8>>,
    pub add_content_length: AddContentLength,
    pub headers: Vec<(Vec<u8>, Vec<u8>)>,
    pub body: Vec<u8>,
    pub pause: Http1PausePlan,
}

/// What was sent.
#[derive(Clone, Debug)]
pub struct HttpRequestOutput {
    /// The name the record goes by.
    pub name: String,
    pub url: Url,
    pub protocol: Vec<u8>,
    pub method: Option<Vec<u8>>,
    pub headers: Vec<(Vec<u8>, Vec<u8>)>,
    pub body: Vec<u8>,
    pub duration: u64,
    pub body_duration: Option<u64>,
    pub time_to_first_byte: Option<u64>,
}

/// What was received.
#[derive(Clone, Debug)]
pub struct HttpResponse {
    /// The name the record goes by.
    pub name: String,
    pub protocol: Option<Vec<u8>>,
    pub status_code: Option<u16>,
    pub headers: Option<Vec<(Vec<u8>, Vec<u8>)>>,
    pub body: Option<Vec<u8>>,
    pub duration: u64,
    pub header_duration: Option<u64>,
    pub time_to_first_byte: Option<u64>,
}

/// The trace of one HTTP step.
#[derive(Clone, Debug)]
pub struct HttpOutput {
    /// The name the record goes by.
    pub name: String,
    pub plan: HttpPlanOutput,
    pub request: Option<HttpRequestOutput>,
    pub response: Option<HttpResponse>,
    pub errors: Vec<HttpError>,
    pub protocol: Option<String>,
    pub duration: u64,
}

/// One planned pause: how long, and at which byte of its phase.
#[derive(Clone, Copy, Debug, PartialEq, Eq, Structural)]
pub struct PauseValue {
    pub duration: u64,
    pub offset_bytes: u64,
}

/// The pauses planned at the two ends of one phase.
#[derive(Clone, Debug)]
pub struct PausePoints {
    pub start: Vec<PauseValue>,
    pub end: Vec<PauseValue>,
}

/// The pauses planned for the four phases of an HTTP/1 exchange.
#[derive(Clone, Debug)]
pub struct Http1PausePlan {
    pub request_headers: PausePoints,
    pub request_body: PausePoints,
    pub response_headers: PausePoints,
    pub response_body: PausePoints,
}

/// One pause as it happened: the measured time and the byte it fired at.
#[derive(Clone, Copy, Debug, PartialEq, Eq, Structural)]
pub struct PauseObserved {
    pub duration: u64,
    pub offset: u64,
}

/// The pauses observed at the two ends of one phase.
#[derive(Clone, Debug)]
pub struct PauseRecords {
    pub start: Vec<PauseObserved>,
    pub end: Vec<PauseObserved>,
}

/// The pauses observed over an HTTP/1 exchange.
#[derive(Clone, Debug)]
pub struct Http1PauseOutput {
    pub request_headers: PauseRecords,
    pub request_body: PauseRecords,
    pub response_headers: PauseRecords,
    pub response_body: PauseRecords,
}

/// The resolved parameters of an HTTP/1 exchange.
#[derive(Clone, Debug)]
pub struct Http1PlanOutput {
    pub url: Url,
    pub method: Option<Vec<u8>>,
    pub version_string: Option<Vec<u8>>,
    pub add_content_length: AddContentLength,
    pub headers: Vec<(Vec<u8>, Vec<u8>)>,
    pub body: Vec<u8>,
    pub pause: Http1PausePlan,
}

/// The request of an HTTP/1 exchange, as sent.
#[derive(Clone, Debug)]
pub struct Http1RequestOutput {
    /// The name the record goes by.
    pub name: String,
    pub url: Url,
    pub method: Option<Vec<u8>>,
    pub version_string: Option<Vec<u8>>,
    pub headers: Vec<(Vec<u8>, Vec<u8>)>,
    pub body: Vec<u8>,
    pub duration: u64,
    pub body_duration: Option<u64>,
    pub time_to_first_byte: Option<u64>,
}

/// The response of an HTTP/1 exchange, as far as it was received.
#[derive(Clone, Debug)]
pub struct Http1Response {
    /// The name the record goes by.
    pub name: String,
    pub protocol: Option<Vec<u8>>,
    pub status_code: Option<u16>,
    pub status_reason: Option<Vec<u8>>,
    pub headers: Option<Vec<(Vec<u8>, Vec<u8>)>>,
    pub body: Option<Vec<u8>>,
    pub duration: u64,
    pub header_duration: Option<u64>,
    pub time_to_first_byte: Option<u64>,
}

/// A failure of an HTTP/1 exchange.
#[derive(Clone, Debug)]
pub struct Http1Error {
    pub kind: String,
    pub message: String,
}

/// The trace of one HTTP/1 exchange.
#[derive(Clone, Debug)]
pub struct Http1Output {
    /// The name the record goes by.
    pub name: String,
    pub plan: Http1PlanOutput,
    pub request: Option<Http1RequestOutput>,
    pub response: Option<Http1Response>,
    pub error: Option<Http1Error>,
    pub duration: u64,
    pub pause: Http1PauseOutput,
}

/// A URL as a value: each part by its bytes.
pub struct UrlView {
    pub scheme: Seq<u8>,
    pub host: Option<Seq<u8>>,
    pub port: Option<u16>,
    pub path: Seq<u8>,
    pub query: Option<Seq<u8>>,
}

impl View for Url {
    type V = UrlView;

    open spec fn view(&self) -> UrlView {
        UrlView {
            scheme: self.scheme@,
            host: opt_bytes(self.host),
            port: self.port,
            path: self.path@,
            query: opt_bytes(self.query),
        }
    }
}

/// An optional byte string as a value.
pub open spec fn opt_bytes(o: Option<Vec<u8>>) -> Option<Seq<u8>> {
    match o {
        Some(v) => Some(v@),
        None => None,
    }
}

/// A list of name and value pairs as a value: the bytes of each, in order.
pub open spec fn pairs_view(h: Seq<(Vec<u8>, Vec<u8>)>) -> Seq<(Seq<u8>, Seq<u8>)> {
    Seq::new(h.len(), |i: int| (h[i].0@, h[i].1@))
}

/// An optional list of pairs as a value.
pub open spec fn opt_pairs(o: Option<Vec<(Vec<u8>, Vec<u8>)>>) -> Option<Seq<(Seq<u8>, Seq<u8>)>> {
    match o {
        Some(h) => Some(pairs_view(h@)),
        None => None,
    }
}

/// A copy of `src`, byte for byte.
pub fn copy_bytes(src: &[u8]) -> (r: Vec<u8>)
    ensures
        r@ == src@,
{
    let mut r: Vec<u8> = Vec::new();
    let mut i: usize = 0;
    while i < src.len()
        invariant
            i <= src@.len(),
            r@ == src@.subrange(0, i as int),
        decreases src@.len() - i,
    {
        r.push(src[i]);
        assert(r@ =~= src@.subrange(0, i as int + 1));
        i += 1;
    }
    assert(r@ =~= src@);
    r
}

/// A copy of an optional byte string.
pub fn copy_opt(src: &Option<Vec<u8>>) -> (r: Option<Vec<u8>>)
    ensures
        opt_bytes(r) == opt_bytes(*src),
{
    match src {
        Some(v) => Some(copy_bytes(v.as_slice())),
        None => None,
    }
}

/// A copy of a list of pairs: the same bytes in the same order.
pub fn copy_pairs(src: &Vec<(Vec<u8>, Vec<u8>)>) -> (r: Vec<(Vec<u8>, Vec<u8>)>)
    ensures
        pairs_view(r@) == pairs_view(src@),
{
    let mut r: Vec<(Vec<u8>, Vec<u8>)> = Vec::new();
    let mut i: usize = 0;
    while i < src.len()
        invariant
            i <= src@.len(),
            r@.len() == i,
            forall|k: int| 0 <= k < i ==> (#[trigger] r@[k]).0@ == src@[k].0@ && r@[k].1@ == src@[k].1@,
        decreases src@.len() - i,
    {
        let name: Vec<u8> = copy_bytes(src[i].0.as_slice());
        let value: Vec<u8> = copy_bytes(src[i].1.as_slice());
        r.push((name, value));
        i += 1;
    }
    assert(pairs_view(r@) =~= pairs_view(src@));
    r
}

impl Url {
    /// A copy with the same parts.
    pub fn copy(&self) -> (r: Url)
        ensures
            r@ == self@,
    {
        Url {
            scheme: copy_bytes(self.scheme.as_slice()),
            host: copy_opt(&self.host),
            port: self.port,
            path: copy_bytes(self.path.as_slice()),
            query: copy_opt(&self.query),
        }
    }
}

/// The parameters of the lowest transport: a TCP connection by packets.
#[derive(Clone, Debug)]
pub struct RawTcpPlanOutput {
    pub dest_host: Vec<u8>,
    pub dest_port: u16,
    pub src_host: Option<Vec<u8>>,
    pub src_port: Option<u16>,
    pub isn: u32,
    pub window: u16,
    pub segments: Vec<Vec<u8>>,
}

/// The parameters of a TCP byte stream.
#[derive(Clone, Debug)]
pub struct TcpPlanOutput {
    pub host: Vec<u8>,
    pub port: u16,
    pub body: Vec<u8>,
}

/// A pause of the TLS layer, by the name of the point it follows.
#[derive(Clone, Debug)]
pub struct TlsPause {
    pub after: Vec<u8>,
    pub duration: u64,
}

/// The parameters of a TLS session.
#[derive(Clone, Debug)]
pub struct TlsPlanOutput {
    pub host: Vec<u8>,
    pub port: u16,
    pub alpn: Vec<Vec<u8>>,
    pub body: Vec<u8>,
    pub pause: Vec<TlsPause>,
}

/// A failure of a TCP transport: `resolve`, `connect` or `io`, with the
/// system's words.
#[derive(Clone, Debug)]
pub struct TcpError {
    pub kind: String,
    pub message: String,
}

/// The trace of a raw TCP step.
#[derive(Clone, Debug)]
pub struct RawTcpOutput {
    pub plan: RawTcpPlanOutput,
    pub errors: Vec<TcpError>,
    pub duration: u64,
}

/// The trace of a TCP step: the bytes moved each way.
#[derive(Clone, Debug)]
pub struct TcpOutput {
    pub plan: TcpPlanOutput,
    pub sent: Option<Vec<u8>>,
    pub received: Option<Vec<u8>>,
    pub errors: Vec<TcpError>,
    pub duration: u64,
}

} // verus!
