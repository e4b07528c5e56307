//! The HTTP/1 runner: a state machine over the events of one exchange.
//!
//! The runner does no I/O. Its driver owns the transport, performs each
//! write, read and sleep, and reports what happened together with the time
//! on a monotonic clock, in nanoseconds. The runner decides what is sent,
//! where pauses fall, how the response head is split from the body, and what
//! the trace says in the end.

use crate::buffer::{buf_advance, buf_bytes, buf_len, buf_limit, buf_put_slice, buf_to_vec, buf_with_capacity};
use crate::header::{compute_header, decimal, header_bytes, header_len, push_decimal};
use crate::output::{
    copy_bytes, copy_opt, copy_pairs, opt_bytes, pairs_view, Http1Error, Http1Output,
    Http1PauseOutput, Http1PlanOutput, Http1RequestOutput, Http1Response, PausePoints,
    PauseRecords, PauseValue,
};
use crate::parse::{parse_head, parsed_head, HeadStatus, HeadStatusView, ParsedHead, ParsedHeadView};
use crate::pause::{group_items, observed_in, observed_of, Fired, PauseSpec, PauseStream, Scheduled};
use bytes::BytesMut;
use vstd::prelude::*;

verus! {

/// The number of response headers that the parser has room for.
pub const HEADER_SLOTS: usize = 16;

/// Where an exchange stands.
#[derive(Clone, Copy, Debug, PartialEq, Eq, Structural)]
pub enum State {
    Pending,
    StartFailed,
    SendingHeader,
    SendingBody,
    ReceivingHeader,
    ReceivingBody,
    Complete,
}

/// What the driver of an exchange does next.
#[derive(Clone, Copy, Debug, PartialEq, Eq, Structural)]
pub enum Action {
    /// Start the transport below, then `start` the runner.
    Start,
    /// Write the header that `start` gave, then report `header_flushed`.
    SendHeader,
    /// Write the planned body from this index on, reporting each write.
    WriteBody(usize),
    /// Flush the transport, then report `flushed`.
    Flush,
    /// Read from the transport and report what was `received`.
    Read,
    /// Nothing is left to do but `finish`.
    Finish,
}

/// Why the transport below could not be started.
#[derive(Clone, Copy, Debug, PartialEq, Eq, Structural)]
pub enum StartFailure {
    /// The host's name could not be resolved.
    Resolve,
    /// No connection could be made.
    Connect,
    /// The TLS handshake failed.
    Tls,
}

/// The kind under which a failed start is reported.
pub open spec fn start_kind(failure: StartFailure) -> Seq<char> {
    match failure {
        StartFailure::Resolve => "resolve"@,
        StartFailure::Connect => "connect"@,
        StartFailure::Tls => "tls"@,
    }
}

/// What a read gave the layer above.
#[derive(Debug)]
pub enum ReadOutcome {
    /// The head is not whole yet: read more.
    NeedMore,
    /// Body bytes for the caller of this read.
    Body(Vec<u8>),
    /// The exchange failed; the same error is on the output.
    Failed(Http1Error),
}

/// The state of one HTTP/1 exchange.
#[derive(Debug)]
pub struct Http1Runner {
    pub out: Http1Output,
    pub state: State,
    /// The request header, built when the runner was made.
    pub header: BytesMut,
    pub pauses: PauseStream,
    /// The latest time seen; no event is stamped earlier than this.
    pub clock: u64,
    pub start_time: Option<u64>,
    pub req_header_start_time: Option<u64>,
    pub req_body_start_time: Option<u64>,
    pub req_end_time: Option<u64>,
    pub resp_start_time: Option<u64>,
    pub resp_header_end_time: Option<u64>,
    pub first_read: Option<u64>,
    pub end_time: Option<u64>,
    pub resp_header_buf: BytesMut,
    pub req_body_buf: Vec<u8>,
    pub resp_body_buf: Vec<u8>,
    /// Whether the response stream has come to its end.
    pub ended: bool,
    /// The most bytes that are gathered in search of the response head.
    pub header_window: usize,
}

/// The time from `earlier` to `later`, and nothing where they are swapped.
pub open spec fn gap(later: u64, earlier: u64) -> u64 {
    if later >= earlier {
        (later - earlier) as u64
    } else {
        0
    }
}

/// The later of a reported time and the clock.
pub open spec fn stamp(now: u64, clock: u64) -> u64 {
    if now >= clock {
        now
    } else {
        clock
    }
}

/// A time already set, or else `t`.
pub open spec fn kept(set: Option<u64>, t: u64) -> Option<u64> {
    match set {
        Some(s) => Some(s),
        None => Some(t),
    }
}

/// `a`, where it is set, is not after `b`, where that is set.
pub open spec fn in_order(a: Option<u64>, b: Option<u64>) -> bool {
    a is Some && b is Some ==> a->0 <= b->0
}

/// A time that is set, or else the end.
pub open spec fn or_end(t: Option<u64>, end: u64) -> u64 {
    match t {
        Some(x) => x,
        None => end,
    }
}

/// The time from `from` to `t`, where `t` is set.
pub open spec fn since(t: Option<u64>, from: u64) -> Option<u64> {
    match t {
        Some(x) => Some(gap(x, from)),
        None => None,
    }
}

/// The pending pauses of one phase: those of its start at offset 0, then
/// those of its end at `end_offset`.
pub open spec fn phase_schedule(points: PausePoints, end_offset: u64) -> Seq<Scheduled> {
    group_items(points.start@, 0, 0) + group_items(points.end@, end_offset, 1)
}

/// `HTTP/1.` and the minor version in decimal.
pub open spec fn protocol_bytes(minor: u8) -> Seq<u8> {
    seq![72u8, 84u8, 84u8, 80u8, 47u8, 49u8, 46u8] + decimal(minor as nat)
}

fn span(later: u64, earlier: u64) -> (r: u64)
    ensures
        r == gap(later, earlier),
{
    if later >= earlier {
        later - earlier
    } else {
        0
    }
}

fn copy_values(src: &Vec<PauseValue>) -> (r: Vec<PauseValue>)
    ensures
        r@ == src@,
{
    let mut r: Vec<PauseValue> = Vec::new();
    let mut i: usize = 0;
    while i < src.len()
        invariant
            i <= src@.len(),
            r@ == src@.subrange(0, i as int),
        decreases src@.len() - i,
    {
        r.push(src[i]);
        assert(r@ =~= src@.subrange(0, i as int + 1));
        i += 1;
    }
    assert(r@ =~= src@);
    r
}

fn phase_specs(points: &PausePoints, end_offset: u64) -> (r: Vec<PauseSpec>)
    ensures
        crate::pause::schedule(r@, r@.len() as int) == phase_schedule(*points, end_offset),
{
    let mut r: Vec<PauseSpec> = Vec::new();
    r.push(PauseSpec { plan: copy_values(&points.start), group_offset: 0 });
    r.push(PauseSpec { plan: copy_values(&points.end), group_offset: end_offset });
    proof {
        reveal_with_fuel(crate::pause::schedule, 3);
        assert(crate::pause::schedule(r@, 2) =~= phase_schedule(*points, end_offset));
    }
    r
}

fn append(dst: &mut Vec<u8>, src: &[u8])
    ensures
        final(dst)@ == old(dst)@ + src@,
{
    let mut i: usize = 0;
    while i < src.len()
        invariant
            i <= src@.len(),
            dst@ == old(dst)@ + src@.subrange(0, i as int),
        decreases src@.len() - i,
    {
        dst.push(src[i]);
        assert(dst@ =~= old(dst)@ + src@.subrange(0, i as int + 1));
        i += 1;
    }
    assert(dst@ =~= old(dst)@ + src@);
}

fn io_error(message: &str) -> (e: Http1Error)
    ensures
        e.kind@ == "io"@,
        e.message@ == message@,
{
    Http1Error { kind: "io".to_owned(), message: message.to_owned() }
}

fn blank_response(name: String) -> (r: Http1Response)
    ensures
        is_blank(r),
        r.name == name,
{
    Http1Response {
        name,
        protocol: None,
        status_code: None,
        status_reason: None,
        headers: None,
        body: None,
        duration: 0,
        header_duration: None,
        time_to_first_byte: None,
    }
}

/// A response of which nothing is known yet.
pub open spec fn is_blank(r: Http1Response) -> bool {
    &&& r.protocol is None
    &&& r.status_code is None
    &&& r.status_reason is None
    &&& r.headers is None
    &&& r.body is None
    &&& r.duration == 0
    &&& r.header_duration is None
    &&& r.time_to_first_byte is None
}

/// What a parsed head does to a runner that is receiving the header, with
/// `acc` the bytes received so far. A partial head changes nothing but the
/// presence of the response. A malformed one fails the exchange with the
/// parser's words. A whole one fills in status and headers as parsed, in
/// their order, hands the bytes after the head to the body, puts the pauses
/// seen while the head came in on record, and sets the read pauses of the
/// body's start.
pub open spec fn head_applied(
    pre: Http1Runner,
    post: Http1Runner,
    head: ParsedHeadView,
    acc: Seq<u8>,
    r: ReadOutcome,
) -> bool {
    &&& post.out.name == pre.out.name
    &&& post.out.plan == pre.out.plan
    &&& post.out.request == pre.out.request
    &&& post.out.duration == pre.out.duration
    &&& post.header == pre.header
    &&& post.req_body_buf == pre.req_body_buf
    &&& post.start_time == pre.start_time
    &&& post.req_header_start_time == pre.req_header_start_time
    &&& post.req_body_start_time == pre.req_body_start_time
    &&& post.req_end_time == pre.req_end_time
    &&& post.end_time == pre.end_time
    &&& post.ended == pre.ended
    &&& post.header_window == pre.header_window
    &&& post.out.response is Some
    &&& post.out.response->0.name == pre.out.name
    &&& match head.status {
        HeadStatusView::Partial => {
            &&& r is NeedMore
            &&& post.state == State::ReceivingHeader
            &&& post.out.error == pre.out.error
            &&& is_blank(post.out.response->0)
            &&& buf_bytes(post.resp_header_buf) == acc
            &&& post.resp_body_buf == pre.resp_body_buf
            &&& post.resp_header_end_time == pre.resp_header_end_time
            &&& post.pauses == pre.pauses
            &&& post.out.pause == pre.out.pause
        },
        HeadStatusView::Malformed(m) => {
            &&& r is Failed
            &&& r->Failed_0.kind@ == "io"@
            &&& r->Failed_0.message@ == m
            &&& post.out.error is Some
            &&& post.out.error->0.kind@ == "io"@
            &&& post.out.error->0.message@ == m
            &&& post.state == State::ReceivingHeader
            &&& is_blank(post.out.response->0)
            &&& buf_bytes(post.resp_header_buf) == acc
            &&& post.resp_body_buf == pre.resp_body_buf
            &&& post.resp_header_end_time == pre.resp_header_end_time
            &&& post.pauses == pre.pauses
            &&& post.out.pause == pre.out.pause
        },
        HeadStatusView::Complete(n) => {
            let cut = if n <= acc.len() {
                n as int
            } else {
                acc.len() as int
            };
            let resp = post.out.response->0;
            &&& r is Body
            &&& r->Body_0@ == acc.subrange(cut, acc.len() as int)
            &&& post.resp_body_buf@ == pre.resp_body_buf@ + acc.subrange(cut, acc.len() as int)
            &&& buf_bytes(post.resp_header_buf).len() == 0
            &&& post.state == State::ReceivingBody
            &&& post.resp_header_end_time == Some(post.clock)
            &&& post.out.error == pre.out.error
            &&& resp.status_code == head.code
            &&& opt_bytes(resp.status_reason) == head.reason
            &&& resp.headers is Some
            &&& pairs_view(resp.headers->0@) == head.headers
            &&& opt_bytes(resp.protocol) == match head.minor_version {
                Some(v) => Some(protocol_bytes(v)),
                None => None,
            }
            &&& resp.body is None
            &&& resp.duration == 0
            &&& resp.header_duration is None
            &&& resp.time_to_first_byte is None
            &&& post.out.pause.response_headers.start@ == observed_in(
                pre.pauses.reads.fired@,
                0,
                pre.pauses.reads.fired@.len() as int,
            )
            &&& post.out.pause.response_headers == (PauseRecords {
                start: post.out.pause.response_headers.start,
                ..pre.out.pause.response_headers
            })
            &&& post.out.pause == (Http1PauseOutput {
                response_headers: post.out.pause.response_headers,
                ..pre.out.pause
            })
            &&& post.pauses.wf()
            &&& post.pauses.reads.pending@ == group_items(
                pre.out.plan.pause.response_body.start@,
                0,
                0,
            )
            &&& post.pauses.reads.count == 0
            &&& post.pauses.reads.next == 0
            &&& post.pauses.writes.pending@.len() == 0
        },
    }
}

fn start_specs(values: &Vec<PauseValue>) -> (r: Vec<PauseSpec>)
    ensures
        crate::pause::schedule(r@, r@.len() as int) == group_items(values@, 0, 0),
{
    let mut r: Vec<PauseSpec> = Vec::new();
    r.push(PauseSpec { plan: copy_values(values), group_offset: 0 });
    proof {
        reveal_with_fuel(crate::pause::schedule, 2);
        assert(crate::pause::schedule(r@, 1) =~= group_items(values@, 0, 0));
    }
    r
}

fn empty_records() -> (r: PauseRecords)
    ensures
        r.start@.len() == 0,
        r.end@.len() == 0,
{
    PauseRecords { start: Vec::new(), end: Vec::new() }
}

impl Http1Runner {
    /// Whether the exchange is under way: begun and not yet finished.
    pub open spec fn running(&self) -> bool {
        self.state == State::SendingHeader || self.state == State::SendingBody || self.state
            == State::ReceivingHeader || self.state == State::ReceivingBody
    }

    /// What holds of a runner between any two events.
    pub open spec fn wf(&self) -> bool {
        &&& self.pauses.wf()
        &&& self.state == State::Pending ==> buf_bytes(self.header) == header_bytes(self.out.plan)
        &&& buf_bytes(self.header).len() <= buf_limit()
        &&& self.header_window <= buf_limit()
        &&& (self.state == State::Pending || self.state == State::StartFailed) ==> self.out.request
            is None && self.out.response is None
        &&& self.running() ==> self.start_time is Some && self.req_header_start_time is Some
        &&& (self.state == State::SendingBody || self.state == State::ReceivingHeader || self.state
            == State::ReceivingBody) ==> self.out.request is Some
        &&& self.state == State::ReceivingBody ==> self.out.response is Some
            && self.resp_header_end_time is Some
        &&& (self.state == State::Pending || self.state == State::SendingHeader || self.state
            == State::SendingBody) ==> self.req_end_time is None
        &&& in_order(self.req_header_start_time, self.req_end_time)
        &&& self.out.response is Some ==> self.resp_start_time is Some
        &&& self.resp_header_end_time is Some ==> self.first_read is Some
        &&& self.first_read is Some ==> self.resp_start_time is Some
        &&& in_order(self.start_time, Some(self.clock))
        &&& in_order(self.req_header_start_time, Some(self.clock))
        &&& in_order(self.req_body_start_time, Some(self.clock))
        &&& in_order(self.req_end_time, Some(self.clock))
        &&& in_order(self.resp_start_time, Some(self.clock))
        &&& in_order(self.resp_header_end_time, Some(self.clock))
        &&& in_order(self.first_read, Some(self.clock))
        &&& in_order(self.end_time, Some(self.clock))
        &&& in_order(self.start_time, self.req_header_start_time)
        &&& in_order(self.resp_start_time, self.first_read)
        &&& in_order(self.first_read, self.resp_header_end_time)
    }

    /// A runner for `plan` to which nothing has happened yet: the request
    /// header is built, no time is stamped, nothing is on record.
    pub open spec fn fresh(&self, plan: Http1PlanOutput) -> bool {
        &&& self.wf()
        &&& self.state == State::Pending
        &&& self.out.plan == plan
        &&& self.out.name@ == Seq::<char>::empty()
        &&& self.out.request is None
        &&& self.out.response is None
        &&& self.out.error is None
        &&& self.out.duration == 0
        &&& self.out.pause.request_headers.start@.len() == 0
        &&& self.out.pause.request_headers.end@.len() == 0
        &&& self.out.pause.request_body.start@.len() == 0
        &&& self.out.pause.request_body.end@.len() == 0
        &&& self.out.pause.response_headers.start@.len() == 0
        &&& self.out.pause.response_headers.end@.len() == 0
        &&& self.out.pause.response_body.start@.len() == 0
        &&& self.out.pause.response_body.end@.len() == 0
        &&& buf_bytes(self.header) == header_bytes(plan)
        &&& self.pauses.writes.pending@.len() == 0
        &&& self.pauses.reads.pending@.len() == 0
        &&& self.clock == 0
        &&& self.start_time is None
        &&& self.req_header_start_time is None
        &&& self.req_body_start_time is None
        &&& self.req_end_time is None
        &&& self.resp_start_time is None
        &&& self.resp_header_end_time is None
        &&& self.first_read is None
        &&& self.end_time is None
        &&& buf_bytes(self.resp_header_buf).len() == 0
        &&& self.req_body_buf@.len() == 0
        &&& self.resp_body_buf@.len() == 0
        &&& !self.ended
        &&& self.header_window == buf_limit()
    }

    /// A runner for `plan`, with the request header built and nothing sent.
    pub fn new(plan: Http1PlanOutput) -> (r: Http1Runner)
        requires
            header_bytes(plan).len() <= buf_limit(),
        ensures
            r.fresh(plan),
    {
        proof {
            reveal_with_fuel(crate::pause::schedule, 1);
        }
        let header: BytesMut = compute_header(&plan);
        let none: Vec<PauseSpec> = Vec::new();
        Http1Runner {
            state: State::Pending,
            header,
            pauses: PauseStream::new(&none, &none),
            out: Http1Output {
                name: String::new(),
                request: None,
                response: None,
                error: None,
                duration: 0,
                pause: Http1PauseOutput {
                    request_headers: empty_records(),
                    request_body: empty_records(),
                    response_headers: empty_records(),
                    response_body: empty_records(),
                },
                plan,
            },
            clock: 0,
            start_time: None,
            req_header_start_time: None,
            req_body_start_time: None,
            req_end_time: None,
            resp_start_time: None,
            resp_header_end_time: None,
            first_read: None,
            end_time: None,
            resp_header_buf: buf_with_capacity(0),
            req_body_buf: Vec::new(),
            resp_body_buf: Vec::new(),
            ended: false,
            header_window: isize::MAX as usize,
        }
    }

    /// A runner for `plan`, or `None` where the request header would be
    /// longer than a buffer holds.
    pub fn try_new(plan: Http1PlanOutput) -> (r: Option<Http1Runner>)
        ensures
            r is Some <==> header_bytes(plan).len() <= buf_limit(),
            r is Some ==> r->0.fresh(plan),
    {
        if header_len(&plan).is_some() {
            Some(Http1Runner::new(plan))
        } else {
            None
        }
    }

    /// Gives the trace its name. The request and the response that appear
    /// later go by the same name.
    pub fn set_name(&mut self, name: String)
        requires
            old(self).wf(),
        ensures
            final(self).wf(),
            final(self).out == (Http1Output { name, ..old(self).out }),
            *final(self) == (Http1Runner { out: final(self).out, ..*old(self) }),
    {
        self.out.name = name;
    }

    /// The number of bytes the transport below is told to expect: the
    /// header and the hinted body, held at the largest `usize`.
    pub fn size_hint(&self, size_hint: Option<usize>) -> (r: Option<usize>)
        requires
            self.wf(),
            self.state == State::Pending,
        ensures
            r == Some(
                if header_bytes(self.out.plan).len() + size_hint.unwrap_or(0) <= usize::MAX {
                    (header_bytes(self.out.plan).len() + size_hint.unwrap_or(0)) as usize
                } else {
                    usize::MAX
                },
            ),
    {
        let head: usize = buf_len(&self.header);
        let body: usize = match size_hint {
            Some(n) => n,
            None => 0,
        };
        if body <= usize::MAX - head {
            Some(head + body)
        } else {
            Some(usize::MAX)
        }
    }

    /// The size hint a runner at the top of the stack starts with: the
    /// length of the planned body.
    pub fn executor_size_hint(&self) -> (r: Option<usize>)
        ensures
            r == Some(self.out.plan.body@.len() as usize),
    {
        Some(self.out.plan.body.len())
    }

    /// The transport below could not be started: the failure goes on the
    /// output under its kind, and the runner will send nothing.
    pub fn transport_failed(&mut self, failure: StartFailure, message: String)
        requires
            old(self).state == State::Pending,
            old(self).wf(),
        ensures
            final(self).state == State::StartFailed,
            final(self).out.error is Some,
            final(self).out.error->0.kind@ == start_kind(failure),
            final(self).out.error->0.message == message,
            final(self).out.request is None,
            final(self).out.response is None,
            final(self).out == (Http1Output { error: final(self).out.error, ..old(self).out }),
            *final(self) == (Http1Runner {
                out: final(self).out,
                state: State::StartFailed,
                ..*old(self)
            }),
            final(self).wf(),
    {
        let kind: String = match failure {
            StartFailure::Resolve => "resolve".to_owned(),
            StartFailure::Connect => "connect".to_owned(),
            StartFailure::Tls => "tls".to_owned(),
        };
        self.out.error = Some(Http1Error { kind, message });
        self.state = State::StartFailed;
    }

    /// The transport is up: begins sending. Returns the header bytes for
    /// the driver to write, with the header pauses pending at offset 0 and
    /// at the header's length. A runner that is not pending refuses and
    /// stays as it is.
    pub fn start(&mut self, now: u64) -> (r: Result<Vec<u8>, Http1Error>)
        requires
            old(self).wf(),
        ensures
            final(self).wf(),
            r is Ok <==> old(self).state == State::Pending,
            r is Ok ==> {
                &&& r->Ok_0@ == header_bytes(old(self).out.plan)
                &&& final(self).state == State::SendingHeader
                &&& final(self).clock == stamp(now, old(self).clock)
                &&& final(self).start_time == Some(final(self).clock)
                &&& final(self).req_header_start_time == Some(final(self).clock)
                &&& final(self).pauses.writes.pending@ == phase_schedule(
                    old(self).out.plan.pause.request_headers,
                    header_bytes(old(self).out.plan).len() as u64,
                )
                &&& final(self).pauses.writes.count == 0
                &&& final(self).pauses.writes.next == 0
                &&& final(self).pauses.reads.pending@.len() == 0
                &&& *final(self) == (Http1Runner {
                    state: final(self).state,
                    clock: final(self).clock,
                    start_time: final(self).start_time,
                    req_header_start_time: final(self).req_header_start_time,
                    pauses: final(self).pauses,
                    ..*old(self)
                })
            },
            r is Err ==> {
                &&& *final(self) == *old(self)
                &&& r->Err_0.kind@ == "configuration"@
                &&& r->Err_0.message@ == "attempt to start Http1Runner from invalid state"@
            },
    {
        if self.state != State::Pending {
            return Err(
                Http1Error {
                    kind: "configuration".to_owned(),
                    message: "attempt to start Http1Runner from invalid state".to_owned(),
                },
            );
        }
        let t: u64 = if now >= self.clock {
            now
        } else {
            self.clock
        };
        let bytes: Vec<u8> = buf_to_vec(&self.header);
        let writes: Vec<PauseSpec> = phase_specs(
            &self.out.plan.pause.request_headers,
            bytes.len() as u64,
        );
        let reads: Vec<PauseSpec> = Vec::new();
        self.pauses = PauseStream::new(&writes, &reads);
        self.clock = t;
        self.start_time = Some(t);
        self.req_header_start_time = Some(t);
        self.state = State::SendingHeader;
        proof {
            reveal_with_fuel(crate::pause::schedule, 1);
        }
        Ok(bytes)
    }

    /// A write by the layer above went through: its bytes join the request
    /// body on record, after those of earlier writes.
    pub fn wrote(&mut self, bytes: &[u8], now: u64)
        requires
            old(self).wf(),
            old(self).state == State::SendingHeader || old(self).state == State::SendingBody,
        ensures
            final(self).wf(),
            final(self).req_body_buf@ == old(self).req_body_buf@ + bytes@,
            final(self).clock == stamp(now, old(self).clock),
            final(self).req_body_start_time == kept(
                old(self).req_body_start_time,
                final(self).clock,
            ),
            *final(self) == (Http1Runner {
                req_body_buf: final(self).req_body_buf,
                clock: final(self).clock,
                req_body_start_time: final(self).req_body_start_time,
                ..*old(self)
            }),
    {
        let t: u64 = if now >= self.clock {
            now
        } else {
            self.clock
        };
        self.clock = t;
        if self.req_body_start_time.is_none() {
            self.req_body_start_time = Some(t);
        }
        append(&mut self.req_body_buf, bytes);
    }

    /// The sending side was shut down: the exchange ended here.
    pub fn shutdown(&mut self, now: u64)
        requires
            old(self).wf(),
            old(self).state == State::SendingHeader || old(self).state == State::SendingBody,
        ensures
            final(self).wf(),
            final(self).clock == stamp(now, old(self).clock),
            *final(self) == (Http1Runner {
                clock: final(self).clock,
                end_time: Some(final(self).clock),
                ..*old(self)
            }),
    {
        let t: u64 = if now >= self.clock {
            now
        } else {
            self.clock
        };
        self.clock = t;
        self.end_time = Some(t);
    }

    /// The request body is flushed: the request ends, and the wait for the
    /// response begins. The pauses seen while the body went out are put on
    /// record, and the pauses of the response header's start become pending
    /// on the reading side.
    pub fn flushed(&mut self, now: u64)
        requires
            old(self).wf(),
            old(self).state == State::SendingBody,
        ensures
            final(self).wf(),
            final(self).clock == stamp(now, old(self).clock),
            final(self).pauses.reads.pending@ == group_items(
                old(self).out.plan.pause.response_headers.start@,
                0,
                0,
            ),
            final(self).pauses.reads.count == 0,
            final(self).pauses.reads.next == 0,
            final(self).pauses.writes.pending@.len() == 0,
            final(self).out.pause.request_body.start@ == observed_in(
                old(self).pauses.writes.fired@,
                0,
                old(self).pauses.writes.fired@.len() as int,
            ),
            final(self).out.pause.request_body.end@ == observed_in(
                old(self).pauses.writes.fired@,
                1,
                old(self).pauses.writes.fired@.len() as int,
            ),
            final(self).out.pause == (Http1PauseOutput {
                request_body: final(self).out.pause.request_body,
                ..old(self).out.pause
            }),
            final(self).out == (Http1Output { pause: final(self).out.pause, ..old(self).out }),
            *final(self) == (Http1Runner {
                state: State::ReceivingHeader,
                clock: final(self).clock,
                req_end_time: Some(final(self).clock),
                resp_start_time: kept(old(self).resp_start_time, final(self).clock),
                pauses: final(self).pauses,
                out: final(self).out,
                ..*old(self)
            }),
    {
        let t: u64 = if now >= self.clock {
            now
        } else {
            self.clock
        };
        self.clock = t;
        self.req_end_time = Some(t);
        if self.resp_start_time.is_none() {
            self.resp_start_time = Some(t);
        }
        let writes: Vec<PauseSpec> = Vec::new();
        let reads: Vec<PauseSpec> = start_specs(&self.out.plan.pause.response_headers.start);
        proof {
            reveal_with_fuel(crate::pause::schedule, 1);
        }
        let seen: (Vec<Fired>, Vec<Fired>) = self.pauses.reset(&writes, &reads);
        self.out.pause.request_body.start = observed_of(&seen.1, 0);
        self.out.pause.request_body.end = observed_of(&seen.1, 1);
        self.state = State::ReceivingHeader;
    }

    /// The header is written: the pauses seen while it went out are put on
    /// record, the body's pauses become pending (at offset 0, and at the
    /// hinted size where there is a hint), and the request appears on the
    /// output. Without a hint a plan that pauses at the body's end cannot
    /// be served: that is a configuration error, and nothing else changes.
    pub fn header_flushed(&mut self, size_hint: Option<usize>) -> (r: Result<(), Http1Error>)
        requires
            old(self).wf(),
            old(self).state == State::SendingHeader,
        ensures
            final(self).wf(),
            r is Err <==> size_hint is None && old(self).out.plan.pause.request_body.end@.len() > 0,
            r is Err ==> {
                &&& r->Err_0.kind@ == "configuration"@
                &&& r->Err_0.message@ == "http1.pause.receive_body.end is unsupported in this request"@
                &&& final(self).out.error is Some
                &&& final(self).out.error->0.kind@ == "configuration"@
                &&& final(self).out.error->0.message@ == r->Err_0.message@
                &&& final(self).out == (Http1Output {
                    error: final(self).out.error,
                    ..old(self).out
                })
                &&& *final(self) == (Http1Runner { out: final(self).out, ..*old(self) })
            },
            r is Ok ==> {
                let plan = old(self).out.plan;
                let fired = old(self).pauses.writes.fired@;
                let req = final(self).out.request->0;
                &&& final(self).state == State::SendingBody
                &&& final(self).pauses.writes.pending@ == match size_hint {
                    Some(n) => phase_schedule(plan.pause.request_body, n as u64),
                    None => group_items(plan.pause.request_body.start@, 0, 0),
                }
                &&& final(self).pauses.writes.count == 0
                &&& final(self).pauses.writes.next == 0
                &&& final(self).pauses.reads.pending@.len() == 0
                &&& final(self).out.pause.request_headers.start@ == observed_in(
                    fired,
                    0,
                    fired.len() as int,
                )
                &&& final(self).out.pause.request_headers.end@ == observed_in(
                    fired,
                    1,
                    fired.len() as int,
                )
                &&& final(self).out.pause == (Http1PauseOutput {
                    request_headers: final(self).out.pause.request_headers,
                    ..old(self).out.pause
                })
                &&& final(self).out.request is Some
                &&& req.name == old(self).out.name
                &&& req.url@ == plan.url@
                &&& opt_bytes(req.method) == opt_bytes(plan.method)
                &&& opt_bytes(req.version_string) == opt_bytes(plan.version_string)
                &&& pairs_view(req.headers@) == pairs_view(plan.headers@)
                &&& req.body@.len() == 0
                &&& req.duration == 0
                &&& req.body_duration is None
                &&& req.time_to_first_byte is None
                &&& final(self).out == (Http1Output {
                    request: final(self).out.request,
                    pause: final(self).out.pause,
                    ..old(self).out
                })
                &&& *final(self) == (Http1Runner {
                    out: final(self).out,
                    state: final(self).state,
                    pauses: final(self).pauses,
                    ..*old(self)
                })
            },
    {
        let writes: Vec<PauseSpec> = match size_hint {
            Some(n) => phase_specs(&self.out.plan.pause.request_body, n as u64),
            None => {
                if self.out.plan.pause.request_body.end.len() > 0 {
                    let message: &str = "http1.pause.receive_body.end is unsupported in this request";
                    self.out.error = Some(
                        Http1Error {
                            kind: "configuration".to_owned(),
                            message: message.to_owned(),
                        },
                    );
                    return Err(
                        Http1Error {
                            kind: "configuration".to_owned(),
                            message: message.to_owned(),
                        },
                    );
                }
                let mut only: Vec<PauseSpec> = Vec::new();
                only.push(
                    PauseSpec {
                        plan: copy_values(&self.out.plan.pause.request_body.start),
                        group_offset: 0,
                    },
                );
                proof {
                    reveal_with_fuel(crate::pause::schedule, 2);
                    assert(crate::pause::schedule(only@, 1) =~= group_items(
                        self.out.plan.pause.request_body.start@,
                        0,
                        0,
                    ));
                }
                only
            },
        };
        let reads: Vec<PauseSpec> = Vec::new();
        proof {
            reveal_with_fuel(crate::pause::schedule, 1);
        }
        let seen: (Vec<Fired>, Vec<Fired>) = self.pauses.reset(&writes, &reads);
        self.out.pause.request_headers.start = observed_of(&seen.1, 0);
        self.out.pause.request_headers.end = observed_of(&seen.1, 1);
        self.state = State::SendingBody;
        self.out.request = Some(
            Http1RequestOutput {
                name: self.out.name.clone(),
                url: self.out.plan.url.copy(),
                headers: copy_pairs(&self.out.plan.headers),
                method: copy_opt(&self.out.plan.method),
                version_string: copy_opt(&self.out.plan.version_string),
                body: Vec::new(),
                duration: 0,
                body_duration: None,
                time_to_first_byte: None,
            },
        );
        Ok(())
    }

    /// Takes in what the parser made of the bytes received so far.
    pub fn apply_head(&mut self, parsed: ParsedHead, now: u64) -> (r: ReadOutcome)
        requires
            old(self).wf(),
            old(self).state == State::ReceivingHeader,
            old(self).first_read is Some,
        ensures
            final(self).wf(),
            final(self).clock == stamp(now, old(self).clock),
            final(self).first_read == old(self).first_read,
            final(self).resp_start_time == old(self).resp_start_time,
            head_applied(
                *old(self),
                *final(self),
                parsed@,
                buf_bytes(old(self).resp_header_buf),
                r,
            ),
            parsed.status is Complete ==> final(self).out.response->0.headers == Some(
                parsed.headers,
            ),
    {
        let t: u64 = if now >= self.clock {
            now
        } else {
            self.clock
        };
        self.clock = t;
        match parsed.status {
            HeadStatus::Partial => {
                self.out.response = Some(blank_response(self.out.name.clone()));
                ReadOutcome::NeedMore
            },
            HeadStatus::Malformed(message) => {
                self.out.response = Some(blank_response(self.out.name.clone()));
                self.out.error = Some(io_error(message.as_str()));
                ReadOutcome::Failed(io_error(message.as_str()))
            },
            HeadStatus::Complete(n) => {
                let len: usize = buf_len(&self.resp_header_buf);
                let cut: usize = if n <= len {
                    n
                } else {
                    len
                };
                buf_advance(&mut self.resp_header_buf, cut);
                let rest: Vec<u8> = buf_to_vec(&self.resp_header_buf);
                self.resp_header_buf = buf_with_capacity(0);
                append(&mut self.resp_body_buf, rest.as_slice());
                let protocol: Option<Vec<u8>> = match parsed.minor_version {
                    Some(v) => {
                        let mut p: Vec<u8> = vec![72u8, 84u8, 84u8, 80u8, 47u8, 49u8, 46u8];
                        push_decimal(&mut p, v as usize);
                        assert(p@ =~= protocol_bytes(v));
                        Some(p)
                    },
                    None => None,
                };
                self.out.response = Some(
                    Http1Response {
                        name: self.out.name.clone(),
                        protocol,
                        status_code: parsed.code,
                        status_reason: parsed.reason,
                        headers: Some(parsed.headers),
                        body: None,
                        duration: 0,
                        header_duration: None,
                        time_to_first_byte: None,
                    },
                );
                let writes: Vec<PauseSpec> = Vec::new();
                let reads: Vec<PauseSpec> = start_specs(&self.out.plan.pause.response_body.start);
                proof {
                    reveal_with_fuel(crate::pause::schedule, 1);
                }
                let seen: (Vec<Fired>, Vec<Fired>) = self.pauses.reset(&writes, &reads);
                self.out.pause.response_headers.start = observed_of(&seen.0, 0);
                self.resp_header_end_time = Some(t);
                self.state = State::ReceivingBody;
                ReadOutcome::Body(rest)
            },
        }
    }

    /// Sets the most bytes that are gathered in search of the response
    /// head; more than a buffer holds is read as that much.
    pub fn set_header_window(&mut self, window: usize)
        requires
            old(self).wf(),
        ensures
            final(self).wf(),
            final(self).header_window == (if window <= buf_limit() {
                window
            } else {
                buf_limit() as usize
            }),
            *final(self) == (Http1Runner {
                header_window: final(self).header_window,
                ..*old(self)
            }),
    {
        let limit: usize = isize::MAX as usize;
        self.header_window = if window <= limit {
            window
        } else {
            limit
        };
    }

    /// A read or write on the transport failed: the failure goes on the
    /// output as an `io` error, and the exchange is over.
    pub fn io_failed(&mut self, message: String, now: u64)
        requires
            old(self).wf(),
        ensures
            final(self).wf(),
            final(self).clock == stamp(now, old(self).clock),
            final(self).out.error is Some,
            final(self).out.error->0.kind@ == "io"@,
            final(self).out.error->0.message == message,
            final(self).out == (Http1Output { error: final(self).out.error, ..old(self).out }),
            *final(self) == (Http1Runner {
                out: final(self).out,
                clock: final(self).clock,
                ..*old(self)
            }),
    {
        let t: u64 = if now >= self.clock {
            now
        } else {
            self.clock
        };
        self.clock = t;
        self.out.error = Some(Http1Error { kind: "io".to_owned(), message });
    }

    /// What a driver at the top of the stack does next: start, send the
    /// header, write what is left of the planned body, flush, read to the
    /// end of the stream, finish. An error on the output ends the exchange
    /// wherever it stands.
    pub open spec fn next_action(&self) -> Action {
        if self.out.error is Some {
            Action::Finish
        } else {
            match self.state {
                State::Pending => Action::Start,
                State::SendingHeader => Action::SendHeader,
                State::SendingBody => if self.req_body_buf@.len() < self.out.plan.body@.len() {
                    Action::WriteBody(self.req_body_buf@.len() as usize)
                } else {
                    Action::Flush
                },
                State::ReceivingHeader => Action::Read,
                State::ReceivingBody => if self.ended {
                    Action::Finish
                } else {
                    Action::Read
                },
                State::StartFailed => Action::Finish,
                State::Complete => Action::Finish,
            }
        }
    }

    /// The next action of a runner that is itself the step.
    pub fn execute(&self) -> (r: Action)
        ensures
            r == self.next_action(),
    {
        if self.out.error.is_some() {
            return Action::Finish;
        }
        match self.state {
            State::Pending => Action::Start,
            State::SendingHeader => Action::SendHeader,
            State::SendingBody => {
                let written: usize = self.req_body_buf.len();
                if written < self.out.plan.body.len() {
                    Action::WriteBody(written)
                } else {
                    Action::Flush
                }
            },
            State::ReceivingHeader => Action::Read,
            State::ReceivingBody => if self.ended {
                Action::Finish
            } else {
                Action::Read
            },
            State::StartFailed => Action::Finish,
            State::Complete => Action::Finish,
        }
    }

    /// A read from the transport gave `bytes` (none at the end of the
    /// stream). While the header is awaited they join the bytes received so
    /// far, which are parsed anew; the end of the stream there, or more
    /// bytes than the header window allows, fails the exchange. Once the body has
    /// begun they go to the caller and onto the record as they are.
    pub fn received(&mut self, bytes: &[u8], now: u64) -> (r: ReadOutcome)
        requires
            old(self).wf(),
            old(self).state == State::ReceivingHeader || old(self).state == State::ReceivingBody,
        ensures
            final(self).wf(),
            final(self).clock == stamp(now, old(self).clock),
            old(self).state == State::ReceivingBody ==> {
                &&& r is Body
                &&& r->Body_0@ == bytes@
                &&& final(self).resp_body_buf@ == old(self).resp_body_buf@ + bytes@
                &&& *final(self) == (Http1Runner {
                    resp_body_buf: final(self).resp_body_buf,
                    clock: final(self).clock,
                    ended: old(self).ended || bytes@.len() == 0,
                    ..*old(self)
                })
            },
            old(self).state == State::ReceivingHeader ==> {
                let acc = buf_bytes(old(self).resp_header_buf);
                &&& final(self).resp_start_time == kept(
                    old(self).resp_start_time,
                    final(self).clock,
                )
                &&& (bytes@.len() == 0 || acc.len() + bytes@.len() > old(self).header_window) ==> {
                    &&& r is Failed
                    &&& r->Failed_0.kind@ == "io"@
                    &&& r->Failed_0.message@ == (if bytes@.len() == 0 {
                        "header incomplete"@
                    } else {
                        "header too large"@
                    })
                    &&& final(self).out.error is Some
                    &&& final(self).out.error->0.kind@ == "io"@
                    &&& final(self).out.error->0.message@ == r->Failed_0.message@
                    &&& final(self).out == (Http1Output {
                        error: final(self).out.error,
                        ..old(self).out
                    })
                    &&& *final(self) == (Http1Runner {
                        out: final(self).out,
                        clock: final(self).clock,
                        resp_start_time: final(self).resp_start_time,
                        ..*old(self)
                    })
                }
                &&& (bytes@.len() > 0 && acc.len() + bytes@.len() <= old(self).header_window) ==> {
                    &&& final(self).first_read == kept(old(self).first_read, final(self).clock)
                    &&& head_applied(
                        *old(self),
                        *final(self),
                        parsed_head(acc + bytes@, HEADER_SLOTS),
                        acc + bytes@,
                        r,
                    )
                }
            },
    {
        let t: u64 = if now >= self.clock {
            now
        } else {
            self.clock
        };
        self.clock = t;
        if self.state == State::ReceivingBody {
            if bytes.len() == 0 {
                self.ended = true;
            }
            append(&mut self.resp_body_buf, bytes);
            return ReadOutcome::Body(copy_bytes(bytes));
        }
        if self.resp_start_time.is_none() {
            self.resp_start_time = Some(t);
        }
        if bytes.len() == 0 {
            self.out.error = Some(io_error("header incomplete"));
            return ReadOutcome::Failed(io_error("header incomplete"));
        }
        let limit: usize = self.header_window;
        let have: usize = buf_len(&self.resp_header_buf);
        if have > limit || bytes.len() > limit - have {
            self.out.error = Some(io_error("header too large"));
            return ReadOutcome::Failed(io_error("header too large"));
        }
        buf_put_slice(&mut self.resp_header_buf, bytes);
        if self.first_read.is_none() {
            self.first_read = Some(t);
        }
        let acc: Vec<u8> = buf_to_vec(&self.resp_header_buf);
        let parsed: ParsedHead = parse_head(acc.as_slice(), HEADER_SLOTS);
        self.apply_head(parsed, t)
    }

    /// When the exchange ended: at the shutdown, or else now, and in
    /// neither case before the latest event on record.
    pub open spec fn end_at(&self, now: u64) -> u64 {
        match self.end_time {
            Some(e) => stamp(e, self.clock),
            None => stamp(now, self.clock),
        }
    }

    /// The pause records of a runner under way, once the pauses seen in
    /// the phase it stands in are added to those of the phases before.
    pub open spec fn pauses_closed(&self, p: Http1PauseOutput) -> bool {
        let was = self.out.pause;
        let w = self.pauses.writes.fired@;
        let r = self.pauses.reads.fired@;
        match self.state {
            State::SendingHeader => {
                &&& p == (Http1PauseOutput { request_headers: p.request_headers, ..was })
                &&& p.request_headers.start@ == observed_in(w, 0, w.len() as int)
                &&& p.request_headers.end@ == observed_in(w, 1, w.len() as int)
            },
            State::SendingBody => {
                &&& p == (Http1PauseOutput { request_body: p.request_body, ..was })
                &&& p.request_body.start@ == observed_in(w, 0, w.len() as int)
                &&& p.request_body.end@ == observed_in(w, 1, w.len() as int)
            },
            State::ReceivingHeader => {
                &&& p == (Http1PauseOutput { response_headers: p.response_headers, ..was })
                &&& p.response_headers == (PauseRecords {
                    start: p.response_headers.start,
                    ..was.response_headers
                })
                &&& p.response_headers.start@ == observed_in(r, 0, r.len() as int)
            },
            State::ReceivingBody => {
                &&& p == (Http1PauseOutput { response_body: p.response_body, ..was })
                &&& p.response_body == (PauseRecords {
                    start: p.response_body.start,
                    ..was.response_body
                })
                &&& p.response_body.start@ == observed_in(r, 0, r.len() as int)
            },
            _ => p == was,
        }
    }

    /// What the trace of this runner is when it is finished at `now`. A
    /// runner that never got under way gives its output as it stands.
    /// Otherwise the recorded body bytes and the durations are filled in:
    /// each duration is the time between two stamps that were both set, and
    /// never negative. The response has a body once its head was whole,
    /// and the pauses of the last phase join the record.
    pub open spec fn finished(&self, now: u64, out: Http1Output) -> bool {
        &&& out.name == self.out.name
        &&& out.plan == self.out.plan
        &&& out.error == self.out.error
        &&& self.running() ==> self.pauses_closed(out.pause)
        &&& !self.running() ==> out == self.out
        &&& out.request is Some <==> self.out.request is Some
        &&& out.response is Some <==> self.out.response is Some
        &&& self.running() ==> out.duration == gap(self.end_at(now), self.start_time->0)
        &&& self.running() && out.request is Some ==> {
            let end = self.end_at(now);
            let start = self.start_time->0;
            let req = out.request->0;
            let was = self.out.request->0;
            &&& req.name == was.name
            &&& req.url == was.url
            &&& req.method == was.method
            &&& req.version_string == was.version_string
            &&& req.headers == was.headers
            &&& req.body == self.req_body_buf
            &&& req.duration == gap(or_end(self.req_end_time, end), start)
            &&& req.body_duration == match self.req_body_start_time {
                Some(s) => Some(gap(or_end(self.resp_start_time, end), s)),
                None => None,
            }
            &&& req.time_to_first_byte == since(self.req_header_start_time, start)
        }
        &&& self.running() && out.response is Some ==> {
            let end = self.end_at(now);
            let begun = self.resp_start_time->0;
            let resp = out.response->0;
            let was = self.out.response->0;
            &&& resp.name == was.name
            &&& resp.protocol == was.protocol
            &&& resp.status_code == was.status_code
            &&& resp.status_reason == was.status_reason
            &&& resp.headers == was.headers
            &&& resp.body == (if self.state == State::ReceivingBody {
                Some(self.resp_body_buf)
            } else {
                None
            })
            &&& resp.duration == gap(end, begun)
            &&& resp.header_duration == since(self.resp_header_end_time, begun)
            &&& resp.time_to_first_byte == since(self.first_read, begun)
        }
    }

    /// The durations of a finished exchange are in order, however it went:
    /// the request's time to first byte is at most its duration, and that
    /// at most the whole; the response's time to first byte is at most its
    /// header duration, and that at most its duration. Once the head was
    /// whole the response has all three.
    pub open spec fn durations_ordered(&self, out: Http1Output) -> bool {
        &&& out.request is Some ==> {
            let req = out.request->0;
            &&& req.duration <= out.duration
            &&& req.time_to_first_byte is Some ==> req.time_to_first_byte->0 <= req.duration
        }
        &&& out.response is Some ==> {
            let resp = out.response->0;
            &&& resp.header_duration is Some ==> resp.time_to_first_byte is Some
                && resp.time_to_first_byte->0 <= resp.header_duration->0
                && resp.header_duration->0 <= resp.duration
            &&& resp.time_to_first_byte is Some ==> resp.time_to_first_byte->0
                <= resp.duration
        }
        &&& self.state == State::ReceivingBody ==> out.response is Some
            && out.response->0.time_to_first_byte is Some
            && out.response->0.header_duration is Some
    }

    /// Every trace that `finished` admits of a runner under way has its
    /// durations in order.
    pub proof fn lemma_durations_ordered(self, now: u64, out: Http1Output)
        requires
            self.wf(),
            self.running(),
            self.finished(now, out),
        ensures
            self.durations_ordered(out),
    {
    }

    /// Ends the exchange and hands out its trace.
    pub fn finish(self, now: u64) -> (out: Http1Output)
        requires
            self.wf(),
        ensures
            self.finished(now, out),
            self.running() ==> self.durations_ordered(out),
    {
        let running: bool = self.state == State::SendingHeader || self.state == State::SendingBody
            || self.state == State::ReceivingHeader || self.state == State::ReceivingBody;
        if !running {
            return self.out;
        }
        let t: u64 = if now >= self.clock {
            now
        } else {
            self.clock
        };
        let end: u64 = match self.end_time {
            Some(e) => if e >= self.clock {
                e
            } else {
                self.clock
            },
            None => t,
        };
        let start: u64 = match self.start_time {
            Some(s) => s,
            None => end,
        };
        let begun: u64 = match self.resp_start_time {
            Some(b) => b,
            None => end,
        };
        let request: Option<Http1RequestOutput> = match self.out.request {
            Some(req) => Some(
                Http1RequestOutput {
                    name: req.name,
                    url: req.url,
                    method: req.method,
                    version_string: req.version_string,
                    headers: req.headers,
                    body: self.req_body_buf,
                    duration: span(
                        match self.req_end_time {
                            Some(e) => e,
                            None => end,
                        },
                        start,
                    ),
                    body_duration: match self.req_body_start_time {
                        Some(s) => Some(
                            span(
                                match self.resp_start_time {
                                    Some(b) => b,
                                    None => end,
                                },
                                s,
                            ),
                        ),
                        None => None,
                    },
                    time_to_first_byte: match self.req_header_start_time {
                        Some(h) => Some(span(h, start)),
                        None => None,
                    },
                },
            ),
            None => None,
        };
        let response: Option<Http1Response> = match self.out.response {
            Some(resp) => Some(
                Http1Response {
                    name: resp.name,
                    protocol: resp.protocol,
                    status_code: resp.status_code,
                    status_reason: resp.status_reason,
                    headers: resp.headers,
                    body: if self.state == State::ReceivingBody {
                        Some(self.resp_body_buf)
                    } else {
                        None
                    },
                    duration: span(end, begun),
                    header_duration: match self.resp_header_end_time {
                        Some(e) => Some(span(e, begun)),
                        None => None,
                    },
                    time_to_first_byte: match self.first_read {
                        Some(f) => Some(span(f, begun)),
                        None => None,
                    },
                },
            ),
            None => None,
        };
        let mut pause: Http1PauseOutput = self.out.pause;
        match self.state {
            State::SendingHeader => {
                pause.request_headers.start = observed_of(&self.pauses.writes.fired, 0);
                pause.request_headers.end = observed_of(&self.pauses.writes.fired, 1);
            },
            State::SendingBody => {
                pause.request_body.start = observed_of(&self.pauses.writes.fired, 0);
                pause.request_body.end = observed_of(&self.pauses.writes.fired, 1);
            },
            State::ReceivingHeader => {
                pause.response_headers.start = observed_of(&self.pauses.reads.fired, 0);
            },
            State::ReceivingBody => {
                pause.response_body.start = observed_of(&self.pauses.reads.fired, 0);
            },
            _ => {},
        }
        Http1Output {
            name: self.out.name,
            plan: self.out.plan,
            request,
            response,
            error: self.out.error,
            duration: span(end, start),
            pause,
        }
    }
}

} // verus!
