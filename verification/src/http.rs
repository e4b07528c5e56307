//! The HTTP runner: picks the transports for a URL and runs HTTP/1.1 on
//! top of them.

use crate::buffer::buf_limit;
use crate::header::{header_bytes, header_len};
use crate::http1::{Action, Http1Runner};
use crate::output::{
    copy_bytes, Http1Output, Http1PlanOutput, HttpError, HttpOutput, HttpPlanOutput,
    HttpRequestOutput, HttpResponse, RawTcpPlanOutput, TcpPlanOutput, TlsPlanOutput,
};
use vstd::prelude::*;

verus! {

/// A transport under HTTP, lowest first in a stack.
#[derive(Clone, Copy, Debug, PartialEq, Eq, Structural)]
pub enum Transport {
    RawTcp,
    Tcp,
    Tls,
}

/// Whether the transports are still to be started.
#[derive(Clone, Copy, Debug, PartialEq, Eq, Structural)]
pub enum HttpState {
    Pending,
    Running,
}

/// One HTTP step: the HTTP/1 exchange and the stack it runs on.
#[derive(Debug)]
pub struct HttpRunner {
    pub inner: Http1Runner,
    pub state: HttpState,
    pub transports: Vec<Transport>,
    pub host: Vec<u8>,
    pub port: u16,
}

/// `https`.
pub open spec fn https() -> Seq<u8> {
    seq![104u8, 116u8, 116u8, 112u8, 115u8]
}

/// `http/1.1`, the one protocol offered in the TLS handshake.
pub open spec fn alpn_http11() -> Seq<u8> {
    seq![104u8, 116u8, 116u8, 112u8, 47u8, 49u8, 46u8, 49u8]
}

/// `HTTP/1.1`, the protocol every trace reports.
pub open spec fn protocol_name() -> Seq<u8> {
    seq![72u8, 84u8, 84u8, 80u8, 47u8, 49u8, 46u8, 49u8]
}

/// The stack for a scheme: TCP by packets, the TCP stream, and TLS on top
/// where the scheme is `https`.
pub open spec fn stack_for(scheme: Seq<u8>) -> Seq<Transport> {
    if scheme == https() {
        seq![Transport::RawTcp, Transport::Tcp, Transport::Tls]
    } else {
        seq![Transport::RawTcp, Transport::Tcp]
    }
}

/// Whether `inner` is the HTTP/1 exchange that the step `plan` stands for:
/// the step's own parameters, with `HTTP/1.1` named as the version.
pub open spec fn is_http1_of(inner: Http1PlanOutput, plan: HttpPlanOutput) -> bool {
    &&& inner.url == plan.url
    &&& inner.method == plan.method
    &&& inner.version_string is Some
    &&& inner.version_string->0@ == protocol_name()
    &&& inner.add_content_length == plan.add_content_length
    &&& inner.headers == plan.headers
    &&& inner.body == plan.body
    &&& inner.pause == plan.pause
}

/// The request header that the step puts on the wire. The version it
/// names, `HTTP/1.1`, is also what a request line carries by default, so
/// the header is that of the step's parameters with no version named.
pub open spec fn step_header(plan: HttpPlanOutput) -> Seq<u8> {
    header_bytes(
        Http1PlanOutput {
            url: plan.url,
            method: plan.method,
            version_string: None,
            add_content_length: plan.add_content_length,
            headers: plan.headers,
            body: plan.body,
            pause: plan.pause,
        },
    )
}

/// The header of the HTTP/1 exchange of a step is the header of the step.
pub proof fn lemma_header_of_step(inner: Http1PlanOutput, plan: HttpPlanOutput)
    requires
        is_http1_of(inner, plan),
    ensures
        header_bytes(inner) == step_header(plan),
{
    let bare = Http1PlanOutput {
        url: plan.url,
        method: plan.method,
        version_string: None,
        add_content_length: plan.add_content_length,
        headers: plan.headers,
        body: plan.body,
        pause: plan.pause,
    };
    assert(crate::header::default_version() =~= protocol_name());
    assert(crate::header::request_line(inner) == crate::header::request_line(bare));
    assert(crate::header::adds_content_length(inner) == crate::header::adds_content_length(bare));
    assert(crate::header::content_length_line(inner) == crate::header::content_length_line(bare));
}

/// How the trace of the HTTP/1 exchange appears as the trace of the step:
/// field for field, with the protocol named, and the error, if any, as the
/// one entry of the error list.
pub open spec fn converted(h: Http1Output, out: HttpOutput) -> bool {
    &&& out.name == h.name
    &&& out.plan.url == h.plan.url
    &&& out.plan.method == h.plan.method
    &&& out.plan.add_content_length == h.plan.add_content_length
    &&& out.plan.headers == h.plan.headers
    &&& out.plan.body == h.plan.body
    &&& out.plan.pause == h.plan.pause
    &&& out.duration == h.duration
    &&& out.protocol is Some
    &&& out.protocol->0@ == "HTTP/1.1"@
    &&& match h.error {
        Some(e) => out.errors@.len() == 1 && out.errors@[0].kind == e.kind && out.errors@[0].message
            == e.message,
        None => out.errors@.len() == 0,
    }
    &&& match h.request {
        Some(req) => {
            &&& out.request is Some
            &&& out.request->0.name == req.name
            &&& out.request->0.url == req.url
            &&& out.request->0.protocol@ == protocol_name()
            &&& out.request->0.method == req.method
            &&& out.request->0.headers == req.headers
            &&& out.request->0.body == req.body
            &&& out.request->0.duration == req.duration
            &&& out.request->0.body_duration == req.body_duration
            &&& out.request->0.time_to_first_byte == req.time_to_first_byte
        },
        None => out.request is None,
    }
    &&& match h.response {
        Some(resp) => {
            &&& out.response is Some
            &&& out.response->0.name == resp.name
            &&& out.response->0.protocol == resp.protocol
            &&& out.response->0.status_code == resp.status_code
            &&& out.response->0.headers == resp.headers
            &&& out.response->0.body == resp.body
            &&& out.response->0.duration == resp.duration
            &&& out.response->0.header_duration == resp.header_duration
            &&& out.response->0.time_to_first_byte == resp.time_to_first_byte
        },
        None => out.response is None,
    }
}

fn scheme_is_https(scheme: &[u8]) -> (r: bool)
    ensures
        r == (scheme@ == https()),
{
    let r: bool = scheme.len() == 5 && scheme[0] == 104u8 && scheme[1] == 116u8 && scheme[2]
        == 116u8 && scheme[3] == 112u8 && scheme[4] == 115u8;
    assert(r == (scheme@ =~= https()));
    r
}

fn error(message: &str) -> (e: HttpError)
    ensures
        e.kind@ == "configuration"@,
        e.message@ == message@,
{
    HttpError { kind: "configuration".to_owned(), message: message.to_owned() }
}

/// The trace of a step that could not be set up: the plan as it came, the
/// one error, and nothing sent or received.
pub fn refused(plan: HttpPlanOutput, error: HttpError) -> (out: HttpOutput)
    ensures
        out.name@ == Seq::<char>::empty(),
        out.plan == plan,
        out.request is None,
        out.response is None,
        out.errors@ == seq![error],
        out.protocol is None,
        out.duration == 0,
{
    let mut errors: Vec<HttpError> = Vec::new();
    errors.push(error);
    HttpOutput {
        name: String::new(),
        plan,
        request: None,
        response: None,
        errors,
        protocol: None,
        duration: 0,
    }
}

/// Turns the trace of the HTTP/1 exchange into the trace of the step.
pub fn from_http1(h: Http1Output) -> (out: HttpOutput)
    ensures
        converted(h, out),
{
    let mut errors: Vec<HttpError> = Vec::new();
    match h.error {
        Some(e) => errors.push(HttpError { kind: e.kind, message: e.message }),
        None => {},
    }
    let request: Option<HttpRequestOutput> = match h.request {
        Some(req) => {
            let protocol: Vec<u8> = vec![72u8, 84u8, 84u8, 80u8, 47u8, 49u8, 46u8, 49u8];
            assert(protocol@ =~= protocol_name());
            Some(
                HttpRequestOutput {
                    name: req.name,
                    url: req.url,
                    protocol,
                    method: req.method,
                    headers: req.headers,
                    body: req.body,
                    duration: req.duration,
                    body_duration: req.body_duration,
                    time_to_first_byte: req.time_to_first_byte,
                },
            )
        },
        None => None,
    };
    let response: Option<HttpResponse> = match h.response {
        Some(resp) => Some(
            HttpResponse {
                name: resp.name,
                protocol: resp.protocol,
                status_code: resp.status_code,
                headers: resp.headers,
                body: resp.body,
                duration: resp.duration,
                header_duration: resp.header_duration,
                time_to_first_byte: resp.time_to_first_byte,
            },
        ),
        None => None,
    };
    HttpOutput {
        name: h.name,
        plan: HttpPlanOutput {
            url: h.plan.url,
            method: h.plan.method,
            add_content_length: h.plan.add_content_length,
            headers: h.plan.headers,
            body: h.plan.body,
            pause: h.plan.pause,
        },
        request,
        response,
        errors,
        protocol: Some("HTTP/1.1".to_owned()),
        duration: h.duration,
    }
}

impl HttpRunner {
    pub open spec fn wf(&self) -> bool {
        self.inner.wf()
    }

    /// A runner for `plan`: TCP below, TLS on it for `https`, HTTP/1.1 on
    /// top. A URL without host or port, or a request header longer than a
    /// buffer holds, is refused.
    pub fn new(plan: HttpPlanOutput) -> (r: Result<HttpRunner, HttpError>)
        ensures
            r is Err <==> plan.url.host is None || plan.url.port is None || step_header(
                plan,
            ).len() > buf_limit(),
            r is Err ==> r->Err_0.kind@ == "configuration"@ && r->Err_0.message@ == (
            if plan.url.host is None {
                "url is missing host"@
            } else if plan.url.port is None {
                "url is missing port"@
            } else {
                "request header too large"@
            }),
            r is Ok ==> {
                let run = r->Ok_0;
                &&& run.wf()
                &&& run.state == HttpState::Pending
                &&& run.transports@ == stack_for(plan.url.scheme@)
                &&& run.host@ == plan.url.host->0@
                &&& run.port == plan.url.port->0
                &&& run.inner.fresh(run.inner.out.plan)
                &&& is_http1_of(run.inner.out.plan, plan)
            },
    {
        let host: Vec<u8> = match &plan.url.host {
            Some(h) => copy_bytes(h.as_slice()),
            None => {
                return Err(error("url is missing host"));
            },
        };
        let port: u16 = match plan.url.port {
            Some(p) => p,
            None => {
                return Err(error("url is missing port"));
            },
        };
        let mut transports: Vec<Transport> = Vec::new();
        transports.push(Transport::RawTcp);
        transports.push(Transport::Tcp);
        if scheme_is_https(plan.url.scheme.as_slice()) {
            transports.push(Transport::Tls);
        }
        assert(transports@ =~= stack_for(plan.url.scheme@));
        let ghost step = plan;
        let version: Vec<u8> = vec![72u8, 84u8, 84u8, 80u8, 47u8, 49u8, 46u8, 49u8];
        assert(version@ =~= protocol_name());
        let inner_plan: Http1PlanOutput = Http1PlanOutput {
            url: plan.url,
            method: plan.method,
            version_string: Some(version),
            add_content_length: plan.add_content_length,
            headers: plan.headers,
            body: plan.body,
            pause: plan.pause,
        };
        proof {
            lemma_header_of_step(inner_plan, step);
        }
        if header_len(&inner_plan).is_none() {
            return Err(error("request header too large"));
        }
        Ok(
            HttpRunner {
                inner: Http1Runner::new(inner_plan),
                state: HttpState::Pending,
                transports,
                host,
                port,
            },
        )
    }

    /// Gives the trace of the step its name.
    pub fn set_name(&mut self, name: String)
        requires
            old(self).wf(),
        ensures
            final(self).wf(),
            final(self).inner.out == (Http1Output { name, ..old(self).inner.out }),
            final(self).inner == (Http1Runner { out: final(self).inner.out, ..old(self).inner }),
            *final(self) == (HttpRunner { inner: final(self).inner, ..*old(self) }),
    {
        self.inner.set_name(name);
    }

    /// The plan of the lowest transport: the URL's host and port, and the
    /// fixed values of a connection that sends no packets of its own.
    pub fn raw_tcp_plan(&self) -> (p: RawTcpPlanOutput)
        ensures
            p.dest_host@ == self.host@,
            p.dest_port == self.port,
            p.src_host is None,
            p.src_port is None,
            p.isn == 0,
            p.window == 1000,
            p.segments@.len() == 0,
    {
        RawTcpPlanOutput {
            dest_host: copy_bytes(self.host.as_slice()),
            dest_port: self.port,
            src_host: None,
            src_port: None,
            isn: 0,
            window: 1000,
            segments: Vec::new(),
        }
    }

    /// The plan of the TCP stream: the URL's host and port, no body.
    pub fn tcp_plan(&self) -> (p: TcpPlanOutput)
        ensures
            p.host@ == self.host@,
            p.port == self.port,
            p.body@.len() == 0,
    {
        TcpPlanOutput { host: copy_bytes(self.host.as_slice()), port: self.port, body: Vec::new() }
    }

    /// The plan of the TLS session: the URL's host as server name, its
    /// port, `http/1.1` as the one protocol offered, no body, no pauses.
    pub fn tls_plan(&self) -> (p: TlsPlanOutput)
        ensures
            p.host@ == self.host@,
            p.port == self.port,
            p.alpn@.len() == 1,
            p.alpn@[0]@ == alpn_http11(),
            p.body@.len() == 0,
            p.pause@.len() == 0,
    {
        let name: Vec<u8> = vec![104u8, 116u8, 116u8, 112u8, 47u8, 49u8, 46u8, 49u8];
        assert(name@ =~= alpn_http11());
        let mut alpn: Vec<Vec<u8>> = Vec::new();
        alpn.push(name);
        TlsPlanOutput {
            host: copy_bytes(self.host.as_slice()),
            port: self.port,
            alpn,
            body: Vec::new(),
            pause: Vec::new(),
        }
    }

    /// The size hint as it reaches the lowest transport: the header and
    /// the hinted body. The transports add no framing of their own, so
    /// each hands the hint down as it is.
    pub fn size_hint(&mut self, size_hint: Option<usize>) -> (r: Option<usize>)
        requires
            old(self).wf(),
            old(self).state == HttpState::Pending,
            old(self).inner.state == crate::http1::State::Pending,
        ensures
            *final(self) == *old(self),
            r == Some(
                if header_bytes(old(self).inner.out.plan).len() + size_hint.unwrap_or(0)
                    <= usize::MAX {
                    (header_bytes(old(self).inner.out.plan).len() + size_hint.unwrap_or(
                        0,
                    )) as usize
                } else {
                    usize::MAX
                },
            ),
    {
        self.inner.size_hint(size_hint)
    }

    /// The size hint that the step itself starts with: the length of the
    /// planned body.
    pub fn executor_size_hint(&self) -> (r: Option<usize>)
        ensures
            r == Some(self.inner.out.plan.body@.len() as usize),
    {
        self.inner.executor_size_hint()
    }

    /// Begins the step: gives the transports to start, lowest first, each
    /// to be handed to the next as its inner. A runner that was started
    /// before refuses.
    pub fn start(&mut self) -> (r: Result<Vec<Transport>, HttpError>)
        ensures
            r is Ok <==> old(self).state == HttpState::Pending,
            r is Ok ==> r->Ok_0@ == old(self).transports@,
            r is Err ==> r->Err_0.kind@ == "configuration"@ && r->Err_0.message@
                == "invalid state to call start"@,
            *final(self) == (HttpRunner { state: HttpState::Running, ..*old(self) }),
    {
        let was: HttpState = self.state;
        self.state = HttpState::Running;
        if was != HttpState::Pending {
            return Err(error("invalid state to call start"));
        }
        let mut stack: Vec<Transport> = Vec::new();
        let mut i: usize = 0;
        while i < self.transports.len()
            invariant
                i <= self.transports@.len(),
                *self == (HttpRunner { state: HttpState::Running, ..*old(self) }),
                stack@ == self.transports@.subrange(0, i as int),
            decreases self.transports@.len() - i,
        {
            stack.push(self.transports[i]);
            assert(stack@ =~= self.transports@.subrange(0, i as int + 1));
            i += 1;
        }
        assert(stack@ =~= self.transports@);
        Ok(stack)
    }

    /// What the driver of the step does next: start the transports while
    /// they are pending, then whatever the HTTP/1 exchange asks for.
    pub fn execute(&self) -> (r: Action)
        ensures
            r == (if self.state == HttpState::Pending {
                Action::Start
            } else {
                self.inner.next_action()
            }),
    {
        if self.state == HttpState::Pending {
            Action::Start
        } else {
            self.inner.execute()
        }
    }

    /// Ends the step: the trace of the HTTP/1 exchange, finished at `now`,
    /// as the trace of the step, with `HTTP/1.1` as its protocol.
    pub fn finish(self, now: u64) -> (out: HttpOutput)
        requires
            self.wf(),
        ensures
            exists|h: Http1Output| #[trigger] self.inner.finished(now, h) && converted(h, out),
    {
        let h: Http1Output = self.inner.finish(now);
        let ghost witness = h;
        let out: HttpOutput = from_http1(h);
        assert(self.inner.finished(now, witness) && converted(witness, out));
        out
    }
}

} // verus!
