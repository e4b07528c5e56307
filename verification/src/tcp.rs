//! The TCP byte stream of a stack: what it moved, and how it failed.

use crate::output::{TcpError, TcpOutput, TcpPlanOutput};
use crate::tee::Tee;
use vstd::prelude::*;

verus! {

/// Where a TCP transport stands.
#[derive(Clone, Copy, Debug, PartialEq, Eq, Structural)]
pub enum TcpState {
    Pending,
    Started,
    StartFailed,
}

/// What went wrong on a TCP transport.
#[derive(Clone, Copy, Debug, PartialEq, Eq, Structural)]
pub enum TcpFailure {
    /// The host's name could not be resolved.
    Resolve,
    /// No connection could be made.
    Connect,
    /// A read or write failed on the connection.
    Io,
}

/// The kind under which a failure is reported.
pub open spec fn kind_of(failure: TcpFailure) -> Seq<char> {
    match failure {
        TcpFailure::Resolve => "resolve"@,
        TcpFailure::Connect => "connect"@,
        TcpFailure::Io => "io"@,
    }
}

/// A TCP transport: a plan, the bytes moved so far, the failures so far.
#[derive(Debug)]
pub struct TcpRunner {
    pub plan: TcpPlanOutput,
    pub state: TcpState,
    pub tee: Tee,
    pub errors: Vec<TcpError>,
    pub start_time: Option<u64>,
}

fn tcp_error(failure: TcpFailure, message: String) -> (e: TcpError)
    ensures
        e.kind@ == kind_of(failure),
        e.message == message,
{
    let kind: String = match failure {
        TcpFailure::Resolve => "resolve".to_owned(),
        TcpFailure::Connect => "connect".to_owned(),
        TcpFailure::Io => "io".to_owned(),
    };
    TcpError { kind, message }
}

impl TcpRunner {
    /// A transport that is not started.
    pub fn new(plan: TcpPlanOutput) -> (r: TcpRunner)
        ensures
            r.plan == plan,
            r.state == TcpState::Pending,
            r.tee.writes@.len() == 0,
            r.tee.reads@.len() == 0,
            r.errors@.len() == 0,
            r.start_time is None,
    {
        TcpRunner {
            plan,
            state: TcpState::Pending,
            tee: Tee::new(),
            errors: Vec::new(),
            start_time: None,
        }
    }

    /// The connection is up. Nothing is read or written before this.
    pub fn started(&mut self, now: u64)
        requires
            old(self).state == TcpState::Pending,
        ensures
            *final(self) == (TcpRunner {
                state: TcpState::Started,
                start_time: Some(now),
                ..*old(self)
            }),
    {
        self.state = TcpState::Started;
        self.start_time = Some(now);
    }

    /// The transport could not be started: resolving or connecting failed.
    pub fn start_failed(&mut self, failure: TcpFailure, message: String)
        requires
            old(self).state == TcpState::Pending,
        ensures
            final(self).errors@.len() == old(self).errors@.len() + 1,
            final(self).errors@.subrange(0, old(self).errors@.len() as int) == old(self).errors@,
            final(self).errors@.last().kind@ == kind_of(failure),
            final(self).errors@.last().message == message,
            *final(self) == (TcpRunner {
                state: TcpState::StartFailed,
                errors: final(self).errors,
                ..*old(self)
            }),
    {
        self.state = TcpState::StartFailed;
        self.errors.push(tcp_error(failure, message));
        assert(self.errors@.subrange(0, old(self).errors@.len() as int) =~= old(self).errors@);
    }

    /// A read or write failed on the connection. What moved before stays
    /// on record.
    pub fn io_failed(&mut self, message: String)
        requires
            old(self).state == TcpState::Started,
        ensures
            final(self).errors@.len() == old(self).errors@.len() + 1,
            final(self).errors@.subrange(0, old(self).errors@.len() as int) == old(self).errors@,
            final(self).errors@.last().kind@ == "io"@,
            final(self).errors@.last().message == message,
            *final(self) == (TcpRunner { errors: final(self).errors, ..*old(self) }),
    {
        self.errors.push(tcp_error(TcpFailure::Io, message));
        assert(self.errors@.subrange(0, old(self).errors@.len() as int) =~= old(self).errors@);
    }

    /// The layer above wrote `buf`, of which the first `accepted` bytes
    /// were taken.
    pub fn wrote(&mut self, buf: &[u8], accepted: usize)
        requires
            old(self).state == TcpState::Started,
        ensures
            final(self).tee.writes@ == old(self).tee.writes@ + buf@.subrange(
                0,
                if accepted <= buf@.len() {
                    accepted as int
                } else {
                    buf@.len() as int
                },
            ),
            final(self).tee.reads == old(self).tee.reads,
            *final(self) == (TcpRunner { tee: final(self).tee, ..*old(self) }),
    {
        self.tee.wrote(buf, accepted);
    }

    /// The layer above read `filled`.
    pub fn read(&mut self, filled: &[u8])
        requires
            old(self).state == TcpState::Started,
        ensures
            final(self).tee.reads@ == old(self).tee.reads@ + filled@,
            final(self).tee.writes == old(self).tee.writes,
            *final(self) == (TcpRunner { tee: final(self).tee, ..*old(self) }),
    {
        self.tee.read(filled);
    }

    /// Ends the transport and hands out its trace. One that was started
    /// gives the bytes moved each way and the time since its start; one
    /// that was not gives neither, only its errors.
    pub fn finish(self, now: u64) -> (out: TcpOutput)
        ensures
            out.plan == self.plan,
            out.errors == self.errors,
            self.state == TcpState::Started ==> {
                &&& out.sent == Some(self.tee.writes)
                &&& out.received == Some(self.tee.reads)
                &&& out.duration == match self.start_time {
                    Some(s) => if now >= s {
                        (now - s) as u64
                    } else {
                        0
                    },
                    None => 0,
                }
            },
            self.state != TcpState::Started ==> out.sent is None && out.received is None
                && out.duration == 0,
    {
        if self.state != TcpState::Started {
            return TcpOutput {
                plan: self.plan,
                sent: None,
                received: None,
                errors: self.errors,
                duration: 0,
            };
        }
        let duration: u64 = match self.start_time {
            Some(s) => if now >= s {
                now - s
            } else {
                0
            },
            None => 0,
        };
        let parts: (Vec<u8>, Vec<u8>) = self.tee.into_parts();
        TcpOutput {
            plan: self.plan,
            sent: Some(parts.0),
            received: Some(parts.1),
            errors: self.errors,
            duration,
        }
    }
}

} // verus!
