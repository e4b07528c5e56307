//! What the TLS layer records: the negotiated version, the plaintext moved
//! each way, and the pauses it honours.

use crate::output::{TlsPause, TlsPlanOutput};
use crate::tee::Tee;
use vstd::prelude::*;

verus! {

/// The protocol versions a session can report.
#[derive(Clone, Copy, Debug, PartialEq, Eq, Structural)]
pub enum TlsVersion {
    SSL2,
    SSL3,
    TLS1_0,
    TLS1_1,
    TLS1_2,
    TLS1_3,
    DTLS1_0,
    DTLS1_2,
    DTLS1_3,
    Other(u16),
}

/// The version that a code point on the wire stands for.
pub open spec fn version_of(code: u16) -> TlsVersion {
    if code == 0x0200 {
        TlsVersion::SSL2
    } else if code == 0x0300 {
        TlsVersion::SSL3
    } else if code == 0x0301 {
        TlsVersion::TLS1_0
    } else if code == 0x0302 {
        TlsVersion::TLS1_1
    } else if code == 0x0303 {
        TlsVersion::TLS1_2
    } else if code == 0x0304 {
        TlsVersion::TLS1_3
    } else if code == 0xFEFF {
        TlsVersion::DTLS1_0
    } else if code == 0xFEFD {
        TlsVersion::DTLS1_2
    } else if code == 0xFEFC {
        TlsVersion::DTLS1_3
    } else {
        TlsVersion::Other(code)
    }
}

impl TlsVersion {
    /// The version for a code point; one that is not known is kept as it
    /// came.
    pub fn from_code(code: u16) -> (v: TlsVersion)
        ensures
            v == version_of(code),
    {
        if code == 0x0200 {
            TlsVersion::SSL2
        } else if code == 0x0300 {
            TlsVersion::SSL3
        } else if code == 0x0301 {
            TlsVersion::TLS1_0
        } else if code == 0x0302 {
            TlsVersion::TLS1_1
        } else if code == 0x0303 {
            TlsVersion::TLS1_2
        } else if code == 0x0304 {
            TlsVersion::TLS1_3
        } else if code == 0xFEFF {
            TlsVersion::DTLS1_0
        } else if code == 0xFEFD {
            TlsVersion::DTLS1_2
        } else if code == 0xFEFC {
            TlsVersion::DTLS1_3
        } else {
            TlsVersion::Other(code)
        }
    }
}

/// The two points at which the TLS layer can pause.
#[derive(Clone, Copy, Debug, PartialEq, Eq, Structural)]
pub enum TlsPausePoint {
    /// Right after the handshake.
    Open,
    /// Right after the application body is flushed.
    RequestBody,
}

/// The name of a pause point: `open` or `request_body`.
pub open spec fn point_name(point: TlsPausePoint) -> Seq<u8> {
    match point {
        TlsPausePoint::Open => seq![111u8, 112u8, 101u8, 110u8],
        TlsPausePoint::RequestBody => seq![
            114u8, 101u8, 113u8, 117u8, 101u8, 115u8, 116u8, 95u8, 98u8, 111u8, 100u8, 121u8,
        ],
    }
}

/// The index of the first of the first `n` pauses that is named for
/// `point`, if there is one.
pub open spec fn first_at(pauses: Seq<TlsPause>, point: TlsPausePoint, n: int) -> Option<int>
    decreases n,
{
    if n <= 0 {
        None
    } else {
        match first_at(pauses, point, n - 1) {
            Some(i) => Some(i),
            None => if pauses[n - 1].after@ == point_name(point) {
                Some(n - 1)
            } else {
                None
            },
        }
    }
}

fn same_bytes(a: &[u8], b: &[u8]) -> (r: bool)
    ensures
        r == (a@ == b@),
{
    if a.len() != b.len() {
        return false;
    }
    let mut i: usize = 0;
    while i < a.len()
        invariant
            i <= a@.len(),
            a@.len() == b@.len(),
            a@.subrange(0, i as int) == b@.subrange(0, i as int),
        decreases a@.len() - i,
    {
        if a[i] != b[i] {
            assert(a@[i as int] != b@[i as int]);
            return false;
        }
        assert(a@.subrange(0, i as int + 1) =~= a@.subrange(0, i as int).push(a@[i as int]));
        assert(b@.subrange(0, i as int + 1) =~= b@.subrange(0, i as int).push(b@[i as int]));
        i += 1;
    }
    assert(a@ =~= a@.subrange(0, a@.len() as int));
    assert(b@ =~= b@.subrange(0, b@.len() as int));
    true
}

/// How long to pause at `point`: the duration of the first pause named for
/// it. Pauses under any other name are passed over.
pub fn pause_at(pauses: &Vec<TlsPause>, point: TlsPausePoint) -> (r: Option<u64>)
    ensures
        r == match first_at(pauses@, point, pauses@.len() as int) {
            Some(i) => Some(pauses@[i].duration),
            None => None,
        },
{
    let name: Vec<u8> = match point {
        TlsPausePoint::Open => vec![111u8, 112u8, 101u8, 110u8],
        TlsPausePoint::RequestBody => vec![
            114u8, 101u8, 113u8, 117u8, 101u8, 115u8, 116u8, 95u8, 98u8, 111u8, 100u8, 121u8,
        ],
    };
    assert(name@ =~= point_name(point));
    let mut i: usize = 0;
    while i < pauses.len()
        invariant
            i <= pauses@.len(),
            name@ == point_name(point),
            first_at(pauses@, point, i as int) is None,
        decreases pauses@.len() - i,
    {
        if same_bytes(pauses[i].after.as_slice(), name.as_slice()) {
            proof {
                lemma_first_stays(pauses@, point, i as int + 1, pauses@.len() as int);
            }
            return Some(pauses[i].duration);
        }
        i += 1;
    }
    None
}

/// Once a pause is found among the first `n`, it is the one found among
/// any more.
pub proof fn lemma_first_stays(pauses: Seq<TlsPause>, point: TlsPausePoint, n: int, m: int)
    requires
        0 <= n <= m,
        first_at(pauses, point, n) is Some,
    ensures
        first_at(pauses, point, m) == first_at(pauses, point, n),
    decreases m - n,
{
    if n < m {
        lemma_first_stays(pauses, point, n, m - 1);
    }
}

/// A failure of the TLS layer.
#[derive(Clone, Debug)]
pub struct TlsError {
    pub kind: String,
    pub message: String,
}

/// The trace of a TLS session.
#[derive(Clone, Debug)]
pub struct TlsOutput {
    pub plan: TlsPlanOutput,
    pub version: Option<TlsVersion>,
    pub alpn: Option<Vec<u8>>,
    pub peer_certificates: Vec<Vec<u8>>,
    pub sent: Vec<u8>,
    pub received: Vec<u8>,
    pub errors: Vec<TlsError>,
    pub duration: u64,
}

/// Where a TLS session stands.
#[derive(Clone, Copy, Debug, PartialEq, Eq, Structural)]
pub enum TlsState {
    Pending,
    Handshaking,
    Established,
    Closed,
    Failed,
}

/// The TLS layer of a stack: what was negotiated, and the plaintext that
/// passed to and from the layer above.
#[derive(Debug)]
pub struct TlsRunner {
    pub plan: TlsPlanOutput,
    pub state: TlsState,
    pub tee: Tee,
    pub version: Option<TlsVersion>,
    pub alpn: Option<Vec<u8>>,
    pub peer_certificates: Vec<Vec<u8>>,
    pub error: Option<TlsError>,
    pub start_time: Option<u64>,
}

impl TlsRunner {
    /// A session that has not begun.
    pub fn new(plan: TlsPlanOutput) -> (r: TlsRunner)
        ensures
            r.plan == plan,
            r.state == TlsState::Pending,
            r.tee.writes@.len() == 0,
            r.tee.reads@.len() == 0,
            r.version is None,
            r.alpn is None,
            r.peer_certificates@.len() == 0,
            r.error is None,
            r.start_time is None,
    {
        TlsRunner {
            plan,
            state: TlsState::Pending,
            tee: Tee::new(),
            version: None,
            alpn: None,
            peer_certificates: Vec::new(),
            error: None,
            start_time: None,
        }
    }

    /// The handshake begins.
    pub fn handshake_started(&mut self, now: u64)
        requires
            old(self).state == TlsState::Pending,
        ensures
            *final(self) == (TlsRunner {
                state: TlsState::Handshaking,
                start_time: Some(now),
                ..*old(self)
            }),
    {
        self.state = TlsState::Handshaking;
        self.start_time = Some(now);
    }

    /// The handshake is done: keeps what was negotiated, with the version
    /// by its code point. Returns how long to pause before anything else
    /// happens: the pause named `open`, if the plan has one.
    pub fn established(
        &mut self,
        version: Option<u16>,
        alpn: Option<Vec<u8>>,
        peer_certificates: Vec<Vec<u8>>,
    ) -> (pause: Option<u64>)
        requires
            old(self).state == TlsState::Handshaking,
        ensures
            *final(self) == (TlsRunner {
                state: TlsState::Established,
                version: match version {
                    Some(code) => Some(version_of(code)),
                    None => None,
                },
                alpn,
                peer_certificates,
                ..*old(self)
            }),
            pause == match first_at(
                old(self).plan.pause@,
                TlsPausePoint::Open,
                old(self).plan.pause@.len() as int,
            ) {
                Some(i) => Some(old(self).plan.pause@[i].duration),
                None => None,
            },
    {
        self.state = TlsState::Established;
        self.version = match version {
            Some(code) => Some(TlsVersion::from_code(code)),
            None => None,
        };
        self.alpn = alpn;
        self.peer_certificates = peer_certificates;
        pause_at(&self.plan.pause, TlsPausePoint::Open)
    }

    /// The handshake failed: the session is over, with a `tls` error.
    pub fn handshake_failed(&mut self, message: String)
        requires
            old(self).state == TlsState::Handshaking,
        ensures
            final(self).error is Some,
            final(self).error->0.kind@ == "tls"@,
            final(self).error->0.message == message,
            *final(self) == (TlsRunner {
                state: TlsState::Failed,
                error: final(self).error,
                ..*old(self)
            }),
    {
        self.state = TlsState::Failed;
        self.error = Some(TlsError { kind: "tls".to_owned(), message });
    }

    /// The layer above wrote `buf`, of which the first `accepted` bytes
    /// were taken.
    pub fn wrote(&mut self, buf: &[u8], accepted: usize)
        requires
            old(self).state == TlsState::Established,
        ensures
            final(self).tee.writes@ == old(self).tee.writes@ + buf@.subrange(
                0,
                if accepted <= buf@.len() {
                    accepted as int
                } else {
                    buf@.len() as int
                },
            ),
            final(self).tee.reads == old(self).tee.reads,
            *final(self) == (TlsRunner { tee: final(self).tee, ..*old(self) }),
    {
        self.tee.wrote(buf, accepted);
    }

    /// The layer above read `filled`.
    pub fn read(&mut self, filled: &[u8])
        requires
            old(self).state == TlsState::Established,
        ensures
            final(self).tee.reads@ == old(self).tee.reads@ + filled@,
            final(self).tee.writes == old(self).tee.writes,
            *final(self) == (TlsRunner { tee: final(self).tee, ..*old(self) }),
    {
        self.tee.read(filled);
    }

    /// How long to pause once the application body is flushed: the pause
    /// named `request_body`, if the plan has one.
    pub fn body_flushed(&self) -> (pause: Option<u64>)
        ensures
            pause == match first_at(
                self.plan.pause@,
                TlsPausePoint::RequestBody,
                self.plan.pause@.len() as int,
            ) {
                Some(i) => Some(self.plan.pause@[i].duration),
                None => None,
            },
    {
        pause_at(&self.plan.pause, TlsPausePoint::RequestBody)
    }

    /// The session was closed.
    pub fn closed(&mut self)
        requires
            old(self).state == TlsState::Established,
        ensures
            *final(self) == (TlsRunner { state: TlsState::Closed, ..*old(self) }),
    {
        self.state = TlsState::Closed;
    }

    /// Ends the session and hands out its trace: the version, the selected
    /// protocol, the peer's certificates, the plaintext sent and received,
    /// and the time since the handshake began. A session that failed has
    /// its error on the trace; one that ends without a version, and without
    /// another error, has that as its error.
    pub fn finish(self, now: u64) -> (out: TlsOutput)
        ensures
            out.plan == self.plan,
            out.version == self.version,
            out.alpn == self.alpn,
            out.peer_certificates == self.peer_certificates,
            out.sent == self.tee.writes,
            out.received == self.tee.reads,
            out.duration == match self.start_time {
                Some(s) => if now >= s {
                    (now - s) as u64
                } else {
                    0
                },
                None => 0,
            },
            match self.error {
                Some(e) => out.errors@ == seq![e],
                None => if self.version is Some {
                    out.errors@.len() == 0
                } else {
                    out.errors@.len() == 1 && out.errors@[0].kind@ == "tls"@
                        && out.errors@[0].message@ == "finished before version established"@
                },
            },
    {
        let mut errors: Vec<TlsError> = Vec::new();
        match self.error {
            Some(e) => errors.push(e),
            None => if self.version.is_none() {
                errors.push(
                    TlsError {
                        kind: "tls".to_owned(),
                        message: "finished before version established".to_owned(),
                    },
                );
            },
        }
        let duration: u64 = match self.start_time {
            Some(s) => if now >= s {
                now - s
            } else {
                0
            },
            None => 0,
        };
        let parts: (Vec<u8>, Vec<u8>) = self.tee.into_parts();
        TlsOutput {
            plan: self.plan,
            version: self.version,
            alpn: self.alpn,
            peer_certificates: self.peer_certificates,
            sent: parts.0,
            received: parts.1,
            errors,
            duration,
        }
    }
}

} // verus!
