//! The head of an HTTP/1 response, as the `httparse` crate reads it.

use crate::output::pairs_view;
use vstd::prelude::*;

verus! {

/// How far the parser got.
#[derive(Clone, Debug)]
pub enum HeadStatus {
    /// The bytes so far are a proper beginning of a head.
    Partial,
    /// The head is whole; the body begins at this index.
    Complete(usize),
    /// The bytes are no head; the parser's own words say why.
    Malformed(String),
}

/// What the parser found in a buffer.
#[derive(Clone, Debug)]
pub struct ParsedHead {
    pub status: HeadStatus,
    pub minor_version: Option<u8>,
    pub code: Option<u16>,
    pub reason: Option<Vec<u8>>,
    pub headers: Vec<(Vec<u8>, Vec<u8>)>,
}

/// `HeadStatus` as a value.
pub enum HeadStatusView {
    Partial,
    Complete(usize),
    Malformed(Seq<char>),
}

/// `ParsedHead` as a value.
pub struct ParsedHeadView {
    pub status: HeadStatusView,
    pub minor_version: Option<u8>,
    pub code: Option<u16>,
    pub reason: Option<Seq<u8>>,
    pub headers: Seq<(Seq<u8>, Seq<u8>)>,
}

impl View for HeadStatus {
    type V = HeadStatusView;

    open spec fn view(&self) -> HeadStatusView {
        match *self {
            HeadStatus::Partial => HeadStatusView::Partial,
            HeadStatus::Complete(n) => HeadStatusView::Complete(n),
            HeadStatus::Malformed(m) => HeadStatusView::Malformed(m@),
        }
    }
}

impl View for ParsedHead {
    type V = ParsedHeadView;

    open spec fn view(&self) -> ParsedHeadView {
        ParsedHeadView {
            status: self.status@,
            minor_version: self.minor_version,
            code: self.code,
            reason: match self.reason {
                Some(r) => Some(r@),
                None => None,
            },
            headers: pairs_view(self.headers@),
        }
    }
}

/// What `httparse` makes of `buf` as the beginning of a response, with
/// room for `slots` headers.
pub uninterp spec fn parsed_head(buf: Seq<u8>, slots: usize) -> ParsedHeadView;

/// `httparse::Response::parse` with `slots` empty header slots and the
/// crate's default settings. The parser reads nothing but `buf` and the
/// number of slots, so its findings are a function of the two; the contract
/// names that function and says no more of it. The fields are handed over
/// as the parser left them: status line parts, the header slots, and how
/// far it got. An error is given by its `Display` text. The bound on
/// `slots` keeps the slots within what can be allocated.
#[verifier::external_body]
pub(crate) fn parse_head(buf: &[u8], slots: usize) -> (r: ParsedHead)
    requires
        slots <= 65535,
    ensures
        r@ == parsed_head(buf@, slots),
{
    let mut room = Vec::new();
    room.resize(slots, httparse::EMPTY_HEADER);
    let mut resp = httparse::Response::new(&mut room);
    let status = match resp.parse(buf) {
        Ok(httparse::Status::Complete(n)) => HeadStatus::Complete(n),
        Ok(httparse::Status::Partial) => HeadStatus::Partial,
        Err(e) => HeadStatus::Malformed(e.to_string()),
    };
    let reason = resp.reason.map(|r| r.as_bytes().to_vec());
    let headers = resp.headers.iter().map(|h| (h.name.as_bytes().to_vec(), h.value.to_vec()));
    ParsedHead { status, minor_version: resp.version, code: resp.code, reason, headers: headers.collect() }
}

} // verus!
