//! The request header of an HTTP/1 exchange, built into one buffer.

use crate::buffer::{buf_bytes, buf_limit, buf_put_slice, buf_put_u8, buf_with_capacity};
use crate::output::{AddContentLength, Http1PlanOutput};
use bytes::BytesMut;
use vstd::prelude::*;

verus! {

/// Carriage return, line feed.
pub open spec fn crlf() -> Seq<u8> {
    seq![13u8, 10u8]
}

/// The method sent when the plan names none: `GET`.
pub open spec fn default_method() -> Seq<u8> {
    seq![71u8, 69u8, 84u8]
}

/// The version sent when the plan names none: `HTTP/1.1`.
pub open spec fn default_version() -> Seq<u8> {
    seq![72u8, 84u8, 84u8, 80u8, 47u8, 49u8, 46u8, 49u8]
}

/// `Content-Length: `, as it is written on the wire.
pub open spec fn content_length_label() -> Seq<u8> {
    seq![
        67u8, 111u8, 110u8, 116u8, 101u8, 110u8, 116u8, 45u8, 76u8, 101u8, 110u8, 103u8, 116u8,
        104u8, 58u8, 32u8,
    ]
}

/// `content-length`, the header name in lower case.
pub open spec fn content_length_name() -> Seq<u8> {
    seq![
        99u8, 111u8, 110u8, 116u8, 101u8, 110u8, 116u8, 45u8, 108u8, 101u8, 110u8, 103u8, 116u8,
        104u8,
    ]
}

/// An ASCII capital becomes its small letter; every other byte stays.
pub open spec fn lower(b: u8) -> u8 {
    if 65 <= b <= 90 {
        (b + 32) as u8
    } else {
        b
    }
}

/// Whether `name` spells `content-length`, capitals and small letters alike.
pub open spec fn is_content_length(name: Seq<u8>) -> bool {
    &&& name.len() == content_length_name().len()
    &&& forall|i: int| 0 <= i < name.len() ==> lower(#[trigger] name[i]) == content_length_name()[i]
}

/// Whether one of the first `n` headers is named `content-length`.
pub open spec fn has_content_length(headers: Seq<(Vec<u8>, Vec<u8>)>, n: int) -> bool {
    exists|i: int| 0 <= i < n && i < headers.len() && is_content_length((#[trigger] headers[i]).0@)
}

/// The decimal digits of `n`, most significant first.
pub open spec fn decimal(n: nat) -> Seq<u8>
    decreases n,
{
    if n < 10 {
        seq![(48 + n) as u8]
    } else {
        decimal(n / 10).push((48 + n % 10) as u8)
    }
}

/// The first line of the request.
pub open spec fn request_line(plan: Http1PlanOutput) -> Seq<u8> {
    let method = match plan.method {
        Some(m) => m@,
        None => default_method(),
    };
    let query = match plan.url.query {
        Some(q) => seq![63u8] + q@,
        None => Seq::<u8>::empty(),
    };
    let version = match plan.version_string {
        Some(v) => v@,
        None => default_version(),
    };
    method + seq![32u8] + plan.url.path@ + query + seq![32u8] + version + crlf()
}

/// One declared header as a line: name, colon, space, value, line end.
pub open spec fn header_line(h: (Vec<u8>, Vec<u8>)) -> Seq<u8> {
    h.0@ + seq![58u8, 32u8] + h.1@ + crlf()
}

/// The lines of the first `n` declared headers, in order.
pub open spec fn header_lines(headers: Seq<(Vec<u8>, Vec<u8>)>, n: int) -> Seq<u8>
    decreases n,
{
    if n <= 0 {
        Seq::<u8>::empty()
    } else {
        header_lines(headers, n - 1) + header_line(headers[n - 1])
    }
}

/// Whether the policy adds a `Content-Length` line to this request.
pub open spec fn adds_content_length(plan: Http1PlanOutput) -> bool {
    match plan.add_content_length {
        AddContentLength::Never => false,
        AddContentLength::Always => true,
        AddContentLength::Auto => plan.body@.len() > 0 && !has_content_length(
            plan.headers@,
            plan.headers@.len() as int,
        ),
    }
}

/// The line that the policy adds, or nothing.
pub open spec fn content_length_line(plan: Http1PlanOutput) -> Seq<u8> {
    if adds_content_length(plan) {
        content_length_label() + decimal(plan.body@.len()) + crlf()
    } else {
        Seq::<u8>::empty()
    }
}

/// The whole request header: request line, the declared headers in their
/// order, the added `Content-Length` line if any, and an empty line.
pub open spec fn header_bytes(plan: Http1PlanOutput) -> Seq<u8> {
    request_line(plan) + header_lines(plan.headers@, plan.headers@.len() as int)
        + content_length_line(plan) + crlf()
}

/// The lines of the declared headers only grow with their number.
pub proof fn lemma_header_lines_grow(headers: Seq<(Vec<u8>, Vec<u8>)>, i: int, j: int)
    requires
        0 <= i <= j,
    ensures
        header_lines(headers, i).len() <= header_lines(headers, j).len(),
    decreases j - i,
{
    if i < j {
        lemma_header_lines_grow(headers, i, j - 1);
    }
}

/// The policy in words: `never` adds no line, `always` adds one whatever the
/// headers hold, and `auto` adds one exactly when the body is not empty and
/// no declared header is named `content-length` in any mix of capitals. An
/// added line carries the body's length in decimal and follows the declared
/// headers.
pub proof fn lemma_content_length_policy(plan: Http1PlanOutput)
    ensures
        plan.add_content_length == AddContentLength::Never ==> !adds_content_length(plan),
        plan.add_content_length == AddContentLength::Always ==> adds_content_length(plan),
        plan.add_content_length == AddContentLength::Auto ==> (adds_content_length(plan) <==> (
            plan.body@.len() > 0 && forall|i: int|
                0 <= i < plan.headers@.len() ==> !is_content_length((#[trigger] plan.headers@[i]).0@))),
        adds_content_length(plan) ==> header_bytes(plan) == request_line(plan) + header_lines(
            plan.headers@,
            plan.headers@.len() as int,
        ) + (content_length_label() + decimal(plan.body@.len()) + crlf()) + crlf(),
        !adds_content_length(plan) ==> header_bytes(plan) == request_line(plan) + header_lines(
            plan.headers@,
            plan.headers@.len() as int,
        ) + crlf(),
{
    if !adds_content_length(plan) {
        assert(header_bytes(plan) =~= request_line(plan) + header_lines(
            plan.headers@,
            plan.headers@.len() as int,
        ) + crlf());
    }
}

/// Whether `name` spells `content-length` in any mix of capitals.
pub fn name_is_content_length(name: &[u8]) -> (r: bool)
    ensures
        r == is_content_length(name@),
{
    let want: Vec<u8> = vec![
        99u8, 111u8, 110u8, 116u8, 101u8, 110u8, 116u8, 45u8, 108u8, 101u8, 110u8, 103u8, 116u8,
        104u8,
    ];
    assert(want@ =~= content_length_name());
    if name.len() != want.len() {
        return false;
    }
    let mut i: usize = 0;
    while i < name.len()
        invariant
            i <= name@.len(),
            name@.len() == want@.len(),
            want@ == content_length_name(),
            forall|k: int| 0 <= k < i ==> lower(#[trigger] name@[k]) == content_length_name()[k],
        decreases name@.len() - i,
    {
        let b: u8 = name[i];
        let low: u8 = if 65 <= b && b <= 90 {
            b + 32
        } else {
            b
        };
        if low != want[i] {
            assert(lower(name@[i as int]) != content_length_name()[i as int]);
            return false;
        }
        i += 1;
    }
    true
}

/// Whether one of the declared headers is named `content-length`.
pub fn headers_have_content_length(headers: &Vec<(Vec<u8>, Vec<u8>)>) -> (r: bool)
    ensures
        r == has_content_length(headers@, headers@.len() as int),
{
    let mut i: usize = 0;
    while i < headers.len()
        invariant
            i <= headers@.len(),
            !has_content_length(headers@, i as int),
        decreases headers@.len() - i,
    {
        if name_is_content_length(headers[i].0.as_slice()) {
            assert(has_content_length(headers@, headers@.len() as int));
            return true;
        }
        i += 1;
    }
    false
}

/// Whether the policy adds a `Content-Length` line to this request.
pub fn wants_content_length(plan: &Http1PlanOutput) -> (r: bool)
    ensures
        r == adds_content_length(*plan),
{
    match plan.add_content_length {
        AddContentLength::Never => false,
        AddContentLength::Always => true,
        AddContentLength::Auto => plan.body.len() > 0 && !headers_have_content_length(
            &plan.headers,
        ),
    }
}

/// Appends the decimal digits of `n` to `out`.
pub fn push_decimal(out: &mut Vec<u8>, n: usize)
    ensures
        final(out)@ == old(out)@ + decimal(n as nat),
    decreases n,
{
    if n < 10 {
        out.push(48u8 + (n as u8));
        assert(final(out)@ =~= old(out)@ + decimal(n as nat));
    } else {
        push_decimal(out, n / 10);
        let digit: u8 = (n % 10) as u8;
        out.push(48u8 + digit);
        assert(final(out)@ =~= old(out)@ + decimal(n as nat));
    }
}

/// `n` as a length, where it stays within the buffer's limit.
pub open spec fn within_limit(n: nat) -> Option<usize> {
    if n <= buf_limit() {
        Some(n as usize)
    } else {
        None
    }
}

fn add_within(a: Option<usize>, b: usize, Ghost(n): Ghost<nat>) -> (r: Option<usize>)
    requires
        a == within_limit(n),
    ensures
        r == within_limit(n + b as nat),
{
    let limit: usize = isize::MAX as usize;
    match a {
        Some(x) => if b <= limit && x <= limit - b {
            Some(x + b)
        } else {
            None
        },
        None => None,
    }
}

/// The length of the request header, or `None` where it is more than a
/// buffer can hold.
pub fn header_len(plan: &Http1PlanOutput) -> (r: Option<usize>)
    ensures
        r == within_limit(header_bytes(*plan).len()),
{
    let ghost line = request_line(*plan);
    let ghost hs = plan.headers@;
    let method_len: usize = match &plan.method {
        Some(m) => m.len(),
        None => 3,
    };
    let version_len: usize = match &plan.version_string {
        Some(v) => v.len(),
        None => 8,
    };
    let mut acc: Option<usize> = add_within(Some(0), method_len, Ghost(0));
    acc = add_within(acc, 1, Ghost(method_len as nat));
    acc = add_within(acc, plan.url.path.len(), Ghost(method_len as nat + 1));
    let ghost mut so_far: nat = method_len as nat + 1 + plan.url.path@.len();
    match &plan.url.query {
        Some(q) => {
            acc = add_within(acc, 1, Ghost(so_far));
            acc = add_within(acc, q.len(), Ghost(so_far + 1));
            proof {
                so_far = so_far + 1 + q@.len();
            }
        },
        None => {},
    }
    acc = add_within(acc, 1, Ghost(so_far));
    acc = add_within(acc, version_len, Ghost(so_far + 1));
    acc = add_within(acc, 2, Ghost(so_far + 1 + version_len as nat));
    assert(line.len() == so_far + 1 + version_len + 2);
    let mut i: usize = 0;
    while i < plan.headers.len()
        invariant
            i <= hs.len(),
            hs == plan.headers@,
            acc == within_limit(line.len() + header_lines(hs, i as int).len()),
        decreases hs.len() - i,
    {
        let ghost base: nat = line.len() + header_lines(hs, i as int).len();
        let name_len: usize = plan.headers[i].0.len();
        let value_len: usize = plan.headers[i].1.len();
        acc = add_within(acc, name_len, Ghost(base));
        acc = add_within(acc, 2, Ghost(base + name_len as nat));
        acc = add_within(acc, value_len, Ghost(base + name_len as nat + 2));
        acc = add_within(acc, 2, Ghost(base + name_len as nat + 2 + value_len as nat));
        assert(header_line(hs[i as int]).len() == name_len + 2 + value_len + 2);
        i += 1;
    }
    let ghost base: nat = line.len() + header_lines(hs, hs.len() as int).len();
    if wants_content_length(plan) {
        let mut digits: Vec<u8> = Vec::new();
        push_decimal(&mut digits, plan.body.len());
        assert(digits@ =~= decimal(plan.body@.len()));
        acc = add_within(acc, 16, Ghost(base));
        acc = add_within(acc, digits.len(), Ghost(base + 16));
        acc = add_within(acc, 2, Ghost(base + 16 + digits@.len()));
    }
    add_within(acc, 2, Ghost(base + content_length_line(*plan).len()))
}

fn put_request_line(buf: &mut BytesMut, plan: &Http1PlanOutput)
    requires
        buf_bytes(*old(buf)).len() == 0,
        request_line(*plan).len() <= buf_limit(),
    ensures
        buf_bytes(*final(buf)) == request_line(*plan),
{
    match &plan.method {
        Some(m) => buf_put_slice(buf, m.as_slice()),
        None => {
            let get: Vec<u8> = vec![71u8, 69u8, 84u8];
            buf_put_slice(buf, get.as_slice());
        },
    }
    buf_put_u8(buf, 32u8);
    buf_put_slice(buf, plan.url.path.as_slice());
    match &plan.url.query {
        Some(q) => {
            buf_put_u8(buf, 63u8);
            buf_put_slice(buf, q.as_slice());
        },
        None => {},
    }
    buf_put_u8(buf, 32u8);
    match &plan.version_string {
        Some(v) => buf_put_slice(buf, v.as_slice()),
        None => {
            let version: Vec<u8> = vec![72u8, 84u8, 84u8, 80u8, 47u8, 49u8, 46u8, 49u8];
            buf_put_slice(buf, version.as_slice());
        },
    }
    buf_put_u8(buf, 13u8);
    buf_put_u8(buf, 10u8);
    assert(buf_bytes(*buf) =~= request_line(*plan));
}

fn put_header_line(buf: &mut BytesMut, h: &(Vec<u8>, Vec<u8>))
    requires
        buf_bytes(*old(buf)).len() + header_line(*h).len() <= buf_limit(),
    ensures
        buf_bytes(*final(buf)) == buf_bytes(*old(buf)) + header_line(*h),
{
    buf_put_slice(buf, h.0.as_slice());
    buf_put_u8(buf, 58u8);
    buf_put_u8(buf, 32u8);
    buf_put_slice(buf, h.1.as_slice());
    buf_put_u8(buf, 13u8);
    buf_put_u8(buf, 10u8);
    assert(buf_bytes(*buf) =~= buf_bytes(*old(buf)) + header_line(*h));
}

fn put_content_length(buf: &mut BytesMut, plan: &Http1PlanOutput)
    requires
        buf_bytes(*old(buf)).len() + content_length_line(*plan).len() <= buf_limit(),
    ensures
        buf_bytes(*final(buf)) == buf_bytes(*old(buf)) + content_length_line(*plan),
{
    if wants_content_length(plan) {
        let mut added: Vec<u8> = vec![
            67u8, 111u8, 110u8, 116u8, 101u8, 110u8, 116u8, 45u8, 76u8, 101u8, 110u8, 103u8,
            116u8, 104u8, 58u8, 32u8,
        ];
        push_decimal(&mut added, plan.body.len());
        added.push(13u8);
        added.push(10u8);
        assert(added@ =~= content_length_line(*plan));
        buf_put_slice(buf, added.as_slice());
    } else {
        assert(buf_bytes(*buf) =~= buf_bytes(*old(buf)) + content_length_line(*plan));
    }
}

/// Builds the request header in one buffer: request line (method `GET` and
/// version `HTTP/1.1` where the plan names none), the declared headers in
/// their order with duplicates kept, the `Content-Length` line where the
/// policy adds one, and the closing empty line.
pub fn compute_header(plan: &Http1PlanOutput) -> (buf: BytesMut)
    requires
        header_bytes(*plan).len() <= buf_limit(),
    ensures
        buf_bytes(buf) == header_bytes(*plan),
{
    let ghost line = request_line(*plan);
    let ghost hs = plan.headers@;
    let ghost all_lines = header_lines(hs, hs.len() as int);
    assert(header_bytes(*plan).len() == line.len() + all_lines.len() + content_length_line(
        *plan,
    ).len() + 2);
    let capacity: usize = match header_len(plan) {
        Some(n) => n,
        None => 0,
    };
    let mut buf: BytesMut = buf_with_capacity(capacity);
    put_request_line(&mut buf, plan);
    let mut i: usize = 0;
    while i < plan.headers.len()
        invariant
            i <= hs.len(),
            hs == plan.headers@,
            all_lines == header_lines(hs, hs.len() as int),
            line.len() + all_lines.len() <= buf_limit(),
            buf_bytes(buf) == line + header_lines(hs, i as int),
        decreases hs.len() - i,
    {
        proof {
            lemma_header_lines_grow(hs, i as int + 1, hs.len() as int);
            assert(header_lines(hs, i as int + 1).len() == header_lines(hs, i as int).len()
                + header_line(hs[i as int]).len());
        }
        put_header_line(&mut buf, &plan.headers[i]);
        assert(buf_bytes(buf) =~= line + header_lines(hs, i as int + 1));
        i += 1;
    }
    put_content_length(&mut buf, plan);
    buf_put_u8(&mut buf, 13u8);
    buf_put_u8(&mut buf, 10u8);
    assert(buf_bytes(buf) =~= header_bytes(*plan));
    buf
}

} // verus!
