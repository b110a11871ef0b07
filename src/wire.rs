//! The configuration store's message header and its byte layout.
use vstd::prelude::*;

verus! {

/// Message kind: list the children of a path.
pub const XS_DIRECTORY: u32 = 1;

/// Message kind: read the value at a path.
pub const XS_READ: u32 = 2;

/// Message kind: subscribe to changes under a path.
pub const XS_WATCH: u32 = 4;

/// Message kind: write the value at a path.
pub const XS_WRITE: u32 = 11;

/// Message kind: an asynchronous change notification for a watch.
pub const XS_WATCH_EVENT: u32 = 15;

/// The largest message body the protocol carries.
pub const XENSTORE_PAYLOAD_MAX: u32 = 4096;

/// The size of a message header on the wire.
pub const HEADER_LEN: usize = 16;

/// The four bytes of `v`, least significant first, as the store's hosts
/// (x86-64 and AArch64) lay out a `u32`.
pub open spec fn le32(v: u32) -> Seq<u8> {
    seq![(v % 256) as u8, ((v / 256) % 256) as u8, ((v / 65536) % 256) as u8, (v / 16777216) as u8]
}

/// The `u32` held least significant first in `b[at..at + 4]`.
pub open spec fn le32_at(b: Seq<u8>, at: int) -> u32 {
    (b[at] + b[at + 1] * 256 + b[at + 2] * 65536 + b[at + 3] * 16777216) as u32
}

/// A message header: kind, request id, transaction id and body length.
#[derive(Clone, Copy, Debug, PartialEq, Eq, Structural)]
pub struct XenSocketMessage {
    pub kind: u32,
    pub req_id: u32,
    pub tx_id: u32,
    pub len: u32,
}

fn put_le32(out: &mut Vec<u8>, v: u32)
    ensures
        final(out)@ == old(out)@ + le32(v),
{
    out.push((v % 256) as u8);
    out.push(((v / 256) % 256) as u8);
    out.push(((v / 65536) % 256) as u8);
    out.push((v / 16777216) as u8);
    assert(final(out)@ =~= old(out)@ + le32(v));
}

fn get_le32(b: &[u8], at: usize) -> (r: u32)
    requires
        at + 4 <= b@.len(),
    ensures
        r == le32_at(b@, at as int),
{
    b[at] as u32 + b[at + 1] as u32 * 256 + b[at + 2] as u32 * 65536 + b[at + 3] as u32 * 16777216
}

proof fn lemma_le32_round_trip(v: u32)
    ensures
        le32_at(le32(v), 0) == v,
{
    let b = le32(v);
    let a = v / 256;
    let c = a / 256;
    let d = c / 256;
    assert(v == a * 256 + v % 256);
    assert(a == c * 256 + a % 256);
    assert(c == d * 256 + c % 256);
    assert(v / 65536 == c);
    assert(v / 16777216 == d);
    assert(d < 256);
}

impl XenSocketMessage {
    /// The header's sixteen bytes: kind, request id, transaction id, length.
    pub open spec fn wire(self) -> Seq<u8> {
        le32(self.kind) + le32(self.req_id) + le32(self.tx_id) + le32(self.len)
    }

    /// The header of a request of `kind` whose body is `body_len` bytes long,
    /// refused when the body exceeds the protocol's maximum payload.
    pub fn new(kind: u32, body_len: usize) -> (r: Option<XenSocketMessage>)
        ensures
            body_len > XENSTORE_PAYLOAD_MAX ==> r is None,
            body_len <= XENSTORE_PAYLOAD_MAX ==> r == Some(
                XenSocketMessage { kind, req_id: 0, tx_id: 0, len: body_len as u32 },
            ),
    {
        if body_len > XENSTORE_PAYLOAD_MAX as usize {
            None
        } else {
            Some(XenSocketMessage { kind, req_id: 0, tx_id: 0, len: body_len as u32 })
        }
    }

    /// The header as it goes on the wire.
    pub fn to_bytes(&self) -> (r: Vec<u8>)
        ensures
            r@ == self.wire(),
            r@.len() == HEADER_LEN,
    {
        let mut out: Vec<u8> = Vec::new();
        put_le32(&mut out, self.kind);
        put_le32(&mut out, self.req_id);
        put_le32(&mut out, self.tx_id);
        put_le32(&mut out, self.len);
        out
    }

    /// Reads a header from its sixteen wire bytes.
    pub fn from_bytes(b: &[u8]) -> (r: XenSocketMessage)
        requires
            b@.len() == HEADER_LEN,
        ensures
            r.kind == le32_at(b@, 0),
            r.req_id == le32_at(b@, 4),
            r.tx_id == le32_at(b@, 8),
            r.len == le32_at(b@, 12),
    {
        XenSocketMessage {
            kind: get_le32(b, 0),
            req_id: get_le32(b, 4),
            tx_id: get_le32(b, 8),
            len: get_le32(b, 12),
        }
    }
}

/// Reading back the bytes of a header gives the same header.
pub proof fn header_round_trip(h: XenSocketMessage)
    ensures
        le32_at(h.wire(), 0) == h.kind,
        le32_at(h.wire(), 4) == h.req_id,
        le32_at(h.wire(), 8) == h.tx_id,
        le32_at(h.wire(), 12) == h.len,
{
    let w = h.wire();
    lemma_le32_round_trip(h.kind);
    lemma_le32_round_trip(h.req_id);
    lemma_le32_round_trip(h.tx_id);
    lemma_le32_round_trip(h.len);
    assert(w.subrange(0, 4) =~= le32(h.kind));
    assert(w.subrange(4, 8) =~= le32(h.req_id));
    assert(w.subrange(8, 12) =~= le32(h.tx_id));
    assert(w.subrange(12, 16) =~= le32(h.len));
    assert(le32_at(w, 4) == le32_at(w.subrange(4, 8), 0));
    assert(le32_at(w, 8) == le32_at(w.subrange(8, 12), 0));
    assert(le32_at(w, 12) == le32_at(w.subrange(12, 16), 0));
}

} // verus!
