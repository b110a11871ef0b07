//! The client half of the configuration-store protocol: building requests,
//! routing what the reader receives to the reply or the watch channel, and
//! taking replies and watch events apart.
use vstd::prelude::*;
use vstd::string::StringSliceAdditionalSpecFns;
use vstd::utf8::{decode_utf8, encode_utf8, valid_utf8};
use crate::sys::text_from_bytes;
use crate::wire::{
    XenSocketMessage, XENSTORE_PAYLOAD_MAX, XS_DIRECTORY, XS_READ, XS_WATCH, XS_WATCH_EVENT,
    XS_WRITE,
};

verus! {

/// Why a store operation failed.
#[derive(Clone, Copy, Debug, PartialEq, Eq, Structural)]
pub enum StoreError {
    /// The request body would exceed the protocol's maximum payload; it was
    /// not sent.
    TooBig,
    /// A path, value or token holds a NUL byte and cannot be sent.
    InteriorNul,
    /// The reply's kind differs from the request's.
    KindMismatch,
    /// The store sent a message of a kind this client does not know.
    UnknownKind,
    /// A message body is not well-formed text, or a field of it is malformed.
    InvalidData,
    /// The watch field asked for is past the event's last field.
    FieldOutOfRange,
    /// The connection is gone: the handle was shut down or a socket read
    /// failed.
    Disconnected,
}

/// A message delivered by the reader: its kind and its body as text.
#[derive(Debug)]
pub struct XenStoreMessage {
    pub kind: u32,
    pub body: String,
}

/// A request ready for the socket: its header and its body.
#[derive(Debug)]
pub struct StoreRequest {
    pub header: XenSocketMessage,
    pub body: Vec<u8>,
}

/// `s` holds a NUL byte.
pub open spec fn has_nul(s: Seq<u8>) -> bool {
    exists|i: int| 0 <= i < s.len() && s[i] == 0
}

/// `s` followed by its NUL terminator.
pub open spec fn c_string(s: Seq<u8>) -> Seq<u8> {
    s.push(0u8)
}

/// The outcome that a request of `kind` with body `body` is owed, given the
/// strings it carries: refused when one holds a NUL, refused as too big when
/// the body exceeds the maximum payload, sent otherwise.
pub open spec fn request_outcome(
    kind: u32,
    parts: Seq<Seq<u8>>,
    body: Seq<u8>,
    r: Result<StoreRequest, StoreError>,
) -> bool {
    if exists|k: int| 0 <= k < parts.len() && has_nul(#[trigger] parts[k]) {
        r == Err::<StoreRequest, StoreError>(StoreError::InteriorNul)
    } else if body.len() > XENSTORE_PAYLOAD_MAX {
        r == Err::<StoreRequest, StoreError>(StoreError::TooBig)
    } else {
        r matches Ok(req) && req.body@ == body && req.header == XenSocketMessage {
            kind,
            req_id: 0,
            tx_id: 0,
            len: body.len() as u32,
        }
    }
}

/// Appends `s` to `out`, with a NUL terminator when `terminate` holds; says
/// whether `s` held a NUL. Stops early, with `out` unspecified, on a NUL.
fn append_field(out: &mut Vec<u8>, s: &[u8], terminate: bool) -> (had_nul: bool)
    ensures
        had_nul == has_nul(s@),
        !had_nul ==> final(out)@ == old(out)@ + if terminate {
            c_string(s@)
        } else {
            s@
        },
{
    let ghost start = out@;
    let mut i: usize = 0;
    while i < s.len()
        invariant
            i <= s@.len(),
            out@ == start + s@.subrange(0, i as int),
            forall|j: int| 0 <= j < i ==> s@[j] != 0,
        decreases s@.len() - i,
    {
        if s[i] == 0 {
            return true;
        }
        out.push(s[i]);
        i = i + 1;
        assert(out@ =~= start + s@.subrange(0, i as int));
    }
    assert(s@.subrange(0, i as int) =~= s@);
    if terminate {
        out.push(0u8);
        assert(out@ =~= start + c_string(s@));
    }
    false
}

fn finish_request(kind: u32, body: Vec<u8>) -> (r: Result<StoreRequest, StoreError>)
    ensures
        body@.len() > XENSTORE_PAYLOAD_MAX ==> r == Err::<StoreRequest, StoreError>(
            StoreError::TooBig,
        ),
        body@.len() <= XENSTORE_PAYLOAD_MAX ==> (r matches Ok(req) && req.body@ == body@
            && req.header == XenSocketMessage {
            kind,
            req_id: 0,
            tx_id: 0,
            len: body@.len() as u32,
        }),
{
    match XenSocketMessage::new(kind, body.len()) {
        Some(header) => Ok(StoreRequest { header, body }),
        None => Err(StoreError::TooBig),
    }
}

/// A request that reads the value at `path`.
pub fn read_request(path: &str) -> (r: Result<StoreRequest, StoreError>)
    ensures
        request_outcome(XS_READ, seq![path.spec_bytes()], c_string(path.spec_bytes()), r),
{
    path_request(XS_READ, path)
}

/// A request that lists the children of `path`.
pub fn directory_request(path: &str) -> (r: Result<StoreRequest, StoreError>)
    ensures
        request_outcome(XS_DIRECTORY, seq![path.spec_bytes()], c_string(path.spec_bytes()), r),
{
    path_request(XS_DIRECTORY, path)
}

fn path_request(kind: u32, path: &str) -> (r: Result<StoreRequest, StoreError>)
    ensures
        request_outcome(kind, seq![path.spec_bytes()], c_string(path.spec_bytes()), r),
{
    let mut body: Vec<u8> = Vec::new();
    let p = path.as_bytes();
    if append_field(&mut body, p, true) {
        assert(has_nul(seq![path.spec_bytes()][0]));
        return Err(StoreError::InteriorNul);
    }
    assert(body@ =~= c_string(path.spec_bytes()));
    finish_request(kind, body)
}

/// A request that writes `value` at `path`: the path goes NUL-terminated and
/// the value follows without a terminator.
pub fn write_request(path: &str, value: &str) -> (r: Result<StoreRequest, StoreError>)
    ensures
        request_outcome(
            XS_WRITE,
            seq![path.spec_bytes(), value.spec_bytes()],
            c_string(path.spec_bytes()) + value.spec_bytes(),
            r,
        ),
{
    pair_request(XS_WRITE, path, value, false)
}

/// A request that sets a watch on `path`, reported with `token`; both go
/// NUL-terminated.
pub fn watch_request(path: &str, token: &str) -> (r: Result<StoreRequest, StoreError>)
    ensures
        request_outcome(
            XS_WATCH,
            seq![path.spec_bytes(), token.spec_bytes()],
            c_string(path.spec_bytes()) + c_string(token.spec_bytes()),
            r,
        ),
{
    pair_request(XS_WATCH, path, token, true)
}

fn pair_request(kind: u32, first: &str, second: &str, terminate: bool) -> (r: Result<
    StoreRequest,
    StoreError,
>)
    ensures
        request_outcome(
            kind,
            seq![first.spec_bytes(), second.spec_bytes()],
            c_string(first.spec_bytes()) + if terminate {
                c_string(second.spec_bytes())
            } else {
                second.spec_bytes()
            },
            r,
        ),
{
    let ghost parts = seq![first.spec_bytes(), second.spec_bytes()];
    let mut body: Vec<u8> = Vec::new();
    let a = first.as_bytes();
    let b = second.as_bytes();
    if append_field(&mut body, a, true) {
        assert(has_nul(parts[0]));
        return Err(StoreError::InteriorNul);
    }
    let ghost mid = body@;
    if append_field(&mut body, b, terminate) {
        assert(has_nul(parts[1]));
        return Err(StoreError::InteriorNul);
    }
    proof {
        assert forall|k: int| 0 <= k < parts.len() implies !has_nul(#[trigger] parts[k]) by {
            if k == 0 {
                assert(parts[0] == first.spec_bytes());
            } else {
                assert(parts[1] == second.spec_bytes());
            }
        }
    }
    finish_request(kind, body)
}

impl StoreRequest {
    /// The request as it goes on the socket: header, then body.
    pub fn to_wire(&self) -> (r: Vec<u8>)
        ensures
            r@ == self.header.wire() + self.body@,
    {
        let mut out = self.header.to_bytes();
        let mut i: usize = 0;
        while i < self.body.len()
            invariant
                i <= self.body@.len(),
                out@ == self.header.wire() + self.body@.subrange(0, i as int),
            decreases self.body@.len() - i,
        {
            out.push(self.body[i]);
            i = i + 1;
            assert(out@ =~= self.header.wire() + self.body@.subrange(0, i as int));
        }
        assert(self.body@.subrange(0, i as int) =~= self.body@);
        out
    }
}

/// The store's known message kinds.
pub open spec fn known_kind(kind: u32) -> bool {
    kind == XS_READ || kind == XS_WRITE || kind == XS_WATCH || kind == XS_WATCH_EVENT || kind
        == XS_DIRECTORY
}

/// Which queue a received message goes to.
#[derive(Clone, Copy, Debug, PartialEq, Eq, Structural)]
pub enum Channel {
    /// The reply to the one outstanding request.
    Reply,
    /// An asynchronous watch event.
    Watch,
}

/// The queue a message of `kind` goes to: watch events to the watch queue,
/// everything else to the reply queue.
pub open spec fn channel_of(kind: u32) -> Channel {
    if kind == XS_WATCH_EVENT {
        Channel::Watch
    } else {
        Channel::Reply
    }
}

/// A received message and the queue it goes to.
#[derive(Debug)]
pub struct Routed {
    pub channel: Channel,
    pub message: Result<XenStoreMessage, StoreError>,
}

/// Turns a received header and its body into a message and picks its queue:
/// watch events go to the watch queue and everything else, failures
/// included, to the reply queue. An unknown kind is a transaction error and a
/// body that is not well-formed text is a data error.
pub fn route_incoming(header: XenSocketMessage, body: Vec<u8>) -> (r: Routed)
    requires
        body@.len() == header.len,
    ensures
        r.channel == channel_of(header.kind),
        !known_kind(header.kind) ==> r.message == Err::<XenStoreMessage, StoreError>(
            StoreError::UnknownKind,
        ),
        known_kind(header.kind) && !valid_utf8(body@) ==> r.message == Err::<
            XenStoreMessage,
            StoreError,
        >(StoreError::InvalidData),
        known_kind(header.kind) && valid_utf8(body@) ==> (r.message matches Ok(m) && m.kind
            == header.kind && m.body@ == decode_utf8(body@)),
{
    let kind = header.kind;
    if kind != XS_READ && kind != XS_WRITE && kind != XS_WATCH && kind != XS_WATCH_EVENT && kind
        != XS_DIRECTORY {
        return Routed { channel: Channel::Reply, message: Err(StoreError::UnknownKind) };
    }
    let channel = if kind == XS_WATCH_EVENT {
        Channel::Watch
    } else {
        Channel::Reply
    };
    let message = match text_from_bytes(body) {
        Some(text) => Ok(XenStoreMessage { kind, body: text }),
        None => Err(StoreError::InvalidData),
    };
    Routed { channel, message }
}

/// Matches the reply taken from the reply queue against the request's kind:
/// a reply of another kind is a protocol error.
pub fn check_reply(kind: u32, reply: Result<XenStoreMessage, StoreError>) -> (r: Result<
    String,
    StoreError,
>)
    ensures
        match reply {
            Ok(m) => if m.kind == kind {
                r matches Ok(body) && body@ == m.body@
            } else {
                r == Err::<String, StoreError>(StoreError::KindMismatch)
            },
            Err(e) => r == Err::<String, StoreError>(e),
        },
{
    match reply {
        Ok(m) => if m.kind == kind {
            Ok(m.body)
        } else {
            Err(StoreError::KindMismatch)
        },
        Err(e) => Err(e),
    }
}

/// Replies and watch events never cross: a watch event goes to the watch
/// queue and, taken as the reply to any request, would be refused as a reply
/// of another kind; the reply to a request goes to the reply queue, where no
/// watch event waits ahead of it.
pub proof fn replies_and_watches_isolated(request_kind: u32)
    requires
        request_kind == XS_READ || request_kind == XS_WRITE || request_kind == XS_WATCH
            || request_kind == XS_DIRECTORY,
    ensures
        channel_of(XS_WATCH_EVENT) == Channel::Watch,
        channel_of(request_kind) == Channel::Reply,
        forall|m: XenStoreMessage| m.kind == XS_WATCH_EVENT ==> m.kind != request_kind,
{
}

} // verus!

verus! {

/// The number of NUL bytes in `b`.
pub open spec fn nul_count(b: Seq<u8>) -> nat
    decreases b.len(),
{
    if b.len() == 0 {
        0
    } else {
        nul_count(b.drop_last()) + if b.last() == 0 {
            1nat
        } else {
            0nat
        }
    }
}

/// `b[start..end]` is field `k` of `b`, the fields being the pieces between
/// NUL bytes (`k` NULs come before it).
pub open spec fn is_field(b: Seq<u8>, k: nat, start: int, end: int) -> bool {
    &&& 0 <= start <= end <= b.len()
    &&& nul_count(b.subrange(0, start)) == k
    &&& (start == 0 || b[start - 1] == 0)
    &&& forall|i: int| start <= i < end ==> b[i] != 0
    &&& (end == b.len() || b[end] == 0)
}

proof fn lemma_nul_count_step(b: Seq<u8>, i: int)
    requires
        0 <= i < b.len(),
    ensures
        nul_count(b.subrange(0, i + 1)) == nul_count(b.subrange(0, i)) + if b[i] == 0 {
            1nat
        } else {
            0nat
        },
{
    assert(b.subrange(0, i + 1).drop_last() =~= b.subrange(0, i));
}

proof fn lemma_nul_count_prefix(b: Seq<u8>, n: int)
    requires
        0 <= n <= b.len(),
    ensures
        nul_count(b.subrange(0, n)) <= nul_count(b),
    decreases b.len() - n,
{
    if n < b.len() {
        lemma_nul_count_step(b, n);
        lemma_nul_count_prefix(b, n + 1);
    } else {
        assert(b.subrange(0, n) =~= b);
    }
}

proof fn lemma_nul_count_grows(b: Seq<u8>, i: int, j: int)
    requires
        0 <= i <= j <= b.len(),
    ensures
        nul_count(b.subrange(0, i)) <= nul_count(b.subrange(0, j)),
        (exists|p: int| i <= p < j && b[p] == 0) ==> nul_count(b.subrange(0, i)) < nul_count(
            b.subrange(0, j),
        ),
    decreases j - i,
{
    if i < j {
        lemma_nul_count_step(b, j - 1);
        lemma_nul_count_grows(b, i, j - 1);
        if exists|p: int| i <= p < j && b[p] == 0 {
            let p = choose|p: int| i <= p < j && b[p] == 0;
            if p < j - 1 {
                assert(i <= p < j - 1 && b[p] == 0);
            }
        }
    }
}

/// Field `k` of a byte string is one piece: where it begins and where it
/// ends are fixed by `k`.
pub proof fn field_unique(b: Seq<u8>, k: nat, s1: int, e1: int, s2: int, e2: int)
    requires
        is_field(b, k, s1, e1),
        is_field(b, k, s2, e2),
    ensures
        s1 == s2,
        e1 == e2,
{
    if s1 < s2 {
        lemma_nul_count_grows(b, s1, s2);
        assert(s1 <= s2 - 1 < s2 && b[s2 - 1] == 0);
    } else if s2 < s1 {
        lemma_nul_count_grows(b, s2, s1);
        assert(s2 <= s1 - 1 < s1 && b[s1 - 1] == 0);
    }
    if e1 < e2 {
        assert(b[e1] == 0);
    } else if e2 < e1 {
        assert(b[e2] == 0);
    }
}

/// Finds where field `k` of `b` begins and ends; `None` when `b` has fewer
/// than `k + 1` fields.
fn locate_field(b: &[u8], k: usize) -> (r: Option<(usize, usize)>)
    ensures
        match r {
            Some((s, e)) => is_field(b@, k as nat, s as int, e as int) && k <= nul_count(b@),
            None => nul_count(b@) < k,
        },
{
    let len = b.len();
    let mut i: usize = 0;
    let mut seen: usize = 0;
    assert(b@.subrange(0, 0) =~= Seq::<u8>::empty());
    while i < len && seen < k
        invariant
            i <= len,
            len == b@.len(),
            seen <= k,
            seen == nul_count(b@.subrange(0, i as int)),
            seen == k ==> (i == 0 || b@[i - 1] == 0),
        decreases len - i,
    {
        proof {
            lemma_nul_count_step(b@, i as int);
        }
        if b[i] == 0 {
            seen = seen + 1;
        }
        i = i + 1;
    }
    if seen < k {
        assert(b@.subrange(0, i as int) =~= b@);
        return None;
    }
    let start = i;
    while i < len && b[i] != 0
        invariant
            start <= i <= len,
            len == b@.len(),
            forall|j: int| start <= j < i ==> b@[j] != 0,
        decreases len - i,
    {
        i = i + 1;
    }
    proof {
        lemma_nul_count_prefix(b@, start as int);
    }
    Some((start, i))
}

fn copy_range(b: &[u8], start: usize, end: usize) -> (r: Vec<u8>)
    requires
        start <= end <= b@.len(),
    ensures
        r@ == b@.subrange(start as int, end as int),
{
    let mut out: Vec<u8> = Vec::new();
    let mut i: usize = start;
    while i < end
        invariant
            start <= i <= end <= b@.len(),
            out@ == b@.subrange(start as int, i as int),
        decreases end - i,
    {
        out.push(b[i]);
        i = i + 1;
        assert(out@ =~= b@.subrange(start as int, i as int));
    }
    out
}

/// The index of a watch event's path field.
pub const XS_WATCH_PATH: u32 = 0;

/// The index of a watch event's token field.
pub const XS_WATCH_TOKEN: u32 = 1;

/// Takes field `index` out of a watch event taken from the watch queue: the
/// event's body is cut at its NUL bytes, and an index past the last field is
/// an input error. A message of another kind there is a data error.
pub fn watch_field(event: Result<XenStoreMessage, StoreError>, index: u32) -> (r: Result<
    String,
    StoreError,
>)
    ensures
        match event {
            Err(e) => r == Err::<String, StoreError>(e),
            Ok(m) => if m.kind != XS_WATCH_EVENT {
                r == Err::<String, StoreError>(StoreError::InvalidData)
            } else if nul_count(encode_utf8(m.body@)) < index {
                r == Err::<String, StoreError>(StoreError::FieldOutOfRange)
            } else {
                exists|s: int, t: int|
                    {
                        &&& is_field(encode_utf8(m.body@), index as nat, s, t)
                        &&& valid_utf8(encode_utf8(m.body@).subrange(s, t)) ==> (r matches Ok(
                            v,
                        ) && v@ == decode_utf8(encode_utf8(m.body@).subrange(s, t)))
                        &&& !valid_utf8(encode_utf8(m.body@).subrange(s, t)) ==> r == Err::<
                            String,
                            StoreError,
                        >(StoreError::InvalidData)
                    }
            },
        },
{
    match event {
        Err(e) => Err(e),
        Ok(m) => {
            if m.kind != XS_WATCH_EVENT {
                return Err(StoreError::InvalidData);
            }
            let bytes = m.body.as_str().as_bytes();
            match locate_field(bytes, index as usize) {
                None => Err(StoreError::FieldOutOfRange),
                Some((s, e)) => {
                    let field = copy_range(bytes, s, e);
                    let r = match text_from_bytes(field) {
                        Some(t) => Ok(t),
                        None => Err(StoreError::InvalidData),
                    };
                    assert(is_field(encode_utf8(m.body@), index as nat, s as int, e as int));
                    r
                },
            }
        },
    }
}

} // verus!
