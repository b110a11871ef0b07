//! Reading a directory reply: the names of a path's children, NUL-separated,
//! each a decimal number (the store lists domains and devices by id).
use vstd::prelude::*;
use vstd::utf8::encode_utf8;
use crate::store::StoreError;

verus! {

/// The value of the decimal digits `d`.
pub open spec fn digits_value(d: Seq<u8>) -> int
    decreases d.len(),
{
    if d.len() == 0 {
        0
    } else {
        digits_value(d.drop_last()) * 10 + (d.last() - 48)
    }
}

/// `d` is one or more ASCII digits.
pub open spec fn is_digits(d: Seq<u8>) -> bool {
    d.len() > 0 && forall|i: int| 0 <= i < d.len() ==> 48 <= #[trigger] d[i] <= 57
}

/// The `i32` that `f` spells in decimal, with an optional leading `+` or
/// `-`, as `str::parse::<i32>` reads it; `None` when `f` spells none.
pub open spec fn parse_i32(f: Seq<u8>) -> Option<i32> {
    if f.len() > 0 && (f[0] == 45 || f[0] == 43) {
        let d = f.drop_first();
        let v = if f[0] == 45 {
            -digits_value(d)
        } else {
            digits_value(d)
        };
        if is_digits(d) && i32::MIN <= v <= i32::MAX {
            Some(v as i32)
        } else {
            None
        }
    } else if is_digits(f) && digits_value(f) <= i32::MAX {
        Some(digits_value(f) as i32)
    } else {
        None
    }
}

/// Reading `b` left to right: the non-empty names finished so far, and the
/// name being read.
pub open spec fn dir_scan(b: Seq<u8>) -> (Seq<Seq<u8>>, Seq<u8>)
    decreases b.len(),
{
    if b.len() == 0 {
        (Seq::empty(), Seq::empty())
    } else {
        let (done, cur) = dir_scan(b.drop_last());
        if b.last() == 0 {
            (
                if cur.len() > 0 {
                    done.push(cur)
                } else {
                    done
                },
                Seq::empty(),
            )
        } else {
            (done, cur.push(b.last()))
        }
    }
}

/// The non-empty NUL-separated names in `b`, in order.
pub open spec fn dir_entries(b: Seq<u8>) -> Seq<Seq<u8>> {
    let (done, cur) = dir_scan(b);
    if cur.len() > 0 {
        done.push(cur)
    } else {
        done
    }
}

proof fn lemma_digits_step(b: Seq<u8>, s: int, i: int)
    requires
        0 <= s <= i < b.len(),
    ensures
        digits_value(b.subrange(s, i + 1)) == digits_value(b.subrange(s, i)) * 10 + (b[i] - 48),
{
    assert(b.subrange(s, i + 1).drop_last() =~= b.subrange(s, i));
}

/// The limit past which no digit string gives an `i32`: `-i32::MIN`.
const DIGITS_LIMIT: i64 = 2147483648;

/// Reads the decimal digits `b[s..e]`; the value, held at one past the
/// limit once it passes it, or `None` when a byte is not a digit or there is
/// none.
fn read_digits(b: &[u8], s: usize, e: usize) -> (r: Option<i64>)
    requires
        s <= e <= b@.len(),
    ensures
        !is_digits(b@.subrange(s as int, e as int)) ==> r is None,
        is_digits(b@.subrange(s as int, e as int)) ==> r == Some(
            if digits_value(b@.subrange(s as int, e as int)) > DIGITS_LIMIT {
                DIGITS_LIMIT + 1
            } else {
                digits_value(b@.subrange(s as int, e as int))
            } as i64,
        ),
        r matches Some(a) ==> 0 <= a <= DIGITS_LIMIT + 1,
        r is Some ==> digits_value(b@.subrange(s as int, e as int)) >= 0,
{
    if s == e {
        return None;
    }
    let mut acc: i64 = 0;
    let mut i: usize = s;
    assert(b@.subrange(s as int, s as int) =~= Seq::<u8>::empty());
    while i < e
        invariant
            s <= i <= e <= b@.len(),
            forall|j: int| s <= j < i ==> 48 <= #[trigger] b@[j] <= 57,
            digits_value(b@.subrange(s as int, i as int)) >= 0,
            acc == if digits_value(b@.subrange(s as int, i as int)) > DIGITS_LIMIT {
                DIGITS_LIMIT + 1
            } else {
                digits_value(b@.subrange(s as int, i as int))
            },
        decreases e - i,
    {
        let c = b[i];
        if c < 48 || c > 57 {
            assert(b@.subrange(s as int, e as int)[i - s] == c);
            return None;
        }
        proof {
            lemma_digits_step(b@, s as int, i as int);
        }
        if acc > DIGITS_LIMIT {
            acc = DIGITS_LIMIT + 1;
        } else {
            acc = acc * 10 + (c - 48) as i64;
            if acc > DIGITS_LIMIT {
                acc = DIGITS_LIMIT + 1;
            }
        }
        i = i + 1;
    }
    proof {
        let d = b@.subrange(s as int, e as int);
        assert forall|j: int| 0 <= j < d.len() implies 48 <= #[trigger] d[j] <= 57 by {
            assert(d[j] == b@[s + j]);
        }
    }
    Some(acc)
}

/// Reads `b[s..e]` as a decimal `i32`, as `str::parse::<i32>` does.
fn parse_field(b: &[u8], s: usize, e: usize) -> (r: Option<i32>)
    requires
        s <= e <= b@.len(),
    ensures
        r == parse_i32(b@.subrange(s as int, e as int)),
{
    let ghost f = b@.subrange(s as int, e as int);
    if s < e && (b[s] == 45 || b[s] == 43) {
        let ghost d = b@.subrange(s + 1, e as int);
        assert(f[0] == b@[s as int]);
        assert(f.drop_first() =~= d);
        let digits = read_digits(b, s + 1, e);
        match digits {
            None => {
                assert(!is_digits(d));
                None
            },
            Some(acc) => {
                assert(is_digits(d));
                if b[s] == 45 {
                    if acc <= DIGITS_LIMIT {
                        assert(acc == digits_value(d));
                        assert(parse_i32(f) == Some((-digits_value(d)) as i32));
                        Some((-acc) as i32)
                    } else {
                        assert(digits_value(d) > DIGITS_LIMIT);
                        None
                    }
                } else if acc < DIGITS_LIMIT {
                    assert(parse_i32(f) == Some(digits_value(d) as i32));
                    Some(acc as i32)
                } else {
                    None
                }
            },
        }
    } else {
        if s < e {
            assert(f[0] == b@[s as int]);
        }
        match read_digits(b, s, e) {
            None => None,
            Some(acc) => if acc < DIGITS_LIMIT {
                Some(acc as i32)
            } else {
                None
            },
        }
    }
}

/// The children of a directory reply: its non-empty NUL-separated names,
/// each read as a decimal `i32`. A name that is not one is a data error.
pub fn parse_directory(body: &str) -> (r: Result<Vec<i32>, StoreError>)
    ensures
        (forall|k: int|
            0 <= k < dir_entries(encode_utf8(body@)).len() ==> (#[trigger] parse_i32(
                dir_entries(encode_utf8(body@))[k],
            )) is Some) ==> (r matches Ok(v) && v@.len() == dir_entries(encode_utf8(body@)).len()
            && forall|k: int|
            0 <= k < v@.len() ==> Some(#[trigger] v@[k]) == parse_i32(
                dir_entries(encode_utf8(body@))[k],
            )),
        !(forall|k: int|
            0 <= k < dir_entries(encode_utf8(body@)).len() ==> (#[trigger] parse_i32(
                dir_entries(encode_utf8(body@))[k],
            )) is Some) ==> r == Err::<Vec<i32>, StoreError>(StoreError::InvalidData),
{
    let b = body.as_bytes();
    let ghost bs = b@;
    assert(bs == encode_utf8(body@));
    let len = b.len();
    let mut parsed: Vec<Option<i32>> = Vec::new();
    let mut start: usize = 0;
    let mut i: usize = 0;
    assert(bs.subrange(0, 0) =~= Seq::<u8>::empty());
    while i < len
        invariant
            start <= i <= len,
            len == bs.len(),
            b@ == bs,
            dir_scan(bs.subrange(0, i as int)).1 == bs.subrange(start as int, i as int),
            parsed@.len() == dir_scan(bs.subrange(0, i as int)).0.len(),
            forall|k: int|
                0 <= k < parsed@.len() ==> #[trigger] parsed@[k] == parse_i32(
                    dir_scan(bs.subrange(0, i as int)).0[k],
                ),
        decreases len - i,
    {
        let ghost before = dir_scan(bs.subrange(0, i as int));
        assert(bs.subrange(0, i + 1).drop_last() =~= bs.subrange(0, i as int));
        if b[i] == 0 {
            if i > start {
                let v = parse_field(b, start, i);
                parsed.push(v);
            }
            start = i + 1;
            assert(bs.subrange(start as int, i + 1) =~= Seq::<u8>::empty());
        } else {
            assert(bs.subrange(start as int, i + 1) =~= bs.subrange(start as int, i as int).push(
                bs[i as int],
            ));
        }
        i = i + 1;
    }
    assert(bs.subrange(0, len as int) =~= bs);
    if len > start {
        let v = parse_field(b, start, len);
        parsed.push(v);
    }
    let ghost es = dir_entries(bs);
    assert(parsed@.len() == es.len());
    assert(forall|k: int| 0 <= k < parsed@.len() ==> #[trigger] parsed@[k] == parse_i32(es[k]));
    let mut out: Vec<i32> = Vec::new();
    let mut k: usize = 0;
    while k < parsed.len()
        invariant
            k <= parsed@.len(),
            es == dir_entries(encode_utf8(body@)),
            parsed@.len() == es.len(),
            forall|j: int| 0 <= j < parsed@.len() ==> #[trigger] parsed@[j] == parse_i32(es[j]),
            out@.len() == k,
            forall|j: int| 0 <= j < k ==> Some(#[trigger] out@[j]) == parse_i32(es[j]),
            forall|j: int| 0 <= j < k ==> (#[trigger] parse_i32(es[j])) is Some,
        decreases parsed@.len() - k,
    {
        match parsed[k] {
            Some(v) => out.push(v),
            None => {
                assert(parse_i32(es[k as int]) is None);
                return Err(StoreError::InvalidData);
            },
        }
        k = k + 1;
    }
    Ok(out)
}

} // verus!
