//! Page arithmetic shared by the bounce buffers and the memory mappers.
use vstd::prelude::*;

verus! {

/// log2 of the page size used by every privileged mapping.
pub const PAGE_SHIFT: u32 = 12;

/// The page size in bytes.
pub const PAGE_SIZE: u32 = 4096;

/// The smallest positive multiple of `scale` that is at least `value`.
pub open spec fn page_ceiling(value: int, scale: int) -> int {
    if value <= scale {
        scale
    } else {
        ((value - 1) / scale + 1) * scale
    }
}

proof fn lemma_ceiling_bounds(value: int, scale: int)
    requires
        scale > 0,
        value > scale,
    ensures
        ((value - 1) / scale) * scale < value,
        value <= ((value - 1) / scale + 1) * scale,
        (value - 1) / scale >= 1,
{
    let q = (value - 1) / scale;
    let r = (value - 1) % scale;
    assert(value - 1 == q * scale + r && 0 <= r < scale) by (nonlinear_arith)
        requires
            scale > 0,
            q == (value - 1) / scale,
            r == (value - 1) % scale,
    ;
    assert((q + 1) * scale == q * scale + scale) by (nonlinear_arith);
    assert(q >= 1) by (nonlinear_arith)
        requires
            value - 1 == q * scale + r,
            0 <= r < scale,
            value > scale,
    ;
}

/// Two multiples of `scale` that both sit just at or above `value` are the same.
proof fn lemma_multiple_unique(value: int, scale: int, a: int, b: int)
    requires
        scale > 0,
        (a - 1) * scale < value <= a * scale,
        (b - 1) * scale < value <= b * scale,
    ensures
        a == b,
{
    assert((a - 1) * scale < b * scale) by (nonlinear_arith)
        requires
            (a - 1) * scale < value <= b * scale,
    ;
    assert((b - 1) * scale < a * scale) by (nonlinear_arith)
        requires
            (b - 1) * scale < value <= a * scale,
    ;
    assert(a - 1 < b) by (nonlinear_arith)
        requires
            (a - 1) * scale < b * scale,
            scale > 0,
    ;
    assert(b - 1 < a) by (nonlinear_arith)
        requires
            (b - 1) * scale < a * scale,
            scale > 0,
    ;
}

proof fn lemma_ceiling_is(value: int, scale: int, k: int)
    requires
        scale > 0,
        k >= 1,
        value <= k * scale,
        k == 1 || (k - 1) * scale < value,
    ensures
        page_ceiling(value, scale) == k * scale,
{
    if value > scale {
        lemma_ceiling_bounds(value, scale);
        let q = (value - 1) / scale + 1;
        assert((q - 1) * scale < value);
        if k == 1 {
            assert(value <= scale);
        } else {
            lemma_multiple_unique(value, scale, k, q);
        }
    } else {
        if k > 1 {
            assert((k - 1) * scale >= scale) by (nonlinear_arith)
                requires
                    k > 1,
                    scale > 0,
            ;
        }
        assert(1 * scale == scale);
        if k != 1 {
            assert((k - 1) * scale >= scale) by (nonlinear_arith)
                requires
                    k > 1,
                    scale > 0,
            ;
        }
    }
}

proof fn lemma_step_below_ceiling(value: int, scale: int, k: int)
    requires
        scale > 0,
        k >= 1,
        k * scale < value,
    ensures
        (k + 1) * scale <= page_ceiling(value, scale),
{
    assert(k * scale >= scale) by (nonlinear_arith)
        requires
            k >= 1,
            scale > 0,
    ;
    lemma_ceiling_bounds(value, scale);
    let q = (value - 1) / scale + 1;
    assert(k < q) by (nonlinear_arith)
        requires
            k * scale < value,
            value <= q * scale,
            scale > 0,
    ;
    assert((k + 1) * scale <= q * scale) by (nonlinear_arith)
        requires
            k + 1 <= q,
            scale > 0,
    ;
}

/// Rounds `value` up to a whole number of `scale`-sized units; a zero `value`
/// still yields one unit, so no buffer is ever empty.
pub fn round_up(value: u64, scale: u64) -> (r: usize)
    requires
        scale > 0,
        page_ceiling(value as int, scale as int) <= usize::MAX,
    ensures
        r == page_ceiling(value as int, scale as int),
{
    let mut ceiling: u64 = scale;
    let ghost mut k: int = 1;
    proof {
        if value > scale {
            assert(1 * scale == scale);
            lemma_step_below_ceiling(value as int, scale as int, 1);
            assert(2 * scale >= scale);
        }
    }
    while ceiling < value
        invariant
            scale > 0,
            page_ceiling(value as int, scale as int) <= usize::MAX,
            k >= 1,
            ceiling == k * scale,
            k == 1 || (k - 1) * scale < value,
            ceiling <= page_ceiling(value as int, scale as int),
        decreases page_ceiling(value as int, scale as int) - ceiling,
    {
        proof {
            lemma_step_below_ceiling(value as int, scale as int, k);
            assert((k + 1) * scale == k * scale + scale) by (nonlinear_arith);
        }
        ceiling = ceiling + scale;
        proof {
            k = k + 1;
        }
    }
    proof {
        lemma_ceiling_is(value as int, scale as int, k);
    }
    ceiling as usize
}

/// A rounded-up length exceeds its input by less than one unit, or is one
/// unit.
pub proof fn lemma_page_ceiling_upper(value: int, scale: int)
    requires
        scale > 0,
        value >= 0,
    ensures
        page_ceiling(value, scale) == scale || page_ceiling(value, scale) <= value + scale - 1,
        page_ceiling(value, scale) >= scale,
{
    if value > scale {
        lemma_ceiling_bounds(value, scale);
        let q = (value - 1) / scale;
        assert((q + 1) * scale == q * scale + scale) by (nonlinear_arith);
        assert((q + 1) * scale >= scale) by (nonlinear_arith)
            requires
                q >= 1,
                scale > 0,
        ;
    }
}

/// `round_up` gives the least positive multiple of `scale` that is at least
/// `value`, and one whole unit for a zero `value`.
pub proof fn round_up_is_least_multiple(value: nat, scale: nat, m: nat)
    requires
        scale > 0,
        m > 0,
        m % scale == 0,
        m >= value,
    ensures
        page_ceiling(value as int, scale as int) % (scale as int) == 0,
        page_ceiling(value as int, scale as int) >= value,
        page_ceiling(value as int, scale as int) > 0,
        page_ceiling(value as int, scale as int) <= m,
        page_ceiling(0, scale as int) == scale,
{
    let c = page_ceiling(value as int, scale as int);
    let j = m / scale;
    assert(m == j * scale && j >= 1) by (nonlinear_arith)
        requires
            m % scale == 0,
            j == m / scale,
            scale > 0,
            m > 0,
    ;
    if value > scale {
        lemma_ceiling_bounds(value as int, scale as int);
        let q = (value - 1) / (scale as int) + 1;
        assert(c == q * scale);
        assert(c % (scale as int) == 0) by (nonlinear_arith)
            requires
                c == q * scale,
                scale > 0,
        ;
        assert(q - 1 < j) by (nonlinear_arith)
            requires
                (q - 1) * scale < value,
                value <= m,
                m == j * scale,
                scale > 0,
        ;
        assert(q * scale <= j * scale) by (nonlinear_arith)
            requires
                q <= j,
                scale > 0,
        ;
    } else {
        assert(c == scale);
        assert(scale <= m) by (nonlinear_arith)
            requires
                m == j * scale,
                j >= 1,
                scale > 0,
        ;
    }
}

} // verus!
