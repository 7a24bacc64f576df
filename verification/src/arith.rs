use vstd::prelude::*;

use vstd::arithmetic::div_mod::{
    lemma_div_is_ordered, lemma_div_multiples_vanish, lemma_multiply_divide_lt,
};
use vstd::arithmetic::mul::lemma_mul_inequality;

verus! {

/// The constant-product output is strictly smaller than the reserve it
/// is paid from: `(out_r * t) / (s + t) < out_r` whenever the in-side
/// term `s` is positive.
pub proof fn lemma_cp_out_lt_reserve(out_r: int, s: int, t: int)
    requires
        1 <= out_r,
        1 <= s,
        0 <= t,
    ensures
        (out_r * t) / (s + t) < out_r,
{
    assert(out_r * t < (s + t) * out_r) by (nonlinear_arith)
        requires
            1 <= out_r,
            1 <= s,
            0 <= t,
    ;
    lemma_multiply_divide_lt(out_r * t, s + t, out_r);
}

/// Scaling down by `(hold / whole)` with `hold <= whole` never yields
/// more than the original value: `(x * hold) / whole <= x`.
pub proof fn lemma_scale_le(x: int, hold: int, whole: int)
    requires
        0 <= x,
        0 <= hold <= whole,
        1 <= whole,
    ensures
        (x * hold) / whole <= x,
{
    lemma_mul_inequality(hold, whole, x);
    assert(x * hold == hold * x) by (nonlinear_arith);
    assert(x * whole == whole * x) by (nonlinear_arith);
    lemma_div_is_ordered(x * hold, x * whole, whole);
    lemma_div_multiples_vanish(x, whole);
    assert(whole * x == x * whole) by (nonlinear_arith);
}

/// Scaling by the full share returns the value exactly:
/// `(x * whole) / whole == x`.
pub proof fn lemma_scale_whole(x: int, whole: int)
    requires
        0 <= x,
        1 <= whole,
    ensures
        (x * whole) / whole == x,
{
    lemma_div_multiples_vanish(x, whole);
    assert(whole * x == x * whole) by (nonlinear_arith);
}

/// Scaling by a strictly smaller share strictly shrinks a positive
/// value: `hold < whole` and `x >= 1` give `(x * hold) / whole < x`.
pub proof fn lemma_scale_lt(x: int, hold: int, whole: int)
    requires
        1 <= x,
        0 <= hold < whole,
    ensures
        (x * hold) / whole < x,
{
    assert(x * hold < whole * x) by (nonlinear_arith)
        requires
            1 <= x,
            0 <= hold < whole,
    ;
    lemma_multiply_divide_lt(x * hold, whole, x);
}

} // verus!
