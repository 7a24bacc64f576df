use vstd::prelude::*;

use crate::arith::lemma_cp_out_lt_reserve;
use crate::{PoolReserves, Ratio, SwapDirection, SwapError, VenueKind};

verus! {

/// The fixed-layout state of a bonding-curve account: virtual and real
/// reserves, the minted supply, and the completion flag that marks
/// migration to the pool venue.
#[derive(Clone, Copy, Debug, PartialEq, Eq, Structural)]
pub struct CurveAccount {
    pub virtual_base: u64,
    pub virtual_quote: u64,
    pub real_base: u64,
    pub real_quote: u64,
    pub total_supply: u64,
    pub complete: bool,
}

/// Pricing on a curve is driven by the effective base reserve:
/// virtual plus real.
pub open spec fn eff_base(c: CurveAccount) -> int {
    c.virtual_base + c.real_base
}

/// The effective quote reserve: virtual plus real.
pub open spec fn eff_quote(c: CurveAccount) -> int {
    c.virtual_quote + c.real_quote
}

/// Effective reserves the pricing formulas accept: nonzero and within
/// 64 bits, so the constant-product arithmetic stays within 128 bits.
pub open spec fn curve_in_range(c: CurveAccount) -> bool {
    &&& 1 <= eff_base(c) <= u64::MAX
    &&& 1 <= eff_quote(c) <= u64::MAX
}

/// The reserve the trade pays into: quote for a buy, base for a sell.
pub open spec fn in_reserve(c: CurveAccount, d: SwapDirection) -> int {
    match d {
        SwapDirection::Buy => eff_quote(c),
        SwapDirection::Sell => eff_base(c),
    }
}

/// The reserve the trade is paid from: base for a buy, quote for a sell.
pub open spec fn out_reserve(c: CurveAccount, d: SwapDirection) -> int {
    match d {
        SwapDirection::Buy => eff_base(c),
        SwapDirection::Sell => eff_quote(c),
    }
}

/// The exact constant-product output of trading `a` into a venue with
/// reserves `in_r`/`out_r`, as a ratio: holding `k = in_r * out_r`
/// fixed, the out-side reserve becomes `k / (in_r + a)`, so the trade
/// pays out `out_r - k / (in_r + a) == (out_r * a) / (in_r + a)`.
pub open spec fn cp_out_num(out_r: int, a: int) -> int {
    out_r * a
}

pub open spec fn cp_out_den(in_r: int, a: int) -> int {
    in_r + a
}

/// The integer output actually paid: the exact ratio rounded down.
pub open spec fn cp_out_floor(in_r: int, out_r: int, a: int) -> int {
    cp_out_num(out_r, a) / cp_out_den(in_r, a)
}

/// What a curve quote returns, for every input: the curve refuses to
/// quote once migrated, rejects out-of-range reserves, and rounds the
/// exact output down, rejecting trades too small to pay anything.
pub open spec fn spec_quote_curve(c: CurveAccount, d: SwapDirection, a: u64) -> Result<
    u128,
    SwapError,
> {
    if c.complete {
        Err(SwapError::VenueMigrated)
    } else if !curve_in_range(c) {
        Err(SwapError::DecodeError)
    } else {
        let o = cp_out_floor(in_reserve(c, d), out_reserve(c, d), a as int);
        if o <= 0 {
            Err(SwapError::AmountTooSmall)
        } else {
            Ok(o as u128)
        }
    }
}

/// The exact rational output of a curve quote, without rounding.
pub open spec fn spec_quote_curve_exact(c: CurveAccount, d: SwapDirection, a: u64) -> Result<
    Ratio,
    SwapError,
> {
    if c.complete {
        Err(SwapError::VenueMigrated)
    } else if !curve_in_range(c) {
        Err(SwapError::DecodeError)
    } else {
        Ok(
            Ratio {
                num: cp_out_num(out_reserve(c, d), a as int) as u128,
                den: cp_out_den(in_reserve(c, d), a as int) as u128,
            },
        )
    }
}

/// The effective reserves of a curve as a snapshot, rejecting zero or
/// out-of-range sums: a zero-reserve snapshot must never be fabricated.
pub fn effective_reserves(c: &CurveAccount) -> (r: Result<PoolReserves, SwapError>)
    ensures
        r matches Ok(p) ==> {
            &&& curve_in_range(*c)
            &&& p.base_reserve == eff_base(*c)
            &&& p.quote_reserve == eff_quote(*c)
            &&& p.venue == VenueKind::BondingCurve
            &&& p.wf()
        },
        r is Err ==> !curve_in_range(*c) && r == Err::<PoolReserves, SwapError>(
            SwapError::DecodeError,
        ),
{
    let base: u128 = c.virtual_base as u128 + c.real_base as u128;
    let quote: u128 = c.virtual_quote as u128 + c.real_quote as u128;
    if base < 1 || base > u64::MAX as u128 || quote < 1 || quote > u64::MAX as u128 {
        Err(SwapError::DecodeError)
    } else {
        Ok(PoolReserves { base_reserve: base, quote_reserve: quote, venue: VenueKind::BondingCurve })
    }
}

/// The spot price of a curve: effective quote over effective base.
pub fn curve_spot(c: &CurveAccount) -> (r: Result<Ratio, SwapError>)
    ensures
        r matches Ok(p) ==> {
            &&& curve_in_range(*c)
            &&& p.num == eff_quote(*c)
            &&& p.den == eff_base(*c)
            &&& p.wf()
        },
        r is Err ==> !curve_in_range(*c) && r == Err::<Ratio, SwapError>(SwapError::DecodeError),
{
    let reserves = match effective_reserves(c) {
        Ok(p) => p,
        Err(e) => {
            return Err(e);
        },
    };
    Ok(Ratio { num: reserves.quote_reserve, den: reserves.base_reserve })
}

/// Quote a trade of `amount_in` against a bonding curve, holding the
/// constant product of the effective reserves fixed and rounding the
/// output down. Refuses to quote a completed curve.
pub fn quote_curve(c: &CurveAccount, direction: SwapDirection, amount_in: u64) -> (r: Result<
    u128,
    SwapError,
>)
    ensures
        r == spec_quote_curve(*c, direction, amount_in),
        r matches Ok(o) ==> 1 <= o < out_reserve(*c, direction),
{
    if c.complete {
        return Err(SwapError::VenueMigrated);
    }
    let reserves = match effective_reserves(c) {
        Ok(p) => p,
        Err(e) => {
            return Err(e);
        },
    };
    let (in_r, out_r): (u128, u128) = match direction {
        SwapDirection::Buy => (reserves.quote_reserve, reserves.base_reserve),
        SwapDirection::Sell => (reserves.base_reserve, reserves.quote_reserve),
    };
    proof {
        assert(out_r * amount_in <= u64::MAX * (u64::MAX as int)) by (nonlinear_arith)
            requires
                0 <= out_r <= u64::MAX,
                0 <= amount_in <= u64::MAX,
        ;
    }
    let num: u128 = out_r * amount_in as u128;
    let den: u128 = in_r + amount_in as u128;
    let o: u128 = num / den;
    proof {
        lemma_cp_out_lt_reserve(out_r as int, in_r as int, amount_in as int);
    }
    if o == 0 {
        Err(SwapError::AmountTooSmall)
    } else {
        Ok(o)
    }
}

/// The exact rational output of a curve quote: numerator
/// `out_reserve * amount_in`, denominator `in_reserve + amount_in`.
pub fn quote_curve_exact(c: &CurveAccount, direction: SwapDirection, amount_in: u64) -> (r: Result<
    Ratio,
    SwapError,
>)
    ensures
        r == spec_quote_curve_exact(*c, direction, amount_in),
{
    if c.complete {
        return Err(SwapError::VenueMigrated);
    }
    let reserves = match effective_reserves(c) {
        Ok(p) => p,
        Err(e) => {
            return Err(e);
        },
    };
    let (in_r, out_r): (u128, u128) = match direction {
        SwapDirection::Buy => (reserves.quote_reserve, reserves.base_reserve),
        SwapDirection::Sell => (reserves.base_reserve, reserves.quote_reserve),
    };
    proof {
        assert(out_r * amount_in <= u64::MAX * (u64::MAX as int)) by (nonlinear_arith)
            requires
                0 <= out_r <= u64::MAX,
                0 <= amount_in <= u64::MAX,
        ;
    }
    Ok(Ratio { num: out_r * amount_in as u128, den: in_r + amount_in as u128 })
}

/// Law: a bonding-curve quote preserves the constant product of the
/// effective reserves exactly. The trade pays `a` into the in-side
/// reserve, making it `in_r + a`, which equals the output ratio's
/// denominator `q.den`; the out-side reserve loses the exact output
/// `q.num / q.den`. The new product, multiplied through by `q.den`,
/// equals `q.den` times the old product `out_r * in_r`:
/// `(out_r - q.num / q.den) * (in_r + a) == out_r * in_r`.
pub proof fn lemma_curve_quote_preserves_k(c: CurveAccount, d: SwapDirection, a: u64)
    requires
        !c.complete,
        curve_in_range(c),
    ensures
        spec_quote_curve_exact(c, d, a) matches Ok(q) && {
            &&& q.den == in_reserve(c, d) + a
            &&& out_reserve(c, d) * q.den - q.num == out_reserve(c, d) * in_reserve(c, d)
        },
{
    let in_r = in_reserve(c, d);
    let out_r = out_reserve(c, d);
    assert(0 <= out_r * a <= u64::MAX * (u64::MAX as int)) by (nonlinear_arith)
        requires
            0 <= out_r <= u64::MAX,
            0 <= a <= u64::MAX,
    ;
    assert(out_r * (in_r + a) - out_r * a == out_r * in_r) by (nonlinear_arith);
}

} // verus!

