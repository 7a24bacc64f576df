use vstd::prelude::*;

use crate::arith::lemma_cp_out_lt_reserve;
use crate::{Ratio, SwapDirection, SwapError};

verus! {

/// The vault balances of a constant-product pool, as decoded from the
/// pool account.
#[derive(Clone, Copy, Debug, PartialEq, Eq, Structural)]
pub struct AmmAccount {
    pub base_reserve: u64,
    pub quote_reserve: u64,
}

impl AmmAccount {
    /// Vaults the pricing formulas accept: nonzero, since a zero
    /// reserve would imply an infinite price move.
    pub open spec fn wf(self) -> bool {
        &&& 1 <= self.base_reserve
        &&& 1 <= self.quote_reserve
    }
}

/// The reserve the trade pays into: quote for a buy, base for a sell.
pub open spec fn amm_in_reserve(p: AmmAccount, d: SwapDirection) -> int {
    match d {
        SwapDirection::Buy => p.quote_reserve as int,
        SwapDirection::Sell => p.base_reserve as int,
    }
}

/// The reserve the trade is paid from: base for a buy, quote for a sell.
pub open spec fn amm_out_reserve(p: AmmAccount, d: SwapDirection) -> int {
    match d {
        SwapDirection::Buy => p.base_reserve as int,
        SwapDirection::Sell => p.quote_reserve as int,
    }
}

/// The input that takes part in pricing after the venue fee is
/// withheld, scaled by the fee denominator: `a * (10000 - fee_bps)`.
pub open spec fn fee_adjusted_in(a: int, fee_bps: int) -> int {
    a * (10000 - fee_bps)
}

/// The exact pool output as a ratio. With the fee-adjusted input
/// `a' = a * (10000 - fee_bps) / 10000` the constant-product formula
/// gives `out_r * a' / (in_r + a')`; multiplying numerator and
/// denominator by 10000 keeps it in integers.
pub open spec fn amm_out_num(out_r: int, a: int, fee_bps: int) -> int {
    out_r * fee_adjusted_in(a, fee_bps)
}

pub open spec fn amm_out_den(in_r: int, a: int, fee_bps: int) -> int {
    in_r * 10000 + fee_adjusted_in(a, fee_bps)
}

/// Whether the numerator of the exact output fits in 128 bits; beyond
/// it the trade cannot be priced in machine integers.
pub open spec fn amm_fits(p: AmmAccount, d: SwapDirection, a: int, fee_bps: int) -> bool {
    amm_out_num(amm_out_reserve(p, d), a, fee_bps) <= u128::MAX
}

/// What a pool quote returns, for every input: out-of-range vaults are
/// rejected, oversized trades are rejected, and the exact output is
/// rounded down, rejecting trades too small to pay anything.
pub open spec fn spec_quote_amm(p: AmmAccount, d: SwapDirection, a: u64, fee_bps: u64) -> Result<
    u128,
    SwapError,
> {
    if !p.wf() {
        Err(SwapError::DecodeError)
    } else if !amm_fits(p, d, a as int, fee_bps as int) {
        Err(SwapError::AmountTooLarge)
    } else {
        let o = amm_out_num(amm_out_reserve(p, d), a as int, fee_bps as int) / amm_out_den(
            amm_in_reserve(p, d),
            a as int,
            fee_bps as int,
        );
        if o <= 0 {
            Err(SwapError::AmountTooSmall)
        } else {
            Ok(o as u128)
        }
    }
}

/// The exact rational output of a pool quote, without rounding.
pub open spec fn spec_quote_amm_exact(
    p: AmmAccount,
    d: SwapDirection,
    a: u64,
    fee_bps: u64,
) -> Result<Ratio, SwapError> {
    if !p.wf() {
        Err(SwapError::DecodeError)
    } else if !amm_fits(p, d, a as int, fee_bps as int) {
        Err(SwapError::AmountTooLarge)
    } else {
        Ok(
            Ratio {
                num: amm_out_num(amm_out_reserve(p, d), a as int, fee_bps as int) as u128,
                den: amm_out_den(amm_in_reserve(p, d), a as int, fee_bps as int) as u128,
            },
        )
    }
}

/// The spot price of a pool: quote vault over base vault.
pub fn amm_spot(p: &AmmAccount) -> (r: Result<Ratio, SwapError>)
    ensures
        r matches Ok(s) ==> {
            &&& p.wf()
            &&& s.num == p.quote_reserve
            &&& s.den == p.base_reserve
            &&& s.wf()
        },
        r is Err ==> !p.wf() && r == Err::<Ratio, SwapError>(SwapError::DecodeError),
{
    if p.base_reserve < 1 || p.quote_reserve < 1 {
        Err(SwapError::DecodeError)
    } else {
        Ok(Ratio { num: p.quote_reserve as u128, den: p.base_reserve as u128 })
    }
}

/// Quote a trade of `amount_in` against a constant-product pool: the
/// venue fee is withheld from the input before the constant-product
/// formula is solved, and the output is rounded down.
pub fn quote_amm(p: &AmmAccount, direction: SwapDirection, amount_in: u64, fee_bps: u64) -> (r:
    Result<u128, SwapError>)
    requires
        fee_bps <= 10000,
    ensures
        r == spec_quote_amm(*p, direction, amount_in, fee_bps),
        r matches Ok(o) ==> 1 <= o < amm_out_reserve(*p, direction),
{
    if p.base_reserve < 1 || p.quote_reserve < 1 {
        return Err(SwapError::DecodeError);
    }
    let (in_r, out_r): (u128, u128) = match direction {
        SwapDirection::Buy => (p.quote_reserve as u128, p.base_reserve as u128),
        SwapDirection::Sell => (p.base_reserve as u128, p.quote_reserve as u128),
    };
    proof {
        assert(0 <= amount_in * (10000 - fee_bps) <= u64::MAX * 10000int) by (nonlinear_arith)
            requires
                0 <= amount_in <= u64::MAX,
                0 <= fee_bps <= 10000,
        ;
        assert(0 <= in_r * 10000 <= u64::MAX * 10000int) by (nonlinear_arith)
            requires
                0 <= in_r <= u64::MAX,
        ;
    }
    let t: u128 = (amount_in as u128) * ((10000 - fee_bps) as u128);
    let num: u128 = match out_r.checked_mul(t) {
        Some(n) => n,
        None => {
            return Err(SwapError::AmountTooLarge);
        },
    };
    let den: u128 = in_r * 10000 + t;
    let o: u128 = num / den;
    proof {
        lemma_cp_out_lt_reserve(out_r as int, in_r as int * 10000, t as int);
    }
    if o == 0 {
        Err(SwapError::AmountTooSmall)
    } else {
        Ok(o)
    }
}

/// The exact rational output of a pool quote: numerator
/// `out_reserve * amount_in * (10000 - fee_bps)`, denominator
/// `in_reserve * 10000 + amount_in * (10000 - fee_bps)`.
pub fn quote_amm_exact(p: &AmmAccount, direction: SwapDirection, amount_in: u64, fee_bps: u64) -> (r:
    Result<Ratio, SwapError>)
    requires
        fee_bps <= 10000,
    ensures
        r == spec_quote_amm_exact(*p, direction, amount_in, fee_bps),
{
    if p.base_reserve < 1 || p.quote_reserve < 1 {
        return Err(SwapError::DecodeError);
    }
    let (in_r, out_r): (u128, u128) = match direction {
        SwapDirection::Buy => (p.quote_reserve as u128, p.base_reserve as u128),
        SwapDirection::Sell => (p.base_reserve as u128, p.quote_reserve as u128),
    };
    proof {
        assert(0 <= amount_in * (10000 - fee_bps) <= u64::MAX * 10000int) by (nonlinear_arith)
            requires
                0 <= amount_in <= u64::MAX,
                0 <= fee_bps <= 10000,
        ;
        assert(0 <= in_r * 10000 <= u64::MAX * 10000int) by (nonlinear_arith)
            requires
                0 <= in_r <= u64::MAX,
        ;
    }
    let t: u128 = (amount_in as u128) * ((10000 - fee_bps) as u128);
    let num: u128 = match out_r.checked_mul(t) {
        Some(n) => n,
        None => {
            return Err(SwapError::AmountTooLarge);
        },
    };
    Ok(Ratio { num, den: in_r * 10000 + t })
}

/// The product of two exact prices, used to enrich an on-chain price
/// with an off-chain conversion rate (for example a quote-token price
/// in an external unit). Fails rather than overflow.
pub fn ratio_mul(a: &Ratio, b: &Ratio) -> (r: Result<Ratio, SwapError>)
    requires
        a.wf(),
        b.wf(),
    ensures
        r matches Ok(p) ==> {
            &&& p.num == a.num * b.num
            &&& p.den == a.den * b.den
            &&& p.wf()
        },
        r is Err ==> (a.num * b.num > u128::MAX || a.den * b.den > u128::MAX) && r == Err::<
            Ratio,
            SwapError,
        >(SwapError::AmountTooLarge),
{
    let num: u128 = match a.num.checked_mul(b.num) {
        Some(n) => n,
        None => {
            return Err(SwapError::AmountTooLarge);
        },
    };
    let den: u128 = match a.den.checked_mul(b.den) {
        Some(n) => n,
        None => {
            return Err(SwapError::AmountTooLarge);
        },
    };
    proof {
        assert(a.den * b.den >= 1) by (nonlinear_arith)
            requires
                a.den >= 1,
                b.den >= 1,
        ;
    }
    Ok(Ratio { num, den })
}

} // verus!
