use vstd::prelude::*;

use crate::amm::{amm_spot, quote_amm, spec_quote_amm, AmmAccount};
use crate::arith::{lemma_scale_le, lemma_scale_lt, lemma_scale_whole};
use crate::curve::{curve_spot, eff_base, eff_quote, quote_curve, spec_quote_curve, CurveAccount};
use crate::mint::{parsed_account_bytes, validate_mint};
use crate::router::RoutedVenue;
use crate::tips::{choose_tip, spec_choose_tip, Percentile, TipMonitor};
use crate::{AccountId, Ratio, SwapDirection, SwapError, SwapInType, VenueKind};

verus! {

/// The slippage applied when a request does not carry one: 500 basis
/// points, five percent.
pub const DEFAULT_SLIPPAGE_BPS: u64 = 500;

/// The pool venue's fee, withheld from the input before pricing:
/// 25 basis points.
pub const DEFAULT_FEE_BPS: u64 = 25;

/// The lamport tip attached to a priority submission while the tip
/// stream has not yet delivered a distribution.
pub const DEFAULT_MIN_TIP_LAMPORTS: u64 = 1000;

/// Whether the output bound is re-validated against a re-read reserve
/// snapshot just before signing (`Strict`), or only the original
/// quote is trusted (`Relaxed`).
#[derive(Clone, Copy, Debug, PartialEq, Eq, Structural)]
pub enum QuoteFreshness {
    Strict,
    Relaxed,
}

/// The configuration the engine consumes: default slippage, the pool
/// fee rate, the percentile and fallback floor for priority tips, and
/// the quote-freshness policy.
#[derive(Clone, Copy, Debug, PartialEq, Eq, Structural)]
pub struct EngineConfig {
    pub default_slippage_bps: u64,
    pub fee_bps: u64,
    pub tip_percentile: Percentile,
    pub min_tip_lamports: u64,
    pub quote_freshness: QuoteFreshness,
}

impl EngineConfig {
    /// Rates are fractions of the 10000 basis-point whole.
    pub open spec fn wf(self) -> bool {
        &&& self.default_slippage_bps <= 10000
        &&& self.fee_bps <= 10000
    }

    /// The stock configuration: five percent default slippage, a
    /// 25 bps pool fee, the median tip percentile, and no re-read
    /// before signing.
    pub fn standard() -> (r: EngineConfig)
        ensures
            r == (EngineConfig {
                default_slippage_bps: DEFAULT_SLIPPAGE_BPS,
                fee_bps: DEFAULT_FEE_BPS,
                tip_percentile: Percentile::Pct50,
                min_tip_lamports: DEFAULT_MIN_TIP_LAMPORTS,
                quote_freshness: QuoteFreshness::Relaxed,
            }),
            r.wf(),
    {
        EngineConfig {
            default_slippage_bps: DEFAULT_SLIPPAGE_BPS,
            fee_bps: DEFAULT_FEE_BPS,
            tip_percentile: Percentile::Pct50,
            min_tip_lamports: DEFAULT_MIN_TIP_LAMPORTS,
            quote_freshness: QuoteFreshness::Relaxed,
        }
    }
}

/// A validated swap request. Validation happens once at entry; the
/// request is immutable thereafter, and a slippage bound is always
/// present, never optional further in.
#[derive(Clone, Copy, Debug, PartialEq, Eq)]
pub struct SwapRequest {
    pub mint: AccountId,
    pub direction: SwapDirection,
    pub amount_in: u64,
    pub in_type: SwapInType,
    pub slippage_bps: u64,
    pub use_priority_relay: bool,
}

impl SwapRequest {
    /// What validation guarantees: the slippage is a fraction of the
    /// whole, and a percentage-denominated input is a fraction of the
    /// caller's holding.
    pub open spec fn wf(self) -> bool {
        &&& self.slippage_bps <= 10000
        &&& self.in_type == SwapInType::Pct ==> self.amount_in <= 10000
    }

    /// Validate a client request once at entry: parse the mint,
    /// default a missing denomination to a plain quantity, a missing
    /// slippage to the configured default and a missing relay choice
    /// to an ordinary submission, and reject out-of-range settings.
    pub fn new(
        mint: &str,
        direction: SwapDirection,
        amount_in: u64,
        in_type: Option<SwapInType>,
        slippage_bps: Option<u64>,
        use_priority_relay: Option<bool>,
        default_slippage_bps: u64,
    ) -> (r: Result<SwapRequest, SwapError>)
        requires
            default_slippage_bps <= 10000,
        ensures
            ({
                let chosen_in_type = match in_type {
                    Option::Some(t) => t,
                    Option::None => SwapInType::Qty,
                };
                let chosen_slippage = match slippage_bps {
                    Option::Some(s) => s,
                    Option::None => default_slippage_bps,
                };
                match r {
                    Ok(q) => {
                        &&& parsed_account_bytes(mint@) matches Some(b) && q.mint.bytes@ == b
                        &&& q.direction == direction
                        &&& q.amount_in == amount_in
                        &&& q.in_type == chosen_in_type
                        &&& q.slippage_bps == chosen_slippage
                        &&& q.use_priority_relay == (use_priority_relay matches Some(true))
                        &&& q.wf()
                    },
                    Err(e) => {
                        ||| e == SwapError::InvalidMint && parsed_account_bytes(mint@) is None
                        ||| e == SwapError::InvalidSlippage && parsed_account_bytes(mint@) is Some
                            && chosen_slippage > 10000
                        ||| e == SwapError::AmountTooLarge && parsed_account_bytes(mint@) is Some
                            && chosen_slippage <= 10000 && chosen_in_type == SwapInType::Pct
                            && amount_in > 10000
                    },
                }
            }),
            r is Err <==> {
                ||| parsed_account_bytes(mint@) is None
                ||| (match slippage_bps {
                    Option::Some(s) => s,
                    Option::None => default_slippage_bps,
                }) > 10000
                ||| (in_type matches Some(SwapInType::Pct) && amount_in > 10000)
            },
    {
        let mint_id = match validate_mint(mint) {
            Ok(id) => id,
            Err(e) => {
                return Err(e);
            },
        };
        let chosen_in_type = match in_type {
            Option::Some(t) => t,
            Option::None => SwapInType::Qty,
        };
        let chosen_slippage = match slippage_bps {
            Option::Some(s) => s,
            Option::None => default_slippage_bps,
        };
        let relay = match use_priority_relay {
            Option::Some(b) => b,
            Option::None => false,
        };
        if chosen_slippage > 10000 {
            return Err(SwapError::InvalidSlippage);
        }
        if matches!(chosen_in_type, SwapInType::Pct) && amount_in > 10000 {
            return Err(SwapError::AmountTooLarge);
        }
        Ok(
            SwapRequest {
                mint: mint_id,
                direction,
                amount_in,
                in_type: chosen_in_type,
                slippage_bps: chosen_slippage,
                use_priority_relay: relay,
            },
        )
    }
}

/// The input amount a request stands for, given the caller's holding
/// of the spent token: the amount itself for a quantity, or that
/// share of the holding, in basis points rounded down, for a
/// percentage.
pub open spec fn spec_resolved_amount(req: SwapRequest, balance: u64) -> int {
    match req.in_type {
        SwapInType::Qty => req.amount_in as int,
        SwapInType::Pct => (balance * req.amount_in) / 10000,
    }
}

/// Resolve a request's input amount against the caller's holding.
pub fn resolved_amount_in(req: &SwapRequest, balance: u64) -> (r: u64)
    requires
        req.wf(),
    ensures
        r == spec_resolved_amount(*req, balance),
        req.in_type == SwapInType::Pct ==> r <= balance,
{
    match req.in_type {
        SwapInType::Qty => req.amount_in,
        SwapInType::Pct => {
            proof {
                lemma_scale_le(balance as int, req.amount_in as int, 10000);
                assert(balance * req.amount_in <= u64::MAX * 10000int) by (nonlinear_arith)
                    requires
                        0 <= balance <= u64::MAX,
                        0 <= req.amount_in <= 10000,
                ;
            }
            ((balance as u128) * (req.amount_in as u128) / 10000) as u64
        },
    }
}

/// A typed snapshot of the venue an account decoded to.
#[derive(Clone, Copy, Debug, PartialEq, Eq, Structural)]
pub enum VenueState {
    Curve(CurveAccount),
    Amm(AmmAccount),
}

/// The venue kind a decoded snapshot belongs to.
pub open spec fn venue_of_state(s: VenueState) -> VenueKind {
    match s {
        VenueState::Curve(_) => VenueKind::BondingCurve,
        VenueState::Amm(_) => VenueKind::ConstantProductPool,
    }
}

/// A priced trade: the venue it was priced on, its spot price, the
/// expected output, and the slippage-bounded minimum output. Derived
/// once, consumed immediately, never mutated.
#[derive(Clone, Copy, Debug, PartialEq, Eq, Structural)]
pub struct Quote {
    pub venue: VenueKind,
    pub price: Ratio,
    pub expected_out: u128,
    pub min_out: u128,
}

/// The minimum accepted output under a slippage bound of `s` basis
/// points: `e * (10000 - s) / 10000`, rounded down.
pub open spec fn spec_min_out(e: int, s: int) -> int {
    (e * (10000 - s)) / 10000
}

/// The slippage-bounded minimum output for an expected output.
pub fn min_out_for(expected_out: u128, slippage_bps: u64) -> (r: u128)
    requires
        slippage_bps <= 10000,
        expected_out <= u64::MAX,
    ensures
        r == spec_min_out(expected_out as int, slippage_bps as int),
        r <= expected_out,
{
    proof {
        lemma_scale_le(expected_out as int, 10000 - slippage_bps, 10000);
    }
    expected_out * ((10000 - slippage_bps) as u128) / 10000
}

/// Law: the minimum accepted output never exceeds the expected
/// output, and the two are equal exactly when the slippage bound is
/// zero.
pub proof fn lemma_min_out_bounds(e: int, s: int)
    requires
        1 <= e,
        0 <= s <= 10000,
    ensures
        spec_min_out(e, s) <= e,
        (spec_min_out(e, s) == e) <==> (s == 0),
{
    lemma_scale_le(e, 10000 - s, 10000);
    if s == 0 {
        lemma_scale_whole(e, 10000);
    }
    if s >= 1 {
        lemma_scale_lt(e, 10000 - s, 10000);
    }
}

/// What pricing a trade against a venue snapshot returns, for every
/// snapshot, direction and amount: the venue's quote with the
/// slippage bound applied, or that venue's pricing error.
pub open spec fn spec_quote_price(
    state: VenueState,
    d: SwapDirection,
    a: u64,
    slippage_bps: u64,
    fee_bps: u64,
) -> Result<Quote, SwapError> {
    match state {
        VenueState::Curve(c) => match spec_quote_curve(c, d, a) {
            Err(e) => Err(e),
            Ok(o) => Ok(
                Quote {
                    venue: VenueKind::BondingCurve,
                    price: Ratio { num: eff_quote(c) as u128, den: eff_base(c) as u128 },
                    expected_out: o,
                    min_out: spec_min_out(o as int, slippage_bps as int) as u128,
                },
            ),
        },
        VenueState::Amm(p) => match spec_quote_amm(p, d, a, fee_bps) {
            Err(e) => Err(e),
            Ok(o) => Ok(
                Quote {
                    venue: VenueKind::ConstantProductPool,
                    price: Ratio { num: p.quote_reserve as u128, den: p.base_reserve as u128 },
                    expected_out: o,
                    min_out: spec_min_out(o as int, slippage_bps as int) as u128,
                },
            ),
        },
    }
}

/// Price a trade against a fresh venue snapshot. Pricing reads only
/// its arguments: two calls over the same snapshot return the same
/// quote.
pub fn quote_price(
    state: &VenueState,
    direction: SwapDirection,
    amount_in: u64,
    slippage_bps: u64,
    fee_bps: u64,
) -> (r: Result<Quote, SwapError>)
    requires
        slippage_bps <= 10000,
        fee_bps <= 10000,
    ensures
        r == spec_quote_price(*state, direction, amount_in, slippage_bps, fee_bps),
        r matches Ok(q) ==> q.min_out <= q.expected_out && 1 <= q.expected_out && q.price.wf(),
{
    match state {
        VenueState::Curve(c) => {
            let o = match quote_curve(c, direction, amount_in) {
                Ok(o) => o,
                Err(e) => {
                    return Err(e);
                },
            };
            let spot = match curve_spot(c) {
                Ok(s) => s,
                Err(e) => {
                    proof {
                        assert(false);
                    }
                    return Err(e);
                },
            };
            Ok(
                Quote {
                    venue: VenueKind::BondingCurve,
                    price: spot,
                    expected_out: o,
                    min_out: min_out_for(o, slippage_bps),
                },
            )
        },
        VenueState::Amm(p) => {
            let o = match quote_amm(p, direction, amount_in, fee_bps) {
                Ok(o) => o,
                Err(e) => {
                    return Err(e);
                },
            };
            let spot = match amm_spot(p) {
                Ok(s) => s,
                Err(e) => {
                    proof {
                        assert(false);
                    }
                    return Err(e);
                },
            };
            Ok(
                Quote {
                    venue: VenueKind::ConstantProductPool,
                    price: spot,
                    expected_out: o,
                    min_out: min_out_for(o, slippage_bps),
                },
            )
        },
    }
}

/// Law: pricing is a function of the snapshot and the request alone.
/// Two quotes computed from the same snapshot, direction, amount and
/// rates are identical: no hidden mutable counter affects pricing.
pub proof fn lemma_quote_price_idempotent(
    state: VenueState,
    d: SwapDirection,
    a: u64,
    slippage_bps: u64,
    fee_bps: u64,
    r1: Result<Quote, SwapError>,
    r2: Result<Quote, SwapError>,
)
    requires
        r1 == spec_quote_price(state, d, a, slippage_bps, fee_bps),
        r2 == spec_quote_price(state, d, a, slippage_bps, fee_bps),
    ensures
        r1 == r2,
{
}

/// Everything a submission needs, decided ahead of any signing: the
/// routed venue and account, the resolved input, the bounded quote,
/// and the tip for a priority submission.
#[derive(Clone, Copy, Debug, PartialEq, Eq)]
pub struct SwapPlan {
    pub venue: VenueKind,
    pub account: AccountId,
    pub direction: SwapDirection,
    pub amount_in: u64,
    pub quote: Quote,
    pub tip_lamports: Option<u64>,
}

/// What planning a swap returns, for every routed venue, snapshot,
/// monitor state and configuration: a snapshot that does not belong
/// to the routed venue is refused; otherwise the resolved amount is
/// priced, and a priority request carries a tip whatever the monitor
/// holds.
pub open spec fn spec_plan_swap(
    req: SwapRequest,
    balance: u64,
    routed: RoutedVenue,
    state: VenueState,
    monitor: TipMonitor,
    cfg: EngineConfig,
) -> Result<SwapPlan, SwapError> {
    if venue_of_state(state) != routed.venue {
        Err(SwapError::DecodeError)
    } else {
        let a = spec_resolved_amount(req, balance) as u64;
        match spec_quote_price(state, req.direction, a, req.slippage_bps, cfg.fee_bps) {
            Err(e) => Err(e),
            Ok(q) => Ok(
                SwapPlan {
                    venue: routed.venue,
                    account: routed.account,
                    direction: req.direction,
                    amount_in: a,
                    quote: q,
                    tip_lamports: if req.use_priority_relay {
                        Option::Some(
                            spec_choose_tip(monitor, cfg.tip_percentile, cfg.min_tip_lamports),
                        )
                    } else {
                        Option::None
                    },
                },
            ),
        }
    }
}

/// Decide a whole swap from fresh inputs: check the snapshot belongs
/// to the routed venue, resolve the input amount against the caller's
/// holding, price the trade under the request's slippage bound, and
/// pick the tip for a priority submission. A missing tip stream never
/// fails the plan: the configured fallback tip is used instead.
pub fn plan_swap(
    req: &SwapRequest,
    balance: u64,
    routed: &RoutedVenue,
    state: &VenueState,
    monitor: &TipMonitor,
    cfg: &EngineConfig,
) -> (r: Result<SwapPlan, SwapError>)
    requires
        req.wf(),
        cfg.wf(),
    ensures
        r == spec_plan_swap(*req, balance, *routed, *state, *monitor, *cfg),
        r matches Ok(p) ==> (p.tip_lamports is Some <==> req.use_priority_relay),
{
    let state_venue = match state {
        VenueState::Curve(_) => VenueKind::BondingCurve,
        VenueState::Amm(_) => VenueKind::ConstantProductPool,
    };
    if state_venue != routed.venue {
        return Err(SwapError::DecodeError);
    }
    let a = resolved_amount_in(req, balance);
    let q = match quote_price(state, req.direction, a, req.slippage_bps, cfg.fee_bps) {
        Ok(q) => q,
        Err(e) => {
            return Err(e);
        },
    };
    let tip = if req.use_priority_relay {
        Option::Some(choose_tip(monitor, cfg.tip_percentile, cfg.min_tip_lamports))
    } else {
        Option::None
    };
    Ok(
        SwapPlan {
            venue: routed.venue,
            account: routed.account,
            direction: req.direction,
            amount_in: a,
            quote: q,
            tip_lamports: tip,
        },
    )
}

/// Re-validate a quote's output bound against a freshly computed
/// expected output, as the strict freshness policy asks just before
/// signing: an output that fell below the accepted minimum is a
/// terminal slippage failure.
pub fn check_output_bound(min_out: u128, fresh_expected_out: u128) -> (r: Result<(), SwapError>)
    ensures
        (r is Ok) == (fresh_expected_out >= min_out),
        r is Err ==> r == Err::<(), SwapError>(SwapError::SlippageExceeded),
{
    if fresh_expected_out >= min_out {
        Ok(())
    } else {
        Err(SwapError::SlippageExceeded)
    }
}

/// Whether a failed attempt should be routed once more: only a first
/// migration observation is retried; a second one in the same call,
/// and every other error, is terminal.
pub fn should_reroute(e: &SwapError, prior_reroutes: u64) -> (r: bool)
    ensures
        r == (*e == SwapError::VenueMigrated && prior_reroutes == 0),
{
    match e {
        SwapError::VenueMigrated => prior_reroutes == 0,
        _ => false,
    }
}

} // verus!
