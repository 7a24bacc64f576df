use swap_engine::amm::{quote_amm, quote_amm_exact, ratio_mul, AmmAccount};
use swap_engine::curve::{curve_spot, effective_reserves, quote_curve, quote_curve_exact, CurveAccount};
use swap_engine::{Ratio, SwapDirection, SwapError, VenueKind};

fn small_curve() -> CurveAccount {
    CurveAccount {
        virtual_base: 30,
        virtual_quote: 30,
        real_base: 0,
        real_quote: 0,
        total_supply: 0,
        complete: false,
    }
}

#[test]
fn curve_buy_exact_output_matches_formula() {
    // Reserves vb=30, rb=0, vq=30, rq=0 give k = 30 * 30 = 900; buying
    // with 10 quote solves (30 + 10) * (30 - out) = 900, out = 7.5.
    let c = small_curve();
    let q = quote_curve_exact(&c, SwapDirection::Buy, 10).unwrap();
    assert_eq!(q.num, 300);
    assert_eq!(q.den, 40);
    assert_eq!(q.num as f64 / q.den as f64, 7.5);
}

#[test]
fn curve_buy_floor_output() {
    let c = small_curve();
    let out = quote_curve(&c, SwapDirection::Buy, 10).unwrap();
    assert_eq!(out, 7);
}

#[test]
fn curve_exact_quote_preserves_constant_product() {
    // With the exact rational output, the post-trade reserve product
    // equals k: eff_base * den - num == eff_base * eff_quote.
    let c = small_curve();
    let q = quote_curve_exact(&c, SwapDirection::Buy, 10).unwrap();
    let eff_base = (c.virtual_base + c.real_base) as u128;
    let eff_quote = (c.virtual_quote + c.real_quote) as u128;
    assert_eq!(eff_base * q.den - q.num, eff_base * eff_quote);
}

#[test]
fn curve_sell_direction_uses_opposite_reserves() {
    let c = CurveAccount {
        virtual_base: 100,
        virtual_quote: 50,
        real_base: 20,
        real_quote: 10,
        total_supply: 0,
        complete: false,
    };
    // Selling 60 base: out = eff_quote * 60 / (eff_base + 60) = 3600 / 180 = 20.
    let out = quote_curve(&c, SwapDirection::Sell, 60).unwrap();
    assert_eq!(out, 20);
}

#[test]
fn completed_curve_refuses_to_quote() {
    let mut c = small_curve();
    c.complete = true;
    assert_eq!(quote_curve(&c, SwapDirection::Buy, 10), Err(SwapError::VenueMigrated));
    assert_eq!(
        quote_curve_exact(&c, SwapDirection::Sell, 10),
        Err(SwapError::VenueMigrated)
    );
}

#[test]
fn zero_effective_reserve_is_a_decode_failure() {
    let c = CurveAccount {
        virtual_base: 0,
        virtual_quote: 30,
        real_base: 0,
        real_quote: 0,
        total_supply: 0,
        complete: false,
    };
    assert_eq!(effective_reserves(&c), Err(SwapError::DecodeError));
    assert_eq!(quote_curve(&c, SwapDirection::Buy, 10), Err(SwapError::DecodeError));
}

#[test]
fn effective_reserves_sum_virtual_and_real() {
    let c = CurveAccount {
        virtual_base: 100,
        virtual_quote: 50,
        real_base: 20,
        real_quote: 10,
        total_supply: 7,
        complete: false,
    };
    let p = effective_reserves(&c).unwrap();
    assert_eq!(p.base_reserve, 120);
    assert_eq!(p.quote_reserve, 60);
    assert_eq!(p.venue, VenueKind::BondingCurve);
    let spot = curve_spot(&c).unwrap();
    assert_eq!(spot.num, 60);
    assert_eq!(spot.den, 120);
}

#[test]
fn amm_sell_exact_output_matches_fee_formula() {
    // Pool base=1000, quote=1000, fee 0.25%: selling 100 base gives
    // out = quote - k / (base + 100 * (1 - 0.0025)).
    let p = AmmAccount { base_reserve: 1000, quote_reserve: 1000 };
    let q = quote_amm_exact(&p, SwapDirection::Sell, 100, 25).unwrap();
    assert_eq!(q.num, 997_500_000);
    assert_eq!(q.den, 10_997_500);
    let formula = 1000.0 - 1_000_000.0 / (1000.0 + 100.0 * (1.0 - 0.0025));
    let got = q.num as f64 / q.den as f64;
    assert!((got - formula).abs() < 1e-9);
}

#[test]
fn amm_sell_floor_output() {
    let p = AmmAccount { base_reserve: 1000, quote_reserve: 1000 };
    let out = quote_amm(&p, SwapDirection::Sell, 100, 25).unwrap();
    assert_eq!(out, 90);
}

#[test]
fn amm_zero_fee_matches_plain_constant_product() {
    let p = AmmAccount { base_reserve: 1000, quote_reserve: 1000 };
    // out = 1000 * 100 / (1000 + 100) = 90.9..., floored to 90.
    assert_eq!(quote_amm(&p, SwapDirection::Buy, 100, 0), Ok(90));
}

#[test]
fn amm_dust_trade_yields_nothing() {
    let p = AmmAccount { base_reserve: 1_000_000, quote_reserve: 1_000_000 };
    assert_eq!(quote_amm(&p, SwapDirection::Buy, 0, 25), Err(SwapError::AmountTooSmall));
}

#[test]
fn amm_zero_reserve_is_a_decode_failure() {
    let p = AmmAccount { base_reserve: 0, quote_reserve: 1000 };
    assert_eq!(quote_amm(&p, SwapDirection::Buy, 100, 25), Err(SwapError::DecodeError));
}

#[test]
fn amm_oversized_trade_is_rejected_not_mispriced() {
    let p = AmmAccount { base_reserve: u64::MAX, quote_reserve: u64::MAX };
    assert_eq!(
        quote_amm(&p, SwapDirection::Buy, u64::MAX, 0),
        Err(SwapError::AmountTooLarge)
    );
}

#[test]
fn ratio_mul_combines_prices() {
    let onchain = Ratio { num: 3, den: 2 };
    let conversion = Ratio { num: 150, den: 1 };
    let usd = ratio_mul(&onchain, &conversion).unwrap();
    assert_eq!(usd.num, 450);
    assert_eq!(usd.den, 2);
}

#[test]
fn ratio_mul_refuses_overflow() {
    let a = Ratio { num: u128::MAX, den: 1 };
    let b = Ratio { num: 2, den: 1 };
    assert_eq!(ratio_mul(&a, &b), Err(SwapError::AmountTooLarge));
}
