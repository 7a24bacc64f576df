use core::str::FromStr;

use swap_engine::curve::CurveAccount;
use swap_engine::engine::{
    check_output_bound, min_out_for, plan_swap, quote_price, should_reroute, EngineConfig,
    QuoteFreshness, SwapRequest, VenueState, DEFAULT_MIN_TIP_LAMPORTS, DEFAULT_SLIPPAGE_BPS,
};
use swap_engine::mint::validate_mint;
use swap_engine::router::RoutedVenue;
use swap_engine::signal::{signal_action, Signal, SignalAction};
use swap_engine::tips::{choose_tip, Percentile, TipMonitor, TipPercentiles};
use swap_engine::{AccountId, SwapDirection, SwapError, SwapInType, VenueKind};

const WSOL: &str = "So11111111111111111111111111111111111111112";

fn small_curve() -> CurveAccount {
    CurveAccount {
        virtual_base: 30,
        virtual_quote: 30,
        real_base: 0,
        real_quote: 0,
        total_supply: 0,
        complete: false,
    }
}

fn msg(base: u64) -> TipPercentiles {
    TipPercentiles { p25: base, p50: base + 1, p75: base + 2, p95: base + 3, p99: base + 4 }
}

#[test]
fn mint_validation_decodes_the_account_key() {
    let id = validate_mint(WSOL).unwrap();
    let expected = solana_pubkey::Pubkey::from_str(WSOL).unwrap().to_bytes();
    assert_eq!(id.bytes, expected);
}

#[test]
fn mint_validation_rejects_malformed_strings() {
    assert_eq!(validate_mint("not a key !!"), Err(SwapError::InvalidMint));
    assert_eq!(validate_mint(""), Err(SwapError::InvalidMint));
}

#[test]
fn request_validation_applies_defaults() {
    let req = SwapRequest::new(
        WSOL,
        SwapDirection::Buy,
        1_000,
        None,
        None,
        None,
        DEFAULT_SLIPPAGE_BPS,
    )
    .unwrap();
    assert_eq!(req.in_type, SwapInType::Qty);
    assert_eq!(req.slippage_bps, 500);
    assert!(!req.use_priority_relay);
}

#[test]
fn request_validation_rejects_bad_settings() {
    let r = SwapRequest::new(
        "???",
        SwapDirection::Buy,
        1,
        None,
        None,
        None,
        DEFAULT_SLIPPAGE_BPS,
    );
    assert_eq!(r.unwrap_err(), SwapError::InvalidMint);

    let r = SwapRequest::new(
        WSOL,
        SwapDirection::Buy,
        1,
        None,
        Some(10_001),
        None,
        DEFAULT_SLIPPAGE_BPS,
    );
    assert_eq!(r.unwrap_err(), SwapError::InvalidSlippage);

    let r = SwapRequest::new(
        WSOL,
        SwapDirection::Sell,
        10_001,
        Some(SwapInType::Pct),
        None,
        None,
        DEFAULT_SLIPPAGE_BPS,
    );
    assert_eq!(r.unwrap_err(), SwapError::AmountTooLarge);
}

#[test]
fn min_out_shrinks_with_slippage_and_only_then() {
    assert_eq!(min_out_for(1000, 500), 950);
    assert_eq!(min_out_for(1000, 0), 1000);
    assert_eq!(min_out_for(1000, 1), 999);
    assert_eq!(min_out_for(1, 1), 0);
}

#[test]
fn quote_applies_slippage_bound() {
    let state = VenueState::Curve(small_curve());
    let q = quote_price(&state, SwapDirection::Buy, 10, 500, 25).unwrap();
    assert_eq!(q.venue, VenueKind::BondingCurve);
    assert_eq!(q.expected_out, 7);
    assert_eq!(q.min_out, 6);
    assert_eq!(q.price.num, 30);
    assert_eq!(q.price.den, 30);
}

#[test]
fn quoting_twice_returns_an_identical_quote() {
    // Pricing reads only the snapshot: no hidden counter moves it.
    let state = VenueState::Curve(small_curve());
    let first = quote_price(&state, SwapDirection::Buy, 10, 500, 25).unwrap();
    let second = quote_price(&state, SwapDirection::Buy, 10, 500, 25).unwrap();
    assert_eq!(first, second);
}

#[test]
fn tip_monitor_is_unavailable_until_first_message() {
    let monitor = TipMonitor::new();
    assert_eq!(monitor.current_tip(Percentile::Pct50), Err(SwapError::Unavailable));
}

#[test]
fn tip_monitor_tracks_exactly_the_latest_message() {
    let mut monitor = TipMonitor::new();
    monitor.on_message(msg(100));
    monitor.on_message(msg(200));
    monitor.on_message(msg(300));
    assert_eq!(monitor.current_tip(Percentile::Pct25), Ok(300));
    assert_eq!(monitor.current_tip(Percentile::Pct50), Ok(301));
    assert_eq!(monitor.current_tip(Percentile::Pct99), Ok(304));
}

#[test]
fn priority_swap_falls_back_to_minimum_tip_when_stream_is_silent() {
    // Stream unavailable at startup: the plan still succeeds and uses
    // the configured minimum tip.
    let req = SwapRequest::new(
        WSOL,
        SwapDirection::Buy,
        10,
        None,
        None,
        Some(true),
        DEFAULT_SLIPPAGE_BPS,
    )
    .unwrap();
    let routed = RoutedVenue { venue: VenueKind::BondingCurve, account: AccountId { bytes: [1; 32] } };
    let state = VenueState::Curve(small_curve());
    let monitor = TipMonitor::new();
    let cfg = EngineConfig::standard();
    let plan = plan_swap(&req, 0, &routed, &state, &monitor, &cfg).unwrap();
    assert_eq!(plan.tip_lamports, Some(DEFAULT_MIN_TIP_LAMPORTS));
    assert_eq!(plan.quote.expected_out, 7);
}

#[test]
fn priority_swap_uses_live_percentile_when_available() {
    let mut monitor = TipMonitor::new();
    monitor.on_message(msg(5_000));
    assert_eq!(choose_tip(&monitor, Percentile::Pct50, DEFAULT_MIN_TIP_LAMPORTS), 5_001);
    assert_eq!(
        choose_tip(&TipMonitor::new(), Percentile::Pct50, DEFAULT_MIN_TIP_LAMPORTS),
        DEFAULT_MIN_TIP_LAMPORTS
    );
}

#[test]
fn ordinary_swap_carries_no_tip() {
    let req = SwapRequest::new(
        WSOL,
        SwapDirection::Buy,
        10,
        None,
        None,
        None,
        DEFAULT_SLIPPAGE_BPS,
    )
    .unwrap();
    let routed = RoutedVenue { venue: VenueKind::BondingCurve, account: AccountId { bytes: [1; 32] } };
    let state = VenueState::Curve(small_curve());
    let plan = plan_swap(&req, 0, &routed, &state, &TipMonitor::new(), &EngineConfig::standard())
        .unwrap();
    assert_eq!(plan.tip_lamports, None);
    assert_eq!(plan.venue, VenueKind::BondingCurve);
    assert_eq!(plan.amount_in, 10);
}

#[test]
fn percentage_input_resolves_against_the_holding() {
    let req = SwapRequest::new(
        WSOL,
        SwapDirection::Sell,
        2_500,
        Some(SwapInType::Pct),
        Some(0),
        None,
        DEFAULT_SLIPPAGE_BPS,
    )
    .unwrap();
    let routed = RoutedVenue { venue: VenueKind::BondingCurve, account: AccountId { bytes: [1; 32] } };
    let state = VenueState::Curve(CurveAccount {
        virtual_base: 1_000,
        virtual_quote: 1_000,
        real_base: 0,
        real_quote: 0,
        total_supply: 0,
        complete: false,
    });
    // 25% of a 400-token holding is 100 base in; out = 1000*100/1100 = 90.
    let plan = plan_swap(&req, 400, &routed, &state, &TipMonitor::new(), &EngineConfig::standard())
        .unwrap();
    assert_eq!(plan.amount_in, 100);
    assert_eq!(plan.quote.expected_out, 90);
    assert_eq!(plan.quote.min_out, 90);
}

#[test]
fn plan_refuses_snapshot_of_the_wrong_venue() {
    let req = SwapRequest::new(
        WSOL,
        SwapDirection::Buy,
        10,
        None,
        None,
        None,
        DEFAULT_SLIPPAGE_BPS,
    )
    .unwrap();
    let routed = RoutedVenue {
        venue: VenueKind::ConstantProductPool,
        account: AccountId { bytes: [1; 32] },
    };
    let state = VenueState::Curve(small_curve());
    let r = plan_swap(&req, 0, &routed, &state, &TipMonitor::new(), &EngineConfig::standard());
    assert_eq!(r.unwrap_err(), SwapError::DecodeError);
}

#[test]
fn migration_is_rerouted_once_and_only_once() {
    assert!(should_reroute(&SwapError::VenueMigrated, 0));
    assert!(!should_reroute(&SwapError::VenueMigrated, 1));
    assert!(!should_reroute(&SwapError::NotFound, 0));
}

#[test]
fn stale_output_below_the_bound_is_a_slippage_failure() {
    assert_eq!(check_output_bound(90, 95), Ok(()));
    assert_eq!(check_output_bound(90, 90), Ok(()));
    assert_eq!(check_output_bound(90, 89), Err(SwapError::SlippageExceeded));
}

#[test]
fn standard_config_matches_the_documented_defaults() {
    let cfg = EngineConfig::standard();
    assert_eq!(cfg.default_slippage_bps, 500);
    assert_eq!(cfg.fee_bps, 25);
    assert_eq!(cfg.tip_percentile, Percentile::Pct50);
    assert_eq!(cfg.min_tip_lamports, 1000);
    assert_eq!(cfg.quote_freshness, QuoteFreshness::Relaxed);
}

#[test]
fn signals_argue_by_sign() {
    let up = Signal::new("momentum", 5);
    assert!(up.should_buy());
    assert!(!up.should_sell());
    assert_eq!(signal_action(&up), SignalAction::Buy);

    let down = Signal::new("momentum", -5);
    assert!(down.should_sell());
    assert_eq!(signal_action(&down), SignalAction::Sell);

    let flat = Signal::new("momentum", 0);
    assert_eq!(signal_action(&flat), SignalAction::Hold);
    assert_eq!(flat.name, "momentum");
}
