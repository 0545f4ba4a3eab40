use zeroglaze::constants::{CURVE_SUPPLY, VIRTUAL_SOL_INITIAL, VIRTUAL_TOKEN_INITIAL};
use zeroglaze::errors::ZeroglazeError;
use zeroglaze::state::{BondingCurve, Pubkey};
use zeroglaze::{buy_tokens, create_token, initialize_platform, withdraw_creator_fees};

fn key(tag: u8) -> Pubkey {
    Pubkey { bytes: [tag; 32] }
}

fn demo_curve() -> BondingCurve {
    create_token(
        key(3),
        key(4),
        String::from("Glaze"),
        String::from("GLZ"),
        String::from("ipfs://glaze"),
        String::new(),
        String::new(),
        true,
        42,
    )
    .unwrap()
}

#[test]
fn initialize_platform_starts_from_zero() {
    let platform = initialize_platform(key(9), key(8));
    assert_eq!(platform.authority, key(9));
    assert_eq!(platform.platform_fee_wallet, key(8));
    assert_eq!(platform.total_tokens_launched, 0);
    assert_eq!(platform.total_volume_sol, 0);
    assert_eq!(platform.total_fees_collected, 0);
}

#[test]
fn platform_accumulates_launches_and_trades() {
    let mut platform = initialize_platform(key(9), key(8));
    platform.record_launch().unwrap();
    platform.record_launch().unwrap();
    assert_eq!(platform.total_tokens_launched, 2);

    let mut curve = demo_curve();
    let plan = buy_tokens(&mut curve, 1_000_000, u64::MAX).unwrap();
    platform
        .record_trade(plan.total_cost, plan.platform_fee, plan.creator_fee)
        .unwrap();
    assert_eq!(platform.total_volume_sol, plan.total_cost);
    assert_eq!(
        platform.total_fees_collected,
        plan.platform_fee + plan.creator_fee
    );
}

#[test]
fn platform_trade_overflow_changes_nothing() {
    let mut platform = initialize_platform(key(9), key(8));
    platform.total_volume_sol = u64::MAX;
    let before = platform.clone();
    assert_eq!(
        platform.record_trade(1, 0, 0).unwrap_err(),
        ZeroglazeError::MathOverflow
    );
    assert_eq!(platform, before);

    platform.total_volume_sol = 0;
    platform.total_fees_collected = u64::MAX;
    let before = platform.clone();
    assert_eq!(
        platform.record_trade(0, 1, 0).unwrap_err(),
        ZeroglazeError::MathOverflow
    );
    assert_eq!(platform, before);
}

#[test]
fn withdraw_pays_out_whole_balance_and_rejects_empty() {
    assert_eq!(
        withdraw_creator_fees(0).unwrap_err(),
        ZeroglazeError::NoFeesToWithdraw
    );
    assert_eq!(withdraw_creator_fees(123_456).unwrap(), 123_456);
}

#[test]
fn current_price_is_truncated_reserve_ratio() {
    let curve = demo_curve();
    assert_eq!(curve.get_current_price(), VIRTUAL_SOL_INITIAL / VIRTUAL_TOKEN_INITIAL);
    assert_eq!(curve.get_current_price(), 27);

    let mut drained = curve;
    drained.virtual_token_reserves = 0;
    assert_eq!(drained.get_current_price(), 0);
}

#[test]
fn market_cap_scales_price_by_nominal_supply() {
    let curve = demo_curve();
    // One billion tokens at 27 lamports each is 27 whole SOL.
    assert_eq!(curve.get_market_cap(), 27);
}

#[test]
fn progress_is_percentage_of_curve_supply() {
    let mut curve = demo_curve();
    assert_eq!(curve.get_progress(), 0);
    curve.tokens_sold = 400_000_000;
    assert_eq!(curve.get_progress(), 50);
    curve.tokens_sold = 799_999_999;
    assert_eq!(curve.get_progress(), 99);
    curve.tokens_sold = CURVE_SUPPLY;
    assert_eq!(curve.get_progress(), 100);
}
