use zeroglaze::constants::{
    CURVE_SUPPLY, GRADUATION_THRESHOLD_SOL, VIRTUAL_SOL_INITIAL, VIRTUAL_TOKEN_INITIAL,
};
use zeroglaze::errors::ZeroglazeError;
use zeroglaze::state::{BondingCurve, Pubkey};
use zeroglaze::{buy_tokens, create_token, sell_tokens, update_stream_status};

fn key(tag: u8) -> Pubkey {
    Pubkey { bytes: [tag; 32] }
}

fn fresh_curve() -> BondingCurve {
    create_token(
        key(1),
        key(2),
        String::from("Glaze"),
        String::from("GLZ"),
        String::from("ipfs://glaze-token-metadata"),
        String::from("glaze_tw"),
        String::from("glaze_live"),
        false,
        1_700_000_000,
    )
    .unwrap()
}

#[test]
fn create_token_initializes_curve() {
    let curve = fresh_curve();
    assert_eq!(curve.creator, key(1));
    assert_eq!(curve.token_mint, key(2));
    assert_eq!(curve.token_name, String::from("Glaze"));
    assert_eq!(curve.token_symbol, String::from("GLZ"));
    assert_eq!(curve.virtual_sol_reserves, VIRTUAL_SOL_INITIAL);
    assert_eq!(curve.virtual_token_reserves, VIRTUAL_TOKEN_INITIAL);
    assert_eq!(curve.real_sol_reserves, 0);
    assert_eq!(curve.real_token_reserves, CURVE_SUPPLY);
    assert_eq!(curve.tokens_sold, 0);
    assert_eq!(curve.total_volume, 0);
    assert_eq!(curve.creator_fees_collected, 0);
    assert!(!curve.is_live_streaming);
    assert!(!curve.graduated);
    assert!(!curve.freeze_creator_allocation);
    assert_eq!(curve.created_at, 1_700_000_000);
    assert_eq!(curve.last_stream_check, 1_700_000_000);
}

#[test]
fn create_token_rejects_long_metadata() {
    let long_name = create_token(
        key(1),
        key(2),
        "a".repeat(33),
        String::from("GLZ"),
        String::from("u"),
        String::new(),
        String::new(),
        false,
        0,
    );
    assert_eq!(long_name.unwrap_err(), ZeroglazeError::NameTooLong);

    let long_symbol = create_token(
        key(1),
        key(2),
        String::from("Glaze"),
        "s".repeat(11),
        String::from("u"),
        String::new(),
        String::new(),
        false,
        0,
    );
    assert_eq!(long_symbol.unwrap_err(), ZeroglazeError::SymbolTooLong);

    let long_uri = create_token(
        key(1),
        key(2),
        String::from("Glaze"),
        String::from("GLZ"),
        "u".repeat(201),
        String::new(),
        String::new(),
        false,
        0,
    );
    assert_eq!(long_uri.unwrap_err(), ZeroglazeError::UriTooLong);
}

#[test]
fn buy_updates_state_and_returns_plan() {
    let mut curve = fresh_curve();
    update_stream_status(&mut curve, true, 1_700_000_100);

    let plan = buy_tokens(&mut curve, 1_000_000, u64::MAX).unwrap();
    assert_eq!(plan.sol_to_curve, 27_985_074);
    assert_eq!(plan.platform_fee, 279_850);
    assert_eq!(plan.creator_fee, 559_701);
    assert_eq!(plan.tokens_to_buyer, 1_000_000);
    assert_eq!(plan.total_cost, 28_824_625);

    assert_eq!(curve.virtual_sol_reserves, 30_027_985_074);
    assert_eq!(curve.virtual_token_reserves, 1_072_000_000);
    assert_eq!(curve.real_sol_reserves, 27_985_074);
    assert_eq!(curve.real_token_reserves, CURVE_SUPPLY - 1_000_000);
    assert_eq!(curve.tokens_sold, 1_000_000);
    assert_eq!(curve.total_volume, 28_824_625);
    assert_eq!(curve.creator_fees_collected, 559_701);
    assert!(!curve.graduated);
}

#[test]
fn buy_rejects_zero_amount() {
    let mut curve = fresh_curve();
    let before = curve.clone();
    assert_eq!(
        buy_tokens(&mut curve, 0, u64::MAX).unwrap_err(),
        ZeroglazeError::InvalidAmount
    );
    assert_eq!(curve, before);
}

#[test]
fn buy_respects_slippage_bound() {
    let mut curve = fresh_curve();
    let before = curve.clone();
    // The cheapest this buy can be is 28_320_894 lamports offline.
    assert_eq!(
        buy_tokens(&mut curve, 1_000_000, 28_320_893).unwrap_err(),
        ZeroglazeError::SlippageExceeded
    );
    assert_eq!(curve, before);
    let plan = buy_tokens(&mut curve, 1_000_000, 28_320_894).unwrap();
    assert_eq!(plan.total_cost, 28_320_894);
}

#[test]
fn buy_of_exact_remainder_succeeds_and_one_more_fails() {
    let mut curve = fresh_curve();
    let before = curve.clone();
    assert_eq!(
        buy_tokens(&mut curve, CURVE_SUPPLY + 1, u64::MAX).unwrap_err(),
        ZeroglazeError::InsufficientCurveSupply
    );
    assert_eq!(curve, before);

    buy_tokens(&mut curve, 1_000_000, u64::MAX).unwrap();
    let remainder = CURVE_SUPPLY - curve.tokens_sold;
    let over = curve.clone();
    let mut over_curve = over.clone();
    assert_eq!(
        buy_tokens(&mut over_curve, remainder + 1, u64::MAX).unwrap_err(),
        ZeroglazeError::InsufficientCurveSupply
    );
    assert_eq!(over_curve, over);

    buy_tokens(&mut curve, remainder, u64::MAX).unwrap();
    assert_eq!(curve.tokens_sold, CURVE_SUPPLY);
    assert_eq!(curve.real_token_reserves, 0);
}

#[test]
fn buying_out_the_curve_graduates_it() {
    let mut curve = fresh_curve();
    let plan = buy_tokens(&mut curve, CURVE_SUPPLY, u64::MAX).unwrap();
    assert_eq!(plan.sol_to_curve, 87_912_087_912);
    assert_eq!(plan.platform_fee, 879_120_879);
    assert_eq!(plan.creator_fee, 175_824_175);
    assert_eq!(plan.total_cost, 88_967_032_966);
    assert!(curve.real_sol_reserves >= GRADUATION_THRESHOLD_SOL);
    assert!(curve.graduated);

    // The terminal state rejects any further trade.
    let graduated = curve.clone();
    assert_eq!(
        buy_tokens(&mut curve, 1, u64::MAX).unwrap_err(),
        ZeroglazeError::TokenGraduated
    );
    assert_eq!(
        sell_tokens(&mut curve, 1, 0).unwrap_err(),
        ZeroglazeError::TokenGraduated
    );
    assert_eq!(curve, graduated);
}

#[test]
fn sell_without_liquidity_is_rejected_and_state_kept() {
    let mut curve = fresh_curve();
    update_stream_status(&mut curve, true, 1_700_000_100);
    buy_tokens(&mut curve, 1_000_000, u64::MAX).unwrap();
    // Rounding prices the immediate sell-back one lamport above what
    // the buy deposited, so the curve cannot pay it out.
    let before = curve.clone();
    assert_eq!(
        sell_tokens(&mut curve, 1_000_000, 0).unwrap_err(),
        ZeroglazeError::InsufficientLiquidity
    );
    assert_eq!(curve, before);
}

#[test]
fn sell_updates_state_and_returns_plan() {
    let mut curve = fresh_curve();
    update_stream_status(&mut curve, true, 1_700_000_100);
    buy_tokens(&mut curve, 2_000_000, u64::MAX).unwrap();

    let plan = sell_tokens(&mut curve, 1_000_000, 0).unwrap();
    assert_eq!(plan.tokens_to_curve, 1_000_000);
    assert_eq!(plan.gross_output, 28_037_335);
    assert_eq!(plan.platform_fee, 280_373);
    assert_eq!(plan.creator_fee, 560_746);
    assert_eq!(plan.sol_to_seller, 27_196_216);

    assert_eq!(curve.virtual_sol_reserves, 30_027_985_073);
    assert_eq!(curve.virtual_token_reserves, 1_072_000_000);
    assert_eq!(curve.real_sol_reserves, 27_985_073);
    assert_eq!(curve.real_token_reserves, CURVE_SUPPLY - 1_000_000);
    assert_eq!(curve.tokens_sold, 1_000_000);
    assert_eq!(curve.total_volume, 85_740_415);
    assert_eq!(curve.creator_fees_collected, 1_681_194);
    assert!(!curve.graduated);
}

#[test]
fn sell_then_buy_back_costs_more_than_it_paid() {
    let mut curve = fresh_curve();
    update_stream_status(&mut curve, true, 1_700_000_100);
    buy_tokens(&mut curve, 2_000_000, u64::MAX).unwrap();

    let sell_plan = sell_tokens(&mut curve, 1_000_000, 0).unwrap();
    let buy_plan = buy_tokens(&mut curve, 1_000_000, u64::MAX).unwrap();
    assert!(buy_plan.total_cost >= sell_plan.sol_to_seller);
    assert_eq!(buy_plan.total_cost, 28_878_453);
}

#[test]
fn sell_rejects_zero_amount_and_slippage() {
    let mut curve = fresh_curve();
    buy_tokens(&mut curve, 1_000_000, u64::MAX).unwrap();
    let before = curve.clone();
    assert_eq!(
        sell_tokens(&mut curve, 0, 0).unwrap_err(),
        ZeroglazeError::InvalidAmount
    );
    assert_eq!(
        sell_tokens(&mut curve, 500_000, u64::MAX).unwrap_err(),
        ZeroglazeError::SlippageExceeded
    );
    assert_eq!(curve, before);
}

#[test]
fn sell_of_more_than_sold_is_rejected() {
    // A curve with plenty of liquidity but only one million units
    // ever sold: offering two million back underflows the sold
    // counter and is refused before any state changes.
    let mut curve = fresh_curve();
    buy_tokens(&mut curve, 1_000_000, u64::MAX).unwrap();
    curve.real_sol_reserves = 60_000_000_000;
    let before = curve.clone();
    assert_eq!(
        sell_tokens(&mut curve, 2_000_000, 0).unwrap_err(),
        ZeroglazeError::MathOverflow
    );
    assert_eq!(curve, before);
}

#[test]
fn update_stream_status_only_touches_flag_and_time() {
    let mut curve = fresh_curve();
    let before = curve.clone();
    update_stream_status(&mut curve, true, 1_700_000_200);
    assert!(curve.is_live_streaming);
    assert_eq!(curve.last_stream_check, 1_700_000_200);
    let mut expected = before;
    expected.is_live_streaming = true;
    expected.last_stream_check = 1_700_000_200;
    assert_eq!(curve, expected);

    update_stream_status(&mut curve, false, 1_700_000_300);
    assert!(!curve.is_live_streaming);
    assert_eq!(curve.last_stream_check, 1_700_000_300);
}
