use zeroglaze::constants::BPS_DENOMINATOR;
use zeroglaze::errors::ZeroglazeError;
use zeroglaze::utils::{calculate_buy_cost, calculate_fee, calculate_sell_output};

#[test]
fn test_calculate_fee() {
    // 1% of 1 SOL
    let fee = calculate_fee(1_000_000_000, 100).unwrap();
    assert_eq!(fee, 10_000_000);

    // 2% of 10 SOL
    let fee = calculate_fee(10_000_000_000, 200).unwrap();
    assert_eq!(fee, 200_000_000);
}

#[test]
fn test_buy_cost_calculation() {
    let (sol_required, platform_fee, creator_fee, total) =
        calculate_buy_cost(30_000_000_000, 1_073_000_000, 1_000_000, true).unwrap();

    assert!(sol_required > 0);
    assert_eq!(platform_fee, sol_required / 100);
    assert_eq!(creator_fee, sol_required * 2 / 100);
    assert_eq!(total, sol_required + platform_fee + creator_fee);
}

#[test]
fn fee_full_rate_returns_amount_and_zero_rate_nothing() {
    for amount in [0u64, 1, 99, 12_345, 1_000_000_007, u64::MAX] {
        assert_eq!(calculate_fee(amount, BPS_DENOMINATOR as u16).unwrap(), amount);
        assert_eq!(calculate_fee(amount, 0).unwrap(), 0);
    }
}

#[test]
fn fee_truncates_toward_zero() {
    // 1% of 99 lamports truncates to nothing.
    assert_eq!(calculate_fee(99, 100).unwrap(), 0);
    assert_eq!(calculate_fee(100, 100).unwrap(), 1);
    assert_eq!(calculate_fee(199, 100).unwrap(), 1);
}

#[test]
fn buy_cost_exact_values_live() {
    let (sol_required, platform_fee, creator_fee, total) =
        calculate_buy_cost(30_000_000_000, 1_073_000_000, 1_000_000, true).unwrap();
    assert_eq!(sol_required, 27_985_074);
    assert_eq!(platform_fee, 279_850);
    assert_eq!(creator_fee, 559_701);
    assert_eq!(total, 28_824_625);
}

#[test]
fn buy_cost_exact_values_offline() {
    let (sol_required, platform_fee, creator_fee, total) =
        calculate_buy_cost(30_000_000_000, 1_073_000_000, 1_000_000, false).unwrap();
    assert_eq!(sol_required, 27_985_074);
    assert_eq!(platform_fee, 279_850);
    assert_eq!(creator_fee, 55_970);
    assert_eq!(total, 28_320_894);
}

#[test]
fn sell_output_exact_values_live() {
    let (sol_to_return, platform_fee, creator_fee, net) =
        calculate_sell_output(30_000_000_000, 1_073_000_000, 1_000_000, true).unwrap();
    assert_eq!(sol_to_return, 27_932_961);
    assert_eq!(platform_fee, 279_329);
    assert_eq!(creator_fee, 558_659);
    assert_eq!(net, 27_094_973);
}

#[test]
fn buy_cost_rejects_amount_above_virtual_reserve() {
    let result = calculate_buy_cost(30_000_000_000, 1_073_000_000, 2_000_000_000, false);
    assert_eq!(result, Err(ZeroglazeError::MathOverflow));
}

#[test]
fn buy_cost_rejects_unrepresentable_quotient() {
    let result = calculate_buy_cost(u64::MAX, u64::MAX, 1, false);
    assert_eq!(result, Err(ZeroglazeError::MathOverflow));
}

#[test]
fn sell_output_rejects_token_reserve_overflow() {
    let result = calculate_sell_output(1, u64::MAX, 1, false);
    assert_eq!(result, Err(ZeroglazeError::MathOverflow));
}

#[test]
fn round_trip_through_raw_prices_loses_value() {
    // Sell against some reserves, then buy the same amount back at
    // the reserves the sell left behind: fees and rounding make the
    // buy cost at least the sell's net output.
    let (gross_sell, _, _, net_sell) =
        calculate_sell_output(30_000_000_000, 1_073_000_000, 5_000_000, false).unwrap();
    let mid_vsol = 30_000_000_000 - gross_sell;
    let (_, _, _, total_buy) =
        calculate_buy_cost(mid_vsol, 1_078_000_000, 5_000_000, false).unwrap();
    assert!(total_buy >= net_sell);
}
