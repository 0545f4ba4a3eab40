use vstd::prelude::*;

use crate::constants::{
    BPS_DENOMINATOR, CREATOR_FEE_LIVE_BPS, CREATOR_FEE_OFFLINE_BPS, PLATFORM_FEE_BPS,
};
use crate::errors::ZeroglazeError;
use vstd::arithmetic::div_mod::{
    lemma_div_is_ordered, lemma_div_multiples_vanish, lemma_div_pos_is_pos,
    lemma_fundamental_div_mod, lemma_mod_division_less_than_divisor,
};
use vstd::arithmetic::mul::{
    lemma_mul_inequality, lemma_mul_is_commutative, lemma_mul_is_distributive_sub,
    lemma_mul_nonnegative, lemma_mul_strict_inequality_converse, lemma_mul_upper_bound,
};

verus! {

/// Fee owed on `amount` at a rate of `fee_bps` basis points,
/// truncated toward zero.
pub open spec fn fee_int(amount: int, fee_bps: int) -> int {
    amount * fee_bps / (BPS_DENOMINATOR as int)
}

/// The creator fee tier: a higher rate while the creator is live,
/// a lower one otherwise. This is the only place the live flag
/// affects economics.
pub open spec fn creator_fee_rate(is_live: bool) -> u16 {
    if is_live {
        CREATOR_FEE_LIVE_BPS
    } else {
        CREATOR_FEE_OFFLINE_BPS
    }
}

/// The constant product of the two virtual reserves.
pub open spec fn curve_k(vsol: int, vtoken: int) -> int {
    vsol * vtoken
}

/// Virtual currency reserve after buying `amount` token units:
/// the constant product divided by the shrunken token reserve,
/// truncated.
pub open spec fn buy_new_sol_reserves(vsol: int, vtoken: int, amount: int) -> int {
    curve_k(vsol, vtoken) / (vtoken - amount)
}

/// Gross currency cost of buying `amount` token units, before fees.
pub open spec fn buy_gross_cost(vsol: int, vtoken: int, amount: int) -> int {
    buy_new_sol_reserves(vsol, vtoken, amount) - vsol
}

/// Total currency cost of a buy: gross cost plus both fee tiers.
pub open spec fn buy_total_cost(vsol: int, vtoken: int, amount: int, is_live: bool) -> int {
    let gross = buy_gross_cost(vsol, vtoken, amount);
    gross + fee_int(gross, PLATFORM_FEE_BPS as int) + fee_int(
        gross,
        creator_fee_rate(is_live) as int,
    )
}

/// Virtual currency reserve after selling `amount` token units back
/// into the curve.
pub open spec fn sell_new_sol_reserves(vsol: int, vtoken: int, amount: int) -> int {
    curve_k(vsol, vtoken) / (vtoken + amount)
}

/// Gross currency output of selling `amount` token units, before fees.
pub open spec fn sell_gross_output(vsol: int, vtoken: int, amount: int) -> int {
    vsol - sell_new_sol_reserves(vsol, vtoken, amount)
}

/// Net currency output of a sell: gross output minus both fee tiers.
pub open spec fn sell_net_output(vsol: int, vtoken: int, amount: int, is_live: bool) -> int {
    let gross = sell_gross_output(vsol, vtoken, amount);
    gross - fee_int(gross, PLATFORM_FEE_BPS as int) - fee_int(
        gross,
        creator_fee_rate(is_live) as int,
    )
}

/// A fee at a rate of at most 100% never exceeds the amount itself,
/// and is never negative.
pub proof fn lemma_fee_bounds(amount: int, fee_bps: int)
    requires
        0 <= amount,
        0 <= fee_bps <= BPS_DENOMINATOR,
    ensures
        0 <= fee_int(amount, fee_bps) <= amount,
{
    let d = BPS_DENOMINATOR as int;
    lemma_div_pos_is_pos(amount * fee_bps, d);
    lemma_mul_inequality(fee_bps, d, amount);
    lemma_mul_is_commutative(amount, fee_bps);
    lemma_mul_is_commutative(amount, d);
    lemma_div_is_ordered(amount * fee_bps, amount * d, d);
    lemma_mul_is_commutative(amount, d);
    lemma_div_multiples_vanish(amount, d);
    assert(amount * d / d == amount);
}

/// The two fee tiers together never exceed the gross amount: their
/// combined rate stays below 100%, and truncation only shrinks each
/// addend.
pub proof fn lemma_fee_sum_le_amount(amount: int, bps_a: int, bps_b: int)
    requires
        0 <= amount,
        0 <= bps_a,
        0 <= bps_b,
        bps_a + bps_b <= BPS_DENOMINATOR,
    ensures
        0 <= fee_int(amount, bps_a) + fee_int(amount, bps_b) <= amount,
{
    let d = BPS_DENOMINATOR as int;
    let x = amount * bps_a;
    let y = amount * bps_b;
    lemma_fee_bounds(amount, bps_a);
    lemma_fee_bounds(amount, bps_b);
    // Truncated division is superadditive: x / d + y / d <= (x + y) / d.
    lemma_fundamental_div_mod(x, d);
    lemma_fundamental_div_mod(y, d);
    lemma_fundamental_div_mod(x + y, d);
    lemma_mod_division_less_than_divisor(x, d);
    lemma_mod_division_less_than_divisor(y, d);
    lemma_mod_division_less_than_divisor(x + y, d);
    assert(d * ((x + y) / d) + (x + y) % d == d * (x / d) + x % d + d * (y / d) + y % d);
    assert((x + y) / d >= x / d + y / d) by (nonlinear_arith)
        requires
            d > 0,
            d * ((x + y) / d) + (x + y) % d == d * (x / d) + x % d + d * (y / d) + y % d,
            0 <= x % d < d,
            0 <= y % d < d,
            0 <= (x + y) % d < d,
    ;
    // And the combined amount is at most a 100% fee.
    vstd::arithmetic::mul::lemma_mul_is_distributive_add(amount, bps_a, bps_b);
    assert(x + y == amount * (bps_a + bps_b));
    lemma_mul_inequality(bps_a + bps_b, d, amount);
    lemma_mul_is_commutative(amount, bps_a + bps_b);
    lemma_mul_is_commutative(amount, d);
    lemma_div_is_ordered(x + y, amount * d, d);
    lemma_div_multiples_vanish(amount, d);
    assert(amount * d / d == amount);
}

/// At a 100% rate the fee is the whole amount; at a 0% rate it is
/// nothing.
pub proof fn lemma_fee_rate_identity(amount: u64)
    ensures
        fee_int(amount as int, BPS_DENOMINATOR as int) == amount,
        fee_int(amount as int, 0) == 0,
{
    let d = BPS_DENOMINATOR as int;
    lemma_mul_is_commutative(amount as int, d);
    lemma_div_multiples_vanish(amount as int, d);
    assert(amount as int * 0 == 0) by (nonlinear_arith);
    lemma_div_pos_is_pos(0, d);
    assert(0int / d == 0) by {
        lemma_div_multiples_vanish(0, d);
    }
}

/// Pricing a buy rounds the required payment down by less than one
/// unit of the division that prices it: the new product of virtual
/// reserves never exceeds the old one, and falls short of it by less
/// than the shrunken token reserve. The new currency reserve never
/// shrinks.
pub proof fn lemma_buy_rounding_bounded(vsol: u64, vtoken: u64, token_amount: u64)
    requires
        0 < token_amount < vtoken,
    ensures
        ({
            let shrunk = vtoken - token_amount;
            let new_vsol = buy_new_sol_reserves(vsol as int, vtoken as int, token_amount as int);
            &&& new_vsol >= vsol
            &&& new_vsol * shrunk <= curve_k(vsol as int, vtoken as int)
            &&& curve_k(vsol as int, vtoken as int) - new_vsol * shrunk < shrunk
        }),
{
    let vs = vsol as int;
    let vt = vtoken as int;
    let shrunk = vt - token_amount;
    let k = curve_k(vs, vt);
    let quotient = k / shrunk;
    lemma_mul_nonnegative(vs, vt);
    lemma_fundamental_div_mod(k, shrunk);
    lemma_mod_division_less_than_divisor(k, shrunk);
    lemma_mul_is_commutative(quotient, shrunk);
    assert(quotient * shrunk == k - k % shrunk);
    lemma_mul_inequality(shrunk, vt, vs);
    lemma_mul_is_commutative(vs, shrunk);
    lemma_mul_is_commutative(vs, vt);
    lemma_div_is_ordered(shrunk * vs, k, shrunk);
    lemma_div_multiples_vanish(vs, shrunk);
}

/// When the shrunken token reserve divides the constant product
/// exactly, a buy preserves the product to the unit: the new product
/// is no smaller than the old one.
pub proof fn lemma_buy_preserves_product(vsol: u64, vtoken: u64, token_amount: u64)
    requires
        0 < token_amount < vtoken,
        curve_k(vsol as int, vtoken as int) % (vtoken - token_amount) == 0,
    ensures
        buy_new_sol_reserves(vsol as int, vtoken as int, token_amount as int) * (vtoken
            - token_amount) >= curve_k(vsol as int, vtoken as int),
{
    lemma_buy_rounding_bounded(vsol, vtoken, token_amount);
    let vt = vtoken as int;
    let shrunk = vt - token_amount;
    let k = curve_k(vsol as int, vt);
    lemma_fundamental_div_mod(k, shrunk);
    lemma_mul_is_commutative(k / shrunk, shrunk);
}

/// A sell followed immediately by a buy of the same number of units
/// at an unchanged live flag loses value to fees and rounding: the
/// buy's total cost is at least the sell's net output. Rounding can
/// hand the trader at most two units across the round trip, so the
/// law asks that the sell's platform fee cover them.
pub proof fn lemma_sell_buy_round_trip(vsol: u64, vtoken: u64, token_amount: u64, is_live: bool)
    requires
        0 < token_amount <= vtoken,
        fee_int(
            sell_gross_output(vsol as int, vtoken as int, token_amount as int),
            PLATFORM_FEE_BPS as int,
        ) >= 2,
    ensures
        buy_total_cost(
            sell_new_sol_reserves(vsol as int, vtoken as int, token_amount as int),
            vtoken + token_amount,
            token_amount as int,
            is_live,
        ) >= sell_net_output(vsol as int, vtoken as int, token_amount as int, is_live),
{
    let vs = vsol as int;
    let vt = vtoken as int;
    let amount = token_amount as int;
    let k = curve_k(vs, vt);
    let grown = vt + amount;
    let mid_vsol = k / grown;
    let sell_slack = k % grown;
    lemma_mul_nonnegative(vs, vt);
    lemma_fundamental_div_mod(k, grown);
    lemma_mod_division_less_than_divisor(k, grown);
    lemma_div_pos_is_pos(k, grown);
    // The sell's quotient never exceeds the old currency reserve.
    lemma_mul_inequality(vt, grown, vs);
    lemma_mul_is_commutative(vs, grown);
    lemma_mul_is_commutative(vs, vt);
    lemma_div_is_ordered(k, grown * vs, grown);
    lemma_div_multiples_vanish(vs, grown);
    let gross_sell = vs - mid_vsol;
    assert(gross_sell == sell_gross_output(vs, vt, amount));
    // The buy prices against (mid_vsol, grown); its shrunken token
    // reserve is the starting one again.
    let mid_k = curve_k(mid_vsol, grown);
    assert(mid_k == k - sell_slack) by {
        lemma_mul_is_commutative(mid_vsol, grown);
    }
    let quotient = mid_k / vt;
    let buy_slack = mid_k % vt;
    lemma_fundamental_div_mod(mid_k, vt);
    lemma_mod_division_less_than_divisor(mid_k, vt);
    assert(vt * quotient == mid_k - buy_slack);
    // Both truncations together cost less than three token-reserve
    // units, so the buy's quotient recovers all but two of the
    // currency units the sell released.
    assert(sell_slack <= 2 * vt - 1);
    assert(vt * quotient > vt * (vs - 3)) by {
        lemma_mul_is_distributive_sub(vt, vs, 3);
        lemma_mul_is_commutative(vt, vs);
    }
    lemma_mul_is_commutative(vt, quotient);
    lemma_mul_is_commutative(vt, vs - 3);
    lemma_mul_strict_inequality_converse(vs - 3, quotient, vt);
    assert(quotient >= vs - 2);
    // The buy's gross cost is nonnegative.
    lemma_mul_inequality(vt, grown, mid_vsol);
    lemma_mul_is_commutative(mid_vsol, vt);
    lemma_mul_is_commutative(mid_vsol, grown);
    lemma_div_is_ordered(vt * mid_vsol, mid_k, vt);
    lemma_div_multiples_vanish(mid_vsol, vt);
    let gross_buy = quotient - mid_vsol;
    assert(grown - amount == vt);
    assert(gross_buy == buy_gross_cost(mid_vsol, grown, amount));
    lemma_fee_bounds(gross_buy, PLATFORM_FEE_BPS as int);
    lemma_fee_bounds(gross_buy, creator_fee_rate(is_live) as int);
    lemma_fee_bounds(gross_sell, creator_fee_rate(is_live) as int);
    assert(buy_total_cost(mid_vsol, grown, amount, is_live) >= gross_buy);
    assert(sell_net_output(vs, vt, amount, is_live) <= gross_sell - 2);
    assert(gross_buy >= gross_sell - 2);
}

/// A buy followed immediately by a sell of the same number of units
/// at an unchanged live flag loses value to fees and rounding: the
/// buy's total cost is at least the sell's net output. Rounding can
/// hand the trader at most one unit in this direction, so the law
/// asks that the buy's platform fee cover it.
pub proof fn lemma_buy_sell_round_trip(vsol: u64, vtoken: u64, token_amount: u64, is_live: bool)
    requires
        0 < token_amount < vtoken,
        fee_int(
            buy_gross_cost(vsol as int, vtoken as int, token_amount as int),
            PLATFORM_FEE_BPS as int,
        ) >= 1,
    ensures
        buy_total_cost(vsol as int, vtoken as int, token_amount as int, is_live)
            >= sell_net_output(
            buy_new_sol_reserves(vsol as int, vtoken as int, token_amount as int),
            vtoken - token_amount,
            token_amount as int,
            is_live,
        ),
{
    let vs = vsol as int;
    let vt = vtoken as int;
    let amount = token_amount as int;
    let k = curve_k(vs, vt);
    let shrunk = vt - amount;
    let mid_vsol = k / shrunk;
    let buy_slack = k % shrunk;
    lemma_mul_nonnegative(vs, vt);
    lemma_fundamental_div_mod(k, shrunk);
    lemma_mod_division_less_than_divisor(k, shrunk);
    lemma_div_pos_is_pos(k, shrunk);
    // The buy's quotient is at least the old currency reserve.
    lemma_mul_inequality(shrunk, vt, vs);
    lemma_mul_is_commutative(vs, shrunk);
    lemma_mul_is_commutative(vs, vt);
    lemma_div_is_ordered(shrunk * vs, k, shrunk);
    lemma_div_multiples_vanish(vs, shrunk);
    let gross_buy = mid_vsol - vs;
    assert(gross_buy == buy_gross_cost(vs, vt, amount));
    // The sell prices against (mid_vsol, shrunk); its grown token
    // reserve is the starting one again.
    let mid_k = curve_k(mid_vsol, shrunk);
    assert(mid_k == k - buy_slack) by {
        lemma_mul_is_commutative(mid_vsol, shrunk);
    }
    let quotient = mid_k / vt;
    let sell_slack = mid_k % vt;
    lemma_fundamental_div_mod(mid_k, vt);
    lemma_mod_division_less_than_divisor(mid_k, vt);
    assert(vt * quotient == mid_k - sell_slack);
    // Both truncations together cost less than two token-reserve
    // units, so the sell's quotient keeps all but one of the currency
    // units the buy charged.
    assert(buy_slack <= vt - 1);
    assert(vt * quotient > vt * (vs - 2)) by {
        lemma_mul_is_distributive_sub(vt, vs, 2);
        lemma_mul_is_commutative(vt, vs);
    }
    lemma_mul_is_commutative(vt, quotient);
    lemma_mul_is_commutative(vt, vs - 2);
    lemma_mul_strict_inequality_converse(vs - 2, quotient, vt);
    assert(quotient >= vs - 1);
    // The sell's gross output is nonnegative.
    lemma_mul_inequality(shrunk, vt, mid_vsol);
    lemma_mul_is_commutative(mid_vsol, vt);
    lemma_mul_is_commutative(mid_vsol, shrunk);
    lemma_div_is_ordered(mid_k, vt * mid_vsol, vt);
    lemma_div_multiples_vanish(mid_vsol, vt);
    let gross_sell = mid_vsol - quotient;
    assert(shrunk + amount == vt);
    assert(gross_sell == sell_gross_output(mid_vsol, shrunk, amount));
    lemma_fee_bounds(gross_buy, PLATFORM_FEE_BPS as int);
    lemma_fee_bounds(gross_buy, creator_fee_rate(is_live) as int);
    lemma_fee_bounds(gross_sell, PLATFORM_FEE_BPS as int);
    lemma_fee_bounds(gross_sell, creator_fee_rate(is_live) as int);
    assert(buy_total_cost(vs, vt, amount, is_live) >= gross_buy + 1);
    assert(sell_net_output(mid_vsol, shrunk, amount, is_live) <= gross_sell);
    assert(gross_sell <= gross_buy + 1);
}

/// Fee owed on `amount` at `fee_bps` basis points, truncating toward
/// zero, computed at 128-bit precision so the product cannot overflow.
pub fn calculate_fee(amount: u64, fee_bps: u16) -> (result: Result<u64, ZeroglazeError>)
    requires
        fee_bps <= BPS_DENOMINATOR,
    ensures
        result matches Ok(fee) && fee == fee_int(amount as int, fee_bps as int),
{
    proof {
        lemma_fee_bounds(amount as int, fee_bps as int);
    }
    let wide = match (amount as u128).checked_mul(fee_bps as u128) {
        Some(product) => product,
        None => {
            return Err(ZeroglazeError::MathOverflow);
        },
    };
    let fee = match wide.checked_div(BPS_DENOMINATOR as u128) {
        Some(quotient) => quotient,
        None => {
            return Err(ZeroglazeError::InvalidFee);
        },
    };
    Ok(fee as u64)
}

/// Price a buy of `token_amount` units against the given virtual
/// reserves: returns `(gross_cost, platform_fee, creator_fee,
/// total_cost)`. Buying the whole virtual token reserve is excluded:
/// the constant product would be divided by zero.
pub fn calculate_buy_cost(
    virtual_sol_reserves: u64,
    virtual_token_reserves: u64,
    token_amount: u64,
    is_live: bool,
) -> (result: Result<(u64, u64, u64, u64), ZeroglazeError>)
    requires
        token_amount != virtual_token_reserves,
    ensures
        token_amount > virtual_token_reserves ==> result == Err::<
            (u64, u64, u64, u64),
            ZeroglazeError,
        >(ZeroglazeError::MathOverflow),
        token_amount < virtual_token_reserves ==> {
            let vsol = virtual_sol_reserves as int;
            let vtoken = virtual_token_reserves as int;
            let amount = token_amount as int;
            let gross = buy_gross_cost(vsol, vtoken, amount);
            let total = buy_total_cost(vsol, vtoken, amount, is_live);
            if buy_new_sol_reserves(vsol, vtoken, amount) > u64::MAX {
                result == Err::<(u64, u64, u64, u64), ZeroglazeError>(ZeroglazeError::MathOverflow)
            } else if total > u64::MAX {
                result == Err::<(u64, u64, u64, u64), ZeroglazeError>(ZeroglazeError::MathOverflow)
            } else {
                result matches Ok(r) && r.0 == gross && r.1 == fee_int(
                    gross,
                    PLATFORM_FEE_BPS as int,
                ) && r.2 == fee_int(gross, creator_fee_rate(is_live) as int) && r.3 == total
            }
        },
{
    proof {
        lemma_mul_upper_bound(
            virtual_sol_reserves as int,
            u64::MAX as int,
            virtual_token_reserves as int,
            u64::MAX as int,
        );
        assert((u64::MAX as int) * (u64::MAX as int) <= u128::MAX as int) by (nonlinear_arith);
    }
    let k: u128 = (virtual_sol_reserves as u128) * (virtual_token_reserves as u128);
    let new_virtual_token_reserves = match virtual_token_reserves.checked_sub(token_amount) {
        Some(reserves) => reserves,
        None => {
            return Err(ZeroglazeError::MathOverflow);
        },
    };
    let quotient: u128 = k / (new_virtual_token_reserves as u128);
    if quotient > u64::MAX as u128 {
        return Err(ZeroglazeError::MathOverflow);
    }
    let new_virtual_sol_reserves = quotient as u64;
    proof {
        let vsol = virtual_sol_reserves as int;
        let vtoken = virtual_token_reserves as int;
        let shrunk = new_virtual_token_reserves as int;
        lemma_mul_inequality(shrunk, vtoken, vsol);
        lemma_mul_is_commutative(vsol, shrunk);
        lemma_mul_is_commutative(vsol, vtoken);
        lemma_div_is_ordered(shrunk * vsol, vsol * vtoken, shrunk);
        lemma_div_multiples_vanish(vsol, shrunk);
    }
    let sol_required = new_virtual_sol_reserves - virtual_sol_reserves;
    let platform_fee = match calculate_fee(sol_required, PLATFORM_FEE_BPS) {
        Ok(fee) => fee,
        Err(error) => {
            return Err(error);
        },
    };
    let creator_fee_result = if is_live {
        calculate_fee(sol_required, CREATOR_FEE_LIVE_BPS)
    } else {
        calculate_fee(sol_required, CREATOR_FEE_OFFLINE_BPS)
    };
    let creator_fee = match creator_fee_result {
        Ok(fee) => fee,
        Err(error) => {
            return Err(error);
        },
    };
    let cost_with_platform_fee = match sol_required.checked_add(platform_fee) {
        Some(cost) => cost,
        None => {
            return Err(ZeroglazeError::MathOverflow);
        },
    };
    let total_cost = match cost_with_platform_fee.checked_add(creator_fee) {
        Some(cost) => cost,
        None => {
            return Err(ZeroglazeError::MathOverflow);
        },
    };
    Ok((sol_required, platform_fee, creator_fee, total_cost))
}

/// Price a sell of `token_amount` units against the given virtual
/// reserves: returns `(gross_output, platform_fee, creator_fee,
/// net_output)`. An empty curve with an empty offer is excluded: the
/// constant product would be divided by zero.
pub fn calculate_sell_output(
    virtual_sol_reserves: u64,
    virtual_token_reserves: u64,
    token_amount: u64,
    is_live: bool,
) -> (result: Result<(u64, u64, u64, u64), ZeroglazeError>)
    requires
        virtual_token_reserves + token_amount > 0,
    ensures
        virtual_token_reserves + token_amount > u64::MAX ==> result == Err::<
            (u64, u64, u64, u64),
            ZeroglazeError,
        >(ZeroglazeError::MathOverflow),
        virtual_token_reserves + token_amount <= u64::MAX ==> {
            let vsol = virtual_sol_reserves as int;
            let vtoken = virtual_token_reserves as int;
            let amount = token_amount as int;
            let gross = sell_gross_output(vsol, vtoken, amount);
            result matches Ok(r) && r.0 == gross && r.1 == fee_int(gross, PLATFORM_FEE_BPS as int)
                && r.2 == fee_int(gross, creator_fee_rate(is_live) as int) && r.3
                == sell_net_output(vsol, vtoken, amount, is_live)
        },
{
    proof {
        lemma_mul_upper_bound(
            virtual_sol_reserves as int,
            u64::MAX as int,
            virtual_token_reserves as int,
            u64::MAX as int,
        );
        assert((u64::MAX as int) * (u64::MAX as int) <= u128::MAX as int) by (nonlinear_arith);
    }
    let k: u128 = (virtual_sol_reserves as u128) * (virtual_token_reserves as u128);
    let new_virtual_token_reserves = match virtual_token_reserves.checked_add(token_amount) {
        Some(reserves) => reserves,
        None => {
            return Err(ZeroglazeError::MathOverflow);
        },
    };
    let quotient: u128 = k / (new_virtual_token_reserves as u128);
    proof {
        let vsol = virtual_sol_reserves as int;
        let vtoken = virtual_token_reserves as int;
        let grown = new_virtual_token_reserves as int;
        lemma_mul_inequality(vtoken, grown, vsol);
        lemma_mul_is_commutative(vsol, grown);
        lemma_mul_is_commutative(vsol, vtoken);
        lemma_div_is_ordered(vsol * vtoken, grown * vsol, grown);
        lemma_div_multiples_vanish(vsol, grown);
        lemma_div_pos_is_pos(vsol * vtoken, grown);
    }
    let new_virtual_sol_reserves = quotient as u64;
    let sol_to_return = virtual_sol_reserves - new_virtual_sol_reserves;
    let platform_fee = match calculate_fee(sol_to_return, PLATFORM_FEE_BPS) {
        Ok(fee) => fee,
        Err(error) => {
            return Err(error);
        },
    };
    let creator_fee_result = if is_live {
        calculate_fee(sol_to_return, CREATOR_FEE_LIVE_BPS)
    } else {
        calculate_fee(sol_to_return, CREATOR_FEE_OFFLINE_BPS)
    };
    let creator_fee = match creator_fee_result {
        Ok(fee) => fee,
        Err(error) => {
            return Err(error);
        },
    };
    proof {
        lemma_fee_sum_le_amount(
            sol_to_return as int,
            PLATFORM_FEE_BPS as int,
            creator_fee_rate(is_live) as int,
        );
    }
    let net_output = sol_to_return - platform_fee - creator_fee;
    Ok((sol_to_return, platform_fee, creator_fee, net_output))
}

} // verus!
