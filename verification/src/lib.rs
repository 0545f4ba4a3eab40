pub mod constants;
pub mod errors;
pub mod state;
pub mod utils;

use vstd::prelude::*;

use crate::constants::{
    CURVE_SUPPLY, GRADUATION_THRESHOLD_SOL, PLATFORM_FEE_BPS, VIRTUAL_SOL_INITIAL,
    VIRTUAL_TOKEN_INITIAL,
};
use crate::errors::ZeroglazeError;
use crate::state::{BondingCurve, PlatformState, Pubkey};
use crate::utils::{
    buy_gross_cost, buy_new_sol_reserves, buy_total_cost, calculate_buy_cost,
    calculate_sell_output, creator_fee_rate, fee_int, sell_gross_output, sell_net_output,
    sell_new_sol_reserves,
};
use vstd::string::StrSliceExecFns;

verus! {

/// The transfer plan a successful buy returns: the caller moves these
/// amounts on its ledger and nothing else.
#[derive(Clone, Copy, Debug, PartialEq, Eq, Structural)]
pub struct BuyPlan {
    /// Gross cost, paid by the buyer into the curve's real reserve.
    pub sol_to_curve: u64,
    /// Paid by the buyer to the platform fee wallet.
    pub platform_fee: u64,
    /// Paid by the buyer to the creator fee wallet.
    pub creator_fee: u64,
    /// Token units moved out of curve custody to the buyer.
    pub tokens_to_buyer: u64,
    /// Everything the buyer pays: gross cost plus both fees.
    pub total_cost: u64,
}

/// The transfer plan a successful sell returns.
#[derive(Clone, Copy, Debug, PartialEq, Eq, Structural)]
pub struct SellPlan {
    /// Token units moved from the seller into curve custody.
    pub tokens_to_curve: u64,
    /// Net output, paid from the curve's real reserve to the seller.
    pub sol_to_seller: u64,
    /// Paid from the curve's real reserve to the platform fee wallet.
    pub platform_fee: u64,
    /// Paid from the curve's real reserve to the creator fee wallet.
    pub creator_fee: u64,
    /// Gross output leaving the real reserve: net plus both fees.
    pub gross_output: u64,
}

/// The first reason a buy is rejected, in the order the checks are
/// made, or `None` when the buy goes through.
pub open spec fn buy_error(c: BondingCurve, token_amount: u64, max_sol_cost: u64) -> Option<
    ZeroglazeError,
> {
    let vsol = c.virtual_sol_reserves as int;
    let vtoken = c.virtual_token_reserves as int;
    let amount = token_amount as int;
    let live = c.is_live_streaming;
    if c.graduated {
        Some(ZeroglazeError::TokenGraduated)
    } else if token_amount == 0 {
        Some(ZeroglazeError::InvalidAmount)
    } else if c.tokens_sold + amount > CURVE_SUPPLY {
        Some(ZeroglazeError::InsufficientCurveSupply)
    } else if buy_new_sol_reserves(vsol, vtoken, amount) > u64::MAX {
        Some(ZeroglazeError::MathOverflow)
    } else if buy_total_cost(vsol, vtoken, amount, live) > u64::MAX {
        Some(ZeroglazeError::MathOverflow)
    } else if buy_total_cost(vsol, vtoken, amount, live) > max_sol_cost {
        Some(ZeroglazeError::SlippageExceeded)
    } else if c.real_sol_reserves + buy_gross_cost(vsol, vtoken, amount) > u64::MAX
        || c.total_volume + buy_total_cost(vsol, vtoken, amount, live) > u64::MAX
        || c.creator_fees_collected + fee_int(
        buy_gross_cost(vsol, vtoken, amount),
        creator_fee_rate(live) as int,
    ) > u64::MAX {
        Some(ZeroglazeError::MathOverflow)
    } else {
        None
    }
}

/// The curve state after a successful buy of `token_amount` units.
pub open spec fn buy_result_state(c: BondingCurve, token_amount: u64) -> BondingCurve {
    let vsol = c.virtual_sol_reserves as int;
    let vtoken = c.virtual_token_reserves as int;
    let amount = token_amount as int;
    let live = c.is_live_streaming;
    let gross = buy_gross_cost(vsol, vtoken, amount);
    let total = buy_total_cost(vsol, vtoken, amount, live);
    let creator_fee = fee_int(gross, creator_fee_rate(live) as int);
    BondingCurve {
        virtual_sol_reserves: buy_new_sol_reserves(vsol, vtoken, amount) as u64,
        virtual_token_reserves: (vtoken - amount) as u64,
        real_sol_reserves: (c.real_sol_reserves + gross) as u64,
        real_token_reserves: (c.real_token_reserves - amount) as u64,
        tokens_sold: (c.tokens_sold + amount) as u64,
        total_volume: (c.total_volume + total) as u64,
        creator_fees_collected: (c.creator_fees_collected + creator_fee) as u64,
        graduated: c.real_sol_reserves + gross >= GRADUATION_THRESHOLD_SOL,
        ..c
    }
}

/// The transfer plan of a successful buy of `token_amount` units.
pub open spec fn buy_result_plan(c: BondingCurve, token_amount: u64) -> BuyPlan {
    let vsol = c.virtual_sol_reserves as int;
    let vtoken = c.virtual_token_reserves as int;
    let amount = token_amount as int;
    let live = c.is_live_streaming;
    let gross = buy_gross_cost(vsol, vtoken, amount);
    BuyPlan {
        sol_to_curve: gross as u64,
        platform_fee: fee_int(gross, PLATFORM_FEE_BPS as int) as u64,
        creator_fee: fee_int(gross, creator_fee_rate(live) as int) as u64,
        tokens_to_buyer: token_amount,
        total_cost: buy_total_cost(vsol, vtoken, amount, live) as u64,
    }
}

/// Buy `token_amount` units from the curve, paying at most
/// `max_sol_cost` lamports in total. On success the curve state is
/// advanced and a transfer plan returned; on any failure the error is
/// returned and the curve is left untouched. A buy that lifts the real
/// reserve to the graduation threshold sets the terminal `graduated`
/// flag.
pub fn buy_tokens(curve: &mut BondingCurve, token_amount: u64, max_sol_cost: u64) -> (result:
    Result<BuyPlan, ZeroglazeError>)
    requires
        old(curve).wf(),
    ensures
        match buy_error(*old(curve), token_amount, max_sol_cost) {
            Some(error) => result == Err::<BuyPlan, ZeroglazeError>(error) && *final(curve)
                == *old(curve),
            None => {
                &&& result == Ok::<BuyPlan, ZeroglazeError>(buy_result_plan(*old(curve), token_amount))
                &&& *final(curve) == buy_result_state(*old(curve), token_amount)
                &&& (*final(curve)).wf()
            },
        },
{
    if curve.graduated {
        return Err(ZeroglazeError::TokenGraduated);
    }
    if token_amount == 0 {
        return Err(ZeroglazeError::InvalidAmount);
    }
    if token_amount > CURVE_SUPPLY - curve.tokens_sold {
        return Err(ZeroglazeError::InsufficientCurveSupply);
    }
    // The supply guard together with the invariant keeps the trade
    // strictly inside the virtual token reserve.
    let parts = match calculate_buy_cost(
        curve.virtual_sol_reserves,
        curve.virtual_token_reserves,
        token_amount,
        curve.is_live_streaming,
    ) {
        Ok(parts) => parts,
        Err(error) => {
            return Err(error);
        },
    };
    let (sol_required, platform_fee, creator_fee, total_cost) = parts;
    if total_cost > max_sol_cost {
        return Err(ZeroglazeError::SlippageExceeded);
    }
    let new_real_sol_reserves = match curve.real_sol_reserves.checked_add(sol_required) {
        Some(reserves) => reserves,
        None => {
            return Err(ZeroglazeError::MathOverflow);
        },
    };
    let new_total_volume = match curve.total_volume.checked_add(total_cost) {
        Some(volume) => volume,
        None => {
            return Err(ZeroglazeError::MathOverflow);
        },
    };
    let new_creator_fees = match curve.creator_fees_collected.checked_add(creator_fee) {
        Some(fees) => fees,
        None => {
            return Err(ZeroglazeError::MathOverflow);
        },
    };
    curve.virtual_sol_reserves = curve.virtual_sol_reserves + sol_required;
    curve.virtual_token_reserves = curve.virtual_token_reserves - token_amount;
    curve.real_sol_reserves = new_real_sol_reserves;
    curve.real_token_reserves = curve.real_token_reserves - token_amount;
    curve.tokens_sold = curve.tokens_sold + token_amount;
    curve.total_volume = new_total_volume;
    curve.creator_fees_collected = new_creator_fees;
    if curve.real_sol_reserves >= GRADUATION_THRESHOLD_SOL {
        curve.graduated = true;
    }
    Ok(
        BuyPlan {
            sol_to_curve: sol_required,
            platform_fee,
            creator_fee,
            tokens_to_buyer: token_amount,
            total_cost,
        },
    )
}

/// The first reason a sell is rejected, in the order the checks are
/// made, or `None` when the sell goes through.
pub open spec fn sell_error(c: BondingCurve, token_amount: u64, min_sol_output: u64) -> Option<
    ZeroglazeError,
> {
    let vsol = c.virtual_sol_reserves as int;
    let vtoken = c.virtual_token_reserves as int;
    let amount = token_amount as int;
    let live = c.is_live_streaming;
    if c.graduated {
        Some(ZeroglazeError::TokenGraduated)
    } else if token_amount == 0 {
        Some(ZeroglazeError::InvalidAmount)
    } else if vtoken + amount > u64::MAX {
        Some(ZeroglazeError::MathOverflow)
    } else if sell_net_output(vsol, vtoken, amount, live) < min_sol_output {
        Some(ZeroglazeError::SlippageExceeded)
    } else if c.real_sol_reserves < sell_gross_output(vsol, vtoken, amount) {
        Some(ZeroglazeError::InsufficientLiquidity)
    } else if amount > c.tokens_sold || c.total_volume + sell_gross_output(vsol, vtoken, amount)
        > u64::MAX || c.creator_fees_collected + fee_int(
        sell_gross_output(vsol, vtoken, amount),
        creator_fee_rate(live) as int,
    ) > u64::MAX {
        Some(ZeroglazeError::MathOverflow)
    } else {
        None
    }
}

/// The curve state after a successful sell of `token_amount` units.
pub open spec fn sell_result_state(c: BondingCurve, token_amount: u64) -> BondingCurve {
    let vsol = c.virtual_sol_reserves as int;
    let vtoken = c.virtual_token_reserves as int;
    let amount = token_amount as int;
    let live = c.is_live_streaming;
    let gross = sell_gross_output(vsol, vtoken, amount);
    let creator_fee = fee_int(gross, creator_fee_rate(live) as int);
    BondingCurve {
        virtual_sol_reserves: sell_new_sol_reserves(vsol, vtoken, amount) as u64,
        virtual_token_reserves: (vtoken + amount) as u64,
        real_sol_reserves: (c.real_sol_reserves - gross) as u64,
        real_token_reserves: (c.real_token_reserves + amount) as u64,
        tokens_sold: (c.tokens_sold - amount) as u64,
        total_volume: (c.total_volume + gross) as u64,
        creator_fees_collected: (c.creator_fees_collected + creator_fee) as u64,
        ..c
    }
}

/// The transfer plan of a successful sell of `token_amount` units.
pub open spec fn sell_result_plan(c: BondingCurve, token_amount: u64) -> SellPlan {
    let vsol = c.virtual_sol_reserves as int;
    let vtoken = c.virtual_token_reserves as int;
    let amount = token_amount as int;
    let live = c.is_live_streaming;
    let gross = sell_gross_output(vsol, vtoken, amount);
    SellPlan {
        tokens_to_curve: token_amount,
        sol_to_seller: sell_net_output(vsol, vtoken, amount, live) as u64,
        platform_fee: fee_int(gross, PLATFORM_FEE_BPS as int) as u64,
        creator_fee: fee_int(gross, creator_fee_rate(live) as int) as u64,
        gross_output: gross as u64,
    }
}

/// Sell `token_amount` units back to the curve for at least
/// `min_sol_output` lamports net. On success the curve state is
/// advanced and a transfer plan returned; on any failure the error is
/// returned and the curve is left untouched. A sell can never pay out
/// more than the real reserve holds, and never re-evaluates
/// graduation.
pub fn sell_tokens(curve: &mut BondingCurve, token_amount: u64, min_sol_output: u64) -> (result:
    Result<SellPlan, ZeroglazeError>)
    requires
        old(curve).wf(),
    ensures
        match sell_error(*old(curve), token_amount, min_sol_output) {
            Some(error) => result == Err::<SellPlan, ZeroglazeError>(error) && *final(curve)
                == *old(curve),
            None => {
                &&& result == Ok::<SellPlan, ZeroglazeError>(sell_result_plan(*old(curve), token_amount))
                &&& *final(curve) == sell_result_state(*old(curve), token_amount)
                &&& (*final(curve)).wf()
            },
        },
{
    if curve.graduated {
        return Err(ZeroglazeError::TokenGraduated);
    }
    if token_amount == 0 {
        return Err(ZeroglazeError::InvalidAmount);
    }
    let parts = match calculate_sell_output(
        curve.virtual_sol_reserves,
        curve.virtual_token_reserves,
        token_amount,
        curve.is_live_streaming,
    ) {
        Ok(parts) => parts,
        Err(error) => {
            return Err(error);
        },
    };
    let (sol_to_return, platform_fee, creator_fee, net_sol_output) = parts;
    if net_sol_output < min_sol_output {
        return Err(ZeroglazeError::SlippageExceeded);
    }
    if curve.real_sol_reserves < sol_to_return {
        return Err(ZeroglazeError::InsufficientLiquidity);
    }
    let new_tokens_sold = match curve.tokens_sold.checked_sub(token_amount) {
        Some(sold) => sold,
        None => {
            return Err(ZeroglazeError::MathOverflow);
        },
    };
    let new_total_volume = match curve.total_volume.checked_add(sol_to_return) {
        Some(volume) => volume,
        None => {
            return Err(ZeroglazeError::MathOverflow);
        },
    };
    let new_creator_fees = match curve.creator_fees_collected.checked_add(creator_fee) {
        Some(fees) => fees,
        None => {
            return Err(ZeroglazeError::MathOverflow);
        },
    };
    curve.virtual_sol_reserves = curve.virtual_sol_reserves - sol_to_return;
    curve.virtual_token_reserves = curve.virtual_token_reserves + token_amount;
    curve.real_sol_reserves = curve.real_sol_reserves - sol_to_return;
    curve.real_token_reserves = curve.real_token_reserves + token_amount;
    curve.tokens_sold = new_tokens_sold;
    curve.total_volume = new_total_volume;
    curve.creator_fees_collected = new_creator_fees;
    Ok(
        SellPlan {
            tokens_to_curve: token_amount,
            sol_to_seller: net_sol_output,
            platform_fee,
            creator_fee,
            gross_output: sol_to_return,
        },
    )
}

/// One-time platform bootstrap: the aggregate starts from zero.
pub fn initialize_platform(authority: Pubkey, platform_fee_wallet: Pubkey) -> (platform:
    PlatformState)
    ensures
        platform == (PlatformState {
            authority,
            platform_fee_wallet,
            total_tokens_launched: 0,
            total_volume_sol: 0,
            total_fees_collected: 0,
        }),
{
    PlatformState {
        authority,
        platform_fee_wallet,
        total_tokens_launched: 0,
        total_volume_sol: 0,
        total_fees_collected: 0,
    }
}

/// Create a fresh bonding curve for a new token. The metadata length
/// guards are checked first, in order; a fresh curve starts with the
/// fixed initial virtual reserves, the whole tradeable supply in
/// custody, and every accumulator and flag at zero.
pub fn create_token(
    creator: Pubkey,
    token_mint: Pubkey,
    token_name: String,
    token_symbol: String,
    token_uri: String,
    creator_twitter: String,
    creator_twitch: String,
    freeze_creator_allocation: bool,
    now: i64,
) -> (result: Result<BondingCurve, ZeroglazeError>)
    ensures
        token_name@.len() > 32 ==> result == Err::<BondingCurve, ZeroglazeError>(
            ZeroglazeError::NameTooLong,
        ),
        token_name@.len() <= 32 && token_symbol@.len() > 10 ==> result == Err::<
            BondingCurve,
            ZeroglazeError,
        >(ZeroglazeError::SymbolTooLong),
        token_name@.len() <= 32 && token_symbol@.len() <= 10 && token_uri@.len() > 200 ==> result
            == Err::<BondingCurve, ZeroglazeError>(ZeroglazeError::UriTooLong),
        token_name@.len() <= 32 && token_symbol@.len() <= 10 && token_uri@.len() <= 200 ==> {
            &&& result matches Ok(curve)
            &&& curve == (BondingCurve {
                creator,
                token_mint,
                token_name,
                token_symbol,
                token_uri,
                creator_twitter,
                creator_twitch,
                freeze_creator_allocation,
                virtual_sol_reserves: VIRTUAL_SOL_INITIAL,
                virtual_token_reserves: VIRTUAL_TOKEN_INITIAL,
                real_sol_reserves: 0,
                real_token_reserves: CURVE_SUPPLY,
                tokens_sold: 0,
                total_volume: 0,
                creator_fees_collected: 0,
                is_live_streaming: false,
                last_stream_check: now,
                graduated: false,
                created_at: now,
            })
            &&& curve.wf()
        },
{
    if token_name.as_str().unicode_len() > 32 {
        return Err(ZeroglazeError::NameTooLong);
    }
    if token_symbol.as_str().unicode_len() > 10 {
        return Err(ZeroglazeError::SymbolTooLong);
    }
    if token_uri.as_str().unicode_len() > 200 {
        return Err(ZeroglazeError::UriTooLong);
    }
    Ok(
        BondingCurve {
            creator,
            token_mint,
            token_name,
            token_symbol,
            token_uri,
            creator_twitter,
            creator_twitch,
            freeze_creator_allocation,
            virtual_sol_reserves: VIRTUAL_SOL_INITIAL,
            virtual_token_reserves: VIRTUAL_TOKEN_INITIAL,
            real_sol_reserves: 0,
            real_token_reserves: CURVE_SUPPLY,
            tokens_sold: 0,
            total_volume: 0,
            creator_fees_collected: 0,
            is_live_streaming: false,
            last_stream_check: now,
            graduated: false,
            created_at: now,
        },
    )
}

/// Record the live flag handed down by the platform's privileged
/// status keeper, together with the time of the check. The flag only
/// selects the creator-fee tier; no authorization logic lives here.
pub fn update_stream_status(curve: &mut BondingCurve, is_live: bool, now: i64)
    ensures
        *final(curve) == (BondingCurve {
            is_live_streaming: is_live,
            last_stream_check: now,
            ..*old(curve)
        }),
        old(curve).wf() ==> (*final(curve)).wf(),
{
    curve.is_live_streaming = is_live;
    curve.last_stream_check = now;
}

/// Decide a creator-fee withdrawal: the whole accumulated balance is
/// paid out, and an empty balance is rejected.
pub fn withdraw_creator_fees(available_balance: u64) -> (result: Result<u64, ZeroglazeError>)
    ensures
        available_balance == 0 ==> result == Err::<u64, ZeroglazeError>(
            ZeroglazeError::NoFeesToWithdraw,
        ),
        available_balance > 0 ==> result == Ok::<u64, ZeroglazeError>(available_balance),
{
    if available_balance == 0 {
        return Err(ZeroglazeError::NoFeesToWithdraw);
    }
    Ok(available_balance)
}

impl PlatformState {
    /// Count one more launched token in the platform aggregate.
    pub fn record_launch(&mut self) -> (result: Result<(), ZeroglazeError>)
        ensures
            old(self).total_tokens_launched == u64::MAX ==> result == Err::<(), ZeroglazeError>(
                ZeroglazeError::MathOverflow,
            ) && *final(self) == *old(self),
            old(self).total_tokens_launched < u64::MAX ==> result == Ok::<(), ZeroglazeError>(())
                && *final(self) == (PlatformState {
                total_tokens_launched: (old(self).total_tokens_launched + 1) as u64,
                ..*old(self)
            }),
    {
        let launched = match self.total_tokens_launched.checked_add(1) {
            Some(launched) => launched,
            None => {
                return Err(ZeroglazeError::MathOverflow);
            },
        };
        self.total_tokens_launched = launched;
        Ok(())
    }

    /// Fold one trade's volume and fees into the platform aggregate:
    /// all of it, or none of it on overflow.
    pub fn record_trade(&mut self, volume: u64, platform_fee: u64, creator_fee: u64) -> (result:
        Result<(), ZeroglazeError>)
        ensures
            old(self).total_volume_sol + volume > u64::MAX || old(self).total_fees_collected
                + platform_fee + creator_fee > u64::MAX ==> result == Err::<(), ZeroglazeError>(
                ZeroglazeError::MathOverflow,
            ) && *final(self) == *old(self),
            old(self).total_volume_sol + volume <= u64::MAX && old(self).total_fees_collected
                + platform_fee + creator_fee <= u64::MAX ==> result == Ok::<(), ZeroglazeError>(())
                && *final(self) == (PlatformState {
                total_volume_sol: (old(self).total_volume_sol + volume) as u64,
                total_fees_collected: (old(self).total_fees_collected + platform_fee
                    + creator_fee) as u64,
                ..*old(self)
            }),
    {
        let new_volume = match self.total_volume_sol.checked_add(volume) {
            Some(total) => total,
            None => {
                return Err(ZeroglazeError::MathOverflow);
            },
        };
        let fees = match platform_fee.checked_add(creator_fee) {
            Some(fees) => fees,
            None => {
                return Err(ZeroglazeError::MathOverflow);
            },
        };
        let new_fees = match self.total_fees_collected.checked_add(fees) {
            Some(total) => total,
            None => {
                return Err(ZeroglazeError::MathOverflow);
            },
        };
        self.total_volume_sol = new_volume;
        self.total_fees_collected = new_fees;
        Ok(())
    }
}

/// Graduation is terminal: a graduated curve rejects every further
/// buy and sell outright, whatever the amounts and bounds.
pub proof fn lemma_graduated_curve_rejects_trades(c: BondingCurve, token_amount: u64, bound: u64)
    requires
        c.graduated,
    ensures
        buy_error(c, token_amount, bound) == Some(ZeroglazeError::TokenGraduated),
        sell_error(c, token_amount, bound) == Some(ZeroglazeError::TokenGraduated),
{
}

/// The supply cap is sharp: a buy of exactly the unsold remainder is
/// never rejected for supply, while a buy of one more unit always is.
pub proof fn lemma_supply_cap_is_sharp(c: BondingCurve, max_sol_cost: u64)
    requires
        c.wf(),
        !c.graduated,
        c.tokens_sold < CURVE_SUPPLY,
    ensures
        buy_error(c, (CURVE_SUPPLY - c.tokens_sold) as u64, max_sol_cost) != Some(
            ZeroglazeError::InsufficientCurveSupply,
        ),
        buy_error(c, (CURVE_SUPPLY - c.tokens_sold + 1) as u64, max_sol_cost) == Some(
            ZeroglazeError::InsufficientCurveSupply,
        ),
{
}

} // verus!
