use vstd::prelude::*;

use crate::constants::{
    CURVE_SUPPLY, GRADUATION_THRESHOLD_SOL, LAMPORTS_PER_SOL, TOTAL_SUPPLY,
};
use vstd::arithmetic::div_mod::{lemma_div_is_ordered, lemma_div_multiples_vanish};
use vstd::arithmetic::mul::lemma_mul_is_commutative;

verus! {

/// A 32-byte account address. The pricing core never inspects an
/// address; it only carries addresses through so that a returned plan
/// can say who pays and who is paid.
#[derive(Clone, Copy, Debug, PartialEq, Eq)]
pub struct Pubkey {
    pub bytes: [u8; 32],
}

/// Global platform aggregate: one instance, created at bootstrap and
/// grown additively by every launch and trade.
#[derive(Clone, Debug, PartialEq, Eq)]
pub struct PlatformState {
    pub authority: Pubkey,
    pub platform_fee_wallet: Pubkey,
    pub total_tokens_launched: u64,
    pub total_volume_sol: u64,
    pub total_fees_collected: u64,
}

/// Per-asset bonding curve state: immutable metadata, the reserve
/// quadruple, trading accumulators and lifecycle flags.
#[derive(Clone, Debug, PartialEq, Eq)]
pub struct BondingCurve {
    // Token metadata
    pub creator: Pubkey,
    pub token_mint: Pubkey,
    pub token_name: String,
    pub token_symbol: String,
    pub token_uri: String,
    pub creator_twitter: String,
    pub creator_twitch: String,
    pub freeze_creator_allocation: bool,

    // Bonding curve reserves: the virtual pair is used only for
    // pricing, the real pair is what is actually custodied.
    pub virtual_sol_reserves: u64,
    pub virtual_token_reserves: u64,
    pub real_sol_reserves: u64,
    pub real_token_reserves: u64,

    // Trading stats
    pub tokens_sold: u64,
    pub total_volume: u64,
    pub creator_fees_collected: u64,

    // Stream status
    pub is_live_streaming: bool,
    pub last_stream_check: i64,

    // Graduation
    pub graduated: bool,

    // Metadata
    pub created_at: i64,
}

impl BondingCurve {
    /// Structural invariant of a curve. It holds of every freshly
    /// created curve and is preserved by every buy, sell and status
    /// update:
    /// - no more than the tradeable supply has been sold;
    /// - the real token reserve is exactly the unsold remainder;
    /// - the virtual token reserve stays strictly above the real one
    ///   (so a supply-capped buy can never drain it to zero);
    /// - before graduation the real currency reserve is still below
    ///   the graduation threshold.
    pub open spec fn wf(self) -> bool {
        &&& self.tokens_sold <= CURVE_SUPPLY
        &&& self.real_token_reserves == CURVE_SUPPLY - self.tokens_sold
        &&& self.virtual_token_reserves > self.real_token_reserves
        &&& (!self.graduated ==> self.real_sol_reserves < GRADUATION_THRESHOLD_SOL)
    }

    /// Display price of one token in lamports: the truncated ratio of
    /// the virtual reserves, and zero if the virtual token reserve is
    /// zero.
    pub open spec fn spot_price(self) -> int {
        if self.virtual_token_reserves == 0 {
            0
        } else {
            self.virtual_sol_reserves as int / self.virtual_token_reserves as int
        }
    }

    /// Current display price per token in lamports. This is distinct
    /// from the exact execution price of a trade, which the pricing
    /// engine derives from the constant product.
    pub fn get_current_price(&self) -> (price: u64)
        ensures
            price == self.spot_price(),
    {
        if self.virtual_token_reserves == 0 {
            return 0;
        }
        proof {
            lemma_div_is_ordered(
                0,
                self.virtual_sol_reserves as int,
                self.virtual_token_reserves as int,
            );
            lemma_div_is_ordered(
                self.virtual_sol_reserves as int,
                u64::MAX as int,
                self.virtual_token_reserves as int,
            );
            lemma_div_is_ordered(u64::MAX as int, u64::MAX as int, 1);
        }
        self.virtual_sol_reserves / self.virtual_token_reserves
    }

    /// Market capitalization estimate in whole SOL: the display price
    /// times the fixed nominal total supply (not the live circulating
    /// supply), converted from lamports. An approximation, not an
    /// accounting figure.
    pub fn get_market_cap(&self) -> (cap: u64)
        ensures
            cap == self.spot_price() * TOTAL_SUPPLY / (LAMPORTS_PER_SOL as int),
    {
        let price = self.get_current_price();
        let wide: u128 = (price as u128) * (TOTAL_SUPPLY as u128) / (LAMPORTS_PER_SOL as u128);
        proof {
            lemma_mul_is_commutative(price as int, TOTAL_SUPPLY as int);
            lemma_div_multiples_vanish(price as int, LAMPORTS_PER_SOL as int);
        }
        wide as u64
    }

    /// Trading progress towards the supply cap, as a whole percentage
    /// from 0 to 100.
    pub fn get_progress(&self) -> (pct: u8)
        requires
            self.tokens_sold <= CURVE_SUPPLY,
        ensures
            pct == self.tokens_sold * 100 / CURVE_SUPPLY as int,
    {
        let scaled: u64 = self.tokens_sold * 100;
        proof {
            lemma_div_is_ordered(scaled as int, CURVE_SUPPLY as int * 100, CURVE_SUPPLY as int);
            lemma_div_multiples_vanish(100, CURVE_SUPPLY as int);
            lemma_mul_is_commutative(CURVE_SUPPLY as int, 100);
        }
        (scaled / CURVE_SUPPLY) as u8
    }
}

} // verus!
