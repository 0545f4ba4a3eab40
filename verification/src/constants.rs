use vstd::prelude::*;

verus! {

/// Token supply constants.
pub const TOTAL_SUPPLY: u64 = 1_000_000_000;
pub const CURVE_SUPPLY: u64 = 800_000_000;
pub const CREATOR_SUPPLY: u64 = 200_000_000;

/// Initial virtual reserves for the bonding curve. The virtual token
/// reserve is deliberately larger than the tradeable supply, which keeps
/// every division inside a trade away from zero.
pub const VIRTUAL_SOL_INITIAL: u64 = 30_000_000_000;
pub const VIRTUAL_TOKEN_INITIAL: u64 = 1_073_000_000;

/// Fee rates in basis points (100 = 1%).
pub const PLATFORM_FEE_BPS: u16 = 100;
pub const CREATOR_FEE_LIVE_BPS: u16 = 200;
pub const CREATOR_FEE_OFFLINE_BPS: u16 = 20;

/// Graduation thresholds, in lamports.
pub const GRADUATION_THRESHOLD_SOL: u64 = 85_000_000_000;
pub const GRADUATION_FEE_SOL: u64 = 6_000_000_000;

/// Basis-point denominator: 100% = 10,000 bps.
pub const BPS_DENOMINATOR: u64 = 10_000;

/// Lamports per SOL, used to convert a lamport price into whole SOL.
pub const LAMPORTS_PER_SOL: u64 = 1_000_000_000;

} // verus!
