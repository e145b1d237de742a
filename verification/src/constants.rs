//! Limits and scales of the vault. Amounts of USDC and of shares carry seven decimals.

use vstd::prelude::*;

verus! {

pub const CONTRACT_NAME: &'static str = "Investment Vault";

pub const CONTRACT_DESCRIPTION: &'static str = "Heliobond Investment Vault";

pub const CONTRACT_VERSION: &'static str = "1.0.0";

/// Name and symbol of the share token, for listings.
pub const SHARE_NAME: &'static str = "Heliobond Shares";

pub const SHARE_SYMBOL: &'static str = "HBS";

/// Decimals of the share token.
pub const SHARE_DECIMALS: u32 = 7;

/// Largest single deposit: one billion USDC.
pub const MAX_DEPOSIT: i128 = 10_000_000_000_000_000;

/// Smallest deposit: 100 USDC, so that dust cannot move the share price by rounding.
pub const MIN_DEPOSIT: i128 = 1_000_000_000;

/// Smallest redemption: 100 shares.
pub const MIN_WITHDRAW: i128 = 1_000_000_000;

/// Scale of the yield-per-share accumulator.
pub const YIELD_SCALE: i128 = 1_000_000_000_000_000_000;

/// Share of each deposit that goes to the insurance fund, in basis points.
pub const INSURANCE_PREMIUM_BPS: i128 = 50;

/// Basis points in one whole.
pub const BPS_SCALE: i128 = 10_000;

/// Upper bound of credit-quality and green-impact scores.
pub const MAX_SCORE: u32 = 100;

/// Most shares that may ever be outstanding: ten billion.
pub const MAX_HBS_SUPPLY: i128 = 100_000_000_000_000_000;

/// Most signers of the administrative multi-signature.
pub const MAX_MULTISIG_SIGNERS: u32 = 10;

/// Version of the state layout that this build reads and writes.
pub const STATE_VERSION: u32 = 1;

/// Default cap on the investment in one project: five million USDC.
pub const MAX_INVESTMENT_PER_PROJECT: i128 = 50_000_000_000_000;

/// Seconds after the last deposit of an account in which it cannot withdraw.
pub const MIN_LOCK_PERIOD: u64 = 86_400;

/// Seconds in a year, the period over which a project accrues its score rate.
pub const ANNUAL_PERIOD_SECS: i128 = 31_536_000;

/// The two scores of a project, added up, are hundredths of one half: this is the scale of the
/// sum.
pub const SCORE_RATE_SCALE: i128 = 200;

/// Remaining lifetime, in ledgers, below which a stored deposit record is renewed.
pub const TTL_EXTEND_THRESHOLD_LEDGERS: u32 = 518_400;

/// Lifetime, in ledgers, that a renewed deposit record gets.
pub const TTL_EXTEND_TO_LEDGERS: u32 = 6_312_000;

/// Cap on the management fee: 5%.
pub const MAX_MANAGEMENT_FEE_BPS: u32 = 500;

/// Utilization at which a single withdrawal is held to `HIGH_TIER_PCT` of liquid USDC.
pub const UTIL_HIGH_BPS: u32 = 9_000;

/// Utilization at which a single withdrawal is held to `MED_TIER_PCT` of liquid USDC.
pub const UTIL_MED_BPS: u32 = 7_000;

/// Utilization at which a single withdrawal is held to `LOW_TIER_PCT` of liquid USDC.
pub const UTIL_LOW_BPS: u32 = 5_000;

/// Utilization from which each withdrawal comes with a warning.
pub const UTIL_WARN_BPS: u32 = UTIL_MED_BPS;

pub const HIGH_TIER_PCT: i128 = 10;

pub const MED_TIER_PCT: i128 = 25;

pub const LOW_TIER_PCT: i128 = 50;

/// Most entries of one batch of deposits.
pub const MAX_BATCH_DEPOSIT_SIZE: u32 = 20;

/// Most entries of one batch of project fundings.
pub const MAX_BATCH_FUND_SIZE: u32 = 20;

/// Flash loan fee until one is configured, in basis points.
pub const DEFAULT_FLASH_LOAN_FEE: u32 = 30;

/// Cap on the flash loan fee: 10%.
pub const MAX_FLASH_LOAN_FEE_BPS: u32 = 1_000;

/// Invested amount, times green impact, that earns one carbon credit.
pub const CARBON_UNIT: i128 = 10_000_000_000;

/// Compliance events that are kept; older ones are pruned.
pub const MAX_COMPLIANCE_EVENTS: u64 = 1_000;

/// A query for compliance events looks at most this many sequence numbers past its first.
pub const COMPLIANCE_PAGE_SPAN: u64 = 100;

/// Compliance events in a regulatory report.
pub const REPORT_EVENTS: u64 = 50;

/// Withdrawal window until one is configured, in ledgers: no withdrawal in the ledger of the
/// deposit.
pub const DEFAULT_WITHDRAWAL_WINDOW: u32 = 1;

} // verus!
