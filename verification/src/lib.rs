//! An investment vault.
//!
//! Investors deposit USDC for shares. The vault invests the USDC in registered projects, spreads
//! their yield over the shares, and redeems shares at the value of the vault: at once, or through a
//! queue where liquid USDC is short. A part of each deposit goes to an insurance fund. Shares move
//! between accounts and to other chains, and green investments earn carbon credits.
//!
//! The vault is a value, [`InvestmentVault`], and each operation is a method on it. An operation
//! that is refused returns a [`VaultError`] and changes nothing. One that is accepted changes the
//! vault and returns an [`Outcome`]: a value, and the [`Effect`]s that the host is to carry out, in
//! order, among them the authorizations that it is to demand. What the host knows and the vault
//! does not is an argument: the [`Ledger`], the answers of the project [`Registry`], the outcome of
//! a check of approvals.
//!
//! Amounts are signed 128-bit integers with seven decimals, and every intermediate result that
//! leaves their range refuses the call.
//!
//! [`invariants`] says what holds of the vault at all times, and [`laws`] what its operations
//! promise together.

pub mod admin;
pub mod arith;
pub mod assets;
pub mod bridge;
pub mod carbon;
pub mod compliance;
pub mod constants;
pub mod deposits;
pub mod fees;
pub mod flash_loans;
pub mod flows;
pub mod funding;
pub mod guards;
pub mod insurance;
pub mod invariants;
pub mod investments;
pub mod laws;
pub mod shares;
pub mod state;
pub mod tables;
pub mod token;
pub mod types;
pub mod withdrawals;
pub mod yields;

pub use constants::{CONTRACT_DESCRIPTION, CONTRACT_NAME, CONTRACT_VERSION};
pub use state::{InvestmentVault, Registry, Settings, Totals};
pub use types::{
    Address, BridgeTransferPayload, CarbonCreditCalculation, ComplianceEventData, Effect, Event,
    HBSTokenInfo, HealthStatus, Ledger, Outcome, PortfolioInfo, QueuedClaim, RegulatoryReport,
    ReportingSnapshotData, VaultError,
};
