//! When a call is accepted: exactly where nothing that is documented stands against it. And a
//! refusal names the first reason that holds.

use crate::carbon::{carbon_credits, carbon_price_refusal};
use crate::compliance::{record_refusal, report_refusal, snapshot_refusal};
use crate::deposits::premium_of;
use crate::fees::tier_refusal;
use crate::flash_loans::flash_fee_refusal;
use crate::guards::configure_refusal;
use crate::laws::pricing::deposit_parts_add_up;
use crate::laws::rounding::{
    a_flash_fee_is_its_rate, a_management_fee_is_its_rate, a_premium_is_half_a_percent,
    proportions_round_toward_zero, shares_are_bought_at_the_value, shares_are_redeemed_at_the_value,
    the_limit_falls_with_utilization,
};
use crate::state::{RegistryView, Settings, VaultState};
use crate::tables::lemma_sum_within;
use crate::token::round_refusal;
use crate::types::{
    Address, BridgeIdentity, BridgeTransferPayload, FlashLoan, Ledger, QueuedClaim, VaaOrigin,
    VaultError,
};
use crate::withdrawals::{lemma_settled_prefix, settled_claims};
use vstd::prelude::*;

verus! {

impl VaultState {
    /// A deposit of 100 to one billion USDC is accepted while the vault is open and its shares fit
    /// under the cap of ten billion.
    pub proof fn deposits_are_accepted(
        self,
        ledger: Ledger,
        registry: RegistryView,
        from: Address,
        amount: int,
    )
        requires
            self.well_formed(),
        ensures
            ({
                let s = self.settings;
                let nav = self.nav(registry, ledger.timestamp);
                let shares = self.deposit_shares(registry, ledger.timestamp, amount);
                let fee = s.fee_of(amount);
                let usdc = self.totals.usdc_balance;
                let before = if self.total_deposited.contains_key(from.id) {
                    self.total_deposited[from.id] as int
                } else {
                    0
                };
                let fits = {
                    &&& from == s.vault || usdc + amount <= i128::MAX
                    &&& self.totals.insurance_fund + premium_of(amount) <= i128::MAX
                    &&& before + amount <= i128::MAX
                    &&& nav->Ok_0 + amount <= i128::MAX
                };
                let current = !s.paused && s.state_version == 1;
                let sized = current && 1_000_000_000 <= amount <= 10_000_000_000_000_000;
                let admitted = sized && (s.max_transaction_amount == 0 || amount
                    <= s.max_transaction_amount);
                let priced = admitted && nav is Ok && shares is Ok && self.totals.total_supply
                    + shares->Ok_0 <= 100_000_000_000_000_000;
                &&& self.deposit_refusal(ledger, registry, from, amount) is None <==> {
                    &&& !s.paused
                    &&& s.state_version == 1
                    &&& 1_000_000_000 <= amount <= 10_000_000_000_000_000
                    &&& s.max_transaction_amount == 0 || amount <= s.max_transaction_amount
                    &&& nav is Ok
                    &&& shares is Ok
                    &&& self.totals.total_supply + shares->Ok_0 <= 100_000_000_000_000_000
                    &&& fee > 0 ==> s.management_fee_recipient is Some
                    &&& fee > 0 && from == s.vault ==> fee <= usdc
                    &&& fits
                }
                &&& match self.deposit_refusal(ledger, registry, from, amount) {
                    None => true,
                    Some(e) => match e {
                        VaultError::Paused => s.paused,
                        VaultError::UnsupportedStateVersion => !s.paused && s.state_version != 1,
                        VaultError::AmountNotPositive => current && amount <= 0,
                        VaultError::DepositBelowMinimum => current && 0 < amount < 1_000_000_000,
                        VaultError::DepositExceedsMaximum => current && amount
                            > 10_000_000_000_000_000,
                        VaultError::ExceedsMaxTransactionAmount => sized && 0
                            < s.max_transaction_amount < amount,
                        VaultError::MaxSupplyExceeded => admitted && nav is Ok && shares is Ok
                            && self.totals.total_supply + shares->Ok_0 > 100_000_000_000_000_000,
                        VaultError::FeeRecipientNotSet => priced && fee > 0
                            && s.management_fee_recipient is None,
                        VaultError::InsufficientUsdc => priced && from == s.vault && fee > usdc,
                        VaultError::ProjectNotFound => admitted && nav is Err,
                        VaultError::ArithmeticOverflow => admitted && (nav is Err || shares is Err
                            || !fits || self.totals.total_supply + shares->Ok_0 > i128::MAX),
                        _ => false,
                    },
                }
            }),
    {
        self.lemma_balance_within_supply(from);
        self.expected_returns_fail_for_a_reason(
            registry,
            ledger.timestamp,
            registry.total_projects,
        );
        if 0 < amount {
            a_premium_is_half_a_percent(amount);
            a_management_fee_is_its_rate(self.settings, amount);
            self.lemma_deposit_is_invested(registry, ledger.timestamp, amount);
        }
    }

    proof fn lemma_deposit_is_invested(self, registry: RegistryView, now: u64, amount: int)
        requires
            self.well_formed(),
            amount > 0,
        ensures
            self.settings.fee_of(amount) >= 0,
            self.settings.fee_of(amount) <= amount,
            premium_of(amount) >= 0,
            0 <= self.settings.investable_of(amount) <= amount,
            self.nav(registry, now) is Ok ==> self.nav(registry, now)->Ok_0 >= 0,
            amount <= i128::MAX && self.deposit_shares(registry, now, amount) is Ok
                ==> self.deposit_shares(registry, now, amount)->Ok_0 >= 0,
            self.nav(registry, now) is Ok && amount <= i128::MAX && self.deposit_shares(
                registry,
                now,
                amount,
            ) is Err ==> self.deposit_shares(registry, now, amount) == Err::<i128, VaultError>(
                VaultError::ArithmeticOverflow,
            ),
    {
        deposit_parts_add_up(self.settings, amount);
        self.lemma_balance_within_supply(self.settings.vault);
        let supply = self.totals.total_supply as int;
        if self.nav(registry, now) is Ok {
            self.value_is_not_negative(registry, now);
            let nav = self.nav(registry, now)->Ok_0 as int;
            let x = self.settings.investable_of(amount);
            if amount <= i128::MAX {
                shares_are_bought_at_the_value(x as i128, supply, nav);
                assert(x * supply >= 0) by (nonlinear_arith)
                    requires
                        x >= 0,
                        supply >= 0,
                ;
            }
        }
    }

    /// A withdrawal of 100 shares or more is accepted from an account that holds them and is not
    /// locked, within the limit for the utilization of the vault, and not for less than the caller
    /// asks for.
    pub proof fn withdrawals_are_accepted(
        self,
        ledger: Ledger,
        registry: RegistryView,
        from: Address,
        shares: int,
        min_usdc_return: int,
    )
        requires
            self.well_formed(),
        ensures
            ({
                let s = self.settings;
                let nav = self.nav(registry, ledger.timestamp);
                let owed = self.to_assets(registry, ledger.timestamp, shares);
                let usdc = self.totals.usdc_balance as int;
                let bps = self.utilization();
                let held = if self.share_balances.contains_key(from.id) {
                    self.share_balances[from.id] as int
                } else {
                    0
                };
                let time_locked = self.last_deposit.contains_key(from.id) && ledger.timestamp
                    < self.last_deposit[from.id] + 86_400;
                let window_locked = self.last_deposit_ledger.contains_key(from.id)
                    && ledger.sequence < self.last_deposit_ledger[from.id]
                    + s.withdrawal_window_ledgers;
                let endless = self.last_deposit.contains_key(from.id)
                    && self.last_deposit[from.id] + 86_400 > u64::MAX;
                let part = if bps->Ok_0 < 7_000 {
                    50int
                } else if bps->Ok_0 < 9_000 {
                    25
                } else {
                    10
                };
                let limited = bps is Ok && bps->Ok_0 >= 5_000;
                let current = !s.paused && s.state_version == 1;
                let free = current && !time_locked && !window_locked && !endless;
                let admitted = free && shares >= 1_000_000_000 && nav is Ok && owed is Ok && (
                s.max_transaction_amount == 0 || owed->Ok_0 <= s.max_transaction_amount);
                let within = admitted && bps is Ok && (limited ==> owed->Ok_0 * 100 <= usdc * part);
                &&& self.withdraw_refusal(ledger, registry, from, shares, min_usdc_return) is None
                    <==> {
                    &&& !s.paused
                    &&& s.state_version == 1
                    &&& !time_locked && !window_locked && !endless
                    &&& shares >= 1_000_000_000
                    &&& nav is Ok
                    &&& owed is Ok
                    &&& s.max_transaction_amount == 0 || owed->Ok_0 <= s.max_transaction_amount
                    &&& bps is Ok
                    &&& limited ==> usdc * part <= i128::MAX && owed->Ok_0 * 100 <= usdc * part
                    &&& owed->Ok_0 >= min_usdc_return
                    &&& shares <= held
                    &&& owed->Ok_0 > usdc ==> self.totals.queue_tail < u64::MAX
                }
                &&& match self.withdraw_refusal(ledger, registry, from, shares, min_usdc_return) {
                    None => true,
                    Some(e) => match e {
                        VaultError::Paused => s.paused,
                        VaultError::UnsupportedStateVersion => !s.paused && s.state_version != 1,
                        VaultError::DepositLocked => current && (time_locked || window_locked),
                        VaultError::SharesNotPositive => free && shares <= 0,
                        VaultError::WithdrawBelowMinimum => free && 0 < shares < 1_000_000_000,
                        VaultError::ExceedsMaxTransactionAmount => free && 0
                            < s.max_transaction_amount < owed->Ok_0,
                        VaultError::WithdrawalExceedsLimit => admitted && limited && owed->Ok_0
                            * 100 > usdc * part,
                        VaultError::SlippageLimitExceeded => within && owed->Ok_0
                            < min_usdc_return,
                        VaultError::InsufficientShares => within && owed->Ok_0 >= min_usdc_return
                            && shares > held,
                        VaultError::ProjectNotFound => free && nav is Err,
                        VaultError::ArithmeticOverflow => current && (endless || nav is Err || owed
                            is Err || bps is Err || usdc * part > i128::MAX || (owed->Ok_0 > usdc
                            && self.totals.queue_tail == u64::MAX)),
                        _ => false,
                    },
                }
            }),
    {
        self.lemma_balance_within_supply(from);
        self.expected_returns_fail_for_a_reason(
            registry,
            ledger.timestamp,
            registry.total_projects,
        );
        let supply = self.totals.total_supply as int;
        let nav = self.nav(registry, ledger.timestamp);
        if shares > 0 && nav is Ok {
            self.value_is_not_negative(registry, ledger.timestamp);
            shares_are_redeemed_at_the_value(shares, supply, nav->Ok_0 as int);
            assert(shares * nav->Ok_0 >= 0) by (nonlinear_arith)
                requires
                    shares > 0,
                    nav->Ok_0 >= 0,
            ;
        }
        lemma_sum_within(self.project_investments, 0);
        self.utilization_is_the_invested_part();
        if self.utilization() is Ok {
            the_limit_falls_with_utilization(
                self.utilization()->Ok_0,
                self.totals.usdc_balance,
            );
        }
    }

    /// Funding a project is accepted where it is known, open, qualified and within its cap, and
    /// where the USDC that is not set aside for insurance covers it.
    pub proof fn fundings_are_accepted(self, registry: RegistryView, project_id: u32, paid: int)
        requires
            self.well_formed(),
        ensures
            ({
                let s = self.settings;
                let project = registry.projects[project_id];
                let invested = if self.project_investments.contains_key(project_id) {
                    self.project_investments[project_id] as int
                } else {
                    0
                };
                let free = self.totals.usdc_balance - self.totals.insurance_fund;
                let current = s.state_version == 1;
                let named = current && paid > 0 && project_id != 0;
                let admitted = named && (s.max_transaction_amount == 0 || paid
                    <= s.max_transaction_amount) && !registry.paused;
                let known = admitted && registry.projects.contains_key(project_id) && s.owner
                    != Some(project.owner);
                let qualified = known && project.credit_quality >= s.min_credit_quality
                    && project.green_impact >= s.min_green_impact;
                &&& self.fund_refusal(registry, project_id, paid) is None <==> {
                    &&& s.state_version == 1
                    &&& paid > 0
                    &&& project_id != 0
                    &&& s.max_transaction_amount == 0 || paid <= s.max_transaction_amount
                    &&& !registry.paused
                    &&& registry.projects.contains_key(project_id)
                    &&& s.owner != Some(project.owner)
                    &&& project.credit_quality >= s.min_credit_quality
                    &&& project.green_impact >= s.min_green_impact
                    &&& invested + paid <= s.max_investment_per_project
                    &&& paid <= free
                    &&& self.totals.total_investments + paid <= i128::MAX
                }
                &&& match self.fund_refusal(registry, project_id, paid) {
                    None => true,
                    Some(e) => match e {
                        VaultError::UnsupportedStateVersion => s.state_version != 1,
                        VaultError::AmountNotPositive => current && paid <= 0,
                        VaultError::ProjectNotFound => (current && paid > 0 && project_id == 0) || (
                        admitted && !registry.projects.contains_key(project_id)),
                        VaultError::ExceedsMaxTransactionAmount => named && 0
                            < s.max_transaction_amount < paid,
                        VaultError::RegistryPaused => named && registry.paused,
                        VaultError::SelfFundingNotAllowed => admitted && s.owner == Some(
                            project.owner,
                        ),
                        VaultError::BelowMinCreditQuality => known && project.credit_quality
                            < s.min_credit_quality,
                        VaultError::BelowMinGreenImpact => known && project.credit_quality
                            >= s.min_credit_quality && project.green_impact < s.min_green_impact,
                        VaultError::InvestmentCapExceeded => qualified && invested + paid
                            > s.max_investment_per_project,
                        VaultError::InsufficientDeployable => qualified && invested + paid
                            <= s.max_investment_per_project && paid > free,
                        VaultError::ArithmeticOverflow => qualified && (invested + paid > i128::MAX
                            || self.totals.total_investments + paid > i128::MAX),
                        _ => false,
                    },
                }
            }),
    {
        lemma_sum_within(self.project_investments, project_id);
    }

    /// An insurance claim is accepted once for each project, within the insurance fund and what the
    /// vault holds.
    pub proof fn insurance_claims_are_accepted(
        self,
        project_id: u32,
        recipient: Address,
        paid: int,
    )
        requires
            self.well_formed(),
        ensures
            ({
                let s = self.settings;
                let claimed = self.insurance_claimed.contains_key(project_id)
                    && self.insurance_claimed[project_id];
                let admitted = s.state_version == 1 && paid > 0 && (s.max_transaction_amount == 0
                    || paid <= s.max_transaction_amount);
                &&& self.insurance_refusal(project_id, recipient, paid) is None <==> {
                    &&& s.state_version == 1
                    &&& paid > 0
                    &&& s.max_transaction_amount == 0 || paid <= s.max_transaction_amount
                    &&& !claimed
                    &&& paid <= self.totals.insurance_fund
                    &&& paid <= self.totals.usdc_balance
                }
                &&& match self.insurance_refusal(project_id, recipient, paid) {
                    None => true,
                    Some(e) => match e {
                        VaultError::UnsupportedStateVersion => s.state_version != 1,
                        VaultError::ClaimAmountNotPositive => s.state_version == 1 && paid <= 0,
                        VaultError::ExceedsMaxTransactionAmount => s.state_version == 1 && 0
                            < s.max_transaction_amount < paid,
                        VaultError::InsuranceAlreadyClaimed => admitted && claimed,
                        VaultError::InsufficientInsurance => admitted && !claimed && paid
                            > self.totals.insurance_fund,
                        VaultError::InsufficientUsdc => admitted && !claimed && paid
                            > self.totals.usdc_balance,
                        _ => false,
                    },
                }
            }),
    {
    }

    /// A yield is accepted while there are shares to spread it over, as far as the figures fit.
    pub proof fn yields_are_accepted(self, from: Address, paid: int)
        requires
            self.well_formed(),
        ensures
            ({
                let s = self.settings;
                let supply = self.totals.total_supply as int;
                let fits = {
                    &&& from == s.vault || self.totals.usdc_balance + paid <= i128::MAX
                    &&& paid * 1_000_000_000_000_000_000 <= i128::MAX
                    &&& self.totals.yield_per_share_accum + self.yield_delta(paid)->Ok_0
                        <= i128::MAX
                };
                &&& self.yield_refusal(from, paid) is None <==> s.state_version == 1 && paid > 0
                    && supply > 0 && fits
                &&& match self.yield_refusal(from, paid) {
                    None => true,
                    Some(e) => match e {
                        VaultError::UnsupportedStateVersion => s.state_version != 1,
                        VaultError::YieldAmountNotPositive => s.state_version == 1 && paid <= 0,
                        VaultError::NoSharesOutstanding => s.state_version == 1 && paid > 0
                            && supply == 0,
                        VaultError::ArithmeticOverflow => s.state_version == 1 && paid > 0 && supply
                            > 0 && !fits,
                        _ => false,
                    },
                }
            }),
    {
        self.lemma_balance_within_supply(from);
        if self.totals.total_supply > 0 {
            proportions_round_toward_zero(
                paid,
                1_000_000_000_000_000_000,
                self.totals.total_supply as int,
            );
        }
    }

    /// A claim of yield is accepted where nothing is due, and where the vault holds what is due.
    pub proof fn yield_claims_are_accepted(self, from: Address)
        ensures
            ({
                let s = self.settings;
                let due = self.yield_of(from);
                let cached = self.totals.cached_total_assets;
                &&& self.yield_claim_refusal(from) is None <==> {
                    &&& s.state_version == 1
                    &&& due is Ok
                    &&& due->Ok_0 <= 0 || (due->Ok_0 <= self.totals.usdc_balance && cached
                        - due->Ok_0 >= i128::MIN)
                }
                &&& match self.yield_claim_refusal(from) {
                    None => true,
                    Some(e) => match e {
                        VaultError::UnsupportedStateVersion => s.state_version != 1,
                        VaultError::InsufficientLiquidYield => s.state_version == 1 && due is Ok
                            && due->Ok_0 > self.totals.usdc_balance && due->Ok_0 > 0,
                        VaultError::ArithmeticOverflow => due is Err || cached - due->Ok_0
                            < i128::MIN,
                        _ => false,
                    },
                }
            }),
    {
    }

    /// Shares are transferred by an account that holds them, while no funding round is open, and
    /// never to the vault itself. Out of an allowance, the round alone closes the way.
    pub proof fn transfers_are_accepted(self, from: Address, to: Address, shares: int)
        requires
            self.well_formed(),
        ensures
            ({
                let s = self.settings;
                let held = if self.share_balances.contains_key(from.id) {
                    self.share_balances[from.id] as int
                } else {
                    0
                };
                &&& self.move_refusal(from, to, shares) is None <==> 0 <= shares <= held
                &&& self.transfer_refusal(from, to, shares) is None <==> s.state_version == 1 && to
                    != s.vault && !s.funding_round_active && 0 <= shares <= held
                &&& self.spend_refusal(from, to, shares) is None <==> !s.funding_round_active && 0
                    <= shares <= held
                &&& self.burn_refusal(from, shares) is None <==> 0 <= shares <= held
                &&& match self.transfer_refusal(from, to, shares) {
                    None => true,
                    Some(e) => match e {
                        VaultError::UnsupportedStateVersion => s.state_version != 1,
                        VaultError::TransferToVaultBlocked => s.state_version == 1 && to
                            == s.vault,
                        VaultError::FundingRoundActive => s.state_version == 1 && to != s.vault
                            && s.funding_round_active,
                        VaultError::NegativeAmount => s.state_version == 1 && to != s.vault
                            && !s.funding_round_active && shares < 0,
                        VaultError::InsufficientShares => s.state_version == 1 && to != s.vault
                            && !s.funding_round_active && shares > held,
                        _ => false,
                    },
                }
                &&& match self.spend_refusal(from, to, shares) {
                    None => true,
                    Some(e) => match e {
                        VaultError::FundingRoundActive => s.funding_round_active,
                        VaultError::NegativeAmount => !s.funding_round_active && shares < 0,
                        VaultError::InsufficientShares => !s.funding_round_active && shares > held,
                        _ => false,
                    },
                }
                &&& match self.burn_refusal(from, shares) {
                    None => true,
                    Some(e) => match e {
                        VaultError::NegativeAmount => shares < 0,
                        VaultError::InsufficientShares => shares > held,
                        _ => false,
                    },
                }
            }),
    {
        self.lemma_balance_within_supply(from);
        self.lemma_balance_within_supply(to);
    }

    /// A flash loan is given up to what the vault holds.
    pub proof fn flash_loans_are_accepted(self, borrower: Address, lent: int)
        requires
            self.well_formed(),
        ensures
            ({
                let s = self.settings;
                let fits = lent * s.flash_loan_fee_bps <= i128::MAX && lent
                    + s.flash_fee(lent)->Ok_0 <= i128::MAX;
                &&& self.flash_refusal(borrower, lent) is None <==> s.state_version == 1 && lent > 0
                    && fits && lent <= self.totals.usdc_balance
                &&& match self.flash_refusal(borrower, lent) {
                    None => true,
                    Some(e) => match e {
                        VaultError::UnsupportedStateVersion => s.state_version != 1,
                        VaultError::AmountNotPositive => s.state_version == 1 && lent <= 0,
                        VaultError::ArithmeticOverflow => s.state_version == 1 && lent > 0 && !fits,
                        VaultError::InsufficientUsdc => s.state_version == 1 && fits && lent
                            > self.totals.usdc_balance,
                        _ => false,
                    },
                }
            }),
    {
        if lent > 0 {
            a_flash_fee_is_its_rate(self.settings, lent);
            let bps = self.settings.flash_loan_fee_bps as int;
            assert(lent * bps >= 0) by (nonlinear_arith)
                requires
                    lent > 0,
                    bps >= 0,
            ;
        }
    }

    /// A flash loan is settled where the callback succeeded and the figures fit.
    pub proof fn settlements_are_accepted(self, loan: FlashLoan, callback_ok: bool)
        requires
            self.totals.usdc_balance >= 0,
            loan.amount >= 0,
            loan.fee >= 0,
        ensures
            ({
                let owed = loan.amount + loan.fee;
                let fits = owed <= i128::MAX && (loan.borrower == self.settings.vault
                    || self.totals.usdc_balance + owed <= i128::MAX);
                &&& self.settle_refusal(loan, callback_ok) is None <==> callback_ok && fits
                &&& !callback_ok ==> self.settle_refusal(loan, callback_ok) == Some(
                    VaultError::FlashLoanCallbackFailed,
                )
                &&& callback_ok && !fits ==> self.settle_refusal(loan, callback_ok) == Some(
                    VaultError::ArithmeticOverflow,
                )
            }),
    {
    }

    /// Shares come in over the bridge within the cap of ten billion, and go out of an account that
    /// holds them.
    pub proof fn bridge_calls_are_accepted(self, account: Address, shares: int)
        requires
            self.well_formed(),
        ensures
            ({
                let s = self.settings;
                let held = if self.share_balances.contains_key(account.id) {
                    self.share_balances[account.id] as int
                } else {
                    0
                };
                let supply = self.totals.total_supply + shares;
                &&& self.bridge_mint_refusal(account, shares) is None <==> s.state_version == 1
                    && s.bridge is Some && shares > 0 && supply <= 100_000_000_000_000_000
                &&& self.bridge_burn_refusal(account, shares) is None <==> s.state_version == 1 && 0
                    < shares <= held
                &&& self.outbound_refusal(account, shares) is None <==> s.state_version == 1 && 0
                    < shares <= held && s.wormhole_core is Some
                &&& match self.bridge_mint_refusal(account, shares) {
                    None => true,
                    Some(e) => match e {
                        VaultError::UnsupportedStateVersion => s.state_version != 1,
                        VaultError::BridgeNotSet => s.state_version == 1 && s.bridge is None,
                        VaultError::AmountNotPositive => s.state_version == 1 && s.bridge is Some
                            && shares <= 0,
                        VaultError::MaxSupplyExceeded => supply > 100_000_000_000_000_000,
                        VaultError::ArithmeticOverflow => supply > i128::MAX,
                        _ => false,
                    },
                }
                &&& match self.outbound_refusal(account, shares) {
                    None => true,
                    Some(e) => match e {
                        VaultError::UnsupportedStateVersion => s.state_version != 1,
                        VaultError::AmountNotPositive => s.state_version == 1 && shares <= 0,
                        VaultError::InsufficientShares => s.state_version == 1 && shares > held,
                        VaultError::WormholeCoreNotSet => s.state_version == 1 && 0 < shares <= held
                            && s.wormhole_core is None,
                        _ => false,
                    },
                }
            }),
    {
        self.lemma_balance_within_supply(account);
    }

    /// An inbound transfer is taken in from a trusted emitter, for this chain and this token, once,
    /// and within the cap of ten billion.
    pub proof fn inbound_transfers_are_accepted(
        self,
        identity: BridgeIdentity,
        digest: Seq<u8>,
        origin: VaaOrigin,
        transfer: BridgeTransferPayload,
        to: Address,
    )
        requires
            self.well_formed(),
        ensures
            ({
                let s = self.settings;
                let trusted = self.trusted_emitters.contains(
                    (origin.emitter_chain, origin.emitter_address@),
                );
                let supply = self.totals.total_supply + transfer.amount;
                let open = s.state_version == 1 && s.wormhole_core is Some;
                let ours = open && trusted && transfer.target_chain == identity.chain_id
                    && transfer.token_address@ == identity.token_address@;
                let fresh = ours && !self.consumed_vaas.contains(digest);
                &&& self.completion_refusal(identity, digest, origin, transfer, to) is None <==> {
                    &&& s.state_version == 1
                    &&& s.wormhole_core is Some
                    &&& trusted
                    &&& transfer.target_chain == identity.chain_id
                    &&& transfer.token_address@ == identity.token_address@
                    &&& !self.consumed_vaas.contains(digest)
                    &&& 0 <= transfer.amount
                    &&& supply <= 100_000_000_000_000_000
                }
                &&& match self.completion_refusal(identity, digest, origin, transfer, to) {
                    None => true,
                    Some(e) => match e {
                        VaultError::UnsupportedStateVersion => s.state_version != 1,
                        VaultError::WormholeCoreNotSet => s.state_version == 1 && s.wormhole_core
                            is None,
                        VaultError::EmitterNotTrusted => open && !trusted,
                        VaultError::BridgeWrongTargetChain => open && trusted
                            && transfer.target_chain != identity.chain_id,
                        VaultError::BridgeTokenMismatch => open && trusted && transfer.target_chain
                            == identity.chain_id && transfer.token_address@
                            != identity.token_address@,
                        VaultError::VaaAlreadyConsumed => ours && self.consumed_vaas.contains(
                            digest,
                        ),
                        VaultError::NegativeAmount => fresh && transfer.amount < 0,
                        VaultError::MaxSupplyExceeded => fresh && supply > 100_000_000_000_000_000,
                        VaultError::ArithmeticOverflow => fresh && supply > i128::MAX,
                        _ => false,
                    },
                }
            }),
    {
        self.lemma_balance_within_supply(to);
    }

    /// Credits are issued where an investment in a known project earns any, and transferred by an
    /// account that holds them.
    pub proof fn credit_calls_are_accepted(
        self,
        registry: RegistryView,
        from: Address,
        to: Address,
        project_id: u32,
        x: int,
    )
        requires
            self.well_formed(),
        ensures
            ({
                let s = self.settings;
                let earned = carbon_credits(s, registry, project_id, x);
                let held = if self.carbon_credits.contains_key(from.id) {
                    self.carbon_credits[from.id] as int
                } else {
                    0
                };
                let has = if self.carbon_credits.contains_key(to.id) {
                    self.carbon_credits[to.id] as int
                } else {
                    0
                };
                &&& self.issue_refusal(registry, to, project_id, x) is None <==> earned is Ok
                    && earned->Ok_0 > 0 && has + earned->Ok_0 <= i128::MAX
                &&& match self.issue_refusal(registry, to, project_id, x) {
                    None => true,
                    Some(e) => match e {
                        VaultError::NoCarbonCreditsToIssue => earned is Ok && earned->Ok_0 <= 0,
                        VaultError::ArithmeticOverflow => earned == Err::<i128, VaultError>(e)
                            || has + earned->Ok_0 > i128::MAX,
                        _ => earned == Err::<i128, VaultError>(e),
                    },
                }
                &&& self.credit_transfer_refusal(from, to, x) is None <==> s.state_version == 1 && 0
                    < x <= held && (from == to || has + x <= i128::MAX)
                &&& match self.credit_transfer_refusal(from, to, x) {
                    None => true,
                    Some(e) => match e {
                        VaultError::UnsupportedStateVersion => s.state_version != 1,
                        VaultError::AmountNotPositive => s.state_version == 1 && x <= 0,
                        VaultError::InsufficientCarbonCredits => s.state_version == 1 && x > held
                            && x > 0,
                        VaultError::ArithmeticOverflow => s.state_version == 1 && 0 < x <= held
                            && from != to && has + x > i128::MAX,
                        _ => false,
                    },
                }
            }),
    {
    }

    /// A report takes the value of the vault, and a snapshot takes an owner too.
    pub proof fn reports_and_snapshots_are_accepted(self, registry: RegistryView, now: u64)
        ensures
            report_refusal(self, registry, now) is None <==> self.settings.state_version == 1
                && self.nav(registry, now) is Ok,
            snapshot_refusal(self, registry, now) is None <==> self.settings.owner is Some
                && self.settings.state_version == 1 && self.nav(registry, now) is Ok,
            self.settings.owner is None ==> snapshot_refusal(self, registry, now) == Some(
                VaultError::OwnerNotSet,
            ),
            self.settings.state_version != 1 ==> report_refusal(self, registry, now) == Some(
                VaultError::UnsupportedStateVersion,
            ),
    {
    }

    /// Settling the queue is accepted in a sound vault of the current layout, as far as the
    /// remembered value fits.
    pub proof fn settling_is_accepted(self)
        requires
            self.well_formed(),
        ensures
            ({
                let cached = self.totals.cached_total_assets;
                &&& self.claimable() is Ok
                &&& self.claim_refusal() is None <==> self.settings.state_version == 1 && cached
                    - self.claim_total(self.claimable()->Ok_0) >= i128::MIN
                &&& self.settings.state_version != 1 ==> self.claim_refusal() == Some(
                    VaultError::UnsupportedStateVersion,
                )
            }),
    {
        let head = self.totals.queue_head as int;
        let tail = self.totals.queue_tail as int;
        let usdc = self.totals.usdc_balance as int;
        lemma_sound_queue_settles(self.queue, head, tail, usdc);
        lemma_settled_prefix(
            self.queue,
            self.settings.vault,
            head,
            tail,
            usdc,
        );
    }
}

proof fn lemma_sound_queue_settles(
    queue: Map<u64, QueuedClaim>,
    head: int,
    tail: int,
    liquid: int,
)
    requires
        0 <= head,
        tail <= u64::MAX,
        forall|i: u64| head <= i < tail ==> #[trigger] queue.contains_key(i),
        forall|i: u64| #[trigger] queue.contains_key(i) ==> queue[i].usdc_owed > 0,
    ensures
        settled_claims(queue, head, tail, liquid) is Ok,
    decreases tail - head,
{
    if head < tail && liquid > 0 {
        assert(queue.contains_key(head as u64));
        if queue[head as u64].usdc_owed <= liquid {
            lemma_sound_queue_settles(
                queue,
                head + 1,
                tail,
                liquid - queue[head as u64].usdc_owed,
            );
        }
    }
}

/// The configuration is open to an owner while the vault is not paused; rates have caps of 5% and
/// 10%; the oracle sets prices above zero.
pub proof fn configurations_are_accepted(s: Settings, rate: u32, price: i128, counter: u64)
    ensures
        configure_refusal(s) is None <==> s.owner is Some && !s.paused && s.state_version == 1,
        flash_fee_refusal(s, rate) is None <==> s.owner is Some && !s.paused && s.state_version == 1
            && rate <= 1_000,
        tier_refusal(s, price, rate) is None <==> s.owner is Some && !s.paused
            && s.state_version == 1 && rate <= 500 && (price == 0 || rate <= s.management_fee_bps),
        carbon_price_refusal(s, price) is None <==> !s.paused && s.state_version == 1
            && s.carbon_oracle is Some && price > 0,
        round_refusal(s) is None <==> s.owner is Some && s.state_version == 1,
        record_refusal(s, counter) is None <==> s.owner is Some && s.state_version == 1 && counter
            < u64::MAX,
        s.owner is None ==> configure_refusal(s) == Some(VaultError::OwnerNotSet),
        s.owner is Some && s.paused ==> configure_refusal(s) == Some(VaultError::Paused),
        s.owner is Some && !s.paused && s.state_version != 1 ==> configure_refusal(s) == Some(
            VaultError::UnsupportedStateVersion,
        ),
        configure_refusal(s) is None && rate > 1_000 ==> flash_fee_refusal(s, rate) == Some(
            VaultError::FlashLoanFeeOutOfRange,
        ),
        configure_refusal(s) is None && rate > 500 ==> tier_refusal(s, price, rate)
            == Some(VaultError::FeeExceedsMaximum),
{
}

} // verus!
