//! Yield: distributed over the shares, and claimed by their holders.

use crate::arith::{difference, fits, proportion, scaled, sum};
use crate::assets::price_assets;
use crate::constants::{BPS_SCALE, TTL_EXTEND_THRESHOLD_LEDGERS, TTL_EXTEND_TO_LEDGERS, YIELD_SCALE};
use crate::flows::{balanced, usdc_paid};
use crate::guards::{approval_refusal, first, sole_owner_refusal};
use crate::shares::{after_payment, after_receipt, pay, receive};
use crate::state::{InvestmentVault, Registry, RegistryView, Totals, VaultState};
use crate::tables::{entry, entry_u64};
use crate::types::{
    Address, ApprovalError, Effect, Event, Ledger, Outcome, PortfolioInfo, VaultError,
};
use vstd::prelude::*;

verus! {

impl VaultState {
    /// The accumulator up to which `account` has been paid.
    pub open spec fn debt_of(self, account: Address) -> i128 {
        entry(self.yield_debt, account.id, 0)
    }

    /// The yield that `account` can claim: its shares, times the yield per share since its last
    /// claim.
    pub open spec fn yield_of(self, account: Address) -> Result<i128, VaultError> {
        let since = self.totals.yield_per_share_accum - self.debt_of(account);
        if fits(since) {
            proportion(self.shares_of(account) as int, since, YIELD_SCALE as int)
        } else {
            Err(VaultError::ArithmeticOverflow)
        }
    }

    /// What a yield of `paid` adds to the accumulator.
    pub open spec fn yield_delta(self, paid: int) -> Result<i128, VaultError> {
        proportion(paid, YIELD_SCALE as int, self.totals.total_supply as int)
    }

    /// Why a yield is refused.
    pub open spec fn yield_refusal(self, from: Address, paid: int) -> Option<VaultError> {
        if !self.settings.is_current() {
            Some(VaultError::UnsupportedStateVersion)
        } else if paid <= 0 {
            Some(VaultError::YieldAmountNotPositive)
        } else if self.totals.total_supply == 0 {
            Some(VaultError::NoSharesOutstanding)
        } else {
            match after_receipt(
                self.totals.usdc_balance as int,
                self.settings.vault,
                from,
                paid,
            ) {
                Err(e) => Some(e),
                Ok(_) => match self.yield_delta(paid) {
                    Err(e) => Some(e),
                    Ok(delta) => if fits(self.totals.yield_per_share_accum + delta) {
                        None
                    } else {
                        Some(VaultError::ArithmeticOverflow)
                    },
                },
            }
        }
    }

    /// This state after a yield.
    pub open spec fn after_yield(self, from: Address, paid: int) -> VaultState {
        self.with_totals(
            Totals {
                usdc_balance: after_receipt(
                    self.totals.usdc_balance as int,
                    self.settings.vault,
                    from,
                    paid,
                )->Ok_0,
                yield_per_share_accum: (self.totals.yield_per_share_accum + self.yield_delta(
                    paid,
                )->Ok_0) as i128,
                ..self.totals
            },
        )
    }

    /// Why a claim of yield is refused.
    pub open spec fn yield_claim_refusal(self, from: Address) -> Option<VaultError> {
        if !self.settings.is_current() {
            Some(VaultError::UnsupportedStateVersion)
        } else {
            match self.yield_of(from) {
                Err(e) => Some(e),
                Ok(due) => if due <= 0 {
                    None
                } else if due > self.totals.usdc_balance {
                    Some(VaultError::InsufficientLiquidYield)
                } else if !fits(self.totals.cached_total_assets - due) {
                    Some(VaultError::ArithmeticOverflow)
                } else {
                    None
                },
            }
        }
    }

    /// This state after a claim of yield: nothing changes where nothing is due.
    pub open spec fn after_yield_claim(self, from: Address) -> VaultState {
        let due = self.yield_of(from)->Ok_0;
        if due <= 0 {
            self
        } else {
            VaultState {
                totals: Totals {
                    usdc_balance: after_payment(
                        self.totals.usdc_balance as int,
                        self.settings.vault,
                        from,
                        due as int,
                    )->Ok_0,
                    cached_total_assets: (self.totals.cached_total_assets - due) as i128,
                    ..self.totals
                },
                yield_debt: self.yield_debt.insert(from.id, self.totals.yield_per_share_accum),
                ..self
            }
        }
    }

    /// The part of all shares that `account` holds, in basis points.
    pub open spec fn pool_share(self, account: Address) -> Result<i128, VaultError> {
        if self.totals.total_supply == 0 {
            Ok(0)
        } else {
            proportion(
                self.shares_of(account) as int,
                BPS_SCALE as int,
                self.totals.total_supply as int,
            )
        }
    }

    /// What the vault tells of one account.
    pub open spec fn portfolio(self, registry: RegistryView, now: u64, account: Address) -> Result<
        PortfolioInfo,
        VaultError,
    > {
        if !self.settings.is_current() {
            Err(VaultError::UnsupportedStateVersion)
        } else {
            match self.to_assets(registry, now, self.shares_of(account) as int) {
                Err(e) => Err(e),
                Ok(usdc_value) => match self.yield_of(account) {
                    Err(e) => Err(e),
                    Ok(claimable_yield) => match self.pool_share(account) {
                        Err(e) => Err(e),
                        Ok(share_of_pool_bps) => Ok(
                            PortfolioInfo {
                                shares: self.shares_of(account),
                                usdc_value,
                                claimable_yield,
                                share_of_pool_bps,
                                total_deposited: self.deposited_by(account),
                            },
                        ),
                    },
                },
            }
        }
    }
}

/// What the host does for a claim of yield that comes to `due`.
pub open spec fn yield_claim_effects(vault: Address, from: Address, due: i128) -> Seq<Effect> {
    if due <= 0 {
        seq![Effect::RequireAuth(from)]
    } else {
        seq![
            Effect::RequireAuth(from),
            Effect::TransferUsdc { from: vault, to: from, amount: due },
            Effect::Emit(Event::YieldClaimed { from, amount: due }),
        ]
    }
}

/// What the host does for a yield.
pub open spec fn yield_effects(vault: Address, from: Address, paid: i128) -> Seq<Effect> {
    seq![
        Effect::TransferUsdc { from, to: vault, amount: paid },
        Effect::Emit(Event::YieldReceived { from, amount: paid }),
    ]
}

impl InvestmentVault {
    fn receive_yield_internal(&mut self, from: Address, amount: i128, effects: &mut Vec<Effect>) -> (r:
        Result<(), VaultError>)
        ensures
            old(self)@.well_formed() ==> final(self)@.well_formed(),
            match r {
                Ok(_) => {
                    &&& old(self)@.yield_refusal(from, amount as int) is None
                    &&& final(self)@ == old(self)@.after_yield(from, amount as int)
                    &&& final(effects)@ == old(effects)@ + yield_effects(
                        old(self).settings.vault,
                        from,
                        amount,
                    )
                },
                Err(e) => {
                    &&& old(self)@.yield_refusal(from, amount as int) == Some(e)
                    &&& *final(self) == *old(self)
                },
            },
    {
        self.require_current_state()?;
        if amount <= 0 {
            return Err(VaultError::YieldAmountNotPositive);
        }
        let supply: i128 = self.totals.total_supply;
        if supply == 0 {
            return Err(VaultError::NoSharesOutstanding);
        }
        let vault = self.settings.vault;
        let held: i128 = receive(self.totals.usdc_balance, vault, from, amount)?;
        let delta: i128 = scaled(amount, YIELD_SCALE, supply)?;
        let accum: i128 = sum(self.totals.yield_per_share_accum, delta)?;
        self.totals.usdc_balance = held;
        self.totals.yield_per_share_accum = accum;
        effects.push(Effect::TransferUsdc { from, to: vault, amount });
        effects.push(Effect::Emit(Event::YieldReceived { from, amount }));
        assert(effects@ =~= old(effects)@ + yield_effects(vault, from, amount));
        proof {
            if old(self)@.well_formed() {
                old(self)@.lemma_yield_keeps(from, amount as int);
            }
        }
        Ok(())
    }

    /// Take in a yield and spread it over the shares. For the owner, while the multi-signature is
    /// off.
    pub fn receive_yield(&mut self, from: Address, amount: i128) -> (r: Result<
        Outcome<()>,
        VaultError,
    >)
        ensures
            old(self)@.well_formed() ==> final(self)@.well_formed(),
            match r {
                Ok(out) => {
                    &&& balanced(old(self)@, final(self)@, out.effects@)
                    &&& sole_owner_refusal(old(self).settings) is None
                    &&& old(self)@.yield_refusal(from, amount as int) is None
                    &&& final(self)@ == old(self)@.after_yield(from, amount as int)
                    &&& out.effects@ == seq![
                        Effect::RequireAuth(old(self).settings.owner->Some_0),
                    ] + yield_effects(old(self).settings.vault, from, amount)
                },
                Err(e) => {
                    &&& Some(e) == first(
                        sole_owner_refusal(old(self).settings),
                        old(self)@.yield_refusal(from, amount as int),
                    )
                    &&& *final(self) == *old(self)
                },
            },
    {
        broadcast use crate::flows::group_flows;

        let owner = self.require_owner()?;
        self.require_multisig_disabled()?;
        let mut effects: Vec<Effect> = Vec::new();
        effects.push(Effect::RequireAuth(owner));
        self.receive_yield_internal(from, amount, &mut effects)?;
        assert(effects@ =~= seq![Effect::RequireAuth(owner)] + yield_effects(
            self.settings.vault,
            from,
            amount,
        ));
        Ok(Outcome { value: (), effects })
    }

    /// Take in a yield, given the outcome of the check of the approvals.
    pub fn receive_yield_with_approvals(
        &mut self,
        from: Address,
        amount: i128,
        approval: Result<(), ApprovalError>,
    ) -> (r: Result<Outcome<()>, VaultError>)
        ensures
            old(self)@.well_formed() ==> final(self)@.well_formed(),
            match r {
                Ok(out) => {
                    &&& balanced(old(self)@, final(self)@, out.effects@)
                    &&& approval_refusal(old(self).settings, approval) is None
                    &&& old(self)@.yield_refusal(from, amount as int) is None
                    &&& final(self)@ == old(self)@.after_yield(from, amount as int)
                    &&& out.effects@ == yield_effects(old(self).settings.vault, from, amount)
                },
                Err(e) => {
                    &&& Some(e) == first(
                        approval_refusal(old(self).settings, approval),
                        old(self)@.yield_refusal(from, amount as int),
                    )
                    &&& *final(self) == *old(self)
                },
            },
    {
        broadcast use crate::flows::group_flows;

        self.require_admin_approval(approval)?;
        let mut effects: Vec<Effect> = Vec::new();
        self.receive_yield_internal(from, amount, &mut effects)?;
        assert(effects@ =~= yield_effects(self.settings.vault, from, amount));
        Ok(Outcome { value: (), effects })
    }

    fn yield_due(&self, account: Address) -> (r: Result<i128, VaultError>)
        ensures
            r == self@.yield_of(account),
    {
        let debt: i128 = entry_u64(&self.yield_debt, account.id, 0);
        let since: i128 = difference(self.totals.yield_per_share_accum, debt)?;
        scaled(self.shares_of(account), since, YIELD_SCALE)
    }

    /// The yield that `account` can claim.
    pub fn claimable_yield(&self, account: Address) -> (r: Result<i128, VaultError>)
        ensures
            r == if self.settings.is_current() {
                self@.yield_of(account)
            } else {
                Err(VaultError::UnsupportedStateVersion)
            },
    {
        self.require_current_state()?;
        self.yield_due(account)
    }

    /// Pay `from` its yield. The value is what is paid.
    pub fn claim_yield(&mut self, from: Address) -> (r: Result<Outcome<i128>, VaultError>)
        ensures
            old(self)@.well_formed() ==> final(self)@.well_formed(),
            match r {
                Ok(out) => {
                    let due = old(self)@.yield_of(from)->Ok_0;
                    &&& balanced(old(self)@, final(self)@, out.effects@)
                    &&& out.value == usdc_paid(old(self).settings.vault, out.effects@)
                    &&& old(self)@.yield_claim_refusal(from) is None
                    &&& out.value == if due <= 0 {
                        0
                    } else {
                        due
                    }
                    &&& final(self)@ == old(self)@.after_yield_claim(from)
                    &&& out.effects@ == yield_claim_effects(old(self).settings.vault, from, due)
                },
                Err(e) => {
                    &&& old(self)@.yield_claim_refusal(from) == Some(e)
                    &&& *final(self) == *old(self)
                },
            },
    {
        broadcast use crate::flows::group_flows;
        broadcast use vstd::std_specs::btree::group_btree_axioms;

        self.require_current_state()?;
        let due: i128 = self.yield_due(from)?;
        let mut effects: Vec<Effect> = Vec::new();
        effects.push(Effect::RequireAuth(from));
        if due <= 0 {
            return Ok(Outcome { value: 0, effects });
        }
        if due > self.totals.usdc_balance {
            return Err(VaultError::InsufficientLiquidYield);
        }
        let cached: i128 = difference(self.totals.cached_total_assets, due)?;
        let vault = self.settings.vault;
        let held: i128 = pay(self.totals.usdc_balance, vault, from, due)?;
        self.yield_debt.insert(from.id, self.totals.yield_per_share_accum);
        self.totals.usdc_balance = held;
        self.totals.cached_total_assets = cached;
        effects.push(Effect::TransferUsdc { from: vault, to: from, amount: due });
        effects.push(Effect::Emit(Event::YieldClaimed { from, amount: due }));
        Ok(Outcome { value: due, effects })
    }

    /// A full picture of the position of `account`.
    pub fn get_portfolio(
        &mut self,
        ledger: &Ledger,
        registry: &Registry,
        account: Address,
    ) -> (r: Result<Outcome<PortfolioInfo>, VaultError>)
        ensures
            old(self)@.well_formed() ==> final(self)@.well_formed(),
            match r {
                Ok(out) => {
                    &&& old(self)@.portfolio(registry@, ledger.timestamp, account) == Ok::<
                        PortfolioInfo,
                        VaultError,
                    >(out.value)
                    &&& final(self)@ == old(self)@.caching(
                        old(self)@.nav(registry@, ledger.timestamp)->Ok_0,
                    )
                    &&& out.effects@ == if old(self)@.total_deposited.contains_key(account.id) {
                        seq![
                            Effect::ExtendDepositRecord {
                                account,
                                threshold: TTL_EXTEND_THRESHOLD_LEDGERS,
                                extend_to: TTL_EXTEND_TO_LEDGERS,
                            },
                        ]
                    } else {
                        seq![]
                    }
                },
                Err(e) => {
                    &&& old(self)@.portfolio(registry@, ledger.timestamp, account) == Err::<
                        PortfolioInfo,
                        VaultError,
                    >(e)
                    &&& *final(self) == *old(self)
                },
            },
    {
        broadcast use vstd::std_specs::btree::group_btree_axioms;

        self.require_current_state()?;
        let shares: i128 = self.shares_of(account);
        let supply: i128 = self.totals.total_supply;
        let nav: i128 = self.net_asset_value(ledger, registry)?;
        let usdc_value: i128 = price_assets(shares, supply, nav)?;
        let claimable_yield: i128 = self.yield_due(account)?;
        let share_of_pool_bps: i128 = if supply == 0 {
            0
        } else {
            scaled(shares, BPS_SCALE, supply)?
        };
        let total_deposited: i128 = entry_u64(&self.total_deposited, account.id, 0);
        self.totals.cached_total_assets = nav;
        let mut effects: Vec<Effect> = Vec::new();
        if self.total_deposited.contains_key(&account.id) {
            effects.push(
                Effect::ExtendDepositRecord {
                    account,
                    threshold: TTL_EXTEND_THRESHOLD_LEDGERS,
                    extend_to: TTL_EXTEND_TO_LEDGERS,
                },
            );
        }
        let value = PortfolioInfo {
            shares,
            usdc_value,
            claimable_yield,
            share_of_pool_bps,
            total_deposited,
        };
        Ok(Outcome { value, effects })
    }
}

} // verus!
