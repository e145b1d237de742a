//! Deposits of USDC for shares.

use crate::arith::{fits, sum};
use crate::assets::price_shares;
use crate::constants::{
    BPS_SCALE, INSURANCE_PREMIUM_BPS, MAX_BATCH_DEPOSIT_SIZE, MAX_DEPOSIT, MAX_HBS_SUPPLY,
    MIN_DEPOSIT, TTL_EXTEND_THRESHOLD_LEDGERS, TTL_EXTEND_TO_LEDGERS,
};
use crate::flows::{balanced, shares_flow};
use crate::shares::{after_payment, after_receipt, pay, receive};
use crate::state::{InvestmentVault, Registry, RegistryView, Settings, Totals, VaultState};
use crate::tables::{entry, entry_u64};
use crate::types::{Address, Effect, Event, Ledger, Outcome, VaultError, VolumeTier};
use vstd::prelude::*;

verus! {

/// The insurance premium of a deposit.
pub open spec fn premium_of(amount: int) -> int {
    amount * INSURANCE_PREMIUM_BPS / (BPS_SCALE as int)
}

/// The management fee rate of a deposit: the discounted one from the tier's threshold up, the
/// flat one otherwise.
pub open spec fn dynamic_fee_bps(amount: int, fee_bps: u32, tier: Option<VolumeTier>) -> u32 {
    match tier {
        Some(t) => if amount >= t.threshold {
            t.discounted_bps
        } else {
            fee_bps
        },
        None => fee_bps,
    }
}

impl Settings {
    /// The management fee of a deposit.
    pub open spec fn fee_of(self, amount: int) -> int {
        amount * dynamic_fee_bps(amount, self.management_fee_bps, self.volume_tier) / (
        BPS_SCALE as int)
    }

    /// What is left of a deposit to buy shares with.
    pub open spec fn investable_of(self, amount: int) -> int {
        amount - premium_of(amount) - self.fee_of(amount)
    }
}

impl VaultState {
    /// USDC that `account` has deposited in all.
    pub open spec fn deposited_by(self, account: Address) -> i128 {
        entry(self.total_deposited, account.id, 0)
    }

    /// What the vault holds once a deposit is in and its management fee is out.
    pub open spec fn usdc_after_deposit(self, from: Address, amount: int) -> Result<
        i128,
        VaultError,
    > {
        let vault = self.settings.vault;
        let fee = self.settings.fee_of(amount);
        match after_receipt(self.totals.usdc_balance as int, vault, from, amount) {
            Err(e) => Err(e),
            Ok(received) => if !fits(self.totals.insurance_fund + premium_of(amount)) {
                Err(VaultError::ArithmeticOverflow)
            } else if fee <= 0 {
                Ok(received)
            } else {
                match self.settings.management_fee_recipient {
                    None => Err(VaultError::FeeRecipientNotSet),
                    Some(recipient) => after_payment(received as int, vault, recipient, fee),
                }
            },
        }
    }

    /// Why a deposit that buys `shares` at the value `nav` cannot be settled.
    pub open spec fn deposit_settlement_refusal(
        self,
        nav: int,
        from: Address,
        amount: int,
        shares: int,
    ) -> Option<VaultError> {
        if !fits(self.totals.total_supply + shares) {
            Some(VaultError::ArithmeticOverflow)
        } else if self.totals.total_supply + shares > MAX_HBS_SUPPLY {
            Some(VaultError::MaxSupplyExceeded)
        } else {
            match self.usdc_after_deposit(from, amount) {
                Err(e) => Some(e),
                Ok(_) => if !fits(self.deposited_by(from) + amount) || !fits(nav + amount) {
                    Some(VaultError::ArithmeticOverflow)
                } else {
                    self.mint_refusal(from, shares)
                },
            }
        }
    }

    /// Why a deposit is refused.
    pub open spec fn deposit_refusal(
        self,
        ledger: Ledger,
        registry: RegistryView,
        from: Address,
        amount: int,
    ) -> Option<VaultError> {
        if self.settings.paused {
            Some(VaultError::Paused)
        } else if !self.settings.is_current() {
            Some(VaultError::UnsupportedStateVersion)
        } else if amount <= 0 {
            Some(VaultError::AmountNotPositive)
        } else if amount < MIN_DEPOSIT {
            Some(VaultError::DepositBelowMinimum)
        } else if amount > MAX_DEPOSIT {
            Some(VaultError::DepositExceedsMaximum)
        } else if self.settings.over_transaction_limit(amount) {
            Some(VaultError::ExceedsMaxTransactionAmount)
        } else {
            match self.nav(registry, ledger.timestamp) {
                Err(e) => Some(e),
                Ok(nav) => match self.deposit_shares(registry, ledger.timestamp, amount) {
                    Err(e) => Some(e),
                    Ok(shares) => self.deposit_settlement_refusal(
                        nav as int,
                        from,
                        amount,
                        shares as int,
                    ),
                },
            }
        }
    }

    /// The shares that a deposit buys.
    pub open spec fn deposit_shares(self, registry: RegistryView, now: u64, amount: int) -> Result<
        i128,
        VaultError,
    > {
        self.to_shares(registry, now, self.settings.investable_of(amount))
    }

    /// This state after a deposit that buys `shares` at the value `nav`. The premium is credited
    /// to the insurance fund, and the shares are locked.
    pub open spec fn deposited(
        self,
        ledger: Ledger,
        nav: int,
        from: Address,
        amount: int,
        shares: int,
    ) -> VaultState {
        let minted = self.minted(from, shares);
        VaultState {
            totals: Totals {
                usdc_balance: self.usdc_after_deposit(from, amount)->Ok_0,
                insurance_fund: (self.totals.insurance_fund + premium_of(amount)) as i128,
                cached_total_assets: (nav + amount) as i128,
                ..minted.totals
            },
            total_deposited: self.total_deposited.insert(
                from.id,
                (self.deposited_by(from) + amount) as i128,
            ),
            ..minted
        }.locked(ledger, from)
    }

    /// This state after an accepted deposit.
    pub open spec fn after_deposit(
        self,
        ledger: Ledger,
        registry: RegistryView,
        from: Address,
        amount: int,
    ) -> VaultState {
        self.deposited(
            ledger,
            self.nav(registry, ledger.timestamp)->Ok_0 as int,
            from,
            amount,
            self.deposit_shares(registry, ledger.timestamp, amount)->Ok_0 as int,
        )
    }
}

impl Settings {
    /// What the host does for a deposit.
    pub open spec fn deposit_effects(self, from: Address, amount: i128, shares: i128) -> Seq<
        Effect,
    > {
        let fee = self.fee_of(amount as int);
        seq![
            Effect::RequireAuth(from),
            Effect::TransferUsdc { from, to: self.vault, amount },
        ] + (if fee > 0 {
            seq![
                Effect::TransferUsdc {
                    from: self.vault,
                    to: self.management_fee_recipient->Some_0,
                    amount: fee as i128,
                },
            ]
        } else {
            seq![]
        }) + seq![
            Effect::ExtendDepositRecord {
                account: from,
                threshold: TTL_EXTEND_THRESHOLD_LEDGERS,
                extend_to: TTL_EXTEND_TO_LEDGERS,
            },
            Effect::MintShares { to: from, amount: shares },
            Effect::Emit(Event::Deposit { from, usdc_amount: amount, shares }),
        ]
    }
}

/// The management fee rate of a deposit.
pub fn calculate_dynamic_fee_bps(amount: i128, fee_bps: u32, tier: Option<VolumeTier>) -> (r: u32)
    ensures
        r == dynamic_fee_bps(amount as int, fee_bps, tier),
{
    match tier {
        Some(t) => {
            if amount >= t.threshold {
                t.discounted_bps
            } else {
                fee_bps
            }
        },
        None => fee_bps,
    }
}

impl InvestmentVault {
    /// Deposit `usdc_amount` of `from` and mint shares for what is left after the insurance
    /// premium and the management fee. The value is the number of shares.
    pub fn deposit(
        &mut self,
        ledger: &Ledger,
        registry: &Registry,
        from: Address,
        usdc_amount: i128,
    ) -> (r: Result<Outcome<i128>, VaultError>)
        ensures
            old(self)@.well_formed() ==> final(self)@.well_formed(),
            match r {
                Ok(out) => {
                    &&& balanced(old(self)@, final(self)@, out.effects@)
                    &&& out.value == shares_flow(from, out.effects@)
                    &&& old(self)@.deposit_refusal(*ledger, registry@, from, usdc_amount as int)
                        is None
                    &&& Ok::<i128, VaultError>(out.value) == old(self)@.deposit_shares(
                        registry@,
                        ledger.timestamp,
                        usdc_amount as int,
                    )
                    &&& final(self)@ == old(self)@.after_deposit(
                        *ledger,
                        registry@,
                        from,
                        usdc_amount as int,
                    )
                    &&& out.effects@ == old(self)@.settings.deposit_effects(
                        from,
                        usdc_amount,
                        out.value,
                    )
                },
                Err(e) => {
                    &&& old(self)@.deposit_refusal(*ledger, registry@, from, usdc_amount as int)
                        == Some(e)
                    &&& *final(self) == *old(self)
                },
            },
    {
        broadcast use vstd::std_specs::btree::group_btree_axioms;

        self.require_not_paused()?;
        self.require_current_state()?;
        if usdc_amount <= 0 {
            return Err(VaultError::AmountNotPositive);
        }
        if usdc_amount < MIN_DEPOSIT {
            return Err(VaultError::DepositBelowMinimum);
        }
        if usdc_amount > MAX_DEPOSIT {
            return Err(VaultError::DepositExceedsMaximum);
        }
        self.check_max_transaction_amount(usdc_amount)?;

        let premium: i128 = deduction(usdc_amount, INSURANCE_PREMIUM_BPS as u32);
        let fee_bps: u32 = calculate_dynamic_fee_bps(
            usdc_amount,
            self.settings.management_fee_bps,
            self.settings.volume_tier,
        );
        let fee: i128 = deduction(usdc_amount, fee_bps);
        let investable: i128 = usdc_amount - premium - fee;

        let nav: i128 = self.net_asset_value(ledger, registry)?;
        let shares: i128 = price_shares(investable, self.totals.total_supply, nav)?;
        let supply: i128 = sum(self.totals.total_supply, shares)?;
        if supply > MAX_HBS_SUPPLY {
            return Err(VaultError::MaxSupplyExceeded);
        }
        let vault = self.settings.vault;
        let mut effects: Vec<Effect> = Vec::new();
        effects.push(Effect::RequireAuth(from));
        effects.push(Effect::TransferUsdc { from, to: vault, amount: usdc_amount });
        let received: i128 = receive(self.totals.usdc_balance, vault, from, usdc_amount)?;
        let insurance: i128 = sum(self.totals.insurance_fund, premium)?;
        let mut held: i128 = received;
        if fee > 0 {
            match self.settings.management_fee_recipient {
                None => {
                    return Err(VaultError::FeeRecipientNotSet);
                },
                Some(recipient) => {
                    held = pay(received, vault, recipient, fee)?;
                    effects.push(
                        Effect::TransferUsdc { from: vault, to: recipient, amount: fee },
                    );
                },
            }
        }
        let deposited: i128 = sum(entry_u64(&self.total_deposited, from.id, 0), usdc_amount)?;
        let cached: i128 = sum(nav, usdc_amount)?;
        self.mint_shares(from, shares)?;

        self.totals.usdc_balance = held;
        self.totals.insurance_fund = insurance;
        self.totals.cached_total_assets = cached;
        self.total_deposited.insert(from.id, deposited);
        self.lock_deposit(ledger, from);

        effects.push(
            Effect::ExtendDepositRecord {
                account: from,
                threshold: TTL_EXTEND_THRESHOLD_LEDGERS,
                extend_to: TTL_EXTEND_TO_LEDGERS,
            },
        );
        effects.push(Effect::MintShares { to: from, amount: shares });
        effects.push(Effect::Emit(Event::Deposit { from, usdc_amount, shares }));
        assert(effects@ =~= old(self)@.settings.deposit_effects(from, usdc_amount, shares));
        proof {
            old(self)@.a_deposit_moves_what_it_books(
                *ledger,
                registry@,
                from,
                usdc_amount,
                from,
            );
            if old(self)@.well_formed() {
                old(self)@.lemma_deposit_keeps(*ledger, registry@, from, usdc_amount as int);
            }
        }
        Ok(Outcome { value: shares, effects })
    }
}

/// What a run of deposits, one after the other, leads to.
pub struct DepositRun {
    pub state: VaultState,
    pub minted: Seq<i128>,
    pub effects: Seq<Effect>,
}

impl VaultState {
    /// The deposits of a list, made in order; the first refusal refuses them all.
    pub open spec fn deposit_run(
        self,
        ledger: Ledger,
        registry: RegistryView,
        deposits: Seq<(Address, i128)>,
    ) -> Result<DepositRun, VaultError>
        decreases deposits.len(),
    {
        if deposits.len() == 0 {
            Ok(DepositRun { state: self, minted: seq![], effects: seq![] })
        } else {
            match self.deposit_run(ledger, registry, deposits.drop_last()) {
                Err(e) => Err(e),
                Ok(run) => {
                    let (from, amount) = deposits.last();
                    match run.state.deposit_refusal(ledger, registry, from, amount as int) {
                        Some(e) => Err(e),
                        None => {
                            let shares = run.state.deposit_shares(
                                registry,
                                ledger.timestamp,
                                amount as int,
                            )->Ok_0;
                            Ok(
                                DepositRun {
                                    state: run.state.after_deposit(
                                        ledger,
                                        registry,
                                        from,
                                        amount as int,
                                    ),
                                    minted: run.minted.push(shares),
                                    effects: run.effects + run.state.settings.deposit_effects(
                                        from,
                                        amount,
                                        shares,
                                    ),
                                },
                            )
                        },
                    }
                },
            }
        }
    }

    /// The result of a batch of deposits.
    pub open spec fn deposit_batch(
        self,
        ledger: Ledger,
        registry: RegistryView,
        deposits: Seq<(Address, i128)>,
    ) -> Result<DepositRun, VaultError> {
        if deposits.len() == 0 {
            Err(VaultError::EmptyBatchDeposit)
        } else if deposits.len() > MAX_BATCH_DEPOSIT_SIZE {
            Err(VaultError::BatchTooLarge)
        } else {
            self.deposit_run(ledger, registry, deposits)
        }
    }

    /// A refusal on the way refuses the whole list in the same way.
    proof fn lemma_deposit_run_failure(
        self,
        ledger: Ledger,
        registry: RegistryView,
        deposits: Seq<(Address, i128)>,
        k: int,
    )
        requires
            0 <= k <= deposits.len(),
        ensures
            self.deposit_run(ledger, registry, deposits.take(k)) is Err ==> self.deposit_run(
                ledger,
                registry,
                deposits,
            ) == self.deposit_run(ledger, registry, deposits.take(k)),
        decreases deposits.len(),
    {
        if k < deposits.len() {
            self.lemma_deposit_run_failure(ledger, registry, deposits.drop_last(), k);
            assert(deposits.drop_last().take(k) =~= deposits.take(k));
        } else {
            assert(deposits.take(k) =~= deposits);
        }
    }
}

impl InvestmentVault {
    /// Make the deposits of several accounts in one call: all of them, or none. The values are
    /// the shares minted, in order.
    pub fn batch_deposit(
        &mut self,
        ledger: &Ledger,
        registry: &Registry,
        deposits: &Vec<(Address, i128)>,
    ) -> (r: Result<Outcome<Vec<i128>>, VaultError>)
        ensures
            old(self)@.well_formed() ==> final(self)@.well_formed(),
            match r {
                Ok(out) => {
                    &&& balanced(old(self)@, final(self)@, out.effects@)
                    &&& old(self)@.deposit_batch(*ledger, registry@, deposits@) is Ok
                    &&& {
                        let run = old(self)@.deposit_batch(*ledger, registry@, deposits@)->Ok_0;
                        &&& final(self)@ == run.state
                        &&& out.value@ == run.minted
                        &&& out.effects@ == run.effects
                    }
                },
                Err(e) => {
                    &&& old(self)@.deposit_batch(*ledger, registry@, deposits@) == Err::<
                        DepositRun,
                        VaultError,
                    >(e)
                    &&& final(self)@ == old(self)@
                },
            },
    {
        if deposits.len() == 0 {
            return Err(VaultError::EmptyBatchDeposit);
        }
        if deposits.len() > MAX_BATCH_DEPOSIT_SIZE as usize {
            return Err(VaultError::BatchTooLarge);
        }
        let totals = self.totals;
        let share_balances = self.share_balances.clone();
        let total_deposited = self.total_deposited.clone();
        let last_deposit = self.last_deposit.clone();
        let last_deposit_ledger = self.last_deposit_ledger.clone();

        let mut minted: Vec<i128> = Vec::new();
        let mut effects: Vec<Effect> = Vec::new();
        let mut i: usize = 0;
        proof {
            assert(deposits@.take(0) =~= seq![]);
        }
        while i < deposits.len()
            invariant
                i <= deposits.len(),
                0 < deposits.len() <= MAX_BATCH_DEPOSIT_SIZE,
                old(self)@.deposit_run(*ledger, registry@, deposits@.take(i as int)) is Ok,
                ({
                    let run = old(self)@.deposit_run(
                        *ledger,
                        registry@,
                        deposits@.take(i as int),
                    )->Ok_0;
                    &&& self@ == run.state
                    &&& minted@ == run.minted
                    &&& effects@ == run.effects
                }),
                self@ == (VaultState {
                    totals: self.totals,
                    share_balances: self.share_balances@,
                    total_deposited: self.total_deposited@,
                    last_deposit: self.last_deposit@,
                    last_deposit_ledger: self.last_deposit_ledger@,
                    ..old(self)@
                }),
                totals == old(self).totals,
                share_balances@ == old(self).share_balances@,
                total_deposited@ == old(self).total_deposited@,
                last_deposit@ == old(self).last_deposit@,
                last_deposit_ledger@ == old(self).last_deposit_ledger@,
                old(self)@.well_formed() ==> self@.well_formed(),
            decreases deposits.len() - i,
        {
            let (from, amount): (Address, i128) = deposits[i];
            let ghost before = deposits@.take(i as int);
            let ghost upto = deposits@.take(i + 1);
            proof {
                assert(upto.drop_last() =~= before);
                old(self)@.lemma_deposit_run_failure(*ledger, registry@, deposits@, i + 1);
            }
            match self.deposit(ledger, registry, from, amount) {
                Ok(out) => {
                    let mut made = out.effects;
                    minted.push(out.value);
                    effects.append(&mut made);
                },
                Err(e) => {
                    self.totals = totals;
                    self.share_balances = share_balances;
                    self.total_deposited = total_deposited;
                    self.last_deposit = last_deposit;
                    self.last_deposit_ledger = last_deposit_ledger;
                    return Err(e);
                },
            }
            i = i + 1;
        }
        proof {
            assert(deposits@.take(i as int) =~= deposits@);
            old(self)@.a_batch_of_deposits_moves_what_it_books(*ledger, registry@, deposits@);
        }
        Ok(Outcome { value: minted, effects })
    }
}

/// A part of an admissible deposit, in basis points.
fn deduction(amount: i128, bps: u32) -> (r: i128)
    requires
        0 < amount <= MAX_DEPOSIT,
    ensures
        r == amount * bps / (BPS_SCALE as int),
        0 <= r <= MAX_DEPOSIT * u32::MAX,
{
    assert(0 <= amount * bps <= MAX_DEPOSIT * u32::MAX) by (nonlinear_arith)
        requires
            0 < amount <= MAX_DEPOSIT,
            0 <= bps <= u32::MAX,
    ;
    amount * (bps as i128) / BPS_SCALE
}

} // verus!
