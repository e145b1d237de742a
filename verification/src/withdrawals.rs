//! Redemption of shares, at once or through the queue.

use crate::arith::{difference, fits, proportion, scaled};
use crate::assets::price_assets;
use crate::constants::{
    HIGH_TIER_PCT, LOW_TIER_PCT, MED_TIER_PCT, MIN_WITHDRAW, UTIL_HIGH_BPS, UTIL_LOW_BPS,
    UTIL_MED_BPS, UTIL_WARN_BPS,
};
use crate::flows::{balanced, usdc_paid};
use crate::shares::{after_payment, pay};
use crate::state::{InvestmentVault, Registry, RegistryView, Totals, VaultState};
use crate::tables::{optional, optional_u64};
use crate::types::{Address, Effect, Event, Ledger, Outcome, QueuedClaim, VaultError};
use vstd::prelude::*;

verus! {

/// The most that one withdrawal may take, given the utilization and the liquid USDC. Below the
/// lowest tier there is no limit.
pub open spec fn withdraw_limit(utilization_bps: u32, liquid: int) -> Result<i128, VaultError> {
    if utilization_bps >= UTIL_HIGH_BPS {
        proportion(liquid, HIGH_TIER_PCT as int, 100)
    } else if utilization_bps >= UTIL_MED_BPS {
        proportion(liquid, MED_TIER_PCT as int, 100)
    } else if utilization_bps >= UTIL_LOW_BPS {
        proportion(liquid, LOW_TIER_PCT as int, 100)
    } else {
        Ok(i128::MAX)
    }
}

impl VaultState {
    /// Why `owed` USDC may not leave the vault in one withdrawal.
    pub open spec fn limit_refusal(self, owed: int, min_usdc_return: int) -> Option<VaultError> {
        match self.utilization() {
            Err(e) => Some(e),
            Ok(utilization_bps) => match withdraw_limit(
                utilization_bps,
                self.totals.usdc_balance as int,
            ) {
                Err(e) => Some(e),
                Ok(limit) => if owed > limit {
                    Some(VaultError::WithdrawalExceedsLimit)
                } else if owed < min_usdc_return {
                    Some(VaultError::SlippageLimitExceeded)
                } else {
                    None
                },
            },
        }
    }

    /// Why `owed` USDC for `shares` cannot be settled.
    pub open spec fn withdraw_settlement_refusal(
        self,
        nav: int,
        from: Address,
        shares: int,
        owed: int,
    ) -> Option<VaultError> {
        let liquid = self.totals.usdc_balance as int;
        if self.burn_refusal(from, shares) is Some {
            self.burn_refusal(from, shares)
        } else if owed > liquid {
            if self.totals.queue_tail == u64::MAX {
                Some(VaultError::ArithmeticOverflow)
            } else {
                None
            }
        } else if !fits(nav - owed) {
            Some(VaultError::ArithmeticOverflow)
        } else {
            match after_payment(liquid, self.settings.vault, from, owed) {
                Err(e) => Some(e),
                Ok(_) => None,
            }
        }
    }

    /// Why a withdrawal is refused.
    pub open spec fn withdraw_refusal(
        self,
        ledger: Ledger,
        registry: RegistryView,
        from: Address,
        shares: int,
        min_usdc_return: int,
    ) -> Option<VaultError> {
        if self.settings.paused {
            Some(VaultError::Paused)
        } else if !self.settings.is_current() {
            Some(VaultError::UnsupportedStateVersion)
        } else if self.lock_refusal(ledger, from) is Some {
            self.lock_refusal(ledger, from)
        } else if shares <= 0 {
            Some(VaultError::SharesNotPositive)
        } else if shares < MIN_WITHDRAW {
            Some(VaultError::WithdrawBelowMinimum)
        } else {
            match self.nav(registry, ledger.timestamp) {
                Err(e) => Some(e),
                Ok(nav) => match self.to_assets(registry, ledger.timestamp, shares) {
                    Err(e) => Some(e),
                    Ok(owed) => if self.settings.over_transaction_limit(owed as int) {
                        Some(VaultError::ExceedsMaxTransactionAmount)
                    } else if self.limit_refusal(owed as int, min_usdc_return) is Some {
                        self.limit_refusal(owed as int, min_usdc_return)
                    } else {
                        self.withdraw_settlement_refusal(nav as int, from, shares, owed as int)
                    },
                },
            }
        }
    }

    /// Liquid USDC does not cover `owed`.
    pub open spec fn queues(self, owed: int) -> bool {
        owed > self.totals.usdc_balance
    }

    /// This state after a withdrawal of `shares` for `owed` USDC at the value `nav`: paid, or put
    /// at the end of the queue. The shares are gone either way.
    pub open spec fn withdrawn(
        self,
        nav: int,
        from: Address,
        shares: int,
        owed: int,
    ) -> VaultState {
        let burned = self.burned(from, shares);
        if self.queues(owed) {
            VaultState {
                totals: Totals {
                    cached_total_assets: nav as i128,
                    queue_tail: (self.totals.queue_tail + 1) as u64,
                    ..burned.totals
                },
                queue: self.queue.insert(
                    self.totals.queue_tail,
                    QueuedClaim { from, usdc_owed: owed as i128 },
                ),
                ..burned
            }
        } else {
            burned.with_totals(
                Totals {
                    cached_total_assets: (nav - owed) as i128,
                    usdc_balance: after_payment(
                        self.totals.usdc_balance as int,
                        self.settings.vault,
                        from,
                        owed,
                    )->Ok_0,
                    ..burned.totals
                },
            )
        }
    }

    /// The USDC that a withdrawal comes to.
    pub open spec fn withdraw_owed(self, ledger: Ledger, registry: RegistryView, shares: int) -> i128 {
        self.to_assets(registry, ledger.timestamp, shares)->Ok_0
    }

    /// This state after an accepted withdrawal.
    pub open spec fn after_withdraw(
        self,
        ledger: Ledger,
        registry: RegistryView,
        from: Address,
        shares: int,
    ) -> VaultState {
        self.withdrawn(
            self.nav(registry, ledger.timestamp)->Ok_0 as int,
            from,
            shares,
            self.withdraw_owed(ledger, registry, shares) as int,
        )
    }

    /// What the host does for a withdrawal.
    pub open spec fn withdraw_effects(self, from: Address, shares: i128, owed: i128) -> Seq<
        Effect,
    > {
        let utilization_bps = self.utilization()->Ok_0;
        (if utilization_bps >= UTIL_WARN_BPS {
            seq![Effect::Emit(Event::UtilizationWarning { utilization_bps })]
        } else {
            seq![]
        }) + seq![Effect::BurnShares { from, amount: shares }] + (if self.queues(owed as int) {
            seq![Effect::Emit(Event::WithdrawQueued { from, shares, usdc_owed: owed })]
        } else {
            seq![
                Effect::TransferUsdc { from: self.settings.vault, to: from, amount: owed },
                Effect::Emit(Event::Withdraw { from, shares, usdc_returned: owed }),
            ]
        })
    }
}

fn limit_for(utilization_bps: u32, liquid: i128) -> (r: Result<i128, VaultError>)
    ensures
        r == withdraw_limit(utilization_bps, liquid as int),
{
    if utilization_bps >= UTIL_HIGH_BPS {
        scaled(liquid, HIGH_TIER_PCT, 100)
    } else if utilization_bps >= UTIL_MED_BPS {
        scaled(liquid, MED_TIER_PCT, 100)
    } else if utilization_bps >= UTIL_LOW_BPS {
        scaled(liquid, LOW_TIER_PCT, 100)
    } else {
        Ok(i128::MAX)
    }
}

impl InvestmentVault {
    /// Burn `shares_amount` of `from` for their current value in USDC. The value is what is paid
    /// now: all of it, or 0 where liquid USDC does not cover it and the claim is queued.
    pub fn withdraw(
        &mut self,
        ledger: &Ledger,
        registry: &Registry,
        from: Address,
        shares_amount: i128,
        min_usdc_return: i128,
    ) -> (r: Result<Outcome<i128>, VaultError>)
        ensures
            old(self)@.well_formed() ==> final(self)@.well_formed(),
            match r {
                Ok(out) => {
                    let owed = old(self)@.withdraw_owed(
                        *ledger,
                        registry@,
                        shares_amount as int,
                    );
                    &&& balanced(old(self)@, final(self)@, out.effects@)
                    &&& out.value == usdc_paid(old(self).settings.vault, out.effects@)
                    &&& old(self)@.withdraw_refusal(
                        *ledger,
                        registry@,
                        from,
                        shares_amount as int,
                        min_usdc_return as int,
                    ) is None
                    &&& out.value == if old(self)@.queues(owed as int) {
                        0
                    } else {
                        owed
                    }
                    &&& final(self)@ == old(self)@.after_withdraw(
                        *ledger,
                        registry@,
                        from,
                        shares_amount as int,
                    )
                    &&& out.effects@ == old(self)@.withdraw_effects(from, shares_amount, owed)
                },
                Err(e) => {
                    &&& old(self)@.withdraw_refusal(
                        *ledger,
                        registry@,
                        from,
                        shares_amount as int,
                        min_usdc_return as int,
                    ) == Some(e)
                    &&& *final(self) == *old(self)
                },
            },
    {
        broadcast use vstd::std_specs::btree::group_btree_axioms;

        self.require_not_paused()?;
        self.require_current_state()?;
        self.check_deposit_lock(ledger, from)?;
        if shares_amount <= 0 {
            return Err(VaultError::SharesNotPositive);
        }
        if shares_amount < MIN_WITHDRAW {
            return Err(VaultError::WithdrawBelowMinimum);
        }
        let nav: i128 = self.net_asset_value(ledger, registry)?;
        let owed: i128 = price_assets(shares_amount, self.totals.total_supply, nav)?;
        self.check_max_transaction_amount(owed)?;

        let liquid: i128 = self.totals.usdc_balance;
        let utilization_bps: u32 = self.utilization()?;
        let limit: i128 = limit_for(utilization_bps, liquid)?;
        let mut effects: Vec<Effect> = Vec::new();
        if utilization_bps >= UTIL_WARN_BPS {
            effects.push(Effect::Emit(Event::UtilizationWarning { utilization_bps }));
        }
        if owed > limit {
            return Err(VaultError::WithdrawalExceedsLimit);
        }
        if owed < min_usdc_return {
            return Err(VaultError::SlippageLimitExceeded);
        }
        self.check_burn(from, shares_amount)?;
        if owed > liquid {
            let tail: u64 = self.totals.queue_tail;
            if tail == u64::MAX {
                return Err(VaultError::ArithmeticOverflow);
            }
            self.burn_shares(from, shares_amount)?;
            self.totals.cached_total_assets = nav;
            self.totals.queue_tail = tail + 1;
            self.queue.insert(tail, QueuedClaim { from, usdc_owed: owed });
            effects.push(Effect::BurnShares { from, amount: shares_amount });
            effects.push(
                Effect::Emit(
                    Event::WithdrawQueued { from, shares: shares_amount, usdc_owed: owed },
                ),
            );
            assert(effects@ =~= old(self)@.withdraw_effects(from, shares_amount, owed));
            proof {
                old(self)@.a_queued_withdrawal_moves_no_usdc(
                    *ledger,
                    registry@,
                    from,
                    shares_amount,
                    min_usdc_return as int,
                    from,
                );
                if old(self)@.well_formed() {
                    old(self)@.lemma_withdraw_keeps(
                        *ledger,
                        registry@,
                        from,
                        shares_amount as int,
                        min_usdc_return as int,
                    );
                }
            }
            return Ok(Outcome { value: 0, effects });
        }
        let vault = self.settings.vault;
        let cached: i128 = difference(nav, owed)?;
        let held: i128 = pay(liquid, vault, from, owed)?;
        self.burn_shares(from, shares_amount)?;
        self.totals.cached_total_assets = cached;
        self.totals.usdc_balance = held;
        effects.push(Effect::BurnShares { from, amount: shares_amount });
        effects.push(Effect::TransferUsdc { from: vault, to: from, amount: owed });
        effects.push(
            Effect::Emit(Event::Withdraw { from, shares: shares_amount, usdc_returned: owed }),
        );
        assert(effects@ =~= old(self)@.withdraw_effects(from, shares_amount, owed));
        proof {
            old(self)@.a_paid_withdrawal_moves_what_it_books(
                *ledger,
                registry@,
                from,
                shares_amount,
                min_usdc_return as int,
                from,
            );
            if old(self)@.well_formed() {
                old(self)@.lemma_withdraw_keeps(
                    *ledger,
                    registry@,
                    from,
                    shares_amount as int,
                    min_usdc_return as int,
                );
            }
        }
        Ok(Outcome { value: owed, effects })
    }
}

/// How many claims, from index `head` up to `tail`, `liquid` USDC settles in order: a claim is
/// settled in full, and one that cannot be settled stops the run.
pub open spec fn settled_claims(
    queue: Map<u64, QueuedClaim>,
    head: int,
    tail: int,
    liquid: int,
) -> Result<nat, VaultError>
    decreases tail - head,
{
    if head >= tail || liquid <= 0 {
        Ok(0)
    } else {
        match optional(queue, head as u64) {
            None => Err(VaultError::QueueEntryMissing),
            Some(claim) => if claim.usdc_owed > liquid {
                Ok(0)
            } else if claim.usdc_owed < 0 {
                Err(VaultError::NegativeAmount)
            } else {
                match settled_claims(queue, head + 1, tail, liquid - claim.usdc_owed) {
                    Err(e) => Err(e),
                    Ok(later) => Ok(later + 1),
                }
            },
        }
    }
}

/// The claim at a position of the queue.
pub open spec fn claim_at(queue: Map<u64, QueuedClaim>, index: int) -> QueuedClaim {
    queue[index as u64]
}

/// What the `n` claims from index `head` on come to.
pub open spec fn claims_total(queue: Map<u64, QueuedClaim>, head: int, n: nat) -> int
    decreases n,
{
    if n == 0 {
        0
    } else {
        claims_total(queue, head, (n - 1) as nat) + claim_at(queue, head + n - 1).usdc_owed
    }
}

/// What of the `n` claims from index `head` on leaves the vault: a claim of the vault itself does
/// not.
pub open spec fn claims_outflow(
    queue: Map<u64, QueuedClaim>,
    vault: Address,
    head: int,
    n: nat,
) -> int
    decreases n,
{
    if n == 0 {
        0
    } else {
        let claim = claim_at(queue, head + n - 1);
        claims_outflow(queue, vault, head, (n - 1) as nat) + if claim.from == vault {
            0
        } else {
            claim.usdc_owed as int
        }
    }
}

/// The queue without the `n` claims from index `head` on.
pub open spec fn without_claims(queue: Map<u64, QueuedClaim>, head: int, n: nat) -> Map<
    u64,
    QueuedClaim,
>
    decreases n,
{
    if n == 0 {
        queue
    } else {
        without_claims(queue, head, (n - 1) as nat).remove((head + n - 1) as u64)
    }
}

/// What the host does to settle the `n` claims from index `head` on: each is paid and reported, in
/// order.
pub open spec fn claim_effects(
    queue: Map<u64, QueuedClaim>,
    vault: Address,
    head: int,
    n: nat,
) -> Seq<Effect>
    decreases n,
{
    if n == 0 {
        seq![]
    } else {
        let index = head + n - 1;
        let claim = claim_at(queue, index);
        claim_effects(queue, vault, head, (n - 1) as nat) + seq![
            Effect::TransferUsdc { from: vault, to: claim.from, amount: claim.usdc_owed },
            Effect::Emit(
                Event::WithdrawClaimed {
                    from: claim.from,
                    usdc_paid: claim.usdc_owed,
                    index: index as u64,
                },
            ),
        ]
    }
}

impl VaultState {
    /// How many queued claims the vault can settle now.
    pub open spec fn claimable(self) -> Result<nat, VaultError> {
        settled_claims(
            self.queue,
            self.totals.queue_head as int,
            self.totals.queue_tail as int,
            self.totals.usdc_balance as int,
        )
    }

    /// What the first `n` queued claims come to.
    pub open spec fn claim_total(self, n: nat) -> int {
        claims_total(self.queue, self.totals.queue_head as int, n)
    }

    /// Why settling the queue is refused.
    pub open spec fn claim_refusal(self) -> Option<VaultError> {
        if !self.settings.is_current() {
            Some(VaultError::UnsupportedStateVersion)
        } else {
            match self.claimable() {
                Err(e) => Some(e),
                Ok(n) => if !fits(self.totals.cached_total_assets - self.claim_total(n)) {
                    Some(VaultError::ArithmeticOverflow)
                } else {
                    None
                },
            }
        }
    }

    /// This state after the first `n` queued claims are settled.
    pub open spec fn claimed(self, n: nat) -> VaultState {
        let head = self.totals.queue_head as int;
        VaultState {
            totals: Totals {
                usdc_balance: (self.totals.usdc_balance - claims_outflow(
                    self.queue,
                    self.settings.vault,
                    head,
                    n,
                )) as i128,
                cached_total_assets: (self.totals.cached_total_assets - self.claim_total(
                    n,
                )) as i128,
                queue_head: (head + n) as u64,
                ..self.totals
            },
            queue: without_claims(self.queue, head, n),
            ..self
        }
    }
}

/// The first claim and the rest make up the whole.
pub proof fn lemma_claims_front(
    queue: Map<u64, QueuedClaim>,
    vault: Address,
    head: int,
    n: nat,
)
    requires
        n > 0,
    ensures
        claims_total(queue, head, n) == claim_at(queue, head).usdc_owed + claims_total(
            queue,
            head + 1,
            (n - 1) as nat,
        ),
        claims_outflow(queue, vault, head, n) == (if claim_at(queue, head).from == vault {
            0
        } else {
            claim_at(queue, head).usdc_owed as int
        }) + claims_outflow(queue, vault, head + 1, (n - 1) as nat),
    decreases n,
{
    if n > 1 {
        lemma_claims_front(queue, vault, head, (n - 1) as nat);
    } else {
        reveal_with_fuel(claims_total, 2);
        reveal_with_fuel(claims_outflow, 2);
    }
}

/// The settled claims are there, none is negative, and liquid USDC covers them.
pub proof fn lemma_settled_prefix(
    queue: Map<u64, QueuedClaim>,
    vault: Address,
    head: int,
    tail: int,
    liquid: int,
)
    requires
        0 <= head <= tail <= u64::MAX,
        liquid >= 0,
        settled_claims(queue, head, tail, liquid) is Ok,
    ensures
        ({
            let n = settled_claims(queue, head, tail, liquid)->Ok_0;
            &&& head + n <= tail
            &&& 0 <= claims_outflow(queue, vault, head, n) <= claims_total(queue, head, n)
                <= liquid
        }),
    decreases tail - head,
{
    let n = settled_claims(queue, head, tail, liquid)->Ok_0;
    if n > 0 {
        let claim = claim_at(queue, head);
        lemma_settled_prefix(queue, vault, head + 1, tail, liquid - claim.usdc_owed);
        lemma_claims_front(queue, vault, head, n);
    }
}

/// What is left of the queue: every claim but the first `n`, unchanged.
pub proof fn lemma_without_claims(queue: Map<u64, QueuedClaim>, head: int, n: nat, i: u64)
    requires
        0 <= head,
        head + n <= u64::MAX + 1,
    ensures
        without_claims(queue, head, n).contains_key(i) <==> queue.contains_key(i) && !(head <= i
            < head + n),
        without_claims(queue, head, n).contains_key(i) ==> without_claims(queue, head, n)[i]
            == queue[i],
    decreases n,
{
    if n > 0 {
        lemma_without_claims(queue, head, (n - 1) as nat, i);
    }
}

/// Settling one more claim at the front adds one to the run.
proof fn lemma_settled_step(
    queue: Map<u64, QueuedClaim>,
    head: int,
    tail: int,
    liquid: int,
    n: nat,
    left: int,
)
    requires
        0 <= head,
        head + n <= tail,
        settled_claims(queue, head, tail, liquid) == match settled_claims(
            queue,
            head + n,
            tail,
            left,
        ) {
            Ok(later) => Ok::<nat, VaultError>(later + n),
            Err(e) => Err(e),
        },
    ensures
        head + n < tail && left > 0 && queue.contains_key((head + n) as u64) && 0 <= claim_at(
            queue,
            head + n,
        ).usdc_owed <= left ==> settled_claims(queue, head, tail, liquid)
            == match settled_claims(
            queue,
            head + n + 1,
            tail,
            left - claim_at(queue, head + n).usdc_owed,
        ) {
            Ok(later) => Ok::<nat, VaultError>(later + n + 1),
            Err(e) => Err(e),
        },
{
}

impl InvestmentVault {
    /// Settle queued redemptions, oldest first, as far as liquid USDC goes. A claim that cannot be
    /// settled in full holds up those behind it. The value is what is paid in all.
    pub fn claim(&mut self) -> (r: Result<Outcome<i128>, VaultError>)
        ensures
            old(self)@.well_formed() ==> final(self)@.well_formed(),
            match r {
                Ok(out) => {
                    let n = old(self)@.claimable()->Ok_0;
                    &&& balanced(old(self)@, final(self)@, out.effects@)
                    &&& out.value == usdc_paid(old(self).settings.vault, out.effects@)
                    &&& old(self)@.claim_refusal() is None
                    &&& out.value == old(self)@.claim_total(n)
                    &&& final(self)@ == old(self)@.claimed(n)
                    &&& out.effects@ == claim_effects(
                        old(self)@.queue,
                        old(self)@.settings.vault,
                        old(self)@.totals.queue_head as int,
                        n,
                    )
                },
                Err(e) => {
                    &&& old(self)@.claim_refusal() == Some(e)
                    &&& *final(self) == *old(self)
                },
            },
    {
        broadcast use vstd::std_specs::btree::group_btree_axioms;

        self.require_current_state()?;
        let head: u64 = self.totals.queue_head;
        let tail: u64 = self.totals.queue_tail;
        let vault = self.settings.vault;
        let mut liquid: i128 = self.totals.usdc_balance;
        let mut held: i128 = self.totals.usdc_balance;
        let mut paid: i128 = 0;
        let mut effects: Vec<Effect> = Vec::new();
        let mut index: u64 = head;
        let ghost mut n: nat = 0;
        while index < tail && liquid > 0
            invariant_except_break
                index == head + n,
                n > 0 ==> index <= tail,
                self@.claimable() == match settled_claims(
                    self@.queue,
                    index as int,
                    tail as int,
                    liquid as int,
                ) {
                    Ok(later) => Ok::<nat, VaultError>(later + n),
                    Err(e) => Err(e),
                },
            invariant
                *self == *old(self),
                self.settings.is_current(),
                head == self.totals.queue_head,
                tail == self.totals.queue_tail,
                vault == self.settings.vault,
                index == head + n,
                liquid == self.totals.usdc_balance - paid,
                paid == claims_total(self@.queue, head as int, n),
                paid >= 0,
                self.totals.usdc_balance <= 0 ==> paid == 0,
                paid > 0 ==> paid <= self.totals.usdc_balance,
                held == self.totals.usdc_balance - claims_outflow(
                    self@.queue,
                    vault,
                    head as int,
                    n,
                ),
                held >= liquid,
                held <= self.totals.usdc_balance,
                effects@ == claim_effects(self@.queue, vault, head as int, n),
            ensures
                self@.claimable() == Ok::<nat, VaultError>(n),
            decreases tail - index,
        {
            proof {
                lemma_settled_step(
                    self@.queue,
                    head as int,
                    tail as int,
                    self.totals.usdc_balance as int,
                    n,
                    liquid as int,
                );
            }
            let entry = match optional_u64(&self.queue, index) {
                Some(entry) => entry,
                None => {
                    return Err(VaultError::QueueEntryMissing);
                },
            };
            if entry.usdc_owed > liquid {
                break;
            }
            if entry.usdc_owed < 0 {
                return Err(VaultError::NegativeAmount);
            }
            liquid = liquid - entry.usdc_owed;
            paid = paid + entry.usdc_owed;
            if entry.from != vault {
                held = held - entry.usdc_owed;
            }
            effects.push(
                Effect::TransferUsdc { from: vault, to: entry.from, amount: entry.usdc_owed },
            );
            effects.push(
                Effect::Emit(
                    Event::WithdrawClaimed {
                        from: entry.from,
                        usdc_paid: entry.usdc_owed,
                        index,
                    },
                ),
            );
            index = index + 1;
            proof {
                n = n + 1;
            }
            assert(effects@ =~= claim_effects(self@.queue, vault, head as int, n));
        }
        let cached: i128 = difference(self.totals.cached_total_assets, paid)?;
        self.totals.usdc_balance = held;
        self.totals.cached_total_assets = cached;
        self.totals.queue_head = index;
        let ghost queue = old(self)@.queue;
        let mut at: u64 = head;
        while at < index
            invariant
                head <= at <= index || index == head == at,
                index == head + n,
                self.queue@ == without_claims(queue, head as int, (at - head) as nat),
                self@ == (VaultState {
                    totals: Totals {
                        usdc_balance: held,
                        cached_total_assets: cached,
                        queue_head: index,
                        ..old(self)@.totals
                    },
                    queue: self.queue@,
                    ..old(self)@
                }),
            decreases index - at,
        {
            self.queue.remove(&at);
            at = at + 1;
        }
        proof {
            old(self)@.lemma_claim_balanced(n);
            if old(self)@.well_formed() {
                old(self)@.lemma_claim_keeps();
            }
        }
        Ok(Outcome { value: paid, effects })
    }
}

} // verus!
