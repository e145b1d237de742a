//! Redemptions wait for the lock, stay within the limits, and are settled in the order in which
//! they came.

use crate::constants::{
    HIGH_TIER_PCT, LOW_TIER_PCT, MED_TIER_PCT, MIN_LOCK_PERIOD, UTIL_HIGH_BPS, UTIL_LOW_BPS,
    UTIL_MED_BPS,
};
use crate::state::{RegistryView, VaultState};
use crate::types::{Address, Ledger, QueuedClaim, VaultError};
use crate::withdrawals::{
    claim_at, claims_total, lemma_claims_front, lemma_settled_prefix, lemma_without_claims,
    settled_claims,
};
use vstd::prelude::*;

verus! {

impl VaultState {
    /// Once a deposit of an account is recorded, its withdrawals are refused until the lock period
    /// is over. An accepted deposit, an inbound transfer from another chain and a received transfer
    /// all record one.
    pub proof fn a_lock_holds_for_its_period(
        self,
        ledger: Ledger,
        account: Address,
        later: Ledger,
        registry: RegistryView,
        shares: int,
        min_usdc_return: int,
    )
        requires
            !self.settings.paused,
            self.settings.is_current(),
            ledger.timestamp + MIN_LOCK_PERIOD <= u64::MAX,
            later.timestamp < ledger.timestamp + MIN_LOCK_PERIOD,
        ensures
            self.locked(ledger, account).withdraw_refusal(
                later,
                registry,
                account,
                shares,
                min_usdc_return,
            ) == Some(VaultError::DepositLocked),
    {
    }

    /// A deposit cannot be followed by a withdrawal of the same account within the lock period.
    pub proof fn a_deposit_locks(
        self,
        ledger: Ledger,
        registry: RegistryView,
        from: Address,
        amount: int,
        later: Ledger,
        later_registry: RegistryView,
        shares: int,
        min_usdc_return: int,
    )
        requires
            self.deposit_refusal(ledger, registry, from, amount) is None,
            ledger.timestamp + MIN_LOCK_PERIOD <= u64::MAX,
            later.timestamp < ledger.timestamp + MIN_LOCK_PERIOD,
        ensures
            self.after_deposit(ledger, registry, from, amount).withdraw_refusal(
                later,
                later_registry,
                from,
                shares,
                min_usdc_return,
            ) == Some(VaultError::DepositLocked),
    {
    }

    /// The withdrawal window holds too: as long as fewer ledgers have passed since the deposit, a
    /// withdrawal is refused. A window of one ledger keeps deposit and withdrawal apart.
    pub proof fn a_window_holds_for_its_ledgers(
        self,
        ledger: Ledger,
        account: Address,
        later: Ledger,
        registry: RegistryView,
        shares: int,
        min_usdc_return: int,
    )
        requires
            !self.settings.paused,
            self.settings.is_current(),
            ledger.timestamp + MIN_LOCK_PERIOD <= u64::MAX,
            later.sequence < ledger.sequence + self.settings.withdrawal_window_ledgers,
        ensures
            self.locked(ledger, account).withdraw_refusal(
                later,
                registry,
                account,
                shares,
                min_usdc_return,
            ) == Some(VaultError::DepositLocked),
    {
    }

    /// A lock ends: once the period and the window are over, it stands against nothing.
    pub proof fn a_lock_ends(self, ledger: Ledger, account: Address, later: Ledger)
        requires
            later.timestamp >= ledger.timestamp + MIN_LOCK_PERIOD,
            later.sequence >= ledger.sequence + self.settings.withdrawal_window_ledgers,
        ensures
            self.locked(ledger, account).lock_refusal(later, account) is None,
    {
    }

    /// The expiry that the vault tells of is the end of the lock: an account is locked exactly as
    /// long as it is in the future. It is the time of the last deposit plus the lock period, and 0
    /// where there was none.
    pub proof fn an_expiry_is_the_end_of_the_lock(self, ledger: Ledger, account: Address)
        requires
            self.lock_expiry(account) is Ok,
        ensures
            self.time_locked(ledger, account) == Some(
                ledger.timestamp < self.lock_expiry(account)->Ok_0,
            ),
            self.last_deposit.contains_key(account.id) ==> self.lock_expiry(account)->Ok_0
                == self.last_deposit[account.id] + MIN_LOCK_PERIOD,
            !self.last_deposit.contains_key(account.id) ==> self.lock_expiry(account)->Ok_0 == 0,
    {
    }

    /// A withdrawal is refused for the lock exactly as long as the expiry is in the future or the
    /// withdrawal window is open.
    pub proof fn a_withdrawal_is_locked_until_its_expiry(
        self,
        ledger: Ledger,
        registry: RegistryView,
        account: Address,
        shares: int,
        min_usdc_return: int,
    )
        requires
            !self.settings.paused,
            self.settings.is_current(),
            self.lock_expiry(account) is Ok,
        ensures
            self.withdraw_refusal(ledger, registry, account, shares, min_usdc_return) == Some(
                VaultError::DepositLocked,
            ) <==> ledger.timestamp < self.lock_expiry(account)->Ok_0 || self.window_locked(
                ledger,
                account,
            ),
    {
        self.lemma_value_failure(registry, ledger.timestamp, registry.total_projects as nat);
    }

    /// As long as the expiry that the vault tells of is in the future, a withdrawal is refused.
    pub proof fn an_expiry_to_come_refuses(
        self,
        ledger: Ledger,
        registry: RegistryView,
        account: Address,
        shares: int,
        min_usdc_return: int,
    )
        requires
            !self.settings.paused,
            self.settings.is_current(),
            self.lock_expiry(account) is Ok,
            ledger.timestamp < self.lock_expiry(account)->Ok_0,
        ensures
            self.withdraw_refusal(ledger, registry, account, shares, min_usdc_return) == Some(
                VaultError::DepositLocked,
            ),
    {
    }

    /// The value of the vault is missing for two reasons only.
    proof fn lemma_value_failure(self, registry: RegistryView, now: u64, n: nat)
        ensures
            self.expected_returns(registry, now, n) matches Err(e) ==> e
                == VaultError::ArithmeticOverflow || e == VaultError::ProjectNotFound,
        decreases n,
    {
        if n > 0 {
            self.lemma_value_failure(registry, now, (n - 1) as nat);
        }
    }

    /// The more of the capital is invested, the less of the liquid USDC one withdrawal may take.
    /// And no withdrawal comes to less than the caller asks for.
    pub proof fn withdrawals_are_graduated(
        self,
        ledger: Ledger,
        registry: RegistryView,
        from: Address,
        shares: int,
        min_usdc_return: int,
    )
        requires
            self.well_formed(),
            self.withdraw_refusal(ledger, registry, from, shares, min_usdc_return) is None,
        ensures
            ({
                let utilization_bps = self.utilization()->Ok_0;
                let liquid = self.totals.usdc_balance;
                let owed = self.withdraw_owed(ledger, registry, shares);
                &&& utilization_bps >= UTIL_HIGH_BPS ==> owed * 100 <= liquid * HIGH_TIER_PCT
                &&& utilization_bps >= UTIL_MED_BPS ==> owed * 100 <= liquid * MED_TIER_PCT
                &&& utilization_bps >= UTIL_LOW_BPS ==> owed * 100 <= liquid * LOW_TIER_PCT
                &&& owed >= min_usdc_return
            }),
    {
    }

    /// A withdrawal that the liquid USDC does not cover goes to the end of the queue, for its full
    /// value, and moves no other claim.
    pub proof fn a_short_withdrawal_queues_last(
        self,
        ledger: Ledger,
        registry: RegistryView,
        from: Address,
        shares: int,
        min_usdc_return: int,
    )
        requires
            self.well_formed(),
            self.withdraw_refusal(ledger, registry, from, shares, min_usdc_return) is None,
            self.queues(self.withdraw_owed(ledger, registry, shares) as int),
        ensures
            ({
                let after = self.after_withdraw(ledger, registry, from, shares);
                let tail = self.totals.queue_tail;
                &&& after.totals.queue_head == self.totals.queue_head
                &&& after.totals.queue_tail == tail + 1
                &&& after.queue[tail] == QueuedClaim {
                    from,
                    usdc_owed: self.withdraw_owed(ledger, registry, shares),
                }
                &&& after.totals.usdc_balance == self.totals.usdc_balance
                &&& forall|i: u64| #[trigger]
                    self.queue.contains_key(i) ==> after.queue.contains_key(i) && after.queue[i]
                        == self.queue[i]
            }),
    {
    }

    /// Queued claims are settled strictly in order: those before some index in full, those from it
    /// on not at all. The one at that index, if there is one, is more than what is left; nothing
    /// behind it is paid, however small.
    pub proof fn claims_are_settled_in_order(self)
        requires
            self.well_formed(),
        ensures
            self.claimable() is Ok,
            ({
                let n = self.claimable()->Ok_0;
                let head = self.totals.queue_head;
                let tail = self.totals.queue_tail;
                let after = self.claimed(n);
                &&& head + n <= tail
                &&& 0 <= self.claim_total(n) <= self.totals.usdc_balance
                &&& head + n < tail ==> self.totals.usdc_balance - self.claim_total(n) < claim_at(
                    self.queue,
                    head + n,
                ).usdc_owed
                &&& forall|i: u64|
                    head <= i < head + n ==> !(#[trigger] after.queue.contains_key(i))
                &&& forall|i: u64|
                    head + n <= i < tail ==> (#[trigger] after.queue.contains_key(i))
                        && after.queue[i] == self.queue[i]
            }),
    {
        let head = self.totals.queue_head as int;
        let tail = self.totals.queue_tail as int;
        let liquid = self.totals.usdc_balance as int;
        lemma_settled_stops(self.queue, head, tail, liquid);
        lemma_settled_prefix(self.queue, self.settings.vault, head, tail, liquid);
        let n = self.claimable()->Ok_0;
        let after = self.claimed(n);
        assert forall|i: u64| head <= i < head + n implies !(#[trigger] after.queue.contains_key(
            i,
        )) by {
            lemma_without_claims(self.queue, head, n, i);
        }
        assert forall|i: u64| head + n <= i < tail implies (#[trigger] after.queue.contains_key(i))
            && after.queue[i] == self.queue[i] by {
            lemma_without_claims(self.queue, head, n, i);
        }
    }

    /// Where liquid USDC covers the whole queue, the whole queue is settled.
    pub proof fn enough_liquidity_settles_the_queue(self)
        requires
            self.well_formed(),
            self.claim_total((self.totals.queue_tail - self.totals.queue_head) as nat)
                <= self.totals.usdc_balance,
        ensures
            self.claimable() == Ok::<nat, VaultError>(
                (self.totals.queue_tail - self.totals.queue_head) as nat,
            ),
    {
        lemma_settled_all(
            self.queue,
            self.settings.vault,
            self.totals.queue_head as int,
            self.totals.queue_tail as int,
            self.totals.usdc_balance as int,
        );
    }
}

/// A stretch of the queue without gaps, in which something is owed to everyone.
pub open spec fn gapless(queue: Map<u64, QueuedClaim>, head: int, tail: int) -> bool {
    forall|i: u64|
        head <= i < tail ==> (#[trigger] queue.contains_key(i)) && queue[i].usdc_owed > 0
}

/// Settling a gapless stretch succeeds, and stops where the next claim is not covered.
proof fn lemma_settled_stops(queue: Map<u64, QueuedClaim>, head: int, tail: int, liquid: int)
    requires
        0 <= head <= tail <= u64::MAX,
        gapless(queue, head, tail),
    ensures
        settled_claims(queue, head, tail, liquid) is Ok,
        ({
            let n = settled_claims(queue, head, tail, liquid)->Ok_0;
            &&& head + n <= tail
            &&& head + n < tail ==> liquid - claims_total(queue, head, n) < claim_at(
                queue,
                head + n,
            ).usdc_owed
        }),
    decreases tail - head,
{
    if head < tail {
        assert(queue.contains_key(head as u64));
        if liquid > 0 && claim_at(queue, head).usdc_owed <= liquid {
            lemma_settled_stops(
                queue,
                head + 1,
                tail,
                liquid - claim_at(queue, head).usdc_owed,
            );
            let n = settled_claims(queue, head, tail, liquid)->Ok_0;
            lemma_claims_front(queue, claim_at(queue, head).from, head, n);
        }
    }
}

/// A gapless stretch that is covered as a whole is settled as a whole.
proof fn lemma_settled_all(
    queue: Map<u64, QueuedClaim>,
    vault: Address,
    head: int,
    tail: int,
    liquid: int,
)
    requires
        0 <= head <= tail <= u64::MAX,
        gapless(queue, head, tail),
        claims_total(queue, head, (tail - head) as nat) <= liquid,
    ensures
        settled_claims(queue, head, tail, liquid) == Ok::<nat, VaultError>((tail - head) as nat),
    decreases tail - head,
{
    if head < tail {
        assert(queue.contains_key(head as u64));
        let n = (tail - head) as nat;
        lemma_claims_front(queue, vault, head, n);
        lemma_total_not_negative(queue, head + 1, tail, (n - 1) as nat);
        lemma_settled_all(queue, vault, head + 1, tail, liquid - claim_at(queue, head).usdc_owed);
    }
}

proof fn lemma_total_not_negative(queue: Map<u64, QueuedClaim>, head: int, tail: int, n: nat)
    requires
        0 <= head,
        head + n <= tail <= u64::MAX,
        gapless(queue, head, tail),
    ensures
        claims_total(queue, head, n) >= 0,
    decreases n,
{
    if n > 0 {
        lemma_total_not_negative(queue, head, tail, (n - 1) as nat);
        assert(queue.contains_key((head + n - 1) as u64));
    }
}

} // verus!
