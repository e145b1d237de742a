//! What holds of the vault at all times: each operation keeps it.

use crate::constants::{
    MAX_COMPLIANCE_EVENTS, MAX_FLASH_LOAN_FEE_BPS, MAX_HBS_SUPPLY, MAX_MANAGEMENT_FEE_BPS,
    MAX_SCORE, YIELD_SCALE,
};
use crate::investments::{compacted, is_empty_entry, lemma_compacted_beyond};
use crate::state::{RegistryView, Settings, VaultState};
use crate::tables::{lemma_sum_insert, lemma_sum_remove, lemma_sum_within, table_sum};
use crate::types::{Address, ComplianceEventView, Ledger, QueuedClaim};
use crate::withdrawals::{lemma_settled_prefix, lemma_without_claims, without_claims};
use vstd::prelude::*;

verus! {

impl Settings {
    /// Fees, scores and limits are in their ranges.
    pub open spec fn well_formed(self) -> bool {
        &&& self.management_fee_bps <= MAX_MANAGEMENT_FEE_BPS
        &&& match self.volume_tier {
            Some(tier) => tier.threshold != 0 && tier.discounted_bps <= MAX_MANAGEMENT_FEE_BPS,
            None => true,
        }
        &&& self.flash_loan_fee_bps <= MAX_FLASH_LOAN_FEE_BPS
        &&& self.min_credit_quality <= MAX_SCORE
        &&& self.min_green_impact <= MAX_SCORE
        &&& self.max_investment_per_project > 0
        &&& self.max_transaction_amount >= 0
        &&& self.carbon_credit_price >= 0
    }
}

/// A finite table holds amounts that are not negative.
pub open spec fn not_negative<K>(m: Map<K, i128>) -> bool {
    &&& m.dom().finite()
    &&& forall|k: K| #[trigger] m.contains_key(k) ==> m[k] >= 0
}

/// A table holds amounts that are not negative, and that add up to `total`.
pub open spec fn accounts_for<K>(m: Map<K, i128>, total: int) -> bool {
    &&& not_negative(m)
    &&& table_sum(m) == total
}

/// The queue holds a claim for each index from `head` up to `tail`, and nothing else.
pub open spec fn queue_intact(queue: Map<u64, QueuedClaim>, head: u64, tail: u64) -> bool {
    &&& head <= tail
    &&& forall|i: u64| #[trigger] queue.contains_key(i) <==> head <= i < tail
    &&& forall|i: u64| #[trigger] queue.contains_key(i) ==> queue[i].usdc_owed > 0
}

/// The latest events are on record, and nothing else, each under its own sequence number.
pub open spec fn trail_intact(events: Map<u64, ComplianceEventView>, counter: u64) -> bool {
    &&& forall|seq: u64| #[trigger]
        events.contains_key(seq) <==> 1 <= seq <= counter && counter - seq < MAX_COMPLIANCE_EVENTS
    &&& forall|seq: u64| #[trigger] events.contains_key(seq) ==> events[seq].seq == seq
}

/// No account has been paid past the accumulator.
pub open spec fn debts_covered(debts: Map<u64, i128>, accum: i128) -> bool {
    &&& accum >= 0
    &&& forall|k: u64| #[trigger] debts.contains_key(k) ==> 0 <= debts[k] <= accum
}

impl VaultState {
    /// What holds of the vault at all times.
    pub open spec fn well_formed(self) -> bool {
        &&& self.settings.well_formed()
        &&& self.totals.usdc_balance >= 0
        &&& self.totals.insurance_fund >= 0
        &&& self.totals.total_supply <= MAX_HBS_SUPPLY
        &&& accounts_for(self.share_balances, self.totals.total_supply as int)
        &&& accounts_for(self.project_investments, self.totals.total_investments as int)
        &&& not_negative(self.carbon_credits)
        &&& not_negative(self.total_deposited)
        &&& debts_covered(self.yield_debt, self.totals.yield_per_share_accum)
        &&& queue_intact(self.queue, self.totals.queue_head, self.totals.queue_tail)
        &&& trail_intact(self.compliance_events, self.totals.compliance_event_counter)
    }

    /// A balance is within the supply.
    pub proof fn lemma_balance_within_supply(self, account: Address)
        requires
            self.well_formed(),
        ensures
            0 <= self.shares_of(account) <= self.totals.total_supply,
            0 <= self.totals.total_supply,
    {
        lemma_sum_within(self.share_balances, account.id);
    }

    pub proof fn lemma_minted_keeps(self, to: Address, shares: int)
        requires
            self.well_formed(),
            self.mint_refusal(to, shares) is None,
            self.totals.total_supply + shares <= MAX_HBS_SUPPLY,
        ensures
            self.minted(to, shares).well_formed(),
    {
        lemma_sum_insert(self.share_balances, to.id, (self.shares_of(to) + shares) as i128);
    }

    pub proof fn lemma_burned_keeps(self, from: Address, shares: int)
        requires
            self.well_formed(),
            self.burn_refusal(from, shares) is None,
        ensures
            self.burned(from, shares).well_formed(),
    {
        lemma_sum_insert(self.share_balances, from.id, (self.shares_of(from) - shares) as i128);
    }

    pub proof fn lemma_moved_keeps(self, from: Address, to: Address, shares: int)
        requires
            self.well_formed(),
            self.move_refusal(from, to, shares) is None,
        ensures
            self.moved(from, to, shares).well_formed(),
    {
        let left = (self.shares_of(from) - shares) as i128;
        let taken = self.share_balances.insert(from.id, left);
        lemma_sum_insert(self.share_balances, from.id, left);
        lemma_sum_insert(
            taken,
            to.id,
            (self.receiving_balance(from, to, shares) + shares) as i128,
        );
    }

    pub proof fn lemma_deposit_keeps(
        self,
        ledger: Ledger,
        registry: RegistryView,
        from: Address,
        amount: int,
    )
        requires
            self.well_formed(),
            self.deposit_refusal(ledger, registry, from, amount) is None,
        ensures
            self.after_deposit(ledger, registry, from, amount).well_formed(),
    {
        let shares = self.deposit_shares(registry, ledger.timestamp, amount)->Ok_0 as int;
        self.lemma_minted_keeps(from, shares);
        lemma_sum_insert(
            self.total_deposited,
            from.id,
            (self.deposited_by(from) + amount) as i128,
        );
    }

    pub proof fn lemma_withdraw_keeps(
        self,
        ledger: Ledger,
        registry: RegistryView,
        from: Address,
        shares: int,
        min_usdc_return: int,
    )
        requires
            self.well_formed(),
            self.withdraw_refusal(ledger, registry, from, shares, min_usdc_return) is None,
        ensures
            self.after_withdraw(ledger, registry, from, shares).well_formed(),
    {
        self.lemma_burned_keeps(from, shares);
    }

    pub proof fn lemma_claim_keeps(self)
        requires
            self.well_formed(),
            self.claim_refusal() is None,
        ensures
            self.claimed(self.claimable()->Ok_0).well_formed(),
    {
        let n = self.claimable()->Ok_0;
        let head = self.totals.queue_head as int;
        lemma_settled_prefix(
            self.queue,
            self.settings.vault,
            head,
            self.totals.queue_tail as int,
            self.totals.usdc_balance as int,
        );
        assert forall|i: u64| #[trigger]
            without_claims(self.queue, head, n).contains_key(i) <==> head + n <= i
                < self.totals.queue_tail by {
            lemma_without_claims(self.queue, head, n, i);
        }
        assert forall|i: u64| #[trigger]
            without_claims(self.queue, head, n).contains_key(i) implies without_claims(
            self.queue,
            head,
            n,
        )[i].usdc_owed > 0 by {
            lemma_without_claims(self.queue, head, n, i);
        }
    }

    pub proof fn lemma_yield_keeps(self, from: Address, paid: int)
        requires
            self.well_formed(),
            self.yield_refusal(from, paid) is None,
        ensures
            self.after_yield(from, paid).well_formed(),
    {
        lemma_sum_within(self.share_balances, 0);
        let scaled = paid * YIELD_SCALE;
        let supply = self.totals.total_supply as int;
        assert(scaled >= 0) by (nonlinear_arith)
            requires
                paid > 0,
                scaled == paid * 1_000_000_000_000_000_000,
        ;
        assert(scaled / supply >= 0) by (nonlinear_arith)
            requires
                scaled >= 0,
                supply > 0,
        ;
    }

    pub proof fn lemma_funding_keeps(
        self,
        now: u64,
        registry: RegistryView,
        project_id: u32,
        paid: int,
    )
        requires
            self.well_formed(),
            self.fund_refusal(registry, project_id, paid) is None,
        ensures
            self.after_funding(now, registry, project_id, paid).well_formed(),
    {
        lemma_sum_insert(
            self.project_investments,
            project_id,
            (self.invested_in(project_id) + paid) as i128,
        );
    }

    pub proof fn lemma_compaction_keeps(self, n: nat)
        requires
            self.well_formed(),
            n <= u32::MAX,
        ensures
            (VaultState {
                project_investments: compacted(self.project_investments, n),
                ..self
            }).well_formed(),
    {
        lemma_compacted_sum(self.project_investments, n);
    }
}

/// Compaction drops nothing but zeros.
pub proof fn lemma_compacted_sum(m: Map<u32, i128>, n: nat)
    requires
        m.dom().finite(),
        n <= u32::MAX,
    ensures
        compacted(m, n).dom().finite(),
        table_sum(compacted(m, n)) == table_sum(m),
        forall|id: u32| #[trigger]
            compacted(m, n).contains_key(id) ==> m.contains_key(id) && compacted(m, n)[id] == m[id],
    decreases n,
{
    if n > 0 {
        lemma_compacted_sum(m, (n - 1) as nat);
        lemma_compacted_beyond(m, (n - 1) as nat, n as u32);
        let before = compacted(m, (n - 1) as nat);
        if is_empty_entry(m, n as u32) {
            lemma_sum_remove(before, n as u32);
        }
    }
}

} // verus!
