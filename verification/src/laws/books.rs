//! What a call changes in the books of the vault, and that it changes nothing else.

use crate::carbon::carbon_credits;
use crate::deposits::premium_of;
use crate::state::{RegistryView, Totals, VaultState};
use crate::types::{
    Address, BridgeTransferPayload, ComplianceEventView, FlashLoan, Ledger, QueuedClaim, VaultError,
};
use crate::withdrawals::{lemma_settled_prefix, lemma_without_claims};
use vstd::prelude::*;

verus! {

/// Two tables agree everywhere but at `k`.
pub open spec fn agree_but_at<K, V>(a: Map<K, V>, b: Map<K, V>, k: K) -> bool {
    a.remove(k) =~= b.remove(k)
}

/// What a table of amounts holds for `k`: nothing where there is no entry.
pub open spec fn held<K>(m: Map<K, i128>, k: K) -> int {
    if m.contains_key(k) {
        m[k] as int
    } else {
        0
    }
}

impl VaultState {
    /// A deposit is booked to the depositor alone: shares, lifetime deposits and lock. The premium
    /// goes to the insurance fund, and the remembered value grows by the whole deposit.
    pub proof fn a_deposit_is_booked_to_the_depositor(
        self,
        ledger: Ledger,
        registry: RegistryView,
        from: Address,
        amount: int,
    )
        requires
            self.deposit_refusal(ledger, registry, from, amount) is None,
        ensures
            ({
                let after = self.after_deposit(ledger, registry, from, amount);
                let shares = self.deposit_shares(registry, ledger.timestamp, amount)->Ok_0;
                let nav = self.nav(registry, ledger.timestamp)->Ok_0;
                &&& held(after.share_balances, from.id) == held(self.share_balances, from.id)
                    + shares
                &&& held(after.total_deposited, from.id) == held(self.total_deposited, from.id)
                    + amount
                &&& after.last_deposit.contains_pair(from.id, ledger.timestamp)
                &&& after.last_deposit_ledger.contains_pair(from.id, ledger.sequence)
                &&& agree_but_at(after.share_balances, self.share_balances, from.id)
                &&& agree_but_at(after.total_deposited, self.total_deposited, from.id)
                &&& agree_but_at(after.last_deposit, self.last_deposit, from.id)
                &&& agree_but_at(after.last_deposit_ledger, self.last_deposit_ledger, from.id)
                &&& after.totals.total_supply == self.totals.total_supply + shares
                &&& after.totals.insurance_fund == self.totals.insurance_fund + premium_of(amount)
                &&& after.totals.cached_total_assets == nav + amount
                &&& after.totals == (Totals {
                    usdc_balance: after.totals.usdc_balance,
                    total_supply: after.totals.total_supply,
                    insurance_fund: after.totals.insurance_fund,
                    cached_total_assets: after.totals.cached_total_assets,
                    ..self.totals
                })
                &&& after == (VaultState {
                    totals: after.totals,
                    share_balances: after.share_balances,
                    total_deposited: after.total_deposited,
                    last_deposit: after.last_deposit,
                    last_deposit_ledger: after.last_deposit_ledger,
                    ..self
                })
            }),
    {
    }

    /// A withdrawal is booked to the withdrawer alone. What is paid comes off the remembered value;
    /// what is queued does not, and is appended to the queue.
    pub proof fn a_withdrawal_is_booked_to_the_withdrawer(
        self,
        ledger: Ledger,
        registry: RegistryView,
        from: Address,
        shares: int,
        min_usdc_return: int,
    )
        requires
            self.withdraw_refusal(ledger, registry, from, shares, min_usdc_return) is None,
        ensures
            ({
                let after = self.after_withdraw(ledger, registry, from, shares);
                let owed = self.withdraw_owed(ledger, registry, shares);
                let nav = self.nav(registry, ledger.timestamp)->Ok_0;
                let tail = self.totals.queue_tail;
                &&& held(after.share_balances, from.id) == held(self.share_balances, from.id)
                    - shares
                &&& agree_but_at(after.share_balances, self.share_balances, from.id)
                &&& after.totals.total_supply == self.totals.total_supply - shares
                &&& owed <= self.totals.usdc_balance ==> {
                    &&& after.queue == self.queue
                    &&& after.totals == (Totals {
                        usdc_balance: after.totals.usdc_balance,
                        total_supply: after.totals.total_supply,
                        cached_total_assets: after.totals.cached_total_assets,
                        ..self.totals
                    })
                    &&& after.totals.cached_total_assets == nav - owed
                }
                &&& owed > self.totals.usdc_balance ==> {
                    &&& after.queue.contains_pair(tail, QueuedClaim { from, usdc_owed: owed })
                    &&& agree_but_at(after.queue, self.queue, tail)
                    &&& after.totals.queue_tail == tail + 1
                    &&& after.totals == (Totals {
                        total_supply: after.totals.total_supply,
                        cached_total_assets: after.totals.cached_total_assets,
                        queue_tail: after.totals.queue_tail,
                        ..self.totals
                    })
                    &&& after.totals.cached_total_assets == nav
                }
                &&& after == (VaultState {
                    totals: after.totals,
                    share_balances: after.share_balances,
                    queue: after.queue,
                    ..self
                })
            }),
    {
    }

    /// Settling the queue takes the settled claims out of it, leaves the others as they are, and
    /// comes off the remembered value.
    pub proof fn a_settlement_is_booked_to_the_queue(self, index: u64)
        requires
            self.well_formed(),
            self.claim_refusal() is None,
        ensures
            ({
                let n = self.claimable()->Ok_0;
                let after = self.claimed(n);
                let head = self.totals.queue_head;
                &&& after.totals.queue_head == head + n
                &&& after.totals.queue_head <= self.totals.queue_tail
                &&& after.queue.contains_key(index) <==> head + n <= index < self.totals.queue_tail
                &&& after.queue.contains_key(index) ==> after.queue[index] == self.queue[index]
                &&& after.totals.cached_total_assets == self.totals.cached_total_assets
                    - self.claim_total(n)
                &&& after.totals == (Totals {
                    usdc_balance: after.totals.usdc_balance,
                    cached_total_assets: after.totals.cached_total_assets,
                    queue_head: after.totals.queue_head,
                    ..self.totals
                })
                &&& after == (VaultState { totals: after.totals, queue: after.queue, ..self })
            }),
    {
        let n = self.claimable()->Ok_0;
        lemma_settled_prefix(
            self.queue,
            self.settings.vault,
            self.totals.queue_head as int,
            self.totals.queue_tail as int,
            self.totals.usdc_balance as int,
        );
        lemma_without_claims(self.queue, self.totals.queue_head as int, n, index);
    }

    /// A yield is booked to the balance and the accumulator, and nowhere else.
    pub proof fn a_yield_is_booked_to_the_accumulator(self, from: Address, paid: int)
        requires
            self.yield_refusal(from, paid) is None,
        ensures
            ({
                let after = self.after_yield(from, paid);
                &&& after.totals.usdc_balance == self.totals.usdc_balance + (if from
                    == self.settings.vault {
                    0
                } else {
                    paid
                })
                &&& after.totals == (Totals {
                    usdc_balance: after.totals.usdc_balance,
                    yield_per_share_accum: after.totals.yield_per_share_accum,
                    ..self.totals
                })
                &&& after == (VaultState { totals: after.totals, ..self })
            }),
    {
    }

    /// A claim of yield is booked to the claimant: the account is up to date with the accumulator
    /// afterwards, and what is paid comes off the balance and the remembered value. Where nothing
    /// is due, nothing changes.
    pub proof fn a_yield_claim_is_booked_to_the_claimant(self, from: Address)
        requires
            self.yield_claim_refusal(from) is None,
        ensures
            ({
                let after = self.after_yield_claim(from);
                let due = self.yield_of(from)->Ok_0;
                &&& due <= 0 ==> after == self
                &&& due > 0 ==> {
                    &&& after.yield_debt.contains_pair(
                        from.id,
                        self.totals.yield_per_share_accum,
                    )
                    &&& after.totals.cached_total_assets == self.totals.cached_total_assets - due
                    &&& from != self.settings.vault ==> after.totals.usdc_balance
                        == self.totals.usdc_balance - due
                }
                &&& agree_but_at(after.yield_debt, self.yield_debt, from.id)
                &&& after.totals == (Totals {
                    usdc_balance: after.totals.usdc_balance,
                    cached_total_assets: after.totals.cached_total_assets,
                    ..self.totals
                })
                &&& after == (VaultState {
                    totals: after.totals,
                    yield_debt: after.yield_debt,
                    ..self
                })
            }),
    {
    }

    /// A funding is booked to its project and to the total of the investments.
    pub proof fn a_funding_is_booked_to_its_project(
        self,
        now: u64,
        registry: RegistryView,
        project_id: u32,
        paid: int,
    )
        requires
            self.fund_refusal(registry, project_id, paid) is None,
        ensures
            ({
                let after = self.after_funding(now, registry, project_id, paid);
                &&& held(after.project_investments, project_id) == held(
                    self.project_investments,
                    project_id,
                ) + paid
                &&& agree_but_at(after.project_investments, self.project_investments, project_id)
                &&& after.investment_timestamps.contains_pair(
                    project_id,
                    if self.investment_timestamps.contains_key(project_id) {
                        self.investment_timestamps[project_id]
                    } else {
                        now
                    },
                )
                &&& agree_but_at(
                    after.investment_timestamps,
                    self.investment_timestamps,
                    project_id,
                )
                &&& after.totals.total_investments == self.totals.total_investments + paid
                &&& after.totals == (Totals {
                    usdc_balance: after.totals.usdc_balance,
                    total_investments: after.totals.total_investments,
                    ..self.totals
                })
                &&& after == (VaultState {
                    totals: after.totals,
                    project_investments: after.project_investments,
                    investment_timestamps: after.investment_timestamps,
                    ..self
                })
            }),
    {
    }

    /// An insurance claim is booked to the insurance fund, and its project is marked as paid for.
    pub proof fn an_insurance_claim_is_booked_to_the_fund(
        self,
        project_id: u32,
        recipient: Address,
        paid: int,
    )
        requires
            self.insurance_refusal(project_id, recipient, paid) is None,
        ensures
            ({
                let after = self.after_insurance(project_id, recipient, paid);
                &&& after.insurance_claimed.contains_pair(project_id, true)
                &&& agree_but_at(after.insurance_claimed, self.insurance_claimed, project_id)
                &&& after.totals.insurance_fund == self.totals.insurance_fund - paid
                &&& after.totals == (Totals {
                    usdc_balance: after.totals.usdc_balance,
                    insurance_fund: after.totals.insurance_fund,
                    ..self.totals
                })
                &&& after == (VaultState {
                    totals: after.totals,
                    insurance_claimed: after.insurance_claimed,
                    ..self
                })
            }),
    {
    }

    /// A transfer of shares is booked to its two parties, and locks the receiver as of now. Out of
    /// an allowance, nobody is locked.
    pub proof fn a_transfer_is_booked_to_its_parties(
        self,
        ledger: Ledger,
        from: Address,
        to: Address,
        shares: int,
    )
        requires
            self.move_refusal(from, to, shares) is None,
        ensures
            ({
                let moved = self.moved(from, to, shares);
                let after = self.after_transfer(ledger, from, to, shares);
                &&& from != to ==> held(moved.share_balances, from.id) == held(
                    self.share_balances,
                    from.id,
                ) - shares
                &&& from != to ==> held(moved.share_balances, to.id) == held(
                    self.share_balances,
                    to.id,
                ) + shares
                &&& from == to ==> held(moved.share_balances, to.id) == held(
                    self.share_balances,
                    to.id,
                )
                &&& moved.share_balances.remove(from.id).remove(to.id)
                    == self.share_balances.remove(from.id).remove(to.id)
                &&& moved == (VaultState { share_balances: moved.share_balances, ..self })
                &&& after.last_deposit.contains_pair(to.id, ledger.timestamp)
                &&& after.last_deposit_ledger.contains_pair(to.id, ledger.sequence)
                &&& agree_but_at(after.last_deposit, self.last_deposit, to.id)
                &&& agree_but_at(after.last_deposit_ledger, self.last_deposit_ledger, to.id)
                &&& after == (VaultState {
                    last_deposit: after.last_deposit,
                    last_deposit_ledger: after.last_deposit_ledger,
                    ..moved
                })
            }),
    {
        assert(self.moved(from, to, shares).share_balances.remove(from.id).remove(to.id)
            =~= self.share_balances.remove(from.id).remove(to.id));
    }

    /// Shares that are destroyed are those of one account, and are outstanding no longer.
    pub proof fn a_burn_is_booked_to_the_holder(self, from: Address, shares: int)
        requires
            self.burn_refusal(from, shares) is None,
        ensures
            ({
                let after = self.burned(from, shares);
                &&& held(after.share_balances, from.id) == held(self.share_balances, from.id)
                    - shares
                &&& agree_but_at(after.share_balances, self.share_balances, from.id)
                &&& after.totals.total_supply == self.totals.total_supply - shares
                &&& after.totals == (Totals {
                    total_supply: after.totals.total_supply,
                    ..self.totals
                })
                &&& after == (VaultState {
                    totals: after.totals,
                    share_balances: after.share_balances,
                    ..self
                })
            }),
    {
    }

    /// Shares that come in from another chain are booked to their receiver, who is locked as of
    /// now; the digest of their message is remembered, and no other.
    pub proof fn an_inbound_transfer_is_booked_to_the_receiver(
        self,
        ledger: Ledger,
        digest: Seq<u8>,
        transfer: BridgeTransferPayload,
        to: Address,
        other: Seq<u8>,
    )
        requires
            self.inbound_refusal(to, transfer.amount as int) is None,
        ensures
            ({
                let after = self.after_completion(ledger, digest, transfer, to);
                let minted = self.after_inbound(ledger, to, transfer.amount as int);
                &&& held(after.share_balances, to.id) == held(self.share_balances, to.id)
                    + transfer.amount
                &&& agree_but_at(after.share_balances, self.share_balances, to.id)
                &&& after.last_deposit.contains_pair(to.id, ledger.timestamp)
                &&& after.last_deposit_ledger.contains_pair(to.id, ledger.sequence)
                &&& agree_but_at(after.last_deposit, self.last_deposit, to.id)
                &&& agree_but_at(after.last_deposit_ledger, self.last_deposit_ledger, to.id)
                &&& after.totals.total_supply == self.totals.total_supply + transfer.amount
                &&& after.totals == (Totals {
                    total_supply: after.totals.total_supply,
                    ..self.totals
                })
                &&& after.consumed_vaas.contains(other) <==> other == digest
                    || self.consumed_vaas.contains(other)
                &&& after == (VaultState {
                    totals: after.totals,
                    share_balances: after.share_balances,
                    last_deposit: after.last_deposit,
                    last_deposit_ledger: after.last_deposit_ledger,
                    consumed_vaas: after.consumed_vaas,
                    ..self
                })
                &&& minted == (VaultState { consumed_vaas: self.consumed_vaas, ..after })
            }),
    {
    }

    /// Trust is given to one emitter, or taken from it.
    pub proof fn trust_is_given_to_one_emitter(
        self,
        emitter: (u32, Seq<u8>),
        trusted: bool,
        other: (u32, Seq<u8>),
    )
        ensures
            ({
                let after = self.trusting(emitter, trusted);
                &&& after.trusted_emitters.contains(emitter) <==> trusted
                &&& other != emitter ==> (after.trusted_emitters.contains(other)
                    <==> self.trusted_emitters.contains(other))
                &&& after == (VaultState { trusted_emitters: after.trusted_emitters, ..self })
            }),
    {
    }

    /// A flash loan touches the balance of the vault, and nothing else.
    pub proof fn a_flash_loan_is_booked_to_the_balance(self, loan: FlashLoan)
        ensures
            ({
                let lent = self.lending(loan);
                let back = self.settled(loan);
                &&& lent == self.with_totals(
                    Totals { usdc_balance: lent.totals.usdc_balance, ..self.totals },
                )
                &&& back == self.with_totals(
                    Totals { usdc_balance: back.totals.usdc_balance, ..self.totals },
                )
                &&& loan.borrower != self.settings.vault && self.flash_refusal(
                    loan.borrower,
                    loan.amount as int,
                ) is None ==> lent.totals.usdc_balance == self.totals.usdc_balance - loan.amount
                &&& loan.borrower != self.settings.vault && self.settle_refusal(loan, true) is None
                    ==> back.totals.usdc_balance == self.totals.usdc_balance + loan.amount
                    + loan.fee
            }),
    {
    }

    /// Credits are booked to those who get or give them.
    pub proof fn credits_are_booked_to_their_parties(
        self,
        registry: RegistryView,
        from: Address,
        to: Address,
        project_id: u32,
        x: int,
    )
        ensures
            ({
                let earned = carbon_credits(
                    self.settings,
                    registry,
                    project_id,
                    x,
                )->Ok_0;
                let issued = self.issued(to, earned as int);
                let after = self.after_credit_transfer(from, to, x);
                &&& self.issue_refusal(registry, to, project_id, x) is None ==> {
                    &&& held(issued.carbon_credits, to.id) == held(self.carbon_credits, to.id)
                        + earned
                    &&& agree_but_at(issued.carbon_credits, self.carbon_credits, to.id)
                    &&& issued == (VaultState { carbon_credits: issued.carbon_credits, ..self })
                }
                &&& self.credit_transfer_refusal(from, to, x) is None ==> {
                    &&& from != to ==> held(after.carbon_credits, from.id) == held(
                        self.carbon_credits,
                        from.id,
                    ) - x
                    &&& from != to ==> held(after.carbon_credits, to.id) == held(
                        self.carbon_credits,
                        to.id,
                    ) + x
                    &&& from == to ==> held(after.carbon_credits, to.id) == held(
                        self.carbon_credits,
                        to.id,
                    )
                    &&& after.carbon_credits.remove(from.id).remove(to.id)
                        == self.carbon_credits.remove(from.id).remove(to.id)
                    &&& after == (VaultState { carbon_credits: after.carbon_credits, ..self })
                }
            }),
    {
        assert(self.after_credit_transfer(from, to, x).carbon_credits.remove(from.id).remove(to.id)
            =~= self.carbon_credits.remove(from.id).remove(to.id));
    }

    /// Remembering a value, taking a snapshot and recording an event change what they are for, and
    /// nothing else. A snapshot holds the figures of the vault as of now.
    pub proof fn records_are_booked_as_they_are(
        self,
        now: u64,
        nav: i128,
        event: ComplianceEventView,
        seq: u64,
    )
        requires
            event.seq == self.totals.compliance_event_counter + 1,
        ensures
            ({
                let cached = self.caching(nav);
                let shot = self.after_snapshot(now, nav);
                let recorded = self.recording(event);
                &&& cached.totals.cached_total_assets == nav
                &&& cached == self.with_totals(
                    Totals { cached_total_assets: nav, ..self.totals },
                )
                &&& shot.totals.reporting_snapshot matches Some(s) && s.timestamp == now
                    && s.total_assets == nav && s.total_supply == self.totals.total_supply
                    && s.total_investments == self.totals.total_investments
                &&& shot == self.with_totals(
                    Totals {
                        cached_total_assets: nav,
                        reporting_snapshot: shot.totals.reporting_snapshot,
                        ..self.totals
                    },
                )
                &&& seq > 0 ==> (recorded.compliance_events.contains_key(seq) <==> seq == event.seq
                    || (self.compliance_events.contains_key(seq) && event.seq - seq != 1_000))
                &&& recorded.compliance_events.contains_pair(event.seq, event)
                &&& seq != event.seq && recorded.compliance_events.contains_key(seq)
                    ==> recorded.compliance_events[seq] == self.compliance_events[seq]
                &&& recorded == (VaultState {
                    totals: Totals { compliance_event_counter: event.seq, ..self.totals },
                    compliance_events: recorded.compliance_events,
                    ..self
                })
            }),
    {
    }

    /// What is left of the cap of a project may still be invested in it.
    pub proof fn capacity_is_what_the_cap_leaves(self, project_id: u32)
        ensures
            ({
                let left = self.settings.max_investment_per_project - held(
                    self.project_investments,
                    project_id,
                );
                &&& 0 <= left <= i128::MAX ==> self.capacity(project_id) == Ok::<i128, VaultError>(
                    left as i128,
                )
                &&& i128::MIN <= left < 0 ==> self.capacity(project_id) == Ok::<i128, VaultError>(0)
                &&& left < i128::MIN || left > i128::MAX ==> self.capacity(project_id) == Err::<
                    i128,
                    VaultError,
                >(VaultError::ArithmeticOverflow)
            }),
    {
    }
}

} // verus!
