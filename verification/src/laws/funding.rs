//! Capital goes to projects within the rules, and the insurance reserve stays.

use crate::funding::{fund_effects, project_refusal};
use crate::guards::{approval_refusal, first};
use crate::invariants::accounts_for;
use crate::investments::{compacted, empty_entries, is_empty_entry};
use crate::state::{RegistryView, VaultState};
use crate::tables::{lemma_sum_insert, lemma_sum_within, optional};
use crate::types::{Address, ApprovalError, VaultError};
use vstd::prelude::*;

verus! {

impl VaultState {
    /// Funding a project never touches the insurance reserve: the fund is as before, and what the
    /// vault still holds covers it.
    pub proof fn funding_spares_the_insurance_reserve(
        self,
        now: u64,
        registry: RegistryView,
        project_id: u32,
        paid: int,
    )
        requires
            self.fund_refusal(registry, project_id, paid) is None,
        ensures
            ({
                let after = self.after_funding(now, registry, project_id, paid);
                &&& after.totals.insurance_fund == self.totals.insurance_fund
                &&& after.totals.usdc_balance >= after.totals.insurance_fund
            }),
    {
    }

    /// A funded project meets the thresholds, is not the owner's own, and stays within the cap.
    pub proof fn funded_projects_qualify(
        self,
        now: u64,
        registry: RegistryView,
        project_id: u32,
        paid: int,
    )
        requires
            self.fund_refusal(registry, project_id, paid) is None,
        ensures
            registry.projects.contains_key(project_id),
            registry.projects[project_id].credit_quality >= self.settings.min_credit_quality,
            registry.projects[project_id].green_impact >= self.settings.min_green_impact,
            self.settings.owner != Some(registry.projects[project_id].owner),
            !registry.paused,
            self.after_funding(now, registry, project_id, paid).invested_in(project_id)
                == self.invested_in(project_id) + paid,
            self.invested_in(project_id) + paid <= self.settings.max_investment_per_project,
    {
    }

    /// Where the capacity of a project is used up, funding it is refused: with the cap as the
    /// reason, if nothing stood against it before.
    pub proof fn no_capacity_means_no_funding(
        self,
        registry: RegistryView,
        project_id: u32,
        paid: int,
    )
        requires
            self.capacity(project_id) == Ok::<i128, VaultError>(0),
        ensures
            self.fund_refusal(registry, project_id, paid) is Some,
            ({
                &&& self.settings.is_current()
                &&& 0 < paid
                &&& self.invested_in(project_id) + paid <= i128::MAX
                &&& project_id != 0
                &&& !self.settings.over_transaction_limit(paid)
                &&& !registry.paused
                &&& registry.projects.contains_key(project_id)
                &&& project_refusal(self.settings, registry.projects[project_id])
                    is None
            }) ==> self.fund_refusal(registry, project_id, paid) == Some(
                VaultError::InvestmentCapExceeded,
            ),
    {
    }

    /// What is funded comes off the capacity.
    pub proof fn funding_uses_up_capacity(
        self,
        now: u64,
        registry: RegistryView,
        project_id: u32,
        paid: int,
    )
        requires
            self.well_formed(),
            self.fund_refusal(registry, project_id, paid) is None,
        ensures
            self.capacity(project_id) is Ok,
            self.after_funding(now, registry, project_id, paid).capacity(project_id) == Ok::<
                i128,
                VaultError,
            >((self.capacity(project_id)->Ok_0 - paid) as i128),
            self.capacity(project_id)->Ok_0 >= paid,
    {
        lemma_sum_within(self.project_investments, project_id);
    }

    /// The investments in the projects add up to the total, before a funding and after it.
    pub proof fn investments_add_up(
        self,
        now: u64,
        registry: RegistryView,
        project_id: u32,
        paid: int,
    )
        requires
            accounts_for(self.project_investments, self.totals.total_investments as int),
            self.fund_refusal(registry, project_id, paid) is None,
        ensures
            ({
                let after = self.after_funding(now, registry, project_id, paid);
                accounts_for(after.project_investments, after.totals.total_investments as int)
            }),
    {
        lemma_sum_insert(
            self.project_investments,
            project_id,
            (self.invested_in(project_id) + paid) as i128,
        );
    }

    /// A funding records its time where none is on record, and leaves every other time alone.
    pub proof fn a_funding_records_its_time_once(
        self,
        now: u64,
        registry: RegistryView,
        project_id: u32,
        paid: int,
        other: u32,
    )
        requires
            other != project_id,
        ensures
            ({
                let after = self.after_funding(now, registry, project_id, paid);
                &&& optional(after.investment_timestamps, project_id) == match optional(
                    self.investment_timestamps,
                    project_id,
                ) {
                    Some(at) => Some(at),
                    None => Some(now),
                }
                &&& optional(after.investment_timestamps, other) == optional(
                    self.investment_timestamps,
                    other,
                )
            }),
    {
    }

    /// The time of the first funding of a project stays, however often it is funded again.
    pub proof fn first_funding_time_stays(
        self,
        first_time: u64,
        registry: RegistryView,
        project_id: u32,
        paid: int,
        second_time: u64,
        other_id: u32,
        other_paid: int,
    )
        requires
            !self.investment_timestamps.contains_key(project_id),
        ensures
            ({
                let once = self.after_funding(first_time, registry, project_id, paid);
                let twice = once.after_funding(second_time, registry, other_id, other_paid);
                &&& once.investment_timestamps.contains_key(project_id)
                &&& once.investment_timestamps[project_id] == first_time
                &&& twice.investment_timestamps.contains_key(project_id)
                &&& twice.investment_timestamps[project_id] == first_time
            }),
    {
    }

    /// Funding moves capital from the vault's balance to its investments: the two together stay.
    pub proof fn funding_conserves_capital(
        self,
        now: u64,
        registry: RegistryView,
        project_id: u32,
        paid: int,
    )
        requires
            self.fund_refusal(registry, project_id, paid) is None,
            registry.projects[project_id].owner != self.settings.vault,
        ensures
            ({
                let after = self.after_funding(now, registry, project_id, paid);
                &&& after.totals.usdc_balance + after.totals.total_investments
                    == self.totals.usdc_balance + self.totals.total_investments
                &&& after.totals.usdc_balance == self.totals.usdc_balance - paid
            }),
    {
    }

    /// A batch that names a project twice is refused.
    pub proof fn a_batch_funds_no_project_twice(
        self,
        now: u64,
        registry: RegistryView,
        fundings: Seq<(u32, i128)>,
        approval: Result<(), ApprovalError>,
        i: int,
        j: int,
    )
        requires
            0 <= i < j < fundings.len(),
            fundings[i].0 == fundings[j].0,
        ensures
            self.fund_batch(now, registry, fundings, approval) is Err,
    {
        self.lemma_run_without_duplicates(now, registry, fundings, i, j);
    }

    proof fn lemma_run_without_duplicates(
        self,
        now: u64,
        registry: RegistryView,
        fundings: Seq<(u32, i128)>,
        i: int,
        j: int,
    )
        requires
            0 <= i < j < fundings.len(),
            fundings[i].0 == fundings[j].0,
        ensures
            self.fund_run(now, registry, fundings) is Err,
        decreases fundings.len(),
    {
        let before = fundings.drop_last();
        if j < before.len() {
            self.lemma_run_without_duplicates(now, registry, before, i, j);
        } else {
            assert(before[i].0 == fundings.last().0);
        }
    }

    /// A batch of one project does what a single funding does.
    pub proof fn a_batch_of_one_is_a_single_funding(
        self,
        now: u64,
        registry: RegistryView,
        project_id: u32,
        paid: i128,
        approval: Result<(), ApprovalError>,
    )
        ensures
            ({
                let batch = self.fund_batch(now, registry, seq![(project_id, paid)], approval);
                let refusal = first(
                    approval_refusal(self.settings, approval),
                    self.fund_refusal(registry, project_id, paid as int),
                );
                match batch {
                    Ok(run) => {
                        &&& refusal is None
                        &&& run.state == self.after_funding(
                            now,
                            registry,
                            project_id,
                            paid as int,
                        )
                        &&& run.effects == fund_effects(
                            self.settings.vault,
                            registry,
                            project_id,
                            paid,
                        )
                    },
                    Err(e) => refusal == Some(e),
                }
            }),
    {
        let one = seq![(project_id, paid)];
        assert(one.drop_last() =~= seq![]);
        reveal_with_fuel(VaultState::fund_run, 2);
        let effects = fund_effects(
            self.settings.vault,
            registry,
            project_id,
            paid,
        );
        assert(seq![] + effects =~= effects);
    }

    /// Insurance is paid once for each project. A project that has been paid for stands against no
    /// other.
    pub proof fn insurance_is_paid_once(
        self,
        project_id: u32,
        recipient: Address,
        paid: int,
        next_recipient: Address,
        next_paid: int,
        other: u32,
    )
        requires
            self.insurance_refusal(project_id, recipient, paid) is None,
            other != project_id,
        ensures
            self.after_insurance(project_id, recipient, paid).is_claimed(other)
                == self.is_claimed(other),
            self.after_insurance(project_id, recipient, paid).insurance_refusal(
                project_id,
                next_recipient,
                next_paid,
            ) is Some,
            next_paid > 0 && !self.settings.over_transaction_limit(next_paid)
                ==> self.after_insurance(project_id, recipient, paid).insurance_refusal(
                project_id,
                next_recipient,
                next_paid,
            ) == Some(VaultError::InsuranceAlreadyClaimed),
    {
    }

    /// Insurance is paid out of the fund: the fund falls by what is paid, and not below zero.
    pub proof fn insurance_is_paid_out_of_the_fund(
        self,
        project_id: u32,
        recipient: Address,
        paid: int,
    )
        requires
            self.insurance_refusal(project_id, recipient, paid) is None,
        ensures
            self.after_insurance(project_id, recipient, paid).totals.insurance_fund
                == self.totals.insurance_fund - paid,
            self.after_insurance(project_id, recipient, paid).totals.insurance_fund >= 0,
    {
    }

    /// Compaction changes nothing that is invested anywhere, and leaves nothing for a second one.
    pub proof fn compaction_changes_no_investment(self, n: nat, id: u32)
        requires
            n <= u32::MAX,
        ensures
            ({
                let after = VaultState {
                    project_investments: compacted(self.project_investments, n),
                    ..self
                };
                &&& after.invested_in(id) == self.invested_in(id)
                &&& empty_entries(after.project_investments, n) == 0
            }),
    {
        lemma_compacted_entry(self.project_investments, n, id);
        lemma_compacted_clean(self.project_investments, n, n);
    }
}

/// Compaction takes out the entries of nothing among the projects that the registry counts, keeps
/// all others, and counts what it takes out.
pub proof fn compaction_takes_out_what_it_counts(m: Map<u32, i128>, n: nat, id: u32)
    requires
        m.dom().finite(),
        n <= u32::MAX,
    ensures
        compacted(m, n).contains_key(id) <==> m.contains_key(id) && (m[id] != 0 || id == 0 || id
            > n),
        compacted(m, n).contains_key(id) ==> compacted(m, n)[id] == m[id],
        compacted(m, n).dom().finite(),
        compacted(m, n).dom().len() + empty_entries(m, n) == m.dom().len(),
    decreases n,
{
    lemma_compacted_entry(m, n, id);
    if n > 0 {
        compaction_takes_out_what_it_counts(m, (n - 1) as nat, id);
        lemma_compacted_entry(m, (n - 1) as nat, n as u32);
    }
}

/// What compaction leaves of one entry.
proof fn lemma_compacted_entry(m: Map<u32, i128>, n: nat, id: u32)
    requires
        n <= u32::MAX,
    ensures
        compacted(m, n).contains_key(id) <==> m.contains_key(id) && !(1 <= id <= n
            && is_empty_entry(m, id)),
        compacted(m, n).contains_key(id) ==> compacted(m, n)[id] == m[id],
    decreases n,
{
    if n > 0 {
        lemma_compacted_entry(m, (n - 1) as nat, id);
    }
}

proof fn lemma_compacted_clean(m: Map<u32, i128>, n: nat, k: nat)
    requires
        k <= n <= u32::MAX,
    ensures
        empty_entries(compacted(m, n), k) == 0,
    decreases k,
{
    if k > 0 {
        lemma_compacted_clean(m, n, (k - 1) as nat);
        lemma_compacted_entry(m, n, k as u32);
    }
}

} // verus!
