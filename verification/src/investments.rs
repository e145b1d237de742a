//! What is invested in each project, and the limits on it.

use crate::arith::{difference, fits};
use crate::constants::{MAX_INVESTMENT_PER_PROJECT, MAX_SCORE};
use crate::guards::{configure_refusal, first, owner_refusal, version_refusal};
use crate::state::{InvestmentVault, Registry, Settings, VaultState};
use crate::tables::entry_u32;
use crate::types::{Address, Effect, Event, Outcome, VaultError};
use vstd::prelude::*;

verus! {

impl VaultState {
    /// What may still be invested in a project.
    pub open spec fn capacity(self, project_id: u32) -> Result<i128, VaultError> {
        let left = self.settings.max_investment_per_project - self.invested_in(project_id);
        if !fits(left) {
            Err(VaultError::ArithmeticOverflow)
        } else if left < 0 {
            Ok(0)
        } else {
            Ok(left as i128)
        }
    }

    /// The USDC invested in each project of a list, in the order of the list.
    pub open spec fn investments_in(self, project_ids: Seq<u32>) -> Seq<i128> {
        project_ids.map_values(|id: u32| self.invested_in(id))
    }

    /// The projects `1..=n`, each with the USDC invested in it.
    pub open spec fn investment_list(self, n: nat) -> Seq<(u32, i128)> {
        Seq::new(n, |i: int| ((i + 1) as u32, self.invested_in((i + 1) as u32)))
    }
}

/// A project has a recorded investment of nothing.
pub open spec fn is_empty_entry(m: Map<u32, i128>, id: u32) -> bool {
    m.contains_key(id) && m[id] == 0
}

/// The table without the empty entries of the projects `1..=n`.
pub open spec fn compacted(m: Map<u32, i128>, n: nat) -> Map<u32, i128>
    decreases n,
{
    if n == 0 {
        m
    } else if is_empty_entry(m, n as u32) {
        compacted(m, (n - 1) as nat).remove(n as u32)
    } else {
        compacted(m, (n - 1) as nat)
    }
}

/// The number of empty entries of the projects `1..=n`.
pub open spec fn empty_entries(m: Map<u32, i128>, n: nat) -> nat
    decreases n,
{
    if n == 0 {
        0
    } else if is_empty_entry(m, n as u32) {
        empty_entries(m, (n - 1) as nat) + 1
    } else {
        empty_entries(m, (n - 1) as nat)
    }
}

/// There are no more empty entries than projects.
pub proof fn lemma_empty_entries(m: Map<u32, i128>, n: nat)
    ensures
        empty_entries(m, n) <= n,
    decreases n,
{
    if n > 0 {
        lemma_empty_entries(m, (n - 1) as nat);
    }
}

/// Compaction touches no project past the ones it has looked at.
pub proof fn lemma_compacted_beyond(m: Map<u32, i128>, n: nat, id: u32)
    requires
        n < id,
    ensures
        compacted(m, n).contains_key(id) == m.contains_key(id),
        m.contains_key(id) ==> compacted(m, n)[id] == m[id],
    decreases n,
{
    if n > 0 {
        lemma_compacted_beyond(m, (n - 1) as nat, id);
    }
}

impl InvestmentVault {
    /// The USDC invested in a project.
    pub fn get_project_investment(&self, project_id: u32) -> (r: Result<i128, VaultError>)
        ensures
            r == if self.settings.is_current() {
                Ok(self@.invested_in(project_id))
            } else {
                Err(VaultError::UnsupportedStateVersion)
            },
    {
        self.require_current_state()?;
        Ok(entry_u32(&self.project_investments, project_id, 0))
    }

    /// The USDC invested in each project of a list, in the order of the list.
    pub fn get_project_investments_batch(&self, project_ids: &Vec<u32>) -> (r: Result<
        Vec<i128>,
        VaultError,
    >)
        ensures
            match r {
                Ok(amounts) => {
                    &&& self.settings.is_current()
                    &&& amounts@ == self@.investments_in(project_ids@)
                },
                Err(e) => {
                    &&& !self.settings.is_current()
                    &&& e == VaultError::UnsupportedStateVersion
                },
            },
    {
        self.require_current_state()?;
        let mut amounts: Vec<i128> = Vec::new();
        let mut i: usize = 0;
        while i < project_ids.len()
            invariant
                i <= project_ids.len(),
                amounts.len() == i,
                forall|j: int|
                    0 <= j < i ==> #[trigger] amounts@[j] == self@.invested_in(project_ids@[j]),
            decreases project_ids.len() - i,
        {
            amounts.push(entry_u32(&self.project_investments, project_ids[i], 0));
            i = i + 1;
        }
        assert(amounts@ =~= self@.investments_in(project_ids@));
        Ok(amounts)
    }

    /// Each registered project with the USDC invested in it, in the order of the ids.
    pub fn get_all_project_investments(&self, registry: &Registry) -> (r: Result<
        Vec<(u32, i128)>,
        VaultError,
    >)
        ensures
            match r {
                Ok(list) => {
                    &&& self.settings.is_current()
                    &&& list@ == self@.investment_list(registry.total_projects as nat)
                },
                Err(e) => {
                    &&& !self.settings.is_current()
                    &&& e == VaultError::UnsupportedStateVersion
                },
            },
    {
        self.require_current_state()?;
        let mut list: Vec<(u32, i128)> = Vec::new();
        let mut id: u32 = 0;
        while id < registry.total_projects
            invariant
                id <= registry.total_projects,
                list.len() == id,
                forall|j: int|
                    0 <= j < id ==> #[trigger] list@[j] == (
                        (j + 1) as u32,
                        self@.invested_in((j + 1) as u32),
                    ),
            decreases registry.total_projects - id,
        {
            id = id + 1;
            list.push((id, entry_u32(&self.project_investments, id, 0)));
        }
        assert(list@ =~= self@.investment_list(registry.total_projects as nat));
        Ok(list)
    }

    /// Set the cap on the investment in one project; 0 restores the default.
    pub fn set_max_investment_per_project(&mut self, cap: i128) -> (r: Result<
        Outcome<()>,
        VaultError,
    >)
        ensures
            old(self)@.well_formed() ==> final(self)@.well_formed(),
            match r {
                Ok(out) => {
                    let stored = if cap == 0 {
                        MAX_INVESTMENT_PER_PROJECT
                    } else {
                        cap
                    };
                    &&& configure_refusal(old(self).settings) is None
                    &&& cap >= 0
                    &&& final(self)@ == old(self)@.with_settings(
                        Settings { max_investment_per_project: stored, ..old(self).settings },
                    )
                    &&& out.effects@ == seq![
                        old(self).settings.owner_auth(),
                        Effect::Emit(Event::InvestmentCapSet { cap: stored }),
                    ]
                },
                Err(e) => {
                    &&& Some(e) == first(
                        configure_refusal(old(self).settings),
                        if cap < 0 {
                            Some(VaultError::AmountNotPositive)
                        } else {
                            None
                        },
                    )
                    &&& *final(self) == *old(self)
                },
            },
    {
        let owner = self.require_configurable()?;
        if cap < 0 {
            return Err(VaultError::AmountNotPositive);
        }
        let stored: i128 = if cap == 0 {
            MAX_INVESTMENT_PER_PROJECT
        } else {
            cap
        };
        self.settings.max_investment_per_project = stored;
        let effects = vec![
            Effect::RequireAuth(owner),
            Effect::Emit(Event::InvestmentCapSet { cap: stored }),
        ];
        Ok(Outcome { value: (), effects })
    }

    /// What may still be invested in a project; 0 where the cap is reached.
    pub fn investment_capacity(&self, project_id: u32) -> (r: Result<i128, VaultError>)
        ensures
            r == if self.settings.is_current() {
                self@.capacity(project_id)
            } else {
                Err(VaultError::UnsupportedStateVersion)
            },
    {
        self.require_current_state()?;
        let left: i128 = difference(
            self.settings.max_investment_per_project,
            entry_u32(&self.project_investments, project_id, 0),
        )?;
        if left < 0 {
            Ok(0)
        } else {
            Ok(left)
        }
    }

    /// Set the scores that a project needs to be funded.
    pub fn set_funding_thresholds(&mut self, min_credit_quality: u32, min_green_impact: u32) -> (r:
        Result<Outcome<()>, VaultError>)
        ensures
            old(self)@.well_formed() ==> final(self)@.well_formed(),
            match r {
                Ok(out) => {
                    &&& configure_refusal(old(self).settings) is None
                    &&& min_credit_quality <= MAX_SCORE && min_green_impact <= MAX_SCORE
                    &&& final(self)@ == old(self)@.with_settings(
                        Settings { min_credit_quality, min_green_impact, ..old(self).settings },
                    )
                    &&& out.effects@ == seq![
                        old(self).settings.owner_auth(),
                        Effect::Emit(
                            Event::FundingThresholdsSet { min_credit_quality, min_green_impact },
                        ),
                    ]
                },
                Err(e) => {
                    &&& Some(e) == first(
                        configure_refusal(old(self).settings),
                        if min_credit_quality > MAX_SCORE || min_green_impact > MAX_SCORE {
                            Some(VaultError::ThresholdOutOfRange)
                        } else {
                            None
                        },
                    )
                    &&& *final(self) == *old(self)
                },
            },
    {
        let owner = self.require_configurable()?;
        if min_credit_quality > MAX_SCORE || min_green_impact > MAX_SCORE {
            return Err(VaultError::ThresholdOutOfRange);
        }
        self.settings.min_credit_quality = min_credit_quality;
        self.settings.min_green_impact = min_green_impact;
        let effects = vec![
            Effect::RequireAuth(owner),
            Effect::Emit(Event::FundingThresholdsSet { min_credit_quality, min_green_impact }),
        ];
        Ok(Outcome { value: (), effects })
    }

    pub fn get_min_credit_quality(&self) -> (r: u32)
        ensures
            r == self.settings.min_credit_quality,
    {
        self.settings.min_credit_quality
    }

    pub fn get_min_green_impact(&self) -> (r: u32)
        ensures
            r == self.settings.min_green_impact,
    {
        self.settings.min_green_impact
    }

    /// Replace the project registry. The host checks that the new one answers.
    pub fn set_registry(&mut self, new_registry: Address) -> (r: Result<Outcome<()>, VaultError>)
        ensures
            old(self)@.well_formed() ==> final(self)@.well_formed(),
            match r {
                Ok(out) => {
                    &&& configure_refusal(old(self).settings) is None
                    &&& final(self)@ == old(self)@.with_settings(
                        Settings { registry: new_registry, ..old(self).settings },
                    )
                    &&& out.effects@ == seq![
                        old(self).settings.owner_auth(),
                        Effect::CheckRegistry(new_registry),
                        Effect::Emit(
                            Event::RegistryChanged {
                                old: old(self).settings.registry,
                                new: new_registry,
                            },
                        ),
                    ]
                },
                Err(e) => {
                    &&& configure_refusal(old(self).settings) == Some(e)
                    &&& *final(self) == *old(self)
                },
            },
    {
        let owner = self.require_configurable()?;
        let before = self.settings.registry;
        self.settings.registry = new_registry;
        let effects = vec![
            Effect::RequireAuth(owner),
            Effect::CheckRegistry(new_registry),
            Effect::Emit(Event::RegistryChanged { old: before, new: new_registry }),
        ];
        Ok(Outcome { value: (), effects })
    }

    pub fn get_registry(&self) -> (r: Result<Address, VaultError>)
        ensures
            r == if self.settings.is_current() {
                Ok(self.settings.registry)
            } else {
                Err(VaultError::UnsupportedStateVersion)
            },
    {
        self.require_current_state()?;
        Ok(self.settings.registry)
    }

    /// Drop the empty entries of registered projects. The value is their number.
    pub fn compact_storage(&mut self, registry: &Registry) -> (r: Result<Outcome<u32>, VaultError>)
        ensures
            old(self)@.well_formed() ==> final(self)@.well_formed(),
            match r {
                Ok(out) => {
                    let n = registry.total_projects as nat;
                    &&& owner_refusal(old(self).settings) is None
                    &&& version_refusal(old(self).settings) is None
                    &&& out.value == empty_entries(old(self)@.project_investments, n)
                    &&& final(self)@ == (VaultState {
                        project_investments: compacted(old(self)@.project_investments, n),
                        ..old(self)@
                    })
                    &&& out.effects@ == seq![old(self).settings.owner_auth()]
                },
                Err(e) => {
                    &&& Some(e) == first(
                        owner_refusal(old(self).settings),
                        version_refusal(old(self).settings),
                    )
                    &&& *final(self) == *old(self)
                },
            },
    {
        broadcast use vstd::std_specs::btree::group_btree_axioms;

        let owner = self.require_owner()?;
        self.require_current_state()?;
        let mut removed: u32 = 0;
        let mut id: u32 = 0;
        let ghost table = self@.project_investments;
        while id < registry.total_projects
            invariant
                id <= registry.total_projects,
                table == old(self)@.project_investments,
                removed == empty_entries(table, id as nat),
                self@ == (VaultState {
                    project_investments: compacted(table, id as nat),
                    ..old(self)@
                }),
            decreases registry.total_projects - id,
        {
            proof {
                lemma_empty_entries(table, id as nat);
                lemma_compacted_beyond(table, id as nat, (id + 1) as u32);
            }
            id = id + 1;
            if self.project_investments.contains_key(&id) {
                if entry_u32(&self.project_investments, id, 0) == 0 {
                    self.project_investments.remove(&id);
                    removed = removed + 1;
                }
            }
        }
        proof {
            if old(self)@.well_formed() {
                old(self)@.lemma_compaction_keeps(registry.total_projects as nat);
            }
        }
        let effects = vec![Effect::RequireAuth(owner)];
        Ok(Outcome { value: removed, effects })
    }
}

} // verus!
