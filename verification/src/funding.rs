//! Investments in registered projects.

use crate::arith::{difference, fits, sum};
use crate::constants::MAX_BATCH_FUND_SIZE;
use crate::flows::balanced;
use crate::guards::{
    approval_refusal, first, owner_refusal, pause_refusal, refused, sole_owner_refusal,
};
use crate::shares::{after_payment, pay};
use crate::state::{InvestmentVault, Registry, RegistryView, Settings, Totals, VaultState};
use crate::tables::{entry_u32, optional, optional_u32};
use crate::types::{Address, ApprovalError, Effect, Event, Ledger, Outcome, ProjectData, VaultError};
use vstd::prelude::*;

verus! {

/// Why the scores or the owner of a project stand against its funding.
pub open spec fn project_refusal(s: Settings, project: ProjectData) -> Option<VaultError> {
    if s.owner == Some(project.owner) {
        Some(VaultError::SelfFundingNotAllowed)
    } else if project.credit_quality < s.min_credit_quality {
        Some(VaultError::BelowMinCreditQuality)
    } else if project.green_impact < s.min_green_impact {
        Some(VaultError::BelowMinGreenImpact)
    } else {
        None
    }
}

impl VaultState {
    /// Why the funds or the cap stand against funding a project.
    pub open spec fn capital_refusal(self, project_id: u32, owner: Address, paid: int) -> Option<
        VaultError,
    > {
        let liquid = self.totals.usdc_balance as int;
        let reserve = self.totals.insurance_fund as int;
        if !fits(self.invested_in(project_id) + paid) {
            Some(VaultError::ArithmeticOverflow)
        } else if self.invested_in(project_id) + paid > self.settings.max_investment_per_project {
            Some(VaultError::InvestmentCapExceeded)
        } else if !fits(liquid - reserve) {
            Some(VaultError::ArithmeticOverflow)
        } else if paid > liquid - reserve {
            Some(VaultError::InsufficientDeployable)
        } else {
            match after_payment(liquid, self.settings.vault, owner, paid) {
                Err(e) => Some(e),
                Ok(_) => if fits(self.totals.total_investments + paid) {
                    None
                } else {
                    Some(VaultError::ArithmeticOverflow)
                },
            }
        }
    }

    /// Why funding a project is refused.
    pub open spec fn fund_refusal(self, registry: RegistryView, project_id: u32, paid: int) -> Option<
        VaultError,
    > {
        if !self.settings.is_current() {
            Some(VaultError::UnsupportedStateVersion)
        } else if paid <= 0 {
            Some(VaultError::AmountNotPositive)
        } else if project_id == 0 {
            Some(VaultError::ProjectNotFound)
        } else if self.settings.over_transaction_limit(paid) {
            Some(VaultError::ExceedsMaxTransactionAmount)
        } else if registry.paused {
            Some(VaultError::RegistryPaused)
        } else {
            match optional(registry.projects, project_id) {
                None => Some(VaultError::ProjectNotFound),
                Some(project) => first(
                    project_refusal(self.settings, project),
                    self.capital_refusal(project_id, project.owner, paid),
                ),
            }
        }
    }

    /// This state after a payment of `paid` to the `owner` of a project. The time of the first
    /// funding stays.
    pub open spec fn funded(self, now: u64, project_id: u32, owner: Address, paid: int) -> VaultState {
        VaultState {
            totals: Totals {
                usdc_balance: after_payment(
                    self.totals.usdc_balance as int,
                    self.settings.vault,
                    owner,
                    paid,
                )->Ok_0,
                total_investments: (self.totals.total_investments + paid) as i128,
                ..self.totals
            },
            project_investments: self.project_investments.insert(
                project_id,
                (self.invested_in(project_id) + paid) as i128,
            ),
            investment_timestamps: if self.investment_timestamps.contains_key(project_id) {
                self.investment_timestamps
            } else {
                self.investment_timestamps.insert(project_id, now)
            },
            ..self
        }
    }

    /// This state after an accepted funding.
    pub open spec fn after_funding(
        self,
        now: u64,
        registry: RegistryView,
        project_id: u32,
        paid: int,
    ) -> VaultState {
        self.funded(now, project_id, registry.projects[project_id].owner, paid)
    }
}

/// What the host does to fund a project.
pub open spec fn fund_effects(
    vault: Address,
    registry: RegistryView,
    project_id: u32,
    paid: i128,
) -> Seq<Effect> {
    let owner = registry.projects[project_id].owner;
    seq![
        Effect::TransferUsdc { from: vault, to: owner, amount: paid },
        Effect::Emit(Event::ProjectFunded { project_id, amount: paid, owner }),
    ]
}

/// Why a batch of `n` fundings is refused, before its approvals are looked at.
pub open spec fn batch_size_refusal(n: nat) -> Option<VaultError> {
    if n == 0 {
        Some(VaultError::EmptyBatchFunding)
    } else if n > MAX_BATCH_FUND_SIZE {
        Some(VaultError::BatchTooLarge)
    } else {
        None
    }
}

/// What a run of fundings, one after the other, leads to.
pub struct FundRun {
    pub state: VaultState,
    pub effects: Seq<Effect>,
}

/// A project occurs in a list of fundings.
pub open spec fn funds(fundings: Seq<(u32, i128)>, project_id: u32) -> bool {
    exists|i: int| 0 <= i < fundings.len() && (#[trigger] fundings[i]).0 == project_id
}

impl VaultState {
    /// The fundings of a list, made in order; the first refusal, or the first project that comes
    /// up again, refuses them all.
    pub open spec fn fund_run(
        self,
        now: u64,
        registry: RegistryView,
        fundings: Seq<(u32, i128)>,
    ) -> Result<FundRun, VaultError>
        decreases fundings.len(),
    {
        if fundings.len() == 0 {
            Ok(FundRun { state: self, effects: seq![] })
        } else {
            match self.fund_run(now, registry, fundings.drop_last()) {
                Err(e) => Err(e),
                Ok(run) => {
                    let (project_id, paid) = fundings.last();
                    if funds(fundings.drop_last(), project_id) {
                        Err(VaultError::DuplicateProjectId)
                    } else {
                        match run.state.fund_refusal(registry, project_id, paid as int) {
                            Some(e) => Err(e),
                            None => Ok(
                                FundRun {
                                    state: run.state.after_funding(
                                        now,
                                        registry,
                                        project_id,
                                        paid as int,
                                    ),
                                    effects: run.effects + fund_effects(
                                        run.state.settings.vault,
                                        registry,
                                        project_id,
                                        paid,
                                    ),
                                },
                            ),
                        }
                    }
                },
            }
        }
    }

    /// The result of a batch of fundings, given the outcome of the check of the approvals.
    pub open spec fn fund_batch(
        self,
        now: u64,
        registry: RegistryView,
        fundings: Seq<(u32, i128)>,
        approval: Result<(), ApprovalError>,
    ) -> Result<FundRun, VaultError> {
        match first(
            batch_size_refusal(fundings.len()),
            approval_refusal(self.settings, approval),
        ) {
            Some(e) => Err(e),
            None => self.fund_run(now, registry, fundings),
        }
    }

    /// A refusal on the way refuses the whole list in the same way.
    proof fn lemma_fund_run_failure(
        self,
        now: u64,
        registry: RegistryView,
        fundings: Seq<(u32, i128)>,
        k: int,
    )
        requires
            0 <= k <= fundings.len(),
        ensures
            self.fund_run(now, registry, fundings.take(k)) is Err ==> self.fund_run(
                now,
                registry,
                fundings,
            ) == self.fund_run(now, registry, fundings.take(k)),
        decreases fundings.len(),
    {
        if k < fundings.len() {
            self.lemma_fund_run_failure(now, registry, fundings.drop_last(), k);
            assert(fundings.drop_last().take(k) =~= fundings.take(k));
        } else {
            assert(fundings.take(k) =~= fundings);
        }
    }
}

impl InvestmentVault {
    fn fund_project_internal(
        &mut self,
        ledger: &Ledger,
        registry: &Registry,
        project_id: u32,
        amount: i128,
        effects: &mut Vec<Effect>,
    ) -> (r: Result<(), VaultError>)
        ensures
            old(self)@.well_formed() ==> final(self)@.well_formed(),
            match r {
                Ok(_) => {
                    &&& old(self)@.fund_refusal(registry@, project_id, amount as int) is None
                    &&& final(self)@ == old(self)@.after_funding(
                        ledger.timestamp,
                        registry@,
                        project_id,
                        amount as int,
                    )
                    &&& final(effects)@ == old(effects)@ + fund_effects(
                        old(self).settings.vault,
                        registry@,
                        project_id,
                        amount,
                    )
                },
                Err(e) => {
                    &&& old(self)@.fund_refusal(registry@, project_id, amount as int) == Some(e)
                    &&& *final(self) == *old(self)
                },
            },
    {
        broadcast use vstd::std_specs::btree::group_btree_axioms;

        self.require_current_state()?;
        if amount <= 0 {
            return Err(VaultError::AmountNotPositive);
        }
        if project_id == 0 {
            return Err(VaultError::ProjectNotFound);
        }
        self.check_max_transaction_amount(amount)?;
        if registry.paused {
            return Err(VaultError::RegistryPaused);
        }
        let project = match optional_u32(&registry.projects, project_id) {
            Some(project) => project,
            None => {
                return Err(VaultError::ProjectNotFound);
            },
        };
        if let Some(owner) = self.settings.owner {
            if owner == project.owner {
                return Err(VaultError::SelfFundingNotAllowed);
            }
        }
        if project.credit_quality < self.settings.min_credit_quality {
            return Err(VaultError::BelowMinCreditQuality);
        }
        if project.green_impact < self.settings.min_green_impact {
            return Err(VaultError::BelowMinGreenImpact);
        }
        let invested: i128 = sum(entry_u32(&self.project_investments, project_id, 0), amount)?;
        if invested > self.settings.max_investment_per_project {
            return Err(VaultError::InvestmentCapExceeded);
        }
        let available: i128 = difference(self.totals.usdc_balance, self.totals.insurance_fund)?;
        if amount > available {
            return Err(VaultError::InsufficientDeployable);
        }
        let vault = self.settings.vault;
        let held: i128 = pay(self.totals.usdc_balance, vault, project.owner, amount)?;
        let total: i128 = sum(self.totals.total_investments, amount)?;

        self.totals.usdc_balance = held;
        self.totals.total_investments = total;
        self.project_investments.insert(project_id, invested);
        if !self.investment_timestamps.contains_key(&project_id) {
            self.investment_timestamps.insert(project_id, ledger.timestamp);
        }
        effects.push(Effect::TransferUsdc { from: vault, to: project.owner, amount });
        effects.push(
            Effect::Emit(Event::ProjectFunded { project_id, amount, owner: project.owner }),
        );
        assert(effects@ =~= old(effects)@ + fund_effects(vault, registry@, project_id, amount));
        proof {
            if old(self)@.well_formed() {
                old(self)@.lemma_funding_keeps(
                    ledger.timestamp,
                    registry@,
                    project_id,
                    amount as int,
                );
            }
        }
        Ok(())
    }

    /// Pay `amount` to the owner of a registered project. For the vault's owner, while the vault
    /// is not paused and the multi-signature is off. The insurance fund is never touched.
    pub fn fund_project(
        &mut self,
        ledger: &Ledger,
        registry: &Registry,
        project_id: u32,
        amount: i128,
    ) -> (r: Result<Outcome<()>, VaultError>)
        ensures
            old(self)@.well_formed() ==> final(self)@.well_formed(),
            match r {
                Ok(out) => {
                    &&& balanced(old(self)@, final(self)@, out.effects@)
                    &&& owner_refusal(old(self).settings) is None
                    &&& pause_refusal(old(self).settings) is None
                    &&& sole_owner_refusal(old(self).settings) is None
                    &&& old(self)@.fund_refusal(registry@, project_id, amount as int) is None
                    &&& final(self)@ == old(self)@.after_funding(
                        ledger.timestamp,
                        registry@,
                        project_id,
                        amount as int,
                    )
                    &&& out.effects@ == seq![
                        Effect::RequireAuth(old(self).settings.owner->Some_0),
                    ] + fund_effects(old(self).settings.vault, registry@, project_id, amount)
                },
                Err(e) => {
                    &&& Some(e) == first(
                        owner_refusal(old(self).settings),
                        first(
                            pause_refusal(old(self).settings),
                            first(
                                sole_owner_refusal(old(self).settings),
                                old(self)@.fund_refusal(registry@, project_id, amount as int),
                            ),
                        ),
                    )
                    &&& *final(self) == *old(self)
                },
            },
    {
        broadcast use crate::flows::group_flows;

        let owner = self.require_owner()?;
        self.require_not_paused()?;
        self.require_multisig_disabled()?;
        let mut effects: Vec<Effect> = Vec::new();
        effects.push(Effect::RequireAuth(owner));
        self.fund_project_internal(ledger, registry, project_id, amount, &mut effects)?;
        assert(effects@ =~= seq![Effect::RequireAuth(owner)] + fund_effects(
            old(self).settings.vault,
            registry@,
            project_id,
            amount,
        ));
        Ok(Outcome { value: (), effects })
    }

    /// Pay `amount` to the owner of a registered project, given the outcome of the check of the
    /// approvals.
    pub fn fund_project_with_approvals(
        &mut self,
        ledger: &Ledger,
        registry: &Registry,
        project_id: u32,
        amount: i128,
        approval: Result<(), ApprovalError>,
    ) -> (r: Result<Outcome<()>, VaultError>)
        ensures
            old(self)@.well_formed() ==> final(self)@.well_formed(),
            match r {
                Ok(out) => {
                    &&& balanced(old(self)@, final(self)@, out.effects@)
                    &&& approval_refusal(old(self).settings, approval) is None
                    &&& old(self)@.fund_refusal(registry@, project_id, amount as int) is None
                    &&& final(self)@ == old(self)@.after_funding(
                        ledger.timestamp,
                        registry@,
                        project_id,
                        amount as int,
                    )
                    &&& out.effects@ == fund_effects(
                        old(self).settings.vault,
                        registry@,
                        project_id,
                        amount,
                    )
                },
                Err(e) => {
                    &&& Some(e) == first(
                        approval_refusal(old(self).settings, approval),
                        old(self)@.fund_refusal(registry@, project_id, amount as int),
                    )
                    &&& *final(self) == *old(self)
                },
            },
    {
        broadcast use crate::flows::group_flows;

        self.require_admin_approval(approval)?;
        let mut effects: Vec<Effect> = Vec::new();
        self.fund_project_internal(ledger, registry, project_id, amount, &mut effects)?;
        assert(effects@ =~= fund_effects(
            old(self).settings.vault,
            registry@,
            project_id,
            amount,
        ));
        Ok(Outcome { value: (), effects })
    }

    /// Fund several projects in one call: all of them, or none. No project may occur twice.
    pub fn batch_fund_projects(
        &mut self,
        ledger: &Ledger,
        registry: &Registry,
        fundings: &Vec<(u32, i128)>,
        approval: Result<(), ApprovalError>,
    ) -> (r: Result<Outcome<()>, VaultError>)
        ensures
            old(self)@.well_formed() ==> final(self)@.well_formed(),
            match r {
                Ok(out) => {
                    let result = old(self)@.fund_batch(
                        ledger.timestamp,
                        registry@,
                        fundings@,
                        approval,
                    );
                    &&& balanced(old(self)@, final(self)@, out.effects@)
                    &&& result is Ok
                    &&& final(self)@ == result->Ok_0.state
                    &&& out.effects@ == result->Ok_0.effects
                },
                Err(e) => {
                    &&& old(self)@.fund_batch(ledger.timestamp, registry@, fundings@, approval)
                        == Err::<FundRun, VaultError>(e)
                    &&& final(self)@ == old(self)@
                },
            },
    {
        check_batch_size(fundings)?;
        self.require_admin_approval(approval)?;
        let totals = self.totals;
        let project_investments = self.project_investments.clone();
        let investment_timestamps = self.investment_timestamps.clone();

        let mut effects: Vec<Effect> = Vec::new();
        let mut i: usize = 0;
        proof {
            assert(fundings@.take(0) =~= seq![]);
        }
        while i < fundings.len()
            invariant
                i <= fundings.len(),
                0 < fundings.len() <= MAX_BATCH_FUND_SIZE,
                approval_refusal(old(self).settings, approval) is None,
                old(self)@.fund_run(ledger.timestamp, registry@, fundings@.take(i as int)) is Ok,
                ({
                    let run = old(self)@.fund_run(
                        ledger.timestamp,
                        registry@,
                        fundings@.take(i as int),
                    )->Ok_0;
                    &&& self@ == run.state
                    &&& effects@ == run.effects
                }),
                self@ == (VaultState {
                    totals: self.totals,
                    project_investments: self.project_investments@,
                    investment_timestamps: self.investment_timestamps@,
                    ..old(self)@
                }),
                totals == old(self).totals,
                project_investments@ == old(self).project_investments@,
                investment_timestamps@ == old(self).investment_timestamps@,
                old(self)@.well_formed() ==> self@.well_formed(),
            decreases fundings.len() - i,
        {
            let (project_id, amount): (u32, i128) = fundings[i];
            let ghost before = fundings@.take(i as int);
            let ghost upto = fundings@.take(i + 1);
            proof {
                assert(upto.drop_last() =~= before);
                old(self)@.lemma_fund_run_failure(ledger.timestamp, registry@, fundings@, i + 1);
            }
            let mut failure: Option<VaultError> = None;
            if funds_before(fundings, i, project_id) {
                failure = Some(VaultError::DuplicateProjectId);
            } else {
                let mut made: Vec<Effect> = Vec::new();
                match self.fund_project_internal(ledger, registry, project_id, amount, &mut made) {
                    Ok(()) => {
                        assert(made@ =~= fund_effects(
                            self@.settings.vault,
                            registry@,
                            project_id,
                            amount,
                        ));
                        effects.append(&mut made);
                    },
                    Err(e) => {
                        failure = Some(e);
                    },
                }
            }
            if let Some(e) = failure {
                self.totals = totals;
                self.project_investments = project_investments;
                self.investment_timestamps = investment_timestamps;
                return Err(e);
            }
            i = i + 1;
        }
        proof {
            assert(fundings@.take(i as int) =~= fundings@);
            old(self)@.a_batch_of_fundings_moves_what_it_books(
                ledger.timestamp,
                registry@,
                fundings@,
            );
        }
        Ok(Outcome { value: (), effects })
    }
}

/// Whether a batch is worth its approvals: neither empty nor too large.
pub fn check_batch_size(fundings: &Vec<(u32, i128)>) -> (r: Result<(), VaultError>)
    ensures
        r == refused(batch_size_refusal(fundings@.len())),
{
    if fundings.len() == 0 {
        return Err(VaultError::EmptyBatchFunding);
    }
    if fundings.len() > MAX_BATCH_FUND_SIZE as usize {
        return Err(VaultError::BatchTooLarge);
    }
    Ok(())
}

fn funds_before(fundings: &Vec<(u32, i128)>, n: usize, project_id: u32) -> (r: bool)
    requires
        n <= fundings.len(),
    ensures
        r == funds(fundings@.take(n as int), project_id),
{
    let mut i: usize = 0;
    while i < n
        invariant
            i <= n <= fundings.len(),
            forall|j: int| 0 <= j < i ==> (#[trigger] fundings@[j]).0 != project_id,
        decreases n - i,
    {
        if fundings[i].0 == project_id {
            assert(fundings@.take(n as int)[i as int].0 == project_id);
            return true;
        }
        i = i + 1;
    }
    assert forall|j: int| 0 <= j < n implies (#[trigger] fundings@.take(n as int)[j]).0
        != project_id by {
        assert(fundings@[j].0 != project_id);
    }
    false
}

} // verus!
