//! A batch is its entries, one after the other: all of them, or none.

use crate::funding::{batch_size_refusal, fund_effects};
use crate::state::{RegistryView, VaultState};
use crate::types::{Address, ApprovalError, Ledger, VaultError};
use vstd::prelude::*;

verus! {

impl VaultState {
    /// A run of deposits goes on exactly where the next one is accepted in the state that the ones
    /// before have led to. It mints what that deposit buys there, and adds what it does.
    pub proof fn deposits_run_one_by_one(
        self,
        ledger: Ledger,
        registry: RegistryView,
        deposits: Seq<(Address, i128)>,
        from: Address,
        amount: i128,
    )
        ensures
            ({
                let before = self.deposit_run(ledger, registry, deposits);
                let run = self.deposit_run(ledger, registry, deposits.push((from, amount)));
                let state = before->Ok_0.state;
                let refusal = state.deposit_refusal(ledger, registry, from, amount as int);
                let shares = state.deposit_shares(registry, ledger.timestamp, amount as int)->Ok_0;
                &&& run is Ok <==> before is Ok && refusal is None
                &&& before is Err ==> run is Err && run->Err_0 == before->Err_0
                &&& before is Ok && refusal is Some ==> run is Err && Some(run->Err_0) == refusal
                &&& run is Ok ==> {
                    &&& run->Ok_0.state == state.after_deposit(
                        ledger,
                        registry,
                        from,
                        amount as int,
                    )
                    &&& run->Ok_0.minted == before->Ok_0.minted.push(shares)
                    &&& run->Ok_0.effects == before->Ok_0.effects
                        + state.settings.deposit_effects(from, amount, shares)
                }
            }),
    {
        assert(deposits.push((from, amount)).drop_last() =~= deposits);
    }

    /// A run of nothing leads nowhere, and a batch takes one to twenty deposits.
    pub proof fn deposit_batches_are_bounded(
        self,
        ledger: Ledger,
        registry: RegistryView,
        deposits: Seq<(Address, i128)>,
    )
        ensures
            ({
                let nothing = self.deposit_run(ledger, registry, Seq::empty());
                let batch = self.deposit_batch(ledger, registry, deposits);
                &&& nothing is Ok
                &&& nothing->Ok_0.state == self
                &&& nothing->Ok_0.minted.len() == 0
                &&& nothing->Ok_0.effects.len() == 0
                &&& deposits.len() == 0 ==> batch is Err && batch->Err_0
                    == VaultError::EmptyBatchDeposit
                &&& deposits.len() > 20 ==> batch is Err && batch->Err_0
                    == VaultError::BatchTooLarge
                &&& 1 <= deposits.len() <= 20 ==> batch == self.deposit_run(
                    ledger,
                    registry,
                    deposits,
                )
            }),
    {
    }

    /// A run of fundings goes on exactly where the next one is of a project that has not come up
    /// yet and is accepted in the state that the ones before have led to.
    pub proof fn fundings_run_one_by_one(
        self,
        now: u64,
        registry: RegistryView,
        fundings: Seq<(u32, i128)>,
        project_id: u32,
        paid: i128,
    )
        ensures
            ({
                let before = self.fund_run(now, registry, fundings);
                let run = self.fund_run(now, registry, fundings.push((project_id, paid)));
                let state = before->Ok_0.state;
                let refusal = state.fund_refusal(registry, project_id, paid as int);
                let again = exists|i: int|
                    0 <= i < fundings.len() && (#[trigger] fundings[i]).0 == project_id;
                &&& run is Ok <==> before is Ok && !again && refusal is None
                &&& before is Err ==> run is Err && run->Err_0 == before->Err_0
                &&& before is Ok && again ==> run is Err && run->Err_0
                    == VaultError::DuplicateProjectId
                &&& before is Ok && !again && refusal is Some ==> run is Err && Some(run->Err_0)
                    == refusal
                &&& run is Ok ==> {
                    &&& run->Ok_0.state == state.after_funding(
                        now,
                        registry,
                        project_id,
                        paid as int,
                    )
                    &&& run->Ok_0.effects == before->Ok_0.effects + fund_effects(
                        state.settings.vault,
                        registry,
                        project_id,
                        paid,
                    )
                }
            }),
    {
        assert(fundings.push((project_id, paid)).drop_last() =~= fundings);
    }

    /// A run of nothing leads nowhere. A batch takes one to twenty fundings, and approvals that
    /// carry it.
    pub proof fn funding_batches_are_bounded(
        self,
        now: u64,
        registry: RegistryView,
        fundings: Seq<(u32, i128)>,
        approval: Result<(), ApprovalError>,
    )
        ensures
            ({
                let nothing = self.fund_run(now, registry, Seq::empty());
                let batch = self.fund_batch(now, registry, fundings, approval);
                &&& nothing is Ok
                &&& nothing->Ok_0.state == self
                &&& nothing->Ok_0.effects.len() == 0
                &&& fundings.len() == 0 ==> batch is Err && batch->Err_0
                    == VaultError::EmptyBatchFunding
                &&& fundings.len() > 20 ==> batch is Err && batch->Err_0
                    == VaultError::BatchTooLarge
                &&& 1 <= fundings.len() <= 20 && (self.settings.owner is None || approval is Err)
                    ==> batch is Err
                &&& 1 <= fundings.len() <= 20 && self.settings.owner is None ==> batch->Err_0
                    == VaultError::OwnerNotSet
                &&& 1 <= fundings.len() <= 20 && self.settings.owner is Some && approval is Ok
                    ==> batch == self.fund_run(now, registry, fundings)
                &&& batch_size_refusal(fundings.len()) is None <==> 1 <= fundings.len() <= 20
            }),
    {
    }
}

} // verus!
