//! The insurance fund.

use crate::flows::balanced;
use crate::guards::{approval_refusal, first, sole_owner_refusal};
use crate::shares::{after_payment, pay};
use crate::state::{InvestmentVault, Totals, VaultState};
use crate::tables::{entry, entry_u32};
use crate::types::{Address, ApprovalError, Effect, Event, Outcome, VaultError};
use vstd::prelude::*;

verus! {

impl VaultState {
    /// A claim for this project has been paid.
    pub open spec fn is_claimed(self, project_id: u32) -> bool {
        entry(self.insurance_claimed, project_id, false)
    }

    /// Why an insurance claim is refused.
    pub open spec fn insurance_refusal(self, project_id: u32, recipient: Address, paid: int) -> Option<
        VaultError,
    > {
        if !self.settings.is_current() {
            Some(VaultError::UnsupportedStateVersion)
        } else if paid <= 0 {
            Some(VaultError::ClaimAmountNotPositive)
        } else if self.settings.over_transaction_limit(paid) {
            Some(VaultError::ExceedsMaxTransactionAmount)
        } else if self.is_claimed(project_id) {
            Some(VaultError::InsuranceAlreadyClaimed)
        } else if paid > self.totals.insurance_fund {
            Some(VaultError::InsufficientInsurance)
        } else {
            match after_payment(
                self.totals.usdc_balance as int,
                self.settings.vault,
                recipient,
                paid,
            ) {
                Err(e) => Some(e),
                Ok(_) => None,
            }
        }
    }

    /// This state after an insurance claim.
    pub open spec fn after_insurance(self, project_id: u32, recipient: Address, paid: int) -> VaultState {
        VaultState {
            totals: Totals {
                usdc_balance: after_payment(
                    self.totals.usdc_balance as int,
                    self.settings.vault,
                    recipient,
                    paid,
                )->Ok_0,
                insurance_fund: (self.totals.insurance_fund - paid) as i128,
                ..self.totals
            },
            insurance_claimed: self.insurance_claimed.insert(project_id, true),
            ..self
        }
    }
}

/// What the host does for an insurance claim.
pub open spec fn insurance_effects(
    vault: Address,
    project_id: u32,
    recipient: Address,
    paid: i128,
) -> Seq<Effect> {
    seq![
        Effect::TransferUsdc { from: vault, to: recipient, amount: paid },
        Effect::Emit(Event::InsuranceClaimed { project_id, recipient, amount: paid }),
    ]
}

impl InvestmentVault {
    /// The USDC in the insurance fund.
    pub fn insurance_fund_balance(&self) -> (r: Result<i128, VaultError>)
        ensures
            r == if self.settings.is_current() {
                Ok(self.totals.insurance_fund)
            } else {
                Err(VaultError::UnsupportedStateVersion)
            },
    {
        self.require_current_state()?;
        Ok(self.totals.insurance_fund)
    }

    fn claim_insurance_internal(
        &mut self,
        project_id: u32,
        recipient: Address,
        amount: i128,
        effects: &mut Vec<Effect>,
    ) -> (r: Result<(), VaultError>)
        ensures
            match r {
                Ok(_) => {
                    &&& old(self)@.insurance_refusal(project_id, recipient, amount as int) is None
                    &&& final(self)@ == old(self)@.after_insurance(
                        project_id,
                        recipient,
                        amount as int,
                    )
                    &&& final(effects)@ == old(effects)@ + insurance_effects(
                        old(self).settings.vault,
                        project_id,
                        recipient,
                        amount,
                    )
                },
                Err(e) => {
                    &&& old(self)@.insurance_refusal(project_id, recipient, amount as int)
                        == Some(e)
                    &&& *final(self) == *old(self)
                },
            },
    {
        broadcast use vstd::std_specs::btree::group_btree_axioms;

        self.require_current_state()?;
        if amount <= 0 {
            return Err(VaultError::ClaimAmountNotPositive);
        }
        self.check_max_transaction_amount(amount)?;
        if entry_u32(&self.insurance_claimed, project_id, false) {
            return Err(VaultError::InsuranceAlreadyClaimed);
        }
        if amount > self.totals.insurance_fund {
            return Err(VaultError::InsufficientInsurance);
        }
        let vault = self.settings.vault;
        let held: i128 = pay(self.totals.usdc_balance, vault, recipient, amount)?;
        self.insurance_claimed.insert(project_id, true);
        self.totals.insurance_fund = self.totals.insurance_fund - amount;
        self.totals.usdc_balance = held;
        effects.push(Effect::TransferUsdc { from: vault, to: recipient, amount });
        effects.push(Effect::Emit(Event::InsuranceClaimed { project_id, recipient, amount }));
        assert(effects@ =~= old(effects)@ + insurance_effects(
            vault,
            project_id,
            recipient,
            amount,
        ));
        Ok(())
    }

    /// Pay `amount` out of the insurance fund for a defaulted project, at most once for each
    /// project. For the owner, while the multi-signature is off.
    pub fn claim_insurance(&mut self, project_id: u32, recipient: Address, amount: i128) -> (r:
        Result<Outcome<()>, VaultError>)
        ensures
            old(self)@.well_formed() ==> final(self)@.well_formed(),
            match r {
                Ok(out) => {
                    &&& balanced(old(self)@, final(self)@, out.effects@)
                    &&& sole_owner_refusal(old(self).settings) is None
                    &&& old(self)@.insurance_refusal(project_id, recipient, amount as int) is None
                    &&& final(self)@ == old(self)@.after_insurance(
                        project_id,
                        recipient,
                        amount as int,
                    )
                    &&& out.effects@ == seq![old(self).settings.owner_auth()] + insurance_effects(
                        old(self).settings.vault,
                        project_id,
                        recipient,
                        amount,
                    )
                },
                Err(e) => {
                    &&& Some(e) == first(
                        sole_owner_refusal(old(self).settings),
                        old(self)@.insurance_refusal(project_id, recipient, amount as int),
                    )
                    &&& *final(self) == *old(self)
                },
            },
    {
        broadcast use crate::flows::group_flows;

        let owner = self.require_owner()?;
        self.require_multisig_disabled()?;
        let mut effects: Vec<Effect> = Vec::new();
        effects.push(Effect::RequireAuth(owner));
        self.claim_insurance_internal(project_id, recipient, amount, &mut effects)?;
        assert(effects@ =~= seq![old(self).settings.owner_auth()] + insurance_effects(
            old(self).settings.vault,
            project_id,
            recipient,
            amount,
        ));
        Ok(Outcome { value: (), effects })
    }

    /// Pay `amount` out of the insurance fund, given the outcome of the check of the approvals.
    pub fn claim_insurance_with_approvals(
        &mut self,
        project_id: u32,
        recipient: Address,
        amount: i128,
        approval: Result<(), ApprovalError>,
    ) -> (r: Result<Outcome<()>, VaultError>)
        ensures
            old(self)@.well_formed() ==> final(self)@.well_formed(),
            match r {
                Ok(out) => {
                    &&& balanced(old(self)@, final(self)@, out.effects@)
                    &&& approval_refusal(old(self).settings, approval) is None
                    &&& old(self)@.insurance_refusal(project_id, recipient, amount as int) is None
                    &&& final(self)@ == old(self)@.after_insurance(
                        project_id,
                        recipient,
                        amount as int,
                    )
                    &&& out.effects@ == insurance_effects(
                        old(self).settings.vault,
                        project_id,
                        recipient,
                        amount,
                    )
                },
                Err(e) => {
                    &&& Some(e) == first(
                        approval_refusal(old(self).settings, approval),
                        old(self)@.insurance_refusal(project_id, recipient, amount as int),
                    )
                    &&& *final(self) == *old(self)
                },
            },
    {
        broadcast use crate::flows::group_flows;

        self.require_admin_approval(approval)?;
        let mut effects: Vec<Effect> = Vec::new();
        self.claim_insurance_internal(project_id, recipient, amount, &mut effects)?;
        assert(effects@ =~= insurance_effects(
            old(self).settings.vault,
            project_id,
            recipient,
            amount,
        ));
        Ok(Outcome { value: (), effects })
    }
}

} // verus!
