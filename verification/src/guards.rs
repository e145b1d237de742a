//! The conditions that stand before the operations of the vault.

use crate::constants::{MIN_LOCK_PERIOD, STATE_VERSION};
use crate::state::{InvestmentVault, Settings, VaultState};
use crate::tables::{optional, optional_u64};
use crate::types::{Address, ApprovalError, ConfigError, Effect, Ledger, VaultError};
use vstd::prelude::*;

verus! {

impl Settings {
    /// The stored layout is the one that this build reads.
    pub open spec fn is_current(self) -> bool {
        self.state_version == STATE_VERSION
    }

    /// A configured limit on single transactions stands against `amount`. A limit of 0 is none.
    pub open spec fn over_transaction_limit(self, amount: int) -> bool {
        self.max_transaction_amount > 0 && amount > self.max_transaction_amount
    }

    /// `caller` is the configured emergency admin.
    pub open spec fn is_emergency_admin(self, caller: Address) -> bool {
        self.emergency_admin == Some(caller)
    }

    /// Administrative calls take more than the owner.
    pub open spec fn multisig_enabled(self) -> bool {
        self.multisig_threshold > 0
    }
}

/// The vault's error for an unacceptable multi-signature configuration.
pub open spec fn config_error(e: ConfigError) -> VaultError {
    match e {
        ConfigError::TooManySigners => VaultError::TooManyMultiSigSigners,
        ConfigError::InvalidThreshold => VaultError::InvalidMultiSigThreshold,
        ConfigError::DuplicateSigner => VaultError::DuplicateApproval,
    }
}

/// The vault's error for approvals that do not carry a call.
pub open spec fn approval_error(e: ApprovalError) -> VaultError {
    match e {
        ApprovalError::InvalidThreshold => VaultError::InvalidMultiSigThreshold,
        ApprovalError::DuplicateApproval => VaultError::DuplicateApproval,
        ApprovalError::NotSigner => VaultError::NotMultiSigSigner,
        ApprovalError::InsufficientApprovals => VaultError::InsufficientApprovals,
    }
}

/// The vault's answer to the outcome of an approval check.
pub open spec fn approval_refusal(s: Settings, approval: Result<(), ApprovalError>) -> Option<
    VaultError,
> {
    if s.owner is None {
        Some(VaultError::OwnerNotSet)
    } else {
        match approval {
            Ok(_) => None,
            Err(e) => Some(approval_error(e)),
        }
    }
}

/// Why a call of the owner is refused before it starts: there is no owner.
pub open spec fn owner_refusal(s: Settings) -> Option<VaultError> {
    if s.owner is None {
        Some(VaultError::OwnerNotSet)
    } else {
        None
    }
}

/// Why an owner's call, which the multi-signature takes the place of once it is enabled, is
/// refused before it starts.
pub open spec fn sole_owner_refusal(s: Settings) -> Option<VaultError> {
    if s.owner is None {
        Some(VaultError::OwnerNotSet)
    } else if s.multisig_enabled() {
        Some(VaultError::InsufficientApprovals)
    } else {
        None
    }
}

/// The first of two reasons.
pub open spec fn first(a: Option<VaultError>, b: Option<VaultError>) -> Option<VaultError> {
    if a is Some {
        a
    } else {
        b
    }
}

/// Why a call that is closed while the vault is paused is refused.
pub open spec fn pause_refusal(s: Settings) -> Option<VaultError> {
    if s.paused {
        Some(VaultError::Paused)
    } else {
        None
    }
}

/// Why a call that reads the stored layout is refused.
pub open spec fn version_refusal(s: Settings) -> Option<VaultError> {
    if s.is_current() {
        None
    } else {
        Some(VaultError::UnsupportedStateVersion)
    }
}

/// Why a change of the configuration is refused before it starts.
pub open spec fn configure_refusal(s: Settings) -> Option<VaultError> {
    first(owner_refusal(s), first(pause_refusal(s), version_refusal(s)))
}

impl Settings {
    /// The owner, who authorizes a call.
    pub open spec fn owner_auth(self) -> Effect {
        Effect::RequireAuth(self.owner->Some_0)
    }
}

impl VaultState {
    /// Whether `account` is within the lock period of its last deposit. `None` where the end of
    /// the period is beyond the range of time.
    pub open spec fn time_locked(self, ledger: Ledger, account: Address) -> Option<bool> {
        match optional(self.last_deposit, account.id) {
            Some(at) => if at + MIN_LOCK_PERIOD > u64::MAX {
                None
            } else {
                Some(ledger.timestamp < at + MIN_LOCK_PERIOD)
            },
            None => Some(false),
        }
    }

    /// Fewer ledgers than the withdrawal window have passed since the last deposit of `account`.
    pub open spec fn window_locked(self, ledger: Ledger, account: Address) -> bool {
        match optional(self.last_deposit_ledger, account.id) {
            Some(at) => ledger.sequence < at + self.settings.withdrawal_window_ledgers,
            None => false,
        }
    }

    /// Why the lock of `account` stands against a withdrawal.
    pub open spec fn lock_refusal(self, ledger: Ledger, account: Address) -> Option<VaultError> {
        match self.time_locked(ledger, account) {
            None => Some(VaultError::ArithmeticOverflow),
            Some(locked) => if locked || self.window_locked(ledger, account) {
                Some(VaultError::DepositLocked)
            } else {
                None
            },
        }
    }

    /// This state, with a deposit of `account` recorded now.
    pub open spec fn locked(self, ledger: Ledger, account: Address) -> VaultState {
        VaultState {
            last_deposit: self.last_deposit.insert(account.id, ledger.timestamp),
            last_deposit_ledger: self.last_deposit_ledger.insert(account.id, ledger.sequence),
            ..self
        }
    }
}

/// The result of a condition that refuses with `e`, if it does.
pub open spec fn refused(e: Option<VaultError>) -> Result<(), VaultError> {
    match e {
        Some(e) => Err(e),
        None => Ok(()),
    }
}

impl InvestmentVault {
    pub(crate) fn require_owner(&self) -> (r: Result<Address, VaultError>)
        ensures
            r == match self.settings.owner {
                Some(owner) => Ok::<Address, VaultError>(owner),
                None => Err(VaultError::OwnerNotSet),
            },
    {
        match self.settings.owner {
            Some(owner) => Ok(owner),
            None => Err(VaultError::OwnerNotSet),
        }
    }

    pub(crate) fn require_current_state(&self) -> (r: Result<(), VaultError>)
        ensures
            r == if self.settings.is_current() {
                Ok::<(), VaultError>(())
            } else {
                Err(VaultError::UnsupportedStateVersion)
            },
    {
        if self.settings.state_version != STATE_VERSION {
            return Err(VaultError::UnsupportedStateVersion);
        }
        Ok(())
    }

    pub(crate) fn require_not_paused(&self) -> (r: Result<(), VaultError>)
        ensures
            r == if self.settings.paused {
                Err::<(), VaultError>(VaultError::Paused)
            } else {
                Ok(())
            },
    {
        if self.settings.paused {
            return Err(VaultError::Paused);
        }
        Ok(())
    }

    /// The owner, who may change the configuration of a running vault.
    pub(crate) fn require_configurable(&self) -> (r: Result<Address, VaultError>)
        ensures
            match r {
                Ok(owner) => {
                    &&& configure_refusal(self.settings) is None
                    &&& self.settings.owner == Some(owner)
                },
                Err(e) => configure_refusal(self.settings) == Some(e),
            },
    {
        let owner = self.require_owner()?;
        self.require_not_paused()?;
        self.require_current_state()?;
        Ok(owner)
    }

    pub(crate) fn require_multisig_disabled(&self) -> (r: Result<(), VaultError>)
        ensures
            r == if self.settings.multisig_enabled() {
                Err::<(), VaultError>(VaultError::InsufficientApprovals)
            } else {
                Ok(())
            },
    {
        if self.settings.multisig_threshold > 0 {
            return Err(VaultError::InsufficientApprovals);
        }
        Ok(())
    }

    /// Turn the outcome of an approval check into the vault's own errors.
    pub fn require_admin_approval(&self, approval: Result<(), ApprovalError>) -> (r: Result<
        (),
        VaultError,
    >)
        ensures
            r == refused(approval_refusal(self.settings, approval)),
    {
        self.require_owner()?;
        match approval {
            Ok(()) => Ok(()),
            Err(ApprovalError::InvalidThreshold) => Err(VaultError::InvalidMultiSigThreshold),
            Err(ApprovalError::DuplicateApproval) => Err(VaultError::DuplicateApproval),
            Err(ApprovalError::NotSigner) => Err(VaultError::NotMultiSigSigner),
            Err(ApprovalError::InsufficientApprovals) => Err(VaultError::InsufficientApprovals),
        }
    }

    /// Turn the outcome of a check of a multi-signature configuration into the vault's own
    /// errors.
    pub fn validate_multisig_config(check: Result<(), ConfigError>) -> (r: Result<(), VaultError>)
        ensures
            r == match check {
                Ok(_) => Ok::<(), VaultError>(()),
                Err(e) => Err(config_error(e)),
            },
    {
        match check {
            Ok(()) => Ok(()),
            Err(ConfigError::TooManySigners) => Err(VaultError::TooManyMultiSigSigners),
            Err(ConfigError::InvalidThreshold) => Err(VaultError::InvalidMultiSigThreshold),
            Err(ConfigError::DuplicateSigner) => Err(VaultError::DuplicateApproval),
        }
    }

    pub(crate) fn check_max_transaction_amount(&self, amount: i128) -> (r: Result<(), VaultError>)
        ensures
            r == if self.settings.over_transaction_limit(amount as int) {
                Err::<(), VaultError>(VaultError::ExceedsMaxTransactionAmount)
            } else {
                Ok(())
            },
    {
        let max: i128 = self.settings.max_transaction_amount;
        if max > 0 && amount > max {
            return Err(VaultError::ExceedsMaxTransactionAmount);
        }
        Ok(())
    }

    pub(crate) fn require_emergency_admin(&self, caller: Address) -> (r: Result<(), VaultError>)
        ensures
            r == if self.settings.is_emergency_admin(caller) {
                Ok::<(), VaultError>(())
            } else {
                Err(VaultError::NotEmergencyAdmin)
            },
    {
        match self.settings.emergency_admin {
            Some(admin) => {
                if admin == caller {
                    return Ok(());
                }
                Err(VaultError::NotEmergencyAdmin)
            },
            None => Err(VaultError::NotEmergencyAdmin),
        }
    }

    /// Record the current ledger as the origin of the lock of `account`.
    pub(crate) fn lock_deposit(&mut self, ledger: &Ledger, account: Address)
        ensures
            final(self)@ == old(self)@.locked(*ledger, account),
    {
        broadcast use vstd::std_specs::btree::group_btree_axioms;

        self.last_deposit.insert(account.id, ledger.timestamp);
        self.last_deposit_ledger.insert(account.id, ledger.sequence);
    }

    pub(crate) fn check_deposit_lock(&self, ledger: &Ledger, account: Address) -> (r: Result<
        (),
        VaultError,
    >)
        ensures
            r == refused(self@.lock_refusal(*ledger, account)),
    {
        if let Some(at) = optional_u64(&self.last_deposit, account.id) {
            if at > u64::MAX - MIN_LOCK_PERIOD {
                return Err(VaultError::ArithmeticOverflow);
            }
            if ledger.timestamp < at + MIN_LOCK_PERIOD {
                return Err(VaultError::DepositLocked);
            }
        }
        if let Some(at) = optional_u64(&self.last_deposit_ledger, account.id) {
            let open_from: u64 = at as u64 + self.settings.withdrawal_window_ledgers as u64;
            if (ledger.sequence as u64) < open_from {
                return Err(VaultError::DepositLocked);
            }
        }
        Ok(())
    }
}

} // verus!
