//! Administration: versions, ownership, the multi-signature, pausing.

use crate::constants::STATE_VERSION;
use crate::guards::{config_error, first, owner_refusal, pause_refusal};
use crate::state::{InvestmentVault, Settings, VaultState};
use crate::types::{Address, ConfigError, Effect, Event, Outcome, VaultError};
use vstd::prelude::*;

verus! {

impl Settings {
    /// These settings, paused or not.
    pub open spec fn pausing(self, paused: bool) -> Settings {
        Settings { paused, ..self }
    }
}

/// Why a migration from a version is refused.
pub open spec fn migration_refusal(s: Settings, from_version: u32) -> Option<VaultError> {
    first(
        owner_refusal(s),
        if s.state_version != from_version || s.state_version > STATE_VERSION {
            Some(VaultError::UnsupportedStateVersion)
        } else {
            None
        },
    )
}

/// Why a multi-signature configuration is refused, given the outcome of its check.
pub open spec fn multisig_refusal(s: Settings, check: Result<(), ConfigError>) -> Option<
    VaultError,
> {
    first(
        owner_refusal(s),
        first(
            pause_refusal(s),
            match check {
                Ok(_) => None,
                Err(e) => Some(config_error(e)),
            },
        ),
    )
}

/// Why `caller` may not act as the emergency admin.
pub open spec fn emergency_refusal(s: Settings, caller: Address) -> Option<VaultError> {
    if s.is_emergency_admin(caller) {
        None
    } else {
        Some(VaultError::NotEmergencyAdmin)
    }
}

impl InvestmentVault {
    /// The version of the state layout that this build supports.
    pub fn state_version() -> (r: u32)
        ensures
            r == STATE_VERSION,
    {
        STATE_VERSION
    }

    /// The version that is recorded; 0 where none is.
    pub fn stored_state_version(&self) -> (r: u32)
        ensures
            r == self.settings.state_version,
    {
        self.settings.state_version
    }

    /// Bring the state from `from_version` to the current version. The value is the version
    /// reached.
    pub fn migrate_state(&mut self, from_version: u32) -> (r: Result<Outcome<u32>, VaultError>)
        ensures
            old(self)@.well_formed() ==> final(self)@.well_formed(),
            match r {
                Ok(out) => {
                    &&& migration_refusal(old(self).settings, from_version) is None
                    &&& out.value == STATE_VERSION
                    &&& final(self)@ == old(self)@.with_settings(
                        Settings { state_version: STATE_VERSION, ..old(self).settings },
                    )
                    &&& out.effects@ == seq![old(self).settings.owner_auth()]
                },
                Err(e) => {
                    &&& migration_refusal(old(self).settings, from_version) == Some(e)
                    &&& *final(self) == *old(self)
                },
            },
    {
        let owner = self.require_owner()?;
        let current: u32 = self.settings.state_version;
        if current != from_version || current > STATE_VERSION {
            return Err(VaultError::UnsupportedStateVersion);
        }
        self.settings.state_version = STATE_VERSION;
        let effects = vec![Effect::RequireAuth(owner)];
        Ok(Outcome { value: STATE_VERSION, effects })
    }

    /// Configure the signers and the threshold of the multi-signature, given the outcome of the
    /// check of the configuration.
    pub fn set_multisig_admin(
        &mut self,
        signers: Vec<Address>,
        threshold: u32,
        check: Result<(), ConfigError>,
    ) -> (r: Result<Outcome<()>, VaultError>)
        ensures
            old(self)@.well_formed() ==> final(self)@.well_formed(),
            match r {
                Ok(out) => {
                    &&& multisig_refusal(old(self).settings, check) is None
                    &&& final(self)@ == (VaultState {
                        settings: Settings {
                            multisig_threshold: threshold,
                            ..old(self).settings
                        },
                        multisig_signers: signers@,
                        ..old(self)@
                    })
                    &&& out.effects@ == seq![old(self).settings.owner_auth()]
                },
                Err(e) => {
                    &&& multisig_refusal(old(self).settings, check) == Some(e)
                    &&& *final(self) == *old(self)
                },
            },
    {
        let owner = self.require_owner()?;
        self.require_not_paused()?;
        InvestmentVault::validate_multisig_config(check)?;
        self.multisig_signers = signers;
        self.settings.multisig_threshold = threshold;
        let effects = vec![Effect::RequireAuth(owner)];
        Ok(Outcome { value: (), effects })
    }

    /// The signers and the threshold of the multi-signature.
    pub fn get_multisig_admin(&self) -> (r: (Vec<Address>, u32))
        ensures
            r.0@ == self@.multisig_signers,
            r.1 == self.settings.multisig_threshold,
    {
        let signers = self.multisig_signers.clone();
        assert(signers@ =~= self.multisig_signers@);
        (signers, self.settings.multisig_threshold)
    }

    /// Propose `new_owner`, who may accept up to a ledger.
    pub fn transfer_ownership(&self, new_owner: Address, live_until_ledger: u32) -> (r: Result<
        Outcome<()>,
        VaultError,
    >)
        ensures
            match r {
                Ok(out) => {
                    &&& owner_refusal(self.settings) is None
                    &&& out.effects@ == seq![
                        Effect::ProposeOwner { new_owner, live_until_ledger },
                        Effect::Emit(
                            Event::OwnershipTransferred {
                                old_owner: self.settings.owner->Some_0,
                                new_owner,
                            },
                        ),
                    ]
                },
                Err(e) => owner_refusal(self.settings) == Some(e),
            },
    {
        let old_owner = self.require_owner()?;
        let effects = vec![
            Effect::ProposeOwner { new_owner, live_until_ledger },
            Effect::Emit(Event::OwnershipTransferred { old_owner, new_owner }),
        ];
        Ok(Outcome { value: (), effects })
    }

    /// Replace the code of the vault.
    pub fn upgrade(&self, new_wasm_hash: [u8; 32]) -> (r: Result<Outcome<()>, VaultError>)
        ensures
            match r {
                Ok(out) => {
                    &&& owner_refusal(self.settings) is None
                    &&& out.effects@ == seq![
                        self.settings.owner_auth(),
                        Effect::UpdateWasm { hash: new_wasm_hash },
                    ]
                },
                Err(e) => owner_refusal(self.settings) == Some(e),
            },
    {
        let owner = self.require_owner()?;
        let effects = vec![
            Effect::RequireAuth(owner),
            Effect::UpdateWasm { hash: new_wasm_hash },
        ];
        Ok(Outcome { value: (), effects })
    }

    /// Pause the vault.
    pub fn pause(&mut self) -> (r: Result<Outcome<()>, VaultError>)
        ensures
            old(self)@.well_formed() ==> final(self)@.well_formed(),
            match r {
                Ok(out) => {
                    &&& owner_refusal(old(self).settings) is None
                    &&& final(self)@ == old(self)@.with_settings(
                        old(self).settings.pausing(true),
                    )
                    &&& out.effects@ == seq![
                        old(self).settings.owner_auth(),
                        Effect::Emit(Event::Paused),
                    ]
                },
                Err(e) => {
                    &&& owner_refusal(old(self).settings) == Some(e)
                    &&& *final(self) == *old(self)
                },
            },
    {
        let owner = self.require_owner()?;
        self.settings.paused = true;
        let effects = vec![Effect::RequireAuth(owner), Effect::Emit(Event::Paused)];
        Ok(Outcome { value: (), effects })
    }

    /// End the pause of the vault.
    pub fn unpause(&mut self) -> (r: Result<Outcome<()>, VaultError>)
        ensures
            old(self)@.well_formed() ==> final(self)@.well_formed(),
            match r {
                Ok(out) => {
                    &&& owner_refusal(old(self).settings) is None
                    &&& final(self)@ == old(self)@.with_settings(
                        old(self).settings.pausing(false),
                    )
                    &&& out.effects@ == seq![
                        old(self).settings.owner_auth(),
                        Effect::Emit(Event::Unpaused),
                    ]
                },
                Err(e) => {
                    &&& owner_refusal(old(self).settings) == Some(e)
                    &&& *final(self) == *old(self)
                },
            },
    {
        let owner = self.require_owner()?;
        self.settings.paused = false;
        let effects = vec![Effect::RequireAuth(owner), Effect::Emit(Event::Unpaused)];
        Ok(Outcome { value: (), effects })
    }

    pub fn is_paused(&self) -> (r: bool)
        ensures
            r == self.settings.paused,
    {
        self.settings.paused
    }

    /// Name an emergency admin, or none. It may pause and unpause, and nothing else.
    pub fn set_emergency_admin(&mut self, emergency_admin: Option<Address>) -> (r: Result<
        Outcome<()>,
        VaultError,
    >)
        ensures
            old(self)@.well_formed() ==> final(self)@.well_formed(),
            match r {
                Ok(out) => {
                    &&& owner_refusal(old(self).settings) is None
                    &&& final(self)@ == old(self)@.with_settings(
                        Settings { emergency_admin, ..old(self).settings },
                    )
                    &&& out.effects@ == seq![
                        old(self).settings.owner_auth(),
                        Effect::Emit(Event::EmergencyAdminChanged { emergency_admin }),
                    ]
                },
                Err(e) => {
                    &&& owner_refusal(old(self).settings) == Some(e)
                    &&& *final(self) == *old(self)
                },
            },
    {
        let owner = self.require_owner()?;
        self.settings.emergency_admin = emergency_admin;
        let effects = vec![
            Effect::RequireAuth(owner),
            Effect::Emit(Event::EmergencyAdminChanged { emergency_admin }),
        ];
        Ok(Outcome { value: (), effects })
    }

    pub fn get_emergency_admin(&self) -> (r: Option<Address>)
        ensures
            r == self.settings.emergency_admin,
    {
        self.settings.emergency_admin
    }

    /// Pause the vault as the emergency admin.
    pub fn emergency_pause(&mut self, caller: Address) -> (r: Result<Outcome<()>, VaultError>)
        ensures
            old(self)@.well_formed() ==> final(self)@.well_formed(),
            match r {
                Ok(out) => {
                    &&& emergency_refusal(old(self).settings, caller) is None
                    &&& final(self)@ == old(self)@.with_settings(
                        old(self).settings.pausing(true),
                    )
                    &&& out.effects@ == seq![
                        Effect::RequireAuth(caller),
                        Effect::Emit(Event::Paused),
                    ]
                },
                Err(e) => {
                    &&& emergency_refusal(old(self).settings, caller) == Some(e)
                    &&& *final(self) == *old(self)
                },
            },
    {
        self.require_emergency_admin(caller)?;
        self.settings.paused = true;
        let effects = vec![Effect::RequireAuth(caller), Effect::Emit(Event::Paused)];
        Ok(Outcome { value: (), effects })
    }

    /// End the pause of the vault as the emergency admin.
    pub fn emergency_unpause(&mut self, caller: Address) -> (r: Result<Outcome<()>, VaultError>)
        ensures
            old(self)@.well_formed() ==> final(self)@.well_formed(),
            match r {
                Ok(out) => {
                    &&& emergency_refusal(old(self).settings, caller) is None
                    &&& final(self)@ == old(self)@.with_settings(
                        old(self).settings.pausing(false),
                    )
                    &&& out.effects@ == seq![
                        Effect::RequireAuth(caller),
                        Effect::Emit(Event::Unpaused),
                    ]
                },
                Err(e) => {
                    &&& emergency_refusal(old(self).settings, caller) == Some(e)
                    &&& *final(self) == *old(self)
                },
            },
    {
        self.require_emergency_admin(caller)?;
        self.settings.paused = false;
        let effects = vec![Effect::RequireAuth(caller), Effect::Emit(Event::Unpaused)];
        Ok(Outcome { value: (), effects })
    }
}

} // verus!
