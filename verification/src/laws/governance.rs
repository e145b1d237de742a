//! Who may do what, and when.

use crate::admin::{emergency_refusal, migration_refusal, multisig_refusal};
use crate::carbon::carbon_price_refusal;
use crate::constants::{
    MAX_FLASH_LOAN_FEE_BPS, MAX_INVESTMENT_PER_PROJECT, MAX_MANAGEMENT_FEE_BPS,
    MAX_MULTISIG_SIGNERS, MAX_SCORE, STATE_VERSION,
};
use crate::flash_loans::flash_fee_refusal;
use crate::guards::{
    approval_refusal, configure_refusal, owner_refusal, pause_refusal, sole_owner_refusal,
};
use crate::state::{initial_state, RegistryView, Settings, VaultState};
use crate::types::{Address, ApprovalError, ConfigError, Effect, Ledger, VaultError};
use vstd::prelude::*;

verus! {

impl VaultState {
    /// While the vault is paused, nobody deposits or withdraws, and nobody changes prices or fees
    /// or any other part of the configuration.
    pub proof fn a_pause_stops_the_vault(
        self,
        ledger: Ledger,
        registry: RegistryView,
        account: Address,
        amount: int,
        min_usdc_return: int,
        fee_bps: u32,
        price: i128,
    )
        requires
            self.settings.paused,
        ensures
            self.deposit_refusal(ledger, registry, account, amount) == Some(VaultError::Paused),
            self.withdraw_refusal(ledger, registry, account, amount, min_usdc_return) == Some(
                VaultError::Paused,
            ),
            carbon_price_refusal(self.settings, price) == Some(VaultError::Paused),
            pause_refusal(self.settings) == Some(VaultError::Paused),
            self.settings.owner is Some ==> configure_refusal(self.settings) == Some(
                VaultError::Paused,
            ),
            self.settings.owner is Some ==> flash_fee_refusal(self.settings, fee_bps) == Some(
                VaultError::Paused,
            ),
    {
    }

    /// Outside the current layout, the vault does not touch what it holds.
    pub proof fn an_unknown_layout_is_not_touched(
        self,
        ledger: Ledger,
        registry: RegistryView,
        from: Address,
        to: Address,
        project_id: u32,
        amount: int,
        min_usdc_return: int,
    )
        requires
            !self.settings.is_current(),
            !self.settings.paused,
        ensures
            ({
                let unsupported = Some(VaultError::UnsupportedStateVersion);
                &&& self.deposit_refusal(ledger, registry, from, amount) == unsupported
                &&& self.withdraw_refusal(ledger, registry, from, amount, min_usdc_return)
                    == unsupported
                &&& self.claim_refusal() == unsupported
                &&& self.fund_refusal(registry, project_id, amount) == unsupported
                &&& self.yield_refusal(from, amount) == unsupported
                &&& self.yield_claim_refusal(from) == unsupported
                &&& self.insurance_refusal(project_id, to, amount) == unsupported
                &&& self.transfer_refusal(from, to, amount) == unsupported
                &&& self.bridge_mint_refusal(to, amount) == unsupported
                &&& self.bridge_burn_refusal(from, amount) == unsupported
                &&& self.outbound_refusal(from, amount) == unsupported
                &&& self.core_refusal() == unsupported
                &&& self.flash_refusal(to, amount) == unsupported
                &&& self.issue_refusal(registry, to, project_id, amount) == unsupported
                &&& self.credit_transfer_refusal(from, to, amount) == unsupported
            }),
    {
    }
}

/// A call of the owner takes the authorization of the owner.
pub proof fn the_owner_authorizes(s: Settings, owner: Address)
    ensures
        s.owner == Some(owner) ==> s.owner_auth() == Effect::RequireAuth(owner),
        s.owner == Some(owner) ==> owner_refusal(s) is None,
        s.owner is None ==> owner_refusal(s) == Some(VaultError::OwnerNotSet),
        sole_owner_refusal(s) is None <==> s.owner is Some && s.multisig_threshold == 0,
        s.owner is None ==> sole_owner_refusal(s) == Some(VaultError::OwnerNotSet),
        s.owner is Some && s.multisig_threshold > 0 ==> sole_owner_refusal(s) == Some(
            VaultError::InsufficientApprovals,
        ),
{
}

/// Approvals that carry a call let it through, and others refuse it for their own reason. So does a
/// configuration of the multi-signature.
pub proof fn approvals_refuse_for_their_reason(
    s: Settings,
    approval: Result<(), ApprovalError>,
    check: Result<(), ConfigError>,
)
    ensures
        approval_refusal(s, approval) is None <==> s.owner is Some && approval is Ok,
        s.owner is None ==> approval_refusal(s, approval) == Some(VaultError::OwnerNotSet),
        s.owner is Some && approval is Err ==> approval_refusal(s, approval) == Some(
            match approval->Err_0 {
                ApprovalError::InvalidThreshold => VaultError::InvalidMultiSigThreshold,
                ApprovalError::DuplicateApproval => VaultError::DuplicateApproval,
                ApprovalError::NotSigner => VaultError::NotMultiSigSigner,
                ApprovalError::InsufficientApprovals => VaultError::InsufficientApprovals,
            },
        ),
        multisig_refusal(s, check) is None <==> s.owner is Some && !s.paused && check is Ok,
        s.owner is Some && s.paused ==> multisig_refusal(s, check) == Some(VaultError::Paused),
        s.owner is Some && !s.paused && check is Err ==> multisig_refusal(s, check) == Some(
            match check->Err_0 {
                ConfigError::TooManySigners => VaultError::TooManyMultiSigSigners,
                ConfigError::InvalidThreshold => VaultError::InvalidMultiSigThreshold,
                ConfigError::DuplicateSigner => VaultError::DuplicateApproval,
            },
        ),
{
}

/// A new vault belongs to its admin, is open, holds what it is given, and has issued, invested,
/// lent and queued nothing. Its fee on flash loans is 0.3%, its window one ledger, and its cap on a
/// project five million USDC.
pub proof fn a_new_vault_is_empty(
    vault: Address,
    admin: Address,
    usdc_sac: Address,
    registry: Address,
    usdc_balance: i128,
    account: Address,
    id: u32,
)
    ensures
        ({
            let new = initial_state(vault, admin, usdc_sac, registry, usdc_balance);
            let s = new.settings;
            &&& s.owner == Some(admin)
            &&& s.vault == vault && s.usdc_sac == usdc_sac && s.registry == registry
            &&& s.state_version == 1
            &&& !s.paused && !s.funding_round_active && !s.trading_enabled
            &&& s.emergency_admin is None && s.bridge is None && s.wormhole_core is None
            &&& s.carbon_oracle is None
            &&& s.management_fee_bps == 0 && s.management_fee_recipient is None
            &&& s.volume_tier is None
            &&& s.multisig_threshold == 0 && new.multisig_signers.len() == 0
            &&& s.min_credit_quality == 0 && s.min_green_impact == 0
            &&& s.max_investment_per_project == 50_000_000_000_000
            &&& s.withdrawal_window_ledgers == 1
            &&& s.flash_loan_fee_bps == 30
            &&& s.max_transaction_amount == 0 && s.carbon_credit_price == 0
            &&& new.totals.usdc_balance == usdc_balance
            &&& new.totals.total_supply == 0
            &&& new.totals.total_investments == 0
            &&& new.totals.insurance_fund == 0
            &&& new.totals.cached_total_assets == 0
            &&& new.totals.yield_per_share_accum == 0
            &&& new.totals.queue_head == 0 && new.totals.queue_tail == 0
            &&& new.totals.compliance_event_counter == 0
            &&& new.totals.reporting_snapshot is None
            &&& new.shares_of(account) == 0
            &&& new.credits_of(account) == 0
            &&& new.deposited_by(account) == 0
            &&& new.invested_in(id) == 0
            &&& !new.is_claimed(id)
            &&& new.yield_of(account) == Ok::<i128, VaultError>(0)
            &&& new.lock_expiry(account) == Ok::<u64, VaultError>(0)
        }),
{
}

/// The caps on rates, scores, signers and batches.
pub proof fn caps_are_as_announced()
    ensures
        MAX_MANAGEMENT_FEE_BPS == 500,
        MAX_FLASH_LOAN_FEE_BPS == 1_000,
        MAX_SCORE == 100,
        MAX_MULTISIG_SIGNERS == 10,
        MAX_INVESTMENT_PER_PROJECT == 50_000_000_000_000,
        STATE_VERSION == 1,
{
}

/// A pause that ends leaves the settings as they were.
pub proof fn a_pause_ends(s: Settings)
    requires
        !s.paused,
    ensures
        s.pausing(true).paused,
        s.pausing(true) == (Settings { paused: true, ..s }),
        s.pausing(true).pausing(false) == s,
{
}

/// The emergency admin, and nobody else, may pause without being the owner.
pub proof fn only_the_emergency_admin_acts_as_one(s: Settings, caller: Address)
    ensures
        emergency_refusal(s, caller) is None <==> s.emergency_admin == Some(caller),
        s.emergency_admin is None ==> emergency_refusal(s, caller) == Some(
            VaultError::NotEmergencyAdmin,
        ),
{
}

/// Once the multi-signature is on, the owner alone no longer funds projects, takes in yield or pays
/// out insurance.
pub proof fn the_multisig_closes_the_owners_way(s: Settings)
    requires
        s.multisig_enabled(),
    ensures
        s.owner is Some ==> sole_owner_refusal(s) == Some(VaultError::InsufficientApprovals),
        s.owner is None ==> sole_owner_refusal(s) == Some(VaultError::OwnerNotSet),
{
}

/// Migration is open to an owner, from the recorded version, where that is 0 or 1.
pub proof fn migration_is_accepted(s: Settings, from_version: u32)
    ensures
        migration_refusal(s, from_version) is None <==> s.owner is Some && s.state_version
            == from_version && from_version <= 1,
        s.owner is Some && migration_refusal(s, from_version) is Some ==> migration_refusal(
            s,
            from_version,
        ) == Some(VaultError::UnsupportedStateVersion),
{
}

/// Migration goes from the recorded version, and from no other, and ends at the current one.
pub proof fn migration_makes_the_layout_current(s: Settings, from_version: u32)
    requires
        migration_refusal(s, from_version) is None,
    ensures
        s.state_version == from_version,
        from_version <= STATE_VERSION,
        (Settings { state_version: STATE_VERSION, ..s }).is_current(),
        migration_refusal(Settings { state_version: STATE_VERSION, ..s }, STATE_VERSION) is None,
{
}

} // verus!
