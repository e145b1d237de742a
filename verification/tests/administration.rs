use investment_vault::types::{Address, ConfigError, Effect, Event, VaultError};
use investment_vault::{
    InvestmentVault, CONTRACT_DESCRIPTION, CONTRACT_NAME, CONTRACT_VERSION,
};

fn addr(id: u64) -> Address {
    Address { id }
}

fn new_vault() -> InvestmentVault {
    InvestmentVault::__constructor(addr(VAULT), addr(OWNER), addr(USDC), addr(REGISTRY), 0).value
}

const VAULT: u64 = 1;
const OWNER: u64 = 2;
const USDC: u64 = 3;
const REGISTRY: u64 = 4;

#[test]
fn the_contract_is_named() {
    assert_eq!(CONTRACT_NAME, "Investment Vault");
    assert_eq!(CONTRACT_DESCRIPTION, "Heliobond Investment Vault");
    assert_eq!(CONTRACT_VERSION, "1.0.0");
    assert_eq!(InvestmentVault::state_version(), 1);
    assert_eq!(InvestmentVault::max_hbs_supply(), 10_000_000_000 * 10_000_000);
}

#[test]
fn migration_goes_from_the_recorded_version() {
    let mut v = new_vault();
    v.settings.state_version = 0;
    assert_eq!(v.migrate_state(1).unwrap_err(), VaultError::UnsupportedStateVersion);
    let out = v.migrate_state(0).unwrap();
    assert_eq!(out.value, 1);
    assert_eq!(out.effects, vec![Effect::RequireAuth(addr(OWNER))]);
    assert_eq!(v.stored_state_version(), 1);
    assert_eq!(v.migrate_state(1).unwrap().value, 1);
    assert_eq!(v.migrate_state(0).unwrap_err(), VaultError::UnsupportedStateVersion);
    v.settings.state_version = 2;
    assert_eq!(v.migrate_state(2).unwrap_err(), VaultError::UnsupportedStateVersion);
}

#[test]
fn the_owner_pauses_and_unpauses() {
    let mut v = new_vault();
    assert!(!v.is_paused());
    let out = v.pause().unwrap();
    assert!(v.is_paused());
    assert_eq!(out.effects, vec![Effect::RequireAuth(addr(OWNER)), Effect::Emit(Event::Paused)]);
    assert_eq!(v.set_withdrawal_window(5).unwrap_err(), VaultError::Paused);
    let out = v.unpause().unwrap();
    assert!(!v.is_paused());
    assert_eq!(out.effects, vec![Effect::RequireAuth(addr(OWNER)), Effect::Emit(Event::Unpaused)]);
    assert!(v.set_withdrawal_window(5).is_ok());
    v.settings.owner = None;
    assert_eq!(v.pause().unwrap_err(), VaultError::OwnerNotSet);
    assert_eq!(v.unpause().unwrap_err(), VaultError::OwnerNotSet);
}

#[test]
fn the_emergency_admin_pauses_and_nobody_else_does() {
    let mut v = new_vault();
    assert_eq!(v.emergency_pause(addr(50)).unwrap_err(), VaultError::NotEmergencyAdmin);
    let out = v.set_emergency_admin(Some(addr(50))).unwrap();
    assert_eq!(
        out.effects[1],
        Effect::Emit(Event::EmergencyAdminChanged { emergency_admin: Some(addr(50)) })
    );
    assert_eq!(v.get_emergency_admin(), Some(addr(50)));
    assert!(v.health_check().unwrap().has_emergency_admin);
    assert_eq!(v.emergency_pause(addr(OWNER)).unwrap_err(), VaultError::NotEmergencyAdmin);
    let out = v.emergency_pause(addr(50)).unwrap();
    assert_eq!(out.effects, vec![Effect::RequireAuth(addr(50)), Effect::Emit(Event::Paused)]);
    assert!(v.is_paused());
    assert_eq!(v.emergency_unpause(addr(51)).unwrap_err(), VaultError::NotEmergencyAdmin);
    v.emergency_unpause(addr(50)).unwrap();
    assert!(!v.is_paused());
    v.set_emergency_admin(None).unwrap();
    assert_eq!(v.get_emergency_admin(), None);
    assert_eq!(v.emergency_pause(addr(50)).unwrap_err(), VaultError::NotEmergencyAdmin);
}

#[test]
fn the_multisig_is_configured_as_checked() {
    let mut v = new_vault();
    assert_eq!(v.get_multisig_admin(), (Vec::new(), 0));
    for (e, expected) in [
        (ConfigError::TooManySigners, VaultError::TooManyMultiSigSigners),
        (ConfigError::InvalidThreshold, VaultError::InvalidMultiSigThreshold),
        (ConfigError::DuplicateSigner, VaultError::DuplicateApproval),
    ] {
        assert_eq!(v.set_multisig_admin(vec![addr(5)], 1, Err(e)).unwrap_err(), expected);
    }
    let out = v.set_multisig_admin(vec![addr(5), addr(6)], 2, Ok(())).unwrap();
    assert_eq!(out.effects, vec![Effect::RequireAuth(addr(OWNER))]);
    assert_eq!(v.get_multisig_admin(), (vec![addr(5), addr(6)], 2));
    v.pause().unwrap();
    assert_eq!(v.set_multisig_admin(Vec::new(), 0, Ok(())).unwrap_err(), VaultError::Paused);
}

#[test]
fn ownership_is_offered_and_reported() {
    let mut v = new_vault();
    let out = v.transfer_ownership(addr(8), 1_234).unwrap();
    assert_eq!(
        out.effects,
        vec![
            Effect::ProposeOwner { new_owner: addr(8), live_until_ledger: 1_234 },
            Effect::Emit(Event::OwnershipTransferred { old_owner: addr(OWNER), new_owner: addr(8) }),
        ]
    );
    v.settings.owner = None;
    assert_eq!(v.transfer_ownership(addr(8), 1).unwrap_err(), VaultError::OwnerNotSet);
}

#[test]
fn the_owner_replaces_the_code() {
    let v = new_vault();
    let out = v.upgrade([7; 32]).unwrap();
    assert_eq!(
        out.effects,
        vec![Effect::RequireAuth(addr(OWNER)), Effect::UpdateWasm { hash: [7; 32] }]
    );
}

#[test]
fn the_management_fee_is_capped() {
    let mut v = new_vault();
    assert_eq!(v.set_management_fee(501, addr(9)).unwrap_err(), VaultError::FeeExceedsMaximum);
    let out = v.set_management_fee(500, addr(9)).unwrap();
    assert_eq!(v.get_management_fee_bps(), Ok(500));
    assert_eq!(
        out.effects,
        vec![
            Effect::RequireAuth(addr(OWNER)),
            Effect::Emit(Event::ManagementFeeSet { recipient: addr(9), fee_bps: 500 }),
        ]
    );
    let again = v.set_management_fee(500, addr(9)).unwrap();
    assert_eq!(again.effects, vec![Effect::RequireAuth(addr(OWNER))]);
    v.settings.state_version = 0;
    assert_eq!(v.get_management_fee_bps(), Err(VaultError::UnsupportedStateVersion));
    assert_eq!(
        v.set_management_fee(1, addr(9)).unwrap_err(),
        VaultError::UnsupportedStateVersion
    );
}

#[test]
fn a_volume_tier_is_a_discount() {
    let mut v = new_vault();
    assert_eq!(v.get_volume_fee_tier(), Ok((0, 0)));
    assert_eq!(v.set_volume_fee_tier(1_000, 10).unwrap_err(), VaultError::FeeExceedsMaximum);
    v.set_management_fee(100, addr(9)).unwrap();
    assert_eq!(v.set_volume_fee_tier(1_000, 501).unwrap_err(), VaultError::FeeExceedsMaximum);
    assert_eq!(v.set_volume_fee_tier(1_000, 101).unwrap_err(), VaultError::FeeExceedsMaximum);
    v.set_volume_fee_tier(1_000, 100).unwrap();
    assert_eq!(v.get_volume_fee_tier(), Ok((1_000, 100)));
    v.set_volume_fee_tier(0, 500).unwrap();
    assert_eq!(v.get_volume_fee_tier(), Ok((0, 0)));
}

#[test]
fn the_withdrawal_window_is_one_ledger_until_it_is_set() {
    let mut v = new_vault();
    assert_eq!(v.get_withdrawal_window(), 1);
    let out = v.set_withdrawal_window(720).unwrap();
    assert_eq!(v.get_withdrawal_window(), 720);
    assert_eq!(out.effects[1], Effect::Emit(Event::WithdrawalWindowSet { ledgers: 720 }));
}

#[test]
fn the_transaction_limit_is_not_negative() {
    let mut v = new_vault();
    assert_eq!(v.max_transaction_amount(), Ok(0));
    assert_eq!(
        v.set_max_transaction_amount(-1).unwrap_err(),
        VaultError::NegativeMaxTransactionAmount
    );
    let out = v.set_max_transaction_amount(5).unwrap();
    assert_eq!(out.effects[1], Effect::Emit(Event::MaxTransactionAmountSet { amount: 5 }));
    assert_eq!(v.set_max_transaction_amount(5).unwrap().effects.len(), 1);
    assert_eq!(v.max_transaction_amount(), Ok(5));
}

#[test]
fn the_share_token_is_listed_once() {
    let mut v = new_vault();
    assert_eq!(v.is_trading_enabled(), Ok(false));
    let out = v.enable_secondary_trading().unwrap();
    assert_eq!(
        out.effects,
        vec![
            Effect::RequireAuth(addr(OWNER)),
            Effect::Emit(Event::TradingEnabled { enabled: true }),
        ]
    );
    assert_eq!(v.enable_secondary_trading().unwrap().effects.len(), 1);
    assert_eq!(v.is_trading_enabled(), Ok(true));
    let info = v.get_hbs_token_info().unwrap();
    assert_eq!(info.name, "Heliobond Shares");
    assert_eq!(info.symbol, "HBS");
    assert_eq!(info.decimals, 7);
    assert!(info.trading_enabled);
    assert_eq!(v.accepted_asset(), Ok(addr(USDC)));
    v.settings.state_version = 4;
    assert_eq!(v.accepted_asset(), Err(VaultError::UnsupportedStateVersion));
    assert_eq!(v.is_trading_enabled(), Err(VaultError::UnsupportedStateVersion));
    assert_eq!(v.get_hbs_token_info(), Err(VaultError::UnsupportedStateVersion));
}
