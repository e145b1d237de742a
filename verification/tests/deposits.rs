use investment_vault::constants::{MAX_DEPOSIT, MAX_HBS_SUPPLY, MIN_DEPOSIT};
use investment_vault::deposits::calculate_dynamic_fee_bps;
use investment_vault::types::{Address, Effect, Event, Ledger, ProjectData, VaultError, VolumeTier};
use investment_vault::{InvestmentVault, Registry};
use std::collections::BTreeMap;

fn addr(id: u64) -> Address {
    Address { id }
}

fn at(timestamp: u64, sequence: u32) -> Ledger {
    Ledger { timestamp, sequence }
}

fn new_vault() -> InvestmentVault {
    InvestmentVault::__constructor(addr(VAULT), addr(OWNER), addr(USDC), addr(REGISTRY), 0).value
}

const VAULT: u64 = 1;
const OWNER: u64 = 2;
const USDC: u64 = 3;
const REGISTRY: u64 = 4;

const ALICE: u64 = 10;
const BOB: u64 = 11;
const BUILDER: u64 = 20;

fn no_projects() -> Registry {
    Registry { paused: false, total_projects: 0, projects: BTreeMap::new() }
}

/// One project, with a rate of 80 + 60 out of 200.
fn one_project() -> Registry {
    let mut projects = BTreeMap::new();
    projects.insert(
        1,
        ProjectData { owner: addr(BUILDER), credit_quality: 80, green_impact: 60 },
    );
    Registry { paused: false, total_projects: 1, projects }
}

const NOW: Ledger = Ledger { timestamp: 1_000_000, sequence: 100 };

#[test]
fn a_new_vault_is_empty() {
    let out = InvestmentVault::__constructor(addr(VAULT), addr(OWNER), addr(USDC), addr(REGISTRY), 5);
    let v = out.value;
    assert_eq!(v.settings.owner, Some(addr(OWNER)));
    assert_eq!(v.settings.state_version, 1);
    assert_eq!(v.settings.max_investment_per_project, 5_000_000 * 10_000_000);
    assert_eq!(v.settings.withdrawal_window_ledgers, 1);
    assert_eq!(v.settings.flash_loan_fee_bps, 30);
    assert_eq!(v.totals.usdc_balance, 5);
    assert_eq!(v.totals.total_supply, 0);
    assert!(v.share_balances.is_empty());
    assert_eq!(
        out.effects,
        vec![
            Effect::SetOwner(addr(OWNER)),
            Effect::CheckRegistry(addr(REGISTRY)),
            Effect::CheckAsset(addr(USDC)),
            Effect::SetShareMetadata {
                decimals: 7,
                name: "Heliobond Shares".to_string(),
                symbol: "HBS".to_string(),
            },
        ]
    );
}

#[test]
fn the_first_deposit_mints_one_for_one_after_the_premium() {
    let mut v = new_vault();
    let out = v.deposit(&NOW, &no_projects(), addr(ALICE), 2_000_000_000).unwrap();
    assert_eq!(out.value, 1_990_000_000);
    assert_eq!(v.totals.usdc_balance, 2_000_000_000);
    assert_eq!(v.totals.insurance_fund, 10_000_000);
    assert_eq!(v.totals.total_supply, 1_990_000_000);
    assert_eq!(v.totals.cached_total_assets, 2_000_000_000);
    assert_eq!(v.share_balances.get(&ALICE), Some(&1_990_000_000));
    assert_eq!(v.total_deposited.get(&ALICE), Some(&2_000_000_000));
    assert_eq!(v.last_deposit.get(&ALICE), Some(&1_000_000));
    assert_eq!(
        out.effects,
        vec![
            Effect::RequireAuth(addr(ALICE)),
            Effect::TransferUsdc { from: addr(ALICE), to: addr(VAULT), amount: 2_000_000_000 },
            Effect::ExtendDepositRecord {
                account: addr(ALICE),
                threshold: 518_400,
                extend_to: 6_312_000,
            },
            Effect::MintShares { to: addr(ALICE), amount: 1_990_000_000 },
            Effect::Emit(Event::Deposit {
                from: addr(ALICE),
                usdc_amount: 2_000_000_000,
                shares: 1_990_000_000,
            }),
        ]
    );
}

#[test]
fn a_later_deposit_is_priced_at_the_value_of_the_vault() {
    let mut v = new_vault();
    v.deposit(&NOW, &no_projects(), addr(ALICE), 2_000_000_000).unwrap();
    // 1_990_000_000 shares stand for 2_000_000_000 USDC.
    let out = v.deposit(&NOW, &no_projects(), addr(BOB), 4_000_000_000).unwrap();
    let investable: i128 = 4_000_000_000 - 20_000_000;
    assert_eq!(out.value, investable * 1_990_000_000 / 2_000_000_000);
    assert_eq!(out.value, 3_960_100_000);
    assert_eq!(v.totals.insurance_fund, 30_000_000);
}

#[test]
fn a_deposit_does_not_lower_the_value_of_a_share() {
    let mut v = new_vault();
    v.deposit(&NOW, &no_projects(), addr(ALICE), 2_000_000_000).unwrap();
    let (nav, supply) = (v.totals.cached_total_assets, v.totals.total_supply);
    v.deposit(&NOW, &no_projects(), addr(BOB), 3_333_333_333).unwrap();
    let (nav_after, supply_after) = (v.totals.cached_total_assets, v.totals.total_supply);
    assert!(nav * supply_after <= nav_after * supply);
}

#[test]
fn the_management_fee_goes_to_its_recipient() {
    let mut v = new_vault();
    v.set_management_fee(200, addr(77)).unwrap();
    let out = v.deposit(&NOW, &no_projects(), addr(ALICE), 10_000_000_000).unwrap();
    // 0.5% premium and 2% fee.
    assert_eq!(out.value, 10_000_000_000 - 50_000_000 - 200_000_000);
    assert_eq!(v.totals.usdc_balance, 9_800_000_000);
    assert_eq!(
        out.effects[2],
        Effect::TransferUsdc { from: addr(VAULT), to: addr(77), amount: 200_000_000 }
    );
    assert_eq!(v.totals.cached_total_assets, 10_000_000_000);
}

#[test]
fn a_volume_tier_discounts_large_deposits() {
    let mut v = new_vault();
    v.set_management_fee(200, addr(77)).unwrap();
    v.set_volume_fee_tier(5_000_000_000, 50).unwrap();
    let large = v.deposit(&NOW, &no_projects(), addr(ALICE), 5_000_000_000).unwrap();
    assert_eq!(
        large.effects[2],
        Effect::TransferUsdc { from: addr(VAULT), to: addr(77), amount: 25_000_000 }
    );
    let small = v.deposit(&NOW, &no_projects(), addr(ALICE), 4_999_999_999).unwrap();
    assert_eq!(
        small.effects[2],
        Effect::TransferUsdc { from: addr(VAULT), to: addr(77), amount: 99_999_999 }
    );
}

#[test]
fn the_dynamic_fee_starts_at_the_threshold() {
    let tier = Some(VolumeTier { threshold: 1_000, discounted_bps: 10 });
    assert_eq!(calculate_dynamic_fee_bps(999, 100, tier), 100);
    assert_eq!(calculate_dynamic_fee_bps(1_000, 100, tier), 10);
    assert_eq!(calculate_dynamic_fee_bps(1_000, 100, None), 100);
}

#[test]
fn deposits_are_held_to_their_limits() {
    let mut v = new_vault();
    let r = no_projects();
    let mut refusal = |amount: i128| v.deposit(&NOW, &r, addr(ALICE), amount).unwrap_err();
    assert_eq!(refusal(0), VaultError::AmountNotPositive);
    assert_eq!(refusal(-1), VaultError::AmountNotPositive);
    assert_eq!(refusal(MIN_DEPOSIT - 1), VaultError::DepositBelowMinimum);
    assert_eq!(refusal(MAX_DEPOSIT + 1), VaultError::DepositExceedsMaximum);
    assert!(v.deposit(&NOW, &r, addr(ALICE), MIN_DEPOSIT).is_ok());
    assert!(v.deposit(&NOW, &r, addr(ALICE), MAX_DEPOSIT).is_ok());
}

#[test]
fn a_transaction_limit_holds_for_deposits() {
    let mut v = new_vault();
    v.set_max_transaction_amount(2_000_000_000).unwrap();
    assert_eq!(
        v.deposit(&NOW, &no_projects(), addr(ALICE), 2_000_000_001).unwrap_err(),
        VaultError::ExceedsMaxTransactionAmount
    );
    assert!(v.deposit(&NOW, &no_projects(), addr(ALICE), 2_000_000_000).is_ok());
}

#[test]
fn a_paused_or_outdated_vault_takes_no_deposit() {
    let mut v = new_vault();
    v.settings.state_version = 0;
    assert_eq!(
        v.deposit(&NOW, &no_projects(), addr(ALICE), MIN_DEPOSIT).unwrap_err(),
        VaultError::UnsupportedStateVersion
    );
    v.settings.paused = true;
    assert_eq!(
        v.deposit(&NOW, &no_projects(), addr(ALICE), MIN_DEPOSIT).unwrap_err(),
        VaultError::Paused
    );
}

#[test]
fn a_fee_without_a_recipient_refuses_the_deposit() {
    let mut v = new_vault();
    v.settings.management_fee_bps = 100;
    assert_eq!(
        v.deposit(&NOW, &no_projects(), addr(ALICE), MIN_DEPOSIT).unwrap_err(),
        VaultError::FeeRecipientNotSet
    );
    assert_eq!(v.totals.usdc_balance, 0);
    assert_eq!(v.totals.total_supply, 0);
}

#[test]
fn the_supply_cap_holds_for_deposits() {
    let mut v = new_vault();
    v.totals.total_supply = MAX_HBS_SUPPLY - 994_999_999;
    assert_eq!(
        v.deposit(&NOW, &no_projects(), addr(ALICE), MIN_DEPOSIT).unwrap_err(),
        VaultError::MaxSupplyExceeded
    );
    v.totals.total_supply = MAX_HBS_SUPPLY - 995_000_000;
    assert!(v.deposit(&NOW, &no_projects(), addr(ALICE), MIN_DEPOSIT).is_ok());
    assert_eq!(v.totals.total_supply, MAX_HBS_SUPPLY);
}

#[test]
fn an_unknown_funded_project_leaves_the_vault_without_a_value() {
    let mut v = new_vault();
    v.project_investments.insert(1, 5);
    v.totals.total_investments = 5;
    let mut r = no_projects();
    r.total_projects = 1;
    assert_eq!(
        v.deposit(&NOW, &r, addr(ALICE), MIN_DEPOSIT).unwrap_err(),
        VaultError::ProjectNotFound
    );
    assert_eq!(v.get_expected_returns(&NOW, &r), Err(VaultError::ProjectNotFound));
}

#[test]
fn an_amount_out_of_range_refuses_the_deposit() {
    let mut v = new_vault();
    v.totals.usdc_balance = i128::MAX;
    assert_eq!(
        v.deposit(&NOW, &no_projects(), addr(ALICE), MIN_DEPOSIT).unwrap_err(),
        VaultError::ArithmeticOverflow
    );
}

#[test]
fn a_batch_does_what_its_deposits_do() {
    let mut batch = new_vault();
    let mut single = new_vault();
    let list = vec![(addr(ALICE), 2_000_000_000), (addr(BOB), 4_000_000_000)];
    let out = batch.batch_deposit(&NOW, &no_projects(), &list).unwrap();
    let a = single.deposit(&NOW, &no_projects(), addr(ALICE), 2_000_000_000).unwrap();
    let b = single.deposit(&NOW, &no_projects(), addr(BOB), 4_000_000_000).unwrap();
    assert_eq!(out.value, vec![a.value, b.value]);
    let mut effects = a.effects;
    effects.extend(b.effects);
    assert_eq!(out.effects, effects);
    assert_eq!(batch.totals, single.totals);
    assert_eq!(batch.share_balances, single.share_balances);
    assert_eq!(batch.last_deposit, single.last_deposit);
}

#[test]
fn a_batch_of_one_mints_once() {
    let mut v = new_vault();
    let out = v.batch_deposit(&NOW, &no_projects(), &vec![(addr(ALICE), MIN_DEPOSIT)]).unwrap();
    assert_eq!(out.value, vec![995_000_000]);
}

#[test]
fn a_batch_is_all_or_nothing() {
    let mut v = new_vault();
    let list = vec![(addr(ALICE), 2_000_000_000), (addr(BOB), 1)];
    assert_eq!(
        v.batch_deposit(&NOW, &no_projects(), &list).unwrap_err(),
        VaultError::DepositBelowMinimum
    );
    assert_eq!(v.totals, new_vault().totals);
    assert!(v.share_balances.is_empty());
    assert!(v.total_deposited.is_empty());
    assert!(v.last_deposit.is_empty());
}

#[test]
fn batches_of_deposits_are_neither_empty_nor_too_large() {
    let mut v = new_vault();
    let none: Vec<(Address, i128)> = Vec::new();
    assert_eq!(
        v.batch_deposit(&NOW, &no_projects(), &none).unwrap_err(),
        VaultError::EmptyBatchDeposit
    );
    let many = vec![(addr(ALICE), MIN_DEPOSIT); 21];
    assert_eq!(
        v.batch_deposit(&NOW, &no_projects(), &many).unwrap_err(),
        VaultError::BatchTooLarge
    );
    let most = vec![(addr(ALICE), MIN_DEPOSIT); 20];
    assert_eq!(v.batch_deposit(&NOW, &no_projects(), &most).unwrap().value.len(), 20);
}

#[test]
fn returns_accrue_with_time() {
    let mut v = new_vault();
    v.project_investments.insert(1, 2_000_000_000);
    v.investment_timestamps.insert(1, 1_000);
    let r = one_project();
    let year = 31_536_000;
    assert_eq!(v.get_expected_returns(&at(1_000, 1), &r), Ok(0));
    assert_eq!(v.get_expected_returns(&at(500, 1), &r), Ok(0));
    assert_eq!(v.get_expected_returns(&at(1_000 + year / 2, 1), &r), Ok(700_000_000));
    assert_eq!(v.get_expected_returns(&at(1_000 + year, 1), &r), Ok(1_400_000_000));
    assert_eq!(v.get_expected_returns(&at(1_000 + 2 * year, 1), &r), Ok(2_800_000_000));
}

#[test]
fn returns_accrue_from_time_zero_too() {
    let mut v = new_vault();
    v.project_investments.insert(1, 2_000_000_000);
    v.investment_timestamps.insert(1, 0);
    let r = one_project();
    assert_eq!(v.get_expected_returns(&at(0, 1), &r), Ok(0));
    assert_eq!(v.get_expected_returns(&at(31_536_000 / 2, 1), &r), Ok(700_000_000));
}

#[test]
fn a_vault_that_takes_its_own_fee_keeps_it() {
    let mut v = new_vault();
    v.set_management_fee(200, addr(VAULT)).unwrap();
    v.deposit(&NOW, &no_projects(), addr(ALICE), 2_000_000_000).unwrap();
    let (nav, supply) = (v.totals.usdc_balance, v.totals.total_supply);
    assert_eq!(nav, 2_000_000_000);
    v.deposit(&NOW, &no_projects(), addr(BOB), 3_333_333_333).unwrap();
    assert_eq!(v.totals.usdc_balance, nav + 3_333_333_333);
    assert!(nav * v.totals.total_supply <= v.totals.usdc_balance * supply);
}

#[test]
fn an_investment_without_a_time_counts_a_whole_year() {
    let mut v = new_vault();
    v.project_investments.insert(1, 2_000_000_000);
    assert_eq!(v.get_expected_returns(&NOW, &one_project()), Ok(1_400_000_000));
}

#[test]
fn the_value_is_liquid_usdc_and_investments_and_returns() {
    let mut v = new_vault();
    v.totals.usdc_balance = 300;
    v.totals.total_investments = 2_000;
    v.project_investments.insert(1, 2_000);
    assert_eq!(v.total_assets(&NOW, &one_project()), Ok(300 + 2_000 + 1_400));
    assert_eq!(v.totals.cached_total_assets, 3_700);
}

#[test]
fn conversions_round_down() {
    let mut v = new_vault();
    v.totals.usdc_balance = 1_000;
    v.totals.total_supply = 300;
    assert_eq!(v.convert_to_shares(&NOW, &no_projects(), 10), Ok(3));
    assert_eq!(v.convert_to_assets(&NOW, &no_projects(), 10), Ok(33));
    assert_eq!(v.convert_to_assets(&NOW, &no_projects(), 3), Ok(10));
    assert_eq!(v.convert_to_shares(&NOW, &no_projects(), -10), Ok(-3));
    v.settings.state_version = 2;
    assert_eq!(
        v.convert_to_shares(&NOW, &no_projects(), 10),
        Err(VaultError::UnsupportedStateVersion)
    );
    assert_eq!(
        v.convert_to_assets(&NOW, &no_projects(), 10),
        Err(VaultError::UnsupportedStateVersion)
    );
}

#[test]
fn an_empty_vault_converts_one_for_one_and_redeems_nothing() {
    let mut v = new_vault();
    assert_eq!(v.convert_to_shares(&NOW, &no_projects(), 123), Ok(123));
    assert_eq!(v.convert_to_assets(&NOW, &no_projects(), 123), Ok(0));
}

#[test]
fn buying_and_redeeming_gains_nothing() {
    let mut v = new_vault();
    v.totals.usdc_balance = 1_000_003;
    v.totals.total_supply = 777_777;
    for usdc in [1, 2, 3, 10, 999, 12_345] {
        let shares = v.convert_to_shares(&NOW, &no_projects(), usdc).unwrap();
        assert!(v.convert_to_assets(&NOW, &no_projects(), shares).unwrap() <= usdc);
    }
}

#[test]
fn more_usdc_buys_no_fewer_shares() {
    let mut v = new_vault();
    v.totals.usdc_balance = 1_000_003;
    v.totals.total_supply = 777_777;
    let mut last = 0;
    for usdc in 0..100 {
        let shares = v.convert_to_shares(&NOW, &no_projects(), usdc).unwrap();
        assert!(shares >= last);
        last = shares;
    }
    assert_eq!(last, 99 * 777_777 / 1_000_003);
}

#[test]
fn utilization_is_the_invested_part_of_the_capital() {
    let mut v = new_vault();
    assert_eq!(v.get_utilization_bps(), Ok(0));
    v.totals.usdc_balance = 300;
    v.totals.total_investments = 700;
    assert_eq!(v.get_utilization_bps(), Ok(7_000));
    let health = v.health_check().unwrap();
    assert_eq!(health.utilization_bps, 7_000);
    assert_eq!(health.state_version, 1);
    assert!(!health.is_paused);
    assert!(!health.has_emergency_admin);
    v.settings.state_version = 0;
    assert_eq!(v.get_utilization_bps(), Err(VaultError::UnsupportedStateVersion));
    assert_eq!(v.health_check(), Err(VaultError::UnsupportedStateVersion));
}
