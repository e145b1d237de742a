use investment_vault::funding::check_batch_size;
use investment_vault::types::{
    Address, ApprovalError, Effect, Event, Ledger, ProjectData, VaultError,
};
use investment_vault::{InvestmentVault, Registry};
use std::collections::BTreeMap;

fn addr(id: u64) -> Address {
    Address { id }
}

fn new_vault() -> InvestmentVault {
    InvestmentVault::__constructor(addr(VAULT), addr(OWNER), addr(USDC), addr(REGISTRY), 0).value
}

const VAULT: u64 = 1;
const OWNER: u64 = 2;
const USDC: u64 = 3;
const REGISTRY: u64 = 4;
const BOB: u64 = 11;
const NOW: Ledger = Ledger { timestamp: 1_000_000, sequence: 100 };

const BUILDER: u64 = 20;

fn project(owner: u64, credit_quality: u32, green_impact: u32) -> ProjectData {
    ProjectData { owner: addr(owner), credit_quality, green_impact }
}

fn registry_of(list: &[ProjectData]) -> Registry {
    let mut projects = BTreeMap::new();
    for (i, p) in list.iter().enumerate() {
        projects.insert(i as u32 + 1, *p);
    }
    Registry { paused: false, total_projects: list.len() as u32, projects }
}

fn rich() -> InvestmentVault {
    let mut v = new_vault();
    v.totals.usdc_balance = 1_000_000;
    v.totals.insurance_fund = 100_000;
    v
}

#[test]
fn funding_pays_the_owner_of_the_project() {
    let mut v = rich();
    let r = registry_of(&[project(BUILDER, 80, 60)]);
    let out = v.fund_project(&NOW, &r, 1, 400_000).unwrap();
    assert_eq!(v.totals.usdc_balance, 600_000);
    assert_eq!(v.totals.total_investments, 400_000);
    assert_eq!(v.get_project_investment(1), Ok(400_000));
    assert_eq!(v.investment_timestamps.get(&1), Some(&1_000_000));
    assert_eq!(
        out.effects,
        vec![
            Effect::RequireAuth(addr(OWNER)),
            Effect::TransferUsdc { from: addr(VAULT), to: addr(BUILDER), amount: 400_000 },
            Effect::Emit(Event::ProjectFunded {
                project_id: 1,
                amount: 400_000,
                owner: addr(BUILDER),
            }),
        ]
    );
}

#[test]
fn the_insurance_reserve_is_never_invested() {
    let mut v = rich();
    let r = registry_of(&[project(BUILDER, 80, 60)]);
    assert_eq!(
        v.fund_project(&NOW, &r, 1, 900_001).unwrap_err(),
        VaultError::InsufficientDeployable
    );
    assert!(v.fund_project(&NOW, &r, 1, 900_000).is_ok());
    assert_eq!(v.totals.usdc_balance, v.totals.insurance_fund);
}

#[test]
fn funding_conserves_the_capital() {
    let mut v = rich();
    let r = registry_of(&[project(BUILDER, 80, 60), project(BOB, 70, 70)]);
    v.batch_fund_projects(&NOW, &r, &vec![(1, 123_456), (2, 7)], Ok(())).unwrap();
    assert_eq!(v.totals.usdc_balance + v.totals.total_investments, 1_000_000);
    assert_eq!(v.project_investments.values().sum::<i128>(), v.totals.total_investments);
}

#[test]
fn the_time_of_the_first_funding_stays() {
    let mut v = rich();
    let r = registry_of(&[project(BUILDER, 80, 60)]);
    v.fund_project(&NOW, &r, 1, 1).unwrap();
    let later = Ledger { timestamp: 2_000_000, sequence: 200 };
    v.fund_project(&later, &r, 1, 2).unwrap();
    assert_eq!(v.investment_timestamps.get(&1), Some(&1_000_000));
    assert_eq!(v.get_project_investment(1), Ok(3));
}

#[test]
fn fundings_are_refused_for_a_reason() {
    let mut v = rich();
    let r = registry_of(&[project(BUILDER, 80, 60), project(OWNER, 100, 100)]);
    assert_eq!(v.fund_project(&NOW, &r, 1, 0).unwrap_err(), VaultError::AmountNotPositive);
    assert_eq!(v.fund_project(&NOW, &r, 0, 1).unwrap_err(), VaultError::ProjectNotFound);
    assert_eq!(v.fund_project(&NOW, &r, 3, 1).unwrap_err(), VaultError::ProjectNotFound);
    assert_eq!(v.fund_project(&NOW, &r, 2, 1).unwrap_err(), VaultError::SelfFundingNotAllowed);
    v.set_max_transaction_amount(10).unwrap();
    assert_eq!(
        v.fund_project(&NOW, &r, 1, 11).unwrap_err(),
        VaultError::ExceedsMaxTransactionAmount
    );
    v.set_max_transaction_amount(0).unwrap();
    let halted = Registry { paused: true, ..registry_of(&[project(BUILDER, 80, 60)]) };
    assert_eq!(v.fund_project(&NOW, &halted, 1, 1).unwrap_err(), VaultError::RegistryPaused);
    v.settings.paused = true;
    assert_eq!(v.fund_project(&NOW, &r, 1, 1).unwrap_err(), VaultError::Paused);
    v.settings.owner = None;
    assert_eq!(v.fund_project(&NOW, &r, 1, 1).unwrap_err(), VaultError::OwnerNotSet);
}

#[test]
fn a_project_needs_the_scores() {
    let mut v = rich();
    let r = registry_of(&[project(BUILDER, 80, 60)]);
    let out = v.set_funding_thresholds(81, 0).unwrap();
    assert_eq!(
        out.effects[1],
        Effect::Emit(Event::FundingThresholdsSet { min_credit_quality: 81, min_green_impact: 0 })
    );
    assert_eq!(v.fund_project(&NOW, &r, 1, 1).unwrap_err(), VaultError::BelowMinCreditQuality);
    v.set_funding_thresholds(80, 61).unwrap();
    assert_eq!(v.fund_project(&NOW, &r, 1, 1).unwrap_err(), VaultError::BelowMinGreenImpact);
    v.set_funding_thresholds(80, 60).unwrap();
    assert!(v.fund_project(&NOW, &r, 1, 1).is_ok());
    assert_eq!((v.get_min_credit_quality(), v.get_min_green_impact()), (80, 60));
    assert_eq!(v.set_funding_thresholds(101, 0).unwrap_err(), VaultError::ThresholdOutOfRange);
    assert_eq!(v.set_funding_thresholds(0, 101).unwrap_err(), VaultError::ThresholdOutOfRange);
}

#[test]
fn a_project_is_funded_up_to_the_cap() {
    let mut v = rich();
    let r = registry_of(&[project(BUILDER, 80, 60)]);
    assert_eq!(v.investment_capacity(1), Ok(50_000_000_000_000));
    let out = v.set_max_investment_per_project(1_000).unwrap();
    assert_eq!(out.effects[1], Effect::Emit(Event::InvestmentCapSet { cap: 1_000 }));
    v.fund_project(&NOW, &r, 1, 600).unwrap();
    assert_eq!(v.investment_capacity(1), Ok(400));
    assert_eq!(v.fund_project(&NOW, &r, 1, 401).unwrap_err(), VaultError::InvestmentCapExceeded);
    v.fund_project(&NOW, &r, 1, 400).unwrap();
    assert_eq!(v.investment_capacity(1), Ok(0));
    assert_eq!(v.fund_project(&NOW, &r, 1, 1).unwrap_err(), VaultError::InvestmentCapExceeded);
    v.set_max_investment_per_project(500).unwrap();
    assert_eq!(v.investment_capacity(1), Ok(0));
    v.set_max_investment_per_project(0).unwrap();
    assert_eq!(v.investment_capacity(1), Ok(50_000_000_000_000 - 1_000));
    assert_eq!(
        v.set_max_investment_per_project(-1).unwrap_err(),
        VaultError::AmountNotPositive
    );
}

#[test]
fn with_the_multisig_on_funding_takes_approvals() {
    let mut v = rich();
    v.settings.multisig_threshold = 2;
    let r = registry_of(&[project(BUILDER, 80, 60)]);
    assert_eq!(v.fund_project(&NOW, &r, 1, 1).unwrap_err(), VaultError::InsufficientApprovals);
    assert_eq!(
        v.fund_project_with_approvals(&NOW, &r, 1, 1, Err(ApprovalError::DuplicateApproval))
            .unwrap_err(),
        VaultError::DuplicateApproval
    );
    v.settings.paused = true;
    let out = v.fund_project_with_approvals(&NOW, &r, 1, 5, Ok(())).unwrap();
    assert_eq!(out.effects.len(), 2);
    assert_eq!(v.get_project_investment(1), Ok(5));
}

#[test]
fn a_batch_funds_each_project_once() {
    let mut v = rich();
    let r = registry_of(&[project(BUILDER, 80, 60), project(BOB, 70, 70)]);
    let out = v.batch_fund_projects(&NOW, &r, &vec![(1, 10), (2, 20)], Ok(())).unwrap();
    assert_eq!(out.effects.len(), 4);
    assert_eq!(v.totals.total_investments, 30);
    assert_eq!(
        v.batch_fund_projects(&NOW, &r, &vec![(1, 10), (2, 20), (1, 5)], Ok(())).unwrap_err(),
        VaultError::DuplicateProjectId
    );
    assert_eq!(v.totals.total_investments, 30);
    assert_eq!(v.get_project_investment(1), Ok(10));
}

#[test]
fn a_batch_of_fundings_is_all_or_nothing() {
    let mut v = rich();
    let r = registry_of(&[project(BUILDER, 80, 60), project(BOB, 70, 70)]);
    assert_eq!(
        v.batch_fund_projects(&NOW, &r, &vec![(1, 10), (2, 0)], Ok(())).unwrap_err(),
        VaultError::AmountNotPositive
    );
    assert_eq!(v.totals.usdc_balance, 1_000_000);
    assert!(v.project_investments.is_empty());
    assert!(v.investment_timestamps.is_empty());
}

#[test]
fn batches_of_fundings_are_neither_empty_nor_too_large() {
    let mut v = rich();
    let r = registry_of(&[]);
    let none: Vec<(u32, i128)> = Vec::new();
    let refused = Err(ApprovalError::NotSigner);
    assert_eq!(
        v.batch_fund_projects(&NOW, &r, &none, refused).unwrap_err(),
        VaultError::EmptyBatchFunding
    );
    assert_eq!(check_batch_size(&none), Err(VaultError::EmptyBatchFunding));
    assert_eq!(check_batch_size(&vec![(1, 1); 20]), Ok(()));
    let many: Vec<(u32, i128)> = (1..=21).map(|i| (i, 1)).collect();
    assert_eq!(
        v.batch_fund_projects(&NOW, &r, &many, refused).unwrap_err(),
        VaultError::BatchTooLarge
    );
    assert_eq!(
        v.batch_fund_projects(&NOW, &r, &vec![(1, 1)], refused).unwrap_err(),
        VaultError::NotMultiSigSigner
    );
}

#[test]
fn investments_are_listed_in_order() {
    let mut v = rich();
    let r = registry_of(&[project(BUILDER, 80, 60), project(BOB, 70, 70), project(BOB, 1, 1)]);
    v.batch_fund_projects(&NOW, &r, &vec![(3, 30), (1, 10)], Ok(())).unwrap();
    assert_eq!(v.get_project_investments_batch(&vec![3, 9, 1, 3]), Ok(vec![30, 0, 10, 30]));
    assert_eq!(v.get_all_project_investments(&r), Ok(vec![(1, 10), (2, 0), (3, 30)]));
    v.settings.state_version = 0;
    assert_eq!(v.get_project_investment(1), Err(VaultError::UnsupportedStateVersion));
    assert_eq!(
        v.get_project_investments_batch(&vec![1]),
        Err(VaultError::UnsupportedStateVersion)
    );
    assert_eq!(v.get_all_project_investments(&r), Err(VaultError::UnsupportedStateVersion));
    assert_eq!(v.investment_capacity(1), Err(VaultError::UnsupportedStateVersion));
}

#[test]
fn compaction_drops_empty_entries_only() {
    let mut v = rich();
    v.project_investments.insert(1, 0);
    v.project_investments.insert(2, 7);
    v.project_investments.insert(3, 0);
    v.project_investments.insert(9, 0);
    let r = registry_of(&[project(BOB, 1, 1), project(BOB, 1, 1), project(BOB, 1, 1)]);
    let out = v.compact_storage(&r).unwrap();
    assert_eq!(out.value, 2);
    assert_eq!(out.effects, vec![Effect::RequireAuth(addr(OWNER))]);
    let left: Vec<u32> = v.project_investments.keys().copied().collect();
    assert_eq!(left, vec![2, 9]);
    assert_eq!(v.get_project_investment(1), Ok(0));
    assert_eq!(v.compact_storage(&r).unwrap().value, 0);
}

#[test]
fn the_registry_can_be_replaced() {
    let mut v = rich();
    let out = v.set_registry(addr(40)).unwrap();
    assert_eq!(v.get_registry(), Ok(addr(40)));
    assert_eq!(
        out.effects,
        vec![
            Effect::RequireAuth(addr(OWNER)),
            Effect::CheckRegistry(addr(40)),
            Effect::Emit(Event::RegistryChanged { old: addr(REGISTRY), new: addr(40) }),
        ]
    );
    v.settings.state_version = 0;
    assert_eq!(v.get_registry(), Err(VaultError::UnsupportedStateVersion));
}
