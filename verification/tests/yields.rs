use investment_vault::types::{
    Address, ApprovalError, Effect, Event, Ledger, PortfolioInfo, VaultError,
};
use investment_vault::{InvestmentVault, Registry};
use std::collections::BTreeMap;

fn addr(id: u64) -> Address {
    Address { id }
}

fn new_vault() -> InvestmentVault {
    InvestmentVault::__constructor(addr(VAULT), addr(OWNER), addr(USDC), addr(REGISTRY), 0).value
}

const VAULT: u64 = 1;
const OWNER: u64 = 2;
const USDC: u64 = 3;
const REGISTRY: u64 = 4;
const ALICE: u64 = 10;
const BOB: u64 = 11;
const NOW: Ledger = Ledger { timestamp: 1_000_000, sequence: 100 };

const PAYER: u64 = 30;

fn no_projects() -> Registry {
    Registry { paused: false, total_projects: 0, projects: BTreeMap::new() }
}

/// Alice holds three quarters of the shares, Bob one.
fn shared() -> InvestmentVault {
    let mut v = new_vault();
    v.totals.usdc_balance = 400;
    v.totals.total_supply = 400;
    v.share_balances.insert(ALICE, 300);
    v.share_balances.insert(BOB, 100);
    v
}

#[test]
fn yield_is_shared_by_shares() {
    let mut v = shared();
    let out = v.receive_yield(addr(PAYER), 1_000).unwrap();
    assert_eq!(v.totals.usdc_balance, 1_400);
    assert_eq!(v.totals.yield_per_share_accum, 2_500_000_000_000_000_000);
    assert_eq!(v.claimable_yield(addr(ALICE)), Ok(750));
    assert_eq!(v.claimable_yield(addr(BOB)), Ok(250));
    assert_eq!(v.claimable_yield(addr(99)), Ok(0));
    assert_eq!(
        out.effects,
        vec![
            Effect::RequireAuth(addr(OWNER)),
            Effect::TransferUsdc { from: addr(PAYER), to: addr(VAULT), amount: 1_000 },
            Effect::Emit(Event::YieldReceived { from: addr(PAYER), amount: 1_000 }),
        ]
    );
}

#[test]
fn rounding_never_gives_out_more_than_came_in() {
    let mut v = shared();
    v.totals.total_supply = 700;
    v.share_balances.insert(BOB, 400);
    v.receive_yield(addr(PAYER), 100).unwrap();
    let alice = v.claimable_yield(addr(ALICE)).unwrap();
    let bob = v.claimable_yield(addr(BOB)).unwrap();
    assert_eq!((alice, bob), (42, 57));
    assert!(alice + bob <= 100);
    // Each is less than two units short of the exact part.
    assert!(100 * 300 < (alice + 2) * 700);
    assert!(100 * 400 < (bob + 2) * 700);
}

#[test]
fn yield_is_claimed_once() {
    let mut v = shared();
    v.receive_yield(addr(PAYER), 1_000).unwrap();
    v.totals.cached_total_assets = 1_400;
    let out = v.claim_yield(addr(ALICE)).unwrap();
    assert_eq!(out.value, 750);
    assert_eq!(v.totals.usdc_balance, 650);
    assert_eq!(v.totals.cached_total_assets, 650);
    assert_eq!(
        out.effects,
        vec![
            Effect::RequireAuth(addr(ALICE)),
            Effect::TransferUsdc { from: addr(VAULT), to: addr(ALICE), amount: 750 },
            Effect::Emit(Event::YieldClaimed { from: addr(ALICE), amount: 750 }),
        ]
    );
    assert_eq!(v.claimable_yield(addr(ALICE)), Ok(0));
    let again = v.claim_yield(addr(ALICE)).unwrap();
    assert_eq!(again.value, 0);
    assert_eq!(again.effects, vec![Effect::RequireAuth(addr(ALICE))]);
    assert_eq!(v.claimable_yield(addr(BOB)), Ok(250));
}

#[test]
fn yield_that_is_not_liquid_is_not_paid() {
    let mut v = shared();
    v.receive_yield(addr(PAYER), 1_000).unwrap();
    v.totals.usdc_balance = 749;
    assert_eq!(v.claim_yield(addr(ALICE)).unwrap_err(), VaultError::InsufficientLiquidYield);
    assert_eq!(v.claimable_yield(addr(ALICE)), Ok(750));
}

#[test]
fn yields_are_refused_for_a_reason() {
    let mut v = new_vault();
    assert_eq!(
        v.receive_yield(addr(PAYER), 0).unwrap_err(),
        VaultError::YieldAmountNotPositive
    );
    assert_eq!(v.receive_yield(addr(PAYER), 1).unwrap_err(), VaultError::NoSharesOutstanding);
    v.settings.state_version = 0;
    assert_eq!(
        v.receive_yield(addr(PAYER), 1).unwrap_err(),
        VaultError::UnsupportedStateVersion
    );
    assert_eq!(v.claim_yield(addr(ALICE)).unwrap_err(), VaultError::UnsupportedStateVersion);
    assert_eq!(v.claimable_yield(addr(ALICE)), Err(VaultError::UnsupportedStateVersion));
    v.settings.owner = None;
    assert_eq!(v.receive_yield(addr(PAYER), 1).unwrap_err(), VaultError::OwnerNotSet);
}

#[test]
fn a_yield_out_of_range_is_refused() {
    let mut v = shared();
    assert_eq!(
        v.receive_yield(addr(PAYER), i128::MAX / 1_000).unwrap_err(),
        VaultError::ArithmeticOverflow
    );
}

#[test]
fn with_the_multisig_on_yield_takes_approvals() {
    let mut v = shared();
    v.settings.multisig_threshold = 2;
    assert_eq!(v.receive_yield(addr(PAYER), 1).unwrap_err(), VaultError::InsufficientApprovals);
    for (e, expected) in [
        (ApprovalError::InvalidThreshold, VaultError::InvalidMultiSigThreshold),
        (ApprovalError::DuplicateApproval, VaultError::DuplicateApproval),
        (ApprovalError::NotSigner, VaultError::NotMultiSigSigner),
        (ApprovalError::InsufficientApprovals, VaultError::InsufficientApprovals),
    ] {
        assert_eq!(
            v.receive_yield_with_approvals(addr(PAYER), 1_000, Err(e)).unwrap_err(),
            expected
        );
    }
    let out = v.receive_yield_with_approvals(addr(PAYER), 1_000, Ok(())).unwrap();
    assert_eq!(out.effects.len(), 2);
    assert_eq!(v.claimable_yield(addr(ALICE)), Ok(750));
}

#[test]
fn a_portfolio_shows_the_whole_position() {
    let mut v = shared();
    v.total_deposited.insert(ALICE, 333);
    v.receive_yield(addr(PAYER), 400).unwrap();
    let out = v.get_portfolio(&NOW, &no_projects(), addr(ALICE)).unwrap();
    assert_eq!(
        out.value,
        PortfolioInfo {
            shares: 300,
            usdc_value: 600,
            claimable_yield: 300,
            share_of_pool_bps: 7_500,
            total_deposited: 333,
        }
    );
    assert_eq!(
        out.effects,
        vec![Effect::ExtendDepositRecord {
            account: addr(ALICE),
            threshold: 518_400,
            extend_to: 6_312_000,
        }]
    );
    assert_eq!(v.totals.cached_total_assets, 800);
    let bob = v.get_portfolio(&NOW, &no_projects(), addr(BOB)).unwrap();
    assert!(bob.effects.is_empty());
}

#[test]
fn a_portfolio_in_an_empty_vault_is_empty() {
    let mut v = new_vault();
    let out = v.get_portfolio(&NOW, &no_projects(), addr(ALICE)).unwrap();
    assert_eq!(out.value.share_of_pool_bps, 0);
    assert_eq!(out.value.usdc_value, 0);
    v.settings.state_version = 3;
    assert_eq!(
        v.get_portfolio(&NOW, &no_projects(), addr(ALICE)).unwrap_err(),
        VaultError::UnsupportedStateVersion
    );
}

#[test]
fn insurance_is_paid_once_for_a_project() {
    let mut v = new_vault();
    v.totals.usdc_balance = 1_000;
    v.totals.insurance_fund = 500;
    let out = v.claim_insurance(7, addr(BOB), 200).unwrap();
    assert_eq!(v.totals.usdc_balance, 800);
    assert_eq!(v.insurance_fund_balance(), Ok(300));
    assert_eq!(
        out.effects,
        vec![
            Effect::RequireAuth(addr(OWNER)),
            Effect::TransferUsdc { from: addr(VAULT), to: addr(BOB), amount: 200 },
            Effect::Emit(Event::InsuranceClaimed {
                project_id: 7,
                recipient: addr(BOB),
                amount: 200,
            }),
        ]
    );
    assert_eq!(
        v.claim_insurance(7, addr(BOB), 1).unwrap_err(),
        VaultError::InsuranceAlreadyClaimed
    );
    assert!(v.claim_insurance(8, addr(BOB), 300).is_ok());
    assert_eq!(v.insurance_fund_balance(), Ok(0));
}

#[test]
fn insurance_claims_are_refused_for_a_reason() {
    let mut v = new_vault();
    v.totals.usdc_balance = 100;
    v.totals.insurance_fund = 500;
    assert_eq!(
        v.claim_insurance(7, addr(BOB), 0).unwrap_err(),
        VaultError::ClaimAmountNotPositive
    );
    assert_eq!(
        v.claim_insurance(7, addr(BOB), 501).unwrap_err(),
        VaultError::InsufficientInsurance
    );
    assert_eq!(v.claim_insurance(7, addr(BOB), 101).unwrap_err(), VaultError::InsufficientUsdc);
    v.settings.max_transaction_amount = 50;
    assert_eq!(
        v.claim_insurance(7, addr(BOB), 51).unwrap_err(),
        VaultError::ExceedsMaxTransactionAmount
    );
    v.settings.multisig_threshold = 1;
    assert_eq!(
        v.claim_insurance(7, addr(BOB), 10).unwrap_err(),
        VaultError::InsufficientApprovals
    );
    assert_eq!(
        v.claim_insurance_with_approvals(7, addr(BOB), 10, Err(ApprovalError::NotSigner))
            .unwrap_err(),
        VaultError::NotMultiSigSigner
    );
    assert!(v.claim_insurance_with_approvals(7, addr(BOB), 10, Ok(())).is_ok());
    v.settings.state_version = 0;
    assert_eq!(v.insurance_fund_balance(), Err(VaultError::UnsupportedStateVersion));
}
