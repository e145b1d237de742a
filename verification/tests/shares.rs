use investment_vault::types::{
    Address, Effect, Event, FlashLoan, Ledger, MuxedAddress, VaultError,
};
use investment_vault::InvestmentVault;

fn addr(id: u64) -> Address {
    Address { id }
}

fn new_vault() -> InvestmentVault {
    InvestmentVault::__constructor(addr(VAULT), addr(OWNER), addr(USDC), addr(REGISTRY), 0).value
}

const VAULT: u64 = 1;
const OWNER: u64 = 2;
const USDC: u64 = 3;
const REGISTRY: u64 = 4;

const ALICE: u64 = 10;
const BOB: u64 = 11;
const NOW: Ledger = Ledger { timestamp: 1_000_000, sequence: 100 };

fn to(id: u64) -> MuxedAddress {
    MuxedAddress { address: addr(id), id: None }
}

fn shared() -> InvestmentVault {
    let mut v = new_vault();
    v.totals.total_supply = 400;
    v.share_balances.insert(ALICE, 300);
    v.share_balances.insert(BOB, 100);
    v
}

#[test]
fn a_transfer_moves_shares_and_locks_the_receiver() {
    let mut v = shared();
    let muxed = MuxedAddress { address: addr(BOB), id: Some(77) };
    let out = v.transfer(&NOW, addr(ALICE), muxed, 50).unwrap();
    assert_eq!(v.share_balances.get(&ALICE), Some(&250));
    assert_eq!(v.share_balances.get(&BOB), Some(&150));
    assert_eq!(v.totals.total_supply, 400);
    assert_eq!(v.get_deposit_lock_expiry(addr(BOB)), Ok(1_086_400));
    assert_eq!(v.get_deposit_lock_expiry(addr(ALICE)), Ok(0));
    assert_eq!(
        out.effects,
        vec![Effect::TransferShares { from: addr(ALICE), to: muxed, amount: 50 }]
    );
}

#[test]
fn a_transfer_to_oneself_changes_no_balance() {
    let mut v = shared();
    v.transfer(&NOW, addr(ALICE), to(ALICE), 300).unwrap();
    assert_eq!(v.share_balances.get(&ALICE), Some(&300));
    assert_eq!(
        v.transfer(&NOW, addr(ALICE), to(ALICE), 301).unwrap_err(),
        VaultError::InsufficientShares
    );
}

#[test]
fn transfers_are_refused_for_a_reason() {
    let mut v = shared();
    assert_eq!(
        v.transfer(&NOW, addr(ALICE), to(VAULT), 1).unwrap_err(),
        VaultError::TransferToVaultBlocked
    );
    assert_eq!(
        v.transfer(&NOW, addr(ALICE), to(BOB), 301).unwrap_err(),
        VaultError::InsufficientShares
    );
    assert_eq!(
        v.transfer(&NOW, addr(ALICE), to(BOB), -1).unwrap_err(),
        VaultError::NegativeAmount
    );
    v.settings.state_version = 0;
    assert_eq!(
        v.transfer(&NOW, addr(ALICE), to(BOB), 1).unwrap_err(),
        VaultError::UnsupportedStateVersion
    );
}

#[test]
fn a_funding_round_closes_transfers_until_it_ends() {
    let mut v = shared();
    assert_eq!(v.is_funding_round_active(), Ok(false));
    let out = v.start_funding_round().unwrap();
    assert_eq!(
        out.effects,
        vec![Effect::RequireAuth(addr(OWNER)), Effect::Emit(Event::FundingRoundStarted)]
    );
    assert_eq!(v.is_funding_round_active(), Ok(true));
    assert_eq!(
        v.transfer(&NOW, addr(ALICE), to(BOB), 1).unwrap_err(),
        VaultError::FundingRoundActive
    );
    assert_eq!(
        v.transfer_from(addr(9), addr(ALICE), addr(BOB), 1).unwrap_err(),
        VaultError::FundingRoundActive
    );
    let out = v.end_funding_round().unwrap();
    assert_eq!(out.effects[1], Effect::Emit(Event::FundingRoundEnded));
    assert!(v.transfer(&NOW, addr(ALICE), to(BOB), 1).is_ok());
    assert!(v.transfer_from(addr(9), addr(ALICE), addr(BOB), 1).is_ok());
    v.settings.state_version = 0;
    assert_eq!(v.is_funding_round_active(), Err(VaultError::UnsupportedStateVersion));
    assert_eq!(v.start_funding_round().unwrap_err(), VaultError::UnsupportedStateVersion);
}

#[test]
fn an_allowance_is_spent_on_transfers_and_burns() {
    let mut v = shared();
    let out = v.transfer_from(addr(9), addr(ALICE), addr(BOB), 100).unwrap();
    assert_eq!(
        out.effects,
        vec![Effect::TransferSharesFrom {
            spender: addr(9),
            from: addr(ALICE),
            to: addr(BOB),
            amount: 100,
        }]
    );
    assert_eq!(v.share_balances.get(&BOB), Some(&200));
    let out = v.burn_from(addr(9), addr(BOB), 50).unwrap();
    assert_eq!(
        out.effects,
        vec![Effect::BurnSharesFrom { spender: addr(9), from: addr(BOB), amount: 50 }]
    );
    assert_eq!(v.totals.total_supply, 350);
    assert_eq!(
        v.burn_from(addr(9), addr(BOB), 151).unwrap_err(),
        VaultError::InsufficientShares
    );
}

#[test]
fn burned_shares_are_gone() {
    let mut v = shared();
    let out = v.burn(addr(ALICE), 120).unwrap();
    assert_eq!(out.effects, vec![Effect::BurnShares { from: addr(ALICE), amount: 120 }]);
    assert_eq!(v.totals.total_supply, 280);
    assert_eq!(v.share_balances.get(&ALICE), Some(&180));
    assert_eq!(v.burn(addr(ALICE), 181).unwrap_err(), VaultError::InsufficientShares);
    assert_eq!(v.burn(addr(ALICE), -1).unwrap_err(), VaultError::NegativeAmount);
}

#[test]
fn the_flash_loan_fee_is_capped() {
    let mut v = new_vault();
    assert_eq!(v.flash_loan_fee(), Ok(30));
    assert_eq!(v.set_flash_loan_fee(1_001).unwrap_err(), VaultError::FlashLoanFeeOutOfRange);
    let out = v.set_flash_loan_fee(1_000).unwrap();
    assert_eq!(out.effects[1], Effect::Emit(Event::FlashLoanFeeSet { fee_bps: 1_000 }));
    assert_eq!(v.set_flash_loan_fee(1_000).unwrap().effects.len(), 1);
    assert_eq!(v.flash_loan_fee(), Ok(1_000));
    v.settings.state_version = 0;
    assert_eq!(v.flash_loan_fee(), Err(VaultError::UnsupportedStateVersion));
}

fn lender(usdc: i128) -> InvestmentVault {
    let mut v = shared();
    v.totals.usdc_balance = usdc;
    v
}

#[test]
fn a_flash_loan_comes_back_with_its_fee() {
    let mut v = lender(250_000);
    let out = v.execute_flash_loan(addr(ALICE), addr(60), 100_000, vec![1, 2, 3]).unwrap();
    let loan = FlashLoan {
        initiator: addr(ALICE),
        borrower: addr(60),
        amount: 100_000,
        fee: 300,
    };
    assert_eq!(out.value, loan);
    assert_eq!(v.totals.usdc_balance, 150_000);
    assert_eq!(v.totals.total_supply, 400);
    assert_eq!(
        out.effects,
        vec![
            Effect::RequireAuth(addr(ALICE)),
            Effect::TransferUsdc { from: addr(VAULT), to: addr(60), amount: 100_000 },
            Effect::FlashLoanCallback { loan, vault: addr(VAULT), data: vec![1, 2, 3] },
        ]
    );
    let settled = v.settle_flash_loan(loan, true).unwrap();
    assert_eq!(
        settled.effects,
        vec![
            Effect::TransferUsdc { from: addr(60), to: addr(VAULT), amount: 100_300 },
            Effect::Emit(Event::FlashLoan {
                initiator: addr(ALICE),
                borrower: addr(60),
                amount: 100_000,
                fee: 300,
            }),
        ]
    );
    assert_eq!(v.totals.usdc_balance, 250_300);
    assert_eq!(v.share_balances, shared().share_balances);
}

#[test]
fn a_vault_that_borrows_from_itself_pays_itself() {
    let mut v = lender(1_000);
    let loan = v.execute_flash_loan(addr(ALICE), addr(VAULT), 1_000, Vec::new()).unwrap().value;
    assert_eq!(v.totals.usdc_balance, 1_000);
    v.settle_flash_loan(loan, true).unwrap();
    assert_eq!(v.totals.usdc_balance, 1_000);
}

#[test]
fn a_flash_loan_is_not_settled_after_a_failed_callback() {
    let mut v = lender(1_000);
    let loan = v.execute_flash_loan(addr(ALICE), addr(60), 100, Vec::new()).unwrap().value;
    assert_eq!(
        v.settle_flash_loan(loan, false).unwrap_err(),
        VaultError::FlashLoanCallbackFailed
    );
    assert_eq!(v.totals.usdc_balance, 900);
    let wrong = FlashLoan { amount: -200, ..loan };
    assert_eq!(v.settle_flash_loan(wrong, true).unwrap_err(), VaultError::NegativeAmount);
    let huge = FlashLoan { amount: i128::MAX, fee: 1, ..loan };
    assert_eq!(v.settle_flash_loan(huge, true).unwrap_err(), VaultError::ArithmeticOverflow);
}

#[test]
fn flash_loans_are_refused_for_a_reason() {
    let mut v = lender(1_000);
    assert_eq!(
        v.execute_flash_loan(addr(ALICE), addr(60), 0, Vec::new()).unwrap_err(),
        VaultError::AmountNotPositive
    );
    assert_eq!(
        v.execute_flash_loan(addr(ALICE), addr(60), 1_001, Vec::new()).unwrap_err(),
        VaultError::InsufficientUsdc
    );
    assert!(v.execute_flash_loan(addr(ALICE), addr(60), 1_000, Vec::new()).is_ok());
    assert_eq!(
        v.execute_flash_loan(addr(ALICE), addr(60), i128::MAX, Vec::new()).unwrap_err(),
        VaultError::ArithmeticOverflow
    );
    v.settings.state_version = 0;
    assert_eq!(
        v.execute_flash_loan(addr(ALICE), addr(60), 1, Vec::new()).unwrap_err(),
        VaultError::UnsupportedStateVersion
    );
}
