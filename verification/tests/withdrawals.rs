use investment_vault::constants::{MIN_DEPOSIT, MIN_LOCK_PERIOD, MIN_WITHDRAW};
use investment_vault::types::{Address, Effect, Event, Ledger, QueuedClaim, VaultError};
use investment_vault::{InvestmentVault, Registry};
use std::collections::BTreeMap;

fn addr(id: u64) -> Address {
    Address { id }
}

fn at(timestamp: u64, sequence: u32) -> Ledger {
    Ledger { timestamp, sequence }
}

fn new_vault() -> InvestmentVault {
    InvestmentVault::__constructor(addr(VAULT), addr(OWNER), addr(USDC), addr(REGISTRY), 0).value
}

const VAULT: u64 = 1;
const OWNER: u64 = 2;
const USDC: u64 = 3;
const REGISTRY: u64 = 4;

const ALICE: u64 = 10;
const BOB: u64 = 11;
const CAROL: u64 = 12;
const NOW: Ledger = Ledger { timestamp: 1_000_000, sequence: 100 };

fn no_projects() -> Registry {
    Registry { paused: false, total_projects: 0, projects: BTreeMap::new() }
}

/// Holds shares of Alice, unlocked, worth one USDC each.
fn stocked(shares: i128) -> InvestmentVault {
    let mut v = new_vault();
    v.totals.usdc_balance = shares;
    v.totals.total_supply = shares;
    v.share_balances.insert(ALICE, shares);
    v
}

fn later() -> Ledger {
    at(NOW.timestamp + MIN_LOCK_PERIOD, NOW.sequence + 1)
}

#[test]
fn a_withdrawal_burns_shares_and_pays_their_value() {
    let mut v = stocked(4_000_000_000);
    let out = v.withdraw(&NOW, &no_projects(), addr(ALICE), 1_000_000_000, 1_000_000_000).unwrap();
    assert_eq!(out.value, 1_000_000_000);
    assert_eq!(v.totals.usdc_balance, 3_000_000_000);
    assert_eq!(v.totals.total_supply, 3_000_000_000);
    assert_eq!(v.totals.cached_total_assets, 3_000_000_000);
    assert_eq!(v.share_balances.get(&ALICE), Some(&3_000_000_000));
    assert_eq!(
        out.effects,
        vec![
            Effect::BurnShares { from: addr(ALICE), amount: 1_000_000_000 },
            Effect::TransferUsdc { from: addr(VAULT), to: addr(ALICE), amount: 1_000_000_000 },
            Effect::Emit(Event::Withdraw {
                from: addr(ALICE),
                shares: 1_000_000_000,
                usdc_returned: 1_000_000_000,
            }),
        ]
    );
}

#[test]
fn a_withdrawal_does_not_lower_the_value_of_a_share() {
    let mut v = stocked(4_000_000_000);
    v.totals.usdc_balance = 7_000_000_001;
    let (nav, supply) = (v.totals.usdc_balance, v.totals.total_supply);
    let paid = v.withdraw(&NOW, &no_projects(), addr(ALICE), 1_000_000_001, 0).unwrap().value;
    assert_eq!(paid, 7_000_000_001 * 1_000_000_001 / 4_000_000_000);
    let (nav_after, supply_after) = (v.totals.usdc_balance, v.totals.total_supply);
    assert_eq!(nav_after, nav - paid);
    assert!(nav * supply_after <= nav_after * supply);
}

#[test]
fn the_books_balance_after_a_busy_day() {
    let mut v = new_vault();
    let r = no_projects();
    v.deposit(&NOW, &r, addr(ALICE), 5 * MIN_DEPOSIT).unwrap();
    v.deposit(&NOW, &r, addr(BOB), 3 * MIN_DEPOSIT).unwrap();
    v.receive_yield(addr(CAROL), 1_000_000).unwrap();
    v.claim_yield(addr(ALICE)).unwrap();
    v.withdraw(&later(), &r, addr(BOB), MIN_WITHDRAW, 0).unwrap();
    v.bridge_burn(addr(ALICE), 17).unwrap();
    let shares: i128 = v.share_balances.values().sum();
    assert_eq!(shares, v.totals.total_supply);
    assert!(v.totals.usdc_balance >= 0);
    assert!(v.yield_debt.values().all(|d| *d <= v.totals.yield_per_share_accum));
}

#[test]
fn a_deposit_is_locked_for_a_day() {
    let mut v = new_vault();
    v.deposit(&NOW, &no_projects(), addr(ALICE), 2 * MIN_DEPOSIT).unwrap();
    assert_eq!(v.get_deposit_lock_expiry(addr(ALICE)), Ok(NOW.timestamp + 86_400));
    assert_eq!(v.get_deposit_lock_expiry(addr(BOB)), Ok(0));
    let almost = at(NOW.timestamp + 86_399, NOW.sequence + 50);
    assert_eq!(
        v.withdraw(&almost, &no_projects(), addr(ALICE), MIN_WITHDRAW, 0).unwrap_err(),
        VaultError::DepositLocked
    );
    assert!(v.withdraw(&later(), &no_projects(), addr(ALICE), MIN_WITHDRAW, 0).is_ok());
}

#[test]
fn a_deposit_at_time_zero_is_locked_like_any_other() {
    let mut v = new_vault();
    v.deposit(&at(0, 0), &no_projects(), addr(ALICE), 2 * MIN_DEPOSIT).unwrap();
    assert_eq!(v.get_deposit_lock_expiry(addr(ALICE)), Ok(86_400));
    assert_eq!(
        v.withdraw(&at(86_399, 9), &no_projects(), addr(ALICE), MIN_WITHDRAW, 0).unwrap_err(),
        VaultError::DepositLocked
    );
    assert!(v.withdraw(&at(86_400, 9), &no_projects(), addr(ALICE), MIN_WITHDRAW, 0).is_ok());
}

#[test]
fn a_withdrawal_window_outlasts_the_lock() {
    let mut v = new_vault();
    v.set_withdrawal_window(1_000).unwrap();
    v.deposit(&NOW, &no_projects(), addr(ALICE), 2 * MIN_DEPOSIT).unwrap();
    let inside = at(NOW.timestamp + 200_000, NOW.sequence + 999);
    assert_eq!(
        v.withdraw(&inside, &no_projects(), addr(ALICE), MIN_WITHDRAW, 0).unwrap_err(),
        VaultError::DepositLocked
    );
    let outside = at(NOW.timestamp + 200_000, NOW.sequence + 1_000);
    assert!(v.withdraw(&outside, &no_projects(), addr(ALICE), MIN_WITHDRAW, 0).is_ok());
}

#[test]
fn a_window_of_one_ledger_keeps_deposit_and_withdrawal_apart() {
    let mut v = stocked(4_000_000_000);
    v.last_deposit_ledger.insert(ALICE, NOW.sequence);
    assert_eq!(
        v.withdraw(&NOW, &no_projects(), addr(ALICE), MIN_WITHDRAW, 0).unwrap_err(),
        VaultError::DepositLocked
    );
    v.set_withdrawal_window(0).unwrap();
    assert!(v.withdraw(&NOW, &no_projects(), addr(ALICE), MIN_WITHDRAW, 0).is_ok());
}

#[test]
fn a_lock_past_the_end_of_time_refuses() {
    let mut v = stocked(4_000_000_000);
    v.last_deposit.insert(ALICE, u64::MAX);
    assert_eq!(
        v.withdraw(&NOW, &no_projects(), addr(ALICE), MIN_WITHDRAW, 0).unwrap_err(),
        VaultError::ArithmeticOverflow
    );
    assert_eq!(v.get_deposit_lock_expiry(addr(ALICE)), Err(VaultError::ArithmeticOverflow));
}

#[test]
fn withdrawals_are_held_to_their_limits() {
    let mut v = stocked(4_000_000_000);
    let r = no_projects();
    let mut refusal = |shares: i128, min: i128| {
        v.withdraw(&NOW, &r, addr(ALICE), shares, min).unwrap_err()
    };
    assert_eq!(refusal(0, 0), VaultError::SharesNotPositive);
    assert_eq!(refusal(MIN_WITHDRAW - 1, 0), VaultError::WithdrawBelowMinimum);
    assert_eq!(refusal(MIN_WITHDRAW, MIN_WITHDRAW + 1), VaultError::SlippageLimitExceeded);
    assert_eq!(refusal(4_000_000_001, 0), VaultError::InsufficientShares);
    v.settings.max_transaction_amount = 1_500_000_000;
    assert_eq!(
        v.withdraw(&NOW, &no_projects(), addr(ALICE), 1_500_000_001, 0).unwrap_err(),
        VaultError::ExceedsMaxTransactionAmount
    );
    v.settings.paused = true;
    assert_eq!(
        v.withdraw(&NOW, &no_projects(), addr(ALICE), MIN_WITHDRAW, 0).unwrap_err(),
        VaultError::Paused
    );
}

#[test]
fn withdrawals_are_graduated_by_utilization() {
    // Invested part of the capital, and the part of liquid USDC that one withdrawal may take.
    let total: i128 = 10_000_000_000_000;
    for (invested_pct, pct) in [(50, 50), (70, 25), (90, 10)] {
        let invested = total * invested_pct / 100;
        let liquid = total - invested;
        let limit = liquid * pct / 100;
        let stock = || {
            let mut v = stocked(total);
            v.totals.usdc_balance = liquid;
            v.totals.total_investments = invested;
            v
        };
        assert_eq!(
            stock().withdraw(&NOW, &no_projects(), addr(ALICE), limit + 1, 0).unwrap_err(),
            VaultError::WithdrawalExceedsLimit
        );
        let out = stock().withdraw(&NOW, &no_projects(), addr(ALICE), limit, 0).unwrap();
        assert_eq!(out.value, limit);
        let warned = out.effects[0]
            == Effect::Emit(Event::UtilizationWarning { utilization_bps: invested_pct as u32 * 100 });
        assert_eq!(warned, invested_pct >= 70);
    }
}

/// A little less than half of the capital is invested.
fn short_of_liquidity() -> (InvestmentVault, Registry) {
    let mut v = stocked(4_000_000_000);
    v.totals.usdc_balance = 2_100_000_000;
    v.totals.total_investments = 1_900_000_000;
    (v, no_projects())
}

#[test]
fn a_withdrawal_that_is_not_covered_is_queued() {
    let (mut v, r) = short_of_liquidity();
    let out = v.withdraw(&NOW, &r, addr(ALICE), 3_000_000_000, 0).unwrap();
    assert_eq!(out.value, 0);
    assert_eq!(v.totals.usdc_balance, 2_100_000_000);
    assert_eq!(v.totals.total_supply, 1_000_000_000);
    assert_eq!(v.totals.queue_tail, 1);
    assert_eq!(
        v.queue.get(&0),
        Some(&QueuedClaim { from: addr(ALICE), usdc_owed: 3_000_000_000 })
    );
    assert_eq!(
        out.effects,
        vec![
            Effect::BurnShares { from: addr(ALICE), amount: 3_000_000_000 },
            Effect::Emit(Event::WithdrawQueued {
                from: addr(ALICE),
                shares: 3_000_000_000,
                usdc_owed: 3_000_000_000,
            }),
        ]
    );
    assert_eq!(v.claim().unwrap().value, 0);
    v.totals.usdc_balance = 3_000_000_000;
    let paid = v.claim().unwrap();
    assert_eq!(paid.value, 3_000_000_000);
    assert_eq!(v.totals.usdc_balance, 0);
    assert!(v.queue.is_empty());
}

#[test]
fn the_queue_cannot_grow_past_its_last_index() {
    let (mut v, r) = short_of_liquidity();
    v.totals.queue_head = u64::MAX;
    v.totals.queue_tail = u64::MAX;
    assert_eq!(
        v.withdraw(&NOW, &r, addr(ALICE), 3_000_000_000, 0).unwrap_err(),
        VaultError::ArithmeticOverflow
    );
}

fn queued(claims: &[(u64, i128)], liquid: i128) -> InvestmentVault {
    let mut v = new_vault();
    for (i, (from, usdc_owed)) in claims.iter().enumerate() {
        v.queue.insert(i as u64, QueuedClaim { from: addr(*from), usdc_owed: *usdc_owed });
    }
    v.totals.queue_tail = claims.len() as u64;
    v.totals.usdc_balance = liquid;
    v.totals.cached_total_assets = liquid;
    v
}

#[test]
fn claims_are_settled_oldest_first_and_in_full() {
    let mut v = queued(&[(ALICE, 100), (BOB, 50), (CAROL, 30)], 160);
    let out = v.claim().unwrap();
    assert_eq!(out.value, 150);
    assert_eq!(v.totals.usdc_balance, 10);
    assert_eq!(v.totals.cached_total_assets, 10);
    assert_eq!(v.totals.queue_head, 2);
    assert_eq!(v.queue.len(), 1);
    assert_eq!(v.queue.get(&2), Some(&QueuedClaim { from: addr(CAROL), usdc_owed: 30 }));
    assert_eq!(
        out.effects,
        vec![
            Effect::TransferUsdc { from: addr(VAULT), to: addr(ALICE), amount: 100 },
            Effect::Emit(Event::WithdrawClaimed { from: addr(ALICE), usdc_paid: 100, index: 0 }),
            Effect::TransferUsdc { from: addr(VAULT), to: addr(BOB), amount: 50 },
            Effect::Emit(Event::WithdrawClaimed { from: addr(BOB), usdc_paid: 50, index: 1 }),
        ]
    );
}

#[test]
fn a_large_claim_holds_up_smaller_ones_behind_it() {
    let mut v = queued(&[(ALICE, 100), (BOB, 1)], 99);
    let out = v.claim().unwrap();
    assert_eq!(out.value, 0);
    assert!(out.effects.is_empty());
    assert_eq!(v.totals.queue_head, 0);
    assert_eq!(v.queue.len(), 2);
}

#[test]
fn enough_liquidity_settles_every_claim() {
    let mut v = queued(&[(ALICE, 100), (BOB, 50), (CAROL, 30)], 180);
    assert_eq!(v.claim().unwrap().value, 180);
    assert_eq!(v.totals.queue_head, v.totals.queue_tail);
    assert!(v.queue.is_empty());
    assert_eq!(v.claim().unwrap().value, 0);
}

#[test]
fn an_empty_queue_pays_nothing() {
    let mut v = new_vault();
    assert_eq!(v.claim().unwrap().value, 0);
    v.settings.state_version = 9;
    assert_eq!(v.claim().unwrap_err(), VaultError::UnsupportedStateVersion);
}

#[test]
fn a_gap_in_the_queue_refuses_the_settlement() {
    let mut v = queued(&[(ALICE, 100), (BOB, 50)], 200);
    v.queue.remove(&1);
    assert_eq!(v.claim().unwrap_err(), VaultError::QueueEntryMissing);
    assert_eq!(v.totals.usdc_balance, 200);
    assert_eq!(v.queue.len(), 1);
    v.queue.insert(1, QueuedClaim { from: addr(BOB), usdc_owed: -5 });
    assert_eq!(v.claim().unwrap_err(), VaultError::NegativeAmount);
}
