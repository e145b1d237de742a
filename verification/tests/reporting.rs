use investment_vault::types::{
    Address, CarbonCreditCalculation, ComplianceEventData, Effect, Event, Ledger, ProjectData,
    ReportingSnapshotData, VaultError,
};
use investment_vault::{InvestmentVault, Registry};
use std::collections::BTreeMap;

fn addr(id: u64) -> Address {
    Address { id }
}

fn new_vault() -> InvestmentVault {
    InvestmentVault::__constructor(addr(VAULT), addr(OWNER), addr(USDC), addr(REGISTRY), 0).value
}

const VAULT: u64 = 1;
const OWNER: u64 = 2;
const USDC: u64 = 3;
const REGISTRY: u64 = 4;

const ALICE: u64 = 10;
const BOB: u64 = 11;
const ORACLE: u64 = 90;
const NOW: Ledger = Ledger { timestamp: 1_000_000, sequence: 100 };

fn green(impact: u32) -> Registry {
    let mut projects = BTreeMap::new();
    projects.insert(
        1,
        ProjectData { owner: addr(20), credit_quality: 80, green_impact: impact },
    );
    Registry { paused: false, total_projects: 1, projects }
}

#[test]
fn the_oracle_sets_the_price() {
    let mut v = new_vault();
    assert_eq!(v.set_carbon_credit_price(5).unwrap_err(), VaultError::CarbonOracleNotSet);
    let out = v.set_carbon_oracle(addr(ORACLE)).unwrap();
    assert_eq!(out.effects[1], Effect::Emit(Event::CarbonOracleSet { oracle: addr(ORACLE) }));
    assert_eq!(v.set_carbon_oracle(addr(ORACLE)).unwrap().effects.len(), 1);
    assert_eq!(v.set_carbon_credit_price(0).unwrap_err(), VaultError::CarbonPriceNotPositive);
    let out = v.set_carbon_credit_price(5).unwrap();
    assert_eq!(
        out.effects,
        vec![
            Effect::RequireAuth(addr(ORACLE)),
            Effect::Emit(Event::CarbonCreditPriceSet { price: 5 }),
        ]
    );
    assert_eq!(v.set_carbon_credit_price(5).unwrap().effects.len(), 1);
    assert_eq!(v.carbon_credit_price(), Ok(5));
    v.settings.paused = true;
    assert_eq!(v.set_carbon_credit_price(6).unwrap_err(), VaultError::Paused);
}

#[test]
fn credits_are_earned_by_green_impact() {
    let mut v = new_vault();
    let out = v.calculate_carbon_credits(&green(60), 1, 500_000_000_000).unwrap();
    assert_eq!(
        out.value,
        CarbonCreditCalculation { project_id: 1, amount_invested: 500_000_000_000, credits: 3_000 }
    );
    assert_eq!(
        out.effects,
        vec![Effect::Emit(Event::CarbonCreditsCalculated {
            project_id: 1,
            amount: 500_000_000_000,
            credits: 3_000,
        })]
    );
    v.settings.carbon_credit_price = 1_000;
    let priced = v.calculate_carbon_credits(&green(60), 1, 500_000_000_000).unwrap();
    assert_eq!(priced.value.credits, 3_000);
    assert_eq!(
        v.calculate_carbon_credits(&green(60), 1, 0).unwrap_err(),
        VaultError::AmountNotPositive
    );
    assert_eq!(
        v.calculate_carbon_credits(&green(60), 2, 1).unwrap_err(),
        VaultError::ProjectNotFound
    );
    assert_eq!(
        v.calculate_carbon_credits(&green(60), 1, i128::MAX).unwrap_err(),
        VaultError::ArithmeticOverflow
    );
}

#[test]
fn credits_are_issued_to_an_account() {
    let mut v = new_vault();
    let out = v.issue_carbon_credits(&green(50), addr(ALICE), 1, 1_000_000_000).unwrap();
    assert_eq!(out.value, 5);
    assert_eq!(v.carbon_credit_balance(addr(ALICE)), Ok(5));
    v.issue_carbon_credits(&green(50), addr(ALICE), 1, 1_000_000_000).unwrap();
    assert_eq!(v.carbon_credit_balance(addr(ALICE)), Ok(10));
    assert_eq!(
        v.issue_carbon_credits(&green(0), addr(ALICE), 1, 1_000_000_000).unwrap_err(),
        VaultError::NoCarbonCreditsToIssue
    );
}

#[test]
fn credits_move_between_accounts() {
    let mut v = new_vault();
    v.carbon_credits.insert(ALICE, 10);
    let out = v.transfer_carbon_credits(addr(ALICE), addr(BOB), 4).unwrap();
    assert_eq!(v.carbon_credit_balance(addr(ALICE)), Ok(6));
    assert_eq!(v.carbon_credit_balance(addr(BOB)), Ok(4));
    assert_eq!(
        out.effects,
        vec![
            Effect::RequireAuth(addr(ALICE)),
            Effect::Emit(Event::CarbonCreditsTransferred {
                from: addr(ALICE),
                to: addr(BOB),
                amount: 4,
            }),
        ]
    );
    assert_eq!(
        v.transfer_carbon_credits(addr(ALICE), addr(BOB), 7).unwrap_err(),
        VaultError::InsufficientCarbonCredits
    );
    assert_eq!(
        v.transfer_carbon_credits(addr(ALICE), addr(BOB), 0).unwrap_err(),
        VaultError::AmountNotPositive
    );
    v.settings.state_version = 0;
    assert_eq!(v.carbon_credit_balance(addr(BOB)), Err(VaultError::UnsupportedStateVersion));
}

#[test]
fn credits_sent_to_oneself_stay_the_same() {
    let mut v = new_vault();
    v.issue_carbon_credits(&green(70), addr(ALICE), 1, 1_000_000_000).unwrap();
    assert_eq!(v.carbon_credit_balance(addr(ALICE)), Ok(7));
    v.transfer_carbon_credits(addr(ALICE), addr(ALICE), 3).unwrap();
    assert_eq!(v.carbon_credit_balance(addr(ALICE)), Ok(7));
    assert_eq!(
        v.transfer_carbon_credits(addr(ALICE), addr(ALICE), 8).unwrap_err(),
        VaultError::InsufficientCarbonCredits
    );
    v.carbon_credits.insert(ALICE, i128::MAX);
    v.transfer_carbon_credits(addr(ALICE), addr(ALICE), i128::MAX).unwrap();
    assert_eq!(v.carbon_credit_balance(addr(ALICE)), Ok(i128::MAX));
}

fn record(v: &mut InvestmentVault, n: u64) {
    for i in 0..n {
        let ledger = Ledger { timestamp: 5_000 + i, sequence: 1 };
        v.record_compliance_event(&ledger, b"audit".to_vec(), format!("entry {i}").into_bytes()).unwrap();
    }
}

#[test]
fn events_are_recorded_in_sequence() {
    let mut v = new_vault();
    let out =
        v.record_compliance_event(&NOW, b"kyc".to_vec(), b"passed".to_vec()).unwrap();
    assert_eq!(
        out.effects,
        vec![
            Effect::RequireAuth(addr(OWNER)),
            Effect::Emit(Event::ComplianceEventRecorded { seq: 1, event_type: b"kyc".to_vec() }),
        ]
    );
    assert_eq!(
        v.get_compliance_event(1),
        Ok(ComplianceEventData {
            seq: 1,
            timestamp: 1_000_000,
            event_type: b"kyc".to_vec(),
            data: b"passed".to_vec(),
        })
    );
    assert_eq!(v.get_compliance_event(2), Err(VaultError::ComplianceEventNotFound));
    assert_eq!(v.get_compliance_event(0), Err(VaultError::ComplianceEventNotFound));
}

#[test]
fn texts_are_kept_byte_by_byte() {
    let mut v = new_vault();
    let raw = vec![0xff, 0x00, 0xc3, 0x28];
    let out = v.record_compliance_event(&NOW, raw.clone(), vec![0x80]).unwrap();
    assert_eq!(
        out.effects[1],
        Effect::Emit(Event::ComplianceEventRecorded { seq: 1, event_type: raw.clone() })
    );
    let event = v.get_compliance_event(1).unwrap();
    assert_eq!((event.event_type, event.data), (raw, vec![0x80]));
}

#[test]
fn the_latest_thousand_events_are_kept() {
    let mut v = new_vault();
    record(&mut v, 1_003);
    assert_eq!(v.compliance_events.len(), 1_000);
    assert_eq!(v.get_compliance_event(3), Err(VaultError::ComplianceEventNotFound));
    assert_eq!(v.get_compliance_event(4).unwrap().data, b"entry 3".to_vec());
    assert_eq!(v.get_compliance_event(1_003).unwrap().seq, 1_003);
}

#[test]
fn queries_are_paged() {
    let mut v = new_vault();
    record(&mut v, 150);
    let seqs = |from: u64, to: u64| -> Vec<u64> {
        v.get_compliance_events(from, to).unwrap().iter().map(|e| e.seq).collect()
    };
    assert_eq!(seqs(3, 5), vec![3, 4, 5]);
    assert_eq!(seqs(5, 3), Vec::<u64>::new());
    assert_eq!(seqs(0, 2), vec![1, 2]);
    assert_eq!(seqs(148, u64::MAX), vec![148, 149, 150]);
    assert_eq!(seqs(1, 150), (1..=101).collect::<Vec<u64>>());
    assert_eq!(seqs(u64::MAX, u64::MAX), Vec::<u64>::new());
}

#[test]
fn an_event_past_the_last_number_is_refused() {
    let mut v = new_vault();
    v.totals.compliance_event_counter = u64::MAX;
    assert_eq!(
        v.record_compliance_event(&NOW, b"a".to_vec(), b"b".to_vec()).unwrap_err(),
        VaultError::ArithmeticOverflow
    );
}

#[test]
fn a_snapshot_holds_the_key_figures() {
    let mut v = new_vault();
    assert_eq!(v.get_latest_snapshot(), Err(VaultError::NoSnapshotTaken));
    v.totals.usdc_balance = 300;
    v.totals.total_supply = 250;
    v.totals.total_investments = 2_000;
    v.project_investments.insert(1, 2_000);
    let out = v.take_reporting_snapshot(&NOW, &green(60)).unwrap();
    assert_eq!(
        out.effects,
        vec![
            Effect::RequireAuth(addr(OWNER)),
            Effect::Emit(Event::ReportingSnapshotTaken { timestamp: 1_000_000 }),
        ]
    );
    assert_eq!(
        v.get_latest_snapshot(),
        Ok(ReportingSnapshotData {
            timestamp: 1_000_000,
            total_assets: 300 + 2_000 + 1_400,
            total_supply: 250,
            total_investments: 2_000,
        })
    );
    assert_eq!(v.totals.cached_total_assets, 3_700);
}

#[test]
fn a_report_shows_the_latest_events_and_the_limits() {
    let mut v = new_vault();
    record(&mut v, 60);
    v.settings.max_transaction_amount = 17;
    v.settings.carbon_credit_price = 18;
    v.totals.usdc_balance = 300;
    let report = v.export_regulatory_data(&NOW, &green(60)).unwrap();
    assert_eq!(report.snapshot.timestamp, 0);
    assert_eq!(report.snapshot.total_assets, 300);
    assert_eq!(report.recent_events.len(), 50);
    assert_eq!(report.recent_events[0].seq, 11);
    assert_eq!(report.recent_events[49].seq, 60);
    assert_eq!(report.max_transaction_amount, 17);
    assert_eq!(report.carbon_credit_price, 18);
    v.take_reporting_snapshot(&NOW, &green(60)).unwrap();
    v.totals.usdc_balance = 999;
    let report = v.export_regulatory_data(&NOW, &green(60)).unwrap();
    assert_eq!(report.snapshot.total_assets, 300);
    assert_eq!(v.totals.cached_total_assets, 999);
    v.settings.state_version = 0;
    assert_eq!(
        v.export_regulatory_data(&NOW, &green(60)).unwrap_err(),
        VaultError::UnsupportedStateVersion
    );
}

#[test]
fn a_report_of_an_unused_trail_is_empty() {
    let mut v = new_vault();
    assert!(v.export_regulatory_data(&NOW, &green(60)).unwrap().recent_events.is_empty());
}
