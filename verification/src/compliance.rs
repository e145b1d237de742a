//! The audit trail of the vault, and its reports to regulators.

use crate::constants::{COMPLIANCE_PAGE_SPAN, MAX_COMPLIANCE_EVENTS, REPORT_EVENTS};
use crate::guards::{first, owner_refusal, version_refusal};
use crate::state::{trail, InvestmentVault, Registry, RegistryView, Settings, Totals, VaultState};
use crate::tables::optional;
use crate::types::{
    ComplianceEventData, ComplianceEventView, Effect, Event, Ledger, Outcome, RegulatoryReport,
    ReportingSnapshotData, VaultError,
};
use std::collections::BTreeMap;
use vstd::prelude::*;

verus! {

/// Why an event is not recorded.
pub open spec fn record_refusal(s: Settings, counter: u64) -> Option<VaultError> {
    first(
        owner_refusal(s),
        first(
            version_refusal(s),
            if counter == u64::MAX {
                Some(VaultError::ArithmeticOverflow)
            } else {
                None
            },
        ),
    )
}

impl VaultState {
    /// This state with one more event recorded. Only the latest events are kept.
    pub open spec fn recording(self, event: ComplianceEventView) -> VaultState {
        let events = self.compliance_events.insert(event.seq, event);
        VaultState {
            totals: Totals { compliance_event_counter: event.seq, ..self.totals },
            compliance_events: if event.seq > MAX_COMPLIANCE_EVENTS {
                events.remove((event.seq - MAX_COMPLIANCE_EVENTS) as u64)
            } else {
                events
            },
            ..self
        }
    }

    /// The key figures of the vault, as of `timestamp`, at the value `nav`.
    pub open spec fn snapshot(self, timestamp: u64, nav: i128) -> ReportingSnapshotData {
        ReportingSnapshotData {
            timestamp,
            total_assets: nav,
            total_supply: self.totals.total_supply,
            total_investments: self.totals.total_investments,
        }
    }

    /// The snapshot of a report: the one that was last taken, or else the current figures, without
    /// a time.
    pub open spec fn reported_snapshot(self, nav: i128) -> ReportingSnapshotData {
        match self.totals.reporting_snapshot {
            Some(snapshot) => snapshot,
            None => self.snapshot(0, nav),
        }
    }

    /// This state with a snapshot taken.
    pub open spec fn after_snapshot(self, now: u64, nav: i128) -> VaultState {
        self.with_totals(
            Totals {
                cached_total_assets: nav,
                reporting_snapshot: Some(self.snapshot(now, nav)),
                ..self.totals
            },
        )
    }
}

/// The events on record among the `n` sequence numbers from `start` on, in order.
pub open spec fn events_from(
    events: Map<u64, ComplianceEventView>,
    start: int,
    n: nat,
) -> Seq<ComplianceEventView>
    decreases n,
{
    if n == 0 {
        seq![]
    } else {
        let before = events_from(events, start, (n - 1) as nat);
        let seq = (start + n - 1) as u64;
        if events.contains_key(seq) {
            before.push(events[seq])
        } else {
            before
        }
    }
}

/// How many sequence numbers a query from `start` to `end` looks at.
pub open spec fn page_size(start: int, end: int) -> nat {
    if start > end {
        0
    } else if end - start > COMPLIANCE_PAGE_SPAN {
        (COMPLIANCE_PAGE_SPAN + 1) as nat
    } else {
        (end - start + 1) as nat
    }
}

/// The events that a query from `start` to `end` finds: one page at most.
pub open spec fn events_between(
    events: Map<u64, ComplianceEventView>,
    start: int,
    end: int,
) -> Seq<ComplianceEventView> {
    events_from(events, start, page_size(start, end))
}

/// The first sequence number of a report.
pub open spec fn report_start(counter: u64) -> int {
    if counter > REPORT_EVENTS {
        counter - REPORT_EVENTS + 1
    } else {
        1
    }
}

/// The models of the events in a list.
pub open spec fn listed(events: Seq<ComplianceEventData>) -> Seq<ComplianceEventView> {
    events.map_values(|e: ComplianceEventData| e@)
}

fn copy_bytes(bytes: &Vec<u8>) -> (r: Vec<u8>)
    ensures
        r@ == bytes@,
{
    let r = bytes.clone();
    assert(r@ =~= bytes@);
    r
}

fn copy_event(event: &ComplianceEventData) -> (r: ComplianceEventData)
    ensures
        r@ == event@,
{
    ComplianceEventData {
        seq: event.seq,
        timestamp: event.timestamp,
        event_type: copy_bytes(&event.event_type),
        data: copy_bytes(&event.data),
    }
}

fn collect_events(events: &BTreeMap<u64, ComplianceEventData>, start: u64, end: u64) -> (r: Vec<
    ComplianceEventData,
>)
    ensures
        listed(r@) == events_between(trail(events@), start as int, end as int),
{
    broadcast use vstd::std_specs::btree::group_btree_axioms;

    let mut found: Vec<ComplianceEventData> = Vec::new();
    assert(listed(found@) =~= seq![]);
    if start > end {
        return found;
    }
    let last: u64 = if end - start > COMPLIANCE_PAGE_SPAN {
        start + COMPLIANCE_PAGE_SPAN
    } else {
        end
    };
    let n: u64 = last - start + 1;
    let mut i: u64 = 0;
    while i < n
        invariant
            i <= n,
            start + n <= u64::MAX + 1,
            listed(found@) == events_from(trail(events@), start as int, i as nat),
        decreases n - i,
    {
        let seq: u64 = start + i;
        let ghost before = found@;
        if let Some(event) = events.get(&seq) {
            let copy = copy_event(event);
            found.push(copy);
            assert(listed(found@) =~= listed(before).push(copy@));
        }
        i = i + 1;
    }
    found
}

impl InvestmentVault {
    /// Record an event for the audit trail. For the owner.
    pub fn record_compliance_event(&mut self, ledger: &Ledger, event_type: Vec<u8>, data: Vec<u8>) -> (r:
        Result<Outcome<()>, VaultError>)
        ensures
            old(self)@.well_formed() ==> final(self)@.well_formed(),
            match r {
                Ok(out) => {
                    let seq = (old(self).totals.compliance_event_counter + 1) as u64;
                    &&& record_refusal(
                        old(self).settings,
                        old(self).totals.compliance_event_counter,
                    ) is None
                    &&& final(self)@ == old(self)@.recording(
                        ComplianceEventView {
                            seq,
                            timestamp: ledger.timestamp,
                            event_type: event_type@,
                            data: data@,
                        },
                    )
                    &&& out.effects@ == seq![
                        old(self).settings.owner_auth(),
                        Effect::Emit(Event::ComplianceEventRecorded { seq, event_type }),
                    ]
                },
                Err(e) => {
                    &&& record_refusal(
                        old(self).settings,
                        old(self).totals.compliance_event_counter,
                    ) == Some(e)
                    &&& *final(self) == *old(self)
                },
            },
    {
        broadcast use vstd::std_specs::btree::group_btree_axioms;

        let owner = self.require_owner()?;
        self.require_current_state()?;
        let counter: u64 = self.totals.compliance_event_counter;
        if counter == u64::MAX {
            return Err(VaultError::ArithmeticOverflow);
        }
        let seq: u64 = counter + 1;
        let event = ComplianceEventData {
            seq,
            timestamp: ledger.timestamp,
            event_type: copy_bytes(&event_type),
            data,
        };
        let ghost recorded = event@;
        self.compliance_events.insert(seq, event);
        self.totals.compliance_event_counter = seq;
        if seq > MAX_COMPLIANCE_EVENTS {
            let pruned: u64 = seq - MAX_COMPLIANCE_EVENTS;
            self.compliance_events.remove(&pruned);
        }
        assert(self@.compliance_events =~= old(self)@.recording(recorded).compliance_events);
        let effects = vec![
            Effect::RequireAuth(owner),
            Effect::Emit(Event::ComplianceEventRecorded { seq, event_type }),
        ];
        Ok(Outcome { value: (), effects })
    }

    /// The event of a sequence number.
    pub fn get_compliance_event(&self, seq: u64) -> (r: Result<ComplianceEventData, VaultError>)
        ensures
            match r {
                Ok(event) => {
                    &&& self.settings.is_current()
                    &&& optional(self@.compliance_events, seq) == Some(event@)
                },
                Err(e) => if !self.settings.is_current() {
                    e == VaultError::UnsupportedStateVersion
                } else {
                    &&& !self@.compliance_events.contains_key(seq)
                    &&& e == VaultError::ComplianceEventNotFound
                },
            },
    {
        broadcast use vstd::std_specs::btree::group_btree_axioms;

        self.require_current_state()?;
        match self.compliance_events.get(&seq) {
            Some(event) => Ok(copy_event(event)),
            None => Err(VaultError::ComplianceEventNotFound),
        }
    }

    /// The events of a range of sequence numbers, oldest first; one page at most.
    pub fn get_compliance_events(&self, from: u64, to: u64) -> (r: Result<
        Vec<ComplianceEventData>,
        VaultError,
    >)
        ensures
            match r {
                Ok(events) => {
                    &&& self.settings.is_current()
                    &&& listed(events@) == events_between(
                        self@.compliance_events,
                        from as int,
                        to as int,
                    )
                },
                Err(e) => {
                    &&& !self.settings.is_current()
                    &&& e == VaultError::UnsupportedStateVersion
                },
            },
    {
        self.require_current_state()?;
        Ok(collect_events(&self.compliance_events, from, to))
    }

    /// Take a snapshot of the key figures. For the owner.
    pub fn take_reporting_snapshot(&mut self, ledger: &Ledger, registry: &Registry) -> (r: Result<
        Outcome<()>,
        VaultError,
    >)
        ensures
            old(self)@.well_formed() ==> final(self)@.well_formed(),
            match r {
                Ok(out) => {
                    let nav = old(self)@.nav(registry@, ledger.timestamp);
                    &&& snapshot_refusal(old(self)@, registry@, ledger.timestamp) is None
                    &&& final(self)@ == old(self)@.after_snapshot(ledger.timestamp, nav->Ok_0)
                    &&& out.effects@ == seq![
                        old(self).settings.owner_auth(),
                        Effect::Emit(
                            Event::ReportingSnapshotTaken { timestamp: ledger.timestamp },
                        ),
                    ]
                },
                Err(e) => {
                    &&& snapshot_refusal(old(self)@, registry@, ledger.timestamp) == Some(e)
                    &&& *final(self) == *old(self)
                },
            },
    {
        let owner = self.require_owner()?;
        self.require_current_state()?;
        let nav: i128 = self.total_assets(ledger, registry)?;
        self.totals.reporting_snapshot = Some(
            ReportingSnapshotData {
                timestamp: ledger.timestamp,
                total_assets: nav,
                total_supply: self.totals.total_supply,
                total_investments: self.totals.total_investments,
            },
        );
        let effects = vec![
            Effect::RequireAuth(owner),
            Effect::Emit(Event::ReportingSnapshotTaken { timestamp: ledger.timestamp }),
        ];
        Ok(Outcome { value: (), effects })
    }

    /// The snapshot that was last taken.
    pub fn get_latest_snapshot(&self) -> (r: Result<ReportingSnapshotData, VaultError>)
        ensures
            r == if !self.settings.is_current() {
                Err(VaultError::UnsupportedStateVersion)
            } else {
                match self.totals.reporting_snapshot {
                    Some(snapshot) => Ok(snapshot),
                    None => Err(VaultError::NoSnapshotTaken),
                }
            },
    {
        self.require_current_state()?;
        match self.totals.reporting_snapshot {
            Some(snapshot) => Ok(snapshot),
            None => Err(VaultError::NoSnapshotTaken),
        }
    }

    /// A report of the key figures, the latest events and the limits. The value of the vault is
    /// computed anew, and remembered, whether or not the report shows it.
    pub fn export_regulatory_data(&mut self, ledger: &Ledger, registry: &Registry) -> (r: Result<
        RegulatoryReport,
        VaultError,
    >)
        ensures
            old(self)@.well_formed() ==> final(self)@.well_formed(),
            match r {
                Ok(report) => {
                    let s = old(self).settings;
                    let nav = old(self)@.nav(registry@, ledger.timestamp);
                    let counter = old(self).totals.compliance_event_counter;
                    &&& report_refusal(old(self)@, registry@, ledger.timestamp) is None
                    &&& final(self)@ == old(self)@.caching(nav->Ok_0)
                    &&& report.snapshot == old(self)@.reported_snapshot(nav->Ok_0)
                    &&& listed(report.recent_events@) == events_between(
                        old(self)@.compliance_events,
                        report_start(counter),
                        counter as int,
                    )
                    &&& report.max_transaction_amount == s.max_transaction_amount
                    &&& report.carbon_credit_price == s.carbon_credit_price
                },
                Err(e) => {
                    &&& report_refusal(old(self)@, registry@, ledger.timestamp) == Some(e)
                    &&& *final(self) == *old(self)
                },
            },
    {
        self.require_current_state()?;
        let nav: i128 = self.total_assets(ledger, registry)?;
        let snapshot = match self.totals.reporting_snapshot {
            Some(snapshot) => snapshot,
            None => ReportingSnapshotData {
                timestamp: 0,
                total_assets: nav,
                total_supply: self.totals.total_supply,
                total_investments: self.totals.total_investments,
            },
        };
        let counter: u64 = self.totals.compliance_event_counter;
        let start: u64 = if counter > REPORT_EVENTS {
            counter - REPORT_EVENTS + 1
        } else {
            1
        };
        let recent_events = collect_events(&self.compliance_events, start, counter);
        Ok(
            RegulatoryReport {
                snapshot,
                recent_events,
                max_transaction_amount: self.settings.max_transaction_amount,
                carbon_credit_price: self.settings.carbon_credit_price,
            },
        )
    }
}

/// Why a report is refused: it needs the value of the vault.
pub open spec fn report_refusal(s: VaultState, registry: RegistryView, now: u64) -> Option<
    VaultError,
> {
    if !s.settings.is_current() {
        Some(VaultError::UnsupportedStateVersion)
    } else {
        match s.nav(registry, now) {
            Err(e) => Some(e),
            Ok(_) => None,
        }
    }
}

/// Why a snapshot is refused.
pub open spec fn snapshot_refusal(s: VaultState, registry: RegistryView, now: u64) -> Option<
    VaultError,
> {
    first(owner_refusal(s.settings), report_refusal(s, registry, now))
}

} // verus!
