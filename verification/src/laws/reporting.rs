//! The audit trail keeps the latest events, and reports show them in order.

use crate::compliance::{events_between, events_from, page_size, report_start};
use crate::constants::{COMPLIANCE_PAGE_SPAN, MAX_COMPLIANCE_EVENTS, REPORT_EVENTS};
use crate::invariants::trail_intact;
use crate::state::VaultState;
use crate::types::ComplianceEventView;
use vstd::prelude::*;

verus! {

impl VaultState {
    /// An event that is recorded can be read until as many events as the trail keeps have followed
    /// it.
    pub proof fn events_are_kept(self, event: ComplianceEventView, later: VaultState)
        requires
            self.well_formed(),
            event.seq == self.totals.compliance_event_counter + 1,
            later.well_formed(),
            later.totals.compliance_event_counter >= event.seq,
        ensures
            self.recording(event).compliance_events.contains_key(event.seq),
            self.recording(event).compliance_events[event.seq] == event,
            later.compliance_events.contains_key(event.seq)
                <==> later.totals.compliance_event_counter - event.seq < MAX_COMPLIANCE_EVENTS,
    {
    }

    /// Recording changes no event that stays on record.
    pub proof fn records_do_not_change(self, event: ComplianceEventView, seq: u64)
        requires
            self.well_formed(),
            event.seq == self.totals.compliance_event_counter + 1,
            self.recording(event).compliance_events.contains_key(seq),
            seq != event.seq,
        ensures
            self.compliance_events.contains_key(seq),
            self.recording(event).compliance_events[seq] == self.compliance_events[seq],
    {
    }

    /// A report shows the snapshot that was last taken, whatever has changed since; where none was,
    /// it shows the figures as they are.
    pub proof fn reports_show_the_last_snapshot(
        self,
        now: u64,
        then_nav: i128,
        later: VaultState,
        nav: i128,
    )
        requires
            later.totals.reporting_snapshot == self.after_snapshot(
                now,
                then_nav,
            ).totals.reporting_snapshot,
        ensures
            ({
                let shown = later.reported_snapshot(nav);
                &&& shown.timestamp == now
                &&& shown.total_assets == then_nav
                &&& shown.total_supply == self.totals.total_supply
                &&& shown.total_investments == self.totals.total_investments
            }),
            self.totals.reporting_snapshot is None ==> {
                &&& self.reported_snapshot(nav).timestamp == 0
                &&& self.reported_snapshot(nav).total_assets == nav
                &&& self.reported_snapshot(nav).total_supply == self.totals.total_supply
                &&& self.reported_snapshot(nav).total_investments == self.totals.total_investments
            },
    {
    }

    /// A report shows the latest events, all of them where there are few, without a gap and oldest
    /// first.
    pub proof fn reports_show_the_latest_events(self)
        requires
            self.well_formed(),
        ensures
            ({
                let counter = self.totals.compliance_event_counter;
                let shown = events_between(
                    self.compliance_events,
                    report_start(counter),
                    counter as int,
                );
                &&& shown.len() == if counter > REPORT_EVENTS {
                    REPORT_EVENTS as int
                } else {
                    counter as int
                }
                &&& forall|i: int|
                    0 <= i < shown.len() ==> (#[trigger] shown[i]).seq == report_start(counter) + i
            }),
    {
        let counter = self.totals.compliance_event_counter;
        let start = report_start(counter);
        lemma_gapless_page(
            self.compliance_events,
            counter,
            start,
            page_size(start, counter as int),
        );
    }
}

proof fn lemma_gapless_page(
    events: Map<u64, ComplianceEventView>,
    counter: u64,
    start: int,
    n: nat,
)
    requires
        trail_intact(events, counter),
        1 <= start,
        start + n <= counter + 1,
        counter - start < MAX_COMPLIANCE_EVENTS,
    ensures
        events_from(events, start, n).len() == n,
        forall|i: int| 0 <= i < n ==> (#[trigger] events_from(events, start, n)[i]).seq == start + i,
    decreases n,
{
    if n > 0 {
        lemma_gapless_page(events, counter, start, (n - 1) as nat);
        let seq = (start + n - 1) as u64;
        assert(events.contains_key(seq));
    }
}

/// What a query finds are events on record, in the order of their sequence numbers, and no more
/// than one page of them.
pub proof fn queries_are_paged_and_in_order(
    events: Map<u64, ComplianceEventView>,
    counter: u64,
    start: u64,
    end: u64,
)
    requires
        trail_intact(events, counter),
    ensures
        ({
            let found = events_between(events, start as int, end as int);
            &&& found.len() <= COMPLIANCE_PAGE_SPAN + 1
            &&& forall|i: int|
                0 <= i < found.len() ==> start <= (#[trigger] found[i]).seq <= end
                    && events.contains_key(found[i].seq) && events[found[i].seq] == found[i]
            &&& forall|i: int, j: int|
                0 <= i < j < found.len() ==> (#[trigger] found[i]).seq < (#[trigger] found[j]).seq
        }),
{
    lemma_page_in_order(events, counter, start as int, page_size(start as int, end as int));
}

/// A query finds every event on record from its first sequence number up to a hundred past it, as
/// far as its last.
pub proof fn queries_miss_nothing(
    events: Map<u64, ComplianceEventView>,
    start: u64,
    end: u64,
    seq: u64,
)
    requires
        events.contains_key(seq),
        start <= seq <= end,
        seq - start <= 100,
    ensures
        events_between(events, start as int, end as int).contains(events[seq]),
{
    lemma_page_misses_nothing(
        events,
        start as int,
        page_size(start as int, end as int),
        seq,
    );
}

proof fn lemma_page_misses_nothing(
    events: Map<u64, ComplianceEventView>,
    start: int,
    n: nat,
    seq: u64,
)
    requires
        events.contains_key(seq),
        0 <= start <= seq < start + n,
        start + n <= u64::MAX + 1,
    ensures
        events_from(events, start, n).contains(events[seq]),
    decreases n,
{
    let found = events_from(events, start, n);
    if seq == start + n - 1 {
        assert(found[found.len() - 1] == events[seq]);
    } else {
        lemma_page_misses_nothing(events, start, (n - 1) as nat, seq);
        let before = events_from(events, start, (n - 1) as nat);
        let i = choose|i: int| 0 <= i < before.len() && before[i] == events[seq];
        assert(found[i] == events[seq]);
    }
}

/// A query shows nothing more than a hundred sequence numbers past its first, and nothing at all
/// where it ends before it starts.
pub proof fn queries_end_with_the_page(
    events: Map<u64, ComplianceEventView>,
    counter: u64,
    start: u64,
    end: u64,
    i: int,
)
    requires
        trail_intact(events, counter),
        0 <= i < events_between(events, start as int, end as int).len(),
    ensures
        start <= end,
        start <= events_between(events, start as int, end as int)[i].seq <= start + 100,
        events_between(events, start as int, end as int)[i].seq <= end,
{
    lemma_page_in_order(events, counter, start as int, page_size(start as int, end as int));
}

/// A report starts with the fiftieth event from the end, or with the first.
pub proof fn reports_start_fifty_events_back(counter: u64)
    ensures
        counter >= 50 ==> report_start(counter) == counter - 49,
        counter < 50 ==> report_start(counter) == 1,
{
}

proof fn lemma_page_in_order(
    events: Map<u64, ComplianceEventView>,
    counter: u64,
    start: int,
    n: nat,
)
    requires
        trail_intact(events, counter),
        0 <= start,
        start + n <= u64::MAX + 1,
    ensures
        ({
            let found = events_from(events, start, n);
            &&& found.len() <= n
            &&& forall|i: int|
                0 <= i < found.len() ==> start <= (#[trigger] found[i]).seq < start + n
                    && events.contains_key(found[i].seq) && events[found[i].seq] == found[i]
            &&& forall|i: int, j: int|
                0 <= i < j < found.len() ==> (#[trigger] found[i]).seq < (#[trigger] found[j]).seq
        }),
    decreases n,
{
    if n > 0 {
        lemma_page_in_order(events, counter, start, (n - 1) as nat);
    }
}

} // verus!
