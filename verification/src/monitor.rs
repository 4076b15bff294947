//! The monitor: a record of what was reported, a timer, and the two steps
//! that make a cycle. The caller reads the clock and performs the fetch; the
//! monitor decides when a fetch is due and what its outcome amounts to.

use crate::entry::{Entry, EntryView};
use crate::fetch::{feed_url, fetched_view, listing_url, FetchError, FetchErrorView};
use crate::report::{CycleReport, ReportView};
use crate::seen::{absorbed, fresh, Seen, SeenSet};
use vstd::prelude::*;

verus! {

/// Where the monitor stands between two steps.
#[derive(Debug, Clone, Copy, PartialEq, Eq, Structural)]
pub enum Phase {
    /// Waiting for the interval to elapse.
    Idle,
    /// A fetch was handed out and its outcome is awaited.
    Polling,
}

/// What came of one fetch: the listing, or the reason there is none.
pub type Outcome = Result<Seq<EntryView>, FetchErrorView>;

/// What a [`Monitor`] holds. Readings of the clock are nanoseconds since an
/// origin of the caller's choice.
pub struct MonitorView {
    pub source: Seq<char>,
    pub sort: Seq<char>,
    /// Seconds that have to pass between the starts of two polls.
    pub interval: u64,
    pub seen: Seen,
    /// The reading at which the last poll started, or at which the monitor
    /// was made.
    pub last_poll: u128,
    pub phase: Phase,
}

/// The whole seconds that lie between two readings of the clock; none where
/// the clock has gone backwards.
pub open spec fn whole_seconds_between(earlier: u128, later: u128) -> int {
    if later >= earlier {
        (later - earlier) / 1_000_000_000
    } else {
        0
    }
}

/// Whether a poll is due at the reading `now`: no fetch is under way and the
/// interval has passed since the last poll started.
pub open spec fn due(m: MonitorView, now: u128) -> bool {
    m.phase == Phase::Idle && whole_seconds_between(m.last_poll, now) >= m.interval
}

/// The monitor after a poll has started at the reading `now`.
pub open spec fn started(m: MonitorView, now: u128) -> MonitorView {
    MonitorView { last_poll: now, phase: Phase::Polling, ..m }
}

/// The record after a cycle that ended in `outcome`: a listing is gone
/// through, a failure leaves the record as it was.
pub open spec fn seen_after(seen: Seen, outcome: Outcome) -> Seen {
    match outcome {
        Ok(feed) => absorbed(seen, feed),
        Err(_) => seen,
    }
}

/// What a cycle that ended in `outcome` has to report to a monitor whose
/// record was `seen`.
pub open spec fn report_of(seen: Seen, outcome: Outcome) -> ReportView {
    match outcome {
        Ok(feed) => ReportView::Listed(fresh(seen.dom(), feed)),
        Err(error) => ReportView::Failed(error),
    }
}

/// The monitor after the fetch that was under way has ended in `outcome`.
pub open spec fn completed(m: MonitorView, outcome: Outcome) -> MonitorView {
    MonitorView { seen: seen_after(m.seen, outcome), phase: Phase::Idle, ..m }
}

/// A monitor of one source.
pub struct Monitor {
    source: String,
    sort: String,
    interval: u64,
    seen: SeenSet,
    last_poll: u128,
    phase: Phase,
}

impl View for Monitor {
    type V = MonitorView;

    closed spec fn view(&self) -> MonitorView {
        MonitorView {
            source: self.source@,
            sort: self.sort@,
            interval: self.interval,
            seen: self.seen@,
            last_poll: self.last_poll,
            phase: self.phase,
        }
    }
}

impl Monitor {
    /// A monitor of `source`, sorted by `sort`, that polls no more often
    /// than every `interval` seconds. It has seen nothing, and its timer
    /// starts at the reading `now`: the first poll is due one interval later.
    pub fn new(source: String, sort: String, interval: u64, now: u128) -> (monitor: Monitor)
        ensures
            monitor@ == (MonitorView {
                source: source@,
                sort: sort@,
                interval,
                seen: Seen::empty(),
                last_poll: now,
                phase: Phase::Idle,
            }),
    {
        Monitor { source, sort, interval, seen: SeenSet::new(), last_poll: now, phase: Phase::Idle }
    }

    pub fn source(&self) -> (source: &str)
        ensures
            source@ == self@.source,
    {
        self.source.as_str()
    }

    pub fn sort(&self) -> (sort: &str)
        ensures
            sort@ == self@.sort,
    {
        self.sort.as_str()
    }

    pub fn interval(&self) -> (interval: u64)
        ensures
            interval == self@.interval,
    {
        self.interval
    }

    pub fn last_poll(&self) -> (reading: u128)
        ensures
            reading == self@.last_poll,
    {
        self.last_poll
    }

    pub fn phase(&self) -> (phase: Phase)
        ensures
            phase == self@.phase,
    {
        self.phase
    }

    /// The record of what was reported so far.
    pub fn seen(&self) -> (seen: &SeenSet)
        ensures
            seen@ == self@.seen,
    {
        &self.seen
    }

    /// Whether a poll is due at the reading `now`.
    pub fn is_due(&self, now: u128) -> (yes: bool)
        ensures
            yes == due(self@, now),
    {
        match self.phase {
            Phase::Polling => false,
            Phase::Idle => {
                if now >= self.last_poll {
                    let passed: u128 = (now - self.last_poll) / 1_000_000_000;
                    passed >= self.interval as u128
                } else {
                    self.interval == 0
                }
            },
        }
    }

    /// Looks at the clock. Where a poll is due, the timer is set to `now`,
    /// the monitor starts polling, and the address to fetch is returned;
    /// otherwise nothing changes and nothing is to be done.
    pub fn tick(&mut self, now: u128) -> (request: Option<String>)
        ensures
            due(old(self)@, now) ==> final(self)@ == started(old(self)@, now) && request is Some
                && request->0@ == listing_url(old(self)@.source, old(self)@.sort),
            !due(old(self)@, now) ==> final(self)@ == old(self)@ && request is None,
    {
        if self.is_due(now) {
            self.last_poll = now;
            self.phase = Phase::Polling;
            Some(feed_url(self.source.as_str(), self.sort.as_str()))
        } else {
            None
        }
    }

    /// Takes the outcome of the fetch that was under way. A listing is gone
    /// through in its order: each entry whose title is new is recorded and
    /// reported. A failure is reported and leaves the record as it was.
    /// Either way the monitor is idle again, and its timer stays where the
    /// poll's start has set it.
    pub fn complete(&mut self, outcome: Result<Vec<Entry>, FetchError>) -> (report: CycleReport)
        requires
            old(self)@.phase == Phase::Polling,
        ensures
            final(self)@ == completed(old(self)@, fetched_view(outcome)),
            report@ == report_of(old(self)@.seen, fetched_view(outcome)),
    {
        self.phase = Phase::Idle;
        match outcome {
            Ok(feed) => {
                let news = self.seen.observe(&feed);
                CycleReport::Listed(news)
            },
            Err(error) => CycleReport::Failed(error),
        }
    }
}

} // verus!
