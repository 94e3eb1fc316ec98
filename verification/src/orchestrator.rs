//! The orchestrator's decisions: which download may start next while no more
//! than a fixed number run at once, what is recorded when one ends, and what
//! the run amounts to in the end. The caller starts the downloads it is told
//! to start and reports each one's outcome.

use crate::download::{DownloadOutcome, OutcomeView};
use vstd::prelude::*;

verus! {

/// Where one resource stands in the run.
#[derive(Debug, PartialEq)]
pub enum Slot {
    /// Its download has not started.
    Waiting,
    /// Its download is in flight.
    Running,
    /// Its download has ended.
    Done(DownloadOutcome),
}

/// How many of `slots` are in flight.
pub open spec fn running_among(slots: Seq<Slot>) -> nat
    decreases slots.len(),
{
    if slots.len() == 0 {
        0
    } else {
        running_among(slots.drop_last()) + if slots.last() is Running {
            1nat
        } else {
            0nat
        }
    }
}

/// One for a slot in flight, zero for any other.
pub open spec fn weight(slot: Slot) -> int {
    if slot is Running {
        1
    } else {
        0
    }
}

/// Replacing one slot changes the number in flight by the difference
/// between the new slot and the old one.
pub proof fn lemma_running_update(slots: Seq<Slot>, index: int, slot: Slot)
    requires
        0 <= index < slots.len(),
    ensures
        running_among(slots.update(index, slot)) == running_among(slots) - weight(slots[index])
            + weight(slot),
    decreases slots.len(),
{
    let changed = slots.update(index, slot);
    if index == slots.len() - 1 {
        assert(changed.drop_last() =~= slots.drop_last());
    } else {
        lemma_running_update(slots.drop_last(), index, slot);
        assert(changed.drop_last() =~= slots.drop_last().update(index, slot));
    }
}

/// The bound on simultaneous downloads that is used where none is
/// configured.
pub const DEFAULT_LIMIT: usize = 4;

/// The state of a run over the resolved downloads, which are known by
/// their place in the manifest.
pub struct Scheduler {
    limit: usize,
    slots: Vec<Slot>,
    next: usize,
    running: usize,
    cancelled: bool,
}

impl Scheduler {
    #[verifier::type_invariant]
    spec fn sound(&self) -> bool {
        &&& self.limit >= 1
        &&& self.next <= self.slots@.len()
        &&& self.running == running_among(self.slots@)
        &&& self.running <= self.limit
        &&& forall|i: int|
            0 <= i < self.slots@.len() ==> ((#[trigger] self.slots@[i]) is Waiting <==> i
                >= self.next)
    }

    /// The bound on simultaneous downloads.
    pub closed spec fn limit(&self) -> nat {
        self.limit as nat
    }

    /// Where each resource stands, in manifest order.
    pub closed spec fn slots(&self) -> Seq<Slot> {
        self.slots@
    }

    /// How many downloads have been started so far. They are started in
    /// manifest order, so this is also the place of the next to start.
    pub closed spec fn started(&self) -> nat {
        self.next as nat
    }

    /// Whether the run was cancelled.
    pub closed spec fn cancelled(&self) -> bool {
        self.cancelled
    }

    /// How many downloads are in flight.
    pub open spec fn in_flight_count(&self) -> nat {
        running_among(self.slots())
    }

    /// Whether another download may start now: the run is not cancelled,
    /// fewer downloads than the bound are in flight, and one is waiting.
    pub open spec fn may_launch(&self) -> bool {
        &&& !self.cancelled()
        &&& self.in_flight_count() < self.limit()
        &&& self.started() < self.slots().len()
    }

    /// A run over `total` resources of which at most `limit` are fetched at
    /// once.
    pub fn new(total: usize, limit: usize) -> (fresh: Scheduler)
        requires
            limit >= 1,
        ensures
            fresh.limit() == limit,
            fresh.slots() == Seq::new(total as nat, |i: int| Slot::Waiting),
            fresh.started() == 0,
            !fresh.cancelled(),
            fresh.in_flight_count() == 0,
            fresh.in_flight_count() <= fresh.limit(),
    {
        let mut slots: Vec<Slot> = Vec::new();
        let mut i: usize = 0;
        while i < total
            invariant
                i <= total,
                slots@.len() == i,
                forall|k: int| 0 <= k < i ==> (#[trigger] slots@[k]) is Waiting,
                running_among(slots@) == 0,
            decreases total - i,
        {
            let ghost before = slots@;
            slots.push(Slot::Waiting);
            assert(slots@.drop_last() =~= before);
            i += 1;
        }
        assert(slots@ =~= Seq::new(total as nat, |i: int| Slot::Waiting));
        Scheduler { limit, slots, next: 0, running: 0, cancelled: false }
    }

    /// The number of downloads in flight. It never exceeds the bound.
    pub fn in_flight(&self) -> (n: usize)
        ensures
            n == self.in_flight_count(),
            n <= self.limit(),
    {
        proof {
            use_type_invariant(self);
        }
        self.running
    }

    /// Starts the next waiting download if one may start. The caller is to
    /// begin the download whose place is returned; with `None` nothing
    /// changed.
    pub fn launch(self) -> (next: (Scheduler, Option<usize>))
        ensures
            next.0.limit() == self.limit(),
            next.0.cancelled() == self.cancelled(),
            next.0.in_flight_count() <= next.0.limit(),
            match next.1 {
                Some(place) => {
                    &&& self.may_launch()
                    &&& place == self.started()
                    &&& self.slots()[place as int] is Waiting
                    &&& next.0.slots() == self.slots().update(place as int, Slot::Running)
                    &&& next.0.started() == place + 1
                    &&& next.0.in_flight_count() == self.in_flight_count() + 1
                },
                None => {
                    &&& !self.may_launch()
                    &&& next.0.slots() == self.slots()
                    &&& next.0.started() == self.started()
                },
            },
    {
        proof {
            use_type_invariant(&self);
        }
        if self.cancelled || self.running >= self.limit || self.next >= self.slots.len() {
            return (self, None);
        }
        let Scheduler { limit, slots, next, running, cancelled } = self;
        let mut slots = slots;
        let ghost before = slots@;
        slots.set(next, Slot::Running);
        proof {
            lemma_running_update(before, next as int, Slot::Running);
        }
        (Scheduler { limit, slots, next: next + 1, running: running + 1, cancelled }, Some(next))
    }

    /// Records how the download at `place` ended. The report is taken only
    /// if that download is in flight; otherwise nothing changes and `false`
    /// is returned.
    pub fn complete(self, place: usize, outcome: DownloadOutcome) -> (next: (Scheduler, bool))
        ensures
            next.0.limit() == self.limit(),
            next.0.cancelled() == self.cancelled(),
            next.0.started() == self.started(),
            next.0.in_flight_count() <= next.0.limit(),
            next.1 == (place < self.slots().len() && self.slots()[place as int] is Running),
            next.1 ==> next.0.slots() == self.slots().update(place as int, Slot::Done(outcome))
                && next.0.in_flight_count() == self.in_flight_count() - 1,
            !next.1 ==> next.0.slots() == self.slots(),
    {
        proof {
            use_type_invariant(&self);
        }
        if place >= self.slots.len() {
            return (self, false);
        }
        let is_running = match &self.slots[place] {
            Slot::Running => true,
            _ => false,
        };
        if !is_running {
            return (self, false);
        }
        let Scheduler { limit, slots, next, running, cancelled } = self;
        let mut slots = slots;
        let ghost before = slots@;
        let ghost done = Slot::Done(outcome);
        slots.set(place, Slot::Done(outcome));
        proof {
            lemma_running_update(before, place as int, done);
        }
        (Scheduler { limit, slots, next, running: running - 1, cancelled }, true)
    }

    /// Cancels the run: no further download starts. Those in flight go on
    /// and are still to be reported.
    pub fn cancel(self) -> (next: Scheduler)
        ensures
            next.cancelled(),
            next.limit() == self.limit(),
            next.slots() == self.slots(),
            next.started() == self.started(),
            next.in_flight_count() <= next.limit(),
            !next.may_launch(),
    {
        proof {
            use_type_invariant(&self);
        }
        let Scheduler { limit, slots, next, running, cancelled: _ } = self;
        Scheduler { limit, slots, next, running, cancelled: true }
    }

    /// Whether the run is over: nothing is in flight and nothing more will
    /// start.
    pub fn finished(&self) -> (over: bool)
        ensures
            over == (self.in_flight_count() == 0 && !self.may_launch()),
    {
        proof {
            use_type_invariant(self);
        }
        self.running == 0 && (self.cancelled || self.next >= self.slots.len())
    }

    /// What the run amounts to so far: how many downloads ended in which
    /// way, and which of them did not succeed.
    pub fn summary(&self) -> (report: RunSummary)
        ensures
            report.describes(self.slots()),
    {
        let mut report = RunSummary {
            succeeded: 0,
            mismatched: 0,
            failed: 0,
            unfinished: 0,
            failures: Vec::new(),
        };
        let mut i: usize = 0;
        assert(self.slots@.take(0) =~= Seq::<Slot>::empty());
        assert(report.failures@.map_values(|f: Failure| f@) =~= failing(self.slots@.take(0)));
        while i < self.slots.len()
            invariant
                i <= self.slots@.len(),
                report.describes(self.slots@.take(i as int)),
                report.succeeded + report.mismatched + report.failed + report.unfinished == i,
            decreases self.slots@.len() - i,
        {
            let ghost seen = self.slots@.take(i as int);
            let ghost more = self.slots@.take(i + 1);
            assert(more.drop_last() =~= seen);
            assert(more.last() == self.slots@[i as int]);
            let ghost listed = report.failures@;
            match &self.slots[i] {
                Slot::Done(DownloadOutcome::Success(_)) => {
                    report.succeeded = report.succeeded + 1;
                },
                Slot::Done(outcome) => {
                    match outcome {
                        DownloadOutcome::HashMismatch { .. } => {
                            report.mismatched = report.mismatched + 1;
                        },
                        _ => {
                            report.failed = report.failed + 1;
                        },
                    }
                    let failure = Failure { place: i, outcome: outcome.clone() };
                    report.failures.push(failure);
                    assert(report.failures@.map_values(|f: Failure| f@) =~= listed.map_values(
                        |f: Failure| f@,
                    ).push(failure@));
                },
                _ => {
                    report.unfinished = report.unfinished + 1;
                },
            }
            i += 1;
        }
        assert(self.slots@.take(i as int) =~= self.slots@);
        report
    }
}

/// The ways in which a resource counts in a summary.
pub enum Tally {
    /// Fetched and verified.
    Succeeded,
    /// Fetched, but with another hash than the declared one.
    Mismatched,
    /// Not fetched: the transfer failed or the destination was refused.
    Failed,
    /// Not ended: never started, or still in flight.
    Unfinished,
}

/// How a slot counts.
pub open spec fn tally_of(slot: Slot) -> Tally {
    match slot {
        Slot::Done(DownloadOutcome::Success(_)) => Tally::Succeeded,
        Slot::Done(DownloadOutcome::HashMismatch { .. }) => Tally::Mismatched,
        Slot::Done(_) => Tally::Failed,
        _ => Tally::Unfinished,
    }
}

/// How many of `slots` count as `tally`.
pub open spec fn count_of(slots: Seq<Slot>, tally: Tally) -> nat
    decreases slots.len(),
{
    if slots.len() == 0 {
        0
    } else {
        count_of(slots.drop_last(), tally) + if tally_of(slots.last()) == tally {
            1nat
        } else {
            0nat
        }
    }
}

/// The downloads among `slots` that ended without success, each with its
/// place and its outcome, in manifest order.
pub open spec fn failing(slots: Seq<Slot>) -> Seq<(int, OutcomeView)>
    decreases slots.len(),
{
    if slots.len() == 0 {
        Seq::empty()
    } else {
        let before = failing(slots.drop_last());
        match slots.last() {
            Slot::Done(outcome) => if outcome is Success {
                before
            } else {
                before.push((slots.len() - 1, outcome@))
            },
            _ => before,
        }
    }
}

/// A download that ended without success.
#[derive(Debug, Clone, PartialEq)]
pub struct Failure {
    /// The place of the resource in the manifest.
    pub place: usize,
    /// How its download ended.
    pub outcome: DownloadOutcome,
}

impl View for Failure {
    type V = (int, OutcomeView);

    open spec fn view(&self) -> (int, OutcomeView) {
        (self.place as int, self.outcome@)
    }
}

/// What a run amounted to.
#[derive(Debug, Clone, PartialEq)]
pub struct RunSummary {
    /// Downloads that were fetched and verified.
    pub succeeded: usize,
    /// Downloads whose hash was not the declared one.
    pub mismatched: usize,
    /// Downloads that failed in transfer or whose destination was refused.
    pub failed: usize,
    /// Resources whose download never started or never ended.
    pub unfinished: usize,
    /// Every download that ended without success, in manifest order.
    pub failures: Vec<Failure>,
}

impl RunSummary {
    /// The summary is the one of a run whose resources stand as `slots`.
    pub open spec fn describes(&self, slots: Seq<Slot>) -> bool {
        &&& self.succeeded == count_of(slots, Tally::Succeeded)
        &&& self.mismatched == count_of(slots, Tally::Mismatched)
        &&& self.failed == count_of(slots, Tally::Failed)
        &&& self.unfinished == count_of(slots, Tally::Unfinished)
        &&& self.failures@.map_values(|f: Failure| f@) == failing(slots)
    }

    /// Whether the run is a success: every resource was fetched and
    /// verified.
    pub fn is_success(&self) -> (clean: bool)
        ensures
            clean == (self.mismatched == 0 && self.failed == 0 && self.unfinished == 0),
    {
        self.mismatched == 0 && self.failed == 0 && self.unfinished == 0
    }
}

} // verus!
