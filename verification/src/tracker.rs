//! The observable state of a run: the current stage and the progress
//! counters, as a consumer sees them.

use vstd::prelude::*;
use crate::progress::{Progress, ProgressCounters};
use crate::stage::Stage;

verus! {

/// What a tracker shows: a stage and the counters of the transfer under way.
pub struct TrackerState {
    pub stage: Stage,
    pub progress: Progress,
}

impl TrackerState {
    /// The counters are consistent.
    pub open spec fn wf(self) -> bool {
        self.progress.wf()
    }

    /// A run that has not started: bootstrapping, nothing transferred, size
    /// unknown.
    pub open spec fn initial() -> TrackerState {
        TrackerState {
            stage: Stage::Bootstrapping,
            progress: Progress { transferred: 0, total: None },
        }
    }

    /// The state after a request to show `next`: the request is honoured
    /// where `next` may follow the current stage and ignored otherwise.
    pub open spec fn set_stage(self, next: Stage) -> TrackerState {
        if self.stage.may_advance_to(next) {
            TrackerState { stage: next, progress: self.progress }
        } else {
            self
        }
    }

    /// The state after a report of new counter values: consistent values
    /// replace the old ones, inconsistent values are ignored.
    pub open spec fn update_progress(self, transferred: u64, total: Option<u64>) -> TrackerState {
        let reported = Progress { transferred, total };
        if reported.wf() {
            TrackerState { stage: self.stage, progress: reported }
        } else {
            self
        }
    }

    /// The state after a sequence of stage requests, made in order.
    pub open spec fn after(self, requests: Seq<Stage>) -> TrackerState
        decreases requests.len(),
    {
        if requests.len() == 0 {
            self
        } else {
            self.after(requests.drop_last()).set_stage(requests.last())
        }
    }
}

/// The stage and progress of a run, as handed to consumers. The stage only
/// ever moves forward and the counters are always consistent.
#[derive(Clone, Copy, Debug)]
pub struct StageTracker {
    stage: Stage,
    progress: ProgressCounters,
}

impl View for StageTracker {
    type V = TrackerState;

    closed spec fn view(&self) -> TrackerState {
        TrackerState { stage: self.stage, progress: self.progress@ }
    }
}

impl StageTracker {
    /// The invariant of the type: the counters are consistent.
    #[verifier::type_invariant]
    pub open spec fn inv(self) -> bool {
        self@.wf()
    }

    /// The tracker of a run that has not started.
    pub fn new() -> (tracker: StageTracker)
        ensures
            tracker@ == TrackerState::initial(),
    {
        StageTracker { stage: Stage::Bootstrapping, progress: ProgressCounters::new() }
    }

    /// The current stage.
    pub fn get_stage(&self) -> (stage: Stage)
        ensures
            stage == self@.stage,
    {
        self.stage
    }

    /// The current counters.
    pub fn progress(&self) -> (counters: ProgressCounters)
        ensures
            counters@ == self@.progress,
    {
        self.progress
    }

    /// Moves to `next` if it may follow the current stage, and says whether
    /// it did. A request that would go backwards, repeat the current stage
    /// or leave a terminal stage changes nothing.
    pub fn set_stage(&mut self, next: Stage) -> (moved: bool)
        ensures
            moved == old(self)@.stage.may_advance_to(next),
            final(self)@ == old(self)@.set_stage(next),
    {
        proof {
            use_type_invariant(&*self);
        }
        if self.stage.may_advance_to(next) {
            self.stage = next;
            true
        } else {
            false
        }
    }

    /// Replaces the counters by the reported values if these are consistent
    /// (the transferred count within a known total), and says whether it
    /// did.
    pub fn update_progress(&mut self, transferred: u64, total: Option<u64>) -> (accepted: bool)
        ensures
            accepted == (Progress { transferred, total }).wf(),
            final(self)@ == old(self)@.update_progress(transferred, total),
            final(self)@.wf(),
    {
        proof {
            use_type_invariant(&*self);
        }
        match ProgressCounters::from_counts(transferred, total) {
            Some(counters) => {
                self.progress = counters;
                true
            },
            None => false,
        }
    }
}

/// Whatever stages are requested and in whatever order, the stages that a
/// tracker shows never go backwards: what it shows later is what it showed
/// earlier, or a stage that may follow it. A terminal stage, once shown,
/// stays.
pub proof fn lemma_observed_stages_in_order(
    start: TrackerState,
    requests: Seq<Stage>,
    earlier: int,
    later: int,
)
    requires
        0 <= earlier <= later <= requests.len(),
    ensures
        ({
            let a = start.after(requests.take(earlier)).stage;
            let b = start.after(requests.take(later)).stage;
            a == b || a.may_advance_to(b)
        }),
    decreases later,
{
    if earlier < later {
        lemma_observed_stages_in_order(start, requests, earlier, later - 1);
        assert(requests.take(later).drop_last() =~= requests.take(later - 1));
    }
}

} // verus!
