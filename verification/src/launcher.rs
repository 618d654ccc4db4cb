//! The consumer's side of a run: what to show for the state last observed,
//! and when the launch may go ahead.

use vstd::prelude::*;
use crate::layout::ENTRY_POINT;
use crate::stage::Stage;
use crate::tracker::{StageTracker, TrackerState};

verus! {

/// What the consumer shows.
#[derive(Clone, Copy, Debug, PartialEq, Eq, Structural)]
pub enum Screen {
    /// The launch has been made; the window may be closed.
    Started,
    /// The run has ended in `Ready`: offer the launch.
    Launch,
    /// The run is under way: a progress bar with the label of the stage,
    /// filled to the given percentage where one is defined.
    Progress { stage: Stage, percent: Option<u8> },
    /// The run has failed: say so, and offer to run the sequence again.
    Failed,
}

/// What the consumer knows: whether the launch has been made, and the state
/// of the run as last observed.
pub struct SlopDevState {
    pub running: bool,
    pub tracker: TrackerState,
}

impl SlopDevState {
    /// The percentage to fill the progress bar to, where one is defined.
    pub open spec fn percent(self) -> Option<u8> {
        match self.tracker.progress.percent() {
            Some(p) => Some(p as u8),
            None => None,
        }
    }

    /// What to show. Once the launch has been made, that is all there is to
    /// say. Before that, `Ready` offers the launch, `Failed` shows the
    /// failure, and every other stage shows its progress.
    pub open spec fn screen(self) -> Screen {
        if self.running {
            Screen::Started
        } else {
            match self.tracker.stage {
                Stage::Ready => Screen::Launch,
                Stage::Failed => Screen::Failed,
                stage => Screen::Progress { stage, percent: self.percent() },
            }
        }
    }

    /// Whether the launch may be made now: the run has ended in `Ready` and
    /// the launch has not been made yet.
    pub open spec fn may_launch(self) -> bool {
        !self.running && self.tracker.stage is Ready
    }
}

/// The consumer of a run: it polls the tracker, shows what it sees and
/// launches once the run is ready.
#[derive(Clone, Copy, Debug)]
pub struct SlopDev {
    running: bool,
    tracker: StageTracker,
}

impl View for SlopDev {
    type V = SlopDevState;

    closed spec fn view(&self) -> SlopDevState {
        SlopDevState { running: self.running, tracker: self.tracker@ }
    }
}

impl SlopDev {
    /// A consumer that has launched nothing and seen nothing yet.
    pub fn new() -> (consumer: SlopDev)
        ensures
            consumer@ == (SlopDevState { running: false, tracker: TrackerState::initial() }),
    {
        SlopDev { running: false, tracker: StageTracker::new() }
    }

    /// Whether the launch has been made.
    pub fn is_running(&self) -> (running: bool)
        ensures
            running == self@.running,
    {
        self.running
    }

    /// The state of the run as last observed.
    pub fn tracker(&self) -> (tracker: StageTracker)
        ensures
            tracker@ == self@.tracker,
    {
        self.tracker
    }

    /// Takes in what the tracker shows now and returns what to show for it.
    pub fn update(&mut self, observed: StageTracker) -> (screen: Screen)
        ensures
            final(self)@ == (SlopDevState { running: old(self)@.running, tracker: observed@ }),
            screen == final(self)@.screen(),
    {
        self.tracker = observed;
        if self.running {
            Screen::Started
        } else {
            match observed.get_stage() {
                Stage::Ready => Screen::Launch,
                Stage::Failed => Screen::Failed,
                stage => Screen::Progress { stage, percent: observed.progress().percent() },
            }
        }
    }

    /// Makes the launch if it may be made: marks the consumer as running and
    /// returns the entry point of the content tree for the launcher to start.
    /// Where the run is not ready, or the launch was made before, nothing
    /// changes and nothing is returned.
    pub fn start_game(&mut self) -> (target: Option<&'static str>)
        ensures
            target is Some == old(self)@.may_launch(),
            target matches Some(path) ==> path@ == ENTRY_POINT@,
            final(self)@ == (SlopDevState {
                running: old(self)@.running || old(self)@.may_launch(),
                tracker: old(self)@.tracker,
            }),
    {
        if !self.running && matches!(self.tracker.get_stage(), Stage::Ready) {
            self.running = true;
            Some(ENTRY_POINT)
        } else {
            None
        }
    }
}

} // verus!
