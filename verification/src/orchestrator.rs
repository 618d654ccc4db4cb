//! The orchestrator: the state machine that sequences dependency bootstrap,
//! version check, download and extraction.
//!
//! The orchestrator decides; the host acts. The host asks for the pending
//! action, performs it, and reports what came of it as an event; the
//! orchestrator answers with the next action. A failure ends the run where
//! it stands: nothing is cleaned up, so a temporary archive stays on disk
//! for inspection and the next run's download replaces it.

use vstd::prelude::*;
use crate::download::{
    sink_after, Download, DownloadEvent, DownloadPhase, DownloadState, SizePolicy,
};
use crate::error::{is_success, UpdateError};
use crate::layout::{Bundle, ConfigFile, ENTRY_POINT};
use crate::stage::Stage;
use crate::tracker::{StageTracker, TrackerState};
use crate::version::{
    needs_update, parse_spec, read_local, read_local_spec, read_remote, read_remote_spec,
};

verus! {

/// The step of the sequence that a run is at.
#[derive(Clone, Copy, Debug, PartialEq, Eq, Structural)]
pub enum Step {
    /// Finding out whether the dependency tree is there.
    Probe,
    /// Downloading the archive of a bundle.
    Fetch(Bundle),
    /// Extracting the archive of a bundle into its tree.
    Extract(Bundle),
    /// Deleting the archive of a bundle.
    Remove(Bundle),
    /// Creating the directory of the configuration files.
    MakeConfigDir,
    /// Writing a configuration file.
    Configure(ConfigFile),
    /// Reading the local version marker.
    ReadLocal,
    /// Fetching the remote version marker.
    FetchRemote,
    /// Removing the previous content tree.
    Clear,
    /// Recording the new version marker.
    Persist,
    /// Nothing is left to do: the run has ended.
    Done,
}

/// What the host is to do next. Each action is answered by one event.
#[derive(Clone, Copy, Debug, PartialEq, Eq, Structural)]
pub enum Action {
    /// Report whether the dependency tree exists: `Event::TreeProbed`.
    ProbeDependencyTree,
    /// Do what the phase of the bundle's download asks for and report it:
    /// `Event::Download`.
    Download(Bundle, DownloadPhase),
    /// Extract the bundle's archive into the bundle's tree, creating the
    /// tree if it is absent: `Event::Completed`.
    Extract(Bundle),
    /// Delete the bundle's archive: `Event::Completed`.
    RemoveArchive(Bundle),
    /// Create the directory of the configuration files:
    /// `Event::Completed`.
    CreateConfigDir,
    /// Write the configuration file: `Event::Completed`.
    WriteConfig(ConfigFile),
    /// Read the local marker file and report its bytes, or that it is
    /// absent: `Event::LocalMarker`.
    ReadLocalMarker,
    /// Get the remote marker and report the status and body of the
    /// response: `Event::RemoteMarker`.
    FetchRemoteMarker,
    /// Remove the content tree, if there is one: `Event::Completed`.
    ClearContentTree,
    /// Overwrite the local marker file with this marker:
    /// `Event::Completed`.
    PersistMarker(u64),
    /// Stop: the run has ended.
    Halt,
}

/// What the host reports after performing an action.
#[derive(Debug)]
pub enum Event {
    /// Whether the dependency tree exists.
    TreeProbed(bool),
    /// What came of a step of a download.
    Download(DownloadEvent),
    /// The action was carried out.
    Completed,
    /// The bytes of the local marker file, or `None` where there is none.
    LocalMarker(Option<Vec<u8>>),
    /// The response to the request for the remote marker.
    RemoteMarker { status: u16, body: Vec<u8> },
    /// The action failed.
    Failed(UpdateError),
}

/// The failure that ended a run: the step that failed and why.
#[derive(Clone, Copy, Debug, PartialEq, Eq, Structural)]
pub struct Failure {
    pub during: Step,
    pub cause: UpdateError,
}

impl Step {
    /// The stage that a step belongs to. The last step belongs to `Failed`
    /// if the run failed and to `Ready` if it did not.
    pub open spec fn stage(self, failed: bool) -> Stage {
        match self {
            Step::Probe => Stage::Bootstrapping,
            Step::Fetch(Bundle::Dependency) => Stage::Bootstrapping,
            Step::Extract(Bundle::Dependency) => Stage::Bootstrapping,
            Step::Remove(Bundle::Dependency) => Stage::Bootstrapping,
            Step::MakeConfigDir => Stage::Bootstrapping,
            Step::Configure(_) => Stage::Bootstrapping,
            Step::ReadLocal => Stage::CheckingUpdate,
            Step::FetchRemote => Stage::CheckingUpdate,
            Step::Fetch(Bundle::Content) => Stage::Downloading,
            Step::Clear => Stage::Extracting,
            Step::Extract(Bundle::Content) => Stage::Extracting,
            Step::Remove(Bundle::Content) => Stage::Extracting,
            Step::Persist => Stage::Extracting,
            Step::Done => if failed {
                Stage::Failed
            } else {
                Stage::Ready
            },
        }
    }
}

impl Action {
    /// Whether performing the action takes a call to the network.
    pub open spec fn spec_uses_network(self) -> bool {
        match self {
            Action::Download(_, DownloadPhase::Opening) => true,
            Action::Download(_, DownloadPhase::Reading) => true,
            Action::FetchRemoteMarker => true,
            _ => false,
        }
    }

    /// Whether performing the action takes a call to the network.
    #[verifier::when_used_as_spec(spec_uses_network)]
    pub fn uses_network(self) -> (b: bool)
        ensures
            b == self.spec_uses_network(),
    {
        match self {
            Action::Download(_, DownloadPhase::Opening) => true,
            Action::Download(_, DownloadPhase::Reading) => true,
            Action::FetchRemoteMarker => true,
            _ => false,
        }
    }
}

impl Event {
    /// The bytes of the local marker file that the event reports.
    pub open spec fn local_text(self) -> Option<Seq<u8>> {
        match self {
            Event::LocalMarker(Some(bytes)) => Some(bytes@),
            _ => None,
        }
    }
}

/// What a run is: the step it is at, what it shows, the download under way
/// and the markers it knows.
pub struct OrchestratorState {
    /// The step that the pending action belongs to.
    pub step: Step,
    /// What consumers see.
    pub tracker: TrackerState,
    /// The download under way, or the last one.
    pub download: DownloadState,
    /// The local version marker: what the marker file records.
    pub local: u64,
    /// The remote version marker, once fetched.
    pub remote: u64,
    /// Why the run failed, if it did.
    pub failure: Option<Failure>,
}

impl OrchestratorState {
    /// A run that has not started.
    pub open spec fn initial(policy: SizePolicy) -> OrchestratorState {
        OrchestratorState {
            step: Step::Probe,
            tracker: TrackerState::initial(),
            download: DownloadState::initial(policy),
            local: 0,
            remote: 0,
            failure: None,
        }
    }

    /// The stage that consumers see.
    pub open spec fn stage(self) -> Stage {
        self.tracker.stage
    }

    /// The tracker and the download are consistent, the stage shown is the
    /// stage of the current step, only a run that has ended has a failure,
    /// a download that is being stepped has not finished, and content is
    /// only replaced when the remote marker is newer than the local one.
    pub open spec fn wf(self) -> bool {
        &&& self.tracker.wf()
        &&& self.download.wf()
        &&& self.tracker.stage == self.step.stage(self.failure is Some)
        &&& self.failure is Some ==> self.step is Done
        &&& self.step is Fetch ==> !self.download.phase.is_finished()
        &&& self.tracker.stage is Downloading || self.tracker.stage is Extracting ==> self.remote
            > self.local
    }

    /// The action that the host is to perform.
    pub open spec fn action(self) -> Action {
        match self.step {
            Step::Probe => Action::ProbeDependencyTree,
            Step::Fetch(bundle) => Action::Download(bundle, self.download.phase),
            Step::Extract(bundle) => Action::Extract(bundle),
            Step::Remove(bundle) => Action::RemoveArchive(bundle),
            Step::MakeConfigDir => Action::CreateConfigDir,
            Step::Configure(file) => Action::WriteConfig(file),
            Step::ReadLocal => Action::ReadLocalMarker,
            Step::FetchRemote => Action::FetchRemoteMarker,
            Step::Clear => Action::ClearContentTree,
            Step::Persist => Action::PersistMarker(self.remote),
            Step::Done => Action::Halt,
        }
    }

    /// The run at another step, showing `stage` if that is ahead of what it
    /// shows.
    pub open spec fn goto(self, step: Step, stage: Stage) -> OrchestratorState {
        OrchestratorState {
            step,
            tracker: self.tracker.set_stage(stage),
            download: self.download,
            local: self.local,
            remote: self.remote,
            failure: self.failure,
        }
    }

    /// The run at another step of the same stage.
    pub open spec fn proceed(self, step: Step) -> OrchestratorState {
        self.goto(step, self.tracker.stage)
    }

    /// The run, ended by a failure of the current step.
    pub open spec fn fail(self, cause: UpdateError) -> OrchestratorState {
        OrchestratorState {
            step: Step::Done,
            tracker: self.tracker.set_stage(Stage::Failed),
            download: self.download,
            local: self.local,
            remote: self.remote,
            failure: Some(Failure { during: self.step, cause }),
        }
    }

    /// The run, starting the download of a bundle.
    pub open spec fn begin_fetch(self, bundle: Bundle, stage: Stage) -> OrchestratorState {
        OrchestratorState {
            step: Step::Fetch(bundle),
            tracker: self.tracker.set_stage(stage),
            download: DownloadState::initial(self.download.policy),
            local: self.local,
            remote: self.remote,
            failure: self.failure,
        }
    }

    /// The run after a step of the download under way.
    pub open spec fn fetch_step(self, bundle: Bundle, event: DownloadEvent) -> OrchestratorState {
        let stepped = OrchestratorState {
            step: self.step,
            tracker: sink_after(self.tracker, self.download, event),
            download: self.download.step(event),
            local: self.local,
            remote: self.remote,
            failure: self.failure,
        };
        match stepped.download.phase {
            DownloadPhase::Failed(cause) => stepped.fail(UpdateError::from_download(cause)),
            DownloadPhase::Complete => match bundle {
                Bundle::Dependency => stepped.proceed(Step::Extract(Bundle::Dependency)),
                Bundle::Content => stepped.goto(Step::Clear, Stage::Extracting),
            },
            _ => stepped,
        }
    }

    /// The run after the answer to the request for the remote marker.
    pub open spec fn compare(self, status: u16, body: Seq<u8>) -> OrchestratorState {
        match read_remote_spec(status, body) {
            Err(cause) => self.fail(cause),
            Ok(remote) => {
                let known = OrchestratorState {
                    step: self.step,
                    tracker: self.tracker,
                    download: self.download,
                    local: self.local,
                    remote,
                    failure: self.failure,
                };
                if needs_update(self.local, remote) {
                    known.begin_fetch(Bundle::Content, Stage::Downloading)
                } else {
                    known.goto(Step::Done, Stage::Ready)
                }
            },
        }
    }

    /// The run after one event.
    ///
    /// A run that has ended stays as it is. A reported failure ends the run
    /// in `Failed`, and so does a failed download, a remote marker that
    /// comes with a status other than success, and one that does not parse.
    /// Otherwise the event that answers the pending action moves the run to
    /// the next step of the sequence, and any other event changes nothing:
    ///
    /// - bootstrapping: a dependency tree that is present leads straight to
    ///   the version check; an absent one is first downloaded and extracted,
    ///   its archive deleted, and the directory of the configuration files
    ///   and the two files in it written;
    /// - checking: the local marker is read (zero where absent or not a
    ///   marker), the remote marker fetched, and the two compared: a newer
    ///   remote marker leads to the download, anything else to `Ready`;
    /// - downloading: the content archive is fetched;
    /// - extracting: the previous content tree is removed, the archive
    ///   extracted and deleted, and only then the new marker recorded.
    pub open spec fn step(self, event: Event) -> OrchestratorState {
        if self.step is Done {
            self
        } else {
            match (self.step, event) {
                (_, Event::Failed(cause)) => self.fail(cause),
                (Step::Probe, Event::TreeProbed(present)) => if present {
                    self.goto(Step::ReadLocal, Stage::CheckingUpdate)
                } else {
                    self.begin_fetch(Bundle::Dependency, Stage::Bootstrapping)
                },
                (Step::Fetch(bundle), Event::Download(report)) => self.fetch_step(bundle, report),
                (Step::Extract(bundle), Event::Completed) => self.proceed(Step::Remove(bundle)),
                (Step::Remove(Bundle::Dependency), Event::Completed) => self.proceed(
                    Step::MakeConfigDir,
                ),
                (Step::MakeConfigDir, Event::Completed) => self.proceed(
                    Step::Configure(ConfigFile::Plugin),
                ),
                (Step::Configure(ConfigFile::Plugin), Event::Completed) => self.proceed(
                    Step::Configure(ConfigFile::Loader),
                ),
                (Step::Configure(ConfigFile::Loader), Event::Completed) => self.goto(
                    Step::ReadLocal,
                    Stage::CheckingUpdate,
                ),
                (Step::ReadLocal, Event::LocalMarker(_)) => OrchestratorState {
                    step: Step::FetchRemote,
                    tracker: self.tracker,
                    download: self.download,
                    local: read_local_spec(event.local_text()),
                    remote: self.remote,
                    failure: self.failure,
                },
                (Step::FetchRemote, Event::RemoteMarker { status, body }) => self.compare(
                    status,
                    body@,
                ),
                (Step::Clear, Event::Completed) => self.proceed(Step::Extract(Bundle::Content)),
                (Step::Remove(Bundle::Content), Event::Completed) => self.proceed(Step::Persist),
                (Step::Persist, Event::Completed) => OrchestratorState {
                    step: Step::Done,
                    tracker: self.tracker.set_stage(Stage::Ready),
                    download: self.download,
                    local: self.remote,
                    remote: self.remote,
                    failure: self.failure,
                },
                _ => self,
            }
        }
    }

    /// The run after a sequence of events.
    pub open spec fn run(self, events: Seq<Event>) -> OrchestratorState
        decreases events.len(),
    {
        if events.len() == 0 {
            self
        } else {
            self.run(events.drop_last()).step(events.last())
        }
    }
}

/// The orchestrator of one run.
#[derive(Debug)]
pub struct Orchestrator {
    step: Step,
    tracker: StageTracker,
    download: Download,
    local: u64,
    remote: u64,
    failure: Option<Failure>,
}

impl View for Orchestrator {
    type V = OrchestratorState;

    closed spec fn view(&self) -> OrchestratorState {
        OrchestratorState {
            step: self.step,
            tracker: self.tracker@,
            download: self.download@,
            local: self.local,
            remote: self.remote,
            failure: self.failure,
        }
    }
}

impl Orchestrator {
    /// The invariant of the type: the run is consistent.
    #[verifier::type_invariant]
    pub open spec fn inv(self) -> bool {
        self@.wf()
    }

    /// A run that has not started. Its first action is to probe for the
    /// dependency tree.
    pub fn new(policy: SizePolicy) -> (orchestrator: Orchestrator)
        ensures
            orchestrator@ == OrchestratorState::initial(policy),
            orchestrator@.wf(),
    {
        Orchestrator {
            step: Step::Probe,
            tracker: StageTracker::new(),
            download: Download::new(policy),
            local: 0,
            remote: 0,
            failure: None,
        }
    }

    /// The action that the host is to perform now.
    pub fn pending(&self) -> (action: Action)
        ensures
            action == self@.action(),
    {
        match self.step {
            Step::Probe => Action::ProbeDependencyTree,
            Step::Fetch(bundle) => Action::Download(bundle, self.download.phase()),
            Step::Extract(bundle) => Action::Extract(bundle),
            Step::Remove(bundle) => Action::RemoveArchive(bundle),
            Step::MakeConfigDir => Action::CreateConfigDir,
            Step::Configure(file) => Action::WriteConfig(file),
            Step::ReadLocal => Action::ReadLocalMarker,
            Step::FetchRemote => Action::FetchRemoteMarker,
            Step::Clear => Action::ClearContentTree,
            Step::Persist => Action::PersistMarker(self.remote),
            Step::Done => Action::Halt,
        }
    }

    /// The stage that consumers see.
    pub fn stage(&self) -> (stage: Stage)
        ensures
            stage == self@.stage(),
    {
        self.tracker.get_stage()
    }

    /// What consumers see: the stage and the counters.
    pub fn tracker(&self) -> (tracker: StageTracker)
        ensures
            tracker@ == self@.tracker,
    {
        self.tracker
    }

    /// The local version marker, as far as the run knows it: zero until the
    /// marker file has been read, the new marker once it has been recorded.
    pub fn local_marker(&self) -> (marker: u64)
        ensures
            marker == self@.local,
    {
        self.local
    }

    /// Why the run failed, if it did.
    pub fn failure(&self) -> (failure: Option<Failure>)
        ensures
            failure == self@.failure,
    {
        self.failure
    }

    /// Whether a launch is permitted: the run has ended in `Ready`.
    pub fn is_ready(&self) -> (ready: bool)
        ensures
            ready == (self@.stage() is Ready),
    {
        matches!(self.tracker.get_stage(), Stage::Ready)
    }

    /// The entry point of the content tree, once a launch is permitted.
    pub fn launch_target(&self) -> (target: Option<&'static str>)
        ensures
            target is Some == (self@.stage() is Ready),
            target matches Some(path) ==> path@ == ENTRY_POINT@,
    {
        if self.is_ready() {
            Some(ENTRY_POINT)
        } else {
            None
        }
    }

    /// Starts the whole sequence again after a failure, and says whether it
    /// did. A run that has not failed is left alone.
    pub fn restart(&mut self) -> (restarted: bool)
        ensures
            restarted == (old(self)@.stage() is Failed),
            final(self)@ == if restarted {
                OrchestratorState::initial(old(self)@.download.policy)
            } else {
                old(self)@
            },
            final(self)@.wf(),
    {
        proof {
            use_type_invariant(&*self);
        }
        if matches!(self.tracker.get_stage(), Stage::Failed) {
            *self = Orchestrator::new(self.download.policy());
            true
        } else {
            false
        }
    }

    /// Takes the host's report on the pending action, moves the run on and
    /// returns the action to perform next.
    pub fn step(&mut self, event: Event) -> (action: Action)
        ensures
            final(self)@ == old(self)@.step(event),
            final(self)@.wf(),
            action == final(self)@.action(),
    {
        proof {
            use_type_invariant(&*self);
            lemma_step_preserves_wf(self@, event);
        }
        let step = self.step;
        let mut tracker = self.tracker;
        let mut download = self.download;
        let mut local = self.local;
        let mut remote = self.remote;
        let mut failure = self.failure;
        let mut next = step;
        match (step, event) {
            (Step::Done, _) => {},
            (_, Event::Failed(cause)) => {
                tracker.set_stage(Stage::Failed);
                failure = Some(Failure { during: step, cause });
                next = Step::Done;
            },
            (Step::Probe, Event::TreeProbed(present)) => {
                if present {
                    tracker.set_stage(Stage::CheckingUpdate);
                    next = Step::ReadLocal;
                } else {
                    tracker.set_stage(Stage::Bootstrapping);
                    download = Download::new(download.policy());
                    next = Step::Fetch(Bundle::Dependency);
                }
            },
            (Step::Fetch(bundle), Event::Download(report)) => {
                match download.step(report, &mut tracker) {
                    DownloadPhase::Failed(cause) => {
                        tracker.set_stage(Stage::Failed);
                        failure = Some(
                            Failure { during: step, cause: UpdateError::from_download(cause) },
                        );
                        next = Step::Done;
                    },
                    DownloadPhase::Complete => match bundle {
                        Bundle::Dependency => {
                            next = Step::Extract(Bundle::Dependency);
                        },
                        Bundle::Content => {
                            tracker.set_stage(Stage::Extracting);
                            next = Step::Clear;
                        },
                    },
                    _ => {},
                }
            },
            (Step::Extract(bundle), Event::Completed) => {
                next = Step::Remove(bundle);
            },
            (Step::Remove(Bundle::Dependency), Event::Completed) => {
                next = Step::MakeConfigDir;
            },
            (Step::MakeConfigDir, Event::Completed) => {
                next = Step::Configure(ConfigFile::Plugin);
            },
            (Step::Configure(ConfigFile::Plugin), Event::Completed) => {
                next = Step::Configure(ConfigFile::Loader);
            },
            (Step::Configure(ConfigFile::Loader), Event::Completed) => {
                tracker.set_stage(Stage::CheckingUpdate);
                next = Step::ReadLocal;
            },
            (Step::ReadLocal, Event::LocalMarker(contents)) => {
                local = match &contents {
                    Some(bytes) => read_local(Some(bytes.as_slice())),
                    None => read_local(None),
                };
                next = Step::FetchRemote;
            },
            (Step::FetchRemote, Event::RemoteMarker { status, body }) => {
                match read_remote(status, body.as_slice()) {
                    Err(cause) => {
                        tracker.set_stage(Stage::Failed);
                        failure = Some(Failure { during: step, cause });
                        next = Step::Done;
                    },
                    Ok(marker) => {
                        remote = marker;
                        if needs_update(local, marker) {
                            tracker.set_stage(Stage::Downloading);
                            download = Download::new(download.policy());
                            next = Step::Fetch(Bundle::Content);
                        } else {
                            tracker.set_stage(Stage::Ready);
                            next = Step::Done;
                        }
                    },
                }
            },
            (Step::Clear, Event::Completed) => {
                next = Step::Extract(Bundle::Content);
            },
            (Step::Remove(Bundle::Content), Event::Completed) => {
                next = Step::Persist;
            },
            (Step::Persist, Event::Completed) => {
                tracker.set_stage(Stage::Ready);
                local = remote;
                next = Step::Done;
            },
            _ => {},
        }
        *self = Orchestrator { step: next, tracker, download, local, remote, failure };
        self.pending()
    }
}

/// Every step keeps a run consistent.
pub proof fn lemma_step_preserves_wf(state: OrchestratorState, event: Event)
    requires
        state.wf(),
    ensures
        state.step(event).wf(),
{
    if let (Step::Fetch(_), Event::Download(report)) = (state.step, event) {
        crate::download::lemma_step_preserves_wf(state.download, report);
    }
}

/// A run stays consistent whatever the host reports: at every point the
/// counters that consumers see hold a transferred count within the known
/// total.
pub proof fn lemma_run_preserves_wf(state: OrchestratorState, events: Seq<Event>)
    requires
        state.wf(),
    ensures
        state.run(events).wf(),
        state.run(events).tracker.progress.wf(),
    decreases events.len(),
{
    if events.len() > 0 {
        lemma_run_preserves_wf(state, events.drop_last());
        lemma_step_preserves_wf(state.run(events.drop_last()), events.last());
    }
}

/// The moves between stages that a run makes: to the next stage of the
/// sequence, from the version check straight to `Ready`, or to `Failed`.
pub open spec fn follows(from: Stage, to: Stage) -> bool {
    ||| from is Bootstrapping && to is CheckingUpdate
    ||| from is CheckingUpdate && to is Downloading
    ||| from is CheckingUpdate && to is Ready
    ||| from is Downloading && to is Extracting
    ||| from is Extracting && to is Ready
    ||| !from.is_terminal() && to is Failed
}

/// One step leaves the stage as it is or makes one of the moves of
/// `follows`: no stage is entered but from its predecessor.
pub proof fn lemma_step_follows(state: OrchestratorState, event: Event)
    requires
        state.wf(),
    ensures
        state.step(event).stage() == state.stage() || follows(
            state.stage(),
            state.step(event).stage(),
        ),
{
}

/// The stages that a run shows never go out of order: over any sequence of
/// events, what is shown later is what was shown earlier or a stage that
/// may follow it, and a terminal stage, once shown, stays.
pub proof fn lemma_stages_in_order(
    state: OrchestratorState,
    events: Seq<Event>,
    earlier: int,
    later: int,
)
    requires
        state.wf(),
        0 <= earlier <= later <= events.len(),
    ensures
        ({
            let a = state.run(events.take(earlier)).stage();
            let b = state.run(events.take(later)).stage();
            a == b || a.may_advance_to(b)
        }),
    decreases later,
{
    if earlier < later {
        let before = events.take(later - 1);
        lemma_stages_in_order(state, events, earlier, later - 1);
        assert(events.take(later).drop_last() =~= before);
        lemma_run_preserves_wf(state, before);
        lemma_step_follows(state.run(before), events[later - 1]);
    }
}

/// Whether the run shows `stage` at some point along the events.
pub open spec fn shown_along(state: OrchestratorState, events: Seq<Event>, stage: Stage) -> bool {
    exists|i: int|
        0 <= i <= events.len() && (#[trigger] state.run(events.take(i))).stage() == stage
}

proof fn lemma_shown_along_extends(state: OrchestratorState, events: Seq<Event>, stage: Stage)
    requires
        events.len() > 0,
        shown_along(state, events.drop_last(), stage),
    ensures
        shown_along(state, events, stage),
{
    let shorter = events.drop_last();
    let i = choose|i: int|
        0 <= i <= shorter.len() && (#[trigger] state.run(shorter.take(i))).stage() == stage;
    assert(shorter.take(i) =~= events.take(i));
}

/// No stage is shown whose predecessors were skipped: a run that starts in
/// `Bootstrapping` and shows a later stage other than `Failed` has shown the
/// version check on its way, and one that shows `Extracting` has shown
/// `Downloading` too.
pub proof fn lemma_predecessors_were_shown(state: OrchestratorState, events: Seq<Event>)
    requires
        state.wf(),
        state.stage() is Bootstrapping,
    ensures
        ({
            let end = state.run(events).stage();
            &&& !(end is Bootstrapping) && !(end is Failed) ==> shown_along(
                state,
                events,
                Stage::CheckingUpdate,
            )
            &&& end is Extracting ==> shown_along(state, events, Stage::Downloading)
        }),
    decreases events.len(),
{
    if events.len() > 0 {
        let shorter = events.drop_last();
        let before = state.run(shorter);
        let end = state.run(events).stage();
        lemma_predecessors_were_shown(state, shorter);
        lemma_run_preserves_wf(state, shorter);
        lemma_step_follows(before, events.last());
        assert(events.take(events.len() as int) =~= events);
        if !(end is Bootstrapping) && !(end is Failed) && !(before.stage() is Bootstrapping) {
            lemma_shown_along_extends(state, events, Stage::CheckingUpdate);
        }
        if end is Extracting && before.stage() is Extracting {
            lemma_shown_along_extends(state, events, Stage::Downloading);
        }
    }
}

/// A run that has ended stays as it is, whatever is reported to it.
pub proof fn lemma_ended_run_is_frozen(state: OrchestratorState, events: Seq<Event>)
    requires
        state.step is Done,
    ensures
        state.run(events) == state,
    decreases events.len(),
{
    if events.len() > 0 {
        lemma_ended_run_is_frozen(state, events.drop_last());
    }
}

/// A fresh run is consistent and begins by probing for the dependency
/// tree.
pub proof fn lemma_fresh_run(policy: SizePolicy)
    ensures
        OrchestratorState::initial(policy).wf(),
        OrchestratorState::initial(policy).step is Probe,
        OrchestratorState::initial(policy).stage() is Bootstrapping,
{
}

/// With the dependency tree in place, bootstrapping makes no call to the
/// network and leads straight to the version check: a run that begins
/// probes for the tree, which takes no network, and on finding it turns to
/// the local marker at once, leaving counters and markers as they were.
pub proof fn lemma_present_tree_skips_bootstrap(state: OrchestratorState)
    requires
        state.wf(),
        state.step is Probe,
    ensures
        state.stage() is Bootstrapping,
        state.action() == Action::ProbeDependencyTree,
        !state.action().uses_network(),
        ({
            let checked = state.step(Event::TreeProbed(true));
            &&& checked.stage() is CheckingUpdate
            &&& checked.action() == Action::ReadLocalMarker
            &&& !checked.action().uses_network()
            &&& checked.tracker.progress == state.tracker.progress
            &&& checked.download == state.download
            &&& checked.local == state.local
        }),
{
}

/// Where the remote marker is not newer than the local one, the run ends in
/// `Ready` at once and stays there: extraction is never entered, no marker
/// is ever recorded, and the local marker is what it was.
pub proof fn lemma_current_content_is_kept(
    state: OrchestratorState,
    status: u16,
    body: Vec<u8>,
    later: Seq<Event>,
)
    requires
        state.wf(),
        state.step is FetchRemote,
        is_success(status),
        parse_spec(body@) matches Ok(remote) && remote <= state.local,
    ensures
        ({
            let end = state.step(Event::RemoteMarker { status, body }).run(later);
            &&& end.stage() is Ready
            &&& end.action() == Action::Halt
            &&& end.local == state.local
        }),
{
    lemma_ended_run_is_frozen(state.step(Event::RemoteMarker { status, body }), later);
}

/// A failure that the host reports ends the run: whatever step a run is
/// at, the report leaves it in `Failed` with that step and the cause on
/// record.
pub proof fn lemma_reported_failure_ends_run(state: OrchestratorState, cause: UpdateError)
    requires
        state.wf(),
        !(state.step is Done),
    ensures
        state.step(Event::Failed(cause)).stage() is Failed,
        state.step(Event::Failed(cause)).failure == Some(Failure { during: state.step, cause }),
{
}

/// A failure keeps the local marker. When an event fails a run - an
/// extraction that fails after a successful download in particular - the run
/// stays in `Failed` with the step that failed on record, no marker is
/// recorded, and the local marker is what it was before, whatever is
/// reported afterwards.
pub proof fn lemma_failure_keeps_marker(
    state: OrchestratorState,
    event: Event,
    later: Seq<Event>,
)
    requires
        state.wf(),
        !(state.step is Done),
        state.step(event).stage() is Failed,
    ensures
        ({
            let end = state.step(event).run(later);
            &&& end.stage() is Failed
            &&& end.action() == Action::Halt
            &&& end.failure matches Some(failure) && failure.during == state.step
            &&& end.local == state.local
        }),
{
    lemma_step_preserves_wf(state, event);
    lemma_ended_run_is_frozen(state.step(event), later);
}

/// Whether, somewhere along the events, the step `at` was answered by
/// `Event::Completed`.
pub open spec fn completed_along(state: OrchestratorState, events: Seq<Event>, at: Step) -> bool {
    exists|i: int|
        0 <= i < events.len() && (#[trigger] state.run(events.take(i))).step == at
            && events[i] is Completed
}

proof fn lemma_completed_along_extends(
    state: OrchestratorState,
    events: Seq<Event>,
    at: Step,
)
    requires
        events.len() > 0,
        completed_along(state, events.drop_last(), at),
    ensures
        completed_along(state, events, at),
{
    let shorter = events.drop_last();
    let i = choose|i: int|
        0 <= i < shorter.len() && (#[trigger] state.run(shorter.take(i))).step == at
            && shorter[i] is Completed;
    assert(shorter.take(i) =~= events.take(i));
}

proof fn lemma_removal_follows_extraction(state: OrchestratorState, events: Seq<Event>)
    requires
        state.wf(),
        state.step != Step::Remove(Bundle::Content),
        state.run(events).step == Step::Remove(Bundle::Content),
    ensures
        completed_along(state, events, Step::Extract(Bundle::Content)),
    decreases events.len(),
{
    if events.len() > 0 {
        let before = state.run(events.drop_last());
        lemma_run_preserves_wf(state, events.drop_last());
        if before.step == Step::Remove(Bundle::Content) {
            lemma_removal_follows_extraction(state, events.drop_last());
            lemma_completed_along_extends(state, events, Step::Extract(Bundle::Content));
        }
    }
}

/// The marker is recorded only after the content it stands for has been
/// extracted. Over any sequence of events, a run that was not yet past the
/// extraction and has come to the point of recording the marker has had its
/// extraction of the content archive, and the deletion of that archive,
/// answered by `Event::Completed`.
pub proof fn lemma_marker_recorded_after_extraction(
    state: OrchestratorState,
    events: Seq<Event>,
)
    requires
        state.wf(),
        state.step != Step::Remove(Bundle::Content),
        !(state.step is Persist),
        state.run(events).step is Persist,
    ensures
        completed_along(state, events, Step::Extract(Bundle::Content)),
        completed_along(state, events, Step::Remove(Bundle::Content)),
    decreases events.len(),
{
    if events.len() > 0 {
        let before = state.run(events.drop_last());
        lemma_run_preserves_wf(state, events.drop_last());
        if before.step is Persist {
            lemma_marker_recorded_after_extraction(state, events.drop_last());
            lemma_completed_along_extends(state, events, Step::Extract(Bundle::Content));
            lemma_completed_along_extends(state, events, Step::Remove(Bundle::Content));
        } else {
            lemma_removal_follows_extraction(state, events.drop_last());
            lemma_completed_along_extends(state, events, Step::Extract(Bundle::Content));
        }
    }
}

/// The local marker changes at two points only: when the marker file is
/// read, and when the recording of the new marker has been carried out.
pub proof fn lemma_marker_changes(state: OrchestratorState, event: Event)
    requires
        state.wf(),
    ensures
        ({
            let next = state.step(event);
            ||| next.local == state.local
            ||| state.step is ReadLocal && event is LocalMarker
            ||| state.step is Persist && event is Completed && next.local == state.remote
        }),
{
}

} // verus!
