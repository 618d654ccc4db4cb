//! The downloader: the decisions of a streamed download, step by step.
//!
//! The host performs the input and output; the downloader says what to do
//! next and keeps the count. A download is opened, its destination prepared,
//! its body moved chunk by chunk (read, then write, then report), and its
//! destination closed.

use vstd::prelude::*;
use crate::error::{is_success, DownloadError, NetworkError};
use crate::progress::{Progress, ProgressCounters};
use crate::tracker::{StageTracker, TrackerState};

verus! {

/// The most bytes that one read of the body may take.
pub const CHUNK_SIZE: usize = 1024;

/// What to do when the remote side does not advertise the size of the body.
#[derive(Clone, Copy, Debug, PartialEq, Eq, Structural)]
pub enum SizePolicy {
    /// Fail the download.
    Strict,
    /// Go on with the total unknown.
    Lenient,
}

/// Where a download stands, which is also what the host is to do next.
#[derive(Clone, Copy, Debug, PartialEq, Eq, Structural)]
pub enum DownloadPhase {
    /// Open the streaming response and report its status and advertised
    /// size.
    Opening,
    /// Remove whatever is at the destination and create the file anew.
    Preparing,
    /// Read the next chunk of the body, at most `CHUNK_SIZE` bytes.
    Reading,
    /// Append the chunk of the given length, which was just read, to the
    /// file.
    Writing(usize),
    /// The body has ended: write out what is buffered and close the file.
    Closing,
    /// The whole body is in the file.
    Complete,
    /// The download failed.
    Failed(DownloadError),
}

/// What the host reports back after doing what a phase asked for.
#[derive(Clone, Copy, Debug, PartialEq, Eq, Structural)]
pub enum DownloadEvent {
    /// The response is open.
    Opened { status: u16, content_length: Option<u64> },
    /// The destination file exists and is empty.
    Prepared,
    /// A read returned this many bytes; zero means the body has ended.
    ChunkRead(usize),
    /// The chunk was appended to the file.
    ChunkWritten,
    /// The file is closed with everything written out.
    Closed,
    /// The requested operation failed.
    Fault(DownloadError),
}

impl DownloadPhase {
    /// `Complete` and `Failed` end a download.
    pub open spec fn spec_is_finished(self) -> bool {
        self is Complete || self is Failed
    }

    /// Whether the download has ended.
    #[verifier::when_used_as_spec(spec_is_finished)]
    pub fn is_finished(self) -> (b: bool)
        ensures
            b == self.spec_is_finished(),
    {
        match self {
            DownloadPhase::Complete | DownloadPhase::Failed(_) => true,
            _ => false,
        }
    }
}

/// What a download is: its policy, its phase and its counters.
pub struct DownloadState {
    pub policy: SizePolicy,
    pub phase: DownloadPhase,
    pub progress: Progress,
}

impl DownloadState {
    /// A download that has not been opened.
    pub open spec fn initial(policy: SizePolicy) -> DownloadState {
        DownloadState {
            policy,
            phase: DownloadPhase::Opening,
            progress: Progress { transferred: 0, total: None },
        }
    }

    /// The counters are consistent, nothing is counted before the download
    /// is opened, and a chunk that waits to be written is no larger than a
    /// chunk may be and fits under the limit.
    pub open spec fn wf(self) -> bool {
        &&& self.progress.wf()
        &&& self.phase is Opening ==> self.progress.transferred == 0
        &&& self.phase matches DownloadPhase::Writing(len) ==> 1 <= len <= CHUNK_SIZE
            && self.progress.admits(len as int)
    }

    /// The same download in another phase.
    pub open spec fn at(self, phase: DownloadPhase) -> DownloadState {
        DownloadState { policy: self.policy, phase, progress: self.progress }
    }

    /// The download after one event.
    ///
    /// A fault fails the download. A response with a status other than
    /// success fails it, and so does one without an advertised size under
    /// the strict policy. A read of zero bytes ends the body, and the
    /// download is complete once the file is closed; a chunk of more than
    /// `CHUNK_SIZE` bytes, and one that would take the count past the limit,
    /// fail it before anything is written. A chunk counts once it is
    /// written. A finished download, and an event that does not answer the
    /// current phase, change nothing.
    pub open spec fn step(self, event: DownloadEvent) -> DownloadState {
        if self.phase.is_finished() {
            self
        } else {
            match (self.phase, event) {
                (_, DownloadEvent::Fault(cause)) => self.at(DownloadPhase::Failed(cause)),
                (DownloadPhase::Opening, DownloadEvent::Opened { status, content_length }) => {
                    if !is_success(status) {
                        self.at(
                            DownloadPhase::Failed(
                                DownloadError::Network(NetworkError::Status(status)),
                            ),
                        )
                    } else if content_length is None && self.policy is Strict {
                        self.at(DownloadPhase::Failed(DownloadError::SizeUnknown))
                    } else {
                        DownloadState {
                            policy: self.policy,
                            phase: DownloadPhase::Preparing,
                            progress: Progress { transferred: 0, total: content_length },
                        }
                    }
                },
                (DownloadPhase::Preparing, DownloadEvent::Prepared) => self.at(
                    DownloadPhase::Reading,
                ),
                (DownloadPhase::Reading, DownloadEvent::ChunkRead(len)) => {
                    if len == 0 {
                        self.at(DownloadPhase::Closing)
                    } else if len <= CHUNK_SIZE && self.progress.admits(len as int) {
                        self.at(DownloadPhase::Writing(len))
                    } else {
                        self.at(DownloadPhase::Failed(DownloadError::Overrun))
                    }
                },
                (DownloadPhase::Writing(len), DownloadEvent::ChunkWritten) => DownloadState {
                    policy: self.policy,
                    phase: DownloadPhase::Reading,
                    progress: self.progress.record(len as int),
                },
                (DownloadPhase::Closing, DownloadEvent::Closed) => self.at(
                    DownloadPhase::Complete,
                ),
                _ => self,
            }
        }
    }

    /// Whether the step on `event` reports to the progress sink: when the
    /// response is accepted, and after every chunk that has been written.
    pub open spec fn reports(self, event: DownloadEvent) -> bool {
        ||| self.phase is Opening && event is Opened && self.step(event).phase is Preparing
        ||| self.phase is Writing && event is ChunkWritten
    }

    /// The bytes that the step on `event` sees appended to the file.
    pub open spec fn appended(self, event: DownloadEvent) -> nat {
        match (self.phase, event) {
            (DownloadPhase::Writing(len), DownloadEvent::ChunkWritten) => len as nat,
            _ => 0,
        }
    }

    /// The download after a sequence of events.
    pub open spec fn run(self, events: Seq<DownloadEvent>) -> DownloadState
        decreases events.len(),
    {
        if events.len() == 0 {
            self
        } else {
            self.run(events.drop_last()).step(events.last())
        }
    }

    /// The bytes appended to the file over a sequence of events: the size of
    /// the file, which was created empty.
    pub open spec fn written(self, events: Seq<DownloadEvent>) -> nat
        decreases events.len(),
    {
        if events.len() == 0 {
            0
        } else {
            self.written(events.drop_last()) + self.run(events.drop_last()).appended(
                events.last(),
            )
        }
    }
}

/// What a progress sink shows after the step on `event`: the new counters
/// where the step reports, what it showed before where it does not.
pub open spec fn sink_after(
    sink: TrackerState,
    download: DownloadState,
    event: DownloadEvent,
) -> TrackerState {
    if download.reports(event) {
        let progress = download.step(event).progress;
        sink.update_progress(progress.transferred, progress.total)
    } else {
        sink
    }
}

/// A download in progress.
#[derive(Clone, Copy, Debug)]
pub struct Download {
    policy: SizePolicy,
    phase: DownloadPhase,
    counters: ProgressCounters,
}

impl View for Download {
    type V = DownloadState;

    closed spec fn view(&self) -> DownloadState {
        DownloadState { policy: self.policy, phase: self.phase, progress: self.counters@ }
    }
}

impl Download {
    /// The invariant of the type: the download is consistent.
    #[verifier::type_invariant]
    pub open spec fn inv(self) -> bool {
        self@.wf()
    }

    /// A download that has not been opened.
    pub fn new(policy: SizePolicy) -> (download: Download)
        ensures
            download@ == DownloadState::initial(policy),
            download@.wf(),
    {
        Download { policy, phase: DownloadPhase::Opening, counters: ProgressCounters::new() }
    }

    /// Where the download stands: what the host is to do next.
    pub fn phase(&self) -> (phase: DownloadPhase)
        ensures
            phase == self@.phase,
    {
        self.phase
    }

    /// The policy the download was started with.
    pub fn policy(&self) -> (policy: SizePolicy)
        ensures
            policy == self@.policy,
    {
        self.policy
    }

    /// The counters of the download.
    pub fn counters(&self) -> (counters: ProgressCounters)
        ensures
            counters@ == self@.progress,
    {
        self.counters
    }

    /// Takes the host's report on what the current phase asked for, moves
    /// the download on and returns the new phase. The sink is told the new
    /// counters when the response is accepted and after every chunk written.
    pub fn step(&mut self, event: DownloadEvent, sink: &mut StageTracker) -> (next: DownloadPhase)
        ensures
            final(self)@ == old(self)@.step(event),
            final(self)@.wf(),
            next == final(self)@.phase,
            final(sink)@ == sink_after(old(sink)@, old(self)@, event),
    {
        proof {
            use_type_invariant(&*self);
        }
        let policy = self.policy;
        let counters = self.counters;
        if self.phase.is_finished() {
            return self.phase;
        }
        match (self.phase, event) {
            (_, DownloadEvent::Fault(cause)) => {
                *self = Download { policy, phase: DownloadPhase::Failed(cause), counters };
            },
            (DownloadPhase::Opening, DownloadEvent::Opened { status, content_length }) => {
                if !is_success(status) {
                    let cause = DownloadError::Network(NetworkError::Status(status));
                    *self = Download { policy, phase: DownloadPhase::Failed(cause), counters };
                } else if content_length.is_none() && matches!(policy, SizePolicy::Strict) {
                    *self = Download {
                        policy,
                        phase: DownloadPhase::Failed(DownloadError::SizeUnknown),
                        counters,
                    };
                } else {
                    *self = Download {
                        policy,
                        phase: DownloadPhase::Preparing,
                        counters: ProgressCounters::start(content_length),
                    };
                    sink.update_progress(0, content_length);
                }
            },
            (DownloadPhase::Preparing, DownloadEvent::Prepared) => {
                *self = Download { policy, phase: DownloadPhase::Reading, counters };
            },
            (DownloadPhase::Reading, DownloadEvent::ChunkRead(len)) => {
                let phase = if len == 0 {
                    DownloadPhase::Closing
                } else if len <= CHUNK_SIZE && counters.admits(len as u64) {
                    DownloadPhase::Writing(len)
                } else {
                    DownloadPhase::Failed(DownloadError::Overrun)
                };
                *self = Download { policy, phase, counters };
            },
            (DownloadPhase::Writing(len), DownloadEvent::ChunkWritten) => {
                let mut advanced = counters;
                advanced.record(len as u64);
                *self = Download { policy, phase: DownloadPhase::Reading, counters: advanced };
                sink.update_progress(advanced.bytes_transferred(), advanced.total_bytes());
            },
            (DownloadPhase::Closing, DownloadEvent::Closed) => {
                *self = Download { policy, phase: DownloadPhase::Complete, counters };
            },
            _ => {},
        }
        self.phase
    }
}

/// Every step keeps a download consistent.
pub proof fn lemma_step_preserves_wf(download: DownloadState, event: DownloadEvent)
    requires
        download.wf(),
    ensures
        download.step(event).wf(),
{
}

/// At every point of a download the transferred count is within the total,
/// once the total is known: whatever the host reports, in whatever order,
/// the download stays consistent.
pub proof fn lemma_transferred_within_total(download: DownloadState, events: Seq<DownloadEvent>)
    requires
        download.wf(),
    ensures
        download.run(events).wf(),
        download.run(events).progress.total matches Some(total) ==> download.run(
            events,
        ).progress.transferred <= total,
    decreases events.len(),
{
    if events.len() > 0 {
        lemma_transferred_within_total(download, events.drop_last());
        lemma_step_preserves_wf(download.run(events.drop_last()), events.last());
    }
}

/// The body is written in chunks of bounded size: whatever the host
/// reports, no write that a download asks for is of more than `CHUNK_SIZE`
/// bytes, and none is empty.
pub proof fn lemma_chunks_are_bounded(download: DownloadState, events: Seq<DownloadEvent>)
    requires
        download.wf(),
    ensures
        download.run(events).phase matches DownloadPhase::Writing(len) ==> 1 <= len
            <= CHUNK_SIZE,
{
    lemma_transferred_within_total(download, events);
}

/// The count that a download reports is the size of the file it has
/// written: over any sequence of events, the transferred count grows by
/// exactly the bytes appended to the file.
pub proof fn lemma_reported_equals_written(download: DownloadState, events: Seq<DownloadEvent>)
    requires
        download.wf(),
    ensures
        download.run(events).progress.transferred == download.progress.transferred
            + download.written(events),
    decreases events.len(),
{
    if events.len() > 0 {
        let before = download.run(events.drop_last());
        lemma_reported_equals_written(download, events.drop_last());
        lemma_transferred_within_total(download, events.drop_last());
    }
}

/// The count of a download never goes down: over any sequence of events,
/// what has been transferred later is at least what had been transferred
/// earlier.
pub proof fn lemma_progress_is_monotone(
    download: DownloadState,
    events: Seq<DownloadEvent>,
    earlier: int,
    later: int,
)
    requires
        download.wf(),
        0 <= earlier <= later <= events.len(),
    ensures
        download.run(events.take(earlier)).progress.transferred <= download.run(
            events.take(later),
        ).progress.transferred,
    decreases later,
{
    if earlier < later {
        lemma_progress_is_monotone(download, events, earlier, later - 1);
        assert(events.take(later).drop_last() =~= events.take(later - 1));
        lemma_transferred_within_total(download, events.take(later - 1));
    }
}

/// Whether, somewhere along the events, the request to prepare the
/// destination was answered by `DownloadEvent::Prepared`.
pub open spec fn prepared_along(download: DownloadState, events: Seq<DownloadEvent>) -> bool {
    exists|i: int|
        0 <= i < events.len() && (#[trigger] download.run(events.take(i))).phase is Preparing
            && events[i] is Prepared
}

/// Whether the body is being moved, or has been: the phase is one that
/// follows the preparation of the destination.
pub open spec fn past_preparation(phase: DownloadPhase) -> bool {
    phase is Reading || phase is Writing || phase is Closing || phase is Complete
}

/// Nothing is written before the destination has been prepared: a download
/// that starts before that point and has come to move its body has had
/// whatever was at the destination removed and the file created anew.
pub proof fn lemma_prepared_before_writes(download: DownloadState, events: Seq<DownloadEvent>)
    requires
        download.phase is Opening || download.phase is Preparing,
        past_preparation(download.run(events).phase),
    ensures
        prepared_along(download, events),
    decreases events.len(),
{
    if events.len() > 0 {
        let shorter = events.drop_last();
        if past_preparation(download.run(shorter).phase) {
            lemma_prepared_before_writes(download, shorter);
            let i = choose|i: int|
                0 <= i < shorter.len() && (#[trigger] download.run(shorter.take(i))).phase
                    is Preparing && shorter[i] is Prepared;
            assert(shorter.take(i) =~= events.take(i));
        }
    }
}

} // verus!
