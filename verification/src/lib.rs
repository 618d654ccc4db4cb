//! The decisions of an updater that brings a local installation up to date
//! before a launch: it installs a bundle of dependencies once, checks a
//! remote version marker on every run, and downloads and unpacks the content
//! bundle when that marker is newer than the local one.
//!
//! The library performs no input or output. A host drives it: it asks the
//! [`orchestrator::Orchestrator`] for the pending action, performs it on the
//! network or on disk, and reports the outcome as an event. What a consumer
//! may observe of a run is a [`tracker::StageTracker`]: the current
//! [`stage::Stage`] and the [`progress::ProgressCounters`] of the transfer
//! under way.
//!
//! - [`stage`]: the stages of a run and their order;
//! - [`progress`]: byte counters that stay within the known total;
//! - [`tracker`]: the observable state, whose stage only moves forward;
//! - [`version`]: version markers as decimal text;
//! - [`download`]: the steps of a streamed download;
//! - [`orchestrator`]: the state machine that sequences everything;
//! - [`layout`]: what is fetched from where and where it goes;
//! - [`error`]: the classes of failure;
//! - [`launcher`]: what a consumer shows, and when it may launch.

pub mod download;
pub mod error;
pub mod launcher;
pub mod layout;
pub mod orchestrator;
pub mod progress;
pub mod stage;
pub mod tracker;
pub mod version;

pub use launcher::SlopDev;
