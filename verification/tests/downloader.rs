use slopdev::download::{Download, DownloadEvent, DownloadPhase, SizePolicy, CHUNK_SIZE};
use slopdev::error::{is_success, DownloadError, NetworkError, UpdateError};
use slopdev::stage::Stage;
use slopdev::tracker::StageTracker;

fn opened(content_length: Option<u64>) -> DownloadEvent {
    DownloadEvent::Opened { status: 200, content_length }
}

fn open_download(policy: SizePolicy, total: Option<u64>) -> (Download, StageTracker) {
    let mut sink = StageTracker::new();
    let mut d = Download::new(policy);
    assert_eq!(d.step(opened(total), &mut sink), DownloadPhase::Preparing);
    assert_eq!(d.step(DownloadEvent::Prepared, &mut sink), DownloadPhase::Reading);
    (d, sink)
}

#[test]
fn chunk_size_is_one_kilobyte() {
    assert_eq!(CHUNK_SIZE, 1024);
}

#[test]
fn new_download_waits_to_be_opened() {
    let d = Download::new(SizePolicy::Strict);
    assert_eq!(d.phase(), DownloadPhase::Opening);
    assert_eq!(d.policy(), SizePolicy::Strict);
    assert_eq!(d.counters().bytes_transferred(), 0);
    assert_eq!(d.counters().total_bytes(), None);
    assert!(!d.phase().is_finished());
}

#[test]
fn opening_records_the_advertised_size() {
    let mut sink = StageTracker::new();
    sink.update_progress(77, Some(99));
    let mut d = Download::new(SizePolicy::Strict);
    assert_eq!(d.step(opened(Some(5000)), &mut sink), DownloadPhase::Preparing);
    assert_eq!(d.counters().bytes_transferred(), 0);
    assert_eq!(d.counters().total_bytes(), Some(5000));
    assert_eq!(sink.progress().bytes_transferred(), 0);
    assert_eq!(sink.progress().total_bytes(), Some(5000));
    assert_eq!(sink.get_stage(), Stage::Bootstrapping);
}

#[test]
fn strict_policy_fails_without_a_size() {
    let mut sink = StageTracker::new();
    sink.update_progress(77, Some(99));
    let mut d = Download::new(SizePolicy::Strict);
    assert_eq!(
        d.step(opened(None), &mut sink),
        DownloadPhase::Failed(DownloadError::SizeUnknown)
    );
    assert!(d.phase().is_finished());
    assert_eq!(sink.progress().bytes_transferred(), 77);
    assert_eq!(sink.progress().total_bytes(), Some(99));
}

#[test]
fn lenient_policy_goes_on_without_a_size() {
    let mut sink = StageTracker::new();
    let mut d = Download::new(SizePolicy::Lenient);
    assert_eq!(d.step(opened(None), &mut sink), DownloadPhase::Preparing);
    assert_eq!(d.step(DownloadEvent::Prepared, &mut sink), DownloadPhase::Reading);
    assert_eq!(d.step(DownloadEvent::ChunkRead(1024), &mut sink), DownloadPhase::Writing(1024));
    assert_eq!(d.step(DownloadEvent::ChunkWritten, &mut sink), DownloadPhase::Reading);
    assert_eq!(d.counters().bytes_transferred(), 1024);
    assert_eq!(d.counters().total_bytes(), None);
    assert_eq!(sink.progress().bytes_transferred(), 1024);
    assert_eq!(sink.progress().total_bytes(), None);
    assert_eq!(sink.progress().percent(), None);
    assert_eq!(d.step(DownloadEvent::ChunkRead(0), &mut sink), DownloadPhase::Closing);
    assert_eq!(d.step(DownloadEvent::Closed, &mut sink), DownloadPhase::Complete);
}

#[test]
fn status_other_than_success_fails() {
    for status in [0u16, 100, 199, 300, 301, 404, 500, 503, u16::MAX] {
        let mut sink = StageTracker::new();
        let mut d = Download::new(SizePolicy::Lenient);
        let next = d.step(DownloadEvent::Opened { status, content_length: Some(10) }, &mut sink);
        assert_eq!(
            next,
            DownloadPhase::Failed(DownloadError::Network(NetworkError::Status(status)))
        );
    }
    for status in [200u16, 204, 206, 299] {
        let mut sink = StageTracker::new();
        let mut d = Download::new(SizePolicy::Strict);
        let next = d.step(DownloadEvent::Opened { status, content_length: Some(10) }, &mut sink);
        assert_eq!(next, DownloadPhase::Preparing);
    }
}

#[test]
fn status_is_judged_before_the_size() {
    let mut sink = StageTracker::new();
    let mut d = Download::new(SizePolicy::Strict);
    let next = d.step(DownloadEvent::Opened { status: 404, content_length: None }, &mut sink);
    assert_eq!(next, DownloadPhase::Failed(DownloadError::Network(NetworkError::Status(404))));
}

#[test]
fn reported_count_equals_bytes_written() {
    let chunks: [usize; 7] = [1024, 1, 500, 1024, 1024, 37, 1024];
    let total: u64 = chunks.iter().map(|c| *c as u64).sum();
    let (mut d, mut sink) = open_download(SizePolicy::Strict, Some(total));
    let mut written: u64 = 0;
    let mut last_reported: u64 = 0;
    let mut increments: u64 = 0;
    for len in chunks {
        assert_eq!(d.step(DownloadEvent::ChunkRead(len), &mut sink), DownloadPhase::Writing(len));
        assert_eq!(sink.progress().bytes_transferred(), written);
        assert_eq!(d.step(DownloadEvent::ChunkWritten, &mut sink), DownloadPhase::Reading);
        written += len as u64;
        let reported = sink.progress().bytes_transferred();
        increments += reported - last_reported;
        last_reported = reported;
        assert_eq!(reported, written);
        assert_eq!(d.counters().bytes_transferred(), written);
        assert!(reported <= total);
    }
    assert_eq!(d.step(DownloadEvent::ChunkRead(0), &mut sink), DownloadPhase::Closing);
    assert_eq!(d.step(DownloadEvent::Closed, &mut sink), DownloadPhase::Complete);
    assert!(d.phase().is_finished());
    assert_eq!(d.counters().bytes_transferred(), written);
    assert_eq!(increments, written);
    assert_eq!(written, total);
    assert_eq!(written, 4634);
    assert_eq!(sink.progress().percent(), Some(100));
}

#[test]
fn body_may_end_short_of_the_total() {
    let (mut d, mut sink) = open_download(SizePolicy::Strict, Some(3000));
    assert_eq!(d.step(DownloadEvent::ChunkRead(1000), &mut sink), DownloadPhase::Writing(1000));
    assert_eq!(d.step(DownloadEvent::ChunkWritten, &mut sink), DownloadPhase::Reading);
    assert_eq!(d.step(DownloadEvent::ChunkRead(0), &mut sink), DownloadPhase::Closing);
    assert_eq!(d.step(DownloadEvent::Closed, &mut sink), DownloadPhase::Complete);
    assert_eq!(d.counters().bytes_transferred(), 1000);
    assert_eq!(sink.progress().percent(), Some(33));
}

#[test]
fn chunk_past_the_total_fails_before_it_is_written() {
    let (mut d, mut sink) = open_download(SizePolicy::Strict, Some(1500));
    assert_eq!(d.step(DownloadEvent::ChunkRead(1024), &mut sink), DownloadPhase::Writing(1024));
    assert_eq!(d.step(DownloadEvent::ChunkWritten, &mut sink), DownloadPhase::Reading);
    assert_eq!(
        d.step(DownloadEvent::ChunkRead(477), &mut sink),
        DownloadPhase::Failed(DownloadError::Overrun)
    );
    assert_eq!(d.counters().bytes_transferred(), 1024);
    assert_eq!(sink.progress().bytes_transferred(), 1024);
    assert_eq!(sink.progress().total_bytes(), Some(1500));
}

#[test]
fn chunk_that_fills_the_total_is_taken() {
    let (mut d, mut sink) = open_download(SizePolicy::Strict, Some(1500));
    assert_eq!(d.step(DownloadEvent::ChunkRead(1024), &mut sink), DownloadPhase::Writing(1024));
    assert_eq!(d.step(DownloadEvent::ChunkWritten, &mut sink), DownloadPhase::Reading);
    assert_eq!(d.step(DownloadEvent::ChunkRead(476), &mut sink), DownloadPhase::Writing(476));
    assert_eq!(d.step(DownloadEvent::ChunkWritten, &mut sink), DownloadPhase::Reading);
    assert_eq!(d.counters().bytes_transferred(), 1500);
    assert_eq!(
        d.step(DownloadEvent::ChunkRead(1), &mut sink),
        DownloadPhase::Failed(DownloadError::Overrun)
    );
}

#[test]
fn empty_body_completes_at_once() {
    let (mut d, mut sink) = open_download(SizePolicy::Strict, Some(0));
    assert_eq!(d.step(DownloadEvent::ChunkRead(0), &mut sink), DownloadPhase::Closing);
    assert_eq!(d.step(DownloadEvent::Closed, &mut sink), DownloadPhase::Complete);
    assert_eq!(d.counters().bytes_transferred(), 0);
    assert_eq!(sink.progress().percent(), Some(100));
}

#[test]
fn faults_fail_the_download_in_every_phase() {
    let causes = [
        DownloadError::Network(NetworkError::Connection),
        DownloadError::Network(NetworkError::Timeout),
        DownloadError::Io,
    ];
    for cause in causes {
        let mut sink = StageTracker::new();
        let mut d = Download::new(SizePolicy::Strict);
        assert_eq!(d.step(DownloadEvent::Fault(cause), &mut sink), DownloadPhase::Failed(cause));

        let mut d = Download::new(SizePolicy::Strict);
        d.step(opened(Some(10)), &mut sink);
        assert_eq!(d.step(DownloadEvent::Fault(cause), &mut sink), DownloadPhase::Failed(cause));

        let (mut d, mut sink) = open_download(SizePolicy::Strict, Some(10));
        assert_eq!(d.step(DownloadEvent::Fault(cause), &mut sink), DownloadPhase::Failed(cause));

        let (mut d, mut sink) = open_download(SizePolicy::Strict, Some(10));
        d.step(DownloadEvent::ChunkRead(4), &mut sink);
        assert_eq!(d.step(DownloadEvent::Fault(cause), &mut sink), DownloadPhase::Failed(cause));
        assert_eq!(d.counters().bytes_transferred(), 0);
        assert_eq!(sink.progress().bytes_transferred(), 0);

        let (mut d, mut sink) = open_download(SizePolicy::Strict, Some(10));
        assert_eq!(d.step(DownloadEvent::ChunkRead(0), &mut sink), DownloadPhase::Closing);
        assert_eq!(d.step(DownloadEvent::Fault(cause), &mut sink), DownloadPhase::Failed(cause));
    }
}

#[test]
fn finished_download_ignores_events() {
    let (mut d, mut sink) = open_download(SizePolicy::Strict, Some(4));
    d.step(DownloadEvent::ChunkRead(4), &mut sink);
    d.step(DownloadEvent::ChunkWritten, &mut sink);
    assert_eq!(d.step(DownloadEvent::ChunkRead(0), &mut sink), DownloadPhase::Closing);
    assert_eq!(d.step(DownloadEvent::Closed, &mut sink), DownloadPhase::Complete);
    let events = [
        opened(Some(9)),
        DownloadEvent::Prepared,
        DownloadEvent::ChunkRead(1),
        DownloadEvent::ChunkWritten,
        DownloadEvent::Closed,
        DownloadEvent::Fault(DownloadError::Io),
    ];
    for e in events {
        assert_eq!(d.step(e, &mut sink), DownloadPhase::Complete);
        assert_eq!(d.counters().bytes_transferred(), 4);
        assert_eq!(d.counters().total_bytes(), Some(4));
        assert_eq!(sink.progress().bytes_transferred(), 4);
    }

    let mut failed = Download::new(SizePolicy::Strict);
    failed.step(DownloadEvent::Fault(DownloadError::Io), &mut sink);
    for e in events {
        assert_eq!(failed.step(e, &mut sink), DownloadPhase::Failed(DownloadError::Io));
    }
}

#[test]
fn events_that_do_not_answer_the_phase_are_ignored() {
    let mut sink = StageTracker::new();
    let mut d = Download::new(SizePolicy::Strict);
    assert_eq!(d.step(DownloadEvent::Prepared, &mut sink), DownloadPhase::Opening);
    assert_eq!(d.step(DownloadEvent::ChunkRead(5), &mut sink), DownloadPhase::Opening);
    assert_eq!(d.step(DownloadEvent::ChunkWritten, &mut sink), DownloadPhase::Opening);
    assert_eq!(d.step(DownloadEvent::Closed, &mut sink), DownloadPhase::Opening);
    assert_eq!(d.step(opened(Some(20)), &mut sink), DownloadPhase::Preparing);
    assert_eq!(d.step(opened(Some(30)), &mut sink), DownloadPhase::Preparing);
    assert_eq!(d.counters().total_bytes(), Some(20));
    assert_eq!(d.step(DownloadEvent::ChunkRead(5), &mut sink), DownloadPhase::Preparing);
    assert_eq!(d.step(DownloadEvent::Prepared, &mut sink), DownloadPhase::Reading);
    assert_eq!(d.step(DownloadEvent::ChunkWritten, &mut sink), DownloadPhase::Reading);
    assert_eq!(d.counters().bytes_transferred(), 0);
    assert_eq!(d.step(DownloadEvent::ChunkRead(5), &mut sink), DownloadPhase::Writing(5));
    assert_eq!(d.step(DownloadEvent::ChunkRead(6), &mut sink), DownloadPhase::Writing(5));
    assert_eq!(d.step(DownloadEvent::Prepared, &mut sink), DownloadPhase::Writing(5));
    assert_eq!(d.step(DownloadEvent::ChunkWritten, &mut sink), DownloadPhase::Reading);
    assert_eq!(d.counters().bytes_transferred(), 5);
    assert_eq!(d.step(DownloadEvent::Closed, &mut sink), DownloadPhase::Reading);
    assert_eq!(d.step(DownloadEvent::ChunkRead(0), &mut sink), DownloadPhase::Closing);
    assert_eq!(d.step(DownloadEvent::ChunkRead(3), &mut sink), DownloadPhase::Closing);
    assert_eq!(d.step(DownloadEvent::ChunkWritten, &mut sink), DownloadPhase::Closing);
    assert_eq!(d.counters().bytes_transferred(), 5);
}

#[test]
fn chunk_larger_than_asked_for_fails() {
    let (mut d, mut sink) = open_download(SizePolicy::Strict, Some(1_000_000));
    assert_eq!(
        d.step(DownloadEvent::ChunkRead(CHUNK_SIZE), &mut sink),
        DownloadPhase::Writing(CHUNK_SIZE)
    );
    assert_eq!(d.step(DownloadEvent::ChunkWritten, &mut sink), DownloadPhase::Reading);
    assert_eq!(
        d.step(DownloadEvent::ChunkRead(CHUNK_SIZE + 1), &mut sink),
        DownloadPhase::Failed(DownloadError::Overrun)
    );
    assert_eq!(d.counters().bytes_transferred(), 1024);

    let mut sink = StageTracker::new();
    let mut d = Download::new(SizePolicy::Lenient);
    d.step(opened(None), &mut sink);
    d.step(DownloadEvent::Prepared, &mut sink);
    assert_eq!(
        d.step(DownloadEvent::ChunkRead(usize::MAX), &mut sink),
        DownloadPhase::Failed(DownloadError::Overrun)
    );
    assert_eq!(d.counters().bytes_transferred(), 0);
}

#[test]
fn download_failures_keep_their_class() {
    assert_eq!(
        UpdateError::from_download(DownloadError::Network(NetworkError::Timeout)),
        UpdateError::Network(NetworkError::Timeout)
    );
    assert_eq!(
        UpdateError::from_download(DownloadError::Network(NetworkError::Status(503))),
        UpdateError::Network(NetworkError::Status(503))
    );
    assert_eq!(UpdateError::from_download(DownloadError::SizeUnknown), UpdateError::SizeUnknown);
    assert_eq!(UpdateError::from_download(DownloadError::Io), UpdateError::Io);
    assert_eq!(UpdateError::from_download(DownloadError::Overrun), UpdateError::Overrun);
}

#[test]
fn only_network_failures_are_of_the_network() {
    assert!(UpdateError::Network(NetworkError::Connection).is_network());
    assert!(UpdateError::Network(NetworkError::Timeout).is_network());
    assert!(UpdateError::Network(NetworkError::Status(500)).is_network());
    assert!(!UpdateError::SizeUnknown.is_network());
    assert!(!UpdateError::Io.is_network());
    assert!(!UpdateError::Archive.is_network());
    assert!(!UpdateError::Overrun.is_network());
}

#[test]
fn success_is_a_status_in_the_two_hundreds() {
    assert!(!is_success(0));
    assert!(!is_success(199));
    assert!(is_success(200));
    assert!(is_success(204));
    assert!(is_success(299));
    assert!(!is_success(300));
    assert!(!is_success(404));
    assert!(!is_success(u16::MAX));
}
