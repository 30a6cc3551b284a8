use nettest::phase::{Stage, TestPhase, ONE_SECOND_NS};
use nettest::state::{
    stream_kind, takes_certificate, DriverAction, DriverEvent, EventOutcome, PhaseRun, RunStep, StreamKind, TestState,
    BUFFER_SIZE,
};

#[test]
fn fresh_state_starts_at_greeting() {
    let s = TestState::new(7, 4096);
    let ms = s.measurement_state();
    assert_eq!(ms.token, 7);
    assert_eq!(ms.phase, TestPhase::GreetingSendConnectionType);
    assert_eq!(ms.chunk_size, 4096);
    assert_eq!(ms.total_chunks, 1);
    assert_eq!(ms.read_buffer.len(), BUFFER_SIZE);
    assert!(ms.read_buffer.iter().all(|b| *b == 0));
    assert_eq!(ms.write_buffer.len(), BUFFER_SIZE);
    assert!(!ms.failed);
    assert!(ms.envelope.is_none());
    assert_eq!(s.thread_id(), None);
    let t = TestState::new_with_thread_tracking(3, 4096, Some(3));
    assert_eq!(t.thread_id(), Some(3));
}

#[test]
fn stream_kind_by_settings() {
    assert_eq!(stream_kind(true, true), StreamKind::WebSocketTls);
    assert_eq!(stream_kind(true, false), StreamKind::Rustls);
    assert_eq!(stream_kind(false, true), StreamKind::WebSocket);
    assert_eq!(stream_kind(false, false), StreamKind::Tcp);
}

#[test]
fn entering_stages_sets_start_phase() {
    let mut s = TestState::new(0, 4096);
    assert_eq!(s.process_greeting(), Stage::Greeting);
    assert_eq!(s.measurement_state().phase, TestPhase::GreetingSendConnectionType);
    assert_eq!(s.run_get_chunks(), Stage::GetChunks);
    assert_eq!(s.measurement_state().phase, TestPhase::GetChunksSendChunksCommand);
    assert_eq!(s.run_ping(), Stage::Ping);
    assert_eq!(s.measurement_state().phase, TestPhase::PingSendPing);
    assert_eq!(s.run_get_time(), Stage::GetTime);
    assert_eq!(s.measurement_state().phase, TestPhase::GetTimeSendCommand);
    assert_eq!(s.run_perf_test(), Stage::Perf);
    assert_eq!(s.measurement_state().phase, TestPhase::PerfSendCommand);
    assert_eq!(s.run_signed_result(), Stage::SignedResult);
    assert_eq!(s.measurement_state().phase, TestPhase::SignedResultSend);
}

#[test]
fn run_reaches_target() {
    let mut s = TestState::new(0, 4096);
    let stage = s.run_ping();
    let mut run = PhaseRun::new(stage);
    assert_eq!(run.target, TestPhase::PingCompleted);
    assert_eq!(run.timeout_ns, 3 * ONE_SECOND_NS);
    assert_eq!(run.advance(&mut s, DriverEvent::Started { now_ns: 100 }), DriverAction::Poll);
    assert_eq!(s.measurement_state().phase_start_ns, Some(100));
    assert_eq!(run.advance(&mut s, DriverEvent::Polled { empty: false, now_ns: 200 }), DriverAction::Handle);
    assert_eq!(run.advance(&mut s, DriverEvent::Handled(EventOutcome::Handled(12))), DriverAction::Handle);
    assert_eq!(run.advance(&mut s, DriverEvent::Handled(EventOutcome::WouldBlock)), DriverAction::Handle);
    assert_eq!(run.advance(&mut s, DriverEvent::EventsHandled), DriverAction::Publish { last: false });
    assert_eq!(run.advance(&mut s, DriverEvent::Published), DriverAction::Poll);
    s.measurement_state_mut().phase = TestPhase::PingCompleted;
    assert_eq!(run.advance(&mut s, DriverEvent::Polled { empty: false, now_ns: 300 }), DriverAction::Handle);
    assert_eq!(run.advance(&mut s, DriverEvent::EventsHandled), DriverAction::Publish { last: false });
    assert_eq!(run.advance(&mut s, DriverEvent::Published), DriverAction::Publish { last: true });
    assert_eq!(run.step, RunStep::Done);
    assert_eq!(run.advance(&mut s, DriverEvent::Published), DriverAction::Finish);
    assert!(!s.measurement_state().failed);
}

#[test]
fn run_times_out_on_idle_poll() {
    let mut s = TestState::new(0, 4096);
    let mut run = PhaseRun::new(s.run_get_chunks());
    assert_eq!(run.advance(&mut s, DriverEvent::Started { now_ns: 0 }), DriverAction::Poll);
    // Exactly the timeout is not yet over it.
    assert_eq!(
        run.advance(&mut s, DriverEvent::Polled { empty: true, now_ns: 3 * ONE_SECOND_NS }),
        DriverAction::Handle
    );
    assert!(!s.measurement_state().failed);
    assert_eq!(run.advance(&mut s, DriverEvent::EventsHandled), DriverAction::Publish { last: false });
    assert_eq!(run.advance(&mut s, DriverEvent::Published), DriverAction::Poll);
    assert_eq!(
        run.advance(&mut s, DriverEvent::Polled { empty: true, now_ns: 3 * ONE_SECOND_NS + 1 }),
        DriverAction::Publish { last: true }
    );
    assert!(s.measurement_state().failed);
    // A later stage on the failed connection is skipped without a snapshot.
    let mut next = PhaseRun::new(s.run_get_time());
    assert_eq!(next.advance(&mut s, DriverEvent::Started { now_ns: 10 }), DriverAction::Skip);
    assert_eq!(s.measurement_state().phase_start_ns, Some(0));
    assert_eq!(s.measurement_state().phase, TestPhase::GetTimeSendCommand);
}

#[test]
fn run_event_outcomes() {
    let mut s = TestState::new(0, 4096);
    let mut run = PhaseRun::new(s.run_perf_test());
    run.advance(&mut s, DriverEvent::Started { now_ns: 5 });
    run.advance(&mut s, DriverEvent::Polled { empty: false, now_ns: 6 });
    // Nothing moved: failed, but the remaining events are still handled.
    assert_eq!(run.advance(&mut s, DriverEvent::Handled(EventOutcome::Handled(0))), DriverAction::Handle);
    assert!(s.measurement_state().failed);
    // An error skips the rest of the poll's events.
    assert_eq!(
        run.advance(&mut s, DriverEvent::Handled(EventOutcome::Error)),
        DriverAction::Publish { last: false }
    );
    // An event the run does not wait for repeats what it waits for.
    assert_eq!(run.advance(&mut s, DriverEvent::EventsHandled), DriverAction::Publish { last: false });
    assert_eq!(run.advance(&mut s, DriverEvent::Published), DriverAction::Poll);
    assert!(s.measurement_state().failed);
}

#[test]
fn run_already_at_target() {
    let mut s = TestState::new(0, 4096);
    s.measurement_state_mut().phase = TestPhase::GreetingCompleted;
    let mut run = PhaseRun::new(s.process_greeting());
    assert_eq!(run.advance(&mut s, DriverEvent::Started { now_ns: 1 }), DriverAction::Publish { last: true });
}

#[test]
fn progress_throttled_to_one_per_second() {
    let mut s = TestState::new(0, 4096);
    assert!(s.progress_due(0));
    s.progress_sent(5 * ONE_SECOND_NS);
    assert!(!s.progress_due(5 * ONE_SECOND_NS));
    assert!(!s.progress_due(6 * ONE_SECOND_NS - 1));
    assert!(s.progress_due(6 * ONE_SECOND_NS));
    // A clock that went back never makes a report due.
    assert!(!s.progress_due(ONE_SECOND_NS));
}

#[test]
fn snapshot_copies_measurement() {
    let mut s = TestState::new(0, 4096);
    {
        let ms = s.measurement_state_mut();
        ms.bytes_received = 10;
        ms.bytes_sent = 20;
        ms.download_measurements.push_back((1, 10));
        ms.upload_measurements.push_back((2, 20));
        ms.failed = true;
    }
    let t = s.snapshot();
    assert_eq!(t.phase, TestPhase::GreetingSendConnectionType);
    assert_eq!(t.bytes_received, 10);
    assert_eq!(t.bytes_sent, 20);
    assert_eq!(t.download_measurements, vec![(1, 10)]);
    assert_eq!(t.upload_measurements, vec![(2, 20)]);
    assert!(t.failed);
}

#[test]
fn only_plain_tls_takes_certificate() {

    assert!(takes_certificate(StreamKind::Rustls));
    assert!(!takes_certificate(StreamKind::WebSocketTls));
    assert!(!takes_certificate(StreamKind::WebSocket));
    assert!(!takes_certificate(StreamKind::Tcp));
}
