use nettest::client::{Measurement, SharedStats};
use nettest::phase::TestPhase;
use nettest::progress::{
    results_fit, summarize_threads, totals_fit, MeasurementProgress, ThreadResult, ThreadState,
};

fn state(phase: TestPhase, rx: u64, tx: u64, failed: bool) -> ThreadState {
    ThreadState {
        phase,
        bytes_received: rx,
        bytes_sent: tx,
        download_measurements: vec![(1, rx)],
        upload_measurements: vec![(2, tx)],
        failed,
    }
}

fn measurement(id: usize, down: Vec<(u64, u64)>, up: Vec<(u64, u64)>, failed: bool) -> Measurement {
    Measurement {
        measurements: down,
        failed,
        thread_id: id,
        upload_measurements: up,
        envelope: if failed { None } else { Some(format!("env{}", id)) },
    }
}

#[test]
fn summary_counts_only_active_threads() {
    let states = vec![
        Some(state(TestPhase::GetTimeReceiveChunk, 100, 5, false)),
        None,
        Some(state(TestPhase::PerfSendChunks, 40, 7, true)),
        Some(state(TestPhase::PingSendOk, 1, 2, false)),
    ];
    assert!(totals_fit(&states));
    let s = summarize_threads(&states, "waiting", false);
    assert_eq!(s.bytes_received, 101);
    assert_eq!(s.bytes_sent, 7);
    assert_eq!(s.active, 2);
    assert_eq!(s.infos.len(), 4);
    assert_eq!(s.infos[0].phase, "download");
    assert_eq!(s.infos[0].download_measurements, vec![(1, 100)]);
    assert_eq!(s.infos[1].thread_id, 1);
    assert_eq!(s.infos[1].phase, "waiting");
    assert!(!s.infos[1].failed);
    assert_eq!(s.infos[1].bytes_received, 0);
    assert_eq!(s.infos[2].phase, "upload");
    assert!(s.infos[2].failed);
    assert_eq!(s.infos[2].bytes_received, 40);
    assert_eq!(s.infos[3].phase, "ping");
}

#[test]
fn totals_that_overflow_are_caught() {
    let states = vec![
        Some(state(TestPhase::GreetingCompleted, u64::MAX, 0, false)),
        Some(state(TestPhase::GreetingCompleted, 1, 0, false)),
    ];
    assert!(!totals_fit(&states));
    // A failed thread does not count toward the totals.
    let states = vec![
        Some(state(TestPhase::GreetingCompleted, u64::MAX, 0, false)),
        Some(state(TestPhase::GreetingCompleted, 1, 0, true)),
    ];
    assert!(totals_fit(&states));
}

#[test]
fn thread_report_after_poll_cycle() {
    let states = vec![None, Some(state(TestPhase::GetChunksSendOk, 3, 4, false))];
    let p = MeasurementProgress::from_thread_states(&TestPhase::GetChunksSendOk, &states);
    assert_eq!(p.phase, "init_download");
    assert_eq!(p.ping_median_ns, None);
    assert_eq!(p.progress_percent, 0);
    assert_eq!(p.bytes_received, 3);
    assert_eq!(p.bytes_sent, 4);
    assert_eq!(p.thread_count, 2);
    assert_eq!(p.active_threads, 1);
    assert_eq!(p.threads[0].phase, "waiting");
    assert!(p.download_measurements.is_empty());
    assert!(p.thread_results.is_empty());
}

#[test]
fn checkpoint_report() {
    let stats = SharedStats {
        download_measurements: vec![vec![(1, 2), (3, 4)]],
        upload_measurements: vec![],
    };
    let states = vec![Some(state(TestPhase::GetTimeCompleted, 6, 0, false)), None];
    let p = MeasurementProgress::checkpoint("download", 60, &stats, Some(1_500_000), &states, 4);
    assert_eq!(p.phase, "download");
    assert_eq!(p.progress_percent, 60);
    assert_eq!(p.ping_median_ns, Some(1_500_000));
    assert_eq!(p.download_measurements, vec![vec![(1, 2), (3, 4)]]);
    assert!(p.upload_measurements.is_empty());
    assert_eq!(p.thread_count, 4);
    assert_eq!(p.threads.len(), 2);
    assert_eq!(p.active_threads, 1);
    assert_eq!(p.bytes_received, 6);
}

#[test]
fn final_report_totals_from_results() {
    let stats = SharedStats::new();
    let states = vec![Some(state(TestPhase::PerfCompleted, 999, 999, false)), None];
    let ms = vec![
        measurement(0, vec![(1, 10), (2, 20)], vec![(1, 5)], false),
        measurement(1, vec![(1, 7)], vec![], true),
    ];
    assert!(results_fit(&ms));
    let p = MeasurementProgress::final_report(&stats, Some(42), &states, &ms, 3);
    assert_eq!(p.phase, "completed");
    assert_eq!(p.progress_percent, 100);
    assert_eq!(p.ping_median_ns, Some(42));
    assert_eq!(p.bytes_received, 37);
    assert_eq!(p.bytes_sent, 5);
    assert_eq!(p.thread_count, 3);
    assert_eq!(p.active_threads, 1);
    assert_eq!(p.threads[0].phase, "upload");
    assert_eq!(p.threads[1].phase, "completed");
    assert!(p.threads[1].failed);
    assert_eq!(p.thread_results.len(), 2);
    assert_eq!(p.thread_results[0].total_bytes_received, 30);
    assert_eq!(p.thread_results[0].download_samples, 2);
    assert_eq!(p.thread_results[0].envelope.as_deref(), Some("env0"));
    assert_eq!(p.thread_results[1].total_bytes_received, 7);
    assert_eq!(p.thread_results[1].upload_samples, 0);
}

#[test]
fn results_that_overflow_are_caught() {
    let ms = vec![
        measurement(0, vec![(1, u64::MAX)], vec![], false),
        measurement(1, vec![(1, 1)], vec![], false),
    ];
    assert!(!results_fit(&ms));
    let ms = vec![measurement(0, vec![], vec![(1, u64::MAX), (2, 1)], false)];
    assert!(!results_fit(&ms));
}

#[test]
fn thread_result_of_measurement() {
    let m = measurement(4, vec![(1, 3), (2, 4)], vec![(3, 8)], false);
    let r = ThreadResult::from_measurement(&m);
    assert_eq!(r.thread_id, 4);
    assert_eq!(r.total_bytes_received, 7);
    assert_eq!(r.total_bytes_sent, 8);
    assert_eq!(r.download_samples, 2);
    assert_eq!(r.upload_samples, 1);
    assert_eq!(r.download_measurements, vec![(1, 3), (2, 4)]);
}

#[test]
fn placeholder_reports() {
    let s = MeasurementProgress::starting();
    assert_eq!(s.phase, "starting");
    assert_eq!(s.progress_percent, 0);
    assert_eq!(s.thread_count, 0);
    let e = MeasurementProgress::error();
    assert_eq!(e.phase, "error");
    assert!(e.threads.is_empty());
}
