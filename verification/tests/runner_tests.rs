use nettest::client::{ClientConfig, Measurement, SharedStats};
use std::collections::VecDeque;
use nettest::phase::Stage;
use nettest::runner::{record_after, summarize_run, target_host, thread_schedule, Checkpoint, StageRecord, ThreadWork};

fn config(save: bool, signed: bool) -> ClientConfig {
    ClientConfig {
        use_tls: false,
        use_websocket: false,
        graphs: false,
        raw_output: false,
        thread_count: 3,
        log: None,
        server: Some("127.0.0.1".to_string()),
        port: 8080,
        tls_port: 443,
        x_nettest_client: "nt".to_string(),
        control_server: "cs".to_string(),
        save_results: save,
        signed_result: signed,
        client_uuid: None,
        git_hash: None,
    }
}

#[test]
fn first_thread_schedule() {
    let s = thread_schedule(0, &config(false, true));
    let works: Vec<ThreadWork> = s.iter().map(|x| x.work).collect();
    assert_eq!(
        works,
        vec![
            ThreadWork::RunStage(Stage::Greeting),
            ThreadWork::RunStage(Stage::GetChunks),
            ThreadWork::RunStage(Stage::Ping),
            ThreadWork::RunStage(Stage::GetTime),
            ThreadWork::DownloadSpeed,
            ThreadWork::RunStage(Stage::Perf),
            ThreadWork::UploadSpeed,
        ]
    );
    let labels: Vec<String> = s.iter().map(|x| x.checkpoint.label()).collect();
    assert_eq!(labels, vec!["greeting", "init_download", "ping", "download", "download", "upload", "upload"]);
    let percents: Vec<u8> = s.iter().map(|x| x.checkpoint.percent()).collect();
    assert_eq!(percents, vec![10, 20, 30, 60, 70, 85, 90]);
}

#[test]
fn other_threads_wait_and_signed_result_runs_when_asked() {
    let s = thread_schedule(2, &config(true, true));
    assert_eq!(s.len(), 8);
    assert_eq!(s[2].work, ThreadWork::Wait);
    assert_eq!(s[4].work, ThreadWork::Wait);
    assert_eq!(s[6].work, ThreadWork::Wait);
    assert_eq!(s[7].work, ThreadWork::RunStage(Stage::SignedResult));
    assert_eq!(s[7].checkpoint, Checkpoint::SignedResult);
    assert_eq!(s[7].checkpoint.label(), "signed_result");
    assert_eq!(s[7].checkpoint.percent(), 95);
    let first = thread_schedule(0, &config(true, true));
    assert_eq!(first.len(), s.len());
    for (a, b) in first.iter().zip(s.iter()) {
        assert_eq!(a.checkpoint, b.checkpoint);
    }
}

#[test]
fn ports_and_signing() {
    let mut c = config(true, false);
    assert_eq!(c.server_port(), 8080);
    c.use_tls = true;
    assert_eq!(c.server_port(), 443);
    assert!(!c.wants_signed_result());
    c.signed_result = true;
    assert!(c.wants_signed_result());
}

#[test]
fn run_summary_keeps_successful_threads() {
    let ms = vec![
        Measurement { measurements: vec![(1, 2)], failed: false, thread_id: 0, upload_measurements: vec![], envelope: Some("a".to_string()) },
        Measurement { measurements: vec![], failed: true, thread_id: 1, upload_measurements: vec![], envelope: Some("b".to_string()) },
        Measurement { measurements: vec![], failed: false, thread_id: 2, upload_measurements: vec![(3, 4)], envelope: None },
    ];
    let r = summarize_run(4, &ms);
    assert_eq!(r.successful.len(), 2);
    assert_eq!(r.successful[0].thread_id, 0);
    assert_eq!(r.successful[0].measurements, vec![(1, 2)]);
    assert_eq!(r.successful[1].thread_id, 2);
    assert_eq!(r.envelopes, vec![Some("a".to_string()), None]);
    assert_eq!(r.failed_threads, 2);
}

#[test]
fn measurement_copy_is_equal() {
    let m = Measurement { measurements: vec![(5, 6)], failed: true, thread_id: 9, upload_measurements: vec![(7, 8)], envelope: Some("e".to_string()) };
    let c = m.copy();
    assert_eq!(c.measurements, m.measurements);
    assert_eq!(c.upload_measurements, m.upload_measurements);
    assert_eq!(c.thread_id, 9);
    assert!(c.failed);
    assert_eq!(c.envelope, m.envelope);
}

#[test]
fn host_choice() {
    let server = "speed.example.net".to_string();
    assert_eq!(target_host(&server, false, Some("10.0.0.1".to_string())), "10.0.0.1");
    assert_eq!(target_host(&server, false, None), "speed.example.net");
    let ip = "10.0.0.2".to_string();
    assert_eq!(target_host(&ip, true, Some("10.9.9.9".to_string())), "10.0.0.2");
}

#[test]
fn reports_in_barrier_order_never_fall() {
    // Three threads report at each checkpoint before any passes the next.
    let schedules: Vec<_> = (0..3).map(|i| thread_schedule(i, &config(true, true))).collect();
    let mut last = 0u8;
    for k in 0..schedules[0].len() {
        for s in &schedules {
            let p = s[k].checkpoint.percent();
            assert!(p >= last && p < 100);
            last = p;
        }
    }
}

#[test]
fn records_after_stages() {
    assert_eq!(record_after(Stage::Ping), StageRecord::PingMedian);
    assert_eq!(record_after(Stage::GetTime), StageRecord::DownloadSamples);
    assert_eq!(record_after(Stage::Perf), StageRecord::UploadSamples);
    assert_eq!(record_after(Stage::Greeting), StageRecord::Nothing);
    let mut stats = SharedStats::default();
    let run: VecDeque<(u64, u64)> = VecDeque::from(vec![(1, 2), (3, 4)]);
    stats.add_download_run(&run);
    stats.add_upload_run(&VecDeque::from(vec![(5, 6)]));
    stats.add_download_run(&VecDeque::new());
    assert_eq!(stats.download_measurements, vec![vec![(1, 2), (3, 4)], vec![]]);
    assert_eq!(stats.upload_measurements, vec![vec![(5, 6)]]);
}
