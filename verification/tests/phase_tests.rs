use nettest::phase::{Readiness, Stage, TestPhase, stage_of_phase, ONE_SECOND_NS};
use nettest::progress::MeasurementProgress;

#[test]
fn from_phase_labels_each_stage() {
    assert_eq!(MeasurementProgress::from_phase(&TestPhase::GreetingSendToken), "greeting");
    assert_eq!(MeasurementProgress::from_phase(&TestPhase::GetChunksReceiveChunk), "init_download");
    assert_eq!(MeasurementProgress::from_phase(&TestPhase::PingReceivePong), "ping");
    assert_eq!(MeasurementProgress::from_phase(&TestPhase::GetTimeSendOk), "download");
    assert_eq!(MeasurementProgress::from_phase(&TestPhase::PerfSendLastChunk), "upload");
    assert_eq!(MeasurementProgress::from_phase(&TestPhase::SignedResultCompleted), "signed_result");
}

#[test]
fn stage_table() {
    assert_eq!(Stage::Greeting.timeout_ns(), 50 * ONE_SECOND_NS);
    assert_eq!(Stage::Ping.target(), TestPhase::PingCompleted);
    assert_eq!(Stage::Perf.start(), TestPhase::PerfSendCommand);
    assert_eq!(stage_of_phase(&TestPhase::GetTimeReceiveTime), Stage::GetTime);
}

#[test]
fn readiness_per_stage() {

    assert_eq!(Stage::Greeting.readiness(), Readiness::ReadableAndWritable);
    for s in [Stage::GetChunks, Stage::Ping, Stage::GetTime, Stage::Perf, Stage::SignedResult] {
        assert_eq!(s.readiness(), Readiness::Writable);
    }
}
