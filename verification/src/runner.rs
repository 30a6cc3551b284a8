//! The schedule that each measurement thread follows, the checkpoints at
//! which all threads meet, and the summary of a finished run.

use vstd::prelude::*;

use crate::client::{ClientConfig, Measurement, MeasurementView, opt_string_view, copy_opt_string};
use crate::phase::Stage;
use crate::progress::succeeded_count;

verus! {

/// A point of the schedule at which all threads wait for each other and a
/// progress report goes out.
#[derive(Debug, Clone, Copy, PartialEq, Eq, Structural)]
pub enum Checkpoint {
    Greeting,
    InitDownload,
    Ping,
    Download,
    DownloadSpeed,
    Upload,
    UploadSpeed,
    SignedResult,
}

/// The label of the report sent at a checkpoint.
pub open spec fn checkpoint_label(c: Checkpoint) -> Seq<char> {
    match c {
        Checkpoint::Greeting => "greeting"@,
        Checkpoint::InitDownload => "init_download"@,
        Checkpoint::Ping => "ping"@,
        Checkpoint::Download => "download"@,
        Checkpoint::DownloadSpeed => "download"@,
        Checkpoint::Upload => "upload"@,
        Checkpoint::UploadSpeed => "upload"@,
        Checkpoint::SignedResult => "signed_result"@,
    }
}

/// The progress, in percent, reported at a checkpoint.
pub open spec fn checkpoint_percent(c: Checkpoint) -> u8 {
    match c {
        Checkpoint::Greeting => 10,
        Checkpoint::InitDownload => 20,
        Checkpoint::Ping => 30,
        Checkpoint::Download => 60,
        Checkpoint::DownloadSpeed => 70,
        Checkpoint::Upload => 85,
        Checkpoint::UploadSpeed => 90,
        Checkpoint::SignedResult => 95,
    }
}

impl Checkpoint {
    /// The label of the report sent at this checkpoint.
    pub fn label(&self) -> (s: String)
        ensures
            s@ == checkpoint_label(*self),
    {
        match self {
            Checkpoint::Greeting => "greeting".to_owned(),
            Checkpoint::InitDownload => "init_download".to_owned(),
            Checkpoint::Ping => "ping".to_owned(),
            Checkpoint::Download => "download".to_owned(),
            Checkpoint::DownloadSpeed => "download".to_owned(),
            Checkpoint::Upload => "upload".to_owned(),
            Checkpoint::UploadSpeed => "upload".to_owned(),
            Checkpoint::SignedResult => "signed_result".to_owned(),
        }
    }

    /// The progress, in percent, reported at this checkpoint.
    pub fn percent(&self) -> (p: u8)
        ensures
            p == checkpoint_percent(*self),
    {
        match self {
            Checkpoint::Greeting => 10,
            Checkpoint::InitDownload => 20,
            Checkpoint::Ping => 30,
            Checkpoint::Download => 60,
            Checkpoint::DownloadSpeed => 70,
            Checkpoint::Upload => 85,
            Checkpoint::UploadSpeed => 90,
            Checkpoint::SignedResult => 95,
        }
    }
}

/// What a thread does before it reaches a checkpoint.
#[derive(Debug, Clone, Copy, PartialEq, Eq, Structural)]
pub enum ThreadWork {
    /// Drive its connection through a stage.
    RunStage(Stage),
    /// Compute the download speed from all threads' samples.
    DownloadSpeed,
    /// Compute the upload speed from all threads' samples.
    UploadSpeed,
    /// Nothing: only wait for the others.
    Wait,
}

/// What a thread keeps of its connection once a stage is over.
#[derive(Debug, Clone, Copy, PartialEq, Eq, Structural)]
pub enum StageRecord {
    /// The ping median, shared with all threads.
    PingMedian,
    /// The download samples, added to the shared statistics.
    DownloadSamples,
    /// The upload samples, added to the shared statistics.
    UploadSamples,
    /// Nothing.
    Nothing,
}

/// What is kept after a stage: the ping median after the ping stage, the
/// download samples after the download stage, the upload samples after the
/// upload stage, nothing after the others.
pub open spec fn stage_record(s: Stage) -> StageRecord {
    match s {
        Stage::Ping => StageRecord::PingMedian,
        Stage::GetTime => StageRecord::DownloadSamples,
        Stage::Perf => StageRecord::UploadSamples,
        _ => StageRecord::Nothing,
    }
}

/// What is kept after `stage`.
pub fn record_after(stage: Stage) -> (r: StageRecord)
    ensures
        r == stage_record(stage),
{
    match stage {
        Stage::Ping => StageRecord::PingMedian,
        Stage::GetTime => StageRecord::DownloadSamples,
        Stage::Perf => StageRecord::UploadSamples,
        _ => StageRecord::Nothing,
    }
}

/// One step of a thread's schedule: its work, then the checkpoint.
#[derive(Debug, Clone, Copy, PartialEq, Eq, Structural)]
pub struct ScheduleStep {
    pub work: ThreadWork,
    pub checkpoint: Checkpoint,
}

/// The schedule of a thread. Every thread greets, fixes the chunk size,
/// downloads and uploads; the first thread alone also pings and computes the
/// two speeds while the others wait; the signed result is fetched only when
/// `signed` holds.
pub open spec fn schedule(first: bool, signed: bool) -> Seq<ScheduleStep> {
    let only_first = |w: ThreadWork|
        if first {
            w
        } else {
            ThreadWork::Wait
        };
    let common = seq![
        ScheduleStep { work: ThreadWork::RunStage(Stage::Greeting), checkpoint: Checkpoint::Greeting },
        ScheduleStep {
            work: ThreadWork::RunStage(Stage::GetChunks),
            checkpoint: Checkpoint::InitDownload,
        },
        ScheduleStep { work: only_first(ThreadWork::RunStage(Stage::Ping)), checkpoint: Checkpoint::Ping },
        ScheduleStep { work: ThreadWork::RunStage(Stage::GetTime), checkpoint: Checkpoint::Download },
        ScheduleStep {
            work: only_first(ThreadWork::DownloadSpeed),
            checkpoint: Checkpoint::DownloadSpeed,
        },
        ScheduleStep { work: ThreadWork::RunStage(Stage::Perf), checkpoint: Checkpoint::Upload },
        ScheduleStep { work: only_first(ThreadWork::UploadSpeed), checkpoint: Checkpoint::UploadSpeed },
    ];
    if signed {
        common.push(
            ScheduleStep {
                work: ThreadWork::RunStage(Stage::SignedResult),
                checkpoint: Checkpoint::SignedResult,
            },
        )
    } else {
        common
    }
}

/// The schedule of thread `thread_index` under `config`; thread 0 is the
/// first thread.
pub fn thread_schedule(thread_index: usize, config: &ClientConfig) -> (s: Vec<ScheduleStep>)
    ensures
        s@ == schedule(thread_index == 0, config.save_results && config.signed_result),
{
    let first = thread_index == 0;
    let mut s: Vec<ScheduleStep> = Vec::new();
    s.push(ScheduleStep { work: ThreadWork::RunStage(Stage::Greeting), checkpoint: Checkpoint::Greeting });
    s.push(
        ScheduleStep { work: ThreadWork::RunStage(Stage::GetChunks), checkpoint: Checkpoint::InitDownload },
    );
    s.push(
        ScheduleStep {
            work: if first {
                ThreadWork::RunStage(Stage::Ping)
            } else {
                ThreadWork::Wait
            },
            checkpoint: Checkpoint::Ping,
        },
    );
    s.push(ScheduleStep { work: ThreadWork::RunStage(Stage::GetTime), checkpoint: Checkpoint::Download });
    s.push(
        ScheduleStep {
            work: if first {
                ThreadWork::DownloadSpeed
            } else {
                ThreadWork::Wait
            },
            checkpoint: Checkpoint::DownloadSpeed,
        },
    );
    s.push(ScheduleStep { work: ThreadWork::RunStage(Stage::Perf), checkpoint: Checkpoint::Upload });
    s.push(
        ScheduleStep {
            work: if first {
                ThreadWork::UploadSpeed
            } else {
                ThreadWork::Wait
            },
            checkpoint: Checkpoint::UploadSpeed,
        },
    );
    if config.wants_signed_result() {
        s.push(
            ScheduleStep {
                work: ThreadWork::RunStage(Stage::SignedResult),
                checkpoint: Checkpoint::SignedResult,
            },
        );
    }
    assert(s@ =~= schedule(first, config.save_results && config.signed_result));
    s
}

/// All threads of a run meet at the same checkpoints in the same order:
/// their schedules are equally long and agree checkpoint by checkpoint, so
/// no thread waits at a barrier that another skips.
pub proof fn lemma_schedules_align(a: bool, b: bool, signed: bool)
    ensures
        schedule(a, signed).len() == schedule(b, signed).len(),
        forall|i: int|
            0 <= i < schedule(a, signed).len() ==> (#[trigger] schedule(a, signed)[i]).checkpoint
                == schedule(b, signed)[i].checkpoint,
{
}

/// The reported progress rises strictly from checkpoint to checkpoint and
/// stays below the hundred percent of the final report.
pub proof fn lemma_progress_rises(first: bool, signed: bool)
    ensures
        forall|i: int, j: int|
            0 <= i < j < schedule(first, signed).len() ==> checkpoint_percent(
                #[trigger] schedule(first, signed)[i].checkpoint,
            ) < checkpoint_percent(#[trigger] schedule(first, signed)[j].checkpoint),
        forall|i: int|
            0 <= i < schedule(first, signed).len() ==> checkpoint_percent(
                #[trigger] schedule(first, signed)[i].checkpoint,
            ) < 100,
{
}

/// Progress reports from any of the threads, taken in an order in which the
/// checkpoint positions never go back (the order the barriers impose: no
/// thread passes a checkpoint before every thread has reported at the one
/// before), carry percentages that never fall, all below the final
/// hundred.
pub proof fn lemma_reports_ordered(signed: bool, firsts: Seq<bool>, positions: Seq<int>)
    requires
        firsts.len() == positions.len(),
        forall|i: int|
            0 <= i < positions.len() ==> 0 <= #[trigger] positions[i] < schedule(false, signed).len(),
        forall|i: int, j: int|
            0 <= i < j < positions.len() ==> #[trigger] positions[i] <= #[trigger] positions[j],
    ensures
        forall|i: int, j: int|
            0 <= i < j < positions.len() ==> checkpoint_percent(
                schedule(firsts[i], signed)[#[trigger] positions[i]].checkpoint,
            ) <= checkpoint_percent(schedule(firsts[j], signed)[#[trigger] positions[j]].checkpoint),
        forall|i: int|
            0 <= i < positions.len() ==> checkpoint_percent(
                schedule(firsts[i], signed)[#[trigger] positions[i]].checkpoint,
            ) < 100,
{
    lemma_schedules_align(true, false, signed);
    lemma_progress_rises(false, signed);
    assert forall|i: int, j: int|
        0 <= i < j < positions.len() implies checkpoint_percent(
        schedule(firsts[i], signed)[#[trigger] positions[i]].checkpoint,
    ) <= checkpoint_percent(schedule(firsts[j], signed)[#[trigger] positions[j]].checkpoint) by {
        let p = positions[i];
        let q = positions[j];
        assert(schedule(firsts[i], signed)[p].checkpoint == schedule(false, signed)[p].checkpoint);
        assert(schedule(firsts[j], signed)[q].checkpoint == schedule(false, signed)[q].checkpoint);
        if p < q {
            assert(checkpoint_percent(schedule(false, signed)[p].checkpoint) < checkpoint_percent(
                schedule(false, signed)[q].checkpoint,
            ));
        }
    }
    assert forall|i: int| 0 <= i < positions.len() implies checkpoint_percent(
        schedule(firsts[i], signed)[#[trigger] positions[i]].checkpoint,
    ) < 100 by {
        let p = positions[i];
        assert(schedule(firsts[i], signed)[p].checkpoint == schedule(false, signed)[p].checkpoint);
        assert(checkpoint_percent(schedule(false, signed)[p].checkpoint) < 100);
    }
}

/// Asking for a signed result only appends the signed-result stage to every
/// thread's schedule; the steps before it stay as they are.
pub proof fn lemma_signed_result_appends(first: bool)
    ensures
        schedule(first, false).len() == 7,
        schedule(first, true) == schedule(first, false).push(
            ScheduleStep {
                work: ThreadWork::RunStage(Stage::SignedResult),
                checkpoint: Checkpoint::SignedResult,
            },
        ),
{
    assert(schedule(first, true) =~= schedule(first, false).push(
        ScheduleStep {
            work: ThreadWork::RunStage(Stage::SignedResult),
            checkpoint: Checkpoint::SignedResult,
        },
    ));
}

/// Whether a schedule does `w` at one of its steps.
pub open spec fn has_work(sc: Seq<ScheduleStep>, w: ThreadWork) -> bool {
    exists|i: int| 0 <= i < sc.len() && #[trigger] sc[i].work == w
}

/// The first thread does all the work of a measurement, whatever the
/// signing settings: it runs the greeting, chunk, ping, download and upload
/// stages and computes both speeds.
pub proof fn lemma_first_thread_does_all_work(signed: bool)
    ensures
        forall|st: Stage| st != Stage::SignedResult ==> #[trigger] has_work(
            schedule(true, signed),
            ThreadWork::RunStage(st),
        ),
        has_work(schedule(true, signed), ThreadWork::DownloadSpeed),
        has_work(schedule(true, signed), ThreadWork::UploadSpeed),
{
    let sc = schedule(true, signed);
    assert(sc[0].work == ThreadWork::RunStage(Stage::Greeting));
    assert(sc[1].work == ThreadWork::RunStage(Stage::GetChunks));
    assert(sc[2].work == ThreadWork::RunStage(Stage::Ping));
    assert(sc[3].work == ThreadWork::RunStage(Stage::GetTime));
    assert(sc[4].work == ThreadWork::DownloadSpeed);
    assert(sc[5].work == ThreadWork::RunStage(Stage::Perf));
    assert(sc[6].work == ThreadWork::UploadSpeed);
    assert forall|st: Stage| st != Stage::SignedResult implies #[trigger] has_work(
        sc,
        ThreadWork::RunStage(st),
    ) by {
        match st {
            Stage::Greeting => assert(sc[0].work == ThreadWork::RunStage(st)),
            Stage::GetChunks => assert(sc[1].work == ThreadWork::RunStage(st)),
            Stage::Ping => assert(sc[2].work == ThreadWork::RunStage(st)),
            Stage::GetTime => assert(sc[3].work == ThreadWork::RunStage(st)),
            Stage::Perf => assert(sc[5].work == ThreadWork::RunStage(st)),
            Stage::SignedResult => {},
        }
    }
}

/// Only the first thread pings and computes the speeds; every thread runs
/// the greeting, chunk, download and upload stages; the signed-result stage
/// is run exactly when it is asked for.
pub proof fn lemma_schedule_roles(first: bool, signed: bool)
    ensures
        forall|i: int|
            0 <= i < schedule(first, signed).len() && (#[trigger] schedule(first, signed)[i]).work
                != ThreadWork::Wait && schedule(first, signed)[i].work != ThreadWork::RunStage(
                Stage::Greeting,
            ) && schedule(first, signed)[i].work != ThreadWork::RunStage(Stage::GetChunks)
                && schedule(first, signed)[i].work != ThreadWork::RunStage(Stage::GetTime)
                && schedule(first, signed)[i].work != ThreadWork::RunStage(Stage::Perf)
                && schedule(first, signed)[i].work != ThreadWork::RunStage(Stage::SignedResult)
                ==> first,
        schedule(first, signed)[0].work == ThreadWork::RunStage(Stage::Greeting),
        schedule(first, signed)[1].work == ThreadWork::RunStage(Stage::GetChunks),
        schedule(first, signed)[3].work == ThreadWork::RunStage(Stage::GetTime),
        schedule(first, signed)[5].work == ThreadWork::RunStage(Stage::Perf),
        signed <==> (exists|i: int|
            0 <= i < schedule(first, signed).len() && #[trigger] schedule(first, signed)[i].work
                == ThreadWork::RunStage(Stage::SignedResult)),
{
    if signed {
        assert(schedule(first, signed)[7].work == ThreadWork::RunStage(Stage::SignedResult));
    }
}

/// The report after a step that runs a stage goes out under that stage's
/// label, the label under which the threads' own reports show that stage.
pub proof fn lemma_checkpoint_labels(first: bool, signed: bool)
    ensures
        forall|i: int|
            0 <= i < schedule(first, signed).len() ==> (match (#[trigger] schedule(
                first,
                signed,
            )[i]).work {
                ThreadWork::RunStage(st) => checkpoint_label(schedule(first, signed)[i].checkpoint)
                    == crate::phase::stage_label(st),
                _ => true,
            }),
{
}

/// The host that the threads connect to: the configured server itself when
/// it is an IP address, else the address it resolved to, or the server
/// itself when it did not resolve.
pub fn target_host(server: &String, is_ip: bool, resolved: Option<String>) -> (h: String)
    ensures
        h@ == if is_ip {
            server@
        } else {
            match resolved {
                Some(r) => r@,
                None => server@,
            }
        },
{
    if is_ip {
        server.clone()
    } else {
        match resolved {
            Some(r) => r,
            None => server.clone(),
        }
    }
}

/// The measurements of the threads that did not fail, in order.
pub open spec fn successful_views(ms: Seq<Measurement>) -> Seq<MeasurementView>
    decreases ms.len(),
{
    if ms.len() == 0 {
        Seq::empty()
    } else if ms.last().failed {
        successful_views(ms.drop_last())
    } else {
        successful_views(ms.drop_last()).push(ms.last()@)
    }
}

/// The successful measurements are the measurements whose thread did not
/// fail, in their order and with every field as handed in.
pub proof fn lemma_successful_is_filter(ms: Seq<Measurement>)
    ensures
        successful_views(ms) == ms.map_values(|m: Measurement| m@).filter(
            |v: MeasurementView| !v.failed,
        ),
    decreases ms.len(),
{
    reveal(Seq::filter);
    let views = ms.map_values(|m: Measurement| m@);
    if ms.len() > 0 {
        lemma_successful_is_filter(ms.drop_last());
        assert(views.drop_last() =~= ms.drop_last().map_values(|m: Measurement| m@));
        assert(views.last() == ms.last()@);
    } else {
        assert(views =~= Seq::<MeasurementView>::empty());
    }
}

/// There are as many successful measurements as threads that did not fail.
pub proof fn lemma_successful_len(ms: Seq<Measurement>)
    ensures
        successful_views(ms).len() == succeeded_count(ms),
    decreases ms.len(),
{
    if ms.len() > 0 {
        lemma_successful_len(ms.drop_last());
    }
}

/// The outcome of a finished run.
pub struct RunSummary {
    /// The measurements of the threads that did not fail, in order.
    pub successful: Vec<Measurement>,
    /// Their signed results, in the same order.
    pub envelopes: Vec<Option<String>>,
    /// How many of the run's threads did not hand in a successful
    /// measurement.
    pub failed_threads: usize,
}

/// Sorts out the measurements that `thread_count` threads handed in: those
/// whose thread did not fail, their signed results, and how many threads
/// fell short.
pub fn summarize_run(thread_count: usize, measurements: &Vec<Measurement>) -> (r: RunSummary)
    requires
        measurements.len() <= thread_count,
    ensures
        r.successful@.map_values(|m: Measurement| m@) == successful_views(measurements@),
        r.envelopes.len() == r.successful.len(),
        forall|i: int|
            0 <= i < r.envelopes.len() ==> opt_string_view(#[trigger] r.envelopes[i]) == opt_string_view(
                r.successful[i].envelope,
            ),
        r.successful.len() == succeeded_count(measurements@),
        r.failed_threads == thread_count - r.successful.len(),
{
    let mut successful: Vec<Measurement> = Vec::new();
    let mut envelopes: Vec<Option<String>> = Vec::new();
    let n = measurements.len();
    for i in 0..n
        invariant
            n == measurements.len(),
            successful@.map_values(|m: Measurement| m@) == successful_views(measurements@.take(i as int)),
            envelopes.len() == successful.len(),
            forall|j: int|
                0 <= j < envelopes.len() ==> opt_string_view(#[trigger] envelopes[j]) == opt_string_view(
                    successful[j].envelope,
                ),
    {
        proof {
            assert(measurements@.take(i + 1).drop_last() =~= measurements@.take(i as int));
        }
        if !measurements[i].failed {
            let m = measurements[i].copy();
            envelopes.push(copy_opt_string(&m.envelope));
            successful.push(m);
            assert(successful@.map_values(|m: Measurement| m@) =~= successful_views(
                measurements@.take(i as int),
            ).push(measurements@[i as int]@));
        }
    }
    assert(measurements@.take(n as int) =~= measurements@);
    proof {
        lemma_successful_len(measurements@);
        crate::progress::lemma_succeeded_bounded(measurements@);
        assert(successful.len() == successful@.map_values(|m: Measurement| m@).len());
    }
    let failed_threads = thread_count - successful.len();
    RunSummary { successful, envelopes, failed_threads }
}

} // verus!
