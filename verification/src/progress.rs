//! Progress reports: per-thread snapshots, what a user interface is shown of
//! each thread, and the reports built from them.

use vstd::prelude::*;

use crate::client::{Measurement, SharedStats, opt_string_view, copy_opt_string};
use crate::phase::{TestPhase, Stage, phase_label, stage_label, stage_of_phase};
use crate::samples::{copy_samples, copy_sample_lists, sample_bytes, total_bytes, lemma_sample_bytes_prefix};

verus! {

/// A snapshot of one thread's measurement, taken after each poll cycle.
#[derive(Debug, Clone)]
pub struct ThreadState {
    pub phase: TestPhase,
    pub bytes_received: u64,
    pub bytes_sent: u64,
    pub download_measurements: Vec<(u64, u64)>,
    pub upload_measurements: Vec<(u64, u64)>,
    pub failed: bool,
}

/// What a user interface is shown of one thread.
#[derive(Debug, Clone)]
pub struct ThreadInfo {
    pub thread_id: usize,
    pub phase: String,
    pub bytes_received: u64,
    pub bytes_sent: u64,
    pub failed: bool,
    pub download_measurements: Vec<(u64, u64)>,
    pub upload_measurements: Vec<(u64, u64)>,
}

/// What one thread measured, reported once the measurement is over.
#[derive(Debug, Clone)]
pub struct ThreadResult {
    pub thread_id: usize,
    pub failed: bool,
    pub download_measurements: Vec<(u64, u64)>,
    pub upload_measurements: Vec<(u64, u64)>,
    pub total_bytes_received: u64,
    pub total_bytes_sent: u64,
    pub download_samples: usize,
    pub upload_samples: usize,
    pub envelope: Option<String>,
}

/// A progress report. The ping median is carried in nanoseconds and the
/// progress in whole percent; the speeds, which are floating point, are not
/// part of it.
#[derive(Debug, Clone)]
pub struct MeasurementProgress {
    pub phase: String,
    pub ping_median_ns: Option<u64>,
    pub download_measurements: Vec<Vec<(u64, u64)>>,
    pub upload_measurements: Vec<Vec<(u64, u64)>>,
    pub progress_percent: u8,
    pub bytes_received: u64,
    pub bytes_sent: u64,
    pub thread_count: usize,
    pub active_threads: usize,
    pub threads: Vec<ThreadInfo>,
    pub thread_results: Vec<ThreadResult>,
}

/// The threads' reports together with their totals over the threads that
/// have not failed.
pub struct ThreadSummary {
    pub infos: Vec<ThreadInfo>,
    pub bytes_received: u64,
    pub bytes_sent: u64,
    pub active: usize,
}

/// The bytes received by the threads that have reported and not failed.
pub open spec fn active_received(states: Seq<Option<ThreadState>>) -> nat
    decreases states.len(),
{
    if states.len() == 0 {
        0
    } else {
        active_received(states.drop_last()) + match states.last() {
            Some(s) => if s.failed { 0 } else { s.bytes_received as nat },
            None => 0,
        }
    }
}

/// The bytes sent by the threads that have reported and not failed.
pub open spec fn active_sent(states: Seq<Option<ThreadState>>) -> nat
    decreases states.len(),
{
    if states.len() == 0 {
        0
    } else {
        active_sent(states.drop_last()) + match states.last() {
            Some(s) => if s.failed { 0 } else { s.bytes_sent as nat },
            None => 0,
        }
    }
}

/// The number of threads that have reported and not failed.
pub open spec fn active_count(states: Seq<Option<ThreadState>>) -> nat
    decreases states.len(),
{
    if states.len() == 0 {
        0
    } else {
        active_count(states.drop_last()) + match states.last() {
            Some(s) => if s.failed { 0nat } else { 1nat },
            None => 0,
        }
    }
}

/// Whether a slot holds the snapshot of a thread that has not failed.
pub open spec fn is_active(s: Option<ThreadState>) -> bool {
    s matches Some(t) && !t.failed
}

/// The totals over two lists of slots together are the totals over each
/// added up; a single slot counts its thread's bytes, and counts as one
/// thread, exactly when it holds a snapshot of a thread that has not
/// failed; the active threads are exactly the active slots.
pub proof fn lemma_active_additive(
    a: Seq<Option<ThreadState>>,
    b: Seq<Option<ThreadState>>,
    x: Option<ThreadState>,
)
    ensures
        active_received(a + b) == active_received(a) + active_received(b),
        active_sent(a + b) == active_sent(a) + active_sent(b),
        active_count(a + b) == active_count(a) + active_count(b),
        active_received(seq![x]) == if is_active(x) { x->Some_0.bytes_received as nat } else { 0 },
        active_sent(seq![x]) == if is_active(x) { x->Some_0.bytes_sent as nat } else { 0 },
        active_count(seq![x]) == if is_active(x) { 1nat } else { 0 },
        active_count(a) == a.filter(|s: Option<ThreadState>| is_active(s)).len(),
    decreases a.len() + b.len(),
{
    reveal(Seq::filter);
    let none = Seq::<Option<ThreadState>>::empty();
    assert(seq![x].drop_last() =~= none);
    assert(active_received(none) == 0 && active_sent(none) == 0 && active_count(none) == 0);
    assert(seq![x].last() == x);
    if b.len() == 0 {
        assert(a + b =~= a);
    } else {
        lemma_active_additive(a, b.drop_last(), x);
        assert((a + b).drop_last() =~= a + b.drop_last());
    }
    if a.len() > 0 {
        lemma_active_additive(a.drop_last(), b, x);
    }
}

/// The bytes of two lists of measurements together are the bytes of each
/// added up; a single measurement carries the bytes of its samples, and
/// counts as successful exactly when its thread did not fail.
pub proof fn lemma_measured_additive(a: Seq<Measurement>, b: Seq<Measurement>, m: Measurement)
    ensures
        measured_received(a + b) == measured_received(a) + measured_received(b),
        measured_sent(a + b) == measured_sent(a) + measured_sent(b),
        succeeded_count(a + b) == succeeded_count(a) + succeeded_count(b),
        measured_received(seq![m]) == sample_bytes(m.measurements@),
        measured_sent(seq![m]) == sample_bytes(m.upload_measurements@),
        succeeded_count(seq![m]) == if m.failed { 0nat } else { 1nat },
    decreases b.len(),
{
    let none = Seq::<Measurement>::empty();
    assert(seq![m].drop_last() =~= none);
    assert(measured_received(none) == 0 && measured_sent(none) == 0 && succeeded_count(none) == 0);
    assert(seq![m].last() == m);
    if b.len() == 0 {
        assert(a + b =~= a);
    } else {
        lemma_measured_additive(a, b.drop_last(), m);
        assert((a + b).drop_last() =~= a + b.drop_last());
    }
}

/// `info` is what is shown of thread `tid` whose snapshot is `s`; a thread
/// without a snapshot is shown under `placeholder`, with no bytes and no
/// samples, failed as `placeholder_failed` says.
pub open spec fn info_shows(
    info: ThreadInfo,
    tid: int,
    s: Option<ThreadState>,
    placeholder: Seq<char>,
    placeholder_failed: bool,
) -> bool {
    &&& info.thread_id == tid
    &&& match s {
        Some(st) => {
            &&& info.phase@ == phase_label(st.phase)
            &&& info.bytes_received == st.bytes_received
            &&& info.bytes_sent == st.bytes_sent
            &&& info.failed == st.failed
            &&& info.download_measurements@ == st.download_measurements@
            &&& info.upload_measurements@ == st.upload_measurements@
        },
        None => {
            &&& info.phase@ == placeholder
            &&& info.bytes_received == 0
            &&& info.bytes_sent == 0
            &&& info.failed == placeholder_failed
            &&& info.download_measurements@.len() == 0
            &&& info.upload_measurements@.len() == 0
        },
    }
}

/// `infos` shows each of `states`, in order.
pub open spec fn infos_show(
    infos: Seq<ThreadInfo>,
    states: Seq<Option<ThreadState>>,
    placeholder: Seq<char>,
    placeholder_failed: bool,
) -> bool {
    &&& infos.len() == states.len()
    &&& forall|i: int|
        0 <= i < states.len() ==> info_shows(
            #[trigger] infos[i],
            i,
            states[i],
            placeholder,
            placeholder_failed,
        )
}

/// The bytes received that the shown threads which are not failed carry.
pub open spec fn shown_received(infos: Seq<ThreadInfo>) -> nat
    decreases infos.len(),
{
    if infos.len() == 0 {
        0
    } else {
        shown_received(infos.drop_last()) + if infos.last().failed {
            0
        } else {
            infos.last().bytes_received as nat
        }
    }
}

/// The bytes sent that the shown threads which are not failed carry.
pub open spec fn shown_sent(infos: Seq<ThreadInfo>) -> nat
    decreases infos.len(),
{
    if infos.len() == 0 {
        0
    } else {
        shown_sent(infos.drop_last()) + if infos.last().failed {
            0
        } else {
            infos.last().bytes_sent as nat
        }
    }
}

/// What is shown of the threads adds up to the report's totals: the bytes
/// of the shown threads that are not failed are the bytes of the active
/// threads.
pub proof fn lemma_shown_totals(
    infos: Seq<ThreadInfo>,
    states: Seq<Option<ThreadState>>,
    placeholder: Seq<char>,
    placeholder_failed: bool,
)
    requires
        infos_show(infos, states, placeholder, placeholder_failed),
    ensures
        shown_received(infos) == active_received(states),
        shown_sent(infos) == active_sent(states),
    decreases states.len(),
{
    if states.len() > 0 {
        let n = states.len() - 1;
        assert(info_shows(infos[n], n, states[n], placeholder, placeholder_failed));
        assert forall|i: int| 0 <= i < states.drop_last().len() implies info_shows(
            #[trigger] infos.drop_last()[i],
            i,
            states.drop_last()[i],
            placeholder,
            placeholder_failed,
        ) by {
            assert(info_shows(infos[i], i, states[i], placeholder, placeholder_failed));
        }
        lemma_shown_totals(infos.drop_last(), states.drop_last(), placeholder, placeholder_failed);
    }
}

/// The totals over a prefix never exceed those over the whole list, and the
/// count of active threads never exceeds the length.
pub proof fn lemma_active_prefix(states: Seq<Option<ThreadState>>, i: int)
    requires
        0 <= i <= states.len(),
    ensures
        active_received(states.take(i)) <= active_received(states),
        active_sent(states.take(i)) <= active_sent(states),
        active_count(states.take(i)) <= active_count(states),
        active_count(states) <= states.len(),
    decreases states.len() - i,
{
    if i < states.len() {
        lemma_active_prefix(states, i + 1);
        assert(states.take(i + 1).drop_last() =~= states.take(i));
    } else {
        assert(states.take(i) =~= states);
        lemma_active_count_bounded(states);
    }
}

/// At most every thread is active.
pub proof fn lemma_active_count_bounded(states: Seq<Option<ThreadState>>)
    ensures
        active_count(states) <= states.len(),
    decreases states.len(),
{
    if states.len() > 0 {
        lemma_active_count_bounded(states.drop_last());
    }
}

/// Whether the totals over the threads that have not failed fit in a `u64`,
/// as [`summarize_threads`] requires.
pub fn totals_fit(states: &Vec<Option<ThreadState>>) -> (b: bool)
    ensures
        b == (active_received(states@) <= u64::MAX && active_sent(states@) <= u64::MAX),
{
    let mut rx: u64 = 0;
    let mut tx: u64 = 0;
    let n = states.len();
    for i in 0..n
        invariant
            n == states.len(),
            rx == active_received(states@.take(i as int)),
            tx == active_sent(states@.take(i as int)),
    {
        proof {
            assert(states@.take(i + 1).drop_last() =~= states@.take(i as int));
            lemma_active_prefix(states@, i + 1);
        }
        match &states[i] {
            Some(s) => {
                if !s.failed {
                    match rx.checked_add(s.bytes_received) {
                        Some(v) => {
                            rx = v;
                        },
                        None => {
                            return false;
                        },
                    }
                    match tx.checked_add(s.bytes_sent) {
                        Some(v) => {
                            tx = v;
                        },
                        None => {
                            return false;
                        },
                    }
                }
            },
            None => {},
        }
    }
    assert(states@.take(n as int) =~= states@);
    true
}

/// What is shown of each thread, in order of thread id; a thread without a
/// snapshot is shown under `placeholder`, failed as `placeholder_failed`
/// says.
pub fn show_threads(
    states: &Vec<Option<ThreadState>>,
    placeholder: &str,
    placeholder_failed: bool,
) -> (infos: Vec<ThreadInfo>)
    ensures
        infos_show(infos@, states@, placeholder@, placeholder_failed),
{
    let mut infos: Vec<ThreadInfo> = Vec::new();
    let n = states.len();
    for i in 0..n
        invariant
            n == states.len(),
            infos.len() == i,
            forall|j: int|
                0 <= j < i ==> #[trigger] info_shows(
                    infos@[j],
                    j,
                    states@[j],
                    placeholder@,
                    placeholder_failed,
                ),
    {
        match &states[i] {
            Some(s) => {
                infos.push(
                    ThreadInfo {
                        thread_id: i,
                        phase: MeasurementProgress::from_phase(&s.phase),
                        bytes_received: s.bytes_received,
                        bytes_sent: s.bytes_sent,
                        failed: s.failed,
                        download_measurements: copy_samples(&s.download_measurements),
                        upload_measurements: copy_samples(&s.upload_measurements),
                    },
                );
            },
            None => {
                infos.push(
                    ThreadInfo {
                        thread_id: i,
                        phase: placeholder.to_owned(),
                        bytes_received: 0,
                        bytes_sent: 0,
                        failed: placeholder_failed,
                        download_measurements: Vec::new(),
                        upload_measurements: Vec::new(),
                    },
                );
            },
        }
        assert(info_shows(infos@[i as int], i as int, states@[i as int], placeholder@, placeholder_failed));
    }
    infos
}

/// The bytes received and sent by the threads that have a snapshot and have
/// not failed, and the number of such threads.
pub fn active_totals(states: &Vec<Option<ThreadState>>) -> (r: (u64, u64, usize))
    requires
        active_received(states@) <= u64::MAX,
        active_sent(states@) <= u64::MAX,
    ensures
        r.0 == active_received(states@),
        r.1 == active_sent(states@),
        r.2 == active_count(states@),
{
    let mut rx: u64 = 0;
    let mut tx: u64 = 0;
    let mut active: usize = 0;
    let n = states.len();
    proof {
        lemma_active_prefix(states@, 0);
    }
    for i in 0..n
        invariant
            n == states.len(),
            active_received(states@) <= u64::MAX,
            active_sent(states@) <= u64::MAX,
            active_count(states@) <= states.len(),
            rx == active_received(states@.take(i as int)),
            tx == active_sent(states@.take(i as int)),
            active == active_count(states@.take(i as int)),
    {
        proof {
            assert(states@.take(i + 1).drop_last() =~= states@.take(i as int));
            lemma_active_prefix(states@, i + 1);
        }
        match &states[i] {
            Some(s) => {
                if !s.failed {
                    active = active + 1;
                    rx = rx + s.bytes_received;
                    tx = tx + s.bytes_sent;
                }
            },
            None => {},
        }
    }
    assert(states@.take(n as int) =~= states@);
    (rx, tx, active)
}

/// The reports of all threads, in order of their ids, with the bytes and the
/// count of the threads that have a snapshot and have not failed. A thread
/// without a snapshot is shown under `placeholder`, failed as
/// `placeholder_failed` says.
pub fn summarize_threads(
    states: &Vec<Option<ThreadState>>,
    placeholder: &str,
    placeholder_failed: bool,
) -> (r: ThreadSummary)
    requires
        active_received(states@) <= u64::MAX,
        active_sent(states@) <= u64::MAX,
    ensures
        infos_show(r.infos@, states@, placeholder@, placeholder_failed),
        r.bytes_received == active_received(states@),
        r.bytes_sent == active_sent(states@),
        r.active == active_count(states@),
{
    let infos = show_threads(states, placeholder, placeholder_failed);
    let (rx, tx, active) = active_totals(states);
    ThreadSummary { infos, bytes_received: rx, bytes_sent: tx, active }
}

impl MeasurementProgress {
    /// The label of a stage.
    pub fn stage_name(stage: Stage) -> (s: String)
        ensures
            s@ == stage_label(stage),
    {
        match stage {
            Stage::Greeting => "greeting".to_owned(),
            Stage::GetChunks => "init_download".to_owned(),
            Stage::Ping => "ping".to_owned(),
            Stage::GetTime => "download".to_owned(),
            Stage::Perf => "upload".to_owned(),
            Stage::SignedResult => "signed_result".to_owned(),
        }
    }

    /// The label under which a phase is reported: that of its stage.
    pub fn from_phase(phase: &TestPhase) -> (s: String)
        ensures
            s@ == phase_label(*phase),
    {
        Self::stage_name(stage_of_phase(phase))
    }
}


/// The bytes downloaded over all measurements.
pub open spec fn measured_received(ms: Seq<Measurement>) -> nat
    decreases ms.len(),
{
    if ms.len() == 0 {
        0
    } else {
        measured_received(ms.drop_last()) + sample_bytes(ms.last().measurements@)
    }
}

/// The bytes uploaded over all measurements.
pub open spec fn measured_sent(ms: Seq<Measurement>) -> nat
    decreases ms.len(),
{
    if ms.len() == 0 {
        0
    } else {
        measured_sent(ms.drop_last()) + sample_bytes(ms.last().upload_measurements@)
    }
}

/// The number of measurements whose thread did not fail.
pub open spec fn succeeded_count(ms: Seq<Measurement>) -> nat
    decreases ms.len(),
{
    if ms.len() == 0 {
        0
    } else {
        succeeded_count(ms.drop_last()) + if ms.last().failed { 0nat } else { 1nat }
    }
}

/// `r` reports measurement `m`: its samples, their byte totals and counts,
/// and its signed result.
pub open spec fn result_reports(r: ThreadResult, m: Measurement) -> bool {
    &&& r.thread_id == m.thread_id
    &&& r.failed == m.failed
    &&& r.download_measurements@ == m.measurements@
    &&& r.upload_measurements@ == m.upload_measurements@
    &&& r.total_bytes_received == sample_bytes(m.measurements@)
    &&& r.total_bytes_sent == sample_bytes(m.upload_measurements@)
    &&& r.download_samples == m.measurements@.len()
    &&& r.upload_samples == m.upload_measurements@.len()
    &&& opt_string_view(r.envelope) == opt_string_view(m.envelope)
}

/// Totals over a prefix of the measurements never exceed those over all of
/// them, and one measurement's bytes never exceed the totals.
pub proof fn lemma_measured_prefix(ms: Seq<Measurement>, i: int)
    requires
        0 <= i <= ms.len(),
    ensures
        measured_received(ms.take(i)) <= measured_received(ms),
        measured_sent(ms.take(i)) <= measured_sent(ms),
        succeeded_count(ms.take(i)) <= succeeded_count(ms),
        succeeded_count(ms) <= ms.len(),
        i < ms.len() ==> measured_received(ms.take(i)) + sample_bytes(ms[i].measurements@)
            <= measured_received(ms),
        i < ms.len() ==> measured_sent(ms.take(i)) + sample_bytes(ms[i].upload_measurements@)
            <= measured_sent(ms),
    decreases ms.len() - i,
{
    if i < ms.len() {
        lemma_measured_prefix(ms, i + 1);
        assert(ms.take(i + 1).drop_last() =~= ms.take(i));
    } else {
        assert(ms.take(i) =~= ms);
        lemma_succeeded_bounded(ms);
    }
}

/// At most every measurement succeeded.
pub proof fn lemma_succeeded_bounded(ms: Seq<Measurement>)
    ensures
        succeeded_count(ms) <= ms.len(),
    decreases ms.len(),
{
    if ms.len() > 0 {
        lemma_succeeded_bounded(ms.drop_last());
    }
}

/// Whether the byte totals over all measurements fit in a `u64`, as
/// [`report_results`] and [`MeasurementProgress::final_report`] require.
pub fn results_fit(ms: &Vec<Measurement>) -> (b: bool)
    ensures
        b == (measured_received(ms@) <= u64::MAX && measured_sent(ms@) <= u64::MAX),
{
    let mut rx: u64 = 0;
    let mut tx: u64 = 0;
    let n = ms.len();
    for i in 0..n
        invariant
            n == ms.len(),
            rx == measured_received(ms@.take(i as int)),
            tx == measured_sent(ms@.take(i as int)),
    {
        proof {
            assert(ms@.take(i + 1).drop_last() =~= ms@.take(i as int));
            lemma_measured_prefix(ms@, i as int);
        }
        let down = &ms[i].measurements;
        let dn = down.len();
        let ghost rx0 = rx;
        for k in 0..dn
            invariant
                dn == down.len(),
                n == ms.len(),
                i < n,
                down@ == ms@[i as int].measurements@,
                rx0 == measured_received(ms@.take(i as int)),
                rx == rx0 + sample_bytes(down@.take(k as int)),
        {
            proof {
                assert(down@.take(k + 1).drop_last() =~= down@.take(k as int));
                lemma_sample_bytes_prefix(down@, k + 1);
                lemma_measured_prefix(ms@, i as int);
            }
            match rx.checked_add(down[k].1) {
                Some(v) => {
                    rx = v;
                },
                None => {
                    return false;
                },
            }
        }
        assert(down@.take(dn as int) =~= down@);
        let up = &ms[i].upload_measurements;
        let un = up.len();
        let ghost tx0 = tx;
        for k in 0..un
            invariant
                un == up.len(),
                n == ms.len(),
                i < n,
                up@ == ms@[i as int].upload_measurements@,
                tx0 == measured_sent(ms@.take(i as int)),
                tx == tx0 + sample_bytes(up@.take(k as int)),
        {
            proof {
                assert(up@.take(k + 1).drop_last() =~= up@.take(k as int));
                lemma_sample_bytes_prefix(up@, k + 1);
                lemma_measured_prefix(ms@, i as int);
            }
            match tx.checked_add(up[k].1) {
                Some(v) => {
                    tx = v;
                },
                None => {
                    return false;
                },
            }
        }
        assert(up@.take(un as int) =~= up@);
    }
    assert(ms@.take(n as int) =~= ms@);
    true
}

impl ThreadResult {
    /// The report of one thread's measurement.
    pub fn from_measurement(m: &Measurement) -> (r: ThreadResult)
        requires
            sample_bytes(m.measurements@) <= u64::MAX,
            sample_bytes(m.upload_measurements@) <= u64::MAX,
        ensures
            result_reports(r, *m),
    {
        ThreadResult {
            thread_id: m.thread_id,
            failed: m.failed,
            download_measurements: copy_samples(&m.measurements),
            upload_measurements: copy_samples(&m.upload_measurements),
            total_bytes_received: total_bytes(&m.measurements),
            total_bytes_sent: total_bytes(&m.upload_measurements),
            download_samples: m.measurements.len(),
            upload_samples: m.upload_measurements.len(),
            envelope: copy_opt_string(&m.envelope),
        }
    }
}

/// The reports of all measurements, in order, with their byte totals and
/// the number of measurements whose thread did not fail.
pub fn report_results(ms: &Vec<Measurement>) -> (r: (Vec<ThreadResult>, u64, u64, usize))
    requires
        measured_received(ms@) <= u64::MAX,
        measured_sent(ms@) <= u64::MAX,
    ensures
        r.0.len() == ms.len(),
        forall|i: int| 0 <= i < ms.len() ==> result_reports(#[trigger] r.0[i], ms[i]),
        r.1 == measured_received(ms@),
        r.2 == measured_sent(ms@),
        r.3 == succeeded_count(ms@),
{
    let mut results: Vec<ThreadResult> = Vec::new();
    let mut rx: u64 = 0;
    let mut tx: u64 = 0;
    let mut ok: usize = 0;
    let n = ms.len();
    proof {
        lemma_measured_prefix(ms@, 0);
    }
    for i in 0..n
        invariant
            n == ms.len(),
            measured_received(ms@) <= u64::MAX,
            measured_sent(ms@) <= u64::MAX,
            succeeded_count(ms@) <= ms.len(),
            results.len() == i,
            forall|j: int| 0 <= j < i ==> #[trigger] result_reports(results[j], ms[j]),
            rx == measured_received(ms@.take(i as int)),
            tx == measured_sent(ms@.take(i as int)),
            ok == succeeded_count(ms@.take(i as int)),
    {
        proof {
            assert(ms@.take(i + 1).drop_last() =~= ms@.take(i as int));
            lemma_measured_prefix(ms@, i as int);
            lemma_measured_prefix(ms@, i + 1);
        }
        let r = ThreadResult::from_measurement(&ms[i]);
        rx = rx + r.total_bytes_received;
        tx = tx + r.total_bytes_sent;
        if !ms[i].failed {
            ok = ok + 1;
        }
        results.push(r);
    }
    assert(ms@.take(n as int) =~= ms@);
    (results, rx, tx, ok)
}

impl MeasurementProgress {
    /// The report that a thread sends after a poll cycle: labelled by the
    /// phase that thread is in, with the totals over all threads' snapshots,
    /// no ping median, no samples, zero percent, and one entry per snapshot
    /// slot, empty slots shown as `waiting`.
    pub fn from_thread_states(phase: &TestPhase, states: &Vec<Option<ThreadState>>) -> (p:
        MeasurementProgress)
        requires
            active_received(states@) <= u64::MAX,
            active_sent(states@) <= u64::MAX,
        ensures
            p.phase@ == phase_label(*phase),
            p.ping_median_ns.is_none(),
            p.download_measurements.len() == 0,
            p.upload_measurements.len() == 0,
            p.progress_percent == 0,
            p.bytes_received == active_received(states@),
            p.bytes_sent == active_sent(states@),
            p.thread_count == states.len(),
            p.active_threads == active_count(states@),
            infos_show(p.threads@, states@, "waiting"@, false),
            p.thread_results.len() == 0,
    {
        let summary = summarize_threads(states, "waiting", false);
        let count = summary.infos.len();
        MeasurementProgress {
            phase: Self::from_phase(phase),
            ping_median_ns: None,
            download_measurements: Vec::new(),
            upload_measurements: Vec::new(),
            progress_percent: 0,
            bytes_received: summary.bytes_received,
            bytes_sent: summary.bytes_sent,
            thread_count: count,
            active_threads: summary.active,
            threads: summary.infos,
            thread_results: Vec::new(),
        }
    }

    /// The report sent when all threads pass a checkpoint of the schedule:
    /// labelled `label` at `percent`, with the ping median once it is known,
    /// the samples collected so far, the totals over the threads' snapshots,
    /// and one entry per snapshot slot, empty slots shown as `waiting`.
    pub fn checkpoint(
        label: &str,
        percent: u8,
        stats: &SharedStats,
        ping_median_ns: Option<u64>,
        states: &Vec<Option<ThreadState>>,
        thread_count: usize,
    ) -> (p: MeasurementProgress)
        requires
            active_received(states@) <= u64::MAX,
            active_sent(states@) <= u64::MAX,
        ensures
            p.phase@ == label@,
            p.ping_median_ns == ping_median_ns,
            p.download_measurements.len() == stats.download_measurements.len(),
            forall|i: int|
                0 <= i < stats.download_measurements.len() ==> #[trigger] p.download_measurements[i]@
                    == stats.download_measurements[i]@,
            p.upload_measurements.len() == stats.upload_measurements.len(),
            forall|i: int|
                0 <= i < stats.upload_measurements.len() ==> #[trigger] p.upload_measurements[i]@
                    == stats.upload_measurements[i]@,
            p.progress_percent == percent,
            p.bytes_received == active_received(states@),
            p.bytes_sent == active_sent(states@),
            p.thread_count == thread_count,
            p.active_threads == active_count(states@),
            infos_show(p.threads@, states@, "waiting"@, false),
            p.thread_results.len() == 0,
    {
        let summary = summarize_threads(states, "waiting", false);
        MeasurementProgress {
            phase: label.to_owned(),
            ping_median_ns,
            download_measurements: copy_sample_lists(&stats.download_measurements),
            upload_measurements: copy_sample_lists(&stats.upload_measurements),
            progress_percent: percent,
            bytes_received: summary.bytes_received,
            bytes_sent: summary.bytes_sent,
            thread_count,
            active_threads: summary.active,
            threads: summary.infos,
            thread_results: Vec::new(),
        }
    }

    /// The report sent once all threads are done: `completed` at one hundred
    /// percent, with one result per measurement that was handed in, the byte
    /// totals and the count of threads that did not fail taken from those
    /// results, and one entry per snapshot slot, empty slots shown as
    /// `completed` and failed.
    pub fn final_report(
        stats: &SharedStats,
        ping_median_ns: Option<u64>,
        states: &Vec<Option<ThreadState>>,
        measurements: &Vec<Measurement>,
        thread_count: usize,
    ) -> (p: MeasurementProgress)
        requires
            measured_received(measurements@) <= u64::MAX,
            measured_sent(measurements@) <= u64::MAX,
        ensures
            p.phase@ == "completed"@,
            p.ping_median_ns == ping_median_ns,
            p.download_measurements.len() == stats.download_measurements.len(),
            forall|i: int|
                0 <= i < stats.download_measurements.len() ==> #[trigger] p.download_measurements[i]@
                    == stats.download_measurements[i]@,
            p.upload_measurements.len() == stats.upload_measurements.len(),
            forall|i: int|
                0 <= i < stats.upload_measurements.len() ==> #[trigger] p.upload_measurements[i]@
                    == stats.upload_measurements[i]@,
            p.progress_percent == 100,
            p.bytes_received == measured_received(measurements@),
            p.bytes_sent == measured_sent(measurements@),
            p.thread_count == thread_count,
            p.active_threads == succeeded_count(measurements@),
            infos_show(p.threads@, states@, "completed"@, true),
            p.thread_results.len() == measurements.len(),
            forall|i: int|
                0 <= i < measurements.len() ==> result_reports(
                    #[trigger] p.thread_results[i],
                    measurements[i],
                ),
    {
        let (results, rx, tx, ok) = report_results(measurements);
        let infos = show_threads(states, "completed", true);
        MeasurementProgress {
            phase: "completed".to_owned(),
            ping_median_ns,
            download_measurements: copy_sample_lists(&stats.download_measurements),
            upload_measurements: copy_sample_lists(&stats.upload_measurements),
            progress_percent: 100,
            bytes_received: rx,
            bytes_sent: tx,
            thread_count,
            active_threads: ok,
            threads: infos,
            thread_results: results,
        }
    }

    /// An empty report under `label`: no ping median, no samples, zero
    /// percent, no bytes and no threads.
    pub fn empty(label: &str) -> (p: MeasurementProgress)
        ensures
            p.phase@ == label@,
            p.ping_median_ns.is_none(),
            p.download_measurements.len() == 0,
            p.upload_measurements.len() == 0,
            p.progress_percent == 0,
            p.bytes_received == 0,
            p.bytes_sent == 0,
            p.thread_count == 0,
            p.active_threads == 0,
            p.threads.len() == 0,
            p.thread_results.len() == 0,
    {
        MeasurementProgress {
            phase: label.to_owned(),
            ping_median_ns: None,
            download_measurements: Vec::new(),
            upload_measurements: Vec::new(),
            progress_percent: 0,
            bytes_received: 0,
            bytes_sent: 0,
            thread_count: 0,
            active_threads: 0,
            threads: Vec::new(),
            thread_results: Vec::new(),
        }
    }

    /// The report stored before a measurement begins: empty, labelled
    /// `starting`.
    pub fn starting() -> (p: MeasurementProgress)
        ensures
            p.phase@ == "starting"@,
            p.ping_median_ns.is_none(),
            p.progress_percent == 0,
            p.bytes_received == 0,
            p.bytes_sent == 0,
            p.thread_count == 0,
            p.active_threads == 0,
            p.threads.len() == 0,
            p.thread_results.len() == 0,
            p.download_measurements.len() == 0,
            p.upload_measurements.len() == 0,
    {
        Self::empty("starting")
    }

    /// The report stored when a measurement cannot run or fails: empty,
    /// labelled `error`.
    pub fn error() -> (p: MeasurementProgress)
        ensures
            p.phase@ == "error"@,
            p.ping_median_ns.is_none(),
            p.progress_percent == 0,
            p.bytes_received == 0,
            p.bytes_sent == 0,
            p.thread_count == 0,
            p.active_threads == 0,
            p.threads.len() == 0,
            p.thread_results.len() == 0,
            p.download_measurements.len() == 0,
            p.upload_measurements.len() == 0,
    {
        Self::empty("error")
    }
}

} // verus!
