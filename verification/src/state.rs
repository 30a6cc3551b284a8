//! The state of one measurement connection and the decisions that drive it
//! through a stage: which phase a stage starts in, when a stage has timed
//! out, what an event's outcome does, and when a progress report is due.

use vstd::prelude::*;

use crate::client::opt_string_view;
use crate::phase::{ONE_SECOND_NS, Stage, TestPhase, stage_start};
use crate::progress::ThreadState;
use crate::samples::copy_queue;

use std::collections::VecDeque;

verus! {

/// The size of the read and of the write buffer of a connection.
pub const BUFFER_SIZE: usize = 8192;

/// The transport that a connection is opened over.
#[derive(Debug, Clone, Copy, PartialEq, Eq, Structural)]
pub enum StreamKind {
    WebSocketTls,
    Rustls,
    WebSocket,
    Tcp,
}

/// The transport for the given settings: WebSocket over TLS when both are
/// on, plain TLS, plain WebSocket, or TCP.
pub fn stream_kind(use_tls: bool, use_websocket: bool) -> (k: StreamKind)
    ensures
        k == if use_tls && use_websocket {
            StreamKind::WebSocketTls
        } else if use_tls {
            StreamKind::Rustls
        } else if use_websocket {
            StreamKind::WebSocket
        } else {
            StreamKind::Tcp
        },
{
    if use_tls && use_websocket {
        StreamKind::WebSocketTls
    } else if use_tls {
        StreamKind::Rustls
    } else if use_websocket {
        StreamKind::WebSocket
    } else {
        StreamKind::Tcp
    }
}

/// Whether a transport is opened with the client's certificate and key
/// files: only plain TLS is; WebSocket over TLS and the plain transports
/// take none.
pub fn takes_certificate(kind: StreamKind) -> (b: bool)
    ensures
        b == (kind == StreamKind::Rustls),
{
    kind == StreamKind::Rustls
}

/// What handling one readiness event of the connection gave.
#[derive(Debug, Clone, Copy, PartialEq, Eq, Structural)]
pub enum EventOutcome {
    /// The handler moved this many bytes (zero: nothing to read or write,
    /// or the event was neither readable nor writable).
    Handled(usize),
    /// The operation would have blocked.
    WouldBlock,
    /// The operation failed.
    Error,
}

/// The measurement data of one connection.
pub struct MeasurementState {
    /// The poll token of the connection.
    pub token: usize,
    pub phase: TestPhase,
    pub upload_bytes: Option<u64>,
    pub upload_time: Option<u64>,
    pub download_time: Option<u64>,
    pub chunk_size: usize,
    pub ping_median: Option<u64>,
    /// When the current stage began, in nanoseconds of a monotonic clock.
    pub phase_start_ns: Option<u128>,
    pub read_buffer: [u8; 8192],
    pub write_buffer: [u8; 8192],
    pub read_pos: usize,
    pub write_pos: usize,
    /// `(time_ns, bytes)` per downloaded chunk.
    pub download_measurements: VecDeque<(u64, u64)>,
    /// `(time_ns, bytes)` per uploaded chunk.
    pub upload_measurements: VecDeque<(u64, u64)>,
    pub failed: bool,
    pub total_chunks: u32,
    pub chunk_buffer: Vec<u8>,
    pub cursor: usize,
    /// Every ping time measured, for the median.
    pub ping_times: Vec<u64>,
    pub time_result: Option<u64>,
    pub bytes_received: u64,
    pub bytes_sent: u64,
    pub time_result_buffer: Vec<u8>,
    pub envelope: Option<String>,
}

/// `s` is the state of a fresh connection with poll token `token` and
/// chunks of `min_chunk_size` bytes.
pub open spec fn fresh_state(s: MeasurementState, token: usize, min_chunk_size: usize) -> bool {
    &&& s.token == token
    &&& s.phase == TestPhase::GreetingSendConnectionType
    &&& s.upload_bytes.is_none()
    &&& s.upload_time.is_none()
    &&& s.download_time.is_none()
    &&& s.chunk_size == min_chunk_size
    &&& s.ping_median.is_none()
    &&& s.phase_start_ns.is_none()
    &&& s.read_buffer@ == Seq::new(BUFFER_SIZE as nat, |i: int| 0u8)
    &&& s.write_buffer@ == Seq::new(BUFFER_SIZE as nat, |i: int| 0u8)
    &&& s.read_pos == 0
    &&& s.write_pos == 0
    &&& s.download_measurements@.len() == 0
    &&& s.upload_measurements@.len() == 0
    &&& !s.failed
    &&& s.total_chunks == 1
    &&& s.chunk_buffer@.len() == 0
    &&& s.cursor == 0
    &&& s.ping_times@.len() == 0
    &&& s.time_result.is_none()
    &&& s.bytes_received == 0
    &&& s.bytes_sent == 0
    &&& s.time_result_buffer@.len() == 0
    &&& s.envelope.is_none()
}

impl MeasurementState {
    /// The state of a fresh connection: at the first greeting phase, not
    /// failed, nothing measured, zeroed buffers, one chunk of
    /// `min_chunk_size` bytes.
    pub fn new(token: usize, min_chunk_size: usize) -> (s: MeasurementState)
        ensures
            fresh_state(s, token, min_chunk_size),
    {
        let read_buffer = [0u8; 8192];
        let write_buffer = [0u8; 8192];
        proof {
            broadcast use vstd::array::group_array_axioms;

            assert(read_buffer@ =~= Seq::new(BUFFER_SIZE as nat, |i: int| 0u8));
            assert(write_buffer@ =~= Seq::new(BUFFER_SIZE as nat, |i: int| 0u8));
        }
        MeasurementState {
            token,
            phase: TestPhase::GreetingSendConnectionType,
            upload_bytes: None,
            upload_time: None,
            download_time: None,
            chunk_size: min_chunk_size,
            ping_median: None,
            phase_start_ns: None,
            read_buffer,
            write_buffer,
            read_pos: 0,
            write_pos: 0,
            download_measurements: VecDeque::new(),
            upload_measurements: VecDeque::new(),
            failed: false,
            total_chunks: 1,
            chunk_buffer: Vec::new(),
            cursor: 0,
            ping_times: Vec::new(),
            time_result: None,
            bytes_received: 0,
            bytes_sent: 0,
            time_result_buffer: Vec::new(),
            envelope: None,
        }
    }
}

/// Whether a progress report is due at `now_ns` (nanoseconds of the wall
/// clock), the last one having gone out at `last_ns`: always when none has
/// gone out yet, else once at least a second has passed; never when the
/// clock reads earlier than the last report.
pub open spec fn progress_due(last_ns: Option<u128>, now_ns: u128) -> bool {
    match last_ns {
        None => true,
        Some(last) => now_ns >= last && now_ns - last >= ONE_SECOND_NS,
    }
}

/// The time that has passed since `start_ns` at `now_ns`, none when the
/// clock reads earlier than the start.
pub open spec fn elapsed_since(start_ns: u128, now_ns: u128) -> int {
    if now_ns >= start_ns {
        now_ns - start_ns
    } else {
        0
    }
}

/// `b` is `a` with only its phase set to `p`.
pub open spec fn same_but_phase(a: MeasurementState, b: MeasurementState, p: TestPhase) -> bool {
    &&& b.phase == p
    &&& same_but_phase_and_progress(a, b)
    &&& b.failed == a.failed
    &&& b.phase_start_ns == a.phase_start_ns
}

/// `a` and `b` agree on everything but the phase, the failure flag and the
/// stage start time.
pub open spec fn same_but_phase_and_progress(a: MeasurementState, b: MeasurementState) -> bool {
    &&& b.token == a.token
    &&& b.upload_bytes == a.upload_bytes
    &&& b.upload_time == a.upload_time
    &&& b.download_time == a.download_time
    &&& b.chunk_size == a.chunk_size
    &&& b.ping_median == a.ping_median
    &&& b.read_buffer@ == a.read_buffer@
    &&& b.write_buffer@ == a.write_buffer@
    &&& b.read_pos == a.read_pos
    &&& b.write_pos == a.write_pos
    &&& b.download_measurements@ == a.download_measurements@
    &&& b.upload_measurements@ == a.upload_measurements@
    &&& b.total_chunks == a.total_chunks
    &&& b.chunk_buffer@ == a.chunk_buffer@
    &&& b.cursor == a.cursor
    &&& b.ping_times@ == a.ping_times@
    &&& b.time_result == a.time_result
    &&& b.bytes_received == a.bytes_received
    &&& b.bytes_sent == a.bytes_sent
    &&& b.time_result_buffer@ == a.time_result_buffer@
    &&& opt_string_view(b.envelope) == opt_string_view(a.envelope)
}

/// `b` is `a` with at most the failure flag and the stage start time
/// changed.
pub open spec fn same_but_progress(a: MeasurementState, b: MeasurementState) -> bool {
    &&& b.phase == a.phase
    &&& same_but_phase_and_progress(a, b)
}

/// The measurement of one connection as the phase driver sees it.
pub struct TestState {
    measurement_state: MeasurementState,
    thread_id: Option<usize>,
    last_progress_send_ns: Option<u128>,
}

impl TestState {
    /// The measurement data.
    pub closed spec fn ms(&self) -> MeasurementState {
        self.measurement_state
    }

    /// The slot of this connection's thread in the shared snapshots, if it
    /// reports progress.
    pub closed spec fn tracked_thread(&self) -> Option<usize> {
        self.thread_id
    }

    /// When the last progress report went out, in nanoseconds of the wall
    /// clock.
    pub closed spec fn last_progress_ns(&self) -> Option<u128> {
        self.last_progress_send_ns
    }

    /// A fresh connection's state that reports no progress.
    pub fn new(tok: usize, min_chunk_size: usize) -> (s: TestState)
        ensures
            fresh_state(s.ms(), tok, min_chunk_size),
            s.tracked_thread().is_none(),
            s.last_progress_ns().is_none(),
    {
        Self::new_with_thread_tracking(tok, min_chunk_size, None)
    }

    /// A fresh connection's state that reports progress in slot `thread_id`
    /// of the shared snapshots, where one is given.
    pub fn new_with_thread_tracking(tok: usize, min_chunk_size: usize, thread_id: Option<usize>) -> (s:
        TestState)
        ensures
            fresh_state(s.ms(), tok, min_chunk_size),
            s.tracked_thread() == thread_id,
            s.last_progress_ns().is_none(),
    {
        TestState {
            measurement_state: MeasurementState::new(tok, min_chunk_size),
            thread_id,
            last_progress_send_ns: None,
        }
    }

    /// The measurement data.
    pub fn measurement_state(&self) -> (m: &MeasurementState)
        ensures
            *m == self.ms(),
    {
        &self.measurement_state
    }

    /// The measurement data, for the protocol handlers to update.
    pub fn measurement_state_mut(&mut self) -> (m: &mut MeasurementState)
        ensures
            *m == old(self).ms(),
            final(self).ms() == *final(m),
            final(self).tracked_thread() == old(self).tracked_thread(),
            final(self).last_progress_ns() == old(self).last_progress_ns(),
    {
        &mut self.measurement_state
    }

    /// The slot of this connection's thread in the shared snapshots.
    pub fn thread_id(&self) -> (t: Option<usize>)
        ensures
            t == self.tracked_thread(),
    {
        self.thread_id
    }

    /// Enters `stage`: every stage but the greeting, which a fresh state is
    /// already in, starts over at its first phase. Returns the stage, whose
    /// completed phase and deadline the caller then drives toward.
    pub fn enter_stage(&mut self, stage: Stage) -> (s: Stage)
        ensures
            s == stage,
            stage == Stage::Greeting ==> final(self).ms() == old(self).ms(),
            stage != Stage::Greeting ==> same_but_phase(old(self).ms(), final(self).ms(), stage_start(stage)),
            final(self).tracked_thread() == old(self).tracked_thread(),
            final(self).last_progress_ns() == old(self).last_progress_ns(),
    {
        if stage != Stage::Greeting {
            self.measurement_state.phase = stage.start();
        }
        stage
    }

    /// The greeting stage, which continues from the current phase.
    pub fn process_greeting(&mut self) -> (s: Stage)
        ensures
            s == Stage::Greeting,
            *final(self) == *old(self),
    {
        Stage::Greeting
    }

    /// Enters the signed-result stage.
    pub fn run_signed_result(&mut self) -> (s: Stage)
        ensures
            s == Stage::SignedResult,
            same_but_phase(old(self).ms(), final(self).ms(), TestPhase::SignedResultSend),
            final(self).tracked_thread() == old(self).tracked_thread(),
            final(self).last_progress_ns() == old(self).last_progress_ns(),
    {
        self.enter_stage(Stage::SignedResult)
    }

    /// Enters the upload stage.
    pub fn run_perf_test(&mut self) -> (s: Stage)
        ensures
            s == Stage::Perf,
            same_but_phase(old(self).ms(), final(self).ms(), TestPhase::PerfSendCommand),
            final(self).tracked_thread() == old(self).tracked_thread(),
            final(self).last_progress_ns() == old(self).last_progress_ns(),
    {
        self.enter_stage(Stage::Perf)
    }

    /// Enters the ping stage.
    pub fn run_ping(&mut self) -> (s: Stage)
        ensures
            s == Stage::Ping,
            same_but_phase(old(self).ms(), final(self).ms(), TestPhase::PingSendPing),
            final(self).tracked_thread() == old(self).tracked_thread(),
            final(self).last_progress_ns() == old(self).last_progress_ns(),
    {
        self.enter_stage(Stage::Ping)
    }

    /// Enters the stage that fixes the download chunk size.
    pub fn run_get_chunks(&mut self) -> (s: Stage)
        ensures
            s == Stage::GetChunks,
            same_but_phase(old(self).ms(), final(self).ms(), TestPhase::GetChunksSendChunksCommand),
            final(self).tracked_thread() == old(self).tracked_thread(),
            final(self).last_progress_ns() == old(self).last_progress_ns(),
    {
        self.enter_stage(Stage::GetChunks)
    }

    /// Enters the download stage.
    pub fn run_get_time(&mut self) -> (s: Stage)
        ensures
            s == Stage::GetTime,
            same_but_phase(old(self).ms(), final(self).ms(), TestPhase::GetTimeSendCommand),
            final(self).tracked_thread() == old(self).tracked_thread(),
            final(self).last_progress_ns() == old(self).last_progress_ns(),
    {
        self.enter_stage(Stage::GetTime)
    }

    /// Starts driving a stage at `now_ns` (nanoseconds of a monotonic
    /// clock). A failed connection is left as it is and the stage is
    /// skipped (`false`); otherwise the stage's start time is set.
    pub fn begin_phase(&mut self, now_ns: u128) -> (proceed: bool)
        ensures
            proceed == !old(self).ms().failed,
            !proceed ==> *final(self) == *old(self),
            proceed ==> final(self).ms().phase_start_ns == Some(now_ns),
            same_but_progress(old(self).ms(), final(self).ms()),
            final(self).ms().failed == old(self).ms().failed,
            final(self).tracked_thread() == old(self).tracked_thread(),
            final(self).last_progress_ns() == old(self).last_progress_ns(),
    {
        if self.measurement_state.failed {
            return false;
        }
        self.measurement_state.phase_start_ns = Some(now_ns);
        true
    }

    /// Whether the connection has reached phase `target`.
    pub fn reached(&self, target: TestPhase) -> (b: bool)
        ensures
            b == (self.ms().phase == target),
    {
        self.measurement_state.phase == target
    }

    /// A poll returned no events at `now_ns`. When more than `timeout_ns`
    /// has passed since the stage began, the connection fails and driving
    /// stops (`true`); otherwise nothing changes.
    pub fn on_idle_poll(&mut self, now_ns: u128, timeout_ns: u128) -> (stop: bool)
        requires
            old(self).ms().phase_start_ns.is_some(),
        ensures
            stop == (elapsed_since(old(self).ms().phase_start_ns.unwrap(), now_ns) > timeout_ns),
            stop ==> final(self).ms().failed,
            !stop ==> *final(self) == *old(self),
            same_but_progress(old(self).ms(), final(self).ms()),
            final(self).ms().phase_start_ns == old(self).ms().phase_start_ns,
            final(self).tracked_thread() == old(self).tracked_thread(),
            final(self).last_progress_ns() == old(self).last_progress_ns(),
    {
        let start = match self.measurement_state.phase_start_ns {
            Some(t) => t,
            None => now_ns,
        };
        let elapsed: u128 = if now_ns >= start {
            now_ns - start
        } else {
            0
        };
        if elapsed > timeout_ns {
            self.measurement_state.failed = true;
            true
        } else {
            false
        }
    }

    /// The outcome of handling one event. Moving no bytes or an error fails
    /// the connection; an error also stops handling the remaining events of
    /// this poll (`true`). Moving bytes or blocking changes nothing.
    pub fn on_event(&mut self, outcome: EventOutcome) -> (stop: bool)
        ensures
            stop == (outcome == EventOutcome::Error),
            final(self).ms().failed == (old(self).ms().failed || outcome == EventOutcome::Error
                || outcome == EventOutcome::Handled(0)),
            same_but_progress(old(self).ms(), final(self).ms()),
            final(self).ms().phase_start_ns == old(self).ms().phase_start_ns,
            final(self).tracked_thread() == old(self).tracked_thread(),
            final(self).last_progress_ns() == old(self).last_progress_ns(),
    {
        match outcome {
            EventOutcome::Handled(n) => {
                if n == 0 {
                    self.measurement_state.failed = true;
                }
                false
            },
            EventOutcome::WouldBlock => false,
            EventOutcome::Error => {
                self.measurement_state.failed = true;
                true
            },
        }
    }

    /// A snapshot of this connection for the shared progress state.
    pub fn snapshot(&self) -> (t: ThreadState)
        ensures
            t.phase == self.ms().phase,
            t.bytes_received == self.ms().bytes_received,
            t.bytes_sent == self.ms().bytes_sent,
            t.download_measurements@ == self.ms().download_measurements@,
            t.upload_measurements@ == self.ms().upload_measurements@,
            t.failed == self.ms().failed,
    {
        let ms = &self.measurement_state;
        ThreadState {
            phase: ms.phase,
            bytes_received: ms.bytes_received,
            bytes_sent: ms.bytes_sent,
            download_measurements: copy_queue(&ms.download_measurements),
            upload_measurements: copy_queue(&ms.upload_measurements),
            failed: ms.failed,
        }
    }

    /// Whether a progress report is due at `now_ns` (nanoseconds of the wall
    /// clock).
    pub fn progress_due(&self, now_ns: u128) -> (b: bool)
        ensures
            b == progress_due(self.last_progress_ns(), now_ns),
    {
        match self.last_progress_send_ns {
            None => true,
            Some(last) => now_ns >= last && now_ns - last >= ONE_SECOND_NS,
        }
    }

    /// Records that a progress report went out at `now_ns`.
    pub fn progress_sent(&mut self, now_ns: u128)
        ensures
            final(self).last_progress_ns() == Some(now_ns),
            final(self).ms() == old(self).ms(),
            final(self).tracked_thread() == old(self).tracked_thread(),
    {
        self.last_progress_send_ns = Some(now_ns);
    }
}

/// Where a stage run stands.
#[derive(Debug, Clone, Copy, PartialEq, Eq, Structural)]
pub enum RunStep {
    /// Not begun.
    Start,
    /// Waiting for the result of a poll.
    AwaitPoll,
    /// Handling the events of the last poll.
    AwaitEvents,
    /// Waiting for a progress snapshot to be published.
    AwaitPublish,
    /// Over.
    Done,
}

/// What the driver of a stage run is told.
#[derive(Debug, Clone, Copy, PartialEq, Eq, Structural)]
pub enum DriverEvent {
    /// The run begins at `now_ns` of a monotonic clock.
    Started { now_ns: u128 },
    /// A poll returned, with no events when `empty`, at `now_ns`.
    Polled { empty: bool, now_ns: u128 },
    /// One event of the last poll was handled.
    Handled(EventOutcome),
    /// All events of the last poll were handled.
    EventsHandled,
    /// The progress snapshot asked for was published.
    Published,
}

/// What the driver of a stage run asks for next.
#[derive(Debug, Clone, Copy, PartialEq, Eq, Structural)]
pub enum DriverAction {
    /// Nothing: the connection had failed before the run; the run is over
    /// without a snapshot.
    Skip,
    /// Poll the connection for at most the stage's timeout.
    Poll,
    /// Handle the next event of the last poll, if there is one.
    Handle,
    /// Publish a snapshot of the connection; the run is over after it when
    /// `last`.
    Publish { last: bool },
    /// Nothing more: the run is over.
    Finish,
}

/// The driver of one stage run of a connection: it polls until the
/// connection reaches the stage's completed phase, handles each poll's
/// events, and publishes a snapshot after each poll cycle and at the end.
/// A poll without events after the stage's timeout fails the connection and
/// ends the run; an error of an event fails the connection and skips the
/// rest of that poll's events.
pub struct PhaseRun {
    pub target: TestPhase,
    pub timeout_ns: u128,
    pub step: RunStep,
}

/// What a run in step `step` waits for the answer to.
pub open spec fn pending(step: RunStep) -> DriverAction {
    match step {
        RunStep::Start => DriverAction::Poll,
        RunStep::AwaitPoll => DriverAction::Poll,
        RunStep::AwaitEvents => DriverAction::Handle,
        RunStep::AwaitPublish => DriverAction::Publish { last: false },
        RunStep::Done => DriverAction::Finish,
    }
}

/// The next step and action of a run toward `target` under `timeout_ns`, in
/// step `step`, for a connection in state `ms`, on `event`.
pub open spec fn run_transition(
    target: TestPhase,
    timeout_ns: u128,
    step: RunStep,
    ms: MeasurementState,
    event: DriverEvent,
) -> (RunStep, DriverAction) {
    match (step, event) {
        (RunStep::Start, DriverEvent::Started { now_ns }) => if ms.failed {
            (RunStep::Done, DriverAction::Skip)
        } else if ms.phase == target {
            (RunStep::Done, DriverAction::Publish { last: true })
        } else {
            (RunStep::AwaitPoll, DriverAction::Poll)
        },
        (RunStep::AwaitPoll, DriverEvent::Polled { empty, now_ns }) => if empty && elapsed_since(
            ms.phase_start_ns.unwrap(),
            now_ns,
        ) > timeout_ns {
            (RunStep::Done, DriverAction::Publish { last: true })
        } else {
            (RunStep::AwaitEvents, DriverAction::Handle)
        },
        (RunStep::AwaitEvents, DriverEvent::Handled(o)) => if o == EventOutcome::Error {
            (RunStep::AwaitPublish, DriverAction::Publish { last: false })
        } else {
            (RunStep::AwaitEvents, DriverAction::Handle)
        },
        (RunStep::AwaitEvents, DriverEvent::EventsHandled) => (
            RunStep::AwaitPublish,
            DriverAction::Publish { last: false },
        ),
        (RunStep::AwaitPublish, DriverEvent::Published) => if ms.phase == target {
            (RunStep::Done, DriverAction::Publish { last: true })
        } else {
            (RunStep::AwaitPoll, DriverAction::Poll)
        },
        _ => (step, pending(step)),
    }
}

/// A run's state is consistent with its connection: once begun and not
/// over, the connection has a stage start time.
pub open spec fn run_wf(step: RunStep, ms: MeasurementState) -> bool {
    (step == RunStep::AwaitPoll || step == RunStep::AwaitEvents || step == RunStep::AwaitPublish)
        ==> ms.phase_start_ns.is_some()
}

impl PhaseRun {
    /// A run of `stage`, toward its completed phase under its timeout.
    pub fn new(stage: Stage) -> (r: PhaseRun)
        ensures
            r.target == crate::phase::stage_target(stage),
            r.timeout_ns == crate::phase::stage_timeout_ns(stage),
            r.step == RunStep::Start,
    {
        PhaseRun { target: stage.target(), timeout_ns: stage.timeout_ns(), step: RunStep::Start }
    }

    /// Takes in `event` for connection `ts` and says what to do next. Only
    /// the failure flag and the stage start time of the connection change:
    /// the run sets the start time when it begins, fails the connection on
    /// a timeout, on an event that moved nothing and on an error, and never
    /// clears a failure. A run is over only once the connection has reached
    /// the stage's completed phase or has failed. An event that the run does
    /// not wait for changes nothing and repeats what it waits for.
    pub fn advance(&mut self, ts: &mut TestState, event: DriverEvent) -> (a: DriverAction)
        requires
            run_wf(old(self).step, old(ts).ms()),
        ensures
            final(self).target == old(self).target,
            final(self).timeout_ns == old(self).timeout_ns,
            (final(self).step, a) == run_transition(
                old(self).target,
                old(self).timeout_ns,
                old(self).step,
                old(ts).ms(),
                event,
            ),
            run_wf(final(self).step, final(ts).ms()),
            final(self).step == RunStep::Done && old(self).step != RunStep::Done ==> final(ts).ms().phase
                == old(self).target || final(ts).ms().failed,
            same_but_progress(old(ts).ms(), final(ts).ms()),
            old(ts).ms().failed ==> final(ts).ms().failed,
            final(ts).ms().failed == (old(ts).ms().failed || match (old(self).step, event) {
                (RunStep::AwaitPoll, DriverEvent::Polled { empty, now_ns }) => empty
                    && elapsed_since(old(ts).ms().phase_start_ns.unwrap(), now_ns)
                    > old(self).timeout_ns,
                (RunStep::AwaitEvents, DriverEvent::Handled(o)) => o == EventOutcome::Error || o
                    == EventOutcome::Handled(0),
                _ => false,
            }),
            final(ts).ms().phase_start_ns == match (old(self).step, event) {
                (RunStep::Start, DriverEvent::Started { now_ns }) => if old(ts).ms().failed {
                    old(ts).ms().phase_start_ns
                } else {
                    Some(now_ns)
                },
                _ => old(ts).ms().phase_start_ns,
            },
            final(ts).tracked_thread() == old(ts).tracked_thread(),
            final(ts).last_progress_ns() == old(ts).last_progress_ns(),
    {
        match (self.step, event) {
            (RunStep::Start, DriverEvent::Started { now_ns }) => {
                if !ts.begin_phase(now_ns) {
                    self.step = RunStep::Done;
                    DriverAction::Skip
                } else if ts.reached(self.target) {
                    self.step = RunStep::Done;
                    DriverAction::Publish { last: true }
                } else {
                    self.step = RunStep::AwaitPoll;
                    DriverAction::Poll
                }
            },
            (RunStep::AwaitPoll, DriverEvent::Polled { empty, now_ns }) => {
                if empty && ts.on_idle_poll(now_ns, self.timeout_ns) {
                    self.step = RunStep::Done;
                    DriverAction::Publish { last: true }
                } else {
                    self.step = RunStep::AwaitEvents;
                    DriverAction::Handle
                }
            },
            (RunStep::AwaitEvents, DriverEvent::Handled(o)) => {
                if ts.on_event(o) {
                    self.step = RunStep::AwaitPublish;
                    DriverAction::Publish { last: false }
                } else {
                    DriverAction::Handle
                }
            },
            (RunStep::AwaitEvents, DriverEvent::EventsHandled) => {
                self.step = RunStep::AwaitPublish;
                DriverAction::Publish { last: false }
            },
            (RunStep::AwaitPublish, DriverEvent::Published) => {
                if ts.reached(self.target) {
                    self.step = RunStep::Done;
                    DriverAction::Publish { last: true }
                } else {
                    self.step = RunStep::AwaitPoll;
                    DriverAction::Poll
                }
            },
            _ => match self.step {
                RunStep::Start => DriverAction::Poll,
                RunStep::AwaitPoll => DriverAction::Poll,
                RunStep::AwaitEvents => DriverAction::Handle,
                RunStep::AwaitPublish => DriverAction::Publish { last: false },
                RunStep::Done => DriverAction::Finish,
            },
        }
    }
}

/// The driver asks for a poll only while the connection has not reached the
/// stage's completed phase, and a run that is over stays over.
pub proof fn lemma_run_polls_until_target(
    target: TestPhase,
    timeout_ns: u128,
    step: RunStep,
    ms: MeasurementState,
    event: DriverEvent,
    next_ms: MeasurementState,
)
    requires
        same_but_progress(ms, next_ms),
    ensures
        ({
            let (next, a) = run_transition(target, timeout_ns, step, ms, event);
            &&& (a == DriverAction::Poll && step != RunStep::Start && step != RunStep::AwaitPoll)
                ==> next_ms.phase != target
            &&& step == RunStep::Done ==> next == RunStep::Done && a == DriverAction::Finish
            &&& a == DriverAction::Skip ==> ms.failed && next == RunStep::Done
            &&& a == (DriverAction::Publish { last: true }) ==> next == RunStep::Done
        }),
{
}

/// Once a report has gone out at `sent_ns`, the next is due no earlier than
/// a second later.
pub proof fn lemma_progress_throttled(sent_ns: u128, now_ns: u128)
    ensures
        progress_due(Some(sent_ns), now_ns) ==> now_ns >= sent_ns + ONE_SECOND_NS,
        now_ns >= sent_ns + ONE_SECOND_NS ==> progress_due(Some(sent_ns), now_ns),
{
}

} // verus!
