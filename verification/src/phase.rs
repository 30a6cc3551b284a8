//! The phases of the RMBT protocol as the client walks through them, grouped
//! into the stages of a measurement.

use vstd::prelude::*;

verus! {

/// One second in nanoseconds.
pub const ONE_SECOND_NS: u128 = 1_000_000_000;

/// A step of the client side of the RMBT protocol.
#[derive(Debug, Clone, Copy, PartialEq, Eq, Hash, Structural)]
pub enum TestPhase {
    GreetingSendConnectionType,
    GreetingSendToken,
    GreetingReceiveGreeting,
    GreetingReceiveResponse,
    GreetingCompleted,

    GetChunksSendChunksCommand,
    GetChunksReceiveChunk,
    GetChunksSendOk,
    GetChunksReceiveTime,
    GetChunksCompleted,

    PingSendPing,
    PingReceivePong,
    PingSendOk,
    PingReceiveTime,
    PingCompleted,

    GetTimeSendCommand,
    GetTimeReceiveChunk,
    GetTimeSendOk,
    GetTimeReceiveTime,
    GetTimeCompleted,

    PerfSendCommand,
    PerfReceiveOk,
    PerfSendChunks,
    PerfSendLastChunk,
    PerfReceiveTime,
    PerfCompleted,

    SignedResultSend,
    SignedResultReceive,
    SignedResultSendOk,
    SignedResultCompleted,
}

/// A stage of a measurement: a run of phases that the client drives from a
/// start phase to a completed phase under one deadline.
#[derive(Debug, Clone, Copy, PartialEq, Eq, Hash, Structural)]
pub enum Stage {
    Greeting,
    GetChunks,
    Ping,
    GetTime,
    Perf,
    SignedResult,
}

/// The stage that a phase belongs to.
pub open spec fn stage_of(p: TestPhase) -> Stage {
    match p {
        TestPhase::GreetingSendConnectionType
        | TestPhase::GreetingSendToken
        | TestPhase::GreetingReceiveGreeting
        | TestPhase::GreetingReceiveResponse
        | TestPhase::GreetingCompleted => Stage::Greeting,
        TestPhase::GetChunksSendChunksCommand
        | TestPhase::GetChunksReceiveChunk
        | TestPhase::GetChunksSendOk
        | TestPhase::GetChunksReceiveTime
        | TestPhase::GetChunksCompleted => Stage::GetChunks,
        TestPhase::PingSendPing
        | TestPhase::PingReceivePong
        | TestPhase::PingSendOk
        | TestPhase::PingReceiveTime
        | TestPhase::PingCompleted => Stage::Ping,
        TestPhase::GetTimeSendCommand
        | TestPhase::GetTimeReceiveChunk
        | TestPhase::GetTimeSendOk
        | TestPhase::GetTimeReceiveTime
        | TestPhase::GetTimeCompleted => Stage::GetTime,
        TestPhase::PerfSendCommand
        | TestPhase::PerfReceiveOk
        | TestPhase::PerfSendChunks
        | TestPhase::PerfSendLastChunk
        | TestPhase::PerfReceiveTime
        | TestPhase::PerfCompleted => Stage::Perf,
        TestPhase::SignedResultSend
        | TestPhase::SignedResultReceive
        | TestPhase::SignedResultSendOk
        | TestPhase::SignedResultCompleted => Stage::SignedResult,
    }
}

/// The label under which a stage is reported to a user interface.
pub open spec fn stage_label(s: Stage) -> Seq<char> {
    match s {
        Stage::Greeting => "greeting"@,
        Stage::GetChunks => "init_download"@,
        Stage::Ping => "ping"@,
        Stage::GetTime => "download"@,
        Stage::Perf => "upload"@,
        Stage::SignedResult => "signed_result"@,
    }
}

/// The label under which a phase is reported: that of its stage.
pub open spec fn phase_label(p: TestPhase) -> Seq<char> {
    stage_label(stage_of(p))
}

/// The phase in which a stage completes.
pub open spec fn stage_target(s: Stage) -> TestPhase {
    match s {
        Stage::Greeting => TestPhase::GreetingCompleted,
        Stage::GetChunks => TestPhase::GetChunksCompleted,
        Stage::Ping => TestPhase::PingCompleted,
        Stage::GetTime => TestPhase::GetTimeCompleted,
        Stage::Perf => TestPhase::PerfCompleted,
        Stage::SignedResult => TestPhase::SignedResultCompleted,
    }
}

/// The phase in which a stage starts.
pub open spec fn stage_start(s: Stage) -> TestPhase {
    match s {
        Stage::Greeting => TestPhase::GreetingSendConnectionType,
        Stage::GetChunks => TestPhase::GetChunksSendChunksCommand,
        Stage::Ping => TestPhase::PingSendPing,
        Stage::GetTime => TestPhase::GetTimeSendCommand,
        Stage::Perf => TestPhase::PerfSendCommand,
        Stage::SignedResult => TestPhase::SignedResultSend,
    }
}

/// How long a stage may go without completing, in nanoseconds.
pub open spec fn stage_timeout_ns(s: Stage) -> u128 {
    match s {
        Stage::Greeting => (ONE_SECOND_NS * 50) as u128,
        Stage::GetChunks => (ONE_SECOND_NS * 3) as u128,
        Stage::Ping => (ONE_SECOND_NS * 3) as u128,
        Stage::GetTime => (ONE_SECOND_NS * 12) as u128,
        Stage::Perf => (ONE_SECOND_NS * 12) as u128,
        Stage::SignedResult => (ONE_SECOND_NS * 12) as u128,
    }
}

impl Stage {
    /// The phase in which this stage completes.
    pub fn target(&self) -> (p: TestPhase)
        ensures
            p == stage_target(*self),
    {
        match self {
            Stage::Greeting => TestPhase::GreetingCompleted,
            Stage::GetChunks => TestPhase::GetChunksCompleted,
            Stage::Ping => TestPhase::PingCompleted,
            Stage::GetTime => TestPhase::GetTimeCompleted,
            Stage::Perf => TestPhase::PerfCompleted,
            Stage::SignedResult => TestPhase::SignedResultCompleted,
        }
    }

    /// The phase in which this stage starts.
    pub fn start(&self) -> (p: TestPhase)
        ensures
            p == stage_start(*self),
    {
        match self {
            Stage::Greeting => TestPhase::GreetingSendConnectionType,
            Stage::GetChunks => TestPhase::GetChunksSendChunksCommand,
            Stage::Ping => TestPhase::PingSendPing,
            Stage::GetTime => TestPhase::GetTimeSendCommand,
            Stage::Perf => TestPhase::PerfSendCommand,
            Stage::SignedResult => TestPhase::SignedResultSend,
        }
    }

    /// How long this stage may go without completing, in nanoseconds.
    pub fn timeout_ns(&self) -> (t: u128)
        ensures
            t == stage_timeout_ns(*self),
    {
        match self {
            Stage::Greeting => ONE_SECOND_NS * 50,
            Stage::GetChunks => ONE_SECOND_NS * 3,
            Stage::Ping => ONE_SECOND_NS * 3,
            Stage::GetTime => ONE_SECOND_NS * 12,
            Stage::Perf => ONE_SECOND_NS * 12,
            Stage::SignedResult => ONE_SECOND_NS * 12,
        }
    }
}

/// What a connection is polled for while it drives a stage.
#[derive(Debug, Clone, Copy, PartialEq, Eq, Hash, Structural)]
pub enum Readiness {
    /// Writability only.
    Writable,
    /// Both readability and writability.
    ReadableAndWritable,
}

/// The readiness polled for in a stage: both directions in the greeting,
/// whose first message the server may send; writability in every other
/// stage, which the client opens with a command.
pub open spec fn stage_readiness(s: Stage) -> Readiness {
    match s {
        Stage::Greeting => Readiness::ReadableAndWritable,
        _ => Readiness::Writable,
    }
}

impl Stage {
    /// The readiness polled for in this stage.
    pub fn readiness(&self) -> (r: Readiness)
        ensures
            r == stage_readiness(*self),
    {
        match self {
            Stage::Greeting => Readiness::ReadableAndWritable,
            _ => Readiness::Writable,
        }
    }
}

/// The stage that a phase belongs to.
pub fn stage_of_phase(p: &TestPhase) -> (s: Stage)
    ensures
        s == stage_of(*p),
{
    match p {
        TestPhase::GreetingSendConnectionType
        | TestPhase::GreetingSendToken
        | TestPhase::GreetingReceiveGreeting
        | TestPhase::GreetingReceiveResponse
        | TestPhase::GreetingCompleted => Stage::Greeting,
        TestPhase::GetChunksSendChunksCommand
        | TestPhase::GetChunksReceiveChunk
        | TestPhase::GetChunksSendOk
        | TestPhase::GetChunksReceiveTime
        | TestPhase::GetChunksCompleted => Stage::GetChunks,
        TestPhase::PingSendPing
        | TestPhase::PingReceivePong
        | TestPhase::PingSendOk
        | TestPhase::PingReceiveTime
        | TestPhase::PingCompleted => Stage::Ping,
        TestPhase::GetTimeSendCommand
        | TestPhase::GetTimeReceiveChunk
        | TestPhase::GetTimeSendOk
        | TestPhase::GetTimeReceiveTime
        | TestPhase::GetTimeCompleted => Stage::GetTime,
        TestPhase::PerfSendCommand
        | TestPhase::PerfReceiveOk
        | TestPhase::PerfSendChunks
        | TestPhase::PerfSendLastChunk
        | TestPhase::PerfReceiveTime
        | TestPhase::PerfCompleted => Stage::Perf,
        TestPhase::SignedResultSend
        | TestPhase::SignedResultReceive
        | TestPhase::SignedResultSendOk
        | TestPhase::SignedResultCompleted => Stage::SignedResult,
    }
}

/// The phases of a stage, in the order in which the protocol goes through
/// them: from the command or message that opens the stage to the phase in
/// which it is over.
pub open spec fn stage_phases(s: Stage) -> Seq<TestPhase> {
    match s {
        Stage::Greeting => seq![
            TestPhase::GreetingSendConnectionType,
            TestPhase::GreetingSendToken,
            TestPhase::GreetingReceiveGreeting,
            TestPhase::GreetingReceiveResponse,
            TestPhase::GreetingCompleted,
        ],
        Stage::GetChunks => seq![
            TestPhase::GetChunksSendChunksCommand,
            TestPhase::GetChunksReceiveChunk,
            TestPhase::GetChunksSendOk,
            TestPhase::GetChunksReceiveTime,
            TestPhase::GetChunksCompleted,
        ],
        Stage::Ping => seq![
            TestPhase::PingSendPing,
            TestPhase::PingReceivePong,
            TestPhase::PingSendOk,
            TestPhase::PingReceiveTime,
            TestPhase::PingCompleted,
        ],
        Stage::GetTime => seq![
            TestPhase::GetTimeSendCommand,
            TestPhase::GetTimeReceiveChunk,
            TestPhase::GetTimeSendOk,
            TestPhase::GetTimeReceiveTime,
            TestPhase::GetTimeCompleted,
        ],
        Stage::Perf => seq![
            TestPhase::PerfSendCommand,
            TestPhase::PerfReceiveOk,
            TestPhase::PerfSendChunks,
            TestPhase::PerfSendLastChunk,
            TestPhase::PerfReceiveTime,
            TestPhase::PerfCompleted,
        ],
        Stage::SignedResult => seq![
            TestPhase::SignedResultSend,
            TestPhase::SignedResultReceive,
            TestPhase::SignedResultSendOk,
            TestPhase::SignedResultCompleted,
        ],
    }
}

/// Whether a phase is one in which its stage is over: nothing more is sent
/// or received in it.
pub open spec fn is_completed(p: TestPhase) -> bool {
    match p {
        TestPhase::GreetingCompleted
        | TestPhase::GetChunksCompleted
        | TestPhase::PingCompleted
        | TestPhase::GetTimeCompleted
        | TestPhase::PerfCompleted
        | TestPhase::SignedResultCompleted => true,
        _ => false,
    }
}

/// A stage starts at the first of its phases and is over at the last of
/// them, its only completed phase; every phase of a stage belongs to it and
/// is reported under its label.
pub proof fn lemma_stage_phase_order(s: Stage)
    ensures
        stage_phases(s).len() >= 4,
        stage_phases(s)[0] == stage_start(s),
        stage_phases(s).last() == stage_target(s),
        is_completed(stage_target(s)),
        forall|i: int|
            0 <= i < stage_phases(s).len() - 1 ==> !is_completed(#[trigger] stage_phases(s)[i]),
        forall|i: int|
            0 <= i < stage_phases(s).len() ==> stage_of(#[trigger] stage_phases(s)[i]) == s,
        forall|i: int|
            0 <= i < stage_phases(s).len() ==> phase_label(#[trigger] stage_phases(s)[i])
                == stage_label(s),
{
}

/// Every phase is one of the phases of the stage it is said to belong to:
/// the stages' phase lists cover all phases, and each phase is placed, and
/// labelled, by the list it stands in.
pub proof fn lemma_every_phase_in_its_stage(p: TestPhase)
    ensures
        stage_phases(stage_of(p)).contains(p),
{
    match p {
        TestPhase::GreetingSendConnectionType => assert(stage_phases(Stage::Greeting)[0] == p),
        TestPhase::GreetingSendToken => assert(stage_phases(Stage::Greeting)[1] == p),
        TestPhase::GreetingReceiveGreeting => assert(stage_phases(Stage::Greeting)[2] == p),
        TestPhase::GreetingReceiveResponse => assert(stage_phases(Stage::Greeting)[3] == p),
        TestPhase::GreetingCompleted => assert(stage_phases(Stage::Greeting)[4] == p),
        TestPhase::GetChunksSendChunksCommand => assert(stage_phases(Stage::GetChunks)[0] == p),
        TestPhase::GetChunksReceiveChunk => assert(stage_phases(Stage::GetChunks)[1] == p),
        TestPhase::GetChunksSendOk => assert(stage_phases(Stage::GetChunks)[2] == p),
        TestPhase::GetChunksReceiveTime => assert(stage_phases(Stage::GetChunks)[3] == p),
        TestPhase::GetChunksCompleted => assert(stage_phases(Stage::GetChunks)[4] == p),
        TestPhase::PingSendPing => assert(stage_phases(Stage::Ping)[0] == p),
        TestPhase::PingReceivePong => assert(stage_phases(Stage::Ping)[1] == p),
        TestPhase::PingSendOk => assert(stage_phases(Stage::Ping)[2] == p),
        TestPhase::PingReceiveTime => assert(stage_phases(Stage::Ping)[3] == p),
        TestPhase::PingCompleted => assert(stage_phases(Stage::Ping)[4] == p),
        TestPhase::GetTimeSendCommand => assert(stage_phases(Stage::GetTime)[0] == p),
        TestPhase::GetTimeReceiveChunk => assert(stage_phases(Stage::GetTime)[1] == p),
        TestPhase::GetTimeSendOk => assert(stage_phases(Stage::GetTime)[2] == p),
        TestPhase::GetTimeReceiveTime => assert(stage_phases(Stage::GetTime)[3] == p),
        TestPhase::GetTimeCompleted => assert(stage_phases(Stage::GetTime)[4] == p),
        TestPhase::PerfSendCommand => assert(stage_phases(Stage::Perf)[0] == p),
        TestPhase::PerfReceiveOk => assert(stage_phases(Stage::Perf)[1] == p),
        TestPhase::PerfSendChunks => assert(stage_phases(Stage::Perf)[2] == p),
        TestPhase::PerfSendLastChunk => assert(stage_phases(Stage::Perf)[3] == p),
        TestPhase::PerfReceiveTime => assert(stage_phases(Stage::Perf)[4] == p),
        TestPhase::PerfCompleted => assert(stage_phases(Stage::Perf)[5] == p),
        TestPhase::SignedResultSend => assert(stage_phases(Stage::SignedResult)[0] == p),
        TestPhase::SignedResultReceive => assert(stage_phases(Stage::SignedResult)[1] == p),
        TestPhase::SignedResultSendOk => assert(stage_phases(Stage::SignedResult)[2] == p),
        TestPhase::SignedResultCompleted => assert(stage_phases(Stage::SignedResult)[3] == p),
    }
}

/// Every stage starts and completes inside itself: its start phase and its
/// completed phase belong to it, and it completes in another phase than the
/// one it starts in.
pub proof fn lemma_stage_bounds(s: Stage)
    ensures
        stage_of(stage_start(s)) == s,
        stage_of(stage_target(s)) == s,
        stage_start(s) != stage_target(s),
{
}

/// Distinct stages are reported under distinct labels, so a label names
/// exactly one stage.
pub proof fn lemma_stage_labels_distinct(a: Stage, b: Stage)
    requires
        a != b,
    ensures
        stage_label(a) != stage_label(b),
{
    reveal_strlit("greeting");
    reveal_strlit("init_download");
    reveal_strlit("ping");
    reveal_strlit("download");
    reveal_strlit("upload");
    reveal_strlit("signed_result");
    assert("greeting"@[0] == 'g');
    assert("init_download"@[0] == 'i');
    assert("ping"@[0] == 'p');
    assert("download"@[0] == 'd');
    assert("upload"@[0] == 'u');
    assert("signed_result"@[0] == 's');
}

} // verus!
