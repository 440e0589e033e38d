//! The start-up sequence of a session, as data and as a step function.
//!
//! A sequence is a plan: a list of steps, each an operation on the transport
//! together with what to do if it fails. The caller asks the `Sequencer` for
//! the operation that is due, performs it, and reports the outcome; the
//! sequencer then moves on, retries, or gives up.

use crate::config::{StartupConfig, StartupStrategy};
use crate::error::{says_gone, XvisioError};
use crate::protocol::{
    build_configure_cmd_with_uvc, build_edge_stream_cmd_with_params,
    build_stereo_camera_init_cmd, build_stereo_camera_start_cmd, command_frame, flag,
    REPORT_SIZE,
};
use crate::types::SlamMode;
use vstd::prelude::*;

verus! {

/// A command of the start-up sequence with its parameters.
#[derive(Debug, Clone, Copy, PartialEq, Eq, Structural)]
pub enum Command {
    /// Select the operating mode.
    Configure { edge: bool, uvc_mode: u8, embedded_algo: bool },
    /// Initialise the stereo cameras.
    StereoInit,
    /// Start the stereo cameras.
    StereoStart,
    /// Start or stop the pose stream.
    EdgeStream { edge_mode: u8, rotation_enabled: bool, flipped: bool },
}

impl Command {
    /// The opcode of the command, which the device echoes in its
    /// acknowledgment.
    pub open spec fn opcode(self) -> Seq<u8> {
        match self {
            Command::Configure { .. } => seq![0x19u8, 0x95u8],
            Command::StereoInit => seq![0xFEu8, 0x20u8, 0x21u8],
            Command::StereoStart => seq![0xFEu8, 0x20u8, 0x22u8],
            Command::EdgeStream { .. } => seq![0xA2u8, 0x33u8],
        }
    }

    /// The opcode followed by the parameter bytes.
    pub open spec fn bytes(self) -> Seq<u8> {
        match self {
            Command::Configure { edge, uvc_mode, embedded_algo } => seq![
                0x19u8,
                0x95u8,
                flag(edge),
                uvc_mode,
                flag(embedded_algo),
            ],
            Command::StereoInit => seq![0xFEu8, 0x20u8, 0x21u8],
            Command::StereoStart => seq![0xFEu8, 0x20u8, 0x22u8],
            Command::EdgeStream { edge_mode, rotation_enabled, flipped } => seq![
                0xA2u8,
                0x33u8,
                edge_mode,
                flag(rotation_enabled),
                flag(flipped),
            ],
        }
    }

    /// The 63-byte frame that carries the command.
    pub fn frame(&self) -> (buf: [u8; REPORT_SIZE])
        ensures
            buf@ == command_frame(self.bytes()),
    {
        match self {
            Command::Configure { edge, uvc_mode, embedded_algo } => build_configure_cmd_with_uvc(
                *edge,
                *uvc_mode,
                *embedded_algo,
            ),
            Command::StereoInit => build_stereo_camera_init_cmd(),
            Command::StereoStart => build_stereo_camera_start_cmd(),
            Command::EdgeStream {
                edge_mode,
                rotation_enabled,
                flipped,
            } => build_edge_stream_cmd_with_params(*edge_mode, *rotation_enabled, *flipped),
        }
    }

    /// The opcode of the command.
    pub fn echo(&self) -> (op: Vec<u8>)
        ensures
            op@ == self.opcode(),
    {
        let op: Vec<u8> = match self {
            Command::Configure { .. } => vec![0x19u8, 0x95u8],
            Command::StereoInit => vec![0xFEu8, 0x20u8, 0x21u8],
            Command::StereoStart => vec![0xFEu8, 0x20u8, 0x22u8],
            Command::EdgeStream { .. } => vec![0xA2u8, 0x33u8],
        };
        assert(op@ =~= self.opcode());
        op
    }
}

/// What an acknowledgment read on the raw transport looks like. Only
/// `Accepted` is what the device should send; the two others are worth a
/// warning and nothing more, since the acknowledgment is often lost when the
/// device re-enumerates.
#[derive(Debug, Clone, Copy, PartialEq, Eq, Structural)]
pub enum AckStatus {
    /// The device prefix and the echo of the opcode are there.
    Accepted,
    /// Fewer bytes came than the prefix and the echo take.
    TooShort,
    /// The prefix or the echo is wrong.
    Mismatch,
}

/// The status of an acknowledgment of `len` bytes held in `response`, for a
/// command with opcode `expected`.
pub open spec fn ack_status(response: Seq<u8>, len: int, expected: Seq<u8>) -> AckStatus {
    if len < 1 + expected.len() {
        AckStatus::TooShort
    } else if response[0] != 0x01 || response.subrange(1, 1 + expected.len() as int) != expected {
        AckStatus::Mismatch
    } else {
        AckStatus::Accepted
    }
}

/// Classifies the acknowledgment that a control read returned: `len` bytes in
/// `response`, for a command whose opcode is `expected_echo`.
pub fn check_ack(response: &[u8], len: usize, expected_echo: &[u8]) -> (status: AckStatus)
    requires
        len <= response@.len(),
    ensures
        status == ack_status(response@, len as int, expected_echo@),
{
    let echo_len: usize = expected_echo.len();
    if len <= echo_len {
        return AckStatus::TooShort;
    }
    if response[0] != 0x01 {
        return AckStatus::Mismatch;
    }
    let mut i: usize = 0;
    while i < echo_len
        invariant
            i <= echo_len,
            echo_len == expected_echo@.len(),
            echo_len < len <= response@.len(),
            response@[0] == 0x01,
            forall|j: int| 0 <= j < i ==> response@[1 + j] == expected_echo@[j],
        decreases echo_len - i,
    {
        if response[1 + i] != expected_echo[i] {
            proof {
                let echo = response@.subrange(1, 1 + expected_echo@.len() as int);
                assert(echo[i as int] == response@[1 + i as int]);
                assert(echo != expected_echo@);
            }
            return AckStatus::Mismatch;
        }
        i += 1;
    }
    assert(response@.subrange(1, 1 + expected_echo@.len() as int) =~= expected_echo@);
    AckStatus::Accepted
}

/// What sending a command on the raw transport comes to, and whether the
/// acknowledgment is worth a warning.
///
/// The acknowledgment is advisory: the command has succeeded exactly when
/// its write has, whatever was read back. A write that went through with an
/// acknowledgment that is missing (`None`), too short or wrong is worth a
/// warning and nothing more.
pub open spec fn spec_command_result(write: Result<(), XvisioError>, ack: Option<AckStatus>) -> (
    Result<(), XvisioError>,
    bool,
) {
    (write, write is Ok && ack != Some(AckStatus::Accepted))
}

/// Settles a command on the raw transport from the outcome of its write and
/// the status of the acknowledgment, `None` where none could be read.
pub fn command_result(write: Result<(), XvisioError>, ack: Option<AckStatus>) -> (r: (
    Result<(), XvisioError>,
    bool,
))
    ensures
        r == spec_command_result(write, ack),
{
    let accepted: bool = match ack {
        Some(AckStatus::Accepted) => true,
        _ => false,
    };
    let warn: bool = write.is_ok() && !accepted;
    (write, warn)
}

/// One thing to do with the transport.
#[derive(Debug, Clone, Copy, PartialEq, Eq, Structural)]
pub enum Operation {
    /// Send the command's frame and read the acknowledgment.
    Send(Command),
    /// Wait this many milliseconds.
    Sleep(u32),
    /// Drop the feature-report transport and open the HID path again.
    Reopen,
    /// Open the raw transport, detach the kernel driver and claim the command
    /// interface.
    OpenDetached,
    /// Open the raw transport and claim its interfaces without detaching.
    OpenClaimed,
    /// Release the command interface and drop the raw transport.
    Release,
    /// Drop the raw transport.
    Close,
    /// Open a second handle on the same HID path for the reader.
    OpenReader,
}

/// What a failed step means for the sequence.
#[derive(Debug, Clone, Copy, PartialEq, Eq, Structural)]
pub enum OnFailure {
    /// The sequence fails with the step's error.
    Abort,
    /// The failure is logged and the sequence goes on.
    Ignore,
    /// The failure is logged and this many of the following steps are left
    /// out.
    Skip(u8),
    /// If the error says that the device went away: wait, reopen the
    /// transport and send again, up to `MAX_ATTEMPTS` times in all. If it says
    /// anything else, or no attempt is left: fail if `fatal`, go on if not.
    Retry { fatal: bool },
}

/// A step of a plan.
#[derive(Debug, Clone, Copy, PartialEq, Eq, Structural)]
pub struct Step {
    pub operation: Operation,
    pub on_failure: OnFailure,
}

/// How often a command is sent at most before the sequence gives up on it.
pub const MAX_ATTEMPTS: u32 = 40;

/// Milliseconds to wait after a failed attempt, before the transport is
/// reopened.
pub const RECONNECT_DELAY_MS: u32 = 100;

/// A step that fails the sequence if it fails.
pub open spec fn must(operation: Operation) -> Step {
    Step { operation, on_failure: OnFailure::Abort }
}

/// A step whose failure is only logged.
pub open spec fn may(operation: Operation) -> Step {
    Step { operation, on_failure: OnFailure::Ignore }
}

/// The configure command for a mode: edge mode sets the edge flag, mixed mode
/// the embedded-algorithm flag.
pub open spec fn configure_command(mode: SlamMode, uvc_mode: u8) -> Command {
    Command::Configure {
        edge: mode == SlamMode::Edge,
        uvc_mode,
        embedded_algo: mode == SlamMode::Mixed,
    }
}

/// The edge-stream start command for a mode on the recovery paths.
pub open spec fn edge_command(mode: SlamMode, rotation_enabled: bool) -> Command {
    Command::EdgeStream {
        edge_mode: flag(mode == SlamMode::Edge),
        rotation_enabled,
        flipped: false,
    }
}

/// The standard sequence: configure with UVC mode 0, wait a second for the
/// firmware to settle, start the edge stream with rotation enabled, and open
/// a second handle for the reader.
pub open spec fn standard_plan(cfg: StartupConfig) -> Seq<Step> {
    seq![
        must(Operation::Send(configure_command(cfg.slam_mode, 0))),
        must(Operation::Sleep(1000)),
        must(
            Operation::Send(
                Command::EdgeStream { edge_mode: 1, rotation_enabled: true, flipped: false },
            ),
        ),
        must(Operation::OpenReader),
    ]
}

/// The two stereo-camera commands on the feature-report path, each retried
/// while the device is away and neither fatal, with their pauses.
pub open spec fn stereo_steps_with_retry() -> Seq<Step> {
    seq![
        Step {
            operation: Operation::Send(Command::StereoInit),
            on_failure: OnFailure::Retry { fatal: false },
        },
        must(Operation::Sleep(50)),
        Step {
            operation: Operation::Send(Command::StereoStart),
            on_failure: OnFailure::Retry { fatal: false },
        },
        must(Operation::Sleep(300)),
    ]
}

/// The feature-report sequence for a device that re-enumerates: configure,
/// wait a second, reopen if asked, the stereo commands if asked, then the
/// edge-stream command, retried while the device is away and fatal if it
/// fails for good.
pub open spec fn feature_report_plan(cfg: StartupConfig) -> Seq<Step> {
    seq![
        must(Operation::Send(configure_command(cfg.slam_mode, cfg.uvc_mode))),
        must(Operation::Sleep(1000)),
    ] + (if cfg.reopen_after_config {
        seq![must(Operation::Reopen)]
    } else {
        Seq::<Step>::empty()
    }) + (if cfg.enable_stereo_init {
        stereo_steps_with_retry()
    } else {
        Seq::<Step>::empty()
    }) + seq![
        Step {
            operation: Operation::Send(edge_command(cfg.slam_mode, cfg.rotation_enabled)),
            on_failure: OnFailure::Retry { fatal: true },
        },
    ]
}

/// One warm-up cycle on the raw transport: open with detach, send configure
/// and edge-stream start without caring for the outcome, release, and pause.
/// If the transport cannot be opened, the cycle is only its final pause.
pub open spec fn precondition_cycle(cfg: StartupConfig) -> Seq<Step> {
    seq![
        Step { operation: Operation::OpenDetached, on_failure: OnFailure::Skip(5) },
        may(Operation::Send(configure_command(cfg.slam_mode, cfg.uvc_mode))),
        must(Operation::Sleep(200)),
        may(Operation::Send(edge_command(cfg.slam_mode, cfg.rotation_enabled))),
        must(Operation::Sleep(200)),
        may(Operation::Release),
        must(Operation::Sleep(300)),
    ]
}

/// `n` warm-up cycles one after the other.
pub open spec fn precondition_cycles(cfg: StartupConfig, n: nat) -> Seq<Step>
    decreases n,
{
    if n == 0 {
        Seq::<Step>::empty()
    } else {
        precondition_cycles(cfg, (n - 1) as nat) + precondition_cycle(cfg)
    }
}

/// Dropping the raw transport, a short pause, and claiming it again.
pub open spec fn reclaim_steps() -> Seq<Step> {
    seq![must(Operation::Close), must(Operation::Sleep(200)), must(Operation::OpenClaimed)]
}

/// The main sequence on the raw transport: claim, configure, wait a second,
/// claim again if asked, the stereo commands if asked (neither fatal), the
/// edge-stream command, a pause, and claim again if asked.
pub open spec fn raw_usb_main(cfg: StartupConfig) -> Seq<Step> {
    seq![
        must(Operation::OpenClaimed),
        must(Operation::Send(configure_command(cfg.slam_mode, cfg.uvc_mode))),
        must(Operation::Sleep(1000)),
    ] + (if cfg.reopen_after_config {
        reclaim_steps()
    } else {
        Seq::<Step>::empty()
    }) + (if cfg.enable_stereo_init {
        seq![
            may(Operation::Send(Command::StereoInit)),
            must(Operation::Sleep(50)),
            may(Operation::Send(Command::StereoStart)),
            must(Operation::Sleep(300)),
        ]
    } else {
        Seq::<Step>::empty()
    }) + seq![
        must(Operation::Send(edge_command(cfg.slam_mode, cfg.rotation_enabled))),
        must(Operation::Sleep(300)),
    ] + (if cfg.reopen_after_edge_start {
        reclaim_steps()
    } else {
        Seq::<Step>::empty()
    })
}

/// The raw-USB sequence: the warm-up cycles, a second for the device to
/// settle if there was any, and the main sequence.
pub open spec fn raw_usb_plan(cfg: StartupConfig) -> Seq<Step> {
    precondition_cycles(cfg, cfg.precondition_cycles as nat) + (if cfg.precondition_cycles > 0 {
        seq![must(Operation::Sleep(1000))]
    } else {
        Seq::<Step>::empty()
    }) + raw_usb_main(cfg)
}

/// The plan of a strategy.
pub open spec fn plan_of(cfg: StartupConfig, strategy: StartupStrategy) -> Seq<Step> {
    match strategy {
        StartupStrategy::Standard => standard_plan(cfg),
        StartupStrategy::FeatureReportRetry => feature_report_plan(cfg),
        StartupStrategy::RawUsb => raw_usb_plan(cfg),
    }
}

/// The commands that a plan sends, in their order.
pub open spec fn commands_of(plan: Seq<Step>) -> Seq<Command>
    decreases plan.len(),
{
    if plan.len() == 0 {
        Seq::<Command>::empty()
    } else {
        match plan.last().operation {
            Operation::Send(c) => commands_of(plan.drop_last()).push(c),
            _ => commands_of(plan.drop_last()),
        }
    }
}

/// The commands of a start-up in the order in which the device must see
/// them: configure, then the two stereo-camera commands if asked for, then
/// edge-stream start.
pub open spec fn command_order(configure: Command, stereo: bool, edge: Command) -> Seq<Command> {
    if stereo {
        seq![configure, Command::StereoInit, Command::StereoStart, edge]
    } else {
        seq![configure, edge]
    }
}

/// The commands of two plans laid end to end are the commands of the first
/// followed by those of the second.
pub proof fn lemma_commands_of_concat(a: Seq<Step>, b: Seq<Step>)
    ensures
        commands_of(a + b) == commands_of(a) + commands_of(b),
    decreases b.len(),
{
    if b.len() == 0 {
        assert(a + b =~= a);
        assert(commands_of(a) + commands_of(b) =~= commands_of(a));
    } else {
        lemma_commands_of_concat(a, b.drop_last());
        assert((a + b).drop_last() =~= a + b.drop_last());
        assert((a + b).last() == b.last());
        match b.last().operation {
            Operation::Send(c) => {
                assert(commands_of(a + b) =~= commands_of(a) + commands_of(b));
            },
            _ => {},
        }
    }
}

proof fn lemma_commands_of_one(step: Step)
    ensures
        commands_of(seq![step]) == (match step.operation {
            Operation::Send(c) => seq![c],
            _ => Seq::<Command>::empty(),
        }),
{
    let none = Seq::<Step>::empty();
    lemma_commands_of_push(none, step);
    assert(none.push(step) =~= seq![step]);
    match step.operation {
        Operation::Send(c) => {
            assert(commands_of(none).push(c) =~= seq![c]);
        },
        _ => {},
    }
}

proof fn lemma_commands_of_push(plan: Seq<Step>, step: Step)
    ensures
        commands_of(plan.push(step)) == (match step.operation {
            Operation::Send(c) => commands_of(plan).push(c),
            _ => commands_of(plan),
        }),
{
    assert(plan.push(step).drop_last() =~= plan);
    assert(plan.push(step).last() == step);
}

proof fn lemma_commands_of_reclaim()
    ensures
        commands_of(reclaim_steps()) == Seq::<Command>::empty(),
{
    let a = Seq::<Step>::empty().push(must(Operation::Close));
    let b = a.push(must(Operation::Sleep(200)));
    let c = b.push(must(Operation::OpenClaimed));
    lemma_commands_of_push(Seq::<Step>::empty(), must(Operation::Close));
    lemma_commands_of_push(a, must(Operation::Sleep(200)));
    lemma_commands_of_push(b, must(Operation::OpenClaimed));
    assert(c =~= reclaim_steps());
}

/// Whatever the configuration, the main sequence on the raw transport sends
/// configure first and edge-stream start last, with the stereo-camera
/// commands between them if they are asked for, and nothing else.
pub proof fn lemma_raw_usb_command_order(cfg: StartupConfig)
    ensures
        commands_of(raw_usb_main(cfg)) == command_order(
            configure_command(cfg.slam_mode, cfg.uvc_mode),
            cfg.enable_stereo_init,
            edge_command(cfg.slam_mode, cfg.rotation_enabled),
        ),
{
    let configure = configure_command(cfg.slam_mode, cfg.uvc_mode);
    let edge = edge_command(cfg.slam_mode, cfg.rotation_enabled);
    let none = Seq::<Step>::empty();
    let head = seq![
        must(Operation::OpenClaimed),
        must(Operation::Send(configure)),
        must(Operation::Sleep(1000)),
    ];
    let reopen = if cfg.reopen_after_config {
        reclaim_steps()
    } else {
        none
    };
    let stereo = if cfg.enable_stereo_init {
        seq![
            may(Operation::Send(Command::StereoInit)),
            must(Operation::Sleep(50)),
            may(Operation::Send(Command::StereoStart)),
            must(Operation::Sleep(300)),
        ]
    } else {
        none
    };
    let tail = seq![must(Operation::Send(edge)), must(Operation::Sleep(300))];
    let again = if cfg.reopen_after_edge_start {
        reclaim_steps()
    } else {
        none
    };
    assert(raw_usb_main(cfg) == head + reopen + stereo + tail + again);
    lemma_commands_of_concat(head + reopen + stereo + tail, again);
    lemma_commands_of_concat(head + reopen + stereo, tail);
    lemma_commands_of_concat(head + reopen, stereo);
    lemma_commands_of_concat(head, reopen);
    lemma_commands_of_reclaim();

    let h1 = none.push(must(Operation::OpenClaimed));
    let h2 = h1.push(must(Operation::Send(configure)));
    let h3 = h2.push(must(Operation::Sleep(1000)));
    lemma_commands_of_push(none, must(Operation::OpenClaimed));
    lemma_commands_of_push(h1, must(Operation::Send(configure)));
    lemma_commands_of_push(h2, must(Operation::Sleep(1000)));
    assert(h3 =~= head);
    assert(commands_of(head) =~= seq![configure]);

    let t1 = none.push(must(Operation::Send(edge)));
    let t2 = t1.push(must(Operation::Sleep(300)));
    lemma_commands_of_push(none, must(Operation::Send(edge)));
    lemma_commands_of_push(t1, must(Operation::Sleep(300)));
    assert(t2 =~= tail);
    assert(commands_of(tail) =~= seq![edge]);

    if cfg.enable_stereo_init {
        let s1 = none.push(may(Operation::Send(Command::StereoInit)));
        let s2 = s1.push(must(Operation::Sleep(50)));
        let s3 = s2.push(may(Operation::Send(Command::StereoStart)));
        let s4 = s3.push(must(Operation::Sleep(300)));
        lemma_commands_of_push(none, may(Operation::Send(Command::StereoInit)));
        lemma_commands_of_push(s1, must(Operation::Sleep(50)));
        lemma_commands_of_push(s2, may(Operation::Send(Command::StereoStart)));
        lemma_commands_of_push(s3, must(Operation::Sleep(300)));
        assert(s4 =~= stereo);
        assert(commands_of(stereo) =~= seq![Command::StereoInit, Command::StereoStart]);
    }
    assert(commands_of(raw_usb_main(cfg)) =~= command_order(
        configure,
        cfg.enable_stereo_init,
        edge,
    ));
}

/// Whatever the configuration, the feature-report sequence sends configure
/// first and edge-stream start last, with the stereo-camera commands between
/// them if they are asked for, and nothing else.
pub proof fn lemma_feature_report_command_order(cfg: StartupConfig)
    ensures
        commands_of(feature_report_plan(cfg)) == command_order(
            configure_command(cfg.slam_mode, cfg.uvc_mode),
            cfg.enable_stereo_init,
            edge_command(cfg.slam_mode, cfg.rotation_enabled),
        ),
{
    let configure = configure_command(cfg.slam_mode, cfg.uvc_mode);
    let edge = edge_command(cfg.slam_mode, cfg.rotation_enabled);
    let none = Seq::<Step>::empty();
    let head = seq![must(Operation::Send(configure)), must(Operation::Sleep(1000))];
    let reopen = if cfg.reopen_after_config {
        seq![must(Operation::Reopen)]
    } else {
        none
    };
    let stereo = if cfg.enable_stereo_init {
        stereo_steps_with_retry()
    } else {
        none
    };
    let last = Step {
        operation: Operation::Send(edge),
        on_failure: OnFailure::Retry { fatal: true },
    };
    let tail = seq![last];
    assert(feature_report_plan(cfg) == head + reopen + stereo + tail);
    lemma_commands_of_concat(head + reopen + stereo, tail);
    lemma_commands_of_concat(head + reopen, stereo);
    lemma_commands_of_concat(head, reopen);
    lemma_commands_of_one(must(Operation::Reopen));
    lemma_commands_of_one(last);

    let h1 = none.push(must(Operation::Send(configure)));
    let h2 = h1.push(must(Operation::Sleep(1000)));
    lemma_commands_of_push(none, must(Operation::Send(configure)));
    lemma_commands_of_push(h1, must(Operation::Sleep(1000)));
    assert(h2 =~= head);
    assert(commands_of(head) =~= seq![configure]);

    if cfg.enable_stereo_init {
        let init = Step {
            operation: Operation::Send(Command::StereoInit),
            on_failure: OnFailure::Retry { fatal: false },
        };
        let start = Step {
            operation: Operation::Send(Command::StereoStart),
            on_failure: OnFailure::Retry { fatal: false },
        };
        let s1 = none.push(init);
        let s2 = s1.push(must(Operation::Sleep(50)));
        let s3 = s2.push(start);
        let s4 = s3.push(must(Operation::Sleep(300)));
        lemma_commands_of_push(none, init);
        lemma_commands_of_push(s1, must(Operation::Sleep(50)));
        lemma_commands_of_push(s2, start);
        lemma_commands_of_push(s3, must(Operation::Sleep(300)));
        assert(s4 =~= stereo);
        assert(commands_of(stereo) =~= seq![Command::StereoInit, Command::StereoStart]);
    }
    assert(commands_of(feature_report_plan(cfg)) =~= command_order(
        configure,
        cfg.enable_stereo_init,
        edge,
    ));
}

fn must_step(operation: Operation) -> (s: Step)
    ensures
        s == must(operation),
{
    Step { operation, on_failure: OnFailure::Abort }
}

fn may_step(operation: Operation) -> (s: Step)
    ensures
        s == may(operation),
{
    Step { operation, on_failure: OnFailure::Ignore }
}

fn retry_step(operation: Operation, fatal: bool) -> (s: Step)
    ensures
        s == (Step { operation, on_failure: OnFailure::Retry { fatal } }),
{
    Step { operation, on_failure: OnFailure::Retry { fatal } }
}

fn configure_for(mode: SlamMode, uvc_mode: u8) -> (c: Command)
    ensures
        c == configure_command(mode, uvc_mode),
{
    match mode {
        SlamMode::Edge => Command::Configure { edge: true, uvc_mode, embedded_algo: false },
        SlamMode::Mixed => Command::Configure { edge: false, uvc_mode, embedded_algo: true },
    }
}

fn edge_for(mode: SlamMode, rotation_enabled: bool) -> (c: Command)
    ensures
        c == edge_command(mode, rotation_enabled),
{
    match mode {
        SlamMode::Edge => Command::EdgeStream { edge_mode: 1, rotation_enabled, flipped: false },
        SlamMode::Mixed => Command::EdgeStream { edge_mode: 0, rotation_enabled, flipped: false },
    }
}

fn build_standard(cfg: &StartupConfig) -> (plan: Vec<Step>)
    ensures
        plan@ == standard_plan(*cfg),
{
    let mut plan: Vec<Step> = Vec::new();
    plan.push(must_step(Operation::Send(configure_for(cfg.slam_mode, 0))));
    plan.push(must_step(Operation::Sleep(1000)));
    plan.push(
        must_step(
            Operation::Send(
                Command::EdgeStream { edge_mode: 1, rotation_enabled: true, flipped: false },
            ),
        ),
    );
    plan.push(must_step(Operation::OpenReader));
    assert(plan@ =~= standard_plan(*cfg));
    plan
}

fn build_feature_report(cfg: &StartupConfig) -> (plan: Vec<Step>)
    ensures
        plan@ == feature_report_plan(*cfg),
{
    let mut plan: Vec<Step> = Vec::new();
    plan.push(must_step(Operation::Send(configure_for(cfg.slam_mode, cfg.uvc_mode))));
    plan.push(must_step(Operation::Sleep(1000)));
    if cfg.reopen_after_config {
        plan.push(must_step(Operation::Reopen));
    }
    if cfg.enable_stereo_init {
        plan.push(retry_step(Operation::Send(Command::StereoInit), false));
        plan.push(must_step(Operation::Sleep(50)));
        plan.push(retry_step(Operation::Send(Command::StereoStart), false));
        plan.push(must_step(Operation::Sleep(300)));
    }
    plan.push(retry_step(Operation::Send(edge_for(cfg.slam_mode, cfg.rotation_enabled)), true));
    assert(plan@ =~= feature_report_plan(*cfg));
    plan
}

fn push_reclaim(plan: &mut Vec<Step>)
    ensures
        final(plan)@ == old(plan)@ + reclaim_steps(),
{
    plan.push(must_step(Operation::Close));
    plan.push(must_step(Operation::Sleep(200)));
    plan.push(must_step(Operation::OpenClaimed));
    assert(plan@ =~= old(plan)@ + reclaim_steps());
}

fn push_precondition_cycle(plan: &mut Vec<Step>, cfg: &StartupConfig)
    ensures
        final(plan)@ == old(plan)@ + precondition_cycle(*cfg),
{
    plan.push(Step { operation: Operation::OpenDetached, on_failure: OnFailure::Skip(5) });
    plan.push(may_step(Operation::Send(configure_for(cfg.slam_mode, cfg.uvc_mode))));
    plan.push(must_step(Operation::Sleep(200)));
    plan.push(may_step(Operation::Send(edge_for(cfg.slam_mode, cfg.rotation_enabled))));
    plan.push(must_step(Operation::Sleep(200)));
    plan.push(may_step(Operation::Release));
    plan.push(must_step(Operation::Sleep(300)));
    assert(plan@ =~= old(plan)@ + precondition_cycle(*cfg));
}

fn push_raw_usb_main(plan: &mut Vec<Step>, cfg: &StartupConfig)
    ensures
        final(plan)@ == old(plan)@ + raw_usb_main(*cfg),
{
    plan.push(must_step(Operation::OpenClaimed));
    plan.push(must_step(Operation::Send(configure_for(cfg.slam_mode, cfg.uvc_mode))));
    plan.push(must_step(Operation::Sleep(1000)));
    if cfg.reopen_after_config {
        push_reclaim(plan);
    }
    if cfg.enable_stereo_init {
        plan.push(may_step(Operation::Send(Command::StereoInit)));
        plan.push(must_step(Operation::Sleep(50)));
        plan.push(may_step(Operation::Send(Command::StereoStart)));
        plan.push(must_step(Operation::Sleep(300)));
    }
    plan.push(must_step(Operation::Send(edge_for(cfg.slam_mode, cfg.rotation_enabled))));
    plan.push(must_step(Operation::Sleep(300)));
    if cfg.reopen_after_edge_start {
        push_reclaim(plan);
    }
    assert(plan@ =~= old(plan)@ + raw_usb_main(*cfg));
}

fn build_raw_usb(cfg: &StartupConfig) -> (plan: Vec<Step>)
    ensures
        plan@ == raw_usb_plan(*cfg),
{
    let mut plan: Vec<Step> = Vec::new();
    let mut cycle: u8 = 0;
    assert(plan@ =~= precondition_cycles(*cfg, 0));
    while cycle < cfg.precondition_cycles
        invariant
            cycle <= cfg.precondition_cycles,
            plan@ == precondition_cycles(*cfg, cycle as nat),
        decreases cfg.precondition_cycles - cycle,
    {
        push_precondition_cycle(&mut plan, cfg);
        cycle += 1;
    }
    if cfg.precondition_cycles > 0 {
        plan.push(must_step(Operation::Sleep(1000)));
    }
    let ghost before = plan@;
    assert(before =~= precondition_cycles(*cfg, cfg.precondition_cycles as nat) + (if cfg.precondition_cycles
        > 0 {
        seq![must(Operation::Sleep(1000))]
    } else {
        Seq::<Step>::empty()
    }));
    push_raw_usb_main(&mut plan, cfg);
    plan
}

/// Lays out the start-up sequence of a strategy under a configuration.
pub fn build_plan(cfg: &StartupConfig, strategy: StartupStrategy) -> (plan: Vec<Step>)
    ensures
        plan@ == plan_of(*cfg, strategy),
{
    match strategy {
        StartupStrategy::Standard => build_standard(cfg),
        StartupStrategy::FeatureReportRetry => build_feature_report(cfg),
        StartupStrategy::RawUsb => build_raw_usb(cfg),
    }
}

/// Where the sequencer stands within a step.
#[derive(Debug, Clone, PartialEq, Eq)]
pub enum Phase {
    /// The step's own operation is due.
    Run,
    /// The operation failed because the device went away; the pause before
    /// reopening is due. The error of the failed attempt is kept.
    Backoff(XvisioError),
    /// The pause is over; reopening the transport is due.
    Reconnect(XvisioError),
}

/// The progress of a start-up sequence through its plan.
#[derive(Debug, Clone, PartialEq, Eq)]
pub struct Sequencer {
    /// Index of the current step; the length of the plan when all is done.
    pub position: usize,
    /// Number of failed attempts of the current step so far.
    pub attempt: u32,
    /// What is due within the current step.
    pub phase: Phase,
}

/// The sequencer at the start of step `position`.
pub open spec fn at_step(position: int) -> Sequencer {
    Sequencer { position: position as usize, attempt: 0, phase: Phase::Run }
}

/// Whether a step's failure for good fails the sequence.
pub open spec fn is_fatal(step: Step) -> bool {
    step.on_failure != (OnFailure::Retry { fatal: false }) && step.on_failure != OnFailure::Ignore
}

/// The smaller of `position + 1 + skip` and `len`.
pub open spec fn skip_target(position: int, skip: int, len: int) -> int {
    if position + 1 + skip < len {
        position + 1 + skip
    } else {
        len
    }
}

impl Sequencer {
    /// Holds for every sequencer that `begin` and `advance` give out: the
    /// position is within the plan and an attempt is left.
    pub open spec fn wf(self, plan: Seq<Step>) -> bool {
        self.position <= plan.len() && self.attempt < MAX_ATTEMPTS
    }

    /// Whether the whole plan has been carried out.
    pub open spec fn is_finished(self, plan: Seq<Step>) -> bool {
        self.position >= plan.len()
    }

    /// The operation that is due: the step's own, or the pause or the reopen
    /// of a retry. `None` when the plan has been carried out.
    pub open spec fn spec_due(self, plan: Seq<Step>) -> Option<Operation> {
        if self.is_finished(plan) {
            None
        } else {
            match self.phase {
                Phase::Run => Some(plan[self.position as int].operation),
                Phase::Backoff(_) => Some(Operation::Sleep(RECONNECT_DELAY_MS)),
                Phase::Reconnect(_) => Some(Operation::Reopen),
            }
        }
    }

    /// The sequencer after the due operation ended with `outcome`, or the
    /// error with which the sequence fails.
    ///
    /// A step that succeeds is followed by the next one. A step that fails is
    /// handled as its `on_failure` says. In a retry, the pause always leads
    /// to the reopen; a failed reopen fails the sequence; a reopen that
    /// succeeds leads to the next attempt, or, when none is left, to what the
    /// step says of a failure for good, with the error of the last attempt.
    pub open spec fn spec_advance(self, plan: Seq<Step>, outcome: Result<(), XvisioError>) -> Result<
        Sequencer,
        XvisioError,
    > {
        let here = self.position as int;
        if self.is_finished(plan) {
            Ok(self)
        } else {
            match self.phase {
                Phase::Run => match outcome {
                    Ok(_) => Ok(at_step(here + 1)),
                    Err(e) => match plan[here].on_failure {
                        OnFailure::Abort => Err(e),
                        OnFailure::Ignore => Ok(at_step(here + 1)),
                        OnFailure::Skip(k) => Ok(
                            at_step(skip_target(here, k as int, plan.len() as int)),
                        ),
                        OnFailure::Retry { fatal } => if says_gone(e) {
                            Ok(
                                Sequencer {
                                    position: self.position,
                                    attempt: self.attempt,
                                    phase: Phase::Backoff(e),
                                },
                            )
                        } else if fatal {
                            Err(e)
                        } else {
                            Ok(at_step(here + 1))
                        },
                    },
                },
                Phase::Backoff(e) => Ok(
                    Sequencer {
                        position: self.position,
                        attempt: self.attempt,
                        phase: Phase::Reconnect(e),
                    },
                ),
                Phase::Reconnect(e) => match outcome {
                    Err(r) => Err(r),
                    Ok(_) => if self.attempt + 1 < MAX_ATTEMPTS {
                        Ok(
                            Sequencer {
                                position: self.position,
                                attempt: (self.attempt + 1) as u32,
                                phase: Phase::Run,
                            },
                        )
                    } else if is_fatal(plan[here]) {
                        Err(e)
                    } else {
                        Ok(at_step(here + 1))
                    },
                },
            }
        }
    }

    /// An upper bound on the number of operations that are still to come.
    pub open spec fn budget(self, plan: Seq<Step>) -> int {
        let rank: int = match self.phase {
            Phase::Run => 0,
            Phase::Backoff(_) => 1,
            Phase::Reconnect(_) => 2,
        };
        (plan.len() - self.position) * (3 * MAX_ATTEMPTS) - 3 * self.attempt - rank
    }

    /// The sequencer at the start of a plan.
    pub fn begin() -> (s: Sequencer)
        ensures
            s == at_step(0),
    {
        Sequencer { position: 0, attempt: 0, phase: Phase::Run }
    }

    /// The operation to perform now, or `None` when the sequence is
    /// complete and the stream can start.
    pub fn due(&self, plan: &Vec<Step>) -> (op: Option<Operation>)
        ensures
            op == self.spec_due(plan@),
    {
        if self.position >= plan.len() {
            return None;
        }
        match &self.phase {
            Phase::Run => Some(plan[self.position].operation),
            Phase::Backoff(_) => Some(Operation::Sleep(RECONNECT_DELAY_MS)),
            Phase::Reconnect(_) => Some(Operation::Reopen),
        }
    }

    /// Takes in the outcome of the operation that was due and moves on.
    /// Returns the sequencer for what comes next, or the error with which the
    /// start-up has failed.
    pub fn advance(self, plan: &Vec<Step>, outcome: Result<(), XvisioError>) -> (r: Result<
        Sequencer,
        XvisioError,
    >)
        requires
            self.wf(plan@),
        ensures
            r == self.spec_advance(plan@, outcome),
            r matches Ok(next) ==> next.wf(plan@),
            r matches Ok(next) ==> !self.is_finished(plan@) ==> 0 <= next.budget(plan@)
                < self.budget(plan@),
    {
        let len: usize = plan.len();
        if self.position >= len {
            return Ok(self);
        }
        let here: usize = self.position;
        let step: Step = plan[here];
        assert((len - here) * (3 * MAX_ATTEMPTS) == (len - here - 1) * (3 * MAX_ATTEMPTS) + 3
            * MAX_ATTEMPTS) by (nonlinear_arith);
        assert((len - here - 1) * (3 * MAX_ATTEMPTS) >= 0) by (nonlinear_arith)
            requires
                len - here - 1 >= 0,
        ;
        match self.phase {
            Phase::Run => match outcome {
                Ok(_) => Ok(Sequencer { position: here + 1, attempt: 0, phase: Phase::Run }),
                Err(e) => match step.on_failure {
                    OnFailure::Abort => Err(e),
                    OnFailure::Ignore => Ok(
                        Sequencer { position: here + 1, attempt: 0, phase: Phase::Run },
                    ),
                    OnFailure::Skip(k) => {
                        let rest: usize = len - here - 1;
                        let target: usize = if (k as usize) < rest {
                            here + 1 + k as usize
                        } else {
                            len
                        };
                        assert((len - target) * (3 * MAX_ATTEMPTS) <= (len - here - 1) * (3
                            * MAX_ATTEMPTS)) by (nonlinear_arith)
                            requires
                                here + 1 <= target <= len,
                        ;
                        assert((len - target) * (3 * MAX_ATTEMPTS) >= 0) by (nonlinear_arith)
                            requires
                                target <= len,
                        ;
                        Ok(Sequencer { position: target, attempt: 0, phase: Phase::Run })
                    },
                    OnFailure::Retry { fatal } => {
                        if e.is_reconnect_error() {
                            Ok(
                                Sequencer {
                                    position: here,
                                    attempt: self.attempt,
                                    phase: Phase::Backoff(e),
                                },
                            )
                        } else if fatal {
                            Err(e)
                        } else {
                            Ok(Sequencer { position: here + 1, attempt: 0, phase: Phase::Run })
                        }
                    },
                },
            },
            Phase::Backoff(e) => Ok(
                Sequencer { position: here, attempt: self.attempt, phase: Phase::Reconnect(e) },
            ),
            Phase::Reconnect(e) => match outcome {
                Err(r) => Err(r),
                Ok(_) => {
                    if self.attempt + 1 < MAX_ATTEMPTS {
                        Ok(
                            Sequencer {
                                position: here,
                                attempt: self.attempt + 1,
                                phase: Phase::Run,
                            },
                        )
                    } else {
                        let for_good: bool = match step.on_failure {
                            OnFailure::Retry { fatal } => fatal,
                            OnFailure::Ignore => false,
                            _ => true,
                        };
                        if for_good {
                            Err(e)
                        } else {
                            Ok(Sequencer { position: here + 1, attempt: 0, phase: Phase::Run })
                        }
                    }
                },
            },
        }
    }
}

} // verus!
