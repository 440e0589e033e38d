//! The streaming engine: what the reader does with each read, and how samples
//! travel to the consumer.
//!
//! The reader reads one frame at a time from the interrupt endpoint. After
//! each read it asks `reader_step` what to do; a frame that came in is
//! normalised, decoded and offered to a bounded channel without ever waiting
//! for room in it.

use crate::error::XvisioError;
use crate::pose::{has_pose_header, parse_slam_packet, RotationParseMode};
use crate::types::SlamSample;
use crossbeam_channel::{Receiver, Sender};
use std::time::Duration;
use vstd::prelude::*;

verus! {

/// Number of samples that the channel between reader and consumer holds.
pub const CHANNEL_CAPACITY: usize = 256;

/// Number of failed reads in a row after which the reader gives up.
pub const MAX_CONSECUTIVE_ERRORS: u32 = 1000;

/// Milliseconds that the reader waits after a failed read.
pub const RECOVERY_PAUSE_MS: u32 = 10;

/// How a read from the interrupt endpoint ended.
#[derive(Debug, Clone, Copy, PartialEq, Eq, Structural)]
pub enum ReadOutcome {
    /// This many bytes came in.
    Data(usize),
    /// Nothing came within the timeout.
    TimedOut,
    /// The device is gone.
    NoDevice,
    /// The endpoint stalled or the transfer failed; clearing the halt may
    /// help.
    Stalled,
    /// The read failed in another way.
    Faulted,
}

/// What the reader does after a read.
#[derive(Debug, Clone, Copy, PartialEq, Eq, Structural)]
pub enum ReaderAction {
    /// Read again.
    Continue,
    /// Normalise the frame, decode it and offer the sample to the channel.
    Deliver,
    /// Clear the halt of the endpoint if `clear_halt`, wait
    /// `RECOVERY_PAUSE_MS`, and then stop if `give_up`, else read again.
    /// `log` says whether the failure is worth a log line.
    Recover { clear_halt: bool, log: bool, give_up: bool },
    /// Raise the stop flag and exit: the device is gone.
    Stop,
}

/// What the reader keeps between reads.
#[derive(Debug, Clone, Copy, PartialEq, Eq, Structural)]
pub struct ReaderState {
    /// Number of failed reads since the last read that brought data.
    pub consecutive_errors: u32,
}

/// The state and the action after a read.
///
/// Data resets the error count and is delivered. A timeout changes nothing.
/// A device that is gone stops the reader. Any other failure counts; the
/// reader recovers from it and gives up as soon as
/// `MAX_CONSECUTIVE_ERRORS` have come in a row. Of the failures the first
/// five and then every fiftieth are logged.
pub open spec fn spec_reader_step(state: ReaderState, outcome: ReadOutcome) -> (ReaderState, ReaderAction) {
    match outcome {
        ReadOutcome::Data(_) => (ReaderState { consecutive_errors: 0 }, ReaderAction::Deliver),
        ReadOutcome::TimedOut => (state, ReaderAction::Continue),
        ReadOutcome::NoDevice => (state, ReaderAction::Stop),
        _ => {
            let count = if state.consecutive_errors < u32::MAX {
                (state.consecutive_errors + 1) as u32
            } else {
                state.consecutive_errors
            };
            (
                ReaderState { consecutive_errors: count },
                ReaderAction::Recover {
                    clear_halt: outcome == ReadOutcome::Stalled,
                    log: crate::device::spec_should_log(count, 50),
                    give_up: count >= MAX_CONSECUTIVE_ERRORS,
                },
            )
        },
    }
}

impl ReaderState {
    /// The state of a reader that has not read yet.
    pub fn new() -> (s: ReaderState)
        ensures
            s.consecutive_errors == 0,
    {
        ReaderState { consecutive_errors: 0 }
    }
}

/// Decides what the reader does after a read.
pub fn reader_step(state: ReaderState, outcome: ReadOutcome) -> (r: (ReaderState, ReaderAction))
    ensures
        r == spec_reader_step(state, outcome),
{
    match outcome {
        ReadOutcome::Data(_) => (ReaderState { consecutive_errors: 0 }, ReaderAction::Deliver),
        ReadOutcome::TimedOut => (state, ReaderAction::Continue),
        ReadOutcome::NoDevice => (state, ReaderAction::Stop),
        _ => {
            let count: u32 = state.consecutive_errors.saturating_add(1);
            let clear_halt: bool = match outcome {
                ReadOutcome::Stalled => true,
                _ => false,
            };
            (
                ReaderState { consecutive_errors: count },
                ReaderAction::Recover {
                    clear_halt,
                    log: crate::device::should_log(count, 50),
                    give_up: count >= MAX_CONSECUTIVE_ERRORS,
                },
            )
        },
    }
}

/// The pose packet in a frame of `len` bytes that a read left in `buffer`.
///
/// A frame that begins with the opcode echo 0xA2 0x33 lacks the report tag:
/// the packet is 0x01 followed by the frame, cut to 64 bytes. A frame of at
/// least 63 bytes that begins with 0x01 is the packet as it is. Anything else
/// holds no packet.
pub open spec fn normalized(buffer: Seq<u8>, len: int) -> Option<Seq<u8>> {
    if len >= 2 && buffer[0] == 0xA2 && buffer[1] == 0x33 {
        Some(
            seq![0x01u8] + buffer.subrange(
                0,
                if len < 63 {
                    len
                } else {
                    63
                },
            ),
        )
    } else if len >= 63 && buffer[0] == 0x01 {
        Some(buffer.subrange(0, len))
    } else {
        None
    }
}

/// Brings a frame into the form of a pose packet, which starts with the
/// report tag 0x01, or tells that the frame holds none.
pub fn normalize_frame(buffer: &[u8], len: usize) -> (r: Option<Vec<u8>>)
    requires
        len <= buffer@.len(),
    ensures
        match (r, normalized(buffer@, len as int)) {
            (Some(packet), Some(expected)) => packet@ == expected,
            (None, None) => true,
            _ => false,
        },
{
    if len >= 2 && buffer[0] == 0xA2 && buffer[1] == 0x33 {
        let take: usize = if len < 63 {
            len
        } else {
            63
        };
        let mut packet: Vec<u8> = Vec::new();
        packet.push(0x01);
        let mut i: usize = 0;
        while i < take
            invariant
                i <= take <= len <= buffer@.len(),
                packet@ == seq![0x01u8] + buffer@.subrange(0, i as int),
            decreases take - i,
        {
            packet.push(buffer[i]);
            assert(packet@ =~= seq![0x01u8] + buffer@.subrange(0, i + 1));
            i += 1;
        }
        Some(packet)
    } else if len >= 63 && buffer[0] == 0x01 {
        Some(vstd::slice::slice_to_vec(vstd::slice::slice_subrange(buffer, 0, len)))
    } else {
        None
    }
}

/// The sending half of a crossbeam channel, carried through as it is.
#[verifier::external_type_specification]
#[verifier::external_body]
#[verifier::reject_recursive_types(T)]
pub struct ExSender<T>(Sender<T>);

/// The receiving half of a crossbeam channel, carried through as it is.
#[verifier::external_type_specification]
#[verifier::external_body]
#[verifier::reject_recursive_types(T)]
pub struct ExReceiver<T>(Receiver<T>);

/// The number of messages that the channel behind a sender was made for.
pub uninterp spec fn sender_capacity(sender: Sender<SlamSample>) -> nat;

/// How an offer to the channel ended.
#[derive(Debug, Clone, Copy, PartialEq, Eq, Structural)]
pub enum SendOutcome {
    /// The sample is in the channel.
    Sent,
    /// The channel was full; the sample is dropped.
    Full,
    /// Every receiver is gone; the sample is dropped.
    Disconnected,
}

/// Why no sample was received.
#[derive(Debug, Clone, Copy, PartialEq, Eq, Structural)]
pub enum RecvFailure {
    /// The channel was empty, and stayed so until the time was up where a
    /// time was given.
    Empty,
    /// The channel is empty and every sender is gone.
    Disconnected,
}

/// Makes a channel by `crossbeam_channel::bounded`. The contract says that
/// the sender's channel was made for `capacity` messages; capacities for
/// which `bounded` could fail to set up its buffer are left out.
#[verifier::external_body]
fn bounded_channel(capacity: usize) -> (ends: (Sender<SlamSample>, Receiver<SlamSample>))
    requires
        capacity <= 0x1_0000,
    ensures
        sender_capacity(ends.0) == capacity,
{
    crossbeam_channel::bounded(capacity)
}

/// Offers a sample by `Sender::try_send`, which never waits. Nothing is
/// promised of the outcome: it depends on what the other threads have done.
#[verifier::external_body]
fn offer(sender: &Sender<SlamSample>, sample: SlamSample) -> (outcome: SendOutcome) {
    match sender.try_send(sample) {
        Ok(()) => SendOutcome::Sent,
        Err(crossbeam_channel::TrySendError::Full(_)) => SendOutcome::Full,
        Err(crossbeam_channel::TrySendError::Disconnected(_)) => SendOutcome::Disconnected,
    }
}

/// Takes a sample by `Receiver::recv`, which waits until one is there or
/// every sender is gone: the one failure it knows says that they are gone.
#[verifier::external_body]
fn take_blocking(receiver: &Receiver<SlamSample>) -> (r: Result<SlamSample, RecvFailure>)
    ensures
        r matches Err(failure) ==> failure == RecvFailure::Disconnected,
{
    match receiver.recv() {
        Ok(sample) => Ok(sample),
        Err(crossbeam_channel::RecvError) => Err(RecvFailure::Disconnected),
    }
}

/// Takes a sample by `Receiver::try_recv`, which never waits. Nothing is
/// promised of the outcome.
#[verifier::external_body]
fn take_now(receiver: &Receiver<SlamSample>) -> (r: Result<SlamSample, RecvFailure>) {
    match receiver.try_recv() {
        Ok(sample) => Ok(sample),
        Err(crossbeam_channel::TryRecvError::Empty) => Err(RecvFailure::Empty),
        Err(crossbeam_channel::TryRecvError::Disconnected) => Err(RecvFailure::Disconnected),
    }
}

/// Takes a sample by `Receiver::recv_timeout`, which waits for at most the
/// given time. Nothing is promised of the outcome.
#[verifier::external_body]
fn take_within(receiver: &Receiver<SlamSample>, timeout: Duration) -> (r: Result<
    SlamSample,
    RecvFailure,
>) {
    match receiver.recv_timeout(timeout) {
        Ok(sample) => Ok(sample),
        Err(crossbeam_channel::RecvTimeoutError::Timeout) => Err(RecvFailure::Empty),
        Err(crossbeam_channel::RecvTimeoutError::Disconnected) => Err(RecvFailure::Disconnected),
    }
}

/// Makes the channel of a stream, which holds `CHANNEL_CAPACITY` samples.
pub fn stream_channel() -> (ends: (Sender<SlamSample>, Receiver<SlamSample>))
    ensures
        sender_capacity(ends.0) == CHANNEL_CAPACITY,
{
    bounded_channel(CHANNEL_CAPACITY)
}

/// What became of a frame that was handed to `dispatch_sample`.
#[derive(Debug, Clone, Copy, PartialEq, Eq, Structural)]
pub enum DispatchOutcome {
    /// The frame is no pose packet; nothing was sent.
    NotAPose,
    /// The sample is in the channel.
    Delivered,
    /// The channel was full and the sample is dropped; the reader goes on.
    Dropped,
    /// The consumer is gone; the reader raises the stop flag and exits.
    Disconnected,
}

/// What a decoded sample's offer to the channel means for the reader.
pub open spec fn spec_delivery(outcome: SendOutcome) -> DispatchOutcome {
    match outcome {
        SendOutcome::Sent => DispatchOutcome::Delivered,
        SendOutcome::Full => DispatchOutcome::Dropped,
        SendOutcome::Disconnected => DispatchOutcome::Disconnected,
    }
}

/// Tells what the offer of a decoded sample to the channel means for the
/// reader: a full channel costs the sample and nothing else, a channel
/// without receivers ends the stream.
pub fn delivery(outcome: SendOutcome) -> (r: DispatchOutcome)
    ensures
        r == spec_delivery(outcome),
{
    match outcome {
        SendOutcome::Sent => DispatchOutcome::Delivered,
        SendOutcome::Full => DispatchOutcome::Dropped,
        SendOutcome::Disconnected => DispatchOutcome::Disconnected,
    }
}

impl DispatchOutcome {
    /// Whether the reader raises the stop flag and exits.
    pub fn stops_reader(&self) -> (r: bool)
        ensures
            r == (*self == DispatchOutcome::Disconnected),
    {
        match self {
            DispatchOutcome::Disconnected => true,
            _ => false,
        }
    }
}

/// Decodes a pose packet and offers the sample to the channel without
/// waiting. A frame that is no pose packet is passed over; whether a sample
/// gets into the channel is up to the room in it and to the consumer.
pub fn dispatch_sample(
    data: &[u8],
    host_ns: u64,
    mode: RotationParseMode,
    sender: &Sender<SlamSample>,
) -> (r: DispatchOutcome)
    ensures
        r == DispatchOutcome::NotAPose <==> !has_pose_header(data@),
{
    match parse_slam_packet(data, host_ns, mode) {
        Some(sample) => delivery(offer(sender, sample)),
        None => DispatchOutcome::NotAPose,
    }
}

/// The error that a consumer sees when no sample was received: `Timeout`
/// while the stream is alive, `StreamStopped` once the reader has exited.
pub open spec fn spec_recv_error(failure: RecvFailure) -> XvisioError {
    match failure {
        RecvFailure::Empty => XvisioError::Timeout,
        RecvFailure::Disconnected => XvisioError::StreamStopped,
    }
}

/// Names the error for a failed receive.
pub fn recv_error(failure: RecvFailure) -> (e: XvisioError)
    ensures
        e == spec_recv_error(failure),
{
    match failure {
        RecvFailure::Empty => XvisioError::Timeout,
        RecvFailure::Disconnected => XvisioError::StreamStopped,
    }
}

/// Receives the next sample, waiting until one is there. Fails with
/// `StreamStopped` once the reader has exited and the channel is empty.
pub fn recv(receiver: &Receiver<SlamSample>) -> (r: Result<SlamSample, XvisioError>)
    ensures
        r matches Err(e) ==> e == XvisioError::StreamStopped,
{
    // The wait has no time limit, so the one failure there is says that the
    // senders are gone.
    let outcome: Result<SlamSample, RecvFailure> = take_blocking(receiver);
    received(outcome)
}

/// Receives a sample if one is there, without waiting.
pub fn try_recv(receiver: &Receiver<SlamSample>) -> (r: Option<SlamSample>) {
    // Why nothing came matters to no one here: an empty channel and one
    // without senders both give `None`.
    let outcome: Result<SlamSample, RecvFailure> = take_now(receiver);
    outcome.ok()
}

/// Receives the next sample, waiting for at most `timeout`. Fails with
/// `Timeout` if none came in time and with `StreamStopped` once the reader
/// has exited and the channel is empty.
pub fn recv_timeout(receiver: &Receiver<SlamSample>, timeout: Duration) -> (r: Result<
    SlamSample,
    XvisioError,
>)
    ensures
        r matches Err(e) ==> e == XvisioError::Timeout || e == XvisioError::StreamStopped,
{
    // A channel that stayed empty is a timeout; one without senders is the
    // end of the stream.
    let outcome: Result<SlamSample, RecvFailure> = take_within(receiver, timeout);
    received(outcome)
}

/// What a consumer is handed for the outcome of a receive: the sample that
/// came, or the error that `spec_recv_error` names for the failure.
pub open spec fn spec_received(outcome: Result<SlamSample, RecvFailure>) -> Result<
    SlamSample,
    XvisioError,
> {
    match outcome {
        Ok(sample) => Ok(sample),
        Err(failure) => Err(spec_recv_error(failure)),
    }
}

/// Turns the outcome of a receive into what the consumer is handed: a sample
/// is passed on as it came, a failure becomes `Timeout` or `StreamStopped`.
pub fn received(outcome: Result<SlamSample, RecvFailure>) -> (r: Result<SlamSample, XvisioError>)
    ensures
        r == spec_received(outcome),
{
    match outcome {
        Ok(sample) => Ok(sample),
        Err(failure) => Err(recv_error(failure)),
    }
}

} // verus!
