use std::time::Duration;
use xvisio::error::XvisioError;
use xvisio::pose::RotationParseMode;
use xvisio::pose::parse_slam_packet;
use xvisio::slam::{
    delivery, dispatch_sample, normalize_frame, reader_step, received, recv, recv_error,
    recv_timeout, stream_channel, try_recv, DispatchOutcome, ReadOutcome, ReaderAction,
    ReaderState, RecvFailure, SendOutcome, CHANNEL_CAPACITY,
};

fn pose_packet(timestamp: u32) -> [u8; 63] {
    let mut data = [0u8; 63];
    data[0] = 0x01;
    data[1] = 0xA2;
    data[2] = 0x33;
    data[3..7].copy_from_slice(&timestamp.to_le_bytes());
    data[19] = 0x00;
    data[20] = 0x40;
    data
}

#[test]
fn full_channel_drops_and_never_blocks() {
    let (sender, receiver) = stream_channel();
    assert_eq!(sender.capacity(), Some(256));
    assert_eq!(CHANNEL_CAPACITY, 256);
    for i in 0..256u32 {
        assert_eq!(
            dispatch_sample(&pose_packet(i), 0, RotationParseMode::Auto, &sender),
            DispatchOutcome::Delivered
        );
    }
    for i in 256..300u32 {
        assert_eq!(
            dispatch_sample(&pose_packet(i), 0, RotationParseMode::Auto, &sender),
            DispatchOutcome::Dropped
        );
    }
    assert_eq!(receiver.len(), 256);
    let first = try_recv(&receiver).unwrap();
    assert_eq!(first.pose.timestamp_us, 0);
    assert_eq!(
        dispatch_sample(&pose_packet(1000), 0, RotationParseMode::Auto, &sender),
        DispatchOutcome::Delivered
    );
    assert_eq!(
        dispatch_sample(&pose_packet(1001), 0, RotationParseMode::Auto, &sender),
        DispatchOutcome::Dropped
    );
    let mut seen = Vec::new();
    while let Some(sample) = try_recv(&receiver) {
        seen.push(sample.pose.timestamp_us);
    }
    let mut expected: Vec<u64> = (1..256).collect();
    expected.push(1000);
    assert_eq!(seen, expected);
}

#[test]
fn dispatch_passes_over_what_is_no_pose() {
    let (sender, receiver) = stream_channel();
    let mut bad = pose_packet(1);
    bad[2] = 0x34;
    assert_eq!(
        dispatch_sample(&bad, 0, RotationParseMode::Auto, &sender),
        DispatchOutcome::NotAPose
    );
    assert_eq!(
        dispatch_sample(&pose_packet(1)[..62], 0, RotationParseMode::Auto, &sender),
        DispatchOutcome::NotAPose
    );
    assert!(receiver.is_empty());
}

#[test]
fn dispatch_reports_a_consumer_that_is_gone() {
    let (sender, receiver) = stream_channel();
    drop(receiver);
    let outcome = dispatch_sample(&pose_packet(1), 0, RotationParseMode::Auto, &sender);
    assert_eq!(outcome, DispatchOutcome::Disconnected);
    assert!(outcome.stops_reader());
    assert!(!DispatchOutcome::Dropped.stops_reader());
    assert!(!DispatchOutcome::Delivered.stops_reader());
    assert!(!DispatchOutcome::NotAPose.stops_reader());
    assert_eq!(delivery(SendOutcome::Sent), DispatchOutcome::Delivered);
    assert_eq!(delivery(SendOutcome::Full), DispatchOutcome::Dropped);
    assert_eq!(delivery(SendOutcome::Disconnected), DispatchOutcome::Disconnected);
}

#[test]
fn recv_timeout_on_idle_stream_times_out() {
    let (sender, receiver) = stream_channel();
    assert_eq!(recv_timeout(&receiver, Duration::from_millis(200)).unwrap_err(), XvisioError::Timeout);
    // The stream is still alive: a sample that comes later is received.
    dispatch_sample(&pose_packet(5), 42, RotationParseMode::Auto, &sender);
    let sample = recv_timeout(&receiver, Duration::from_millis(200)).unwrap();
    assert_eq!(sample.pose.timestamp_us, 5);
    assert_eq!(sample.pose.host_timestamp_ns, 42);
}

#[test]
fn receivers_see_the_end_of_the_stream() {
    let (sender, receiver) = stream_channel();
    dispatch_sample(&pose_packet(9), 0, RotationParseMode::Auto, &sender);
    drop(sender);
    assert_eq!(recv(&receiver).unwrap().pose.timestamp_us, 9);
    assert_eq!(recv(&receiver).unwrap_err(), XvisioError::StreamStopped);
    assert_eq!(recv_timeout(&receiver, Duration::from_millis(10)).unwrap_err(), XvisioError::StreamStopped);
    assert!(try_recv(&receiver).is_none());
    assert_eq!(recv_error(RecvFailure::Empty), XvisioError::Timeout);
    assert_eq!(recv_error(RecvFailure::Disconnected), XvisioError::StreamStopped);
}

#[test]
fn slow_consumer_sees_gaps_but_no_reordering() {
    let (sender, receiver) = stream_channel();
    let mut delivered: Vec<u64> = Vec::new();
    let mut host = 0u64;
    // The reader offers 950 packets; the consumer takes one for every ten.
    for i in 1..=950u32 {
        host += 1_052_631;
        dispatch_sample(&pose_packet(i), host, RotationParseMode::Auto, &sender);
        assert!(receiver.len() <= 256);
        if i % 10 == 0 {
            delivered.push(try_recv(&receiver).unwrap().pose.timestamp_us);
        }
    }
    while let Some(sample) = try_recv(&receiver) {
        delivered.push(sample.pose.timestamp_us);
    }
    assert!(delivered.len() >= 100);
    assert!(delivered.windows(2).all(|w| w[0] < w[1]));
}

#[test]
fn reader_counts_failures_and_gives_up() {
    let state = ReaderState::new();
    assert_eq!(state.consecutive_errors, 0);
    assert_eq!(reader_step(state, ReadOutcome::TimedOut), (state, ReaderAction::Continue));
    assert_eq!(reader_step(state, ReadOutcome::NoDevice), (state, ReaderAction::Stop));

    let mut state = state;
    let mut logged = Vec::new();
    let mut steps = 0;
    loop {
        let (next, action) = reader_step(state, ReadOutcome::Stalled);
        steps += 1;
        assert_eq!(next.consecutive_errors, steps);
        state = next;
        match action {
            ReaderAction::Recover { clear_halt, log, give_up } => {
                assert!(clear_halt);
                if log {
                    logged.push(steps);
                }
                if give_up {
                    break;
                }
            }
            other => panic!("unexpected {:?}", other),
        }
    }
    assert_eq!(steps, 1000);
    assert_eq!(&logged[..7], &[1, 2, 3, 4, 5, 50, 100]);
    assert_eq!(logged.len(), 5 + 20);

    let (next, action) = reader_step(ReaderState { consecutive_errors: 7 }, ReadOutcome::Faulted);
    assert_eq!(next.consecutive_errors, 8);
    assert_eq!(action, ReaderAction::Recover { clear_halt: false, log: false, give_up: false });

    let (next, action) = reader_step(ReaderState { consecutive_errors: 999 }, ReadOutcome::Data(64));
    assert_eq!(next.consecutive_errors, 0);
    assert_eq!(action, ReaderAction::Deliver);

    let (next, action) =
        reader_step(ReaderState { consecutive_errors: u32::MAX }, ReadOutcome::Faulted);
    assert_eq!(next.consecutive_errors, u32::MAX);
    assert_eq!(action, ReaderAction::Recover { clear_halt: false, log: false, give_up: true });
}

#[test]
fn frames_are_normalised() {
    // Raw transport: the frame starts with the opcode echo.
    let mut raw = [0u8; 64];
    raw[0] = 0xA2;
    raw[1] = 0x33;
    raw[2] = 0x11;
    raw[61] = 0x77;
    raw[62] = 0x88;
    raw[63] = 0x99;
    let packet = normalize_frame(&raw, 62).unwrap();
    assert_eq!(packet.len(), 63);
    assert_eq!(&packet[..4], &[0x01, 0xA2, 0x33, 0x11]);
    assert_eq!(packet[62], 0x77);
    let packet = normalize_frame(&raw, 64).unwrap();
    assert_eq!(packet.len(), 64);
    assert_eq!(packet[63], 0x88);
    let packet = normalize_frame(&raw, 2).unwrap();
    assert_eq!(packet, vec![0x01, 0xA2, 0x33]);
    assert!(normalize_frame(&raw, 1).is_none());
    assert!(normalize_frame(&raw, 0).is_none());

    // The report tag is already there.
    let tagged = pose_packet(3);
    assert_eq!(normalize_frame(&tagged, 63).unwrap(), tagged.to_vec());
    assert!(normalize_frame(&tagged, 62).is_none());
    let mut other = tagged;
    other[0] = 0x03;
    assert!(normalize_frame(&other, 63).is_none());
}

#[test]
fn outcome_of_a_receive_is_handed_on() {
    let sample = parse_slam_packet(&pose_packet(31), 7, RotationParseMode::Auto).unwrap();
    let handed = received(Ok(sample)).unwrap();
    assert_eq!(handed.pose.timestamp_us, 31);
    assert_eq!(handed.pose.host_timestamp_ns, 7);
    assert_eq!(received(Err(RecvFailure::Empty)).unwrap_err(), XvisioError::Timeout);
    assert_eq!(received(Err(RecvFailure::Disconnected)).unwrap_err(), XvisioError::StreamStopped);
}

#[test]
fn samples_come_out_in_the_order_they_went_in() {
    let (sender, receiver) = stream_channel();
    for i in [3u32, 1, 2] {
        dispatch_sample(&pose_packet(i), i as u64, RotationParseMode::Auto, &sender);
    }
    assert_eq!(recv(&receiver).unwrap().pose.timestamp_us, 3);
    assert_eq!(recv_timeout(&receiver, Duration::from_millis(50)).unwrap().pose.timestamp_us, 1);
    assert_eq!(try_recv(&receiver).unwrap().pose.timestamp_us, 2);
    assert!(try_recv(&receiver).is_none());
    assert_eq!(recv_timeout(&receiver, Duration::from_millis(0)).unwrap_err(), XvisioError::Timeout);
    drop(sender);
    assert!(try_recv(&receiver).is_none());
    assert_eq!(recv_timeout(&receiver, Duration::from_millis(0)).unwrap_err(), XvisioError::StreamStopped);
}

#[test]
fn reader_gives_up_on_the_thousandth_failure() {
    let (next, action) =
        reader_step(ReaderState { consecutive_errors: 998 }, ReadOutcome::Stalled);
    assert_eq!(next.consecutive_errors, 999);
    assert_eq!(action, ReaderAction::Recover { clear_halt: true, log: false, give_up: false });
    let (next, action) = reader_step(next, ReadOutcome::Faulted);
    assert_eq!(next.consecutive_errors, 1000);
    assert_eq!(action, ReaderAction::Recover { clear_halt: false, log: true, give_up: true });
    // A read that brings data in between starts the count anew.
    let (next, _) = reader_step(ReaderState { consecutive_errors: 999 }, ReadOutcome::Data(63));
    let (next, action) = reader_step(next, ReadOutcome::Stalled);
    assert_eq!(next.consecutive_errors, 1);
    assert_eq!(action, ReaderAction::Recover { clear_halt: true, log: true, give_up: false });
    // Timeouts never count.
    let mut state = ReaderState { consecutive_errors: 999 };
    for _ in 0..5 {
        let (next, action) = reader_step(state, ReadOutcome::TimedOut);
        assert_eq!(action, ReaderAction::Continue);
        state = next;
    }
    assert_eq!(state.consecutive_errors, 999);
}

#[test]
fn short_timeouts_are_kept() {
    let (sender, receiver) = stream_channel();
    assert_eq!(recv_timeout(&receiver, Duration::from_micros(300)).unwrap_err(), XvisioError::Timeout);
    assert_eq!(recv_timeout(&receiver, Duration::ZERO).unwrap_err(), XvisioError::Timeout);
    dispatch_sample(&pose_packet(4), 0, RotationParseMode::Auto, &sender);
    assert_eq!(
        recv_timeout(&receiver, Duration::from_nanos(1)).unwrap().pose.timestamp_us,
        4
    );
}
