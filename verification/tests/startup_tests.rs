use xvisio::config::{MacBackend, StartupConfig, StartupStrategy};
use xvisio::error::XvisioError;
use xvisio::startup::{
    build_plan, check_ack, command_result, AckStatus, Command, OnFailure, Operation, Phase, Sequencer, Step,
    MAX_ATTEMPTS,
};
use xvisio::types::SlamMode;

fn run_all_ok(plan: &Vec<Step>) -> Vec<Operation> {
    let mut seq = Sequencer::begin();
    let mut done = Vec::new();
    while let Some(op) = seq.due(plan) {
        done.push(op);
        seq = seq.advance(plan, Ok(())).unwrap();
    }
    done
}

fn gone() -> XvisioError {
    XvisioError::HidCommand("write failed: Device Disconnected".to_string())
}

fn broken() -> XvisioError {
    XvisioError::HidCommand("write failed: permission denied".to_string())
}

#[test]
fn standard_plan_is_configure_wait_edge_reader() {
    let cfg = StartupConfig::new();
    let plan = build_plan(&cfg, StartupStrategy::Standard);
    assert_eq!(
        run_all_ok(&plan),
        vec![
            Operation::Send(Command::Configure { edge: true, uvc_mode: 0, embedded_algo: false }),
            Operation::Sleep(1000),
            Operation::Send(Command::EdgeStream {
                edge_mode: 1,
                rotation_enabled: true,
                flipped: false
            }),
            Operation::OpenReader,
        ]
    );
    assert!(plan.iter().all(|s| s.on_failure == OnFailure::Abort));
}

#[test]
fn mixed_mode_sets_embedded_algorithm() {
    let mut cfg = StartupConfig::new();
    cfg.slam_mode = SlamMode::Mixed;
    let plan = build_plan(&cfg, StartupStrategy::Standard);
    assert_eq!(
        plan[0].operation,
        Operation::Send(Command::Configure { edge: false, uvc_mode: 0, embedded_algo: true })
    );
    assert_eq!(
        &Command::Configure { edge: false, uvc_mode: 0, embedded_algo: true }.frame()[..6],
        &[0x02, 0x19, 0x95, 0, 0, 1]
    );
}

#[test]
fn raw_usb_sequence_with_warm_up_and_stereo() {
    let mut cfg = StartupConfig::new();
    cfg.precondition_cycles = 2;
    cfg.enable_stereo_init = true;
    cfg.reopen_after_config = true;
    let plan = build_plan(&cfg, StartupStrategy::RawUsb);
    let ops = run_all_ok(&plan);

    // Two warm-up cycles of seven operations, then a second to settle.
    assert_eq!(ops.len(), 2 * 7 + 1 + 12);
    for cycle in 0..2 {
        let c = &ops[cycle * 7..cycle * 7 + 7];
        assert_eq!(c[0], Operation::OpenDetached);
        assert!(matches!(c[1], Operation::Send(Command::Configure { .. })));
        assert_eq!(c[2], Operation::Sleep(200));
        assert!(matches!(c[3], Operation::Send(Command::EdgeStream { .. })));
        assert_eq!(c[4], Operation::Sleep(200));
        assert_eq!(c[5], Operation::Release);
        assert_eq!(c[6], Operation::Sleep(300));
    }
    assert_eq!(ops[14], Operation::Sleep(1000));

    let main = &ops[15..];
    let sends: Vec<Command> = main
        .iter()
        .filter_map(|op| match op {
            Operation::Send(c) => Some(*c),
            _ => None,
        })
        .collect();
    assert_eq!(
        sends,
        vec![
            Command::Configure { edge: true, uvc_mode: 0, embedded_algo: false },
            Command::StereoInit,
            Command::StereoStart,
            Command::EdgeStream { edge_mode: 1, rotation_enabled: true, flipped: false },
        ]
    );

    // Pauses between the commands on the wire.
    let mut gaps: Vec<u32> = Vec::new();
    let mut pause = 0u32;
    let mut seen_send = false;
    for op in main {
        match op {
            Operation::Send(_) => {
                if seen_send {
                    gaps.push(pause);
                }
                seen_send = true;
                pause = 0;
            }
            Operation::Sleep(ms) => pause += ms,
            _ => {}
        }
    }
    assert_eq!(gaps, vec![1200, 50, 300]);
    assert!(gaps[0] >= 500);
    assert!(gaps[2] >= 300);
    assert_eq!(
        main,
        &[
            Operation::OpenClaimed,
            Operation::Send(Command::Configure { edge: true, uvc_mode: 0, embedded_algo: false }),
            Operation::Sleep(1000),
            Operation::Close,
            Operation::Sleep(200),
            Operation::OpenClaimed,
            Operation::Send(Command::StereoInit),
            Operation::Sleep(50),
            Operation::Send(Command::StereoStart),
            Operation::Sleep(300),
            Operation::Send(Command::EdgeStream {
                edge_mode: 1,
                rotation_enabled: true,
                flipped: false
            }),
            Operation::Sleep(300),
        ][..]
    );
}

#[test]
fn raw_usb_defaults_and_reopen_after_edge() {
    let cfg = StartupConfig::new();
    let plan = build_plan(&cfg, StartupStrategy::RawUsb);
    assert_eq!(
        run_all_ok(&plan),
        vec![
            Operation::OpenClaimed,
            Operation::Send(Command::Configure { edge: true, uvc_mode: 0, embedded_algo: false }),
            Operation::Sleep(1000),
            Operation::Close,
            Operation::Sleep(200),
            Operation::OpenClaimed,
            Operation::Send(Command::EdgeStream {
                edge_mode: 1,
                rotation_enabled: true,
                flipped: false
            }),
            Operation::Sleep(300),
        ]
    );
    let mut cfg = StartupConfig::new();
    cfg.reopen_after_config = false;
    cfg.reopen_after_edge_start = true;
    cfg.rotation_enabled = false;
    cfg.uvc_mode = 1;
    let plan = build_plan(&cfg, StartupStrategy::RawUsb);
    assert_eq!(
        run_all_ok(&plan),
        vec![
            Operation::OpenClaimed,
            Operation::Send(Command::Configure { edge: true, uvc_mode: 1, embedded_algo: false }),
            Operation::Sleep(1000),
            Operation::Send(Command::EdgeStream {
                edge_mode: 1,
                rotation_enabled: false,
                flipped: false
            }),
            Operation::Sleep(300),
            Operation::Close,
            Operation::Sleep(200),
            Operation::OpenClaimed,
        ]
    );
}

#[test]
fn raw_usb_failures_fatal_and_advisory() {
    let mut cfg = StartupConfig::new();
    cfg.precondition_cycles = 1;
    cfg.enable_stereo_init = true;
    let plan = build_plan(&cfg, StartupStrategy::RawUsb);

    // A warm-up cycle whose open fails is only its final pause.
    let seq = Sequencer::begin();
    assert_eq!(seq.due(&plan), Some(Operation::OpenDetached));
    let seq = seq.advance(&plan, Err(broken())).unwrap();
    assert_eq!(seq.position, 6);
    assert_eq!(seq.due(&plan), Some(Operation::Sleep(300)));

    // Failures inside a warm-up cycle are passed over.
    let seq = Sequencer { position: 1, attempt: 0, phase: Phase::Run };
    let seq = seq.advance(&plan, Err(broken())).unwrap();
    assert_eq!(seq.position, 2);

    // Main sequence: claim and configure are fatal, stereo is not, edge is.
    let main = 8;
    assert_eq!(plan[main].operation, Operation::OpenClaimed);
    let at = |p: usize| Sequencer { position: p, attempt: 0, phase: Phase::Run };
    assert_eq!(at(main).advance(&plan, Err(broken())), Err(broken()));
    assert_eq!(at(main + 1).advance(&plan, Err(gone())), Err(gone()));
    assert_eq!(plan[main + 6].operation, Operation::Send(Command::StereoInit));
    assert_eq!(at(main + 6).advance(&plan, Err(broken())), Ok(at(main + 7)));
    assert_eq!(plan[main + 8].operation, Operation::Send(Command::StereoStart));
    assert_eq!(at(main + 8).advance(&plan, Err(gone())), Ok(at(main + 9)));
    assert!(matches!(plan[main + 10].operation, Operation::Send(Command::EdgeStream { .. })));
    assert_eq!(at(main + 10).advance(&plan, Err(broken())), Err(broken()));
}

#[test]
fn feature_report_plan_and_retry() {
    let mut cfg = StartupConfig::new();
    cfg.mac_backend = MacBackend::FeatureReport;
    cfg.uvc_mode = 1;
    cfg.enable_stereo_init = true;
    assert_eq!(cfg.strategy(true), StartupStrategy::FeatureReportRetry);
    assert_eq!(cfg.strategy(false), StartupStrategy::Standard);
    let plan = build_plan(&cfg, StartupStrategy::FeatureReportRetry);
    assert_eq!(
        run_all_ok(&plan),
        vec![
            Operation::Send(Command::Configure { edge: true, uvc_mode: 1, embedded_algo: false }),
            Operation::Sleep(1000),
            Operation::Reopen,
            Operation::Send(Command::StereoInit),
            Operation::Sleep(50),
            Operation::Send(Command::StereoStart),
            Operation::Sleep(300),
            Operation::Send(Command::EdgeStream {
                edge_mode: 1,
                rotation_enabled: true,
                flipped: false
            }),
        ]
    );

    // The edge-stream command: a device that went away is waited for.
    let edge = 7;
    let seq = Sequencer { position: edge, attempt: 0, phase: Phase::Run };
    let seq = seq.advance(&plan, Err(gone())).unwrap();
    assert_eq!(seq.due(&plan), Some(Operation::Sleep(100)));
    let seq = seq.advance(&plan, Ok(())).unwrap();
    assert_eq!(seq.due(&plan), Some(Operation::Reopen));
    let seq = seq.advance(&plan, Ok(())).unwrap();
    assert_eq!(seq, Sequencer { position: edge, attempt: 1, phase: Phase::Run });
    assert!(matches!(seq.due(&plan), Some(Operation::Send(Command::EdgeStream { .. }))));
    let seq = seq.advance(&plan, Ok(())).unwrap();
    assert_eq!(seq.due(&plan), None);
    assert_eq!(seq.position, plan.len());

    // Another error fails at once; a failed reopen fails too.
    let seq = Sequencer { position: edge, attempt: 0, phase: Phase::Run };
    assert_eq!(seq.advance(&plan, Err(broken())), Err(broken()));
    let seq = Sequencer { position: edge, attempt: 3, phase: Phase::Reconnect(gone()) };
    assert_eq!(seq.advance(&plan, Err(broken())), Err(broken()));
    // Configure is not retried.
    let seq = Sequencer { position: 0, attempt: 0, phase: Phase::Run };
    assert_eq!(seq.advance(&plan, Err(gone())), Err(gone()));
}

#[test]
fn retries_are_bounded() {
    let mut cfg = StartupConfig::new();
    cfg.enable_stereo_init = true;
    cfg.reopen_after_config = false;
    let plan = build_plan(&cfg, StartupStrategy::FeatureReportRetry);

    // Edge stream fails forty times: fatal, with the last error.
    let mut seq = Sequencer { position: 6, attempt: 0, phase: Phase::Run };
    let mut sends = 0;
    let result = loop {
        let op = seq.due(&plan).unwrap();
        let outcome = match op {
            Operation::Send(_) => {
                sends += 1;
                Err(XvisioError::HidCommand(format!("not found ({})", sends)))
            }
            _ => Ok(()),
        };
        match seq.advance(&plan, outcome) {
            Ok(next) => seq = next,
            Err(e) => break e,
        }
    };
    assert_eq!(sends, MAX_ATTEMPTS);
    assert_eq!(result, XvisioError::HidCommand("not found (40)".to_string()));

    // Stereo init fails forty times: the sequence goes on.
    let mut seq = Sequencer { position: 2, attempt: 0, phase: Phase::Run };
    let mut operations = 0;
    while seq.position == 2 {
        let op = seq.due(&plan).unwrap();
        operations += 1;
        let outcome = match op {
            Operation::Send(_) => Err(gone()),
            _ => Ok(()),
        };
        seq = seq.advance(&plan, outcome).unwrap();
    }
    assert_eq!(operations, 3 * 40);
    assert_eq!(seq, Sequencer { position: 3, attempt: 0, phase: Phase::Run });
}

#[test]
fn advance_on_finished_plan_changes_nothing() {
    let plan = build_plan(&StartupConfig::new(), StartupStrategy::Standard);
    let seq = Sequencer { position: plan.len(), attempt: 0, phase: Phase::Run };
    assert_eq!(seq.due(&plan), None);
    assert_eq!(seq.clone().advance(&plan, Err(gone())), Ok(seq));
}

#[test]
fn acknowledgments_are_classified() {
    let mut frame = Command::StereoInit.frame();
    frame[0] = 0x01;
    let echo = Command::StereoInit.echo();
    assert_eq!(echo, vec![0xFE, 0x20, 0x21]);
    assert_eq!(check_ack(&frame, 63, &echo), AckStatus::Accepted);
    assert_eq!(check_ack(&frame, 4, &echo), AckStatus::Accepted);
    assert_eq!(check_ack(&frame, 3, &echo), AckStatus::TooShort);
    assert_eq!(check_ack(&frame, 0, &echo), AckStatus::TooShort);
    assert_eq!(check_ack(&frame, 63, &Command::StereoStart.echo()), AckStatus::Mismatch);
    frame[0] = 0x02;
    assert_eq!(check_ack(&frame, 63, &echo), AckStatus::Mismatch);
    assert_eq!(check_ack(&[0u8; 63], 63, &[0x19, 0x95]), AckStatus::Mismatch);
    assert_eq!(
        Command::EdgeStream { edge_mode: 1, rotation_enabled: true, flipped: false }.echo(),
        vec![0xA2, 0x33]
    );
    assert_eq!(
        Command::Configure { edge: true, uvc_mode: 0, embedded_algo: false }.echo(),
        vec![0x19, 0x95]
    );
}

#[test]
fn reconnect_errors_are_recognised() {
    assert!(gone().is_reconnect_error());
    assert!(XvisioError::Hid("hid_error: No Such Device".to_string()).is_reconnect_error());
    assert!(XvisioError::HidCommand("IOHIDDevice NOT FOUND".to_string()).is_reconnect_error());
    assert!(XvisioError::DeviceNotFound.is_reconnect_error());
    assert!(XvisioError::ChannelDisconnected.is_reconnect_error());
    assert!(!broken().is_reconnect_error());
    assert!(!XvisioError::HidCommand("disconnecte".to_string()).is_reconnect_error());
    assert!(!XvisioError::HidCommand(String::new()).is_reconnect_error());
    assert!(!XvisioError::InvalidResponse(0).is_reconnect_error());
    assert!(!XvisioError::CommandMismatch.is_reconnect_error());
    assert!(!XvisioError::Timeout.is_reconnect_error());
    assert!(!XvisioError::StreamStopped.is_reconnect_error());
}

#[test]
fn acknowledgments_are_advisory() {
    for ack in [
        Some(AckStatus::Accepted),
        Some(AckStatus::TooShort),
        Some(AckStatus::Mismatch),
        None,
    ] {
        let (result, warn) = command_result(Ok(()), ack);
        assert_eq!(result, Ok(()));
        assert_eq!(warn, ack != Some(AckStatus::Accepted));
        let (result, warn) = command_result(Err(broken()), ack);
        assert_eq!(result, Err(broken()));
        assert!(!warn);
    }
}
