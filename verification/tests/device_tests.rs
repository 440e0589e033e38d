use xvisio::config::{ConfigOption, MacBackend, StartupConfig, StartupStrategy};
use xvisio::config::{normalize_value, parse_backend, parse_byte, parse_flag, parse_rotation_mode};
use xvisio::device::{
    decode_features, decode_uuid, decode_version, find_device, finish_transaction, is_xr50_hid,
    list_devices, reopen_step, should_log, HidEntry, ProbeOutcome, ReopenVerdict,
};
use xvisio::error::XvisioError;
use xvisio::pose::RotationParseMode;
use xvisio::types::{DeviceInfo, Features, SlamMode};

fn entry(vendor_id: u16, product_id: u16, interface_number: i32, path: &str) -> HidEntry {
    HidEntry { vendor_id, product_id, interface_number, path: path.to_string() }
}

fn info(uuid: &str) -> DeviceInfo {
    DeviceInfo {
        uuid: uuid.to_string(),
        version: "1.0".to_string(),
        features: Features::from_bits_truncate(1),
        bus_id: "bus".to_string(),
        device_address: 0,
    }
}

#[test]
fn sensor_is_recognised_by_ids_and_interface() {
    assert!(is_xr50_hid(0x040E, 0xF408, 3));
    assert!(is_xr50_hid(0x040E, 0xF408, -1));
    assert!(!is_xr50_hid(0x040E, 0xF408, 0));
    assert!(!is_xr50_hid(0x040E, 0xF409, 3));
    assert!(!is_xr50_hid(0x040F, 0xF408, 3));
}

#[test]
fn find_device_picks_first_match() {
    let entries = vec![
        entry(0x1234, 0x5678, 3, "a"),
        entry(0x040E, 0xF408, 1, "b"),
        entry(0x040E, 0xF408, 3, "c"),
        entry(0x040E, 0xF408, -1, "d"),
    ];
    assert_eq!(find_device(&entries, &None), Ok(2));
    assert_eq!(find_device(&entries, &Some("d".to_string())), Ok(3));
    assert_eq!(find_device(&entries, &Some("b".to_string())), Err(XvisioError::DeviceNotFound));
    assert_eq!(find_device(&entries[..2].to_vec(), &None), Err(XvisioError::DeviceNotFound));
    assert_eq!(find_device(&Vec::new(), &None), Err(XvisioError::DeviceNotFound));
}

#[test]
fn list_devices_skips_failures_and_keeps_order() {
    let results = vec![
        Ok(info("first")),
        Err(XvisioError::CommandMismatch),
        Ok(info("second")),
        Err(XvisioError::Hid("busy".to_string())),
        Ok(info("third")),
    ];
    let uuids: Vec<String> = list_devices(results).into_iter().map(|d| d.uuid).collect();
    assert_eq!(uuids, vec!["first", "second", "third"]);
    assert!(list_devices(Vec::new()).is_empty());
    assert!(list_devices(vec![Err(XvisioError::Timeout)]).is_empty());
}

#[test]
fn transactions_need_the_device_prefix() {
    let mut buffer = [0u8; 64];
    buffer[0] = 0x01;
    buffer[1] = 0x1C;
    assert_eq!(finish_transaction(&buffer, 63), Ok(buffer[..63].to_vec()));
    assert_eq!(finish_transaction(&buffer, 1), Ok(vec![0x01]));
    assert_eq!(finish_transaction(&buffer, 0), Err(XvisioError::InvalidResponse(0)));
    buffer[0] = 0x7F;
    assert_eq!(finish_transaction(&buffer, 63), Err(XvisioError::InvalidResponse(0x7F)));
}

#[test]
fn identity_responses_are_decoded() {
    let mut uuid = vec![0x01, 0xFD, 0x66, 0x00, 0x02];
    uuid.extend_from_slice(b"XR50-00A1B2\0\0\0");
    assert_eq!(decode_uuid(&uuid), Ok("XR50-00A1B2".to_string()));
    assert_eq!(decode_version(&uuid), Err(XvisioError::CommandMismatch));

    let mut version = vec![0x01, 0x1C, 0x99];
    version.extend_from_slice(b"fw 2.3.1");
    assert_eq!(decode_version(&version), Ok("fw 2.3.1".to_string()));
    assert_eq!(decode_version(&[0x01, 0x1C, 0x99]), Ok(String::new()));
    assert_eq!(decode_version(&[]), Err(XvisioError::InvalidResponse(0)));
    assert_eq!(
        decode_uuid(&[0x01, 0xFD, 0x66, 0x00, 0x02, 0x58, 0x52, 0x35, 0x30, 0x00, 0x41, 0x42]),
        Ok("XR50".to_string())
    );
    assert_eq!(
        decode_version(&[0x01, 0x1C, 0x99, 0xC3, 0xA9, 0xE2, 0x82, 0xAC]),
        Ok("\u{e9}\u{20ac}".to_string())
    );

    let features = [0x01, 0xDE, 0x62, 0x01, 0x07, 0x04, 0x00, 0x00];
    assert_eq!(decode_features(&features).unwrap().bits(), 0x0407);
    assert!(decode_features(&features[..6]).unwrap().is_empty());
    assert_eq!(decode_features(&features[..3]), Err(XvisioError::CommandMismatch));
    assert_eq!(
        decode_features(&[0x02, 0xDE, 0x62, 0x01, 0x07, 0, 0, 0]),
        Err(XvisioError::InvalidResponse(0x02))
    );
}

#[test]
fn reopening_is_bounded_and_thinly_logged() {
    assert_eq!(reopen_step(1, 40, ProbeOutcome::Opened), ReopenVerdict::Ready { announce: false });
    assert_eq!(reopen_step(2, 40, ProbeOutcome::Opened), ReopenVerdict::Ready { announce: true });
    assert_eq!(reopen_step(7, 40, ProbeOutcome::ApiFailed), ReopenVerdict::ApiFailed);
    assert_eq!(
        reopen_step(5, 40, ProbeOutcome::Missing),
        ReopenVerdict::Again { attempt: 6, log: true }
    );
    assert_eq!(
        reopen_step(6, 40, ProbeOutcome::OpenFailed),
        ReopenVerdict::Again { attempt: 7, log: false }
    );
    assert_eq!(
        reopen_step(30, 40, ProbeOutcome::Missing),
        ReopenVerdict::Again { attempt: 31, log: true }
    );
    assert_eq!(
        reopen_step(40, 40, ProbeOutcome::Missing),
        ReopenVerdict::Exhausted { log: true }
    );
    assert_eq!(
        reopen_step(u32::MAX, u32::MAX, ProbeOutcome::OpenFailed),
        ReopenVerdict::Exhausted { log: false }
    );
    assert!(should_log(5, 50));
    assert!(!should_log(6, 50));
    assert!(should_log(50, 50));
    assert!(!should_log(51, 50));
    assert!(!should_log(100, 0));
}

#[test]
fn defaults_are_as_documented() {
    let c = StartupConfig::new();
    assert_eq!(c.mac_backend, MacBackend::RawUsb);
    assert_eq!(c.uvc_mode, 0);
    assert!(c.rotation_enabled);
    assert!(!c.claim_all_interfaces);
    assert_eq!(c.precondition_cycles, 0);
    assert!(!c.enable_stereo_init);
    assert!(c.reopen_after_config);
    assert!(!c.reopen_after_edge_start);
    assert!(c.allow_detach_fallback);
    assert_eq!(c.rotation_parse, RotationParseMode::Auto);
    assert_eq!(c.slam_mode, SlamMode::Edge);
    assert_eq!(c.strategy(true), StartupStrategy::RawUsb);
    assert_eq!(c.strategy(false), StartupStrategy::Standard);
    assert_eq!(StartupConfig::default_uvc_mode(StartupStrategy::FeatureReportRetry), 1);
    assert_eq!(StartupConfig::default_uvc_mode(StartupStrategy::RawUsb), 0);
    assert_eq!(StartupConfig::default_uvc_mode(StartupStrategy::Standard), 0);
}

#[test]
fn option_texts_are_read() {
    for text in ["1", "true", " YES ", "On", "\ttrue\n", "\u{a0}on\u{3000}", "\u{2003}1"] {
        assert_eq!(parse_flag(text.as_bytes()), Some(true), "{:?}", text);
    }
    for text in ["0", "false", "No", "OFF", " off"] {
        assert_eq!(parse_flag(text.as_bytes()), Some(false), "{:?}", text);
    }
    for text in ["", " ", "2", "yes!", "tr ue", "o", "onn", "\u{200b}1"] {
        assert_eq!(parse_flag(text.as_bytes()), None, "{:?}", text);
    }

    assert_eq!(parse_byte(b"0"), Some(0));
    assert_eq!(parse_byte(b" 255 "), Some(255));
    assert_eq!(parse_byte(b"+7"), Some(7));
    assert_eq!(parse_byte(b"007"), Some(7));
    assert_eq!(parse_byte(b"0000000000000000000255"), Some(255));
    for text in ["256", "1000", "99999999999999999999", "-1", "-0", "", "+", "1 2", "0x10", "1a"] {
        assert_eq!(parse_byte(text.as_bytes()), None, "{:?}", text);
        assert_eq!(text.trim().parse::<u8>().ok(), None);
    }

    assert_eq!(parse_backend(b"hidapi"), Some(MacBackend::FeatureReport));
    assert_eq!(parse_backend(b" HIDAPI\n"), Some(MacBackend::FeatureReport));
    assert_eq!(parse_backend(b"rusb"), Some(MacBackend::RawUsb));
    assert_eq!(parse_backend(b"   "), Some(MacBackend::RawUsb));
    assert_eq!(parse_backend(b""), Some(MacBackend::RawUsb));
    assert_eq!(parse_backend(b"libusb"), None);

    assert_eq!(parse_rotation_mode(b"matrix"), RotationParseMode::Matrix);
    assert_eq!(parse_rotation_mode(b" Quat "), RotationParseMode::Quaternion);
    assert_eq!(parse_rotation_mode(b"QUATERNION"), RotationParseMode::Quaternion);
    assert_eq!(parse_rotation_mode(b"auto"), RotationParseMode::Auto);
    assert_eq!(parse_rotation_mode(b""), RotationParseMode::Auto);
    assert_eq!(parse_rotation_mode(b"quaternions"), RotationParseMode::Auto);

    assert_eq!(normalize_value("  MiXed Case\u{2028}".as_bytes()), b"mixed case".to_vec());
    assert_eq!(normalize_value(" \t\r\n".as_bytes()), Vec::<u8>::new());
    assert_eq!(normalize_value("\u{e9}T\u{c9}".as_bytes()), "\u{e9}t\u{c9}".as_bytes().to_vec());
}

#[test]
fn normalisation_agrees_with_trim_and_lowercase() {
    for text in [
        "",
        " a ",
        "\u{85}x\u{1680}",
        "\u{2000}\u{200a}y\u{202f}\u{205f}",
        "A\u{a0}B",
        "\u{3000}",
        "\u{e2}\u{80}",
        " \u{feff} ",
        "Z",
    ] {
        assert_eq!(
            normalize_value(text.as_bytes()),
            text.trim().to_ascii_lowercase().as_bytes().to_vec(),
            "{:?}",
            text
        );
    }
}

#[test]
fn options_change_one_field() {
    let c = StartupConfig::new();
    let d = c.with_option(ConfigOption::PreconditionCycles, b"2");
    assert_eq!(d.precondition_cycles, 2);
    assert_eq!(StartupConfig { precondition_cycles: 0, ..d }, c);
    assert_eq!(c.with_option(ConfigOption::PreconditionCycles, b"two"), c);
    assert_eq!(c.with_option(ConfigOption::UvcMode, b"1").uvc_mode, 1);
    assert!(!c.with_option(ConfigOption::RotationEnabled, b"off").rotation_enabled);
    assert!(c.with_option(ConfigOption::ClaimAllInterfaces, b"1").claim_all_interfaces);
    assert!(c.with_option(ConfigOption::EnableStereoInit, b"yes").enable_stereo_init);
    assert!(!c.with_option(ConfigOption::ReopenAfterConfig, b"0").reopen_after_config);
    assert!(c.with_option(ConfigOption::ReopenAfterEdgeStart, b"on").reopen_after_edge_start);
    assert!(!c.with_option(ConfigOption::AllowDetachFallback, b"no").allow_detach_fallback);
    assert!(c.with_option(ConfigOption::AllowDetachFallback, b"maybe").allow_detach_fallback);
    assert_eq!(
        c.with_option(ConfigOption::MacBackend, b"hidapi").mac_backend,
        MacBackend::FeatureReport
    );
    let h = c.with_option(ConfigOption::MacBackend, b"hidapi");
    assert_eq!(h.with_option(ConfigOption::MacBackend, b"bogus").mac_backend, MacBackend::RawUsb);
    assert_eq!(
        c.with_option(ConfigOption::RotationParse, b"quat").rotation_parse,
        RotationParseMode::Quaternion
    );
    let q = c.with_option(ConfigOption::RotationParse, b"quat");
    assert_eq!(q.with_option(ConfigOption::RotationParse, b"?").rotation_parse, RotationParseMode::Auto);
}
