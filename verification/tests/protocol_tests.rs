use xvisio::error::XvisioError;
use xvisio::pose::{parse_rotation_matrix, parse_slam_packet, RotationParseMode};
use xvisio::protocol::{
    build_command, build_configure_cmd, build_configure_cmd_with_uvc, build_edge_stream_cmd,
    build_edge_stream_cmd_with_params, build_stereo_camera_init_cmd,
    build_stereo_camera_start_cmd, cstr_length, extract_string, parse_features,
    validate_response, CMD_UUID, CMD_VERSION,
};
use xvisio::rotation::{
    is_plausible_rotation_matrix, quaternion_to_rotation, rotation_to_quaternion,
    widen_rotation_matrix,
};
use xvisio::types::{Features, Quaternion, ONE_SQ};

const SCALE: f64 = 6.103515625e-05;

const CANONICAL: [u8; 63] = [
    0x01, 0xa2, 0x33, 0x6b, 0xd1, 0x25, 0x5f, 0x58, 0x01, 0x00, 0x00, 0x1e, 0x00, 0x00, 0x00,
    0xc3, 0x01, 0x00, 0x00, 0x62, 0xc0, 0x3a, 0x03, 0x2d, 0x06, 0x5a, 0xfd, 0x56, 0xc0, 0xf3,
    0x05, 0x72, 0x06, 0xa9, 0x05, 0x6c, 0x3f, 0xa0, 0x56, 0x7d, 0x00, 0xf3, 0xff, 0xf2, 0xff,
    0x00, 0x00, 0x00, 0x00, 0x00, 0x00, 0x04, 0x00, 0x09, 0x00, 0x07, 0x00, 0x2b, 0x41, 0x00,
    0x00, 0x00, 0x00,
];

fn quaternion_wxyz(q: &Quaternion) -> [f64; 4] {
    match q {
        Quaternion::Wire { w, x, y, z } => [
            *w as f64 * SCALE,
            *x as f64 * SCALE,
            *y as f64 * SCALE,
            *z as f64 * SCALE,
        ],
        Quaternion::Root(root) => {
            let s = (root.radicand as f64 / ONE_SQ as f64).sqrt() * 2.0;
            let mut out = [0.0f64; 4];
            for k in 0..4 {
                out[k] = (root.numerators[k] as f64 / ONE_SQ as f64) / s;
            }
            out
        }
    }
}

fn packet_with_rotation(values: [i16; 9]) -> [u8; 63] {
    let mut data = [0u8; 63];
    data[0] = 0x01;
    data[1] = 0xA2;
    data[2] = 0x33;
    for (i, v) in values.iter().enumerate() {
        let b = v.to_le_bytes();
        data[19 + 2 * i] = b[0];
        data[20 + 2 * i] = b[1];
    }
    data
}

#[test]
fn test_build_command() {
    let buf = build_command(&CMD_UUID);
    assert_eq!(buf[0], 0x02);
    assert_eq!(&buf[1..5], CMD_UUID);
    assert_eq!(buf[5], 0);
}

#[test]
fn test_validate_response() {
    let mut resp = [0u8; 63];
    resp[0] = 0x01;
    resp[1..5].copy_from_slice(&CMD_UUID);
    resp[5] = b'X';
    let offset = validate_response(&resp, &CMD_UUID).unwrap();
    assert_eq!(offset, 5);
}

#[test]
fn test_quaternion_to_rotation_identity() {
    let m = quaternion_to_rotation(16384, 0, 0, 0);
    assert!((m[0][0] as f64 / ONE_SQ as f64 - 1.0).abs() < 1e-10);
    assert!((m[1][1] as f64 / ONE_SQ as f64 - 1.0).abs() < 1e-10);
    assert!((m[2][2] as f64 / ONE_SQ as f64 - 1.0).abs() < 1e-10);
}

#[test]
fn test_parse_slam_packet() {
    let sample = parse_slam_packet(&CANONICAL, 0, RotationParseMode::Auto).unwrap();

    assert_eq!(sample.pose.timestamp_us, 1596313963);

    assert!((sample.pose.translation[0] as f64 * SCALE - 0.0210).abs() < 0.001);
    assert!((sample.pose.translation[1] as f64 * SCALE - 0.0018).abs() < 0.001);
    assert!((sample.pose.translation[2] as f64 * SCALE - 0.0275).abs() < 0.001);

    assert!((sample.pose.rotation[0][0] as f64 / ONE_SQ as f64 - (-0.994)).abs() < 0.01);
    let q = quaternion_wxyz(&sample.pose.quaternion);
    let qn = (q[0] * q[0] + q[1] * q[1] + q[2] * q[2] + q[3] * q[3]).sqrt();
    assert!((qn - 1.0).abs() < 0.05);
}

#[test]
fn canonical_packet_exact_fields() {
    let sample = parse_slam_packet(&CANONICAL, 77, RotationParseMode::Auto).unwrap();
    assert_eq!(sample.pose.translation, [344, 30, 451]);
    assert_eq!(sample.pose.host_timestamp_ns, 77);
    assert_eq!(sample.pose.rotation[0][0], -16286 * 16384);
    assert_eq!(sample.pose.rotation[0][1], 826 * 16384);
    assert_eq!(sample.pose.rotation[2][2], 16236 * 16384);
    assert!(matches!(sample.pose.quaternion, Quaternion::Root(_)));
    let imu = sample.imu.unwrap();
    assert_eq!(imu.accelerometer, [22176, 125, -13]);
    assert_eq!(imu.gyroscope, [-14, 0, 0]);
    assert_eq!(sample.pose.confidence, 16384);
    assert_eq!(&sample.raw_extended[..], &CANONICAL[37..63]);
}

#[test]
fn build_command_pads_and_truncates() {
    let buf = build_command(&[0xFD, 0x66, 0x00, 0x02]);
    assert_eq!(buf.len(), 63);
    assert_eq!(&buf[..5], &[0x02, 0xFD, 0x66, 0x00, 0x02]);
    assert!(buf[5..].iter().all(|b| *b == 0));

    let long = [0xABu8; 80];
    let buf = build_command(&long);
    assert_eq!(buf[0], 0x02);
    assert!(buf[1..].iter().all(|b| *b == 0xAB));

    let buf = build_command(&[]);
    assert_eq!(buf[0], 0x02);
    assert!(buf[1..].iter().all(|b| *b == 0));
}

#[test]
fn builders_give_documented_frames() {
    assert_eq!(&build_configure_cmd_with_uvc(true, 1, false)[..6], &[0x02, 0x19, 0x95, 1, 1, 0]);
    assert_eq!(&build_configure_cmd(false, true)[..6], &[0x02, 0x19, 0x95, 0, 0, 1]);
    assert_eq!(&build_edge_stream_cmd(true)[..6], &[0x02, 0xA2, 0x33, 1, 1, 0]);
    assert_eq!(&build_edge_stream_cmd(false)[..6], &[0x02, 0xA2, 0x33, 0, 0, 0]);
    assert_eq!(
        &build_edge_stream_cmd_with_params(1, false, true)[..6],
        &[0x02, 0xA2, 0x33, 1, 0, 1]
    );
    assert_eq!(&build_stereo_camera_init_cmd()[..5], &[0x02, 0xFE, 0x20, 0x21, 0]);
    assert_eq!(&build_stereo_camera_start_cmd()[..5], &[0x02, 0xFE, 0x20, 0x22, 0]);
}

#[test]
fn flipped_command_validates() {
    for op in [&CMD_UUID[..], &CMD_VERSION[..], &[0x19, 0x95, 1, 0, 0][..], &[][..]] {
        let mut frame = build_command(op);
        frame[0] = 0x01;
        assert_eq!(validate_response(&frame, op), Ok(1 + op.len()));
    }
}

#[test]
fn validate_response_errors() {
    assert_eq!(validate_response(&[], &CMD_UUID), Err(XvisioError::InvalidResponse(0)));
    assert_eq!(
        validate_response(&[0x02, 0xFD, 0x66, 0x00, 0x02], &CMD_UUID),
        Err(XvisioError::InvalidResponse(0x02))
    );
    assert_eq!(
        validate_response(&[0x01, 0xFD, 0x66, 0x00, 0x03], &CMD_UUID),
        Err(XvisioError::CommandMismatch)
    );
    assert_eq!(
        validate_response(&[0x01, 0xFD, 0x66], &CMD_UUID),
        Err(XvisioError::CommandMismatch)
    );
    let frame = [0x01, 0xFD, 0x66, 0x00, 0x02, 0x58];
    assert_eq!(validate_response(&frame, &CMD_UUID), Ok(5));
}

#[test]
fn parse_pose_rejects_short_or_untagged() {
    assert!(parse_slam_packet(&[], 0, RotationParseMode::Auto).is_none());
    assert!(parse_slam_packet(&CANONICAL[..62], 0, RotationParseMode::Auto).is_none());
    let mut bad = CANONICAL;
    bad[1] = 0xA3;
    assert!(parse_slam_packet(&bad, 0, RotationParseMode::Auto).is_none());
    let mut longer = CANONICAL.to_vec();
    longer.push(0xEE);
    assert!(parse_slam_packet(&longer, 0, RotationParseMode::Auto).is_some());
}

#[test]
fn extract_string_stops_at_nul() {
    assert_eq!(extract_string(b"XR50-1234\0garbage"), "XR50-1234");
    assert_eq!(extract_string(b"no terminator"), "no terminator");
    assert_eq!(extract_string(b"\0abc"), "");
    assert_eq!(extract_string(&[]), "");
    assert_eq!(extract_string(&[0x58, 0x52, 0x35, 0x30, 0x00, 0x41, 0x42]), "XR50");
    assert_eq!(extract_string(&[0x58, 0x52, 0x35, 0x30, 0x00, 0x41, 0x42]).as_bytes(), &[0x58, 0x52, 0x35, 0x30]);
    assert_eq!(extract_string(&[0x41, 0xFF, 0x42, 0x00]), "A\u{FFFD}B");
    assert_eq!(cstr_length(b"abc\0def\0"), 3);
    assert_eq!(cstr_length(b""), 0);
}

#[test]
fn parse_features_reads_little_endian_and_truncates() {
    assert_eq!(parse_features(&[0x05, 0x04, 0x00, 0x00]).bits(), 0x0405);
    assert_eq!(parse_features(&[0xFF, 0xFF, 0xFF, 0xFF, 0x12]).bits(), 0x147F);
    assert!(parse_features(&[0xFF, 0xFF, 0xFF]).is_empty());
    let f = parse_features(&[0x07, 0x10, 0, 0]);
    assert!(f.contains(Features::EDGE_MODE | Features::STEREO | Features::FACE_ID));
    assert!(!f.contains(Features::RGB));
    assert_eq!(Features::from_bits_truncate(0x8000_0001), Features::from_bits_truncate(1));
    assert_eq!(Features::empty().bits(), 0);
}

#[test]
fn rotation_modes_select_payload_reading() {
    // Identity quaternion in the first eight bytes: as a matrix its rows are
    // (1, 0, 0), (0, ...) and are no plausible rotation.
    let data = packet_with_rotation([16384, 0, 0, 0, 0, 0, 0, 0, 0]);
    let auto = parse_slam_packet(&data, 0, RotationParseMode::Auto).unwrap();
    assert_eq!(auto.pose.quaternion, Quaternion::Wire { w: 16384, x: 0, y: 0, z: 0 });
    assert_eq!(auto.pose.rotation, [[ONE_SQ, 0, 0], [0, ONE_SQ, 0], [0, 0, ONE_SQ]]);
    let forced = parse_slam_packet(&data, 0, RotationParseMode::Matrix).unwrap();
    assert!(matches!(forced.pose.quaternion, Quaternion::Root(_)));
    assert_eq!(forced.pose.rotation[0][0], ONE_SQ);
    assert_eq!(forced.pose.rotation[1][1], 0);

    // Identity matrix: a plausible rotation; read as a quaternion on demand.
    let data = packet_with_rotation([16384, 0, 0, 0, 16384, 0, 0, 0, 16384]);
    let auto = parse_slam_packet(&data, 0, RotationParseMode::Auto).unwrap();
    match auto.pose.quaternion {
        Quaternion::Root(root) => {
            assert_eq!(root.lead, 0);
            assert_eq!(root.radicand, 4 * ONE_SQ);
            assert_eq!(root.numerators, [4 * ONE_SQ, 0, 0, 0]);
        }
        other => panic!("expected a matrix reading, got {:?}", other),
    }
    let quat = parse_slam_packet(&data, 0, RotationParseMode::Quaternion).unwrap();
    assert_eq!(quat.pose.quaternion, Quaternion::Wire { w: 16384, x: 0, y: 0, z: 0 });
}

#[test]
fn plausibility_boundaries() {
    let diag = |v: i16| [[v, 0, 0], [0, v, 0], [0, 0, v]];
    // Norm exactly 0.5 and exactly 1.5 pass; just outside fails.
    assert!(is_plausible_rotation_matrix(&diag(8192)));
    assert!(!is_plausible_rotation_matrix(&diag(8191)));
    assert!(is_plausible_rotation_matrix(&diag(24576)));
    assert!(!is_plausible_rotation_matrix(&diag(24577)));
    // Dot product of rows 0 and 1: 13707 / 16384 * 1 = 0.8366 fails, 0.699 passes.
    let skew = |d: i16| [[16384, 0, 0], [d, 16384, 0], [0, 0, 16384]];
    assert!(is_plausible_rotation_matrix(&skew(11468)));
    assert!(!is_plausible_rotation_matrix(&skew(11469)));
    assert!(is_plausible_rotation_matrix(&skew(-11468)));
    assert!(!is_plausible_rotation_matrix(&skew(-11469)));
}

#[test]
fn quaternion_round_trip_exact() {
    // Unit quaternions with integer components: 16384 * (1/2, 1/2, 1/2, 1/2)
    // and a Pythagorean one led by x.
    for (w, x, y, z) in [
        (8192i16, 8192i16, 8192i16, 8192i16),
        (-8192, 8192, -8192, 8192),
        (0, 16384, 0, 0),
        (0, 0, -16384, 0),
        (0, 0, 0, 16384),
    ] {
        let m = quaternion_to_rotation(w, x, y, z);
        let root = rotation_to_quaternion(&m);
        let q = [w as i64, x as i64, y as i64, z as i64];
        let c = q[root.lead as usize];
        assert_ne!(c, 0);
        assert_eq!(root.radicand, 4 * c * c);
        for k in 0..4 {
            assert_eq!(root.numerators[k], 4 * c * q[k]);
        }
    }
}

#[test]
fn wire_matrix_is_read_row_major() {
    let data = packet_with_rotation([1, 2, 3, 4, 5, 6, 7, 8, -9]);
    let m = parse_rotation_matrix(&data);
    assert_eq!(m, [[1, 2, 3], [4, 5, 6], [7, 8, -9]]);
    let wide = widen_rotation_matrix(&m);
    assert_eq!(wide[2][2], -9 * 16384);
    assert_eq!(wide[0][1], 2 * 16384);
}

#[test]
fn confidence_is_clamped() {
    let mut data = CANONICAL;
    data[57] = 0xFF;
    data[58] = 0x7F;
    assert_eq!(
        parse_slam_packet(&data, 0, RotationParseMode::Auto).unwrap().pose.confidence,
        16384
    );
    data[57] = 0xFF;
    data[58] = 0xFF;
    assert_eq!(parse_slam_packet(&data, 0, RotationParseMode::Auto).unwrap().pose.confidence, 0);
    data[57] = 0x00;
    data[58] = 0x20;
    assert_eq!(
        parse_slam_packet(&data, 0, RotationParseMode::Auto).unwrap().pose.confidence,
        8192
    );
}

#[test]
fn host_timestamps_follow_the_clock() {
    let mut last = 0u64;
    for t in [5u64, 5, 9, 1000, u64::MAX] {
        let s = parse_slam_packet(&CANONICAL, t, RotationParseMode::Auto).unwrap();
        assert!(s.pose.host_timestamp_ns >= last);
        last = s.pose.host_timestamp_ns;
    }
}

#[test]
fn matrix_round_trip_exact() {
    // Rotation matrices of unit quaternions: the matrix of the recovered
    // quaternion, times four times the radicand, is the matrix itself.
    for (w, x, y, z) in [
        (16384i16, 0i16, 0i16, 0i16),
        (8192, 8192, 8192, 8192),
        (8192, -8192, 8192, -8192),
        (0, 0, 16384, 0),
    ] {
        let m = quaternion_to_rotation(w, x, y, z);
        let root = rotation_to_quaternion(&m);
        let n: Vec<i128> = root.numerators.iter().map(|v| *v as i128).collect();
        let (nw, nx, ny, nz) = (n[0], n[1], n[2], n[3]);
        let four_r = 4 * root.radicand as i128;
        let one = four_r * ONE_SQ as i128;
        let back = [
            [one - 2 * (ny * ny + nz * nz), 2 * (nx * ny - nz * nw), 2 * (nx * nz + ny * nw)],
            [2 * (nx * ny + nz * nw), one - 2 * (nx * nx + nz * nz), 2 * (ny * nz - nx * nw)],
            [2 * (nx * nz - ny * nw), 2 * (ny * nz + nx * nw), one - 2 * (nx * nx + ny * ny)],
        ];
        for r in 0..3 {
            for c in 0..3 {
                assert_eq!(back[r][c], four_r * m[r][c] as i128);
            }
        }
        assert_eq!(nw * nw + nx * nx + ny * ny + nz * nz, one);
    }
}

#[test]
fn scaled_identity_is_plausible_but_not_unit() {
    // 0.6 times the identity is taken for a rotation, and its quaternion has
    // the squared magnitude 0.7.
    let m = [[9830i16, 0, 0], [0, 9830, 0], [0, 0, 9830]];
    assert!(is_plausible_rotation_matrix(&m));
    let root = rotation_to_quaternion(&widen_rotation_matrix(&m));
    assert_eq!(root.lead, 0);
    let norm_sq = root.radicand as f64 / (4.0 * ONE_SQ as f64);
    assert!((norm_sq - 0.7).abs() < 1e-3);
    // An all-zero payload is read as the zero quaternion.
    let data = packet_with_rotation([0; 9]);
    let sample = parse_slam_packet(&data, 0, RotationParseMode::Auto).unwrap();
    assert_eq!(sample.pose.quaternion, Quaternion::Wire { w: 0, x: 0, y: 0, z: 0 });
}

fn defects(m: &[[i64; 3]; 3]) -> i128 {
    let e = |i: usize, j: usize| m[i % 3][j % 3] as i128;
    let one = ONE_SQ as i128;
    let mut worst = 0i128;
    for i in 0..3 {
        for j in 0..3 {
            let unit = if i == j { one * one } else { 0 };
            let rows: i128 = (0..3).map(|k| e(i, k) * e(j, k)).sum::<i128>() - unit;
            let columns: i128 = (0..3).map(|k| e(k, i) * e(k, j)).sum::<i128>() - unit;
            let cofactor = e(i + 1, j + 1) * e(i + 2, j + 2) - e(i + 1, j + 2) * e(i + 2, j + 1);
            let proper = e(i, j) * one - cofactor;
            worst = worst.max(rows.abs()).max(columns.abs()).max(proper.abs());
        }
    }
    worst
}

fn worst_round_trip_error(m: &[[i64; 3]; 3]) -> (i128, i128) {
    let root = rotation_to_quaternion(m);
    let n: Vec<i128> = root.numerators.iter().map(|v| *v as i128).collect();
    let (w, x, y, z) = (n[0], n[1], n[2], n[3]);
    let four_r = 4 * root.radicand as i128;
    let one = four_r * ONE_SQ as i128;
    let back = [
        [one - 2 * (y * y + z * z), 2 * (x * y - z * w), 2 * (x * z + y * w)],
        [2 * (x * y + z * w), one - 2 * (x * x + z * z), 2 * (y * z - x * w)],
        [2 * (x * z - y * w), 2 * (y * z + x * w), one - 2 * (x * x + y * y)],
    ];
    let mut worst = 0i128;
    for r in 0..3 {
        for c in 0..3 {
            worst = worst.max((back[r][c] - four_r * m[r][c] as i128).abs());
        }
    }
    (worst, one)
}

#[test]
fn near_rotations_come_back_within_a_thousandth() {
    const TOLERANCE: i128 = 24019198012642;
    assert_eq!(xvisio::round_trip::ROTATION_TOLERANCE as i128, TOLERANCE);
    // The matrix of the canonical packet and three quarter turns, one for
    // each leading component besides `w`.
    let canonical = parse_slam_packet(&CANONICAL, 0, RotationParseMode::Matrix).unwrap();
    let s = ONE_SQ;
    for m in [
        canonical.pose.rotation,
        [[s, 0, 0], [0, -s, 0], [0, 0, -s]],
        [[-s, 0, 0], [0, s, 0], [0, 0, -s]],
        [[-s, 0, 0], [0, -s, 0], [0, 0, s]],
        [[s, 0, 0], [0, s, 0], [0, 0, s]],
        [[s - 20000, 70000, 0], [-70000, s - 20000, 0], [0, 0, s + 30000]],
    ] {
        assert!(defects(&m) <= TOLERANCE);
        let (error, bound) = worst_round_trip_error(&m);
        assert!(1000 * error <= bound, "{:?}", m);
    }
}

#[test]
fn scaled_or_mirrored_matrices_are_no_near_rotations() {
    const TOLERANCE: i128 = 24019198012642;
    // 1.2 times the identity, and a reflection.
    let big = (ONE_SQ / 5) * 6;
    for m in [
        [[big, 0, 0], [0, big, 0], [0, 0, big]],
        [[-ONE_SQ, 0, 0], [0, -ONE_SQ, 0], [0, 0, -ONE_SQ]],
    ] {
        assert!(defects(&m) > TOLERANCE);
        let (error, bound) = worst_round_trip_error(&m);
        assert!(1000 * error > bound);
    }
}
