//! Decoding of the 63-byte pose packet.

use crate::bytes::{field_i16, le_i32, le_u32, read_i16, read_i32, read_u32};
use crate::protocol::REPORT_SIZE;
use crate::rotation::{
    is_plausible_rotation_matrix, is_quaternion_of, is_rotation_of, is_widened,
    plausible_rotation, quaternion_to_rotation, rotation_to_quaternion, row_dot,
    widen_rotation_matrix,
};
use crate::types::{ImuData, Pose, Quaternion, SlamSample, ONE};
use vstd::prelude::*;

verus! {

/// First three bytes of every pose packet: the device prefix and the echo of
/// the edge-stream opcode.
pub const SLAM_HEADER: [u8; 3] = [0x01, 0xA2, 0x33];

/// How the 18 rotation bytes of a pose packet are read.
#[derive(Debug, Clone, Copy, PartialEq, Eq, Structural)]
pub enum RotationParseMode {
    /// Read them as a matrix if that gives a plausible rotation, else as a
    /// quaternion. The choice is made for each packet by itself.
    Auto,
    /// Always read nine matrix entries.
    Matrix,
    /// Always read four quaternion components from the first eight bytes.
    Quaternion,
}

/// Whether `m` holds the nine signed 16-bit numbers that stand row by row in
/// the rotation payload of `data`, bytes 19 to 36.
pub open spec fn is_wire_matrix(m: [[i16; 3]; 3], data: Seq<u8>) -> bool {
    forall|r: int, c: int|
        0 <= r < 3 && 0 <= c < 3 ==> #[trigger] m[r][c] == field_i16(data, 19 + 2 * (3 * r + c))
}

/// The rotation payload of `data` read as a matrix.
pub open spec fn wire_matrix(data: Seq<u8>) -> [[i16; 3]; 3] {
    [
        [field_i16(data, 19) as i16, field_i16(data, 21) as i16, field_i16(data, 23) as i16],
        [field_i16(data, 25) as i16, field_i16(data, 27) as i16, field_i16(data, 29) as i16],
        [field_i16(data, 31) as i16, field_i16(data, 33) as i16, field_i16(data, 35) as i16],
    ]
}

/// Reads the rotation payload of a pose packet as a row-major matrix of nine
/// signed 16-bit numbers with 14 fractional bits.
pub fn parse_rotation_matrix(data: &[u8]) -> (m: [[i16; 3]; 3])
    requires
        data@.len() >= 37,
    ensures
        is_wire_matrix(m, data@),
{
    [
        [read_i16(data, 19), read_i16(data, 21), read_i16(data, 23)],
        [read_i16(data, 25), read_i16(data, 27), read_i16(data, 29)],
        [read_i16(data, 31), read_i16(data, 33), read_i16(data, 35)],
    ]
}

/// Whether `data` is long enough for a pose packet and begins with the pose
/// header 0x01 0xA2 0x33.
pub open spec fn has_pose_header(data: Seq<u8>) -> bool {
    &&& data.len() >= 63
    &&& data[0] == 0x01
    &&& data[1] == 0xA2
    &&& data[2] == 0x33
}

/// Whether the rotation payload of `data` is read as a matrix under `mode`.
pub open spec fn reads_matrix(data: Seq<u8>, mode: RotationParseMode) -> bool {
    mode == RotationParseMode::Matrix || (mode == RotationParseMode::Auto && plausible_rotation(
        wire_matrix(data),
    ))
}

/// A raw confidence held to the range from 0 to 1.
pub open spec fn clamp_confidence(raw: int) -> int {
    if raw < 0 {
        0
    } else if raw > ONE {
        ONE as int
    } else {
        raw
    }
}

/// Whether `pose` carries the rotation of the packet `data` under `mode`.
///
/// Read as a matrix, the payload is the rotation (rescaled to 28 fractional
/// bits) and the quaternion is the closed form that this matrix determines.
/// Read as a quaternion, the first four numbers of the payload are the
/// quaternion `[w, x, y, z]` and the rotation is its matrix.
pub open spec fn is_rotation_of_packet(pose: Pose, data: Seq<u8>, mode: RotationParseMode) -> bool {
    if reads_matrix(data, mode) {
        &&& is_widened(pose.rotation, wire_matrix(data))
        &&& pose.quaternion matches Quaternion::Root(q)
        &&& is_quaternion_of(q, pose.rotation)
    } else {
        &&& pose.quaternion matches Quaternion::Wire { w, x, y, z }
        &&& w == field_i16(data, 19)
        &&& x == field_i16(data, 21)
        &&& y == field_i16(data, 23)
        &&& z == field_i16(data, 25)
        &&& is_rotation_of(pose.rotation, w as int, x as int, y as int, z as int)
    }
}

/// Whether `sample` is the decoding of the pose packet `data`, taken at host
/// time `host_ns` under `mode`. Every field of the sample is fixed by this.
pub open spec fn is_pose_of(
    sample: SlamSample,
    data: Seq<u8>,
    host_ns: u64,
    mode: RotationParseMode,
) -> bool {
    &&& sample.pose.timestamp_us == le_u32(data, 3)
    &&& forall|k: int| 0 <= k < 3 ==> #[trigger] sample.pose.translation[k] == le_i32(data, 7 + 4 * k)
    &&& is_rotation_of_packet(sample.pose, data, mode)
    &&& sample.pose.host_timestamp_ns == host_ns
    &&& sample.pose.confidence == clamp_confidence(field_i16(data, 57))
    &&& sample.imu matches Some(imu)
    &&& forall|k: int| 0 <= k < 3 ==> #[trigger] imu.accelerometer[k] == field_i16(data, 37 + 2 * k)
    &&& forall|k: int| 0 <= k < 3 ==> #[trigger] imu.gyroscope[k] == field_i16(data, 43 + 2 * k)
    &&& sample.raw_extended@ == data.subrange(37, 63)
}

fn copy_extended(data: &[u8]) -> (raw: [u8; 26])
    requires
        data@.len() >= 63,
    ensures
        raw@ == data@.subrange(37, 63),
{
    let mut raw: [u8; 26] = [0u8; 26];
    let mut i: usize = 0;
    while i < 26
        invariant
            i <= 26,
            data@.len() >= 63,
            forall|j: int| 0 <= j < i ==> raw[j] == data@[37 + j],
        decreases 26 - i,
    {
        raw[i] = data[37 + i];
        i += 1;
    }
    assert(raw@ =~= data@.subrange(37, 63));
    raw
}

/// Decodes a pose packet.
///
/// Returns a sample exactly when `data` holds at least 63 bytes and begins
/// with 0x01 0xA2 0x33; shorter or differently tagged input gives `None`.
/// `host_ns` is the host clock reading that is stored in the sample, and
/// `mode` says how the rotation payload is read.
///
/// Layout: bytes 3..7 timestamp (unsigned, microseconds); 7..19 translation
/// (three signed 32-bit); 19..37 rotation payload; 37..49 accelerometer and
/// gyroscope (six signed 16-bit); 57..59 confidence (signed 16-bit, held to
/// the range from 0 to 1). All numbers are little-endian.
pub fn parse_slam_packet(data: &[u8], host_ns: u64, mode: RotationParseMode) -> (r: Option<
    SlamSample,
>)
    ensures
        r is Some <==> has_pose_header(data@),
        r matches Some(sample) ==> is_pose_of(sample, data@, host_ns, mode),
{
    if data.len() < REPORT_SIZE {
        return None;
    }
    if data[0] != SLAM_HEADER[0] || data[1] != SLAM_HEADER[1] || data[2] != SLAM_HEADER[2] {
        return None;
    }
    let timestamp_us: u64 = read_u32(data, 3) as u64;
    let translation: [i32; 3] = [read_i32(data, 7), read_i32(data, 11), read_i32(data, 15)];

    let wire: [[i16; 3]; 3] = parse_rotation_matrix(data);
    assert(forall|a: int, b: int|
        0 <= a < 3 && 0 <= b < 3 ==> row_dot(wire, a, b) == row_dot(wire_matrix(data@), a, b));
    let as_matrix: bool = match mode {
        RotationParseMode::Quaternion => false,
        RotationParseMode::Matrix => true,
        RotationParseMode::Auto => is_plausible_rotation_matrix(&wire),
    };
    let rotation: [[i64; 3]; 3];
    let quaternion: Quaternion;
    if as_matrix {
        rotation = widen_rotation_matrix(&wire);
        quaternion = Quaternion::Root(rotation_to_quaternion(&rotation));
    } else {
        let w: i16 = read_i16(data, 19);
        let x: i16 = read_i16(data, 21);
        let y: i16 = read_i16(data, 23);
        let z: i16 = read_i16(data, 25);
        rotation = quaternion_to_rotation(w, x, y, z);
        quaternion = Quaternion::Wire { w, x, y, z };
    }

    let imu: ImuData = ImuData {
        accelerometer: [read_i16(data, 37), read_i16(data, 39), read_i16(data, 41)],
        gyroscope: [read_i16(data, 43), read_i16(data, 45), read_i16(data, 47)],
    };
    let confidence_raw: i16 = read_i16(data, 57);
    let confidence: i16 = if confidence_raw < 0 {
        0
    } else if confidence_raw > ONE as i16 {
        ONE as i16
    } else {
        confidence_raw
    };
    let raw_extended: [u8; 26] = copy_extended(data);

    Some(
        SlamSample {
            pose: Pose {
                translation,
                rotation,
                quaternion,
                timestamp_us,
                host_timestamp_ns: host_ns,
                confidence,
            },
            imu: Some(imu),
            raw_extended,
        },
    )
}

/// Host timestamps keep the order of the clock readings: of two packets
/// decoded one after the other, the later sample does not carry the earlier
/// host timestamp unless the clock stood still or ran backwards.
pub proof fn lemma_host_timestamps_follow_clock(
    first: SlamSample,
    first_data: Seq<u8>,
    first_ns: u64,
    second: SlamSample,
    second_data: Seq<u8>,
    second_ns: u64,
    mode: RotationParseMode,
)
    requires
        is_pose_of(first, first_data, first_ns, mode),
        is_pose_of(second, second_data, second_ns, mode),
        first_ns <= second_ns,
    ensures
        first.pose.host_timestamp_ns <= second.pose.host_timestamp_ns,
{
}

} // verus!
