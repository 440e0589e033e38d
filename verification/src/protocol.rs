//! Wire protocol: command frames, response validation and identity payloads.
//!
//! Pose packets are decoded in `pose`; the decoder is handed on from here.

use crate::bytes::{le_u32, read_u32};
use crate::error::XvisioError;
use crate::types::Features;
use vstd::prelude::*;

pub use crate::pose::{parse_slam_packet, RotationParseMode, SLAM_HEADER};

verus! {

/// USB vendor identifier of the sensor.
pub const VID: u16 = 0x040E;

/// USB product identifier of the sensor.
pub const PID: u16 = 0xF408;

/// Number of the HID command interface.
pub const HID_INTERFACE: u8 = 3;

/// Address of the interrupt endpoint that carries pose packets.
pub const SLAM_ENDPOINT: u8 = 0x83;

/// Size in bytes of every command, response and pose frame.
pub const REPORT_SIZE: usize = 63;

/// First byte of a frame sent by the host.
pub const PREFIX_HOST_TO_DEVICE: u8 = 0x02;

/// First byte of a frame sent by the device.
pub const PREFIX_DEVICE_TO_HOST: u8 = 0x01;

/// The frame that `build_command` produces for `cmd`: the host prefix, then as
/// many bytes of `cmd` as fit in the remaining 62, then zeros.
pub open spec fn command_frame(cmd: Seq<u8>) -> Seq<u8> {
    Seq::new(
        63,
        |i: int|
            if i == 0 {
                0x02u8
            } else if i <= cmd.len() {
                cmd[i - 1]
            } else {
                0u8
            },
    )
}

/// Builds a 63-byte command frame: byte 0 is the host prefix 0x02, the bytes
/// after it are `cmd`, and the rest is zero. Input past 62 bytes is cut off.
pub fn build_command(cmd: &[u8]) -> (buf: [u8; REPORT_SIZE])
    ensures
        buf@ == command_frame(cmd@),
        buf@.len() == 63,
        buf[0] == 0x02,
        forall|i: int| 1 <= i <= 62 && i <= cmd@.len() ==> buf[i] == cmd@[i - 1],
        forall|i: int| cmd@.len() < i < 63 ==> buf[i] == 0,
{
    let mut buf: [u8; REPORT_SIZE] = [0u8; REPORT_SIZE];
    buf[0] = PREFIX_HOST_TO_DEVICE;
    let len: usize = if cmd.len() < REPORT_SIZE - 1 {
        cmd.len()
    } else {
        REPORT_SIZE - 1
    };
    let mut i: usize = 0;
    while i < len
        invariant
            i <= len <= 62,
            len <= cmd@.len(),
            buf[0] == 0x02,
            forall|j: int| 1 <= j <= i ==> buf[j] == cmd@[j - 1],
            forall|j: int| i < j < 63 ==> buf[j] == 0,
        decreases len - i,
    {
        buf[i + 1] = cmd[i];
        i += 1;
    }
    buf
}

/// Opcode of the UUID query.
pub const CMD_UUID: [u8; 4] = [0xFD, 0x66, 0x00, 0x02];

/// Opcode of the firmware version query.
pub const CMD_VERSION: [u8; 2] = [0x1C, 0x99];

/// Opcode of the feature bitmap query.
pub const CMD_FEATURES: [u8; 3] = [0xDE, 0x62, 0x01];

/// Opcode of the configure command; three parameter bytes follow it.
pub const CMD_CONFIGURE: [u8; 2] = [0x19, 0x95];

/// Opcode of the edge-stream command; three parameter bytes follow it. The
/// same two bytes tag every pose packet.
pub const CMD_EDGE_STREAM: [u8; 2] = [0xA2, 0x33];

/// Opcode that initialises the stereo cameras.
pub const CMD_STEREO_CAMERA_INIT: [u8; 3] = [0xFE, 0x20, 0x21];

/// Opcode that starts the stereo cameras.
pub const CMD_STEREO_CAMERA_START: [u8; 3] = [0xFE, 0x20, 0x22];

/// 1 for `true`, 0 for `false`.
pub open spec fn flag(b: bool) -> u8 {
    if b {
        1u8
    } else {
        0u8
    }
}

fn flag_byte(b: bool) -> (v: u8)
    ensures
        v == flag(b),
{
    if b {
        1
    } else {
        0
    }
}

/// Builds the configure command: opcode 19 95, then the edge flag, the UVC
/// mode and the embedded-algorithm flag.
pub fn build_configure_cmd_with_uvc(edge: bool, uvc_mode: u8, embedded_algo: bool) -> (buf: [u8;
    REPORT_SIZE])
    ensures
        buf@ == command_frame(seq![0x19u8, 0x95u8, flag(edge), uvc_mode, flag(embedded_algo)]),
{
    let cmd_bytes: [u8; 5] = [0x19, 0x95, flag_byte(edge), uvc_mode, flag_byte(embedded_algo)];
    assert(cmd_bytes@ =~= seq![0x19u8, 0x95u8, flag(edge), uvc_mode, flag(embedded_algo)]);
    build_command(cmd_bytes.as_slice())
}

/// Builds the configure command with UVC mode 0.
pub fn build_configure_cmd(edge: bool, embedded_algo: bool) -> (buf: [u8; REPORT_SIZE])
    ensures
        buf@ == command_frame(seq![0x19u8, 0x95u8, flag(edge), 0u8, flag(embedded_algo)]),
{
    build_configure_cmd_with_uvc(edge, 0, embedded_algo)
}

/// Builds the edge-stream command: opcode A2 33, then the edge mode, the
/// rotation flag and the flipped flag.
pub fn build_edge_stream_cmd_with_params(edge_mode: u8, rotation_enabled: bool, flipped: bool) -> (buf:
    [u8; REPORT_SIZE])
    ensures
        buf@ == command_frame(
            seq![0xA2u8, 0x33u8, edge_mode, flag(rotation_enabled), flag(flipped)],
        ),
{
    let cmd_bytes: [u8; 5] = [
        0xA2,
        0x33,
        edge_mode,
        flag_byte(rotation_enabled),
        flag_byte(flipped),
    ];
    assert(cmd_bytes@ =~= seq![0xA2u8, 0x33u8, edge_mode, flag(rotation_enabled), flag(flipped)]);
    build_command(cmd_bytes.as_slice())
}

/// Builds the command that starts (`A2 33 01 01 00`) or stops
/// (`A2 33 00 00 00`) the edge stream.
pub fn build_edge_stream_cmd(start: bool) -> (buf: [u8; REPORT_SIZE])
    ensures
        buf@ == command_frame(seq![0xA2u8, 0x33u8, flag(start), flag(start), 0u8]),
{
    build_edge_stream_cmd_with_params(flag_byte(start), start, false)
}

/// Builds the command that initialises the stereo cameras.
pub fn build_stereo_camera_init_cmd() -> (buf: [u8; REPORT_SIZE])
    ensures
        buf@ == command_frame(seq![0xFEu8, 0x20u8, 0x21u8]),
{
    let cmd_bytes: [u8; 3] = [0xFE, 0x20, 0x21];
    assert(cmd_bytes@ =~= seq![0xFEu8, 0x20u8, 0x21u8]);
    build_command(cmd_bytes.as_slice())
}

/// Builds the command that starts the stereo cameras.
pub fn build_stereo_camera_start_cmd() -> (buf: [u8; REPORT_SIZE])
    ensures
        buf@ == command_frame(seq![0xFEu8, 0x20u8, 0x22u8]),
{
    let cmd_bytes: [u8; 3] = [0xFE, 0x20, 0x22];
    assert(cmd_bytes@ =~= seq![0xFEu8, 0x20u8, 0x22u8]);
    build_command(cmd_bytes.as_slice())
}

/// What `validate_response` returns for a response and the opcode that was
/// sent: the offset of the payload, one past the echo, if the response begins
/// with the device prefix and echoes the opcode.
pub open spec fn validated(response: Seq<u8>, expected: Seq<u8>) -> Result<usize, XvisioError> {
    if response.len() == 0 {
        Err(XvisioError::InvalidResponse(0))
    } else if response[0] != 0x01 {
        Err(XvisioError::InvalidResponse(response[0]))
    } else if response.len() < 1 + expected.len() {
        Err(XvisioError::CommandMismatch)
    } else if response.subrange(1, 1 + expected.len() as int) != expected {
        Err(XvisioError::CommandMismatch)
    } else {
        Ok((1 + expected.len()) as usize)
    }
}

/// Checks a response against the opcode that was sent and returns the offset
/// at which the payload starts.
///
/// Fails with `InvalidResponse` if the response is empty or byte 0 is not
/// 0x01, with `CommandMismatch` if the bytes after it are not
/// `expected_cmd`, and returns `1 + expected_cmd.len()` otherwise.
pub fn validate_response(response: &[u8], expected_cmd: &[u8]) -> (r: Result<usize, XvisioError>)
    ensures
        r == validated(response@, expected_cmd@),
        r matches Ok(offset) ==> offset == 1 + expected_cmd@.len() && offset <= response@.len(),
{
    if response.len() == 0 {
        return Err(XvisioError::InvalidResponse(0));
    }
    if response[0] != PREFIX_DEVICE_TO_HOST {
        return Err(XvisioError::InvalidResponse(response[0]));
    }
    let cmd_len: usize = expected_cmd.len();
    if response.len() <= cmd_len {
        return Err(XvisioError::CommandMismatch);
    }
    let mut i: usize = 0;
    while i < cmd_len
        invariant
            i <= cmd_len,
            cmd_len == expected_cmd@.len(),
            cmd_len < response@.len(),
            response@[0] == 0x01,
            forall|j: int| 0 <= j < i ==> response@[1 + j] == expected_cmd@[j],
        decreases cmd_len - i,
    {
        if response[1 + i] != expected_cmd[i] {
            proof {
                let echo = response@.subrange(1, 1 + expected_cmd@.len() as int);
                assert(echo[i as int] == response@[1 + i as int]);
                assert(echo != expected_cmd@);
            }
            return Err(XvisioError::CommandMismatch);
        }
        i += 1;
    }
    assert(response@.subrange(1, 1 + expected_cmd@.len() as int) =~= expected_cmd@);
    Ok(1 + cmd_len)
}

/// Number of bytes of `data` before the first zero byte, or all of them if
/// there is none.
pub open spec fn cstr_len(data: Seq<u8>) -> int
    decreases data.len(),
{
    if data.len() == 0 || data[0] == 0 {
        0
    } else {
        1 + cstr_len(data.drop_first())
    }
}

/// `cstr_len(data)` is the one index up to which no byte is zero and at which
/// a zero byte or the end of `data` stands.
pub proof fn lemma_cstr_len(data: Seq<u8>)
    ensures
        0 <= cstr_len(data) <= data.len(),
        forall|j: int| 0 <= j < cstr_len(data) ==> data[j] != 0,
        cstr_len(data) < data.len() ==> data[cstr_len(data)] == 0,
    decreases data.len(),
{
    if data.len() == 0 || data[0] == 0 {
    } else {
        let rest = data.drop_first();
        lemma_cstr_len(rest);
        assert forall|j: int| 0 <= j < cstr_len(data) implies data[j] != 0 by {
            if j > 0 {
                assert(data[j] == rest[j - 1]);
            }
        }
        assert(cstr_len(data) < data.len() ==> data[cstr_len(data)] == rest[cstr_len(rest)]);
    }
}

/// An index `n` up to which no byte is zero, and at which a zero byte or the
/// end of `data` stands, is `cstr_len(data)`.
pub proof fn lemma_cstr_len_unique(data: Seq<u8>, n: int)
    requires
        0 <= n <= data.len(),
        forall|j: int| 0 <= j < n ==> data[j] != 0,
        n < data.len() ==> data[n] == 0,
    ensures
        cstr_len(data) == n,
{
    lemma_cstr_len(data);
    let m = cstr_len(data);
    if m < n {
        assert(data[m] != 0);
    } else if n < m {
        assert(data[n] != 0);
    }
}

/// Length of the C string at the start of `data`: the number of bytes before
/// the first zero byte.
pub fn cstr_length(data: &[u8]) -> (n: usize)
    ensures
        n == cstr_len(data@),
        n <= data@.len(),
{
    let mut i: usize = 0;
    while i < data.len() && data[i] != 0
        invariant
            i <= data@.len(),
            forall|j: int| 0 <= j < i ==> data@[j] != 0,
        decreases data@.len() - i,
    {
        i += 1;
    }
    proof {
        lemma_cstr_len_unique(data@, i as int);
    }
    i
}

/// The text that `String::from_utf8_lossy` makes of a byte sequence: the
/// bytes decoded as UTF-8, with U+FFFD in place of what is not valid.
pub uninterp spec fn utf8_lossy(bytes: Seq<u8>) -> Seq<char>;

/// Decodes bytes as UTF-8 by `String::from_utf8_lossy` and hands the text out
/// as an owned string. The contract names the text `utf8_lossy` of the bytes,
/// and says that for valid UTF-8 it is the decoded text itself; what stands in
/// for invalid bytes is left to the standard library.
#[verifier::external_body]
fn decode_lossy(bytes: &[u8]) -> (s: String)
    ensures
        s@ == utf8_lossy(bytes@),
        vstd::utf8::valid_utf8(bytes@) ==> s@ == vstd::utf8::decode_utf8(bytes@),
{
    String::from_utf8_lossy(bytes).into_owned()
}

/// Reads the zero-terminated text at the start of `data`: the bytes before
/// the first zero byte (all of them if there is none), decoded as UTF-8. Where
/// those bytes are valid UTF-8 the text is their decoding; where they are not,
/// U+FFFD stands in for the invalid sequences.
pub fn extract_string(data: &[u8]) -> (s: String)
    ensures
        s@ == utf8_lossy(data@.subrange(0, cstr_len(data@))),
        vstd::utf8::valid_utf8(data@.subrange(0, cstr_len(data@))) ==> s@
            == vstd::utf8::decode_utf8(data@.subrange(0, cstr_len(data@))),
{
    let end: usize = cstr_length(data);
    decode_lossy(vstd::slice::slice_subrange(data, 0, end))
}

/// The feature bits of a payload: its first four bytes as a little-endian
/// word, or nothing if it is shorter than four bytes.
pub open spec fn payload_features(payload: Seq<u8>) -> u32 {
    if payload.len() < 4 {
        0u32
    } else {
        (le_u32(payload, 0) as u32) & crate::types::FEATURE_MASK
    }
}

/// Reads the feature bitmap from a response payload. A payload shorter than
/// four bytes gives the empty bitmap; bits without a meaning are dropped.
pub fn parse_features(payload: &[u8]) -> (f: Features)
    ensures
        f@ == payload_features(payload@),
        f.wf(),
{
    if payload.len() < 4 {
        return Features::empty();
    }
    Features::from_bits_truncate(read_u32(payload, 0))
}

/// A command frame whose prefix is turned into the device's passes for a
/// response to that command: for every opcode `op` of at most 62 bytes,
/// `validate_response` accepts `build_command(op)` with byte 0 set to 0x01,
/// and the payload starts right after the echo.
pub proof fn lemma_flipped_command_validates(op: Seq<u8>)
    requires
        op.len() <= 62,
    ensures
        validated(command_frame(op).update(0, 0x01u8), op) == Ok::<usize, XvisioError>(
            (1 + op.len()) as usize,
        ),
{
    let frame = command_frame(op).update(0, 0x01u8);
    assert(frame.subrange(1, 1 + op.len() as int) =~= op);
}

} // verus!
