//! Finding the sensor among the HID devices, reading its identity, and
//! reopening it after it re-enumerated.

use crate::error::XvisioError;
use crate::protocol::{
    cstr_len, extract_string, parse_features, payload_features, utf8_lossy, validate_response,
    validated, CMD_FEATURES, CMD_UUID, CMD_VERSION, PID, VID,
};
use crate::types::{DeviceInfo, Features};
use vstd::prelude::*;

verus! {

/// Whether a HID device with these identifiers is the sensor's command
/// interface: the vendor and product are the sensor's, and the interface is
/// number 3, or -1 where the platform shows the device's one HID interface
/// without a number.
pub open spec fn spec_is_xr50_hid(vendor_id: u16, product_id: u16, interface_number: i32) -> bool {
    vendor_id == 0x040E && product_id == 0xF408 && (interface_number == 3 || interface_number
        == -1)
}

/// Decides whether an enumerated HID device is the sensor's command
/// interface.
pub fn is_xr50_hid(vendor_id: u16, product_id: u16, interface_number: i32) -> (r: bool)
    ensures
        r == spec_is_xr50_hid(vendor_id, product_id, interface_number),
{
    vendor_id == VID && product_id == PID && (interface_number == 3 || interface_number == -1)
}

/// What the enumeration says of one HID device.
#[derive(Debug, Clone)]
pub struct HidEntry {
    pub vendor_id: u16,
    pub product_id: u16,
    pub interface_number: i32,
    /// The path by which the device is opened.
    pub path: String,
}

impl HidEntry {
    /// Whether this entry is the sensor's command interface.
    pub open spec fn is_sensor(self) -> bool {
        spec_is_xr50_hid(self.vendor_id, self.product_id, self.interface_number)
    }

    /// Whether this entry is the sensor's command interface and, if a path is
    /// asked for, has that path.
    pub open spec fn is_wanted(self, bus_id: Option<String>) -> bool {
        self.is_sensor() && (bus_id matches Some(path) ==> self.path@ == path@)
    }
}

/// Picks the device to open: the first entry that is the sensor's command
/// interface and, if `bus_id` is given, has that path. Fails with
/// `DeviceNotFound` when there is none.
pub fn find_device(entries: &Vec<HidEntry>, bus_id: &Option<String>) -> (r: Result<
    usize,
    XvisioError,
>)
    ensures
        match r {
            Ok(i) => {
                &&& i < entries@.len()
                &&& entries@[i as int].is_wanted(*bus_id)
                &&& forall|j: int| 0 <= j < i ==> !(#[trigger] entries@[j]).is_wanted(*bus_id)
            },
            Err(e) => {
                &&& e == XvisioError::DeviceNotFound
                &&& forall|j: int| 0 <= j < entries@.len() ==> !(#[trigger] entries@[j]).is_wanted(*bus_id)
            },
        },
{
    let mut i: usize = 0;
    while i < entries.len()
        invariant
            i <= entries@.len(),
            forall|j: int| 0 <= j < i ==> !(#[trigger] entries@[j]).is_wanted(*bus_id),
        decreases entries@.len() - i,
    {
        let entry: &HidEntry = &entries[i];
        if is_xr50_hid(entry.vendor_id, entry.product_id, entry.interface_number) {
            let path_ok: bool = match bus_id {
                Some(path) => entry.path == *path,
                None => true,
            };
            if path_ok {
                return Ok(i);
            }
        }
        i += 1;
    }
    Err(XvisioError::DeviceNotFound)
}

/// Whether a message about attempt number `attempt` is written to the log:
/// each of the first five, and after them every one that is a multiple of
/// `period`.
pub open spec fn spec_should_log(attempt: u32, period: u32) -> bool {
    attempt <= 5 || (period > 0 && attempt % period == 0)
}

/// Thins out repeated log messages.
pub fn should_log(attempt: u32, period: u32) -> (r: bool)
    ensures
        r == spec_should_log(attempt, period),
{
    attempt <= 5 || (period > 0 && attempt % period == 0)
}

/// How one try to open the HID path went.
#[derive(Debug, Clone, Copy, PartialEq, Eq, Structural)]
pub enum ProbeOutcome {
    /// The device is open.
    Opened,
    /// The sensor is not among the HID devices.
    Missing,
    /// The sensor is there but could not be opened.
    OpenFailed,
    /// The HID layer itself could not be set up.
    ApiFailed,
}

/// What follows a try to open the HID path.
#[derive(Debug, Clone, Copy, PartialEq, Eq, Structural)]
pub enum ReopenVerdict {
    /// The transport is back. `announce` says whether that is worth a log
    /// line, which it is when it took more than one try.
    Ready { announce: bool },
    /// The HID layer failed: reopening fails with its error.
    ApiFailed,
    /// Pause, then make try number `attempt`. `log` says whether the failed
    /// try is worth a log line.
    Again { attempt: u32, log: bool },
    /// Pause, then fail: no try is left.
    Exhausted { log: bool },
}

/// The verdict on try number `attempt` of `attempts`.
pub open spec fn spec_reopen_step(attempt: u32, attempts: u32, outcome: ProbeOutcome) -> ReopenVerdict {
    match outcome {
        ProbeOutcome::Opened => ReopenVerdict::Ready { announce: attempt > 1 },
        ProbeOutcome::ApiFailed => ReopenVerdict::ApiFailed,
        _ => if attempt < attempts {
            ReopenVerdict::Again {
                attempt: (attempt + 1) as u32,
                log: spec_should_log(attempt, 10),
            }
        } else {
            ReopenVerdict::Exhausted { log: spec_should_log(attempt, 10) }
        },
    }
}

/// Decides what follows try number `attempt` (counted from 1) to reopen the
/// HID path, of `attempts` tries in all.
pub fn reopen_step(attempt: u32, attempts: u32, outcome: ProbeOutcome) -> (v: ReopenVerdict)
    ensures
        v == spec_reopen_step(attempt, attempts, outcome),
        v matches ReopenVerdict::Again { attempt: next, .. } ==> next == attempt + 1 && next
            <= attempts,
{
    match outcome {
        ProbeOutcome::Opened => ReopenVerdict::Ready { announce: attempt > 1 },
        ProbeOutcome::ApiFailed => ReopenVerdict::ApiFailed,
        _ => {
            let log: bool = should_log(attempt, 10);
            if attempt < attempts {
                ReopenVerdict::Again { attempt: attempt + 1, log }
            } else {
                ReopenVerdict::Exhausted { log }
            }
        },
    }
}

/// The response of `len` bytes that an input-report read left in `buffer`,
/// or the error that its first byte calls for.
pub open spec fn transaction_result(buffer: Seq<u8>, len: int) -> Result<Seq<u8>, XvisioError> {
    if len == 0 {
        Err(XvisioError::InvalidResponse(0))
    } else if buffer[0] != 0x01 {
        Err(XvisioError::InvalidResponse(buffer[0]))
    } else {
        Ok(buffer.subrange(0, len))
    }
}

/// Ends a request/response exchange: takes the `len` bytes that the read left
/// in `buffer` as the response and checks that it begins with the device
/// prefix 0x01. An empty response fails with `InvalidResponse(0)`, another
/// first byte with `InvalidResponse` of that byte.
pub fn finish_transaction(buffer: &[u8], len: usize) -> (r: Result<Vec<u8>, XvisioError>)
    requires
        len <= buffer@.len(),
    ensures
        match (r, transaction_result(buffer@, len as int)) {
            (Ok(response), Ok(expected)) => response@ == expected,
            (Err(e), Err(expected)) => e == expected,
            _ => false,
        },
{
    if len == 0 {
        return Err(XvisioError::InvalidResponse(0));
    }
    if buffer[0] != 0x01 {
        return Err(XvisioError::InvalidResponse(buffer[0]));
    }
    Ok(vstd::slice::slice_to_vec(vstd::slice::slice_subrange(buffer, 0, len)))
}

/// The bytes of the text in the payload of `response` to the command
/// `opcode`: what stands between the echo and the first zero byte.
pub open spec fn response_text_bytes(response: Seq<u8>, opcode: Seq<u8>) -> Seq<u8> {
    let payload = response.subrange(1 + opcode.len() as int, response.len() as int);
    payload.subrange(0, cstr_len(payload))
}

/// The text in the payload of `response` to the command `opcode`.
pub open spec fn response_text(response: Seq<u8>, opcode: Seq<u8>) -> Seq<char> {
    utf8_lossy(response_text_bytes(response, opcode))
}

/// Whether `text` is what the payload of `response` to the command `opcode`
/// reads as: the lossy decoding of its bytes, which for valid UTF-8 is their
/// decoding.
pub open spec fn is_response_text(text: Seq<char>, response: Seq<u8>, opcode: Seq<u8>) -> bool {
    &&& text == response_text(response, opcode)
    &&& vstd::utf8::valid_utf8(response_text_bytes(response, opcode)) ==> text
        == vstd::utf8::decode_utf8(response_text_bytes(response, opcode))
}

fn decode_text(response: &[u8], opcode: &[u8]) -> (r: Result<String, XvisioError>)
    ensures
        match r {
            Ok(text) => validated(response@, opcode@) is Ok && is_response_text(
                text@,
                response@,
                opcode@,
            ),
            Err(e) => validated(response@, opcode@) == Err::<usize, XvisioError>(e),
        },
{
    match validate_response(response, opcode) {
        Ok(offset) => Ok(
            extract_string(vstd::slice::slice_subrange(response, offset, response.len())),
        ),
        Err(e) => Err(e),
    }
}

/// Reads the UUID from the response to the UUID query: the text after the
/// echo, up to the first zero byte. Fails as `validate_response` does if the
/// response is not one to that query.
pub fn decode_uuid(response: &[u8]) -> (r: Result<String, XvisioError>)
    ensures
        match r {
            Ok(text) => validated(response@, CMD_UUID@) is Ok && is_response_text(
                text@,
                response@,
                CMD_UUID@,
            ),
            Err(e) => validated(response@, CMD_UUID@) == Err::<usize, XvisioError>(e),
        },
{
    decode_text(response, CMD_UUID.as_slice())
}

/// Reads the firmware version from the response to the version query: the
/// text after the echo, up to the first zero byte. Fails as
/// `validate_response` does if the response is not one to that query.
pub fn decode_version(response: &[u8]) -> (r: Result<String, XvisioError>)
    ensures
        match r {
            Ok(text) => validated(response@, CMD_VERSION@) is Ok && is_response_text(
                text@,
                response@,
                CMD_VERSION@,
            ),
            Err(e) => validated(response@, CMD_VERSION@) == Err::<usize, XvisioError>(e),
        },
{
    decode_text(response, CMD_VERSION.as_slice())
}

/// Reads the feature bitmap from the response to the features query. Fails as
/// `validate_response` does if the response is not one to that query.
pub fn decode_features(response: &[u8]) -> (r: Result<Features, XvisioError>)
    ensures
        match r {
            Ok(f) => validated(response@, CMD_FEATURES@) is Ok && f.wf() && f@
                == payload_features(response@.subrange(4, response@.len() as int)),
            Err(e) => validated(response@, CMD_FEATURES@) == Err::<usize, XvisioError>(e),
        },
{
    match validate_response(response, CMD_FEATURES.as_slice()) {
        Ok(offset) => Ok(
            parse_features(vstd::slice::slice_subrange(response, offset, response.len())),
        ),
        Err(e) => Err(e),
    }
}

/// The infos among `results`, in their order.
pub open spec fn successes(results: Seq<Result<DeviceInfo, XvisioError>>) -> Seq<DeviceInfo>
    decreases results.len(),
{
    if results.len() == 0 {
        Seq::<DeviceInfo>::empty()
    } else {
        let before = successes(results.drop_last());
        match results.last() {
            Ok(info) => before.push(info),
            Err(_) => before,
        }
    }
}

/// Lists the connected sensors from the outcomes of querying each candidate:
/// a device whose query failed is left out, the others keep their order. One
/// bad device never fails the listing.
pub fn list_devices(results: Vec<Result<DeviceInfo, XvisioError>>) -> (devices: Vec<DeviceInfo>)
    ensures
        devices@ == successes(results@),
{
    let ghost all = results@;
    let mut results = results;
    let mut reversed: Vec<DeviceInfo> = Vec::new();
    let mut devices: Vec<DeviceInfo> = Vec::new();
    // Results are moved out from the back, so the infos are gathered in
    // reverse and turned round at the end.
    while results.len() > 0
        invariant
            results@.len() <= all.len(),
            results@ == all.subrange(0, results@.len() as int),
            successes(all) == successes(results@) + reversed@.reverse(),
        decreases results@.len(),
    {
        let ghost before = results@;
        let last = results.pop();
        assert(results@ == before.drop_last());
        assert(results@ =~= all.subrange(0, results@.len() as int));
        match last {
            Some(Ok(info)) => {
                let ghost old_rev = reversed@;
                reversed.push(info);
                assert(reversed@.reverse() =~= seq![info] + old_rev.reverse());
                assert(successes(before) == successes(results@).push(info));
                assert(successes(results@).push(info) + old_rev.reverse() =~= successes(results@)
                    + (seq![info] + old_rev.reverse()));
            },
            _ => {},
        }
    }
    assert(successes(results@) =~= Seq::<DeviceInfo>::empty());
    while reversed.len() > 0
        invariant
            successes(all) == devices@ + reversed@.reverse(),
        decreases reversed@.len(),
    {
        let ghost before = reversed@;
        let ghost done = devices@;
        let last = reversed.pop();
        match last {
            Some(info) => {
                devices.push(info);
                assert(before.reverse() =~= seq![info] + reversed@.reverse());
                assert(done + before.reverse() =~= devices@ + reversed@.reverse());
            },
            None => {},
        }
    }
    assert(reversed@.reverse() =~= Seq::<DeviceInfo>::empty());
    assert(devices@ + Seq::<DeviceInfo>::empty() =~= devices@);
    devices
}

} // verus!
