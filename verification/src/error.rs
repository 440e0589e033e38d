//! The ways in which talking to the sensor can fail.

use vstd::prelude::*;

verus! {

/// Errors of the driver.
#[derive(Debug, Clone, PartialEq, Eq)]
pub enum XvisioError {
    /// The transport layer failed (open, claim, read or write); the text is
    /// what the transport said.
    Hid(String),
    /// No device with the sensor's vendor and product identifiers was found.
    DeviceNotFound,
    /// A step of the start-up sequence failed for good.
    HidCommand(String),
    /// A response did not begin with the device prefix 0x01; the byte that
    /// stood there is attached, or 0 for an empty response.
    InvalidResponse(u8),
    /// A response did not echo the opcode that was sent.
    CommandMismatch,
    /// The reader has exited and no sample is left.
    StreamStopped,
    /// No sample arrived in the time allowed.
    Timeout,
    /// The channel between reader and consumer is gone.
    ChannelDisconnected,
}

/// An ASCII capital letter turned into its small letter; any other byte as
/// it is.
pub open spec fn ascii_lower(b: u8) -> u8 {
    if 0x41 <= b <= 0x5A {
        (b + 32) as u8
    } else {
        b
    }
}

/// Whether `pattern` stands in `text` at offset `at`, capital ASCII letters
/// of `text` counting as small ones.
pub open spec fn matches_at(text: Seq<u8>, at: int, pattern: Seq<u8>) -> bool {
    &&& 0 <= at
    &&& at + pattern.len() <= text.len()
    &&& forall|j: int| 0 <= j < pattern.len() ==> ascii_lower(#[trigger] text[at + j]) == pattern[j]
}

/// Whether `pattern` stands somewhere in `text`, capital ASCII letters of
/// `text` counting as small ones.
pub open spec fn mentions(text: Seq<u8>, pattern: Seq<u8>) -> bool {
    exists|at: int| matches_at(text, at, pattern)
}

/// The bytes of "disconnected".
pub open spec fn word_disconnected() -> Seq<u8> {
    seq![0x64u8, 0x69, 0x73, 0x63, 0x6F, 0x6E, 0x6E, 0x65, 0x63, 0x74, 0x65, 0x64]
}

/// The bytes of "no such device".
pub open spec fn word_no_such_device() -> Seq<u8> {
    seq![0x6Eu8, 0x6F, 0x20, 0x73, 0x75, 0x63, 0x68, 0x20, 0x64, 0x65, 0x76, 0x69, 0x63, 0x65]
}

/// The bytes of "not found".
pub open spec fn word_not_found() -> Seq<u8> {
    seq![0x6Eu8, 0x6F, 0x74, 0x20, 0x66, 0x6F, 0x75, 0x6E, 0x64]
}

/// Whether a transport message says that the device went away: it holds
/// "disconnected", "no such device" or "not found", in any mix of capital and
/// small letters.
pub open spec fn text_says_gone(text: Seq<u8>) -> bool {
    mentions(text, word_disconnected()) || mentions(text, word_no_such_device()) || mentions(
        text,
        word_not_found(),
    )
}

/// Whether an error says that the device went away, so that reopening the
/// transport and trying again is worth it.
pub open spec fn says_gone(e: XvisioError) -> bool {
    match e {
        XvisioError::Hid(m) => text_says_gone(vstd::utf8::encode_utf8(m@)),
        XvisioError::HidCommand(m) => text_says_gone(vstd::utf8::encode_utf8(m@)),
        XvisioError::DeviceNotFound => true,
        XvisioError::ChannelDisconnected => true,
        _ => false,
    }
}

fn lower(b: u8) -> (l: u8)
    ensures
        l == ascii_lower(b),
{
    if 0x41 <= b && b <= 0x5A {
        b + 32
    } else {
        b
    }
}

fn stands_at(text: &[u8], at: usize, pattern: &[u8]) -> (r: bool)
    requires
        at + pattern@.len() <= text@.len(),
    ensures
        r == matches_at(text@, at as int, pattern@),
{
    let text_len: usize = text.len();
    let mut j: usize = 0;
    while j < pattern.len()
        invariant
            j <= pattern@.len(),
            at + pattern@.len() <= text@.len() == text_len,
            forall|k: int| 0 <= k < j ==> ascii_lower(#[trigger] text@[at + k]) == pattern@[k],
        decreases pattern@.len() - j,
    {
        if lower(text[at + j]) != pattern[j] {
            return false;
        }
        j += 1;
    }
    true
}

/// Searches `text` for `pattern`, capital ASCII letters of `text` counting as
/// small ones.
pub fn contains_lowered(text: &[u8], pattern: &[u8]) -> (r: bool)
    ensures
        r == mentions(text@, pattern@),
{
    if pattern.len() > text.len() {
        return false;
    }
    if pattern.len() == 0 {
        assert(matches_at(text@, 0, pattern@));
        return true;
    }
    let last: usize = text.len() - pattern.len();
    let mut at: usize = 0;
    while at <= last
        invariant
            at <= last + 1,
            last + pattern@.len() == text@.len() <= usize::MAX,
            pattern@.len() > 0,
            forall|k: int| 0 <= k < at ==> !matches_at(text@, k, pattern@),
        decreases last + 1 - at,
    {
        if stands_at(text, at, pattern) {
            return true;
        }
        at += 1;
    }
    false
}

/// Decides whether a transport message says that the device went away.
pub fn message_says_gone(text: &[u8]) -> (r: bool)
    ensures
        r == text_says_gone(text@),
{
    let disconnected: [u8; 12] = [
        0x64,
        0x69,
        0x73,
        0x63,
        0x6F,
        0x6E,
        0x6E,
        0x65,
        0x63,
        0x74,
        0x65,
        0x64,
    ];
    let no_such_device: [u8; 14] = [
        0x6E,
        0x6F,
        0x20,
        0x73,
        0x75,
        0x63,
        0x68,
        0x20,
        0x64,
        0x65,
        0x76,
        0x69,
        0x63,
        0x65,
    ];
    let not_found: [u8; 9] = [0x6E, 0x6F, 0x74, 0x20, 0x66, 0x6F, 0x75, 0x6E, 0x64];
    assert(disconnected@ =~= word_disconnected());
    assert(no_such_device@ =~= word_no_such_device());
    assert(not_found@ =~= word_not_found());
    contains_lowered(text, disconnected.as_slice()) || contains_lowered(
        text,
        no_such_device.as_slice(),
    ) || contains_lowered(text, not_found.as_slice())
}

impl XvisioError {
    /// Decides whether this error says that the device went away.
    pub fn is_reconnect_error(&self) -> (r: bool)
        ensures
            r == says_gone(*self),
    {
        match self {
            XvisioError::Hid(m) => message_says_gone(m.as_str().as_bytes()),
            XvisioError::HidCommand(m) => message_says_gone(m.as_str().as_bytes()),
            XvisioError::DeviceNotFound => true,
            XvisioError::ChannelDisconnected => true,
            _ => false,
        }
    }
}

} // verus!
