//! Options that shape the start-up sequence and the decoding of poses.

use crate::pose::RotationParseMode;
use crate::types::SlamMode;
use vstd::prelude::*;

verus! {

/// Which transport carries the start-up sequence on macOS.
#[derive(Debug, Clone, Copy, PartialEq, Eq, Structural)]
pub enum MacBackend {
    /// Control and interrupt transfers on the raw USB device.
    RawUsb,
    /// Feature reports through the HID layer, with retries.
    FeatureReport,
}

/// The transport and sequence that a session starts the stream with.
#[derive(Debug, Clone, Copy, PartialEq, Eq, Structural)]
pub enum StartupStrategy {
    /// Feature reports, no recovery: the device stays put while it is
    /// configured.
    Standard,
    /// Feature reports, reopening the HID path and retrying when the device
    /// re-enumerates.
    FeatureReportRetry,
    /// Raw USB, with warm-up cycles that keep the kernel's HID driver off the
    /// device.
    RawUsb,
}

/// The options of a session, each with its default.
#[derive(Debug, Clone, Copy, PartialEq, Eq, Structural)]
pub struct StartupConfig {
    /// Transport on macOS.
    pub mac_backend: MacBackend,
    /// Third parameter byte of the configure command.
    pub uvc_mode: u8,
    /// Second parameter byte of the edge-stream command.
    pub rotation_enabled: bool,
    /// Claim interfaces 3, 1, 2, 0 instead of interface 3 alone.
    pub claim_all_interfaces: bool,
    /// Number of warm-up cycles before the main sequence.
    pub precondition_cycles: u8,
    /// Send the two stereo-camera commands before the edge-stream command.
    pub enable_stereo_init: bool,
    /// Drop and reopen the transport after the configure command.
    pub reopen_after_config: bool,
    /// Drop and reopen the transport after the edge-stream command.
    pub reopen_after_edge_start: bool,
    /// Allow one detach of the kernel driver when a claim is denied.
    pub allow_detach_fallback: bool,
    /// How the rotation payload of a pose packet is read.
    pub rotation_parse: RotationParseMode,
    /// SLAM operating mode.
    pub slam_mode: SlamMode,
}

impl StartupConfig {
    /// The defaults: raw USB on macOS, UVC mode 0, rotation enabled, interface
    /// 3 alone, no warm-up cycle, no stereo commands, reopen after configure
    /// but not after edge-stream, detach fallback allowed, rotation read
    /// automatically, edge mode.
    pub open spec fn spec_default() -> StartupConfig {
        StartupConfig {
            mac_backend: MacBackend::RawUsb,
            uvc_mode: 0,
            rotation_enabled: true,
            claim_all_interfaces: false,
            precondition_cycles: 0,
            enable_stereo_init: false,
            reopen_after_config: true,
            reopen_after_edge_start: false,
            allow_detach_fallback: true,
            rotation_parse: RotationParseMode::Auto,
            slam_mode: SlamMode::Edge,
        }
    }

    /// The configuration with every option at its default.
    pub fn new() -> (c: StartupConfig)
        ensures
            c == Self::spec_default(),
    {
        StartupConfig {
            mac_backend: MacBackend::RawUsb,
            uvc_mode: 0,
            rotation_enabled: true,
            claim_all_interfaces: false,
            precondition_cycles: 0,
            enable_stereo_init: false,
            reopen_after_config: true,
            reopen_after_edge_start: false,
            allow_detach_fallback: true,
            rotation_parse: RotationParseMode::Auto,
            slam_mode: SlamMode::Edge,
        }
    }

    /// The strategy for this configuration: off macOS the standard sequence,
    /// on macOS the one that `mac_backend` names.
    pub open spec fn spec_strategy(self, macos: bool) -> StartupStrategy {
        if !macos {
            StartupStrategy::Standard
        } else if self.mac_backend == MacBackend::FeatureReport {
            StartupStrategy::FeatureReportRetry
        } else {
            StartupStrategy::RawUsb
        }
    }

    /// Picks the start-up strategy for the platform.
    pub fn strategy(&self, macos: bool) -> (s: StartupStrategy)
        ensures
            s == self.spec_strategy(macos),
    {
        if !macos {
            StartupStrategy::Standard
        } else {
            match self.mac_backend {
                MacBackend::FeatureReport => StartupStrategy::FeatureReportRetry,
                MacBackend::RawUsb => StartupStrategy::RawUsb,
            }
        }
    }
}

/// Length in bytes of the white-space character whose UTF-8 encoding stands
/// at `s[at..]`, or 0 if none stands there. White space is what Unicode marks
/// as such: U+0009 to U+000D, U+0020, U+0085, U+00A0, U+1680, U+2000 to
/// U+200A, U+2028, U+2029, U+202F, U+205F and U+3000.
pub open spec fn space_at(s: Seq<u8>, at: int) -> int {
    if at < 0 || at >= s.len() {
        0
    } else if (0x09 <= s[at] <= 0x0D) || s[at] == 0x20 {
        1
    } else if at + 1 < s.len() && s[at] == 0xC2 && (s[at + 1] == 0x85 || s[at + 1] == 0xA0) {
        2
    } else if at + 2 < s.len() && is_wide_space(s[at], s[at + 1], s[at + 2]) {
        3
    } else {
        0
    }
}

/// Whether three bytes encode one of the white-space characters from U+1680
/// on.
pub open spec fn is_wide_space(a: u8, b: u8, c: u8) -> bool {
    ||| (a == 0xE1 && b == 0x9A && c == 0x80)
    ||| (a == 0xE2 && b == 0x80 && (0x80 <= c <= 0x8A || c == 0xA8 || c == 0xA9 || c == 0xAF))
    ||| (a == 0xE2 && b == 0x81 && c == 0x9F)
    ||| (a == 0xE3 && b == 0x80 && c == 0x80)
}

/// Length in bytes of the white-space character whose encoding ends right
/// before `s[end]`, or 0 if none ends there.
pub open spec fn space_before(s: Seq<u8>, end: int) -> int {
    if end >= 1 && space_at(s.subrange(0, end), end - 1) == 1 {
        1
    } else if end >= 2 && space_at(s.subrange(0, end), end - 2) == 2 {
        2
    } else if end >= 3 && space_at(s.subrange(0, end), end - 3) == 3 {
        3
    } else {
        0
    }
}

/// Index of the first byte of `s` at or after `from` at which no white space
/// stands.
pub open spec fn text_start(s: Seq<u8>, from: int) -> int
    decreases s.len() - from,
{
    if space_at(s, from) > 0 {
        text_start(s, from + space_at(s, from))
    } else {
        from
    }
}

/// Index one past the last byte of `s[start..end]` before which no white
/// space ends.
pub open spec fn text_end(s: Seq<u8>, start: int, end: int) -> int
    decreases end,
{
    if end > start && space_before(s, end) > 0 && end - space_before(s, end) >= start {
        text_end(s, start, end - space_before(s, end))
    } else {
        end
    }
}

/// `s` without the white space at its start and at its end, every capital
/// ASCII letter turned into its small letter.
pub open spec fn normalized_value(s: Seq<u8>) -> Seq<u8> {
    let start = text_start(s, 0);
    let end = text_end(s, start, s.len() as int);
    s.subrange(start, end).map_values(|b: u8| crate::error::ascii_lower(b))
}

fn space_len_at(s: &[u8], at: usize) -> (n: usize)
    ensures
        n == space_at(s@, at as int),
        n <= 3,
        at + n <= s@.len() || n == 0,
{
    let len: usize = s.len();
    if at >= len {
        return 0;
    }
    let a: u8 = s[at];
    if (0x09 <= a && a <= 0x0D) || a == 0x20 {
        return 1;
    }
    if len - at >= 2 && a == 0xC2 && (s[at + 1] == 0x85 || s[at + 1] == 0xA0) {
        return 2;
    }
    if len - at >= 3 {
        let b: u8 = s[at + 1];
        let c: u8 = s[at + 2];
        if (a == 0xE1 && b == 0x9A && c == 0x80) || (a == 0xE2 && b == 0x80 && ((0x80 <= c && c
            <= 0x8A) || c == 0xA8 || c == 0xA9 || c == 0xAF)) || (a == 0xE2 && b == 0x81 && c
            == 0x9F) || (a == 0xE3 && b == 0x80 && c == 0x80) {
            return 3;
        }
    }
    0
}

fn space_len_before(s: &[u8], end: usize) -> (n: usize)
    requires
        end <= s@.len(),
    ensures
        n == space_before(s@, end as int),
        n <= 3,
        n <= end,
{
    let head: &[u8] = vstd::slice::slice_subrange(s, 0, end);
    if end >= 1 && space_len_at(head, end - 1) == 1 {
        1
    } else if end >= 2 && space_len_at(head, end - 2) == 2 {
        2
    } else if end >= 3 && space_len_at(head, end - 3) == 3 {
        3
    } else {
        0
    }
}

/// Strips white space from both ends of `value` and turns capital ASCII
/// letters into small ones.
pub fn normalize_value(value: &[u8]) -> (r: Vec<u8>)
    ensures
        r@ == normalized_value(value@),
{
    let len: usize = value.len();
    let mut start: usize = 0;
    loop
        invariant
            start <= len == value@.len(),
            text_start(value@, 0) == text_start(value@, start as int),
        ensures
            start <= len,
            text_start(value@, 0) == start,
        decreases len - start,
    {
        let n: usize = space_len_at(value, start);
        if n == 0 {
            break ;
        }
        start += n;
    }
    let mut end: usize = len;
    loop
        invariant
            start <= end <= len == value@.len(),
            text_end(value@, start as int, len as int) == text_end(value@, start as int, end as int),
        ensures
            start <= end <= len,
            text_end(value@, start as int, len as int) == end,
        decreases end,
    {
        if end <= start {
            break ;
        }
        let n: usize = space_len_before(value, end);
        if n == 0 || end - n < start {
            break ;
        }
        end -= n;
    }
    let mut out: Vec<u8> = Vec::new();
    let mut i: usize = start;
    while i < end
        invariant
            start <= i <= end <= len == value@.len(),
            out@ == value@.subrange(start as int, i as int).map_values(
                |b: u8| crate::error::ascii_lower(b),
            ),
        decreases end - i,
    {
        let b: u8 = value[i];
        let l: u8 = if 0x41 <= b && b <= 0x5A {
            b + 32
        } else {
            b
        };
        out.push(l);
        assert(out@ =~= value@.subrange(start as int, i + 1).map_values(
            |b: u8| crate::error::ascii_lower(b),
        ));
        i += 1;
    }
    out
}

/// The switch that a value stands for: "1", "true", "yes" and "on" for on,
/// "0", "false", "no" and "off" for off, in any mix of capital and small
/// letters and with white space around; nothing for any other text.
pub open spec fn flag_value(s: Seq<u8>) -> Option<bool> {
    let t = normalized_value(s);
    if t == seq![0x31u8] || t == seq![0x74u8, 0x72, 0x75, 0x65] || t == seq![0x79u8, 0x65, 0x73]
        || t == seq![0x6Fu8, 0x6E] {
        Some(true)
    } else if t == seq![0x30u8] || t == seq![0x66u8, 0x61, 0x6C, 0x73, 0x65] || t == seq![
        0x6Eu8,
        0x6F,
    ] || t == seq![0x6Fu8, 0x66, 0x66] {
        Some(false)
    } else {
        None
    }
}

fn is_word(text: &Vec<u8>, word: &[u8]) -> (r: bool)
    ensures
        r == (text@ == word@),
{
    if text.len() != word.len() {
        return false;
    }
    let mut i: usize = 0;
    while i < word.len()
        invariant
            i <= word@.len() == text@.len(),
            forall|j: int| 0 <= j < i ==> text@[j] == word@[j],
        decreases word@.len() - i,
    {
        if text[i] != word[i] {
            return false;
        }
        i += 1;
    }
    assert(text@ =~= word@);
    true
}

/// Reads a switch from the text of an option.
pub fn parse_flag(value: &[u8]) -> (r: Option<bool>)
    ensures
        r == flag_value(value@),
{
    let t: Vec<u8> = normalize_value(value);
    let one: [u8; 1] = [0x31];
    let yes_true: [u8; 4] = [0x74, 0x72, 0x75, 0x65];
    let yes: [u8; 3] = [0x79, 0x65, 0x73];
    let on: [u8; 2] = [0x6F, 0x6E];
    let zero: [u8; 1] = [0x30];
    let no_false: [u8; 5] = [0x66, 0x61, 0x6C, 0x73, 0x65];
    let no: [u8; 2] = [0x6E, 0x6F];
    let off: [u8; 3] = [0x6F, 0x66, 0x66];
    assert(one@ =~= seq![0x31u8] && yes_true@ =~= seq![0x74u8, 0x72, 0x75, 0x65]);
    assert(yes@ =~= seq![0x79u8, 0x65, 0x73] && on@ =~= seq![0x6Fu8, 0x6E]);
    assert(zero@ =~= seq![0x30u8] && no_false@ =~= seq![0x66u8, 0x61, 0x6C, 0x73, 0x65]);
    assert(no@ =~= seq![0x6Eu8, 0x6F] && off@ =~= seq![0x6Fu8, 0x66, 0x66]);
    if is_word(&t, one.as_slice()) || is_word(&t, yes_true.as_slice()) || is_word(
        &t,
        yes.as_slice(),
    ) || is_word(&t, on.as_slice()) {
        Some(true)
    } else if is_word(&t, zero.as_slice()) || is_word(&t, no_false.as_slice()) || is_word(
        &t,
        no.as_slice(),
    ) || is_word(&t, off.as_slice()) {
        Some(false)
    } else {
        None
    }
}

/// Whether every byte of `d` is an ASCII digit.
pub open spec fn all_digits(d: Seq<u8>) -> bool {
    forall|i: int| 0 <= i < d.len() ==> 0x30 <= #[trigger] d[i] <= 0x39
}

/// The number that the decimal digits `d` write.
pub open spec fn digits_value(d: Seq<u8>) -> int
    decreases d.len(),
{
    if d.len() == 0 {
        0
    } else {
        10 * digits_value(d.drop_last()) + (d.last() - 0x30)
    }
}

/// The byte that a value stands for: decimal digits, at least one, with or
/// without a plus sign before them and white space around, that write a
/// number up to 255; nothing for any other text.
pub open spec fn byte_value(s: Seq<u8>) -> Option<u8> {
    let t = normalized_value(s);
    let d = if t.len() > 0 && t[0] == 0x2B {
        t.subrange(1, t.len() as int)
    } else {
        t
    };
    if d.len() > 0 && all_digits(d) && digits_value(d) <= 255 {
        Some(digits_value(d) as u8)
    } else {
        None
    }
}

proof fn lemma_digits_grow(d: Seq<u8>, i: int)
    requires
        all_digits(d),
        0 <= i <= d.len(),
    ensures
        0 <= digits_value(d.subrange(0, i)) <= digits_value(d),
    decreases d.len() - i,
{
    if i == d.len() {
        assert(d.subrange(0, i) =~= d);
        lemma_digits_nonnegative(d);
    } else {
        lemma_digits_grow(d, i + 1);
        let longer = d.subrange(0, i + 1);
        assert(longer.drop_last() =~= d.subrange(0, i));
        assert(longer.last() == d[i]);
        lemma_digits_nonnegative(d.subrange(0, i));
    }
}

proof fn lemma_digits_nonnegative(d: Seq<u8>)
    requires
        all_digits(d),
    ensures
        digits_value(d) >= 0,
    decreases d.len(),
{
    if d.len() > 0 {
        lemma_digits_nonnegative(d.drop_last());
    }
}

/// Reads a byte from the text of an option.
pub fn parse_byte(value: &[u8]) -> (r: Option<u8>)
    ensures
        r == byte_value(value@),
{
    let t: Vec<u8> = normalize_value(value);
    let first: usize = if t.len() > 0 && t[0] == 0x2B {
        1
    } else {
        0
    };
    let ghost d = if t@.len() > 0 && t@[0] == 0x2B {
        t@.subrange(1, t@.len() as int)
    } else {
        t@
    };
    assert(d =~= t@.subrange(first as int, t@.len() as int));
    if first >= t.len() {
        return None;
    }
    let mut acc: u32 = 0;
    let mut i: usize = first;
    assert(d.subrange(0, 0) =~= Seq::<u8>::empty());
    while i < t.len()
        invariant
            first <= i <= t@.len(),
            first < t@.len(),
            t@ == normalized_value(value@),
            first == (if t@.len() > 0 && t@[0] == 0x2B {
                1int
            } else {
                0int
            }),
            d == t@.subrange(first as int, t@.len() as int),
            d == (if t@.len() > 0 && t@[0] == 0x2B {
                t@.subrange(1, t@.len() as int)
            } else {
                t@
            }),
            acc <= 255,
            acc == digits_value(d.subrange(0, i - first)),
            all_digits(d.subrange(0, i - first)),
        decreases t@.len() - i,
    {
        let b: u8 = t[i];
        let ghost shorter = d.subrange(0, i - first);
        let ghost longer = d.subrange(0, i - first + 1);
        assert(longer.drop_last() =~= shorter);
        assert(longer.last() == b);
        if b < 0x30 || b > 0x39 {
            assert(!all_digits(d)) by {
                assert(d[i - first] == b);
            }
            return None;
        }
        let next: u32 = acc * 10 + (b - 0x30) as u32;
        assert(all_digits(longer)) by {
            assert forall|j: int| 0 <= j < longer.len() implies 0x30 <= #[trigger] longer[j]
                <= 0x39 by {
                if j < shorter.len() {
                    assert(longer[j] == shorter[j]);
                }
            }
        }
        assert(digits_value(longer) == next);
        if next > 255 {
            proof {
                if all_digits(d) {
                    lemma_digits_grow(d, i - first + 1);
                }
            }
            return None;
        }
        acc = next;
        i += 1;
    }
    assert(d.subrange(0, i - first) =~= d);
    Some(acc as u8)
}

/// The backend that a value names: "hidapi" for feature reports, "rusb" or
/// nothing but white space for raw USB; nothing for any other text.
pub open spec fn backend_value(s: Seq<u8>) -> Option<MacBackend> {
    let t = normalized_value(s);
    if t == seq![0x68u8, 0x69, 0x64, 0x61, 0x70, 0x69] {
        Some(MacBackend::FeatureReport)
    } else if t.len() == 0 || t == seq![0x72u8, 0x75, 0x73, 0x62] {
        Some(MacBackend::RawUsb)
    } else {
        None
    }
}

/// Reads the macOS backend from the text of an option. A text that names no
/// backend gives `None`; the caller then stays with raw USB.
pub fn parse_backend(value: &[u8]) -> (r: Option<MacBackend>)
    ensures
        r == backend_value(value@),
{
    let t: Vec<u8> = normalize_value(value);
    let hidapi: [u8; 6] = [0x68, 0x69, 0x64, 0x61, 0x70, 0x69];
    let rusb: [u8; 4] = [0x72, 0x75, 0x73, 0x62];
    assert(hidapi@ =~= seq![0x68u8, 0x69, 0x64, 0x61, 0x70, 0x69]);
    assert(rusb@ =~= seq![0x72u8, 0x75, 0x73, 0x62]);
    if is_word(&t, hidapi.as_slice()) {
        Some(MacBackend::FeatureReport)
    } else if t.len() == 0 || is_word(&t, rusb.as_slice()) {
        Some(MacBackend::RawUsb)
    } else {
        None
    }
}

/// The way of reading rotations that a value names: "matrix", "quat" or
/// "quaternion"; automatic for any other text.
pub open spec fn rotation_mode_value(s: Seq<u8>) -> RotationParseMode {
    let t = normalized_value(s);
    if t == seq![0x6Du8, 0x61, 0x74, 0x72, 0x69, 0x78] {
        RotationParseMode::Matrix
    } else if t == seq![0x71u8, 0x75, 0x61, 0x74] || t == seq![
        0x71u8,
        0x75,
        0x61,
        0x74,
        0x65,
        0x72,
        0x6E,
        0x69,
        0x6F,
        0x6E,
    ] {
        RotationParseMode::Quaternion
    } else {
        RotationParseMode::Auto
    }
}

/// Reads the rotation mode from the text of an option.
pub fn parse_rotation_mode(value: &[u8]) -> (r: RotationParseMode)
    ensures
        r == rotation_mode_value(value@),
{
    let t: Vec<u8> = normalize_value(value);
    let matrix: [u8; 6] = [0x6D, 0x61, 0x74, 0x72, 0x69, 0x78];
    let quat: [u8; 4] = [0x71, 0x75, 0x61, 0x74];
    let quaternion: [u8; 10] = [0x71, 0x75, 0x61, 0x74, 0x65, 0x72, 0x6E, 0x69, 0x6F, 0x6E];
    assert(matrix@ =~= seq![0x6Du8, 0x61, 0x74, 0x72, 0x69, 0x78]);
    assert(quat@ =~= seq![0x71u8, 0x75, 0x61, 0x74]);
    assert(quaternion@ =~= seq![0x71u8, 0x75, 0x61, 0x74, 0x65, 0x72, 0x6E, 0x69, 0x6F, 0x6E]);
    if is_word(&t, matrix.as_slice()) {
        RotationParseMode::Matrix
    } else if is_word(&t, quat.as_slice()) || is_word(&t, quaternion.as_slice()) {
        RotationParseMode::Quaternion
    } else {
        RotationParseMode::Auto
    }
}

/// The options that can be set by text.
#[derive(Debug, Clone, Copy, PartialEq, Eq, Structural)]
pub enum ConfigOption {
    MacBackend,
    UvcMode,
    RotationEnabled,
    ClaimAllInterfaces,
    PreconditionCycles,
    EnableStereoInit,
    ReopenAfterConfig,
    ReopenAfterEdgeStart,
    AllowDetachFallback,
    RotationParse,
}

/// `current`, or what `parsed` holds if it holds something.
pub open spec fn or_keep<T>(parsed: Option<T>, current: T) -> T {
    match parsed {
        Some(v) => v,
        None => current,
    }
}

impl StartupConfig {
    /// The UVC mode that a strategy starts from: 1 for feature reports with
    /// retry, 0 for the others.
    pub open spec fn spec_default_uvc_mode(strategy: StartupStrategy) -> u8 {
        if strategy == StartupStrategy::FeatureReportRetry {
            1
        } else {
            0
        }
    }

    /// The UVC mode that a strategy starts from.
    pub fn default_uvc_mode(strategy: StartupStrategy) -> (m: u8)
        ensures
            m == Self::spec_default_uvc_mode(strategy),
    {
        match strategy {
            StartupStrategy::FeatureReportRetry => 1,
            _ => 0,
        }
    }

    /// This configuration with `option` set from the text `value`. A text
    /// that the option cannot read leaves it as it is, but for the backend,
    /// which falls back to raw USB, and the rotation mode, which falls back
    /// to automatic.
    pub open spec fn spec_with_option(self, option: ConfigOption, value: Seq<u8>) -> StartupConfig {
        match option {
            ConfigOption::MacBackend => StartupConfig {
                mac_backend: or_keep(backend_value(value), MacBackend::RawUsb),
                ..self
            },
            ConfigOption::UvcMode => StartupConfig {
                uvc_mode: or_keep(byte_value(value), self.uvc_mode),
                ..self
            },
            ConfigOption::RotationEnabled => StartupConfig {
                rotation_enabled: or_keep(flag_value(value), self.rotation_enabled),
                ..self
            },
            ConfigOption::ClaimAllInterfaces => StartupConfig {
                claim_all_interfaces: or_keep(flag_value(value), self.claim_all_interfaces),
                ..self
            },
            ConfigOption::PreconditionCycles => StartupConfig {
                precondition_cycles: or_keep(byte_value(value), self.precondition_cycles),
                ..self
            },
            ConfigOption::EnableStereoInit => StartupConfig {
                enable_stereo_init: or_keep(flag_value(value), self.enable_stereo_init),
                ..self
            },
            ConfigOption::ReopenAfterConfig => StartupConfig {
                reopen_after_config: or_keep(flag_value(value), self.reopen_after_config),
                ..self
            },
            ConfigOption::ReopenAfterEdgeStart => StartupConfig {
                reopen_after_edge_start: or_keep(flag_value(value), self.reopen_after_edge_start),
                ..self
            },
            ConfigOption::AllowDetachFallback => StartupConfig {
                allow_detach_fallback: or_keep(flag_value(value), self.allow_detach_fallback),
                ..self
            },
            ConfigOption::RotationParse => StartupConfig {
                rotation_parse: rotation_mode_value(value),
                ..self
            },
        }
    }

    /// Sets one option from its text.
    pub fn with_option(self, option: ConfigOption, value: &[u8]) -> (c: StartupConfig)
        ensures
            c == self.spec_with_option(option, value@),
    {
        let mut c: StartupConfig = self;
        match option {
            ConfigOption::MacBackend => {
                c.mac_backend = match parse_backend(value) {
                    Some(b) => b,
                    None => MacBackend::RawUsb,
                };
            },
            ConfigOption::UvcMode => {
                if let Some(v) = parse_byte(value) {
                    c.uvc_mode = v;
                }
            },
            ConfigOption::RotationEnabled => {
                if let Some(v) = parse_flag(value) {
                    c.rotation_enabled = v;
                }
            },
            ConfigOption::ClaimAllInterfaces => {
                if let Some(v) = parse_flag(value) {
                    c.claim_all_interfaces = v;
                }
            },
            ConfigOption::PreconditionCycles => {
                if let Some(v) = parse_byte(value) {
                    c.precondition_cycles = v;
                }
            },
            ConfigOption::EnableStereoInit => {
                if let Some(v) = parse_flag(value) {
                    c.enable_stereo_init = v;
                }
            },
            ConfigOption::ReopenAfterConfig => {
                if let Some(v) = parse_flag(value) {
                    c.reopen_after_config = v;
                }
            },
            ConfigOption::ReopenAfterEdgeStart => {
                if let Some(v) = parse_flag(value) {
                    c.reopen_after_edge_start = v;
                }
            },
            ConfigOption::AllowDetachFallback => {
                if let Some(v) = parse_flag(value) {
                    c.allow_detach_fallback = v;
                }
            },
            ConfigOption::RotationParse => {
                c.rotation_parse = parse_rotation_mode(value);
            },
        }
        c
    }
}

} // verus!
