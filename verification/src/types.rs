//! Data carried by the driver: device identity, feature flags and pose
//! samples.
//!
//! Every scaled field of the protocol is a fixed-point number with 14
//! fractional bits. The types here keep such fields as the integers that came
//! off the wire, so that nothing is rounded: a translation of `344` stands for
//! 344 / 16384 metres. Products of two such numbers carry 28 fractional bits.

use vstd::prelude::*;

verus! {

/// The integer that stands for 1.0 in a field with 14 fractional bits.
pub const ONE: i32 = 16384;

/// The integer that stands for 1.0 in a field with 28 fractional bits.
pub const ONE_SQ: i64 = 268435456;

/// Every bit that has a meaning in the feature bitmap.
pub const FEATURE_MASK: u32 = 0x147F;

/// Feature bitmap reported by the device. Bits without a meaning are never
/// set in a value of this type.
#[derive(Debug, Clone, Copy, PartialEq, Eq)]
pub struct Features {
    bits: u32,
}

impl View for Features {
    type V = u32;

    closed spec fn view(&self) -> u32 {
        self.bits
    }
}

impl Features {
    /// On-device SLAM.
    pub const EDGE_MODE: u32 = 0x0001;

    /// Host-assisted SLAM.
    pub const MIXED_MODE: u32 = 0x0002;

    /// Stereo camera pair.
    pub const STEREO: u32 = 0x0004;

    /// Colour camera.
    pub const RGB: u32 = 0x0008;

    /// Time-of-flight depth camera.
    pub const TOF: u32 = 0x0010;

    /// Image analysis.
    pub const IA: u32 = 0x0020;

    /// Semi-global block matching depth.
    pub const SGBM: u32 = 0x0040;

    /// Eye tracking.
    pub const EYE_TRACKING: u32 = 0x0400;

    /// Face identification.
    pub const FACE_ID: u32 = 0x1000;

    /// Holds for every value of this type: no bit outside `FEATURE_MASK` is set.
    pub open spec fn wf(&self) -> bool {
        self@ & !FEATURE_MASK == 0
    }

    /// The bitmap with no feature set.
    pub fn empty() -> (f: Features)
        ensures
            f@ == 0,
            f.wf(),
    {
        assert(0u32 & !0x147Fu32 == 0) by (bit_vector);
        Features { bits: 0 }
    }

    /// The features named by `bits`, with the bits that have no meaning
    /// cleared.
    pub fn from_bits_truncate(bits: u32) -> (f: Features)
        ensures
            f@ == bits & FEATURE_MASK,
            f.wf(),
    {
        assert((bits & 0x147Fu32) & !0x147Fu32 == 0) by (bit_vector);
        Features { bits: bits & FEATURE_MASK }
    }

    /// The bitmap as an integer.
    pub fn bits(&self) -> (b: u32)
        ensures
            b == self@,
    {
        self.bits
    }

    /// Whether no feature is set.
    pub fn is_empty(&self) -> (r: bool)
        ensures
            r == (self@ == 0),
    {
        self.bits == 0
    }

    /// Whether every bit of `flags` is set in this bitmap.
    pub fn contains(&self, flags: u32) -> (r: bool)
        ensures
            r == (self@ & flags == flags),
    {
        self.bits & flags == flags
    }
}

/// SLAM operating mode.
#[derive(Debug, Clone, Copy, PartialEq, Eq, Structural)]
pub enum SlamMode {
    /// The device computes the pose on its own.
    Edge,
    /// Device and host share the computation.
    Mixed,
}

/// Device identification and capabilities.
#[derive(Debug, Clone)]
pub struct DeviceInfo {
    pub uuid: String,
    pub version: String,
    pub features: Features,
    pub bus_id: String,
    pub device_address: u8,
}

/// The quaternion of a rotation matrix in closed form.
///
/// The quaternion `[w, x, y, z]` that the matrix determines is
/// `numerators / (2 * sqrt(radicand))`, component by component, where the
/// radicand is read with 28 fractional bits and so are the numerators. The
/// component named by `lead` has the radicand itself as its numerator, so it
/// equals `sqrt(radicand) / 2` and is positive.
#[derive(Debug, Clone, Copy, PartialEq, Eq)]
pub struct QuaternionRoot {
    /// Index (0 = w, 1 = x, 2 = y, 3 = z) of the component that the
    /// conversion solved for first.
    pub lead: u8,
    /// The number under the square root, with 28 fractional bits.
    pub radicand: i64,
    /// Numerators of `[w, x, y, z]`, with 28 fractional bits.
    pub numerators: [i64; 4],
}

/// Rotation as a quaternion, in whichever exact form the packet gave it.
#[derive(Debug, Clone, Copy, PartialEq, Eq)]
pub enum Quaternion {
    /// Components as they stood in the packet, with 14 fractional bits.
    Wire { w: i16, x: i16, y: i16, z: i16 },
    /// Determined by the rotation matrix of the packet.
    Root(QuaternionRoot),
}

/// Six-degrees-of-freedom pose reported by the device, in fixed point.
#[derive(Debug, Clone, Copy)]
pub struct Pose {
    /// Translation `[x, y, z]` in metres, with 14 fractional bits.
    pub translation: [i32; 3],
    /// Row-major rotation matrix, with 28 fractional bits.
    pub rotation: [[i64; 3]; 3],
    /// The same rotation as a quaternion.
    pub quaternion: Quaternion,
    /// Device timestamp in microseconds.
    pub timestamp_us: u64,
    /// Host clock at the moment of decoding, in nanoseconds since the stream
    /// started.
    pub host_timestamp_ns: u64,
    /// Tracking confidence between 0 and `ONE`, with 14 fractional bits.
    pub confidence: i16,
}

/// Inertial readings carried in a pose packet, with 14 fractional bits.
#[derive(Debug, Clone, Copy)]
pub struct ImuData {
    /// Accelerometer `[x, y, z]`.
    pub accelerometer: [i16; 3],
    /// Gyroscope `[x, y, z]`.
    pub gyroscope: [i16; 3],
}

/// One decoded pose packet.
#[derive(Debug, Clone)]
pub struct SlamSample {
    pub pose: Pose,
    pub imu: Option<ImuData>,
    /// Bytes 37 to 62 of the packet, untouched.
    pub raw_extended: [u8; 26],
}

} // verus!
