//! Host-side driver core for the XVisio XR50 six-degrees-of-freedom tracking
//! sensor (USB vendor 0x040E, product 0xF408).
//!
//! Everything in this crate is integer arithmetic over byte buffers and small
//! state records, and every function is verified against its contract. The
//! crate builds and checks wire frames, decodes pose packets into fixed-point
//! samples, and decides each step of the start-up and streaming procedures.
//! Talking to the USB stack, reading the clock and running threads is left to
//! the caller, who performs the operations that the step functions ask for
//! and reports back how they went.
//!
//! - `protocol`: command frames, response validation, identity payloads.
//! - `pose`, `rotation`, `bytes`: the pose packet and its fixed-point numbers.
//! - `round_trip`: how far a matrix is from a rotation, and what that means
//!   for the way to a quaternion and back.
//! - `config`: the options of a session and the texts that set them.
//! - `device`: picking the sensor among HID devices, identity, reopening.
//! - `startup`: the start-up sequences as plans, and the sequencer that walks
//!   them.
//! - `claim`: opening the raw USB transport and claiming its interfaces.
//! - `slam`: the reader's step function and the bounded channel of samples.

pub mod bytes;
pub mod claim;
pub mod config;
pub mod device;
pub mod error;
pub mod pose;
pub mod protocol;
pub mod rotation;
pub mod round_trip;
pub mod slam;
pub mod startup;
pub mod types;

pub use error::XvisioError;

pub use types::{
    DeviceInfo, Features, ImuData, Pose, Quaternion, QuaternionRoot, SlamMode, SlamSample,
};
