//! Synthesis of per-frame RGB lighting animations for addressable keyboard
//! matrices, encoded into the portable effect-file format consumed by a
//! lighting-control front end.
//!
//! The crate covers the device capability registry, the host input-device
//! enumeration parser, device detection, the frame-buffer abstraction
//! (`EffectMatrix` / `Effect`) and the sparse effect-file encoder. Reading the
//! host's device listing and writing the produced document to disk are left to
//! the embedding application.

use vstd::prelude::*;

pub mod color;
pub mod device;
pub mod effect;
pub mod encode;
pub mod proc_bus_input_devices;
pub mod strutil;

pub use color::Color;
pub use device::Device;
pub use device::Keyboard;
pub use effect::Effect;
pub use effect::EffectMatrix;

verus! {

/// Lowest frames-per-second value an effect accepts.
pub const FPS_MIN: u32 = 1;

/// Highest frames-per-second value an effect accepts.
pub const FPS_MAX: u32 = 80;

/// Every failure the library surfaces. All are terminal for the call that
/// raised them; none is recovered internally.
#[derive(Debug, Clone, Copy, PartialEq, Eq, Structural)]
pub enum PolychromaticError {
    /// The device variant has no lighting matrix.
    DeviceUnsupportedEffects(device::Device),
    /// A frames-per-second value outside `FPS_MIN..=FPS_MAX`.
    InvalidFPS(u32),
    /// Detection matched no supported device.
    NoRazerDevice,
    /// The enumeration document violates the expected structure.
    CannotParseDevice(proc_bus_input_devices::DeviceParseFault),
}

} // verus!
