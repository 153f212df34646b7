//! Opaque native identifiers: devices, platforms, memory objects, and the
//! device-type bitmask.
//!
//! Native identifiers are reference-counted or value-typed at the driver
//! level, so duplicating one is cheap and safe; they are compared and cloned
//! by value and never mutated. Here each is modeled as the plain integer
//! value of its native handle.

use vstd::prelude::*;

verus! {

/// Device type bit: a CPU device.
pub const DEVICE_TYPE_CPU: u64 = 0x2;

/// Device type bit: a GPU device.
pub const DEVICE_TYPE_GPU: u64 = 0x4;

/// Device type bit: a dedicated accelerator device.
pub const DEVICE_TYPE_ACCELERATOR: u64 = 0x8;

/// Device type mask matching every device visible on a platform.
pub const DEVICE_TYPE_ALL: u64 = 0xFFFF_FFFF;

/// An opaque native device identifier, as handed out by the enumeration
/// collaborator.
#[derive(Clone, Copy, Debug, PartialEq, Eq, Structural)]
pub struct DeviceId {
    /// The value of the native handle.
    pub handle: usize,
}

/// An opaque native memory-object identifier.
#[derive(Clone, Copy, Debug, PartialEq, Eq, Structural)]
pub struct Mem {
    /// The value of the native handle.
    pub handle: usize,
}

/// A bitmask filter over device kinds (GPU/CPU/accelerator), passed straight
/// to the enumeration collaborator.
#[derive(Clone, Copy, Debug, PartialEq, Eq, Structural)]
pub struct DeviceType {
    /// The raw bitmask.
    pub bits: u64,
}

/// A resolved device: a thin wrapper that owns one native device identifier.
#[derive(Clone, Copy, Debug, PartialEq, Eq, Structural)]
pub struct Device {
    /// The wrapped native identifier.
    pub core: DeviceId,
}

impl Device {
    /// Wraps a native device identifier.
    pub fn new(core: DeviceId) -> (d: Device)
        ensures
            d.core == core,
    {
        Device { core }
    }

    /// Borrows the wrapped native identifier.
    pub fn as_core(&self) -> (r: &DeviceId)
        ensures
            *r == self.core,
    {
        &self.core
    }
}

} // verus!
