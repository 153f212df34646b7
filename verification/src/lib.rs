//! Host-side resource selection and synchronization primitives for a
//! GPU/accelerator compute binding.
//!
//! Three independent components:
//!
//! * device-specifier resolution: mapping a user-supplied selection rule to a
//!   concrete, ordered list of physical device identifiers
//!   ([`DeviceSpecifier`]);
//! * polymorphic wait-list / completion-handle unions that let structurally
//!   different event representations be passed interchangeably to
//!   synchronization primitives ([`ClWaitListPtrEnum`], [`ClNullEventPtrEnum`]);
//! * an N-dimensional work/memory-size abstraction that normalizes 1-, 2-,
//!   and 3-dimensional shapes into a canonical 3-axis form ([`MemLen`],
//!   [`WorkDims`], [`SpatialDims`]).
//!
//! Device enumeration itself is a native-driver round trip and is left to the
//! caller: resolution takes the enumeration outcomes as plain values and is
//! specified and verified over them.

pub mod device;
pub mod device_specifier;
pub mod error;
pub mod events;
pub mod spatial_dims;
pub mod traits;

pub use device::Device;
pub use device::DeviceId;
pub use device::DeviceType;
pub use device::Mem;
pub use device_specifier::DeviceSpecifier;
pub use error::AllocationError;
pub use error::EnumerationError;
pub use events::ClNullEventPtrEnum;
pub use events::ClWaitListPtrEnum;
pub use events::Event;
pub use events::EventCore;
pub use events::EventList;
pub use events::EventListCore;
pub use events::NullEventCore;
pub use events::UserEventCore;
pub use spatial_dims::SpatialDims;
pub use traits::AsMemMut;
pub use traits::AsMemRef;
pub use traits::DimElement;
pub use traits::MemLen;
pub use traits::OclPrm;
pub use traits::WorkDims;
