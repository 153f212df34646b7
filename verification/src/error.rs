//! Error values surfaced by resolution and by the null-event union.
//!
//! The two kinds are deliberately distinct: an enumeration failure is an
//! environment condition the caller may handle or retry, while an index-range
//! violation in a specifier is a programmer error that is excluded by
//! precondition rather than reported. Slot-allocation failure is likewise
//! recoverable and is never folded into the enumeration kind.

use vstd::prelude::*;

verus! {

/// A device/platform enumeration call against the native driver failed.
///
/// Resolution propagates this value unchanged, so it carries the native
/// status code exactly as the enumeration collaborator reported it.
#[derive(Clone, Copy, Debug, PartialEq, Eq, Structural)]
pub struct EnumerationError {
    /// The native status code returned by the failed enumeration call.
    pub status: i32,
}

/// Claiming a writable completion-handle slot failed because the underlying
/// collection cannot register another handle.
///
/// A wait list reports its size as a `u32` handle count, so a collection is
/// full once it holds `u32::MAX` slots; claiming one more surfaces this error
/// instead of silently truncating the count.
#[derive(Clone, Copy, Debug, PartialEq, Eq, Structural)]
pub struct AllocationError {
}

} // verus!
