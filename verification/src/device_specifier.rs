//! Device-specifier resolution: mapping a selection rule to a concrete,
//! ordered list of native device identifiers.
//!
//! Enumeration itself is a native-driver round trip performed by the caller:
//! once with the all-types filter, and — only for a [`TypeFlags`] specifier —
//! a second time with the specifier's own mask (a second, independent call,
//! not a filter over the first list). Resolution here is a pure, verified
//! function over those enumeration outcomes.
//!
//! The `Index` and `Indices` variants are positional and therefore only
//! well-defined relative to one enumeration's order; they carry no
//! robustness guarantee across calls or platform changes. An out-of-range
//! index is a programmer error, not a transient condition: it is excluded by
//! precondition rather than reported as a recoverable error, and an
//! unverified caller that cannot discharge the precondition must halt
//! instead of calling. No round-robin or wraparound is applied.
//!
//! [`TypeFlags`]: DeviceSpecifier::TypeFlags

use vstd::prelude::*;
use crate::device::Device;
use crate::device::DeviceId;
use crate::device::DeviceType;
use crate::error::EnumerationError;

verus! {

/// Specifies what boils down to an ordered list of devices.
///
/// `All`, `Index`, and `Indices` are positional with respect to one
/// enumeration outcome and are useful for convenience only; `TypeFlags`
/// selects by a device-kind bitmask and is the most portable; `Single` and
/// `List` carry already-resolved devices through unchanged.
#[derive(Debug, Clone)]
pub enum DeviceSpecifier {
    /// Every device of the enumeration, in enumeration order.
    All,
    /// The device at one position of the enumeration.
    Index(usize),
    /// The devices at an ordered sequence of positions of the enumeration;
    /// repeated positions yield repeated devices.
    Indices(Vec<usize>),
    /// One already-resolved device, passed through unchanged.
    Single(Device),
    /// An ordered list of already-resolved devices, passed through unchanged.
    List(Vec<Device>),
    /// Every device matching a device-kind bitmask, as a second enumeration
    /// call with that mask reports them.
    TypeFlags(DeviceType),
}

impl DeviceSpecifier {
    /// Whether every position this specifier names lies inside an
    /// enumeration of `n` devices. Trivially true for the variants that name
    /// no position.
    pub open spec fn indices_in_range(&self, n: int) -> bool {
        match *self {
            DeviceSpecifier::Index(idx) => idx < n,
            DeviceSpecifier::Indices(idx_list) => forall|k: int|
                0 <= k < idx_list@.len() ==> idx_list@[k] < n,
            _ => true,
        }
    }

    /// Whether this specifier carries already-resolved devices and so never
    /// consults an enumeration outcome.
    pub open spec fn ignores_enumeration(&self) -> bool {
        match *self {
            DeviceSpecifier::Single(_) => true,
            DeviceSpecifier::List(_) => true,
            _ => false,
        }
    }

    /// Decides [`Self::indices_in_range`] for an enumeration of
    /// `device_count` devices: the test behind the fatal index policy.
    ///
    /// An out-of-range position is a programmer error, not a recoverable
    /// condition, so [`Self::to_device_list`] excludes it by precondition
    /// and never returns a value for it. An unverified caller enforces the
    /// policy by asking this question first and halting — as on a failed
    /// assertion — when the answer is `false`.
    pub fn indices_within(&self, device_count: usize) -> (r: bool)
        ensures
            r == self.indices_in_range(device_count as int),
    {
        match self {
            DeviceSpecifier::Index(idx) => *idx < device_count,
            DeviceSpecifier::Indices(idx_list) => {
                let mut in_range: bool = true;
                let mut j: usize = 0;
                while j < idx_list.len()
                    invariant
                        j <= idx_list.len(),
                        in_range == (forall|k: int| 0 <= k < j ==> idx_list@[k] < device_count),
                    decreases idx_list.len() - j,
                {
                    if idx_list[j] >= device_count {
                        in_range = false;
                    }
                    j += 1;
                }
                in_range
            },
            _ => true,
        }
    }

    /// The device-kind mask of a `TypeFlags` specifier: the filter of the
    /// second enumeration call that such a specifier requires.
    pub fn type_filter(&self) -> (r: Option<DeviceType>)
        ensures
            match *self {
                DeviceSpecifier::TypeFlags(flags) => r == Some(flags),
                _ => r is None,
            },
    {
        match self {
            DeviceSpecifier::TypeFlags(flags) => Some(*flags),
            _ => None,
        }
    }

    /// Returns the ordered list of device identifiers this specifier
    /// resolves to, given the outcome of the all-types enumeration call and
    /// — for `TypeFlags` — the outcome of the second, mask-filtered call.
    ///
    /// `Single` and `List` return their devices unchanged whatever the
    /// enumeration outcome, even a failed one. Every other variant
    /// propagates a failed all-types enumeration unchanged; `TypeFlags`
    /// otherwise returns the second call's outcome, success or failure,
    /// unchanged. Positions named by `Index` and `Indices` must lie inside a
    /// successful enumeration.
    pub fn to_device_list(
        &self,
        device_list_all: Result<Vec<DeviceId>, EnumerationError>,
        typed_list: Option<Result<Vec<DeviceId>, EnumerationError>>,
    ) -> (r: Result<Vec<DeviceId>, EnumerationError>)
        requires
            device_list_all matches Ok(full) ==> self.indices_in_range(full@.len() as int),
            *self is TypeFlags ==> typed_list is Some,
        ensures
            !self.ignores_enumeration() && device_list_all is Err ==> r == Err::<
                Vec<DeviceId>,
                EnumerationError,
            >(device_list_all->Err_0),
            (match *self {
                DeviceSpecifier::All => device_list_all matches Ok(full) ==> r matches Ok(ds)
                    && ds@ == full@,
                DeviceSpecifier::Index(idx) => device_list_all matches Ok(full) ==> r matches Ok(
                    ds,
                ) && ds@ == seq![full@[idx as int]],
                DeviceSpecifier::Indices(idx_list) => device_list_all matches Ok(full)
                    ==> r matches Ok(ds) && ds@.len() == idx_list@.len() && (forall|k: int|
                    0 <= k < idx_list@.len() ==> ds@[k] == full@[idx_list@[k] as int]),
                DeviceSpecifier::Single(device) => r matches Ok(ds) && ds@ == seq![device.core],
                DeviceSpecifier::List(devices) => r matches Ok(ds) && ds@ == devices@.map_values(
                    |d: Device| d.core,
                ),
                DeviceSpecifier::TypeFlags(_) => device_list_all is Ok ==> (typed_list matches Some(
                    t,
                ) && r == t),
            }),
    {
        match self {
            DeviceSpecifier::Single(device) => {
                let mut ds: Vec<DeviceId> = Vec::new();
                ds.push(device.core);
                proof {
                    assert(ds@ =~= seq![device.core]);
                }
                Ok(ds)
            },
            DeviceSpecifier::List(devices) => Ok(device_cores(devices)),
            _ => {
                let full = match device_list_all {
                    Ok(l) => l,
                    Err(e) => {
                        return Err(e);
                    },
                };
                match self {
                    DeviceSpecifier::All => Ok(full),
                    DeviceSpecifier::Index(idx) => {
                        let mut ds: Vec<DeviceId> = Vec::new();
                        ds.push(full[*idx]);
                        proof {
                            assert(ds@ =~= seq![full@[*idx as int]]);
                        }
                        Ok(ds)
                    },
                    DeviceSpecifier::Indices(idx_list) => Ok(select_positions(&full, idx_list)),
                    DeviceSpecifier::TypeFlags(_) => {
                        match typed_list {
                            Some(t) => t,
                            None => vstd::pervasive::unreached(),
                        }
                    },
                    _ => vstd::pervasive::unreached(),
                }
            },
        }
    }
}

/// The identifiers wrapped by an ordered list of already-resolved devices,
/// in the same order.
fn device_cores(devices: &Vec<Device>) -> (r: Vec<DeviceId>)
    ensures
        r@ == devices@.map_values(|d: Device| d.core),
{
    let mut out: Vec<DeviceId> = Vec::new();
    let mut j: usize = 0;
    while j < devices.len()
        invariant
            j <= devices.len(),
            out@.len() == j,
            forall|k: int| 0 <= k < j ==> out@[k] == devices@[k].core,
        decreases devices.len() - j,
    {
        out.push(devices[j].core);
        j += 1;
    }
    proof {
        assert(out@ =~= devices@.map_values(|d: Device| d.core));
    }
    out
}

/// The devices at an ordered list of positions of a full enumeration, in
/// position order, repeats preserved.
fn select_positions(full: &Vec<DeviceId>, idx_list: &Vec<usize>) -> (r: Vec<DeviceId>)
    requires
        forall|k: int| 0 <= k < idx_list@.len() ==> idx_list@[k] < full@.len(),
    ensures
        r@.len() == idx_list@.len(),
        forall|k: int| 0 <= k < idx_list@.len() ==> r@[k] == full@[idx_list@[k] as int],
{
    let mut out: Vec<DeviceId> = Vec::new();
    let mut j: usize = 0;
    while j < idx_list.len()
        invariant
            j <= idx_list.len(),
            out@.len() == j,
            forall|k: int| 0 <= k < idx_list@.len() ==> idx_list@[k] < full@.len(),
            forall|k: int| 0 <= k < j ==> out@[k] == full@[idx_list@[k] as int],
        decreases idx_list.len() - j,
    {
        out.push(full[idx_list[j]]);
        j += 1;
    }
    out
}

} // verus!
