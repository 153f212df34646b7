//! Completion-handle representations and the two polymorphic unions over
//! them.
//!
//! A completion handle (event) is an opaque native token for the eventual
//! finish of an asynchronous device operation; here it is modeled as the
//! plain integer value of the native handle, with `0` standing for the null
//! handle of a not-yet-populated slot.
//!
//! [`ClWaitListPtrEnum`] is the read-only union over everything that can be
//! waited on before an operation starts: it answers how many native handles
//! are represented and what each of them is, without the caller knowing
//! which representation was supplied. [`ClNullEventPtrEnum`] is the mutable
//! union over everything an operation can write its completion handle into:
//! it hands out the position of a handle-sized storage slot, allocating one
//! first where the representation is a collection. Each union arm forwards
//! verbatim to the wrapped representation's own accessor; the unions add no
//! logic of their own.

use vstd::prelude::*;
use crate::error::AllocationError;

verus! {

/// A single populated completion handle, straight from the native layer.
#[derive(Debug, PartialEq, Eq, Structural)]
pub struct EventCore {
    /// The value of the native handle; never the null handle.
    pub handle: usize,
}

impl EventCore {
    /// Whether the representation is valid: the handle is populated.
    pub open spec fn wf(&self) -> bool {
        self.handle != 0
    }

    /// The native handles represented, in order.
    pub open spec fn handles(&self) -> Seq<usize> {
        seq![self.handle]
    }

    /// Wraps a populated native handle.
    pub fn new(handle: usize) -> (e: EventCore)
        requires
            handle != 0,
        ensures
            e.handle == handle,
            e.wf(),
    {
        EventCore { handle }
    }

    /// The raw count of native handles represented: always one.
    pub fn handle_count(&self) -> (n: u32)
        ensures
            n as nat == self.handles().len(),
    {
        1
    }

    /// The native handle at position `i` of the represented contiguous
    /// handle array.
    pub fn handle_at(&self, i: usize) -> (h: usize)
        requires
            i < self.handles().len(),
        ensures
            h == self.handles()[i as int],
    {
        self.handle
    }
}

/// A single populated, user-triggerable completion handle: one the host
/// signals itself rather than a queued operation.
#[derive(Debug, PartialEq, Eq, Structural)]
pub struct UserEventCore {
    /// The value of the native handle; never the null handle.
    pub handle: usize,
}

impl UserEventCore {
    /// Whether the representation is valid: the handle is populated.
    pub open spec fn wf(&self) -> bool {
        self.handle != 0
    }

    /// The native handles represented, in order.
    pub open spec fn handles(&self) -> Seq<usize> {
        seq![self.handle]
    }

    /// Wraps a populated native handle.
    pub fn new(handle: usize) -> (e: UserEventCore)
        requires
            handle != 0,
        ensures
            e.handle == handle,
            e.wf(),
    {
        UserEventCore { handle }
    }

    /// The raw count of native handles represented: always one.
    pub fn handle_count(&self) -> (n: u32)
        ensures
            n as nat == self.handles().len(),
    {
        1
    }

    /// The native handle at position `i` of the represented contiguous
    /// handle array.
    pub fn handle_at(&self, i: usize) -> (h: usize)
        requires
            i < self.handles().len(),
        ensures
            h == self.handles()[i as int],
    {
        self.handle
    }
}

/// A raw collection of completion-handle slots: the contiguous native-handle
/// array itself.
#[derive(Debug, PartialEq, Eq)]
pub struct EventListCore {
    /// The stored native-handle values, in array order; a `0` is a slot not
    /// yet populated.
    pub handles: Vec<usize>,
}

impl EventListCore {
    /// Whether the representation is valid: the slot count is representable
    /// as a native `u32` handle count.
    pub open spec fn wf(&self) -> bool {
        self.handles@.len() <= u32::MAX
    }

    /// The native handles represented, in order.
    pub open spec fn handles_seq(&self) -> Seq<usize> {
        self.handles@
    }

    /// An empty collection.
    pub fn new() -> (l: EventListCore)
        ensures
            l.handles@ == Seq::<usize>::empty(),
            l.wf(),
    {
        EventListCore { handles: Vec::new() }
    }

    /// Appends a populated native handle.
    pub fn push_handle(&mut self, handle: usize)
        requires
            old(self).handles@.len() < u32::MAX,
        ensures
            final(self).handles@ == old(self).handles@.push(handle),
    {
        self.handles.push(handle);
    }

    /// The raw count of native handles represented.
    pub fn handle_count(&self) -> (n: u32)
        requires
            self.wf(),
        ensures
            n as nat == self.handles_seq().len(),
    {
        self.handles.len() as u32
    }

    /// The native handle at position `i` of the represented contiguous
    /// handle array.
    pub fn handle_at(&self, i: usize) -> (h: usize)
        requires
            i < self.handles_seq().len(),
        ensures
            h == self.handles_seq()[i as int],
    {
        self.handles[i]
    }

    /// Claims a writable completion-handle slot: appends one empty slot and
    /// returns its position, to be filled by a forthcoming asynchronous
    /// operation. Fails once the collection cannot register another handle
    /// in a native `u32` handle count.
    pub fn claim_writable_slot(&mut self) -> (r: Result<usize, AllocationError>)
        ensures
            old(self).handles@.len() < u32::MAX ==> r == Ok::<usize, AllocationError>(
                old(self).handles@.len() as usize,
            ) && final(self).handles@ == old(self).handles@.push(0usize),
            old(self).handles@.len() >= u32::MAX ==> r == Err::<usize, AllocationError>(
                AllocationError {  },
            ) && *final(self) == *old(self),
    {
        if self.handles.len() < u32::MAX as usize {
            let slot = self.handles.len();
            self.handles.push(0);
            Ok(slot)
        } else {
            Err(AllocationError {  })
        }
    }
}

/// A single completion-handle slot, as the higher-level wrapper type: empty
/// until a queued operation populates it.
#[derive(Debug, PartialEq, Eq, Structural)]
pub struct Event {
    /// The value of the native handle; `0` while the slot is empty.
    pub handle: usize,
}

impl Event {
    /// The native handles represented when waited on: none while the slot is
    /// empty, exactly the one stored handle once populated.
    pub open spec fn handles(&self) -> Seq<usize> {
        if self.handle == 0 {
            Seq::empty()
        } else {
            seq![self.handle]
        }
    }

    /// An empty completion slot.
    pub fn empty() -> (e: Event)
        ensures
            e.handle == 0,
    {
        Event { handle: 0 }
    }

    /// Wraps an already-populated native handle.
    pub fn from_core(core: &EventCore) -> (e: Event)
        ensures
            e.handle == core.handle,
    {
        Event { handle: core.handle }
    }

    /// Whether the slot is still empty.
    pub fn is_empty(&self) -> (r: bool)
        ensures
            r == (self.handle == 0),
    {
        self.handle == 0
    }

    /// The raw count of native handles represented: one once populated,
    /// none while empty.
    pub fn handle_count(&self) -> (n: u32)
        ensures
            n as nat == self.handles().len(),
    {
        if self.handle == 0 {
            0
        } else {
            1
        }
    }

    /// The native handle at position `i` of the represented contiguous
    /// handle array.
    pub fn handle_at(&self, i: usize) -> (h: usize)
        requires
            i < self.handles().len(),
        ensures
            h == self.handles()[i as int],
    {
        self.handle
    }

    /// Claims this slot as writable storage for a forthcoming asynchronous
    /// operation: returns the slot's position, which is always position `0`.
    ///
    /// The claim is idempotent: claiming an already-claimed slot succeeds
    /// again and returns the same storage position, leaving the value
    /// unchanged; the single-writer discipline over one slot is the
    /// caller's responsibility.
    pub fn claim_writable_slot(&mut self) -> (r: Result<usize, AllocationError>)
        ensures
            r == Ok::<usize, AllocationError>(0usize),
            *final(self) == *old(self),
    {
        Ok(0)
    }
}

/// An ordered collection of single completion-handle slots, as the
/// higher-level wrapper type.
#[derive(Debug, PartialEq, Eq)]
pub struct EventList {
    /// The slots, in array order.
    pub events: Vec<Event>,
}

impl EventList {
    /// Whether the representation is valid: the slot count is representable
    /// as a native `u32` handle count.
    pub open spec fn wf(&self) -> bool {
        self.events@.len() <= u32::MAX
    }

    /// The native handles represented, in order: each slot contributes its
    /// stored value.
    pub open spec fn handles(&self) -> Seq<usize> {
        self.events@.map_values(|e: Event| e.handle)
    }

    /// An empty collection.
    pub fn new() -> (l: EventList)
        ensures
            l.events@ == Seq::<Event>::empty(),
            l.wf(),
    {
        EventList { events: Vec::new() }
    }

    /// Appends a slot.
    pub fn push(&mut self, event: Event)
        requires
            old(self).events@.len() < u32::MAX,
        ensures
            final(self).events@ == old(self).events@.push(event),
    {
        self.events.push(event);
    }

    /// The raw count of native handles represented.
    pub fn handle_count(&self) -> (n: u32)
        requires
            self.wf(),
        ensures
            n as nat == self.handles().len(),
    {
        self.events.len() as u32
    }

    /// The native handle at position `i` of the represented contiguous
    /// handle array.
    pub fn handle_at(&self, i: usize) -> (h: usize)
        requires
            i < self.handles().len(),
        ensures
            h == self.handles()[i as int],
    {
        self.events[i].handle
    }

    /// Claims a writable completion-handle slot: appends one empty slot and
    /// returns its position, to be filled by a forthcoming asynchronous
    /// operation. Fails once the collection cannot register another handle
    /// in a native `u32` handle count.
    pub fn claim_writable_slot(&mut self) -> (r: Result<usize, AllocationError>)
        ensures
            old(self).events@.len() < u32::MAX ==> r == Ok::<usize, AllocationError>(
                old(self).events@.len() as usize,
            ) && final(self).events@ == old(self).events@.push((Event { handle: 0 })),
            old(self).events@.len() >= u32::MAX ==> r == Err::<usize, AllocationError>(
                AllocationError {  },
            ) && *final(self) == *old(self),
    {
        if self.events.len() < u32::MAX as usize {
            let slot = self.events.len();
            self.events.push(Event::empty());
            Ok(slot)
        } else {
            Err(AllocationError {  })
        }
    }
}

/// A not-yet-populated single completion slot, straight from the native
/// layer: the null event an asynchronous operation will write into.
#[derive(Debug, PartialEq, Eq, Structural)]
pub struct NullEventCore {
    /// The value of the native handle; `0` while the slot is empty.
    pub handle: usize,
}

impl NullEventCore {
    /// A fresh empty slot.
    pub fn new() -> (e: NullEventCore)
        ensures
            e.handle == 0,
    {
        NullEventCore { handle: 0 }
    }

    /// Claims this slot as writable storage for a forthcoming asynchronous
    /// operation: returns the slot's position, which is always position `0`.
    ///
    /// The claim is idempotent: claiming an already-claimed slot succeeds
    /// again and returns the same storage position, leaving the value
    /// unchanged; the single-writer discipline over one slot is the
    /// caller's responsibility.
    pub fn claim_writable_slot(&mut self) -> (r: Result<usize, AllocationError>)
        ensures
            r == Ok::<usize, AllocationError>(0usize),
            *final(self) == *old(self),
    {
        Ok(0)
    }
}

/// The read-only union over every representation that can stand as a wait
/// list: a single populated handle, a user-triggerable handle, a raw
/// collection, or the two higher-level wrapper equivalents.
///
/// Each arm forwards verbatim to the wrapped representation's own
/// accessors; no copying and no validation happens here.
#[derive(Debug)]
pub enum ClWaitListPtrEnum<'a> {
    /// A single populated completion handle.
    EventCore(&'a EventCore),
    /// A single user-triggerable completion handle.
    UserEventCore(&'a UserEventCore),
    /// A raw collection of completion-handle slots.
    EventListCore(&'a EventListCore),
    /// A single higher-level completion slot.
    Event(&'a Event),
    /// A higher-level collection of completion slots.
    EventList(&'a EventList),
}

impl<'a> ClWaitListPtrEnum<'a> {
    /// Whether the wrapped representation is valid.
    pub open spec fn wf(&self) -> bool {
        match *self {
            ClWaitListPtrEnum::EventCore(e) => e.wf(),
            ClWaitListPtrEnum::UserEventCore(e) => e.wf(),
            ClWaitListPtrEnum::EventListCore(l) => l.wf(),
            ClWaitListPtrEnum::Event(_) => true,
            ClWaitListPtrEnum::EventList(l) => l.wf(),
        }
    }

    /// The native handles the wrapped representation stands for, in order.
    pub open spec fn handles(&self) -> Seq<usize> {
        match *self {
            ClWaitListPtrEnum::EventCore(e) => e.handles(),
            ClWaitListPtrEnum::UserEventCore(e) => e.handles(),
            ClWaitListPtrEnum::EventListCore(l) => l.handles_seq(),
            ClWaitListPtrEnum::Event(e) => e.handles(),
            ClWaitListPtrEnum::EventList(l) => l.handles(),
        }
    }

    /// The raw count of native handles represented: always exactly the
    /// number of handles obtainable through [`Self::handle_at`].
    pub fn handle_count(&self) -> (n: u32)
        requires
            self.wf(),
        ensures
            n as nat == self.handles().len(),
    {
        match self {
            ClWaitListPtrEnum::EventCore(e) => e.handle_count(),
            ClWaitListPtrEnum::UserEventCore(e) => e.handle_count(),
            ClWaitListPtrEnum::EventListCore(l) => l.handle_count(),
            ClWaitListPtrEnum::Event(e) => e.handle_count(),
            ClWaitListPtrEnum::EventList(l) => l.handle_count(),
        }
    }

    /// The native handle at position `i` of the represented contiguous
    /// handle array; positions at and beyond [`Self::handle_count`] must
    /// not be read.
    pub fn handle_at(&self, i: usize) -> (h: usize)
        requires
            self.wf(),
            i < self.handles().len(),
        ensures
            h == self.handles()[i as int],
    {
        match self {
            ClWaitListPtrEnum::EventCore(e) => e.handle_at(i),
            ClWaitListPtrEnum::UserEventCore(e) => e.handle_at(i),
            ClWaitListPtrEnum::EventListCore(l) => l.handle_at(i),
            ClWaitListPtrEnum::Event(e) => e.handle_at(i),
            ClWaitListPtrEnum::EventList(l) => l.handle_at(i),
        }
    }
}

impl<'a> From<&'a EventCore> for ClWaitListPtrEnum<'a> {
    /// Wraps a single populated handle at the call boundary.
    fn from(e: &'a EventCore) -> (r: ClWaitListPtrEnum<'a>) {
        ClWaitListPtrEnum::EventCore(e)
    }
}

impl<'a> vstd::std_specs::convert::FromSpecImpl<&'a EventCore> for ClWaitListPtrEnum<'a> {
    open spec fn obeys_from_spec() -> bool {
        true
    }

    open spec fn from_spec(e: &'a EventCore) -> Self {
        ClWaitListPtrEnum::EventCore(e)
    }
}

impl<'a> From<&'a UserEventCore> for ClWaitListPtrEnum<'a> {
    /// Wraps a single user-triggerable handle at the call boundary.
    fn from(e: &'a UserEventCore) -> (r: ClWaitListPtrEnum<'a>) {
        ClWaitListPtrEnum::UserEventCore(e)
    }
}

impl<'a> vstd::std_specs::convert::FromSpecImpl<&'a UserEventCore> for ClWaitListPtrEnum<'a> {
    open spec fn obeys_from_spec() -> bool {
        true
    }

    open spec fn from_spec(e: &'a UserEventCore) -> Self {
        ClWaitListPtrEnum::UserEventCore(e)
    }
}

impl<'a> From<&'a EventListCore> for ClWaitListPtrEnum<'a> {
    /// Wraps a raw handle collection at the call boundary.
    fn from(l: &'a EventListCore) -> (r: ClWaitListPtrEnum<'a>) {
        ClWaitListPtrEnum::EventListCore(l)
    }
}

impl<'a> vstd::std_specs::convert::FromSpecImpl<&'a EventListCore> for ClWaitListPtrEnum<'a> {
    open spec fn obeys_from_spec() -> bool {
        true
    }

    open spec fn from_spec(l: &'a EventListCore) -> Self {
        ClWaitListPtrEnum::EventListCore(l)
    }
}

impl<'a> From<&'a Event> for ClWaitListPtrEnum<'a> {
    /// Wraps a single higher-level completion slot at the call boundary.
    fn from(e: &'a Event) -> (r: ClWaitListPtrEnum<'a>) {
        ClWaitListPtrEnum::Event(e)
    }
}

impl<'a> vstd::std_specs::convert::FromSpecImpl<&'a Event> for ClWaitListPtrEnum<'a> {
    open spec fn obeys_from_spec() -> bool {
        true
    }

    open spec fn from_spec(e: &'a Event) -> Self {
        ClWaitListPtrEnum::Event(e)
    }
}

impl<'a> From<&'a EventList> for ClWaitListPtrEnum<'a> {
    /// Wraps a higher-level slot collection at the call boundary.
    fn from(l: &'a EventList) -> (r: ClWaitListPtrEnum<'a>) {
        ClWaitListPtrEnum::EventList(l)
    }
}

impl<'a> vstd::std_specs::convert::FromSpecImpl<&'a EventList> for ClWaitListPtrEnum<'a> {
    open spec fn obeys_from_spec() -> bool {
        true
    }

    open spec fn from_spec(l: &'a EventList) -> Self {
        ClWaitListPtrEnum::EventList(l)
    }
}

/// The mutable union over every representation an operation can write its
/// completion handle into: an empty single slot, a raw collection, or the
/// two higher-level wrapper equivalents.
///
/// The union borrows the caller's value and is constructed fresh at each
/// call boundary; claiming a slot consumes the union, so each claim states
/// exactly how the borrowed representation ends up. Each arm forwards
/// verbatim to the wrapped representation's own claim operation.
#[derive(Debug)]
pub enum ClNullEventPtrEnum<'a> {
    /// A not-yet-populated single slot from the native layer.
    NullEventCore(&'a mut NullEventCore),
    /// A raw collection of completion-handle slots.
    EventListCore(&'a mut EventListCore),
    /// A single higher-level completion slot.
    Event(&'a mut Event),
    /// A higher-level collection of completion slots.
    EventList(&'a mut EventList),
}

impl<'a> ClNullEventPtrEnum<'a> {
    /// Claims a writable completion-handle slot in the borrowed
    /// representation and returns its position: position `0` of a single
    /// slot (idempotently, with the value unchanged), or the position of a
    /// freshly appended empty slot of a collection. Fails only when a
    /// collection cannot register another handle in a native `u32` handle
    /// count, leaving the representation unchanged.
    pub fn claim_writable_slot(self) -> (r: Result<usize, AllocationError>)
        ensures
            match self {
                ClNullEventPtrEnum::NullEventCore(e) => r == Ok::<usize, AllocationError>(0usize)
                    && *final(e) == *e,
                ClNullEventPtrEnum::Event(e) => r == Ok::<usize, AllocationError>(0usize)
                    && *final(e) == *e,
                ClNullEventPtrEnum::EventListCore(l) => if l.handles@.len() < u32::MAX {
                    r == Ok::<usize, AllocationError>(l.handles@.len() as usize)
                        && final(l).handles@ == l.handles@.push(0usize)
                } else {
                    r == Err::<usize, AllocationError>((AllocationError {  })) && *final(l) == *l
                },
                ClNullEventPtrEnum::EventList(l) => if l.events@.len() < u32::MAX {
                    r == Ok::<usize, AllocationError>(l.events@.len() as usize) && final(l).events@
                        == l.events@.push((Event { handle: 0 }))
                } else {
                    r == Err::<usize, AllocationError>((AllocationError {  })) && *final(l) == *l
                },
            },
    {
        match self {
            ClNullEventPtrEnum::NullEventCore(e) => e.claim_writable_slot(),
            ClNullEventPtrEnum::EventListCore(l) => l.claim_writable_slot(),
            ClNullEventPtrEnum::Event(e) => e.claim_writable_slot(),
            ClNullEventPtrEnum::EventList(l) => l.claim_writable_slot(),
        }
    }
}

// Each conversion below states directly that it yields the matching union
// variant wrapping the caller's borrow unchanged: the wrapped value starts
// as the caller's value, and whatever the union's user finally leaves in it
// is what the caller's value becomes. The vstd hook stays off
// (`obeys_from_spec` is false) because exact equality over a moved mutable
// borrow is not provable.
impl<'a> From<&'a mut NullEventCore> for ClNullEventPtrEnum<'a> {
    /// Wraps a native empty slot at the call boundary.
    fn from(e: &'a mut NullEventCore) -> (r: ClNullEventPtrEnum<'a>)
        ensures
            r matches ClNullEventPtrEnum::NullEventCore(x) && *x == *old(e) && *final(x)
                == *final(e),
    {
        ClNullEventPtrEnum::NullEventCore(e)
    }
}

impl<'a> vstd::std_specs::convert::FromSpecImpl<&'a mut NullEventCore> for ClNullEventPtrEnum<'a> {
    open spec fn obeys_from_spec() -> bool {
        false
    }

    open spec fn from_spec(e: &'a mut NullEventCore) -> Self {
        ClNullEventPtrEnum::NullEventCore(e)
    }
}

impl<'a> From<&'a mut EventListCore> for ClNullEventPtrEnum<'a> {
    /// Wraps a raw handle collection at the call boundary.
    fn from(l: &'a mut EventListCore) -> (r: ClNullEventPtrEnum<'a>)
        ensures
            r matches ClNullEventPtrEnum::EventListCore(x) && *x == *old(l) && *final(x)
                == *final(l),
    {
        ClNullEventPtrEnum::EventListCore(l)
    }
}

impl<'a> vstd::std_specs::convert::FromSpecImpl<&'a mut EventListCore> for ClNullEventPtrEnum<'a> {
    open spec fn obeys_from_spec() -> bool {
        false
    }

    open spec fn from_spec(l: &'a mut EventListCore) -> Self {
        ClNullEventPtrEnum::EventListCore(l)
    }
}

impl<'a> From<&'a mut Event> for ClNullEventPtrEnum<'a> {
    /// Wraps a higher-level completion slot at the call boundary.
    fn from(e: &'a mut Event) -> (r: ClNullEventPtrEnum<'a>)
        ensures
            r matches ClNullEventPtrEnum::Event(x) && *x == *old(e) && *final(x) == *final(e),
    {
        ClNullEventPtrEnum::Event(e)
    }
}

impl<'a> vstd::std_specs::convert::FromSpecImpl<&'a mut Event> for ClNullEventPtrEnum<'a> {
    open spec fn obeys_from_spec() -> bool {
        false
    }

    open spec fn from_spec(e: &'a mut Event) -> Self {
        ClNullEventPtrEnum::Event(e)
    }
}

impl<'a> From<&'a mut EventList> for ClNullEventPtrEnum<'a> {
    /// Wraps a higher-level slot collection at the call boundary.
    fn from(l: &'a mut EventList) -> (r: ClNullEventPtrEnum<'a>)
        ensures
            r matches ClNullEventPtrEnum::EventList(x) && *x == *old(l) && *final(x)
                == *final(l),
    {
        ClNullEventPtrEnum::EventList(l)
    }
}

impl<'a> vstd::std_specs::convert::FromSpecImpl<&'a mut EventList> for ClNullEventPtrEnum<'a> {
    open spec fn obeys_from_spec() -> bool {
        false
    }

    open spec fn from_spec(l: &'a mut EventList) -> Self {
        ClNullEventPtrEnum::EventList(l)
    }
}

} // verus!
