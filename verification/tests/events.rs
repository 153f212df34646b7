use ocl::{ClNullEventPtrEnum, ClWaitListPtrEnum};
use ocl::{Event, EventCore, EventList, EventListCore, NullEventCore, UserEventCore};

#[test]
fn wait_list_over_empty_collection_counts_zero() {
    let list = EventListCore::new();
    let union = ClWaitListPtrEnum::from(&list);
    assert_eq!(union.handle_count(), 0);
}

#[test]
fn wait_list_over_single_populated_handle() {
    let event = EventCore::new(42);
    let union = ClWaitListPtrEnum::from(&event);
    assert_eq!(union.handle_count(), 1);
    assert_eq!(union.handle_at(0), 42);
}

#[test]
fn wait_list_over_user_event() {
    let event = UserEventCore::new(99);
    let union: ClWaitListPtrEnum = (&event).into();
    assert_eq!(union.handle_count(), 1);
    assert_eq!(union.handle_at(0), 99);
}

#[test]
fn wait_list_over_collection_keeps_order() {
    let mut list = EventListCore::new();
    list.push_handle(7);
    list.push_handle(8);
    let union = ClWaitListPtrEnum::from(&list);
    assert_eq!(union.handle_count(), 2);
    assert_eq!(union.handle_at(0), 7);
    assert_eq!(union.handle_at(1), 8);
}

#[test]
fn wait_list_over_empty_event_slot_counts_zero() {
    let event = Event::empty();
    let union = ClWaitListPtrEnum::from(&event);
    assert_eq!(union.handle_count(), 0);
}

#[test]
fn wait_list_over_populated_event_slot() {
    let event = Event::from_core(&EventCore::new(13));
    assert!(!event.is_empty());
    let union = ClWaitListPtrEnum::from(&event);
    assert_eq!(union.handle_count(), 1);
    assert_eq!(union.handle_at(0), 13);
}

#[test]
fn wait_list_over_event_list_wrapper() {
    let mut list = EventList::new();
    list.push(Event::from_core(&EventCore::new(5)));
    list.push(Event::empty());
    let union = ClWaitListPtrEnum::from(&list);
    assert_eq!(union.handle_count(), 2);
    assert_eq!(union.handle_at(0), 5);
    assert_eq!(union.handle_at(1), 0);
}

#[test]
fn claim_twice_on_single_slot_is_idempotent() {
    let mut event = Event::empty();
    let first = ClNullEventPtrEnum::from(&mut event).claim_writable_slot();
    let second = ClNullEventPtrEnum::from(&mut event).claim_writable_slot();
    assert_eq!(first, Ok(0));
    assert_eq!(second, Ok(0));
    assert_eq!(event, Event::empty());
}

#[test]
fn claim_twice_on_null_event_core_is_idempotent() {
    let mut slot = NullEventCore::new();
    assert_eq!(ClNullEventPtrEnum::from(&mut slot).claim_writable_slot(), Ok(0));
    assert_eq!(ClNullEventPtrEnum::from(&mut slot).claim_writable_slot(), Ok(0));
}

#[test]
fn claim_on_collection_appends_an_empty_slot() {
    let mut list = EventListCore::new();
    list.push_handle(7);
    list.push_handle(8);
    assert_eq!(ClNullEventPtrEnum::from(&mut list).claim_writable_slot(), Ok(2));
    assert_eq!(list.handles, vec![7, 8, 0]);
}

#[test]
fn claims_on_event_list_wrapper_take_fresh_slots() {
    let mut list = EventList::new();
    assert_eq!(ClNullEventPtrEnum::from(&mut list).claim_writable_slot(), Ok(0));
    assert_eq!(ClNullEventPtrEnum::from(&mut list).claim_writable_slot(), Ok(1));
    assert_eq!(list.events, vec![Event::empty(), Event::empty()]);
}
