use ocl::DeviceSpecifier;
use ocl::{Device, DeviceId, DeviceType, EnumerationError};

fn id(handle: usize) -> DeviceId {
    DeviceId { handle }
}

fn full_list() -> Vec<DeviceId> {
    vec![id(10), id(20), id(30)]
}

#[test]
fn resolve_all_returns_enumeration_order() {
    let spec = DeviceSpecifier::All;
    let r = spec.to_device_list(Ok(full_list()), None);
    assert_eq!(r, Ok(vec![id(10), id(20), id(30)]));
}

#[test]
fn resolve_all_propagates_enumeration_failure() {
    let spec = DeviceSpecifier::All;
    let err = EnumerationError { status: -30 };
    let r = spec.to_device_list(Err(err), None);
    assert_eq!(r, Err(err));
}

#[test]
fn resolve_index_returns_singleton() {
    let spec = DeviceSpecifier::Index(1);
    let r = spec.to_device_list(Ok(full_list()), None);
    assert_eq!(r, Ok(vec![id(20)]));
}

#[test]
fn resolve_index_propagates_enumeration_failure() {
    let spec = DeviceSpecifier::Index(1);
    let err = EnumerationError { status: -5 };
    let r = spec.to_device_list(Err(err), None);
    assert_eq!(r, Err(err));
}

#[test]
fn resolve_indices_preserves_order_and_duplicates() {
    let spec = DeviceSpecifier::Indices(vec![2, 0, 2]);
    let r = spec.to_device_list(Ok(full_list()), None);
    assert_eq!(r, Ok(vec![id(30), id(10), id(30)]));
}

#[test]
fn resolve_indices_empty_list_selects_nothing() {
    let spec = DeviceSpecifier::Indices(vec![]);
    let r = spec.to_device_list(Ok(full_list()), None);
    assert_eq!(r, Ok(vec![]));
}

#[test]
fn resolve_single_ignores_failed_enumeration() {
    let spec = DeviceSpecifier::Single(Device { core: id(77) });
    let err = EnumerationError { status: -1 };
    let r = spec.to_device_list(Err(err), None);
    assert_eq!(r, Ok(vec![id(77)]));
}

#[test]
fn resolve_list_ignores_failed_enumeration() {
    let devices = vec![Device { core: id(5) }, Device { core: id(6) }];
    let spec = DeviceSpecifier::List(devices);
    let err = EnumerationError { status: -1 };
    let r = spec.to_device_list(Err(err), None);
    assert_eq!(r, Ok(vec![id(5), id(6)]));
}

#[test]
fn resolve_list_keeps_order_on_successful_enumeration() {
    let devices = vec![Device { core: id(9) }, Device { core: id(8) }];
    let spec = DeviceSpecifier::List(devices);
    let r = spec.to_device_list(Ok(full_list()), None);
    assert_eq!(r, Ok(vec![id(9), id(8)]));
}

#[test]
fn resolve_type_flags_returns_second_enumeration() {
    let spec = DeviceSpecifier::TypeFlags(DeviceType { bits: ocl::device::DEVICE_TYPE_GPU });
    let typed = vec![id(40), id(50)];
    let r = spec.to_device_list(Ok(full_list()), Some(Ok(typed)));
    assert_eq!(r, Ok(vec![id(40), id(50)]));
}

#[test]
fn resolve_type_flags_propagates_typed_failure() {
    let spec = DeviceSpecifier::TypeFlags(DeviceType { bits: ocl::device::DEVICE_TYPE_CPU });
    let err = EnumerationError { status: -2 };
    let r = spec.to_device_list(Ok(full_list()), Some(Err(err)));
    assert_eq!(r, Err(err));
}

#[test]
fn resolve_type_flags_propagates_first_failure() {
    let spec = DeviceSpecifier::TypeFlags(DeviceType { bits: ocl::device::DEVICE_TYPE_ALL });
    let first = EnumerationError { status: -3 };
    let r = spec.to_device_list(Err(first), Some(Ok(vec![id(1)])));
    assert_eq!(r, Err(first));
}

#[test]
fn type_filter_only_on_type_flags() {
    let flags = DeviceType { bits: ocl::device::DEVICE_TYPE_ACCELERATOR };
    assert_eq!(DeviceSpecifier::TypeFlags(flags).type_filter(), Some(flags));
    assert_eq!(DeviceSpecifier::All.type_filter(), None);
    assert_eq!(DeviceSpecifier::Index(0).type_filter(), None);
}

#[test]
fn indices_within_decides_the_fatal_index_policy() {
    assert!(DeviceSpecifier::Index(2).indices_within(3));
    assert!(!DeviceSpecifier::Index(3).indices_within(3));
    assert!(DeviceSpecifier::Indices(vec![0, 2, 1]).indices_within(3));
    assert!(!DeviceSpecifier::Indices(vec![0, 3]).indices_within(3));
    assert!(DeviceSpecifier::All.indices_within(0));
}

#[test]
fn device_as_core_returns_wrapped_id() {
    let d = Device::new(id(123));
    assert_eq!(*d.as_core(), id(123));
}
