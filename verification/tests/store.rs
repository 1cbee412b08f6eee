//! Tests of the property store over the modeled foreign runtime.

use winaudio::{
    DataFlow, Device, DeviceRecord, DeviceState, EndpointRecord, Error, ForeignRuntime, Guid,
    Property, PropertyKey, StorageAccessMode, E_ACCESSDENIED, E_INVALIDARG,
};

fn test_device() -> DeviceRecord {
    DeviceRecord {
        id: vec![0x64, 0x65, 0x76],
        flow: DataFlow::Render,
        state: DeviceState::Active,
        store: Vec::new(),
        store_dirty: false,
        endpoint: EndpointRecord {
            channels: 2,
            muted: false,
            current_step: 3,
            num_steps: 10,
            hw_mask: 0x7,
        },
        sessions: Vec::new(),
    }
}

fn key(pid: u32) -> PropertyKey {
    PropertyKey::from_raw(Guid::new(0x1234_5678_9ABC_DEF0), pid)
}

#[test]
fn set_then_get_round_trips_through_the_raw_form() {
    let mut rt = ForeignRuntime::new();
    rt.devices.push(test_device());
    let device = Device::new(0);
    let store = device.open_property_store(StorageAccessMode::ReadWrite).unwrap();

    store.set_value(&mut rt, &key(1), &Property::I32(-42)).unwrap();
    assert_eq!(store.get_value(&mut rt, &key(1)).unwrap(), Property::I32(-42));
    assert!(rt.devices[0].store_dirty);

    store.set_value(&mut rt, &key(1), &Property::U64(7)).unwrap();
    assert_eq!(store.get_value(&mut rt, &key(1)).unwrap(), Property::U64(7));
    assert_eq!(store.get_count(&rt).unwrap(), 1);

    store.set_value(&mut rt, &key(2), &Property::Bool(true)).unwrap();
    assert_eq!(store.get_count(&rt).unwrap(), 2);
    assert_eq!(store.get_at(&rt, 0).unwrap(), key(1));
    assert_eq!(store.get_at(&rt, 1).unwrap(), key(2));
    assert_eq!(store.get_at(&rt, 2), Err(Error::Foreign(E_INVALIDARG)));
}

#[test]
fn absent_key_reads_as_empty() {
    let mut rt = ForeignRuntime::new();
    rt.devices.push(test_device());
    let store = Device::new(0).open_property_store(StorageAccessMode::Read).unwrap();
    assert_eq!(store.get_value(&mut rt, &key(9)).unwrap(), Property::Empty);
}

#[test]
fn read_only_store_rejects_writes() {
    let mut rt = ForeignRuntime::new();
    rt.devices.push(test_device());
    let store = Device::new(0).open_property_store(StorageAccessMode::Read).unwrap();
    match store.set_value(&mut rt, &key(1), &Property::I32(1)) {
        Err(e) => assert_eq!(e, Error::Foreign(E_ACCESSDENIED)),
        Ok(()) => panic!("expected access denied"),
    }
    assert_eq!(rt.devices[0].store.len(), 0);
    assert!(!rt.devices[0].store_dirty);
}

#[test]
fn unsupported_value_is_not_encodable_and_writes_nothing() {
    let mut rt = ForeignRuntime::new();
    rt.devices.push(test_device());
    let store = Device::new(0).open_property_store(StorageAccessMode::ReadWrite).unwrap();
    match store.set_value(&mut rt, &key(1), &Property::Unsupported) {
        Err(e) => assert_eq!(e, Error::NotEncodable),
        Ok(()) => panic!("expected not encodable"),
    }
    assert_eq!(rt.devices[0].store.len(), 0);
    assert!(!rt.devices[0].store_dirty);
}

#[test]
fn text_values_round_trip_through_the_store() {
    let mut rt = ForeignRuntime::new();
    rt.devices.push(test_device());
    let store = Device::new(0).open_property_store(StorageAccessMode::ReadWrite).unwrap();

    let name = winaudio::WinString::from_com_buffer(vec![0x48, 0x69, 0]);
    store.set_value(&mut rt, &key(3), &Property::Str(name)).unwrap();
    let allocs_before = rt.com_allocs;
    match store.get_value(&mut rt, &key(3)).unwrap() {
        Property::Str(s) => {
            assert_eq!(s.as_winstr().to_string_lossy(), "Hi");
            s.free(&mut rt);
        }
        other => panic!("unexpected variant {:?}", other),
    }
    assert_eq!(rt.com_allocs, allocs_before + 1);
    assert_eq!(rt.com_frees, 1);
}

#[test]
fn commit_clears_the_dirty_mark() {
    let mut rt = ForeignRuntime::new();
    rt.devices.push(test_device());
    let store = Device::new(0).open_property_store(StorageAccessMode::ReadWrite).unwrap();
    store.set_value(&mut rt, &key(1), &Property::U8(5)).unwrap();
    assert!(rt.devices[0].store_dirty);
    store.commit(&mut rt).unwrap();
    assert!(!rt.devices[0].store_dirty);
    assert_eq!(store.get_value(&mut rt, &key(1)).unwrap(), Property::U8(5));
}

#[test]
fn device_key_constants_are_distinct() {
    let a = winaudio::device_interface_friendly_name();
    let b = winaudio::device_description();
    let c = winaudio::device_friendly_name();
    assert_ne!(a, b);
    assert_ne!(b, c);
    assert_ne!(a, c);
    assert_eq!(b.fmtid, c.fmtid);
    assert_eq!(c.pid, 14);
}
