//! Tests of the registration protocol: exactly-once deregistration,
//! balanced reference counts on failure, and event dispatch through a
//! registered adapter.

use std::cell::RefCell;
use std::rc::Rc;

use winaudio::{
    AudioEndpointVolume, AudioSessionControl, AudioSessionManager2, DeviceEnumerator, Error,
    ForeignRuntime, NotificationClient, NotificationClientWrapper, ParentKind, WinStr, E_FAIL,
};

struct Quiet;

impl NotificationClient for Quiet {
}

struct Recorder {
    log: Rc<RefCell<Vec<String>>>,
}

impl NotificationClient for Recorder {
    fn on_device_added(&mut self, device_id: WinStr<'_>) -> Result<(), Error> {
        self.log.borrow_mut().push(device_id.to_string_lossy());
        Ok(())
    }
}

#[test]
fn register_then_release_balances_everything() {
    let mut rt = ForeignRuntime::new();
    let enumerator = DeviceEnumerator::new().unwrap();
    let handle = enumerator.register_endpoint_notification(&mut rt, Quiet).unwrap();
    assert_eq!(rt.register_calls, 1);
    assert_eq!(rt.registrations.len(), 1);
    assert_eq!(rt.registrations[0].parent.kind, ParentKind::Enumerator);
    assert_eq!(rt.registrations[0].adapter, 0);
    assert_eq!(rt.adapters, vec![1]);

    handle.release(&mut rt);
    assert_eq!(rt.unregister_calls, 1);
    assert_eq!(rt.registrations.len(), 0);
    assert_eq!(rt.adapters, vec![0]);
}

#[test]
fn explicit_unregister_consumes_the_handle() {
    let mut rt = ForeignRuntime::new();
    let enumerator = DeviceEnumerator::new().unwrap();
    let handle = enumerator.register_endpoint_notification(&mut rt, Quiet).unwrap();
    handle.unregister(&mut rt).unwrap();
    // the handle is gone: exactly one deregistration was issued, and no
    // scope-exit path can issue a second one
    assert_eq!(rt.unregister_calls, 1);
    assert_eq!(rt.registrations.len(), 0);
    assert_eq!(rt.adapters, vec![0]);
}

#[test]
fn failed_registration_leaves_no_dangling_reference() {
    let mut rt = ForeignRuntime::new();
    let enumerator = DeviceEnumerator::new().unwrap();
    rt.fail_next_register = true;
    match enumerator.register_endpoint_notification(&mut rt, Quiet) {
        Err(e) => assert_eq!(e, Error::Foreign(E_FAIL)),
        Ok(_) => panic!("expected the registration to fail"),
    }
    assert_eq!(rt.register_calls, 1);
    assert_eq!(rt.registrations.len(), 0);
    // the adapter was handed over and released again: no reference left
    assert_eq!(rt.adapters, vec![0]);
    assert_eq!(rt.adapters.iter().sum::<u64>(), 0);
}

#[test]
fn explicit_unregister_failure_is_surfaced() {
    let mut rt = ForeignRuntime::new();
    let enumerator = DeviceEnumerator::new().unwrap();
    let handle = enumerator.register_endpoint_notification(&mut rt, Quiet).unwrap();
    rt.fail_next_unregister = true;
    match handle.unregister(&mut rt) {
        Err(e) => assert_eq!(e, Error::Foreign(E_FAIL)),
        Ok(()) => panic!("expected the deregistration to fail"),
    }
    assert_eq!(rt.unregister_calls, 1);
}

#[test]
fn release_failure_is_absorbed() {
    let mut rt = ForeignRuntime::new();
    let enumerator = DeviceEnumerator::new().unwrap();
    let handle = enumerator.register_endpoint_notification(&mut rt, Quiet).unwrap();
    rt.fail_next_unregister = true;
    // the destruction path must not fail; the call is counted either way
    handle.release(&mut rt);
    assert_eq!(rt.unregister_calls, 1);
}

#[test]
fn unregister_through_the_enumerator() {
    let mut rt = ForeignRuntime::new();
    let enumerator = DeviceEnumerator::new().unwrap();
    let handle = enumerator.register_endpoint_notification(&mut rt, Quiet).unwrap();
    enumerator.unregister_endpoint_notification(&mut rt, handle).unwrap();
    assert_eq!(rt.unregister_calls, 1);
    assert_eq!(rt.registrations.len(), 0);
}

#[test]
fn each_parent_kind_records_its_identity() {
    let mut rt = ForeignRuntime::new();

    struct NoVolume;

    impl winaudio::AudioEndpointVolumeCallback for NoVolume {
    }

    struct NoDuck;

    impl winaudio::AudioVolumeDuckNotification for NoDuck {
    }

    struct NoSession;

    impl winaudio::AudioSessionNotification for NoSession {
    }

    struct NoEvents;

    impl winaudio::AudioSessionEvents for NoEvents {
    }

    let vol = AudioEndpointVolume::new(4);
    let h1 = vol.register_control_change_notify(&mut rt, NoVolume).unwrap();
    let mgr = AudioSessionManager2::new(5);
    let h2 = mgr.register_session_notification(&mut rt, NoSession).unwrap();
    let buf: Vec<u16> = vec![0x73, 0];
    let sid = WinStr::from_units(&buf);
    let h3 = mgr.register_duck_notification(&mut rt, &sid, NoDuck).unwrap();
    let ctl = AudioSessionControl::new(6, 2);
    let h4 = ctl.register_audio_session_notification(&mut rt, NoEvents).unwrap();

    assert_eq!(rt.registrations.len(), 4);
    assert_eq!(rt.registrations[0].parent.kind, ParentKind::Endpoint);
    assert_eq!(rt.registrations[0].parent.index, 4);
    assert_eq!(rt.registrations[1].parent.kind, ParentKind::SessionManager);
    assert_eq!(rt.registrations[1].parent.index, 5);
    assert_eq!(rt.registrations[2].parent.kind, ParentKind::SessionManager);
    assert_eq!(rt.registrations[3].parent.kind, ParentKind::SessionControl);
    assert_eq!(rt.registrations[3].parent.index, 6);
    assert_eq!(rt.registrations[3].parent.sub, 2);
    assert_eq!(rt.adapters, vec![1, 1, 1, 1]);

    // release in mixed order; every reference comes back
    h2.release(&mut rt);
    h4.unregister(&mut rt).unwrap();
    h1.release(&mut rt);
    h3.release(&mut rt);
    assert_eq!(rt.registrations.len(), 0);
    assert_eq!(rt.adapters, vec![0, 0, 0, 0]);
    assert_eq!(rt.unregister_calls, 4);
}

#[test]
fn dispatch_reaches_the_registered_callback() {
    let mut rt = ForeignRuntime::new();
    let log = Rc::new(RefCell::new(Vec::new()));
    let enumerator = DeviceEnumerator::new().unwrap();
    let mut handle = enumerator
        .register_endpoint_notification(&mut rt, Recorder { log: log.clone() })
        .unwrap();

    // the foreign side invokes the adapter with a raw terminated buffer
    let raw_id: Vec<u16> = vec![0x0058, 0x0059, 0, 0x5A];
    handle.adapter.on_device_added_raw(&raw_id).unwrap();
    assert_eq!(log.borrow().as_slice(), &["XY".to_string()]);

    handle.release(&mut rt);
    assert_eq!(rt.unregister_calls, 1);
}

#[test]
fn default_callback_methods_report_success() {
    let mut wrapper = NotificationClientWrapper::new(Quiet);
    let buf: Vec<u16> = vec![0x61, 0];
    assert!(wrapper.on_device_added_raw(&buf).is_ok());
    assert!(wrapper.on_device_removed_raw(&buf).is_ok());
    assert!(wrapper.on_default_device_changed_raw(0, 1, &buf).is_ok());
    assert!(wrapper.on_device_state_changed_raw(&buf, 0x4).is_ok());
    assert!(wrapper.on_property_value_changed_raw(&buf, 7, 9).is_ok());
}
