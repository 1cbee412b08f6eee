//! Tests of device enumeration, endpoint volume, and the session layer.

use std::cell::RefCell;
use std::rc::Rc;

use winaudio::{
    AudioSessionEvents, AudioSessionEventsWrapper, AudioSessionState, DataFlow, DataFlowMask,
    DeviceEnumerator, DeviceRecord, DeviceState, DeviceStateMask, EndpointRecord, Error,
    ForeignRuntime, Guid, HardwareSupportMask, SessionRecord, StorageAccessMode, StringAlloc,
    WinStr, E_NOTFOUND,
};

fn device(id: &[u16], flow: DataFlow, state: DeviceState) -> DeviceRecord {
    DeviceRecord {
        id: id.to_vec(),
        flow,
        state,
        store: Vec::new(),
        store_dirty: false,
        endpoint: EndpointRecord {
            channels: 2,
            muted: false,
            current_step: 3,
            num_steps: 5,
            hw_mask: 0x3,
        },
        sessions: Vec::new(),
    }
}

fn session(guid: u128) -> SessionRecord {
    SessionRecord {
        grouping: Guid::new(guid),
        state: AudioSessionState::Active,
        display_name: vec![0x6E, 0x31],
        icon_path: Vec::new(),
        session_id: vec![0x73, 0x31],
        instance_id: vec![0x69, 0x31],
        pid: 4242,
        system_sounds: false,
        muted: false,
        ducking_opt_out: false,
    }
}

fn three_device_runtime() -> ForeignRuntime {
    let mut rt = ForeignRuntime::new();
    rt.devices.push(device(&[0x61], DataFlow::Render, DeviceState::Active));
    rt.devices.push(device(&[0x62], DataFlow::Capture, DeviceState::Active));
    rt.devices.push(device(&[0x63], DataFlow::Render, DeviceState::Disabled));
    rt.default_render = Some(0);
    rt
}

#[test]
fn enumeration_filters_by_flow_and_state() {
    let rt = three_device_runtime();
    let e = DeviceEnumerator::new().unwrap();

    let all = e
        .enum_audio_endpoints(&rt, DataFlowMask::All, DeviceStateMask::all())
        .unwrap();
    assert_eq!(all.get_count().unwrap(), 3);

    let render_active = e
        .enum_audio_endpoints(&rt, DataFlowMask::Render, DeviceStateMask::active())
        .unwrap();
    assert_eq!(render_active.indices, vec![0]);

    let active = e
        .enum_audio_endpoints(&rt, DataFlowMask::All, DeviceStateMask::active())
        .unwrap();
    assert_eq!(active.indices, vec![0, 1]);

    let disabled_or_active = DeviceStateMask::active().union(&DeviceStateMask::disabled());
    let render = e
        .enum_audio_endpoints(&rt, DataFlowMask::Render, disabled_or_active)
        .unwrap();
    assert_eq!(render.indices, vec![0, 2]);
}

#[test]
fn collection_iteration_and_bounds() {
    let rt = three_device_runtime();
    let e = DeviceEnumerator::new().unwrap();
    let c = e
        .enum_audio_endpoints(&rt, DataFlowMask::All, DeviceStateMask::all())
        .unwrap();
    let mut it = c.iter();
    assert_eq!(it.size_hint(), 3);
    let mut seen = Vec::new();
    while let Some(d) = it.next() {
        seen.push(d.index);
    }
    assert_eq!(seen, vec![0, 1, 2]);
    assert!(it.next().is_none());
    assert!(c.item(3).is_err());
    assert_eq!(c.item(1).unwrap().index, 1);
}

#[test]
fn device_lookup_by_identifier() {
    let rt = three_device_runtime();
    let e = DeviceEnumerator::new().unwrap();
    let buf: Vec<u16> = vec![0x62, 0];
    let found = e.get_device(&rt, WinStr::from_units(&buf)).unwrap();
    assert_eq!(found.index, 1);

    let missing: Vec<u16> = vec![0x7A, 0];
    match e.get_device(&rt, WinStr::from_units(&missing)) {
        Err(err) => assert_eq!(err, Error::Foreign(E_NOTFOUND)),
        Ok(_) => panic!("expected not found"),
    }
}

#[test]
fn default_endpoint_lookup() {
    let rt = three_device_runtime();
    let e = DeviceEnumerator::new().unwrap();
    let d = e
        .get_default_audio_endpoint(&rt, DataFlow::Render, winaudio::DeviceRole::Console)
        .unwrap();
    assert_eq!(d.index, 0);
    match e.get_default_audio_endpoint(&rt, DataFlow::Capture, winaudio::DeviceRole::Multimedia) {
        Err(err) => assert_eq!(err, Error::Foreign(E_NOTFOUND)),
        Ok(_) => panic!("expected no default capture device"),
    }
}

#[test]
fn device_identity_and_state() {
    let mut rt = three_device_runtime();
    let d = winaudio::Device::new(2);
    assert_eq!(d.get_state(&rt).unwrap(), DeviceState::Disabled);
    let id = d.get_id(&mut rt).unwrap();
    assert_eq!(id.alloc_tag(), StringAlloc::Com);
    assert_eq!(id.as_winstr().to_string_lossy(), "c");
    assert_eq!(rt.com_allocs, 1);
    id.free(&mut rt);
    assert_eq!(rt.com_frees, 1);
}

#[test]
fn endpoint_volume_mute_and_steps() {
    let mut rt = three_device_runtime();
    let vol = winaudio::Device::new(0).activate_audio_endpoint_volume().unwrap();

    assert_eq!(vol.get_channel_count(&rt).unwrap(), 2);
    assert!(!vol.get_mute(&rt).unwrap());
    vol.set_mute(&mut rt, true, None).unwrap();
    assert!(vol.get_mute(&rt).unwrap());

    let info = vol.get_volume_step_info(&rt).unwrap();
    assert_eq!(info.current_step, 3);
    assert_eq!(info.num_steps, 5);

    vol.volume_step_up(&mut rt, None).unwrap();
    assert_eq!(vol.get_volume_step_info(&rt).unwrap().current_step, 4);
    // the top step holds
    vol.volume_step_up(&mut rt, None).unwrap();
    assert_eq!(vol.get_volume_step_info(&rt).unwrap().current_step, 4);

    for _ in 0..6 {
        vol.volume_step_down(&mut rt, None).unwrap();
    }
    // the bottom step holds
    assert_eq!(vol.get_volume_step_info(&rt).unwrap().current_step, 0);

    let hw = vol.query_hardware_support(&rt).unwrap();
    assert_eq!(hw.bits(), 0x3);
    assert!(hw.contains(&HardwareSupportMask::volume()));
    assert!(hw.contains(&HardwareSupportMask::mute()));
    assert!(!hw.contains(&HardwareSupportMask::meter()));
}

#[test]
fn session_lookup_and_metadata() {
    let mut rt = three_device_runtime();
    rt.devices[0].sessions.push(session(100));
    rt.devices[0].sessions.push(session(200));
    rt.devices[0].sessions[1].system_sounds = true;

    let mgr = winaudio::Device::new(0).activate_audio_session_manager().unwrap();
    let ctl = mgr.get_audio_session_control(&rt, &Guid::new(200)).unwrap();
    assert_eq!(ctl.session, 1);
    match mgr.get_audio_session_control(&rt, &Guid::new(300)) {
        Err(err) => assert_eq!(err, Error::Foreign(E_NOTFOUND)),
        Ok(_) => panic!("expected not found"),
    }

    let ctl2 = ctl.upgrade().unwrap();
    assert_eq!(ctl2.get_process_id(&rt).unwrap(), 4242);
    assert!(ctl2.is_system_sounds_session(&rt));
    let sid = ctl2.get_session_identifier(&mut rt).unwrap();
    assert_eq!(sid.as_winstr().to_string_lossy(), "s1");
    sid.free(&mut rt);
    let iid = ctl2.get_session_instance_identifier(&mut rt).unwrap();
    assert_eq!(iid.as_winstr().to_string_lossy(), "i1");
    iid.free(&mut rt);

    ctl2.set_ducking_preference(&mut rt, true).unwrap();
    assert!(rt.devices[0].sessions[1].ducking_opt_out);

    assert_eq!(ctl.get_state(&rt).unwrap(), AudioSessionState::Active);
    let name = ctl.get_display_name(&mut rt).unwrap();
    assert_eq!(name.as_winstr().to_string_lossy(), "n1");
    name.free(&mut rt);

    let buf: Vec<u16> = vec![0x6E, 0x32, 0];
    ctl.set_display_name(&mut rt, WinStr::from_units(&buf), None).unwrap();
    let renamed = ctl.get_display_name(&mut rt).unwrap();
    assert_eq!(renamed.as_winstr().to_string_lossy(), "n2");
    renamed.free(&mut rt);

    ctl.set_grouping_param(&mut rt, &Guid::new(777), None).unwrap();
    assert_eq!(ctl.get_grouping_param(&rt).unwrap(), Guid::new(777));
}

#[test]
fn session_enumeration_and_volume() {
    let mut rt = three_device_runtime();
    rt.devices[1].sessions.push(session(1));
    rt.devices[1].sessions.push(session(2));

    let mgr2 = winaudio::Device::new(1)
        .activate_audio_session_manager()
        .unwrap()
        .upgrade()
        .unwrap();
    let e = mgr2.get_session_enumerator(&rt).unwrap();
    assert_eq!(e.get_count(&rt).unwrap(), 2);
    assert!(e.get_session(&rt, 2).is_err());
    assert!(e.get_session(&rt, -1).is_err());

    let mut it = e.iter(&rt);
    assert_eq!(it.size_hint(), 2);
    let first = it.next().unwrap();
    assert_eq!(first.session, 0);
    let second = it.next().unwrap();
    assert_eq!(second.session, 1);
    assert!(it.next().is_none());

    let vol = second.get_simple_audio_volume().unwrap();
    assert!(!vol.get_mute(&rt).unwrap());
    vol.set_mute(&mut rt, true, None).unwrap();
    assert!(vol.get_mute(&rt).unwrap());
    assert!(!rt.devices[1].sessions[0].muted);

    // the downgraded manager sees the same device
    assert_eq!(mgr2.downgrade().device, 1);
    // an open store on the same device is independent of sessions
    let store = winaudio::Device::new(1).open_property_store(StorageAccessMode::Read).unwrap();
    assert_eq!(store.get_count(&rt).unwrap(), 0);
}

#[test]
fn session_event_dispatch_converts_raw_parameters() {
    let log: Rc<RefCell<Vec<String>>> = Rc::new(RefCell::new(Vec::new()));

    struct Sink {
        log: Rc<RefCell<Vec<String>>>,
    }

    impl AudioSessionEvents for Sink {
        fn on_display_name_changed(
            &mut self,
            new_display_name: WinStr<'_>,
            _event_context: Option<&Guid>,
        ) -> Result<(), Error> {
            self.log.borrow_mut().push(new_display_name.to_string_lossy());
            Ok(())
        }

        fn on_state_changed(&mut self, new_state: AudioSessionState) -> Result<(), Error> {
            self.log.borrow_mut().push(format!("{:?}", new_state));
            Ok(())
        }

        fn on_channel_volume_changed(
            &mut self,
            new_volume_levels_bits: &[u32],
            changed_channel: usize,
            _event_context: Option<&Guid>,
        ) -> Result<(), Error> {
            self.log
                .borrow_mut()
                .push(format!("{}ch@{}", new_volume_levels_bits.len(), changed_channel));
            Ok(())
        }
    }

    let mut w = AudioSessionEventsWrapper::new(Sink { log: log.clone() });
    let name: Vec<u16> = vec![0x4D, 0x75, 0x73, 0x69, 0x63, 0, 0xFFFF];
    w.on_display_name_changed_raw(&name, None).unwrap();
    w.on_state_changed_raw(2).unwrap();
    // a fixed-capacity array of which only the first two entries count
    let levels: Vec<u32> = vec![1, 2, 3, 4, 5, 6, 7, 8];
    w.on_channel_volume_changed_raw(2, &levels, 1, None).unwrap();
    w.on_session_disconnected_raw(3).unwrap();
    w.on_simple_volume_changed_raw(0x3F000000, 1, None).unwrap();
    let icon: Vec<u16> = vec![0x70, 0];
    w.on_icon_path_changed_raw(&icon, None).unwrap();
    w.on_grouping_param_changed_raw(Some(&Guid::new(1)), None).unwrap();

    assert_eq!(
        log.borrow().as_slice(),
        &["Music".to_string(), "Expired".to_string(), "2ch@1".to_string()]
    );
}

#[test]
fn endpoint_volume_callback_dispatch() {
    let seen: Rc<RefCell<Vec<(bool, u32, usize)>>> = Rc::new(RefCell::new(Vec::new()));

    struct Watch {
        seen: Rc<RefCell<Vec<(bool, u32, usize)>>>,
    }

    impl winaudio::AudioEndpointVolumeCallback for Watch {
        fn on_notify(&mut self, data: &winaudio::NotificationData) -> Result<(), Error> {
            self.seen.borrow_mut().push((
                data.muted,
                data.master_volume_bits,
                data.channel_volumes_bits.len(),
            ));
            Ok(())
        }
    }

    let mut w = winaudio::AudioEndpointVolumeCallbackWrapper::new(Watch { seen: seen.clone() });
    let channels: Vec<u32> = vec![10, 20, 30, 40, 50, 60, 70, 80];
    let master = 0.5f32.to_bits();
    w.on_notify_raw(Guid::new(9), 1, master, 2, &channels).unwrap();
    assert_eq!(seen.borrow().as_slice(), &[(true, master, 2)]);
}

#[test]
fn duck_notification_dispatch() {
    let log: Rc<RefCell<Vec<String>>> = Rc::new(RefCell::new(Vec::new()));

    struct Duck {
        log: Rc<RefCell<Vec<String>>>,
    }

    impl winaudio::AudioVolumeDuckNotification for Duck {
        fn on_volume_duck_notification(
            &mut self,
            session_id: WinStr<'_>,
            num_communication_sessions: u32,
        ) -> Result<(), Error> {
            self.log
                .borrow_mut()
                .push(format!("duck {} {}", session_id.to_string_lossy(), num_communication_sessions));
            Ok(())
        }

        fn on_volume_unduck_notification(&mut self, session_id: WinStr<'_>) -> Result<(), Error> {
            self.log.borrow_mut().push(format!("unduck {}", session_id.to_string_lossy()));
            Ok(())
        }
    }

    let mut w = winaudio::AudioVolumeDuckNotificationWrapper::new(Duck { log: log.clone() });
    let sid: Vec<u16> = vec![0x73, 0];
    w.on_volume_duck_notification_raw(&sid, 2).unwrap();
    w.on_volume_unduck_notification_raw(&sid).unwrap();
    assert_eq!(log.borrow().as_slice(), &["duck s 2".to_string(), "unduck s".to_string()]);
}

#[test]
fn session_created_dispatch() {
    let seen: Rc<RefCell<Vec<(u64, u64)>>> = Rc::new(RefCell::new(Vec::new()));

    struct Created {
        seen: Rc<RefCell<Vec<(u64, u64)>>>,
    }

    impl winaudio::AudioSessionNotification for Created {
        fn on_session_created(
            &mut self,
            new_session: winaudio::AudioSessionControl,
        ) -> Result<(), Error> {
            self.seen.borrow_mut().push((new_session.device, new_session.session));
            Ok(())
        }
    }

    let mut w = winaudio::AudioSessionNotificationWrapper::new(Created { seen: seen.clone() });
    w.on_session_created_raw(Some(winaudio::AudioSessionControl::new(3, 7))).unwrap();
    assert_eq!(seen.borrow().as_slice(), &[(3, 7)]);
}

#[test]
fn identifier_getter_surfaces_out_of_memory() {
    let mut rt = three_device_runtime();
    rt.fail_next_alloc = true;
    match winaudio::Device::new(0).get_id(&mut rt) {
        Err(e) => assert_eq!(e, Error::Foreign(winaudio::E_OUTOFMEMORY)),
        Ok(_) => panic!("expected the foreign getter to fail"),
    }
    assert_eq!(rt.com_allocs, 0);
}
