//! Control over one audio session: its display data, its state, and the
//! registration of per-session event callbacks.

use vstd::prelude::*;

use crate::audio_session_events::{AudioSessionEvents, AudioSessionEventsWrapper};
use crate::bits::AudioSessionState;
use crate::error::Error;
use crate::foreign::{
    deregistration_transition, device_same_except_sessions, registration_transition,
    rt_same_except_device, session_same_except_display_name, session_same_except_ducking,
    session_same_except_grouping, session_same_except_icon_path, sessions_same_except,
    ForeignRuntime, Guid, ParentId, ParentKind, Registration, SessionRecord,
};
use crate::simple_audio_volume::SimpleAudioVolume;
use crate::string::{com_string_out, copy_prefix, WinStr, WinString};

verus! {

/// A session-control object: names one session of one device.
#[derive(Debug, Clone, Copy, PartialEq, Eq, Structural)]
pub struct AudioSessionControl {
    pub device: u64,
    pub session: u64,
}

impl AudioSessionControl {
    pub open spec fn valid(&self, rt: ForeignRuntime) -> bool {
        &&& self.device < rt.devices@.len()
        &&& self.session < rt.devices@[self.device as int].sessions@.len()
    }

    pub open spec fn record(&self, rt: ForeignRuntime) -> SessionRecord {
        rt.devices@[self.device as int].sessions@[self.session as int]
    }

    /// The identity this control registers callbacks under.
    pub open spec fn parent_id(&self) -> ParentId {
        ParentId { kind: ParentKind::SessionControl, index: self.device, sub: self.session }
    }

    pub fn new(device: u64, session: u64) -> (r: Self)
        ensures
            r.device == device,
            r.session == session,
    {
        AudioSessionControl { device, session }
    }

    /// The session's display name, as a fresh COM-allocated owned string.
    pub fn get_display_name(&self, rt: &mut ForeignRuntime) -> (r: Result<WinString, Error>)
        requires
            self.valid(*old(rt)),
            old(rt).wf_devices(),
            old(rt).com_allocs < u64::MAX,
        ensures
            crate::foreign::registry_unchanged(*old(rt), *final(rt)),
            crate::foreign::devices_unchanged(*old(rt), *final(rt)),
            (match r {
                Ok(s) => s@ == self.record(*old(rt)).display_name@ && s.tag()
                    == crate::string::StringAlloc::Com,
                Err(e) => e == Error::Foreign(crate::error::E_OUTOFMEMORY) && old(rt).fail_next_alloc,
            }),
    {
        let d = rt.device_index(self.device);
        let s = rt.session_index(d, self.session);
        let name = &rt.devices[d].sessions[s].display_name;
        let units = copy_prefix(name.as_slice(), name.len());
        com_string_out(rt, units)
    }

    /// Set the session's display name.
    pub fn set_display_name(
        &self,
        rt: &mut ForeignRuntime,
        value: WinStr<'_>,
        event_context: Option<&Guid>,
    ) -> (r: Result<(), Error>)
        requires
            self.valid(*old(rt)),
            value.wf(),
        ensures
            r == Ok::<(), Error>(()),
            rt_same_except_device(*old(rt), *final(rt), self.device as int),
            device_same_except_sessions(
                old(rt).devices@[self.device as int],
                final(rt).devices@[self.device as int],
            ),
            sessions_same_except(
                old(rt).devices@[self.device as int],
                final(rt).devices@[self.device as int],
                self.session as int,
            ),
            session_same_except_display_name(self.record(*old(rt)), self.record(*final(rt))),
            self.record(*final(rt)).display_name@ == value@,
            old(rt).wf_devices() ==> final(rt).wf_devices(),
    {
        let _ = event_context;
        let d = rt.device_index(self.device);
        let s = rt.session_index(d, self.session);
        let slice = value.as_slice();
        rt.devices[d].sessions[s].display_name = copy_prefix(slice, slice.len());
        proof {
            assert(self.record(*final(rt)).display_name@ =~= value@);
            if old(rt).wf_devices() {
                assert forall|j: int| 0 <= j < final(rt).devices@.len() implies (#[trigger] final(rt).devices@[j]).wf() by {
                    assert(old(rt).devices@[j].wf());
                }
            }
        }
        Ok(())
    }

    /// The session's icon path, as a fresh COM-allocated owned string.
    pub fn get_icon_path(&self, rt: &mut ForeignRuntime) -> (r: Result<WinString, Error>)
        requires
            self.valid(*old(rt)),
            old(rt).wf_devices(),
            old(rt).com_allocs < u64::MAX,
        ensures
            crate::foreign::registry_unchanged(*old(rt), *final(rt)),
            crate::foreign::devices_unchanged(*old(rt), *final(rt)),
            (match r {
                Ok(s) => s@ == self.record(*old(rt)).icon_path@ && s.tag()
                    == crate::string::StringAlloc::Com,
                Err(e) => e == Error::Foreign(crate::error::E_OUTOFMEMORY) && old(rt).fail_next_alloc,
            }),
    {
        let d = rt.device_index(self.device);
        let s = rt.session_index(d, self.session);
        let path = &rt.devices[d].sessions[s].icon_path;
        let units = copy_prefix(path.as_slice(), path.len());
        com_string_out(rt, units)
    }

    /// Set the session's icon path.
    pub fn set_icon_path(
        &self,
        rt: &mut ForeignRuntime,
        value: WinStr<'_>,
        event_context: Option<&Guid>,
    ) -> (r: Result<(), Error>)
        requires
            self.valid(*old(rt)),
            value.wf(),
        ensures
            r == Ok::<(), Error>(()),
            rt_same_except_device(*old(rt), *final(rt), self.device as int),
            device_same_except_sessions(
                old(rt).devices@[self.device as int],
                final(rt).devices@[self.device as int],
            ),
            sessions_same_except(
                old(rt).devices@[self.device as int],
                final(rt).devices@[self.device as int],
                self.session as int,
            ),
            session_same_except_icon_path(self.record(*old(rt)), self.record(*final(rt))),
            self.record(*final(rt)).icon_path@ == value@,
            old(rt).wf_devices() ==> final(rt).wf_devices(),
    {
        let _ = event_context;
        let d = rt.device_index(self.device);
        let s = rt.session_index(d, self.session);
        let slice = value.as_slice();
        rt.devices[d].sessions[s].icon_path = copy_prefix(slice, slice.len());
        proof {
            assert(self.record(*final(rt)).icon_path@ =~= value@);
            if old(rt).wf_devices() {
                assert forall|j: int| 0 <= j < final(rt).devices@.len() implies (#[trigger] final(rt).devices@[j]).wf() by {
                    assert(old(rt).devices@[j].wf());
                }
            }
        }
        Ok(())
    }

    /// The session's grouping parameter.
    pub fn get_grouping_param(&self, rt: &ForeignRuntime) -> (r: Result<Guid, Error>)
        requires
            self.valid(*rt),
        ensures
            r == Ok::<Guid, Error>(self.record(*rt).grouping),
    {
        let d = rt.device_index(self.device);
        let s = rt.session_index(d, self.session);
        Ok(rt.devices[d].sessions[s].grouping)
    }

    /// Set the session's grouping parameter.
    pub fn set_grouping_param(
        &self,
        rt: &mut ForeignRuntime,
        value: &Guid,
        event_context: Option<&Guid>,
    ) -> (r: Result<(), Error>)
        requires
            self.valid(*old(rt)),
        ensures
            r == Ok::<(), Error>(()),
            rt_same_except_device(*old(rt), *final(rt), self.device as int),
            device_same_except_sessions(
                old(rt).devices@[self.device as int],
                final(rt).devices@[self.device as int],
            ),
            sessions_same_except(
                old(rt).devices@[self.device as int],
                final(rt).devices@[self.device as int],
                self.session as int,
            ),
            session_same_except_grouping(self.record(*old(rt)), self.record(*final(rt))),
            self.record(*final(rt)).grouping == *value,
            old(rt).wf_devices() ==> final(rt).wf_devices(),
    {
        let _ = event_context;
        let d = rt.device_index(self.device);
        let s = rt.session_index(d, self.session);
        rt.devices[d].sessions[s].grouping = *value;
        proof {
            if old(rt).wf_devices() {
                assert forall|j: int| 0 <= j < final(rt).devices@.len() implies (#[trigger] final(rt).devices@[j]).wf() by {
                    assert(old(rt).devices@[j].wf());
                }
            }
        }
        Ok(())
    }

    /// The session's activity state.
    pub fn get_state(&self, rt: &ForeignRuntime) -> (r: Result<AudioSessionState, Error>)
        requires
            self.valid(*rt),
        ensures
            r == Ok::<AudioSessionState, Error>(self.record(*rt).state),
    {
        let d = rt.device_index(self.device);
        let s = rt.session_index(d, self.session);
        Ok(rt.devices[d].sessions[s].state)
    }

    /// Register a per-session event callback; the returned handle owns the
    /// adapter and guarantees exactly one deregistration.
    pub fn register_audio_session_notification<T: AudioSessionEvents + 'static>(
        &self,
        rt: &mut ForeignRuntime,
        session_notification: T,
    ) -> (r: Result<AudioSessionEventsHandle, Error>)
        requires
            old(rt).adapters@.len() < u64::MAX,
            old(rt).register_calls < u64::MAX,
        ensures
            (match r {
                Ok(h) => {
                    &&& h.registration() == (Registration {
                        parent: self.parent_id(),
                        adapter: old(rt).adapters@.len() as u64,
                    })
                    &&& registration_transition(
                        *old(rt),
                        *final(rt),
                        self.parent_id(),
                        Ok(h.registration().adapter),
                    )
                    &&& final(rt).registration_live(h.registration())
                },
                Err(e) => registration_transition(
                    *old(rt),
                    *final(rt),
                    self.parent_id(),
                    Err::<u64, Error>(e),
                ),
            }),
            old(rt).wf_registry() ==> final(rt).wf_registry(),
    {
        let wrapper = AudioSessionEventsWrapper::new(session_notification);
        let parent = ParentId {
            kind: ParentKind::SessionControl,
            index: self.device,
            sub: self.session,
        };
        match rt.accept_registration(parent) {
            Ok(adapter) => {
                let reg = Registration { parent, adapter };
                proof {
                    assert(rt.registrations@[rt.registrations@.len() - 1] == reg);
                    assert(rt.registrations@.contains(reg));
                }
                Ok(AudioSessionEventsHandle { adapter: wrapper, reg })
            },
            Err(e) => Err(e),
        }
    }

    /// Deregister a callback through the control it was registered on,
    /// consuming the handle.
    pub fn unregister_audio_session_notification(
        &self,
        rt: &mut ForeignRuntime,
        handle: AudioSessionEventsHandle,
    ) -> (r: Result<(), Error>)
        requires
            old(rt).unregister_calls < u64::MAX,
            old(rt).registration_live(handle.registration()),
            handle.registration().parent == self.parent_id(),
        ensures
            deregistration_transition(*old(rt), *final(rt), handle.registration(), r),
            old(rt).wf_registry() ==> final(rt).wf_registry(),
    {
        rt.end_registration(handle.reg)
    }

    /// The control seen as a second-revision control.
    pub fn upgrade(&self) -> (r: Result<AudioSessionControl2, Error>)
        ensures
            r == Ok::<AudioSessionControl2, Error>(
                AudioSessionControl2 { device: self.device, session: self.session },
            ),
    {
        Ok(AudioSessionControl2 { device: self.device, session: self.session })
    }

    /// The per-session volume control of the same session.
    pub fn get_simple_audio_volume(&self) -> (r: Result<SimpleAudioVolume, Error>)
        ensures
            r == Ok::<SimpleAudioVolume, Error>(
                SimpleAudioVolume { device: self.device, session: self.session },
            ),
    {
        Ok(SimpleAudioVolume { device: self.device, session: self.session })
    }
}

/// Second-revision session control: identity and ducking preferences.
#[derive(Debug, Clone, Copy, PartialEq, Eq, Structural)]
pub struct AudioSessionControl2 {
    pub device: u64,
    pub session: u64,
}

impl AudioSessionControl2 {
    pub open spec fn valid(&self, rt: ForeignRuntime) -> bool {
        &&& self.device < rt.devices@.len()
        &&& self.session < rt.devices@[self.device as int].sessions@.len()
    }

    pub open spec fn record(&self, rt: ForeignRuntime) -> SessionRecord {
        rt.devices@[self.device as int].sessions@[self.session as int]
    }

    pub fn new(device: u64, session: u64) -> (r: Self)
        ensures
            r.device == device,
            r.session == session,
    {
        AudioSessionControl2 { device, session }
    }

    /// The first-revision control of the same session.
    pub fn downgrade(&self) -> (r: AudioSessionControl)
        ensures
            r == (AudioSessionControl { device: self.device, session: self.session }),
    {
        AudioSessionControl { device: self.device, session: self.session }
    }

    /// The process the session belongs to.
    pub fn get_process_id(&self, rt: &ForeignRuntime) -> (r: Result<u32, Error>)
        requires
            self.valid(*rt),
        ensures
            r == Ok::<u32, Error>(self.record(*rt).pid),
    {
        let d = rt.device_index(self.device);
        let s = rt.session_index(d, self.session);
        Ok(rt.devices[d].sessions[s].pid)
    }

    /// The session identifier, as a fresh COM-allocated owned string.
    pub fn get_session_identifier(&self, rt: &mut ForeignRuntime) -> (r: Result<WinString, Error>)
        requires
            self.valid(*old(rt)),
            old(rt).wf_devices(),
            old(rt).com_allocs < u64::MAX,
        ensures
            crate::foreign::registry_unchanged(*old(rt), *final(rt)),
            crate::foreign::devices_unchanged(*old(rt), *final(rt)),
            (match r {
                Ok(s) => s@ == self.record(*old(rt)).session_id@ && s.tag()
                    == crate::string::StringAlloc::Com,
                Err(e) => e == Error::Foreign(crate::error::E_OUTOFMEMORY) && old(rt).fail_next_alloc,
            }),
    {
        let d = rt.device_index(self.device);
        let s = rt.session_index(d, self.session);
        let id = &rt.devices[d].sessions[s].session_id;
        let units = copy_prefix(id.as_slice(), id.len());
        com_string_out(rt, units)
    }

    /// The session instance identifier, as a fresh COM-allocated owned
    /// string.
    pub fn get_session_instance_identifier(&self, rt: &mut ForeignRuntime) -> (r: Result<
        WinString,
        Error,
    >)
        requires
            self.valid(*old(rt)),
            old(rt).wf_devices(),
            old(rt).com_allocs < u64::MAX,
        ensures
            crate::foreign::registry_unchanged(*old(rt), *final(rt)),
            crate::foreign::devices_unchanged(*old(rt), *final(rt)),
            (match r {
                Ok(s) => s@ == self.record(*old(rt)).instance_id@ && s.tag()
                    == crate::string::StringAlloc::Com,
                Err(e) => e == Error::Foreign(crate::error::E_OUTOFMEMORY) && old(rt).fail_next_alloc,
            }),
    {
        let d = rt.device_index(self.device);
        let s = rt.session_index(d, self.session);
        let id = &rt.devices[d].sessions[s].instance_id;
        let units = copy_prefix(id.as_slice(), id.len());
        com_string_out(rt, units)
    }

    /// Whether this is the system-sounds session.
    pub fn is_system_sounds_session(&self, rt: &ForeignRuntime) -> (r: bool)
        requires
            self.valid(*rt),
        ensures
            r == self.record(*rt).system_sounds,
    {
        let d = rt.device_index(self.device);
        let s = rt.session_index(d, self.session);
        rt.devices[d].sessions[s].system_sounds
    }

    /// Opt the session in or out of automatic ducking.
    pub fn set_ducking_preference(&self, rt: &mut ForeignRuntime, opt_out: bool) -> (r: Result<
        (),
        Error,
    >)
        requires
            self.valid(*old(rt)),
        ensures
            r == Ok::<(), Error>(()),
            rt_same_except_device(*old(rt), *final(rt), self.device as int),
            device_same_except_sessions(
                old(rt).devices@[self.device as int],
                final(rt).devices@[self.device as int],
            ),
            sessions_same_except(
                old(rt).devices@[self.device as int],
                final(rt).devices@[self.device as int],
                self.session as int,
            ),
            session_same_except_ducking(self.record(*old(rt)), self.record(*final(rt))),
            self.record(*final(rt)).ducking_opt_out == opt_out,
            old(rt).wf_devices() ==> final(rt).wf_devices(),
    {
        let d = rt.device_index(self.device);
        let s = rt.session_index(d, self.session);
        rt.devices[d].sessions[s].ducking_opt_out = opt_out;
        proof {
            if old(rt).wf_devices() {
                assert forall|j: int| 0 <= j < final(rt).devices@.len() implies (#[trigger] final(rt).devices@[j]).wf() by {
                    assert(old(rt).devices@[j].wf());
                }
            }
        }
        Ok(())
    }
}

/// One active per-session event registration. Releasing or explicitly
/// unregistering it consumes it, so exactly one deregistration is ever
/// issued for it.
pub struct AudioSessionEventsHandle {
    /// The adapter that was registered; the foreign side dispatches events
    /// through it.
    pub adapter: AudioSessionEventsWrapper,
    pub(crate) reg: Registration,
}

impl AudioSessionEventsHandle {
    /// The registration this handle stands for.
    pub closed spec fn registration(&self) -> Registration {
        self.reg
    }

    /// Explicit deregistration: issues the one deregistration call and
    /// surfaces its failure.
    pub fn unregister(self, rt: &mut ForeignRuntime) -> (r: Result<(), Error>)
        requires
            old(rt).unregister_calls < u64::MAX,
            old(rt).registration_live(self.registration()),
        ensures
            deregistration_transition(*old(rt), *final(rt), self.registration(), r),
            old(rt).wf_registry() ==> final(rt).wf_registry(),
    {
        rt.end_registration(self.reg)
    }

    /// Release on scope exit: issues the one deregistration call and
    /// absorbs its failure, as a destruction path must.
    pub fn release(self, rt: &mut ForeignRuntime)
        requires
            old(rt).unregister_calls < u64::MAX,
            old(rt).registration_live(self.registration()),
        ensures
            deregistration_transition(
                *old(rt),
                *final(rt),
                self.registration(),
                if old(rt).fail_next_unregister {
                    Err::<(), Error>(Error::Foreign(crate::error::E_FAIL))
                } else {
                    Ok::<(), Error>(())
                },
            ),
            old(rt).wf_registry() ==> final(rt).wf_registry(),
    {
        let _ = rt.end_registration(self.reg);
    }
}

} // verus!
