//! Session managers: session lookup by grouping identifier, session
//! enumeration, and registration of ducking and session-creation
//! callbacks.

use vstd::prelude::*;

use crate::audio_session_control::AudioSessionControl;
use crate::audio_session_enumerator::AudioSessionEnumerator;
use crate::audio_session_notification::{
    AudioSessionNotification, AudioSessionNotificationWrapper,
};
use crate::audio_volume_duck_notification::{
    AudioVolumeDuckNotification, AudioVolumeDuckNotificationWrapper,
};
use crate::error::{Error, E_NOTFOUND};
use crate::foreign::{
    deregistration_transition, registration_transition, ForeignRuntime, Guid, ParentId,
    ParentKind, Registration, SessionRecord,
};
use crate::simple_audio_volume::SimpleAudioVolume;
use crate::string::WinStr;

verus! {

/// Index of the first session whose grouping identifier is `guid`.
fn find_session(sessions: &Vec<SessionRecord>, guid: &Guid) -> (r: Option<usize>)
    ensures
        (match r {
            Some(i) => {
                &&& i < sessions@.len()
                &&& sessions@[i as int].grouping == *guid
                &&& forall|j: int| 0 <= j < i ==> sessions@[j].grouping != *guid
            },
            None => forall|j: int| 0 <= j < sessions@.len() ==> sessions@[j].grouping != *guid,
        }),
{
    let mut i: usize = 0;
    while i < sessions.len()
        invariant
            i <= sessions@.len(),
            forall|j: int| 0 <= j < i ==> sessions@[j].grouping != *guid,
        decreases sessions@.len() - i,
    {
        if sessions[i].grouping.value == guid.value {
            return Some(i);
        }
        i = i + 1;
    }
    None
}

/// First-revision session manager of one device.
#[derive(Debug, Clone, Copy, PartialEq, Eq, Structural)]
pub struct AudioSessionManager {
    pub device: u64,
}

impl AudioSessionManager {
    pub open spec fn valid(&self, rt: ForeignRuntime) -> bool {
        self.device < rt.devices@.len()
    }

    pub open spec fn sessions(&self, rt: ForeignRuntime) -> Seq<SessionRecord> {
        rt.devices@[self.device as int].sessions@
    }

    pub fn new(device: u64) -> (r: Self)
        ensures
            r.device == device,
    {
        AudioSessionManager { device }
    }

    /// The control of the session grouped under `audio_session_guid`; the
    /// runtime serves only sessions it knows.
    pub fn get_audio_session_control(
        &self,
        rt: &ForeignRuntime,
        audio_session_guid: &Guid,
    ) -> (r: Result<AudioSessionControl, Error>)
        requires
            self.valid(*rt),
        ensures
            (match r {
                Ok(c) => {
                    &&& c.device == self.device
                    &&& c.session < self.sessions(*rt).len()
                    &&& self.sessions(*rt)[c.session as int].grouping == *audio_session_guid
                    &&& forall|j: int|
                        0 <= j < c.session ==> self.sessions(*rt)[j].grouping
                            != *audio_session_guid
                },
                Err(e) => {
                    &&& e == Error::Foreign(E_NOTFOUND)
                    &&& forall|j: int|
                        0 <= j < self.sessions(*rt).len() ==> self.sessions(*rt)[j].grouping
                            != *audio_session_guid
                },
            }),
    {
        let d = rt.device_index(self.device);
        match find_session(&rt.devices[d].sessions, audio_session_guid) {
            Some(s) => Ok(AudioSessionControl { device: self.device, session: s as u64 }),
            None => Err(Error::Foreign(E_NOTFOUND)),
        }
    }

    /// The volume control of the session grouped under
    /// `audio_session_guid`.
    pub fn get_simple_audio_volume(
        &self,
        rt: &ForeignRuntime,
        audio_session_guid: &Guid,
    ) -> (r: Result<SimpleAudioVolume, Error>)
        requires
            self.valid(*rt),
        ensures
            (match r {
                Ok(v) => {
                    &&& v.device == self.device
                    &&& v.session < self.sessions(*rt).len()
                    &&& self.sessions(*rt)[v.session as int].grouping == *audio_session_guid
                    &&& forall|j: int|
                        0 <= j < v.session ==> self.sessions(*rt)[j].grouping
                            != *audio_session_guid
                },
                Err(e) => {
                    &&& e == Error::Foreign(E_NOTFOUND)
                    &&& forall|j: int|
                        0 <= j < self.sessions(*rt).len() ==> self.sessions(*rt)[j].grouping
                            != *audio_session_guid
                },
            }),
    {
        let d = rt.device_index(self.device);
        match find_session(&rt.devices[d].sessions, audio_session_guid) {
            Some(s) => Ok(SimpleAudioVolume { device: self.device, session: s as u64 }),
            None => Err(Error::Foreign(E_NOTFOUND)),
        }
    }

    /// The same manager through its second-revision interface.
    pub fn upgrade(&self) -> (r: Result<AudioSessionManager2, Error>)
        ensures
            r == Ok::<AudioSessionManager2, Error>(AudioSessionManager2 { device: self.device }),
    {
        Ok(AudioSessionManager2 { device: self.device })
    }
}

/// Second-revision session manager: enumeration and notification
/// registration.
#[derive(Debug, Clone, Copy, PartialEq, Eq, Structural)]
pub struct AudioSessionManager2 {
    pub device: u64,
}

impl AudioSessionManager2 {
    pub open spec fn valid(&self, rt: ForeignRuntime) -> bool {
        self.device < rt.devices@.len()
    }

    /// The identity this manager registers callbacks under.
    pub open spec fn parent_id(&self) -> ParentId {
        ParentId { kind: ParentKind::SessionManager, index: self.device, sub: 0 }
    }

    pub fn new(device: u64) -> (r: Self)
        ensures
            r.device == device,
    {
        AudioSessionManager2 { device }
    }

    /// The same manager through its first-revision interface.
    pub fn downgrade(&self) -> (r: AudioSessionManager)
        ensures
            r == (AudioSessionManager { device: self.device }),
    {
        AudioSessionManager { device: self.device }
    }

    /// An enumerator over this device's sessions.
    pub fn get_session_enumerator(&self, rt: &ForeignRuntime) -> (r: Result<
        AudioSessionEnumerator,
        Error,
    >)
        requires
            self.valid(*rt),
        ensures
            r == Ok::<AudioSessionEnumerator, Error>(
                AudioSessionEnumerator { device: self.device },
            ),
    {
        Ok(AudioSessionEnumerator { device: self.device })
    }

    /// Register a ducking listener for the given session identifier; the
    /// returned handle owns the adapter and guarantees exactly one
    /// deregistration.
    pub fn register_duck_notification<T: AudioVolumeDuckNotification + 'static>(
        &self,
        rt: &mut ForeignRuntime,
        session_id: &WinStr<'_>,
        duck_notification: T,
    ) -> (r: Result<AudioVolumeDuckNotificationHandle, Error>)
        requires
            old(rt).adapters@.len() < u64::MAX,
            old(rt).register_calls < u64::MAX,
        ensures
            (match r {
                Ok(h) => {
                    &&& h.registration() == (Registration {
                        parent: self.parent_id(),
                        adapter: old(rt).adapters@.len() as u64,
                    })
                    &&& registration_transition(
                        *old(rt),
                        *final(rt),
                        self.parent_id(),
                        Ok(h.registration().adapter),
                    )
                    &&& final(rt).registration_live(h.registration())
                },
                Err(e) => registration_transition(
                    *old(rt),
                    *final(rt),
                    self.parent_id(),
                    Err::<u64, Error>(e),
                ),
            }),
            old(rt).wf_registry() ==> final(rt).wf_registry(),
    {
        let _ = session_id;
        let wrapper = AudioVolumeDuckNotificationWrapper::new(duck_notification);
        let parent = ParentId { kind: ParentKind::SessionManager, index: self.device, sub: 0 };
        match rt.accept_registration(parent) {
            Ok(adapter) => {
                let reg = Registration { parent, adapter };
                proof {
                    assert(rt.registrations@[rt.registrations@.len() - 1] == reg);
                    assert(rt.registrations@.contains(reg));
                }
                Ok(AudioVolumeDuckNotificationHandle { adapter: wrapper, reg })
            },
            Err(e) => Err(e),
        }
    }

    /// Register a session-creation listener; the returned handle owns the
    /// adapter and guarantees exactly one deregistration.
    pub fn register_session_notification<T: AudioSessionNotification + 'static>(
        &self,
        rt: &mut ForeignRuntime,
        session_notification: T,
    ) -> (r: Result<AudioSessionNotificationHandle, Error>)
        requires
            old(rt).adapters@.len() < u64::MAX,
            old(rt).register_calls < u64::MAX,
        ensures
            (match r {
                Ok(h) => {
                    &&& h.registration() == (Registration {
                        parent: self.parent_id(),
                        adapter: old(rt).adapters@.len() as u64,
                    })
                    &&& registration_transition(
                        *old(rt),
                        *final(rt),
                        self.parent_id(),
                        Ok(h.registration().adapter),
                    )
                    &&& final(rt).registration_live(h.registration())
                },
                Err(e) => registration_transition(
                    *old(rt),
                    *final(rt),
                    self.parent_id(),
                    Err::<u64, Error>(e),
                ),
            }),
            old(rt).wf_registry() ==> final(rt).wf_registry(),
    {
        let wrapper = AudioSessionNotificationWrapper::new(session_notification);
        let parent = ParentId { kind: ParentKind::SessionManager, index: self.device, sub: 0 };
        match rt.accept_registration(parent) {
            Ok(adapter) => {
                let reg = Registration { parent, adapter };
                proof {
                    assert(rt.registrations@[rt.registrations@.len() - 1] == reg);
                    assert(rt.registrations@.contains(reg));
                }
                Ok(AudioSessionNotificationHandle { adapter: wrapper, reg })
            },
            Err(e) => Err(e),
        }
    }
}

/// One active ducking registration; consumed by its one deregistration.
pub struct AudioVolumeDuckNotificationHandle {
    /// The adapter that was registered; the foreign side dispatches events
    /// through it.
    pub adapter: AudioVolumeDuckNotificationWrapper,
    pub(crate) reg: Registration,
}

impl AudioVolumeDuckNotificationHandle {
    /// The registration this handle stands for.
    pub closed spec fn registration(&self) -> Registration {
        self.reg
    }

    /// Explicit deregistration: issues the one deregistration call and
    /// surfaces its failure.
    pub fn unregister(self, rt: &mut ForeignRuntime) -> (r: Result<(), Error>)
        requires
            old(rt).unregister_calls < u64::MAX,
            old(rt).registration_live(self.registration()),
        ensures
            deregistration_transition(*old(rt), *final(rt), self.registration(), r),
            old(rt).wf_registry() ==> final(rt).wf_registry(),
    {
        rt.end_registration(self.reg)
    }

    /// Release on scope exit: issues the one deregistration call and
    /// absorbs its failure, as a destruction path must.
    pub fn release(self, rt: &mut ForeignRuntime)
        requires
            old(rt).unregister_calls < u64::MAX,
            old(rt).registration_live(self.registration()),
        ensures
            deregistration_transition(
                *old(rt),
                *final(rt),
                self.registration(),
                if old(rt).fail_next_unregister {
                    Err::<(), Error>(Error::Foreign(crate::error::E_FAIL))
                } else {
                    Ok::<(), Error>(())
                },
            ),
            old(rt).wf_registry() ==> final(rt).wf_registry(),
    {
        let _ = rt.end_registration(self.reg);
    }
}

/// One active session-creation registration; consumed by its one
/// deregistration.
pub struct AudioSessionNotificationHandle {
    /// The adapter that was registered; the foreign side dispatches events
    /// through it.
    pub adapter: AudioSessionNotificationWrapper,
    pub(crate) reg: Registration,
}

impl AudioSessionNotificationHandle {
    /// The registration this handle stands for.
    pub closed spec fn registration(&self) -> Registration {
        self.reg
    }

    /// Explicit deregistration: issues the one deregistration call and
    /// surfaces its failure.
    pub fn unregister(self, rt: &mut ForeignRuntime) -> (r: Result<(), Error>)
        requires
            old(rt).unregister_calls < u64::MAX,
            old(rt).registration_live(self.registration()),
        ensures
            deregistration_transition(*old(rt), *final(rt), self.registration(), r),
            old(rt).wf_registry() ==> final(rt).wf_registry(),
    {
        rt.end_registration(self.reg)
    }

    /// Release on scope exit: issues the one deregistration call and
    /// absorbs its failure, as a destruction path must.
    pub fn release(self, rt: &mut ForeignRuntime)
        requires
            old(rt).unregister_calls < u64::MAX,
            old(rt).registration_live(self.registration()),
        ensures
            deregistration_transition(
                *old(rt),
                *final(rt),
                self.registration(),
                if old(rt).fail_next_unregister {
                    Err::<(), Error>(Error::Foreign(crate::error::E_FAIL))
                } else {
                    Ok::<(), Error>(())
                },
            ),
            old(rt).wf_registry() ==> final(rt).wf_registry(),
    {
        let _ = rt.end_registration(self.reg);
    }
}

} // verus!
