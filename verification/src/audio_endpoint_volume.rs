//! Master volume control of one endpoint device: mute, volume steps,
//! hardware capabilities, and volume-change callback registration.

use vstd::prelude::*;

use crate::audio_endpoint_volume_callback::{
    AudioEndpointVolumeCallback, AudioEndpointVolumeCallbackWrapper,
};
use crate::bits::HardwareSupportMask;
use crate::error::Error;
use crate::foreign::{
    deregistration_transition, device_same_except_endpoint, endpoint_same_except_muted,
    endpoint_same_except_step, registration_transition, rt_same_except_device, EndpointRecord,
    ForeignRuntime, Guid, ParentId, ParentKind, Registration,
};

verus! {

/// Master volume interface of one endpoint device.
#[derive(Debug, Clone, Copy, PartialEq, Eq, Structural)]
pub struct AudioEndpointVolume {
    pub device: u64,
}

/// A volume position on the endpoint's step ladder: the current step and
/// how many steps the ladder has.
#[derive(Debug, Clone, Copy, PartialEq, Eq, Structural)]
pub struct VolumeStepInfo {
    pub current_step: u32,
    pub num_steps: u32,
}

impl AudioEndpointVolume {
    pub open spec fn valid(&self, rt: ForeignRuntime) -> bool {
        self.device < rt.devices@.len()
    }

    pub open spec fn record(&self, rt: ForeignRuntime) -> EndpointRecord {
        rt.devices@[self.device as int].endpoint
    }

    /// The identity this endpoint registers callbacks under.
    pub open spec fn parent_id(&self) -> ParentId {
        ParentId { kind: ParentKind::Endpoint, index: self.device, sub: 0 }
    }

    pub fn new(device: u64) -> (r: Self)
        ensures
            r.device == device,
    {
        AudioEndpointVolume { device }
    }

    /// How many channels the endpoint has.
    pub fn get_channel_count(&self, rt: &ForeignRuntime) -> (r: Result<u32, Error>)
        requires
            self.valid(*rt),
        ensures
            r == Ok::<u32, Error>(self.record(*rt).channels),
    {
        let d = rt.device_index(self.device);
        Ok(rt.devices[d].endpoint.channels)
    }

    /// Whether the endpoint is muted.
    pub fn get_mute(&self, rt: &ForeignRuntime) -> (r: Result<bool, Error>)
        requires
            self.valid(*rt),
        ensures
            r == Ok::<bool, Error>(self.record(*rt).muted),
    {
        let d = rt.device_index(self.device);
        Ok(rt.devices[d].endpoint.muted)
    }

    /// Mute or unmute the endpoint.
    pub fn set_mute(
        &self,
        rt: &mut ForeignRuntime,
        mute: bool,
        event_context: Option<&Guid>,
    ) -> (r: Result<(), Error>)
        requires
            self.valid(*old(rt)),
        ensures
            r == Ok::<(), Error>(()),
            rt_same_except_device(*old(rt), *final(rt), self.device as int),
            device_same_except_endpoint(
                old(rt).devices@[self.device as int],
                final(rt).devices@[self.device as int],
            ),
            endpoint_same_except_muted(self.record(*old(rt)), self.record(*final(rt))),
            self.record(*final(rt)).muted == mute,
            old(rt).wf_devices() ==> final(rt).wf_devices(),
    {
        let _ = event_context;
        let d = rt.device_index(self.device);
        rt.devices[d].endpoint.muted = mute;
        proof {
            if old(rt).wf_devices() {
                assert forall|j: int| 0 <= j < final(rt).devices@.len() implies (#[trigger] final(rt).devices@[j]).wf() by {
                    assert(old(rt).devices@[j].wf());
                }
            }
        }
        Ok(())
    }

    /// The endpoint's position on its volume step ladder.
    pub fn get_volume_step_info(&self, rt: &ForeignRuntime) -> (r: Result<VolumeStepInfo, Error>)
        requires
            self.valid(*rt),
        ensures
            r == Ok::<VolumeStepInfo, Error>(
                VolumeStepInfo {
                    current_step: self.record(*rt).current_step,
                    num_steps: self.record(*rt).num_steps,
                },
            ),
    {
        let d = rt.device_index(self.device);
        Ok(
            VolumeStepInfo {
                current_step: rt.devices[d].endpoint.current_step,
                num_steps: rt.devices[d].endpoint.num_steps,
            },
        )
    }

    /// Move one step up the ladder; at the top step the position stays.
    pub fn volume_step_up(&self, rt: &mut ForeignRuntime, event_context: Option<&Guid>) -> (r:
        Result<(), Error>)
        requires
            self.valid(*old(rt)),
            old(rt).wf_devices(),
        ensures
            r == Ok::<(), Error>(()),
            rt_same_except_device(*old(rt), *final(rt), self.device as int),
            device_same_except_endpoint(
                old(rt).devices@[self.device as int],
                final(rt).devices@[self.device as int],
            ),
            endpoint_same_except_step(self.record(*old(rt)), self.record(*final(rt))),
            self.record(*final(rt)).current_step == (
            if self.record(*old(rt)).current_step + 1 < self.record(*old(rt)).num_steps {
                self.record(*old(rt)).current_step + 1
            } else {
                self.record(*old(rt)).current_step as int
            }),
            final(rt).wf_devices(),
    {
        let _ = event_context;
        let d = rt.device_index(self.device);
        proof {
            assert(old(rt).devices@[d as int].wf());
        }
        let cur = rt.devices[d].endpoint.current_step;
        let steps = rt.devices[d].endpoint.num_steps;
        if cur + 1 < steps {
            rt.devices[d].endpoint.current_step = cur + 1;
        }
        proof {
            assert forall|j: int| 0 <= j < final(rt).devices@.len() implies (#[trigger] final(rt).devices@[j]).wf() by {
                assert(old(rt).devices@[j].wf());
            }
        }
        Ok(())
    }

    /// Move one step down the ladder; at the bottom step the position
    /// stays.
    pub fn volume_step_down(&self, rt: &mut ForeignRuntime, event_context: Option<&Guid>) -> (r:
        Result<(), Error>)
        requires
            self.valid(*old(rt)),
            old(rt).wf_devices(),
        ensures
            r == Ok::<(), Error>(()),
            rt_same_except_device(*old(rt), *final(rt), self.device as int),
            device_same_except_endpoint(
                old(rt).devices@[self.device as int],
                final(rt).devices@[self.device as int],
            ),
            endpoint_same_except_step(self.record(*old(rt)), self.record(*final(rt))),
            self.record(*final(rt)).current_step == (
            if self.record(*old(rt)).current_step > 0 {
                self.record(*old(rt)).current_step - 1
            } else {
                0int
            }),
            final(rt).wf_devices(),
    {
        let _ = event_context;
        let d = rt.device_index(self.device);
        proof {
            assert(old(rt).devices@[d as int].wf());
        }
        let cur = rt.devices[d].endpoint.current_step;
        if cur > 0 {
            rt.devices[d].endpoint.current_step = cur - 1;
        }
        proof {
            assert forall|j: int| 0 <= j < final(rt).devices@.len() implies (#[trigger] final(rt).devices@[j]).wf() by {
                assert(old(rt).devices@[j].wf());
            }
        }
        Ok(())
    }

    /// The hardware capabilities the endpoint reports.
    pub fn query_hardware_support(&self, rt: &ForeignRuntime) -> (r: Result<
        HardwareSupportMask,
        Error,
    >)
        requires
            self.valid(*rt),
            rt.wf_devices(),
        ensures
            r == Ok::<HardwareSupportMask, Error>(
                HardwareSupportMask { bits: self.record(*rt).hw_mask },
            ),
    {
        let d = rt.device_index(self.device);
        proof {
            assert(rt.devices@[d as int].wf());
        }
        let bits = rt.devices[d].endpoint.hw_mask;
        match HardwareSupportMask::from_bits(bits) {
            Some(mask) => Ok(mask),
            None => vstd::pervasive::unreached(),
        }
    }

    /// Register a volume-change callback; the returned handle owns the
    /// adapter and guarantees exactly one deregistration.
    pub fn register_control_change_notify<T: AudioEndpointVolumeCallback + 'static>(
        &self,
        rt: &mut ForeignRuntime,
        callback: T,
    ) -> (r: Result<AudioEndpointVolumeCallbackHandle, Error>)
        requires
            old(rt).adapters@.len() < u64::MAX,
            old(rt).register_calls < u64::MAX,
        ensures
            (match r {
                Ok(h) => {
                    &&& h.registration() == (Registration {
                        parent: self.parent_id(),
                        adapter: old(rt).adapters@.len() as u64,
                    })
                    &&& registration_transition(
                        *old(rt),
                        *final(rt),
                        self.parent_id(),
                        Ok(h.registration().adapter),
                    )
                    &&& final(rt).registration_live(h.registration())
                },
                Err(e) => registration_transition(
                    *old(rt),
                    *final(rt),
                    self.parent_id(),
                    Err::<u64, Error>(e),
                ),
            }),
            old(rt).wf_registry() ==> final(rt).wf_registry(),
    {
        let wrapper = AudioEndpointVolumeCallbackWrapper::new(callback);
        let parent = ParentId { kind: ParentKind::Endpoint, index: self.device, sub: 0 };
        match rt.accept_registration(parent) {
            Ok(adapter) => {
                let reg = Registration { parent, adapter };
                proof {
                    assert(rt.registrations@[rt.registrations@.len() - 1] == reg);
                    assert(rt.registrations@.contains(reg));
                }
                Ok(AudioEndpointVolumeCallbackHandle { adapter: wrapper, reg })
            },
            Err(e) => Err(e),
        }
    }
}

/// One active volume-change registration; consumed by its one
/// deregistration.
pub struct AudioEndpointVolumeCallbackHandle {
    /// The adapter that was registered; the foreign side dispatches events
    /// through it.
    pub adapter: AudioEndpointVolumeCallbackWrapper,
    pub(crate) reg: Registration,
}

impl AudioEndpointVolumeCallbackHandle {
    /// The registration this handle stands for.
    pub closed spec fn registration(&self) -> Registration {
        self.reg
    }

    /// Explicit deregistration: issues the one deregistration call and
    /// surfaces its failure.
    pub fn unregister(self, rt: &mut ForeignRuntime) -> (r: Result<(), Error>)
        requires
            old(rt).unregister_calls < u64::MAX,
            old(rt).registration_live(self.registration()),
        ensures
            deregistration_transition(*old(rt), *final(rt), self.registration(), r),
            old(rt).wf_registry() ==> final(rt).wf_registry(),
    {
        rt.end_registration(self.reg)
    }

    /// Release on scope exit: issues the one deregistration call and
    /// absorbs its failure, as a destruction path must.
    pub fn release(self, rt: &mut ForeignRuntime)
        requires
            old(rt).unregister_calls < u64::MAX,
            old(rt).registration_live(self.registration()),
        ensures
            deregistration_transition(
                *old(rt),
                *final(rt),
                self.registration(),
                if old(rt).fail_next_unregister {
                    Err::<(), Error>(Error::Foreign(crate::error::E_FAIL))
                } else {
                    Ok::<(), Error>(())
                },
            ),
            old(rt).wf_registry() ==> final(rt).wf_registry(),
    {
        let _ = rt.end_registration(self.reg);
    }
}

} // verus!
