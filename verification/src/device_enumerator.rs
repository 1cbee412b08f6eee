//! The device enumerator: filtered enumeration, lookup by identifier,
//! default-endpoint lookup, and device-change callback registration.

use vstd::prelude::*;

use crate::bits::{DataFlow, DataFlowMask, DeviceRole, DeviceStateMask};
use crate::device::Device;
use crate::device_collection::DeviceCollection;
use crate::error::{Error, E_NOTFOUND};
use crate::foreign::{
    deregistration_transition, registration_transition, ForeignRuntime, ParentId, ParentKind,
    Registration,
};
use crate::notification_client::{NotificationClient, NotificationClientWrapper};
use crate::string::WinStr;

verus! {

/// Whether device `d` of the runtime passes the two enumeration filters.
pub open spec fn device_admitted(
    rt: ForeignRuntime,
    data_flow_mask: DataFlowMask,
    state_mask: DeviceStateMask,
    d: int,
) -> bool {
    &&& data_flow_mask.admits_spec(rt.devices@[d].flow)
    &&& state_mask.admits_spec(rt.devices@[d].state)
}

/// Entry to the device side of the foreign object model.
#[derive(Debug, Clone, Copy, PartialEq, Eq, Structural)]
pub struct DeviceEnumerator {
    pub id: u64,
}

impl DeviceEnumerator {
    /// The identity this enumerator registers callbacks under.
    pub open spec fn parent_id(&self) -> ParentId {
        ParentId { kind: ParentKind::Enumerator, index: self.id, sub: 0 }
    }

    /// Creating the enumerator is a foreign instantiation that the model
    /// always grants.
    pub fn new() -> (r: Result<DeviceEnumerator, Error>)
        ensures
            r == Ok::<DeviceEnumerator, Error>(DeviceEnumerator { id: 0 }),
    {
        Ok(DeviceEnumerator { id: 0 })
    }

    /// All devices whose flow and state pass the two filters, in
    /// device-table order, each exactly once.
    pub fn enum_audio_endpoints(
        &self,
        rt: &ForeignRuntime,
        data_flow_mask: DataFlowMask,
        state_mask: DeviceStateMask,
    ) -> (r: Result<DeviceCollection, Error>)
        ensures
            (match r {
                Ok(c) => {
                    &&& forall|k: int|
                        0 <= k < c.indices@.len() ==> (#[trigger] c.indices@[k])
                            < rt.devices@.len() && device_admitted(
                            *rt,
                            data_flow_mask,
                            state_mask,
                            c.indices@[k] as int,
                        )
                    &&& forall|d: int|
                        0 <= d < rt.devices@.len() && device_admitted(
                            *rt,
                            data_flow_mask,
                            state_mask,
                            d,
                        ) ==> c.indices@.contains(d as u64)
                    &&& forall|k1: int, k2: int|
                        0 <= k1 < k2 < c.indices@.len() ==> c.indices@[k1] < c.indices@[k2]
                },
                Err(_) => false,
            }),
    {
        let mut indices: Vec<u64> = Vec::new();
        let mut d: usize = 0;
        let n: usize = rt.devices.len();
        while d < n
            invariant
                n == rt.devices@.len(),
                d <= n,
                forall|k: int|
                    0 <= k < indices@.len() ==> (#[trigger] indices@[k]) < d && device_admitted(
                        *rt,
                        data_flow_mask,
                        state_mask,
                        indices@[k] as int,
                    ),
                forall|j: int|
                    0 <= j < d && device_admitted(*rt, data_flow_mask, state_mask, j)
                        ==> indices@.contains(j as u64),
                forall|k1: int, k2: int|
                    0 <= k1 < k2 < indices@.len() ==> indices@[k1] < indices@[k2],
            decreases n - d,
        {
            let ghost pre = indices@;
            if data_flow_mask.admits(rt.devices[d].flow) && state_mask.admits(rt.devices[d].state)
            {
                indices.push(d as u64);
            }
            proof {
                assert forall|j: int|
                    0 <= j < d + 1 && device_admitted(*rt, data_flow_mask, state_mask, j)
                        implies indices@.contains(j as u64) by {
                    if j < d {
                        let w = choose|w: int| 0 <= w < pre.len() && pre[w] == j as u64;
                        assert(indices@[w] == j as u64);
                    } else {
                        assert(indices@[indices@.len() - 1] == j as u64);
                    }
                }
            }
            d = d + 1;
        }
        Ok(DeviceCollection { indices })
    }

    /// The default device for the given flow. Role distinctions collapse
    /// in this model: the runtime keeps one default per flow.
    pub fn get_default_audio_endpoint(
        &self,
        rt: &ForeignRuntime,
        data_flow: DataFlow,
        role: DeviceRole,
    ) -> (r: Result<Device, Error>)
        ensures
            (match (if data_flow == DataFlow::Render {
                rt.default_render
            } else {
                rt.default_capture
            }) {
                Some(d) => r == Ok::<Device, Error>(Device { index: d }),
                None => r == Err::<Device, Error>(Error::Foreign(E_NOTFOUND)),
            }),
    {
        let _ = role;
        let chosen = match data_flow {
            DataFlow::Render => &rt.default_render,
            DataFlow::Capture => &rt.default_capture,
        };
        match chosen {
            Some(d) => Ok(Device { index: *d }),
            None => Err(Error::Foreign(E_NOTFOUND)),
        }
    }

    /// The device whose identifier matches `device_id` code-unit-wise; the
    /// lookup fails with the not-found status if and only if no device
    /// carries that identifier.
    pub fn get_device(&self, rt: &ForeignRuntime, device_id: WinStr<'_>) -> (r: Result<
        Device,
        Error,
    >)
        ensures
            (match r {
                Ok(dev) => {
                    &&& dev.index < rt.devices@.len()
                    &&& rt.devices@[dev.index as int].id@ == device_id@
                    &&& forall|j: int| 0 <= j < dev.index ==> rt.devices@[j].id@ != device_id@
                },
                Err(e) => {
                    &&& e == Error::Foreign(E_NOTFOUND)
                    &&& forall|j: int|
                        0 <= j < rt.devices@.len() ==> rt.devices@[j].id@ != device_id@
                },
            }),
    {
        let mut d: usize = 0;
        let n: usize = rt.devices.len();
        let target = device_id.as_slice();
        while d < n
            invariant
                n == rt.devices@.len(),
                d <= n,
                target@ == device_id@,
                forall|j: int| 0 <= j < d ==> rt.devices@[j].id@ != device_id@,
            decreases n - d,
        {
            if crate::string::units_eq(rt.devices[d].id.as_slice(), target) {
                return Ok(Device { index: d as u64 });
            }
            d = d + 1;
        }
        Err(Error::Foreign(E_NOTFOUND))
    }

    /// Register a device-change callback; the returned handle owns the
    /// adapter and guarantees exactly one deregistration.
    pub fn register_endpoint_notification<T: NotificationClient + 'static>(
        &self,
        rt: &mut ForeignRuntime,
        notification_client: T,
    ) -> (r: Result<NotificationClientHandle, Error>)
        requires
            old(rt).adapters@.len() < u64::MAX,
            old(rt).register_calls < u64::MAX,
        ensures
            (match r {
                Ok(h) => {
                    &&& h.registration() == (Registration {
                        parent: self.parent_id(),
                        adapter: old(rt).adapters@.len() as u64,
                    })
                    &&& registration_transition(
                        *old(rt),
                        *final(rt),
                        self.parent_id(),
                        Ok(h.registration().adapter),
                    )
                    &&& final(rt).registration_live(h.registration())
                },
                Err(e) => registration_transition(
                    *old(rt),
                    *final(rt),
                    self.parent_id(),
                    Err::<u64, Error>(e),
                ),
            }),
            old(rt).wf_registry() ==> final(rt).wf_registry(),
    {
        let wrapper = NotificationClientWrapper::new(notification_client);
        let parent = ParentId { kind: ParentKind::Enumerator, index: self.id, sub: 0 };
        match rt.accept_registration(parent) {
            Ok(adapter) => {
                let reg = Registration { parent, adapter };
                proof {
                    assert(rt.registrations@[rt.registrations@.len() - 1] == reg);
                    assert(rt.registrations@.contains(reg));
                }
                Ok(NotificationClientHandle { adapter: wrapper, reg })
            },
            Err(e) => Err(e),
        }
    }

    /// Deregister a device-change callback through the enumerator it was
    /// registered on, consuming the handle.
    pub fn unregister_endpoint_notification(
        &self,
        rt: &mut ForeignRuntime,
        handle: NotificationClientHandle,
    ) -> (r: Result<(), Error>)
        requires
            old(rt).unregister_calls < u64::MAX,
            old(rt).registration_live(handle.registration()),
            handle.registration().parent == self.parent_id(),
        ensures
            deregistration_transition(*old(rt), *final(rt), handle.registration(), r),
            old(rt).wf_registry() ==> final(rt).wf_registry(),
    {
        rt.end_registration(handle.reg)
    }
}

/// One active device-change registration; consumed by its one
/// deregistration.
pub struct NotificationClientHandle {
    /// The adapter that was registered; the foreign side dispatches events
    /// through it.
    pub adapter: NotificationClientWrapper,
    pub(crate) reg: Registration,
}

impl NotificationClientHandle {
    /// The registration this handle stands for.
    pub closed spec fn registration(&self) -> Registration {
        self.reg
    }

    /// Explicit deregistration: issues the one deregistration call and
    /// surfaces its failure.
    pub fn unregister(self, rt: &mut ForeignRuntime) -> (r: Result<(), Error>)
        requires
            old(rt).unregister_calls < u64::MAX,
            old(rt).registration_live(self.registration()),
        ensures
            deregistration_transition(*old(rt), *final(rt), self.registration(), r),
            old(rt).wf_registry() ==> final(rt).wf_registry(),
    {
        rt.end_registration(self.reg)
    }

    /// Release on scope exit: issues the one deregistration call and
    /// absorbs its failure, as a destruction path must.
    pub fn release(self, rt: &mut ForeignRuntime)
        requires
            old(rt).unregister_calls < u64::MAX,
            old(rt).registration_live(self.registration()),
        ensures
            deregistration_transition(
                *old(rt),
                *final(rt),
                self.registration(),
                if old(rt).fail_next_unregister {
                    Err::<(), Error>(Error::Foreign(crate::error::E_FAIL))
                } else {
                    Ok::<(), Error>(())
                },
            ),
            old(rt).wf_registry() ==> final(rt).wf_registry(),
    {
        let _ = rt.end_registration(self.reg);
    }
}

} // verus!
