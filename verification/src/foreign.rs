//! Model of the foreign object model at its interface boundary.
//!
//! The foreign side is a reference-counted, callback-driven object system.
//! This module models exactly what the rest of the library relies on:
//! which adapters the foreign side holds references on, which registrations
//! are active, how often each registration and deregistration primitive ran,
//! and how often each string allocator's alloc and free primitives ran.
//! Tests drive it directly as a recording test double; the contracts of the
//! library are stated against this state.

use vstd::prelude::*;

use crate::bits::{AudioSessionState, DataFlow, DeviceState};
use crate::error::{Error, E_FAIL};
use crate::property_store::{PropertyKey, RawProperty};
use crate::string::null_free;

verus! {

/// A 128-bit foreign interface or grouping identifier.
#[derive(Debug, Clone, Copy, PartialEq, Eq, Hash, Structural)]
pub struct Guid {
    pub value: u128,
}

impl Guid {
    pub fn new(value: u128) -> (r: Self)
        ensures
            r.value == value,
    {
        Guid { value }
    }

    pub fn zeroed() -> (r: Self)
        ensures
            r.value == 0,
    {
        Guid { value: 0 }
    }
}

/// Which kind of foreign object accepted a registration.
#[derive(Debug, Clone, Copy, PartialEq, Eq, Structural)]
pub enum ParentKind {
    Enumerator,
    Endpoint,
    SessionManager,
    SessionControl,
}

/// The foreign object a registration was made against. `index` names the
/// device-level object, `sub` the session beneath it where one applies.
#[derive(Debug, Clone, Copy, PartialEq, Eq, Structural)]
pub struct ParentId {
    pub kind: ParentKind,
    pub index: u64,
    pub sub: u64,
}

/// One active registration: the parent it was made against and the adapter
/// that was handed over.
#[derive(Debug, Clone, Copy, PartialEq, Eq, Structural)]
pub struct Registration {
    pub parent: ParentId,
    pub adapter: u64,
}

/// Mutable per-endpoint state held by the foreign side.
#[derive(Debug, Clone)]
pub struct EndpointRecord {
    pub channels: u32,
    pub muted: bool,
    pub current_step: u32,
    pub num_steps: u32,
    pub hw_mask: u32,
}

impl EndpointRecord {
    pub open spec fn wf(&self) -> bool {
        &&& self.hw_mask & 0x7 == self.hw_mask
        &&& self.num_steps >= 1
        &&& self.current_step < self.num_steps
    }
}

/// One audio session the foreign side knows about.
#[derive(Debug, Clone)]
pub struct SessionRecord {
    pub grouping: Guid,
    pub state: AudioSessionState,
    pub display_name: Vec<u16>,
    pub icon_path: Vec<u16>,
    pub session_id: Vec<u16>,
    pub instance_id: Vec<u16>,
    pub pid: u32,
    pub system_sounds: bool,
    pub muted: bool,
    pub ducking_opt_out: bool,
}

impl SessionRecord {
    pub open spec fn wf(&self) -> bool {
        &&& null_free(self.display_name@)
        &&& null_free(self.icon_path@)
        &&& null_free(self.session_id@)
        &&& null_free(self.instance_id@)
    }
}

/// One property held by a device's store, in the foreign raw form.
#[derive(Debug, Clone)]
pub struct StoreEntry {
    pub key: PropertyKey,
    pub value: RawProperty,
}

/// One audio endpoint device the foreign side knows about.
#[derive(Debug, Clone)]
pub struct DeviceRecord {
    pub id: Vec<u16>,
    pub flow: DataFlow,
    pub state: DeviceState,
    pub store: Vec<StoreEntry>,
    pub store_dirty: bool,
    pub endpoint: EndpointRecord,
    pub sessions: Vec<SessionRecord>,
}

impl DeviceRecord {
    pub open spec fn wf(&self) -> bool {
        &&& null_free(self.id@)
        &&& self.endpoint.wf()
        &&& self.store@.len() <= u32::MAX
        &&& forall|i: int| 0 <= i < self.store@.len() ==> (#[trigger] self.store@[i]).value.wf()
        &&& forall|i: int, j: int|
            0 <= i < j < self.store@.len() ==> self.store@[i].key != self.store@[j].key
        &&& self.sessions@.len() <= i32::MAX
        &&& forall|i: int| 0 <= i < self.sessions@.len() ==> (#[trigger] self.sessions@[i]).wf()
    }
}

/// The foreign subsystem's observable state.
///
/// `adapters` has one entry per adapter ever handed over; the entry counts
/// the references the foreign side currently holds on that adapter. The
/// `*_calls`, `*_allocs` and `*_frees` counters record how often each foreign
/// primitive ran. The `fail_next_*` switches make the next matching foreign
/// call report failure, which is how tests exercise the failure paths.
pub struct ForeignRuntime {
    pub devices: Vec<DeviceRecord>,
    pub default_render: Option<u64>,
    pub default_capture: Option<u64>,
    pub adapters: Vec<u64>,
    pub registrations: Vec<Registration>,
    pub register_calls: u64,
    pub unregister_calls: u64,
    pub com_allocs: u64,
    pub com_frees: u64,
    pub local_allocs: u64,
    pub local_frees: u64,
    pub fail_next_register: bool,
    pub fail_next_unregister: bool,
    pub fail_next_alloc: bool,
}

/// The string-allocator counters and failure switch agree.
pub open spec fn strings_unchanged(a: ForeignRuntime, b: ForeignRuntime) -> bool {
    &&& a.com_allocs == b.com_allocs
    &&& a.com_frees == b.com_frees
    &&& a.local_allocs == b.local_allocs
    &&& a.local_frees == b.local_frees
    &&& a.fail_next_alloc == b.fail_next_alloc
}

/// The registration bookkeeping agrees.
pub open spec fn registry_unchanged(a: ForeignRuntime, b: ForeignRuntime) -> bool {
    &&& a.adapters == b.adapters
    &&& a.registrations == b.registrations
    &&& a.register_calls == b.register_calls
    &&& a.unregister_calls == b.unregister_calls
    &&& a.fail_next_register == b.fail_next_register
    &&& a.fail_next_unregister == b.fail_next_unregister
}

/// The device tables agree.
pub open spec fn devices_unchanged(a: ForeignRuntime, b: ForeignRuntime) -> bool {
    &&& a.devices == b.devices
    &&& a.default_render == b.default_render
    &&& a.default_capture == b.default_capture
}

/// Only device `d`'s record may differ between the two runtimes.
pub open spec fn rt_same_except_device(pre: ForeignRuntime, post: ForeignRuntime, d: int) -> bool {
    &&& strings_unchanged(pre, post)
    &&& registry_unchanged(pre, post)
    &&& post.default_render == pre.default_render
    &&& post.default_capture == pre.default_capture
    &&& post.devices@.len() == pre.devices@.len()
    &&& forall|j: int| 0 <= j < pre.devices@.len() && j != d ==> post.devices@[j] == pre.devices@[j]
}

/// The records agree on everything but the endpoint state.
pub open spec fn device_same_except_endpoint(a: DeviceRecord, b: DeviceRecord) -> bool {
    &&& a.id == b.id
    &&& a.flow == b.flow
    &&& a.state == b.state
    &&& a.store == b.store
    &&& a.store_dirty == b.store_dirty
    &&& a.sessions == b.sessions
}

/// The records agree on everything but the property store and its dirty
/// mark.
pub open spec fn device_same_except_store(a: DeviceRecord, b: DeviceRecord) -> bool {
    &&& a.id == b.id
    &&& a.flow == b.flow
    &&& a.state == b.state
    &&& a.endpoint == b.endpoint
    &&& a.sessions == b.sessions
}

/// The records agree on everything but the session list.
pub open spec fn device_same_except_sessions(a: DeviceRecord, b: DeviceRecord) -> bool {
    &&& a.id == b.id
    &&& a.flow == b.flow
    &&& a.state == b.state
    &&& a.store == b.store
    &&& a.store_dirty == b.store_dirty
    &&& a.endpoint == b.endpoint
}

/// The session lists agree except possibly at `s`.
pub open spec fn sessions_same_except(a: DeviceRecord, b: DeviceRecord, s: int) -> bool {
    &&& a.sessions@.len() == b.sessions@.len()
    &&& forall|k: int| 0 <= k < a.sessions@.len() && k != s ==> a.sessions@[k] == b.sessions@[k]
}

/// The session records agree on everything but the display name.
pub open spec fn session_same_except_display_name(a: SessionRecord, b: SessionRecord) -> bool {
    &&& a.grouping == b.grouping
    &&& a.state == b.state
    &&& a.icon_path == b.icon_path
    &&& a.session_id == b.session_id
    &&& a.instance_id == b.instance_id
    &&& a.pid == b.pid
    &&& a.system_sounds == b.system_sounds
    &&& a.muted == b.muted
    &&& a.ducking_opt_out == b.ducking_opt_out
}

/// The session records agree on everything but the icon path.
pub open spec fn session_same_except_icon_path(a: SessionRecord, b: SessionRecord) -> bool {
    &&& a.grouping == b.grouping
    &&& a.state == b.state
    &&& a.display_name == b.display_name
    &&& a.session_id == b.session_id
    &&& a.instance_id == b.instance_id
    &&& a.pid == b.pid
    &&& a.system_sounds == b.system_sounds
    &&& a.muted == b.muted
    &&& a.ducking_opt_out == b.ducking_opt_out
}

/// The session records agree on everything but the grouping parameter.
pub open spec fn session_same_except_grouping(a: SessionRecord, b: SessionRecord) -> bool {
    &&& a.state == b.state
    &&& a.display_name == b.display_name
    &&& a.icon_path == b.icon_path
    &&& a.session_id == b.session_id
    &&& a.instance_id == b.instance_id
    &&& a.pid == b.pid
    &&& a.system_sounds == b.system_sounds
    &&& a.muted == b.muted
    &&& a.ducking_opt_out == b.ducking_opt_out
}

/// The session records agree on everything but the mute state.
pub open spec fn session_same_except_muted(a: SessionRecord, b: SessionRecord) -> bool {
    &&& a.grouping == b.grouping
    &&& a.state == b.state
    &&& a.display_name == b.display_name
    &&& a.icon_path == b.icon_path
    &&& a.session_id == b.session_id
    &&& a.instance_id == b.instance_id
    &&& a.pid == b.pid
    &&& a.system_sounds == b.system_sounds
    &&& a.ducking_opt_out == b.ducking_opt_out
}

/// The session records agree on everything but the ducking preference.
pub open spec fn session_same_except_ducking(a: SessionRecord, b: SessionRecord) -> bool {
    &&& a.grouping == b.grouping
    &&& a.state == b.state
    &&& a.display_name == b.display_name
    &&& a.icon_path == b.icon_path
    &&& a.session_id == b.session_id
    &&& a.instance_id == b.instance_id
    &&& a.pid == b.pid
    &&& a.system_sounds == b.system_sounds
    &&& a.muted == b.muted
}

/// The endpoint records agree on everything but the mute state.
pub open spec fn endpoint_same_except_muted(a: EndpointRecord, b: EndpointRecord) -> bool {
    &&& a.channels == b.channels
    &&& a.current_step == b.current_step
    &&& a.num_steps == b.num_steps
    &&& a.hw_mask == b.hw_mask
}

/// The endpoint records agree on everything but the volume step.
pub open spec fn endpoint_same_except_step(a: EndpointRecord, b: EndpointRecord) -> bool {
    &&& a.channels == b.channels
    &&& a.muted == b.muted
    &&& a.num_steps == b.num_steps
    &&& a.hw_mask == b.hw_mask
}

/// Total number of references the foreign side holds over all adapters.
pub open spec fn total_foreign_refs(adapters: Seq<u64>) -> int
    decreases adapters.len(),
{
    if adapters.len() == 0 {
        0
    } else {
        total_foreign_refs(adapters.drop_last()) + adapters.last()
    }
}

pub proof fn lemma_total_refs_push(adapters: Seq<u64>, x: u64)
    ensures
        total_foreign_refs(adapters.push(x)) == total_foreign_refs(adapters) + x,
{
    assert(adapters.push(x).drop_last() =~= adapters);
    assert(adapters.push(x).last() == x);
}

/// How a registration call relates the runtime before and after: one
/// register call ran; on success the adapter was handed over with one
/// foreign reference and the registration recorded; on failure the
/// reference taken during hand-off was released again.
pub open spec fn registration_transition(
    pre: ForeignRuntime,
    post: ForeignRuntime,
    parent: ParentId,
    r: Result<u64, Error>,
) -> bool {
    &&& post.register_calls == pre.register_calls + 1
    &&& post.unregister_calls == pre.unregister_calls
    &&& !post.fail_next_register
    &&& post.fail_next_unregister == pre.fail_next_unregister
    &&& strings_unchanged(pre, post)
    &&& devices_unchanged(pre, post)
    &&& (pre.fail_next_register ==> {
        &&& r == Err::<u64, Error>(Error::Foreign(E_FAIL))
        &&& post.adapters@ == pre.adapters@.push(0u64)
        &&& post.registrations == pre.registrations
    })
    &&& (!pre.fail_next_register ==> {
        &&& r == Ok::<u64, Error>(pre.adapters@.len() as u64)
        &&& post.adapters@ == pre.adapters@.push(1u64)
        &&& post.registrations@ == pre.registrations@.push(
            Registration { parent, adapter: pre.adapters@.len() as u64 },
        )
    })
}

/// How a deregistration call relates the runtime before and after: one
/// unregister call ran; on success the registration was removed and the
/// foreign side released its reference on the adapter; a failing call
/// leaves both in place.
pub open spec fn deregistration_transition(
    pre: ForeignRuntime,
    post: ForeignRuntime,
    reg: Registration,
    r: Result<(), Error>,
) -> bool {
    &&& post.unregister_calls == pre.unregister_calls + 1
    &&& post.register_calls == pre.register_calls
    &&& !post.fail_next_unregister
    &&& post.fail_next_register == pre.fail_next_register
    &&& strings_unchanged(pre, post)
    &&& devices_unchanged(pre, post)
    &&& (pre.fail_next_unregister ==> {
        &&& r == Err::<(), Error>(Error::Foreign(E_FAIL))
        &&& post.adapters == pre.adapters
        &&& post.registrations == pre.registrations
    })
    &&& (!pre.fail_next_unregister ==> {
        &&& r == Ok::<(), Error>(())
        &&& reg.adapter < pre.adapters@.len()
        &&& post.adapters@ == pre.adapters@.update(
            reg.adapter as int,
            (pre.adapters@[reg.adapter as int] - 1) as u64,
        )
        &&& exists|i: int|
            {
                &&& 0 <= i < pre.registrations@.len()
                &&& pre.registrations@[i] == reg
                &&& post.registrations@ == pre.registrations@.remove(i)
            }
    })
}

/// Law: registering a callback and then releasing the returned handle
/// issues exactly one deregistration, against the exact parent and adapter
/// of the registration, and returns the registry to its prior shape: the
/// registration is gone and the foreign side holds no reference on the
/// adapter.
pub proof fn lemma_register_release_balanced(
    rt0: ForeignRuntime,
    rt1: ForeignRuntime,
    rt2: ForeignRuntime,
    parent: ParentId,
    adapter: u64,
)
    requires
        rt0.wf_registry(),
        rt0.adapters@.len() < u64::MAX,
        registration_transition(rt0, rt1, parent, Ok(adapter)),
        deregistration_transition(rt1, rt2, Registration { parent, adapter }, Ok(())),
    ensures
        rt2.register_calls == rt0.register_calls + 1,
        rt2.unregister_calls == rt0.unregister_calls + 1,
        rt2.registrations@ =~= rt0.registrations@,
        rt2.adapters@ =~= rt0.adapters@.push(0u64),
        rt2.adapters@[adapter as int] == 0,
        total_foreign_refs(rt2.adapters@) == total_foreign_refs(rt0.adapters@),
{
    let reg = Registration { parent, adapter };
    assert(!rt0.fail_next_register) by {
        if rt0.fail_next_register {
            assert(Ok::<u64, Error>(adapter) == Err::<u64, Error>(Error::Foreign(E_FAIL)));
        }
    }
    assert(adapter == rt0.adapters@.len());
    let i = choose|i: int|
        {
            &&& 0 <= i < rt1.registrations@.len()
            &&& rt1.registrations@[i] == reg
            &&& rt2.registrations@ == rt1.registrations@.remove(i)
        };
    if i < rt0.registrations@.len() {
        assert(rt0.registrations@[i].adapter < rt0.adapters@.len());
        assert(rt1.registrations@[i] == rt0.registrations@[i]);
        assert(false);
    }
    assert(rt2.registrations@ =~= rt0.registrations@);
    assert(rt2.adapters@ =~= rt0.adapters@.push(0u64));
    lemma_total_refs_push(rt0.adapters@, 0u64);
}

/// Law: a failed registration leaves no dangling foreign reference and no
/// recorded registration; the foreign side's total reference count is what
/// it was before the attempt.
pub proof fn lemma_failed_registration_balanced(
    rt0: ForeignRuntime,
    rt1: ForeignRuntime,
    parent: ParentId,
    e: Error,
)
    requires
        registration_transition(rt0, rt1, parent, Err(e)),
    ensures
        rt1.register_calls == rt0.register_calls + 1,
        rt1.registrations == rt0.registrations,
        total_foreign_refs(rt1.adapters@) == total_foreign_refs(rt0.adapters@),
{
    assert(rt0.fail_next_register) by {
        if !rt0.fail_next_register {
            assert(Err::<u64, Error>(e) == Ok::<u64, Error>(rt0.adapters@.len() as u64));
        }
    }
    lemma_total_refs_push(rt0.adapters@, 0u64);
}

impl ForeignRuntime {
    /// The registration table only names adapters that exist.
    pub open spec fn wf_registry(&self) -> bool {
        forall|i: int|
            0 <= i < self.registrations@.len()
                ==> (#[trigger] self.registrations@[i]).adapter < self.adapters@.len()
    }

    pub open spec fn wf_devices(&self) -> bool {
        &&& forall|i: int| 0 <= i < self.devices@.len() ==> (#[trigger] self.devices@[i]).wf()
        &&& match self.default_render {
            Some(d) => d < self.devices@.len() && self.devices@[d as int].flow == DataFlow::Render,
            None => true,
        }
        &&& match self.default_capture {
            Some(d) => d < self.devices@.len() && self.devices@[d as int].flow
                == DataFlow::Capture,
            None => true,
        }
    }

    pub open spec fn wf(&self) -> bool {
        &&& self.wf_registry()
        &&& self.wf_devices()
    }

    /// A handle's registration is live: recorded, with the foreign side
    /// holding at least one reference on its adapter.
    pub open spec fn registration_live(&self, reg: Registration) -> bool {
        &&& self.registrations@.contains(reg)
        &&& reg.adapter < self.adapters@.len()
        &&& self.adapters@[reg.adapter as int] >= 1
    }

    /// A fresh foreign subsystem: no devices, no adapters, all counters zero.
    pub fn new() -> (r: Self)
        ensures
            r.devices@.len() == 0,
            r.default_render == None::<u64>,
            r.default_capture == None::<u64>,
            r.adapters@.len() == 0,
            r.registrations@.len() == 0,
            r.register_calls == 0,
            r.unregister_calls == 0,
            r.com_allocs == 0,
            r.com_frees == 0,
            r.local_allocs == 0,
            r.local_frees == 0,
            !r.fail_next_register,
            !r.fail_next_unregister,
            !r.fail_next_alloc,
            r.wf(),
    {
        ForeignRuntime {
            devices: Vec::new(),
            default_render: None,
            default_capture: None,
            adapters: Vec::new(),
            registrations: Vec::new(),
            register_calls: 0,
            unregister_calls: 0,
            com_allocs: 0,
            com_frees: 0,
            local_allocs: 0,
            local_frees: 0,
            fail_next_register: false,
            fail_next_unregister: false,
            fail_next_alloc: false,
        }
    }

    /// A device index as a `usize`, bounded by the device table.
    pub(crate) fn device_index(&self, d: u64) -> (r: usize)
        requires
            d < self.devices@.len(),
        ensures
            r == d,
    {
        let n: usize = self.devices.len();
        proof {
            assert(d < n);
        }
        d as usize
    }

    /// A session index as a `usize`, bounded by a device's session list.
    pub(crate) fn session_index(&self, d: usize, s: u64) -> (r: usize)
        requires
            d < self.devices@.len(),
            s < self.devices@[d as int].sessions@.len(),
        ensures
            r == s,
    {
        let n: usize = self.devices[d].sessions.len();
        proof {
            assert(s < n);
        }
        s as usize
    }

    /// Models the COM-family string allocator: reports whether the
    /// allocation succeeded and counts it when it did.
    pub(crate) fn com_string_alloc(&mut self) -> (ok: bool)
        requires
            old(self).com_allocs < u64::MAX,
        ensures
            ok == !old(self).fail_next_alloc,
            !final(self).fail_next_alloc,
            ok ==> final(self).com_allocs == old(self).com_allocs + 1,
            !ok ==> final(self).com_allocs == old(self).com_allocs,
            final(self).com_frees == old(self).com_frees,
            final(self).local_allocs == old(self).local_allocs,
            final(self).local_frees == old(self).local_frees,
            registry_unchanged(*old(self), *final(self)),
            devices_unchanged(*old(self), *final(self)),
    {
        if self.fail_next_alloc {
            self.fail_next_alloc = false;
            false
        } else {
            self.com_allocs = self.com_allocs + 1;
            true
        }
    }

    /// Models the local-family string allocator (the duplicate primitive).
    pub(crate) fn local_string_alloc(&mut self) -> (ok: bool)
        requires
            old(self).local_allocs < u64::MAX,
        ensures
            ok == !old(self).fail_next_alloc,
            !final(self).fail_next_alloc,
            ok ==> final(self).local_allocs == old(self).local_allocs + 1,
            !ok ==> final(self).local_allocs == old(self).local_allocs,
            final(self).local_frees == old(self).local_frees,
            final(self).com_allocs == old(self).com_allocs,
            final(self).com_frees == old(self).com_frees,
            registry_unchanged(*old(self), *final(self)),
            devices_unchanged(*old(self), *final(self)),
    {
        if self.fail_next_alloc {
            self.fail_next_alloc = false;
            false
        } else {
            self.local_allocs = self.local_allocs + 1;
            true
        }
    }

    /// Models the COM-family free primitive.
    pub(crate) fn note_com_free(&mut self)
        requires
            old(self).com_frees < u64::MAX,
        ensures
            final(self).com_frees == old(self).com_frees + 1,
            final(self).com_allocs == old(self).com_allocs,
            final(self).local_allocs == old(self).local_allocs,
            final(self).local_frees == old(self).local_frees,
            final(self).fail_next_alloc == old(self).fail_next_alloc,
            registry_unchanged(*old(self), *final(self)),
            devices_unchanged(*old(self), *final(self)),
    {
        self.com_frees = self.com_frees + 1;
    }

    /// Models the local-family free primitive.
    pub(crate) fn note_local_free(&mut self)
        requires
            old(self).local_frees < u64::MAX,
        ensures
            final(self).local_frees == old(self).local_frees + 1,
            final(self).local_allocs == old(self).local_allocs,
            final(self).com_allocs == old(self).com_allocs,
            final(self).com_frees == old(self).com_frees,
            final(self).fail_next_alloc == old(self).fail_next_alloc,
            registry_unchanged(*old(self), *final(self)),
            devices_unchanged(*old(self), *final(self)),
    {
        self.local_frees = self.local_frees + 1;
    }

    /// Models a registration call: the foreign side takes a reference on a
    /// freshly handed-over adapter and, on success, records the
    /// registration. On failure the reference taken during hand-off is
    /// released again, so the adapter ends with no foreign reference.
    pub(crate) fn accept_registration(&mut self, parent: ParentId) -> (r: Result<u64, Error>)
        requires
            old(self).adapters@.len() < u64::MAX,
            old(self).register_calls < u64::MAX,
        ensures
            registration_transition(*old(self), *final(self), parent, r),
            old(self).wf_registry() ==> final(self).wf_registry(),
    {
        let adapter: u64 = self.adapters.len() as u64;
        self.register_calls = self.register_calls + 1;
        if self.fail_next_register {
            self.fail_next_register = false;
            // the hand-off took a reference; the failed call released it
            self.adapters.push(0);
            Err(Error::Foreign(E_FAIL))
        } else {
            self.adapters.push(1);
            self.registrations.push(Registration { parent, adapter });
            Ok(adapter)
        }
    }

    /// Models a deregistration call for a live registration. On success the
    /// registration is removed and the foreign side releases its reference
    /// on the adapter; a failing call leaves both in place.
    pub(crate) fn end_registration(&mut self, reg: Registration) -> (r: Result<(), Error>)
        requires
            old(self).unregister_calls < u64::MAX,
            old(self).registration_live(reg),
        ensures
            deregistration_transition(*old(self), *final(self), reg, r),
            old(self).wf_registry() ==> final(self).wf_registry(),
    {
        self.unregister_calls = self.unregister_calls + 1;
        if self.fail_next_unregister {
            self.fail_next_unregister = false;
            return Err(Error::Foreign(E_FAIL));
        }
        let ghost regs = self.registrations@;
        let i = find_registration(&self.registrations, reg);
        self.registrations.remove(i);
        let n_adapters: usize = self.adapters.len();
        proof {
            assert(reg.adapter < n_adapters);
            assert(self.adapters@[reg.adapter as int] >= 1);
        }
        let a = reg.adapter as usize;
        let held = self.adapters[a];
        self.adapters[a] = held - 1;
        proof {
            assert(regs[i as int] == reg && self.registrations@ == regs.remove(i as int));
            if old(self).wf_registry() {
                assert forall|k: int|
                    0 <= k < self.registrations@.len() implies (
                #[trigger] self.registrations@[k]).adapter < self.adapters@.len() by {
                    if k < i {
                        assert(self.registrations@[k] == regs[k]);
                    } else {
                        assert(self.registrations@[k] == regs[k + 1]);
                    }
                }
            }
        }
        Ok(())
    }
}

/// Index of the first entry equal to `reg`.
fn find_registration(regs: &Vec<Registration>, reg: Registration) -> (i: usize)
    requires
        regs@.contains(reg),
    ensures
        i < regs@.len(),
        regs@[i as int] == reg,
        forall|j: int| 0 <= j < i ==> regs@[j] != reg,
{
    let mut i: usize = 0;
    while i < regs.len()
        invariant
            i <= regs@.len(),
            regs@.contains(reg),
            forall|j: int| 0 <= j < i ==> regs@[j] != reg,
        decreases regs@.len() - i,
    {
        if regs[i] == reg {
            return i;
        }
        i = i + 1;
    }
    proof {
        let w = choose|w: int| 0 <= w < regs@.len() && regs@[w] == reg;
        assert(false);
    }
    vstd::pervasive::unreached()
}

} // verus!
