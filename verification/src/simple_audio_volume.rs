//! Per-session volume control. The foreign volume level itself is a
//! floating-point scalar and stays outside this model; the mute state is
//! the part the logic reads and writes.

use vstd::prelude::*;

use crate::error::Error;
use crate::foreign::{
    device_same_except_sessions, rt_same_except_device, session_same_except_muted,
    sessions_same_except, ForeignRuntime, Guid, SessionRecord,
};

verus! {

/// Volume control of one session of one device.
#[derive(Debug, Clone, Copy, PartialEq, Eq, Structural)]
pub struct SimpleAudioVolume {
    pub device: u64,
    pub session: u64,
}

impl SimpleAudioVolume {
    pub open spec fn valid(&self, rt: ForeignRuntime) -> bool {
        &&& self.device < rt.devices@.len()
        &&& self.session < rt.devices@[self.device as int].sessions@.len()
    }

    pub open spec fn record(&self, rt: ForeignRuntime) -> SessionRecord {
        rt.devices@[self.device as int].sessions@[self.session as int]
    }

    pub fn new(device: u64, session: u64) -> (r: Self)
        ensures
            r.device == device,
            r.session == session,
    {
        SimpleAudioVolume { device, session }
    }

    pub fn get_mute(&self, rt: &ForeignRuntime) -> (r: Result<bool, Error>)
        requires
            self.valid(*rt),
        ensures
            r == Ok::<bool, Error>(self.record(*rt).muted),
    {
        let d = rt.device_index(self.device);
        let s = rt.session_index(d, self.session);
        Ok(rt.devices[d].sessions[s].muted)
    }

    pub fn set_mute(
        &self,
        rt: &mut ForeignRuntime,
        mute: bool,
        event_context: Option<&Guid>,
    ) -> (r: Result<(), Error>)
        requires
            self.valid(*old(rt)),
        ensures
            r == Ok::<(), Error>(()),
            rt_same_except_device(*old(rt), *final(rt), self.device as int),
            device_same_except_sessions(
                old(rt).devices@[self.device as int],
                final(rt).devices@[self.device as int],
            ),
            sessions_same_except(
                old(rt).devices@[self.device as int],
                final(rt).devices@[self.device as int],
                self.session as int,
            ),
            session_same_except_muted(self.record(*old(rt)), self.record(*final(rt))),
            self.record(*final(rt)).muted == mute,
            old(rt).wf_devices() ==> final(rt).wf_devices(),
    {
        let _ = event_context;
        let d = rt.device_index(self.device);
        let s = rt.session_index(d, self.session);
        rt.devices[d].sessions[s].muted = mute;
        proof {
            if old(rt).wf_devices() {
                assert forall|j: int| 0 <= j < final(rt).devices@.len() implies (#[trigger] final(rt).devices@[j]).wf() by {
                    assert(old(rt).devices@[j].wf());
                }
            }
        }
        Ok(())
    }
}

} // verus!
