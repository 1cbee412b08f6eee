//! Enumeration of a device's audio sessions.

use vstd::prelude::*;

use crate::audio_session_control::AudioSessionControl;
use crate::error::{Error, E_INVALIDARG};
use crate::foreign::ForeignRuntime;

verus! {

/// Enumerator over the sessions of one device.
#[derive(Debug, Clone, Copy, PartialEq, Eq, Structural)]
pub struct AudioSessionEnumerator {
    pub device: u64,
}

impl AudioSessionEnumerator {
    pub open spec fn valid(&self, rt: ForeignRuntime) -> bool {
        self.device < rt.devices@.len()
    }

    pub open spec fn session_count(&self, rt: ForeignRuntime) -> int {
        rt.devices@[self.device as int].sessions@.len() as int
    }

    pub fn new(device: u64) -> (r: Self)
        ensures
            r.device == device,
    {
        AudioSessionEnumerator { device }
    }

    /// How many sessions the device has.
    pub fn get_count(&self, rt: &ForeignRuntime) -> (r: Result<i32, Error>)
        requires
            self.valid(*rt),
            rt.wf_devices(),
        ensures
            r == Ok::<i32, Error>(self.session_count(*rt) as i32),
    {
        let d = rt.device_index(self.device);
        let n: usize = rt.devices[d].sessions.len();
        proof {
            assert(rt.devices@[d as int].wf());
        }
        Ok(n as i32)
    }

    /// The control of the session at `session`; an index outside the range
    /// is rejected with the invalid-argument status, if and only if.
    pub fn get_session(&self, rt: &ForeignRuntime, session: i32) -> (r: Result<
        AudioSessionControl,
        Error,
    >)
        requires
            self.valid(*rt),
        ensures
            (0 <= session < self.session_count(*rt)) ==> r == Ok::<AudioSessionControl, Error>(
                AudioSessionControl { device: self.device, session: session as u64 },
            ),
            !(0 <= session < self.session_count(*rt)) ==> r == Err::<AudioSessionControl, Error>(
                Error::Foreign(E_INVALIDARG),
            ),
    {
        let d = rt.device_index(self.device);
        let n: usize = rt.devices[d].sessions.len();
        if session >= 0 && (session as usize) < n {
            Ok(AudioSessionControl { device: self.device, session: session as u64 })
        } else {
            Err(Error::Foreign(E_INVALIDARG))
        }
    }

    /// An iterator over this device's sessions, fixed to the session count
    /// at its creation.
    pub fn iter(&self, rt: &ForeignRuntime) -> (r: AudioSessionIter)
        requires
            self.valid(*rt),
            rt.wf_devices(),
        ensures
            r.device == self.device,
            r.next == 0,
            r.end == self.session_count(*rt),
    {
        let d = rt.device_index(self.device);
        let n: usize = rt.devices[d].sessions.len();
        proof {
            assert(rt.devices@[d as int].wf());
        }
        AudioSessionIter { device: self.device, next: 0, end: n as i32 }
    }
}

/// Iterator over the sessions of one device.
#[derive(Debug, Clone, Copy, PartialEq, Eq, Structural)]
pub struct AudioSessionIter {
    pub device: u64,
    pub next: i32,
    pub end: i32,
}

impl AudioSessionIter {
    pub fn new(device: u64, end: i32) -> (r: Self)
        ensures
            r.device == device,
            r.next == 0,
            r.end == end,
    {
        AudioSessionIter { device, next: 0, end }
    }

    /// The next session control, or nothing when the range is exhausted.
    pub fn next(&mut self) -> (r: Option<AudioSessionControl>)
        requires
            old(self).next >= 0,
        ensures
            final(self).device == old(self).device,
            final(self).end == old(self).end,
            old(self).next < old(self).end ==> {
                &&& r == Some(
                    AudioSessionControl {
                        device: old(self).device,
                        session: old(self).next as u64,
                    },
                )
                &&& final(self).next == old(self).next + 1
            },
            old(self).next >= old(self).end ==> {
                &&& r == None::<AudioSessionControl>
                &&& final(self).next == old(self).next
            },
    {
        if self.next < self.end {
            let s = self.next;
            self.next = s + 1;
            Some(AudioSessionControl { device: self.device, session: s as u64 })
        } else {
            None
        }
    }

    /// How many sessions are left.
    pub fn size_hint(&self) -> (r: usize)
        requires
            0 <= self.next,
            self.next <= self.end,
        ensures
            r == self.end - self.next,
    {
        (self.end - self.next) as usize
    }
}

} // verus!
