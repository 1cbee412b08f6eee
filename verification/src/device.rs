//! One audio endpoint device: identity, state, property store, and the
//! interfaces activated on it.

use vstd::prelude::*;

use crate::audio_endpoint_volume::AudioEndpointVolume;
use crate::audio_session_manager::AudioSessionManager;
use crate::bits::{DeviceState, StorageAccessMode};
use crate::error::Error;
use crate::foreign::{DeviceRecord, ForeignRuntime, Guid};
use crate::property_store::{PropertyKey, PropertyStore};
use crate::string::{com_string_out, copy_prefix, WinString};

verus! {

/// One endpoint device known to the foreign side.
#[derive(Debug, Clone, Copy, PartialEq, Eq, Structural)]
pub struct Device {
    pub index: u64,
}

impl Device {
    pub open spec fn valid(&self, rt: ForeignRuntime) -> bool {
        self.index < rt.devices@.len()
    }

    pub open spec fn record(&self, rt: ForeignRuntime) -> DeviceRecord {
        rt.devices@[self.index as int]
    }

    pub fn new(index: u64) -> (r: Self)
        ensures
            r.index == index,
    {
        Device { index }
    }

    /// The device identifier, as a fresh COM-allocated owned string the
    /// caller must release through the COM family.
    pub fn get_id(&self, rt: &mut ForeignRuntime) -> (r: Result<WinString, Error>)
        requires
            self.valid(*old(rt)),
            old(rt).wf_devices(),
            old(rt).com_allocs < u64::MAX,
        ensures
            crate::foreign::registry_unchanged(*old(rt), *final(rt)),
            crate::foreign::devices_unchanged(*old(rt), *final(rt)),
            (match r {
                Ok(s) => s@ == self.record(*old(rt)).id@ && s.tag()
                    == crate::string::StringAlloc::Com,
                Err(e) => e == Error::Foreign(crate::error::E_OUTOFMEMORY) && old(rt).fail_next_alloc,
            }),
    {
        let d = rt.device_index(self.index);
        let id = &rt.devices[d].id;
        let units = copy_prefix(id.as_slice(), id.len());
        com_string_out(rt, units)
    }

    /// The device's presence state.
    pub fn get_state(&self, rt: &ForeignRuntime) -> (r: Result<DeviceState, Error>)
        requires
            self.valid(*rt),
        ensures
            r == Ok::<DeviceState, Error>(self.record(*rt).state),
    {
        let d = rt.device_index(self.index);
        Ok(rt.devices[d].state)
    }

    /// Open the device's property store with the given access mode.
    pub fn open_property_store(&self, storage_access_mode: StorageAccessMode) -> (r: Result<
        PropertyStore,
        Error,
    >)
        ensures
            r == Ok::<PropertyStore, Error>(
                PropertyStore { device: self.index, access: storage_access_mode },
            ),
    {
        Ok(PropertyStore { device: self.index, access: storage_access_mode })
    }

    /// Activate the endpoint volume interface of this device.
    pub fn activate_audio_endpoint_volume(&self) -> (r: Result<AudioEndpointVolume, Error>)
        ensures
            r == Ok::<AudioEndpointVolume, Error>(AudioEndpointVolume { device: self.index }),
    {
        Ok(AudioEndpointVolume { device: self.index })
    }

    /// Activate the session manager interface of this device.
    pub fn activate_audio_session_manager(&self) -> (r: Result<AudioSessionManager, Error>)
        ensures
            r == Ok::<AudioSessionManager, Error>(AudioSessionManager { device: self.index }),
    {
        Ok(AudioSessionManager { device: self.index })
    }
}

/// Key of the friendly name of the device's interface.
pub fn device_interface_friendly_name() -> (r: PropertyKey)
    ensures
        r == (PropertyKey {
            fmtid: Guid { value: 0x026e516e_b814_414b_83cd_856d6fef4822u128 },
            pid: 2,
        }),
{
    PropertyKey { fmtid: Guid { value: 0x026e516e_b814_414b_83cd_856d6fef4822u128 }, pid: 2 }
}

/// Key of the device description.
pub fn device_description() -> (r: PropertyKey)
    ensures
        r == (PropertyKey {
            fmtid: Guid { value: 0xa45c254e_df1c_4efd_8020_67d146a850e0u128 },
            pid: 2,
        }),
{
    PropertyKey { fmtid: Guid { value: 0xa45c254e_df1c_4efd_8020_67d146a850e0u128 }, pid: 2 }
}

/// Key of the device's friendly name.
pub fn device_friendly_name() -> (r: PropertyKey)
    ensures
        r == (PropertyKey {
            fmtid: Guid { value: 0xa45c254e_df1c_4efd_8020_67d146a850e0u128 },
            pid: 14,
        }),
{
    PropertyKey { fmtid: Guid { value: 0xa45c254e_df1c_4efd_8020_67d146a850e0u128 }, pid: 14 }
}

} // verus!
