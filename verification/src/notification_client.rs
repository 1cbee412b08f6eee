//! Device-change notifications: the native callback capability set and the
//! adapter that translates raw foreign parameters into it.

use vstd::prelude::*;

use crate::bits::{DataFlow, DeviceRole, DeviceState};
use crate::error::Error;
use crate::foreign::Guid;
use crate::property_store::PropertyKey;
use crate::string::WinStr;

verus! {

/// Events about devices appearing, vanishing and changing. Every method
/// has a safe no-op default, so an implementation overrides only what it
/// cares about. The foreign side may invoke these on any thread; an
/// implementation that keeps mutable state must synchronize it itself.
pub trait NotificationClient {
    fn on_default_device_changed(
        &mut self,
        data_flow: DataFlow,
        role: DeviceRole,
        device_id: WinStr<'_>,
    ) -> Result<(), Error> {
        let _ = data_flow;
        let _ = role;
        let _ = device_id;
        Ok(())
    }

    fn on_device_added(&mut self, device_id: WinStr<'_>) -> Result<(), Error> {
        let _ = device_id;
        Ok(())
    }

    fn on_device_removed(&mut self, device_id: WinStr<'_>) -> Result<(), Error> {
        let _ = device_id;
        Ok(())
    }

    fn on_device_state_changed(&mut self, device_id: WinStr<'_>, state: DeviceState) -> Result<
        (),
        Error,
    > {
        let _ = device_id;
        let _ = state;
        Ok(())
    }

    fn on_property_value_changed(
        &mut self,
        device_id: WinStr<'_>,
        property_key: PropertyKey,
    ) -> Result<(), Error> {
        let _ = device_id;
        let _ = property_key;
        Ok(())
    }
}

/// Adapter in the foreign interface shape around a boxed client. Each
/// dispatch method takes the raw foreign parameter forms, converts them to
/// their native, bounds-checked representations, and forwards the call;
/// the client's verdict is passed straight back.
pub struct NotificationClientWrapper {
    inner: Box<dyn NotificationClient>,
}

impl NotificationClientWrapper {
    pub fn new<T: NotificationClient + 'static>(inner: T) -> Self {
        NotificationClientWrapper { inner: Box::new(inner) }
    }

    pub fn on_default_device_changed_raw(
        &mut self,
        flow: i32,
        role: i32,
        device_id: &[u16],
    ) -> Result<(), Error>
        requires
            flow == 0 || flow == 1,
            0 <= role <= 2,
            device_id@.contains(0u16),
    {
        self.inner.on_default_device_changed(
            DataFlow::from_raw(flow),
            DeviceRole::from_raw(role),
            WinStr::from_units(device_id),
        )
    }

    pub fn on_device_added_raw(&mut self, device_id: &[u16]) -> Result<(), Error>
        requires
            device_id@.contains(0u16),
    {
        self.inner.on_device_added(WinStr::from_units(device_id))
    }

    pub fn on_device_removed_raw(&mut self, device_id: &[u16]) -> Result<(), Error>
        requires
            device_id@.contains(0u16),
    {
        self.inner.on_device_removed(WinStr::from_units(device_id))
    }

    pub fn on_device_state_changed_raw(&mut self, device_id: &[u16], new_state: u32) -> Result<
        (),
        Error,
    >
        requires
            device_id@.contains(0u16),
            new_state == 0x1 || new_state == 0x2 || new_state == 0x4 || new_state == 0x8,
    {
        self.inner.on_device_state_changed(
            WinStr::from_units(device_id),
            DeviceState::from_raw(new_state),
        )
    }

    pub fn on_property_value_changed_raw(
        &mut self,
        device_id: &[u16],
        key_fmtid: u128,
        key_pid: u32,
    ) -> Result<(), Error>
        requires
            device_id@.contains(0u16),
    {
        self.inner.on_property_value_changed(
            WinStr::from_units(device_id),
            PropertyKey::from_raw(Guid::new(key_fmtid), key_pid),
        )
    }
}

} // verus!
