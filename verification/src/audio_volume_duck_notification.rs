//! Volume-ducking notifications and their adapter.

use vstd::prelude::*;

use crate::error::Error;
use crate::string::WinStr;

verus! {

/// Ducking start and stop events, with safe no-op defaults.
pub trait AudioVolumeDuckNotification {
    fn on_volume_duck_notification(
        &mut self,
        session_id: WinStr<'_>,
        num_communication_sessions: u32,
    ) -> Result<(), Error> {
        let _ = session_id;
        let _ = num_communication_sessions;
        Ok(())
    }

    fn on_volume_unduck_notification(&mut self, session_id: WinStr<'_>) -> Result<(), Error> {
        let _ = session_id;
        Ok(())
    }
}

/// Adapter in the foreign interface shape around a boxed listener.
pub struct AudioVolumeDuckNotificationWrapper {
    inner: Box<dyn AudioVolumeDuckNotification>,
}

impl AudioVolumeDuckNotificationWrapper {
    pub fn new<T: AudioVolumeDuckNotification + 'static>(inner: T) -> Self {
        AudioVolumeDuckNotificationWrapper { inner: Box::new(inner) }
    }

    pub fn on_volume_duck_notification_raw(
        &mut self,
        session_id: &[u16],
        num_communication_sessions: u32,
    ) -> Result<(), Error>
        requires
            session_id@.contains(0u16),
    {
        self.inner.on_volume_duck_notification(
            WinStr::from_units(session_id),
            num_communication_sessions,
        )
    }

    pub fn on_volume_unduck_notification_raw(&mut self, session_id: &[u16]) -> Result<(), Error>
        requires
            session_id@.contains(0u16),
    {
        self.inner.on_volume_unduck_notification(WinStr::from_units(session_id))
    }
}

} // verus!
