//! Session-creation notifications and their adapter.

use vstd::prelude::*;

use crate::audio_session_control::AudioSessionControl;
use crate::error::Error;

verus! {

/// Notification that a session was created, with a safe no-op default.
pub trait AudioSessionNotification {
    fn on_session_created(&mut self, new_session: AudioSessionControl) -> Result<(), Error> {
        let _ = new_session;
        Ok(())
    }
}

/// Adapter in the foreign interface shape around a boxed listener.
pub struct AudioSessionNotificationWrapper {
    inner: Box<dyn AudioSessionNotification>,
}

impl AudioSessionNotificationWrapper {
    pub fn new<T: AudioSessionNotification + 'static>(inner: T) -> Self {
        AudioSessionNotificationWrapper { inner: Box::new(inner) }
    }

    /// The raw call hands an optional interface reference; the foreign
    /// contract never passes none for a created session.
    pub fn on_session_created_raw(&mut self, new_session: Option<AudioSessionControl>) -> Result<
        (),
        Error,
    >
        requires
            new_session is Some,
    {
        match new_session {
            Some(session) => self.inner.on_session_created(session),
            None => vstd::pervasive::unreached(),
        }
    }
}

} // verus!
