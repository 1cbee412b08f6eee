//! Per-session event notifications and their adapter.

use vstd::prelude::*;

use crate::bits::{AudioSessionDisconnectReason, AudioSessionState};
use crate::error::Error;
use crate::foreign::Guid;
use crate::string::WinStr;
use vstd::slice::slice_subrange;

verus! {

/// Events about one audio session. Every method has a safe no-op default.
/// Volume levels are floating-point on the foreign side and are carried as
/// raw bit patterns.
pub trait AudioSessionEvents {
    fn on_channel_volume_changed(
        &mut self,
        new_volume_levels_bits: &[u32],
        changed_channel: usize,
        event_context: Option<&Guid>,
    ) -> Result<(), Error> {
        let _ = new_volume_levels_bits;
        let _ = changed_channel;
        let _ = event_context;
        Ok(())
    }

    fn on_display_name_changed(
        &mut self,
        new_display_name: WinStr<'_>,
        event_context: Option<&Guid>,
    ) -> Result<(), Error> {
        let _ = new_display_name;
        let _ = event_context;
        Ok(())
    }

    fn on_grouping_param_changed(
        &mut self,
        new_grouping_param: Option<&Guid>,
        event_context: Option<&Guid>,
    ) -> Result<(), Error> {
        let _ = new_grouping_param;
        let _ = event_context;
        Ok(())
    }

    fn on_icon_path_changed(
        &mut self,
        new_icon_path: WinStr<'_>,
        event_context: Option<&Guid>,
    ) -> Result<(), Error> {
        let _ = new_icon_path;
        let _ = event_context;
        Ok(())
    }

    fn on_session_disconnected(
        &mut self,
        disconnect_reason: AudioSessionDisconnectReason,
    ) -> Result<(), Error> {
        let _ = disconnect_reason;
        Ok(())
    }

    fn on_simple_volume_changed(
        &mut self,
        new_volume_bits: u32,
        new_mute: bool,
        event_context: Option<&Guid>,
    ) -> Result<(), Error> {
        let _ = new_volume_bits;
        let _ = new_mute;
        let _ = event_context;
        Ok(())
    }

    fn on_state_changed(&mut self, new_state: AudioSessionState) -> Result<(), Error> {
        let _ = new_state;
        Ok(())
    }
}

/// Adapter in the foreign interface shape around a boxed event sink.
pub struct AudioSessionEventsWrapper {
    inner: Box<dyn AudioSessionEvents>,
}

impl AudioSessionEventsWrapper {
    pub fn new<T: AudioSessionEvents + 'static>(inner: T) -> Self {
        AudioSessionEventsWrapper { inner: Box::new(inner) }
    }

    /// The raw call hands a fixed-capacity array with a count of the valid
    /// entries; only those are forwarded.
    pub fn on_channel_volume_changed_raw(
        &mut self,
        channel_count: u32,
        channel_volume_bits: &[u32],
        changed_channel: u32,
        event_context: Option<&Guid>,
    ) -> Result<(), Error>
        requires
            channel_count <= channel_volume_bits@.len(),
    {
        let levels = slice_subrange(channel_volume_bits, 0, channel_count as usize);
        self.inner.on_channel_volume_changed(levels, changed_channel as usize, event_context)
    }

    pub fn on_display_name_changed_raw(
        &mut self,
        new_display_name: &[u16],
        event_context: Option<&Guid>,
    ) -> Result<(), Error>
        requires
            new_display_name@.contains(0u16),
    {
        self.inner.on_display_name_changed(WinStr::from_units(new_display_name), event_context)
    }

    pub fn on_grouping_param_changed_raw(
        &mut self,
        new_grouping_param: Option<&Guid>,
        event_context: Option<&Guid>,
    ) -> Result<(), Error> {
        self.inner.on_grouping_param_changed(new_grouping_param, event_context)
    }

    pub fn on_icon_path_changed_raw(
        &mut self,
        new_icon_path: &[u16],
        event_context: Option<&Guid>,
    ) -> Result<(), Error>
        requires
            new_icon_path@.contains(0u16),
    {
        self.inner.on_icon_path_changed(WinStr::from_units(new_icon_path), event_context)
    }

    pub fn on_session_disconnected_raw(&mut self, disconnect_reason: i32) -> Result<(), Error>
        requires
            0 <= disconnect_reason <= 5,
    {
        self.inner.on_session_disconnected(
            AudioSessionDisconnectReason::from_raw(disconnect_reason),
        )
    }

    pub fn on_simple_volume_changed_raw(
        &mut self,
        new_volume_bits: u32,
        new_mute: i32,
        event_context: Option<&Guid>,
    ) -> Result<(), Error> {
        self.inner.on_simple_volume_changed(new_volume_bits, new_mute != 0, event_context)
    }

    pub fn on_state_changed_raw(&mut self, new_state: i32) -> Result<(), Error>
        requires
            0 <= new_state <= 2,
    {
        self.inner.on_state_changed(AudioSessionState::from_raw(new_state))
    }
}

} // verus!
