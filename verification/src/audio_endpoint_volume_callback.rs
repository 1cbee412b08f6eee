//! Endpoint-volume-change notifications and their adapter.

use vstd::prelude::*;

use crate::error::Error;
use crate::foreign::Guid;
use crate::string::copy_prefix;

verus! {

/// What an endpoint volume notification carries. Volume levels are
/// floating-point on the foreign side; they are carried here as raw bit
/// patterns, which the codec never computes with.
pub struct NotificationData {
    pub event_context: Guid,
    pub muted: bool,
    /// Bit pattern of the 32-bit float master volume.
    pub master_volume_bits: u32,
    /// Bit patterns of the per-channel 32-bit float volumes.
    pub channel_volumes_bits: Vec<u32>,
}

impl NotificationData {
    /// Build the native representation from the raw foreign notification
    /// block: a boolean as a 32-bit integer, and a fixed-capacity channel
    /// array of which only the first `channel_count` entries are valid.
    pub fn from_raw(
        event_context: Guid,
        muted: i32,
        master_volume_bits: u32,
        channel_count: u32,
        channel_volumes_bits: &[u32],
    ) -> (r: Self)
        requires
            channel_count <= channel_volumes_bits@.len(),
        ensures
            r.event_context == event_context,
            r.muted == (muted != 0),
            r.master_volume_bits == master_volume_bits,
            r.channel_volumes_bits@ == channel_volumes_bits@.subrange(0, channel_count as int),
    {
        NotificationData {
            event_context,
            muted: muted != 0,
            master_volume_bits,
            channel_volumes_bits: copy_prefix(channel_volumes_bits, channel_count as usize),
        }
    }
}

/// Volume-change events for one endpoint, with a safe no-op default.
pub trait AudioEndpointVolumeCallback {
    fn on_notify(&mut self, data: &NotificationData) -> Result<(), Error> {
        let _ = data;
        Ok(())
    }
}

/// Adapter in the foreign interface shape around a boxed callback.
pub struct AudioEndpointVolumeCallbackWrapper {
    inner: Box<dyn AudioEndpointVolumeCallback>,
}

impl AudioEndpointVolumeCallbackWrapper {
    pub fn new<T: AudioEndpointVolumeCallback + 'static>(inner: T) -> Self {
        AudioEndpointVolumeCallbackWrapper { inner: Box::new(inner) }
    }

    /// Convert a raw notification block and forward it.
    pub fn on_notify_raw(
        &mut self,
        event_context: Guid,
        muted: i32,
        master_volume_bits: u32,
        channel_count: u32,
        channel_volumes_bits: &[u32],
    ) -> Result<(), Error>
        requires
            channel_count <= channel_volumes_bits@.len(),
    {
        let data = NotificationData::from_raw(
            event_context,
            muted,
            master_volume_bits,
            channel_count,
            channel_volumes_bits,
        );
        self.inner.on_notify(&data)
    }
}

} // verus!
