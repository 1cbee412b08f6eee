//! Safe model of a COM-style audio binding: wide-string ownership,
//! tagged-variant property codec, and the callback registration protocol.

use vstd::prelude::*;

mod audio_endpoint_volume;
mod audio_endpoint_volume_callback;
mod audio_session_control;
mod audio_session_enumerator;
mod audio_session_events;
mod audio_session_manager;
mod audio_session_notification;
mod audio_volume_duck_notification;
mod bits;
mod device;
mod device_collection;
mod device_enumerator;
mod error;
mod foreign;
mod notification_client;
mod property_store;
mod simple_audio_volume;
mod string;

pub use audio_endpoint_volume::{
    AudioEndpointVolume, AudioEndpointVolumeCallbackHandle, VolumeStepInfo,
};
pub use audio_endpoint_volume_callback::{
    AudioEndpointVolumeCallback, AudioEndpointVolumeCallbackWrapper, NotificationData,
};
pub use audio_session_control::{
    AudioSessionControl, AudioSessionControl2, AudioSessionEventsHandle,
};
pub use audio_session_enumerator::{AudioSessionEnumerator, AudioSessionIter};
pub use audio_session_events::{AudioSessionEvents, AudioSessionEventsWrapper};
pub use audio_session_manager::{
    AudioSessionManager, AudioSessionManager2, AudioSessionNotificationHandle,
    AudioVolumeDuckNotificationHandle,
};
pub use audio_session_notification::{AudioSessionNotification, AudioSessionNotificationWrapper};
pub use audio_volume_duck_notification::{
    AudioVolumeDuckNotification, AudioVolumeDuckNotificationWrapper,
};
pub use bits::{
    AudioSessionDisconnectReason, AudioSessionState, DataFlow, DataFlowMask, DeviceRole,
    DeviceState, DeviceStateMask, HardwareSupportMask, StorageAccessMode,
};
pub use device::{
    device_description, device_friendly_name, device_interface_friendly_name, Device,
};
pub use device_collection::{DeviceCollection, DeviceIter};
pub use device_enumerator::{device_admitted, DeviceEnumerator, NotificationClientHandle};
pub use error::{Error, E_ACCESSDENIED, E_FAIL, E_INVALIDARG, E_NOTFOUND, E_OUTOFMEMORY};
pub use foreign::{
    DeviceRecord, EndpointRecord, ForeignRuntime, Guid, ParentId, ParentKind, Registration,
    SessionRecord, StoreEntry,
};
pub use notification_client::{NotificationClient, NotificationClientWrapper};
pub use property_store::{Property, PropertyKey, PropertyStore, RawProperty};
pub use simple_audio_volume::SimpleAudioVolume;
pub use string::{
    char_scalars, lex_order, null_free, scan_len, utf16_scalars, StringAlloc, WinStr, WinString,
};

verus! {

} // verus!
