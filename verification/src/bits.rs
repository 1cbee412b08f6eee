//! Translated enumeration and bitmask types of the foreign audio API.
//!
//! Each type pairs a closed native enum (or mask) with the raw integer
//! representation the foreign side uses, and the translation in both
//! directions carries an exact contract.

use vstd::prelude::*;

verus! {

/// Direction of an audio stream.
#[derive(Debug, Clone, Copy, PartialEq, Eq, Structural)]
pub enum DataFlow {
    Render,
    Capture,
}

impl DataFlow {
    /// The raw discriminant the foreign side uses for this flow.
    pub open spec fn raw_spec(self) -> i32 {
        match self {
            DataFlow::Render => 0,
            DataFlow::Capture => 1,
        }
    }

    pub fn from_raw(raw: i32) -> (r: Self)
        requires
            raw == 0 || raw == 1,
        ensures
            r.raw_spec() == raw,
    {
        if raw == 0 {
            DataFlow::Render
        } else {
            DataFlow::Capture
        }
    }

    pub fn to_raw(&self) -> (r: i32)
        ensures
            r == self.raw_spec(),
    {
        match self {
            DataFlow::Render => 0,
            DataFlow::Capture => 1,
        }
    }
}

/// Stream-direction filter used when enumerating devices.
#[derive(Debug, Clone, Copy, PartialEq, Eq, Structural)]
pub enum DataFlowMask {
    Render,
    Capture,
    All,
}

impl DataFlowMask {
    pub open spec fn raw_spec(self) -> i32 {
        match self {
            DataFlowMask::Render => 0,
            DataFlowMask::Capture => 1,
            DataFlowMask::All => 2,
        }
    }

    /// Whether a device with the given flow passes this filter.
    pub open spec fn admits_spec(self, flow: DataFlow) -> bool {
        match self {
            DataFlowMask::Render => flow == DataFlow::Render,
            DataFlowMask::Capture => flow == DataFlow::Capture,
            DataFlowMask::All => true,
        }
    }

    pub fn from_raw(raw: i32) -> (r: Self)
        requires
            0 <= raw <= 2,
        ensures
            r.raw_spec() == raw,
    {
        if raw == 0 {
            DataFlowMask::Render
        } else if raw == 1 {
            DataFlowMask::Capture
        } else {
            DataFlowMask::All
        }
    }

    pub fn to_raw(&self) -> (r: i32)
        ensures
            r == self.raw_spec(),
    {
        match self {
            DataFlowMask::Render => 0,
            DataFlowMask::Capture => 1,
            DataFlowMask::All => 2,
        }
    }

    pub fn admits(&self, flow: DataFlow) -> (r: bool)
        ensures
            r == self.admits_spec(flow),
    {
        match self {
            DataFlowMask::Render => flow.to_raw() == 0,
            DataFlowMask::Capture => flow.to_raw() == 1,
            DataFlowMask::All => true,
        }
    }
}

/// Role a default device is asked for.
#[derive(Debug, Clone, Copy, PartialEq, Eq, Structural)]
pub enum DeviceRole {
    Console,
    Multimedia,
    Communications,
}

impl DeviceRole {
    pub open spec fn raw_spec(self) -> i32 {
        match self {
            DeviceRole::Console => 0,
            DeviceRole::Multimedia => 1,
            DeviceRole::Communications => 2,
        }
    }

    pub fn from_raw(raw: i32) -> (r: Self)
        requires
            0 <= raw <= 2,
        ensures
            r.raw_spec() == raw,
    {
        if raw == 0 {
            DeviceRole::Console
        } else if raw == 1 {
            DeviceRole::Multimedia
        } else {
            DeviceRole::Communications
        }
    }

    pub fn to_raw(&self) -> (r: i32)
        ensures
            r == self.raw_spec(),
    {
        match self {
            DeviceRole::Console => 0,
            DeviceRole::Multimedia => 1,
            DeviceRole::Communications => 2,
        }
    }
}

/// Presence state of an audio endpoint device.
#[derive(Debug, Clone, Copy, PartialEq, Eq, Structural)]
pub enum DeviceState {
    Active,
    Disabled,
    NotPresent,
    Unplugged,
}

impl DeviceState {
    pub open spec fn raw_spec(self) -> u32 {
        match self {
            DeviceState::Active => 0x1,
            DeviceState::Disabled => 0x2,
            DeviceState::NotPresent => 0x4,
            DeviceState::Unplugged => 0x8,
        }
    }

    pub fn from_raw(raw: u32) -> (r: Self)
        requires
            raw == 0x1 || raw == 0x2 || raw == 0x4 || raw == 0x8,
        ensures
            r.raw_spec() == raw,
    {
        if raw == 0x1 {
            DeviceState::Active
        } else if raw == 0x2 {
            DeviceState::Disabled
        } else if raw == 0x4 {
            DeviceState::NotPresent
        } else {
            DeviceState::Unplugged
        }
    }

    pub fn to_raw(&self) -> (r: u32)
        ensures
            r == self.raw_spec(),
    {
        match self {
            DeviceState::Active => 0x1,
            DeviceState::Disabled => 0x2,
            DeviceState::NotPresent => 0x4,
            DeviceState::Unplugged => 0x8,
        }
    }
}

/// Set of device states, used to filter a device enumeration.
#[derive(Debug, Clone, Copy, PartialEq, Eq, Structural)]
pub struct DeviceStateMask {
    pub bits: u32,
}

impl DeviceStateMask {
    /// Whether the bit pattern only names known device states.
    pub open spec fn valid_bits(bits: u32) -> bool {
        bits & 0xF == bits
    }

    pub fn from_bits(bits: u32) -> (r: Option<Self>)
        ensures
            DeviceStateMask::valid_bits(bits) ==> r == Some(DeviceStateMask { bits }),
            !DeviceStateMask::valid_bits(bits) ==> r == None::<DeviceStateMask>,
    {
        if bits & 0xF == bits {
            Some(DeviceStateMask { bits })
        } else {
            None
        }
    }

    pub fn bits(&self) -> (r: u32)
        ensures
            r == self.bits,
    {
        self.bits
    }

    pub fn all() -> (r: Self)
        ensures
            r.bits == 0xF,
    {
        DeviceStateMask { bits: 0xF }
    }

    pub fn active() -> (r: Self)
        ensures
            r.bits == 0x1,
    {
        DeviceStateMask { bits: 0x1 }
    }

    pub fn disabled() -> (r: Self)
        ensures
            r.bits == 0x2,
    {
        DeviceStateMask { bits: 0x2 }
    }

    pub fn not_present() -> (r: Self)
        ensures
            r.bits == 0x4,
    {
        DeviceStateMask { bits: 0x4 }
    }

    pub fn unplugged() -> (r: Self)
        ensures
            r.bits == 0x8,
    {
        DeviceStateMask { bits: 0x8 }
    }

    pub fn union(&self, other: &Self) -> (r: Self)
        ensures
            r.bits == self.bits | other.bits,
    {
        DeviceStateMask { bits: self.bits | other.bits }
    }

    /// Whether devices in the given state pass this filter.
    pub open spec fn admits_spec(self, state: DeviceState) -> bool {
        self.bits & state.raw_spec() != 0
    }

    pub fn admits(&self, state: DeviceState) -> (r: bool)
        ensures
            r == self.admits_spec(state),
    {
        self.bits & state.to_raw() != 0
    }
}

/// Hardware capabilities an endpoint reports.
#[derive(Debug, Clone, Copy, PartialEq, Eq, Structural)]
pub struct HardwareSupportMask {
    pub bits: u32,
}

impl HardwareSupportMask {
    /// Whether the bit pattern only names known capabilities.
    pub open spec fn valid_bits(bits: u32) -> bool {
        bits & 0x7 == bits
    }

    pub fn from_bits(bits: u32) -> (r: Option<Self>)
        ensures
            HardwareSupportMask::valid_bits(bits) ==> r == Some(HardwareSupportMask { bits }),
            !HardwareSupportMask::valid_bits(bits) ==> r == None::<HardwareSupportMask>,
    {
        if bits & 0x7 == bits {
            Some(HardwareSupportMask { bits })
        } else {
            None
        }
    }

    pub fn bits(&self) -> (r: u32)
        ensures
            r == self.bits,
    {
        self.bits
    }

    pub fn volume() -> (r: Self)
        ensures
            r.bits == 0x1,
    {
        HardwareSupportMask { bits: 0x1 }
    }

    pub fn mute() -> (r: Self)
        ensures
            r.bits == 0x2,
    {
        HardwareSupportMask { bits: 0x2 }
    }

    pub fn meter() -> (r: Self)
        ensures
            r.bits == 0x4,
    {
        HardwareSupportMask { bits: 0x4 }
    }

    pub fn contains(&self, other: &Self) -> (r: bool)
        ensures
            r == (self.bits & other.bits == other.bits),
    {
        self.bits & other.bits == other.bits
    }
}

/// Access mode a property store is opened with.
#[derive(Debug, Clone, Copy, PartialEq, Eq, Structural)]
pub enum StorageAccessMode {
    Read,
    Write,
    ReadWrite,
}

impl StorageAccessMode {
    pub open spec fn raw_spec(self) -> i32 {
        match self {
            StorageAccessMode::Read => 0,
            StorageAccessMode::Write => 1,
            StorageAccessMode::ReadWrite => 2,
        }
    }

    /// Whether the mode permits writing values.
    pub open spec fn writable_spec(self) -> bool {
        self != StorageAccessMode::Read
    }

    pub fn from_raw(raw: i32) -> (r: Self)
        requires
            0 <= raw <= 2,
        ensures
            r.raw_spec() == raw,
    {
        if raw == 0 {
            StorageAccessMode::Read
        } else if raw == 1 {
            StorageAccessMode::Write
        } else {
            StorageAccessMode::ReadWrite
        }
    }

    pub fn to_raw(&self) -> (r: i32)
        ensures
            r == self.raw_spec(),
    {
        match self {
            StorageAccessMode::Read => 0,
            StorageAccessMode::Write => 1,
            StorageAccessMode::ReadWrite => 2,
        }
    }

    pub fn writable(&self) -> (r: bool)
        ensures
            r == self.writable_spec(),
    {
        match self {
            StorageAccessMode::Read => false,
            _ => true,
        }
    }
}

/// Activity state of an audio session.
#[derive(Debug, Clone, Copy, PartialEq, Eq, Structural)]
pub enum AudioSessionState {
    Inactive,
    Active,
    Expired,
}

impl AudioSessionState {
    pub open spec fn raw_spec(self) -> i32 {
        match self {
            AudioSessionState::Inactive => 0,
            AudioSessionState::Active => 1,
            AudioSessionState::Expired => 2,
        }
    }

    pub fn from_raw(raw: i32) -> (r: Self)
        requires
            0 <= raw <= 2,
        ensures
            r.raw_spec() == raw,
    {
        if raw == 0 {
            AudioSessionState::Inactive
        } else if raw == 1 {
            AudioSessionState::Active
        } else {
            AudioSessionState::Expired
        }
    }

    pub fn to_raw(&self) -> (r: i32)
        ensures
            r == self.raw_spec(),
    {
        match self {
            AudioSessionState::Inactive => 0,
            AudioSessionState::Active => 1,
            AudioSessionState::Expired => 2,
        }
    }
}

/// Why a session was disconnected.
#[derive(Debug, Clone, Copy, PartialEq, Eq, Structural)]
pub enum AudioSessionDisconnectReason {
    DeviceRemoval,
    ServerShutdown,
    FormatChanged,
    SessionLogoff,
    SessionDisconnected,
    ExclusiveModeOverride,
}

impl AudioSessionDisconnectReason {
    pub open spec fn raw_spec(self) -> i32 {
        match self {
            AudioSessionDisconnectReason::DeviceRemoval => 0,
            AudioSessionDisconnectReason::ServerShutdown => 1,
            AudioSessionDisconnectReason::FormatChanged => 2,
            AudioSessionDisconnectReason::SessionLogoff => 3,
            AudioSessionDisconnectReason::SessionDisconnected => 4,
            AudioSessionDisconnectReason::ExclusiveModeOverride => 5,
        }
    }

    pub fn from_raw(raw: i32) -> (r: Self)
        requires
            0 <= raw <= 5,
        ensures
            r.raw_spec() == raw,
    {
        if raw == 0 {
            AudioSessionDisconnectReason::DeviceRemoval
        } else if raw == 1 {
            AudioSessionDisconnectReason::ServerShutdown
        } else if raw == 2 {
            AudioSessionDisconnectReason::FormatChanged
        } else if raw == 3 {
            AudioSessionDisconnectReason::SessionLogoff
        } else if raw == 4 {
            AudioSessionDisconnectReason::SessionDisconnected
        } else {
            AudioSessionDisconnectReason::ExclusiveModeOverride
        }
    }

    pub fn to_raw(&self) -> (r: i32)
        ensures
            r == self.raw_spec(),
    {
        match self {
            AudioSessionDisconnectReason::DeviceRemoval => 0,
            AudioSessionDisconnectReason::ServerShutdown => 1,
            AudioSessionDisconnectReason::FormatChanged => 2,
            AudioSessionDisconnectReason::SessionLogoff => 3,
            AudioSessionDisconnectReason::SessionDisconnected => 4,
            AudioSessionDisconnectReason::ExclusiveModeOverride => 5,
        }
    }
}

} // verus!
