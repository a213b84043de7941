use vstd::prelude::*;

verus! {

/// Why talking to the cooler failed.
#[derive(Debug)]
pub enum HardwareError {
    DeviceNotFound,
    AccessDenied(String),
    Communication(String),
    NotConnected,
    Unsupported(String),
}

#[derive(Debug, Clone, Copy, PartialEq, Eq, Structural)]
pub enum DeviceConnectionStatus {
    Disconnected,
    Connected,
    Simulated,
}

/// A device counts as connected when it is attached or simulated.
pub open spec fn counts_as_connected(status: DeviceConnectionStatus) -> bool {
    status == DeviceConnectionStatus::Connected || status == DeviceConnectionStatus::Simulated
}

/// Whether a device in state `status` counts as connected.
pub fn is_connected_status(status: DeviceConnectionStatus) -> (b: bool)
    ensures
        b == counts_as_connected(status),
{
    match status {
        DeviceConnectionStatus::Connected | DeviceConnectionStatus::Simulated => true,
        DeviceConnectionStatus::Disconnected => false,
    }
}

} // verus!
