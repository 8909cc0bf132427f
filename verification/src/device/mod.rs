pub mod description;
pub mod hotspot;
pub mod mi_temp_monitor;
pub mod piano;

use vstd::prelude::*;

use crate::bluetooth::{Device, DeviceAccessError};

verus! {

/// Names a kind of device for messages.
pub trait DeviceDescription {
    spec fn spec_name() -> Seq<char>;

    fn name() -> (name: &'static str)
        ensures
            name@ == Self::spec_name(),
    ;
}

/// The text of an access error for a device of the given name.
pub open spec fn spec_access_error_message(error: DeviceAccessError, name: Seq<char>) -> Seq<char> {
    match error {
        DeviceAccessError::NotConnected => name + " is not connected"@,
        DeviceAccessError::NotFound => name
            + " is not found and the discovery attempt will be performed again"@,
        DeviceAccessError::Connecting => name + " is in connecting state"@,
        DeviceAccessError::Disconnecting => name + " is in disconnecting state"@,
        DeviceAccessError::Unhealthy => name + " is unhealthy and will be reconnected"@,
    }
}

/// Describes an access error for a device of kind `D`.
pub fn access_error_message<D: DeviceDescription>(error: DeviceAccessError) -> (text: String)
    ensures
        text@ == spec_access_error_message(error, D::spec_name()),
{
    let mut text = String::from_str(D::name());
    text.append(
        match error {
            DeviceAccessError::NotConnected => " is not connected",
            DeviceAccessError::NotFound => " is not found and the discovery attempt will be performed again",
            DeviceAccessError::Connecting => " is in connecting state",
            DeviceAccessError::Disconnecting => " is in disconnecting state",
            DeviceAccessError::Unhealthy => " is unhealthy and will be reconnected",
        },
    );
    text
}

/// Describes a holder: the device's name, its address as text, and the
/// operation in flight, if any.
pub fn describe<D: DeviceDescription, T>(device: &Device<T>, mac_address: &str) -> (text: String)
    ensures
        text@ == D::spec_name() + " ("@ + mac_address@ + ")"@ + device.spec_state_label(),
{
    let mut text = String::from_str(D::name());
    text.append(" (");
    text.append(mac_address);
    text.append(")");
    text.append(device.state_label());
    text
}

} // verus!
