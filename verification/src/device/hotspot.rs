use vstd::prelude::*;

use crate::bluetooth::MacAddress;

verus! {

/// What NetworkManager is asked to do with the connection.
#[derive(Clone, Copy, Debug, PartialEq, Eq, Structural)]
pub enum NetworkManagerAction {
    Up,
    Down,
}

impl NetworkManagerAction {
    /// The action as an argument of the command line.
    pub fn argument(self) -> (text: &'static str)
        ensures
            text@ == match self {
                NetworkManagerAction::Up => "up"@,
                NetworkManagerAction::Down => "down"@,
            },
    {
        match self {
            NetworkManagerAction::Up => "up",
            NetworkManagerAction::Down => "down",
        }
    }

    /// The action as it is written in messages.
    pub fn label(self) -> (text: &'static str)
        ensures
            text@ == match self {
                NetworkManagerAction::Up => "UP"@,
                NetworkManagerAction::Down => "DOWN"@,
            },
    {
        match self {
            NetworkManagerAction::Up => "UP",
            NetworkManagerAction::Down => "DOWN",
        }
    }
}

/// How a run of the command ended.
#[derive(Clone, Copy, Debug, PartialEq, Eq, Structural)]
pub enum NmcliOutcome {
    /// The command could not be run.
    NotRun,
    Failed,
    /// The command succeeded but wrote to its error output.
    SucceededWithWarning,
    Succeeded,
}

/// The hosting device to whose network the server connects.
#[derive(Debug)]
pub struct Hotspot {
    /// NetworkManager connection: its name, identifier or path.
    pub connection: String,
    pub bluetooth_mac_address: MacAddress,
}

impl Hotspot {
    /// Whether a Bluetooth device is the hotspot.
    pub fn is_hotspot(&self, bluetooth_device: MacAddress) -> (yes: bool)
        ensures
            yes == (bluetooth_device == self.bluetooth_mac_address),
    {
        bluetooth_device.0 == self.bluetooth_mac_address.0
    }

    /// Whether an action is started: not while another one waits to start.
    pub fn nmcli(pending: bool) -> (start: bool)
        ensures
            start == !pending,
    {
        !pending
    }

    /// Whether a new action waits for the command that was started before:
    /// only if there is one and it still runs.
    pub fn should_wait(running_finished: Option<bool>) -> (wait: bool)
        ensures
            wait == (running_finished == Some(false)),
    {
        match running_finished {
            Some(finished) => !finished,
            None => false,
        }
    }
}

/// Judges a run of the command: `status` tells whether it exited with
/// success, `None` if it could not be run.
pub fn spawn_nmcli(status: Option<bool>, stderr_is_empty: bool) -> (outcome: NmcliOutcome)
    ensures
        outcome == match status {
            None => NmcliOutcome::NotRun,
            Some(false) => NmcliOutcome::Failed,
            Some(true) => if stderr_is_empty {
                NmcliOutcome::Succeeded
            } else {
                NmcliOutcome::SucceededWithWarning
            },
        },
{
    match status {
        None => NmcliOutcome::NotRun,
        Some(false) => NmcliOutcome::Failed,
        Some(true) => if stderr_is_empty {
            NmcliOutcome::Succeeded
        } else {
            NmcliOutcome::SucceededWithWarning
        },
    }
}

} // verus!
