use vstd::prelude::*;

use crate::bluetooth::MediaControlCommand;
use crate::device::piano::HandledPianoEvent;

verus! {

/// Subsystems whose hotplug events are listened to.
pub const MONITOR_SUBSYSTEM: &'static str = "sound";

/// What the hotplug socket delivered.
#[derive(Clone, Copy, Debug, PartialEq, Eq, Structural)]
pub enum SocketItem {
    /// A device event.
    Event,
    /// The socket reported an error.
    Error,
    /// The stream of events has ended.
    Closed,
}

/// What the listening loop does next.
#[derive(Clone, Copy, Debug, PartialEq, Eq, Structural)]
pub enum LoopStep {
    /// Hand the event to the piano.
    Handle,
    /// Go on listening.
    Continue,
    /// Wait for the shutdown and leave.
    WaitForShutdown,
}

/// Decides what the listening loop does with what the socket delivered: an
/// error is skipped, and once the stream has ended nothing is left to do but
/// to wait for the shutdown.
pub fn handle_events_until_shutdown(item: SocketItem) -> (step: LoopStep)
    ensures
        step == match item {
            SocketItem::Event => LoopStep::Handle,
            SocketItem::Error => LoopStep::Continue,
            SocketItem::Closed => LoopStep::WaitForShutdown,
        },
{
    match item {
        SocketItem::Event => LoopStep::Handle,
        SocketItem::Error => LoopStep::Continue,
        SocketItem::Closed => LoopStep::WaitForShutdown,
    }
}

/// The command sent to the connected audio sources after a hotplug event
/// was handled: playback is paused when the piano, the output device, was
/// removed.
pub fn media_control_after(handled: Option<HandledPianoEvent>) -> (command: Option<
    MediaControlCommand,
>)
    ensures
        command == if handled == Some(HandledPianoEvent::Remove) {
            Some(MediaControlCommand::Pause)
        } else {
            None::<MediaControlCommand>
        },
{
    match handled {
        Some(HandledPianoEvent::Remove) => Some(MediaControlCommand::Pause),
        _ => None,
    }
}

} // verus!
