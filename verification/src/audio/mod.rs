pub mod player;
pub mod recorder;

use vstd::prelude::*;

verus! {

/// How a source is wrapped before it is queued on a sink.
#[derive(Clone, Copy, Debug, PartialEq, Eq, Structural)]
pub struct AudioSourceProperties {
    /// Fade-in length in milliseconds, if the effect is wanted.
    pub fade_in: Option<u64>,
    /// Whether to repeat the source forever.
    pub repeat: bool,
}

impl Default for AudioSourceProperties {
    fn default() -> (props: Self)
        ensures
            props.fade_in.is_none(),
            !props.repeat,
    {
        AudioSourceProperties { fade_in: None, repeat: false }
    }
}

/// The two workers that own the audio hardware.
#[derive(Clone, Copy, Debug, PartialEq, Eq, Structural)]
pub enum AudioObject {
    Player,
    Recorder,
}

impl AudioObject {
    pub open spec fn spec_name(self) -> Seq<char> {
        match self {
            AudioObject::Player => "Player"@,
            AudioObject::Recorder => "Recorder"@,
        }
    }

    /// Name used in messages.
    pub fn name(self) -> (name: &'static str)
        ensures
            name@ == self.spec_name(),
    {
        match self {
            AudioObject::Player => "Player",
            AudioObject::Recorder => "Recorder",
        }
    }
}

} // verus!
