pub mod recordings;

use vstd::prelude::*;

use crate::audio::player::{PlaybackPosition, PlaybackProperties, PlayerError, VOLUME_IDENTITY};
use crate::audio::recorder::{spec_message, RecordError, RecordParams};
use crate::audio::{AudioObject, AudioSourceProperties};
use crate::bluetooth::Poll;
use crate::common::starts_with;
use crate::files::Sound;

verus! {

/// Time, in milliseconds, to wait after the piano was plugged in before its
/// audio device is looked for: right after the hotplug the device is busy.
pub const FIND_AUDIO_DEVICE_DELAY_MS: u64 = 500;

/// Fade-in, in milliseconds, of a recording that is played back.
pub const PLAY_RECORDING_FADE_IN_MS: u64 = 300;

/// Subsystem whose hotplug events concern the piano.
pub const SOUND_SUBSYSTEM: &'static str = "sound";

/// A hotplug event that concerned the piano.
#[derive(Clone, Copy, Debug, PartialEq, Eq, Structural)]
pub enum HandledPianoEvent {
    Add,
    Remove,
}

#[derive(Clone, Copy, Debug, PartialEq, Eq, Structural)]
pub struct InitParams {
    /// Whether the piano was plugged in just now.
    pub after_piano_connected: bool,
}

/// Why a player or recorder operation was not carried out.
#[derive(Debug)]
pub enum AudioError<E> {
    PianoNotConnected,
    NotInitialized(AudioObject),
    Error(E),
}

/// The text of an audio error whose inner error, if it has one, is
/// described by `inner`.
pub open spec fn spec_audio_error_message<E>(error: AudioError<E>, inner: Seq<char>) -> Seq<char> {
    match error {
        AudioError::PianoNotConnected => "Piano is not connected"@,
        AudioError::NotInitialized(object) => object.spec_name() + " is not initialized"@,
        AudioError::Error(_) => inner,
    }
}

impl AudioError<PlayerError> {
    /// Describes the error.
    pub fn message(&self) -> (text: String)
        ensures
            text@ == spec_audio_error_message(
                *self,
                match *self {
                    AudioError::Error(e) => e.spec_message(),
                    _ => Seq::empty(),
                },
            ),
    {
        match self {
            AudioError::PianoNotConnected => String::from_str("Piano is not connected"),
            AudioError::NotInitialized(object) => {
                let mut text = String::from_str(object.name());
                text.append(" is not initialized");
                text
            },
            AudioError::Error(e) => e.message(),
        }
    }
}

impl AudioError<RecordError> {
    /// Describes the error.
    pub fn message(&self) -> (text: String)
        ensures
            text@ == spec_audio_error_message(
                *self,
                match *self {
                    AudioError::Error(e) => spec_message(e),
                    _ => Seq::empty(),
                },
            ),
    {
        match self {
            AudioError::PianoNotConnected => String::from_str("Piano is not connected"),
            AudioError::NotInitialized(object) => {
                let mut text = String::from_str(object.name());
                text.append(" is not initialized");
                text
            },
            AudioError::Error(e) => e.message(),
        }
    }
}

impl<E> AudioError<E> {
    pub open spec fn spec_code(self) -> Seq<char> {
        match self {
            AudioError::PianoNotConnected => "PIANO_NOT_CONNECTED"@,
            AudioError::NotInitialized(_) => "NOT_INITIALIZED"@,
            AudioError::Error(_) => "ERROR"@,
        }
    }

    /// Short name of the error for API clients.
    pub fn code(&self) -> (code: &'static str)
        ensures
            code@ == self.spec_code(),
    {
        match self {
            AudioError::PianoNotConnected => "PIANO_NOT_CONNECTED",
            AudioError::NotInitialized(_) => "NOT_INITIALIZED",
            AudioError::Error(_) => "ERROR",
        }
    }
}

#[derive(Clone, Copy, Debug, PartialEq, Eq, Structural)]
pub struct StopRecorderParams {
    pub triggered_by_user: bool,
}

#[derive(Debug)]
pub enum RecordControlError {
    AlreadyRecording,
    NotRecording,
    PrepareFileError(String),
    PreserveRecordingError(String),
    CheckStatusFailed(String),
    Error(AudioError<RecordError>),
}

impl RecordControlError {
    pub open spec fn spec_message(self) -> Seq<char> {
        match self {
            RecordControlError::AlreadyRecording => "Already recording"@,
            RecordControlError::NotRecording => "Not recording"@,
            RecordControlError::PrepareFileError(e) => "Failed to prepare a new file: "@ + e@,
            RecordControlError::PreserveRecordingError(e) =>
                "Failed to preserve the new recording: "@ + e@,
            RecordControlError::CheckStatusFailed(e) => "Unable to check recorder status: "@ + e@,
            RecordControlError::Error(e) => spec_audio_error_message(
                e,
                match e {
                    AudioError::Error(inner) => spec_message(inner),
                    _ => Seq::empty(),
                },
            ),
        }
    }

    /// Describes the error.
    pub fn message(&self) -> (text: String)
        ensures
            text@ == self.spec_message(),
    {
        match self {
            RecordControlError::AlreadyRecording => String::from_str("Already recording"),
            RecordControlError::NotRecording => String::from_str("Not recording"),
            RecordControlError::PrepareFileError(e) => {
                let mut text = String::from_str("Failed to prepare a new file: ");
                text.append(e.as_str());
                text
            },
            RecordControlError::PreserveRecordingError(e) => {
                let mut text = String::from_str("Failed to preserve the new recording: ");
                text.append(e.as_str());
                text
            },
            RecordControlError::CheckStatusFailed(e) => {
                let mut text = String::from_str("Unable to check recorder status: ");
                text.append(e.as_str());
                text
            },
            RecordControlError::Error(e) => e.message(),
        }
    }

    pub open spec fn spec_code(self) -> Seq<char> {
        match self {
            RecordControlError::AlreadyRecording => "ALREADY_RECORDING"@,
            RecordControlError::NotRecording => "NOT_RECORDING"@,
            RecordControlError::PrepareFileError(_) => "PREPARE_FILE_ERROR"@,
            RecordControlError::PreserveRecordingError(_) => "PRESERVE_RECORDING_ERROR"@,
            RecordControlError::CheckStatusFailed(_) => "CHECK_STATUS_FAILED"@,
            RecordControlError::Error(_) => "ERROR"@,
        }
    }

    /// Short name of the error for API clients.
    pub fn code(&self) -> (code: &'static str)
        ensures
            code@ == self.spec_code(),
    {
        match self {
            RecordControlError::AlreadyRecording => "ALREADY_RECORDING",
            RecordControlError::NotRecording => "NOT_RECORDING",
            RecordControlError::PrepareFileError(_) => "PREPARE_FILE_ERROR",
            RecordControlError::PreserveRecordingError(_) => "PRESERVE_RECORDING_ERROR",
            RecordControlError::CheckStatusFailed(_) => "CHECK_STATUS_FAILED",
            RecordControlError::Error(_) => "ERROR",
        }
    }
}

#[derive(Debug)]
pub enum PlayRecordingError {
    GetRecording(String),
    MakeAudioSource(String),
    Error(AudioError<PlayerError>),
}

impl PlayRecordingError {
    pub open spec fn spec_message(self) -> Seq<char> {
        match self {
            PlayRecordingError::GetRecording(e) => "Unable to get a recording: "@ + e@,
            PlayRecordingError::MakeAudioSource(e) => "Unable to make an audio source: "@ + e@,
            PlayRecordingError::Error(e) => spec_audio_error_message(
                e,
                match e {
                    AudioError::Error(inner) => inner.spec_message(),
                    _ => Seq::empty(),
                },
            ),
        }
    }

    /// Describes the error.
    pub fn message(&self) -> (text: String)
        ensures
            text@ == self.spec_message(),
    {
        match self {
            PlayRecordingError::GetRecording(e) => {
                let mut text = String::from_str("Unable to get a recording: ");
                text.append(e.as_str());
                text
            },
            PlayRecordingError::MakeAudioSource(e) => {
                let mut text = String::from_str("Unable to make an audio source: ");
                text.append(e.as_str());
                text
            },
            PlayRecordingError::Error(e) => e.message(),
        }
    }
}

#[derive(Clone, Copy, Debug, PartialEq, Eq, Structural)]
pub struct PianoStatus {
    /// Is the piano plugged in.
    pub connected: bool,
    pub has_player: bool,
    pub has_recorder: bool,
    pub is_recording: bool,
}

#[derive(Clone, Copy, Debug, PartialEq, Eq, Structural)]
pub struct PianoPlaybackStatus {
    pub is_playing: bool,
    /// Identifier of the recording the user played last since the piano was
    /// plugged in.
    pub last_played_recording: Option<i64>,
    /// `None` if nothing is playing or paused.
    pub position: Option<PlaybackPosition>,
}

#[derive(Clone, Copy, Debug, PartialEq, Eq, Structural)]
pub enum PianoEvent {
    PianoConnected,
    PianoRemoved,
    PlayerInitialized,
    RecorderInitialized,
    /// Player and recorder became unavailable.
    AudioReleased,
    /// A manual play or resume.
    PlayerPlay,
    PlayerPause,
    RecordStart,
    NewRecordingSaved,
    OldRecordingsRemoved,
}

impl PianoEvent {
    /// Whether the event can change the piano's status. Playback events and
    /// the removal of old recordings cannot.
    pub fn affects_status(self) -> (yes: bool)
        ensures
            yes == !(self == PianoEvent::OldRecordingsRemoved || self == PianoEvent::PlayerPlay
                || self == PianoEvent::PlayerPause),
    {
        match self {
            PianoEvent::OldRecordingsRemoved | PianoEvent::PlayerPlay | PianoEvent::PlayerPause => false,
            _ => true,
        }
    }
}

/// Kind of a hotplug event.
#[derive(Clone, Copy, Debug, PartialEq, Eq, Structural)]
pub enum UdevEventType {
    Add,
    Remove,
    Other,
}

/// A hotplug event, as far as the piano looks at it.
#[derive(Debug)]
pub struct UdevEvent {
    pub subsystem: Option<String>,
    pub event_type: UdevEventType,
    /// Value of the device's `id` attribute.
    pub id: Option<String>,
    pub is_initialized: bool,
    pub devpath: String,
}

/// What a hotplug event asks of the orchestrator.
#[derive(Clone, Copy, Debug, PartialEq, Eq, Structural)]
pub enum UdevReaction {
    /// The event does not concern the piano.
    Ignored,
    /// The piano was plugged in: attach it.
    Attach,
    /// The piano was removed and everything attached was dropped: announce
    /// the removal and finish a recording in progress.
    Removed,
}

impl UdevReaction {
    /// The event as the caller sees it.
    pub fn handled(self) -> (event: Option<HandledPianoEvent>)
        ensures
            event == match self {
                UdevReaction::Ignored => None::<HandledPianoEvent>,
                UdevReaction::Attach => Some(HandledPianoEvent::Add),
                UdevReaction::Removed => Some(HandledPianoEvent::Remove),
            },
    {
        match self {
            UdevReaction::Ignored => None,
            UdevReaction::Attach => Some(HandledPianoEvent::Add),
            UdevReaction::Removed => Some(HandledPianoEvent::Remove),
        }
    }
}

/// What is held while the piano is attached.
pub struct InnerInitialized<D, P, R> {
    devpath: String,
    recording_cover_jpeg: Option<Vec<u8>>,
    last_played_recording: Option<i64>,
    device: Option<D>,
    player: Option<P>,
    recorder: Option<R>,
}

/// Which of the attached things are present.
pub struct Presence {
    pub attached: bool,
    pub device: bool,
    pub player: bool,
    pub recorder: bool,
}

impl Presence {
    /// Player and recorder exist only with the device, and nothing exists
    /// while the piano is away.
    pub open spec fn consistent(self) -> bool {
        &&& (self.player || self.recorder) ==> self.device
        &&& self.device ==> self.attached
    }

    pub open spec fn detached() -> Presence {
        Presence { attached: false, device: false, player: false, recorder: false }
    }

    /// The piano was plugged in; no audio is set up yet.
    pub open spec fn after_init(self) -> Presence {
        if self.attached {
            self
        } else {
            Presence { attached: true, device: false, player: false, recorder: false }
        }
    }

    /// The hardware is given up for a Bluetooth audio source, if held.
    pub open spec fn releases(self, a2dp_connected: bool) -> bool {
        self.attached && a2dp_connected && self.device
    }

    /// The hardware is to be taken, if free and not held.
    pub open spec fn acquires(self, a2dp_connected: bool) -> bool {
        self.attached && !a2dp_connected && !self.device
    }

    pub open spec fn after_update(self, a2dp_connected: bool) -> Presence {
        if self.releases(a2dp_connected) {
            Presence { attached: true, device: false, player: false, recorder: false }
        } else {
            self
        }
    }

    /// The search for the audio device ended with or without a device.
    pub open spec fn after_search(self, found: bool) -> Presence {
        if self.attached && found {
            Presence { device: true, ..self }
        } else {
            self
        }
    }

    pub open spec fn wants(self, object: AudioObject) -> bool {
        self.attached && self.device && match object {
            AudioObject::Player => !self.player,
            AudioObject::Recorder => !self.recorder,
        }
    }

    pub open spec fn has(self, object: AudioObject) -> bool {
        self.attached && match object {
            AudioObject::Player => self.player,
            AudioObject::Recorder => self.recorder,
        }
    }

    pub open spec fn with(self, object: AudioObject) -> Presence {
        match object {
            AudioObject::Player => Presence { player: true, ..self },
            AudioObject::Recorder => Presence { recorder: true, ..self },
        }
    }

    /// Why an operation on a worker cannot go ahead, if it cannot.
    pub open spec fn refusal(self, object: AudioObject) -> Option<(bool, AudioObject)> {
        if !self.attached {
            Some((true, object))
        } else if !self.has(object) {
            Some((false, object))
        } else {
            None
        }
    }
}

/// What the orchestrator does about the audio hardware.
#[derive(Clone, Copy, Debug, PartialEq, Eq, Structural)]
pub enum AudioUpdate {
    Nothing,
    /// Device, player and recorder were dropped: announce it and finish a
    /// recording in progress.
    Released,
    /// Look for the audio device and set the workers up.
    Acquire,
}

/// Which workers are to be set up once the device is held.
#[derive(Clone, Copy, Debug, PartialEq, Eq, Structural)]
pub struct AudioInit {
    pub player: bool,
    pub recorder: bool,
}

/// The piano: its configuration and, while plugged in, what is attached.
pub struct Piano<D, P, R> {
    device_id: String,
    alsa_plugin: String,
    inner: Option<InnerInitialized<D, P, R>>,
}

impl<D, P, R> Piano<D, P, R> {
    /// The piano is plugged in.
    pub closed spec fn attached(&self) -> bool {
        self.inner is Some
    }

    /// What is present: the piano itself, and the device and the workers
    /// that are held.
    pub open spec fn presence(&self) -> Presence {
        Presence {
            attached: self.attached(),
            device: self.device() is Some,
            player: self.player() is Some,
            recorder: self.recorder() is Some,
        }
    }

    /// Player and recorder exist only while the device is held.
    pub open spec fn wf(&self) -> bool {
        self.presence().consistent()
    }

    pub closed spec fn device_id(&self) -> Seq<char> {
        self.device_id@
    }

    pub closed spec fn alsa_plugin(&self) -> Seq<char> {
        self.alsa_plugin@
    }

    /// Hotplug path under which the piano is attached.
    pub closed spec fn devpath(&self) -> Option<Seq<char>> {
        match self.inner {
            None => None,
            Some(inner) => Some(inner.devpath@),
        }
    }

    pub closed spec fn cover(&self) -> Option<Seq<u8>> {
        match self.inner {
            Some(inner) => match inner.recording_cover_jpeg {
                Some(bytes) => Some(bytes@),
                None => None,
            },
            None => None,
        }
    }

    pub closed spec fn last_played(&self) -> Option<i64> {
        match self.inner {
            None => None,
            Some(inner) => inner.last_played_recording,
        }
    }

    pub closed spec fn device(&self) -> Option<D> {
        match self.inner {
            None => None,
            Some(inner) => inner.device,
        }
    }

    pub closed spec fn player(&self) -> Option<P> {
        match self.inner {
            None => None,
            Some(inner) => inner.player,
        }
    }

    pub closed spec fn recorder(&self) -> Option<R> {
        match self.inner {
            None => None,
            Some(inner) => inner.recorder,
        }
    }

    /// Everything but the attached state is as in `other`.
    pub open spec fn same_config(&self, other: &Self) -> bool {
        self.device_id() == other.device_id() && self.alsa_plugin() == other.alsa_plugin()
    }

    /// Everything but the workers and the device is as in `other`.
    pub open spec fn same_attachment(&self, other: &Self) -> bool {
        &&& self.same_config(other)
        &&& self.devpath() == other.devpath()
        &&& self.cover() == other.cover()
        &&& self.last_played() == other.last_played()
    }

    /// A piano that is not plugged in.
    pub fn new(device_id: String, alsa_plugin: String) -> (piano: Self)
        ensures
            piano.wf(),
            piano.presence() == Presence::detached(),
            piano.device_id() == device_id@,
            piano.alsa_plugin() == alsa_plugin@,
    {
        Piano { device_id, alsa_plugin, inner: None }
    }

    /// The event is an initialized or uninitialized add of the configured
    /// device in the sound subsystem.
    pub open spec fn is_add(&self, event: &UdevEvent) -> bool {
        &&& event.subsystem matches Some(s) && s@ == SOUND_SUBSYSTEM@
        &&& event.event_type == UdevEventType::Add
        &&& event.id matches Some(id) && id@ == self.device_id()
    }

    /// The event removes the device under whose path the piano is attached.
    pub open spec fn is_removal(&self, event: &UdevEvent) -> bool {
        &&& event.subsystem matches Some(s) && s@ == SOUND_SUBSYSTEM@
        &&& event.event_type == UdevEventType::Remove
        &&& self.devpath() == Some(event.devpath@)
    }

    /// Reacts to a hotplug event. Only events of the sound subsystem count.
    /// An add of the configured, initialized device asks to attach the
    /// piano; a remove of the attached path drops everything attached.
    pub fn handle_udev_event(&mut self, event: &UdevEvent) -> (reaction: UdevReaction)
        requires
            old(self).wf(),
        ensures
            final(self).wf(),
            final(self).same_config(old(self)),
            reaction == if old(self).is_add(event) && event.is_initialized {
                UdevReaction::Attach
            } else if old(self).is_removal(event) {
                UdevReaction::Removed
            } else {
                UdevReaction::Ignored
            },
            reaction == UdevReaction::Removed ==> final(self).presence() == Presence::detached(),
            reaction != UdevReaction::Removed ==> *final(self) == *old(self),
    {
        let in_sound = match &event.subsystem {
            Some(subsystem) => *subsystem == String::from_str(SOUND_SUBSYSTEM),
            None => false,
        };
        if !in_sound {
            return UdevReaction::Ignored;
        }
        match event.event_type {
            UdevEventType::Add => {
                let id_matches = match &event.id {
                    Some(id) => *id == self.device_id,
                    None => false,
                };
                if id_matches && event.is_initialized {
                    UdevReaction::Attach
                } else {
                    UdevReaction::Ignored
                }
            },
            UdevEventType::Remove => {
                let devpath_matches = match &self.inner {
                    Some(inner) => inner.devpath == event.devpath,
                    None => false,
                };
                if devpath_matches {
                    self.inner = None;
                    UdevReaction::Removed
                } else {
                    UdevReaction::Ignored
                }
            },
            UdevEventType::Other => UdevReaction::Ignored,
        }
    }

    /// Attaches the piano under `devpath` with the cover image to embed into
    /// recordings. Returns false, and changes nothing, if the piano is
    /// attached already. A fresh attachment holds no device and no worker.
    pub fn init(&mut self, devpath: String, recording_cover_jpeg: Option<Vec<u8>>) -> (attached:
        bool)
        requires
            old(self).wf(),
        ensures
            final(self).wf(),
            final(self).same_config(old(self)),
            attached == !old(self).presence().attached,
            final(self).presence() == old(self).presence().after_init(),
            !attached ==> *final(self) == *old(self),
            attached ==> final(self).devpath() == Some(devpath@) && final(self).last_played()
                is None && final(self).cover() == match recording_cover_jpeg {
                Some(bytes) => Some(bytes@),
                None => None,
            },
    {
        if self.inner.is_some() {
            return false;
        }
        self.inner = Some(
            InnerInitialized {
                devpath,
                recording_cover_jpeg,
                last_played_recording: None,
                device: None,
                player: None,
                recorder: None,
            },
        );
        true
    }

    /// Time to wait before the audio of a freshly attached piano is set up,
    /// or `None` if a Bluetooth audio source holds the hardware and nothing
    /// is set up.
    pub fn init_delay(params: InitParams, a2dp_connected: bool) -> (delay: Option<u64>)
        ensures
            delay == if a2dp_connected {
                None::<u64>
            } else if params.after_piano_connected {
                Some(FIND_AUDIO_DEVICE_DELAY_MS)
            } else {
                Some(0u64)
            },
    {
        if a2dp_connected {
            None
        } else if params.after_piano_connected {
            Some(FIND_AUDIO_DEVICE_DELAY_MS)
        } else {
            Some(0)
        }
    }

    /// Gives the hardware up or asks to take it, according to whether a
    /// Bluetooth audio source is connected. Device, player and recorder are
    /// dropped together.
    pub fn update_audio_io(&mut self, a2dp_connected: bool) -> (update: AudioUpdate)
        requires
            old(self).wf(),
        ensures
            final(self).wf(),
            final(self).same_attachment(old(self)),
            final(self).presence() == old(self).presence().after_update(a2dp_connected),
            update == if old(self).presence().releases(a2dp_connected) {
                AudioUpdate::Released
            } else if old(self).presence().acquires(a2dp_connected) {
                AudioUpdate::Acquire
            } else {
                AudioUpdate::Nothing
            },
            update != AudioUpdate::Released ==> *final(self) == *old(self),
    {
        match &mut self.inner {
            None => AudioUpdate::Nothing,
            Some(inner) => {
                if a2dp_connected {
                    if inner.device.is_some() {
                        inner.device = None;
                        inner.player = None;
                        inner.recorder = None;
                        AudioUpdate::Released
                    } else {
                        AudioUpdate::Nothing
                    }
                } else if inner.device.is_none() {
                    AudioUpdate::Acquire
                } else {
                    AudioUpdate::Nothing
                }
            },
        }
    }

    /// Takes the audio device that the search found, unless one is held
    /// already, and tells which workers are to be set up. Without a device
    /// nothing is set up.
    pub fn init_audio_io(&mut self, found: Option<D>) -> (plan: AudioInit)
        requires
            old(self).wf(),
        ensures
            final(self).wf(),
            final(self).same_attachment(old(self)),
            final(self).presence() == if old(self).presence().device {
                old(self).presence()
            } else {
                old(self).presence().after_search(found is Some)
            },
            final(self).player() == old(self).player(),
            final(self).recorder() == old(self).recorder(),
            final(self).device() == if old(self).presence().attached && old(self).device()
                is None {
                found
            } else {
                old(self).device()
            },
            plan.player == final(self).presence().wants(AudioObject::Player),
            plan.recorder == final(self).presence().wants(AudioObject::Recorder),
    {
        match &mut self.inner {
            None => AudioInit { player: false, recorder: false },
            Some(inner) => {
                if inner.device.is_none() {
                    match found {
                        Some(device) => {
                            inner.device = Some(device);
                        },
                        None => {
                            return AudioInit { player: false, recorder: false };
                        },
                    }
                }
                AudioInit { player: inner.player.is_none(), recorder: inner.recorder.is_none() }
            },
        }
    }

    /// The audio device, while it is held.
    pub fn audio_device(&self) -> (device: Option<&D>)
        ensures
            device is Some <==> self.presence().device,
            device matches Some(d) ==> self.device() == Some(*d),
    {
        match &self.inner {
            Some(inner) => inner.device.as_ref(),
            None => None,
        }
    }

    /// The device on which a player is still to be set up; `None` if the
    /// piano was removed, the device was given up, or a player exists.
    pub fn init_player(&self) -> (device: Option<&D>)
        requires
            self.wf(),
        ensures
            device is Some <==> self.presence().wants(AudioObject::Player),
            device matches Some(d) ==> self.device() == Some(*d),
    {
        match &self.inner {
            Some(inner) => if inner.player.is_none() {
                inner.device.as_ref()
            } else {
                None
            },
            None => None,
        }
    }

    /// Stores a player that was set up, if one is still wanted; else the
    /// player is handed back.
    pub fn set_player(&mut self, player: P) -> (result: Result<PianoEvent, P>)
        requires
            old(self).wf(),
        ensures
            final(self).wf(),
            final(self).same_attachment(old(self)),
            final(self).device() == old(self).device(),
            final(self).recorder() == old(self).recorder(),
            old(self).presence().wants(AudioObject::Player) ==> result == Ok::<PianoEvent, P>(
                PianoEvent::PlayerInitialized,
            ) && final(self).player() == Some(player) && final(self).presence() == old(
                self,
            ).presence().with(AudioObject::Player),
            !old(self).presence().wants(AudioObject::Player) ==> result == Err::<PianoEvent, P>(
                player,
            ) && *final(self) == *old(self),
    {
        match &mut self.inner {
            Some(inner) => {
                if inner.device.is_some() && inner.player.is_none() {
                    inner.player = Some(player);
                    Ok(PianoEvent::PlayerInitialized)
                } else {
                    Err(player)
                }
            },
            None => Err(player),
        }
    }

    /// Stores a recorder that was set up, if one is still wanted; else the
    /// recorder is handed back.
    pub fn set_recorder(&mut self, recorder: R) -> (result: Result<PianoEvent, R>)
        requires
            old(self).wf(),
        ensures
            final(self).wf(),
            final(self).same_attachment(old(self)),
            final(self).device() == old(self).device(),
            final(self).player() == old(self).player(),
            old(self).presence().wants(AudioObject::Recorder) ==> result == Ok::<PianoEvent, R>(
                PianoEvent::RecorderInitialized,
            ) && final(self).recorder() == Some(recorder) && final(self).presence() == old(
                self,
            ).presence().with(AudioObject::Recorder),
            !old(self).presence().wants(AudioObject::Recorder) ==> result == Err::<PianoEvent, R>(
                recorder,
            ) && *final(self) == *old(self),
    {
        match &mut self.inner {
            Some(inner) => {
                if inner.device.is_some() && inner.recorder.is_none() {
                    inner.recorder = Some(recorder);
                    Ok(PianoEvent::RecorderInitialized)
                } else {
                    Err(recorder)
                }
            },
            None => Err(recorder),
        }
    }

    /// Whether the worker exists.
    pub fn has_initialized(&self, audio_object: AudioObject) -> (yes: bool)
        ensures
            yes == self.presence().has(audio_object),
    {
        match &self.inner {
            Some(inner) => match audio_object {
                AudioObject::Player => inner.player.is_some(),
                AudioObject::Recorder => inner.recorder.is_some(),
            },
            None => false,
        }
    }

    /// The piano's status; whether a recording is in progress is known to
    /// the storage.
    pub fn status(&self, is_recording: bool) -> (status: PianoStatus)
        ensures
            status == (PianoStatus {
                connected: self.presence().attached,
                has_player: self.presence().has(AudioObject::Player),
                has_recorder: self.presence().has(AudioObject::Recorder),
                is_recording,
            }),
    {
        PianoStatus {
            connected: self.inner.is_some(),
            has_player: self.has_initialized(AudioObject::Player),
            has_recorder: self.has_initialized(AudioObject::Recorder),
            is_recording,
        }
    }

    /// The player, for one operation on it.
    pub fn call_player<E>(&self) -> (result: Result<&P, AudioError<E>>)
        ensures
            match self.presence().refusal(AudioObject::Player) {
                Some((away, _)) => if away {
                    result == Err::<&P, AudioError<E>>(AudioError::PianoNotConnected)
                } else {
                    result == Err::<&P, AudioError<E>>(
                        AudioError::NotInitialized(AudioObject::Player),
                    )
                },
                None => result matches Ok(player) && self.player() == Some(*player),
            },
    {
        match &self.inner {
            None => Err(AudioError::PianoNotConnected),
            Some(inner) => match &inner.player {
                None => Err(AudioError::NotInitialized(AudioObject::Player)),
                Some(player) => Ok(player),
            },
        }
    }

    /// The recorder, for one operation on it.
    pub fn call_recorder<E>(&self) -> (result: Result<&R, AudioError<E>>)
        ensures
            match self.presence().refusal(AudioObject::Recorder) {
                Some((away, _)) => if away {
                    result == Err::<&R, AudioError<E>>(AudioError::PianoNotConnected)
                } else {
                    result == Err::<&R, AudioError<E>>(
                        AudioError::NotInitialized(AudioObject::Recorder),
                    )
                },
                None => result matches Ok(recorder) && self.recorder() == Some(*recorder),
            },
    {
        match &self.inner {
            None => Err(AudioError::PianoNotConnected),
            Some(inner) => match &inner.recorder {
                None => Err(AudioError::NotInitialized(AudioObject::Recorder)),
                Some(recorder) => Ok(recorder),
            },
        }
    }

    /// Checks a request to record and gathers what the recorder needs.
    /// `out_path` is the path of the new file, `None` if a recording is in
    /// progress already, or the reason why that could not be found out.
    pub fn record(&self, out_path: Result<Option<String>, String>, artist: Option<String>) -> (result:
        Result<RecordParams, RecordControlError>)
        ensures
            match out_path {
                Err(e) => result matches Err(RecordControlError::PrepareFileError(m)) && m == e,
                Ok(None) => result matches Err(RecordControlError::AlreadyRecording),
                Ok(Some(path)) => match self.presence().refusal(AudioObject::Recorder) {
                    Some((away, _)) => if away {
                        result matches Err(
                            RecordControlError::Error(AudioError::PianoNotConnected),
                        )
                    } else {
                        result matches Err(
                            RecordControlError::Error(
                                AudioError::NotInitialized(AudioObject::Recorder),
                            ),
                        )
                    },
                    None => result matches Ok(params) && params.out_flac == path && params.artist
                        == artist && self.cover() == match params.front_cover_jpeg {
                        Some(bytes) => Some(bytes@),
                        None => None,
                    },
                },
            },
    {
        let path = match out_path {
            Err(e) => {
                return Err(RecordControlError::PrepareFileError(e));
            },
            Ok(None) => {
                return Err(RecordControlError::AlreadyRecording);
            },
            Ok(Some(path)) => path,
        };
        match &self.inner {
            None => Err(RecordControlError::Error(AudioError::PianoNotConnected)),
            Some(inner) => {
                if inner.recorder.is_none() {
                    return Err(
                        RecordControlError::Error(AudioError::NotInitialized(AudioObject::Recorder)),
                    );
                }
                Ok(
                    RecordParams {
                        out_flac: path,
                        artist,
                        front_cover_jpeg: inner.recording_cover_jpeg.clone(),
                    },
                )
            },
        }
    }

    /// Remembers the recording that the user played, while the piano is
    /// attached.
    pub fn play_recording(&mut self, id: i64)
        requires
            old(self).wf(),
        ensures
            final(self).wf(),
            final(self).same_config(old(self)),
            final(self).presence() == old(self).presence(),
            final(self).devpath() == old(self).devpath(),
            final(self).cover() == old(self).cover(),
            final(self).device() == old(self).device(),
            final(self).player() == old(self).player(),
            final(self).recorder() == old(self).recorder(),
            final(self).last_played() == if old(self).presence().attached {
                Some(id)
            } else {
                None::<i64>
            },
    {
        match &mut self.inner {
            Some(inner) => {
                inner.last_played_recording = Some(id);
            },
            None => {},
        }
    }

    /// Settings for one of the short sounds: a detached sink at the given
    /// volume. `None` if there is no player.
    pub fn play_sound(&self, volume: u32) -> (props: Option<PlaybackProperties>)
        ensures
            props == if self.presence().has(AudioObject::Player) {
                Some(
                    PlaybackProperties {
                        secondary: true,
                        volume,
                        source_props: AudioSourceProperties { fade_in: None, repeat: false },
                    },
                )
            } else {
                None::<PlaybackProperties>
            },
    {
        if !self.has_initialized(AudioObject::Player) {
            return None;
        }
        Some(
            PlaybackProperties {
                secondary: true,
                volume,
                source_props: AudioSourceProperties { fade_in: None, repeat: false },
            },
        )
    }

    /// The playback status, given what the player answered to the questions
    /// whether it plays and where. While there is no player nothing plays;
    /// a failure of the player is passed on.
    pub fn playback_status_update(
        &self,
        player_result: Result<(bool, Option<PlaybackPosition>), AudioError<PlayerError>>,
    ) -> (status: Result<PianoPlaybackStatus, PlayerError>)
        ensures
            status == match player_result {
                Ok((is_playing, position)) => Ok::<PianoPlaybackStatus, PlayerError>(
                    PianoPlaybackStatus {
                        is_playing,
                        last_played_recording: self.last_played(),
                        position,
                    },
                ),
                Err(AudioError::Error(e)) => Err::<PianoPlaybackStatus, PlayerError>(e),
                Err(_) => Ok::<PianoPlaybackStatus, PlayerError>(
                    PianoPlaybackStatus {
                        is_playing: false,
                        last_played_recording: self.last_played(),
                        position: None,
                    },
                ),
            },
    {
        let last_played_recording = match &self.inner {
            Some(inner) => inner.last_played_recording,
            None => None,
        };
        match player_result {
            Ok((is_playing, position)) => Ok(
                PianoPlaybackStatus { is_playing, last_played_recording, position },
            ),
            Err(AudioError::Error(e)) => Err(e),
            Err(_) => Ok(
                PianoPlaybackStatus { is_playing: false, last_played_recording, position: None },
            ),
        }
    }
}

/// Whether the name of a host audio device is that of the piano: it begins
/// with the plugin, `:CARD=` and the device identifier.
pub open spec fn is_piano_audio_device(name: Seq<char>, alsa_plugin: Seq<char>, device_id: Seq<char>) -> bool {
    (alsa_plugin + ":CARD="@ + device_id).is_prefix_of(name)
}

impl<D, P, R> Piano<D, P, R> {
    /// Index of the first host audio device that is the piano's. `names`
    /// holds the name of each device, `None` where it could not be read.
    pub fn find_audio_device(&self, names: &Vec<Option<String>>) -> (found: Option<usize>)
        ensures
            match found {
                Some(i) => i < names.len() && self.names_piano(names@[i as int]) && forall|k: int|
                    0 <= k < i ==> !self.names_piano(names@[k]),
                None => forall|k: int| 0 <= k < names.len() ==> !self.names_piano(names@[k]),
            },
    {
        let mut prefix = self.alsa_plugin.clone();
        prefix.append(":CARD=");
        prefix.append(self.device_id.as_str());
        let mut i: usize = 0;
        while i < names.len()
            invariant
                i <= names.len(),
                prefix@ == self.alsa_plugin() + ":CARD="@ + self.device_id(),
                forall|k: int| 0 <= k < i ==> !self.names_piano(names@[k]),
            decreases names.len() - i,
        {
            let matches = match &names[i] {
                Some(name) => starts_with(name.as_str(), prefix.as_str()),
                None => false,
            };
            if matches {
                return Some(i);
            }
            i += 1;
        }
        None
    }

    /// The name was read and is that of the piano's audio device.
    pub open spec fn names_piano(&self, name: Option<String>) -> bool {
        name matches Some(n) && is_piano_audio_device(n@, self.alsa_plugin(), self.device_id())
    }
}

/// What one attempt to learn the output stream format means for the retry
/// loop that sets the player up. `wanted` tells whether a player is still
/// to be set up; `format_known` whether the device told its format. Once
/// no player is wanted the loop is abandoned; a device that does not tell
/// its format yet is asked again.
pub fn init_player_poll(wanted: bool, format_known: bool) -> (poll: Poll)
    ensures
        poll == if !wanted {
            Poll::Permanent
        } else if format_known {
            Poll::Done
        } else {
            Poll::Transient
        },
{
    if !wanted {
        Poll::Permanent
    } else if format_known {
        Poll::Done
    } else {
        Poll::Transient
    }
}

/// The cover image that is embedded into recordings: the contents of the
/// cover file if it exists and could be read. `file_exists` is `None` if that
/// could not be checked, and `contents` is `None` if reading failed.
pub fn recording_cover(file_exists: Option<bool>, contents: Option<Vec<u8>>) -> (cover: Option<
    Vec<u8>,
>)
    ensures
        cover == if file_exists == Some(true) {
            contents
        } else {
            None::<Vec<u8>>
        },
{
    match file_exists {
        Some(true) => contents,
        _ => None,
    }
}

/// What follows a request to record once the recorder has answered.
#[derive(Debug)]
pub struct RecordFinish {
    pub result: Result<(), RecordControlError>,
    /// The output file is removed if it exists.
    pub remove_output: bool,
    pub event: Option<PianoEvent>,
    pub sound: Option<Sound>,
}

/// Whether a failed start leaves behind an output file of its own: only a
/// failure of the preparation does, after the file was created. Any other
/// failure comes before this request has a file, so a file that exists is
/// that of the recording in progress.
pub open spec fn leaves_output(error: AudioError<RecordError>) -> bool {
    error matches AudioError::Error(e) && (e is EncoderInitError || e is BuildStreamError
        || e is CaptureFailed)
}

/// Settles a request to record with the recorder's answer. Success is
/// announced and signalled by a sound. After a failed preparation the
/// output file of this request is removed; no other failure touches a file.
pub fn record_finish(answer: Result<(), AudioError<RecordError>>) -> (finish: RecordFinish)
    ensures
        match answer {
            Ok(_) => finish.result is Ok && !finish.remove_output && finish.event == Some(
                PianoEvent::RecordStart,
            ) && finish.sound == Some(Sound::RecordStart),
            Err(e) => finish.result == Err::<(), RecordControlError>(RecordControlError::Error(e))
                && finish.remove_output == leaves_output(e) && finish.event is None
                && finish.sound is None,
        },
{
    match answer {
        Ok(_) => RecordFinish {
            result: Ok(()),
            remove_output: false,
            event: Some(PianoEvent::RecordStart),
            sound: Some(Sound::RecordStart),
        },
        Err(e) => {
            let remove_output = match &e {
                AudioError::Error(RecordError::EncoderInitError(_)) => true,
                AudioError::Error(RecordError::BuildStreamError(_)) => true,
                AudioError::Error(RecordError::CaptureFailed(_)) => true,
                _ => false,
            };
            RecordFinish {
                result: Err(RecordControlError::Error(e)),
                remove_output,
                event: None,
                sound: None,
            }
        },
    }
}

/// The answer to a stop request before anything is done. A user's request
/// needs the piano and its recorder; a forced finish, after the piano was
/// removed or gave up its device, needs neither. Either needs a recording
/// in progress.
pub open spec fn spec_stop_recorder(
    presence: Presence,
    params: StopRecorderParams,
    is_recording: Result<bool, String>,
) -> Result<(), RecordControlError> {
    if params.triggered_by_user && !presence.attached {
        Err(RecordControlError::Error(AudioError::PianoNotConnected))
    } else if params.triggered_by_user && !presence.recorder {
        Err(RecordControlError::Error(AudioError::NotInitialized(AudioObject::Recorder)))
    } else {
        match is_recording {
            Err(e) => Err(RecordControlError::CheckStatusFailed(e)),
            Ok(false) => Err(RecordControlError::NotRecording),
            Ok(true) => Ok(()),
        }
    }
}

impl<D, P, R> Piano<D, P, R> {
    /// Checks a request to stop the recorder. `is_recording` is what the
    /// storage says: whether a recording is in progress, or why that could
    /// not be found out. A user's request is refused while the piano is
    /// away or has no recorder, whatever the storage says.
    pub fn stop_recorder(&self, params: StopRecorderParams, is_recording: Result<bool, String>) -> (result:
        Result<(), RecordControlError>)
        ensures
            result == spec_stop_recorder(self.presence(), params, is_recording),
            params.triggered_by_user && !self.presence().attached ==> result matches Err(
                RecordControlError::Error(AudioError::PianoNotConnected),
            ),
    {
        if params.triggered_by_user {
            match &self.inner {
                None => {
                    return Err(RecordControlError::Error(AudioError::PianoNotConnected));
                },
                Some(inner) => {
                    if inner.recorder.is_none() {
                        return Err(
                            RecordControlError::Error(
                                AudioError::NotInitialized(AudioObject::Recorder),
                            ),
                        );
                    }
                },
            }
        }
        match is_recording {
            Err(e) => Err(RecordControlError::CheckStatusFailed(e)),
            Ok(false) => Err(RecordControlError::NotRecording),
            Ok(true) => Ok(()),
        }
    }
}

/// Whether the recorder did its part of a stop: it stopped without error,
/// or there was none to stop.
pub open spec fn recorder_succeeded(answer: Result<(), AudioError<RecordError>>) -> bool {
    !(answer matches Err(AudioError::Error(_)))
}

/// What follows a stop request once the recording was preserved or not.
#[derive(Debug)]
pub struct StopFinish {
    /// Identifier of the preserved recording.
    pub result: Result<i64, RecordControlError>,
    pub event: Option<PianoEvent>,
    pub sound: Option<Sound>,
}

/// Settles a stop request. `recorder` is what stopping the recorder gave,
/// where an absent recorder counts as stopped; `preserved` is the identifier
/// of the saved recording, `None` if there was nothing to save, or why
/// saving failed. A saved recording is announced even if the recorder
/// failed. Only a user's request is signalled by a sound.
pub fn stop_recorder_finish(
    params: StopRecorderParams,
    recorder: &Result<(), AudioError<RecordError>>,
    preserved: Result<Option<i64>, String>,
) -> (finish: StopFinish)
    ensures
        match preserved {
            Ok(Some(id)) => finish.result == Ok::<i64, RecordControlError>(id) && finish.event
                == Some(PianoEvent::NewRecordingSaved),
            Ok(None) => finish.result matches Err(RecordControlError::NotRecording)
                && finish.event is None,
            Err(e) => finish.result == Err::<i64, RecordControlError>(
                RecordControlError::PreserveRecordingError(e),
            ) && finish.event is None,
        },
        finish.sound == if !params.triggered_by_user {
            None::<Sound>
        } else if recorder_succeeded(*recorder) && preserved matches Ok(Some(_)) {
            Some(Sound::RecordStop)
        } else {
            Some(Sound::Error)
        },
{
    let result = match preserved {
        Ok(Some(id)) => Ok(id),
        Ok(None) => Err(RecordControlError::NotRecording),
        Err(e) => Err(RecordControlError::PreserveRecordingError(e)),
    };
    let saved = result.is_ok();
    let stopped = match recorder {
        Err(AudioError::Error(_)) => false,
        _ => true,
    };
    let event = if saved {
        Some(PianoEvent::NewRecordingSaved)
    } else {
        None
    };
    let sound = if params.triggered_by_user {
        if stopped && saved {
            Some(Sound::RecordStop)
        } else {
            Some(Sound::Error)
        }
    } else {
        None
    };
    StopFinish { result, event, sound }
}

/// Settings with which a recording is played back: on the primary sink, at
/// normal volume, faded in.
pub fn play_recording_props() -> (props: PlaybackProperties)
    ensures
        props == (PlaybackProperties {
            secondary: false,
            volume: VOLUME_IDENTITY,
            source_props: AudioSourceProperties {
                fade_in: Some(PLAY_RECORDING_FADE_IN_MS),
                repeat: false,
            },
        }),
{
    PlaybackProperties {
        secondary: false,
        volume: VOLUME_IDENTITY,
        source_props: AudioSourceProperties {
            fade_in: Some(PLAY_RECORDING_FADE_IN_MS),
            repeat: false,
        },
    }
}

/// What is announced after a resume (`resume` true) or pause request that
/// the player answered with `acted`: nothing if the player had nothing to
/// act on.
pub fn player_toggled(resume: bool, acted: bool) -> (announce: Option<(PianoEvent, Sound)>)
    ensures
        announce == if !acted {
            None::<(PianoEvent, Sound)>
        } else if resume {
            Some((PianoEvent::PlayerPlay, Sound::PauseResume))
        } else {
            Some((PianoEvent::PlayerPause, Sound::PauseResume))
        },
{
    if !acted {
        None
    } else if resume {
        Some((PianoEvent::PlayerPlay, Sound::PauseResume))
    } else {
        Some((PianoEvent::PlayerPause, Sound::PauseResume))
    }
}

/// The events that end the wait for the next playback status.
pub open spec fn spec_events_to_wait(status: Result<PianoPlaybackStatus, PlayerError>) -> Seq<
    PianoEvent,
> {
    match status {
        Ok(status) => if status.is_playing {
            seq![PianoEvent::PianoRemoved, PianoEvent::AudioReleased, PianoEvent::PlayerPause]
        } else if status.position is Some {
            seq![PianoEvent::PianoRemoved, PianoEvent::AudioReleased, PianoEvent::PlayerPlay]
        } else {
            seq![PianoEvent::PlayerPlay]
        },
        Err(_) => Seq::empty(),
    }
}

/// How to wait for the next playback status: whether the position is also
/// polled at a fixed interval, which is so while something plays or the
/// player failed, and which events end the wait.
pub fn events_to_wait(status: &Result<PianoPlaybackStatus, PlayerError>) -> (wait: (
    bool,
    Vec<PianoEvent>,
))
    ensures
        wait.0 == match *status {
            Ok(s) => s.is_playing,
            Err(_) => true,
        },
        wait.1@ == spec_events_to_wait(*status),
{
    match status {
        Ok(status) => {
            let events = if status.is_playing {
                vec![PianoEvent::PianoRemoved, PianoEvent::AudioReleased, PianoEvent::PlayerPause]
            } else if status.position.is_some() {
                vec![PianoEvent::PianoRemoved, PianoEvent::AudioReleased, PianoEvent::PlayerPlay]
            } else {
                vec![PianoEvent::PlayerPlay]
            };
            (status.is_playing, events)
        },
        Err(_) => (true, Vec::new()),
    }
}

/// A piano that is plugged in while no audio device matches never gets a
/// player or a recorder, and operations on either are refused as not
/// initialized.
pub proof fn lemma_no_device_no_workers(before: Presence, a2dp_connected: bool)
    requires
        before.consistent(),
        !before.attached,
    ensures
        ({
            let after = before.after_init().after_update(a2dp_connected).after_search(false);
            &&& after.consistent()
            &&& after.attached
            &&& !after.has(AudioObject::Player)
            &&& !after.has(AudioObject::Recorder)
            &&& !after.wants(AudioObject::Player)
            &&& !after.wants(AudioObject::Recorder)
            &&& after.refusal(AudioObject::Player) == Some((false, AudioObject::Player))
            &&& after.refusal(AudioObject::Recorder) == Some((false, AudioObject::Recorder))
        }),
{
}

/// When a Bluetooth audio source connects while the piano holds the device,
/// device, player and recorder are given up together; when the source
/// disconnects the device is asked for again, with no hotplug event, and a
/// device that is found is held again.
pub proof fn lemma_a2dp_arbitration(before: Presence)
    requires
        before.consistent(),
        before.attached,
        before.device,
    ensures
        before.releases(true),
        ({
            let released = before.after_update(true);
            &&& released.consistent()
            &&& released.attached
            &&& !released.device && !released.player && !released.recorder
            &&& !released.releases(true) && !released.acquires(true)
            &&& released.acquires(false)
            &&& released.after_update(false).after_search(true).device
            &&& released.after_update(false).after_search(true).wants(AudioObject::Player)
            &&& released.after_update(false).after_search(true).wants(AudioObject::Recorder)
        }),
{
}

/// Setting a player up is abandoned for good once the piano is removed or
/// its device is given up to a Bluetooth audio source, and while a player
/// exists.
pub proof fn lemma_player_setup_abandoned(before: Presence)
    requires
        before.consistent(),
    ensures
        !Presence::detached().wants(AudioObject::Player),
        !before.after_update(true).wants(AudioObject::Player),
        before.player ==> !before.wants(AudioObject::Player),
{
}

/// Every step of the orchestrator keeps player and recorder tied to the
/// device.
pub proof fn lemma_presence_stays_consistent(
    before: Presence,
    a2dp_connected: bool,
    found: bool,
    object: AudioObject,
)
    requires
        before.consistent(),
    ensures
        before.after_init().consistent(),
        before.after_update(a2dp_connected).consistent(),
        before.after_search(found).consistent(),
        before.wants(object) ==> before.with(object).consistent(),
        Presence::detached().consistent(),
{
}

} // verus!
