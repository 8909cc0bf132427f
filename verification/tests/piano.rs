use rpi_server::audio::player::{PlaybackPosition, PlaybackProperties, PlayerError};
use rpi_server::audio::recorder::RecordError;
use rpi_server::audio::{AudioObject, AudioSourceProperties};
use rpi_server::device::piano::{
    events_to_wait, play_recording_props, player_toggled, record_finish, stop_recorder_finish,
    AudioError, AudioInit, AudioUpdate, HandledPianoEvent, InitParams, Piano, PianoEvent,
    PianoPlaybackStatus, PianoStatus, RecordControlError, StopRecorderParams, UdevEvent,
    UdevEventType, UdevReaction, FIND_AUDIO_DEVICE_DELAY_MS,
};
use rpi_server::files::Sound;

type TestPiano = Piano<&'static str, &'static str, &'static str>;

fn piano() -> TestPiano {
    Piano::new("P125".to_string(), "plughw".to_string())
}

fn event(subsystem: &str, event_type: UdevEventType, id: Option<&str>, devpath: &str) -> UdevEvent {
    UdevEvent {
        subsystem: Some(subsystem.to_string()),
        event_type,
        id: id.map(|id| id.to_string()),
        is_initialized: true,
        devpath: devpath.to_string(),
    }
}

fn status(piano: &TestPiano) -> PianoStatus {
    piano.status(false)
}

#[test]
fn hotplug_add_of_the_piano_asks_to_attach() {
    let mut piano = piano();
    let add = event("sound", UdevEventType::Add, Some("P125"), "/devices/card1");
    let reaction = piano.handle_udev_event(&add);
    assert_eq!(reaction, UdevReaction::Attach);
    assert_eq!(reaction.handled(), Some(HandledPianoEvent::Add));
    assert!(!status(&piano).connected);

    let other = event("sound", UdevEventType::Add, Some("Other"), "/devices/card2");
    assert_eq!(piano.handle_udev_event(&other), UdevReaction::Ignored);
    let usb = event("usb", UdevEventType::Add, Some("P125"), "/devices/card1");
    assert_eq!(piano.handle_udev_event(&usb), UdevReaction::Ignored);
    let no_id = event("sound", UdevEventType::Add, None, "/devices/card1");
    assert_eq!(piano.handle_udev_event(&no_id), UdevReaction::Ignored);
    let mut raw = event("sound", UdevEventType::Add, Some("P125"), "/devices/card1");
    raw.is_initialized = false;
    assert_eq!(piano.handle_udev_event(&raw), UdevReaction::Ignored);
    let mut nameless = event("sound", UdevEventType::Add, Some("P125"), "/devices/card1");
    nameless.subsystem = None;
    assert_eq!(piano.handle_udev_event(&nameless), UdevReaction::Ignored);
    let change = event("sound", UdevEventType::Other, Some("P125"), "/devices/card1");
    assert_eq!(piano.handle_udev_event(&change), UdevReaction::Ignored);
    assert_eq!(UdevReaction::Ignored.handled(), None);
}

#[test]
fn hotplug_add_without_audio_device_creates_no_workers() {
    let mut piano = piano();
    assert!(piano.init("/devices/card1".to_string(), None));
    assert_eq!(piano.update_audio_io(false), AudioUpdate::Acquire);
    // No host audio device matched.
    assert_eq!(piano.init_audio_io(None), AudioInit { player: false, recorder: false });
    assert_eq!(
        status(&piano),
        PianoStatus { connected: true, has_player: false, has_recorder: false, is_recording: false }
    );
    assert!(matches!(
        piano.call_player::<PlayerError>(),
        Err(AudioError::NotInitialized(AudioObject::Player))
    ));
    assert!(matches!(
        piano.call_recorder::<RecordError>(),
        Err(AudioError::NotInitialized(AudioObject::Recorder))
    ));
    assert!(piano.init_player().is_none());
    assert_eq!(piano.set_player("player"), Err("player"));
    assert_eq!(piano.set_recorder("recorder"), Err("recorder"));
    assert!(!piano.has_initialized(AudioObject::Player));
    assert!(!piano.has_initialized(AudioObject::Recorder));
}

#[test]
fn unattached_piano_refuses_operations() {
    let mut piano = piano();
    assert_eq!(
        status(&piano),
        PianoStatus { connected: false, has_player: false, has_recorder: false, is_recording: false }
    );
    assert!(matches!(piano.call_player::<PlayerError>(), Err(AudioError::PianoNotConnected)));
    assert!(matches!(piano.call_recorder::<RecordError>(), Err(AudioError::PianoNotConnected)));
    assert_eq!(piano.update_audio_io(false), AudioUpdate::Nothing);
    assert_eq!(piano.update_audio_io(true), AudioUpdate::Nothing);
    assert_eq!(piano.init_audio_io(Some("hw")), AudioInit { player: false, recorder: false });
    assert!(matches!(
        piano.record(Ok(Some("/data/new.flac".to_string())), None),
        Err(RecordControlError::Error(AudioError::PianoNotConnected))
    ));
    assert!(piano.play_sound(1000).is_none());
}

#[test]
fn a2dp_source_takes_and_returns_the_device() {
    let mut piano = piano();
    assert!(piano.init("/devices/card1".to_string(), Some(vec![1, 2, 3])));
    assert!(!piano.init("/devices/card9".to_string(), None));
    assert_eq!(piano.update_audio_io(false), AudioUpdate::Acquire);
    assert_eq!(piano.init_audio_io(Some("hw:1")), AudioInit { player: true, recorder: true });
    assert_eq!(piano.init_player(), Some(&"hw:1"));
    assert_eq!(piano.set_recorder("recorder"), Ok(PianoEvent::RecorderInitialized));
    assert_eq!(piano.set_player("player"), Ok(PianoEvent::PlayerInitialized));
    assert_eq!(piano.set_player("second"), Err("second"));
    assert!(piano.init_player().is_none());
    assert_eq!(piano.update_audio_io(false), AudioUpdate::Nothing);
    assert_eq!(piano.init_audio_io(Some("hw:2")), AudioInit { player: false, recorder: false });
    assert_eq!(piano.call_player::<PlayerError>().ok(), Some(&"player"));
    assert_eq!(piano.call_recorder::<RecordError>().ok(), Some(&"recorder"));

    // A Bluetooth audio source connects: everything is released together.
    assert_eq!(piano.update_audio_io(true), AudioUpdate::Released);
    assert_eq!(
        status(&piano),
        PianoStatus { connected: true, has_player: false, has_recorder: false, is_recording: false }
    );
    assert_eq!(piano.update_audio_io(true), AudioUpdate::Nothing);
    assert!(piano.init_player().is_none());

    // It disconnects: the device is taken again with no hotplug event.
    assert_eq!(piano.update_audio_io(false), AudioUpdate::Acquire);
    assert_eq!(piano.init_audio_io(Some("hw:1")), AudioInit { player: true, recorder: true });
    assert_eq!(piano.set_player("player"), Ok(PianoEvent::PlayerInitialized));
    assert!(piano.has_initialized(AudioObject::Player));
    assert!(!piano.has_initialized(AudioObject::Recorder));
}

#[test]
fn removal_of_the_attached_path_clears_everything() {
    let mut piano = piano();
    piano.init("/devices/card1".to_string(), None);
    piano.init_audio_io(Some("hw:1"));
    piano.set_player("player").unwrap();
    let elsewhere = event("sound", UdevEventType::Remove, Some("P125"), "/devices/card2");
    assert_eq!(piano.handle_udev_event(&elsewhere), UdevReaction::Ignored);
    assert!(status(&piano).connected);
    let removal = event("sound", UdevEventType::Remove, None, "/devices/card1");
    let reaction = piano.handle_udev_event(&removal);
    assert_eq!(reaction, UdevReaction::Removed);
    assert_eq!(reaction.handled(), Some(HandledPianoEvent::Remove));
    assert_eq!(
        status(&piano),
        PianoStatus { connected: false, has_player: false, has_recorder: false, is_recording: false }
    );
    assert_eq!(piano.handle_udev_event(&removal), UdevReaction::Ignored);
}

#[test]
fn audio_setup_waits_after_a_hotplug() {
    let plugged = InitParams { after_piano_connected: true };
    let startup = InitParams { after_piano_connected: false };
    assert_eq!(FIND_AUDIO_DEVICE_DELAY_MS, 500);
    assert_eq!(TestPiano::init_delay(plugged, false), Some(500));
    assert_eq!(TestPiano::init_delay(startup, false), Some(0));
    assert_eq!(TestPiano::init_delay(plugged, true), None);
    assert_eq!(TestPiano::init_delay(startup, true), None);
}

#[test]
fn record_checks_storage_piano_and_recorder() {
    let mut piano = piano();
    piano.init("/devices/card1".to_string(), Some(vec![7, 8]));
    assert!(matches!(
        piano.record(Err("denied".to_string()), None),
        Err(RecordControlError::PrepareFileError(m)) if m == "denied"
    ));
    assert!(matches!(piano.record(Ok(None), None), Err(RecordControlError::AlreadyRecording)));
    assert!(matches!(
        piano.record(Ok(Some("/data/new.flac".to_string())), None),
        Err(RecordControlError::Error(AudioError::NotInitialized(AudioObject::Recorder)))
    ));
    piano.init_audio_io(Some("hw:1"));
    piano.set_recorder("recorder").unwrap();
    let params = piano
        .record(Ok(Some("/data/new.flac".to_string())), Some("Me".to_string()))
        .expect("recorder is ready");
    assert_eq!(params.out_flac, "/data/new.flac");
    assert_eq!(params.artist.as_deref(), Some("Me"));
    assert_eq!(params.front_cover_jpeg, Some(vec![7, 8]));
}

#[test]
fn record_finish_removes_only_a_file_of_its_own() {
    let ok = record_finish(Ok(()));
    assert!(ok.result.is_ok());
    assert!(!ok.remove_output);
    assert_eq!(ok.event, Some(PianoEvent::RecordStart));
    assert_eq!(ok.sound, Some(Sound::RecordStart));

    // The recorder is busy: the file is that of the recording in progress.
    let busy = record_finish(Err(AudioError::Error(RecordError::AlreadyRecording)));
    assert!(matches!(
        busy.result,
        Err(RecordControlError::Error(AudioError::Error(RecordError::AlreadyRecording)))
    ));
    assert!(!busy.remove_output);
    assert_eq!(busy.event, None);
    assert_eq!(busy.sound, None);

    let keep = [
        AudioError::Error(RecordError::CreateFileError("exists".to_string())),
        AudioError::Error(RecordError::ProcessingTerminated),
        AudioError::Error(RecordError::NotRecording),
        AudioError::PianoNotConnected,
        AudioError::NotInitialized(AudioObject::Recorder),
    ];
    for error in keep {
        let finish = record_finish(Err(error));
        assert!(finish.result.is_err());
        assert!(!finish.remove_output);
        assert_eq!(finish.event, None);
    }
    let remove = [
        RecordError::EncoderInitError("could not be allocated".to_string()),
        RecordError::BuildStreamError("busy".to_string()),
        RecordError::CaptureFailed("busy".to_string()),
    ];
    for error in remove {
        let finish = record_finish(Err(AudioError::Error(error)));
        assert!(finish.result.is_err());
        assert!(finish.remove_output);
        assert_eq!(finish.sound, None);
    }
}

#[test]
fn user_stop_needs_piano_and_recorder() {
    let by_user = StopRecorderParams { triggered_by_user: true };
    let mut piano = piano();
    for is_recording in [Ok(true), Ok(false), Err("io".to_string())] {
        assert!(matches!(
            piano.stop_recorder(by_user, is_recording),
            Err(RecordControlError::Error(AudioError::PianoNotConnected))
        ));
    }
    piano.init("/devices/card1".to_string(), None);
    for is_recording in [Ok(true), Ok(false), Err("io".to_string())] {
        assert!(matches!(
            piano.stop_recorder(by_user, is_recording),
            Err(RecordControlError::Error(AudioError::NotInitialized(AudioObject::Recorder)))
        ));
    }
    piano.init_audio_io(Some("hw:1"));
    piano.set_recorder("recorder").unwrap();
    assert!(piano.stop_recorder(by_user, Ok(true)).is_ok());
    assert!(matches!(
        piano.stop_recorder(by_user, Ok(false)),
        Err(RecordControlError::NotRecording)
    ));
    assert!(matches!(
        piano.stop_recorder(by_user, Err("io".to_string())),
        Err(RecordControlError::CheckStatusFailed(m)) if m == "io"
    ));
}

#[test]
fn forced_stop_goes_through_without_piano_or_recorder() {
    let forced = StopRecorderParams { triggered_by_user: false };
    let mut piano = piano();
    assert!(piano.stop_recorder(forced, Ok(true)).is_ok());
    assert!(matches!(
        piano.stop_recorder(forced, Ok(false)),
        Err(RecordControlError::NotRecording)
    ));
    assert!(matches!(
        piano.stop_recorder(forced, Err("io".to_string())),
        Err(RecordControlError::CheckStatusFailed(m)) if m == "io"
    ));
    piano.init("/devices/card1".to_string(), None);
    piano.init_audio_io(Some("hw:1"));
    piano.set_recorder("recorder").unwrap();
    // A Bluetooth audio source takes the device while a recording goes on.
    assert_eq!(piano.update_audio_io(true), AudioUpdate::Released);
    assert!(piano.stop_recorder(forced, Ok(true)).is_ok());
}

#[test]
fn stop_finish_announces_saved_recordings() {
    let by_user = StopRecorderParams { triggered_by_user: true };
    let forced = StopRecorderParams { triggered_by_user: false };
    let stopped: Result<(), AudioError<RecordError>> = Ok(());
    let failed: Result<(), AudioError<RecordError>> =
        Err(AudioError::Error(RecordError::StreamClosed));
    let absent: Result<(), AudioError<RecordError>> =
        Err(AudioError::NotInitialized(AudioObject::Recorder));
    let away: Result<(), AudioError<RecordError>> = Err(AudioError::PianoNotConnected);

    let saved = stop_recorder_finish(by_user, &stopped, Ok(Some(1_700_000_000_000)));
    assert!(matches!(saved.result, Ok(1_700_000_000_000)));
    assert_eq!(saved.event, Some(PianoEvent::NewRecordingSaved));
    assert_eq!(saved.sound, Some(Sound::RecordStop));

    let recorder_failed = stop_recorder_finish(by_user, &failed, Ok(Some(5)));
    assert!(matches!(recorder_failed.result, Ok(5)));
    assert_eq!(recorder_failed.event, Some(PianoEvent::NewRecordingSaved));
    assert_eq!(recorder_failed.sound, Some(Sound::Error));

    // No recorder to stop counts as stopped.
    assert_eq!(stop_recorder_finish(by_user, &absent, Ok(Some(5))).sound, Some(Sound::RecordStop));
    assert_eq!(stop_recorder_finish(by_user, &away, Ok(Some(5))).sound, Some(Sound::RecordStop));

    let nothing = stop_recorder_finish(by_user, &stopped, Ok(None));
    assert!(matches!(nothing.result, Err(RecordControlError::NotRecording)));
    assert_eq!(nothing.event, None);
    assert_eq!(nothing.sound, Some(Sound::Error));

    let not_saved = stop_recorder_finish(forced, &stopped, Err("rename".to_string()));
    assert!(matches!(
        not_saved.result,
        Err(RecordControlError::PreserveRecordingError(m)) if m == "rename"
    ));
    assert_eq!(not_saved.event, None);
    assert_eq!(not_saved.sound, None);

    let forced_saved = stop_recorder_finish(forced, &away, Ok(Some(6)));
    assert!(matches!(forced_saved.result, Ok(6)));
    assert_eq!(forced_saved.event, Some(PianoEvent::NewRecordingSaved));
    assert_eq!(forced_saved.sound, None);
}

#[test]
fn playback_settings() {
    assert_eq!(
        play_recording_props(),
        PlaybackProperties {
            secondary: false,
            volume: 1000,
            source_props: AudioSourceProperties { fade_in: Some(300), repeat: false },
        }
    );
    let mut piano = piano();
    piano.init("/devices/card1".to_string(), None);
    assert_eq!(piano.play_sound(500), None);
    piano.init_audio_io(Some("hw:1"));
    piano.set_player("player").unwrap();
    assert_eq!(
        piano.play_sound(500),
        Some(PlaybackProperties {
            secondary: true,
            volume: 500,
            source_props: AudioSourceProperties { fade_in: None, repeat: false },
        })
    );
    assert_eq!(player_toggled(true, true), Some((PianoEvent::PlayerPlay, Sound::PauseResume)));
    assert_eq!(player_toggled(false, true), Some((PianoEvent::PlayerPause, Sound::PauseResume)));
    assert_eq!(player_toggled(true, false), None);
    assert_eq!(player_toggled(false, false), None);
}

#[test]
fn playback_status_follows_the_player() {
    let mut piano = piano();
    let idle = PianoPlaybackStatus { is_playing: false, last_played_recording: None, position: None };
    assert_eq!(piano.playback_status_update(Err(AudioError::PianoNotConnected)).ok(), Some(idle));
    piano.play_recording(42);
    assert_eq!(
        piano.playback_status_update(Err(AudioError::NotInitialized(AudioObject::Player))).ok(),
        Some(idle)
    );
    piano.init("/devices/card1".to_string(), None);
    piano.play_recording(42);
    let position = Some(PlaybackPosition { current: 1500, total: Some(9000) });
    let playing = piano.playback_status_update(Ok((true, position))).ok();
    assert_eq!(
        playing,
        Some(PianoPlaybackStatus { is_playing: true, last_played_recording: Some(42), position })
    );
    assert!(matches!(
        piano.playback_status_update(Err(AudioError::Error(PlayerError::StreamClosed))),
        Err(PlayerError::StreamClosed)
    ));
}

#[test]
fn waiting_depends_on_the_playback_status() {
    let position = Some(PlaybackPosition { current: 1, total: None });
    let playing = Ok(PianoPlaybackStatus { is_playing: true, last_played_recording: None, position });
    assert_eq!(
        events_to_wait(&playing),
        (true, vec![PianoEvent::PianoRemoved, PianoEvent::AudioReleased, PianoEvent::PlayerPause])
    );
    let paused = Ok(PianoPlaybackStatus { is_playing: false, last_played_recording: None, position });
    assert_eq!(
        events_to_wait(&paused),
        (false, vec![PianoEvent::PianoRemoved, PianoEvent::AudioReleased, PianoEvent::PlayerPlay])
    );
    let idle =
        Ok(PianoPlaybackStatus { is_playing: false, last_played_recording: None, position: None });
    assert_eq!(events_to_wait(&idle), (false, vec![PianoEvent::PlayerPlay]));
    assert_eq!(events_to_wait(&Err(PlayerError::StreamClosed)), (true, vec![]));
}

#[test]
fn playback_events_do_not_change_the_status() {
    assert!(!PianoEvent::PlayerPlay.affects_status());
    assert!(!PianoEvent::PlayerPause.affects_status());
    assert!(!PianoEvent::OldRecordingsRemoved.affects_status());
    assert!(PianoEvent::PianoConnected.affects_status());
    assert!(PianoEvent::PianoRemoved.affects_status());
    assert!(PianoEvent::PlayerInitialized.affects_status());
    assert!(PianoEvent::RecorderInitialized.affects_status());
    assert!(PianoEvent::AudioReleased.affects_status());
    assert!(PianoEvent::RecordStart.affects_status());
    assert!(PianoEvent::NewRecordingSaved.affects_status());
}

#[test]
fn audio_device_is_found_by_name_prefix() {
    let piano = piano();
    let names = vec![
        Some("default".to_string()),
        None,
        Some("hw:CARD=P125,DEV=0".to_string()),
        Some("plughw:CARD=P12".to_string()),
        Some("plughw:CARD=P125,DEV=0".to_string()),
        Some("plughw:CARD=P125,DEV=1".to_string()),
    ];
    assert_eq!(piano.find_audio_device(&names), Some(4));
    assert_eq!(piano.find_audio_device(&names[..4].to_vec()), None);
    assert_eq!(piano.find_audio_device(&vec![Some("plughw:CARD=P125".to_string())]), Some(0));
    assert_eq!(piano.find_audio_device(&Vec::new()), None);
}
