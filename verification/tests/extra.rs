use rpi_server::audio::player::PlayerError;
use rpi_server::audio::recorder::RecordError;
use rpi_server::audio::AudioObject;
use rpi_server::bluetooth::{select_adapter, MediaControlCommand, NoSuchAdapter, Poll};
use rpi_server::config::Config;
use rpi_server::device::piano::recordings::{ReadRecordingError, RecordingStorageError};
use rpi_server::device::piano::{
    init_player_poll, recording_cover, AudioError, HandledPianoEvent, PlayRecordingError,
    RecordControlError,
};
use rpi_server::files::{AssetsDir, DataDir, EntryKind, EntryRequirement};
use rpi_server::logger::LevelFilter;
use rpi_server::prefs::{
    OptionUpdate, PianoPreferences, PianoPreferencesUpdate, Preferences, PreferencesUpdate,
};
use rpi_server::udev::{handle_events_until_shutdown, media_control_after, LoopStep, SocketItem};

#[test]
fn adapter_is_selected_by_name() {
    let names = vec!["hci0".to_string(), "hci1".to_string(), "hci1".to_string()];
    assert_eq!(select_adapter(&names, None), Ok(None));
    assert_eq!(select_adapter(&names, Some(&"hci1".to_string())), Ok(Some(1)));
    assert_eq!(select_adapter(&names, Some(&"hci0".to_string())), Ok(Some(0)));
    assert_eq!(select_adapter(&names, Some(&"hci2".to_string())), Err(NoSuchAdapter));
    assert_eq!(select_adapter(&Vec::new(), Some(&"hci0".to_string())), Err(NoSuchAdapter));
    assert_eq!(select_adapter(&Vec::new(), None), Ok(None));
}

#[test]
fn player_setup_is_abandoned_when_no_longer_wanted() {
    assert_eq!(init_player_poll(false, true), Poll::Permanent);
    assert_eq!(init_player_poll(false, false), Poll::Permanent);
    assert_eq!(init_player_poll(true, false), Poll::Transient);
    assert_eq!(init_player_poll(true, true), Poll::Done);
}

#[test]
fn cover_is_taken_only_from_an_existing_readable_file() {
    assert_eq!(recording_cover(Some(true), Some(vec![1, 2])), Some(vec![1, 2]));
    assert_eq!(recording_cover(Some(true), None), None);
    assert_eq!(recording_cover(Some(false), Some(vec![1, 2])), None);
    assert_eq!(recording_cover(None, Some(vec![1, 2])), None);
}

#[test]
fn assets_are_checked_in_order() {
    let entries = AssetsDir("/a".to_string()).validate();
    let paths: Vec<&str> = entries.iter().map(|entry| entry.path.as_str()).collect();
    assert_eq!(
        paths,
        vec![
            "/a",
            "/a/site",
            "/a/graphiql",
            "/a/piano-recording-cover.jpg",
            "/a/sounds/error.wav",
            "/a/sounds/pause-resume.wav",
            "/a/sounds/play.wav",
            "/a/sounds/record-start.wav",
            "/a/sounds/record-stop.wav",
        ]
    );
    assert_eq!(entries[0].kind, EntryKind::Directory);
    assert_eq!(entries[0].requirement, Some(EntryRequirement::Exists));
    assert_eq!(entries[2].requirement, None);
    assert_eq!(entries[8].kind, EntryKind::File);
    assert_eq!(entries[8].requirement, Some(EntryRequirement::Exists));
}

#[test]
fn data_is_checked_in_order() {
    let entries = DataDir::from_path("/d").validate();
    let paths: Vec<&str> = entries.iter().map(|entry| entry.path.as_str()).collect();
    assert_eq!(paths, vec!["/d", "/d/prefs.yaml", "/d/piano-recordings"]);
    assert_eq!(entries[0].kind, EntryKind::Directory);
    assert_eq!(entries[0].requirement, Some(EntryRequirement::WritableOrCreate));
    assert_eq!(entries[1].kind, EntryKind::File);
    assert_eq!(entries[1].requirement, None);
    assert_eq!(entries[2].requirement, Some(EntryRequirement::WritableOrCreate));
}

#[test]
fn server_defaults() {
    let config = Config::default();
    assert_eq!(config.server_address, "0.0.0.0");
    assert_eq!(config.server_port, 80);
    assert_eq!(config.log_level, LevelFilter::Info);
    assert_eq!(config.assets_dir.0, "");
    assert_eq!(config.data_dir.0, "/var/lib/rpi-server");
    assert_eq!(config.access_token, None);
    assert!(config.hotspot.is_none());
    assert_eq!(config.bluetooth.discovery_seconds, 5);
    assert_eq!(config.piano.alsa_plugin, "plughw");
    assert_eq!(config.piano.recorder.sample_rate, 48_000);
}

#[test]
fn preferences_take_only_what_an_update_names() {
    let mut prefs = Preferences::default();
    assert!(!prefs.hotspot_handling_enabled);
    assert_eq!(prefs.piano.sounds_volume, 1000);
    assert_eq!(PianoPreferences::default().record_amplitude_scale, None);

    prefs.update(PreferencesUpdate { hotspot_handling_enabled: Some(true), piano: None });
    assert!(prefs.hotspot_handling_enabled);
    assert_eq!(prefs.piano.sounds_volume, 1000);

    prefs.update(PreferencesUpdate {
        hotspot_handling_enabled: None,
        piano: Some(PianoPreferencesUpdate {
            sounds_volume: Some(250),
            record_amplitude_scale: Some(OptionUpdate { value: Some(2000) }),
            recordings_artist: Some(OptionUpdate { value: Some("Me".to_string()) }),
        }),
    });
    assert!(prefs.hotspot_handling_enabled);
    assert_eq!(prefs.piano.sounds_volume, 250);
    assert_eq!(prefs.piano.record_amplitude_scale, Some(2000));
    assert_eq!(prefs.piano.recordings_artist.as_deref(), Some("Me"));

    prefs.update(PreferencesUpdate {
        hotspot_handling_enabled: Some(false),
        piano: Some(PianoPreferencesUpdate {
            sounds_volume: None,
            record_amplitude_scale: Some(OptionUpdate { value: None }),
            recordings_artist: None,
        }),
    });
    assert!(!prefs.hotspot_handling_enabled);
    assert_eq!(prefs.piano.sounds_volume, 250);
    assert_eq!(prefs.piano.record_amplitude_scale, None);
    assert_eq!(prefs.piano.recordings_artist.as_deref(), Some("Me"));
}

#[test]
fn listening_loop_steps() {
    assert_eq!(handle_events_until_shutdown(SocketItem::Event), LoopStep::Handle);
    assert_eq!(handle_events_until_shutdown(SocketItem::Error), LoopStep::Continue);
    assert_eq!(handle_events_until_shutdown(SocketItem::Closed), LoopStep::WaitForShutdown);
    assert_eq!(
        media_control_after(Some(HandledPianoEvent::Remove)),
        Some(MediaControlCommand::Pause)
    );
    assert_eq!(media_control_after(Some(HandledPianoEvent::Add)), None);
    assert_eq!(media_control_after(None), None);
}

#[test]
fn record_errors_describe_themselves() {
    assert_eq!(RecordError::AlreadyRecording.message(), "Already recording");
    assert_eq!(RecordError::NotRecording.message(), "Recorder has not been started");
    assert_eq!(
        RecordError::CreateFileError("exists".to_string()).message(),
        "Unable to create a new output file (exists)"
    );
    assert_eq!(
        RecordError::EncoderInitError("could not be allocated".to_string()).message(),
        "Failed to prepare the FLAC encoder: could not be allocated"
    );
    assert_eq!(
        RecordError::BuildStreamError("busy".to_string()).message(),
        "Unable to build an input stream (busy)"
    );
    assert_eq!(
        RecordError::CaptureFailed("busy".to_string()).message(),
        "Unable to start capturing (busy)"
    );
    assert_eq!(
        RecordError::ProcessSamplesFailed("Ok".to_string()).message(),
        "An error occurred trying to process the samples (Ok)"
    );
    assert_eq!(
        RecordError::StreamError("xrun".to_string()).message(),
        "Error occurred in the input stream (xrun)"
    );
    assert_eq!(RecordError::StreamClosed.message(), "Input stream closed");
    assert_eq!(
        RecordError::FinishEncodingFailed("Ok".to_string()).message(),
        "Unable to finish the encoding (Ok)"
    );
    assert_eq!(
        RecordError::EmbedMetadataError("io".to_string()).message(),
        "Failed to embed metadata (io)"
    );
    assert_eq!(RecordError::ProcessingTerminated.message(), "Processing thread is closed");
    assert_eq!(RecordError::MultipleErrors(Vec::new()).message(), "");
    assert_eq!(
        RecordError::MultipleErrors(vec![RecordError::StreamClosed]).message(),
        "Input stream closed"
    );
    let nested = RecordError::MultipleErrors(vec![
        RecordError::StreamClosed,
        RecordError::MultipleErrors(vec![
            RecordError::NotRecording,
            RecordError::EmbedMetadataError("io".to_string()),
        ]),
        RecordError::ProcessingTerminated,
    ]);
    assert_eq!(
        nested.message(),
        "Input stream closed; Recorder has not been started; Failed to embed metadata (io); \
         Processing thread is closed"
    );
}

#[test]
fn other_errors_describe_themselves() {
    assert_eq!(
        PlayerError::CreateOutputStreamError("busy".to_string()).message(),
        "Failed to create an output stream: busy"
    );
    assert_eq!(
        PlayerError::CreateSinkError("busy".to_string()).message(),
        "Failed to create a sink: busy"
    );
    assert_eq!(PlayerError::StreamClosed.message(), "Playback stream closed");
    assert_eq!(PlayerError::SeekFailed("no".to_string()).message(), "Failed to seek: no");
    assert_eq!(
        PlayerError::UnknownTotalDuration.message(),
        "Total duration of the audio source is unknown"
    );
    assert_eq!(
        PlayerError::InvalidPercents.message(),
        "Percents number must be in range [0.00, 1.00]"
    );

    let away: AudioError<PlayerError> = AudioError::PianoNotConnected;
    assert_eq!(away.message(), "Piano is not connected");
    assert_eq!(away.code(), "PIANO_NOT_CONNECTED");
    let missing: AudioError<RecordError> = AudioError::NotInitialized(AudioObject::Recorder);
    assert_eq!(missing.message(), "Recorder is not initialized");
    assert_eq!(missing.code(), "NOT_INITIALIZED");
    assert_eq!(AudioError::Error(PlayerError::StreamClosed).message(), "Playback stream closed");
    assert_eq!(AudioError::Error(RecordError::StreamClosed).message(), "Input stream closed");
    assert_eq!(AudioError::Error(RecordError::StreamClosed).code(), "ERROR");

    assert_eq!(RecordControlError::AlreadyRecording.message(), "Already recording");
    assert_eq!(RecordControlError::AlreadyRecording.code(), "ALREADY_RECORDING");
    assert_eq!(RecordControlError::NotRecording.message(), "Not recording");
    assert_eq!(RecordControlError::NotRecording.code(), "NOT_RECORDING");
    assert_eq!(
        RecordControlError::PrepareFileError("io".to_string()).message(),
        "Failed to prepare a new file: io"
    );
    assert_eq!(
        RecordControlError::PreserveRecordingError("io".to_string()).message(),
        "Failed to preserve the new recording: io"
    );
    assert_eq!(
        RecordControlError::CheckStatusFailed("io".to_string()).message(),
        "Unable to check recorder status: io"
    );
    assert_eq!(
        RecordControlError::Error(AudioError::NotInitialized(AudioObject::Recorder)).message(),
        "Recorder is not initialized"
    );
    assert_eq!(
        RecordControlError::Error(AudioError::PianoNotConnected).code(),
        "ERROR"
    );

    assert_eq!(
        PlayRecordingError::GetRecording("gone".to_string()).message(),
        "Unable to get a recording: gone"
    );
    assert_eq!(
        PlayRecordingError::MakeAudioSource("bad".to_string()).message(),
        "Unable to make an audio source: bad"
    );
    assert_eq!(
        PlayRecordingError::Error(AudioError::NotInitialized(AudioObject::Player)).message(),
        "Player is not initialized"
    );

    assert_eq!(
        ReadRecordingError::ReadTagError("eof".to_string()).message(),
        "Unable to read a FLAC tag (eof)"
    );
    assert_eq!(ReadRecordingError::NoStreamInfo.message(), "No stream info block in the file");
    assert_eq!(
        ReadRecordingError::InvalidFileName.message(),
        "Invalid file name: must be '<TIMESTAMP_MILLIS>.flac'"
    );
    assert_eq!(RecordingStorageError::RecordingNotExists.message(), "Recording does not exist");
    assert_eq!(RecordingStorageError::RecordingNotExists.code(), "RECORDING_NOT_EXISTS");
    assert_eq!(
        RecordingStorageError::FailedToRead(ReadRecordingError::NoStreamInfo).message(),
        "Unable to read a recording: No stream info block in the file"
    );
    assert_eq!(
        RecordingStorageError::FileSystemError("io".to_string()).message(),
        "File system error (io)"
    );
    assert_eq!(
        RecordingStorageError::FileSystemError("io".to_string()).code(),
        "FILE_SYSTEM_ERROR"
    );
}
