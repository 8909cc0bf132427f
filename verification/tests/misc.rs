use rpi_server::bluetooth::MacAddress;
use rpi_server::config::backoff::{
    audio_output_stream_wait, bluetooth_adapter_wait, bluetooth_device_connect, BackoffPolicy,
};
use rpi_server::config::{bluetooth_mac, Bluetooth, MacAddressFault, Piano};
use rpi_server::device::hotspot::{spawn_nmcli, Hotspot, NetworkManagerAction, NmcliOutcome};
use rpi_server::device::mi_temp_monitor::{Data, DataError};
use rpi_server::logger::{is_blacklisted, make_message_prefix, Level};
use rpi_server::rest::{auth_validator, Authorization};

#[test]
fn backoff_schedules() {
    assert_eq!(
        bluetooth_adapter_wait(),
        BackoffPolicy {
            initial_interval_ms: 100,
            multiplier_milli: 1500,
            max_interval_ms: 500,
            max_elapsed_time_ms: None
        }
    );
    assert_eq!(
        bluetooth_device_connect(),
        BackoffPolicy {
            initial_interval_ms: 1000,
            multiplier_milli: 1500,
            max_interval_ms: 5000,
            max_elapsed_time_ms: Some(30_000)
        }
    );
    assert_eq!(
        audio_output_stream_wait(),
        BackoffPolicy {
            initial_interval_ms: 100,
            multiplier_milli: 5000,
            max_interval_ms: 1000,
            max_elapsed_time_ms: Some(8000)
        }
    );
}

#[test]
fn config_defaults_and_validity() {
    let bluetooth = Bluetooth::default();
    assert_eq!(bluetooth.discovery_seconds, 5);
    assert_eq!(bluetooth.adapter_name, None);
    assert_eq!(bluetooth.lounge_temp_mac_address, "");

    let mut piano = Piano::default();
    assert_eq!(piano.device_id, "");
    assert_eq!(piano.alsa_plugin, "plughw");
    assert_eq!(piano.max_recordings, 20);
    assert_eq!(piano.max_recording_duration_secs, 3600);
    assert!(!piano.is_valid());
    piano.device_id = "P125".to_string();
    assert!(piano.is_valid());
    piano.max_recordings = 0;
    assert!(!piano.is_valid());
    piano.max_recordings = 1;
    piano.recorder.channels = 0;
    assert!(!piano.is_valid());

    assert_eq!(bluetooth_mac("", None), Err(MacAddressFault::Unset));
    assert_eq!(bluetooth_mac("", Some(MacAddress(1))), Err(MacAddressFault::Unset));
    assert_eq!(bluetooth_mac("11:22", None), Err(MacAddressFault::Malformed));
    assert_eq!(bluetooth_mac("11:22:33:44:55:66", Some(MacAddress(1))), Ok(()));
}

#[test]
fn noisy_module_is_muted_below_warnings() {
    assert!(is_blacklisted(Some("zbus::connection"), Level::Info));
    assert!(is_blacklisted(Some("zbus::connection::socket"), Level::Trace));
    assert!(is_blacklisted(Some("zbus::connection"), Level::Debug));
    assert!(!is_blacklisted(Some("zbus::connection"), Level::Warn));
    assert!(!is_blacklisted(Some("zbus::connection::socket"), Level::Error));
    assert!(!is_blacklisted(Some("zbus::connections"), Level::Info));
    assert!(!is_blacklisted(Some("zbus"), Level::Trace));
    assert!(!is_blacklisted(None, Level::Trace));
}

#[test]
fn message_prefixes() {
    assert_eq!(make_message_prefix("rpi_server"), "");
    assert_eq!(make_message_prefix("rpi_server::bluetooth"), "<bluetooth> ");
    assert_eq!(make_message_prefix("rpi_server::device::piano"), "<device::piano> ");
    assert_eq!(make_message_prefix("rpi_server_tools"), "<rpi_server_tools> ");
    assert_eq!(make_message_prefix("tokio::runtime"), "<tokio::runtime> ");
    assert_eq!(make_message_prefix("rpi_server::"), "<> ");
    assert_eq!(make_message_prefix(""), "<> ");
}

#[test]
fn requests_are_authorized_by_token() {
    let token = Some("secret".to_string());
    assert_eq!(auth_validator(true, &token, None, None), Authorization::Granted);
    assert_eq!(auth_validator(false, &None, None, None), Authorization::Granted);
    assert_eq!(
        auth_validator(false, &token, Some("secret".to_string()), None),
        Authorization::Granted
    );
    assert_eq!(
        auth_validator(false, &token, None, Some("secret".to_string())),
        Authorization::Granted
    );
    assert_eq!(
        auth_validator(false, &token, Some("guess".to_string()), Some("secret".to_string())),
        Authorization::Incorrect
    );
    assert_eq!(
        auth_validator(false, &token, None, Some("guess".to_string())),
        Authorization::Incorrect
    );
    assert_eq!(auth_validator(false, &token, None, None), Authorization::NotProvided);
}

#[test]
fn measurements_are_read_from_five_bytes() {
    let bytes = vec![0x2e, 0x09, 53, 0xb8, 0x0b];
    assert_eq!(
        Data::try_from(Some(&bytes)),
        Ok(Data { temp_centi_celsius: 2350, humidity_percents: 53, voltage_mv: 3000 })
    );
    let max = vec![0xff, 0xff, 0xff, 0xff, 0xff];
    assert_eq!(
        Data::try_from(Some(&max)),
        Ok(Data { temp_centi_celsius: 65535, humidity_percents: 255, voltage_mv: 65535 })
    );
    assert_eq!(Data::try_from(Some(&vec![1, 2, 3, 4])), Err(DataError::InvalidSize(4)));
    assert_eq!(Data::try_from(Some(&vec![1, 2, 3, 4, 5, 6])), Err(DataError::InvalidSize(6)));
    assert_eq!(Data::try_from(Some(&Vec::new())), Err(DataError::InvalidSize(0)));
    assert_eq!(Data::try_from(None), Err(DataError::NotPresent));
}

#[test]
fn hotspot_decisions() {
    let hotspot = Hotspot { connection: "Phone".to_string(), bluetooth_mac_address: MacAddress(7) };
    assert!(hotspot.is_hotspot(MacAddress(7)));
    assert!(!hotspot.is_hotspot(MacAddress(8)));
    assert!(Hotspot::nmcli(false));
    assert!(!Hotspot::nmcli(true));
    assert!(Hotspot::should_wait(Some(false)));
    assert!(!Hotspot::should_wait(Some(true)));
    assert!(!Hotspot::should_wait(None));
    assert_eq!(NetworkManagerAction::Up.argument(), "up");
    assert_eq!(NetworkManagerAction::Down.argument(), "down");
    assert_eq!(NetworkManagerAction::Up.label(), "UP");
    assert_eq!(NetworkManagerAction::Down.label(), "DOWN");
    assert_eq!(spawn_nmcli(None, true), NmcliOutcome::NotRun);
    assert_eq!(spawn_nmcli(Some(false), true), NmcliOutcome::Failed);
    assert_eq!(spawn_nmcli(Some(false), false), NmcliOutcome::Failed);
    assert_eq!(spawn_nmcli(Some(true), true), NmcliOutcome::Succeeded);
    assert_eq!(spawn_nmcli(Some(true), false), NmcliOutcome::SucceededWithWarning);
}
