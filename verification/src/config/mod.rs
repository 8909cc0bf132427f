pub mod backoff;

use vstd::prelude::*;

use crate::bluetooth::MacAddress;
use crate::files::{AssetsDir, DataDir};
use crate::logger::LevelFilter;

verus! {

/// Name of the server's package.
pub const PACKAGE_NAME: &'static str = "rpi-server";

/// Where the configuration file is looked for.
pub const YAML_FILE_LOCATION: &'static str = "/etc/rpi-server.yaml";

/// Prefix of the environment variables that override the file.
pub const ENV_PREFIX: &'static str = "HOMIE_";

/// Where the server keeps its data unless told otherwise.
pub const DEFAULT_DATA_DIR: &'static str = "/var/lib/rpi-server";

/// Settings of the server.
#[derive(Debug)]
pub struct Config {
    pub server_address: String,
    pub server_port: u16,
    pub log_level: LevelFilter,
    pub assets_dir: AssetsDir,
    pub data_dir: DataDir,
    /// Token for the API; `None` if no authentication is required.
    pub access_token: Option<String>,
    pub bluetooth: Bluetooth,
    pub hotspot: Option<Hotspot>,
    pub piano: Piano,
}

impl Default for Config {
    /// Every address, port 80, informative logging, no assets, no token, no
    /// hotspot.
    fn default() -> (config: Self)
        ensures
            config.server_address@ == "0.0.0.0"@,
            config.server_port == 80,
            config.log_level == LevelFilter::Info,
            config.assets_dir.0@ == Seq::<char>::empty(),
            config.data_dir.0@ == DEFAULT_DATA_DIR@,
            config.access_token is None,
            config.hotspot is None,
            config.bluetooth.discovery_seconds == 5,
            config.bluetooth.adapter_name is None,
            config.piano.alsa_plugin@ == "plughw"@,
            config.piano.max_recordings == 20,
            config.piano.max_recording_duration_secs == 3600,
    {
        Config {
            server_address: String::from_str("0.0.0.0"),
            server_port: 80,
            log_level: LevelFilter::Info,
            assets_dir: AssetsDir::unset(),
            data_dir: DataDir::from_path(DEFAULT_DATA_DIR),
            access_token: None,
            bluetooth: Bluetooth::default(),
            hotspot: None,
            piano: Piano::default(),
        }
    }
}

/// Bluetooth settings.
#[derive(Debug)]
pub struct Bluetooth {
    pub discovery_seconds: u64,
    /// `None` lets every adapter take part in discovery.
    pub adapter_name: Option<String>,
    pub lounge_temp_mac_address: String,
}

impl Default for Bluetooth {
    fn default() -> (config: Self)
        ensures
            config.discovery_seconds == 5,
            config.adapter_name is None,
            config.lounge_temp_mac_address@ == Seq::<char>::empty(),
    {
        Bluetooth { discovery_seconds: 5, adapter_name: None, lounge_temp_mac_address: String::new() }
    }
}

/// The device that hosts the network the server connects to.
#[derive(Debug)]
pub struct Hotspot {
    /// NetworkManager connection: its name, identifier or path.
    pub connection: String,
    pub bluetooth_mac_address: String,
}

/// Piano settings.
#[derive(Debug)]
pub struct Piano {
    pub device_id: String,
    pub alsa_plugin: String,
    /// When the limit is reached, a new recording deletes the oldest one.
    pub max_recordings: u16,
    /// The recorder stops by itself after this many seconds.
    pub max_recording_duration_secs: u32,
    pub recorder: Recorder,
}

impl Piano {
    /// The settings are usable: device and plugin are named, the limits are
    /// at least one, and the recorder's settings are usable.
    pub open spec fn valid(&self) -> bool {
        &&& self.device_id@.len() >= 1
        &&& self.alsa_plugin@.len() >= 1
        &&& self.max_recordings >= 1
        &&& self.max_recording_duration_secs >= 1
        &&& self.recorder.valid()
    }

    pub fn is_valid(&self) -> (ok: bool)
        ensures
            ok == self.valid(),
    {
        self.device_id.as_str().unicode_len() >= 1 && self.alsa_plugin.as_str().unicode_len() >= 1
            && self.max_recordings >= 1 && self.max_recording_duration_secs >= 1
            && self.recorder.is_valid()
    }
}

impl Default for Piano {
    /// No device is named; recordings go through the converting plugin, at
    /// most 20 of them, an hour each.
    fn default() -> (config: Self)
        ensures
            config.device_id@ == Seq::<char>::empty(),
            config.alsa_plugin@ == "plughw"@,
            config.max_recordings == 20,
            config.max_recording_duration_secs == 3600,
            config.recorder.channels == 2,
            config.recorder.sample_rate == 48_000,
            config.recorder.flac_compression_level == 8,
    {
        Piano {
            device_id: String::new(),
            alsa_plugin: String::from_str("plughw"),
            max_recordings: 20,
            max_recording_duration_secs: 3600,
            recorder: Recorder { channels: 2, sample_rate: 48_000, flac_compression_level: 8 },
        }
    }
}

/// Why a configured Bluetooth address is refused.
#[derive(Clone, Copy, Debug, PartialEq, Eq, Structural)]
pub enum MacAddressFault {
    /// The address is not set.
    Unset,
    /// The text is no address.
    Malformed,
}

/// Checks a configured Bluetooth address, given the text and what parsing it
/// as an address gave.
pub fn bluetooth_mac(val: &str, parsed: Option<MacAddress>) -> (result: Result<(), MacAddressFault>)
    ensures
        result == if val@.len() == 0 {
            Err::<(), MacAddressFault>(MacAddressFault::Unset)
        } else if parsed is None {
            Err::<(), MacAddressFault>(MacAddressFault::Malformed)
        } else {
            Ok::<(), MacAddressFault>(())
        },
{
    if val.unicode_len() == 0 {
        return Err(MacAddressFault::Unset);
    }
    match parsed {
        Some(_) => Ok(()),
        None => Err(MacAddressFault::Malformed),
    }
}

/// Capture settings of the piano recorder.
#[derive(Clone, Copy, Debug, PartialEq, Eq, Structural)]
pub struct Recorder {
    pub channels: u16,
    pub sample_rate: u32,
    pub flac_compression_level: u32,
}

impl Recorder {
    /// The settings are usable: at least one channel and a compression level
    /// the codec knows.
    pub open spec fn valid(&self) -> bool {
        self.channels >= 1 && self.flac_compression_level <= 8
    }

    pub fn is_valid(&self) -> (ok: bool)
        ensures
            ok == self.valid(),
    {
        self.channels >= 1 && self.flac_compression_level <= 8
    }
}

impl Default for Recorder {
    /// Stereo, 48 kHz, maximum compression.
    fn default() -> (config: Self)
        ensures
            config.channels == 2,
            config.sample_rate == 48_000,
            config.flac_compression_level == 8,
            config.valid(),
    {
        Recorder { channels: 2, sample_rate: 48_000, flac_compression_level: 8 }
    }
}

} // verus!
