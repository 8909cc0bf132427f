use vstd::prelude::*;

use crate::audio::player::VOLUME_IDENTITY;

verus! {

/// Piano-related preferences. Multipliers are in thousandths.
#[derive(Debug)]
pub struct PianoPreferences {
    /// Volume of the short sounds.
    pub sounds_volume: u32,
    /// If set, samples of recordings are multiplied by it.
    pub record_amplitude_scale: Option<u32>,
    /// If set, the artist written into recordings.
    pub recordings_artist: Option<String>,
}

impl Default for PianoPreferences {
    fn default() -> (prefs: Self)
        ensures
            prefs.sounds_volume == VOLUME_IDENTITY,
            prefs.record_amplitude_scale is None,
            prefs.recordings_artist is None,
    {
        PianoPreferences {
            sounds_volume: VOLUME_IDENTITY,
            record_amplitude_scale: None,
            recordings_artist: None,
        }
    }
}

#[derive(Debug)]
pub struct Preferences {
    /// Whether the Wi-Fi link is dropped while the hotspot device is
    /// connected over Bluetooth.
    pub hotspot_handling_enabled: bool,
    pub piano: PianoPreferences,
}

impl Default for Preferences {
    fn default() -> (prefs: Self)
        ensures
            !prefs.hotspot_handling_enabled,
            prefs.piano.sounds_volume == VOLUME_IDENTITY,
            prefs.piano.record_amplitude_scale is None,
            prefs.piano.recordings_artist is None,
    {
        Preferences {
            hotspot_handling_enabled: false,
            piano: PianoPreferences {
                sounds_volume: VOLUME_IDENTITY,
                record_amplitude_scale: None,
                recordings_artist: None,
            },
        }
    }
}

/// A new value for an optional preference; `None` unsets it.
#[derive(Debug)]
pub struct OptionUpdate<T> {
    pub value: Option<T>,
}

/// Changes to the piano preferences; what is `None` stays as it is.
#[derive(Debug)]
pub struct PianoPreferencesUpdate {
    pub sounds_volume: Option<u32>,
    pub record_amplitude_scale: Option<OptionUpdate<u32>>,
    pub recordings_artist: Option<OptionUpdate<String>>,
}

/// Changes to the preferences; what is `None` stays as it is.
#[derive(Debug)]
pub struct PreferencesUpdate {
    pub hotspot_handling_enabled: Option<bool>,
    pub piano: Option<PianoPreferencesUpdate>,
}

/// The value of a preference once an update was applied.
pub open spec fn updated<T>(old_value: T, update: Option<T>) -> T {
    match update {
        Some(value) => value,
        None => old_value,
    }
}

/// The value of an optional preference once an update was applied.
pub open spec fn updated_option<T>(old_value: Option<T>, update: Option<OptionUpdate<T>>) -> Option<
    T,
> {
    match update {
        Some(update) => update.value,
        None => old_value,
    }
}

impl Preferences {
    /// Applies an update: every value it names replaces the old one.
    pub fn update(&mut self, update: PreferencesUpdate)
        ensures
            final(self).hotspot_handling_enabled == updated(
                old(self).hotspot_handling_enabled,
                update.hotspot_handling_enabled,
            ),
            update.piano is None ==> final(self).piano == old(self).piano,
            update.piano matches Some(piano) ==> {
                &&& final(self).piano.sounds_volume == updated(
                    old(self).piano.sounds_volume,
                    piano.sounds_volume,
                )
                &&& final(self).piano.record_amplitude_scale == updated_option(
                    old(self).piano.record_amplitude_scale,
                    piano.record_amplitude_scale,
                )
                &&& final(self).piano.recordings_artist == updated_option(
                    old(self).piano.recordings_artist,
                    piano.recordings_artist,
                )
            },
    {
        if let Some(hotspot_handling_enabled) = update.hotspot_handling_enabled {
            self.hotspot_handling_enabled = hotspot_handling_enabled;
        }
        if let Some(piano) = update.piano {
            if let Some(sounds_volume) = piano.sounds_volume {
                self.piano.sounds_volume = sounds_volume;
            }
            if let Some(record_amplitude_scale) = piano.record_amplitude_scale {
                self.piano.record_amplitude_scale = record_amplitude_scale.value;
            }
            if let Some(recordings_artist) = piano.recordings_artist {
                self.piano.recordings_artist = recordings_artist.value;
            }
        }
    }
}

} // verus!
