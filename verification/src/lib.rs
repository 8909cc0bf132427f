//! Decision logic of a home-automation hub: the Bluetooth device connection
//! state machine, the playback and capture workers, and the orchestrator that
//! arbitrates the piano's audio hardware. Every function is pure: callers
//! perform the hardware and daemon work and report back what happened.

pub mod audio;
pub mod bluetooth;
pub mod common;
pub mod config;
pub mod device;
pub mod files;
pub mod logger;
pub mod prefs;
pub mod rest;
pub mod udev;
