//! Control plane for MIDI-controlled effects pedals.
//!
//! - `codec`: byte codec primitives shared by the profiles.
//! - `pedals`: one profile per pedal family: parameter catalogue, CC
//!   numbers, value codecs, recall map and shadow state.
//! - `manager`: the registry of live connections and their shadow states;
//!   it decides what is sent and how state changes, the caller transmits.
//! - `identity`: the Universal Device Inquiry exchange.
//! - `device_detection`: matching device names against port names.
//! - `bank_config`, `presets`: bank layout of user preset slots.

pub mod bank_config;
pub mod codec;
pub mod device_detection;
pub mod error;
pub mod identity;
pub mod manager;
pub mod pedals;
pub mod presets;
