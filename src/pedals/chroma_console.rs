//! Hologram Chroma Console: parameter catalogue, CC codec and shadow state.
//!
//! The console's bypass controls use inverted polarity: a low byte means
//! engaged and a high byte means bypassed.

use crate::codec::{inverted_switch_byte, spec_inverted_switch_byte, spec_switch_byte, switch_byte};
use crate::pedals::PedalMetadata;
use std::collections::HashMap;
use vstd::prelude::*;

verus! {


pub const CC_TILT: u8 = 64;
pub const CC_RATE: u8 = 66;
pub const CC_TIME: u8 = 68;
pub const CC_MIX: u8 = 70;
pub const CC_AMOUNT_CHARACTER: u8 = 65;
pub const CC_AMOUNT_MOVEMENT: u8 = 67;
pub const CC_AMOUNT_DIFFUSION: u8 = 69;
pub const CC_AMOUNT_TEXTURE: u8 = 71;
pub const CC_SENSITIVITY: u8 = 72;
pub const CC_DRIFT_MOVEMENT: u8 = 74;
pub const CC_DRIFT_DIFFUSION: u8 = 76;
pub const CC_OUTPUT_LEVEL: u8 = 78;
pub const CC_EFFECT_VOL_CHARACTER: u8 = 73;
pub const CC_EFFECT_VOL_MOVEMENT: u8 = 75;
pub const CC_EFFECT_VOL_DIFFUSION: u8 = 77;
pub const CC_EFFECT_VOL_TEXTURE: u8 = 79;
pub const CC_CHARACTER_MODULE: u8 = 16;
pub const CC_MOVEMENT_MODULE: u8 = 17;
pub const CC_DIFFUSION_MODULE: u8 = 18;
pub const CC_TEXTURE_MODULE: u8 = 19;
pub const CC_STANDARD_BYPASS: u8 = 91;
pub const CC_DUAL_BYPASS: u8 = 92;
pub const CC_CHARACTER_BYPASS: u8 = 103;
pub const CC_MOVEMENT_BYPASS: u8 = 104;
pub const CC_DIFFUSION_BYPASS: u8 = 105;
pub const CC_TEXTURE_BYPASS: u8 = 106;
pub const CC_GESTURE_PLAY_REC: u8 = 80;
pub const CC_GESTURE_STOP_ERASE: u8 = 81;
pub const CC_CAPTURE: u8 = 82;
pub const CC_CAPTURE_ROUTING: u8 = 83;
pub const CC_TAP_TEMPO: u8 = 93;
pub const CC_FILTER_MODE: u8 = 84;
pub const CC_CALIBRATION_LEVEL: u8 = 94;
pub const CC_CALIBRATION_ENTER: u8 = 95;

/// Character module (CC 16): five 22-wide bands over 0..=109, then Off from 110.
#[derive(Debug, Clone, Copy, PartialEq, Eq, Structural)]
pub enum CharacterModule {
    Drive,
    Sweeten,
    Fuzz,
    Howl,
    Swell,
    Off,
}

impl CharacterModule {
    /// The canonical byte sent for this value.
    pub open spec fn spec_cc_value(self) -> u8 {
        match self {
            CharacterModule::Drive => 10,
            CharacterModule::Sweeten => 32,
            CharacterModule::Fuzz => 54,
            CharacterModule::Howl => 76,
            CharacterModule::Swell => 98,
            CharacterModule::Off => 120,
        }
    }

    /// The value that a received byte stands for: each band of bytes decodes
    /// to one value, and the last band takes every byte above it.
    pub open spec fn spec_from_cc(value: u8) -> CharacterModule {
        if value <= 21 {
            CharacterModule::Drive
        } else if value <= 43 {
            CharacterModule::Sweeten
        } else if value <= 65 {
            CharacterModule::Fuzz
        } else if value <= 87 {
            CharacterModule::Howl
        } else if value <= 109 {
            CharacterModule::Swell
        } else {
            CharacterModule::Off
        }
    }

    /// Lowest byte of the band that decodes to this value.
    pub open spec fn band_low(self) -> u8 {
        match self {
            CharacterModule::Drive => 0,
            CharacterModule::Sweeten => 22,
            CharacterModule::Fuzz => 44,
            CharacterModule::Howl => 66,
            CharacterModule::Swell => 88,
            CharacterModule::Off => 110,
        }
    }

    /// Highest byte of the band that decodes to this value.
    pub open spec fn band_high(self) -> u8 {
        match self {
            CharacterModule::Drive => 21,
            CharacterModule::Sweeten => 43,
            CharacterModule::Fuzz => 65,
            CharacterModule::Howl => 87,
            CharacterModule::Swell => 109,
            CharacterModule::Off => 255,
        }
    }

    /// Encodes the value as a CC byte.
    pub fn to_cc_value(&self) -> (r: u8)
        ensures
            r == self.spec_cc_value(),
            r <= 127,
    {
        match self {
            CharacterModule::Drive => 10,
            CharacterModule::Sweeten => 32,
            CharacterModule::Fuzz => 54,
            CharacterModule::Howl => 76,
            CharacterModule::Swell => 98,
            CharacterModule::Off => 120,
        }
    }

    /// Decodes a received CC byte.
    pub fn from_cc_value(value: u8) -> (r: CharacterModule)
        ensures
            r == CharacterModule::spec_from_cc(value),
            r.band_low() <= value <= r.band_high(),
    {
        if value <= 21 {
            CharacterModule::Drive
        } else if value <= 43 {
            CharacterModule::Sweeten
        } else if value <= 65 {
            CharacterModule::Fuzz
        } else if value <= 87 {
            CharacterModule::Howl
        } else if value <= 109 {
            CharacterModule::Swell
        } else {
            CharacterModule::Off
        }
    }

    /// Name of the module.
    pub open spec fn spec_name(self) -> Seq<char> {
        match self {
            CharacterModule::Drive => "Drive"@,
            CharacterModule::Sweeten => "Sweeten"@,
            CharacterModule::Fuzz => "Fuzz"@,
            CharacterModule::Howl => "Howl"@,
            CharacterModule::Swell => "Swell"@,
            CharacterModule::Off => "Off"@,
        }
    }

    /// Name of the module.
    pub fn name(&self) -> (r: &'static str)
        ensures
            r@ == self.spec_name(),
    {
        match self {
            CharacterModule::Drive => "Drive",
            CharacterModule::Sweeten => "Sweeten",
            CharacterModule::Fuzz => "Fuzz",
            CharacterModule::Howl => "Howl",
            CharacterModule::Swell => "Swell",
            CharacterModule::Off => "Off",
        }
    }
}

/// Movement module (CC 17): five 22-wide bands over 0..=109, then Off from 110.
#[derive(Debug, Clone, Copy, PartialEq, Eq, Structural)]
pub enum MovementModule {
    Doubler,
    Vibrato,
    Phaser,
    Tremolo,
    Pitch,
    Off,
}

impl MovementModule {
    /// The canonical byte sent for this value.
    pub open spec fn spec_cc_value(self) -> u8 {
        match self {
            MovementModule::Doubler => 10,
            MovementModule::Vibrato => 32,
            MovementModule::Phaser => 54,
            MovementModule::Tremolo => 76,
            MovementModule::Pitch => 98,
            MovementModule::Off => 120,
        }
    }

    /// The value that a received byte stands for: each band of bytes decodes
    /// to one value, and the last band takes every byte above it.
    pub open spec fn spec_from_cc(value: u8) -> MovementModule {
        if value <= 21 {
            MovementModule::Doubler
        } else if value <= 43 {
            MovementModule::Vibrato
        } else if value <= 65 {
            MovementModule::Phaser
        } else if value <= 87 {
            MovementModule::Tremolo
        } else if value <= 109 {
            MovementModule::Pitch
        } else {
            MovementModule::Off
        }
    }

    /// Lowest byte of the band that decodes to this value.
    pub open spec fn band_low(self) -> u8 {
        match self {
            MovementModule::Doubler => 0,
            MovementModule::Vibrato => 22,
            MovementModule::Phaser => 44,
            MovementModule::Tremolo => 66,
            MovementModule::Pitch => 88,
            MovementModule::Off => 110,
        }
    }

    /// Highest byte of the band that decodes to this value.
    pub open spec fn band_high(self) -> u8 {
        match self {
            MovementModule::Doubler => 21,
            MovementModule::Vibrato => 43,
            MovementModule::Phaser => 65,
            MovementModule::Tremolo => 87,
            MovementModule::Pitch => 109,
            MovementModule::Off => 255,
        }
    }

    /// Encodes the value as a CC byte.
    pub fn to_cc_value(&self) -> (r: u8)
        ensures
            r == self.spec_cc_value(),
            r <= 127,
    {
        match self {
            MovementModule::Doubler => 10,
            MovementModule::Vibrato => 32,
            MovementModule::Phaser => 54,
            MovementModule::Tremolo => 76,
            MovementModule::Pitch => 98,
            MovementModule::Off => 120,
        }
    }

    /// Decodes a received CC byte.
    pub fn from_cc_value(value: u8) -> (r: MovementModule)
        ensures
            r == MovementModule::spec_from_cc(value),
            r.band_low() <= value <= r.band_high(),
    {
        if value <= 21 {
            MovementModule::Doubler
        } else if value <= 43 {
            MovementModule::Vibrato
        } else if value <= 65 {
            MovementModule::Phaser
        } else if value <= 87 {
            MovementModule::Tremolo
        } else if value <= 109 {
            MovementModule::Pitch
        } else {
            MovementModule::Off
        }
    }

    /// Name of the module.
    pub open spec fn spec_name(self) -> Seq<char> {
        match self {
            MovementModule::Doubler => "Doubler"@,
            MovementModule::Vibrato => "Vibrato"@,
            MovementModule::Phaser => "Phaser"@,
            MovementModule::Tremolo => "Tremolo"@,
            MovementModule::Pitch => "Pitch"@,
            MovementModule::Off => "Off"@,
        }
    }

    /// Name of the module.
    pub fn name(&self) -> (r: &'static str)
        ensures
            r@ == self.spec_name(),
    {
        match self {
            MovementModule::Doubler => "Doubler",
            MovementModule::Vibrato => "Vibrato",
            MovementModule::Phaser => "Phaser",
            MovementModule::Tremolo => "Tremolo",
            MovementModule::Pitch => "Pitch",
            MovementModule::Off => "Off",
        }
    }
}

/// Diffusion module (CC 18): five 22-wide bands over 0..=109, then Off from 110.
#[derive(Debug, Clone, Copy, PartialEq, Eq, Structural)]
pub enum DiffusionModule {
    Cascade,
    Reels,
    Space,
    Collage,
    Reverse,
    Off,
}

impl DiffusionModule {
    /// The canonical byte sent for this value.
    pub open spec fn spec_cc_value(self) -> u8 {
        match self {
            DiffusionModule::Cascade => 10,
            DiffusionModule::Reels => 32,
            DiffusionModule::Space => 54,
            DiffusionModule::Collage => 76,
            DiffusionModule::Reverse => 98,
            DiffusionModule::Off => 120,
        }
    }

    /// The value that a received byte stands for: each band of bytes decodes
    /// to one value, and the last band takes every byte above it.
    pub open spec fn spec_from_cc(value: u8) -> DiffusionModule {
        if value <= 21 {
            DiffusionModule::Cascade
        } else if value <= 43 {
            DiffusionModule::Reels
        } else if value <= 65 {
            DiffusionModule::Space
        } else if value <= 87 {
            DiffusionModule::Collage
        } else if value <= 109 {
            DiffusionModule::Reverse
        } else {
            DiffusionModule::Off
        }
    }

    /// Lowest byte of the band that decodes to this value.
    pub open spec fn band_low(self) -> u8 {
        match self {
            DiffusionModule::Cascade => 0,
            DiffusionModule::Reels => 22,
            DiffusionModule::Space => 44,
            DiffusionModule::Collage => 66,
            DiffusionModule::Reverse => 88,
            DiffusionModule::Off => 110,
        }
    }

    /// Highest byte of the band that decodes to this value.
    pub open spec fn band_high(self) -> u8 {
        match self {
            DiffusionModule::Cascade => 21,
            DiffusionModule::Reels => 43,
            DiffusionModule::Space => 65,
            DiffusionModule::Collage => 87,
            DiffusionModule::Reverse => 109,
            DiffusionModule::Off => 255,
        }
    }

    /// Encodes the value as a CC byte.
    pub fn to_cc_value(&self) -> (r: u8)
        ensures
            r == self.spec_cc_value(),
            r <= 127,
    {
        match self {
            DiffusionModule::Cascade => 10,
            DiffusionModule::Reels => 32,
            DiffusionModule::Space => 54,
            DiffusionModule::Collage => 76,
            DiffusionModule::Reverse => 98,
            DiffusionModule::Off => 120,
        }
    }

    /// Decodes a received CC byte.
    pub fn from_cc_value(value: u8) -> (r: DiffusionModule)
        ensures
            r == DiffusionModule::spec_from_cc(value),
            r.band_low() <= value <= r.band_high(),
    {
        if value <= 21 {
            DiffusionModule::Cascade
        } else if value <= 43 {
            DiffusionModule::Reels
        } else if value <= 65 {
            DiffusionModule::Space
        } else if value <= 87 {
            DiffusionModule::Collage
        } else if value <= 109 {
            DiffusionModule::Reverse
        } else {
            DiffusionModule::Off
        }
    }

    /// Name of the module.
    pub open spec fn spec_name(self) -> Seq<char> {
        match self {
            DiffusionModule::Cascade => "Cascade"@,
            DiffusionModule::Reels => "Reels"@,
            DiffusionModule::Space => "Space"@,
            DiffusionModule::Collage => "Collage"@,
            DiffusionModule::Reverse => "Reverse"@,
            DiffusionModule::Off => "Off"@,
        }
    }

    /// Name of the module.
    pub fn name(&self) -> (r: &'static str)
        ensures
            r@ == self.spec_name(),
    {
        match self {
            DiffusionModule::Cascade => "Cascade",
            DiffusionModule::Reels => "Reels",
            DiffusionModule::Space => "Space",
            DiffusionModule::Collage => "Collage",
            DiffusionModule::Reverse => "Reverse",
            DiffusionModule::Off => "Off",
        }
    }
}

/// Texture module (CC 19): five 22-wide bands over 0..=109, then Off from 110.
#[derive(Debug, Clone, Copy, PartialEq, Eq, Structural)]
pub enum TextureModule {
    Filter,
    Squash,
    Cassette,
    Broken,
    Interference,
    Off,
}

impl TextureModule {
    /// The canonical byte sent for this value.
    pub open spec fn spec_cc_value(self) -> u8 {
        match self {
            TextureModule::Filter => 10,
            TextureModule::Squash => 32,
            TextureModule::Cassette => 54,
            TextureModule::Broken => 76,
            TextureModule::Interference => 98,
            TextureModule::Off => 120,
        }
    }

    /// The value that a received byte stands for: each band of bytes decodes
    /// to one value, and the last band takes every byte above it.
    pub open spec fn spec_from_cc(value: u8) -> TextureModule {
        if value <= 21 {
            TextureModule::Filter
        } else if value <= 43 {
            TextureModule::Squash
        } else if value <= 65 {
            TextureModule::Cassette
        } else if value <= 87 {
            TextureModule::Broken
        } else if value <= 109 {
            TextureModule::Interference
        } else {
            TextureModule::Off
        }
    }

    /// Lowest byte of the band that decodes to this value.
    pub open spec fn band_low(self) -> u8 {
        match self {
            TextureModule::Filter => 0,
            TextureModule::Squash => 22,
            TextureModule::Cassette => 44,
            TextureModule::Broken => 66,
            TextureModule::Interference => 88,
            TextureModule::Off => 110,
        }
    }

    /// Highest byte of the band that decodes to this value.
    pub open spec fn band_high(self) -> u8 {
        match self {
            TextureModule::Filter => 21,
            TextureModule::Squash => 43,
            TextureModule::Cassette => 65,
            TextureModule::Broken => 87,
            TextureModule::Interference => 109,
            TextureModule::Off => 255,
        }
    }

    /// Encodes the value as a CC byte.
    pub fn to_cc_value(&self) -> (r: u8)
        ensures
            r == self.spec_cc_value(),
            r <= 127,
    {
        match self {
            TextureModule::Filter => 10,
            TextureModule::Squash => 32,
            TextureModule::Cassette => 54,
            TextureModule::Broken => 76,
            TextureModule::Interference => 98,
            TextureModule::Off => 120,
        }
    }

    /// Decodes a received CC byte.
    pub fn from_cc_value(value: u8) -> (r: TextureModule)
        ensures
            r == TextureModule::spec_from_cc(value),
            r.band_low() <= value <= r.band_high(),
    {
        if value <= 21 {
            TextureModule::Filter
        } else if value <= 43 {
            TextureModule::Squash
        } else if value <= 65 {
            TextureModule::Cassette
        } else if value <= 87 {
            TextureModule::Broken
        } else if value <= 109 {
            TextureModule::Interference
        } else {
            TextureModule::Off
        }
    }

    /// Name of the module.
    pub open spec fn spec_name(self) -> Seq<char> {
        match self {
            TextureModule::Filter => "Filter"@,
            TextureModule::Squash => "Squash"@,
            TextureModule::Cassette => "Cassette"@,
            TextureModule::Broken => "Broken"@,
            TextureModule::Interference => "Interference"@,
            TextureModule::Off => "Off"@,
        }
    }

    /// Name of the module.
    pub fn name(&self) -> (r: &'static str)
        ensures
            r@ == self.spec_name(),
    {
        match self {
            TextureModule::Filter => "Filter",
            TextureModule::Squash => "Squash",
            TextureModule::Cassette => "Cassette",
            TextureModule::Broken => "Broken",
            TextureModule::Interference => "Interference",
            TextureModule::Off => "Off",
        }
    }
}

/// Overall bypass. On CC 91 a low byte means engaged and a high byte means
/// bypassed; CC 92 (dual bypass mode) splits the range in three.
#[derive(Debug, Clone, Copy, PartialEq, Eq, Structural)]
pub enum BypassState {
    Bypass,
    Engaged,
    DualBypass,
}

impl BypassState {
    /// The byte sent for this state: 127 bypassed, 0 engaged, 48 dual bypass.
    pub open spec fn spec_cc_value(self) -> u8 {
        match self {
            BypassState::Bypass => 127,
            BypassState::Engaged => 0,
            BypassState::DualBypass => 48,
        }
    }

    /// The state a byte on CC 91 stands for: engaged below 64, bypassed from 64.
    pub open spec fn spec_from_standard_cc(value: u8) -> BypassState {
        if value < 64 {
            BypassState::Engaged
        } else {
            BypassState::Bypass
        }
    }

    /// The state a byte on CC 92 stands for: engaged up to 31, dual bypass
    /// from 32 to 63, bypassed from 64.
    pub open spec fn spec_from_dual_cc(value: u8) -> BypassState {
        if value <= 31 {
            BypassState::Engaged
        } else if value <= 63 {
            BypassState::DualBypass
        } else {
            BypassState::Bypass
        }
    }

    /// Encodes the bypass state as a CC byte.
    pub fn to_cc_value(&self) -> (r: u8)
        ensures
            r == self.spec_cc_value(),
            r <= 127,
    {
        match self {
            BypassState::Bypass => 127,
            BypassState::Engaged => 0,
            BypassState::DualBypass => 48,
        }
    }

    /// Decodes a byte received on CC 91.
    pub fn from_standard_cc(value: u8) -> (r: BypassState)
        ensures
            r == BypassState::spec_from_standard_cc(value),
    {
        if value < 64 {
            BypassState::Engaged
        } else {
            BypassState::Bypass
        }
    }

    /// Decodes a byte received on CC 92.
    pub fn from_dual_cc(value: u8) -> (r: BypassState)
        ensures
            r == BypassState::spec_from_dual_cc(value),
    {
        if value <= 31 {
            BypassState::Engaged
        } else if value <= 63 {
            BypassState::DualBypass
        } else {
            BypassState::Bypass
        }
    }
}

/// The bypass uses inverted logic: engaged is sent as 0 and bypassed as 127,
/// and on CC 91 every byte from 64 up, such as 100, reads as bypassed. Engaged
/// and bypassed survive a trip through CC 91, and all three states survive a
/// trip through CC 92.
pub proof fn lemma_bypass_inverted(s: BypassState, value: u8)
    ensures
        BypassState::Engaged.spec_cc_value() == 0,
        BypassState::Bypass.spec_cc_value() == 127,
        value >= 64 ==> BypassState::spec_from_standard_cc(value) == BypassState::Bypass,
        value < 64 ==> BypassState::spec_from_standard_cc(value) == BypassState::Engaged,
        s != BypassState::DualBypass ==> BypassState::spec_from_standard_cc(s.spec_cc_value()) == s,
        BypassState::spec_from_dual_cc(s.spec_cc_value()) == s,
{
}

/// Gesture play/record (CC 80), split at 64.
#[derive(Debug, Clone, Copy, PartialEq, Eq, Structural)]
pub enum GestureMode {
    Play,
    Record,
}

impl GestureMode {
    /// The canonical byte sent for this value.
    pub open spec fn spec_cc_value(self) -> u8 {
        match self {
            GestureMode::Play => 0,
            GestureMode::Record => 127,
        }
    }

    /// The value that a received byte stands for: each band of bytes decodes
    /// to one value, and the last band takes every byte above it.
    pub open spec fn spec_from_cc(value: u8) -> GestureMode {
        if value <= 63 {
            GestureMode::Play
        } else {
            GestureMode::Record
        }
    }

    /// Lowest byte of the band that decodes to this value.
    pub open spec fn band_low(self) -> u8 {
        match self {
            GestureMode::Play => 0,
            GestureMode::Record => 64,
        }
    }

    /// Highest byte of the band that decodes to this value.
    pub open spec fn band_high(self) -> u8 {
        match self {
            GestureMode::Play => 63,
            GestureMode::Record => 255,
        }
    }

    /// Encodes the value as a CC byte.
    pub fn to_cc_value(&self) -> (r: u8)
        ensures
            r == self.spec_cc_value(),
            r <= 127,
    {
        match self {
            GestureMode::Play => 0,
            GestureMode::Record => 127,
        }
    }

    /// Decodes a received CC byte.
    pub fn from_cc_value(value: u8) -> (r: GestureMode)
        ensures
            r == GestureMode::spec_from_cc(value),
            r.band_low() <= value <= r.band_high(),
    {
        if value <= 63 {
            GestureMode::Play
        } else {
            GestureMode::Record
        }
    }
}

/// Capture mode (CC 82), three bands of 44.
#[derive(Debug, Clone, Copy, PartialEq, Eq, Structural)]
pub enum CaptureMode {
    Stop,
    Play,
    Record,
}

impl CaptureMode {
    /// The canonical byte sent for this value.
    pub open spec fn spec_cc_value(self) -> u8 {
        match self {
            CaptureMode::Stop => 21,
            CaptureMode::Play => 65,
            CaptureMode::Record => 108,
        }
    }

    /// The value that a received byte stands for: each band of bytes decodes
    /// to one value, and the last band takes every byte above it.
    pub open spec fn spec_from_cc(value: u8) -> CaptureMode {
        if value <= 43 {
            CaptureMode::Stop
        } else if value <= 87 {
            CaptureMode::Play
        } else {
            CaptureMode::Record
        }
    }

    /// Lowest byte of the band that decodes to this value.
    pub open spec fn band_low(self) -> u8 {
        match self {
            CaptureMode::Stop => 0,
            CaptureMode::Play => 44,
            CaptureMode::Record => 88,
        }
    }

    /// Highest byte of the band that decodes to this value.
    pub open spec fn band_high(self) -> u8 {
        match self {
            CaptureMode::Stop => 43,
            CaptureMode::Play => 87,
            CaptureMode::Record => 255,
        }
    }

    /// Encodes the value as a CC byte.
    pub fn to_cc_value(&self) -> (r: u8)
        ensures
            r == self.spec_cc_value(),
            r <= 127,
    {
        match self {
            CaptureMode::Stop => 21,
            CaptureMode::Play => 65,
            CaptureMode::Record => 108,
        }
    }

    /// Decodes a received CC byte.
    pub fn from_cc_value(value: u8) -> (r: CaptureMode)
        ensures
            r == CaptureMode::spec_from_cc(value),
            r.band_low() <= value <= r.band_high(),
    {
        if value <= 43 {
            CaptureMode::Stop
        } else if value <= 87 {
            CaptureMode::Play
        } else {
            CaptureMode::Record
        }
    }
}

/// Capture routing (CC 83), split at 64.
#[derive(Debug, Clone, Copy, PartialEq, Eq, Structural)]
pub enum CaptureRouting {
    PostFx,
    PreFx,
}

impl CaptureRouting {
    /// The canonical byte sent for this value.
    pub open spec fn spec_cc_value(self) -> u8 {
        match self {
            CaptureRouting::PostFx => 0,
            CaptureRouting::PreFx => 127,
        }
    }

    /// The value that a received byte stands for: each band of bytes decodes
    /// to one value, and the last band takes every byte above it.
    pub open spec fn spec_from_cc(value: u8) -> CaptureRouting {
        if value <= 63 {
            CaptureRouting::PostFx
        } else {
            CaptureRouting::PreFx
        }
    }

    /// Lowest byte of the band that decodes to this value.
    pub open spec fn band_low(self) -> u8 {
        match self {
            CaptureRouting::PostFx => 0,
            CaptureRouting::PreFx => 64,
        }
    }

    /// Highest byte of the band that decodes to this value.
    pub open spec fn band_high(self) -> u8 {
        match self {
            CaptureRouting::PostFx => 63,
            CaptureRouting::PreFx => 255,
        }
    }

    /// Encodes the value as a CC byte.
    pub fn to_cc_value(&self) -> (r: u8)
        ensures
            r == self.spec_cc_value(),
            r <= 127,
    {
        match self {
            CaptureRouting::PostFx => 0,
            CaptureRouting::PreFx => 127,
        }
    }

    /// Decodes a received CC byte.
    pub fn from_cc_value(value: u8) -> (r: CaptureRouting)
        ensures
            r == CaptureRouting::spec_from_cc(value),
            r.band_low() <= value <= r.band_high(),
    {
        if value <= 63 {
            CaptureRouting::PostFx
        } else {
            CaptureRouting::PreFx
        }
    }
}

/// Filter mode (CC 84), three bands of 44.
#[derive(Debug, Clone, Copy, PartialEq, Eq, Structural)]
pub enum FilterMode {
    Lpf,
    Tilt,
    Hpf,
}

impl FilterMode {
    /// The canonical byte sent for this value.
    pub open spec fn spec_cc_value(self) -> u8 {
        match self {
            FilterMode::Lpf => 21,
            FilterMode::Tilt => 65,
            FilterMode::Hpf => 108,
        }
    }

    /// The value that a received byte stands for: each band of bytes decodes
    /// to one value, and the last band takes every byte above it.
    pub open spec fn spec_from_cc(value: u8) -> FilterMode {
        if value <= 43 {
            FilterMode::Lpf
        } else if value <= 87 {
            FilterMode::Tilt
        } else {
            FilterMode::Hpf
        }
    }

    /// Lowest byte of the band that decodes to this value.
    pub open spec fn band_low(self) -> u8 {
        match self {
            FilterMode::Lpf => 0,
            FilterMode::Tilt => 44,
            FilterMode::Hpf => 88,
        }
    }

    /// Highest byte of the band that decodes to this value.
    pub open spec fn band_high(self) -> u8 {
        match self {
            FilterMode::Lpf => 43,
            FilterMode::Tilt => 87,
            FilterMode::Hpf => 255,
        }
    }

    /// Encodes the value as a CC byte.
    pub fn to_cc_value(&self) -> (r: u8)
        ensures
            r == self.spec_cc_value(),
            r <= 127,
    {
        match self {
            FilterMode::Lpf => 21,
            FilterMode::Tilt => 65,
            FilterMode::Hpf => 108,
        }
    }

    /// Decodes a received CC byte.
    pub fn from_cc_value(value: u8) -> (r: FilterMode)
        ensures
            r == FilterMode::spec_from_cc(value),
            r.band_low() <= value <= r.band_high(),
    {
        if value <= 43 {
            FilterMode::Lpf
        } else if value <= 87 {
            FilterMode::Tilt
        } else {
            FilterMode::Hpf
        }
    }

    /// Name of the filter mode.
    pub open spec fn spec_name(self) -> Seq<char> {
        match self {
            FilterMode::Lpf => "LPF"@,
            FilterMode::Tilt => "Tilt"@,
            FilterMode::Hpf => "HPF"@,
        }
    }

    /// Name of the filter mode.
    pub fn name(&self) -> (r: &'static str)
        ensures
            r@ == self.spec_name(),
    {
        match self {
            FilterMode::Lpf => "LPF",
            FilterMode::Tilt => "Tilt",
            FilterMode::Hpf => "HPF",
        }
    }
}

/// Input calibration level (CC 94), four bands of 32.
#[derive(Debug, Clone, Copy, PartialEq, Eq, Structural)]
pub enum CalibrationLevel {
    Low,
    Medium,
    High,
    VeryHigh,
}

impl CalibrationLevel {
    /// The canonical byte sent for this value.
    pub open spec fn spec_cc_value(self) -> u8 {
        match self {
            CalibrationLevel::Low => 15,
            CalibrationLevel::Medium => 47,
            CalibrationLevel::High => 79,
            CalibrationLevel::VeryHigh => 111,
        }
    }

    /// The value that a received byte stands for: each band of bytes decodes
    /// to one value, and the last band takes every byte above it.
    pub open spec fn spec_from_cc(value: u8) -> CalibrationLevel {
        if value <= 31 {
            CalibrationLevel::Low
        } else if value <= 63 {
            CalibrationLevel::Medium
        } else if value <= 95 {
            CalibrationLevel::High
        } else {
            CalibrationLevel::VeryHigh
        }
    }

    /// Lowest byte of the band that decodes to this value.
    pub open spec fn band_low(self) -> u8 {
        match self {
            CalibrationLevel::Low => 0,
            CalibrationLevel::Medium => 32,
            CalibrationLevel::High => 64,
            CalibrationLevel::VeryHigh => 96,
        }
    }

    /// Highest byte of the band that decodes to this value.
    pub open spec fn band_high(self) -> u8 {
        match self {
            CalibrationLevel::Low => 31,
            CalibrationLevel::Medium => 63,
            CalibrationLevel::High => 95,
            CalibrationLevel::VeryHigh => 255,
        }
    }

    /// Encodes the value as a CC byte.
    pub fn to_cc_value(&self) -> (r: u8)
        ensures
            r == self.spec_cc_value(),
            r <= 127,
    {
        match self {
            CalibrationLevel::Low => 15,
            CalibrationLevel::Medium => 47,
            CalibrationLevel::High => 79,
            CalibrationLevel::VeryHigh => 111,
        }
    }

    /// Decodes a received CC byte.
    pub fn from_cc_value(value: u8) -> (r: CalibrationLevel)
        ensures
            r == CalibrationLevel::spec_from_cc(value),
            r.band_low() <= value <= r.band_high(),
    {
        if value <= 31 {
            CalibrationLevel::Low
        } else if value <= 63 {
            CalibrationLevel::Medium
        } else if value <= 95 {
            CalibrationLevel::High
        } else {
            CalibrationLevel::VeryHigh
        }
    }

    /// Name of the calibration level.
    pub open spec fn spec_name(self) -> Seq<char> {
        match self {
            CalibrationLevel::Low => "Low"@,
            CalibrationLevel::Medium => "Medium"@,
            CalibrationLevel::High => "High"@,
            CalibrationLevel::VeryHigh => "Very High"@,
        }
    }

    /// Name of the calibration level.
    pub fn name(&self) -> (r: &'static str)
        ensures
            r@ == self.spec_name(),
    {
        match self {
            CalibrationLevel::Low => "Low",
            CalibrationLevel::Medium => "Medium",
            CalibrationLevel::High => "High",
            CalibrationLevel::VeryHigh => "Very High",
        }
    }
}

/// Decoding the byte that a value encodes to gives that value back, and the
/// bands of `CharacterModule` cover every byte, each byte lying in the band of what it
/// decodes to.
pub proof fn lemma_character_module_codec(v: CharacterModule, b: u8)
    ensures
        CharacterModule::spec_from_cc(v.spec_cc_value()) == v,
        CharacterModule::spec_from_cc(b).band_low() <= b <= CharacterModule::spec_from_cc(b).band_high(),
{
}

/// Decoding the byte that a value encodes to gives that value back, and the
/// bands of `MovementModule` cover every byte, each byte lying in the band of what it
/// decodes to.
pub proof fn lemma_movement_module_codec(v: MovementModule, b: u8)
    ensures
        MovementModule::spec_from_cc(v.spec_cc_value()) == v,
        MovementModule::spec_from_cc(b).band_low() <= b <= MovementModule::spec_from_cc(b).band_high(),
{
}

/// Decoding the byte that a value encodes to gives that value back, and the
/// bands of `DiffusionModule` cover every byte, each byte lying in the band of what it
/// decodes to.
pub proof fn lemma_diffusion_module_codec(v: DiffusionModule, b: u8)
    ensures
        DiffusionModule::spec_from_cc(v.spec_cc_value()) == v,
        DiffusionModule::spec_from_cc(b).band_low() <= b <= DiffusionModule::spec_from_cc(b).band_high(),
{
}

/// Decoding the byte that a value encodes to gives that value back, and the
/// bands of `TextureModule` cover every byte, each byte lying in the band of what it
/// decodes to.
pub proof fn lemma_texture_module_codec(v: TextureModule, b: u8)
    ensures
        TextureModule::spec_from_cc(v.spec_cc_value()) == v,
        TextureModule::spec_from_cc(b).band_low() <= b <= TextureModule::spec_from_cc(b).band_high(),
{
}

/// Decoding the byte that a value encodes to gives that value back, and the
/// bands of `GestureMode` cover every byte, each byte lying in the band of what it
/// decodes to.
pub proof fn lemma_gesture_mode_codec(v: GestureMode, b: u8)
    ensures
        GestureMode::spec_from_cc(v.spec_cc_value()) == v,
        GestureMode::spec_from_cc(b).band_low() <= b <= GestureMode::spec_from_cc(b).band_high(),
{
}

/// Decoding the byte that a value encodes to gives that value back, and the
/// bands of `CaptureMode` cover every byte, each byte lying in the band of what it
/// decodes to.
pub proof fn lemma_capture_mode_codec(v: CaptureMode, b: u8)
    ensures
        CaptureMode::spec_from_cc(v.spec_cc_value()) == v,
        CaptureMode::spec_from_cc(b).band_low() <= b <= CaptureMode::spec_from_cc(b).band_high(),
{
}

/// Decoding the byte that a value encodes to gives that value back, and the
/// bands of `CaptureRouting` cover every byte, each byte lying in the band of what it
/// decodes to.
pub proof fn lemma_capture_routing_codec(v: CaptureRouting, b: u8)
    ensures
        CaptureRouting::spec_from_cc(v.spec_cc_value()) == v,
        CaptureRouting::spec_from_cc(b).band_low() <= b <= CaptureRouting::spec_from_cc(b).band_high(),
{
}

/// Decoding the byte that a value encodes to gives that value back, and the
/// bands of `FilterMode` cover every byte, each byte lying in the band of what it
/// decodes to.
pub proof fn lemma_filter_mode_codec(v: FilterMode, b: u8)
    ensures
        FilterMode::spec_from_cc(v.spec_cc_value()) == v,
        FilterMode::spec_from_cc(b).band_low() <= b <= FilterMode::spec_from_cc(b).band_high(),
{
}

/// Decoding the byte that a value encodes to gives that value back, and the
/// bands of `CalibrationLevel` cover every byte, each byte lying in the band of what it
/// decodes to.
pub proof fn lemma_calibration_level_codec(v: CalibrationLevel, b: u8)
    ensures
        CalibrationLevel::spec_from_cc(v.spec_cc_value()) == v,
        CalibrationLevel::spec_from_cc(b).band_low() <= b <= CalibrationLevel::spec_from_cc(b).band_high(),
{
}

/// Every Chroma Console parameter together with its value.
#[derive(Debug, Clone, Copy, PartialEq, Eq, Structural)]
pub enum ChromaConsoleParameter {
    Tilt(u8),
    Rate(u8),
    Time(u8),
    Mix(u8),
    AmountCharacter(u8),
    AmountMovement(u8),
    AmountDiffusion(u8),
    AmountTexture(u8),
    Sensitivity(u8),
    DriftMovement(u8),
    DriftDiffusion(u8),
    OutputLevel(u8),
    EffectVolCharacter(u8),
    EffectVolMovement(u8),
    EffectVolDiffusion(u8),
    EffectVolTexture(u8),
    CharacterModule(CharacterModule),
    MovementModule(MovementModule),
    DiffusionModule(DiffusionModule),
    TextureModule(TextureModule),
    BypassState(BypassState),
    CharacterBypass(bool),
    MovementBypass(bool),
    DiffusionBypass(bool),
    TextureBypass(bool),
    GestureMode(GestureMode),
    GestureStop,
    CaptureMode(CaptureMode),
    CaptureRouting(CaptureRouting),
    TapTempo,
    FilterMode(FilterMode),
    CalibrationLevel(CalibrationLevel),
    CalibrationEnter(bool),
}

impl ChromaConsoleParameter {
    /// The CC number that carries this parameter.
    pub open spec fn spec_cc_number(self) -> u8 {
        match self {
            ChromaConsoleParameter::Tilt(_) => 64,
            ChromaConsoleParameter::Rate(_) => 66,
            ChromaConsoleParameter::Time(_) => 68,
            ChromaConsoleParameter::Mix(_) => 70,
            ChromaConsoleParameter::AmountCharacter(_) => 65,
            ChromaConsoleParameter::AmountMovement(_) => 67,
            ChromaConsoleParameter::AmountDiffusion(_) => 69,
            ChromaConsoleParameter::AmountTexture(_) => 71,
            ChromaConsoleParameter::Sensitivity(_) => 72,
            ChromaConsoleParameter::DriftMovement(_) => 74,
            ChromaConsoleParameter::DriftDiffusion(_) => 76,
            ChromaConsoleParameter::OutputLevel(_) => 78,
            ChromaConsoleParameter::EffectVolCharacter(_) => 73,
            ChromaConsoleParameter::EffectVolMovement(_) => 75,
            ChromaConsoleParameter::EffectVolDiffusion(_) => 77,
            ChromaConsoleParameter::EffectVolTexture(_) => 79,
            ChromaConsoleParameter::CharacterModule(_) => 16,
            ChromaConsoleParameter::MovementModule(_) => 17,
            ChromaConsoleParameter::DiffusionModule(_) => 18,
            ChromaConsoleParameter::TextureModule(_) => 19,
            ChromaConsoleParameter::BypassState(_) => 91,
            ChromaConsoleParameter::CharacterBypass(_) => 103,
            ChromaConsoleParameter::MovementBypass(_) => 104,
            ChromaConsoleParameter::DiffusionBypass(_) => 105,
            ChromaConsoleParameter::TextureBypass(_) => 106,
            ChromaConsoleParameter::GestureMode(_) => 80,
            ChromaConsoleParameter::GestureStop => 81,
            ChromaConsoleParameter::CaptureMode(_) => 82,
            ChromaConsoleParameter::CaptureRouting(_) => 83,
            ChromaConsoleParameter::TapTempo => 93,
            ChromaConsoleParameter::FilterMode(_) => 84,
            ChromaConsoleParameter::CalibrationLevel(_) => 94,
            ChromaConsoleParameter::CalibrationEnter(_) => 95,
        }
    }

    /// The CC byte that carries this parameter's value.
    pub open spec fn spec_cc_value(self) -> u8 {
        match self {
            ChromaConsoleParameter::Tilt(v) => v,
            ChromaConsoleParameter::Rate(v) => v,
            ChromaConsoleParameter::Time(v) => v,
            ChromaConsoleParameter::Mix(v) => v,
            ChromaConsoleParameter::AmountCharacter(v) => v,
            ChromaConsoleParameter::AmountMovement(v) => v,
            ChromaConsoleParameter::AmountDiffusion(v) => v,
            ChromaConsoleParameter::AmountTexture(v) => v,
            ChromaConsoleParameter::Sensitivity(v) => v,
            ChromaConsoleParameter::DriftMovement(v) => v,
            ChromaConsoleParameter::DriftDiffusion(v) => v,
            ChromaConsoleParameter::OutputLevel(v) => v,
            ChromaConsoleParameter::EffectVolCharacter(v) => v,
            ChromaConsoleParameter::EffectVolMovement(v) => v,
            ChromaConsoleParameter::EffectVolDiffusion(v) => v,
            ChromaConsoleParameter::EffectVolTexture(v) => v,
            ChromaConsoleParameter::CharacterModule(v) => v.spec_cc_value(),
            ChromaConsoleParameter::MovementModule(v) => v.spec_cc_value(),
            ChromaConsoleParameter::DiffusionModule(v) => v.spec_cc_value(),
            ChromaConsoleParameter::TextureModule(v) => v.spec_cc_value(),
            ChromaConsoleParameter::BypassState(v) => v.spec_cc_value(),
            ChromaConsoleParameter::CharacterBypass(v) => spec_inverted_switch_byte(v),
            ChromaConsoleParameter::MovementBypass(v) => spec_inverted_switch_byte(v),
            ChromaConsoleParameter::DiffusionBypass(v) => spec_inverted_switch_byte(v),
            ChromaConsoleParameter::TextureBypass(v) => spec_inverted_switch_byte(v),
            ChromaConsoleParameter::GestureMode(v) => v.spec_cc_value(),
            ChromaConsoleParameter::GestureStop => 127,
            ChromaConsoleParameter::CaptureMode(v) => v.spec_cc_value(),
            ChromaConsoleParameter::CaptureRouting(v) => v.spec_cc_value(),
            ChromaConsoleParameter::TapTempo => 127,
            ChromaConsoleParameter::FilterMode(v) => v.spec_cc_value(),
            ChromaConsoleParameter::CalibrationLevel(v) => v.spec_cc_value(),
            ChromaConsoleParameter::CalibrationEnter(v) => spec_switch_byte(v),
        }
    }

    /// Position of the parameter's kind in the catalogue, whatever its value.
    pub open spec fn kind(self) -> int {
        match self {
            ChromaConsoleParameter::Tilt(_) => 0,
            ChromaConsoleParameter::Rate(_) => 1,
            ChromaConsoleParameter::Time(_) => 2,
            ChromaConsoleParameter::Mix(_) => 3,
            ChromaConsoleParameter::AmountCharacter(_) => 4,
            ChromaConsoleParameter::AmountMovement(_) => 5,
            ChromaConsoleParameter::AmountDiffusion(_) => 6,
            ChromaConsoleParameter::AmountTexture(_) => 7,
            ChromaConsoleParameter::Sensitivity(_) => 8,
            ChromaConsoleParameter::DriftMovement(_) => 9,
            ChromaConsoleParameter::DriftDiffusion(_) => 10,
            ChromaConsoleParameter::OutputLevel(_) => 11,
            ChromaConsoleParameter::EffectVolCharacter(_) => 12,
            ChromaConsoleParameter::EffectVolMovement(_) => 13,
            ChromaConsoleParameter::EffectVolDiffusion(_) => 14,
            ChromaConsoleParameter::EffectVolTexture(_) => 15,
            ChromaConsoleParameter::CharacterModule(_) => 16,
            ChromaConsoleParameter::MovementModule(_) => 17,
            ChromaConsoleParameter::DiffusionModule(_) => 18,
            ChromaConsoleParameter::TextureModule(_) => 19,
            ChromaConsoleParameter::BypassState(_) => 20,
            ChromaConsoleParameter::CharacterBypass(_) => 21,
            ChromaConsoleParameter::MovementBypass(_) => 22,
            ChromaConsoleParameter::DiffusionBypass(_) => 23,
            ChromaConsoleParameter::TextureBypass(_) => 24,
            ChromaConsoleParameter::GestureMode(_) => 25,
            ChromaConsoleParameter::GestureStop => 26,
            ChromaConsoleParameter::CaptureMode(_) => 27,
            ChromaConsoleParameter::CaptureRouting(_) => 28,
            ChromaConsoleParameter::TapTempo => 29,
            ChromaConsoleParameter::FilterMode(_) => 30,
            ChromaConsoleParameter::CalibrationLevel(_) => 31,
            ChromaConsoleParameter::CalibrationEnter(_) => 32,
        }
    }

    /// The CC number for this parameter.
    pub fn cc_number(&self) -> (r: u8)
        ensures
            r == self.spec_cc_number(),
    {
        match self {
            ChromaConsoleParameter::Tilt(_) => 64,
            ChromaConsoleParameter::Rate(_) => 66,
            ChromaConsoleParameter::Time(_) => 68,
            ChromaConsoleParameter::Mix(_) => 70,
            ChromaConsoleParameter::AmountCharacter(_) => 65,
            ChromaConsoleParameter::AmountMovement(_) => 67,
            ChromaConsoleParameter::AmountDiffusion(_) => 69,
            ChromaConsoleParameter::AmountTexture(_) => 71,
            ChromaConsoleParameter::Sensitivity(_) => 72,
            ChromaConsoleParameter::DriftMovement(_) => 74,
            ChromaConsoleParameter::DriftDiffusion(_) => 76,
            ChromaConsoleParameter::OutputLevel(_) => 78,
            ChromaConsoleParameter::EffectVolCharacter(_) => 73,
            ChromaConsoleParameter::EffectVolMovement(_) => 75,
            ChromaConsoleParameter::EffectVolDiffusion(_) => 77,
            ChromaConsoleParameter::EffectVolTexture(_) => 79,
            ChromaConsoleParameter::CharacterModule(_) => 16,
            ChromaConsoleParameter::MovementModule(_) => 17,
            ChromaConsoleParameter::DiffusionModule(_) => 18,
            ChromaConsoleParameter::TextureModule(_) => 19,
            ChromaConsoleParameter::BypassState(_) => 91,
            ChromaConsoleParameter::CharacterBypass(_) => 103,
            ChromaConsoleParameter::MovementBypass(_) => 104,
            ChromaConsoleParameter::DiffusionBypass(_) => 105,
            ChromaConsoleParameter::TextureBypass(_) => 106,
            ChromaConsoleParameter::GestureMode(_) => 80,
            ChromaConsoleParameter::GestureStop => 81,
            ChromaConsoleParameter::CaptureMode(_) => 82,
            ChromaConsoleParameter::CaptureRouting(_) => 83,
            ChromaConsoleParameter::TapTempo => 93,
            ChromaConsoleParameter::FilterMode(_) => 84,
            ChromaConsoleParameter::CalibrationLevel(_) => 94,
            ChromaConsoleParameter::CalibrationEnter(_) => 95,
        }
    }

    /// The CC value for this parameter.
    pub fn cc_value(&self) -> (r: u8)
        ensures
            r == self.spec_cc_value(),
    {
        match self {
            ChromaConsoleParameter::Tilt(v) => *v,
            ChromaConsoleParameter::Rate(v) => *v,
            ChromaConsoleParameter::Time(v) => *v,
            ChromaConsoleParameter::Mix(v) => *v,
            ChromaConsoleParameter::AmountCharacter(v) => *v,
            ChromaConsoleParameter::AmountMovement(v) => *v,
            ChromaConsoleParameter::AmountDiffusion(v) => *v,
            ChromaConsoleParameter::AmountTexture(v) => *v,
            ChromaConsoleParameter::Sensitivity(v) => *v,
            ChromaConsoleParameter::DriftMovement(v) => *v,
            ChromaConsoleParameter::DriftDiffusion(v) => *v,
            ChromaConsoleParameter::OutputLevel(v) => *v,
            ChromaConsoleParameter::EffectVolCharacter(v) => *v,
            ChromaConsoleParameter::EffectVolMovement(v) => *v,
            ChromaConsoleParameter::EffectVolDiffusion(v) => *v,
            ChromaConsoleParameter::EffectVolTexture(v) => *v,
            ChromaConsoleParameter::CharacterModule(v) => v.to_cc_value(),
            ChromaConsoleParameter::MovementModule(v) => v.to_cc_value(),
            ChromaConsoleParameter::DiffusionModule(v) => v.to_cc_value(),
            ChromaConsoleParameter::TextureModule(v) => v.to_cc_value(),
            ChromaConsoleParameter::BypassState(v) => v.to_cc_value(),
            ChromaConsoleParameter::CharacterBypass(v) => inverted_switch_byte(*v),
            ChromaConsoleParameter::MovementBypass(v) => inverted_switch_byte(*v),
            ChromaConsoleParameter::DiffusionBypass(v) => inverted_switch_byte(*v),
            ChromaConsoleParameter::TextureBypass(v) => inverted_switch_byte(*v),
            ChromaConsoleParameter::GestureMode(v) => v.to_cc_value(),
            ChromaConsoleParameter::GestureStop => 127,
            ChromaConsoleParameter::CaptureMode(v) => v.to_cc_value(),
            ChromaConsoleParameter::CaptureRouting(v) => v.to_cc_value(),
            ChromaConsoleParameter::TapTempo => 127,
            ChromaConsoleParameter::FilterMode(v) => v.to_cc_value(),
            ChromaConsoleParameter::CalibrationLevel(v) => v.to_cc_value(),
            ChromaConsoleParameter::CalibrationEnter(v) => switch_byte(*v),
        }
    }

    /// The `(cc number, byte)` pair that transmits this parameter.
    pub fn to_cc_message(&self) -> (r: Option<(u8, u8)>)
        ensures
            r == Some((self.spec_cc_number(), self.spec_cc_value())),
    {
        Some((self.cc_number(), self.cc_value()))
    }
}

/// The catalogue position of the Chroma Console parameter carried on `cc`, or -1
/// where no parameter uses that number.
pub open spec fn chroma_kind_of_cc(cc: u8) -> int {
    match cc {
        64 => 0,
        66 => 1,
        68 => 2,
        70 => 3,
        65 => 4,
        67 => 5,
        69 => 6,
        71 => 7,
        72 => 8,
        74 => 9,
        76 => 10,
        78 => 11,
        73 => 12,
        75 => 13,
        77 => 14,
        79 => 15,
        16 => 16,
        17 => 17,
        18 => 18,
        19 => 19,
        91 => 20,
        103 => 21,
        104 => 22,
        105 => 23,
        106 => 24,
        80 => 25,
        81 => 26,
        82 => 27,
        83 => 28,
        93 => 29,
        84 => 30,
        94 => 31,
        95 => 32,
        _ => -1,
    }
}

/// Every Chroma Console parameter is carried on a CC number of its own: two
/// parameters that share a CC number are of the same kind.
pub proof fn lemma_chroma_cc_injective(p: ChromaConsoleParameter, q: ChromaConsoleParameter)
    ensures
        chroma_kind_of_cc(p.spec_cc_number()) == p.kind(),
        p.spec_cc_number() == q.spec_cc_number() ==> p.kind() == q.kind(),
{
}

/// Complete shadow state of a Chroma Console.
#[derive(Debug, Clone, Copy, PartialEq, Eq, Structural)]
pub struct ChromaConsoleState {
    /// CC 64.
    pub tilt: u8,
    /// CC 66.
    pub rate: u8,
    /// CC 68.
    pub time: u8,
    /// CC 70.
    pub mix: u8,
    /// CC 65.
    pub amount_character: u8,
    /// CC 67.
    pub amount_movement: u8,
    /// CC 69.
    pub amount_diffusion: u8,
    /// CC 71.
    pub amount_texture: u8,
    /// CC 72.
    pub sensitivity: u8,
    /// CC 74.
    pub drift_movement: u8,
    /// CC 76.
    pub drift_diffusion: u8,
    /// CC 78.
    pub output_level: u8,
    /// CC 73.
    pub effect_vol_character: u8,
    /// CC 75.
    pub effect_vol_movement: u8,
    /// CC 77.
    pub effect_vol_diffusion: u8,
    /// CC 79.
    pub effect_vol_texture: u8,
    /// CC 16.
    pub character_module: CharacterModule,
    /// CC 17.
    pub movement_module: MovementModule,
    /// CC 18.
    pub diffusion_module: DiffusionModule,
    /// CC 19.
    pub texture_module: TextureModule,
    /// CC 91, or CC 92 in dual bypass mode.
    pub bypass_state: BypassState,
    /// CC 103.
    pub character_bypass: bool,
    /// CC 104.
    pub movement_bypass: bool,
    /// CC 105.
    pub diffusion_bypass: bool,
    /// CC 106.
    pub texture_bypass: bool,
    /// CC 80.
    pub gesture_mode: GestureMode,
    /// CC 82.
    pub capture_mode: CaptureMode,
    /// CC 83.
    pub capture_routing: CaptureRouting,
    /// CC 84.
    pub filter_mode: FilterMode,
    /// CC 94.
    pub calibration_level: CalibrationLevel,
}

impl ChromaConsoleState {
    /// The state a device is assumed to be in when it connects.
    pub open spec fn spec_default() -> ChromaConsoleState {
        ChromaConsoleState {
            tilt: 64,
            rate: 64,
            time: 64,
            mix: 64,
            amount_character: 64,
            amount_movement: 64,
            amount_diffusion: 64,
            amount_texture: 64,
            sensitivity: 64,
            drift_movement: 64,
            drift_diffusion: 64,
            output_level: 100,
            effect_vol_character: 100,
            effect_vol_movement: 100,
            effect_vol_diffusion: 100,
            effect_vol_texture: 100,
            character_module: CharacterModule::Off,
            movement_module: MovementModule::Off,
            diffusion_module: DiffusionModule::Off,
            texture_module: TextureModule::Off,
            bypass_state: BypassState::Bypass,
            character_bypass: false,
            movement_bypass: false,
            diffusion_bypass: false,
            texture_bypass: false,
            gesture_mode: GestureMode::Play,
            capture_mode: CaptureMode::Stop,
            capture_routing: CaptureRouting::PostFx,
            filter_mode: FilterMode::Lpf,
            calibration_level: CalibrationLevel::Medium,
        }
    }

    /// This state with one parameter change applied; trigger parameters leave
    /// it unchanged.
    pub open spec fn with_parameter(self, p: ChromaConsoleParameter) -> ChromaConsoleState {
        match p {
            ChromaConsoleParameter::Tilt(v) => ChromaConsoleState { tilt: v, ..self },
            ChromaConsoleParameter::Rate(v) => ChromaConsoleState { rate: v, ..self },
            ChromaConsoleParameter::Time(v) => ChromaConsoleState { time: v, ..self },
            ChromaConsoleParameter::Mix(v) => ChromaConsoleState { mix: v, ..self },
            ChromaConsoleParameter::AmountCharacter(v) => ChromaConsoleState { amount_character: v, ..self },
            ChromaConsoleParameter::AmountMovement(v) => ChromaConsoleState { amount_movement: v, ..self },
            ChromaConsoleParameter::AmountDiffusion(v) => ChromaConsoleState { amount_diffusion: v, ..self },
            ChromaConsoleParameter::AmountTexture(v) => ChromaConsoleState { amount_texture: v, ..self },
            ChromaConsoleParameter::Sensitivity(v) => ChromaConsoleState { sensitivity: v, ..self },
            ChromaConsoleParameter::DriftMovement(v) => ChromaConsoleState { drift_movement: v, ..self },
            ChromaConsoleParameter::DriftDiffusion(v) => ChromaConsoleState { drift_diffusion: v, ..self },
            ChromaConsoleParameter::OutputLevel(v) => ChromaConsoleState { output_level: v, ..self },
            ChromaConsoleParameter::EffectVolCharacter(v) => ChromaConsoleState { effect_vol_character: v, ..self },
            ChromaConsoleParameter::EffectVolMovement(v) => ChromaConsoleState { effect_vol_movement: v, ..self },
            ChromaConsoleParameter::EffectVolDiffusion(v) => ChromaConsoleState { effect_vol_diffusion: v, ..self },
            ChromaConsoleParameter::EffectVolTexture(v) => ChromaConsoleState { effect_vol_texture: v, ..self },
            ChromaConsoleParameter::CharacterModule(v) => ChromaConsoleState { character_module: v, ..self },
            ChromaConsoleParameter::MovementModule(v) => ChromaConsoleState { movement_module: v, ..self },
            ChromaConsoleParameter::DiffusionModule(v) => ChromaConsoleState { diffusion_module: v, ..self },
            ChromaConsoleParameter::TextureModule(v) => ChromaConsoleState { texture_module: v, ..self },
            ChromaConsoleParameter::BypassState(v) => ChromaConsoleState { bypass_state: v, ..self },
            ChromaConsoleParameter::CharacterBypass(v) => ChromaConsoleState { character_bypass: v, ..self },
            ChromaConsoleParameter::MovementBypass(v) => ChromaConsoleState { movement_bypass: v, ..self },
            ChromaConsoleParameter::DiffusionBypass(v) => ChromaConsoleState { diffusion_bypass: v, ..self },
            ChromaConsoleParameter::TextureBypass(v) => ChromaConsoleState { texture_bypass: v, ..self },
            ChromaConsoleParameter::GestureMode(v) => ChromaConsoleState { gesture_mode: v, ..self },
            ChromaConsoleParameter::CaptureMode(v) => ChromaConsoleState { capture_mode: v, ..self },
            ChromaConsoleParameter::CaptureRouting(v) => ChromaConsoleState { capture_routing: v, ..self },
            ChromaConsoleParameter::FilterMode(v) => ChromaConsoleState { filter_mode: v, ..self },
            ChromaConsoleParameter::CalibrationLevel(v) => ChromaConsoleState { calibration_level: v, ..self },
            _ => self,
        }
    }

    /// The CC map that a full recall sends: every stored parameter, the bypass on CC 91.
    pub open spec fn spec_cc_map(self) -> Map<u8, u8> {
        self.cc_entries_c(self.cc_entries_b(self.cc_entries_a(Map::empty())))
    }

    /// `m` with the entries of group a of the recall map added.
    pub open spec fn cc_entries_a(self, m: Map<u8, u8>) -> Map<u8, u8> {
        m
            .insert(CC_TILT, self.tilt)
            .insert(CC_RATE, self.rate)
            .insert(CC_TIME, self.time)
            .insert(CC_MIX, self.mix)
            .insert(CC_AMOUNT_CHARACTER, self.amount_character)
            .insert(CC_AMOUNT_MOVEMENT, self.amount_movement)
            .insert(CC_AMOUNT_DIFFUSION, self.amount_diffusion)
            .insert(CC_AMOUNT_TEXTURE, self.amount_texture)
            .insert(CC_SENSITIVITY, self.sensitivity)
            .insert(CC_DRIFT_MOVEMENT, self.drift_movement)
            .insert(CC_DRIFT_DIFFUSION, self.drift_diffusion)
            .insert(CC_OUTPUT_LEVEL, self.output_level)
            .insert(CC_EFFECT_VOL_CHARACTER, self.effect_vol_character)
            .insert(CC_EFFECT_VOL_MOVEMENT, self.effect_vol_movement)
    }

    fn insert_cc_entries_a(&self, map: &mut HashMap<u8, u8>)
        ensures
            final(map)@ == self.cc_entries_a(old(map)@),
    {
        map.insert(CC_TILT, self.tilt);
        map.insert(CC_RATE, self.rate);
        map.insert(CC_TIME, self.time);
        map.insert(CC_MIX, self.mix);
        map.insert(CC_AMOUNT_CHARACTER, self.amount_character);
        map.insert(CC_AMOUNT_MOVEMENT, self.amount_movement);
        map.insert(CC_AMOUNT_DIFFUSION, self.amount_diffusion);
        map.insert(CC_AMOUNT_TEXTURE, self.amount_texture);
        map.insert(CC_SENSITIVITY, self.sensitivity);
        map.insert(CC_DRIFT_MOVEMENT, self.drift_movement);
        map.insert(CC_DRIFT_DIFFUSION, self.drift_diffusion);
        map.insert(CC_OUTPUT_LEVEL, self.output_level);
        map.insert(CC_EFFECT_VOL_CHARACTER, self.effect_vol_character);
        map.insert(CC_EFFECT_VOL_MOVEMENT, self.effect_vol_movement);
    }

    /// `m` with the entries of group b of the recall map added.
    pub open spec fn cc_entries_b(self, m: Map<u8, u8>) -> Map<u8, u8> {
        m
            .insert(CC_EFFECT_VOL_DIFFUSION, self.effect_vol_diffusion)
            .insert(CC_EFFECT_VOL_TEXTURE, self.effect_vol_texture)
            .insert(CC_CHARACTER_MODULE, self.character_module.spec_cc_value())
            .insert(CC_MOVEMENT_MODULE, self.movement_module.spec_cc_value())
            .insert(CC_DIFFUSION_MODULE, self.diffusion_module.spec_cc_value())
            .insert(CC_TEXTURE_MODULE, self.texture_module.spec_cc_value())
            .insert(CC_STANDARD_BYPASS, self.bypass_state.spec_cc_value())
            .insert(CC_CHARACTER_BYPASS, spec_inverted_switch_byte(self.character_bypass))
            .insert(CC_MOVEMENT_BYPASS, spec_inverted_switch_byte(self.movement_bypass))
            .insert(CC_DIFFUSION_BYPASS, spec_inverted_switch_byte(self.diffusion_bypass))
            .insert(CC_TEXTURE_BYPASS, spec_inverted_switch_byte(self.texture_bypass))
            .insert(CC_GESTURE_PLAY_REC, self.gesture_mode.spec_cc_value())
            .insert(CC_CAPTURE, self.capture_mode.spec_cc_value())
            .insert(CC_CAPTURE_ROUTING, self.capture_routing.spec_cc_value())
    }

    fn insert_cc_entries_b(&self, map: &mut HashMap<u8, u8>)
        ensures
            final(map)@ == self.cc_entries_b(old(map)@),
    {
        map.insert(CC_EFFECT_VOL_DIFFUSION, self.effect_vol_diffusion);
        map.insert(CC_EFFECT_VOL_TEXTURE, self.effect_vol_texture);
        map.insert(CC_CHARACTER_MODULE, self.character_module.to_cc_value());
        map.insert(CC_MOVEMENT_MODULE, self.movement_module.to_cc_value());
        map.insert(CC_DIFFUSION_MODULE, self.diffusion_module.to_cc_value());
        map.insert(CC_TEXTURE_MODULE, self.texture_module.to_cc_value());
        map.insert(CC_STANDARD_BYPASS, self.bypass_state.to_cc_value());
        map.insert(CC_CHARACTER_BYPASS, inverted_switch_byte(self.character_bypass));
        map.insert(CC_MOVEMENT_BYPASS, inverted_switch_byte(self.movement_bypass));
        map.insert(CC_DIFFUSION_BYPASS, inverted_switch_byte(self.diffusion_bypass));
        map.insert(CC_TEXTURE_BYPASS, inverted_switch_byte(self.texture_bypass));
        map.insert(CC_GESTURE_PLAY_REC, self.gesture_mode.to_cc_value());
        map.insert(CC_CAPTURE, self.capture_mode.to_cc_value());
        map.insert(CC_CAPTURE_ROUTING, self.capture_routing.to_cc_value());
    }

    /// `m` with the entries of group c of the recall map added.
    pub open spec fn cc_entries_c(self, m: Map<u8, u8>) -> Map<u8, u8> {
        m
            .insert(CC_FILTER_MODE, self.filter_mode.spec_cc_value())
            .insert(CC_CALIBRATION_LEVEL, self.calibration_level.spec_cc_value())
    }

    fn insert_cc_entries_c(&self, map: &mut HashMap<u8, u8>)
        ensures
            final(map)@ == self.cc_entries_c(old(map)@),
    {
        map.insert(CC_FILTER_MODE, self.filter_mode.to_cc_value());
        map.insert(CC_CALIBRATION_LEVEL, self.calibration_level.to_cc_value());
    }

    /// The `{cc number -> byte}` map that reproduces this state on the device.
    pub fn to_cc_map(&self) -> (r: HashMap<u8, u8>)
        ensures
            r@ == self.spec_cc_map(),
    {
        let mut map: HashMap<u8, u8> = HashMap::new();
        self.insert_cc_entries_a(&mut map);
        self.insert_cc_entries_b(&mut map);
        self.insert_cc_entries_c(&mut map);
        map
    }

    /// This state with one parameter change applied.
    pub fn applied(&self, param: &ChromaConsoleParameter) -> (r: ChromaConsoleState)
        ensures
            r == self.with_parameter(*param),
    {
        match param {
            ChromaConsoleParameter::Tilt(v) => ChromaConsoleState { tilt: *v, ..*self },
            ChromaConsoleParameter::Rate(v) => ChromaConsoleState { rate: *v, ..*self },
            ChromaConsoleParameter::Time(v) => ChromaConsoleState { time: *v, ..*self },
            ChromaConsoleParameter::Mix(v) => ChromaConsoleState { mix: *v, ..*self },
            ChromaConsoleParameter::AmountCharacter(v) => ChromaConsoleState { amount_character: *v, ..*self },
            ChromaConsoleParameter::AmountMovement(v) => ChromaConsoleState { amount_movement: *v, ..*self },
            ChromaConsoleParameter::AmountDiffusion(v) => ChromaConsoleState { amount_diffusion: *v, ..*self },
            ChromaConsoleParameter::AmountTexture(v) => ChromaConsoleState { amount_texture: *v, ..*self },
            ChromaConsoleParameter::Sensitivity(v) => ChromaConsoleState { sensitivity: *v, ..*self },
            ChromaConsoleParameter::DriftMovement(v) => ChromaConsoleState { drift_movement: *v, ..*self },
            ChromaConsoleParameter::DriftDiffusion(v) => ChromaConsoleState { drift_diffusion: *v, ..*self },
            ChromaConsoleParameter::OutputLevel(v) => ChromaConsoleState { output_level: *v, ..*self },
            ChromaConsoleParameter::EffectVolCharacter(v) => ChromaConsoleState { effect_vol_character: *v, ..*self },
            ChromaConsoleParameter::EffectVolMovement(v) => ChromaConsoleState { effect_vol_movement: *v, ..*self },
            ChromaConsoleParameter::EffectVolDiffusion(v) => ChromaConsoleState { effect_vol_diffusion: *v, ..*self },
            ChromaConsoleParameter::EffectVolTexture(v) => ChromaConsoleState { effect_vol_texture: *v, ..*self },
            ChromaConsoleParameter::CharacterModule(v) => ChromaConsoleState { character_module: *v, ..*self },
            ChromaConsoleParameter::MovementModule(v) => ChromaConsoleState { movement_module: *v, ..*self },
            ChromaConsoleParameter::DiffusionModule(v) => ChromaConsoleState { diffusion_module: *v, ..*self },
            ChromaConsoleParameter::TextureModule(v) => ChromaConsoleState { texture_module: *v, ..*self },
            ChromaConsoleParameter::BypassState(v) => ChromaConsoleState { bypass_state: *v, ..*self },
            ChromaConsoleParameter::CharacterBypass(v) => ChromaConsoleState { character_bypass: *v, ..*self },
            ChromaConsoleParameter::MovementBypass(v) => ChromaConsoleState { movement_bypass: *v, ..*self },
            ChromaConsoleParameter::DiffusionBypass(v) => ChromaConsoleState { diffusion_bypass: *v, ..*self },
            ChromaConsoleParameter::TextureBypass(v) => ChromaConsoleState { texture_bypass: *v, ..*self },
            ChromaConsoleParameter::GestureMode(v) => ChromaConsoleState { gesture_mode: *v, ..*self },
            ChromaConsoleParameter::CaptureMode(v) => ChromaConsoleState { capture_mode: *v, ..*self },
            ChromaConsoleParameter::CaptureRouting(v) => ChromaConsoleState { capture_routing: *v, ..*self },
            ChromaConsoleParameter::FilterMode(v) => ChromaConsoleState { filter_mode: *v, ..*self },
            ChromaConsoleParameter::CalibrationLevel(v) => ChromaConsoleState { calibration_level: *v, ..*self },
            _ => *self,
        }
    }
}
impl ChromaConsoleState {
    /// This state after the device reported `value` on `cc`; numbers that no
    /// stored parameter uses leave it unchanged.
    pub open spec fn with_cc(self, cc: u8, value: u8) -> ChromaConsoleState {
        if cc == CC_TILT {
            ChromaConsoleState { tilt: value, ..self }
        } else if cc == CC_RATE {
            ChromaConsoleState { rate: value, ..self }
        } else if cc == CC_TIME {
            ChromaConsoleState { time: value, ..self }
        } else if cc == CC_MIX {
            ChromaConsoleState { mix: value, ..self }
        } else if cc == CC_AMOUNT_CHARACTER {
            ChromaConsoleState { amount_character: value, ..self }
        } else if cc == CC_AMOUNT_MOVEMENT {
            ChromaConsoleState { amount_movement: value, ..self }
        } else if cc == CC_AMOUNT_DIFFUSION {
            ChromaConsoleState { amount_diffusion: value, ..self }
        } else if cc == CC_AMOUNT_TEXTURE {
            ChromaConsoleState { amount_texture: value, ..self }
        } else if cc == CC_SENSITIVITY {
            ChromaConsoleState { sensitivity: value, ..self }
        } else if cc == CC_DRIFT_MOVEMENT {
            ChromaConsoleState { drift_movement: value, ..self }
        } else if cc == CC_DRIFT_DIFFUSION {
            ChromaConsoleState { drift_diffusion: value, ..self }
        } else if cc == CC_OUTPUT_LEVEL {
            ChromaConsoleState { output_level: value, ..self }
        } else if cc == CC_EFFECT_VOL_CHARACTER {
            ChromaConsoleState { effect_vol_character: value, ..self }
        } else if cc == CC_EFFECT_VOL_MOVEMENT {
            ChromaConsoleState { effect_vol_movement: value, ..self }
        } else if cc == CC_EFFECT_VOL_DIFFUSION {
            ChromaConsoleState { effect_vol_diffusion: value, ..self }
        } else if cc == CC_EFFECT_VOL_TEXTURE {
            ChromaConsoleState { effect_vol_texture: value, ..self }
        } else if cc == CC_CHARACTER_MODULE {
            ChromaConsoleState { character_module: CharacterModule::spec_from_cc(value), ..self }
        } else if cc == CC_MOVEMENT_MODULE {
            ChromaConsoleState { movement_module: MovementModule::spec_from_cc(value), ..self }
        } else if cc == CC_DIFFUSION_MODULE {
            ChromaConsoleState { diffusion_module: DiffusionModule::spec_from_cc(value), ..self }
        } else if cc == CC_TEXTURE_MODULE {
            ChromaConsoleState { texture_module: TextureModule::spec_from_cc(value), ..self }
        } else if cc == CC_STANDARD_BYPASS {
            ChromaConsoleState { bypass_state: BypassState::spec_from_standard_cc(value), ..self }
        } else if cc == CC_DUAL_BYPASS {
            ChromaConsoleState { bypass_state: BypassState::spec_from_dual_cc(value), ..self }
        } else if cc == CC_CHARACTER_BYPASS {
            ChromaConsoleState { character_bypass: value < 64, ..self }
        } else if cc == CC_MOVEMENT_BYPASS {
            ChromaConsoleState { movement_bypass: value < 64, ..self }
        } else if cc == CC_DIFFUSION_BYPASS {
            ChromaConsoleState { diffusion_bypass: value < 64, ..self }
        } else if cc == CC_TEXTURE_BYPASS {
            ChromaConsoleState { texture_bypass: value < 64, ..self }
        } else if cc == CC_GESTURE_PLAY_REC {
            ChromaConsoleState { gesture_mode: GestureMode::spec_from_cc(value), ..self }
        } else if cc == CC_CAPTURE {
            ChromaConsoleState { capture_mode: CaptureMode::spec_from_cc(value), ..self }
        } else if cc == CC_CAPTURE_ROUTING {
            ChromaConsoleState { capture_routing: CaptureRouting::spec_from_cc(value), ..self }
        } else if cc == CC_FILTER_MODE {
            ChromaConsoleState { filter_mode: FilterMode::spec_from_cc(value), ..self }
        } else if cc == CC_CALIBRATION_LEVEL {
            ChromaConsoleState { calibration_level: CalibrationLevel::spec_from_cc(value), ..self }
        } else {
            self
        }
    }

    /// Applies a CC message that the device sent; unknown CC numbers are ignored.
    pub fn update_from_cc(&mut self, cc: u8, value: u8)
        ensures
            *final(self) == old(self).with_cc(cc, value),
    {
        let s = *self;
        *self = if cc == CC_TILT {
            ChromaConsoleState { tilt: value, ..s }
        } else if cc == CC_RATE {
            ChromaConsoleState { rate: value, ..s }
        } else if cc == CC_TIME {
            ChromaConsoleState { time: value, ..s }
        } else if cc == CC_MIX {
            ChromaConsoleState { mix: value, ..s }
        } else if cc == CC_AMOUNT_CHARACTER {
            ChromaConsoleState { amount_character: value, ..s }
        } else if cc == CC_AMOUNT_MOVEMENT {
            ChromaConsoleState { amount_movement: value, ..s }
        } else if cc == CC_AMOUNT_DIFFUSION {
            ChromaConsoleState { amount_diffusion: value, ..s }
        } else if cc == CC_AMOUNT_TEXTURE {
            ChromaConsoleState { amount_texture: value, ..s }
        } else if cc == CC_SENSITIVITY {
            ChromaConsoleState { sensitivity: value, ..s }
        } else if cc == CC_DRIFT_MOVEMENT {
            ChromaConsoleState { drift_movement: value, ..s }
        } else if cc == CC_DRIFT_DIFFUSION {
            ChromaConsoleState { drift_diffusion: value, ..s }
        } else if cc == CC_OUTPUT_LEVEL {
            ChromaConsoleState { output_level: value, ..s }
        } else if cc == CC_EFFECT_VOL_CHARACTER {
            ChromaConsoleState { effect_vol_character: value, ..s }
        } else if cc == CC_EFFECT_VOL_MOVEMENT {
            ChromaConsoleState { effect_vol_movement: value, ..s }
        } else if cc == CC_EFFECT_VOL_DIFFUSION {
            ChromaConsoleState { effect_vol_diffusion: value, ..s }
        } else if cc == CC_EFFECT_VOL_TEXTURE {
            ChromaConsoleState { effect_vol_texture: value, ..s }
        } else if cc == CC_CHARACTER_MODULE {
            ChromaConsoleState { character_module: CharacterModule::from_cc_value(value), ..s }
        } else if cc == CC_MOVEMENT_MODULE {
            ChromaConsoleState { movement_module: MovementModule::from_cc_value(value), ..s }
        } else if cc == CC_DIFFUSION_MODULE {
            ChromaConsoleState { diffusion_module: DiffusionModule::from_cc_value(value), ..s }
        } else if cc == CC_TEXTURE_MODULE {
            ChromaConsoleState { texture_module: TextureModule::from_cc_value(value), ..s }
        } else if cc == CC_STANDARD_BYPASS {
            ChromaConsoleState { bypass_state: BypassState::from_standard_cc(value), ..s }
        } else if cc == CC_DUAL_BYPASS {
            ChromaConsoleState { bypass_state: BypassState::from_dual_cc(value), ..s }
        } else if cc == CC_CHARACTER_BYPASS {
            ChromaConsoleState { character_bypass: value < 64, ..s }
        } else if cc == CC_MOVEMENT_BYPASS {
            ChromaConsoleState { movement_bypass: value < 64, ..s }
        } else if cc == CC_DIFFUSION_BYPASS {
            ChromaConsoleState { diffusion_bypass: value < 64, ..s }
        } else if cc == CC_TEXTURE_BYPASS {
            ChromaConsoleState { texture_bypass: value < 64, ..s }
        } else if cc == CC_GESTURE_PLAY_REC {
            ChromaConsoleState { gesture_mode: GestureMode::from_cc_value(value), ..s }
        } else if cc == CC_CAPTURE {
            ChromaConsoleState { capture_mode: CaptureMode::from_cc_value(value), ..s }
        } else if cc == CC_CAPTURE_ROUTING {
            ChromaConsoleState { capture_routing: CaptureRouting::from_cc_value(value), ..s }
        } else if cc == CC_FILTER_MODE {
            ChromaConsoleState { filter_mode: FilterMode::from_cc_value(value), ..s }
        } else if cc == CC_CALIBRATION_LEVEL {
            ChromaConsoleState { calibration_level: CalibrationLevel::from_cc_value(value), ..s }
        } else {
            s
        };
    }
}

/// A stored parameter that the console reports back is read as the value that
/// was sent: decoding the recall byte of a parameter gives the parameter back.
#[verifier::rlimit(100)]
#[verifier::spinoff_prover]
pub proof fn lemma_chroma_recall_decodes(s: ChromaConsoleState, p: ChromaConsoleParameter)
    requires
        p.spec_cc_number() != CC_CALIBRATION_ENTER,
        p.spec_cc_number() != CC_GESTURE_STOP_ERASE,
        p.spec_cc_number() != CC_TAP_TEMPO,
        !(p matches ChromaConsoleParameter::BypassState(BypassState::DualBypass)),
    ensures
        s.with_cc(p.spec_cc_number(), p.spec_cc_value()) == s.with_parameter(p),
{
    match p {
        ChromaConsoleParameter::CharacterModule(m) => lemma_character_module_codec(m, 0),
        ChromaConsoleParameter::MovementModule(m) => lemma_movement_module_codec(m, 0),
        ChromaConsoleParameter::DiffusionModule(m) => lemma_diffusion_module_codec(m, 0),
        ChromaConsoleParameter::TextureModule(m) => lemma_texture_module_codec(m, 0),
        ChromaConsoleParameter::BypassState(b) => lemma_bypass_inverted(b, 0),
        ChromaConsoleParameter::GestureMode(m) => lemma_gesture_mode_codec(m, 0),
        ChromaConsoleParameter::CaptureMode(m) => lemma_capture_mode_codec(m, 0),
        ChromaConsoleParameter::CaptureRouting(m) => lemma_capture_routing_codec(m, 0),
        ChromaConsoleParameter::FilterMode(m) => lemma_filter_mode_codec(m, 0),
        ChromaConsoleParameter::CalibrationLevel(m) => lemma_calibration_level_codec(m, 0),
        _ => {},
    }
}

impl Default for ChromaConsoleState {
    fn default() -> (r: Self)
        ensures
            r == ChromaConsoleState::spec_default(),
    {
        ChromaConsoleState {
            tilt: 64,
            rate: 64,
            time: 64,
            mix: 64,
            amount_character: 64,
            amount_movement: 64,
            amount_diffusion: 64,
            amount_texture: 64,
            sensitivity: 64,
            drift_movement: 64,
            drift_diffusion: 64,
            output_level: 100,
            effect_vol_character: 100,
            effect_vol_movement: 100,
            effect_vol_diffusion: 100,
            effect_vol_texture: 100,
            character_module: CharacterModule::Off,
            movement_module: MovementModule::Off,
            diffusion_module: DiffusionModule::Off,
            texture_module: TextureModule::Off,
            bypass_state: BypassState::Bypass,
            character_bypass: false,
            movement_bypass: false,
            diffusion_bypass: false,
            texture_bypass: false,
            gesture_mode: GestureMode::Play,
            capture_mode: CaptureMode::Stop,
            capture_routing: CaptureRouting::PostFx,
            filter_mode: FilterMode::Lpf,
            calibration_level: CalibrationLevel::Medium,
        }
    }
}

/// A connected Chroma Console: its shadow state and MIDI channel.
#[derive(Debug, Clone, Copy, PartialEq, Eq, Structural)]
pub struct ChromaConsole {
    pub state: ChromaConsoleState,
    pub midi_channel: u8,
}

impl ChromaConsole {
    /// A Chroma Console in its default state.
    pub fn new(midi_channel: u8) -> (r: ChromaConsole)
        ensures
            r.state == ChromaConsoleState::spec_default(),
            r.midi_channel == midi_channel,
    {
        ChromaConsole { state: ChromaConsoleState::default(), midi_channel }
    }

    /// A program change loads a preset on the device itself; the shadow state
    /// keeps what it held until the device reports the new values.
    pub fn load_preset(&mut self, program: u8)
        ensures
            *final(self) == *old(self),
    {
    }

    /// Records a parameter change that was sent to the device; triggers change no stored parameter.
    pub fn update_state(&mut self, param: &ChromaConsoleParameter)
        ensures
            final(self).state == old(self).state.with_parameter(*param),
            final(self).midi_channel == old(self).midi_channel,
    {
        self.state = self.state.applied(param);
    }

    /// The CC map that reproduces the current state.
    pub fn state_as_cc_map(&self) -> (r: HashMap<u8, u8>)
        ensures
            r@ == self.state.spec_cc_map(),
    {
        self.state.to_cc_map()
    }

    /// Name and capabilities of the pedal.
    pub fn metadata(&self) -> (r: PedalMetadata)
        ensures
            r.name@ == "ChromaConsole"@,
            r.manufacturer@ == "Hologram Electronics"@,
            r.supports_editor,
            r.supports_preset_library,
    {
        PedalMetadata {
            name: "ChromaConsole",
            manufacturer: "Hologram Electronics",
            supports_editor: true,
            supports_preset_library: true,
        }
    }

    /// The Chroma Console recalls presets by Program Change.
    pub fn supports_program_change(&self) -> (r: bool)
        ensures
            r,
    {
        true
    }
}

} // verus!
