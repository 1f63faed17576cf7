//! Hologram Microcosm: parameter catalogue, CC codec, effect/program
//! mapping and shadow state.

use crate::codec::{spec_switch_byte, switch_byte};
use crate::error::{MidiError, MidiResult};
use crate::pedals::PedalMetadata;
use std::collections::HashMap;
use vstd::prelude::*;

verus! {

/// Time subdivision (CC 5 and CC 18): six discrete steps sent as 0..=5.
#[derive(Debug, Clone, Copy, PartialEq, Eq, Structural)]
pub enum SubdivisionValue {
    QuarterNote,
    HalfNote,
    Tap,
    Double,
    Quadruple,
    Octuple,
}

impl SubdivisionValue {
    /// The byte sent for this subdivision.
    pub open spec fn spec_cc_value(self) -> u8 {
        match self {
            SubdivisionValue::QuarterNote => 0,
            SubdivisionValue::HalfNote => 1,
            SubdivisionValue::Tap => 2,
            SubdivisionValue::Double => 3,
            SubdivisionValue::Quadruple => 4,
            SubdivisionValue::Octuple => 5,
        }
    }

    /// The subdivision a byte names, if it names one.
    pub open spec fn spec_from_cc(value: u8) -> Option<SubdivisionValue> {
        if value == 0 {
            Some(SubdivisionValue::QuarterNote)
        } else if value == 1 {
            Some(SubdivisionValue::HalfNote)
        } else if value == 2 {
            Some(SubdivisionValue::Tap)
        } else if value == 3 {
            Some(SubdivisionValue::Double)
        } else if value == 4 {
            Some(SubdivisionValue::Quadruple)
        } else if value == 5 {
            Some(SubdivisionValue::Octuple)
        } else {
            None
        }
    }

    /// Encodes the subdivision as a CC byte.
    pub fn to_cc_value(self) -> (r: u8)
        ensures
            r == self.spec_cc_value(),
            r <= 5,
    {
        match self {
            SubdivisionValue::QuarterNote => 0,
            SubdivisionValue::HalfNote => 1,
            SubdivisionValue::Tap => 2,
            SubdivisionValue::Double => 3,
            SubdivisionValue::Quadruple => 4,
            SubdivisionValue::Octuple => 5,
        }
    }

    /// Decodes a CC byte; only 0..=5 name a subdivision.
    pub fn from_cc_value(value: u8) -> (r: MidiResult<SubdivisionValue>)
        ensures
            match r {
                Ok(s) => SubdivisionValue::spec_from_cc(value) == Some(s) && s.spec_cc_value() == value,
                Err(e) => SubdivisionValue::spec_from_cc(value) is None && value > 5 && e.is_invalid_value(value, "0-5"@),
            },
    {
        match value {
            0 => Ok(SubdivisionValue::QuarterNote),
            1 => Ok(SubdivisionValue::HalfNote),
            2 => Ok(SubdivisionValue::Tap),
            3 => Ok(SubdivisionValue::Double),
            4 => Ok(SubdivisionValue::Quadruple),
            5 => Ok(SubdivisionValue::Octuple),
            _ => Err(MidiError::InvalidValue { expected: "0-5".to_owned(), actual: value }),
        }
    }
}


/// Modulation waveform (CC 7), four bands of 32.
#[derive(Debug, Clone, Copy, PartialEq, Eq, Structural)]
pub enum WaveformShape {
    Square,
    Ramp,
    Triangle,
    Saw,
}

impl WaveformShape {
    /// The canonical byte sent for this value.
    pub open spec fn spec_cc_value(self) -> u8 {
        match self {
            WaveformShape::Square => 16,
            WaveformShape::Ramp => 48,
            WaveformShape::Triangle => 80,
            WaveformShape::Saw => 112,
        }
    }

    /// The value that a received byte stands for: each band of bytes decodes
    /// to one value, and the last band takes every byte above it.
    pub open spec fn spec_from_cc(value: u8) -> WaveformShape {
        if value <= 31 {
            WaveformShape::Square
        } else if value <= 63 {
            WaveformShape::Ramp
        } else if value <= 95 {
            WaveformShape::Triangle
        } else {
            WaveformShape::Saw
        }
    }

    /// Lowest byte of the band that decodes to this value.
    pub open spec fn band_low(self) -> u8 {
        match self {
            WaveformShape::Square => 0,
            WaveformShape::Ramp => 32,
            WaveformShape::Triangle => 64,
            WaveformShape::Saw => 96,
        }
    }

    /// Highest byte of the band that decodes to this value.
    pub open spec fn band_high(self) -> u8 {
        match self {
            WaveformShape::Square => 31,
            WaveformShape::Ramp => 63,
            WaveformShape::Triangle => 95,
            WaveformShape::Saw => 255,
        }
    }

    /// Encodes the value as a CC byte.
    pub fn to_cc_value(self) -> (r: u8)
        ensures
            r == self.spec_cc_value(),
            r <= 127,
    {
        match self {
            WaveformShape::Square => 16,
            WaveformShape::Ramp => 48,
            WaveformShape::Triangle => 80,
            WaveformShape::Saw => 112,
        }
    }

    /// Decodes a received CC byte.
    pub fn from_cc_value(value: u8) -> (r: WaveformShape)
        ensures
            r == WaveformShape::spec_from_cc(value),
            r.band_low() <= value <= r.band_high(),
    {
        if value <= 31 {
            WaveformShape::Square
        } else if value <= 63 {
            WaveformShape::Ramp
        } else if value <= 95 {
            WaveformShape::Triangle
        } else {
            WaveformShape::Saw
        }
    }
}

/// Looper playback direction (CC 23), split at 64.
#[derive(Debug, Clone, Copy, PartialEq, Eq, Structural)]
pub enum PlaybackDirection {
    Forward,
    Reverse,
}

impl PlaybackDirection {
    /// The canonical byte sent for this value.
    pub open spec fn spec_cc_value(self) -> u8 {
        match self {
            PlaybackDirection::Forward => 0,
            PlaybackDirection::Reverse => 127,
        }
    }

    /// The value that a received byte stands for: each band of bytes decodes
    /// to one value, and the last band takes every byte above it.
    pub open spec fn spec_from_cc(value: u8) -> PlaybackDirection {
        if value <= 63 {
            PlaybackDirection::Forward
        } else {
            PlaybackDirection::Reverse
        }
    }

    /// Lowest byte of the band that decodes to this value.
    pub open spec fn band_low(self) -> u8 {
        match self {
            PlaybackDirection::Forward => 0,
            PlaybackDirection::Reverse => 64,
        }
    }

    /// Highest byte of the band that decodes to this value.
    pub open spec fn band_high(self) -> u8 {
        match self {
            PlaybackDirection::Forward => 63,
            PlaybackDirection::Reverse => 255,
        }
    }

    /// Encodes the value as a CC byte.
    pub fn to_cc_value(self) -> (r: u8)
        ensures
            r == self.spec_cc_value(),
            r <= 127,
    {
        match self {
            PlaybackDirection::Forward => 0,
            PlaybackDirection::Reverse => 127,
        }
    }

    /// Decodes a received CC byte.
    pub fn from_cc_value(value: u8) -> (r: PlaybackDirection)
        ensures
            r == PlaybackDirection::spec_from_cc(value),
            r.band_low() <= value <= r.band_high(),
    {
        if value <= 63 {
            PlaybackDirection::Forward
        } else {
            PlaybackDirection::Reverse
        }
    }
}

/// Looper signal routing (CC 24), split at 64.
#[derive(Debug, Clone, Copy, PartialEq, Eq, Structural)]
pub enum LooperRouting {
    PostFX,
    PreFX,
}

impl LooperRouting {
    /// The canonical byte sent for this value.
    pub open spec fn spec_cc_value(self) -> u8 {
        match self {
            LooperRouting::PostFX => 0,
            LooperRouting::PreFX => 127,
        }
    }

    /// The value that a received byte stands for: each band of bytes decodes
    /// to one value, and the last band takes every byte above it.
    pub open spec fn spec_from_cc(value: u8) -> LooperRouting {
        if value <= 63 {
            LooperRouting::PostFX
        } else {
            LooperRouting::PreFX
        }
    }

    /// Lowest byte of the band that decodes to this value.
    pub open spec fn band_low(self) -> u8 {
        match self {
            LooperRouting::PostFX => 0,
            LooperRouting::PreFX => 64,
        }
    }

    /// Highest byte of the band that decodes to this value.
    pub open spec fn band_high(self) -> u8 {
        match self {
            LooperRouting::PostFX => 63,
            LooperRouting::PreFX => 255,
        }
    }

    /// Encodes the value as a CC byte.
    pub fn to_cc_value(self) -> (r: u8)
        ensures
            r == self.spec_cc_value(),
            r <= 127,
    {
        match self {
            LooperRouting::PostFX => 0,
            LooperRouting::PreFX => 127,
        }
    }

    /// Decodes a received CC byte.
    pub fn from_cc_value(value: u8) -> (r: LooperRouting)
        ensures
            r == LooperRouting::spec_from_cc(value),
            r.band_low() <= value <= r.band_high(),
    {
        if value <= 63 {
            LooperRouting::PostFX
        } else {
            LooperRouting::PreFX
        }
    }
}

/// Decoding the byte that a value encodes to gives that value back, and the
/// bands of `WaveformShape` cover every byte, each byte lying in the band of what it
/// decodes to.
pub proof fn lemma_waveform_shape_codec(v: WaveformShape, b: u8)
    ensures
        WaveformShape::spec_from_cc(v.spec_cc_value()) == v,
        WaveformShape::spec_from_cc(b).band_low() <= b <= WaveformShape::spec_from_cc(b).band_high(),
{
}

/// Decoding the byte that a value encodes to gives that value back, and the
/// bands of `PlaybackDirection` cover every byte, each byte lying in the band of what it
/// decodes to.
pub proof fn lemma_playback_direction_codec(v: PlaybackDirection, b: u8)
    ensures
        PlaybackDirection::spec_from_cc(v.spec_cc_value()) == v,
        PlaybackDirection::spec_from_cc(b).band_low() <= b <= PlaybackDirection::spec_from_cc(b).band_high(),
{
}

/// Decoding the byte that a value encodes to gives that value back, and the
/// bands of `LooperRouting` cover every byte, each byte lying in the band of what it
/// decodes to.
pub proof fn lemma_looper_routing_codec(v: LooperRouting, b: u8)
    ensures
        LooperRouting::spec_from_cc(v.spec_cc_value()) == v,
        LooperRouting::spec_from_cc(b).band_low() <= b <= LooperRouting::spec_from_cc(b).band_high(),
{
}

/// Every subdivision survives encoding and decoding.
pub proof fn lemma_subdivision_codec(v: SubdivisionValue)
    ensures
        v.spec_cc_value() <= 5,
        forall|w: SubdivisionValue| w.spec_cc_value() == v.spec_cc_value() ==> w == v,
        SubdivisionValue::spec_from_cc(v.spec_cc_value()) == Some(v),
{
}

/// Effect categories, in pedal order.
#[derive(Debug, Clone, Copy, PartialEq, Eq, Structural)]
pub enum EffectCategory {
    MicroLoop,
    Granules,
    MultiDelay,
    MultiPass,
}

/// The effects, grouped by category.
#[derive(Debug, Clone, Copy, PartialEq, Eq, Structural)]
pub enum EffectType {
    Mosaic,
    Sequence,
    Glide,
    Blocks,
    Interrupt,
    Arp,
    Haze,
    Tunnel,
    Strum,
    Pattern,
    Warp,
}

/// One of the four variations of an effect.
#[derive(Debug, Clone, Copy, PartialEq, Eq, Structural)]
pub enum EffectVariation {
    A,
    B,
    C,
    D,
}

impl EffectType {
    /// The category the effect belongs to.
    pub open spec fn spec_category(self) -> EffectCategory {
        match self {
            EffectType::Mosaic | EffectType::Sequence | EffectType::Glide => EffectCategory::MicroLoop,
            EffectType::Haze | EffectType::Tunnel | EffectType::Strum => EffectCategory::Granules,
            EffectType::Blocks | EffectType::Interrupt | EffectType::Arp => EffectCategory::MultiDelay,
            EffectType::Pattern | EffectType::Warp => EffectCategory::MultiPass,
        }
    }

    /// Program number of variation A. The first two banks are labelled the
    /// other way round on the device than in the catalogue, so Blocks/Arp and
    /// Mosaic/Glide are swapped here.
    pub open spec fn spec_base_program(self) -> u8 {
        match self {
            EffectType::Blocks => 8,
            EffectType::Interrupt => 4,
            EffectType::Arp => 0,
            EffectType::Mosaic => 20,
            EffectType::Sequence => 16,
            EffectType::Glide => 12,
            EffectType::Haze => 24,
            EffectType::Tunnel => 28,
            EffectType::Strum => 32,
            EffectType::Pattern => 36,
            EffectType::Warp => 40,
        }
    }

    /// The effect and variation that a program number selects, if any.
    pub open spec fn spec_from_program(program: u8) -> Option<(EffectType, EffectVariation)> {
        let bank = program / 4;
        let effect = if bank == 0 {
            EffectType::Arp
        } else if bank == 1 {
            EffectType::Interrupt
        } else if bank == 2 {
            EffectType::Blocks
        } else if bank == 3 {
            EffectType::Glide
        } else if bank == 4 {
            EffectType::Sequence
        } else if bank == 5 {
            EffectType::Mosaic
        } else if bank == 6 {
            EffectType::Haze
        } else if bank == 7 {
            EffectType::Tunnel
        } else if bank == 8 {
            EffectType::Strum
        } else if bank == 9 {
            EffectType::Pattern
        } else {
            EffectType::Warp
        };
        if program < 44 {
            Some((effect, EffectVariation::spec_from_offset((program % 4) as u8).unwrap()))
        } else {
            None
        }
    }

    /// The category this effect belongs to.
    pub fn category(&self) -> (r: EffectCategory)
        ensures
            r == self.spec_category(),
    {
        match self {
            EffectType::Mosaic | EffectType::Sequence | EffectType::Glide => EffectCategory::MicroLoop,
            EffectType::Haze | EffectType::Tunnel | EffectType::Strum => EffectCategory::Granules,
            EffectType::Blocks | EffectType::Interrupt | EffectType::Arp => EffectCategory::MultiDelay,
            EffectType::Pattern | EffectType::Warp => EffectCategory::MultiPass,
        }
    }

    /// Program number of variation A of this effect.
    pub fn base_program(&self) -> (r: u8)
        ensures
            r == self.spec_base_program(),
            r <= 40,
            r % 4 == 0,
    {
        match self {
            EffectType::Blocks => 8,
            EffectType::Interrupt => 4,
            EffectType::Arp => 0,
            EffectType::Mosaic => 20,
            EffectType::Sequence => 16,
            EffectType::Glide => 12,
            EffectType::Haze => 24,
            EffectType::Tunnel => 28,
            EffectType::Strum => 32,
            EffectType::Pattern => 36,
            EffectType::Warp => 40,
        }
    }

    /// Program number that selects this effect in the given variation.
    pub fn program_number(&self, variation: EffectVariation) -> (r: u8)
        ensures
            r == self.spec_base_program() + variation.spec_offset(),
            r < 44,
    {
        self.base_program() + variation.offset()
    }

    /// The effect and variation that a program number selects; `None` above 43.
    pub fn from_program(program: u8) -> (r: Option<(EffectType, EffectVariation)>)
        ensures
            r == EffectType::spec_from_program(program),
            r is Some <==> program < 44,
    {
        let effect = match program / 4 {
            0 => EffectType::Arp,
            1 => EffectType::Interrupt,
            2 => EffectType::Blocks,
            3 => EffectType::Glide,
            4 => EffectType::Sequence,
            5 => EffectType::Mosaic,
            6 => EffectType::Haze,
            7 => EffectType::Tunnel,
            8 => EffectType::Strum,
            9 => EffectType::Pattern,
            10 => EffectType::Warp,
            _ => {
                return None;
            },
        };
        let variation = EffectVariation::from_offset(program % 4);
        match variation {
            Some(v) => Some((effect, v)),
            None => None,
        }
    }

    /// Human-readable name.
    pub open spec fn spec_name(self) -> Seq<char> {
        match self {
            EffectType::Mosaic => "Mosaic"@,
            EffectType::Sequence => "Seq"@,
            EffectType::Glide => "Glide"@,
            EffectType::Blocks => "Blocks"@,
            EffectType::Interrupt => "Interrupt"@,
            EffectType::Arp => "Arp"@,
            EffectType::Haze => "Haze"@,
            EffectType::Tunnel => "Tunnel"@,
            EffectType::Strum => "Strum"@,
            EffectType::Pattern => "Pattern"@,
            EffectType::Warp => "Warp"@,
        }
    }

    /// Human-readable name.
    pub fn name(&self) -> (r: &'static str)
        ensures
            r@ == self.spec_name(),
    {
        match self {
            EffectType::Mosaic => "Mosaic",
            EffectType::Sequence => "Seq",
            EffectType::Glide => "Glide",
            EffectType::Blocks => "Blocks",
            EffectType::Interrupt => "Interrupt",
            EffectType::Arp => "Arp",
            EffectType::Haze => "Haze",
            EffectType::Tunnel => "Tunnel",
            EffectType::Strum => "Strum",
            EffectType::Pattern => "Pattern",
            EffectType::Warp => "Warp",
        }
    }
}

impl EffectVariation {
    /// Offset of the variation from the effect's base program.
    pub open spec fn spec_offset(self) -> u8 {
        match self {
            EffectVariation::A => 0,
            EffectVariation::B => 1,
            EffectVariation::C => 2,
            EffectVariation::D => 3,
        }
    }

    /// The variation at an offset, if the offset is below 4.
    pub open spec fn spec_from_offset(offset: u8) -> Option<EffectVariation> {
        if offset == 0 {
            Some(EffectVariation::A)
        } else if offset == 1 {
            Some(EffectVariation::B)
        } else if offset == 2 {
            Some(EffectVariation::C)
        } else if offset == 3 {
            Some(EffectVariation::D)
        } else {
            None
        }
    }

    /// Offset of the variation from the effect's base program.
    pub fn offset(&self) -> (r: u8)
        ensures
            r == self.spec_offset(),
            r < 4,
    {
        match self {
            EffectVariation::A => 0,
            EffectVariation::B => 1,
            EffectVariation::C => 2,
            EffectVariation::D => 3,
        }
    }

    /// The variation at an offset; `None` from 4 on.
    pub fn from_offset(offset: u8) -> (r: Option<EffectVariation>)
        ensures
            r == EffectVariation::spec_from_offset(offset),
            r is Some <==> offset < 4,
    {
        match offset {
            0 => Some(EffectVariation::A),
            1 => Some(EffectVariation::B),
            2 => Some(EffectVariation::C),
            3 => Some(EffectVariation::D),
            _ => None,
        }
    }
}

impl EffectCategory {
    /// Label of the category as the device shows it.
    pub open spec fn spec_name(self) -> Seq<char> {
        match self {
            EffectCategory::MicroLoop => "Micro Loop"@,
            EffectCategory::Granules => "Granules"@,
            EffectCategory::MultiDelay => "Glitch"@,
            EffectCategory::MultiPass => "Multi Delay"@,
        }
    }

    /// The effects of the category, in pedal order.
    pub open spec fn spec_effects(self) -> Seq<EffectType> {
        match self {
            EffectCategory::MicroLoop => seq![EffectType::Mosaic, EffectType::Sequence, EffectType::Glide],
            EffectCategory::Granules => seq![EffectType::Haze, EffectType::Tunnel, EffectType::Strum],
            EffectCategory::MultiDelay => seq![EffectType::Blocks, EffectType::Interrupt, EffectType::Arp],
            EffectCategory::MultiPass => seq![EffectType::Pattern, EffectType::Warp],
        }
    }

    /// Label of the category as the device shows it.
    pub fn name(&self) -> (r: &'static str)
        ensures
            r@ == self.spec_name(),
    {
        match self {
            EffectCategory::MicroLoop => "Micro Loop",
            EffectCategory::Granules => "Granules",
            EffectCategory::MultiDelay => "Glitch",
            EffectCategory::MultiPass => "Multi Delay",
        }
    }

    /// The effects of the category, in pedal order.
    pub fn effects(&self) -> (r: Vec<EffectType>)
        ensures
            r@ == self.spec_effects(),
    {
        match self {
            EffectCategory::MicroLoop => vec![EffectType::Mosaic, EffectType::Sequence, EffectType::Glide],
            EffectCategory::Granules => vec![EffectType::Haze, EffectType::Tunnel, EffectType::Strum],
            EffectCategory::MultiDelay => vec![EffectType::Blocks, EffectType::Interrupt, EffectType::Arp],
            EffectCategory::MultiPass => vec![EffectType::Pattern, EffectType::Warp],
        }
    }
}

/// Program numbers and (effect, variation) pairs correspond one to one: every
/// pair has a program below 44 that selects it, and every program below 44
/// selects the pair whose program it is.
pub proof fn lemma_program_round_trip(e: EffectType, v: EffectVariation, program: u8)
    ensures
        EffectType::spec_from_program((e.spec_base_program() + v.spec_offset()) as u8) == Some((e, v)),
        program < 44 ==> ({
            let (e2, v2) = EffectType::spec_from_program(program).unwrap();
            e2.spec_base_program() + v2.spec_offset() == program
        }),
{
}

/// Every effect is listed by its own category.
pub proof fn lemma_category_lists_effect(e: EffectType)
    ensures
        e.spec_category().spec_effects().contains(e),
{
    let s = e.spec_category().spec_effects();
    match e {
        EffectType::Mosaic | EffectType::Haze | EffectType::Blocks | EffectType::Pattern => {
            assert(s[0] == e);
        },
        EffectType::Sequence | EffectType::Tunnel | EffectType::Interrupt | EffectType::Warp => {
            assert(s[1] == e);
        },
        _ => {
            assert(s[2] == e);
        },
    }
}

/// Every Microcosm parameter together with its value.
#[derive(Debug, Clone, Copy, PartialEq, Eq, Structural)]
pub enum MicrocosmParameter {
    Subdivision(SubdivisionValue),
    Time(u8),
    HoldSampler(bool),
    TapTempo,
    Activity(u8),
    Repeats(u8),
    Shape(WaveformShape),
    Frequency(u8),
    Depth(u8),
    Cutoff(u8),
    Resonance(u8),
    Mix(u8),
    Volume(u8),
    ReverseEffect(bool),
    Bypass(bool),
    Space(u8),
    ReverbTime(u8),
    LoopLevel(u8),
    LooperSpeed(u8),
    LooperSpeedStepped(SubdivisionValue),
    FadeTime(u8),
    LooperEnabled(bool),
    PlaybackDirection(PlaybackDirection),
    Routing(LooperRouting),
    LooperOnly(bool),
    BurstMode(bool),
    Quantized(bool),
    LooperRecord,
    LooperPlay,
    LooperOverdub,
    LooperStop,
    LooperErase,
    LooperUndo,
    PresetCopy,
    PresetSave,
}

impl MicrocosmParameter {
    /// The CC number that carries this parameter.
    pub open spec fn spec_cc_number(self) -> u8 {
        match self {
            MicrocosmParameter::Subdivision(_) => 5,
            MicrocosmParameter::Time(_) => 10,
            MicrocosmParameter::HoldSampler(_) => 48,
            MicrocosmParameter::TapTempo => 93,
            MicrocosmParameter::Activity(_) => 6,
            MicrocosmParameter::Repeats(_) => 11,
            MicrocosmParameter::Shape(_) => 7,
            MicrocosmParameter::Frequency(_) => 14,
            MicrocosmParameter::Depth(_) => 19,
            MicrocosmParameter::Cutoff(_) => 8,
            MicrocosmParameter::Resonance(_) => 15,
            MicrocosmParameter::Mix(_) => 9,
            MicrocosmParameter::Volume(_) => 16,
            MicrocosmParameter::ReverseEffect(_) => 47,
            MicrocosmParameter::Bypass(_) => 102,
            MicrocosmParameter::Space(_) => 12,
            MicrocosmParameter::ReverbTime(_) => 20,
            MicrocosmParameter::LoopLevel(_) => 13,
            MicrocosmParameter::LooperSpeed(_) => 17,
            MicrocosmParameter::LooperSpeedStepped(_) => 18,
            MicrocosmParameter::FadeTime(_) => 21,
            MicrocosmParameter::LooperEnabled(_) => 22,
            MicrocosmParameter::PlaybackDirection(_) => 23,
            MicrocosmParameter::Routing(_) => 24,
            MicrocosmParameter::LooperOnly(_) => 25,
            MicrocosmParameter::BurstMode(_) => 26,
            MicrocosmParameter::Quantized(_) => 27,
            MicrocosmParameter::LooperRecord => 28,
            MicrocosmParameter::LooperPlay => 29,
            MicrocosmParameter::LooperOverdub => 30,
            MicrocosmParameter::LooperStop => 31,
            MicrocosmParameter::LooperErase => 34,
            MicrocosmParameter::LooperUndo => 35,
            MicrocosmParameter::PresetCopy => 45,
            MicrocosmParameter::PresetSave => 46,
        }
    }

    /// The CC byte that carries this parameter's value.
    pub open spec fn spec_cc_value(self) -> u8 {
        match self {
            MicrocosmParameter::Subdivision(v) => v.spec_cc_value(),
            MicrocosmParameter::Time(v) => v,
            MicrocosmParameter::HoldSampler(v) => spec_switch_byte(v),
            MicrocosmParameter::TapTempo => 127,
            MicrocosmParameter::Activity(v) => v,
            MicrocosmParameter::Repeats(v) => v,
            MicrocosmParameter::Shape(v) => v.spec_cc_value(),
            MicrocosmParameter::Frequency(v) => v,
            MicrocosmParameter::Depth(v) => v,
            MicrocosmParameter::Cutoff(v) => v,
            MicrocosmParameter::Resonance(v) => v,
            MicrocosmParameter::Mix(v) => v,
            MicrocosmParameter::Volume(v) => v,
            MicrocosmParameter::ReverseEffect(v) => spec_switch_byte(v),
            MicrocosmParameter::Bypass(v) => spec_switch_byte(v),
            MicrocosmParameter::Space(v) => v,
            MicrocosmParameter::ReverbTime(v) => v,
            MicrocosmParameter::LoopLevel(v) => v,
            MicrocosmParameter::LooperSpeed(v) => v,
            MicrocosmParameter::LooperSpeedStepped(v) => v.spec_cc_value(),
            MicrocosmParameter::FadeTime(v) => v,
            MicrocosmParameter::LooperEnabled(v) => spec_switch_byte(v),
            MicrocosmParameter::PlaybackDirection(v) => v.spec_cc_value(),
            MicrocosmParameter::Routing(v) => v.spec_cc_value(),
            MicrocosmParameter::LooperOnly(v) => spec_switch_byte(v),
            MicrocosmParameter::BurstMode(v) => spec_switch_byte(v),
            MicrocosmParameter::Quantized(v) => spec_switch_byte(v),
            MicrocosmParameter::LooperRecord => 127,
            MicrocosmParameter::LooperPlay => 127,
            MicrocosmParameter::LooperOverdub => 127,
            MicrocosmParameter::LooperStop => 127,
            MicrocosmParameter::LooperErase => 127,
            MicrocosmParameter::LooperUndo => 127,
            MicrocosmParameter::PresetCopy => 127,
            MicrocosmParameter::PresetSave => 127,
        }
    }

    /// Position of the parameter's kind in the catalogue, whatever its value.
    pub open spec fn kind(self) -> int {
        match self {
            MicrocosmParameter::Subdivision(_) => 0,
            MicrocosmParameter::Time(_) => 1,
            MicrocosmParameter::HoldSampler(_) => 2,
            MicrocosmParameter::TapTempo => 3,
            MicrocosmParameter::Activity(_) => 4,
            MicrocosmParameter::Repeats(_) => 5,
            MicrocosmParameter::Shape(_) => 6,
            MicrocosmParameter::Frequency(_) => 7,
            MicrocosmParameter::Depth(_) => 8,
            MicrocosmParameter::Cutoff(_) => 9,
            MicrocosmParameter::Resonance(_) => 10,
            MicrocosmParameter::Mix(_) => 11,
            MicrocosmParameter::Volume(_) => 12,
            MicrocosmParameter::ReverseEffect(_) => 13,
            MicrocosmParameter::Bypass(_) => 14,
            MicrocosmParameter::Space(_) => 15,
            MicrocosmParameter::ReverbTime(_) => 16,
            MicrocosmParameter::LoopLevel(_) => 17,
            MicrocosmParameter::LooperSpeed(_) => 18,
            MicrocosmParameter::LooperSpeedStepped(_) => 19,
            MicrocosmParameter::FadeTime(_) => 20,
            MicrocosmParameter::LooperEnabled(_) => 21,
            MicrocosmParameter::PlaybackDirection(_) => 22,
            MicrocosmParameter::Routing(_) => 23,
            MicrocosmParameter::LooperOnly(_) => 24,
            MicrocosmParameter::BurstMode(_) => 25,
            MicrocosmParameter::Quantized(_) => 26,
            MicrocosmParameter::LooperRecord => 27,
            MicrocosmParameter::LooperPlay => 28,
            MicrocosmParameter::LooperOverdub => 29,
            MicrocosmParameter::LooperStop => 30,
            MicrocosmParameter::LooperErase => 31,
            MicrocosmParameter::LooperUndo => 32,
            MicrocosmParameter::PresetCopy => 33,
            MicrocosmParameter::PresetSave => 34,
        }
    }

    /// The CC number for this parameter.
    pub fn cc_number(&self) -> (r: u8)
        ensures
            r == self.spec_cc_number(),
    {
        match self {
            MicrocosmParameter::Subdivision(_) => 5,
            MicrocosmParameter::Time(_) => 10,
            MicrocosmParameter::HoldSampler(_) => 48,
            MicrocosmParameter::TapTempo => 93,
            MicrocosmParameter::Activity(_) => 6,
            MicrocosmParameter::Repeats(_) => 11,
            MicrocosmParameter::Shape(_) => 7,
            MicrocosmParameter::Frequency(_) => 14,
            MicrocosmParameter::Depth(_) => 19,
            MicrocosmParameter::Cutoff(_) => 8,
            MicrocosmParameter::Resonance(_) => 15,
            MicrocosmParameter::Mix(_) => 9,
            MicrocosmParameter::Volume(_) => 16,
            MicrocosmParameter::ReverseEffect(_) => 47,
            MicrocosmParameter::Bypass(_) => 102,
            MicrocosmParameter::Space(_) => 12,
            MicrocosmParameter::ReverbTime(_) => 20,
            MicrocosmParameter::LoopLevel(_) => 13,
            MicrocosmParameter::LooperSpeed(_) => 17,
            MicrocosmParameter::LooperSpeedStepped(_) => 18,
            MicrocosmParameter::FadeTime(_) => 21,
            MicrocosmParameter::LooperEnabled(_) => 22,
            MicrocosmParameter::PlaybackDirection(_) => 23,
            MicrocosmParameter::Routing(_) => 24,
            MicrocosmParameter::LooperOnly(_) => 25,
            MicrocosmParameter::BurstMode(_) => 26,
            MicrocosmParameter::Quantized(_) => 27,
            MicrocosmParameter::LooperRecord => 28,
            MicrocosmParameter::LooperPlay => 29,
            MicrocosmParameter::LooperOverdub => 30,
            MicrocosmParameter::LooperStop => 31,
            MicrocosmParameter::LooperErase => 34,
            MicrocosmParameter::LooperUndo => 35,
            MicrocosmParameter::PresetCopy => 45,
            MicrocosmParameter::PresetSave => 46,
        }
    }

    /// The CC value for this parameter.
    pub fn cc_value(&self) -> (r: u8)
        ensures
            r == self.spec_cc_value(),
    {
        match self {
            MicrocosmParameter::Subdivision(v) => v.to_cc_value(),
            MicrocosmParameter::Time(v) => *v,
            MicrocosmParameter::HoldSampler(v) => switch_byte(*v),
            MicrocosmParameter::TapTempo => 127,
            MicrocosmParameter::Activity(v) => *v,
            MicrocosmParameter::Repeats(v) => *v,
            MicrocosmParameter::Shape(v) => v.to_cc_value(),
            MicrocosmParameter::Frequency(v) => *v,
            MicrocosmParameter::Depth(v) => *v,
            MicrocosmParameter::Cutoff(v) => *v,
            MicrocosmParameter::Resonance(v) => *v,
            MicrocosmParameter::Mix(v) => *v,
            MicrocosmParameter::Volume(v) => *v,
            MicrocosmParameter::ReverseEffect(v) => switch_byte(*v),
            MicrocosmParameter::Bypass(v) => switch_byte(*v),
            MicrocosmParameter::Space(v) => *v,
            MicrocosmParameter::ReverbTime(v) => *v,
            MicrocosmParameter::LoopLevel(v) => *v,
            MicrocosmParameter::LooperSpeed(v) => *v,
            MicrocosmParameter::LooperSpeedStepped(v) => v.to_cc_value(),
            MicrocosmParameter::FadeTime(v) => *v,
            MicrocosmParameter::LooperEnabled(v) => switch_byte(*v),
            MicrocosmParameter::PlaybackDirection(v) => v.to_cc_value(),
            MicrocosmParameter::Routing(v) => v.to_cc_value(),
            MicrocosmParameter::LooperOnly(v) => switch_byte(*v),
            MicrocosmParameter::BurstMode(v) => switch_byte(*v),
            MicrocosmParameter::Quantized(v) => switch_byte(*v),
            MicrocosmParameter::LooperRecord => 127,
            MicrocosmParameter::LooperPlay => 127,
            MicrocosmParameter::LooperOverdub => 127,
            MicrocosmParameter::LooperStop => 127,
            MicrocosmParameter::LooperErase => 127,
            MicrocosmParameter::LooperUndo => 127,
            MicrocosmParameter::PresetCopy => 127,
            MicrocosmParameter::PresetSave => 127,
        }
    }

    /// Human-readable name of the parameter.
    pub open spec fn spec_name(self) -> Seq<char> {
        match self {
            MicrocosmParameter::Subdivision(_) => "Subdivision"@,
            MicrocosmParameter::Time(_) => "Time"@,
            MicrocosmParameter::HoldSampler(_) => "Hold Sampler"@,
            MicrocosmParameter::TapTempo => "Tap Tempo"@,
            MicrocosmParameter::Activity(_) => "Activity"@,
            MicrocosmParameter::Repeats(_) => "Repeats"@,
            MicrocosmParameter::Shape(_) => "Shape"@,
            MicrocosmParameter::Frequency(_) => "Frequency"@,
            MicrocosmParameter::Depth(_) => "Depth"@,
            MicrocosmParameter::Cutoff(_) => "Cutoff"@,
            MicrocosmParameter::Resonance(_) => "Resonance"@,
            MicrocosmParameter::Mix(_) => "Mix"@,
            MicrocosmParameter::Volume(_) => "Volume"@,
            MicrocosmParameter::ReverseEffect(_) => "Reverse Effect"@,
            MicrocosmParameter::Bypass(_) => "Bypass"@,
            MicrocosmParameter::Space(_) => "Space"@,
            MicrocosmParameter::ReverbTime(_) => "Reverb Time"@,
            MicrocosmParameter::LoopLevel(_) => "Loop Level"@,
            MicrocosmParameter::LooperSpeed(_) => "Looper Speed"@,
            MicrocosmParameter::LooperSpeedStepped(_) => "Looper Speed (Stepped)"@,
            MicrocosmParameter::FadeTime(_) => "Fade Time"@,
            MicrocosmParameter::LooperEnabled(_) => "Looper Enabled"@,
            MicrocosmParameter::PlaybackDirection(_) => "Playback Direction"@,
            MicrocosmParameter::Routing(_) => "Routing"@,
            MicrocosmParameter::LooperOnly(_) => "Looper Only"@,
            MicrocosmParameter::BurstMode(_) => "Burst Mode"@,
            MicrocosmParameter::Quantized(_) => "Quantized"@,
            MicrocosmParameter::LooperRecord => "Looper Record"@,
            MicrocosmParameter::LooperPlay => "Looper Play"@,
            MicrocosmParameter::LooperOverdub => "Looper Overdub"@,
            MicrocosmParameter::LooperStop => "Looper Stop"@,
            MicrocosmParameter::LooperErase => "Looper Erase"@,
            MicrocosmParameter::LooperUndo => "Looper Undo"@,
            MicrocosmParameter::PresetCopy => "Preset Copy"@,
            MicrocosmParameter::PresetSave => "Preset Save"@,
        }
    }

    /// Human-readable name of the parameter.
    pub fn name(&self) -> (r: &'static str)
        ensures
            r@ == self.spec_name(),
    {
        match self {
            MicrocosmParameter::Subdivision(_) => "Subdivision",
            MicrocosmParameter::Time(_) => "Time",
            MicrocosmParameter::HoldSampler(_) => "Hold Sampler",
            MicrocosmParameter::TapTempo => "Tap Tempo",
            MicrocosmParameter::Activity(_) => "Activity",
            MicrocosmParameter::Repeats(_) => "Repeats",
            MicrocosmParameter::Shape(_) => "Shape",
            MicrocosmParameter::Frequency(_) => "Frequency",
            MicrocosmParameter::Depth(_) => "Depth",
            MicrocosmParameter::Cutoff(_) => "Cutoff",
            MicrocosmParameter::Resonance(_) => "Resonance",
            MicrocosmParameter::Mix(_) => "Mix",
            MicrocosmParameter::Volume(_) => "Volume",
            MicrocosmParameter::ReverseEffect(_) => "Reverse Effect",
            MicrocosmParameter::Bypass(_) => "Bypass",
            MicrocosmParameter::Space(_) => "Space",
            MicrocosmParameter::ReverbTime(_) => "Reverb Time",
            MicrocosmParameter::LoopLevel(_) => "Loop Level",
            MicrocosmParameter::LooperSpeed(_) => "Looper Speed",
            MicrocosmParameter::LooperSpeedStepped(_) => "Looper Speed (Stepped)",
            MicrocosmParameter::FadeTime(_) => "Fade Time",
            MicrocosmParameter::LooperEnabled(_) => "Looper Enabled",
            MicrocosmParameter::PlaybackDirection(_) => "Playback Direction",
            MicrocosmParameter::Routing(_) => "Routing",
            MicrocosmParameter::LooperOnly(_) => "Looper Only",
            MicrocosmParameter::BurstMode(_) => "Burst Mode",
            MicrocosmParameter::Quantized(_) => "Quantized",
            MicrocosmParameter::LooperRecord => "Looper Record",
            MicrocosmParameter::LooperPlay => "Looper Play",
            MicrocosmParameter::LooperOverdub => "Looper Overdub",
            MicrocosmParameter::LooperStop => "Looper Stop",
            MicrocosmParameter::LooperErase => "Looper Erase",
            MicrocosmParameter::LooperUndo => "Looper Undo",
            MicrocosmParameter::PresetCopy => "Preset Copy",
            MicrocosmParameter::PresetSave => "Preset Save",
        }
    }
}

/// The catalogue position of the Microcosm parameter carried on `cc`, or -1
/// where no parameter uses that number.
pub open spec fn microcosm_kind_of_cc(cc: u8) -> int {
    match cc {
        5 => 0,
        10 => 1,
        48 => 2,
        93 => 3,
        6 => 4,
        11 => 5,
        7 => 6,
        14 => 7,
        19 => 8,
        8 => 9,
        15 => 10,
        9 => 11,
        16 => 12,
        47 => 13,
        102 => 14,
        12 => 15,
        20 => 16,
        13 => 17,
        17 => 18,
        18 => 19,
        21 => 20,
        22 => 21,
        23 => 22,
        24 => 23,
        25 => 24,
        26 => 25,
        27 => 26,
        28 => 27,
        29 => 28,
        30 => 29,
        31 => 30,
        34 => 31,
        35 => 32,
        45 => 33,
        46 => 34,
        _ => -1,
    }
}

/// Every Microcosm parameter is carried on a CC number of its own: two
/// parameters that share a CC number are of the same kind.
pub proof fn lemma_microcosm_cc_injective(p: MicrocosmParameter, q: MicrocosmParameter)
    ensures
        microcosm_kind_of_cc(p.spec_cc_number()) == p.kind(),
        p.spec_cc_number() == q.spec_cc_number() ==> p.kind() == q.kind(),
{
}

/// Complete shadow state of a Microcosm.
#[derive(Debug, Clone, Copy, PartialEq, Eq, Structural)]
pub struct MicrocosmState {
    /// Selected effect.
    pub current_effect: EffectType,
    /// Selected variation of the effect.
    pub current_variation: EffectVariation,
    /// CC 5.
    pub subdivision: SubdivisionValue,
    /// CC 10.
    pub time: u8,
    /// CC 48.
    pub hold_sampler: bool,
    /// CC 6.
    pub activity: u8,
    /// CC 11.
    pub repeats: u8,
    /// CC 7.
    pub shape: WaveformShape,
    /// CC 14.
    pub frequency: u8,
    /// CC 19.
    pub depth: u8,
    /// CC 8.
    pub cutoff: u8,
    /// CC 15.
    pub resonance: u8,
    /// CC 9.
    pub mix: u8,
    /// CC 16.
    pub volume: u8,
    /// CC 47.
    pub reverse_effect: bool,
    /// CC 102.
    pub bypass: bool,
    /// CC 12.
    pub space: u8,
    /// CC 20.
    pub reverb_time: u8,
    /// CC 13.
    pub loop_level: u8,
    /// CC 17.
    pub looper_speed: u8,
    /// CC 18.
    pub looper_speed_stepped: SubdivisionValue,
    /// CC 21.
    pub fade_time: u8,
    /// CC 22.
    pub looper_enabled: bool,
    /// CC 23.
    pub playback_direction: PlaybackDirection,
    /// CC 24.
    pub routing: LooperRouting,
    /// CC 25.
    pub looper_only: bool,
    /// CC 26.
    pub burst_mode: bool,
    /// CC 27.
    pub quantized: bool,
}

impl MicrocosmState {
    /// The state a device is assumed to be in when it connects.
    pub open spec fn spec_default() -> MicrocosmState {
        MicrocosmState {
            current_effect: EffectType::Mosaic,
            current_variation: EffectVariation::A,
            subdivision: SubdivisionValue::QuarterNote,
            time: 64,
            hold_sampler: false,
            activity: 64,
            repeats: 64,
            shape: WaveformShape::Square,
            frequency: 64,
            depth: 64,
            cutoff: 127,
            resonance: 0,
            mix: 64,
            volume: 100,
            reverse_effect: false,
            bypass: false,
            space: 0,
            reverb_time: 0,
            loop_level: 100,
            looper_speed: 64,
            looper_speed_stepped: SubdivisionValue::QuarterNote,
            fade_time: 64,
            looper_enabled: false,
            playback_direction: PlaybackDirection::Forward,
            routing: LooperRouting::PostFX,
            looper_only: false,
            burst_mode: false,
            quantized: false,
        }
    }

    /// This state with one parameter change applied; trigger parameters leave
    /// it unchanged.
    pub open spec fn with_parameter(self, p: MicrocosmParameter) -> MicrocosmState {
        match p {
            MicrocosmParameter::Subdivision(v) => MicrocosmState { subdivision: v, ..self },
            MicrocosmParameter::Time(v) => MicrocosmState { time: v, ..self },
            MicrocosmParameter::HoldSampler(v) => MicrocosmState { hold_sampler: v, ..self },
            MicrocosmParameter::Activity(v) => MicrocosmState { activity: v, ..self },
            MicrocosmParameter::Repeats(v) => MicrocosmState { repeats: v, ..self },
            MicrocosmParameter::Shape(v) => MicrocosmState { shape: v, ..self },
            MicrocosmParameter::Frequency(v) => MicrocosmState { frequency: v, ..self },
            MicrocosmParameter::Depth(v) => MicrocosmState { depth: v, ..self },
            MicrocosmParameter::Cutoff(v) => MicrocosmState { cutoff: v, ..self },
            MicrocosmParameter::Resonance(v) => MicrocosmState { resonance: v, ..self },
            MicrocosmParameter::Mix(v) => MicrocosmState { mix: v, ..self },
            MicrocosmParameter::Volume(v) => MicrocosmState { volume: v, ..self },
            MicrocosmParameter::ReverseEffect(v) => MicrocosmState { reverse_effect: v, ..self },
            MicrocosmParameter::Bypass(v) => MicrocosmState { bypass: v, ..self },
            MicrocosmParameter::Space(v) => MicrocosmState { space: v, ..self },
            MicrocosmParameter::ReverbTime(v) => MicrocosmState { reverb_time: v, ..self },
            MicrocosmParameter::LoopLevel(v) => MicrocosmState { loop_level: v, ..self },
            MicrocosmParameter::LooperSpeed(v) => MicrocosmState { looper_speed: v, ..self },
            MicrocosmParameter::LooperSpeedStepped(v) => MicrocosmState { looper_speed_stepped: v, ..self },
            MicrocosmParameter::FadeTime(v) => MicrocosmState { fade_time: v, ..self },
            MicrocosmParameter::LooperEnabled(v) => MicrocosmState { looper_enabled: v, ..self },
            MicrocosmParameter::PlaybackDirection(v) => MicrocosmState { playback_direction: v, ..self },
            MicrocosmParameter::Routing(v) => MicrocosmState { routing: v, ..self },
            MicrocosmParameter::LooperOnly(v) => MicrocosmState { looper_only: v, ..self },
            MicrocosmParameter::BurstMode(v) => MicrocosmState { burst_mode: v, ..self },
            MicrocosmParameter::Quantized(v) => MicrocosmState { quantized: v, ..self },
            _ => self,
        }
    }

    /// The CC map that a full recall sends: every stored parameter, no trigger.
    pub open spec fn spec_cc_map(self) -> Map<u8, u8> {
        map![
            5 => self.subdivision.spec_cc_value(),
            10 => self.time,
            48 => spec_switch_byte(self.hold_sampler),
            6 => self.activity,
            11 => self.repeats,
            7 => self.shape.spec_cc_value(),
            14 => self.frequency,
            19 => self.depth,
            8 => self.cutoff,
            15 => self.resonance,
            9 => self.mix,
            16 => self.volume,
            47 => spec_switch_byte(self.reverse_effect),
            102 => spec_switch_byte(self.bypass),
            12 => self.space,
            20 => self.reverb_time,
            13 => self.loop_level,
            17 => self.looper_speed,
            18 => self.looper_speed_stepped.spec_cc_value(),
            21 => self.fade_time,
            22 => spec_switch_byte(self.looper_enabled),
            23 => self.playback_direction.spec_cc_value(),
            24 => self.routing.spec_cc_value(),
            25 => spec_switch_byte(self.looper_only),
            26 => spec_switch_byte(self.burst_mode),
            27 => spec_switch_byte(self.quantized),
        ]
    }

    /// The `{cc number -> byte}` map that reproduces this state on the device.
    pub fn to_cc_map(&self) -> (r: HashMap<u8, u8>)
        ensures
            r@ == self.spec_cc_map(),
    {
        let mut map: HashMap<u8, u8> = HashMap::new();
        map.insert(5, self.subdivision.to_cc_value());
        map.insert(10, self.time);
        map.insert(48, switch_byte(self.hold_sampler));
        map.insert(6, self.activity);
        map.insert(11, self.repeats);
        map.insert(7, self.shape.to_cc_value());
        map.insert(14, self.frequency);
        map.insert(19, self.depth);
        map.insert(8, self.cutoff);
        map.insert(15, self.resonance);
        map.insert(9, self.mix);
        map.insert(16, self.volume);
        map.insert(47, switch_byte(self.reverse_effect));
        map.insert(102, switch_byte(self.bypass));
        map.insert(12, self.space);
        map.insert(20, self.reverb_time);
        map.insert(13, self.loop_level);
        map.insert(17, self.looper_speed);
        map.insert(18, self.looper_speed_stepped.to_cc_value());
        map.insert(21, self.fade_time);
        map.insert(22, switch_byte(self.looper_enabled));
        map.insert(23, self.playback_direction.to_cc_value());
        map.insert(24, self.routing.to_cc_value());
        map.insert(25, switch_byte(self.looper_only));
        map.insert(26, switch_byte(self.burst_mode));
        map.insert(27, switch_byte(self.quantized));
        map
    }

    /// This state with one parameter change applied.
    pub fn applied(&self, param: &MicrocosmParameter) -> (r: MicrocosmState)
        ensures
            r == self.with_parameter(*param),
    {
        match param {
            MicrocosmParameter::Subdivision(v) => MicrocosmState { subdivision: *v, ..*self },
            MicrocosmParameter::Time(v) => MicrocosmState { time: *v, ..*self },
            MicrocosmParameter::HoldSampler(v) => MicrocosmState { hold_sampler: *v, ..*self },
            MicrocosmParameter::Activity(v) => MicrocosmState { activity: *v, ..*self },
            MicrocosmParameter::Repeats(v) => MicrocosmState { repeats: *v, ..*self },
            MicrocosmParameter::Shape(v) => MicrocosmState { shape: *v, ..*self },
            MicrocosmParameter::Frequency(v) => MicrocosmState { frequency: *v, ..*self },
            MicrocosmParameter::Depth(v) => MicrocosmState { depth: *v, ..*self },
            MicrocosmParameter::Cutoff(v) => MicrocosmState { cutoff: *v, ..*self },
            MicrocosmParameter::Resonance(v) => MicrocosmState { resonance: *v, ..*self },
            MicrocosmParameter::Mix(v) => MicrocosmState { mix: *v, ..*self },
            MicrocosmParameter::Volume(v) => MicrocosmState { volume: *v, ..*self },
            MicrocosmParameter::ReverseEffect(v) => MicrocosmState { reverse_effect: *v, ..*self },
            MicrocosmParameter::Bypass(v) => MicrocosmState { bypass: *v, ..*self },
            MicrocosmParameter::Space(v) => MicrocosmState { space: *v, ..*self },
            MicrocosmParameter::ReverbTime(v) => MicrocosmState { reverb_time: *v, ..*self },
            MicrocosmParameter::LoopLevel(v) => MicrocosmState { loop_level: *v, ..*self },
            MicrocosmParameter::LooperSpeed(v) => MicrocosmState { looper_speed: *v, ..*self },
            MicrocosmParameter::LooperSpeedStepped(v) => MicrocosmState { looper_speed_stepped: *v, ..*self },
            MicrocosmParameter::FadeTime(v) => MicrocosmState { fade_time: *v, ..*self },
            MicrocosmParameter::LooperEnabled(v) => MicrocosmState { looper_enabled: *v, ..*self },
            MicrocosmParameter::PlaybackDirection(v) => MicrocosmState { playback_direction: *v, ..*self },
            MicrocosmParameter::Routing(v) => MicrocosmState { routing: *v, ..*self },
            MicrocosmParameter::LooperOnly(v) => MicrocosmState { looper_only: *v, ..*self },
            MicrocosmParameter::BurstMode(v) => MicrocosmState { burst_mode: *v, ..*self },
            MicrocosmParameter::Quantized(v) => MicrocosmState { quantized: *v, ..*self },
            _ => *self,
        }
    }
}
impl MicrocosmParameter {
    /// The parameter is kept in the shadow state (it is no trigger).
    pub open spec fn is_stored(self) -> bool {
        match self {
            MicrocosmParameter::Subdivision(_)
            | MicrocosmParameter::Time(_)
            | MicrocosmParameter::HoldSampler(_)
            | MicrocosmParameter::Activity(_)
            | MicrocosmParameter::Repeats(_)
            | MicrocosmParameter::Shape(_)
            | MicrocosmParameter::Frequency(_)
            | MicrocosmParameter::Depth(_)
            | MicrocosmParameter::Cutoff(_)
            | MicrocosmParameter::Resonance(_)
            | MicrocosmParameter::Mix(_)
            | MicrocosmParameter::Volume(_)
            | MicrocosmParameter::ReverseEffect(_)
            | MicrocosmParameter::Bypass(_)
            | MicrocosmParameter::Space(_)
            | MicrocosmParameter::ReverbTime(_)
            | MicrocosmParameter::LoopLevel(_)
            | MicrocosmParameter::LooperSpeed(_)
            | MicrocosmParameter::LooperSpeedStepped(_)
            | MicrocosmParameter::FadeTime(_)
            | MicrocosmParameter::LooperEnabled(_)
            | MicrocosmParameter::PlaybackDirection(_)
            | MicrocosmParameter::Routing(_)
            | MicrocosmParameter::LooperOnly(_)
            | MicrocosmParameter::BurstMode(_)
            | MicrocosmParameter::Quantized(_) => true,
            _ => false,
        }
    }
}

impl MicrocosmState {
    /// This state after the device reported `value` on `cc`: switches read as
    /// on from 64 up, selectors decode by their bands, and a byte that names
    /// no value of an exact selector, or a number that no stored parameter
    /// uses, leaves the state unchanged.
    pub open spec fn with_cc(self, cc: u8, value: u8) -> MicrocosmState {
        if cc == 5 {
            match SubdivisionValue::spec_from_cc(value) {
                Some(x) => MicrocosmState { subdivision: x, ..self },
                None => self,
            }
        } else if cc == 10 {
            MicrocosmState { time: value, ..self }
        } else if cc == 48 {
            MicrocosmState { hold_sampler: value >= 64, ..self }
        } else if cc == 6 {
            MicrocosmState { activity: value, ..self }
        } else if cc == 11 {
            MicrocosmState { repeats: value, ..self }
        } else if cc == 7 {
            MicrocosmState { shape: WaveformShape::spec_from_cc(value), ..self }
        } else if cc == 14 {
            MicrocosmState { frequency: value, ..self }
        } else if cc == 19 {
            MicrocosmState { depth: value, ..self }
        } else if cc == 8 {
            MicrocosmState { cutoff: value, ..self }
        } else if cc == 15 {
            MicrocosmState { resonance: value, ..self }
        } else if cc == 9 {
            MicrocosmState { mix: value, ..self }
        } else if cc == 16 {
            MicrocosmState { volume: value, ..self }
        } else if cc == 47 {
            MicrocosmState { reverse_effect: value >= 64, ..self }
        } else if cc == 102 {
            MicrocosmState { bypass: value >= 64, ..self }
        } else if cc == 12 {
            MicrocosmState { space: value, ..self }
        } else if cc == 20 {
            MicrocosmState { reverb_time: value, ..self }
        } else if cc == 13 {
            MicrocosmState { loop_level: value, ..self }
        } else if cc == 17 {
            MicrocosmState { looper_speed: value, ..self }
        } else if cc == 18 {
            match SubdivisionValue::spec_from_cc(value) {
                Some(x) => MicrocosmState { looper_speed_stepped: x, ..self },
                None => self,
            }
        } else if cc == 21 {
            MicrocosmState { fade_time: value, ..self }
        } else if cc == 22 {
            MicrocosmState { looper_enabled: value >= 64, ..self }
        } else if cc == 23 {
            MicrocosmState { playback_direction: PlaybackDirection::spec_from_cc(value), ..self }
        } else if cc == 24 {
            MicrocosmState { routing: LooperRouting::spec_from_cc(value), ..self }
        } else if cc == 25 {
            MicrocosmState { looper_only: value >= 64, ..self }
        } else if cc == 26 {
            MicrocosmState { burst_mode: value >= 64, ..self }
        } else if cc == 27 {
            MicrocosmState { quantized: value >= 64, ..self }
        } else {
            self
        }
    }

    fn decoded(&self, cc: u8, value: u8) -> (r: MicrocosmState)
        ensures
            r == self.with_cc(cc, value),
    {
        if cc == 5 {
            match SubdivisionValue::from_cc_value(value) {
                Ok(x) => MicrocosmState { subdivision: x, ..*self },
                Err(_) => *self,
            }
        } else if cc == 10 {
            MicrocosmState { time: value, ..*self }
        } else if cc == 48 {
            MicrocosmState { hold_sampler: value >= 64, ..*self }
        } else if cc == 6 {
            MicrocosmState { activity: value, ..*self }
        } else if cc == 11 {
            MicrocosmState { repeats: value, ..*self }
        } else if cc == 7 {
            MicrocosmState { shape: WaveformShape::from_cc_value(value), ..*self }
        } else if cc == 14 {
            MicrocosmState { frequency: value, ..*self }
        } else if cc == 19 {
            MicrocosmState { depth: value, ..*self }
        } else if cc == 8 {
            MicrocosmState { cutoff: value, ..*self }
        } else if cc == 15 {
            MicrocosmState { resonance: value, ..*self }
        } else if cc == 9 {
            MicrocosmState { mix: value, ..*self }
        } else if cc == 16 {
            MicrocosmState { volume: value, ..*self }
        } else if cc == 47 {
            MicrocosmState { reverse_effect: value >= 64, ..*self }
        } else if cc == 102 {
            MicrocosmState { bypass: value >= 64, ..*self }
        } else if cc == 12 {
            MicrocosmState { space: value, ..*self }
        } else if cc == 20 {
            MicrocosmState { reverb_time: value, ..*self }
        } else if cc == 13 {
            MicrocosmState { loop_level: value, ..*self }
        } else if cc == 17 {
            MicrocosmState { looper_speed: value, ..*self }
        } else if cc == 18 {
            match SubdivisionValue::from_cc_value(value) {
                Ok(x) => MicrocosmState { looper_speed_stepped: x, ..*self },
                Err(_) => *self,
            }
        } else if cc == 21 {
            MicrocosmState { fade_time: value, ..*self }
        } else if cc == 22 {
            MicrocosmState { looper_enabled: value >= 64, ..*self }
        } else if cc == 23 {
            MicrocosmState { playback_direction: PlaybackDirection::from_cc_value(value), ..*self }
        } else if cc == 24 {
            MicrocosmState { routing: LooperRouting::from_cc_value(value), ..*self }
        } else if cc == 25 {
            MicrocosmState { looper_only: value >= 64, ..*self }
        } else if cc == 26 {
            MicrocosmState { burst_mode: value >= 64, ..*self }
        } else if cc == 27 {
            MicrocosmState { quantized: value >= 64, ..*self }
        } else {
            *self
        }
    }

    /// Applies a CC message that the device sent; unknown CC numbers are ignored.
    pub fn update_from_cc(&mut self, cc: u8, value: u8)
        ensures
            *final(self) == old(self).with_cc(cc, value),
    {
        *self = self.decoded(cc, value);
    }
}

/// A stored Microcosm parameter that the device reports back is read as the
/// value that was sent.
#[verifier::rlimit(100)]
#[verifier::spinoff_prover]
pub proof fn lemma_microcosm_sent_value_decodes(s: MicrocosmState, p: MicrocosmParameter)
    requires
        p.is_stored(),
    ensures
        s.with_cc(p.spec_cc_number(), p.spec_cc_value()) == s.with_parameter(p),
{
    match p {
        MicrocosmParameter::Subdivision(x) => lemma_subdivision_codec(x),
        MicrocosmParameter::Shape(x) => lemma_waveform_shape_codec(x, 0),
        MicrocosmParameter::LooperSpeedStepped(x) => lemma_subdivision_codec(x),
        MicrocosmParameter::PlaybackDirection(x) => lemma_playback_direction_codec(x, 0),
        MicrocosmParameter::Routing(x) => lemma_looper_routing_codec(x, 0),
        _ => {},
    }
}

impl Default for MicrocosmState {
    fn default() -> (r: Self)
        ensures
            r == MicrocosmState::spec_default(),
    {
        MicrocosmState {
            current_effect: EffectType::Mosaic,
            current_variation: EffectVariation::A,
            subdivision: SubdivisionValue::QuarterNote,
            time: 64,
            hold_sampler: false,
            activity: 64,
            repeats: 64,
            shape: WaveformShape::Square,
            frequency: 64,
            depth: 64,
            cutoff: 127,
            resonance: 0,
            mix: 64,
            volume: 100,
            reverse_effect: false,
            bypass: false,
            space: 0,
            reverb_time: 0,
            loop_level: 100,
            looper_speed: 64,
            looper_speed_stepped: SubdivisionValue::QuarterNote,
            fade_time: 64,
            looper_enabled: false,
            playback_direction: PlaybackDirection::Forward,
            routing: LooperRouting::PostFX,
            looper_only: false,
            burst_mode: false,
            quantized: false,
        }
    }
}

/// A connected Microcosm: its shadow state and MIDI channel.
#[derive(Debug, Clone, Copy, PartialEq, Eq, Structural)]
pub struct Microcosm {
    pub state: MicrocosmState,
    pub midi_channel: u8,
}

impl Microcosm {
    /// A Microcosm in its default state.
    pub fn new(midi_channel: u8) -> (r: Microcosm)
        ensures
            r.state == MicrocosmState::spec_default(),
            r.midi_channel == midi_channel,
    {
        Microcosm { state: MicrocosmState::default(), midi_channel }
    }

    /// Records the effect and variation that a program change selected;
    /// a program above 43 selects nothing and changes nothing.
    pub fn set_current_preset(&mut self, program: u8)
        ensures
            final(self).midi_channel == old(self).midi_channel,
            match EffectType::spec_from_program(program) {
                Some((e, v)) => final(self).state == (MicrocosmState {
                    current_effect: e,
                    current_variation: v,
                    ..old(self).state
                }),
                None => final(self).state == old(self).state,
            },
    {
        if let Some((effect, variation)) = EffectType::from_program(program) {
            self.state.current_effect = effect;
            self.state.current_variation = variation;
        }
    }


    /// Records a parameter change that was sent to the device.
    pub fn update_state(&mut self, param: &MicrocosmParameter)
        ensures
            final(self).state == old(self).state.with_parameter(*param),
            final(self).midi_channel == old(self).midi_channel,
    {
        self.state = self.state.applied(param);
    }

    /// The CC map that reproduces the current state.
    pub fn state_as_cc_map(&self) -> (r: HashMap<u8, u8>)
        ensures
            r@ == self.state.spec_cc_map(),
    {
        self.state.to_cc_map()
    }

    /// Name and capabilities of the pedal.
    pub fn metadata(&self) -> (r: PedalMetadata)
        ensures
            r.name@ == "Microcosm"@,
            r.manufacturer@ == "Hologram Electronics"@,
            r.supports_editor,
            r.supports_preset_library,
    {
        PedalMetadata {
            name: "Microcosm",
            manufacturer: "Hologram Electronics",
            supports_editor: true,
            supports_preset_library: true,
        }
    }

    /// The Microcosm selects effects by Program Change.
    pub fn supports_program_change(&self) -> (r: bool)
        ensures
            r,
    {
        true
    }

    /// Loading a program selects its effect and variation.
    pub fn load_preset(&mut self, program: u8)
        ensures
            final(self).midi_channel == old(self).midi_channel,
            match EffectType::spec_from_program(program) {
                Some((e, v)) => final(self).state == (MicrocosmState {
                    current_effect: e,
                    current_variation: v,
                    ..old(self).state
                }),
                None => final(self).state == old(self).state,
            },
    {
        self.set_current_preset(program);
    }
}


} // verus!
