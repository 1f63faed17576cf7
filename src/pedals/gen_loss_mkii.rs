//! Chase Bliss Generation Loss MKII: parameter catalogue, CC codec and
//! shadow state.

use crate::codec::{spec_switch_byte, switch_byte};
use crate::error::{MidiError, MidiResult};
use crate::pedals::PedalMetadata;
use std::collections::HashMap;
use vstd::prelude::*;

verus! {


/// Tape model (CC 16): thirteen bands of uneven width.
#[derive(Debug, Clone, Copy, PartialEq, Eq, Structural)]
pub enum TapeModel {
    NoModel,
    CPR3300Gen1,
    CPR3300Gen2,
    CPR3300Gen3,
    PortamaxRT,
    PortamaxHT,
    CAM8,
    DictatronEX,
    DictatronIN,
    Fishy60,
    MSWalker,
    AMU2,
    MPEX,
}

impl TapeModel {
    /// The canonical byte sent for this value.
    pub open spec fn spec_cc_value(self) -> u8 {
        match self {
            TapeModel::NoModel => 0,
            TapeModel::CPR3300Gen1 => 15,
            TapeModel::CPR3300Gen2 => 24,
            TapeModel::CPR3300Gen3 => 33,
            TapeModel::PortamaxRT => 43,
            TapeModel::PortamaxHT => 53,
            TapeModel::CAM8 => 62,
            TapeModel::DictatronEX => 72,
            TapeModel::DictatronIN => 82,
            TapeModel::Fishy60 => 91,
            TapeModel::MSWalker => 101,
            TapeModel::AMU2 => 111,
            TapeModel::MPEX => 127,
        }
    }

    /// The value that a received byte stands for: each band of bytes decodes
    /// to one value, and the last band takes every byte above it.
    pub open spec fn spec_from_cc(value: u8) -> TapeModel {
        if value <= 7 {
            TapeModel::NoModel
        } else if value <= 19 {
            TapeModel::CPR3300Gen1
        } else if value <= 28 {
            TapeModel::CPR3300Gen2
        } else if value <= 38 {
            TapeModel::CPR3300Gen3
        } else if value <= 48 {
            TapeModel::PortamaxRT
        } else if value <= 57 {
            TapeModel::PortamaxHT
        } else if value <= 67 {
            TapeModel::CAM8
        } else if value <= 77 {
            TapeModel::DictatronEX
        } else if value <= 86 {
            TapeModel::DictatronIN
        } else if value <= 96 {
            TapeModel::Fishy60
        } else if value <= 106 {
            TapeModel::MSWalker
        } else if value <= 119 {
            TapeModel::AMU2
        } else {
            TapeModel::MPEX
        }
    }

    /// Lowest byte of the band that decodes to this value.
    pub open spec fn band_low(self) -> u8 {
        match self {
            TapeModel::NoModel => 0,
            TapeModel::CPR3300Gen1 => 8,
            TapeModel::CPR3300Gen2 => 20,
            TapeModel::CPR3300Gen3 => 29,
            TapeModel::PortamaxRT => 39,
            TapeModel::PortamaxHT => 49,
            TapeModel::CAM8 => 58,
            TapeModel::DictatronEX => 68,
            TapeModel::DictatronIN => 78,
            TapeModel::Fishy60 => 87,
            TapeModel::MSWalker => 97,
            TapeModel::AMU2 => 107,
            TapeModel::MPEX => 120,
        }
    }

    /// Highest byte of the band that decodes to this value.
    pub open spec fn band_high(self) -> u8 {
        match self {
            TapeModel::NoModel => 7,
            TapeModel::CPR3300Gen1 => 19,
            TapeModel::CPR3300Gen2 => 28,
            TapeModel::CPR3300Gen3 => 38,
            TapeModel::PortamaxRT => 48,
            TapeModel::PortamaxHT => 57,
            TapeModel::CAM8 => 67,
            TapeModel::DictatronEX => 77,
            TapeModel::DictatronIN => 86,
            TapeModel::Fishy60 => 96,
            TapeModel::MSWalker => 106,
            TapeModel::AMU2 => 119,
            TapeModel::MPEX => 255,
        }
    }

    /// Encodes the value as a CC byte.
    pub fn to_cc_value(self) -> (r: u8)
        ensures
            r == self.spec_cc_value(),
            r <= 127,
    {
        match self {
            TapeModel::NoModel => 0,
            TapeModel::CPR3300Gen1 => 15,
            TapeModel::CPR3300Gen2 => 24,
            TapeModel::CPR3300Gen3 => 33,
            TapeModel::PortamaxRT => 43,
            TapeModel::PortamaxHT => 53,
            TapeModel::CAM8 => 62,
            TapeModel::DictatronEX => 72,
            TapeModel::DictatronIN => 82,
            TapeModel::Fishy60 => 91,
            TapeModel::MSWalker => 101,
            TapeModel::AMU2 => 111,
            TapeModel::MPEX => 127,
        }
    }

    /// Decodes a received CC byte.
    pub fn from_cc_value(value: u8) -> (r: TapeModel)
        ensures
            r == TapeModel::spec_from_cc(value),
            r.band_low() <= value <= r.band_high(),
    {
        if value <= 7 {
            TapeModel::NoModel
        } else if value <= 19 {
            TapeModel::CPR3300Gen1
        } else if value <= 28 {
            TapeModel::CPR3300Gen2
        } else if value <= 38 {
            TapeModel::CPR3300Gen3
        } else if value <= 48 {
            TapeModel::PortamaxRT
        } else if value <= 57 {
            TapeModel::PortamaxHT
        } else if value <= 67 {
            TapeModel::CAM8
        } else if value <= 77 {
            TapeModel::DictatronEX
        } else if value <= 86 {
            TapeModel::DictatronIN
        } else if value <= 96 {
            TapeModel::Fishy60
        } else if value <= 106 {
            TapeModel::MSWalker
        } else if value <= 119 {
            TapeModel::AMU2
        } else {
            TapeModel::MPEX
        }
    }

    /// Name of the tape model as the device labels it.
    pub open spec fn spec_name(self) -> Seq<char> {
        match self {
            TapeModel::NoModel => "None"@,
            TapeModel::CPR3300Gen1 => "CPR-3300 Gen 1"@,
            TapeModel::CPR3300Gen2 => "CPR-3300 Gen 2"@,
            TapeModel::CPR3300Gen3 => "CPR-3300 Gen 3"@,
            TapeModel::PortamaxRT => "Portamax-RT"@,
            TapeModel::PortamaxHT => "Portamax-HT"@,
            TapeModel::CAM8 => "CAM-8"@,
            TapeModel::DictatronEX => "DICTATRON-EX"@,
            TapeModel::DictatronIN => "DICTATRON-IN"@,
            TapeModel::Fishy60 => "FISHY 60"@,
            TapeModel::MSWalker => "MS-WALKER"@,
            TapeModel::AMU2 => "AMU-2"@,
            TapeModel::MPEX => "M-PEX"@,
        }
    }

    /// Name of the tape model as the device labels it.
    pub fn name(&self) -> (r: &'static str)
        ensures
            r@ == self.spec_name(),
    {
        match self {
            TapeModel::NoModel => "None",
            TapeModel::CPR3300Gen1 => "CPR-3300 Gen 1",
            TapeModel::CPR3300Gen2 => "CPR-3300 Gen 2",
            TapeModel::CPR3300Gen3 => "CPR-3300 Gen 3",
            TapeModel::PortamaxRT => "Portamax-RT",
            TapeModel::PortamaxHT => "Portamax-HT",
            TapeModel::CAM8 => "CAM-8",
            TapeModel::DictatronEX => "DICTATRON-EX",
            TapeModel::DictatronIN => "DICTATRON-IN",
            TapeModel::Fishy60 => "FISHY 60",
            TapeModel::MSWalker => "MS-WALKER",
            TapeModel::AMU2 => "AMU-2",
            TapeModel::MPEX => "M-PEX",
        }
    }
}

/// Dry signal mode (CC 22), sent as 1..=3.
#[derive(Debug, Clone, Copy, PartialEq, Eq, Structural)]
pub enum DryMode {
    Dry1,
    Dry2,
    Dry3,
}

impl DryMode {
    /// The byte sent for this value.
    pub open spec fn spec_cc_value(self) -> u8 {
        match self {
            DryMode::Dry1 => 1,
            DryMode::Dry2 => 2,
            DryMode::Dry3 => 3,
        }
    }

    /// The value a byte names, if it names one.
    pub open spec fn spec_from_cc(value: u8) -> Option<DryMode> {
        if value == 1 {
            Some(DryMode::Dry1)
        } else if value == 2 {
            Some(DryMode::Dry2)
        } else if value == 3 {
            Some(DryMode::Dry3)
        } else {
            None
        }
    }

    /// Encodes the value as a CC byte.
    pub fn to_cc_value(self) -> (r: u8)
        ensures
            r == self.spec_cc_value(),
            1 <= r <= 3,
    {
        match self {
            DryMode::Dry1 => 1,
            DryMode::Dry2 => 2,
            DryMode::Dry3 => 3,
        }
    }

    /// Decodes a CC byte; only 1..=3 name a value.
    pub fn from_cc_value(value: u8) -> (r: MidiResult<DryMode>)
        ensures
            match r {
                Ok(m) => DryMode::spec_from_cc(value) == Some(m) && m.spec_cc_value() == value,
                Err(e) => DryMode::spec_from_cc(value) is None && e.is_invalid_value(value, "1-3"@),
            },
    {
        match value {
            1 => Ok(DryMode::Dry1),
            2 => Ok(DryMode::Dry2),
            3 => Ok(DryMode::Dry3),
            _ => Err(MidiError::InvalidValue { expected: "1-3".to_owned(), actual: value }),
        }
    }
}

/// Noise mode (CC 23), sent as 1..=3.
#[derive(Debug, Clone, Copy, PartialEq, Eq, Structural)]
pub enum NoiseMode {
    Noise1,
    Noise2,
    Noise3,
}

impl NoiseMode {
    /// The byte sent for this value.
    pub open spec fn spec_cc_value(self) -> u8 {
        match self {
            NoiseMode::Noise1 => 1,
            NoiseMode::Noise2 => 2,
            NoiseMode::Noise3 => 3,
        }
    }

    /// The value a byte names, if it names one.
    pub open spec fn spec_from_cc(value: u8) -> Option<NoiseMode> {
        if value == 1 {
            Some(NoiseMode::Noise1)
        } else if value == 2 {
            Some(NoiseMode::Noise2)
        } else if value == 3 {
            Some(NoiseMode::Noise3)
        } else {
            None
        }
    }

    /// Encodes the value as a CC byte.
    pub fn to_cc_value(self) -> (r: u8)
        ensures
            r == self.spec_cc_value(),
            1 <= r <= 3,
    {
        match self {
            NoiseMode::Noise1 => 1,
            NoiseMode::Noise2 => 2,
            NoiseMode::Noise3 => 3,
        }
    }

    /// Decodes a CC byte; only 1..=3 name a value.
    pub fn from_cc_value(value: u8) -> (r: MidiResult<NoiseMode>)
        ensures
            match r {
                Ok(m) => NoiseMode::spec_from_cc(value) == Some(m) && m.spec_cc_value() == value,
                Err(e) => NoiseMode::spec_from_cc(value) is None && e.is_invalid_value(value, "1-3"@),
            },
    {
        match value {
            1 => Ok(NoiseMode::Noise1),
            2 => Ok(NoiseMode::Noise2),
            3 => Ok(NoiseMode::Noise3),
            _ => Err(MidiError::InvalidValue { expected: "1-3".to_owned(), actual: value }),
        }
    }
}

/// Aux switch mode (CC 21), sent as 1..=3.
#[derive(Debug, Clone, Copy, PartialEq, Eq, Structural)]
pub enum AuxMode {
    Aux1,
    Aux2,
    Aux3,
}

impl AuxMode {
    /// The byte sent for this value.
    pub open spec fn spec_cc_value(self) -> u8 {
        match self {
            AuxMode::Aux1 => 1,
            AuxMode::Aux2 => 2,
            AuxMode::Aux3 => 3,
        }
    }

    /// The value a byte names, if it names one.
    pub open spec fn spec_from_cc(value: u8) -> Option<AuxMode> {
        if value == 1 {
            Some(AuxMode::Aux1)
        } else if value == 2 {
            Some(AuxMode::Aux2)
        } else if value == 3 {
            Some(AuxMode::Aux3)
        } else {
            None
        }
    }

    /// Encodes the value as a CC byte.
    pub fn to_cc_value(self) -> (r: u8)
        ensures
            r == self.spec_cc_value(),
            1 <= r <= 3,
    {
        match self {
            AuxMode::Aux1 => 1,
            AuxMode::Aux2 => 2,
            AuxMode::Aux3 => 3,
        }
    }

    /// Decodes a CC byte; only 1..=3 name a value.
    pub fn from_cc_value(value: u8) -> (r: MidiResult<AuxMode>)
        ensures
            match r {
                Ok(m) => AuxMode::spec_from_cc(value) == Some(m) && m.spec_cc_value() == value,
                Err(e) => AuxMode::spec_from_cc(value) is None && e.is_invalid_value(value, "1-3"@),
            },
    {
        match value {
            1 => Ok(AuxMode::Aux1),
            2 => Ok(AuxMode::Aux2),
            3 => Ok(AuxMode::Aux3),
            _ => Err(MidiError::InvalidValue { expected: "1-3".to_owned(), actual: value }),
        }
    }
}

/// Sweep DIP switch (CC 68), split at 64.
#[derive(Debug, Clone, Copy, PartialEq, Eq, Structural)]
pub enum SweepDirection {
    Bottom,
    Top,
}

impl SweepDirection {
    /// The canonical byte sent for this value.
    pub open spec fn spec_cc_value(self) -> u8 {
        match self {
            SweepDirection::Bottom => 0,
            SweepDirection::Top => 127,
        }
    }

    /// The value that a received byte stands for: each band of bytes decodes
    /// to one value, and the last band takes every byte above it.
    pub open spec fn spec_from_cc(value: u8) -> SweepDirection {
        if value <= 63 {
            SweepDirection::Bottom
        } else {
            SweepDirection::Top
        }
    }

    /// Lowest byte of the band that decodes to this value.
    pub open spec fn band_low(self) -> u8 {
        match self {
            SweepDirection::Bottom => 0,
            SweepDirection::Top => 64,
        }
    }

    /// Highest byte of the band that decodes to this value.
    pub open spec fn band_high(self) -> u8 {
        match self {
            SweepDirection::Bottom => 63,
            SweepDirection::Top => 255,
        }
    }

    /// Encodes the value as a CC byte.
    pub fn to_cc_value(self) -> (r: u8)
        ensures
            r == self.spec_cc_value(),
            r <= 127,
    {
        match self {
            SweepDirection::Bottom => 0,
            SweepDirection::Top => 127,
        }
    }

    /// Decodes a received CC byte.
    pub fn from_cc_value(value: u8) -> (r: SweepDirection)
        ensures
            r == SweepDirection::spec_from_cc(value),
            r.band_low() <= value <= r.band_high(),
    {
        if value <= 63 {
            SweepDirection::Bottom
        } else {
            SweepDirection::Top
        }
    }
}

/// Polarity DIP switch (CC 71), split at 64.
#[derive(Debug, Clone, Copy, PartialEq, Eq, Structural)]
pub enum Polarity {
    Forward,
    Reverse,
}

impl Polarity {
    /// The canonical byte sent for this value.
    pub open spec fn spec_cc_value(self) -> u8 {
        match self {
            Polarity::Forward => 0,
            Polarity::Reverse => 127,
        }
    }

    /// The value that a received byte stands for: each band of bytes decodes
    /// to one value, and the last band takes every byte above it.
    pub open spec fn spec_from_cc(value: u8) -> Polarity {
        if value <= 63 {
            Polarity::Forward
        } else {
            Polarity::Reverse
        }
    }

    /// Lowest byte of the band that decodes to this value.
    pub open spec fn band_low(self) -> u8 {
        match self {
            Polarity::Forward => 0,
            Polarity::Reverse => 64,
        }
    }

    /// Highest byte of the band that decodes to this value.
    pub open spec fn band_high(self) -> u8 {
        match self {
            Polarity::Forward => 63,
            Polarity::Reverse => 255,
        }
    }

    /// Encodes the value as a CC byte.
    pub fn to_cc_value(self) -> (r: u8)
        ensures
            r == self.spec_cc_value(),
            r <= 127,
    {
        match self {
            Polarity::Forward => 0,
            Polarity::Reverse => 127,
        }
    }

    /// Decodes a received CC byte.
    pub fn from_cc_value(value: u8) -> (r: Polarity)
        ensures
            r == Polarity::spec_from_cc(value),
            r.band_low() <= value <= r.band_high(),
    {
        if value <= 63 {
            Polarity::Forward
        } else {
            Polarity::Reverse
        }
    }
}

/// Input gain (CC 32), sent as 1..=3.
#[derive(Debug, Clone, Copy, PartialEq, Eq, Structural)]
pub enum InputGain {
    LineLevel,
    InstrumentLevel,
    HighGain,
}

impl InputGain {
    /// The byte sent for this value.
    pub open spec fn spec_cc_value(self) -> u8 {
        match self {
            InputGain::LineLevel => 1,
            InputGain::InstrumentLevel => 2,
            InputGain::HighGain => 3,
        }
    }

    /// The value a byte names, if it names one.
    pub open spec fn spec_from_cc(value: u8) -> Option<InputGain> {
        if value == 1 {
            Some(InputGain::LineLevel)
        } else if value == 2 {
            Some(InputGain::InstrumentLevel)
        } else if value == 3 {
            Some(InputGain::HighGain)
        } else {
            None
        }
    }

    /// Encodes the value as a CC byte.
    pub fn to_cc_value(self) -> (r: u8)
        ensures
            r == self.spec_cc_value(),
            1 <= r <= 3,
    {
        match self {
            InputGain::LineLevel => 1,
            InputGain::InstrumentLevel => 2,
            InputGain::HighGain => 3,
        }
    }

    /// Decodes a CC byte; only 1..=3 name a value.
    pub fn from_cc_value(value: u8) -> (r: MidiResult<InputGain>)
        ensures
            match r {
                Ok(m) => InputGain::spec_from_cc(value) == Some(m) && m.spec_cc_value() == value,
                Err(e) => InputGain::spec_from_cc(value) is None && e.is_invalid_value(value, "1-3"@),
            },
    {
        match value {
            1 => Ok(InputGain::LineLevel),
            2 => Ok(InputGain::InstrumentLevel),
            3 => Ok(InputGain::HighGain),
            _ => Err(MidiError::InvalidValue { expected: "1-3".to_owned(), actual: value }),
        }
    }
}

/// Bypass mode (CC 26), split at 64.
#[derive(Debug, Clone, Copy, PartialEq, Eq, Structural)]
pub enum DspBypassMode {
    TrueBypass,
    DspBypass,
}

impl DspBypassMode {
    /// The canonical byte sent for this value.
    pub open spec fn spec_cc_value(self) -> u8 {
        match self {
            DspBypassMode::TrueBypass => 0,
            DspBypassMode::DspBypass => 127,
        }
    }

    /// The value that a received byte stands for: each band of bytes decodes
    /// to one value, and the last band takes every byte above it.
    pub open spec fn spec_from_cc(value: u8) -> DspBypassMode {
        if value <= 63 {
            DspBypassMode::TrueBypass
        } else {
            DspBypassMode::DspBypass
        }
    }

    /// Lowest byte of the band that decodes to this value.
    pub open spec fn band_low(self) -> u8 {
        match self {
            DspBypassMode::TrueBypass => 0,
            DspBypassMode::DspBypass => 64,
        }
    }

    /// Highest byte of the band that decodes to this value.
    pub open spec fn band_high(self) -> u8 {
        match self {
            DspBypassMode::TrueBypass => 63,
            DspBypassMode::DspBypass => 255,
        }
    }

    /// Encodes the value as a CC byte.
    pub fn to_cc_value(self) -> (r: u8)
        ensures
            r == self.spec_cc_value(),
            r <= 127,
    {
        match self {
            DspBypassMode::TrueBypass => 0,
            DspBypassMode::DspBypass => 127,
        }
    }

    /// Decodes a received CC byte.
    pub fn from_cc_value(value: u8) -> (r: DspBypassMode)
        ensures
            r == DspBypassMode::spec_from_cc(value),
            r.band_low() <= value <= r.band_high(),
    {
        if value <= 63 {
            DspBypassMode::TrueBypass
        } else {
            DspBypassMode::DspBypass
        }
    }
}

/// Decoding the byte that a value encodes to gives that value back, and the
/// bands of `TapeModel` cover every byte, each byte lying in the band of what it
/// decodes to.
pub proof fn lemma_tape_model_codec(v: TapeModel, b: u8)
    ensures
        TapeModel::spec_from_cc(v.spec_cc_value()) == v,
        TapeModel::spec_from_cc(b).band_low() <= b <= TapeModel::spec_from_cc(b).band_high(),
{
}

/// Decoding the byte that a value encodes to gives that value back, and the
/// bands of `SweepDirection` cover every byte, each byte lying in the band of what it
/// decodes to.
pub proof fn lemma_sweep_direction_codec(v: SweepDirection, b: u8)
    ensures
        SweepDirection::spec_from_cc(v.spec_cc_value()) == v,
        SweepDirection::spec_from_cc(b).band_low() <= b <= SweepDirection::spec_from_cc(b).band_high(),
{
}

/// Decoding the byte that a value encodes to gives that value back, and the
/// bands of `Polarity` cover every byte, each byte lying in the band of what it
/// decodes to.
pub proof fn lemma_polarity_codec(v: Polarity, b: u8)
    ensures
        Polarity::spec_from_cc(v.spec_cc_value()) == v,
        Polarity::spec_from_cc(b).band_low() <= b <= Polarity::spec_from_cc(b).band_high(),
{
}

/// Decoding the byte that a value encodes to gives that value back, and the
/// bands of `DspBypassMode` cover every byte, each byte lying in the band of what it
/// decodes to.
pub proof fn lemma_dsp_bypass_mode_codec(v: DspBypassMode, b: u8)
    ensures
        DspBypassMode::spec_from_cc(v.spec_cc_value()) == v,
        DspBypassMode::spec_from_cc(b).band_low() <= b <= DspBypassMode::spec_from_cc(b).band_high(),
{
}

/// Distinct values of `DryMode` are sent as distinct bytes, so decoding a
/// value's byte gives that value back.
pub proof fn lemma_dry_mode_codec(v: DryMode, w: DryMode)
    ensures
        v.spec_cc_value() == w.spec_cc_value() ==> v == w,
        DryMode::spec_from_cc(v.spec_cc_value()) == Some(v),
{
}

/// Distinct values of `NoiseMode` are sent as distinct bytes, so decoding a
/// value's byte gives that value back.
pub proof fn lemma_noise_mode_codec(v: NoiseMode, w: NoiseMode)
    ensures
        v.spec_cc_value() == w.spec_cc_value() ==> v == w,
        NoiseMode::spec_from_cc(v.spec_cc_value()) == Some(v),
{
}

/// Distinct values of `AuxMode` are sent as distinct bytes, so decoding a
/// value's byte gives that value back.
pub proof fn lemma_aux_mode_codec(v: AuxMode, w: AuxMode)
    ensures
        v.spec_cc_value() == w.spec_cc_value() ==> v == w,
        AuxMode::spec_from_cc(v.spec_cc_value()) == Some(v),
{
}

/// Distinct values of `InputGain` are sent as distinct bytes, so decoding a
/// value's byte gives that value back.
pub proof fn lemma_input_gain_codec(v: InputGain, w: InputGain)
    ensures
        v.spec_cc_value() == w.spec_cc_value() ==> v == w,
        InputGain::spec_from_cc(v.spec_cc_value()) == Some(v),
{
}

/// Every Generation Loss MKII parameter together with its value.
#[derive(Debug, Clone, Copy, PartialEq, Eq, Structural)]
pub enum GenLossMkiiParameter {
    Wow(u8),
    Volume(u8),
    Model(TapeModel),
    Flutter(u8),
    Saturate(u8),
    Failure(u8),
    RampSpeed(u8),
    DryMode(DryMode),
    NoiseMode(NoiseMode),
    AuxMode(AuxMode),
    Bypass(bool),
    AuxSwitch(bool),
    AltMode(bool),
    LeftSwitch(bool),
    CenterSwitch(bool),
    RightSwitch(bool),
    DipWow(bool),
    DipFlutter(bool),
    DipSatGen(bool),
    DipFailureHp(bool),
    DipModelLp(bool),
    DipBounce(bool),
    DipRandom(bool),
    DipSweep(SweepDirection),
    DipPolarity(Polarity),
    DipClassic(bool),
    DipMiso(bool),
    DipSpread(bool),
    DipDryType(bool),
    DipDropByp(bool),
    DipSnagByp(bool),
    DipHumByp(bool),
    Expression(u8),
    AuxOnsetTime(u8),
    HissLevel(u8),
    MechanicalNoise(u8),
    CrinklePop(u8),
    InputGain(InputGain),
    DspBypass(DspBypassMode),
    PresetSave(u8),
    RampBounce(bool),
}

impl GenLossMkiiParameter {
    /// The CC number that carries this parameter.
    pub open spec fn spec_cc_number(self) -> u8 {
        match self {
            GenLossMkiiParameter::Wow(_) => 14,
            GenLossMkiiParameter::Volume(_) => 15,
            GenLossMkiiParameter::Model(_) => 16,
            GenLossMkiiParameter::Flutter(_) => 17,
            GenLossMkiiParameter::Saturate(_) => 18,
            GenLossMkiiParameter::Failure(_) => 19,
            GenLossMkiiParameter::RampSpeed(_) => 20,
            GenLossMkiiParameter::DryMode(_) => 22,
            GenLossMkiiParameter::NoiseMode(_) => 23,
            GenLossMkiiParameter::AuxMode(_) => 21,
            GenLossMkiiParameter::Bypass(_) => 102,
            GenLossMkiiParameter::AuxSwitch(_) => 103,
            GenLossMkiiParameter::AltMode(_) => 104,
            GenLossMkiiParameter::LeftSwitch(_) => 105,
            GenLossMkiiParameter::CenterSwitch(_) => 106,
            GenLossMkiiParameter::RightSwitch(_) => 107,
            GenLossMkiiParameter::DipWow(_) => 61,
            GenLossMkiiParameter::DipFlutter(_) => 62,
            GenLossMkiiParameter::DipSatGen(_) => 63,
            GenLossMkiiParameter::DipFailureHp(_) => 64,
            GenLossMkiiParameter::DipModelLp(_) => 65,
            GenLossMkiiParameter::DipBounce(_) => 66,
            GenLossMkiiParameter::DipRandom(_) => 67,
            GenLossMkiiParameter::DipSweep(_) => 68,
            GenLossMkiiParameter::DipPolarity(_) => 71,
            GenLossMkiiParameter::DipClassic(_) => 72,
            GenLossMkiiParameter::DipMiso(_) => 73,
            GenLossMkiiParameter::DipSpread(_) => 74,
            GenLossMkiiParameter::DipDryType(_) => 75,
            GenLossMkiiParameter::DipDropByp(_) => 76,
            GenLossMkiiParameter::DipSnagByp(_) => 77,
            GenLossMkiiParameter::DipHumByp(_) => 78,
            GenLossMkiiParameter::Expression(_) => 100,
            GenLossMkiiParameter::AuxOnsetTime(_) => 24,
            GenLossMkiiParameter::HissLevel(_) => 27,
            GenLossMkiiParameter::MechanicalNoise(_) => 28,
            GenLossMkiiParameter::CrinklePop(_) => 29,
            GenLossMkiiParameter::InputGain(_) => 32,
            GenLossMkiiParameter::DspBypass(_) => 26,
            GenLossMkiiParameter::PresetSave(_) => 111,
            GenLossMkiiParameter::RampBounce(_) => 52,
        }
    }

    /// The CC byte that carries this parameter's value.
    pub open spec fn spec_cc_value(self) -> u8 {
        match self {
            GenLossMkiiParameter::Wow(v) => v,
            GenLossMkiiParameter::Volume(v) => v,
            GenLossMkiiParameter::Model(v) => v.spec_cc_value(),
            GenLossMkiiParameter::Flutter(v) => v,
            GenLossMkiiParameter::Saturate(v) => v,
            GenLossMkiiParameter::Failure(v) => v,
            GenLossMkiiParameter::RampSpeed(v) => v,
            GenLossMkiiParameter::DryMode(v) => v.spec_cc_value(),
            GenLossMkiiParameter::NoiseMode(v) => v.spec_cc_value(),
            GenLossMkiiParameter::AuxMode(v) => v.spec_cc_value(),
            GenLossMkiiParameter::Bypass(v) => spec_switch_byte(v),
            GenLossMkiiParameter::AuxSwitch(v) => spec_switch_byte(v),
            GenLossMkiiParameter::AltMode(v) => spec_switch_byte(v),
            GenLossMkiiParameter::LeftSwitch(v) => spec_switch_byte(v),
            GenLossMkiiParameter::CenterSwitch(v) => spec_switch_byte(v),
            GenLossMkiiParameter::RightSwitch(v) => spec_switch_byte(v),
            GenLossMkiiParameter::DipWow(v) => spec_switch_byte(v),
            GenLossMkiiParameter::DipFlutter(v) => spec_switch_byte(v),
            GenLossMkiiParameter::DipSatGen(v) => spec_switch_byte(v),
            GenLossMkiiParameter::DipFailureHp(v) => spec_switch_byte(v),
            GenLossMkiiParameter::DipModelLp(v) => spec_switch_byte(v),
            GenLossMkiiParameter::DipBounce(v) => spec_switch_byte(v),
            GenLossMkiiParameter::DipRandom(v) => spec_switch_byte(v),
            GenLossMkiiParameter::DipSweep(v) => v.spec_cc_value(),
            GenLossMkiiParameter::DipPolarity(v) => v.spec_cc_value(),
            GenLossMkiiParameter::DipClassic(v) => spec_switch_byte(v),
            GenLossMkiiParameter::DipMiso(v) => spec_switch_byte(v),
            GenLossMkiiParameter::DipSpread(v) => spec_switch_byte(v),
            GenLossMkiiParameter::DipDryType(v) => spec_switch_byte(v),
            GenLossMkiiParameter::DipDropByp(v) => spec_switch_byte(v),
            GenLossMkiiParameter::DipSnagByp(v) => spec_switch_byte(v),
            GenLossMkiiParameter::DipHumByp(v) => spec_switch_byte(v),
            GenLossMkiiParameter::Expression(v) => v,
            GenLossMkiiParameter::AuxOnsetTime(v) => v,
            GenLossMkiiParameter::HissLevel(v) => v,
            GenLossMkiiParameter::MechanicalNoise(v) => v,
            GenLossMkiiParameter::CrinklePop(v) => v,
            GenLossMkiiParameter::InputGain(v) => v.spec_cc_value(),
            GenLossMkiiParameter::DspBypass(v) => v.spec_cc_value(),
            GenLossMkiiParameter::PresetSave(v) => v,
            GenLossMkiiParameter::RampBounce(v) => spec_switch_byte(v),
        }
    }

    /// Position of the parameter's kind in the catalogue, whatever its value.
    pub open spec fn kind(self) -> int {
        match self {
            GenLossMkiiParameter::Wow(_) => 0,
            GenLossMkiiParameter::Volume(_) => 1,
            GenLossMkiiParameter::Model(_) => 2,
            GenLossMkiiParameter::Flutter(_) => 3,
            GenLossMkiiParameter::Saturate(_) => 4,
            GenLossMkiiParameter::Failure(_) => 5,
            GenLossMkiiParameter::RampSpeed(_) => 6,
            GenLossMkiiParameter::DryMode(_) => 7,
            GenLossMkiiParameter::NoiseMode(_) => 8,
            GenLossMkiiParameter::AuxMode(_) => 9,
            GenLossMkiiParameter::Bypass(_) => 10,
            GenLossMkiiParameter::AuxSwitch(_) => 11,
            GenLossMkiiParameter::AltMode(_) => 12,
            GenLossMkiiParameter::LeftSwitch(_) => 13,
            GenLossMkiiParameter::CenterSwitch(_) => 14,
            GenLossMkiiParameter::RightSwitch(_) => 15,
            GenLossMkiiParameter::DipWow(_) => 16,
            GenLossMkiiParameter::DipFlutter(_) => 17,
            GenLossMkiiParameter::DipSatGen(_) => 18,
            GenLossMkiiParameter::DipFailureHp(_) => 19,
            GenLossMkiiParameter::DipModelLp(_) => 20,
            GenLossMkiiParameter::DipBounce(_) => 21,
            GenLossMkiiParameter::DipRandom(_) => 22,
            GenLossMkiiParameter::DipSweep(_) => 23,
            GenLossMkiiParameter::DipPolarity(_) => 24,
            GenLossMkiiParameter::DipClassic(_) => 25,
            GenLossMkiiParameter::DipMiso(_) => 26,
            GenLossMkiiParameter::DipSpread(_) => 27,
            GenLossMkiiParameter::DipDryType(_) => 28,
            GenLossMkiiParameter::DipDropByp(_) => 29,
            GenLossMkiiParameter::DipSnagByp(_) => 30,
            GenLossMkiiParameter::DipHumByp(_) => 31,
            GenLossMkiiParameter::Expression(_) => 32,
            GenLossMkiiParameter::AuxOnsetTime(_) => 33,
            GenLossMkiiParameter::HissLevel(_) => 34,
            GenLossMkiiParameter::MechanicalNoise(_) => 35,
            GenLossMkiiParameter::CrinklePop(_) => 36,
            GenLossMkiiParameter::InputGain(_) => 37,
            GenLossMkiiParameter::DspBypass(_) => 38,
            GenLossMkiiParameter::PresetSave(_) => 39,
            GenLossMkiiParameter::RampBounce(_) => 40,
        }
    }

    /// The CC number for this parameter.
    pub fn cc_number(&self) -> (r: u8)
        ensures
            r == self.spec_cc_number(),
    {
        match self {
            GenLossMkiiParameter::Wow(_) => 14,
            GenLossMkiiParameter::Volume(_) => 15,
            GenLossMkiiParameter::Model(_) => 16,
            GenLossMkiiParameter::Flutter(_) => 17,
            GenLossMkiiParameter::Saturate(_) => 18,
            GenLossMkiiParameter::Failure(_) => 19,
            GenLossMkiiParameter::RampSpeed(_) => 20,
            GenLossMkiiParameter::DryMode(_) => 22,
            GenLossMkiiParameter::NoiseMode(_) => 23,
            GenLossMkiiParameter::AuxMode(_) => 21,
            GenLossMkiiParameter::Bypass(_) => 102,
            GenLossMkiiParameter::AuxSwitch(_) => 103,
            GenLossMkiiParameter::AltMode(_) => 104,
            GenLossMkiiParameter::LeftSwitch(_) => 105,
            GenLossMkiiParameter::CenterSwitch(_) => 106,
            GenLossMkiiParameter::RightSwitch(_) => 107,
            GenLossMkiiParameter::DipWow(_) => 61,
            GenLossMkiiParameter::DipFlutter(_) => 62,
            GenLossMkiiParameter::DipSatGen(_) => 63,
            GenLossMkiiParameter::DipFailureHp(_) => 64,
            GenLossMkiiParameter::DipModelLp(_) => 65,
            GenLossMkiiParameter::DipBounce(_) => 66,
            GenLossMkiiParameter::DipRandom(_) => 67,
            GenLossMkiiParameter::DipSweep(_) => 68,
            GenLossMkiiParameter::DipPolarity(_) => 71,
            GenLossMkiiParameter::DipClassic(_) => 72,
            GenLossMkiiParameter::DipMiso(_) => 73,
            GenLossMkiiParameter::DipSpread(_) => 74,
            GenLossMkiiParameter::DipDryType(_) => 75,
            GenLossMkiiParameter::DipDropByp(_) => 76,
            GenLossMkiiParameter::DipSnagByp(_) => 77,
            GenLossMkiiParameter::DipHumByp(_) => 78,
            GenLossMkiiParameter::Expression(_) => 100,
            GenLossMkiiParameter::AuxOnsetTime(_) => 24,
            GenLossMkiiParameter::HissLevel(_) => 27,
            GenLossMkiiParameter::MechanicalNoise(_) => 28,
            GenLossMkiiParameter::CrinklePop(_) => 29,
            GenLossMkiiParameter::InputGain(_) => 32,
            GenLossMkiiParameter::DspBypass(_) => 26,
            GenLossMkiiParameter::PresetSave(_) => 111,
            GenLossMkiiParameter::RampBounce(_) => 52,
        }
    }

    /// The CC value for this parameter.
    pub fn cc_value(&self) -> (r: u8)
        ensures
            r == self.spec_cc_value(),
    {
        match self {
            GenLossMkiiParameter::Wow(v) => *v,
            GenLossMkiiParameter::Volume(v) => *v,
            GenLossMkiiParameter::Model(v) => v.to_cc_value(),
            GenLossMkiiParameter::Flutter(v) => *v,
            GenLossMkiiParameter::Saturate(v) => *v,
            GenLossMkiiParameter::Failure(v) => *v,
            GenLossMkiiParameter::RampSpeed(v) => *v,
            GenLossMkiiParameter::DryMode(v) => v.to_cc_value(),
            GenLossMkiiParameter::NoiseMode(v) => v.to_cc_value(),
            GenLossMkiiParameter::AuxMode(v) => v.to_cc_value(),
            GenLossMkiiParameter::Bypass(v) => switch_byte(*v),
            GenLossMkiiParameter::AuxSwitch(v) => switch_byte(*v),
            GenLossMkiiParameter::AltMode(v) => switch_byte(*v),
            GenLossMkiiParameter::LeftSwitch(v) => switch_byte(*v),
            GenLossMkiiParameter::CenterSwitch(v) => switch_byte(*v),
            GenLossMkiiParameter::RightSwitch(v) => switch_byte(*v),
            GenLossMkiiParameter::DipWow(v) => switch_byte(*v),
            GenLossMkiiParameter::DipFlutter(v) => switch_byte(*v),
            GenLossMkiiParameter::DipSatGen(v) => switch_byte(*v),
            GenLossMkiiParameter::DipFailureHp(v) => switch_byte(*v),
            GenLossMkiiParameter::DipModelLp(v) => switch_byte(*v),
            GenLossMkiiParameter::DipBounce(v) => switch_byte(*v),
            GenLossMkiiParameter::DipRandom(v) => switch_byte(*v),
            GenLossMkiiParameter::DipSweep(v) => v.to_cc_value(),
            GenLossMkiiParameter::DipPolarity(v) => v.to_cc_value(),
            GenLossMkiiParameter::DipClassic(v) => switch_byte(*v),
            GenLossMkiiParameter::DipMiso(v) => switch_byte(*v),
            GenLossMkiiParameter::DipSpread(v) => switch_byte(*v),
            GenLossMkiiParameter::DipDryType(v) => switch_byte(*v),
            GenLossMkiiParameter::DipDropByp(v) => switch_byte(*v),
            GenLossMkiiParameter::DipSnagByp(v) => switch_byte(*v),
            GenLossMkiiParameter::DipHumByp(v) => switch_byte(*v),
            GenLossMkiiParameter::Expression(v) => *v,
            GenLossMkiiParameter::AuxOnsetTime(v) => *v,
            GenLossMkiiParameter::HissLevel(v) => *v,
            GenLossMkiiParameter::MechanicalNoise(v) => *v,
            GenLossMkiiParameter::CrinklePop(v) => *v,
            GenLossMkiiParameter::InputGain(v) => v.to_cc_value(),
            GenLossMkiiParameter::DspBypass(v) => v.to_cc_value(),
            GenLossMkiiParameter::PresetSave(v) => *v,
            GenLossMkiiParameter::RampBounce(v) => switch_byte(*v),
        }
    }

    /// Human-readable name of the parameter.
    pub open spec fn spec_name(self) -> Seq<char> {
        match self {
            GenLossMkiiParameter::Wow(_) => "Wow"@,
            GenLossMkiiParameter::Volume(_) => "Volume"@,
            GenLossMkiiParameter::Model(_) => "Model"@,
            GenLossMkiiParameter::Flutter(_) => "Flutter"@,
            GenLossMkiiParameter::Saturate(_) => "Saturate"@,
            GenLossMkiiParameter::Failure(_) => "Failure"@,
            GenLossMkiiParameter::RampSpeed(_) => "Ramp Speed"@,
            GenLossMkiiParameter::DryMode(_) => "Dry Mode"@,
            GenLossMkiiParameter::NoiseMode(_) => "Noise Mode"@,
            GenLossMkiiParameter::AuxMode(_) => "Aux Mode"@,
            GenLossMkiiParameter::Bypass(_) => "Bypass"@,
            GenLossMkiiParameter::AuxSwitch(_) => "Aux Switch"@,
            GenLossMkiiParameter::AltMode(_) => "Alt Mode"@,
            GenLossMkiiParameter::LeftSwitch(_) => "Left Switch"@,
            GenLossMkiiParameter::CenterSwitch(_) => "Center Switch"@,
            GenLossMkiiParameter::RightSwitch(_) => "Right Switch"@,
            GenLossMkiiParameter::DipWow(_) => "DIP: Wow"@,
            GenLossMkiiParameter::DipFlutter(_) => "DIP: Flutter"@,
            GenLossMkiiParameter::DipSatGen(_) => "DIP: Sat/Gen"@,
            GenLossMkiiParameter::DipFailureHp(_) => "DIP: Failure/HP"@,
            GenLossMkiiParameter::DipModelLp(_) => "DIP: Model/LP"@,
            GenLossMkiiParameter::DipBounce(_) => "DIP: Bounce"@,
            GenLossMkiiParameter::DipRandom(_) => "DIP: Random"@,
            GenLossMkiiParameter::DipSweep(_) => "DIP: Sweep"@,
            GenLossMkiiParameter::DipPolarity(_) => "DIP: Polarity"@,
            GenLossMkiiParameter::DipClassic(_) => "DIP: Classic"@,
            GenLossMkiiParameter::DipMiso(_) => "DIP: Miso"@,
            GenLossMkiiParameter::DipSpread(_) => "DIP: Spread"@,
            GenLossMkiiParameter::DipDryType(_) => "DIP: Dry Type"@,
            GenLossMkiiParameter::DipDropByp(_) => "DIP: Drop Byp"@,
            GenLossMkiiParameter::DipSnagByp(_) => "DIP: Snag Byp"@,
            GenLossMkiiParameter::DipHumByp(_) => "DIP: Hum Byp"@,
            GenLossMkiiParameter::Expression(_) => "Expression"@,
            GenLossMkiiParameter::AuxOnsetTime(_) => "Aux Onset Time"@,
            GenLossMkiiParameter::HissLevel(_) => "Hiss Level"@,
            GenLossMkiiParameter::MechanicalNoise(_) => "Mechanical Noise"@,
            GenLossMkiiParameter::CrinklePop(_) => "Crinkle Pop"@,
            GenLossMkiiParameter::InputGain(_) => "Input Gain"@,
            GenLossMkiiParameter::DspBypass(_) => "DSP Bypass"@,
            GenLossMkiiParameter::PresetSave(_) => "Preset Save"@,
            GenLossMkiiParameter::RampBounce(_) => "Ramp/Bounce"@,
        }
    }

    /// Human-readable name of the parameter.
    pub fn name(&self) -> (r: &'static str)
        ensures
            r@ == self.spec_name(),
    {
        match self {
            GenLossMkiiParameter::Wow(_) => "Wow",
            GenLossMkiiParameter::Volume(_) => "Volume",
            GenLossMkiiParameter::Model(_) => "Model",
            GenLossMkiiParameter::Flutter(_) => "Flutter",
            GenLossMkiiParameter::Saturate(_) => "Saturate",
            GenLossMkiiParameter::Failure(_) => "Failure",
            GenLossMkiiParameter::RampSpeed(_) => "Ramp Speed",
            GenLossMkiiParameter::DryMode(_) => "Dry Mode",
            GenLossMkiiParameter::NoiseMode(_) => "Noise Mode",
            GenLossMkiiParameter::AuxMode(_) => "Aux Mode",
            GenLossMkiiParameter::Bypass(_) => "Bypass",
            GenLossMkiiParameter::AuxSwitch(_) => "Aux Switch",
            GenLossMkiiParameter::AltMode(_) => "Alt Mode",
            GenLossMkiiParameter::LeftSwitch(_) => "Left Switch",
            GenLossMkiiParameter::CenterSwitch(_) => "Center Switch",
            GenLossMkiiParameter::RightSwitch(_) => "Right Switch",
            GenLossMkiiParameter::DipWow(_) => "DIP: Wow",
            GenLossMkiiParameter::DipFlutter(_) => "DIP: Flutter",
            GenLossMkiiParameter::DipSatGen(_) => "DIP: Sat/Gen",
            GenLossMkiiParameter::DipFailureHp(_) => "DIP: Failure/HP",
            GenLossMkiiParameter::DipModelLp(_) => "DIP: Model/LP",
            GenLossMkiiParameter::DipBounce(_) => "DIP: Bounce",
            GenLossMkiiParameter::DipRandom(_) => "DIP: Random",
            GenLossMkiiParameter::DipSweep(_) => "DIP: Sweep",
            GenLossMkiiParameter::DipPolarity(_) => "DIP: Polarity",
            GenLossMkiiParameter::DipClassic(_) => "DIP: Classic",
            GenLossMkiiParameter::DipMiso(_) => "DIP: Miso",
            GenLossMkiiParameter::DipSpread(_) => "DIP: Spread",
            GenLossMkiiParameter::DipDryType(_) => "DIP: Dry Type",
            GenLossMkiiParameter::DipDropByp(_) => "DIP: Drop Byp",
            GenLossMkiiParameter::DipSnagByp(_) => "DIP: Snag Byp",
            GenLossMkiiParameter::DipHumByp(_) => "DIP: Hum Byp",
            GenLossMkiiParameter::Expression(_) => "Expression",
            GenLossMkiiParameter::AuxOnsetTime(_) => "Aux Onset Time",
            GenLossMkiiParameter::HissLevel(_) => "Hiss Level",
            GenLossMkiiParameter::MechanicalNoise(_) => "Mechanical Noise",
            GenLossMkiiParameter::CrinklePop(_) => "Crinkle Pop",
            GenLossMkiiParameter::InputGain(_) => "Input Gain",
            GenLossMkiiParameter::DspBypass(_) => "DSP Bypass",
            GenLossMkiiParameter::PresetSave(_) => "Preset Save",
            GenLossMkiiParameter::RampBounce(_) => "Ramp/Bounce",
        }
    }
}

/// The catalogue position of the Generation Loss MKII parameter carried on `cc`, or -1
/// where no parameter uses that number.
pub open spec fn gen_loss_kind_of_cc(cc: u8) -> int {
    match cc {
        14 => 0,
        15 => 1,
        16 => 2,
        17 => 3,
        18 => 4,
        19 => 5,
        20 => 6,
        22 => 7,
        23 => 8,
        21 => 9,
        102 => 10,
        103 => 11,
        104 => 12,
        105 => 13,
        106 => 14,
        107 => 15,
        61 => 16,
        62 => 17,
        63 => 18,
        64 => 19,
        65 => 20,
        66 => 21,
        67 => 22,
        68 => 23,
        71 => 24,
        72 => 25,
        73 => 26,
        74 => 27,
        75 => 28,
        76 => 29,
        77 => 30,
        78 => 31,
        100 => 32,
        24 => 33,
        27 => 34,
        28 => 35,
        29 => 36,
        32 => 37,
        26 => 38,
        111 => 39,
        52 => 40,
        _ => -1,
    }
}

/// Every Generation Loss MKII parameter is carried on a CC number of its own: two
/// parameters that share a CC number are of the same kind.
pub proof fn lemma_gen_loss_cc_injective(p: GenLossMkiiParameter, q: GenLossMkiiParameter)
    ensures
        gen_loss_kind_of_cc(p.spec_cc_number()) == p.kind(),
        p.spec_cc_number() == q.spec_cc_number() ==> p.kind() == q.kind(),
{
}

/// Complete shadow state of a Generation Loss MKII.
#[derive(Debug, Clone, Copy, PartialEq, Eq, Structural)]
pub struct GenLossMkiiState {
    /// CC 14.
    pub wow: u8,
    /// CC 15.
    pub volume: u8,
    /// CC 16.
    pub model: TapeModel,
    /// CC 17.
    pub flutter: u8,
    /// CC 18.
    pub saturate: u8,
    /// CC 19.
    pub failure: u8,
    /// CC 20.
    pub ramp_speed: u8,
    /// CC 22.
    pub dry_mode: DryMode,
    /// CC 23.
    pub noise_mode: NoiseMode,
    /// CC 21.
    pub aux_mode: AuxMode,
    /// CC 102.
    pub bypass: bool,
    /// CC 103.
    pub aux_switch: bool,
    /// CC 104.
    pub alt_mode: bool,
    /// CC 105.
    pub left_switch: bool,
    /// CC 106.
    pub center_switch: bool,
    /// CC 107.
    pub right_switch: bool,
    /// CC 61.
    pub dip_wow: bool,
    /// CC 62.
    pub dip_flutter: bool,
    /// CC 63.
    pub dip_sat_gen: bool,
    /// CC 64.
    pub dip_failure_hp: bool,
    /// CC 65.
    pub dip_model_lp: bool,
    /// CC 66.
    pub dip_bounce: bool,
    /// CC 67.
    pub dip_random: bool,
    /// CC 68.
    pub dip_sweep: SweepDirection,
    /// CC 71.
    pub dip_polarity: Polarity,
    /// CC 72.
    pub dip_classic: bool,
    /// CC 73.
    pub dip_miso: bool,
    /// CC 74.
    pub dip_spread: bool,
    /// CC 75.
    pub dip_dry_type: bool,
    /// CC 76.
    pub dip_drop_byp: bool,
    /// CC 77.
    pub dip_snag_byp: bool,
    /// CC 78.
    pub dip_hum_byp: bool,
    /// CC 100.
    pub expression: u8,
    /// CC 24.
    pub aux_onset_time: u8,
    /// CC 27.
    pub hiss_level: u8,
    /// CC 28.
    pub mechanical_noise: u8,
    /// CC 29.
    pub crinkle_pop: u8,
    /// CC 32.
    pub input_gain: InputGain,
    /// CC 26.
    pub dsp_bypass: DspBypassMode,
    /// CC 52.
    pub ramp_bounce: bool,
}

impl GenLossMkiiState {
    /// The state a device is assumed to be in when it connects.
    pub open spec fn spec_default() -> GenLossMkiiState {
        GenLossMkiiState {
            wow: 64,
            volume: 100,
            model: TapeModel::NoModel,
            flutter: 64,
            saturate: 64,
            failure: 0,
            ramp_speed: 64,
            dry_mode: DryMode::Dry1,
            noise_mode: NoiseMode::Noise1,
            aux_mode: AuxMode::Aux1,
            bypass: false,
            aux_switch: false,
            alt_mode: false,
            left_switch: false,
            center_switch: false,
            right_switch: false,
            dip_wow: false,
            dip_flutter: false,
            dip_sat_gen: false,
            dip_failure_hp: false,
            dip_model_lp: false,
            dip_bounce: false,
            dip_random: false,
            dip_sweep: SweepDirection::Bottom,
            dip_polarity: Polarity::Forward,
            dip_classic: false,
            dip_miso: false,
            dip_spread: false,
            dip_dry_type: false,
            dip_drop_byp: false,
            dip_snag_byp: false,
            dip_hum_byp: false,
            expression: 0,
            aux_onset_time: 64,
            hiss_level: 32,
            mechanical_noise: 32,
            crinkle_pop: 32,
            input_gain: InputGain::InstrumentLevel,
            dsp_bypass: DspBypassMode::TrueBypass,
            ramp_bounce: false,
        }
    }

    /// This state with one parameter change applied; trigger parameters leave
    /// it unchanged.
    pub open spec fn with_parameter(self, p: GenLossMkiiParameter) -> GenLossMkiiState {
        match p {
            GenLossMkiiParameter::Wow(v) => GenLossMkiiState { wow: v, ..self },
            GenLossMkiiParameter::Volume(v) => GenLossMkiiState { volume: v, ..self },
            GenLossMkiiParameter::Model(v) => GenLossMkiiState { model: v, ..self },
            GenLossMkiiParameter::Flutter(v) => GenLossMkiiState { flutter: v, ..self },
            GenLossMkiiParameter::Saturate(v) => GenLossMkiiState { saturate: v, ..self },
            GenLossMkiiParameter::Failure(v) => GenLossMkiiState { failure: v, ..self },
            GenLossMkiiParameter::RampSpeed(v) => GenLossMkiiState { ramp_speed: v, ..self },
            GenLossMkiiParameter::DryMode(v) => GenLossMkiiState { dry_mode: v, ..self },
            GenLossMkiiParameter::NoiseMode(v) => GenLossMkiiState { noise_mode: v, ..self },
            GenLossMkiiParameter::AuxMode(v) => GenLossMkiiState { aux_mode: v, ..self },
            GenLossMkiiParameter::Bypass(v) => GenLossMkiiState { bypass: v, ..self },
            GenLossMkiiParameter::AuxSwitch(v) => GenLossMkiiState { aux_switch: v, ..self },
            GenLossMkiiParameter::AltMode(v) => GenLossMkiiState { alt_mode: v, ..self },
            GenLossMkiiParameter::LeftSwitch(v) => GenLossMkiiState { left_switch: v, ..self },
            GenLossMkiiParameter::CenterSwitch(v) => GenLossMkiiState { center_switch: v, ..self },
            GenLossMkiiParameter::RightSwitch(v) => GenLossMkiiState { right_switch: v, ..self },
            GenLossMkiiParameter::DipWow(v) => GenLossMkiiState { dip_wow: v, ..self },
            GenLossMkiiParameter::DipFlutter(v) => GenLossMkiiState { dip_flutter: v, ..self },
            GenLossMkiiParameter::DipSatGen(v) => GenLossMkiiState { dip_sat_gen: v, ..self },
            GenLossMkiiParameter::DipFailureHp(v) => GenLossMkiiState { dip_failure_hp: v, ..self },
            GenLossMkiiParameter::DipModelLp(v) => GenLossMkiiState { dip_model_lp: v, ..self },
            GenLossMkiiParameter::DipBounce(v) => GenLossMkiiState { dip_bounce: v, ..self },
            GenLossMkiiParameter::DipRandom(v) => GenLossMkiiState { dip_random: v, ..self },
            GenLossMkiiParameter::DipSweep(v) => GenLossMkiiState { dip_sweep: v, ..self },
            GenLossMkiiParameter::DipPolarity(v) => GenLossMkiiState { dip_polarity: v, ..self },
            GenLossMkiiParameter::DipClassic(v) => GenLossMkiiState { dip_classic: v, ..self },
            GenLossMkiiParameter::DipMiso(v) => GenLossMkiiState { dip_miso: v, ..self },
            GenLossMkiiParameter::DipSpread(v) => GenLossMkiiState { dip_spread: v, ..self },
            GenLossMkiiParameter::DipDryType(v) => GenLossMkiiState { dip_dry_type: v, ..self },
            GenLossMkiiParameter::DipDropByp(v) => GenLossMkiiState { dip_drop_byp: v, ..self },
            GenLossMkiiParameter::DipSnagByp(v) => GenLossMkiiState { dip_snag_byp: v, ..self },
            GenLossMkiiParameter::DipHumByp(v) => GenLossMkiiState { dip_hum_byp: v, ..self },
            GenLossMkiiParameter::Expression(v) => GenLossMkiiState { expression: v, ..self },
            GenLossMkiiParameter::AuxOnsetTime(v) => GenLossMkiiState { aux_onset_time: v, ..self },
            GenLossMkiiParameter::HissLevel(v) => GenLossMkiiState { hiss_level: v, ..self },
            GenLossMkiiParameter::MechanicalNoise(v) => GenLossMkiiState { mechanical_noise: v, ..self },
            GenLossMkiiParameter::CrinklePop(v) => GenLossMkiiState { crinkle_pop: v, ..self },
            GenLossMkiiParameter::InputGain(v) => GenLossMkiiState { input_gain: v, ..self },
            GenLossMkiiParameter::DspBypass(v) => GenLossMkiiState { dsp_bypass: v, ..self },
            GenLossMkiiParameter::RampBounce(v) => GenLossMkiiState { ramp_bounce: v, ..self },
            _ => self,
        }
    }

    /// The CC map that a full recall sends: every stored parameter.
    pub open spec fn spec_cc_map(self) -> Map<u8, u8> {
        self.cc_entries_c(self.cc_entries_b(self.cc_entries_a(Map::empty())))
    }

    /// `m` with the entries of group a of the recall map added.
    pub open spec fn cc_entries_a(self, m: Map<u8, u8>) -> Map<u8, u8> {
        m
            .insert(14, self.wow)
            .insert(15, self.volume)
            .insert(16, self.model.spec_cc_value())
            .insert(17, self.flutter)
            .insert(18, self.saturate)
            .insert(19, self.failure)
            .insert(20, self.ramp_speed)
            .insert(21, self.aux_mode.spec_cc_value())
            .insert(22, self.dry_mode.spec_cc_value())
            .insert(23, self.noise_mode.spec_cc_value())
            .insert(102, spec_switch_byte(self.bypass))
            .insert(103, spec_switch_byte(self.aux_switch))
            .insert(104, spec_switch_byte(self.alt_mode))
            .insert(105, spec_switch_byte(self.left_switch))
    }

    fn insert_cc_entries_a(&self, map: &mut HashMap<u8, u8>)
        ensures
            final(map)@ == self.cc_entries_a(old(map)@),
    {
        map.insert(14, self.wow);
        map.insert(15, self.volume);
        map.insert(16, self.model.to_cc_value());
        map.insert(17, self.flutter);
        map.insert(18, self.saturate);
        map.insert(19, self.failure);
        map.insert(20, self.ramp_speed);
        map.insert(21, self.aux_mode.to_cc_value());
        map.insert(22, self.dry_mode.to_cc_value());
        map.insert(23, self.noise_mode.to_cc_value());
        map.insert(102, switch_byte(self.bypass));
        map.insert(103, switch_byte(self.aux_switch));
        map.insert(104, switch_byte(self.alt_mode));
        map.insert(105, switch_byte(self.left_switch));
    }

    /// `m` with the entries of group b of the recall map added.
    pub open spec fn cc_entries_b(self, m: Map<u8, u8>) -> Map<u8, u8> {
        m
            .insert(106, spec_switch_byte(self.center_switch))
            .insert(107, spec_switch_byte(self.right_switch))
            .insert(61, spec_switch_byte(self.dip_wow))
            .insert(62, spec_switch_byte(self.dip_flutter))
            .insert(63, spec_switch_byte(self.dip_sat_gen))
            .insert(64, spec_switch_byte(self.dip_failure_hp))
            .insert(65, spec_switch_byte(self.dip_model_lp))
            .insert(66, spec_switch_byte(self.dip_bounce))
            .insert(67, spec_switch_byte(self.dip_random))
            .insert(68, self.dip_sweep.spec_cc_value())
            .insert(71, self.dip_polarity.spec_cc_value())
            .insert(72, spec_switch_byte(self.dip_classic))
            .insert(73, spec_switch_byte(self.dip_miso))
            .insert(74, spec_switch_byte(self.dip_spread))
    }

    fn insert_cc_entries_b(&self, map: &mut HashMap<u8, u8>)
        ensures
            final(map)@ == self.cc_entries_b(old(map)@),
    {
        map.insert(106, switch_byte(self.center_switch));
        map.insert(107, switch_byte(self.right_switch));
        map.insert(61, switch_byte(self.dip_wow));
        map.insert(62, switch_byte(self.dip_flutter));
        map.insert(63, switch_byte(self.dip_sat_gen));
        map.insert(64, switch_byte(self.dip_failure_hp));
        map.insert(65, switch_byte(self.dip_model_lp));
        map.insert(66, switch_byte(self.dip_bounce));
        map.insert(67, switch_byte(self.dip_random));
        map.insert(68, self.dip_sweep.to_cc_value());
        map.insert(71, self.dip_polarity.to_cc_value());
        map.insert(72, switch_byte(self.dip_classic));
        map.insert(73, switch_byte(self.dip_miso));
        map.insert(74, switch_byte(self.dip_spread));
    }

    /// `m` with the entries of group c of the recall map added.
    pub open spec fn cc_entries_c(self, m: Map<u8, u8>) -> Map<u8, u8> {
        m
            .insert(75, spec_switch_byte(self.dip_dry_type))
            .insert(76, spec_switch_byte(self.dip_drop_byp))
            .insert(77, spec_switch_byte(self.dip_snag_byp))
            .insert(78, spec_switch_byte(self.dip_hum_byp))
            .insert(100, self.expression)
            .insert(24, self.aux_onset_time)
            .insert(27, self.hiss_level)
            .insert(28, self.mechanical_noise)
            .insert(29, self.crinkle_pop)
            .insert(32, self.input_gain.spec_cc_value())
            .insert(26, self.dsp_bypass.spec_cc_value())
            .insert(52, spec_switch_byte(self.ramp_bounce))
    }

    fn insert_cc_entries_c(&self, map: &mut HashMap<u8, u8>)
        ensures
            final(map)@ == self.cc_entries_c(old(map)@),
    {
        map.insert(75, switch_byte(self.dip_dry_type));
        map.insert(76, switch_byte(self.dip_drop_byp));
        map.insert(77, switch_byte(self.dip_snag_byp));
        map.insert(78, switch_byte(self.dip_hum_byp));
        map.insert(100, self.expression);
        map.insert(24, self.aux_onset_time);
        map.insert(27, self.hiss_level);
        map.insert(28, self.mechanical_noise);
        map.insert(29, self.crinkle_pop);
        map.insert(32, self.input_gain.to_cc_value());
        map.insert(26, self.dsp_bypass.to_cc_value());
        map.insert(52, switch_byte(self.ramp_bounce));
    }

    /// The `{cc number -> byte}` map that reproduces this state on the device.
    pub fn to_cc_map(&self) -> (r: HashMap<u8, u8>)
        ensures
            r@ == self.spec_cc_map(),
    {
        let mut map: HashMap<u8, u8> = HashMap::new();
        self.insert_cc_entries_a(&mut map);
        self.insert_cc_entries_b(&mut map);
        self.insert_cc_entries_c(&mut map);
        map
    }

    /// This state with one parameter change applied.
    pub fn applied(&self, param: &GenLossMkiiParameter) -> (r: GenLossMkiiState)
        ensures
            r == self.with_parameter(*param),
    {
        match param {
            GenLossMkiiParameter::Wow(v) => GenLossMkiiState { wow: *v, ..*self },
            GenLossMkiiParameter::Volume(v) => GenLossMkiiState { volume: *v, ..*self },
            GenLossMkiiParameter::Model(v) => GenLossMkiiState { model: *v, ..*self },
            GenLossMkiiParameter::Flutter(v) => GenLossMkiiState { flutter: *v, ..*self },
            GenLossMkiiParameter::Saturate(v) => GenLossMkiiState { saturate: *v, ..*self },
            GenLossMkiiParameter::Failure(v) => GenLossMkiiState { failure: *v, ..*self },
            GenLossMkiiParameter::RampSpeed(v) => GenLossMkiiState { ramp_speed: *v, ..*self },
            GenLossMkiiParameter::DryMode(v) => GenLossMkiiState { dry_mode: *v, ..*self },
            GenLossMkiiParameter::NoiseMode(v) => GenLossMkiiState { noise_mode: *v, ..*self },
            GenLossMkiiParameter::AuxMode(v) => GenLossMkiiState { aux_mode: *v, ..*self },
            GenLossMkiiParameter::Bypass(v) => GenLossMkiiState { bypass: *v, ..*self },
            GenLossMkiiParameter::AuxSwitch(v) => GenLossMkiiState { aux_switch: *v, ..*self },
            GenLossMkiiParameter::AltMode(v) => GenLossMkiiState { alt_mode: *v, ..*self },
            GenLossMkiiParameter::LeftSwitch(v) => GenLossMkiiState { left_switch: *v, ..*self },
            GenLossMkiiParameter::CenterSwitch(v) => GenLossMkiiState { center_switch: *v, ..*self },
            GenLossMkiiParameter::RightSwitch(v) => GenLossMkiiState { right_switch: *v, ..*self },
            GenLossMkiiParameter::DipWow(v) => GenLossMkiiState { dip_wow: *v, ..*self },
            GenLossMkiiParameter::DipFlutter(v) => GenLossMkiiState { dip_flutter: *v, ..*self },
            GenLossMkiiParameter::DipSatGen(v) => GenLossMkiiState { dip_sat_gen: *v, ..*self },
            GenLossMkiiParameter::DipFailureHp(v) => GenLossMkiiState { dip_failure_hp: *v, ..*self },
            GenLossMkiiParameter::DipModelLp(v) => GenLossMkiiState { dip_model_lp: *v, ..*self },
            GenLossMkiiParameter::DipBounce(v) => GenLossMkiiState { dip_bounce: *v, ..*self },
            GenLossMkiiParameter::DipRandom(v) => GenLossMkiiState { dip_random: *v, ..*self },
            GenLossMkiiParameter::DipSweep(v) => GenLossMkiiState { dip_sweep: *v, ..*self },
            GenLossMkiiParameter::DipPolarity(v) => GenLossMkiiState { dip_polarity: *v, ..*self },
            GenLossMkiiParameter::DipClassic(v) => GenLossMkiiState { dip_classic: *v, ..*self },
            GenLossMkiiParameter::DipMiso(v) => GenLossMkiiState { dip_miso: *v, ..*self },
            GenLossMkiiParameter::DipSpread(v) => GenLossMkiiState { dip_spread: *v, ..*self },
            GenLossMkiiParameter::DipDryType(v) => GenLossMkiiState { dip_dry_type: *v, ..*self },
            GenLossMkiiParameter::DipDropByp(v) => GenLossMkiiState { dip_drop_byp: *v, ..*self },
            GenLossMkiiParameter::DipSnagByp(v) => GenLossMkiiState { dip_snag_byp: *v, ..*self },
            GenLossMkiiParameter::DipHumByp(v) => GenLossMkiiState { dip_hum_byp: *v, ..*self },
            GenLossMkiiParameter::Expression(v) => GenLossMkiiState { expression: *v, ..*self },
            GenLossMkiiParameter::AuxOnsetTime(v) => GenLossMkiiState { aux_onset_time: *v, ..*self },
            GenLossMkiiParameter::HissLevel(v) => GenLossMkiiState { hiss_level: *v, ..*self },
            GenLossMkiiParameter::MechanicalNoise(v) => GenLossMkiiState { mechanical_noise: *v, ..*self },
            GenLossMkiiParameter::CrinklePop(v) => GenLossMkiiState { crinkle_pop: *v, ..*self },
            GenLossMkiiParameter::InputGain(v) => GenLossMkiiState { input_gain: *v, ..*self },
            GenLossMkiiParameter::DspBypass(v) => GenLossMkiiState { dsp_bypass: *v, ..*self },
            GenLossMkiiParameter::RampBounce(v) => GenLossMkiiState { ramp_bounce: *v, ..*self },
            _ => *self,
        }
    }
}

impl Default for GenLossMkiiState {
    fn default() -> (r: Self)
        ensures
            r == GenLossMkiiState::spec_default(),
    {
        GenLossMkiiState {
            wow: 64,
            volume: 100,
            model: TapeModel::NoModel,
            flutter: 64,
            saturate: 64,
            failure: 0,
            ramp_speed: 64,
            dry_mode: DryMode::Dry1,
            noise_mode: NoiseMode::Noise1,
            aux_mode: AuxMode::Aux1,
            bypass: false,
            aux_switch: false,
            alt_mode: false,
            left_switch: false,
            center_switch: false,
            right_switch: false,
            dip_wow: false,
            dip_flutter: false,
            dip_sat_gen: false,
            dip_failure_hp: false,
            dip_model_lp: false,
            dip_bounce: false,
            dip_random: false,
            dip_sweep: SweepDirection::Bottom,
            dip_polarity: Polarity::Forward,
            dip_classic: false,
            dip_miso: false,
            dip_spread: false,
            dip_dry_type: false,
            dip_drop_byp: false,
            dip_snag_byp: false,
            dip_hum_byp: false,
            expression: 0,
            aux_onset_time: 64,
            hiss_level: 32,
            mechanical_noise: 32,
            crinkle_pop: 32,
            input_gain: InputGain::InstrumentLevel,
            dsp_bypass: DspBypassMode::TrueBypass,
            ramp_bounce: false,
        }
    }
}

/// A connected Generation Loss MKII: its shadow state and MIDI channel.
#[derive(Debug, Clone, Copy, PartialEq, Eq, Structural)]
pub struct GenLossMkii {
    pub state: GenLossMkiiState,
    pub midi_channel: u8,
}

impl GenLossMkii {
    /// A Generation Loss MKII in its default state.
    pub fn new(midi_channel: u8) -> (r: GenLossMkii)
        ensures
            r.state == GenLossMkiiState::spec_default(),
            r.midi_channel == midi_channel,
    {
        GenLossMkii { state: GenLossMkiiState::default(), midi_channel }
    }

    /// Records a parameter change that was sent to the device; a preset save changes no stored parameter.
    pub fn update_state(&mut self, param: &GenLossMkiiParameter)
        ensures
            final(self).state == old(self).state.with_parameter(*param),
            final(self).midi_channel == old(self).midi_channel,
    {
        self.state = self.state.applied(param);
    }

    /// The CC map that reproduces the current state.
    pub fn state_as_cc_map(&self) -> (r: HashMap<u8, u8>)
        ensures
            r@ == self.state.spec_cc_map(),
    {
        self.state.to_cc_map()
    }

    /// Name and capabilities of the pedal.
    pub fn metadata(&self) -> (r: PedalMetadata)
        ensures
            r.name@ == "GenLossMkii"@,
            r.manufacturer@ == "Chase Bliss Audio"@,
            !r.supports_editor,
            !r.supports_preset_library,
    {
        PedalMetadata {
            name: "GenLossMkii",
            manufacturer: "Chase Bliss Audio",
            supports_editor: false,
            supports_preset_library: false,
        }
    }

    /// The Generation Loss MKII takes no Program Change.
    pub fn supports_program_change(&self) -> (r: bool)
        ensures
            !r,
    {
        false
    }
}

} // verus!
