//! Chase Bliss Preamp MK II: parameter catalogue, CC codec and shadow state.

use crate::codec::{inverted_switch_byte, spec_inverted_switch_byte};
use crate::pedals::PedalMetadata;
use std::collections::HashMap;
use vstd::prelude::*;

verus! {

pub const CC_VOLUME: u8 = 14;
pub const CC_TREBLE: u8 = 15;
pub const CC_MIDS: u8 = 16;
pub const CC_FREQUENCY: u8 = 17;
pub const CC_BASS: u8 = 18;
pub const CC_GAIN: u8 = 19;
pub const CC_JUMP: u8 = 22;
pub const CC_MIDS_POSITION: u8 = 23;
pub const CC_Q_RESONANCE: u8 = 24;
pub const CC_DIODE_CLIPPING: u8 = 25;
pub const CC_FUZZ_MODE: u8 = 26;
pub const CC_PRESET_SAVE: u8 = 27;
pub const CC_EXPRESSION: u8 = 100;
pub const CC_BYPASS: u8 = 102;

/// Highest preset slot; slots are numbered from 0.
pub const MAX_PRESET_SLOT: u8 = 29;

/// Preset jump (CC 22): off, or jump to preset 0 or 5.
#[derive(Debug, Clone, Copy, PartialEq, Eq, Structural)]
pub enum Jump {
    Off,
    Zero,
    Five,
}

impl Jump {
    /// The byte sent for this value.
    pub open spec fn spec_cc_value(self) -> u8 {
        match self {
            Jump::Off => 1,
            Jump::Zero => 2,
            Jump::Five => 3,
        }
    }

    /// The value a received byte stands for; bytes outside 1..=3 read as Off.
    pub open spec fn spec_from_cc(value: u8) -> Jump {
        if value == 2 {
            Jump::Zero
        } else if value == 3 {
            Jump::Five
        } else {
            Jump::Off
        }
    }

    /// Encodes the value as a CC byte.
    pub fn to_cc_value(&self) -> (r: u8)
        ensures
            r == self.spec_cc_value(),
            1 <= r <= 3,
    {
        match self {
            Jump::Off => 1,
            Jump::Zero => 2,
            Jump::Five => 3,
        }
    }

    /// Decodes a CC byte; bytes outside 1..=3 read as Off.
    pub fn from_cc_value(value: u8) -> (r: Jump)
        ensures
            r == Jump::spec_from_cc(value),
    {
        if value == 2 {
            Jump::Zero
        } else if value == 3 {
            Jump::Five
        } else {
            Jump::Off
        }
    }

    /// Human-readable name.
    pub open spec fn spec_name(self) -> Seq<char> {
        match self {
            Jump::Off => "Off"@,
            Jump::Zero => "Jump to 0"@,
            Jump::Five => "Jump to 5"@,
        }
    }

    /// Human-readable name.
    pub fn name(&self) -> (r: &'static str)
        ensures
            r@ == self.spec_name(),
    {
        match self {
            Jump::Off => "Off",
            Jump::Zero => "Jump to 0",
            Jump::Five => "Jump to 5",
        }
    }
}

/// Decoding the byte that a `Jump` encodes to gives that value back.
pub proof fn lemma_jump_codec(v: Jump)
    ensures
        Jump::spec_from_cc(v.spec_cc_value()) == v,
{
}

/// Position of the mids control (CC 23).
#[derive(Debug, Clone, Copy, PartialEq, Eq, Structural)]
pub enum MidsPosition {
    Off,
    Pre,
    Post,
}

impl MidsPosition {
    /// The byte sent for this value.
    pub open spec fn spec_cc_value(self) -> u8 {
        match self {
            MidsPosition::Off => 1,
            MidsPosition::Pre => 2,
            MidsPosition::Post => 3,
        }
    }

    /// The value a received byte stands for; bytes outside 1..=3 read as Off.
    pub open spec fn spec_from_cc(value: u8) -> MidsPosition {
        if value == 2 {
            MidsPosition::Pre
        } else if value == 3 {
            MidsPosition::Post
        } else {
            MidsPosition::Off
        }
    }

    /// Encodes the value as a CC byte.
    pub fn to_cc_value(&self) -> (r: u8)
        ensures
            r == self.spec_cc_value(),
            1 <= r <= 3,
    {
        match self {
            MidsPosition::Off => 1,
            MidsPosition::Pre => 2,
            MidsPosition::Post => 3,
        }
    }

    /// Decodes a CC byte; bytes outside 1..=3 read as Off.
    pub fn from_cc_value(value: u8) -> (r: MidsPosition)
        ensures
            r == MidsPosition::spec_from_cc(value),
    {
        if value == 2 {
            MidsPosition::Pre
        } else if value == 3 {
            MidsPosition::Post
        } else {
            MidsPosition::Off
        }
    }

    /// Human-readable name.
    pub open spec fn spec_name(self) -> Seq<char> {
        match self {
            MidsPosition::Off => "Off"@,
            MidsPosition::Pre => "Pre"@,
            MidsPosition::Post => "Post"@,
        }
    }

    /// Human-readable name.
    pub fn name(&self) -> (r: &'static str)
        ensures
            r@ == self.spec_name(),
    {
        match self {
            MidsPosition::Off => "Off",
            MidsPosition::Pre => "Pre",
            MidsPosition::Post => "Post",
        }
    }
}

/// Decoding the byte that a `MidsPosition` encodes to gives that value back.
pub proof fn lemma_mids_position_codec(v: MidsPosition)
    ensures
        MidsPosition::spec_from_cc(v.spec_cc_value()) == v,
{
}

/// Width of the mids band (CC 24).
#[derive(Debug, Clone, Copy, PartialEq, Eq, Structural)]
pub enum QResonance {
    Low,
    Mid,
    High,
}

impl QResonance {
    /// The byte sent for this value.
    pub open spec fn spec_cc_value(self) -> u8 {
        match self {
            QResonance::Low => 1,
            QResonance::Mid => 2,
            QResonance::High => 3,
        }
    }

    /// The value a received byte stands for; bytes outside 1..=3 read as Mid.
    pub open spec fn spec_from_cc(value: u8) -> QResonance {
        if value == 1 {
            QResonance::Low
        } else if value == 3 {
            QResonance::High
        } else {
            QResonance::Mid
        }
    }

    /// Encodes the value as a CC byte.
    pub fn to_cc_value(&self) -> (r: u8)
        ensures
            r == self.spec_cc_value(),
            1 <= r <= 3,
    {
        match self {
            QResonance::Low => 1,
            QResonance::Mid => 2,
            QResonance::High => 3,
        }
    }

    /// Decodes a CC byte; bytes outside 1..=3 read as Mid.
    pub fn from_cc_value(value: u8) -> (r: QResonance)
        ensures
            r == QResonance::spec_from_cc(value),
    {
        if value == 1 {
            QResonance::Low
        } else if value == 3 {
            QResonance::High
        } else {
            QResonance::Mid
        }
    }

    /// Human-readable name.
    pub open spec fn spec_name(self) -> Seq<char> {
        match self {
            QResonance::Low => "Low"@,
            QResonance::Mid => "Mid"@,
            QResonance::High => "High"@,
        }
    }

    /// Human-readable name.
    pub fn name(&self) -> (r: &'static str)
        ensures
            r@ == self.spec_name(),
    {
        match self {
            QResonance::Low => "Low",
            QResonance::Mid => "Mid",
            QResonance::High => "High",
        }
    }
}

/// Decoding the byte that a `QResonance` encodes to gives that value back.
pub proof fn lemma_q_resonance_codec(v: QResonance)
    ensures
        QResonance::spec_from_cc(v.spec_cc_value()) == v,
{
}

/// Diode clipping (CC 25).
#[derive(Debug, Clone, Copy, PartialEq, Eq, Structural)]
pub enum DiodeClipping {
    Off,
    Silicon,
    Germanium,
}

impl DiodeClipping {
    /// The byte sent for this value.
    pub open spec fn spec_cc_value(self) -> u8 {
        match self {
            DiodeClipping::Off => 1,
            DiodeClipping::Silicon => 2,
            DiodeClipping::Germanium => 3,
        }
    }

    /// The value a received byte stands for; bytes outside 1..=3 read as Off.
    pub open spec fn spec_from_cc(value: u8) -> DiodeClipping {
        if value == 2 {
            DiodeClipping::Silicon
        } else if value == 3 {
            DiodeClipping::Germanium
        } else {
            DiodeClipping::Off
        }
    }

    /// Encodes the value as a CC byte.
    pub fn to_cc_value(&self) -> (r: u8)
        ensures
            r == self.spec_cc_value(),
            1 <= r <= 3,
    {
        match self {
            DiodeClipping::Off => 1,
            DiodeClipping::Silicon => 2,
            DiodeClipping::Germanium => 3,
        }
    }

    /// Decodes a CC byte; bytes outside 1..=3 read as Off.
    pub fn from_cc_value(value: u8) -> (r: DiodeClipping)
        ensures
            r == DiodeClipping::spec_from_cc(value),
    {
        if value == 2 {
            DiodeClipping::Silicon
        } else if value == 3 {
            DiodeClipping::Germanium
        } else {
            DiodeClipping::Off
        }
    }

    /// Human-readable name.
    pub open spec fn spec_name(self) -> Seq<char> {
        match self {
            DiodeClipping::Off => "Off"@,
            DiodeClipping::Silicon => "Silicon"@,
            DiodeClipping::Germanium => "Germanium"@,
        }
    }

    /// Human-readable name.
    pub fn name(&self) -> (r: &'static str)
        ensures
            r@ == self.spec_name(),
    {
        match self {
            DiodeClipping::Off => "Off",
            DiodeClipping::Silicon => "Silicon",
            DiodeClipping::Germanium => "Germanium",
        }
    }
}

/// Decoding the byte that a `DiodeClipping` encodes to gives that value back.
pub proof fn lemma_diode_clipping_codec(v: DiodeClipping)
    ensures
        DiodeClipping::spec_from_cc(v.spec_cc_value()) == v,
{
}

/// Fuzz mode (CC 26).
#[derive(Debug, Clone, Copy, PartialEq, Eq, Structural)]
pub enum FuzzMode {
    Off,
    Open,
    Gated,
}

impl FuzzMode {
    /// The byte sent for this value.
    pub open spec fn spec_cc_value(self) -> u8 {
        match self {
            FuzzMode::Off => 1,
            FuzzMode::Open => 2,
            FuzzMode::Gated => 3,
        }
    }

    /// The value a received byte stands for; bytes outside 1..=3 read as Off.
    pub open spec fn spec_from_cc(value: u8) -> FuzzMode {
        if value == 2 {
            FuzzMode::Open
        } else if value == 3 {
            FuzzMode::Gated
        } else {
            FuzzMode::Off
        }
    }

    /// Encodes the value as a CC byte.
    pub fn to_cc_value(&self) -> (r: u8)
        ensures
            r == self.spec_cc_value(),
            1 <= r <= 3,
    {
        match self {
            FuzzMode::Off => 1,
            FuzzMode::Open => 2,
            FuzzMode::Gated => 3,
        }
    }

    /// Decodes a CC byte; bytes outside 1..=3 read as Off.
    pub fn from_cc_value(value: u8) -> (r: FuzzMode)
        ensures
            r == FuzzMode::spec_from_cc(value),
    {
        if value == 2 {
            FuzzMode::Open
        } else if value == 3 {
            FuzzMode::Gated
        } else {
            FuzzMode::Off
        }
    }

    /// Human-readable name.
    pub open spec fn spec_name(self) -> Seq<char> {
        match self {
            FuzzMode::Off => "Off"@,
            FuzzMode::Open => "Open"@,
            FuzzMode::Gated => "Gated"@,
        }
    }

    /// Human-readable name.
    pub fn name(&self) -> (r: &'static str)
        ensures
            r@ == self.spec_name(),
    {
        match self {
            FuzzMode::Off => "Off",
            FuzzMode::Open => "Open",
            FuzzMode::Gated => "Gated",
        }
    }
}

/// Decoding the byte that a `FuzzMode` encodes to gives that value back.
pub proof fn lemma_fuzz_mode_codec(v: FuzzMode)
    ensures
        FuzzMode::spec_from_cc(v.spec_cc_value()) == v,
{
}

/// Every Preamp MK II parameter together with its value.
#[derive(Debug, Clone, Copy, PartialEq, Eq, Structural)]
pub enum PreampMk2Parameter {
    Volume(u8),
    Treble(u8),
    Mids(u8),
    Frequency(u8),
    Bass(u8),
    Gain(u8),
    Jump(Jump),
    MidsPosition(MidsPosition),
    QResonance(QResonance),
    DiodeClipping(DiodeClipping),
    FuzzMode(FuzzMode),
    Expression(u8),
    Bypass(bool),
}

impl PreampMk2Parameter {
    /// The CC number that carries this parameter.
    pub open spec fn spec_cc_number(self) -> u8 {
        match self {
            PreampMk2Parameter::Volume(_) => CC_VOLUME,
            PreampMk2Parameter::Treble(_) => CC_TREBLE,
            PreampMk2Parameter::Mids(_) => CC_MIDS,
            PreampMk2Parameter::Frequency(_) => CC_FREQUENCY,
            PreampMk2Parameter::Bass(_) => CC_BASS,
            PreampMk2Parameter::Gain(_) => CC_GAIN,
            PreampMk2Parameter::Jump(_) => CC_JUMP,
            PreampMk2Parameter::MidsPosition(_) => CC_MIDS_POSITION,
            PreampMk2Parameter::QResonance(_) => CC_Q_RESONANCE,
            PreampMk2Parameter::DiodeClipping(_) => CC_DIODE_CLIPPING,
            PreampMk2Parameter::FuzzMode(_) => CC_FUZZ_MODE,
            PreampMk2Parameter::Expression(_) => CC_EXPRESSION,
            PreampMk2Parameter::Bypass(_) => CC_BYPASS,
        }
    }

    /// The CC byte that carries this parameter's value.
    pub open spec fn spec_cc_value(self) -> u8 {
        match self {
            PreampMk2Parameter::Volume(v) => v,
            PreampMk2Parameter::Treble(v) => v,
            PreampMk2Parameter::Mids(v) => v,
            PreampMk2Parameter::Frequency(v) => v,
            PreampMk2Parameter::Bass(v) => v,
            PreampMk2Parameter::Gain(v) => v,
            PreampMk2Parameter::Jump(v) => v.spec_cc_value(),
            PreampMk2Parameter::MidsPosition(v) => v.spec_cc_value(),
            PreampMk2Parameter::QResonance(v) => v.spec_cc_value(),
            PreampMk2Parameter::DiodeClipping(v) => v.spec_cc_value(),
            PreampMk2Parameter::FuzzMode(v) => v.spec_cc_value(),
            PreampMk2Parameter::Expression(v) => v,
            PreampMk2Parameter::Bypass(v) => spec_inverted_switch_byte(v),
        }
    }

    /// Position of the parameter's kind in the catalogue, whatever its value.
    pub open spec fn kind(self) -> int {
        match self {
            PreampMk2Parameter::Volume(_) => 0,
            PreampMk2Parameter::Treble(_) => 1,
            PreampMk2Parameter::Mids(_) => 2,
            PreampMk2Parameter::Frequency(_) => 3,
            PreampMk2Parameter::Bass(_) => 4,
            PreampMk2Parameter::Gain(_) => 5,
            PreampMk2Parameter::Jump(_) => 6,
            PreampMk2Parameter::MidsPosition(_) => 7,
            PreampMk2Parameter::QResonance(_) => 8,
            PreampMk2Parameter::DiodeClipping(_) => 9,
            PreampMk2Parameter::FuzzMode(_) => 10,
            PreampMk2Parameter::Expression(_) => 11,
            PreampMk2Parameter::Bypass(_) => 12,
        }
    }

    /// The CC number for this parameter.
    pub fn cc_number(&self) -> (r: u8)
        ensures
            r == self.spec_cc_number(),
    {
        match self {
            PreampMk2Parameter::Volume(_) => CC_VOLUME,
            PreampMk2Parameter::Treble(_) => CC_TREBLE,
            PreampMk2Parameter::Mids(_) => CC_MIDS,
            PreampMk2Parameter::Frequency(_) => CC_FREQUENCY,
            PreampMk2Parameter::Bass(_) => CC_BASS,
            PreampMk2Parameter::Gain(_) => CC_GAIN,
            PreampMk2Parameter::Jump(_) => CC_JUMP,
            PreampMk2Parameter::MidsPosition(_) => CC_MIDS_POSITION,
            PreampMk2Parameter::QResonance(_) => CC_Q_RESONANCE,
            PreampMk2Parameter::DiodeClipping(_) => CC_DIODE_CLIPPING,
            PreampMk2Parameter::FuzzMode(_) => CC_FUZZ_MODE,
            PreampMk2Parameter::Expression(_) => CC_EXPRESSION,
            PreampMk2Parameter::Bypass(_) => CC_BYPASS,
        }
    }

    /// The CC value for this parameter.
    pub fn cc_value(&self) -> (r: u8)
        ensures
            r == self.spec_cc_value(),
    {
        match self {
            PreampMk2Parameter::Volume(v) => *v,
            PreampMk2Parameter::Treble(v) => *v,
            PreampMk2Parameter::Mids(v) => *v,
            PreampMk2Parameter::Frequency(v) => *v,
            PreampMk2Parameter::Bass(v) => *v,
            PreampMk2Parameter::Gain(v) => *v,
            PreampMk2Parameter::Jump(v) => v.to_cc_value(),
            PreampMk2Parameter::MidsPosition(v) => v.to_cc_value(),
            PreampMk2Parameter::QResonance(v) => v.to_cc_value(),
            PreampMk2Parameter::DiodeClipping(v) => v.to_cc_value(),
            PreampMk2Parameter::FuzzMode(v) => v.to_cc_value(),
            PreampMk2Parameter::Expression(v) => *v,
            PreampMk2Parameter::Bypass(v) => inverted_switch_byte(*v),
        }
    }

    /// Human-readable name of the parameter.
    pub open spec fn spec_name(self) -> Seq<char> {
        match self {
            PreampMk2Parameter::Volume(_) => "Volume"@,
            PreampMk2Parameter::Treble(_) => "Treble"@,
            PreampMk2Parameter::Mids(_) => "Mids"@,
            PreampMk2Parameter::Frequency(_) => "Frequency"@,
            PreampMk2Parameter::Bass(_) => "Bass"@,
            PreampMk2Parameter::Gain(_) => "Gain"@,
            PreampMk2Parameter::Jump(_) => "Jump"@,
            PreampMk2Parameter::MidsPosition(_) => "Mids Position"@,
            PreampMk2Parameter::QResonance(_) => "Q Resonance"@,
            PreampMk2Parameter::DiodeClipping(_) => "Diode Clipping"@,
            PreampMk2Parameter::FuzzMode(_) => "Fuzz Mode"@,
            PreampMk2Parameter::Expression(_) => "Expression"@,
            PreampMk2Parameter::Bypass(_) => "Bypass"@,
        }
    }

    /// Human-readable name of the parameter.
    pub fn name(&self) -> (r: &'static str)
        ensures
            r@ == self.spec_name(),
    {
        match self {
            PreampMk2Parameter::Volume(_) => "Volume",
            PreampMk2Parameter::Treble(_) => "Treble",
            PreampMk2Parameter::Mids(_) => "Mids",
            PreampMk2Parameter::Frequency(_) => "Frequency",
            PreampMk2Parameter::Bass(_) => "Bass",
            PreampMk2Parameter::Gain(_) => "Gain",
            PreampMk2Parameter::Jump(_) => "Jump",
            PreampMk2Parameter::MidsPosition(_) => "Mids Position",
            PreampMk2Parameter::QResonance(_) => "Q Resonance",
            PreampMk2Parameter::DiodeClipping(_) => "Diode Clipping",
            PreampMk2Parameter::FuzzMode(_) => "Fuzz Mode",
            PreampMk2Parameter::Expression(_) => "Expression",
            PreampMk2Parameter::Bypass(_) => "Bypass",
        }
    }

    /// The `(cc number, byte)` pair that transmits this parameter.
    pub fn to_cc_message(&self) -> (r: Option<(u8, u8)>)
        ensures
            r == Some((self.spec_cc_number(), self.spec_cc_value())),
    {
        Some((self.cc_number(), self.cc_value()))
    }
}

/// The catalogue position of the Preamp MK II parameter carried on `cc`, or -1
/// where no parameter uses that number.
pub open spec fn preamp_mk2_kind_of_cc(cc: u8) -> int {
    match cc {
        CC_VOLUME => 0,
        CC_TREBLE => 1,
        CC_MIDS => 2,
        CC_FREQUENCY => 3,
        CC_BASS => 4,
        CC_GAIN => 5,
        CC_JUMP => 6,
        CC_MIDS_POSITION => 7,
        CC_Q_RESONANCE => 8,
        CC_DIODE_CLIPPING => 9,
        CC_FUZZ_MODE => 10,
        CC_EXPRESSION => 11,
        CC_BYPASS => 12,
        _ => -1,
    }
}

/// Every Preamp MK II parameter is carried on a CC number of its own: two
/// parameters that share a CC number are of the same kind.
pub proof fn lemma_preamp_mk2_cc_injective(p: PreampMk2Parameter, q: PreampMk2Parameter)
    ensures
        preamp_mk2_kind_of_cc(p.spec_cc_number()) == p.kind(),
        p.spec_cc_number() == q.spec_cc_number() ==> p.kind() == q.kind(),
{
}

/// Complete shadow state of a Preamp MK II.
#[derive(Debug, Clone, Copy, PartialEq, Eq, Structural)]
pub struct PreampMk2State {
    /// CC 14.
    pub volume: u8,
    /// CC 15.
    pub treble: u8,
    /// CC 16.
    pub mids: u8,
    /// CC 17.
    pub frequency: u8,
    /// CC 18.
    pub bass: u8,
    /// CC 19.
    pub gain: u8,
    /// CC 22.
    pub jump: Jump,
    /// CC 23.
    pub mids_position: MidsPosition,
    /// CC 24.
    pub q_resonance: QResonance,
    /// CC 25.
    pub diode_clipping: DiodeClipping,
    /// CC 26.
    pub fuzz_mode: FuzzMode,
    /// CC 100.
    pub expression: u8,
    /// CC 102.
    pub bypass: bool,
}

impl PreampMk2State {
    /// The state a device is assumed to be in when it connects.
    pub open spec fn spec_default() -> PreampMk2State {
        PreampMk2State {
            volume: 64,
            treble: 64,
            mids: 64,
            frequency: 64,
            bass: 64,
            gain: 64,
            jump: Jump::Off,
            mids_position: MidsPosition::Post,
            q_resonance: QResonance::Mid,
            diode_clipping: DiodeClipping::Off,
            fuzz_mode: FuzzMode::Off,
            expression: 0,
            bypass: false,
        }
    }

    /// This state with one parameter change applied; trigger parameters leave
    /// it unchanged.
    pub open spec fn with_parameter(self, p: PreampMk2Parameter) -> PreampMk2State {
        match p {
            PreampMk2Parameter::Volume(v) => PreampMk2State { volume: v, ..self },
            PreampMk2Parameter::Treble(v) => PreampMk2State { treble: v, ..self },
            PreampMk2Parameter::Mids(v) => PreampMk2State { mids: v, ..self },
            PreampMk2Parameter::Frequency(v) => PreampMk2State { frequency: v, ..self },
            PreampMk2Parameter::Bass(v) => PreampMk2State { bass: v, ..self },
            PreampMk2Parameter::Gain(v) => PreampMk2State { gain: v, ..self },
            PreampMk2Parameter::Jump(v) => PreampMk2State { jump: v, ..self },
            PreampMk2Parameter::MidsPosition(v) => PreampMk2State { mids_position: v, ..self },
            PreampMk2Parameter::QResonance(v) => PreampMk2State { q_resonance: v, ..self },
            PreampMk2Parameter::DiodeClipping(v) => PreampMk2State { diode_clipping: v, ..self },
            PreampMk2Parameter::FuzzMode(v) => PreampMk2State { fuzz_mode: v, ..self },
            PreampMk2Parameter::Expression(v) => PreampMk2State { expression: v, ..self },
            PreampMk2Parameter::Bypass(v) => PreampMk2State { bypass: v, ..self },
        }
    }

    /// The CC map that a full recall sends. Expression (CC 100) and bypass
    /// (CC 102) are left out: resending them would pin an expression-controlled
    /// fader to a stale position or toggle the live footswitch.
    pub open spec fn spec_cc_map(self) -> Map<u8, u8> {
        map![
            CC_VOLUME => self.volume,
            CC_TREBLE => self.treble,
            CC_MIDS => self.mids,
            CC_FREQUENCY => self.frequency,
            CC_BASS => self.bass,
            CC_GAIN => self.gain,
            CC_JUMP => self.jump.spec_cc_value(),
            CC_MIDS_POSITION => self.mids_position.spec_cc_value(),
            CC_Q_RESONANCE => self.q_resonance.spec_cc_value(),
            CC_DIODE_CLIPPING => self.diode_clipping.spec_cc_value(),
            CC_FUZZ_MODE => self.fuzz_mode.spec_cc_value(),
        ]
    }

    /// The `{cc number -> byte}` map that reproduces this state on the device.
    pub fn to_cc_map(&self) -> (r: HashMap<u8, u8>)
        ensures
            r@ == self.spec_cc_map(),
    {
        let mut map: HashMap<u8, u8> = HashMap::new();
        map.insert(CC_VOLUME, self.volume);
        map.insert(CC_TREBLE, self.treble);
        map.insert(CC_MIDS, self.mids);
        map.insert(CC_FREQUENCY, self.frequency);
        map.insert(CC_BASS, self.bass);
        map.insert(CC_GAIN, self.gain);
        map.insert(CC_JUMP, self.jump.to_cc_value());
        map.insert(CC_MIDS_POSITION, self.mids_position.to_cc_value());
        map.insert(CC_Q_RESONANCE, self.q_resonance.to_cc_value());
        map.insert(CC_DIODE_CLIPPING, self.diode_clipping.to_cc_value());
        map.insert(CC_FUZZ_MODE, self.fuzz_mode.to_cc_value());
        map
    }

    /// This state with one parameter change applied.
    pub fn applied(&self, param: &PreampMk2Parameter) -> (r: PreampMk2State)
        ensures
            r == self.with_parameter(*param),
    {
        match param {
            PreampMk2Parameter::Volume(v) => PreampMk2State { volume: *v, ..*self },
            PreampMk2Parameter::Treble(v) => PreampMk2State { treble: *v, ..*self },
            PreampMk2Parameter::Mids(v) => PreampMk2State { mids: *v, ..*self },
            PreampMk2Parameter::Frequency(v) => PreampMk2State { frequency: *v, ..*self },
            PreampMk2Parameter::Bass(v) => PreampMk2State { bass: *v, ..*self },
            PreampMk2Parameter::Gain(v) => PreampMk2State { gain: *v, ..*self },
            PreampMk2Parameter::Jump(v) => PreampMk2State { jump: *v, ..*self },
            PreampMk2Parameter::MidsPosition(v) => PreampMk2State { mids_position: *v, ..*self },
            PreampMk2Parameter::QResonance(v) => PreampMk2State { q_resonance: *v, ..*self },
            PreampMk2Parameter::DiodeClipping(v) => PreampMk2State { diode_clipping: *v, ..*self },
            PreampMk2Parameter::FuzzMode(v) => PreampMk2State { fuzz_mode: *v, ..*self },
            PreampMk2Parameter::Expression(v) => PreampMk2State { expression: *v, ..*self },
            PreampMk2Parameter::Bypass(v) => PreampMk2State { bypass: *v, ..*self },
        }
    }
}
impl PreampMk2State {
    /// This state after the device reported `value` on `cc`; a bypass byte of 0
    /// means bypassed. Numbers that no parameter uses leave the state unchanged.
    pub open spec fn with_cc(self, cc: u8, value: u8) -> PreampMk2State {
        if cc == CC_VOLUME {
            PreampMk2State { volume: value, ..self }
        } else if cc == CC_TREBLE {
            PreampMk2State { treble: value, ..self }
        } else if cc == CC_MIDS {
            PreampMk2State { mids: value, ..self }
        } else if cc == CC_FREQUENCY {
            PreampMk2State { frequency: value, ..self }
        } else if cc == CC_BASS {
            PreampMk2State { bass: value, ..self }
        } else if cc == CC_GAIN {
            PreampMk2State { gain: value, ..self }
        } else if cc == CC_JUMP {
            PreampMk2State { jump: Jump::spec_from_cc(value), ..self }
        } else if cc == CC_MIDS_POSITION {
            PreampMk2State { mids_position: MidsPosition::spec_from_cc(value), ..self }
        } else if cc == CC_Q_RESONANCE {
            PreampMk2State { q_resonance: QResonance::spec_from_cc(value), ..self }
        } else if cc == CC_DIODE_CLIPPING {
            PreampMk2State { diode_clipping: DiodeClipping::spec_from_cc(value), ..self }
        } else if cc == CC_FUZZ_MODE {
            PreampMk2State { fuzz_mode: FuzzMode::spec_from_cc(value), ..self }
        } else if cc == CC_EXPRESSION {
            PreampMk2State { expression: value, ..self }
        } else if cc == CC_BYPASS {
            PreampMk2State { bypass: value == 0, ..self }
        } else {
            self
        }
    }

    /// Applies a CC message that the device sent; unknown CC numbers are ignored.
    pub fn update_from_cc(&mut self, cc: u8, value: u8)
        ensures
            *final(self) == old(self).with_cc(cc, value),
    {
        let s = *self;
        *self = if cc == CC_VOLUME {
            PreampMk2State { volume: value, ..s }
        } else if cc == CC_TREBLE {
            PreampMk2State { treble: value, ..s }
        } else if cc == CC_MIDS {
            PreampMk2State { mids: value, ..s }
        } else if cc == CC_FREQUENCY {
            PreampMk2State { frequency: value, ..s }
        } else if cc == CC_BASS {
            PreampMk2State { bass: value, ..s }
        } else if cc == CC_GAIN {
            PreampMk2State { gain: value, ..s }
        } else if cc == CC_JUMP {
            PreampMk2State { jump: Jump::from_cc_value(value), ..s }
        } else if cc == CC_MIDS_POSITION {
            PreampMk2State { mids_position: MidsPosition::from_cc_value(value), ..s }
        } else if cc == CC_Q_RESONANCE {
            PreampMk2State { q_resonance: QResonance::from_cc_value(value), ..s }
        } else if cc == CC_DIODE_CLIPPING {
            PreampMk2State { diode_clipping: DiodeClipping::from_cc_value(value), ..s }
        } else if cc == CC_FUZZ_MODE {
            PreampMk2State { fuzz_mode: FuzzMode::from_cc_value(value), ..s }
        } else if cc == CC_EXPRESSION {
            PreampMk2State { expression: value, ..s }
        } else if cc == CC_BYPASS {
            PreampMk2State { bypass: value == 0, ..s }
        } else {
            s
        };
    }
}

/// A full recall never sends the expression or the bypass CC, and it sends
/// exactly the other stored parameters.
pub proof fn lemma_preamp_mk2_recall_exclusions(s: PreampMk2State, p: PreampMk2Parameter)
    ensures
        !s.spec_cc_map().contains_key(CC_EXPRESSION),
        !s.spec_cc_map().contains_key(CC_BYPASS),
        p.spec_cc_number() != CC_EXPRESSION && p.spec_cc_number() != CC_BYPASS
            ==> s.spec_cc_map().contains_key(p.spec_cc_number()),
{
}

/// Decoding the byte that a parameter is sent as gives the parameter back.
pub proof fn lemma_preamp_mk2_sent_value_decodes(s: PreampMk2State, p: PreampMk2Parameter)
    ensures
        s.with_cc(p.spec_cc_number(), p.spec_cc_value()) == s.with_parameter(p),
{
    match p {
        PreampMk2Parameter::Jump(v) => lemma_jump_codec(v),
        PreampMk2Parameter::MidsPosition(v) => lemma_mids_position_codec(v),
        PreampMk2Parameter::QResonance(v) => lemma_q_resonance_codec(v),
        PreampMk2Parameter::DiodeClipping(v) => lemma_diode_clipping_codec(v),
        PreampMk2Parameter::FuzzMode(v) => lemma_fuzz_mode_codec(v),
        _ => {},
    }
}

impl Default for PreampMk2State {
    fn default() -> (r: Self)
        ensures
            r == PreampMk2State::spec_default(),
    {
        PreampMk2State {
            volume: 64,
            treble: 64,
            mids: 64,
            frequency: 64,
            bass: 64,
            gain: 64,
            jump: Jump::Off,
            mids_position: MidsPosition::Post,
            q_resonance: QResonance::Mid,
            diode_clipping: DiodeClipping::Off,
            fuzz_mode: FuzzMode::Off,
            expression: 0,
            bypass: false,
        }
    }
}

/// A connected Preamp MK II: its shadow state and MIDI channel.
#[derive(Debug, Clone, Copy, PartialEq, Eq, Structural)]
pub struct PreampMk2 {
    pub state: PreampMk2State,
    pub midi_channel: u8,
}

impl PreampMk2 {
    /// A Preamp MK II in its default state.
    pub fn new(midi_channel: u8) -> (r: PreampMk2)
        ensures
            r.state == PreampMk2State::spec_default(),
            r.midi_channel == midi_channel,
    {
        PreampMk2 { state: PreampMk2State::default(), midi_channel }
    }

    /// Records a parameter change that was sent to the device.
    pub fn update_state(&mut self, param: &PreampMk2Parameter)
        ensures
            final(self).state == old(self).state.with_parameter(*param),
            final(self).midi_channel == old(self).midi_channel,
    {
        self.state = self.state.applied(param);
    }

    /// The CC map that reproduces the current state.
    pub fn state_as_cc_map(&self) -> (r: HashMap<u8, u8>)
        ensures
            r@ == self.state.spec_cc_map(),
    {
        self.state.to_cc_map()
    }

    /// Name and capabilities of the pedal.
    pub fn metadata(&self) -> (r: PedalMetadata)
        ensures
            r.name@ == "PreampMk2"@,
            r.manufacturer@ == "Chase Bliss Audio"@,
            r.supports_editor,
            r.supports_preset_library,
    {
        PedalMetadata {
            name: "PreampMk2",
            manufacturer: "Chase Bliss Audio",
            supports_editor: true,
            supports_preset_library: true,
        }
    }

    /// Presets 0..=29 are recalled by Program Changes 0..=29.
    pub fn supports_program_change(&self) -> (r: bool)
        ensures
            r,
    {
        true
    }

    /// A program change loads a preset on the device itself; the shadow state
    /// keeps what it held until the device reports the new values.
    pub fn load_preset(&mut self, program: u8)
        ensures
            *final(self) == *old(self),
    {
    }


    /// The `(cc number, byte)` pair that stores the current sound in `slot`:
    /// CC 27 carrying the slot number.
    pub fn save_preset(&self, slot: u8) -> (r: (u8, u8))
        ensures
            r == (CC_PRESET_SAVE, slot),
    {
        (CC_PRESET_SAVE, slot)
    }

}

} // verus!
