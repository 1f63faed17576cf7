//! Chase Bliss / Meris CXM 1978 reverb: parameter catalogue, CC codec and shadow state.

use crate::codec::{inverted_switch_byte, spec_inverted_switch_byte};
use crate::pedals::PedalMetadata;
use std::collections::HashMap;
use vstd::prelude::*;

verus! {

pub const CC_BASS: u8 = 14;
pub const CC_MIDS: u8 = 15;
pub const CC_CROSS: u8 = 16;
pub const CC_TREBLE: u8 = 17;
pub const CC_MIX: u8 = 18;
pub const CC_PRE_DLY: u8 = 19;
pub const CC_JUMP: u8 = 22;
pub const CC_REVERB_TYPE: u8 = 23;
pub const CC_DIFFUSION: u8 = 24;
pub const CC_TANK_MOD: u8 = 25;
pub const CC_CLOCK: u8 = 26;
pub const CC_PRESET_SAVE: u8 = 27;
pub const CC_EXPRESSION: u8 = 100;
pub const CC_BYPASS: u8 = 102;

/// Highest preset slot; slots are numbered from 0.
pub const MAX_PRESET_SLOT: u8 = 29;

/// Preset jump (CC 22): off, or jump to preset 0 or 5.
#[derive(Debug, Clone, Copy, PartialEq, Eq, Structural)]
pub enum Jump {
    Off,
    Zero,
    Five,
}

impl Jump {
    /// The byte sent for this value.
    pub open spec fn spec_cc_value(self) -> u8 {
        match self {
            Jump::Off => 1,
            Jump::Zero => 2,
            Jump::Five => 3,
        }
    }

    /// The value a received byte stands for; bytes outside 1..=3 read as Off.
    pub open spec fn spec_from_cc(value: u8) -> Jump {
        if value == 2 {
            Jump::Zero
        } else if value == 3 {
            Jump::Five
        } else {
            Jump::Off
        }
    }

    /// Encodes the value as a CC byte.
    pub fn to_cc_value(&self) -> (r: u8)
        ensures
            r == self.spec_cc_value(),
            1 <= r <= 3,
    {
        match self {
            Jump::Off => 1,
            Jump::Zero => 2,
            Jump::Five => 3,
        }
    }

    /// Decodes a CC byte; bytes outside 1..=3 read as Off.
    pub fn from_cc_value(value: u8) -> (r: Jump)
        ensures
            r == Jump::spec_from_cc(value),
    {
        if value == 2 {
            Jump::Zero
        } else if value == 3 {
            Jump::Five
        } else {
            Jump::Off
        }
    }

    /// Human-readable name.
    pub open spec fn spec_name(self) -> Seq<char> {
        match self {
            Jump::Off => "Off"@,
            Jump::Zero => "Jump to 0"@,
            Jump::Five => "Jump to 5"@,
        }
    }

    /// Human-readable name.
    pub fn name(&self) -> (r: &'static str)
        ensures
            r@ == self.spec_name(),
    {
        match self {
            Jump::Off => "Off",
            Jump::Zero => "Jump to 0",
            Jump::Five => "Jump to 5",
        }
    }
}

/// Decoding the byte that a `Jump` encodes to gives that value back.
pub proof fn lemma_jump_codec(v: Jump)
    ensures
        Jump::spec_from_cc(v.spec_cc_value()) == v,
{
}

/// Reverb type (CC 23).
#[derive(Debug, Clone, Copy, PartialEq, Eq, Structural)]
pub enum ReverbType {
    Room,
    Plate,
    Hall,
}

impl ReverbType {
    /// The byte sent for this value.
    pub open spec fn spec_cc_value(self) -> u8 {
        match self {
            ReverbType::Room => 1,
            ReverbType::Plate => 2,
            ReverbType::Hall => 3,
        }
    }

    /// The value a received byte stands for; bytes outside 1..=3 read as Room.
    pub open spec fn spec_from_cc(value: u8) -> ReverbType {
        if value == 2 {
            ReverbType::Plate
        } else if value == 3 {
            ReverbType::Hall
        } else {
            ReverbType::Room
        }
    }

    /// Encodes the value as a CC byte.
    pub fn to_cc_value(&self) -> (r: u8)
        ensures
            r == self.spec_cc_value(),
            1 <= r <= 3,
    {
        match self {
            ReverbType::Room => 1,
            ReverbType::Plate => 2,
            ReverbType::Hall => 3,
        }
    }

    /// Decodes a CC byte; bytes outside 1..=3 read as Room.
    pub fn from_cc_value(value: u8) -> (r: ReverbType)
        ensures
            r == ReverbType::spec_from_cc(value),
    {
        if value == 2 {
            ReverbType::Plate
        } else if value == 3 {
            ReverbType::Hall
        } else {
            ReverbType::Room
        }
    }

    /// Human-readable name.
    pub open spec fn spec_name(self) -> Seq<char> {
        match self {
            ReverbType::Room => "Room"@,
            ReverbType::Plate => "Plate"@,
            ReverbType::Hall => "Hall"@,
        }
    }

    /// Human-readable name.
    pub fn name(&self) -> (r: &'static str)
        ensures
            r@ == self.spec_name(),
    {
        match self {
            ReverbType::Room => "Room",
            ReverbType::Plate => "Plate",
            ReverbType::Hall => "Hall",
        }
    }
}

/// Decoding the byte that a `ReverbType` encodes to gives that value back.
pub proof fn lemma_reverb_type_codec(v: ReverbType)
    ensures
        ReverbType::spec_from_cc(v.spec_cc_value()) == v,
{
}

/// Diffusion (CC 24).
#[derive(Debug, Clone, Copy, PartialEq, Eq, Structural)]
pub enum Diffusion {
    Low,
    Med,
    High,
}

impl Diffusion {
    /// The byte sent for this value.
    pub open spec fn spec_cc_value(self) -> u8 {
        match self {
            Diffusion::Low => 1,
            Diffusion::Med => 2,
            Diffusion::High => 3,
        }
    }

    /// The value a received byte stands for; bytes outside 1..=3 read as Med.
    pub open spec fn spec_from_cc(value: u8) -> Diffusion {
        if value == 1 {
            Diffusion::Low
        } else if value == 3 {
            Diffusion::High
        } else {
            Diffusion::Med
        }
    }

    /// Encodes the value as a CC byte.
    pub fn to_cc_value(&self) -> (r: u8)
        ensures
            r == self.spec_cc_value(),
            1 <= r <= 3,
    {
        match self {
            Diffusion::Low => 1,
            Diffusion::Med => 2,
            Diffusion::High => 3,
        }
    }

    /// Decodes a CC byte; bytes outside 1..=3 read as Med.
    pub fn from_cc_value(value: u8) -> (r: Diffusion)
        ensures
            r == Diffusion::spec_from_cc(value),
    {
        if value == 1 {
            Diffusion::Low
        } else if value == 3 {
            Diffusion::High
        } else {
            Diffusion::Med
        }
    }

    /// Human-readable name.
    pub open spec fn spec_name(self) -> Seq<char> {
        match self {
            Diffusion::Low => "Low"@,
            Diffusion::Med => "Med"@,
            Diffusion::High => "High"@,
        }
    }

    /// Human-readable name.
    pub fn name(&self) -> (r: &'static str)
        ensures
            r@ == self.spec_name(),
    {
        match self {
            Diffusion::Low => "Low",
            Diffusion::Med => "Med",
            Diffusion::High => "High",
        }
    }
}

/// Decoding the byte that a `Diffusion` encodes to gives that value back.
pub proof fn lemma_diffusion_codec(v: Diffusion)
    ensures
        Diffusion::spec_from_cc(v.spec_cc_value()) == v,
{
}

/// Tank modulation (CC 25).
#[derive(Debug, Clone, Copy, PartialEq, Eq, Structural)]
pub enum TankMod {
    Low,
    Med,
    High,
}

impl TankMod {
    /// The byte sent for this value.
    pub open spec fn spec_cc_value(self) -> u8 {
        match self {
            TankMod::Low => 1,
            TankMod::Med => 2,
            TankMod::High => 3,
        }
    }

    /// The value a received byte stands for; bytes outside 1..=3 read as Med.
    pub open spec fn spec_from_cc(value: u8) -> TankMod {
        if value == 1 {
            TankMod::Low
        } else if value == 3 {
            TankMod::High
        } else {
            TankMod::Med
        }
    }

    /// Encodes the value as a CC byte.
    pub fn to_cc_value(&self) -> (r: u8)
        ensures
            r == self.spec_cc_value(),
            1 <= r <= 3,
    {
        match self {
            TankMod::Low => 1,
            TankMod::Med => 2,
            TankMod::High => 3,
        }
    }

    /// Decodes a CC byte; bytes outside 1..=3 read as Med.
    pub fn from_cc_value(value: u8) -> (r: TankMod)
        ensures
            r == TankMod::spec_from_cc(value),
    {
        if value == 1 {
            TankMod::Low
        } else if value == 3 {
            TankMod::High
        } else {
            TankMod::Med
        }
    }

    /// Human-readable name.
    pub open spec fn spec_name(self) -> Seq<char> {
        match self {
            TankMod::Low => "Low"@,
            TankMod::Med => "Med"@,
            TankMod::High => "High"@,
        }
    }

    /// Human-readable name.
    pub fn name(&self) -> (r: &'static str)
        ensures
            r@ == self.spec_name(),
    {
        match self {
            TankMod::Low => "Low",
            TankMod::Med => "Med",
            TankMod::High => "High",
        }
    }
}

/// Decoding the byte that a `TankMod` encodes to gives that value back.
pub proof fn lemma_tank_mod_codec(v: TankMod)
    ensures
        TankMod::spec_from_cc(v.spec_cc_value()) == v,
{
}

/// Clock rate (CC 26).
#[derive(Debug, Clone, Copy, PartialEq, Eq, Structural)]
pub enum Clock {
    HiFi,
    Standard,
    LoFi,
}

impl Clock {
    /// The byte sent for this value.
    pub open spec fn spec_cc_value(self) -> u8 {
        match self {
            Clock::HiFi => 1,
            Clock::Standard => 2,
            Clock::LoFi => 3,
        }
    }

    /// The value a received byte stands for; bytes outside 1..=3 read as Standard.
    pub open spec fn spec_from_cc(value: u8) -> Clock {
        if value == 1 {
            Clock::HiFi
        } else if value == 3 {
            Clock::LoFi
        } else {
            Clock::Standard
        }
    }

    /// Encodes the value as a CC byte.
    pub fn to_cc_value(&self) -> (r: u8)
        ensures
            r == self.spec_cc_value(),
            1 <= r <= 3,
    {
        match self {
            Clock::HiFi => 1,
            Clock::Standard => 2,
            Clock::LoFi => 3,
        }
    }

    /// Decodes a CC byte; bytes outside 1..=3 read as Standard.
    pub fn from_cc_value(value: u8) -> (r: Clock)
        ensures
            r == Clock::spec_from_cc(value),
    {
        if value == 1 {
            Clock::HiFi
        } else if value == 3 {
            Clock::LoFi
        } else {
            Clock::Standard
        }
    }

    /// Human-readable name.
    pub open spec fn spec_name(self) -> Seq<char> {
        match self {
            Clock::HiFi => "HiFi"@,
            Clock::Standard => "Standard"@,
            Clock::LoFi => "LoFi"@,
        }
    }

    /// Human-readable name.
    pub fn name(&self) -> (r: &'static str)
        ensures
            r@ == self.spec_name(),
    {
        match self {
            Clock::HiFi => "HiFi",
            Clock::Standard => "Standard",
            Clock::LoFi => "LoFi",
        }
    }
}

/// Decoding the byte that a `Clock` encodes to gives that value back.
pub proof fn lemma_clock_codec(v: Clock)
    ensures
        Clock::spec_from_cc(v.spec_cc_value()) == v,
{
}

/// Every CXM 1978 parameter together with its value.
#[derive(Debug, Clone, Copy, PartialEq, Eq, Structural)]
pub enum Cxm1978Parameter {
    Bass(u8),
    Mids(u8),
    Cross(u8),
    Treble(u8),
    Mix(u8),
    PreDly(u8),
    Jump(Jump),
    ReverbType(ReverbType),
    Diffusion(Diffusion),
    TankMod(TankMod),
    Clock(Clock),
    Expression(u8),
    Bypass(bool),
}

impl Cxm1978Parameter {
    /// The CC number that carries this parameter.
    pub open spec fn spec_cc_number(self) -> u8 {
        match self {
            Cxm1978Parameter::Bass(_) => CC_BASS,
            Cxm1978Parameter::Mids(_) => CC_MIDS,
            Cxm1978Parameter::Cross(_) => CC_CROSS,
            Cxm1978Parameter::Treble(_) => CC_TREBLE,
            Cxm1978Parameter::Mix(_) => CC_MIX,
            Cxm1978Parameter::PreDly(_) => CC_PRE_DLY,
            Cxm1978Parameter::Jump(_) => CC_JUMP,
            Cxm1978Parameter::ReverbType(_) => CC_REVERB_TYPE,
            Cxm1978Parameter::Diffusion(_) => CC_DIFFUSION,
            Cxm1978Parameter::TankMod(_) => CC_TANK_MOD,
            Cxm1978Parameter::Clock(_) => CC_CLOCK,
            Cxm1978Parameter::Expression(_) => CC_EXPRESSION,
            Cxm1978Parameter::Bypass(_) => CC_BYPASS,
        }
    }

    /// The CC byte that carries this parameter's value.
    pub open spec fn spec_cc_value(self) -> u8 {
        match self {
            Cxm1978Parameter::Bass(v) => v,
            Cxm1978Parameter::Mids(v) => v,
            Cxm1978Parameter::Cross(v) => v,
            Cxm1978Parameter::Treble(v) => v,
            Cxm1978Parameter::Mix(v) => v,
            Cxm1978Parameter::PreDly(v) => v,
            Cxm1978Parameter::Jump(v) => v.spec_cc_value(),
            Cxm1978Parameter::ReverbType(v) => v.spec_cc_value(),
            Cxm1978Parameter::Diffusion(v) => v.spec_cc_value(),
            Cxm1978Parameter::TankMod(v) => v.spec_cc_value(),
            Cxm1978Parameter::Clock(v) => v.spec_cc_value(),
            Cxm1978Parameter::Expression(v) => v,
            Cxm1978Parameter::Bypass(v) => spec_inverted_switch_byte(v),
        }
    }

    /// Position of the parameter's kind in the catalogue, whatever its value.
    pub open spec fn kind(self) -> int {
        match self {
            Cxm1978Parameter::Bass(_) => 0,
            Cxm1978Parameter::Mids(_) => 1,
            Cxm1978Parameter::Cross(_) => 2,
            Cxm1978Parameter::Treble(_) => 3,
            Cxm1978Parameter::Mix(_) => 4,
            Cxm1978Parameter::PreDly(_) => 5,
            Cxm1978Parameter::Jump(_) => 6,
            Cxm1978Parameter::ReverbType(_) => 7,
            Cxm1978Parameter::Diffusion(_) => 8,
            Cxm1978Parameter::TankMod(_) => 9,
            Cxm1978Parameter::Clock(_) => 10,
            Cxm1978Parameter::Expression(_) => 11,
            Cxm1978Parameter::Bypass(_) => 12,
        }
    }

    /// The CC number for this parameter.
    pub fn cc_number(&self) -> (r: u8)
        ensures
            r == self.spec_cc_number(),
    {
        match self {
            Cxm1978Parameter::Bass(_) => CC_BASS,
            Cxm1978Parameter::Mids(_) => CC_MIDS,
            Cxm1978Parameter::Cross(_) => CC_CROSS,
            Cxm1978Parameter::Treble(_) => CC_TREBLE,
            Cxm1978Parameter::Mix(_) => CC_MIX,
            Cxm1978Parameter::PreDly(_) => CC_PRE_DLY,
            Cxm1978Parameter::Jump(_) => CC_JUMP,
            Cxm1978Parameter::ReverbType(_) => CC_REVERB_TYPE,
            Cxm1978Parameter::Diffusion(_) => CC_DIFFUSION,
            Cxm1978Parameter::TankMod(_) => CC_TANK_MOD,
            Cxm1978Parameter::Clock(_) => CC_CLOCK,
            Cxm1978Parameter::Expression(_) => CC_EXPRESSION,
            Cxm1978Parameter::Bypass(_) => CC_BYPASS,
        }
    }

    /// The CC value for this parameter.
    pub fn cc_value(&self) -> (r: u8)
        ensures
            r == self.spec_cc_value(),
    {
        match self {
            Cxm1978Parameter::Bass(v) => *v,
            Cxm1978Parameter::Mids(v) => *v,
            Cxm1978Parameter::Cross(v) => *v,
            Cxm1978Parameter::Treble(v) => *v,
            Cxm1978Parameter::Mix(v) => *v,
            Cxm1978Parameter::PreDly(v) => *v,
            Cxm1978Parameter::Jump(v) => v.to_cc_value(),
            Cxm1978Parameter::ReverbType(v) => v.to_cc_value(),
            Cxm1978Parameter::Diffusion(v) => v.to_cc_value(),
            Cxm1978Parameter::TankMod(v) => v.to_cc_value(),
            Cxm1978Parameter::Clock(v) => v.to_cc_value(),
            Cxm1978Parameter::Expression(v) => *v,
            Cxm1978Parameter::Bypass(v) => inverted_switch_byte(*v),
        }
    }

    /// Human-readable name of the parameter.
    pub open spec fn spec_name(self) -> Seq<char> {
        match self {
            Cxm1978Parameter::Bass(_) => "Bass"@,
            Cxm1978Parameter::Mids(_) => "Mids"@,
            Cxm1978Parameter::Cross(_) => "Cross"@,
            Cxm1978Parameter::Treble(_) => "Treble"@,
            Cxm1978Parameter::Mix(_) => "Mix"@,
            Cxm1978Parameter::PreDly(_) => "Pre-Delay"@,
            Cxm1978Parameter::Jump(_) => "Jump"@,
            Cxm1978Parameter::ReverbType(_) => "Type"@,
            Cxm1978Parameter::Diffusion(_) => "Diffusion"@,
            Cxm1978Parameter::TankMod(_) => "Tank Mod"@,
            Cxm1978Parameter::Clock(_) => "Clock"@,
            Cxm1978Parameter::Expression(_) => "Expression"@,
            Cxm1978Parameter::Bypass(_) => "Bypass"@,
        }
    }

    /// Human-readable name of the parameter.
    pub fn name(&self) -> (r: &'static str)
        ensures
            r@ == self.spec_name(),
    {
        match self {
            Cxm1978Parameter::Bass(_) => "Bass",
            Cxm1978Parameter::Mids(_) => "Mids",
            Cxm1978Parameter::Cross(_) => "Cross",
            Cxm1978Parameter::Treble(_) => "Treble",
            Cxm1978Parameter::Mix(_) => "Mix",
            Cxm1978Parameter::PreDly(_) => "Pre-Delay",
            Cxm1978Parameter::Jump(_) => "Jump",
            Cxm1978Parameter::ReverbType(_) => "Type",
            Cxm1978Parameter::Diffusion(_) => "Diffusion",
            Cxm1978Parameter::TankMod(_) => "Tank Mod",
            Cxm1978Parameter::Clock(_) => "Clock",
            Cxm1978Parameter::Expression(_) => "Expression",
            Cxm1978Parameter::Bypass(_) => "Bypass",
        }
    }

    /// The `(cc number, byte)` pair that transmits this parameter.
    pub fn to_cc_message(&self) -> (r: Option<(u8, u8)>)
        ensures
            r == Some((self.spec_cc_number(), self.spec_cc_value())),
    {
        Some((self.cc_number(), self.cc_value()))
    }
}

/// The catalogue position of the CXM 1978 parameter carried on `cc`, or -1
/// where no parameter uses that number.
pub open spec fn cxm1978_kind_of_cc(cc: u8) -> int {
    match cc {
        CC_BASS => 0,
        CC_MIDS => 1,
        CC_CROSS => 2,
        CC_TREBLE => 3,
        CC_MIX => 4,
        CC_PRE_DLY => 5,
        CC_JUMP => 6,
        CC_REVERB_TYPE => 7,
        CC_DIFFUSION => 8,
        CC_TANK_MOD => 9,
        CC_CLOCK => 10,
        CC_EXPRESSION => 11,
        CC_BYPASS => 12,
        _ => -1,
    }
}

/// Every CXM 1978 parameter is carried on a CC number of its own: two
/// parameters that share a CC number are of the same kind.
pub proof fn lemma_cxm1978_cc_injective(p: Cxm1978Parameter, q: Cxm1978Parameter)
    ensures
        cxm1978_kind_of_cc(p.spec_cc_number()) == p.kind(),
        p.spec_cc_number() == q.spec_cc_number() ==> p.kind() == q.kind(),
{
}

/// Complete shadow state of a CXM 1978.
#[derive(Debug, Clone, Copy, PartialEq, Eq, Structural)]
pub struct Cxm1978State {
    /// CC 14.
    pub bass: u8,
    /// CC 15.
    pub mids: u8,
    /// CC 16.
    pub cross: u8,
    /// CC 17.
    pub treble: u8,
    /// CC 18.
    pub mix: u8,
    /// CC 19.
    pub pre_dly: u8,
    /// CC 22.
    pub jump: Jump,
    /// CC 23.
    pub reverb_type: ReverbType,
    /// CC 24.
    pub diffusion: Diffusion,
    /// CC 25.
    pub tank_mod: TankMod,
    /// CC 26.
    pub clock: Clock,
    /// CC 100.
    pub expression: u8,
    /// CC 102.
    pub bypass: bool,
}

impl Cxm1978State {
    /// The state a device is assumed to be in when it connects.
    pub open spec fn spec_default() -> Cxm1978State {
        Cxm1978State {
            bass: 64,
            mids: 64,
            cross: 64,
            treble: 64,
            mix: 64,
            pre_dly: 0,
            jump: Jump::Off,
            reverb_type: ReverbType::Room,
            diffusion: Diffusion::Med,
            tank_mod: TankMod::Low,
            clock: Clock::Standard,
            expression: 0,
            bypass: false,
        }
    }

    /// This state with one parameter change applied; trigger parameters leave
    /// it unchanged.
    pub open spec fn with_parameter(self, p: Cxm1978Parameter) -> Cxm1978State {
        match p {
            Cxm1978Parameter::Bass(v) => Cxm1978State { bass: v, ..self },
            Cxm1978Parameter::Mids(v) => Cxm1978State { mids: v, ..self },
            Cxm1978Parameter::Cross(v) => Cxm1978State { cross: v, ..self },
            Cxm1978Parameter::Treble(v) => Cxm1978State { treble: v, ..self },
            Cxm1978Parameter::Mix(v) => Cxm1978State { mix: v, ..self },
            Cxm1978Parameter::PreDly(v) => Cxm1978State { pre_dly: v, ..self },
            Cxm1978Parameter::Jump(v) => Cxm1978State { jump: v, ..self },
            Cxm1978Parameter::ReverbType(v) => Cxm1978State { reverb_type: v, ..self },
            Cxm1978Parameter::Diffusion(v) => Cxm1978State { diffusion: v, ..self },
            Cxm1978Parameter::TankMod(v) => Cxm1978State { tank_mod: v, ..self },
            Cxm1978Parameter::Clock(v) => Cxm1978State { clock: v, ..self },
            Cxm1978Parameter::Expression(v) => Cxm1978State { expression: v, ..self },
            Cxm1978Parameter::Bypass(v) => Cxm1978State { bypass: v, ..self },
        }
    }

    /// The CC map that a full recall sends. Expression (CC 100) and bypass
    /// (CC 102) are left out: resending them would pin an expression-controlled
    /// fader to a stale position or toggle the live footswitch.
    pub open spec fn spec_cc_map(self) -> Map<u8, u8> {
        map![
            CC_BASS => self.bass,
            CC_MIDS => self.mids,
            CC_CROSS => self.cross,
            CC_TREBLE => self.treble,
            CC_MIX => self.mix,
            CC_PRE_DLY => self.pre_dly,
            CC_JUMP => self.jump.spec_cc_value(),
            CC_REVERB_TYPE => self.reverb_type.spec_cc_value(),
            CC_DIFFUSION => self.diffusion.spec_cc_value(),
            CC_TANK_MOD => self.tank_mod.spec_cc_value(),
            CC_CLOCK => self.clock.spec_cc_value(),
        ]
    }

    /// The `{cc number -> byte}` map that reproduces this state on the device.
    pub fn to_cc_map(&self) -> (r: HashMap<u8, u8>)
        ensures
            r@ == self.spec_cc_map(),
    {
        let mut map: HashMap<u8, u8> = HashMap::new();
        map.insert(CC_BASS, self.bass);
        map.insert(CC_MIDS, self.mids);
        map.insert(CC_CROSS, self.cross);
        map.insert(CC_TREBLE, self.treble);
        map.insert(CC_MIX, self.mix);
        map.insert(CC_PRE_DLY, self.pre_dly);
        map.insert(CC_JUMP, self.jump.to_cc_value());
        map.insert(CC_REVERB_TYPE, self.reverb_type.to_cc_value());
        map.insert(CC_DIFFUSION, self.diffusion.to_cc_value());
        map.insert(CC_TANK_MOD, self.tank_mod.to_cc_value());
        map.insert(CC_CLOCK, self.clock.to_cc_value());
        map
    }

    /// This state with one parameter change applied.
    pub fn applied(&self, param: &Cxm1978Parameter) -> (r: Cxm1978State)
        ensures
            r == self.with_parameter(*param),
    {
        match param {
            Cxm1978Parameter::Bass(v) => Cxm1978State { bass: *v, ..*self },
            Cxm1978Parameter::Mids(v) => Cxm1978State { mids: *v, ..*self },
            Cxm1978Parameter::Cross(v) => Cxm1978State { cross: *v, ..*self },
            Cxm1978Parameter::Treble(v) => Cxm1978State { treble: *v, ..*self },
            Cxm1978Parameter::Mix(v) => Cxm1978State { mix: *v, ..*self },
            Cxm1978Parameter::PreDly(v) => Cxm1978State { pre_dly: *v, ..*self },
            Cxm1978Parameter::Jump(v) => Cxm1978State { jump: *v, ..*self },
            Cxm1978Parameter::ReverbType(v) => Cxm1978State { reverb_type: *v, ..*self },
            Cxm1978Parameter::Diffusion(v) => Cxm1978State { diffusion: *v, ..*self },
            Cxm1978Parameter::TankMod(v) => Cxm1978State { tank_mod: *v, ..*self },
            Cxm1978Parameter::Clock(v) => Cxm1978State { clock: *v, ..*self },
            Cxm1978Parameter::Expression(v) => Cxm1978State { expression: *v, ..*self },
            Cxm1978Parameter::Bypass(v) => Cxm1978State { bypass: *v, ..*self },
        }
    }
}
impl Cxm1978State {
    /// This state after the device reported `value` on `cc`; a bypass byte of 0
    /// means bypassed. Numbers that no parameter uses leave the state unchanged.
    pub open spec fn with_cc(self, cc: u8, value: u8) -> Cxm1978State {
        if cc == CC_BASS {
            Cxm1978State { bass: value, ..self }
        } else if cc == CC_MIDS {
            Cxm1978State { mids: value, ..self }
        } else if cc == CC_CROSS {
            Cxm1978State { cross: value, ..self }
        } else if cc == CC_TREBLE {
            Cxm1978State { treble: value, ..self }
        } else if cc == CC_MIX {
            Cxm1978State { mix: value, ..self }
        } else if cc == CC_PRE_DLY {
            Cxm1978State { pre_dly: value, ..self }
        } else if cc == CC_JUMP {
            Cxm1978State { jump: Jump::spec_from_cc(value), ..self }
        } else if cc == CC_REVERB_TYPE {
            Cxm1978State { reverb_type: ReverbType::spec_from_cc(value), ..self }
        } else if cc == CC_DIFFUSION {
            Cxm1978State { diffusion: Diffusion::spec_from_cc(value), ..self }
        } else if cc == CC_TANK_MOD {
            Cxm1978State { tank_mod: TankMod::spec_from_cc(value), ..self }
        } else if cc == CC_CLOCK {
            Cxm1978State { clock: Clock::spec_from_cc(value), ..self }
        } else if cc == CC_EXPRESSION {
            Cxm1978State { expression: value, ..self }
        } else if cc == CC_BYPASS {
            Cxm1978State { bypass: value == 0, ..self }
        } else {
            self
        }
    }

    /// Applies a CC message that the device sent; unknown CC numbers are ignored.
    pub fn update_from_cc(&mut self, cc: u8, value: u8)
        ensures
            *final(self) == old(self).with_cc(cc, value),
    {
        let s = *self;
        *self = if cc == CC_BASS {
            Cxm1978State { bass: value, ..s }
        } else if cc == CC_MIDS {
            Cxm1978State { mids: value, ..s }
        } else if cc == CC_CROSS {
            Cxm1978State { cross: value, ..s }
        } else if cc == CC_TREBLE {
            Cxm1978State { treble: value, ..s }
        } else if cc == CC_MIX {
            Cxm1978State { mix: value, ..s }
        } else if cc == CC_PRE_DLY {
            Cxm1978State { pre_dly: value, ..s }
        } else if cc == CC_JUMP {
            Cxm1978State { jump: Jump::from_cc_value(value), ..s }
        } else if cc == CC_REVERB_TYPE {
            Cxm1978State { reverb_type: ReverbType::from_cc_value(value), ..s }
        } else if cc == CC_DIFFUSION {
            Cxm1978State { diffusion: Diffusion::from_cc_value(value), ..s }
        } else if cc == CC_TANK_MOD {
            Cxm1978State { tank_mod: TankMod::from_cc_value(value), ..s }
        } else if cc == CC_CLOCK {
            Cxm1978State { clock: Clock::from_cc_value(value), ..s }
        } else if cc == CC_EXPRESSION {
            Cxm1978State { expression: value, ..s }
        } else if cc == CC_BYPASS {
            Cxm1978State { bypass: value == 0, ..s }
        } else {
            s
        };
    }
}

/// A full recall never sends the expression or the bypass CC, and it sends
/// exactly the other stored parameters.
pub proof fn lemma_cxm1978_recall_exclusions(s: Cxm1978State, p: Cxm1978Parameter)
    ensures
        !s.spec_cc_map().contains_key(CC_EXPRESSION),
        !s.spec_cc_map().contains_key(CC_BYPASS),
        p.spec_cc_number() != CC_EXPRESSION && p.spec_cc_number() != CC_BYPASS
            ==> s.spec_cc_map().contains_key(p.spec_cc_number()),
{
}

/// Decoding the byte that a parameter is sent as gives the parameter back.
pub proof fn lemma_cxm1978_sent_value_decodes(s: Cxm1978State, p: Cxm1978Parameter)
    ensures
        s.with_cc(p.spec_cc_number(), p.spec_cc_value()) == s.with_parameter(p),
{
    match p {
        Cxm1978Parameter::Jump(v) => lemma_jump_codec(v),
        Cxm1978Parameter::ReverbType(v) => lemma_reverb_type_codec(v),
        Cxm1978Parameter::Diffusion(v) => lemma_diffusion_codec(v),
        Cxm1978Parameter::TankMod(v) => lemma_tank_mod_codec(v),
        Cxm1978Parameter::Clock(v) => lemma_clock_codec(v),
        _ => {},
    }
}

impl Default for Cxm1978State {
    fn default() -> (r: Self)
        ensures
            r == Cxm1978State::spec_default(),
    {
        Cxm1978State {
            bass: 64,
            mids: 64,
            cross: 64,
            treble: 64,
            mix: 64,
            pre_dly: 0,
            jump: Jump::Off,
            reverb_type: ReverbType::Room,
            diffusion: Diffusion::Med,
            tank_mod: TankMod::Low,
            clock: Clock::Standard,
            expression: 0,
            bypass: false,
        }
    }
}

/// A connected CXM 1978: its shadow state and MIDI channel.
#[derive(Debug, Clone, Copy, PartialEq, Eq, Structural)]
pub struct Cxm1978 {
    pub state: Cxm1978State,
    pub midi_channel: u8,
}

impl Cxm1978 {
    /// A CXM 1978 in its default state.
    pub fn new(midi_channel: u8) -> (r: Cxm1978)
        ensures
            r.state == Cxm1978State::spec_default(),
            r.midi_channel == midi_channel,
    {
        Cxm1978 { state: Cxm1978State::default(), midi_channel }
    }

    /// Records a parameter change that was sent to the device.
    pub fn update_state(&mut self, param: &Cxm1978Parameter)
        ensures
            final(self).state == old(self).state.with_parameter(*param),
            final(self).midi_channel == old(self).midi_channel,
    {
        self.state = self.state.applied(param);
    }

    /// The CC map that reproduces the current state.
    pub fn state_as_cc_map(&self) -> (r: HashMap<u8, u8>)
        ensures
            r@ == self.state.spec_cc_map(),
    {
        self.state.to_cc_map()
    }

    /// Name and capabilities of the pedal.
    pub fn metadata(&self) -> (r: PedalMetadata)
        ensures
            r.name@ == "Cxm1978"@,
            r.manufacturer@ == "Chase Bliss Audio / Meris"@,
            r.supports_editor,
            r.supports_preset_library,
    {
        PedalMetadata {
            name: "Cxm1978",
            manufacturer: "Chase Bliss Audio / Meris",
            supports_editor: true,
            supports_preset_library: true,
        }
    }

    /// Presets 0..=29 are recalled by Program Changes 0..=29.
    pub fn supports_program_change(&self) -> (r: bool)
        ensures
            r,
    {
        true
    }

    /// A program change loads a preset on the device itself; the shadow state
    /// keeps what it held until the device reports the new values.
    pub fn load_preset(&mut self, program: u8)
        ensures
            *final(self) == *old(self),
    {
    }

}

} // verus!
