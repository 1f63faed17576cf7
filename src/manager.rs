//! Connection registry and shadow-state store.
//!
//! The registry decides; the caller performs the transport. Each operation
//! that transmits returns the exact wire bytes to send (Control Change
//! `B0|ch-1, cc, value`, Program Change `C0|ch-1, program`), and the shadow
//! state is updated by a separate call once the send has succeeded, so a
//! failed send leaves the shadow state as it was.

use crate::device_detection::{find_port, name_matches};
use crate::error::{MidiError, MidiResult};
use crate::pedals::chroma_console::{ChromaConsole, ChromaConsoleParameter, ChromaConsoleState};
use crate::pedals::gen_loss_mkii::{GenLossMkii, GenLossMkiiParameter, GenLossMkiiState};
use crate::pedals::microcosm::{EffectType, Microcosm, MicrocosmParameter, MicrocosmState};
use crate::pedals::preamp_mk2::{self, PreampMk2, PreampMk2Parameter, PreampMk2State};
use std::collections::HashMap;
use vstd::prelude::*;

verus! {

/// Pause between the messages of a full recall, in milliseconds.
pub const RECALL_DELAY_MS: u64 = 20;

/// Pause after each step of the Microcosm save sequence, in milliseconds.
pub const SAVE_SETTLE_MS: u64 = 1000;

/// Pause between the Program Change and the recall of the Chroma Console
/// save sequence, in milliseconds.
pub const CHROMA_SAVE_SETTLE_MS: u64 = 50;

/// Status bytes from here up are System Real-Time (clock, start, stop,
/// active sensing, reset).
pub const REALTIME_STATUS_MIN: u8 = 0xF8;

/// The pedal families the registry can connect.
#[derive(Debug, Clone, Copy, PartialEq, Eq, Structural, Hash)]
pub enum PedalType {
    Microcosm,
    GenLossMkii,
    ChromaConsole,
    PreampMk2,
}

impl PedalType {
    /// Tag of the family as inbound events carry it.
    pub open spec fn spec_tag(self) -> Seq<char> {
        match self {
            PedalType::Microcosm => "Microcosm"@,
            PedalType::GenLossMkii => "GenLossMkii"@,
            PedalType::ChromaConsole => "ChromaConsole"@,
            PedalType::PreampMk2 => "PreampMk2"@,
        }
    }

    /// Tag of the family as inbound events carry it.
    pub fn tag(&self) -> (r: String)
        ensures
            r@ == self.spec_tag(),
    {
        match self {
            PedalType::Microcosm => "Microcosm".to_owned(),
            PedalType::GenLossMkii => "GenLossMkii".to_owned(),
            PedalType::ChromaConsole => "ChromaConsole".to_owned(),
            PedalType::PreampMk2 => "PreampMk2".to_owned(),
        }
    }
}

/// A parameter change addressed to one of the supported families.
#[derive(Debug, Clone, Copy, PartialEq, Eq, Structural)]
pub enum PedalParameter {
    Microcosm(MicrocosmParameter),
    GenLossMkii(GenLossMkiiParameter),
    ChromaConsole(ChromaConsoleParameter),
    PreampMk2(PreampMk2Parameter),
}

/// A full parameter set of one of the supported families.
#[derive(Debug, Clone, Copy, PartialEq, Eq, Structural)]
pub enum PedalState {
    Microcosm(MicrocosmState),
    GenLossMkii(GenLossMkiiState),
    ChromaConsole(ChromaConsoleState),
    PreampMk2(PreampMk2State),
}

impl PedalParameter {
    /// The family the parameter belongs to.
    pub open spec fn spec_pedal_type(self) -> PedalType {
        match self {
            PedalParameter::Microcosm(_) => PedalType::Microcosm,
            PedalParameter::GenLossMkii(_) => PedalType::GenLossMkii,
            PedalParameter::ChromaConsole(_) => PedalType::ChromaConsole,
            PedalParameter::PreampMk2(_) => PedalType::PreampMk2,
        }
    }

    /// CC number and byte that carry the parameter.
    pub open spec fn spec_cc(self) -> (u8, u8) {
        match self {
            PedalParameter::Microcosm(p) => (p.spec_cc_number(), p.spec_cc_value()),
            PedalParameter::GenLossMkii(p) => (p.spec_cc_number(), p.spec_cc_value()),
            PedalParameter::ChromaConsole(p) => (p.spec_cc_number(), p.spec_cc_value()),
            PedalParameter::PreampMk2(p) => (p.spec_cc_number(), p.spec_cc_value()),
        }
    }

    /// CC number and byte that carry the parameter.
    pub fn cc(&self) -> (r: (u8, u8))
        ensures
            r == self.spec_cc(),
    {
        match self {
            PedalParameter::Microcosm(p) => (p.cc_number(), p.cc_value()),
            PedalParameter::GenLossMkii(p) => (p.cc_number(), p.cc_value()),
            PedalParameter::ChromaConsole(p) => (p.cc_number(), p.cc_value()),
            PedalParameter::PreampMk2(p) => (p.cc_number(), p.cc_value()),
        }
    }
}

impl PedalState {
    /// The family the state belongs to.
    pub open spec fn spec_pedal_type(self) -> PedalType {
        match self {
            PedalState::Microcosm(_) => PedalType::Microcosm,
            PedalState::GenLossMkii(_) => PedalType::GenLossMkii,
            PedalState::ChromaConsole(_) => PedalType::ChromaConsole,
            PedalState::PreampMk2(_) => PedalType::PreampMk2,
        }
    }

    /// The family the state belongs to.
    pub fn pedal_type(&self) -> (r: PedalType)
        ensures
            r == self.spec_pedal_type(),
    {
        match self {
            PedalState::Microcosm(_) => PedalType::Microcosm,
            PedalState::GenLossMkii(_) => PedalType::GenLossMkii,
            PedalState::ChromaConsole(_) => PedalType::ChromaConsole,
            PedalState::PreampMk2(_) => PedalType::PreampMk2,
        }
    }

    /// The state a newly connected device of the family is assumed to be in.
    pub open spec fn spec_default_for(t: PedalType) -> PedalState {
        match t {
            PedalType::Microcosm => PedalState::Microcosm(MicrocosmState::spec_default()),
            PedalType::GenLossMkii => PedalState::GenLossMkii(GenLossMkiiState::spec_default()),
            PedalType::ChromaConsole => PedalState::ChromaConsole(ChromaConsoleState::spec_default()),
            PedalType::PreampMk2 => PedalState::PreampMk2(PreampMk2State::spec_default()),
        }
    }

    /// The state a newly connected device of the family is assumed to be in.
    pub fn default_for(t: PedalType) -> (r: PedalState)
        ensures
            r == PedalState::spec_default_for(t),
    {
        match t {
            PedalType::Microcosm => PedalState::Microcosm(MicrocosmState::default()),
            PedalType::GenLossMkii => PedalState::GenLossMkii(GenLossMkiiState::default()),
            PedalType::ChromaConsole => PedalState::ChromaConsole(ChromaConsoleState::default()),
            PedalType::PreampMk2 => PedalState::PreampMk2(PreampMk2State::default()),
        }
    }

    /// The state after a parameter of the same family was sent.
    pub open spec fn spec_with_parameter(self, p: PedalParameter) -> PedalState {
        match (self, p) {
            (PedalState::Microcosm(s), PedalParameter::Microcosm(q)) => PedalState::Microcosm(
                s.with_parameter(q),
            ),
            (PedalState::GenLossMkii(s), PedalParameter::GenLossMkii(q)) => PedalState::GenLossMkii(
                s.with_parameter(q),
            ),
            (PedalState::ChromaConsole(s), PedalParameter::ChromaConsole(q)) => PedalState::ChromaConsole(
                s.with_parameter(q),
            ),
            (PedalState::PreampMk2(s), PedalParameter::PreampMk2(q)) => PedalState::PreampMk2(
                s.with_parameter(q),
            ),
            _ => self,
        }
    }

    /// The state after the device reported `value` on `cc`, decoded by the
    /// family's profile. The Generation Loss MKII profile decodes no reports,
    /// so its shadow state keeps what was sent.
    pub open spec fn spec_with_cc(self, cc: u8, value: u8) -> PedalState {
        match self {
            PedalState::Microcosm(s) => PedalState::Microcosm(s.with_cc(cc, value)),
            PedalState::GenLossMkii(_) => self,
            PedalState::ChromaConsole(s) => PedalState::ChromaConsole(s.with_cc(cc, value)),
            PedalState::PreampMk2(s) => PedalState::PreampMk2(s.with_cc(cc, value)),
        }
    }

    /// The CC map that a full recall of this state sends, exclusions removed.
    pub open spec fn spec_cc_map(self) -> Map<u8, u8> {
        match self {
            PedalState::Microcosm(s) => s.spec_cc_map(),
            PedalState::GenLossMkii(s) => s.spec_cc_map(),
            PedalState::ChromaConsole(s) => s.spec_cc_map(),
            PedalState::PreampMk2(s) => s.spec_cc_map(),
        }
    }

    /// The CC map that a full recall of this state sends, exclusions removed.
    pub fn cc_map(&self) -> (r: HashMap<u8, u8>)
        ensures
            r@ == self.spec_cc_map(),
    {
        match self {
            PedalState::Microcosm(s) => s.to_cc_map(),
            PedalState::GenLossMkii(s) => s.to_cc_map(),
            PedalState::ChromaConsole(s) => s.to_cc_map(),
            PedalState::PreampMk2(s) => s.to_cc_map(),
        }
    }

    /// The state after a parameter of the same family was sent.
    fn with_parameter(&self, p: &PedalParameter) -> (r: PedalState)
        ensures
            r == self.spec_with_parameter(*p),
    {
        match (self, p) {
            (PedalState::Microcosm(s), PedalParameter::Microcosm(q)) => {
                let mut d = Microcosm { state: *s, midi_channel: 1 };
                d.update_state(q);
                PedalState::Microcosm(d.state)
            },
            (PedalState::GenLossMkii(s), PedalParameter::GenLossMkii(q)) => {
                let mut d = GenLossMkii { state: *s, midi_channel: 1 };
                d.update_state(q);
                PedalState::GenLossMkii(d.state)
            },
            (PedalState::ChromaConsole(s), PedalParameter::ChromaConsole(q)) => {
                let mut d = ChromaConsole { state: *s, midi_channel: 1 };
                d.update_state(q);
                PedalState::ChromaConsole(d.state)
            },
            (PedalState::PreampMk2(s), PedalParameter::PreampMk2(q)) => {
                let mut d = PreampMk2 { state: *s, midi_channel: 1 };
                d.update_state(q);
                PedalState::PreampMk2(d.state)
            },
            _ => *self,
        }
    }

    /// The state after the device reported `value` on `cc`.
    fn with_cc(&self, cc: u8, value: u8) -> (r: PedalState)
        ensures
            r == self.spec_with_cc(cc, value),
    {
        match self {
            PedalState::Microcosm(s) => {
                let mut t = *s;
                t.update_from_cc(cc, value);
                PedalState::Microcosm(t)
            },
            PedalState::GenLossMkii(_) => *self,
            PedalState::ChromaConsole(s) => {
                let mut t = *s;
                t.update_from_cc(cc, value);
                PedalState::ChromaConsole(t)
            },
            PedalState::PreampMk2(s) => {
                let mut t = *s;
                t.update_from_cc(cc, value);
                PedalState::PreampMk2(t)
            },
        }
    }
}

/// One live connection: the device name it was opened under, its channel and
/// the shadow state of the device.
#[derive(Debug)]
pub struct DeviceConnection {
    pub device_name: String,
    pub midi_channel: u8,
    pub pedal: PedalState,
}

/// A connected device as listed to callers.
#[derive(Debug, Clone)]
pub struct ConnectedDevice {
    pub device_name: String,
    pub pedal_type: PedalType,
    pub midi_channel: u8,
}

/// A Control Change received from a connected device on its channel.
#[derive(Debug, Clone)]
pub struct MidiCCEvent {
    pub device_name: String,
    pub pedal_type: String,
    pub channel: u8,
    pub cc_number: u8,
    pub value: u8,
}

/// One step of a save sequence.
#[derive(Debug, Clone, Copy, PartialEq, Eq, Structural)]
pub enum SaveStep {
    /// Send a Control Change with this number and byte.
    ControlChange(u8, u8),
    /// Send a Program Change with this program number.
    ProgramChange(u8),
    /// Wait this many milliseconds before the next step.
    Wait(u64),
    /// Send a full recall of the preset being saved.
    RecallPreset,
}

/// Status byte of a Control Change on `channel` (1..=16).
pub open spec fn cc_status(channel: u8) -> u8 {
    (0xB0 + channel - 1) as u8
}

/// Status byte of a Program Change on `channel` (1..=16).
pub open spec fn pc_status(channel: u8) -> u8 {
    (0xC0 + channel - 1) as u8
}

/// The wire bytes of a Control Change.
pub open spec fn cc_message(channel: u8, cc: u8, value: u8) -> Seq<u8> {
    seq![cc_status(channel), cc, value]
}

/// A MIDI channel is numbered 1..=16.
pub open spec fn valid_channel(channel: u8) -> bool {
    1 <= channel <= 16
}

/// The wire bytes of a Control Change on `channel`.
pub fn control_change(channel: u8, cc: u8, value: u8) -> (r: Vec<u8>)
    requires
        valid_channel(channel),
    ensures
        r@ == cc_message(channel, cc, value),
{
    vec![0xB0 + (channel - 1), cc, value]
}

/// The wire bytes of a Program Change on `channel`.
pub fn program_change(channel: u8, program: u8) -> (r: Vec<u8>)
    requires
        valid_channel(channel),
    ensures
        r@ == seq![pc_status(channel), program],
{
    vec![0xC0 + (channel - 1), program]
}

/// The registry of live connections, keyed by device name.
pub struct MidiManager {
    connections: Vec<DeviceConnection>,
}

impl View for MidiManager {
    type V = Seq<DeviceConnection>;

    closed spec fn view(&self) -> Seq<DeviceConnection> {
        self.connections@
    }
}

impl MidiManager {
    /// At most one connection per device name, each on a valid channel and
    /// holding a shadow state of the family it was connected as.
    pub open spec fn wf(&self) -> bool {
        &&& forall|i: int, j: int|
            0 <= i < self@.len() && 0 <= j < self@.len() && i != j ==> #[trigger] self@[i].device_name@
                != #[trigger] self@[j].device_name@
        &&& forall|i: int| 0 <= i < self@.len() ==> valid_channel(#[trigger] self@[i].midi_channel)
    }

    /// Index of the connection registered under `name`, if any.
    pub open spec fn spec_find(&self, name: Seq<char>) -> Option<int> {
        if exists|i: int| 0 <= i < self@.len() && #[trigger] self@[i].device_name@ == name {
            Some(choose|i: int| 0 <= i < self@.len() && #[trigger] self@[i].device_name@ == name)
        } else {
            None
        }
    }

    /// A connection is registered under `name`.
    pub open spec fn spec_is_connected(&self, name: Seq<char>) -> bool {
        self.spec_find(name) is Some
    }

    /// The connection registered under `name`; meaningful when there is one.
    pub open spec fn conn(&self, name: Seq<char>) -> DeviceConnection {
        self@[self.spec_find(name).unwrap()]
    }

    /// An empty registry.
    pub fn new() -> (r: MidiManager)
        ensures
            r@.len() == 0,
            r.wf(),
    {
        MidiManager { connections: Vec::new() }
    }

    /// Index of the connection registered under `name`.
    fn position(&self, name: &str) -> (r: Option<usize>)
        requires
            self.wf(),
        ensures
            r is Some == self.spec_find(name@) is Some,
            r is Some ==> r.unwrap() < self@.len() && r.unwrap() as int == self.spec_find(name@).unwrap()
                && self@[r.unwrap() as int].device_name@ == name@,
    {
        let key: String = name.to_owned();
        let mut i: usize = 0;
        while i < self.connections.len()
            invariant
                i <= self@.len(),
                self.wf(),
                self@ == self.connections@,
                key@ == name@,
                forall|j: int| 0 <= j < i ==> #[trigger] self@[j].device_name@ != name@,
            decreases self.connections.len() - i,
        {
            if self.connections[i].device_name == key {
                proof {
                    assert(self@[i as int].device_name@ == name@);
                    let c = choose|k: int| 0 <= k < self@.len() && #[trigger] self@[k].device_name@ == name@;
                    if c != i {
                        assert(self@[c].device_name@ != self@[i as int].device_name@);
                    }
                }
                return Some(i);
            }
            i = i + 1;
        }
        None
    }

    /// Whether a connection is registered under `device_name`.
    pub fn is_connected(&self, device_name: &str) -> (r: bool)
        requires
            self.wf(),
        ensures
            r == self.spec_is_connected(device_name@),
    {
        self.position(device_name).is_some()
    }

    /// Registers a connection. Fails with `InvalidChannel` outside 1..=16,
    /// then with `AlreadyConnected` when the name is registered, then with
    /// `DeviceNotFound` when no port name contains the name (ignoring case).
    /// On success the device starts from its family's default state and the
    /// index of the matching port is returned for the caller to open.
    pub fn connect(
        &mut self,
        pedal_type: PedalType,
        device_name: &str,
        midi_channel: u8,
        output_ports: &Vec<String>,
    ) -> (r: MidiResult<usize>)
        requires
            old(self).wf(),
        ensures
            final(self).wf(),
            r is Ok ==> final(self).spec_is_connected(device_name@) && final(self).conn(device_name@)
                == final(self)@.last(),
            match r {
                Ok(port) => {
                    &&& valid_channel(midi_channel)
                    &&& !old(self).spec_is_connected(device_name@)
                    &&& port < output_ports@.len()
                    &&& name_matches(output_ports@[port as int]@, device_name@)
                    &&& forall|j: int|
                        0 <= j < port ==> !name_matches(#[trigger] output_ports@[j]@, device_name@)
                    &&& final(self)@.len() == old(self)@.len() + 1
                    &&& final(self)@.subrange(0, old(self)@.len() as int) == old(self)@
                    &&& final(self)@.last().device_name@ == device_name@
                    &&& final(self)@.last().midi_channel == midi_channel
                    &&& final(self)@.last().pedal == PedalState::spec_default_for(pedal_type)
                },
                Err(e) => {
                    &&& final(self)@ == old(self)@
                    &&& if !valid_channel(midi_channel) {
                        e == MidiError::InvalidChannel(midi_channel)
                    } else if old(self).spec_is_connected(device_name@) {
                        e.is_already_connected(device_name@)
                    } else {
                        &&& e.is_device_not_found(device_name@)
                        &&& forall|j: int|
                            0 <= j < output_ports@.len() ==> !name_matches(
                                #[trigger] output_ports@[j]@,
                                device_name@,
                            )
                    }
                },
            },
    {
        if midi_channel < 1 || midi_channel > 16 {
            return Err(MidiError::InvalidChannel(midi_channel));
        }
        if self.is_connected(device_name) {
            return Err(MidiError::AlreadyConnected(device_name.to_owned()));
        }
        let port = match find_port(device_name, output_ports) {
            Some(p) => p,
            None => {
                return Err(MidiError::DeviceNotFound(device_name.to_owned()));
            },
        };
        let conn = DeviceConnection {
            device_name: device_name.to_owned(),
            midi_channel,
            pedal: PedalState::default_for(pedal_type),
        };
        let ghost before = self@;
        self.connections.push(conn);
        proof {
            assert(self@ == before.push(conn));
            assert(self@.subrange(0, before.len() as int) =~= before);
            assert forall|i: int, j: int|
                0 <= i < self@.len() && 0 <= j < self@.len() && i != j implies #[trigger] self@[i].device_name@
                != #[trigger] self@[j].device_name@ by {
                if i == before.len() as int {
                    assert(before[j].device_name@ != device_name@);
                } else if j == before.len() as int {
                    assert(before[i].device_name@ != device_name@);
                }
            }
        }
        proof {
            let k = (self@.len() - 1) as int;
            assert(self@[k].device_name@ == device_name@);
            let c = choose|i: int| 0 <= i < self@.len() && #[trigger] self@[i].device_name@ == device_name@;
            if c != k {
                assert(self@[c].device_name@ != self@[k].device_name@);
            }
        }
        Ok(port)
    }

    /// Removes the connection registered under `device_name`; `NotConnected`
    /// when there is none.
    pub fn disconnect(&mut self, device_name: &str) -> (r: MidiResult<()>)
        requires
            old(self).wf(),
        ensures
            final(self).wf(),
            r is Ok <==> old(self).spec_is_connected(device_name@),
            r is Err ==> r->Err_0.is_not_connected(device_name@) && final(self)@ == old(self)@,
            r is Ok ==> final(self)@ == old(self)@.remove(old(self).spec_find(device_name@).unwrap()),
            !final(self).spec_is_connected(device_name@),
    {
        match self.position(device_name) {
            Some(i) => {
                let ghost before = self@;
                let _ = self.connections.remove(i);
                proof {
                    assert(before[i as int].device_name@ == device_name@);
                    assert(before == old(self)@);
                    assert forall|k: int| 0 <= k < self@.len() implies #[trigger] self@[k].device_name@
                        != device_name@ by {
                        let k0 = if k < i { k } else { k + 1 };
                        assert(before[k0] == self@[k]);
                        assert(k0 != i as int);
                        assert(before[k0].device_name@ != before[i as int].device_name@);
                    }
                    assert forall|a: int, b: int|
                        0 <= a < self@.len() && 0 <= b < self@.len() && a != b implies #[trigger] self@[a].device_name@
                        != #[trigger] self@[b].device_name@ by {
                        let a0 = if a < i { a } else { a + 1 };
                        let b0 = if b < i { b } else { b + 1 };
                        assert(self@[a] == before[a0]);
                        assert(self@[b] == before[b0]);
                    }
                    assert forall|k: int| 0 <= k < self@.len() implies valid_channel(
                        #[trigger] self@[k].midi_channel,
                    ) by {
                        if k < i {
                            assert(before[k] == self@[k]);
                        } else {
                            assert(before[k + 1] == self@[k]);
                        }
                    }
                }
                Ok(())
            },
            None => Err(MidiError::NotConnected(device_name.to_owned())),
        }
    }

    /// The connected devices, in connection order.
    pub fn connected_devices(&self) -> (r: Vec<ConnectedDevice>)
        ensures
            r@.len() == self@.len(),
            forall|i: int|
                0 <= i < r@.len() ==> {
                    &&& (#[trigger] r@[i]).device_name@ == self@[i].device_name@
                    &&& r@[i].pedal_type == self@[i].pedal.spec_pedal_type()
                    &&& r@[i].midi_channel == self@[i].midi_channel
                },
    {
        let mut out: Vec<ConnectedDevice> = Vec::new();
        let mut i: usize = 0;
        while i < self.connections.len()
            invariant
                i <= self@.len(),
                self@ == self.connections@,
                out@.len() == i,
                forall|k: int|
                    0 <= k < i ==> {
                        &&& (#[trigger] out@[k]).device_name@ == self@[k].device_name@
                        &&& out@[k].pedal_type == self@[k].pedal.spec_pedal_type()
                        &&& out@[k].midi_channel == self@[k].midi_channel
                    },
            decreases self.connections.len() - i,
        {
            let c = &self.connections[i];
            out.push(
                ConnectedDevice {
                    device_name: c.device_name.clone(),
                    pedal_type: c.pedal.pedal_type(),
                    midi_channel: c.midi_channel,
                },
            );
            i = i + 1;
        }
        out
    }

    /// The shadow state of the device; `NotConnected` when it has no connection.
    pub fn get_state(&self, device_name: &str) -> (r: MidiResult<PedalState>)
        requires
            self.wf(),
        ensures
            match r {
                Ok(s) => self.spec_is_connected(device_name@) && s == self.conn(device_name@).pedal,
                Err(e) => !self.spec_is_connected(device_name@) && e.is_not_connected(device_name@),
            },
    {
        match self.position(device_name) {
            Some(i) => Ok(self.connections[i].pedal),
            None => Err(MidiError::NotConnected(device_name.to_owned())),
        }
    }

    /// The Control Change that transmits `param` to the device. Fails with
    /// `NotConnected` when the device has no connection (nothing is to be
    /// sent), with `Other` when the device is of another family, and with
    /// `InvalidValue` when the parameter's byte lies above 127.
    pub fn parameter_message(&self, device_name: &str, param: &PedalParameter) -> (r: MidiResult<
        Vec<u8>,
    >)
        requires
            self.wf(),
        ensures
            match r {
                Ok(m) => {
                    let c = self.conn(device_name@);
                    &&& self.spec_is_connected(device_name@)
                    &&& c.pedal.spec_pedal_type() == param.spec_pedal_type()
                    &&& param.spec_cc().1 <= 127
                    &&& m@ == cc_message(c.midi_channel, param.spec_cc().0, param.spec_cc().1)
                },
                Err(e) => if !self.spec_is_connected(device_name@) {
                    e.is_not_connected(device_name@)
                } else if self.conn(device_name@).pedal.spec_pedal_type() != param.spec_pedal_type() {
                    e.is_other(mismatch_text(param.spec_pedal_type()))
                } else {
                    param.spec_cc().1 > 127 && e.is_invalid_value(param.spec_cc().1, "0-127"@)
                },
            },
    {
        let i = match self.position(device_name) {
            Some(i) => i,
            None => {
                return Err(MidiError::NotConnected(device_name.to_owned()));
            },
        };
        let c = &self.connections[i];
        if c.pedal.pedal_type() != param_type(param) {
            return Err(mismatch_error(param_type(param)));
        }
        let (cc, value) = param.cc();
        if value > 127 {
            return Err(MidiError::InvalidValue { expected: "0-127".to_owned(), actual: value });
        }
        Ok(control_change(c.midi_channel, cc, value))
    }

    /// Records in the shadow state a parameter change that was transmitted.
    /// Fails as `parameter_message` does, and then changes nothing; so the
    /// shadow state never takes a byte above 127.
    pub fn apply_outbound(&mut self, device_name: &str, param: &PedalParameter) -> (r: MidiResult<()>)
        requires
            old(self).wf(),
        ensures
            final(self).wf(),
            match r {
                Ok(_) => {
                    let i = old(self).spec_find(device_name@).unwrap();
                    let c = old(self)@[i];
                    &&& old(self).spec_is_connected(device_name@)
                    &&& c.pedal.spec_pedal_type() == param.spec_pedal_type()
                    &&& param.spec_cc().1 <= 127
                    &&& final(self)@.len() == old(self)@.len()
                    &&& forall|k: int| 0 <= k < old(self)@.len() && k != i ==> final(self)@[k] == old(self)@[k]
                    &&& final(self)@[i].device_name@ == c.device_name@
                    &&& final(self)@[i].midi_channel == c.midi_channel
                    &&& final(self)@[i].pedal == c.pedal.spec_with_parameter(*param)
                },
                Err(e) => {
                    &&& final(self)@ == old(self)@
                    &&& if !old(self).spec_is_connected(device_name@) {
                        e.is_not_connected(device_name@)
                    } else if old(self).conn(device_name@).pedal.spec_pedal_type() != param.spec_pedal_type() {
                        e.is_other(mismatch_text(param.spec_pedal_type()))
                    } else {
                        param.spec_cc().1 > 127 && e.is_invalid_value(param.spec_cc().1, "0-127"@)
                    }
                },
            },
    {
        let i = match self.position(device_name) {
            Some(i) => i,
            None => {
                return Err(MidiError::NotConnected(device_name.to_owned()));
            },
        };
        let t = self.connections[i].pedal.pedal_type();
        if t != param_type(param) {
            return Err(mismatch_error(param_type(param)));
        }
        let (_, value) = param.cc();
        if value > 127 {
            return Err(MidiError::InvalidValue { expected: "0-127".to_owned(), actual: value });
        }
        let new_pedal = self.connections[i].pedal.with_parameter(param);
        self.replace_pedal(i, new_pedal);
        Ok(())
    }

    /// Sets the shadow state of connection `i`, keeping its name and channel.
    fn replace_pedal(&mut self, i: usize, pedal: PedalState)
        requires
            old(self).wf(),
            i < old(self)@.len(),
        ensures
            final(self).wf(),
            final(self)@.len() == old(self)@.len(),
            forall|k: int| 0 <= k < old(self)@.len() && k != i ==> final(self)@[k] == old(self)@[k],
            final(self)@[i as int].device_name@ == old(self)@[i as int].device_name@,
            final(self)@[i as int].midi_channel == old(self)@[i as int].midi_channel,
            final(self)@[i as int].pedal == pedal,
            forall|n: Seq<char>| final(self).spec_find(n) == old(self).spec_find(n),
    {
        let ghost before = self@;
        let c = DeviceConnection {
            device_name: self.connections[i].device_name.clone(),
            midi_channel: self.connections[i].midi_channel,
            pedal,
        };
        self.connections.set(i, c);
        proof {
            assert forall|n: Seq<char>| self.spec_find(n) == old(self).spec_find(n) by {
                assert forall|k: int| 0 <= k < self@.len() implies (#[trigger] self@[k].device_name@ == n)
                    == (before[k].device_name@ == n) by {
                    if k != i {
                        assert(self@[k] == before[k]);
                    }
                }
                if exists|k: int| 0 <= k < self@.len() && #[trigger] self@[k].device_name@ == n {
                    let k = choose|k: int| 0 <= k < self@.len() && #[trigger] self@[k].device_name@ == n;
                    assert(before[k].device_name@ == n);
                }
                if exists|k: int| 0 <= k < before.len() && #[trigger] before[k].device_name@ == n {
                    let k = choose|k: int| 0 <= k < before.len() && #[trigger] before[k].device_name@ == n;
                    assert(self@[k].device_name@ == n);
                }
            }
            assert forall|a: int, b: int|
                0 <= a < self@.len() && 0 <= b < self@.len() && a != b implies #[trigger] self@[a].device_name@
                != #[trigger] self@[b].device_name@ by {
                assert(self@[a].device_name@ == before[a].device_name@);
                assert(self@[b].device_name@ == before[b].device_name@);
            }
            assert forall|k: int| 0 <= k < self@.len() implies valid_channel(
                #[trigger] self@[k].midi_channel,
            ) by {
                assert(self@[k].midi_channel == before[k].midi_channel);
            }
        }
    }

    /// The Program Change that selects `program` on a device of family
    /// `pedal_type`. A Preamp MK II has presets 0..=29 only: a higher program
    /// fails with `Other` before anything else is checked, connected or not.
    /// A Generation Loss MKII takes no Program Change (`Other`). Then
    /// `NotConnected` when the device has no connection, and `Other` when it
    /// is of another family. The program number is sent as it is (0-based).
    pub fn program_change_message(&self, pedal_type: PedalType, device_name: &str, program: u8) -> (r:
        MidiResult<Vec<u8>>)
        requires
            self.wf(),
        ensures
            match r {
                Ok(m) => {
                    let c = self.conn(device_name@);
                    &&& pedal_type != PedalType::GenLossMkii
                    &&& (pedal_type == PedalType::PreampMk2 ==> program <= preamp_mk2::MAX_PRESET_SLOT)
                    &&& self.spec_is_connected(device_name@)
                    &&& c.pedal.spec_pedal_type() == pedal_type
                    &&& m@ == seq![pc_status(c.midi_channel), program]
                },
                Err(e) => if pedal_type == PedalType::PreampMk2 && program > preamp_mk2::MAX_PRESET_SLOT {
                    e.is_other(invalid_slot_text())
                } else if pedal_type == PedalType::GenLossMkii {
                    e.is_other(no_program_change_text())
                } else if !self.spec_is_connected(device_name@) {
                    e.is_not_connected(device_name@)
                } else {
                    self.conn(device_name@).pedal.spec_pedal_type() != pedal_type && e.is_other(
                        mismatch_text(pedal_type),
                    )
                },
            },
    {
        if pedal_type == PedalType::PreampMk2 && program > preamp_mk2::MAX_PRESET_SLOT {
            return Err(MidiError::Other("Invalid preset slot: must be 0-29".to_owned()));
        }
        if pedal_type == PedalType::GenLossMkii {
            return Err(MidiError::Other("Generation Loss MKII does not support Program Change".to_owned()));
        }
        let i = match self.position(device_name) {
            Some(i) => i,
            None => {
                return Err(MidiError::NotConnected(device_name.to_owned()));
            },
        };
        let c = &self.connections[i];
        if c.pedal.pedal_type() != pedal_type {
            return Err(mismatch_error(pedal_type));
        }
        Ok(program_change(c.midi_channel, program))
    }

    /// Records a Program Change that was transmitted: on a Microcosm it
    /// selects the effect and variation of the program; other families keep
    /// their shadow state. `NotConnected` when the device has no connection.
    pub fn apply_program_change(&mut self, device_name: &str, program: u8) -> (r: MidiResult<()>)
        requires
            old(self).wf(),
        ensures
            final(self).wf(),
            r is Ok <==> old(self).spec_is_connected(device_name@),
            r is Err ==> r->Err_0.is_not_connected(device_name@) && final(self)@ == old(self)@,
            r is Ok ==> {
                let i = old(self).spec_find(device_name@).unwrap();
                let c = old(self)@[i];
                &&& final(self)@.len() == old(self)@.len()
                &&& forall|k: int| 0 <= k < old(self)@.len() && k != i ==> final(self)@[k] == old(self)@[k]
                &&& final(self)@[i].device_name@ == c.device_name@
                &&& final(self)@[i].midi_channel == c.midi_channel
                &&& final(self)@[i].pedal == match c.pedal {
                    PedalState::Microcosm(s) => match EffectType::spec_from_program(program) {
                        Some((e, v)) => PedalState::Microcosm(
                            MicrocosmState { current_effect: e, current_variation: v, ..s },
                        ),
                        None => c.pedal,
                    },
                    _ => c.pedal,
                }
            },
    {
        let i = match self.position(device_name) {
            Some(i) => i,
            None => {
                return Err(MidiError::NotConnected(device_name.to_owned()));
            },
        };
        let new_pedal = match self.connections[i].pedal {
            PedalState::Microcosm(s) => {
                let mut d = Microcosm { state: s, midi_channel: 1 };
                d.set_current_preset(program);
                PedalState::Microcosm(d.state)
            },
            other => other,
        };
        self.replace_pedal(i, new_pedal);
        Ok(())
    }

    /// The Control Changes of a full recall of `state`, in increasing CC
    /// order, one per entry of the family's recall map; each is to be
    /// followed by a pause of `RECALL_DELAY_MS`. Excluded CC numbers are not
    /// in the map and so never sent. Fails with `NotConnected`, or with
    /// `Other` when the state is of another family than the device.
    pub fn recall_messages(&self, device_name: &str, state: &PedalState) -> (r: MidiResult<Vec<Vec<u8>>>)
        requires
            self.wf(),
        ensures
            match r {
                Ok(ms) => {
                    let c = self.conn(device_name@);
                    &&& self.spec_is_connected(device_name@)
                    &&& c.pedal.spec_pedal_type() == state.spec_pedal_type()
                    &&& is_recall_sequence(ms@, c.midi_channel, state.spec_cc_map())
                },
                Err(e) => if !self.spec_is_connected(device_name@) {
                    e.is_not_connected(device_name@)
                } else {
                    self.conn(device_name@).pedal.spec_pedal_type() != state.spec_pedal_type() && e.is_other(
                        mismatch_text(state.spec_pedal_type()),
                    )
                },
            },
    {
        let i = match self.position(device_name) {
            Some(i) => i,
            None => {
                return Err(MidiError::NotConnected(device_name.to_owned()));
            },
        };
        let c = &self.connections[i];
        let t = c.pedal.pedal_type();
        if t != state.pedal_type() {
            return Err(mismatch_error(state.pedal_type()));
        }
        let map = state.cc_map();
        Ok(recall_sequence(c.midi_channel, &map))
    }

    /// Records a completed recall: the device's shadow state becomes `state`.
    /// Fails as `recall_messages` does, and then changes nothing.
    pub fn apply_recall(&mut self, device_name: &str, state: &PedalState) -> (r: MidiResult<()>)
        requires
            old(self).wf(),
        ensures
            final(self).wf(),
            match r {
                Ok(_) => {
                    let i = old(self).spec_find(device_name@).unwrap();
                    let c = old(self)@[i];
                    &&& old(self).spec_is_connected(device_name@)
                    &&& c.pedal.spec_pedal_type() == state.spec_pedal_type()
                    &&& final(self)@.len() == old(self)@.len()
                    &&& forall|k: int| 0 <= k < old(self)@.len() && k != i ==> final(self)@[k] == old(self)@[k]
                    &&& final(self)@[i].device_name@ == c.device_name@
                    &&& final(self)@[i].midi_channel == c.midi_channel
                    &&& final(self)@[i].pedal == *state
                },
                Err(e) => {
                    &&& final(self)@ == old(self)@
                    &&& if !old(self).spec_is_connected(device_name@) {
                        e.is_not_connected(device_name@)
                    } else {
                        old(self).conn(device_name@).pedal.spec_pedal_type() != state.spec_pedal_type()
                            && e.is_other(mismatch_text(state.spec_pedal_type()))
                    }
                },
            },
    {
        let i = match self.position(device_name) {
            Some(i) => i,
            None => {
                return Err(MidiError::NotConnected(device_name.to_owned()));
            },
        };
        let t = self.connections[i].pedal.pedal_type();
        if t != state.pedal_type() {
            return Err(mismatch_error(state.pedal_type()));
        }
        self.replace_pedal(i, *state);
        Ok(())
    }

    /// The Control Change that stores the Preamp MK II's current sound in
    /// `slot` (CC 27 carrying the slot). A slot above 29 fails with `Other`
    /// first; then `NotConnected`, and `Other` for another family.
    pub fn save_preamp_mk2_message(&self, device_name: &str, slot: u8) -> (r: MidiResult<Vec<u8>>)
        requires
            self.wf(),
        ensures
            match r {
                Ok(m) => {
                    &&& slot <= preamp_mk2::MAX_PRESET_SLOT
                    &&& self.spec_is_connected(device_name@)
                    &&& self.conn(device_name@).pedal.spec_pedal_type() == PedalType::PreampMk2
                    &&& m@ == cc_message(self.conn(device_name@).midi_channel, preamp_mk2::CC_PRESET_SAVE, slot)
                },
                Err(e) => if slot > preamp_mk2::MAX_PRESET_SLOT {
                    e.is_other(invalid_slot_text())
                } else if !self.spec_is_connected(device_name@) {
                    e.is_not_connected(device_name@)
                } else {
                    self.conn(device_name@).pedal.spec_pedal_type() != PedalType::PreampMk2 && e.is_other(
                        mismatch_text(PedalType::PreampMk2),
                    )
                },
            },
    {
        if slot > preamp_mk2::MAX_PRESET_SLOT {
            return Err(MidiError::Other("Invalid preset slot: must be 0-29".to_owned()));
        }
        let i = match self.position(device_name) {
            Some(i) => i,
            None => {
                return Err(MidiError::NotConnected(device_name.to_owned()));
            },
        };
        let c = &self.connections[i];
        match c.pedal {
            PedalState::PreampMk2(_) => Ok(control_change(c.midi_channel, preamp_mk2::CC_PRESET_SAVE, slot)),
            _ => Err(mismatch_error(PedalType::PreampMk2)),
        }
    }

    /// Handles one message from a device's inbound listener. System
    /// Real-Time messages (status 0xF8 and up) are dropped at once. A
    /// three-byte Control Change on the connection's channel is decoded into
    /// the shadow state and yields an event; anything else, or a device that
    /// has no connection, yields nothing and changes nothing.
    pub fn apply_inbound(&mut self, device_name: &str, message: &[u8]) -> (r: Option<MidiCCEvent>)
        requires
            old(self).wf(),
        ensures
            final(self).wf(),
            message@.len() > 0 && message@[0] >= REALTIME_STATUS_MIN ==> r is None && final(self)@ == old(
                self,
            )@,
            match r {
                Some(ev) => {
                    let i = old(self).spec_find(device_name@).unwrap();
                    let c = old(self)@[i];
                    &&& old(self).spec_is_connected(device_name@)
                    &&& is_channel_cc(message@, c.midi_channel)
                    &&& ev.device_name@ == device_name@
                    &&& ev.pedal_type@ == c.pedal.spec_pedal_type().spec_tag()
                    &&& ev.channel == c.midi_channel
                    &&& ev.cc_number == message@[1]
                    &&& ev.value == message@[2]
                    &&& final(self)@.len() == old(self)@.len()
                    &&& forall|k: int| 0 <= k < old(self)@.len() && k != i ==> final(self)@[k] == old(self)@[k]
                    &&& final(self)@[i].device_name@ == c.device_name@
                    &&& final(self)@[i].midi_channel == c.midi_channel
                    &&& final(self)@[i].pedal == c.pedal.spec_with_cc(message@[1], message@[2])
                },
                None => {
                    &&& final(self)@ == old(self)@
                    &&& (!old(self).spec_is_connected(device_name@) || !is_channel_cc(
                        message@,
                        old(self).conn(device_name@).midi_channel,
                    ))
                },
            },
    {
        if message.len() == 0 || message[0] >= REALTIME_STATUS_MIN {
            return None;
        }
        let i = match self.position(device_name) {
            Some(i) => i,
            None => {
                return None;
            },
        };
        let channel = self.connections[i].midi_channel;
        if !channel_cc(message, channel) {
            return None;
        }
        let cc = message[1];
        let value = message[2];
        let t = self.connections[i].pedal.pedal_type();
        let new_pedal = self.connections[i].pedal.with_cc(cc, value);
        self.replace_pedal(i, new_pedal);
        Some(
            MidiCCEvent {
                device_name: device_name.to_owned(),
                pedal_type: t.tag(),
                channel,
                cc_number: cc,
                value,
            },
        )
    }
}

/// The family a parameter belongs to.
fn param_type(p: &PedalParameter) -> (r: PedalType)
    ensures
        r == p.spec_pedal_type(),
{
    match p {
        PedalParameter::Microcosm(_) => PedalType::Microcosm,
        PedalParameter::GenLossMkii(_) => PedalType::GenLossMkii,
        PedalParameter::ChromaConsole(_) => PedalType::ChromaConsole,
        PedalParameter::PreampMk2(_) => PedalType::PreampMk2,
    }
}

/// Message of the error for a Preamp MK II slot above 29.
pub open spec fn invalid_slot_text() -> Seq<char> {
    "Invalid preset slot: must be 0-29"@
}

/// Message of the error for a Program Change to a Generation Loss MKII.
pub open spec fn no_program_change_text() -> Seq<char> {
    "Generation Loss MKII does not support Program Change"@
}

/// The message for a request meant for family `t` sent to a device of
/// another family.
pub open spec fn mismatch_text(t: PedalType) -> Seq<char> {
    match t {
        PedalType::Microcosm => "Device is not a Microcosm"@,
        PedalType::GenLossMkii => "Device is not a Gen Loss MKII"@,
        PedalType::ChromaConsole => "Device is not a Chroma Console"@,
        PedalType::PreampMk2 => "Device is not a Preamp MK II"@,
    }
}

/// The error for a request meant for family `t` sent to a device of another
/// family.
fn mismatch_error(t: PedalType) -> (r: MidiError)
    ensures
        r.is_other(mismatch_text(t)),
{
    match t {
        PedalType::Microcosm => MidiError::Other("Device is not a Microcosm".to_owned()),
        PedalType::GenLossMkii => MidiError::Other("Device is not a Gen Loss MKII".to_owned()),
        PedalType::ChromaConsole => MidiError::Other("Device is not a Chroma Console".to_owned()),
        PedalType::PreampMk2 => MidiError::Other("Device is not a Preamp MK II".to_owned()),
    }
}

/// The message is a three-byte (or longer) Control Change on `channel`.
pub open spec fn is_channel_cc(m: Seq<u8>, channel: u8) -> bool {
    &&& m.len() >= 3
    &&& 0xB0 <= m[0] <= 0xBF
    &&& (m[0] & 0x0F) + 1 == channel
}

/// Whether the message is a Control Change on `channel`.
fn channel_cc(message: &[u8], channel: u8) -> (r: bool)
    ensures
        r == is_channel_cc(message@, channel),
{
    message.len() >= 3 && message[0] >= 0xB0 && message[0] <= 0xBF && (message[0] & 0x0F) as u16 + 1 == channel as u16
}

/// `ms` sends exactly the entries of `map` as Control Changes on `channel`,
/// in strictly increasing CC order.
pub open spec fn is_recall_sequence(ms: Seq<Vec<u8>>, channel: u8, map: Map<u8, u8>) -> bool {
    &&& forall|k: int|
        0 <= k < ms.len() ==> {
            &&& (#[trigger] ms[k])@.len() == 3
            &&& ms[k]@[0] == cc_status(channel)
            &&& map.contains_key(ms[k]@[1])
            &&& ms[k]@[2] == map[ms[k]@[1]]
        }
    &&& forall|a: int, b: int| 0 <= a < b < ms.len() ==> #[trigger] ms[a]@[1] < #[trigger] ms[b]@[1]
    &&& forall|cc: u8| #[trigger] map.contains_key(cc) ==> exists|k: int| 0 <= k < ms.len() && #[trigger] ms[k]@[1] == cc
}

/// The Control Changes that send every entry of `map`, by increasing CC number.
pub fn recall_sequence(channel: u8, map: &HashMap<u8, u8>) -> (r: Vec<Vec<u8>>)
    requires
        valid_channel(channel),
    ensures
        is_recall_sequence(r@, channel, map@),
{
    let mut out: Vec<Vec<u8>> = Vec::new();
    let mut cc: u16 = 0;
    while cc < 256
        invariant
            cc <= 256,
            valid_channel(channel),
            forall|k: int|
                0 <= k < out@.len() ==> {
                    &&& (#[trigger] out@[k])@.len() == 3
                    &&& out@[k]@[0] == cc_status(channel)
                    &&& map@.contains_key(out@[k]@[1])
                    &&& out@[k]@[2] == map@[out@[k]@[1]]
                    &&& out@[k]@[1] < cc
                },
            forall|a: int, b: int| 0 <= a < b < out@.len() ==> #[trigger] out@[a]@[1] < #[trigger] out@[b]@[1],
            forall|c: u8|
                c < cc && #[trigger] map@.contains_key(c) ==> exists|k: int|
                    0 <= k < out@.len() && #[trigger] out@[k]@[1] == c,
        decreases 256 - cc,
    {
        let key: u8 = cc as u8;
        match map.get(&key) {
            Some(v) => {
                let ghost before = out@;
                out.push(control_change(channel, key, *v));
                proof {
                    assert forall|c: u8|
                        c < cc + 1 && #[trigger] map@.contains_key(c) implies exists|k: int|
                        0 <= k < out@.len() && #[trigger] out@[k]@[1] == c by {
                        if c < cc {
                            let k = choose|k: int| 0 <= k < before.len() && #[trigger] before[k]@[1] == c;
                            assert(out@[k] == before[k]);
                        } else {
                            assert(out@[out@.len() - 1]@[1] == c);
                        }
                    }
                }
            },
            None => {},
        }
        cc = cc + 1;
    }
    out
}

/// A recall of a Preamp MK II state never sends the expression (CC 100) or
/// the bypass (CC 102) Control Change.
pub proof fn lemma_recall_skips_exclusions(ms: Seq<Vec<u8>>, channel: u8, s: PreampMk2State)
    requires
        is_recall_sequence(ms, channel, PedalState::PreampMk2(s).spec_cc_map()),
    ensures
        forall|k: int|
            0 <= k < ms.len() ==> #[trigger] ms[k]@[1] != preamp_mk2::CC_EXPRESSION && ms[k]@[1]
                != preamp_mk2::CC_BYPASS,
{
    preamp_mk2::lemma_preamp_mk2_recall_exclusions(s, PreampMk2Parameter::Volume(0));
}

/// The Microcosm save sequence for the user slot shown as `bank_number`
/// (1-based): the copy trigger (CC 45), the Program Change `bank_number - 1`
/// that navigates to the slot while the pedal is in paste mode, then the
/// save trigger (CC 46), each step followed by the settle pause.
pub open spec fn spec_microcosm_save_steps(bank_number: u8) -> Seq<SaveStep> {
    seq![
        SaveStep::ControlChange(45, 127),
        SaveStep::Wait(SAVE_SETTLE_MS),
        SaveStep::ProgramChange((bank_number - 1) as u8),
        SaveStep::Wait(SAVE_SETTLE_MS),
        SaveStep::ControlChange(46, 127),
        SaveStep::Wait(SAVE_SETTLE_MS),
    ]
}

/// The Microcosm save sequence for the user slot shown as `bank_number`
/// (1-based). Note the off-by-one: slot N is selected by Program Change
/// N - 1, whereas a plain recall sends the program number unchanged.
pub fn microcosm_save_steps(bank_number: u8) -> (r: Vec<SaveStep>)
    requires
        bank_number >= 1,
    ensures
        r@ == spec_microcosm_save_steps(bank_number),
{
    let copy = MicrocosmParameter::PresetCopy;
    let save = MicrocosmParameter::PresetSave;
    vec![
        SaveStep::ControlChange(copy.cc_number(), copy.cc_value()),
        SaveStep::Wait(SAVE_SETTLE_MS),
        SaveStep::ProgramChange(bank_number - 1),
        SaveStep::Wait(SAVE_SETTLE_MS),
        SaveStep::ControlChange(save.cc_number(), save.cc_value()),
        SaveStep::Wait(SAVE_SETTLE_MS),
    ]
}

/// The Chroma Console save sequence for slot `bank_number`: the Program
/// Change `bank_number` itself (no offset), the settle pause, then a full
/// recall of the preset. The console stores it only when the user holds the
/// footswitch.
pub open spec fn spec_chroma_console_save_steps(bank_number: u8) -> Seq<SaveStep> {
    seq![SaveStep::ProgramChange(bank_number), SaveStep::Wait(CHROMA_SAVE_SETTLE_MS), SaveStep::RecallPreset]
}

/// The Chroma Console save sequence for slot `bank_number`.
pub fn chroma_console_save_steps(bank_number: u8) -> (r: Vec<SaveStep>)
    ensures
        r@ == spec_chroma_console_save_steps(bank_number),
{
    vec![SaveStep::ProgramChange(bank_number), SaveStep::Wait(CHROMA_SAVE_SETTLE_MS), SaveStep::RecallPreset]
}

} // verus!
