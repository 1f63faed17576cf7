//! Bank layout of the pedals with a preset library: which Program Change
//! numbers are user slots, how they group into banks, and how a slot is
//! labelled and coloured.

use vstd::prelude::*;
use vstd::string::StringExecFns;

verus! {

/// How a preset is stored into a slot of the device.
#[derive(Debug, Clone)]
pub enum MidiSaveCapability {
    /// A Control Change stores the current sound.
    Supported { cc_number: u8, description: String },
    /// The user must store the sound on the device by hand.
    ManualOnly { instructions: String },
    /// The device stores every change by itself.
    AutoSave,
}

/// Bank layout of one pedal family.
#[derive(Debug, Clone)]
pub struct BankConfig {
    pub program_change_start: u8,
    pub program_change_end: u8,
    pub num_banks: usize,
    pub slots_per_bank: usize,
    pub bank_labels: Vec<String>,
    pub bank_colors: Vec<String>,
    pub midi_save: MidiSaveCapability,
}

/// The decimal digit `d` as text.
pub open spec fn digit_text(d: nat) -> Seq<char> {
    if d == 0 {
        "0"@
    } else if d == 1 {
        "1"@
    } else if d == 2 {
        "2"@
    } else if d == 3 {
        "3"@
    } else if d == 4 {
        "4"@
    } else if d == 5 {
        "5"@
    } else if d == 6 {
        "6"@
    } else if d == 7 {
        "7"@
    } else if d == 8 {
        "8"@
    } else {
        "9"@
    }
}

/// `n` written in decimal.
pub open spec fn decimal_text(n: nat) -> Seq<char>
    decreases n,
{
    if n < 10 {
        digit_text(n)
    } else {
        decimal_text(n / 10) + digit_text(n % 10)
    }
}

/// The letter that names slot `i` (0..=3) of a bank.
pub open spec fn slot_letter(i: nat) -> Seq<char> {
    if i == 0 {
        "A"@
    } else if i == 1 {
        "B"@
    } else if i == 2 {
        "C"@
    } else {
        "D"@
    }
}

fn digit_str(d: usize) -> (r: &'static str)
    requires
        d < 10,
    ensures
        r@ == digit_text(d as nat),
{
    match d {
        0 => "0",
        1 => "1",
        2 => "2",
        3 => "3",
        4 => "4",
        5 => "5",
        6 => "6",
        7 => "7",
        8 => "8",
        _ => "9",
    }
}

fn push_decimal(s: &mut String, n: usize)
    ensures
        final(s)@ == old(s)@ + decimal_text(n as nat),
    decreases n,
{
    if n >= 10 {
        push_decimal(s, n / 10);
    }
    s.append(digit_str(n % 10));
    proof {
        if n >= 10 {
            assert(old(s)@ + decimal_text(n as nat) =~= old(s)@ + decimal_text((n / 10) as nat) + digit_text(
                (n % 10) as nat,
            ));
        }
    }
}

fn letter_str(i: usize) -> (r: &'static str)
    requires
        i < 4,
    ensures
        r@ == slot_letter(i as nat),
{
    match i {
        0 => "A",
        1 => "B",
        2 => "C",
        _ => "D",
    }
}

impl BankConfig {
    /// Banks and colours are listed for every bank, and the Program Change
    /// range splits into banks of `slots_per_bank` slots.
    pub open spec fn wf(&self) -> bool {
        &&& self.slots_per_bank > 0
        &&& self.program_change_start <= self.program_change_end
        &&& self.bank_labels@.len() == self.num_banks
        &&& self.bank_colors@.len() == self.num_banks
        &&& (self.program_change_end - self.program_change_start) / (self.slots_per_bank as int)
            < self.num_banks
    }

    /// The Program Change is one of the user slots.
    pub open spec fn in_range(&self, program_change: u8) -> bool {
        self.program_change_start <= program_change <= self.program_change_end
    }

    /// Number of user slots.
    pub fn total_slots(&self) -> (r: usize)
        requires
            self.num_banks * self.slots_per_bank <= usize::MAX,
        ensures
            r == self.num_banks * self.slots_per_bank,
    {
        self.num_banks * self.slots_per_bank
    }

    /// Bank of a user slot: its offset from the first slot divided by the
    /// bank size; `None` outside the range.
    pub fn get_bank_index(&self, program_change: u8) -> (r: Option<usize>)
        requires
            self.slots_per_bank > 0,
        ensures
            r is Some <==> self.in_range(program_change),
            r is Some ==> r.unwrap() == (program_change - self.program_change_start) / (
            self.slots_per_bank as int),
    {
        if program_change < self.program_change_start || program_change > self.program_change_end {
            return None;
        }
        let offset = program_change - self.program_change_start;
        Some((offset as usize) / self.slots_per_bank)
    }

    /// Position of a user slot within its bank; `None` outside the range.
    pub fn get_slot_index(&self, program_change: u8) -> (r: Option<usize>)
        requires
            self.slots_per_bank > 0,
        ensures
            r is Some <==> self.in_range(program_change),
            r is Some ==> r.unwrap() == (program_change - self.program_change_start) % (
            self.slots_per_bank as int),
    {
        if program_change < self.program_change_start || program_change > self.program_change_end {
            return None;
        }
        let offset = program_change - self.program_change_start;
        Some((offset as usize) % self.slots_per_bank)
    }

    /// Label of a user slot: with at most four slots per bank the bank label
    /// followed by the slot letter ("2A"), otherwise the bank label, a dash
    /// and the 1-based slot number ("B-1").
    pub open spec fn spec_format_label(&self, program_change: u8) -> Seq<char> {
        let offset = (program_change - self.program_change_start) as nat;
        let bank = offset / (self.slots_per_bank as nat);
        let slot = offset % (self.slots_per_bank as nat);
        if self.slots_per_bank <= 4 {
            self.bank_labels@[bank as int]@ + slot_letter(slot)
        } else {
            self.bank_labels@[bank as int]@ + "-"@ + decimal_text(slot + 1)
        }
    }

    /// Label of a user slot; `None` outside the range.
    pub fn format_label(&self, program_change: u8) -> (r: Option<String>)
        requires
            self.wf(),
        ensures
            r is Some <==> self.in_range(program_change),
            r is Some ==> r.unwrap()@ == self.spec_format_label(program_change),
    {
        let bank_idx = match self.get_bank_index(program_change) {
            Some(b) => b,
            None => {
                return None;
            },
        };
        let slot_idx = match self.get_slot_index(program_change) {
            Some(s) => s,
            None => {
                return None;
            },
        };
        proof {
            let offset = (program_change - self.program_change_start) as int;
            assert(offset <= self.program_change_end - self.program_change_start);
            assert(offset / (self.slots_per_bank as int) <= (self.program_change_end
                - self.program_change_start) / (self.slots_per_bank as int)) by (nonlinear_arith)
                requires
                    0 <= offset <= self.program_change_end - self.program_change_start,
                    self.slots_per_bank > 0,
            ;
        }
        let mut label = self.bank_labels[bank_idx].clone();
        if self.slots_per_bank <= 4 {
            label.append(letter_str(slot_idx));
        } else {
            label.append("-");
            push_decimal(&mut label, slot_idx + 1);
        }
        Some(label)
    }

    /// Colour of the bank a user slot is in; `None` outside the range.
    pub fn get_color(&self, program_change: u8) -> (r: Option<&str>)
        requires
            self.wf(),
        ensures
            r is Some <==> self.in_range(program_change),
            r is Some ==> r.unwrap()@ == self.bank_colors@[(program_change - self.program_change_start) / (
            self.slots_per_bank as int)]@,
    {
        let bank_idx = match self.get_bank_index(program_change) {
            Some(b) => b,
            None => {
                return None;
            },
        };
        proof {
            let offset = (program_change - self.program_change_start) as int;
            assert(offset / (self.slots_per_bank as int) <= (self.program_change_end
                - self.program_change_start) / (self.slots_per_bank as int)) by (nonlinear_arith)
                requires
                    0 <= offset <= self.program_change_end - self.program_change_start,
                    self.slots_per_bank > 0,
            ;
        }
        Some(self.bank_colors[bank_idx].as_str())
    }
}

/// The four strings as owned strings.
fn four(a: &str, b: &str, c: &str, d: &str) -> (r: Vec<String>)
    ensures
        r@.len() == 4,
        r@[0]@ == a@,
        r@[1]@ == b@,
        r@[2]@ == c@,
        r@[3]@ == d@,
{
    vec![a.to_owned(), b.to_owned(), c.to_owned(), d.to_owned()]
}

/// The bank layout of a pedal family with a preset library: the Microcosm
/// keeps 16 user slots on Program Changes 45..=60 in four banks of four and
/// saves by CC 46; the Chroma Console keeps 80 slots on 0..=79 in four banks
/// of twenty and is saved by hand. Other families have none.
pub fn get_bank_config(pedal_type: &str) -> (r: Option<BankConfig>)
    ensures
        r is Some <==> (pedal_type@ == "Microcosm"@ || pedal_type@ == "ChromaConsole"@),
        r is Some ==> r.unwrap().wf(),
        pedal_type@ == "Microcosm"@ ==> ({
            let c = r.unwrap();
            &&& c.program_change_start == 45
            &&& c.program_change_end == 60
            &&& c.num_banks == 4
            &&& c.slots_per_bank == 4
            &&& c.bank_labels@.map_values(|s: String| s@) == seq!["1"@, "2"@, "3"@, "4"@]
            &&& c.bank_colors@.map_values(|s: String| s@) == seq!["red"@, "yellow"@, "green"@, "blue"@]
            &&& c.midi_save matches MidiSaveCapability::Supported { cc_number, .. } && cc_number == 46
        }),
        pedal_type@ == "ChromaConsole"@ ==> ({
            let c = r.unwrap();
            &&& c.program_change_start == 0
            &&& c.program_change_end == 79
            &&& c.num_banks == 4
            &&& c.slots_per_bank == 20
            &&& c.bank_labels@.map_values(|s: String| s@) == seq!["A"@, "B"@, "C"@, "D"@]
            &&& c.bank_colors@.map_values(|s: String| s@) == seq!["red"@, "orange"@, "green"@, "blue"@]
            &&& c.midi_save is ManualOnly
        }),
{
    proof {
        reveal_strlit("Microcosm");
        reveal_strlit("ChromaConsole");
        assert("Microcosm"@.len() != "ChromaConsole"@.len());
    }
    let key = pedal_type.to_owned();
    if key == <String as StringExecFns>::from_str("Microcosm") {
        let labels = four("1", "2", "3", "4");
        let colors = four("red", "yellow", "green", "blue");
        proof {
            assert(labels@.map_values(|s: String| s@) =~= seq!["1"@, "2"@, "3"@, "4"@]);
            assert(colors@.map_values(|s: String| s@) =~= seq!["red"@, "yellow"@, "green"@, "blue"@]);
        }
        Some(
            BankConfig {
                program_change_start: 45,
                program_change_end: 60,
                num_banks: 4,
                slots_per_bank: 4,
                bank_labels: labels,
                bank_colors: colors,
                midi_save: MidiSaveCapability::Supported {
                    cc_number: 46,
                    description: "CC 46 - Preset Save".to_owned(),
                },
            },
        )
    } else if key == <String as StringExecFns>::from_str("ChromaConsole") {
        let labels = four("A", "B", "C", "D");
        let colors = four("red", "orange", "green", "blue");
        proof {
            assert(labels@.map_values(|s: String| s@) =~= seq!["A"@, "B"@, "C"@, "D"@]);
            assert(colors@.map_values(|s: String| s@) =~= seq!["red"@, "orange"@, "green"@, "blue"@]);
        }
        Some(
            BankConfig {
                program_change_start: 0,
                program_change_end: 79,
                num_banks: 4,
                slots_per_bank: 20,
                bank_labels: labels,
                bank_colors: colors,
                midi_save: MidiSaveCapability::ManualOnly {
                    instructions: "Press and hold the footswitch to save the preset to the pedal's internal memory".to_owned(),
                },
            },
        )
    } else {
        None
    }
}

} // verus!
