//! Identifiers and bank numbers of stored presets.

use crate::bank_config::BankConfig;
use vstd::prelude::*;
use vstd::string::StringExecFns;

verus! {

/// Identifier of a stored preset.
#[derive(Debug, Clone, PartialEq, Eq, Hash)]
pub struct PresetId(pub String);

impl PresetId {
    /// Wraps an identifier string.
    pub fn new(id: String) -> (r: PresetId)
        ensures
            r.0@ == id@,
    {
        PresetId(id)
    }

    /// The identifier text.
    pub fn as_str(&self) -> (r: &str)
        ensures
            r@ == self.0@,
    {
        self.0.as_str()
    }

    /// The identifier text, as it is displayed.
    pub fn to_string(&self) -> (r: String)
        ensures
            r@ == self.0@,
    {
        self.0.clone()
    }
}

/// Failures of preset bookkeeping.
#[derive(Debug, Clone, PartialEq, Eq)]
pub enum PresetError {
    NotFound { id: String },
    DuplicateName { name: String },
    InvalidBankNumber { value: u8, min: u8, max: u8 },
    InvalidName { reason: String },
    Midi(String),
}

/// A user slot of a pedal, validated against its bank layout.
#[derive(Debug, Clone, PartialEq, Eq)]
pub struct BankNumber {
    value: u8,
    label: String,
    color: String,
}

impl BankNumber {
    /// The Program Change number of the slot.
    pub closed spec fn spec_value(&self) -> u8 {
        self.value
    }

    /// The slot's label in the bank layout.
    pub closed spec fn spec_label(&self) -> Seq<char> {
        self.label@
    }

    /// The colour of the slot's bank.
    pub closed spec fn spec_color(&self) -> Seq<char> {
        self.color@
    }

    /// The slot for Program Change `value`; `InvalidBankNumber` with the
    /// layout's bounds when `value` is not a user slot.
    pub fn new(value: u8, config: &BankConfig) -> (r: Result<BankNumber, PresetError>)
        requires
            config.wf(),
        ensures
            match r {
                Ok(b) => {
                    &&& config.in_range(value)
                    &&& b.spec_value() == value
                    &&& b.spec_label() == config.spec_format_label(value)
                    &&& b.spec_color() == config.bank_colors@[(value - config.program_change_start) / (
                    config.slots_per_bank as int)]@
                },
                Err(e) => !config.in_range(value) && e == PresetError::InvalidBankNumber {
                    value,
                    min: config.program_change_start,
                    max: config.program_change_end,
                },
            },
    {
        let label = match config.format_label(value) {
            Some(l) => l,
            None => {
                return Err(
                    PresetError::InvalidBankNumber {
                        value,
                        min: config.program_change_start,
                        max: config.program_change_end,
                    },
                );
            },
        };
        let color = match config.get_color(value) {
            Some(c) => c.to_owned(),
            None => {
                return Err(
                    PresetError::InvalidBankNumber {
                        value,
                        min: config.program_change_start,
                        max: config.program_change_end,
                    },
                );
            },
        };
        Ok(BankNumber { value, label, color })
    }

    /// The Program Change number of the slot.
    pub fn value(&self) -> (r: u8)
        ensures
            r == self.spec_value(),
    {
        self.value
    }

    /// "Bank " followed by the slot's label.
    pub fn label(&self) -> (r: String)
        ensures
            r@ == "Bank "@ + self.spec_label(),
    {
        let mut s = <String as StringExecFns>::from_str("Bank ");
        s.append(self.label.as_str());
        s
    }

    /// The colour of the slot's bank.
    pub fn color(&self) -> (r: &str)
        ensures
            r@ == self.spec_color(),
    {
        self.color.as_str()
    }
}

/// Criteria for listing presets; the default lists all of them.
#[derive(Debug, Clone)]
pub struct PresetFilter {
    pub pedal_type: Option<String>,
    pub tags: Vec<String>,
    pub is_favorite: Option<bool>,
    pub search_query: Option<String>,
}

impl Default for PresetFilter {
    fn default() -> (r: Self)
        ensures
            r.pedal_type is None,
            r.tags@.len() == 0,
            r.is_favorite is None,
            r.search_query is None,
    {
        PresetFilter { pedal_type: None, tags: Vec::new(), is_favorite: None, search_query: None }
    }
}

} // verus!
