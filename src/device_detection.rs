//! Matching of device names against MIDI port names.
//!
//! A device is found by a case-insensitive substring match of the requested
//! name against each port name.

use vstd::prelude::*;

verus! {

/// A MIDI port as the port layer lists it.
#[derive(Debug, Clone)]
pub struct MidiDeviceInfo {
    pub index: usize,
    pub name: String,
    pub is_input: bool,
}

/// What `str::to_lowercase` returns for a string: Unicode lowercasing, which
/// depends on the characters alone.
pub uninterp spec fn lower_of(s: Seq<char>) -> Seq<char>;

/// Relies on `str::to_lowercase`: the lowercase form of the characters.
#[verifier::external_body]
fn lowercase(s: &str) -> (r: String)
    ensures
        r@ == lower_of(s@),
{
    s.to_lowercase()
}

/// `needle` occurs in `haystack` as a contiguous run of characters.
pub open spec fn contains_seq(haystack: Seq<char>, needle: Seq<char>) -> bool {
    exists|i: int|
        0 <= i && i + needle.len() <= haystack.len() && #[trigger] haystack.subrange(i, i + needle.len())
            == needle
}

/// Relies on `str::contains` with a `&str` pattern: true exactly when the
/// pattern occurs in the string as a substring.
#[verifier::external_body]
fn text_contains(haystack: &str, needle: &str) -> (r: bool)
    ensures
        r == contains_seq(haystack@, needle@),
{
    haystack.contains(needle)
}

/// A port name matches a requested device name when the lowercase request
/// occurs in the lowercase port name.
pub open spec fn name_matches(port_name: Seq<char>, pattern: Seq<char>) -> bool {
    contains_seq(lower_of(port_name), lower_of(pattern))
}

/// Case-insensitive substring match of `pattern` in `port_name`.
pub fn name_matches_pattern(port_name: &str, pattern: &str) -> (r: bool)
    ensures
        r == name_matches(port_name@, pattern@),
{
    let name_lower = lowercase(port_name);
    let pattern_lower = lowercase(pattern);
    text_contains(name_lower.as_str(), pattern_lower.as_str())
}

/// Index of the first port whose name matches `pattern`.
pub fn find_port(pattern: &str, port_names: &Vec<String>) -> (r: Option<usize>)
    ensures
        match r {
            Some(i) => i < port_names@.len() && name_matches(port_names@[i as int]@, pattern@)
                && forall|j: int| 0 <= j < i ==> !name_matches(#[trigger] port_names@[j]@, pattern@),
            None => forall|j: int|
                0 <= j < port_names@.len() ==> !name_matches(#[trigger] port_names@[j]@, pattern@),
        },
{
    let mut i: usize = 0;
    while i < port_names.len()
        invariant
            i <= port_names@.len(),
            forall|j: int| 0 <= j < i ==> !name_matches(#[trigger] port_names@[j]@, pattern@),
        decreases port_names.len() - i,
    {
        if name_matches_pattern(port_names[i].as_str(), pattern) {
            return Some(i);
        }
        i = i + 1;
    }
    None
}

/// Index of the first device in `devices` whose name matches `pattern`.
fn find_in(pattern: &str, devices: &Vec<MidiDeviceInfo>) -> (r: Option<usize>)
    ensures
        match r {
            Some(i) => i < devices@.len() && name_matches(devices@[i as int].name@, pattern@)
                && forall|j: int| 0 <= j < i ==> !name_matches(#[trigger] devices@[j].name@, pattern@),
            None => forall|j: int|
                0 <= j < devices@.len() ==> !name_matches(#[trigger] devices@[j].name@, pattern@),
        },
{
    let mut i: usize = 0;
    while i < devices.len()
        invariant
            i <= devices@.len(),
            forall|j: int| 0 <= j < i ==> !name_matches(#[trigger] devices@[j].name@, pattern@),
        decreases devices.len() - i,
    {
        if name_matches_pattern(devices[i].name.as_str(), pattern) {
            return Some(i);
        }
        i = i + 1;
    }
    None
}

/// A copy of a device entry, field by field.
fn copy_info(d: &MidiDeviceInfo) -> (r: MidiDeviceInfo)
    ensures
        r.index == d.index,
        r.name@ == d.name@,
        r.is_input == d.is_input,
{
    MidiDeviceInfo { index: d.index, name: d.name.clone(), is_input: d.is_input }
}

/// `devices[i]` is the first device whose name matches `pattern`.
pub open spec fn is_first_match(devices: Seq<MidiDeviceInfo>, i: int, pattern: Seq<char>) -> bool {
    &&& name_matches(devices[i].name@, pattern)
    &&& forall|j: int| 0 <= j < i ==> !name_matches(#[trigger] devices[j].name@, pattern)
}

/// Two device entries agree field by field.
pub open spec fn same_info(d: MidiDeviceInfo, e: MidiDeviceInfo) -> bool {
    d.index == e.index && d.name@ == e.name@ && d.is_input == e.is_input
}

/// Finds a device by case-insensitive partial name, searching the inputs
/// first and then the outputs.
pub fn find_device_by_name(
    name_pattern: &str,
    inputs: &Vec<MidiDeviceInfo>,
    outputs: &Vec<MidiDeviceInfo>,
) -> (r: Option<MidiDeviceInfo>)
    ensures
        match r {
            Some(d) => (exists|i: int|
                0 <= i < inputs@.len() && is_first_match(inputs@, i, name_pattern@) && same_info(
                    d,
                    #[trigger] inputs@[i],
                )) || ((forall|j: int|
                0 <= j < inputs@.len() ==> !name_matches(#[trigger] inputs@[j].name@, name_pattern@))
                && exists|i: int|
                0 <= i < outputs@.len() && is_first_match(outputs@, i, name_pattern@) && same_info(
                    d,
                    #[trigger] outputs@[i],
                )),
            None => (forall|j: int|
                0 <= j < inputs@.len() ==> !name_matches(#[trigger] inputs@[j].name@, name_pattern@))
                && forall|j: int|
                0 <= j < outputs@.len() ==> !name_matches(#[trigger] outputs@[j].name@, name_pattern@),
        },
{
    match find_in(name_pattern, inputs) {
        Some(i) => Some(copy_info(&inputs[i])),
        None => match find_in(name_pattern, outputs) {
            Some(i) => Some(copy_info(&outputs[i])),
            None => None,
        },
    }
}

} // verus!
