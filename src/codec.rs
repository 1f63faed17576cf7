//! Byte codec primitives shared by the pedal profiles.

use vstd::prelude::*;

verus! {

/// The byte that a switch sends: 127 when on, 0 when off.
pub open spec fn spec_switch_byte(on: bool) -> u8 {
    if on {
        127
    } else {
        0
    }
}

/// The byte that a switch with inverted polarity sends: 0 when on, 127 when off.
pub open spec fn spec_inverted_switch_byte(on: bool) -> u8 {
    if on {
        0
    } else {
        127
    }
}

/// Encodes a switch: 127 when on, 0 when off.
pub fn switch_byte(on: bool) -> (r: u8)
    ensures
        r == spec_switch_byte(on),
{
    if on {
        127
    } else {
        0
    }
}

/// Encodes a switch with inverted polarity: 0 when on, 127 when off.
pub fn inverted_switch_byte(on: bool) -> (r: u8)
    ensures
        r == spec_inverted_switch_byte(on),
{
    if on {
        0
    } else {
        127
    }
}

/// Decodes a switch byte: on from 64 up.
pub fn byte_is_on(value: u8) -> (r: bool)
    ensures
        r == (value >= 64),
{
    value >= 64
}

/// A switch survives encoding and decoding in either polarity, and the
/// threshold at 64 splits all bytes in two.
pub proof fn lemma_switch_codec(on: bool)
    ensures
        (spec_switch_byte(on) >= 64) == on,
        (spec_inverted_switch_byte(on) < 64) == on,
{
}

} // verus!
