//! Universal Device Inquiry: the Identity Request message, parsing of
//! Identity Reply messages, and the choice among several replies.

use crate::error::{MidiError, MidiResult};
use vstd::prelude::*;
use vstd::string::StringExecFns;

verus! {

/// Identity of a device as its Identity Reply gives it.
#[derive(Debug, Clone, PartialEq, Eq)]
pub struct DeviceIdentity {
    /// One byte, or three bytes starting with 0x00 for an extended code.
    pub manufacturer_id: Vec<u8>,
    /// Device family, a 14-bit value sent least significant 7 bits first.
    pub device_family: u16,
    /// Device model, a 14-bit value sent least significant 7 bits first.
    pub device_model: u16,
    /// The free-form bytes between the model and the closing 0xF7.
    pub software_version: Vec<u8>,
}

/// The six bytes of the Identity Request: `F0 7E 7F 06 01 F7`.
pub open spec fn spec_identity_request() -> Seq<u8> {
    seq![0xF0u8, 0x7Eu8, 0x7Fu8, 0x06u8, 0x01u8, 0xF7u8]
}

/// The Identity Request sent to every device on a port.
pub fn identity_request() -> (r: Vec<u8>)
    ensures
        r@ == spec_identity_request(),
{
    vec![0xF0, 0x7E, 0x7F, 0x06, 0x01, 0xF7]
}

/// A message starts with the five-byte Identity Reply header `F0 7E <id> 06 02`.
pub open spec fn has_reply_header(m: Seq<u8>) -> bool {
    m.len() >= 5 && m[0] == 0xF0 && m[1] == 0x7E && m[3] == 0x06 && m[4] == 0x02
}

/// Number of manufacturer bytes: three when the first one is 0x00.
pub open spec fn manufacturer_len(m: Seq<u8>) -> int {
    if m[5] == 0 {
        3
    } else {
        1
    }
}

/// The message is an Identity Reply long enough to hold manufacturer, family
/// and model.
pub open spec fn is_identity_reply(m: Seq<u8>) -> bool {
    &&& m.len() >= 11
    &&& has_reply_header(m)
    &&& m.len() >= 5 + manufacturer_len(m) + 4
}

/// A 14-bit value sent as two 7-bit bytes, least significant first.
pub open spec fn fourteen_bit(lsb: u8, msb: u8) -> u16 {
    ((msb as u16) << 7u16) | (lsb as u16)
}

/// The bytes of `s` before the first 0xF7, or all of them.
pub open spec fn bytes_before_end(s: Seq<u8>) -> Seq<u8>
    decreases s.len(),
{
    if s.len() == 0 || s[0] == 0xF7 {
        Seq::empty()
    } else {
        seq![s[0]] + bytes_before_end(s.drop_first())
    }
}

impl DeviceIdentity {
    /// The identity that a well-formed Identity Reply `m` describes.
    pub open spec fn describes(self, m: Seq<u8>) -> bool {
        let k = manufacturer_len(m);
        &&& self.manufacturer_id@ == m.subrange(5, 5 + k)
        &&& self.device_family == fourteen_bit(m[5 + k], m[6 + k])
        &&& self.device_model == fourteen_bit(m[7 + k], m[8 + k])
        &&& self.software_version@ == bytes_before_end(m.subrange(9 + k, m.len() as int))
    }

    /// Name of the manufacturer, where the table knows it.
    pub open spec fn spec_manufacturer_name(self) -> Option<Seq<char>> {
        if self.manufacturer_id@.len() == 1 {
            single_byte_manufacturer(self.manufacturer_id@[0])
        } else if self.manufacturer_id@.len() == 3 {
            extended_manufacturer(self.manufacturer_id@[0], self.manufacturer_id@[1], self.manufacturer_id@[2])
        } else {
            None
        }
    }

    /// Name of the manufacturer, where the table knows it.
    pub fn manufacturer_name(&self) -> (r: Option<&'static str>)
        ensures
            r is Some == self.spec_manufacturer_name() is Some,
            r is Some ==> r.unwrap()@ == self.spec_manufacturer_name().unwrap(),
    {
        if self.manufacturer_id.len() == 1 {
            match self.manufacturer_id[0] {
                0x00 => Some("Unknown (Extended ID)"),
                0x01 => Some("Sequential Circuits"),
                0x02 => Some("IDP/Big Briar"),
                0x03 => Some("Voyetra/Octave-Plateau"),
                0x04 => Some("Moog"),
                0x05 => Some("Passport Designs"),
                0x06 => Some("Lexicon"),
                0x07 => Some("Kurzweil"),
                0x08 => Some("Fender"),
                0x0F => Some("Ensoniq"),
                0x10 => Some("Oberheim/Gibson Labs"),
                0x13 => Some("Digidesign"),
                0x18 => Some("Emu"),
                0x1B => Some("Korg"),
                0x20 => Some("Kawai"),
                0x21 => Some("Roland"),
                0x22 => Some("Korg (alt)"),
                0x23 => Some("Yamaha"),
                0x24 => Some("Casio"),
                0x26 => Some("Kamiya Studio"),
                0x27 => Some("Akai"),
                0x29 => Some("Victor Company of Japan"),
                0x2F => Some("Fostex"),
                0x36 => Some("Zoom"),
                0x40 => Some("Kawai (alt)"),
                0x41 => Some("Roland (alt)"),
                0x42 => Some("Korg (alt 2)"),
                0x43 => Some("Yamaha (alt)"),
                0x44 => Some("Casio (alt)"),
                0x47 => Some("Akai (alt)"),
                _ => None,
            }
        } else if self.manufacturer_id.len() == 3 {
            if self.manufacturer_id[0] != 0 {
                None
            } else if self.manufacturer_id[1] == 0x02 && self.manufacturer_id[2] == 0x4D {
                Some("Hologram Electronics LLC")
            } else if self.manufacturer_id[1] == 0x20 && self.manufacturer_id[2] == 0x63 {
                Some("Central Music Co. (CME)")
            } else {
                None
            }
        } else {
            None
        }
    }

    /// One-line description: manufacturer name (or "Unknown Manufacturer"),
    /// then the manufacturer bytes, family and model in hexadecimal, as in
    /// `Roland (alt) (ID: [41], Family: 0x80, Model: 0x100)`.
    pub open spec fn spec_description(self) -> Seq<char> {
        let name = match self.spec_manufacturer_name() {
            Some(n) => n,
            None => "Unknown Manufacturer"@,
        };
        name + " (ID: ["@ + hex_items(self.manufacturer_id@) + "], Family: "@ + prefixed_hex(
            self.device_family as nat,
        ) + ", Model: "@ + prefixed_hex(self.device_model as nat) + ")"@
    }

    /// One-line description of the identity for display.
    pub fn description(&self) -> (r: String)
        ensures
            r@ == self.spec_description(),
    {
        let mut s = match self.manufacturer_name() {
            Some(n) => <String as StringExecFns>::from_str(n),
            None => <String as StringExecFns>::from_str("Unknown Manufacturer"),
        };
        let ghost head = s@;
        s.append(" (ID: [");
        let mut i: usize = 0;
        while i < self.manufacturer_id.len()
            invariant
                i <= self.manufacturer_id@.len(),
                s@ == head + " (ID: ["@ + hex_items(self.manufacturer_id@.subrange(0, i as int)),
            decreases self.manufacturer_id.len() - i,
        {
            let ghost before = s@;
            if i > 0 {
                s.append(", ");
            }
            push_byte_hex(&mut s, self.manufacturer_id[i]);
            proof {
                let done = self.manufacturer_id@.subrange(0, i as int);
                let next = self.manufacturer_id@.subrange(0, i + 1);
                assert(next.drop_last() =~= done);
                assert(next.last() == self.manufacturer_id@[i as int]);
                if i == 0 {
                    assert(done =~= Seq::<u8>::empty());
                    assert(s@ =~= head + " (ID: ["@ + hex_items(next));
                } else {
                    assert(s@ =~= head + " (ID: ["@ + hex_items(next));
                }
            }
            i = i + 1;
        }
        proof {
            assert(self.manufacturer_id@.subrange(0, i as int) =~= self.manufacturer_id@);
        }
        s.append("], Family: ");
        push_prefixed_hex(&mut s, self.device_family);
        s.append(", Model: ");
        push_prefixed_hex(&mut s, self.device_model);
        s.append(")");
        proof {
            assert(s@ =~= self.spec_description());
        }
        s
    }

    /// No device is yet matched to a pedal by its identity bytes.
    pub fn matches_pedal(&self, pedal_name: &str) -> (r: bool)
        ensures
            !r,
    {
        false
    }

    /// The manufacturer is a known Bluetooth-MIDI bridge or interface rather
    /// than a pedal.
    pub open spec fn spec_is_interface(self) -> bool {
        self.manufacturer_id@ == seq![0x00u8, 0x20u8, 0x63u8]
    }

    /// Whether the manufacturer is a known Bluetooth-MIDI bridge or interface.
    pub fn is_interface(&self) -> (r: bool)
        ensures
            r == self.spec_is_interface(),
    {
        let r = self.manufacturer_id.len() == 3 && self.manufacturer_id[0] == 0x00
            && self.manufacturer_id[1] == 0x20 && self.manufacturer_id[2] == 0x63;
        proof {
            if self.spec_is_interface() {
                assert(self.manufacturer_id@[1] == 0x20);
            }
            if r {
                assert(self.manufacturer_id@ =~= seq![0x00u8, 0x20u8, 0x63u8]);
            }
        }
        r
    }
}

/// The uppercase hexadecimal digit `d` (0..=15) as text.
pub open spec fn hex_digit_text(d: nat) -> Seq<char> {
    seq![if d < 10 { ((48 + d) as u8) as char } else { ((55 + d) as u8) as char }]
}

/// `n` in uppercase hexadecimal, without leading zeros.
pub open spec fn hex_text(n: nat) -> Seq<char>
    decreases n,
{
    if n < 16 {
        hex_digit_text(n)
    } else {
        hex_text(n / 16) + hex_digit_text(n % 16)
    }
}

/// `n` written as `0x` and at least two uppercase hexadecimal digits.
pub open spec fn prefixed_hex(n: nat) -> Seq<char> {
    "0x"@ + if n < 16 {
        "0"@ + hex_text(n)
    } else {
        hex_text(n)
    }
}

/// A byte as two uppercase hexadecimal digits.
pub open spec fn byte_hex(b: u8) -> Seq<char> {
    hex_digit_text((b / 16) as nat) + hex_digit_text((b % 16) as nat)
}

/// The bytes of `s` as two-digit hexadecimal numbers separated by `", "`.
pub open spec fn hex_items(s: Seq<u8>) -> Seq<char>
    decreases s.len(),
{
    if s.len() == 0 {
        Seq::empty()
    } else if s.len() == 1 {
        byte_hex(s[0])
    } else {
        hex_items(s.drop_last()) + ", "@ + byte_hex(s.last())
    }
}

fn hex_digit_str(d: u16) -> (r: &'static str)
    requires
        d < 16,
    ensures
        r@ == hex_digit_text(d as nat),
{
    let r = match d {
        0 => "0",
        1 => "1",
        2 => "2",
        3 => "3",
        4 => "4",
        5 => "5",
        6 => "6",
        7 => "7",
        8 => "8",
        9 => "9",
        10 => "A",
        11 => "B",
        12 => "C",
        13 => "D",
        14 => "E",
        _ => "F",
    };
    proof {
        reveal_strlit("0");
        reveal_strlit("1");
        reveal_strlit("2");
        reveal_strlit("3");
        reveal_strlit("4");
        reveal_strlit("5");
        reveal_strlit("6");
        reveal_strlit("7");
        reveal_strlit("8");
        reveal_strlit("9");
        reveal_strlit("A");
        reveal_strlit("B");
        reveal_strlit("C");
        reveal_strlit("D");
        reveal_strlit("E");
        reveal_strlit("F");
        assert(r@ =~= hex_digit_text(d as nat));
    }
    r
}

fn push_hex(s: &mut String, n: u16)
    ensures
        final(s)@ == old(s)@ + hex_text(n as nat),
    decreases n,
{
    if n >= 16 {
        push_hex(s, n / 16);
    }
    s.append(hex_digit_str(n % 16));
    proof {
        if n >= 16 {
            assert(old(s)@ + hex_text(n as nat) =~= old(s)@ + hex_text((n / 16) as nat) + hex_digit_text(
                (n % 16) as nat,
            ));
        }
    }
}

fn push_prefixed_hex(s: &mut String, n: u16)
    ensures
        final(s)@ == old(s)@ + prefixed_hex(n as nat),
{
    s.append("0x");
    if n < 16 {
        s.append("0");
    }
    push_hex(s, n);
    proof {
        if n < 16 {
            assert(final(s)@ =~= old(s)@ + prefixed_hex(n as nat));
        } else {
            assert(final(s)@ =~= old(s)@ + prefixed_hex(n as nat));
        }
    }
}

fn push_byte_hex(s: &mut String, b: u8)
    ensures
        final(s)@ == old(s)@ + byte_hex(b),
{
    s.append(hex_digit_str((b / 16) as u16));
    s.append(hex_digit_str((b % 16) as u16));
    proof {
        assert(final(s)@ =~= old(s)@ + byte_hex(b));
    }
}

/// Single-byte manufacturer codes that the table names.
pub open spec fn single_byte_manufacturer(b: u8) -> Option<Seq<char>> {
    match b {
        0x00 => Some("Unknown (Extended ID)"@),
        0x01 => Some("Sequential Circuits"@),
        0x02 => Some("IDP/Big Briar"@),
        0x03 => Some("Voyetra/Octave-Plateau"@),
        0x04 => Some("Moog"@),
        0x05 => Some("Passport Designs"@),
        0x06 => Some("Lexicon"@),
        0x07 => Some("Kurzweil"@),
        0x08 => Some("Fender"@),
        0x0F => Some("Ensoniq"@),
        0x10 => Some("Oberheim/Gibson Labs"@),
        0x13 => Some("Digidesign"@),
        0x18 => Some("Emu"@),
        0x1B => Some("Korg"@),
        0x20 => Some("Kawai"@),
        0x21 => Some("Roland"@),
        0x22 => Some("Korg (alt)"@),
        0x23 => Some("Yamaha"@),
        0x24 => Some("Casio"@),
        0x26 => Some("Kamiya Studio"@),
        0x27 => Some("Akai"@),
        0x29 => Some("Victor Company of Japan"@),
        0x2F => Some("Fostex"@),
        0x36 => Some("Zoom"@),
        0x40 => Some("Kawai (alt)"@),
        0x41 => Some("Roland (alt)"@),
        0x42 => Some("Korg (alt 2)"@),
        0x43 => Some("Yamaha (alt)"@),
        0x44 => Some("Casio (alt)"@),
        0x47 => Some("Akai (alt)"@),
        _ => None,
    }
}

/// Extended (three-byte, `00 xx yy`) manufacturer codes that the table names.
pub open spec fn extended_manufacturer(b0: u8, hi: u8, lo: u8) -> Option<Seq<char>> {
    if b0 != 0 {
        None
    } else if hi == 0x02 && lo == 0x4D {
        Some("Hologram Electronics LLC"@)
    } else if hi == 0x20 && lo == 0x63 {
        Some("Central Music Co. (CME)"@)
    } else {
        None
    }
}

/// Parses an Identity Reply. The manufacturer field is one byte, or three
/// when the first is 0x00; family and model are 14-bit values; the bytes up
/// to the closing 0xF7 are the software version.
pub fn parse_identity_reply(message: &[u8]) -> (r: MidiResult<DeviceIdentity>)
    ensures
        r is Ok <==> is_identity_reply(message@),
        r is Ok ==> r.unwrap().describes(message@),
{
    let len = message.len();
    if len < 11 {
        return Err(MidiError::Other("Identity reply too short".to_owned()));
    }
    if message[0] != 0xF0 || message[1] != 0x7E || message[3] != 0x06 || message[4] != 0x02 {
        return Err(MidiError::Other("Not a valid Identity Reply message".to_owned()));
    }
    let mut pos: usize = 5;
    let manufacturer_id: Vec<u8> = if message[pos] == 0x00 {
        let id = vec![message[5], message[6], message[7]];
        pos = 8;
        id
    } else {
        let id = vec![message[5]];
        pos = 6;
        id
    };
    proof {
        assert(manufacturer_id@ =~= message@.subrange(5, pos as int));
    }
    if len < pos + 4 {
        return Err(MidiError::Other("Truncated device model".to_owned()));
    }
    let device_family = ((message[pos + 1] as u16) << 7) | (message[pos] as u16);
    let device_model = ((message[pos + 3] as u16) << 7) | (message[pos + 2] as u16);
    pos = pos + 4;
    let start = pos;
    let mut software_version: Vec<u8> = Vec::new();
    while pos < len && message[pos] != 0xF7
        invariant
            start <= pos <= len,
            len == message@.len(),
            software_version@ + bytes_before_end(message@.subrange(pos as int, len as int))
                == bytes_before_end(message@.subrange(start as int, len as int)),
        decreases len - pos,
    {
        let ghost rest = message@.subrange(pos as int, len as int);
        proof {
            assert(rest.drop_first() =~= message@.subrange(pos + 1, len as int));
            assert(software_version@.push(message@[pos as int]) + bytes_before_end(rest.drop_first())
                =~= software_version@ + bytes_before_end(rest));
        }
        software_version.push(message[pos]);
        pos = pos + 1;
    }
    proof {
        let rest = message@.subrange(pos as int, len as int);
        assert(bytes_before_end(rest) =~= Seq::<u8>::empty());
        assert(software_version@ =~= software_version@ + bytes_before_end(rest));
    }
    Ok(DeviceIdentity { manufacturer_id, device_family, device_model, software_version })
}

/// For 7-bit bytes the 14-bit encoding is `msb * 128 + lsb`.
pub proof fn lemma_fourteen_bit(lsb: u8, msb: u8)
    requires
        lsb < 128,
        msb < 128,
    ensures
        fourteen_bit(lsb, msb) == msb * 128 + lsb,
{
    assert(((msb as u16) << 7u16) | (lsb as u16) == (msb as u16) * 128 + (lsb as u16)) by (bit_vector)
        requires
            lsb < 128,
            msb < 128,
    ;
}

/// The reply that identifies the device among all replies collected: the
/// first whose manufacturer is not a known bridge, or else the first one.
pub open spec fn spec_select_identity(replies: Seq<DeviceIdentity>) -> Option<int> {
    if replies.len() == 0 {
        None
    } else if exists|i: int| 0 <= i < replies.len() && !replies[i].spec_is_interface() {
        Some(choose|i: int| 0 <= i < replies.len() && !replies[i].spec_is_interface()
            && forall|j: int| 0 <= j < i ==> replies[j].spec_is_interface())
    } else {
        Some(0)
    }
}

/// Picks the reply that identifies the device: the first one whose
/// manufacturer is not a known Bluetooth-MIDI bridge, or the first reply when
/// all come from bridges; `None` when there is none.
pub fn select_identity(replies: &Vec<DeviceIdentity>) -> (r: Option<usize>)
    ensures
        replies@.len() == 0 <==> r is None,
        r is Some ==> ({
            let i = r.unwrap() as int;
            &&& 0 <= i < replies@.len()
            &&& forall|j: int| 0 <= j < i ==> replies@[j].spec_is_interface()
            &&& (!replies@[i].spec_is_interface() || (i == 0 && forall|j: int|
                0 <= j < replies@.len() ==> replies@[j].spec_is_interface()))
        }),
{
    let mut i: usize = 0;
    while i < replies.len()
        invariant
            i <= replies@.len(),
            forall|j: int| 0 <= j < i ==> replies@[j].spec_is_interface(),
        decreases replies.len() - i,
    {
        if !replies[i].is_interface() {
            return Some(i);
        }
        i = i + 1;
    }
    if replies.len() == 0 {
        None
    } else {
        Some(0)
    }
}

/// Pause between two looks for replies while none has come, in milliseconds.
pub const IDENTITY_POLL_MS: u64 = 50;

/// Extra time to collect further replies after the first, in milliseconds.
pub const IDENTITY_SETTLE_MS: u64 = 100;

/// What to do next while waiting for Identity Replies.
#[derive(Debug, Clone, Copy, PartialEq, Eq, Structural)]
pub enum IdentityWait {
    /// No reply yet: wait this long and look again.
    Poll(u64),
    /// A reply came: wait this long for more, then stop.
    Settle(u64),
    /// The timeout passed: stop with what has come.
    Finish,
}

/// The next step of the wait, from the time spent and the number of replies
/// collected so far.
pub open spec fn spec_identity_wait(elapsed_ms: u64, timeout_ms: u64, replies: usize) -> IdentityWait {
    if elapsed_ms >= timeout_ms {
        IdentityWait::Finish
    } else if replies > 0 {
        IdentityWait::Settle(IDENTITY_SETTLE_MS)
    } else {
        IdentityWait::Poll(IDENTITY_POLL_MS)
    }
}

/// The next step of the wait for Identity Replies: stop once the timeout has
/// passed; after the first reply, settle briefly and stop; otherwise poll.
pub fn identity_wait(elapsed_ms: u64, timeout_ms: u64, replies: usize) -> (r: IdentityWait)
    ensures
        r == spec_identity_wait(elapsed_ms, timeout_ms, replies),
{
    if elapsed_ms >= timeout_ms {
        IdentityWait::Finish
    } else if replies > 0 {
        IdentityWait::Settle(IDENTITY_SETTLE_MS)
    } else {
        IdentityWait::Poll(IDENTITY_POLL_MS)
    }
}

} // verus!
