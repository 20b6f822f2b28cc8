//! Identifiers of tasks, chains and agents: 128-bit UUIDs.

use crate::json::{Json, JsonView};
use crate::wire::{DecodeError, Fault, Form, Wire};
use vstd::prelude::*;
use vstd::string::*;

verus! {

/// A UUID, by its 128 bits.
#[derive(Debug, Clone, Copy, PartialEq, Eq, Hash, Structural)]
pub struct Uuid {
    pub bits: u128,
}

/// The lower-case hexadecimal digit for a number below sixteen.
pub open spec fn hex_char(d: int) -> char
    recommends
        0 <= d < 16,
{
    if d < 10 {
        (48 + d) as char
    } else {
        (87 + d) as char
    }
}

/// The number that a hexadecimal digit of either case stands for.
pub open spec fn hex_value(c: char) -> Option<nat> {
    if '0' <= c <= '9' {
        Some((c as int - 48) as nat)
    } else if 'a' <= c <= 'f' {
        Some((c as int - 87) as nat)
    } else if 'A' <= c <= 'F' {
        Some((c as int - 55) as nat)
    } else {
        None
    }
}

/// The last `count` hexadecimal digits of a number, most significant first.
pub open spec fn hex_digits(n: nat, count: nat) -> Seq<char>
    decreases count,
{
    if count == 0 {
        Seq::empty()
    } else {
        hex_digits(n / 16, (count - 1) as nat).push(hex_char((n % 16) as int))
    }
}

/// The number that a string of hexadecimal digits spells.
pub open spec fn hex_number(s: Seq<char>) -> Option<nat>
    decreases s.len(),
{
    if s.len() == 0 {
        Some(0)
    } else {
        match (hex_number(s.drop_last()), hex_value(s.last())) {
            (Some(front), Some(d)) => Some(front * 16 + d),
            _ => None,
        }
    }
}

/// Thirty-two digits in groups of 8, 4, 4, 4 and 12 with hyphens between.
pub open spec fn grouped(d: Seq<char>) -> Seq<char> {
    d.subrange(0, 8) + seq!['-'] + d.subrange(8, 12) + seq!['-'] + d.subrange(12, 16) + seq!['-']
        + d.subrange(16, 20) + seq!['-'] + d.subrange(20, 32)
}

/// The number that a hyphenated string of digits spells.
pub open spec fn grouped_number(s: Seq<char>) -> Option<nat> {
    if s.len() == 36 && s[8] == '-' && s[13] == '-' && s[18] == '-' && s[23] == '-' {
        hex_number(
            s.subrange(0, 8) + s.subrange(9, 13) + s.subrange(14, 18) + s.subrange(19, 23)
                + s.subrange(24, 36),
        )
    } else {
        None
    }
}

/// A character with an ASCII capital made small.
pub open spec fn ascii_lower(c: char) -> char {
    if 'A' <= c <= 'Z' {
        (c as int + 32) as char
    } else {
        c
    }
}

/// The number that a UUID in any of its four notations spells: plain digits,
/// hyphenated, hyphenated in braces, hyphenated behind `urn:uuid:`.
pub open spec fn uuid_number(s: Seq<char>) -> Option<nat> {
    if s.len() == 32 {
        hex_number(s)
    } else if s.len() == 36 {
        grouped_number(s)
    } else if s.len() == 38 && s[0] == '{' && s[37] == '}' {
        grouped_number(s.subrange(1, 37))
    } else if s.len() == 45 && s.take(9).map_values(|c: char| ascii_lower(c)) == "urn:uuid:"@ {
        grouped_number(s.skip(9))
    } else {
        None
    }
}

/// The hyphenated notation of a UUID, in small letters.
pub open spec fn uuid_text(bits: u128) -> Seq<char> {
    grouped(hex_digits(bits as nat, 32))
}

/// `uuid::Uuid`'s `Display`: the hyphenated notation in small letters.
#[verifier::external_body]
fn hyphenated(bits: u128) -> (r: String)
    ensures
        r@ == uuid_text(bits),
{
    uuid::Uuid::from_u128(bits).to_string()
}

/// `uuid::Uuid::parse_str`: the bits of a UUID in any of the four notations,
/// nothing for any other text.
#[verifier::external_body]
fn parse_bits(text: &str) -> (r: Option<u128>)
    ensures
        match r {
            Some(b) => uuid_number(text@) == Some(b as nat),
            None => uuid_number(text@) is None,
        },
{
    uuid::Uuid::parse_str(text).ok().map(|u| u.as_u128())
}

impl Uuid {
    /// The UUID of all zeros.
    pub fn nil() -> (r: Uuid)
        ensures
            r.bits == 0,
    {
        Uuid { bits: 0 }
    }

    /// The UUID of the given bits.
    pub fn from_u128(bits: u128) -> (r: Uuid)
        ensures
            r.bits == bits,
    {
        Uuid { bits }
    }

    /// The bits.
    pub fn as_u128(&self) -> (r: u128)
        ensures
            r == self.bits,
    {
        self.bits
    }

    /// The hyphenated notation.
    pub fn to_text(&self) -> (r: String)
        ensures
            r@ == uuid_text(self.bits),
    {
        hyphenated(self.bits)
    }

    /// Reads a UUID in any notation.
    pub fn parse(text: &str) -> (r: Option<Uuid>)
        ensures
            match r {
                Some(u) => uuid_number(text@) == Some(u.bits as nat),
                None => uuid_number(text@) is None,
            },
    {
        match parse_bits(text) {
            Some(bits) => Some(Uuid { bits }),
            None => None,
        }
    }
}

/// Sixteen to the power of `count`.
spec fn pow16(count: nat) -> nat
    decreases count,
{
    if count == 0 {
        1
    } else {
        16 * pow16((count - 1) as nat)
    }
}

/// The digits of a number that fits in them spell the number.
proof fn lemma_hex_digits_spell(n: nat, count: nat)
    requires
        n < pow16(count),
    ensures
        hex_digits(n, count).len() == count,
        hex_number(hex_digits(n, count)) == Some(n),
    decreases count,
{
    if count > 0 {
        lemma_hex_digits_spell(n / 16, (count - 1) as nat);
        assert(hex_digits(n, count).drop_last() =~= hex_digits(n / 16, (count - 1) as nat));
    }
}

/// A UUID is read back from its own text.
pub proof fn law_uuid_reads_its_text(bits: u128)
    ensures
        uuid_text(bits).len() == 36,
        uuid_number(uuid_text(bits)) == Some(bits as nat),
{
    reveal_with_fuel(pow16, 33);
    assert(pow16(32) == 0x1_0000_0000_0000_0000_0000_0000_0000_0000);
    let d = hex_digits(bits as nat, 32);
    lemma_hex_digits_spell(bits as nat, 32);
    let s = uuid_text(bits);
    assert(s.subrange(0, 8) + s.subrange(9, 13) + s.subrange(14, 18) + s.subrange(19, 23)
        + s.subrange(24, 36) =~= d);
}

impl Wire for Uuid {
    type Model = Uuid;

    open spec fn model(&self) -> Uuid {
        *self
    }

    open spec fn tree(m: Uuid) -> JsonView {
        JsonView::Text(uuid_text(m.bits))
    }

    open spec fn read(t: JsonView, at: Seq<char>, form: Form) -> Result<Uuid, Fault> {
        match t {
            JsonView::Text(s) => match uuid_number(s) {
                Some(n) => Ok(Uuid { bits: n as u128 }),
                None => Err(Fault::Invalid(at)),
            },
            _ => Err(Fault::Invalid(at)),
        }
    }

    open spec fn lossless(m: Uuid) -> bool {
        true
    }

    open spec fn fits(m: Uuid, depth: nat) -> bool {
        true
    }

    fn to_json(&self) -> (r: Json) {
        Json::Text(self.to_text())
    }

    fn from_json(j: &Json, at: &str, form: Form) -> (r: Result<Uuid, DecodeError>) {
        match j {
            Json::Text(s) => match Uuid::parse(s.as_str()) {
                Some(u) => Ok(u),
                None => Err(DecodeError::Invalid(at.to_owned())),
            },
            _ => Err(DecodeError::Invalid(at.to_owned())),
        }
    }

    proof fn law_reads_what_it_writes(m: Uuid, at: Seq<char>, form: Form) {
        law_uuid_reads_its_text(m.bits);
    }

    proof fn law_fits(m: Uuid, depth: nat) {
    }
}

/// The digits are the numerals and the small letters from `a` to `f`, and each is
/// read as the number that it was written for; capitals are read like small
/// letters, and nothing else is read.
pub proof fn law_hexadecimal_digits(d: int, c: char)
    requires
        0 <= d < 16,
    ensures
        d < 10 ==> hex_char(d) as int == '0' as int + d,
        d >= 10 ==> hex_char(d) as int == 'a' as int + (d - 10),
        hex_value(hex_char(d)) == Some(d as nat),
        hex_value(c) is Some <==> '0' <= c <= '9' || 'a' <= c <= 'f' || 'A' <= c <= 'F',
        'A' <= c <= 'F' ==> hex_value(c) == Some((c as int - 'A' as int + 10) as nat),
{
}

/// A UUID may be written plain, hyphenated, hyphenated in braces or behind a
/// prefix, and is the same each time.
pub proof fn law_notations_agree(bits: u128)
    ensures
        ({
            let plain = hex_digits(bits as nat, 32);
            let dashed = uuid_text(bits);
            &&& uuid_number(plain) == Some(bits as nat)
            &&& uuid_number(dashed) == Some(bits as nat)
            &&& uuid_number(seq!['{'] + dashed + seq!['}']) == Some(bits as nat)
            &&& uuid_number("urn:uuid:"@ + dashed) == Some(bits as nat)
        }),
{
    reveal_with_fuel(pow16, 33);
    lemma_hex_digits_spell(bits as nat, 32);
    law_uuid_reads_its_text(bits);
    let dashed = uuid_text(bits);
    let braced = seq!['{'] + dashed + seq!['}'];
    assert(braced.subrange(1, 37) =~= dashed);
    reveal_strlit("urn:uuid:");
    let named = "urn:uuid:"@ + dashed;
    assert(named.skip(9) =~= dashed);
    assert(named.take(9).map_values(|c: char| ascii_lower(c)) =~= "urn:uuid:"@);
}

} // verus!
