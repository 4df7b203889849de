use vstd::prelude::*;
use crate::constants::{EFF_MASK, SFF_MASK};

verus! {

/// An acceptance filter: a frame passes when `id & can_mask == can_id & can_mask`.
#[derive(Debug, Clone, Copy, PartialEq, Eq, Structural)]
pub struct CanFilter {
    pub can_id: u32,
    pub can_mask: u32,
    pub extended: bool,
}

/// A CAN identifier: 11-bit standard or 29-bit extended.
#[derive(Debug, Clone, Copy, PartialEq, Eq, Structural)]
pub enum Id {
    Standard(u16),
    Extended(u32),
}

/// The raw 32-bit form of an identifier.
pub open spec fn id_bits(id: Id) -> u32 {
    match id {
        Id::Standard(v) => v as u32,
        Id::Extended(v) => v,
    }
}

/// The identifier built from raw `bits` with the extended hint `extended`:
/// the bits are masked to 29; an id above 11 bits is always extended.
pub open spec fn id_from_bits(bits: u32, extended: bool) -> Id {
    let b = bits & EFF_MASK;
    if extended || b & (!SFF_MASK & EFF_MASK) != 0 {
        Id::Extended(b)
    } else {
        Id::Standard(b as u16)
    }
}

/// The value of one hexadecimal digit, of either case.
pub open spec fn hex_digit_value(c: char) -> Option<nat> {
    if '0' <= c && c <= '9' {
        Some((c as nat - '0' as nat) as nat)
    } else if 'a' <= c && c <= 'f' {
        Some((c as nat - 'a' as nat + 10) as nat)
    } else if 'A' <= c && c <= 'F' {
        Some((c as nat - 'A' as nat + 10) as nat)
    } else {
        None
    }
}

/// The value of a string of hexadecimal digits, most significant first.
pub open spec fn hex_digits_value(s: Seq<char>) -> Option<nat>
    decreases s.len(),
{
    if s.len() == 0 {
        Some(0)
    } else {
        match (hex_digits_value(s.drop_last()), hex_digit_value(s.last())) {
            (Some(h), Some(d)) => Some(h * 16 + d),
            _ => None,
        }
    }
}

/// What `u32::from_str_radix(s, 16)` yields: an optional `+`, then at least
/// one hexadecimal digit, with a value that fits in 32 bits.
pub open spec fn parse_hex_u32(s: Seq<char>) -> Option<u32> {
    let digits = if s.len() > 0 && s[0] == '+' { s.subrange(1, s.len() as int) } else { s };
    if digits.len() == 0 {
        None
    } else {
        match hex_digits_value(digits) {
            Some(v) => if v <= u32::MAX { Some(v as u32) } else { None },
            None => None,
        }
    }
}

/// The upper-case hexadecimal digit for `n < 16`.
pub open spec fn upper_hex_digit(n: u32) -> char {
    if n < 10 {
        (n + '0' as u32) as char
    } else {
        (n - 10 + 'A' as u32) as char
    }
}

/// `v` as eight upper-case hexadecimal digits, most significant first.
pub open spec fn hex8(v: u32) -> Seq<char> {
    Seq::new(8, |i: int| upper_hex_digit((v >> ((28 - 4 * i) as u32)) & 0xF))
}

/// Relies on `u32::from_str_radix` with radix 16.
#[verifier::external_body]
fn parse_hex(s: &str) -> (r: Option<u32>)
    ensures
        r == parse_hex_u32(s@),
{
    u32::from_str_radix(s, 16).ok()
}

/// Relies on `format!` with `{:08X}`: eight upper-case hexadecimal digits.
#[verifier::external_body]
fn format_hex8(v: u32) -> (r: String)
    ensures
        r@ == hex8(v),
{
    format!("{:08X}", v)
}

impl Id {
    /// The raw 32-bit form.
    pub open spec fn bits(self) -> u32 {
        id_bits(self)
    }

    /// A standard identifier with the value `id`.
    pub fn new_standard(id: u16) -> (r: Id)
        ensures
            r == Id::Standard(id),
    {
        Id::Standard(id)
    }

    /// An extended identifier with the value `id`.
    pub fn new_extended(id: u32) -> (r: Id)
        ensures
            r == Id::Extended(id),
    {
        Id::Extended(id)
    }

    /// The identifier for raw `bits`: masked to 29 bits, extended when
    /// `extended` is set or any bit above the standard 11 is set.
    pub fn from_bits(bits: u32, extended: bool) -> (r: Id)
        ensures
            r == id_from_bits(bits, extended),
    {
        let bits = bits & EFF_MASK;
        if extended {
            Id::Extended(bits)
        } else if bits & (!SFF_MASK & EFF_MASK) > 0 {
            Id::Extended(bits)
        } else {
            Id::Standard(bits as u16)
        }
    }

    /// The identifier for `bits` when they fit in 29 bits, else `None`.
    pub fn try_from_bits(bits: u32, extended: bool) -> (r: Option<Id>)
        ensures
            bits <= EFF_MASK ==> r == Some(id_from_bits(bits, extended)),
            bits > EFF_MASK ==> r is None,
    {
        if bits <= EFF_MASK {
            Some(Id::from_bits(bits, extended))
        } else {
            None
        }
    }

    /// The identifier for the hexadecimal string `hex_str`, or `None` when it
    /// is not a 32-bit hexadecimal number.
    pub fn from_hex(hex_str: &str, extended: bool) -> (r: Option<Id>)
        ensures
            r == (match parse_hex_u32(hex_str@) {
                Some(b) => Some(id_from_bits(b, extended)),
                None => None,
            }),
    {
        match parse_hex(hex_str) {
            Some(bits) => Some(Id::from_bits(bits, extended)),
            None => None,
        }
    }

    /// As `from_hex`, and `None` as well for a value above 29 bits.
    pub fn try_from_hex(hex_str: &str, extended: bool) -> (r: Option<Id>)
        ensures
            r == (match parse_hex_u32(hex_str@) {
                Some(b) => if b <= EFF_MASK { Some(id_from_bits(b, extended)) } else { None },
                None => None,
            }),
    {
        match parse_hex(hex_str) {
            Some(bits) => Id::try_from_bits(bits, extended),
            None => None,
        }
    }

    /// The raw 32-bit form.
    pub fn into_bits(self) -> (r: u32)
        ensures
            r == id_bits(self),
    {
        match self {
            Id::Standard(v) => v as u32,
            Id::Extended(v) => v,
        }
    }

    /// The raw form as eight upper-case hexadecimal digits.
    pub fn into_hex(self) -> (r: String)
        ensures
            r@ == hex8(id_bits(self)),
    {
        format_hex8(self.into_bits())
    }

    /// The raw 32-bit form.
    pub fn as_raw(self) -> (r: u32)
        ensures
            r == id_bits(self),
    {
        self.into_bits()
    }

    /// The base id: a standard id stays, an extended id keeps its upper 11 of 29 bits.
    pub fn standard_id(self) -> (r: Id)
        ensures
            r == (match self {
                Id::Standard(_) => self,
                Id::Extended(v) => Id::Standard((v >> 18u32) as u16),
            }),
    {
        match self {
            Id::Standard(_) => self,
            Id::Extended(v) => Id::Standard((v >> 18) as u16),
        }
    }

    /// Whether this is an extended identifier.
    pub fn is_extended(&self) -> (r: bool)
        ensures
            r == (*self is Extended),
    {
        match self {
            Id::Standard(_) => false,
            Id::Extended(_) => true,
        }
    }
}

impl From<u32> for Id {
    /// The identifier for raw `bits`, extended where they need more than 11 bits.
    fn from(bits: u32) -> (r: Id) {
        Id::from_bits(bits, false)
    }
}

impl vstd::std_specs::convert::FromSpecImpl<u32> for Id {
    open spec fn obeys_from_spec() -> bool {
        true
    }

    open spec fn from_spec(bits: u32) -> Id {
        id_from_bits(bits, false)
    }
}

impl From<Id> for u32 {
    /// The raw 32-bit form of an identifier.
    fn from(id: Id) -> (r: u32) {
        id.into_bits()
    }
}

impl vstd::std_specs::convert::FromSpecImpl<Id> for u32 {
    open spec fn obeys_from_spec() -> bool {
        true
    }

    open spec fn from_spec(id: Id) -> u32 {
        id_bits(id)
    }
}

/// An identifier built from raw `r` and the hint `e` is extended exactly when
/// `e` is set or `r` has a bit set between the standard 11 and the extended 29.
pub proof fn lemma_from_bits_extended(r: u32, e: bool)
    ensures
        (id_from_bits(r, e) is Extended) == (e || r & !SFF_MASK & EFF_MASK != 0),
{
    assert((r & 0x1FFF_FFFFu32) & (!0x7FFu32 & 0x1FFF_FFFFu32) == r & !0x7FFu32 & 0x1FFF_FFFFu32)
        by (bit_vector);
}

/// A standard identifier built from raw bits lies in `[0, 0x7FF]`; an extended
/// one lies in `[0, 0x1FFF_FFFF]`.
pub proof fn lemma_from_bits_range(r: u32, e: bool)
    ensures
        match id_from_bits(r, e) {
            Id::Standard(v) => v <= SFF_MASK,
            Id::Extended(v) => v <= EFF_MASK,
        },
{
    let b = r & 0x1FFF_FFFFu32;
    assert(b <= 0x1FFF_FFFFu32) by (bit_vector)
        requires b == r & 0x1FFF_FFFFu32;
    assert(b & (!0x7FFu32 & 0x1FFF_FFFFu32) == 0 ==> b <= 0x7FF) by (bit_vector)
        requires b <= 0x1FFF_FFFFu32;
}

} // verus!
