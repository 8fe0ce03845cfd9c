//! Bit-level helpers on integers and 16-bit addresses.

use vstd::arithmetic::power2::pow2;
use vstd::bits::{
    lemma_u128_shr_is_div, lemma_u16_shr_is_div, lemma_u32_shr_is_div, lemma_u64_shr_is_div,
    lemma_u8_shr_is_div,
};
use vstd::prelude::*;

verus! {

/// Single-bit queries on integers.
pub trait Bitwise: Sized {
    /// Number of bits in the type.
    spec fn width() -> nat;

    /// Whether bit `i` (counting from the least significant bit) is set.
    spec fn bit(self, i: nat) -> bool;

    /// Tests the bit at position `i`.
    fn test_bit(self, i: usize) -> (r: bool)
        requires
            (i as nat) < Self::width(),
        ensures
            r == self.bit(i as nat),
    ;
}

impl Bitwise for u8 {
    open spec fn width() -> nat {
        8
    }

    open spec fn bit(self, i: nat) -> bool {
        (self as nat / pow2(i)) % 2 == 1
    }

    fn test_bit(self, i: usize) -> (r: bool) {
        proof {
            lemma_u8_shr_is_div(self, i as u8);
        }
        (self >> i as u8) % 2 == 1
    }
}

impl Bitwise for u16 {
    open spec fn width() -> nat {
        16
    }

    open spec fn bit(self, i: nat) -> bool {
        (self as nat / pow2(i)) % 2 == 1
    }

    fn test_bit(self, i: usize) -> (r: bool) {
        proof {
            lemma_u16_shr_is_div(self, i as u16);
        }
        (self >> i as u16) % 2 == 1
    }
}

impl Bitwise for u32 {
    open spec fn width() -> nat {
        32
    }

    open spec fn bit(self, i: nat) -> bool {
        (self as nat / pow2(i)) % 2 == 1
    }

    fn test_bit(self, i: usize) -> (r: bool) {
        proof {
            lemma_u32_shr_is_div(self, i as u32);
        }
        (self >> i as u32) % 2 == 1
    }
}

impl Bitwise for u64 {
    open spec fn width() -> nat {
        64
    }

    open spec fn bit(self, i: nat) -> bool {
        (self as nat / pow2(i)) % 2 == 1
    }

    fn test_bit(self, i: usize) -> (r: bool) {
        proof {
            lemma_u64_shr_is_div(self, i as u64);
        }
        (self >> i as u64) % 2 == 1
    }
}

impl Bitwise for u128 {
    open spec fn width() -> nat {
        128
    }

    open spec fn bit(self, i: nat) -> bool {
        (self as nat / pow2(i)) % 2 == 1
    }

    fn test_bit(self, i: usize) -> (r: bool) {
        proof {
            lemma_u128_shr_is_div(self, i as u128);
        }
        (self >> i as u128) % 2 == 1
    }
}

/// Bits of a signed integer are those of its two's complement representation.
impl Bitwise for i8 {
    open spec fn width() -> nat {
        8
    }

    open spec fn bit(self, i: nat) -> bool {
        (self as u8).bit(i)
    }

    fn test_bit(self, i: usize) -> (r: bool) {
        (self as u8).test_bit(i)
    }
}

/// Bits of a signed integer are those of its two's complement representation.
impl Bitwise for i16 {
    open spec fn width() -> nat {
        16
    }

    open spec fn bit(self, i: nat) -> bool {
        (self as u16).bit(i)
    }

    fn test_bit(self, i: usize) -> (r: bool) {
        (self as u16).test_bit(i)
    }
}

/// Bits of a signed integer are those of its two's complement representation.
impl Bitwise for i32 {
    open spec fn width() -> nat {
        32
    }

    open spec fn bit(self, i: nat) -> bool {
        (self as u32).bit(i)
    }

    fn test_bit(self, i: usize) -> (r: bool) {
        (self as u32).test_bit(i)
    }
}

/// Bits of a signed integer are those of its two's complement representation.
impl Bitwise for i64 {
    open spec fn width() -> nat {
        64
    }

    open spec fn bit(self, i: nat) -> bool {
        (self as u64).bit(i)
    }

    fn test_bit(self, i: usize) -> (r: bool) {
        (self as u64).test_bit(i)
    }
}

/// Bits of a signed integer are those of its two's complement representation.
impl Bitwise for i128 {
    open spec fn width() -> nat {
        128
    }

    open spec fn bit(self, i: nat) -> bool {
        (self as u128).bit(i)
    }

    fn test_bit(self, i: usize) -> (r: bool) {
        (self as u128).test_bit(i)
    }
}

/// No bit of zero is set.
pub proof fn lemma_zero_has_no_bits(i: nat)
    ensures
        !0u8.bit(i),
{
    vstd::arithmetic::power2::lemma_pow2_pos(i);
}

/// Byte access on 16-bit addresses.
pub trait Addr: Bitwise {
    /// Value of the address as an integer.
    spec fn value(self) -> nat;

    /// The least significant byte.
    fn lsb(self) -> (r: u8)
        ensures
            r as nat == self.value() % 256,
    ;

    /// The most significant byte.
    fn msb(self) -> (r: u8)
        ensures
            r as nat == self.value() / 256,
    ;
}

impl Addr for u16 {
    open spec fn value(self) -> nat {
        self as nat
    }

    fn lsb(self) -> (r: u8) {
        (self % 256) as u8
    }

    fn msb(self) -> (r: u8) {
        (self / 256) as u8
    }
}

/// The address whose low byte is `lsb` and whose high byte is `msb`.
pub open spec fn address_of(lsb: u8, msb: u8) -> u16 {
    (msb as nat * 256 + lsb as nat) as u16
}

/// Combines two bytes into an address; the first is the least significant.
pub fn as_address(lsb: u8, msb: u8) -> (r: u16)
    ensures
        r as nat == msb as nat * 256 + lsb as nat,
        r == address_of(lsb, msb),
{
    (msb as u16) * 256 + (lsb as u16)
}

/// Why a hexadecimal number could not be parsed.
#[derive(Clone, Copy, PartialEq, Eq, Structural, Debug)]
pub enum HexError {
    Invalid,
}

/// The value of a hexadecimal digit of either case.
pub open spec fn hex_digit(c: char) -> Option<nat> {
    if '0' <= c && c <= '9' {
        Some((c as nat - '0' as nat) as nat)
    } else if 'a' <= c && c <= 'f' {
        Some((c as nat - 'a' as nat + 10) as nat)
    } else if 'A' <= c && c <= 'F' {
        Some((c as nat - 'A' as nat + 10) as nat)
    } else {
        None
    }
}

/// The value of a string of hexadecimal digits, most significant first.
pub open spec fn hex_digits_value(s: Seq<char>) -> Option<nat>
    decreases s.len(),
{
    if s.len() == 0 {
        Some(0)
    } else {
        match (hex_digits_value(s.drop_last()), hex_digit(s.last())) {
            (Some(v), Some(d)) => Some(v * 16 + d),
            _ => None,
        }
    }
}

/// A 16-bit number in base 16: an optional `+`, then one or more digits
/// whose value fits in 16 bits.
pub open spec fn radix16_u16(s: Seq<char>) -> Option<u16> {
    let d = if s.len() > 0 && s[0] == '+' {
        s.drop_first()
    } else {
        s
    };
    if d.len() == 0 {
        None
    } else {
        match hex_digits_value(d) {
            Some(v) => if v <= 0xffff {
                Some(v as u16)
            } else {
                None
            },
            None => None,
        }
    }
}

/// `s` with every occurrence of `pat` removed, scanning left to right
/// without overlaps.
pub open spec fn without(s: Seq<char>, pat: Seq<char>) -> Seq<char>
    decreases s.len(),
{
    if pat.len() == 0 || s.len() < pat.len() {
        s
    } else if s.subrange(0, pat.len() as int) == pat {
        without(s.subrange(pat.len() as int, s.len() as int), pat)
    } else {
        seq![s[0]] + without(s.drop_first(), pat)
    }
}

/// Whether `s` starts with `p`.
pub open spec fn has_prefix(s: Seq<char>, p: Seq<char>) -> bool {
    p.len() <= s.len() && s.subrange(0, p.len() as int) == p
}

/// Relies on `str::replace` with an empty replacement: every match of `pat`,
/// found left to right without overlaps, is removed.
#[verifier::external_body]
fn remove_all(s: &str, pat: &str) -> (r: String)
    requires
        pat@.len() > 0,
    ensures
        r@ == without(s@, pat@),
{
    s.replace(pat, "")
}

/// Relies on `num_traits::Num::from_str_radix` for `u16` in base 16, which
/// hands the string to `u16::from_str_radix`: an optional `+` and one or more
/// digits of either case whose value fits; anything else is an error.
#[verifier::external_body]
fn u16_from_hex(s: &str) -> (r: Option<u16>)
    ensures
        r == radix16_u16(s@),
{
    <u16 as num_traits::Num>::from_str_radix(s, 16).ok()
}

/// Relies on `str::starts_with` with a string pattern.
#[verifier::external_body]
pub(crate) fn starts_with(s: &str, p: &str) -> (r: bool)
    ensures
        r == has_prefix(s@, p@),
{
    s.starts_with(p)
}

/// The hex number `val` once every `$` and every `0x` is removed from it.
pub open spec fn spec_parse_hex(val: Seq<char>) -> Result<u16, HexError> {
    match radix16_u16(without(without(val, seq!['$']), seq!['0', 'x'])) {
        Some(v) => Ok(v),
        None => Err(HexError::Invalid),
    }
}

/// Parses a hexadecimal number written with or without a `$` or `0x` prefix.
pub fn parse_hex(val: &str) -> (r: Result<u16, HexError>)
    ensures
        r == spec_parse_hex(val@),
{
    proof {
        reveal_strlit("$");
        reveal_strlit("0x");
        assert("$"@ =~= seq!['$']);
        assert("0x"@ =~= seq!['0', 'x']);
    }
    let a = remove_all(val, "$");
    let b = remove_all(a.as_str(), "0x");
    match u16_from_hex(b.as_str()) {
        Some(v) => Ok(v),
        None => Err(HexError::Invalid),
    }
}

/// Parses an address that must be written with a `$` or `0x` prefix; the
/// error says which rule was broken.
pub fn try_parse_hex(val: &str) -> (r: Result<u16, String>)
    ensures
        !has_prefix(val@, seq!['$']) && !has_prefix(val@, seq!['0', 'x']) ==> r is Err && r->Err_0@
            == "Address must be prefixed with `$` or `0x`"@,
        has_prefix(val@, seq!['$']) || has_prefix(val@, seq!['0', 'x']) ==> match spec_parse_hex(
            val@,
        ) {
            Ok(v) => r == Ok::<u16, String>(v),
            Err(_) => r is Err && r->Err_0@
                == "Could not parse the provided address as a 16 bit hex number."@,
        },
{
    proof {
        reveal_strlit("$");
        reveal_strlit("0x");
        assert("$"@ =~= seq!['$']);
        assert("0x"@ =~= seq!['0', 'x']);
    }
    if !starts_with(val, "$") && !starts_with(val, "0x") {
        Err("Address must be prefixed with `$` or `0x`".to_owned())
    } else {
        match parse_hex(val) {
            Ok(addr) => Ok(addr),
            Err(_) => Err("Could not parse the provided address as a 16 bit hex number.".to_owned()),
        }
    }
}

} // verus!
