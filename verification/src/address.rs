//! The fixed-width defining-module address of a call frame.
//!
//! The interpreter identifies a module by a 16-byte account address. The
//! profiler parses such an address from a `0x`-prefixed hex literal found in
//! span attributes, and renders it as uppercase hex in folded stack lines.
//! Both directions are computed by `move_core_types`; their results are
//! pinned down here by exact specification functions over the raw bytes.

use vstd::prelude::*;

verus! {

/// The byte width of an account address.
pub const ADDRESS_LENGTH: usize = 16;

/// Whether `c` is an ASCII hex digit.
pub open spec fn is_hex_digit(c: char) -> bool {
    ('0' as u32 <= c as u32 && c as u32 <= '9' as u32) || ('a' as u32 <= c as u32 && c as u32
        <= 'f' as u32) || ('A' as u32 <= c as u32 && c as u32 <= 'F' as u32)
}

/// The numeric value of an ASCII hex digit (zero for any other character).
pub open spec fn hex_digit_value(c: char) -> u8 {
    if '0' as u32 <= c as u32 && c as u32 <= '9' as u32 {
        (c as u32 - '0' as u32) as u8
    } else if 'a' as u32 <= c as u32 && c as u32 <= 'f' as u32 {
        (c as u32 - 'a' as u32 + 10) as u8
    } else if 'A' as u32 <= c as u32 && c as u32 <= 'F' as u32 {
        (c as u32 - 'A' as u32 + 10) as u8
    } else {
        0u8
    }
}

/// The uppercase hex character for one digit value below 16.
pub open spec fn spec_upper_hex_char(d: u8) -> char {
    if d == 0 {
        '0'
    } else if d == 1 {
        '1'
    } else if d == 2 {
        '2'
    } else if d == 3 {
        '3'
    } else if d == 4 {
        '4'
    } else if d == 5 {
        '5'
    } else if d == 6 {
        '6'
    } else if d == 7 {
        '7'
    } else if d == 8 {
        '8'
    } else if d == 9 {
        '9'
    } else if d == 10 {
        'A'
    } else if d == 11 {
        'B'
    } else if d == 12 {
        'C'
    } else if d == 13 {
        'D'
    } else if d == 14 {
        'E'
    } else {
        'F'
    }
}

/// The uppercase hex rendering of a byte string: two digits per byte, most
/// significant digit first.
pub open spec fn spec_upper_hex(bytes: Seq<u8>) -> Seq<char> {
    Seq::new(
        2 * bytes.len(),
        |i: int|
            if i % 2 == 0 {
                spec_upper_hex_char(bytes[i / 2] / 16)
            } else {
                spec_upper_hex_char(bytes[i / 2] % 16)
            },
    )
}

/// The bytes denoted by a `0x`-prefixed hex literal, or `None` when the
/// literal is malformed: no `0x` prefix, a non-hex character, or more hex
/// digits than an address holds. A short literal is left-padded with zeros.
pub open spec fn spec_parse_address_literal(s: Seq<char>) -> Option<Seq<u8>> {
    if s.len() < 2 || s[0] != '0' || s[1] != 'x' {
        None
    } else {
        let digits = s.skip(2);
        if digits.len() <= 2 * ADDRESS_LENGTH && (forall|i: int|
            0 <= i < digits.len() ==> is_hex_digit(digits[i])) {
            let padded = Seq::new((2 * ADDRESS_LENGTH - digits.len()) as nat, |i: int| '0')
                + digits;
            Some(
                Seq::new(
                    ADDRESS_LENGTH as nat,
                    |i: int|
                        (16 * hex_digit_value(padded[2 * i]) + hex_digit_value(
                            padded[2 * i + 1],
                        )) as u8,
                ),
            )
        } else {
            None
        }
    }
}

/// Relies on `move_core_types::account_address::AccountAddress::from_hex_literal`:
/// it accepts a `0x`-prefixed string of at most 32 hex digits, left-pads it
/// with zeros to 32 digits, and decodes it to the 16 address bytes; it
/// rejects everything else.
#[verifier::external_body]
pub fn parse_address_literal(literal: &str) -> (parsed: Option<Vec<u8>>)
    ensures
        match parsed {
            Some(bytes) => spec_parse_address_literal(literal@) == Some(bytes@),
            None => spec_parse_address_literal(literal@) is None,
        },
{
    match move_core_types::account_address::AccountAddress::from_hex_literal(literal) {
        Ok(address) => Some(address.to_vec()),
        Err(_) => None,
    }
}

/// Relies on the `Display` impl of
/// `move_core_types::account_address::AccountAddress`: it writes each of the
/// 16 address bytes as two uppercase hex digits, with no prefix.
#[verifier::external_body]
pub fn address_hex_upper(bytes: &Vec<u8>) -> (rendered: String)
    requires
        bytes@.len() == ADDRESS_LENGTH,
    ensures
        rendered@ == spec_upper_hex(bytes@),
{
    let mut raw = [0u8; 16];
    raw.copy_from_slice(bytes.as_slice());
    let address = move_core_types::account_address::AccountAddress::new(raw);
    format!("{}", address)
}

} // verus!
