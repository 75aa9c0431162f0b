//! Parsing of the debug console's memory commands.  The console lines name
//! addresses in hexadecimal; this module turns a command line into the
//! address — and, for dumps and writes, the second operand — that the
//! platform layer then reads or writes.

use vstd::prelude::*;
use vstd::slice::slice_subrange;
use vstd::string::StringSliceAdditionalSpecFns;
use crate::text::{
    digits_val, find_byte_at, first_word, hex_val, is_digit_seq, is_hex_seq, parse_u32_bytes,
    parse_u32_hex_bytes, second_word,
};

verus! {

/// The first word of a command line read as a hexadecimal address.
pub open spec fn parsed_address(line: Seq<u8>) -> Option<u32> {
    let w = first_word(line);
    if is_hex_seq(w) && hex_val(w) <= u32::MAX {
        Some(hex_val(w) as u32)
    } else {
        None
    }
}

/// The second word of a command line read as a decimal count; a missing or
/// malformed count falls back to zero.
pub open spec fn parsed_count(line: Seq<u8>) -> u32 {
    match second_word(line) {
        None => 0u32,
        Some(w) => if is_digit_seq(w) && digits_val(w) <= u32::MAX {
            digits_val(w) as u32
        } else {
            0u32
        },
    }
}

fn parse_first_word_hex(line: &[u8]) -> (r: Option<u32>)
    ensures
        r == parsed_address(line@),
{
    let e = match find_byte_at(line, 32, 0) {
        None => line.len(),
        Some(p) => p,
    };
    parse_u32_hex_bytes(slice_subrange(line, 0, e))
}

/// The address a `read` command names: its argument as a hexadecimal word.
/// The caller performs the access itself, after validating the address
/// against the platform's memory map.
pub fn read(line: &str) -> (r: Option<u32>)
    ensures
        r == parsed_address(line.spec_bytes()),
{
    parse_first_word_hex(line.as_bytes())
}

/// The address a `readx` command names; only the caller's display format
/// differs from `read`.
pub fn readx(line: &str) -> (r: Option<u32>)
    ensures
        r == parsed_address(line.spec_bytes()),
{
    parse_first_word_hex(line.as_bytes())
}

/// The address and byte count a `dump` command names: a hexadecimal
/// address, which must be nonzero, and a decimal count defaulting to zero.
pub fn dump(line: &str) -> (r: Option<(u32, u32)>)
    ensures
        r == (match parsed_address(line.spec_bytes()) {
            Some(address) => if address != 0 {
                Some((address, parsed_count(line.spec_bytes())))
            } else {
                None
            },
            None => None,
        }),
{
    let bytes = line.as_bytes();
    let n = bytes.len();
    let address = match parse_first_word_hex(bytes) {
        Some(address) => address,
        None => {
            return None;
        },
    };
    if address == 0 {
        return None;
    }
    let e = match find_byte_at(bytes, 32, 0) {
        None => {
            return Some((address, 0));
        },
        Some(p) => p,
    };
    let e2 = match find_byte_at(bytes, 32, e + 1) {
        None => n,
        Some(p) => p,
    };
    let size = match parse_u32_bytes(slice_subrange(bytes, e + 1, e2)) {
        Some(size) => size,
        None => 0,
    };
    Some((address, size))
}

/// The address and value a `write` command names, both hexadecimal words.
pub fn writex(line: &str) -> (r: Option<(u32, u32)>)
    ensures
        r == (match (
            parsed_address(line.spec_bytes()),
            second_word(line.spec_bytes()),
        ) {
            (Some(address), Some(w)) => if is_hex_seq(w) && hex_val(w) <= u32::MAX {
                Some((address, hex_val(w) as u32))
            } else {
                None
            },
            _ => None,
        }),
{
    let bytes = line.as_bytes();
    let n = bytes.len();
    let address = match parse_first_word_hex(bytes) {
        Some(address) => address,
        None => {
            return None;
        },
    };
    let e = match find_byte_at(bytes, 32, 0) {
        None => {
            return None;
        },
        Some(p) => p,
    };
    let e2 = match find_byte_at(bytes, 32, e + 1) {
        None => n,
        Some(p) => p,
    };
    match parse_u32_hex_bytes(slice_subrange(bytes, e + 1, e2)) {
        Some(value) => Some((address, value)),
        None => None,
    }
}

} // verus!
