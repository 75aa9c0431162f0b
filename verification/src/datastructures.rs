//! Shared data structures: the data channels that cross the interrupt/task
//! boundary and the small value types used throughout the firmware.

pub mod coordinate;
pub mod decimal;
pub mod input;
pub mod measurement;
pub mod overwriting;
pub mod singular;

use vstd::prelude::*;
use vstd::slice::slice_subrange;
use vstd::string::StringSliceAdditionalSpecFns;
use crate::text::{
    dec_digits, digits_val, find_byte, find_byte_at, format_u32, is_digit_seq, parse_u32_bytes,
};

verus! {

/// A small exact ratio, such as a video aspect ratio or a voltage divider.
#[derive(Copy, Clone, Debug, PartialEq, Eq, Structural)]
pub struct Ratio(pub u8, pub u8);

/// Whether a GNSS position fix is currently held.
#[derive(Copy, Clone, Debug, PartialEq, Eq, Structural)]
pub struct GNSSFixed(pub bool);

impl Default for GNSSFixed {
    fn default() -> (r: Self)
        ensures
            r == GNSSFixed(false),
    {
        Self(false)
    }
}

impl From<GNSSFixed> for u16 {
    fn from(value: GNSSFixed) -> (r: u16) {
        if value.0 {
            1
        } else {
            0
        }
    }
}

impl vstd::std_specs::convert::FromSpecImpl<GNSSFixed> for u16 {
    open spec fn obeys_from_spec() -> bool {
        true
    }

    open spec fn from_spec(value: GNSSFixed) -> u16 {
        if value.0 {
            1u16
        } else {
            0u16
        }
    }
}

impl From<u16> for GNSSFixed {
    fn from(value: u16) -> (r: GNSSFixed) {
        Self(value > 0)
    }
}

impl vstd::std_specs::convert::FromSpecImpl<u16> for GNSSFixed {
    open spec fn obeys_from_spec() -> bool {
        true
    }

    open spec fn from_spec(value: u16) -> GNSSFixed {
        GNSSFixed(value > 0)
    }
}

impl From<GNSSFixed> for bool {
    fn from(value: GNSSFixed) -> (r: bool) {
        value.0
    }
}

impl vstd::std_specs::convert::FromSpecImpl<GNSSFixed> for bool {
    open spec fn obeys_from_spec() -> bool {
        true
    }

    open spec fn from_spec(value: GNSSFixed) -> bool {
        value.0
    }
}

/// The ratio a byte string of the shape `a:b` denotes, where `a` and `b`
/// are decimal runs each fitting in a byte; anything after a second colon
/// is ignored, as colon-splitting reads only the first two fields.
pub open spec fn ratio_of_bytes(s: Seq<u8>) -> Result<Ratio, ()> {
    match find_byte(s, 58u8, 0) {
        None => Err(()),
        Some(p1) => {
            let p2 = match find_byte(s, 58u8, p1 + 1) {
                None => s.len() as int,
                Some(p2) => p2,
            };
            let a = s.subrange(0, p1);
            let b = s.subrange(p1 + 1, p2);
            if is_digit_seq(a) && digits_val(a) <= 255 && is_digit_seq(b) && digits_val(b)
                <= 255 {
                Ok(Ratio(digits_val(a) as u8, digits_val(b) as u8))
            } else {
                Err(())
            }
        },
    }
}

impl Ratio {
    /// Parse `a:b` with both parts decimal byte values.
    pub fn parse(s: &str) -> (r: Result<Ratio, ()>)
        ensures
            r == ratio_of_bytes(s.spec_bytes()),
    {
        let bytes = s.as_bytes();
        let n = bytes.len();
        let p1 = match find_byte_at(bytes, 58, 0) {
            None => {
                return Err(());
            },
            Some(p1) => p1,
        };
        proof {
            assert(p1 < n);
        }
        let p2 = match find_byte_at(bytes, 58, p1 + 1) {
            None => n,
            Some(p2) => p2,
        };
        let a = parse_u32_bytes(slice_subrange(bytes, 0, p1));
        let b = parse_u32_bytes(slice_subrange(bytes, p1 + 1, p2));
        match (a, b) {
            (Some(a), Some(b)) => {
                if a <= 255 && b <= 255 {
                    Ok(Ratio(a as u8, b as u8))
                } else {
                    Err(())
                }
            },
            _ => Err(()),
        }
    }

    /// Rendering such as `16:9`.
    pub fn to_string(&self) -> (r: String)
        ensures
            r@ == dec_digits(self.0 as nat) + seq![':'] + dec_digits(self.1 as nat),
    {
        let mut s = format_u32(self.0 as u32);
        proof {
            reveal_strlit(":");
        }
        s.append(":");
        s.append(format_u32(self.1 as u32).as_str());
        proof {
            assert(s@ =~= dec_digits(self.0 as nat) + seq![':'] + dec_digits(self.1 as nat));
        }
        s
    }
}

impl core::str::FromStr for Ratio {
    type Err = ();

    fn from_str(s: &str) -> Result<Self, ()> {
        Ratio::parse(s)
    }
}

impl Default for Ratio {
    fn default() -> (r: Self)
        ensures
            r == Ratio(1u8, 1u8),
    {
        Self(1, 1)
    }
}

} // verus!
