//! Geographic coordinates as fixed-point angles in 1/1280 arc-second
//! units, with their verified canonical rendering: degree field, then
//! minutes and tenths of a second as `MM.SSS`.

use vstd::prelude::*;
use crate::text::{dec_digits_pad, format_u32_pad};

verus! {

/// Angle units per degree: 3600 arc-seconds of 1280 units each.
pub const UNITS_PER_DEGREE: i64 = 4608000;

/// Angle units per arc-minute.
pub const UNITS_PER_MINUTE: i64 = 76800;

/// Angle units per tenth of an arc-second.
pub const UNITS_PER_DECISECOND: i64 = 128;

/// The canonical rendering of an angle of `v` units: a direction letter,
/// the degrees padded to `deg_width` digits, the degree sign, then
/// two-digit minutes, a dot, and the remaining seconds in tenths as three
/// digits.
pub open spec fn coordinate_string(v: int, positive: char, negative: char, deg_width: nat) -> Seq<
    char,
> {
    let a = if v >= 0 {
        v
    } else {
        -v
    };
    let dir = if v >= 0 {
        positive
    } else {
        negative
    };
    seq![dir] + dec_digits_pad((a / 4608000) as nat, deg_width) + seq!['\u{b0}'] + dec_digits_pad(
        ((a % 4608000) / 76800) as nat,
        2,
    ) + seq!['.'] + dec_digits_pad((((a % 4608000) % 76800) / 128) as nat, 3)
}

fn angle_string(v: i32, positive: &'static str, negative: &'static str, deg_width: usize) -> (r:
    String)
    requires
        positive@.len() == 1,
        negative@.len() == 1,
    ensures
        r@ == coordinate_string(v as int, positive@[0], negative@[0], deg_width as nat),
{
    let a: i64 = if v >= 0 {
        v as i64
    } else {
        -(v as i64)
    };
    proof {
        assert(a / 4608000 <= 466 && a / 4608000 >= 0) by (nonlinear_arith)
            requires
                0 <= a <= 0x80000000i64,
        ;
        assert(0 <= a % 4608000 < 4608000) by (nonlinear_arith)
            requires
                0 <= a,
        ;
        assert(0 <= (a % 4608000) / 76800 < 60) by (nonlinear_arith)
            requires
                0 <= a % 4608000 < 4608000,
        ;
        assert(0 <= (a % 4608000) % 76800 < 76800) by (nonlinear_arith)
            requires
                0 <= a % 4608000,
        ;
        assert(0 <= ((a % 4608000) % 76800) / 128 < 600) by (nonlinear_arith)
            requires
                0 <= (a % 4608000) % 76800 < 76800,
        ;
    }
    let degrees = (a / UNITS_PER_DEGREE) as u32;
    let rem = a % UNITS_PER_DEGREE;
    let minutes = (rem / UNITS_PER_MINUTE) as u32;
    let deciseconds = ((rem % UNITS_PER_MINUTE) / UNITS_PER_DECISECOND) as u32;
    let mut s = String::new();
    if v >= 0 {
        s.append(positive);
    } else {
        s.append(negative);
    }
    s.append(format_u32_pad(degrees, deg_width).as_str());
    proof {
        reveal_strlit("\u{b0}");
        reveal_strlit(".");
    }
    s.append("\u{b0}");
    s.append(format_u32_pad(minutes, 2).as_str());
    s.append(".");
    s.append(format_u32_pad(deciseconds, 3).as_str());
    proof {
        assert(s@ =~= coordinate_string(v as int, positive@[0], negative@[0], deg_width as nat));
    }
    s
}

/// East-positive longitude in 1/1280 arc-second units.
#[derive(Copy, Clone, Debug, PartialEq, Eq, Structural)]
pub struct Longitude(pub i32);

impl Longitude {
    /// Rendering such as `E121\u{b0}30.000` or `W001\u{b0}21.533`: the
    /// hemisphere letter, three degree digits, minutes and tenths of a
    /// second.
    pub fn to_string(&self) -> (r: String)
        ensures
            r@ == coordinate_string(self.0 as int, 'E', 'W', 3),
    {
        proof {
            reveal_strlit("E");
            reveal_strlit("W");
        }
        angle_string(self.0, "E", "W", 3)
    }
}

/// North-positive latitude in 1/1280 arc-second units.
#[derive(Copy, Clone, Debug, PartialEq, Eq, Structural)]
pub struct Latitude(pub i32);

impl Latitude {
    /// Rendering such as `N53\u{b0}54.150`: the hemisphere letter, the
    /// degrees, minutes and tenths of a second.
    pub fn to_string(&self) -> (r: String)
        ensures
            r@ == coordinate_string(self.0 as int, 'N', 'S', 2),
    {
        proof {
            reveal_strlit("N");
            reveal_strlit("S");
        }
        angle_string(self.0, "N", "S", 2)
    }
}

} // verus!
