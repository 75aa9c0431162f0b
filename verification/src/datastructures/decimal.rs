//! Fixed-point decimals for configuration values: an integer scaled by a
//! power of ten, so `3.3` volts travels as 33 with one decimal place.

use vstd::prelude::*;
use vstd::slice::slice_subrange;
use vstd::string::StringSliceAdditionalSpecFns;
use crate::text::{digits_val, find_byte, find_byte_at, is_digit_seq, parse_u32_bytes, pow10, pow10_u32};


verus! {

/// A decimal number `value / 10^decimal_length`.
#[derive(Copy, Clone, Debug, PartialEq, Eq, Structural)]
pub struct IntegerDecimal {
    pub value: i32,
    pub decimal_length: u8,
}

/// The decimal a byte string denotes: an optional minus sign, an integer
/// part, and an optional fraction of at most nine digits; anything else, or
/// a value too large for the scaled integer, reads as zero.
pub open spec fn decimal_of_bytes(s: Seq<u8>) -> IntegerDecimal {
    let neg = s.len() > 0 && s[0] == 45;
    let t = if neg {
        s.drop_first()
    } else {
        s
    };
    match find_byte(t, 46u8, 0) {
        None => {
            if is_digit_seq(t) && digits_val(t) <= i32::MAX {
                IntegerDecimal {
                    value: (if neg {
                        -(digits_val(t) as int)
                    } else {
                        digits_val(t) as int
                    }) as i32,
                    decimal_length: 0,
                }
            } else {
                IntegerDecimal { value: 0, decimal_length: 0 }
            }
        },
        Some(p) => {
            let a = t.subrange(0, p);
            let f = t.subrange(p + 1, t.len() as int);
            if is_digit_seq(a) && is_digit_seq(f) && f.len() <= 9 && digits_val(a) * pow10(
                f.len(),
            ) + digits_val(f) <= i32::MAX {
                IntegerDecimal {
                    value: (if neg {
                        -((digits_val(a) * pow10(f.len()) + digits_val(f)) as int)
                    } else {
                        (digits_val(a) * pow10(f.len()) + digits_val(f)) as int
                    }) as i32,
                    decimal_length: f.len() as u8,
                }
            } else {
                IntegerDecimal { value: 0, decimal_length: 0 }
            }
        },
    }
}

impl IntegerDecimal {
    /// The decimal `value / 10^decimal_length`.
    pub fn new(value: i32, decimal_length: u8) -> (r: Self)
        ensures
            r == (IntegerDecimal { value, decimal_length }),
    {
        Self { value, decimal_length }
    }

    /// Parse a decimal literal; malformed or oversized input reads as zero.
    pub fn parse(s: &str) -> (r: Self)
        ensures
            r == decimal_of_bytes(s.spec_bytes()),
    {
        Self::parse_bytes(s.as_bytes())
    }

    /// Parse a decimal literal from its bytes.
    pub fn parse_bytes(bytes: &[u8]) -> (r: Self)
        ensures
            r == decimal_of_bytes(bytes@),
    {
        let zero = Self { value: 0, decimal_length: 0 };
        let neg = bytes.len() > 0 && bytes[0] == 45;
        let t = if neg {
            slice_subrange(bytes, 1, bytes.len())
        } else {
            slice_subrange(bytes, 0, bytes.len())
        };
        proof {
            if neg {
                assert(t@ =~= bytes@.drop_first());
            } else {
                assert(t@ =~= bytes@);
            }
        }
        let n = t.len();
        match find_byte_at(t, 46, 0) {
            None => {
                match parse_u32_bytes(t) {
                    Some(v) => if v <= 0x7fff_ffff {
                        let value = if neg {
                            -(v as i32)
                        } else {
                            v as i32
                        };
                        Self { value, decimal_length: 0 }
                    } else {
                        zero
                    },
                    None => zero,
                }
            },
            Some(p) => {
                let a = parse_u32_bytes(slice_subrange(t, 0, p));
                let f_len = n - (p + 1);
                let f = parse_u32_bytes(slice_subrange(t, p + 1, n));
                proof {
                    let aseq = t@.subrange(0, p as int);
                    let fseq = t@.subrange(p as int + 1, n as int);
                    crate::text::lemma_pow10_pos(fseq.len());
                    assert(digits_val(aseq) * pow10(fseq.len()) >= digits_val(aseq))
                        by (nonlinear_arith)
                        requires
                            pow10(fseq.len()) >= 1,
                    ;
                }
                match (a, f) {
                    (Some(a), Some(f)) => {
                        if f_len <= 9 {
                            let scale = pow10_u32(f_len as u8);
                            proof {
                                assert((a as int) * (scale as int) <= 4294967295int
                                    * 1000000000int) by (nonlinear_arith)
                                    requires
                                        0 <= a as int <= 4294967295int,
                                        0 <= scale as int <= 1000000000int,
                                ;
                            }
                            let combined = (a as u64) * (scale as u64) + (f as u64);
                            if combined <= 0x7fff_ffff {
                                let value = if neg {
                                    -(combined as i32)
                                } else {
                                    combined as i32
                                };
                                Self { value, decimal_length: f_len as u8 }
                            } else {
                                zero
                            }
                        } else {
                            zero
                        }
                    },
                    _ => zero,
                }
            },
        }
    }
}

impl From<&str> for IntegerDecimal {
    fn from(s: &str) -> (r: IntegerDecimal) {
        IntegerDecimal::parse(s)
    }
}

impl vstd::std_specs::convert::FromSpecImpl<&str> for IntegerDecimal {
    open spec fn obeys_from_spec() -> bool {
        true
    }

    open spec fn from_spec(s: &str) -> IntegerDecimal {
        decimal_of_bytes(s.spec_bytes())
    }
}

impl Default for IntegerDecimal {
    fn default() -> (r: Self)
        ensures
            r == (IntegerDecimal { value: 0, decimal_length: 0 }),
    {
        Self { value: 0, decimal_length: 0 }
    }
}

} // verus!
