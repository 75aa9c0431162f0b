//! Verified text handling on bytes and digits: parsing the numbers the
//! console and configuration lines carry, splitting words, and rendering
//! integers back into decimal for identifiers, ratios and coordinates.

use vstd::prelude::*;

verus! {

/// The character for one decimal digit.
pub open spec fn digit_char(d: nat) -> char {
    if d == 0 {
        '0'
    } else if d == 1 {
        '1'
    } else if d == 2 {
        '2'
    } else if d == 3 {
        '3'
    } else if d == 4 {
        '4'
    } else if d == 5 {
        '5'
    } else if d == 6 {
        '6'
    } else if d == 7 {
        '7'
    } else if d == 8 {
        '8'
    } else {
        '9'
    }
}

/// The decimal digits of `n`, most significant first, without leading
/// zeros (just "0" for zero).
pub open spec fn dec_digits(n: nat) -> Seq<char>
    decreases n,
{
    if n < 10 {
        seq![digit_char(n)]
    } else {
        dec_digits(n / 10) + seq![digit_char(n % 10)]
    }
}

/// The decimal digits of `n` left-padded with zeros to at least `width`
/// characters.
pub open spec fn dec_digits_pad(n: nat, width: nat) -> Seq<char> {
    if dec_digits(n).len() >= width {
        dec_digits(n)
    } else {
        Seq::new((width - dec_digits(n).len()) as nat, |i: int| '0') + dec_digits(n)
    }
}

/// Whether a byte is an ASCII decimal digit.
pub open spec fn is_digit(b: u8) -> bool {
    48 <= b <= 57
}

/// Whether a byte sequence is a non-empty run of decimal digits.
pub open spec fn is_digit_seq(s: Seq<u8>) -> bool {
    s.len() > 0 && forall|i: int| 0 <= i < s.len() ==> is_digit(#[trigger] s[i])
}

/// The number a run of decimal digits denotes.
pub open spec fn digits_val(s: Seq<u8>) -> nat
    decreases s.len(),
{
    if s.len() == 0 {
        0
    } else {
        digits_val(s.drop_last()) * 10 + (s.last() - 48) as nat
    }
}

/// Whether a byte is an ASCII hexadecimal digit.
pub open spec fn is_hex_digit(b: u8) -> bool {
    (48 <= b <= 57) || (97 <= b <= 102) || (65 <= b <= 70)
}

/// The value of one hexadecimal digit.
pub open spec fn hex_digit_val(b: u8) -> nat {
    if 48 <= b <= 57 {
        (b - 48) as nat
    } else if 97 <= b <= 102 {
        (b - 87) as nat
    } else {
        (b - 55) as nat
    }
}

/// Whether a byte sequence is a non-empty run of hexadecimal digits.
pub open spec fn is_hex_seq(s: Seq<u8>) -> bool {
    s.len() > 0 && forall|i: int| 0 <= i < s.len() ==> is_hex_digit(#[trigger] s[i])
}

/// The number a run of hexadecimal digits denotes.
pub open spec fn hex_val(s: Seq<u8>) -> nat
    decreases s.len(),
{
    if s.len() == 0 {
        0
    } else {
        hex_val(s.drop_last()) * 16 + hex_digit_val(s.last())
    }
}

/// A longer digit run never denotes a smaller number.
proof fn lemma_digits_val_monotone(s: Seq<u8>, k: int)
    requires
        0 <= k <= s.len(),
        is_digit_seq(s),
    ensures
        digits_val(s.take(k)) <= digits_val(s),
    decreases s.len() - k,
{
    if k < s.len() {
        lemma_digits_val_monotone(s, k + 1);
        assert(s.take(k + 1).drop_last() =~= s.take(k));
        assert(digits_val(s.take(k + 1)) == digits_val(s.take(k)) * 10 + (s.take(k + 1).last()
            - 48));
    } else {
        assert(s.take(k) =~= s);
    }
}

/// A longer hexadecimal run never denotes a smaller number.
proof fn lemma_hex_val_monotone(s: Seq<u8>, k: int)
    requires
        0 <= k <= s.len(),
        is_hex_seq(s),
    ensures
        hex_val(s.take(k)) <= hex_val(s),
    decreases s.len() - k,
{
    if k < s.len() {
        lemma_hex_val_monotone(s, k + 1);
        assert(s.take(k + 1).drop_last() =~= s.take(k));
        assert(hex_val(s.take(k + 1)) == hex_val(s.take(k)) * 16 + hex_digit_val(
            s.take(k + 1).last(),
        ));
    } else {
        assert(s.take(k) =~= s);
    }
}

/// Parse a non-empty run of decimal digits.  Yields the denoted number
/// exactly when the input is such a run and the number fits in `u32`.
pub fn parse_u32_bytes(s: &[u8]) -> (r: Option<u32>)
    ensures
        r == (if is_digit_seq(s@) && digits_val(s@) <= u32::MAX {
            Some(digits_val(s@) as u32)
        } else {
            Option::<u32>::None
        }),
{
    if s.len() == 0 {
        return None;
    }
    let mut acc: u32 = 0;
    let mut i: usize = 0;
    while i < s.len()
        invariant
            0 < s@.len(),
            i <= s@.len(),
            forall|j: int| 0 <= j < i ==> is_digit(#[trigger] s@[j]),
            acc == digits_val(s@.take(i as int)),
        decreases s@.len() - i,
    {
        let b = s[i];
        if b < 48 || b > 57 {
            return None;
        }
        let d = (b - 48) as u32;
        if acc > (u32::MAX - d) / 10 {
            proof {
                if is_digit_seq(s@) {
                    lemma_digits_val_monotone(s@, i as int + 1);
                    assert(s@.take(i as int + 1).drop_last() =~= s@.take(i as int));
                }
            }
            return None;
        }
        acc = acc * 10 + d;
        i = i + 1;
        proof {
            assert(s@.take(i as int).drop_last() =~= s@.take(i as int - 1));
        }
    }
    proof {
        assert(s@.take(i as int) =~= s@);
    }
    Some(acc)
}

/// Parse a non-empty run of hexadecimal digits, either case.  Yields the
/// denoted number exactly when the input is such a run and the number fits
/// in `u32`.
pub fn parse_u32_hex_bytes(s: &[u8]) -> (r: Option<u32>)
    ensures
        r == (if is_hex_seq(s@) && hex_val(s@) <= u32::MAX {
            Some(hex_val(s@) as u32)
        } else {
            Option::<u32>::None
        }),
{
    if s.len() == 0 {
        return None;
    }
    let mut acc: u32 = 0;
    let mut i: usize = 0;
    while i < s.len()
        invariant
            0 < s@.len(),
            i <= s@.len(),
            forall|j: int| 0 <= j < i ==> is_hex_digit(#[trigger] s@[j]),
            acc == hex_val(s@.take(i as int)),
        decreases s@.len() - i,
    {
        let b = s[i];
        let d: u32 = if 48 <= b && b <= 57 {
            (b - 48) as u32
        } else if 97 <= b && b <= 102 {
            (b - 87) as u32
        } else if 65 <= b && b <= 70 {
            (b - 55) as u32
        } else {
            proof {
                assert(!is_hex_digit(s@[i as int]));
            }
            return None;
        };
        if acc > (u32::MAX - d) / 16 {
            proof {
                if is_hex_seq(s@) {
                    lemma_hex_val_monotone(s@, i as int + 1);
                    assert(s@.take(i as int + 1).drop_last() =~= s@.take(i as int));
                }
            }
            return None;
        }
        acc = acc * 16 + d;
        i = i + 1;
        proof {
            assert(s@.take(i as int).drop_last() =~= s@.take(i as int - 1));
        }
    }
    proof {
        assert(s@.take(i as int) =~= s@);
    }
    Some(acc)
}

/// The first position at or after `from` where `b` occurs in `s`.
pub open spec fn find_byte(s: Seq<u8>, b: u8, from: int) -> Option<int>
    decreases s.len() - from,
{
    if from < 0 || from >= s.len() {
        None
    } else if s[from] == b {
        Some(from)
    } else {
        find_byte(s, b, from + 1)
    }
}

/// Find the first occurrence of `b` in `s` at or after `from`.
pub fn find_byte_at(s: &[u8], b: u8, from: usize) -> (r: Option<usize>)
    ensures
        (r is None) == (find_byte(s@, b, from as int) is None),
        r matches Some(p) ==> from <= p < s@.len() && find_byte(s@, b, from as int) == Some(
            p as int,
        ),
{
    let mut i: usize = from;
    while i < s.len()
        invariant
            from <= i,
            find_byte(s@, b, from as int) == find_byte(s@, b, i as int),
        decreases s@.len() - i,
    {
        if s[i] == b {
            return Some(i);
        }
        i = i + 1;
    }
    None
}

/// The integer a byte string with an optional sign denotes, if it is a
/// sign followed by a run of decimal digits.
pub open spec fn signed_val(s: Seq<u8>) -> Option<int> {
    if s.len() > 0 && s[0] == 45 {
        if is_digit_seq(s.drop_first()) {
            Some(-(digits_val(s.drop_first()) as int))
        } else {
            None
        }
    } else if s.len() > 0 && s[0] == 43 {
        if is_digit_seq(s.drop_first()) {
            Some(digits_val(s.drop_first()) as int)
        } else {
            None
        }
    } else {
        if is_digit_seq(s) {
            Some(digits_val(s) as int)
        } else {
            None
        }
    }
}

/// Parse an optionally signed run of decimal digits.  Yields the denoted
/// number exactly when the input has that shape and the number fits in
/// `i32`.
pub fn parse_i32_bytes(s: &[u8]) -> (r: Option<i32>)
    ensures
        r == (match signed_val(s@) {
            Some(v) => if i32::MIN <= v <= i32::MAX {
                Some(v as i32)
            } else {
                Option::<i32>::None
            },
            None => None,
        }),
{
    if s.len() == 0 {
        return None;
    }
    let b0 = s[0];
    if b0 == 45 || b0 == 43 {
        let rest = vstd::slice::slice_subrange(s, 1, s.len());
        proof {
            assert(rest@ =~= s@.drop_first());
        }
        match parse_u32_bytes(rest) {
            Some(v) => {
                if b0 == 45 {
                    if v <= 0x8000_0000 {
                        Some((-(v as i64)) as i32)
                    } else {
                        None
                    }
                } else {
                    if v <= 0x7fff_ffff {
                        Some(v as i32)
                    } else {
                        None
                    }
                }
            },
            None => None,
        }
    } else {
        match parse_u32_bytes(s) {
            Some(v) => {
                if v <= 0x7fff_ffff {
                    Some(v as i32)
                } else {
                    None
                }
            },
            None => None,
        }
    }
}

/// Ten to the `e`-th power.
pub open spec fn pow10(e: nat) -> nat
    decreases e,
{
    if e == 0 {
        1
    } else {
        10 * pow10((e - 1) as nat)
    }
}

/// Every power of ten is positive.
pub proof fn lemma_pow10_pos(e: nat)
    ensures
        pow10(e) >= 1,
    decreases e,
{
    if e > 0 {
        lemma_pow10_pos((e - 1) as nat);
    }
}

/// Ten to the `e`-th power, for exponents a `u32` can hold.
pub fn pow10_u32(e: u8) -> (r: u32)
    requires
        e <= 9,
    ensures
        r == pow10(e as nat),
        r <= 1000000000,
{
    proof {
        assert(pow10(0) == 1);
        assert(pow10(1) == 10);
        assert(pow10(2) == 100);
        assert(pow10(3) == 1000);
        assert(pow10(4) == 10000);
        assert(pow10(5) == 100000);
        assert(pow10(6) == 1000000);
        assert(pow10(7) == 10000000);
        assert(pow10(8) == 100000000);
        assert(pow10(9) == 1000000000);
    }
    match e {
        0 => 1,
        1 => 10,
        2 => 100,
        3 => 1000,
        4 => 10000,
        5 => 100000,
        6 => 1000000,
        7 => 10000000,
        8 => 100000000,
        _ => 1000000000,
    }
}

/// Where the word starting at `from` ends: at the next space, or at the end
/// of the text.
pub open spec fn word_end(s: Seq<u8>, from: int) -> int {
    match find_byte(s, 32u8, from) {
        None => s.len() as int,
        Some(p) => p,
    }
}

/// The first space-delimited word.
pub open spec fn first_word(s: Seq<u8>) -> Seq<u8> {
    s.subrange(0, word_end(s, 0))
}

/// The second space-delimited word, when a space follows the first one.
pub open spec fn second_word(s: Seq<u8>) -> Option<Seq<u8>> {
    let e = word_end(s, 0);
    if e == s.len() {
        None
    } else {
        Some(s.subrange(e + 1, word_end(s, e + 1)))
    }
}

/// Whether two byte strings are equal.
pub fn bytes_eq(a: &[u8], b: &[u8]) -> (r: bool)
    ensures
        r == (a@ == b@),
{
    if a.len() != b.len() {
        proof {
            assert(a@ !~= b@);
        }
        return false;
    }
    let mut i: usize = 0;
    while i < a.len()
        invariant
            i <= a@.len(),
            a@.len() == b@.len(),
            forall|j: int| 0 <= j < i ==> a@[j] == b@[j],
        decreases a@.len() - i,
    {
        if a[i] != b[i] {
            proof {
                assert(a@ !~= b@);
            }
            return false;
        }
        i = i + 1;
    }
    proof {
        assert(a@ =~= b@);
    }
    true
}

/// The one-character string for a decimal digit; ten is never passed.
fn digit_str(d: u32) -> (r: &'static str)
    requires
        d < 10,
    ensures
        r@ == seq![digit_char(d as nat)],
{
    proof {
        reveal_strlit("0");
        reveal_strlit("1");
        reveal_strlit("2");
        reveal_strlit("3");
        reveal_strlit("4");
        reveal_strlit("5");
        reveal_strlit("6");
        reveal_strlit("7");
        reveal_strlit("8");
        reveal_strlit("9");
    }
    match d {
        0 => "0",
        1 => "1",
        2 => "2",
        3 => "3",
        4 => "4",
        5 => "5",
        6 => "6",
        7 => "7",
        8 => "8",
        _ => "9",
    }
}

/// Render `n` in decimal.
pub fn format_u32(n: u32) -> (r: String)
    ensures
        r@ == dec_digits(n as nat),
    decreases n,
{
    if n < 10 {
        let mut s = String::new();
        s.append(digit_str(n));
        proof {
            assert(s@ =~= dec_digits(n as nat));
        }
        s
    } else {
        let mut s = format_u32(n / 10);
        s.append(digit_str(n % 10));
        proof {
            assert(s@ =~= dec_digits(n as nat));
        }
        s
    }
}

/// Render `n` in decimal, left-padded with zeros to at least `width`
/// characters.
pub fn format_u32_pad(n: u32, width: usize) -> (r: String)
    ensures
        r@ == dec_digits_pad(n as nat, width as nat),
{
    let digits = format_u32(n);
    let len = digits.as_str().unicode_len();
    let mut s = String::new();
    let mut k: usize = len;
    while k < width
        invariant
            len <= k,
            len >= width ==> k == len,
            len < width ==> k <= width,
            s@ =~= Seq::new((k - len) as nat, |i: int| '0'),
        decreases width - k,
    {
        proof {
            reveal_strlit("0");
        }
        s.append("0");
        k = k + 1;
        proof {
            reveal_strlit("0");
            assert(s@ =~= Seq::new((k - len) as nat, |i: int| '0'));
        }
    }
    s.append(digits.as_str());
    proof {
        assert(s@ =~= dec_digits_pad(n as nat, width as nat));
    }
    s
}

} // verus!
