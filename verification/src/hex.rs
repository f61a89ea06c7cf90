//! Parsing of textual hexadecimal selectors into 16-bit identifiers.

use vstd::prelude::*;

verus! {

/// Largest value a selector may take: vendor, product, usage page and usage
/// id are all 16-bit quantities.
pub const MAX_SELECTOR_VALUE: u32 = 0xFFFF;

/// Failure of the selector parser: the text is not a hexadecimal number in
/// range. Carries the offending input for diagnostics.
#[derive(Debug, PartialEq, Eq)]
pub enum HexError {
    InvalidHex { input: String },
}

/// True for the sixteen hexadecimal digit characters, either case.
pub open spec fn is_hex_digit(c: char) -> bool {
    (48 <= c as u32 <= 57)  // '0' ..= '9'
    || (97 <= c as u32 <= 102)  // 'a' ..= 'f'
    || (65 <= c as u32 <= 70)  // 'A' ..= 'F'
}

/// Numeric value of a hexadecimal digit character; 0 on any other character.
pub open spec fn hex_digit_value(c: char) -> nat {
    if 48 <= c as u32 <= 57 {
        (c as u32 - 48) as nat
    } else if 97 <= c as u32 <= 102 {
        (c as u32 - 87) as nat
    } else if 65 <= c as u32 <= 70 {
        (c as u32 - 55) as nat
    } else {
        0
    }
}

/// The characters left after removing one optional leading "0x" or "0X".
pub open spec fn strip_hex_prefix(s: Seq<char>) -> Seq<char> {
    if s.len() >= 2 && s[0] == '0' && (s[1] == 'x' || s[1] == 'X') {
        s.subrange(2, s.len() as int)
    } else {
        s
    }
}

/// Every character of `s` is a hexadecimal digit.
pub open spec fn all_hex_digits(s: Seq<char>) -> bool {
    forall|i: int| 0 <= i < s.len() ==> is_hex_digit(s[i])
}

/// The number written by `s` read as base-16 digits, most significant first.
pub open spec fn hex_number(s: Seq<char>) -> nat
    decreases s.len(),
{
    if s.len() == 0 {
        0
    } else {
        hex_number(s.drop_last()) * 16 + hex_digit_value(s.last())
    }
}

/// `s` is a well-formed selector numeral once the prefix is gone: non-empty,
/// all digits, and no larger than sixteen bits allow.
pub open spec fn valid_hex(s: Seq<char>) -> bool {
    s.len() > 0 && all_hex_digits(s) && hex_number(s) <= MAX_SELECTOR_VALUE
}

/// Reading more digits never shrinks the number.
proof fn lemma_hex_number_grows(s: Seq<char>, k: int)
    requires
        0 <= k <= s.len(),
    ensures
        hex_number(s.take(k)) <= hex_number(s),
    decreases s.len() - k,
{
    if k < s.len() {
        assert(s.take(k + 1).drop_last() =~= s.take(k));
        assert(s.take(k + 1).last() == s[k]);
        lemma_hex_number_grows(s, k + 1);
    } else {
        assert(s.take(k) =~= s);
    }
}

/// Numeric value of one hexadecimal digit character, if it is one.
fn hex_digit(c: char) -> (r: Option<u8>)
    ensures
        r is Some <==> is_hex_digit(c),
        r matches Some(d) ==> d == hex_digit_value(c),
{
    let u = c as u32;
    if 48 <= u && u <= 57 {
        Some((u - 48) as u8)
    } else if 97 <= u && u <= 102 {
        Some((u - 87) as u8)
    } else if 65 <= u && u <= 70 {
        Some((u - 55) as u8)
    } else {
        None
    }
}

/// Parses a selector written in hexadecimal, with one optional
/// case-insensitive "0x" prefix, into a 16-bit value.
///
/// Succeeds exactly on inputs whose stripped remainder is non-empty, made of
/// hexadecimal digits only, and at most 0xFFFF; any other input is rejected
/// with `InvalidHex` carrying the original text.
pub fn parse_hex_string(hex_str: &str) -> (r: Result<u16, HexError>)
    ensures
        r is Ok <==> valid_hex(strip_hex_prefix(hex_str@)),
        r matches Ok(v) ==> v == hex_number(strip_hex_prefix(hex_str@)),
        r matches Err(e) ==> (e matches HexError::InvalidHex { input } && input@ == hex_str@),
{
    let len = hex_str.unicode_len();
    let mut start: usize = 0;
    if len >= 2 {
        let c0 = hex_str.get_char(0);
        let c1 = hex_str.get_char(1);
        if c0 == '0' && (c1 == 'x' || c1 == 'X') {
            start = 2;
        }
    }
    let ghost digits = strip_hex_prefix(hex_str@);
    proof {
        assert(digits =~= hex_str@.subrange(start as int, len as int));
    }
    if start == len {
        return Err(HexError::InvalidHex { input: hex_str.to_owned() });
    }
    let mut value: u32 = 0;
    let mut i: usize = start;
    while i < len
        invariant
            start <= i <= len,
            len == hex_str@.len(),
            digits == strip_hex_prefix(hex_str@),
            digits == hex_str@.subrange(start as int, len as int),
            value <= MAX_SELECTOR_VALUE,
            forall|j: int| start <= j < i ==> is_hex_digit(hex_str@[j]),
            value == hex_number(digits.take(i - start)),
        decreases len - i,
    {
        let ghost k = i - start;
        proof {
            assert(digits[k] == hex_str@[i as int]);
        }
        let c = hex_str.get_char(i);
        let d = match hex_digit(c) {
            Some(d) => d,
            None => {
                proof {
                    assert(!all_hex_digits(digits)) by {
                        if all_hex_digits(digits) {
                            assert(is_hex_digit(digits[k]));
                        }
                    }
                }
                return Err(HexError::InvalidHex { input: hex_str.to_owned() });
            },
        };
        proof {
            assert(digits.take(k + 1).drop_last() =~= digits.take(k));
            assert(digits.take(k + 1).last() == digits[k]);
            assert(hex_number(digits.take(k + 1)) == hex_number(digits.take(k)) * 16
                + hex_digit_value(digits[k]));
        }
        value = value * 16 + d as u32;
        if value > MAX_SELECTOR_VALUE {
            proof {
                if all_hex_digits(digits) {
                    lemma_hex_number_grows(digits, k + 1);
                    assert(hex_number(digits) > MAX_SELECTOR_VALUE);
                }
                assert(!valid_hex(digits));
            }
            return Err(HexError::InvalidHex { input: hex_str.to_owned() });
        }
        i += 1;
    }
    proof {
        assert(digits.take(len - start) =~= digits);
    }
    Ok(value as u16)
}

/// The "0x" and "0X" prefixes are transparent: a prefixed numeral strips to
/// its bare digits, and a valid bare numeral is left untouched by stripping,
/// so both spellings parse to the same value, and a bare numeral parses to
/// its own base-16 reading.
pub proof fn lemma_hex_prefix_equivalence(t: Seq<char>)
    ensures
        strip_hex_prefix(seq!['0', 'x'] + t) == t,
        strip_hex_prefix(seq!['0', 'X'] + t) == t,
        valid_hex(t) ==> strip_hex_prefix(t) == t,
        valid_hex(t) ==> hex_number(strip_hex_prefix(seq!['0', 'x'] + t)) == hex_number(
            strip_hex_prefix(t),
        ),
        valid_hex(t) ==> hex_number(strip_hex_prefix(seq!['0', 'X'] + t)) == hex_number(
            strip_hex_prefix(t),
        ),
{
    let lower = seq!['0', 'x'] + t;
    let upper = seq!['0', 'X'] + t;
    assert(lower.subrange(2, lower.len() as int) =~= t);
    assert(upper.subrange(2, upper.len() as int) =~= t);
    if valid_hex(t) && t.len() >= 2 && t[0] == '0' && (t[1] == 'x' || t[1] == 'X') {
        assert(is_hex_digit(t[1]));
        assert(false);
    }
}

} // verus!
