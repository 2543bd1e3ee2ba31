//! Small shared helpers: string equality, decimal rendering, and
//! parsing of raw hex byte strings.

use vstd::prelude::*;
use vstd::string::StrSliceExecFns;
use vstd::string::StringExecFns;

verus! {

/// Compares two string slices character by character.
pub fn str_eq(a: &str, b: &str) -> (r: bool)
    ensures
        r == (a@ == b@),
{
    let len_a = a.unicode_len();
    let len_b = b.unicode_len();
    if len_a != len_b {
        proof {
            assert(a@ != b@) by {
                assert(a@.len() != b@.len());
            }
        }
        return false;
    }

    let mut i: usize = 0;
    while i < len_a
        invariant
            len_a == a@.len(),
            len_a == b@.len(),
            i <= len_a,
            forall|j: int| 0 <= j < i ==> a@[j] == b@[j],
        decreases len_a - i,
    {
        if a.get_char(i) != b.get_char(i) {
            proof {
                assert(a@[i as int] != b@[i as int]);
            }
            return false;
        }
        i = i + 1;
    }
    proof {
        assert(a@ =~= b@);
    }
    true
}

/// The character for one decimal digit.
pub open spec fn spec_digit_char(d: int) -> char {
    if d == 0 {
        '0'
    } else if d == 1 {
        '1'
    } else if d == 2 {
        '2'
    } else if d == 3 {
        '3'
    } else if d == 4 {
        '4'
    } else if d == 5 {
        '5'
    } else if d == 6 {
        '6'
    } else if d == 7 {
        '7'
    } else if d == 8 {
        '8'
    } else {
        '9'
    }
}

/// The decimal rendering of a non-negative integer.
pub open spec fn spec_udec(n: int) -> Seq<char>
    recommends
        n >= 0,
    decreases n,
{
    if n < 10 {
        seq![spec_digit_char(n)]
    } else {
        spec_udec(n / 10) + seq![spec_digit_char(n % 10)]
    }
}

/// The decimal rendering of a signed integer: a minus sign before the
/// rendering of the magnitude.
pub open spec fn spec_idec(n: int) -> Seq<char> {
    if n < 0 {
        seq!['-'] + spec_udec(-n)
    } else {
        spec_udec(n)
    }
}

/// The one-character string for a decimal digit.
fn digit_str(d: u32) -> (r: &'static str)
    requires
        d < 10,
    ensures
        r@ == seq![spec_digit_char(d as int)],
{
    proof {
        reveal_strlit("0");
        reveal_strlit("1");
        reveal_strlit("2");
        reveal_strlit("3");
        reveal_strlit("4");
        reveal_strlit("5");
        reveal_strlit("6");
        reveal_strlit("7");
        reveal_strlit("8");
        reveal_strlit("9");
    }
    let r = if d == 0 {
        "0"
    } else if d == 1 {
        "1"
    } else if d == 2 {
        "2"
    } else if d == 3 {
        "3"
    } else if d == 4 {
        "4"
    } else if d == 5 {
        "5"
    } else if d == 6 {
        "6"
    } else if d == 7 {
        "7"
    } else if d == 8 {
        "8"
    } else {
        "9"
    };
    proof {
        assert(r@ =~= seq![spec_digit_char(d as int)]);
    }
    r
}

/// Renders an unsigned value in decimal.
pub fn udec_string(value: u32) -> (r: String)
    ensures
        r@ == spec_udec(value as int),
    decreases value,
{
    if value < 10 {
        String::from_str(digit_str(value))
    } else {
        proof {
            assert(value / 10 < value) by (nonlinear_arith)
                requires
                    value >= 10,
            ;
        }
        let rest = udec_string(value / 10);
        rest.concat(digit_str(value % 10))
    }
}

/// Why a raw hex byte string could not be parsed.
#[derive(Debug, PartialEq, Eq, Clone, Copy)]
pub enum HexParseError {
    /// A token between spaces was empty.
    EmptyToken,
    /// A token held a character that is not a hex digit.
    InvalidDigit,
    /// A token's value does not fit in one byte.
    Overflow,
}

/// Whether a character is a hexadecimal digit.
pub open spec fn spec_is_hex_digit(c: char) -> bool {
    ('0' <= c && c <= '9') || ('a' <= c && c <= 'f') || ('A' <= c && c <= 'F')
}

/// The value of a hexadecimal digit.
pub open spec fn spec_hex_digit_val(c: char) -> int {
    if '0' <= c && c <= '9' {
        c as int - '0' as int
    } else if 'a' <= c && c <= 'f' {
        c as int - 'a' as int + 10
    } else {
        c as int - 'A' as int + 10
    }
}

/// The value of a string of hexadecimal digits, most significant
/// first.
pub open spec fn spec_hex_value(t: Seq<char>) -> int
    decreases t.len(),
{
    if t.len() == 0 {
        0
    } else {
        spec_hex_value(t.drop_last()) * 16 + spec_hex_digit_val(t.last())
    }
}

/// How many leading characters of `s` come before its first space:
/// the length of its first token.
pub open spec fn spec_token_end(s: Seq<char>) -> nat
    decreases s.len(),
{
    if s.len() == 0 {
        0
    } else if s[0] == ' ' {
        0
    } else {
        1 + spec_token_end(s.skip(1))
    }
}

/// The first token of `s` is a maximal space-free prefix: every
/// character before its end differs from a space, and the character
/// at its end, if any, is one.
pub proof fn lemma_token_end(s: Seq<char>)
    ensures
        spec_token_end(s) <= s.len(),
        forall|j: int| 0 <= j < spec_token_end(s) ==> s[j] != ' ',
        spec_token_end(s) < s.len() ==> s[spec_token_end(s) as int] == ' ',
    decreases s.len(),
{
    if s.len() != 0 && s[0] != ' ' {
        lemma_token_end(s.skip(1));
        assert forall|j: int| 0 <= j < spec_token_end(s) implies s[j] != ' ' by {
            if j > 0 {
                assert(s.skip(1)[j - 1] == s[j]);
            }
        }
        if spec_token_end(s) < s.len() {
            assert(s.skip(1)[spec_token_end(s) - 1] == s[spec_token_end(s) as int]);
        }
    }
}

/// What one token between spaces stands for: one byte, or the error
/// that rules the whole string out.
pub open spec fn spec_hex_token(t: Seq<char>) -> Result<u8, HexParseError> {
    if t.len() == 0 {
        Err(HexParseError::EmptyToken)
    } else if exists|j: int| 0 <= j < t.len() && !spec_is_hex_digit(t[j]) {
        Err(HexParseError::InvalidDigit)
    } else if spec_hex_value(t) > 255 {
        Err(HexParseError::Overflow)
    } else {
        Ok(spec_hex_value(t) as u8)
    }
}

/// What a raw hex byte string stands for: one byte per token, tokens
/// separated by single spaces, or the first token's error.
pub open spec fn spec_parse_hex(s: Seq<char>) -> Result<Seq<u8>, HexParseError>
    decreases s.len(),
    via spec_parse_hex_decreases
{
    let end = spec_token_end(s);
    match spec_hex_token(s.subrange(0, end as int)) {
        Err(e) => Err(e),
        Ok(byte) => if end == s.len() {
            Ok(seq![byte])
        } else {
            match spec_parse_hex(s.skip(end + 1int)) {
                Err(e) => Err(e),
                Ok(rest) => Ok(seq![byte] + rest),
            }
        },
    }
}

#[via_fn]
proof fn spec_parse_hex_decreases(s: Seq<char>) {
    lemma_token_end(s);
}

/// The value of one hexadecimal digit character, if it is one.
fn hex_digit_val(c: char) -> (r: Option<u8>)
    ensures
        r is Some <==> spec_is_hex_digit(c),
        r matches Some(v) ==> v == spec_hex_digit_val(c),
{
    if '0' <= c && c <= '9' {
        Some((c as u8) - ('0' as u8))
    } else if 'a' <= c && c <= 'f' {
        Some((c as u8) - ('a' as u8) + 10)
    } else if 'A' <= c && c <= 'F' {
        Some((c as u8) - ('A' as u8) + 10)
    } else {
        None
    }
}

/// Parses one token of `hex`, the characters `start` up to `end`.
#[verifier::loop_isolation(false)]
fn parse_hex_token(hex: &str, start: usize, end: usize) -> (r: Result<u8, HexParseError>)
    requires
        start <= end <= hex@.len(),
    ensures
        r == spec_hex_token(hex@.subrange(start as int, end as int)),
{
    let ghost token = hex@.subrange(start as int, end as int);
    if start == end {
        return Err(HexParseError::EmptyToken);
    }

    let mut i: usize = start;
    while i < end
        invariant
            start <= i <= end <= hex@.len(),
            forall|j: int| 0 <= j < i - start ==> spec_is_hex_digit(token[j]),
        decreases end - i,
    {
        proof {
            assert(token[i - start] == hex@[i as int]);
        }
        if hex_digit_val(hex.get_char(i)).is_none() {
            return Err(HexParseError::InvalidDigit);
        }
        i = i + 1;
    }

    let mut value: u32 = 0;
    let mut i: usize = start;
    while i < end
        invariant
            start <= i <= end <= hex@.len(),
            forall|j: int| 0 <= j < token.len() ==> spec_is_hex_digit(token[j]),
            token == hex@.subrange(start as int, end as int),
            spec_hex_value(token.subrange(0, i - start)) <= 255 ==> value == spec_hex_value(
                token.subrange(0, i - start),
            ),
            spec_hex_value(token.subrange(0, i - start)) > 255 ==> 256 <= value < 4112,
            value < 4112,
        decreases end - i,
    {
        proof {
            assert(token[i - start] == hex@[i as int]);
        }
        let digit = match hex_digit_val(hex.get_char(i)) {
            Some(d) => d,
            None => {
                proof {
                    assert(false);
                }
                0
            },
        };
        proof {
            let prefix = token.subrange(0, i - start);
            let longer = token.subrange(0, i + 1 - start);
            assert(longer.drop_last() =~= prefix);
            assert(longer.last() == token[i - start]);
        }
        if value <= 255 {
            value = value * 16 + digit as u32;
        }
        i = i + 1;
    }
    proof {
        assert(token.subrange(0, end - start) =~= token);
    }

    if value > 255 {
        Err(HexParseError::Overflow)
    } else {
        Ok(value as u8)
    }
}

/// Parses a raw string of hexadecimal bytes separated by single
/// spaces into the bytes it stands for.
#[verifier::loop_isolation(false)]
pub fn parse_hex(hex: &str) -> (r: Result<Vec<u8>, HexParseError>)
    ensures
        match spec_parse_hex(hex@) {
            Ok(bytes) => r matches Ok(v) && v@ == bytes,
            Err(e) => r == Err::<Vec<u8>, _>(e),
        },
    decreases hex@.len(),
{
    let len = hex.unicode_len();

    let mut end: usize = 0;
    while end < len && hex.get_char(end) != ' '
        invariant
            end <= len == hex@.len(),
            forall|j: int| 0 <= j < end ==> hex@[j] != ' ',
        decreases len - end,
    {
        end = end + 1;
    }
    proof {
        lemma_token_end(hex@);
        if end < spec_token_end(hex@) {
            assert(hex@[end as int] != ' ');
        }
        assert(end == spec_token_end(hex@));
    }

    let byte = match parse_hex_token(hex, 0, end) {
        Ok(byte) => byte,
        Err(e) => {
            return Err(e);
        },
    };

    if end == len {
        let result: Vec<u8> = vec![byte];
        proof {
            assert(result@ =~= seq![byte]);
        }
        return Ok(result);
    }

    let rest = hex.substring_char(end + 1, len);
    proof {
        assert(rest@ =~= hex@.skip(end + 1));
    }
    match parse_hex(rest) {
        Ok(rest_bytes) => {
            let mut result: Vec<u8> = vec![byte];
            let mut tail = rest_bytes;
            result.append(&mut tail);
            proof {
                assert(result@ =~= seq![byte] + spec_parse_hex(hex@.skip(
                    spec_token_end(hex@) + 1int,
                )).unwrap());
            }
            Ok(result)
        },
        Err(e) => Err(e),
    }
}

/// Renders a signed value in decimal.
pub fn idec_string(value: i32) -> (r: String)
    ensures
        r@ == spec_idec(value as int),
{
    if value >= 0 {
        udec_string(value as u32)
    } else {
        let wide: i64 = value as i64;
        let magnitude: u32 = (-wide) as u32;
        let sign = String::from_str("-");
        proof {
            reveal_strlit("-");
            assert(sign@ =~= seq!['-']);
        }
        let digits = udec_string(magnitude);
        sign.concat(digits.as_str())
    }
}

} // verus!
