//! What the bodies of JSON strings denote, piece by piece.

use vstd::prelude::*;

use super::string::{
    escape_of, hex_digit, hex_unit, is_high, is_low, is_whitespace, pair_char, string_value, Escape,
};

verus! {

/// A character code.
pub open spec fn code(c: char) -> int {
    c as int
}

/// The number that a hexadecimal digit stands for, from its character code, or
/// -1 for a character that is none.
pub open spec fn digit_value(c: char) -> int {
    if 48 <= code(c) <= 57 {
        code(c) - 48
    } else if 65 <= code(c) <= 70 {
        code(c) - 55
    } else if 97 <= code(c) <= 102 {
        code(c) - 87
    } else {
        -1
    }
}

/// The number that the four characters after `\u` spell in base 16.
pub open spec fn digits_value(a: char, b: char, c: char, d: char) -> int {
    ((digit_value(a) * 16 + digit_value(b)) * 16 + digit_value(c)) * 16 + digit_value(d)
}

/// Whether all four characters are hexadecimal digits.
pub open spec fn are_digits(a: char, b: char, c: char, d: char) -> bool {
    digit_value(a) >= 0 && digit_value(b) >= 0 && digit_value(c) >= 0 && digit_value(d) >= 0
}

/// JSON whitespace is space, tab, line feed and carriage return.
pub proof fn whitespace_is_four_characters(c: char)
    ensures
        is_whitespace(c) <==> code(c) == 32 || code(c) == 9 || code(c) == 10 || code(c) == 13,
{
}

/// A character that needs no escape stands for itself. Quotes and control
/// characters do not stand in a string unescaped.
pub proof fn plain_characters_stand_for_themselves(c: char, rest: Seq<char>)
    ensures
        code(c) >= 32 && c != '"' && c != '\\' ==> string_value(seq![c] + rest) == (
        match string_value(rest) {
            Some(text) => Some(seq![c] + text),
            None => None,
        }),
        code(c) < 32 || c == '"' ==> string_value(seq![c] + rest) is None,
        string_value(Seq::<char>::empty()) == Some(Seq::<char>::empty()),
{
    let body = seq![c] + rest;
    assert(body.skip(1) =~= rest);
    assert(body[0] == c);
}

/// The character code that each two-character escape stands for, or -1 for a
/// kind that is no escape.
pub open spec fn escape_code(kind: char) -> int {
    if kind == '"' || kind == '\\' || kind == '/' {
        code(kind)
    } else if kind == 'b' {
        8
    } else if kind == 't' {
        9
    } else if kind == 'n' {
        10
    } else if kind == 'f' {
        12
    } else if kind == 'r' {
        13
    } else {
        -1
    }
}

/// A two-character escape stands for its character, and is none of a string
/// where JSON does not know its kind.
pub proof fn short_escapes_stand_for_their_character(kind: char, rest: Seq<char>)
    requires
        kind != 'u',
    ensures
        ({
            let body = seq!['\\', kind] + rest;
            &&& escape_code(kind) < 0 ==> escape_of(body) is Invalid && string_value(body) is None
            &&& escape_code(kind) >= 0 ==> {
                &&& escape_of(body) matches Escape::Char(c) && code(c) == escape_code(kind)
                &&& string_value(body) == (match string_value(rest) {
                    Some(text) => Some(seq![escape_of(body)->Char_0] + text),
                    None => None,
                })
            }
        }),
{
    let body = seq!['\\', kind] + rest;
    assert(body.skip(2) =~= rest);
    assert(body[0] == '\\' && body[1] == kind);
}

/// The body of a string that starts with a unit escape.
pub open spec fn unit_escape(a: char, b: char, c: char, d: char) -> Seq<char> {
    seq!['\\', 'u', a, b, c, d]
}

/// A unit escape stands for the number that its four digits spell, and is none
/// where one of them is no hexadecimal digit.
pub proof fn unit_escapes_spell_a_number(a: char, b: char, c: char, d: char, rest: Seq<char>)
    ensures
        ({
            let body = unit_escape(a, b, c, d) + rest;
            &&& are_digits(a, b, c, d) ==> (escape_of(body) matches Escape::Unit(unit) && unit
                == digits_value(a, b, c, d))
            &&& !are_digits(a, b, c, d) ==> escape_of(body) is Invalid
        }),
{
    let body = unit_escape(a, b, c, d) + rest;
    assert(body[1] == 'u' && body[2] == a && body[3] == b && body[4] == c && body[5] == d);
    if !are_digits(a, b, c, d) {
        if digit_value(a) < 0 {
            assert(hex_digit(body[2]) is None);
        } else if digit_value(b) < 0 {
            assert(hex_digit(body[3]) is None);
        } else if digit_value(c) < 0 {
            assert(hex_digit(body[4]) is None);
        } else {
            assert(hex_digit(body[5]) is None);
        }
    } else {
        assert(hex_digit(a) == Some(digit_value(a) as u16));
        assert(hex_digit(b) == Some(digit_value(b) as u16));
        assert(hex_digit(c) == Some(digit_value(c) as u16));
        assert(hex_digit(d) == Some(digit_value(d) as u16));
        assert(hex_unit(body) == digits_value(a, b, c, d));
    }
}

/// A unit escape outside the surrogates stands for the character with that code.
pub proof fn unit_escape_stands_for_its_character(
    a: char,
    b: char,
    c: char,
    d: char,
    rest: Seq<char>,
    denoted: char,
)
    requires
        are_digits(a, b, c, d),
        code(denoted) == digits_value(a, b, c, d),
    ensures
        string_value(unit_escape(a, b, c, d) + rest) == (match string_value(rest) {
            Some(text) => Some(seq![denoted] + text),
            None => None,
        }),
{
    let body = unit_escape(a, b, c, d) + rest;
    unit_escapes_spell_a_number(a, b, c, d, rest);
    assert(body.skip(6) =~= rest);
    assert(body[0] == '\\');
}

/// The code that a surrogate pair stands for: ten bits from each half, above
/// the first plane.
pub open spec fn pair_code(high: int, low: int) -> int {
    65536 + (high - 55296) * 1024 + (low - 56320)
}

/// A pair of surrogates stands for one character beyond the first plane.
/// Surrogates do not stand alone.
pub proof fn surrogate_pair_stands_for_one_character(high: u16, low: u16, denoted: char)
    requires
        55296 <= high < 56320,
        56320 <= low < 57344,
        code(denoted) == pair_code(high as int, low as int),
    ensures
        is_high(high) && !is_low(high),
        is_low(low) && !is_high(low),
        pair_char(high, low) == denoted,
{
}

/// The body of a string that starts with two unit escapes, a high surrogate and
/// then a low one, denotes the character of the pair and then the rest.
pub proof fn escaped_pair_is_read(first: Seq<char>, second: Seq<char>, rest: Seq<char>)
    requires
        first.len() == 6,
        first[0] == '\\',
        second.len() == 6,
        second[0] == '\\',
        escape_of(first) matches Escape::Unit(high) && 55296 <= high < 56320,
        escape_of(second) matches Escape::Unit(low) && 56320 <= low < 57344,
    ensures
        string_value(first + second + rest) == (match string_value(rest) {
            Some(text) => Some(
                seq![pair_char(escape_of(first)->Unit_0, escape_of(second)->Unit_0)] + text,
            ),
            None => None,
        }),
{
    let body = first + second + rest;
    let behind = body.skip(6);
    assert(behind =~= second + rest);
    assert(body.skip(12) =~= rest);
    same_escape(first, body);
    same_escape(second, behind);
    assert(body[6] == second[0]);
}

/// An escape is read from its own characters alone.
proof fn same_escape(escape: Seq<char>, body: Seq<char>)
    requires
        escape.len() == 6,
        escape.is_prefix_of(body),
        escape_of(escape) is Unit,
    ensures
        escape_of(body) == escape_of(escape),
        body[0] == escape[0],
{
    assert forall|i: int| 0 <= i < 6 implies #[trigger] body[i] == escape[i] by {
        assert(body.take(6)[i] == body[i]);
    }
    assert(body[1] == escape[1]);
    assert forall|i: int| 2 <= i < 6 implies hex_digit(#[trigger] body[i]) is Some by {
        assert(hex_digit(escape[i]) is Some);
    }
}

} // verus!
