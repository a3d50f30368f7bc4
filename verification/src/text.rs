//! Text helpers over the UTF-8 model of `str`.

use vstd::prelude::*;
use vstd::utf8::{
    encode_utf8, encode_utf8_decode_utf8, encode_utf8_valid_utf8, is_char_boundary,
    is_char_boundary_iff_not_is_continuation_byte, is_char_boundary_start_end_of_seq, is_scalar,
};

verus! {

/// `String::push` appends one character.
pub assume_specification[ std::string::String::push ](text: &mut std::string::String, c: char)
    ensures
        final(text)@ == old(text)@.push(c),
;

/// `char::from_u32` accepts exactly the Unicode scalar values.
pub assume_specification[ char::from_u32 ](value: u32) -> (c: Option<char>)
    ensures
        c is Some <==> is_scalar(value),
        c matches Some(found) ==> found == value as char,
;

/// Two character sequences with the same UTF-8 bytes are the same.
pub proof fn encode_utf8_injective(a: Seq<char>, b: Seq<char>)
    requires
        encode_utf8(a) == encode_utf8(b),
    ensures
        a == b,
{
    encode_utf8_decode_utf8(a);
    encode_utf8_decode_utf8(b);
}

/// UTF-8 spends at least one byte on every character.
pub proof fn encode_utf8_len(text: Seq<char>)
    ensures
        text.len() <= encode_utf8(text).len(),
    decreases text.len(),
{
    if text.len() > 0 {
        encode_utf8_len(text.drop_first());
    }
}

/// The bytes of two texts, one after the other, are the bytes of both.
pub proof fn encode_utf8_concat(first: Seq<char>, second: Seq<char>)
    ensures
        encode_utf8(first + second) == encode_utf8(first) + encode_utf8(second),
    decreases first.len(),
{
    if first.len() == 0 {
        assert(first + second =~= second);
        assert(encode_utf8(first) + encode_utf8(second) =~= encode_utf8(second));
    } else {
        assert((first + second).drop_first() =~= first.drop_first() + second);
        encode_utf8_concat(first.drop_first(), second);
        assert(encode_utf8(first + second) =~= encode_utf8(first) + encode_utf8(second));
    }
}

/// Where one text ends and the next begins is a character boundary of both
/// together.
pub proof fn concat_boundary(first: Seq<char>, second: Seq<char>)
    ensures
        is_char_boundary(encode_utf8(first + second), encode_utf8(first).len() as int),
{
    let bytes = encode_utf8(first + second);
    let at = encode_utf8(first).len() as int;
    encode_utf8_concat(first, second);
    encode_utf8_valid_utf8(first + second);
    encode_utf8_valid_utf8(second);
    is_char_boundary_start_end_of_seq(bytes);
    if at < bytes.len() {
        let tail = encode_utf8(second);
        assert(bytes[at] == tail[0]);
        is_char_boundary_start_end_of_seq(tail);
        is_char_boundary_iff_not_is_continuation_byte(tail, 0);
        is_char_boundary_iff_not_is_continuation_byte(bytes, at);
    }
}

/// Compare two byte slices for equality.
pub fn bytes_eq(a: &[u8], b: &[u8]) -> (equal: bool)
    ensures
        equal == (a@ == b@),
{
    if a.len() != b.len() {
        return false;
    }
    let mut i: usize = 0;
    while i < a.len()
        invariant
            a.len() == b.len(),
            i <= a.len(),
            forall|j: int| 0 <= j < i ==> a@[j] == b@[j],
        decreases a.len() - i,
    {
        if a[i] != b[i] {
            assert(a@[i as int] != b@[i as int]);
            return false;
        }
        i += 1;
    }
    assert(a@ =~= b@);
    true
}

/// Compare two texts for equality.
pub fn str_eq(a: &str, b: &str) -> (equal: bool)
    ensures
        equal == (a@ == b@),
{
    let equal = bytes_eq(a.as_bytes(), b.as_bytes());
    proof {
        if equal {
            encode_utf8_injective(a@, b@);
        }
    }
    equal
}

/// `str::strip_prefix` with a text to strip: what follows `prefix` in `text`,
/// or `None` where `text` does not start with it.
#[verifier::external_body]
pub(crate) fn strip_prefix<'a>(text: &'a str, prefix: &str) -> (rest: Option<&'a str>)
    ensures
        match rest {
            Some(rest) => text@ == prefix@ + rest@,
            None => !prefix@.is_prefix_of(text@),
        },
{
    text.strip_prefix(prefix)
}

/// The decimal digits of a number, without leading zeros.
pub open spec fn decimal(value: nat) -> Seq<char>
    decreases value,
{
    let digit = (48 + value % 10) as char;
    if value < 10 {
        seq![digit]
    } else {
        decimal(value / 10).push(digit)
    }
}

/// `usize::to_string` spells a number by its decimal digits.
#[verifier::external_body]
pub(crate) fn usize_to_string(value: usize) -> (text: String)
    ensures
        text@ == decimal(value as nat),
{
    value.to_string()
}

} // verus!
