//! Syntax of JSON strings.

use vstd::prelude::*;

verus! {

/// One escape sequence at the start of the undecoded value text.
#[derive(Debug, Clone, Copy, PartialEq, Eq, Structural)]
pub enum Escape {
    /// A complete two-byte escape of one character.
    Char(char),
    /// A complete `\uXXXX` escape of one UTF-16 code unit.
    Unit(u16),
    /// More bytes are needed to decide.
    Incomplete,
    /// Not a valid JSON escape.
    Invalid,
}

/// JSON whitespace.
pub open spec fn is_whitespace(c: char) -> bool {
    c == ' ' || c == '\t' || c == '\n' || c == '\r'
}

/// Value of one hexadecimal digit.
pub open spec fn hex_digit(c: char) -> Option<u16> {
    if '0' <= c <= '9' {
        Some((c as u32 - '0' as u32) as u16)
    } else if 'a' <= c <= 'f' {
        Some((c as u32 - 'a' as u32 + 10) as u16)
    } else if 'A' <= c <= 'F' {
        Some((c as u32 - 'A' as u32 + 10) as u16)
    } else {
        None
    }
}

/// Number of hexadecimal digits after `\u` that can be read from `text`.
pub open spec fn hex_len(text: Seq<char>) -> int {
    if text.len() < 6 {
        text.len() - 2
    } else {
        4
    }
}

/// The character that a two-character escape of kind `kind` stands for.
pub open spec fn simple_escape(kind: char) -> Option<char> {
    if kind == '"' {
        Some('"')
    } else if kind == '\\' {
        Some('\\')
    } else if kind == '/' {
        Some('/')
    } else if kind == 'b' {
        Some('\u{8}')
    } else if kind == 'f' {
        Some('\u{c}')
    } else if kind == 'n' {
        Some('\n')
    } else if kind == 'r' {
        Some('\r')
    } else if kind == 't' {
        Some('\t')
    } else {
        None
    }
}

/// The code unit spelled by the four digits after `\u`.
pub open spec fn hex_unit(text: Seq<char>) -> u16 {
    (hex_digit(text[2])->0 * 4096 + hex_digit(text[3])->0 * 256 + hex_digit(text[4])->0 * 16
        + hex_digit(text[5])->0) as u16
}

/// The escape sequence at the start of `text`, whose first character is `\`.
pub open spec fn escape_of(text: Seq<char>) -> Escape {
    if text.len() < 2 {
        Escape::Incomplete
    } else if text[1] == 'u' {
        if exists|i: int| 2 <= i < 2 + hex_len(text) && hex_digit(#[trigger] text[i]) is None {
            Escape::Invalid
        } else if hex_len(text) < 4 {
            Escape::Incomplete
        } else {
            Escape::Unit(hex_unit(text))
        }
    } else {
        match simple_escape(text[1]) {
            Some(c) => Escape::Char(c),
            None => Escape::Invalid,
        }
    }
}

/// Whether `unit` opens a surrogate pair.
pub open spec fn is_high(unit: u16) -> bool {
    0xD800 <= unit <= 0xDBFF
}

/// Whether `unit` closes a surrogate pair.
pub open spec fn is_low(unit: u16) -> bool {
    0xDC00 <= unit <= 0xDFFF
}

/// The character that a surrogate pair encodes.
pub open spec fn pair_char(high: u16, low: u16) -> char {
    (0x10000 + (high - 0xD800) * 0x400 + (low - 0xDC00)) as char
}

/// Characters that a JSON string cannot hold unescaped.
pub open spec fn is_control(c: char) -> bool {
    c <= '\u{1f}'
}

/// The text that a JSON string with the body `body` (what stands between its
/// quotes) denotes, or `None` where `body` is not the body of a JSON string.
///
/// Control characters and quotes must be escaped, and surrogate escapes must
/// come in pairs.
pub open spec fn string_value(body: Seq<char>) -> Option<Seq<char>>
    decreases body.len(),
{
    if body.len() == 0 {
        Some(Seq::empty())
    } else if body[0] == '"' || is_control(body[0]) {
        None
    } else if body[0] != '\\' {
        prepend(body[0], string_value(body.skip(1)))
    } else {
        match escape_of(body) {
            Escape::Char(c) => prepend(c, string_value(body.skip(2))),
            Escape::Unit(unit) => if is_high(unit) {
                if body.len() >= 12 && body[6] == '\\' {
                    match escape_of(body.skip(6)) {
                        Escape::Unit(low) => if is_low(low) {
                            prepend(pair_char(unit, low), string_value(body.skip(12)))
                        } else {
                            None
                        },
                        _ => None,
                    }
                } else {
                    None
                }
            } else if is_low(unit) {
                None
            } else {
                prepend(unit as char, string_value(body.skip(6)))
            },
            _ => None,
        }
    }
}

/// `c` before the text in `rest`, where there is one.
pub open spec fn prepend(c: char, rest: Option<Seq<char>>) -> Option<Seq<char>> {
    match rest {
        Some(text) => Some(seq![c] + text),
        None => None,
    }
}

/// One lowercase hexadecimal digit.
pub open spec fn hex_char(digit: u32) -> char {
    if digit < 10 {
        (digit + 48) as char
    } else {
        (digit + 87) as char
    }
}

/// How one character is spelled inside a JSON string.
pub open spec fn escaped_char(c: char) -> Seq<char> {
    if c == '"' {
        seq!['\\', '"']
    } else if c == '\\' {
        seq!['\\', '\\']
    } else if c == '\u{8}' {
        seq!['\\', 'b']
    } else if c == '\t' {
        seq!['\\', 't']
    } else if c == '\n' {
        seq!['\\', 'n']
    } else if c == '\u{c}' {
        seq!['\\', 'f']
    } else if c == '\r' {
        seq!['\\', 'r']
    } else if is_control(c) {
        seq!['\\', 'u', '0', '0', hex_char(c as u32 / 16), hex_char(c as u32 % 16)]
    } else {
        seq![c]
    }
}

/// The body of the JSON string that denotes `text`.
pub open spec fn escaped(text: Seq<char>) -> Seq<char>
    decreases text.len(),
{
    if text.len() == 0 {
        Seq::empty()
    } else {
        escaped_char(text[0]) + escaped(text.drop_first())
    }
}

/// The JSON string that denotes `text`.
pub open spec fn quoted(text: Seq<char>) -> Seq<char> {
    seq!['"'] + escaped(text) + seq!['"']
}

/// Reading an escaped character gives back that character.
proof fn escaped_char_round_trip(c: char, rest: Seq<char>)
    requires
        string_value(rest) is Some,
    ensures
        string_value(escaped_char(c) + rest) == prepend(c, string_value(rest)),
{
    let head = escaped_char(c);
    let body = head + rest;
    assert(body.skip(head.len() as int) =~= rest);
    assert forall|i: int| 0 <= i < head.len() implies body[i] == head[i] by {}
    if c == '"' || c == '\\' || c == '\u{8}' || c == '\t' || c == '\n' || c == '\u{c}' || c
        == '\r' {
        assert(head.len() == 2);
        assert(body[0] == '\\');
        assert(escape_of(body) == Escape::Char(c));
    } else if is_control(c) {
        let code = c as u32;
        assert(head.len() == 6);
        assert(code / 16 < 2 && code % 16 < 16);
        assert(body[0] == '\\' && body[1] == 'u' && body[2] == '0' && body[3] == '0');
        assert(hex_digit(body[4]) == Some((code / 16) as u16));
        assert(hex_digit(body[5]) == Some((code % 16) as u16));
        assert(hex_unit(body) == code);
        assert(escape_of(body) == Escape::Unit(code as u16));
        assert((code as u16) as char == c);
    } else {
        assert(head.len() == 1);
        assert(body[0] == c);
    }
}

/// Reading a JSON string gives back the text that it was written for.
pub proof fn escaped_round_trip(text: Seq<char>)
    ensures
        string_value(escaped(text)) == Some(text),
    decreases text.len(),
{
    if text.len() > 0 {
        escaped_round_trip(text.drop_first());
        escaped_char_round_trip(text[0], escaped(text.drop_first()));
        assert(seq![text[0]] + text.drop_first() =~= text);
    } else {
        assert(text =~= Seq::<char>::empty());
    }
}

/// All of `text` is JSON whitespace.
pub open spec fn is_blank(text: Seq<char>) -> bool {
    forall|i: int| 0 <= i < text.len() ==> is_whitespace(#[trigger] text[i])
}

/// The parts of a JSON object text with one string member that the member's
/// name does not fix.
pub struct MemberLayout {
    /// Whitespace before the opening brace.
    pub lead: Seq<char>,
    /// Whitespace before the member's name.
    pub before_name: Seq<char>,
    /// Whitespace before the colon.
    pub before_colon: Seq<char>,
    /// Whitespace before the member's value.
    pub before_value: Seq<char>,
    /// The body of the string that is the member's value.
    pub body: Seq<char>,
    /// Whitespace before the closing brace.
    pub before_end: Seq<char>,
    /// Whitespace after the closing brace.
    pub trail: Seq<char>,
}

impl MemberLayout {
    /// Only whitespace stands between the tokens.
    pub open spec fn is_spaced(self) -> bool {
        &&& is_blank(self.lead)
        &&& is_blank(self.before_name)
        &&& is_blank(self.before_colon)
        &&& is_blank(self.before_value)
        &&& is_blank(self.before_end)
        &&& is_blank(self.trail)
    }

    /// The text up to and with the opening quote of the value.
    pub open spec fn opening(self, name: Seq<char>) -> Seq<char> {
        self.lead + seq!['{'] + self.before_name + seq!['"'] + name + seq!['"']
            + self.before_colon + seq![':'] + self.before_value + seq!['"']
    }

    /// The text after the value's body.
    pub open spec fn closing(self) -> Seq<char> {
        seq!['"'] + self.before_end + seq!['}'] + self.trail
    }

    /// The whole text.
    pub open spec fn text(self, name: Seq<char>) -> Seq<char> {
        self.opening(name) + self.body + self.closing()
    }
}

/// A member name that JSON spells as it is: lowercase letters.
pub open spec fn is_plain_name(name: Seq<char>) -> bool {
    forall|i: int| 0 <= i < name.len() ==> 'a' <= #[trigger] name[i] <= 'z'
}

/// A plain name is spelled as it is.
pub proof fn escaped_plain(name: Seq<char>)
    requires
        is_plain_name(name),
    ensures
        escaped(name) == name,
    decreases name.len(),
{
    if name.len() > 0 {
        let rest = name.drop_first();
        assert forall|i: int| 0 <= i < rest.len() implies 'a' <= #[trigger] rest[i] <= 'z' by {
            assert(rest[i] == name[i + 1]);
        }
        escaped_plain(rest);
        assert(escaped_char(name[0]) =~= seq![name[0]]);
        assert(seq![name[0]] + rest =~= name);
    } else {
        assert(name =~= Seq::<char>::empty());
    }
}

/// `text` is a JSON object with the single member `name`, whose value is the
/// string `value`.
pub open spec fn is_member_text(text: Seq<char>, name: Seq<char>, value: Seq<char>) -> bool {
    &&& is_plain_name(name)
    &&& exists|layout: MemberLayout|
        layout.is_spaced() && text == #[trigger] layout.text(name) && string_value(layout.body)
            == Some(value)
}

} // verus!
