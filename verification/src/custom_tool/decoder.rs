//! Incremental decoder of a custom tool's raw input from streamed arguments.

use vstd::prelude::*;
use vstd::utf8::is_scalar;

use crate::custom_tool::INPUT;
use crate::json::string::{
    escape_of, hex_char, hex_digit, hex_len, hex_unit, is_blank, is_high, is_low, is_whitespace,
    pair_char, string_value, Escape, MemberLayout,
};
use crate::text::encode_utf8_len;

verus! {

/// Progress of an [`InputDecoder`] through the shim arguments.
#[derive(Debug, Clone, Copy, PartialEq, Eq, Structural)]
pub enum DecoderState {
    /// Matching the shim prefix up to the opening quote of the value.
    Prefix,
    /// Decoding the string value.
    Value,
    /// The value ended or the arguments departed from the shim shape.
    Stopped,
}

/// How far a text gets through the shim prefix `{"input": "`.
#[derive(Debug, Clone, Copy, PartialEq, Eq, Structural)]
pub enum PrefixMatch {
    /// The prefix is complete and spans this many bytes.
    Complete(usize),
    /// The text so far is a proper prefix of the shim prefix.
    Partial,
    /// The text departs from the shim prefix.
    Mismatch,
}

/// The significant characters of the shim prefix, in order.
pub open spec fn prefix_chars() -> Seq<char> {
    seq!['{', '"', 'i', 'n', 'p', 'u', 't', '"', ':', '"']
}

/// Whether whitespace may precede the significant character at `at`: between
/// tokens, but not inside the quoted member name.
pub open spec fn whitespace_before(at: int) -> bool {
    at == 0 || at == 1 || at == 8 || at == 9
}

/// Number of significant prefix characters matched after one more character,
/// or `None` when the character departs from the prefix.
pub open spec fn prefix_step(at: int, c: char) -> Option<int> {
    if c == prefix_chars()[at] {
        Some(at + 1)
    } else if whitespace_before(at) && is_whitespace(c) {
        Some(at)
    } else {
        None
    }
}

/// Match `text` against the shim prefix from its significant character `at`
/// on, having consumed `used` characters before.
pub open spec fn prefix_from(text: Seq<char>, at: int, used: nat) -> PrefixMatch
    decreases text.len(),
{
    if at >= 10 {
        PrefixMatch::Complete(used as usize)
    } else if text.len() == 0 {
        PrefixMatch::Partial
    } else {
        match prefix_step(at, text[0]) {
            Some(next) => prefix_from(text.drop_first(), next, used + 1),
            None => PrefixMatch::Mismatch,
        }
    }
}

/// Match `text` against the shim prefix.
pub open spec fn prefix_of(text: Seq<char>) -> PrefixMatch {
    prefix_from(text, 0, 0)
}

/// Abstract state of an [`InputDecoder`].
pub struct DecoderModel {
    /// Progress through the arguments.
    pub state: DecoderState,
    /// Arguments text not decoded yet: an incomplete prefix or escape.
    pub pending: Seq<char>,
    /// A decoded high surrogate waiting for its low half.
    pub high: Option<u16>,
}

/// What a held-back high surrogate turns into when its low half does not
/// follow.
pub open spec fn flushed(high: Option<u16>) -> Seq<char> {
    match high {
        Some(_) => seq!['\u{fffd}'],
        None => Seq::empty(),
    }
}

impl DecoderModel {
    /// The state before the first character.
    pub open spec fn start() -> DecoderModel {
        DecoderModel { state: DecoderState::Prefix, pending: Seq::empty(), high: None }
    }

    /// What every reachable state satisfies.
    pub open spec fn wf(self) -> bool {
        &&& self.state is Prefix ==> self.high is None && prefix_of(self.pending) is Partial
        &&& self.state is Value ==> self.pending.len() > 0 ==> self.pending[0] == '\\'
            && escape_of(self.pending) is Incomplete
        &&& self.state is Stopped ==> self.pending.len() == 0 && self.high is None
        &&& self.high matches Some(unit) ==> is_high(unit)
    }

    /// The state after decoding has stopped.
    pub open spec fn stopped(self) -> DecoderModel {
        DecoderModel { state: DecoderState::Stopped, pending: Seq::empty(), high: self.high }
    }

    /// Decode one UTF-16 code unit.
    pub open spec fn unit(self, unit: u16) -> (DecoderModel, Seq<char>) {
        if is_high(unit) {
            (DecoderModel { high: Some(unit), ..self }, flushed(self.high))
        } else if is_low(unit) {
            (
                DecoderModel { high: None, ..self },
                match self.high {
                    Some(high) => seq![pair_char(high, unit)],
                    None => seq!['\u{fffd}'],
                },
            )
        } else {
            (DecoderModel { high: None, ..self }, flushed(self.high).push(unit as char))
        }
    }

    /// Decode one character of the arguments: the next state, and the input
    /// text that became known.
    pub open spec fn step(self, c: char) -> (DecoderModel, Seq<char>) {
        match self.state {
            DecoderState::Stopped => (self, Seq::empty()),
            DecoderState::Prefix => {
                let pending = self.pending.push(c);
                match prefix_of(pending) {
                    PrefixMatch::Complete(_) => (
                        DecoderModel { state: DecoderState::Value, pending: Seq::empty(), ..self },
                        Seq::empty(),
                    ),
                    PrefixMatch::Partial => (DecoderModel { pending, ..self }, Seq::empty()),
                    PrefixMatch::Mismatch => (self.stopped(), Seq::empty()),
                }
            },
            DecoderState::Value => if self.pending.len() == 0 {
                if c == '"' {
                    (DecoderModel { high: None, ..self.stopped() }, flushed(self.high))
                } else if c == '\\' {
                    (DecoderModel { pending: seq![c], ..self }, Seq::empty())
                } else {
                    (DecoderModel { high: None, ..self }, flushed(self.high).push(c))
                }
            } else {
                let pending = self.pending.push(c);
                match escape_of(pending) {
                    Escape::Char(decoded) => (
                        DecoderModel { pending: Seq::empty(), high: None, ..self },
                        flushed(self.high).push(decoded),
                    ),
                    Escape::Unit(unit) => DecoderModel { pending: Seq::empty(), ..self }.unit(unit),
                    Escape::Incomplete => (DecoderModel { pending, ..self }, Seq::empty()),
                    Escape::Invalid => (
                        DecoderModel { high: None, ..self.stopped() },
                        flushed(self.high),
                    ),
                }
            },
        }
    }

    /// Decode a run of characters: the state reached, and all the input text
    /// that became known on the way.
    pub open spec fn run(self, text: Seq<char>) -> (DecoderModel, Seq<char>)
        decreases text.len(),
    {
        if text.len() == 0 {
            (self, Seq::empty())
        } else {
            let (next, head) = self.step(text[0]);
            let (last, tail) = next.run(text.drop_first());
            (last, head + tail)
        }
    }
}

/// Once the prefix is complete or departed from, more text changes nothing.
pub proof fn prefix_settled(text: Seq<char>, more: Seq<char>, at: int, used: nat)
    requires
        0 <= at,
    ensures
        !(prefix_from(text, at, used) is Partial) ==> prefix_from(text + more, at, used)
            == prefix_from(text, at, used),
    decreases text.len(),
{
    if at < 10 && text.len() > 0 {
        assert((text + more).drop_first() =~= text.drop_first() + more);
        if let Some(next) = prefix_step(at, text[0]) {
            prefix_settled(text.drop_first(), more, next, used + 1);
        }
    }
}

/// Dropping the last character of a complete prefix leaves a proper one, and
/// the complete prefix spans exactly the text before that point.
pub proof fn prefix_span(text: Seq<char>, c: char, at: int, used: nat)
    requires
        0 <= at,
        prefix_from(text, at, used) is Partial,
        used + text.len() + 1 <= usize::MAX,
    ensures
        prefix_from(text.push(c), at, used) matches PrefixMatch::Complete(len) ==> len == used
            + text.len() + 1,
    decreases text.len(),
{
    reveal_with_fuel(prefix_from, 2);
    if text.len() > 0 {
        assert(text.push(c).drop_first() =~= text.drop_first().push(c));
        if let Some(next) = prefix_step(at, text[0]) {
            prefix_span(text.drop_first(), c, next, used + 1);
        }
    } else {
        assert(text.push(c).drop_first() =~= Seq::<char>::empty());
    }
}

impl DecoderModel {
    /// Decoding a text in two pieces gives what decoding it whole gives.
    pub proof fn run_concat(self, first: Seq<char>, second: Seq<char>)
        ensures
            self.run(first + second) == ({
                let (middle, head) = self.run(first);
                let (last, tail) = middle.run(second);
                (last, head + tail)
            }),
        decreases first.len(),
    {
        if first.len() == 0 {
            assert(first + second =~= second);
            assert(Seq::<char>::empty() + self.run(second).1 =~= self.run(second).1);
        } else {
            assert((first + second).drop_first() =~= first.drop_first() + second);
            let (next, head) = self.step(first[0]);
            next.run_concat(first.drop_first(), second);
            let (middle, rest) = next.run(first.drop_first());
            let (_, tail) = middle.run(second);
            assert((head + rest) + tail =~= head + (rest + tail));
        }
    }

    /// Decoding one more character is one more step.
    pub proof fn run_push(self, text: Seq<char>, c: char)
        ensures
            self.run(text.push(c)) == ({
                let (middle, head) = self.run(text);
                let (last, tail) = middle.step(c);
                (last, head + tail)
            }),
    {
        reveal_with_fuel(DecoderModel::run, 2);
        assert(text.push(c) =~= text + seq![c]);
        self.run_concat(text, seq![c]);
        let middle = self.run(text).0;
        assert(seq![c].drop_first() =~= Seq::<char>::empty());
        assert(middle.step(c).1 + Seq::<char>::empty() =~= middle.step(c).1);
    }

    /// Every step keeps what reachable states satisfy.
    pub proof fn step_wf(self, c: char)
        requires
            self.wf(),
        ensures
            self.step(c).0.wf(),
    {
        let text = seq![c];
        assert(c == '\\' ==> escape_of(text) is Incomplete);
    }

    /// Every reachable state is well formed.
    pub proof fn run_wf(self, text: Seq<char>)
        requires
            self.wf(),
        ensures
            self.run(text).0.wf(),
        decreases text.len(),
    {
        if text.len() > 0 {
            self.step_wf(text[0]);
            self.step(text[0]).0.run_wf(text.drop_first());
        }
    }

    /// A stopped decoder stays as it is.
    pub proof fn run_stopped(self, text: Seq<char>)
        requires
            self.state is Stopped,
        ensures
            self.run(text) == (self, Seq::<char>::empty()),
        decreases text.len(),
    {
        if text.len() > 0 {
            self.run_stopped(text.drop_first());
            assert(Seq::<char>::empty() + Seq::<char>::empty() =~= Seq::<char>::empty());
        }
    }

    /// While the prefix is being matched, a run is decided by matching all the
    /// text at hand at once.
    pub proof fn run_prefix(self, text: Seq<char>)
        requires
            self.wf(),
            self.state is Prefix,
            self.pending.len() + text.len() <= usize::MAX,
        ensures
            match prefix_of(self.pending + text) {
                PrefixMatch::Complete(len) => {
                    &&& self.pending.len() < len <= self.pending.len() + text.len()
                    &&& self.run(text) == DecoderModel {
                        state: DecoderState::Value,
                        pending: Seq::empty(),
                        ..self
                    }.run((self.pending + text).skip(len as int))
                },
                PrefixMatch::Partial => self.run(text) == (
                    DecoderModel { pending: self.pending + text, ..self },
                    Seq::<char>::empty(),
                ),
                PrefixMatch::Mismatch => self.run(text) == (self.stopped(), Seq::<char>::empty()),
            },
        decreases text.len(),
    {
        if text.len() == 0 {
            assert(self.pending + text =~= self.pending);
        } else {
            let c = text[0];
            let rest = text.drop_first();
            let pending = self.pending.push(c);
            let (next, head) = self.step(c);
            let (last, tail) = next.run(rest);
            assert(pending + rest =~= self.pending + text);
            assert(head =~= Seq::<char>::empty());
            assert(head + tail =~= tail);
            prefix_settled(pending, rest, 0, 0);
            match prefix_of(pending) {
                PrefixMatch::Complete(len) => {
                    prefix_span(self.pending, c, 0, 0);
                    assert((self.pending + text).skip(len as int) =~= rest);
                },
                PrefixMatch::Partial => {
                    self.step_wf(c);
                    next.run_prefix(rest);
                },
                PrefixMatch::Mismatch => {
                    next.run_stopped(rest);
                },
            }
        }
    }
}

/// Match `{"input": "` at the start of `text`, allowing JSON whitespace
/// between tokens.
pub fn match_prefix(text: &str) -> (found: PrefixMatch)
    ensures
        found == prefix_of(text@),
{
    proof {
        encode_utf8_len(text@);
    }
    let bytes: usize = text.as_bytes().len();
    let mut at: usize = 0;
    let mut used: usize = 0;
    assert(text@.skip(0) =~= text@);
    for c in it: text.chars()
        invariant
            it.seq() == text@,
            at <= 10,
            used == it.index(),
            text@.len() <= bytes,
            prefix_of(text@) == prefix_from(text@.skip(it.index()), at as int, used as nat),
    {
        if at == 10 {
            return PrefixMatch::Complete(used);
        }
        assert(text@.skip(it.index()).drop_first() =~= text@.skip(it.index() + 1));
        if c == prefix_char(at) {
            at += 1;
        } else if !((at == 0 || at == 1 || at == 8 || at == 9) && whitespace(c)) {
            return PrefixMatch::Mismatch;
        }
        used += 1;
    }
    if at == 10 {
        PrefixMatch::Complete(used)
    } else {
        PrefixMatch::Partial
    }
}

/// Whether `c` is JSON whitespace.
fn whitespace(c: char) -> (found: bool)
    ensures
        found == is_whitespace(c),
{
    c == ' ' || c == '\t' || c == '\n' || c == '\r'
}

/// The significant prefix character at `at`.
fn prefix_char(at: usize) -> (c: char)
    requires
        at < 10,
    ensures
        c == prefix_chars()[at as int],
{
    match at {
        0 => '{',
        1 => '"',
        2 => 'i',
        3 => 'n',
        4 => 'p',
        5 => 'u',
        6 => 't',
        7 => '"',
        8 => ':',
        _ => '"',
    }
}

/// Value of one hexadecimal digit.
fn hex_value(c: char) -> (value: Option<u16>)
    ensures
        value == hex_digit(c),
        value matches Some(digit) ==> digit < 16,
{
    let code: u32 = c as u32;
    if '0' <= c && c <= '9' {
        Some((code - 48) as u16)
    } else if 'a' <= c && c <= 'f' {
        Some((code - 87) as u16)
    } else if 'A' <= c && c <= 'F' {
        Some((code - 55) as u16)
    } else {
        None
    }
}

/// Parse the escape sequence at the start of `text`, which starts with `\`.
pub fn parse_escape(text: &str) -> (found: Escape)
    requires
        text@.len() > 0,
    ensures
        found == escape_of(text@),
{
    let len: usize = text.unicode_len();
    if len < 2 {
        return Escape::Incomplete;
    }
    let kind: char = text.get_char(1);
    if kind == 'u' {
        let end: usize = if len < 6 { len } else { 6 };
        let mut unit: u16 = 0;
        let mut at: usize = 2;
        while at < end
            invariant
                2 <= at <= end <= 6,
                end == 2 + hex_len(text@),
                end <= text@.len(),
                text@[1] == 'u',
                forall|i: int| 2 <= i < at ==> hex_digit(#[trigger] text@[i]) is Some,
                at == 2 ==> unit == 0,
                at == 3 ==> unit == hex_digit(text@[2])->0 && unit < 16,
                at == 4 ==> unit == hex_digit(text@[2])->0 * 16 + hex_digit(text@[3])->0 && unit
                    < 256,
                at == 5 ==> unit == hex_digit(text@[2])->0 * 256 + hex_digit(text@[3])->0 * 16
                    + hex_digit(text@[4])->0 && unit < 4096,
                at == 6 ==> unit == hex_unit(text@),
            decreases end - at,
        {
            match hex_value(text.get_char(at)) {
                Some(digit) => {
                    unit = unit * 16 + digit;
                },
                None => {
                    assert(hex_digit(text@[at as int]) is None);
                    return Escape::Invalid;
                },
            }
            at += 1;
        }
        return if end < 6 {
            Escape::Incomplete
        } else {
            Escape::Unit(unit)
        };
    }
    let c: char = match kind {
        '"' => '"',
        '\\' => '\\',
        '/' => '/',
        'b' => '\u{8}',
        'f' => '\u{c}',
        'n' => '\n',
        'r' => '\r',
        't' => '\t',
        _ => return Escape::Invalid,
    };
    Escape::Char(c)
}

/// Incremental decoder of the raw input from streamed shim arguments.
///
/// While the arguments spell the shim prefix `{"input": "`, the decoder
/// unescapes the JSON string value as it arrives. Decoding stops at the closing
/// quote, or for good at the first character that departs from the shim shape,
/// in which case [`raw_input`](crate::custom_tool::raw_input) of the complete
/// arguments decides the final input. Text before that point is kept, with the
/// replacement character for a high surrogate still waiting for its low half.
/// Escape sequences split across deltas are held back until complete.
#[derive(Debug)]
pub struct InputDecoder {
    state: DecoderState,
    /// Arguments text not decoded yet: an incomplete prefix or escape.
    pending: String,
    /// A decoded high surrogate waiting for its low half.
    high_surrogate: Option<u16>,
}

impl View for InputDecoder {
    type V = DecoderModel;

    closed spec fn view(&self) -> DecoderModel {
        DecoderModel { state: self.state, pending: self.pending@, high: self.high_surrogate }
    }
}

impl Default for InputDecoder {
    /// A decoder before the first delta.
    fn default() -> (decoder: InputDecoder)
        ensures
            decoder@ == DecoderModel::start(),
            decoder@.wf(),
    {
        let decoder = InputDecoder {
            state: DecoderState::Prefix,
            pending: String::new(),
            high_surrogate: None,
        };
        assert(decoder@.pending =~= Seq::<char>::empty());
        decoder
    }
}

impl InputDecoder {
    /// Consume one arguments delta and return the newly decoded input text.
    pub fn push(&mut self, delta: &str) -> (decoded: String)
        requires
            old(self)@.wf(),
        ensures
            final(self)@.wf(),
            (final(self)@, decoded@) == old(self)@.run(delta@),
    {
        let ghost start = self@;
        proof {
            start.run_wf(delta@);
        }
        let mut decoded = String::new();
        assert(decoded@ =~= Seq::<char>::empty());
        if self.state == DecoderState::Stopped {
            proof {
                start.run_stopped(delta@);
            }
            return decoded;
        }
        if self.state == DecoderState::Value {
            self.decode(delta, 0, &mut decoded);
            assert(delta@.skip(0) =~= delta@);
            assert(Seq::<char>::empty() + decoded@ =~= decoded@);
            return decoded;
        }
        self.pending.append(delta);
        let bytes: usize = self.pending.as_str().as_bytes().len();
        proof {
            encode_utf8_len(self.pending@);
            assert(self.pending@.len() <= bytes);
            start.run_prefix(delta@);
        }
        match match_prefix(self.pending.as_str()) {
            PrefixMatch::Complete(len) => {
                let mut pending = String::new();
                std::mem::swap(&mut pending, &mut self.pending);
                self.state = DecoderState::Value;
                assert(self.pending@ =~= Seq::<char>::empty());
                self.decode(pending.as_str(), len, &mut decoded);
                assert(Seq::<char>::empty() + decoded@ =~= decoded@);
            },
            PrefixMatch::Partial => {},
            PrefixMatch::Mismatch => {
                self.stop();
            },
        }
        decoded
    }

    /// Decode the value text after the first `skip` characters of `text`.
    fn decode(&mut self, text: &str, skip: usize, decoded: &mut String)
        requires
            old(self)@.wf(),
            !(old(self)@.state is Prefix),
            skip <= text@.len(),
        ensures
            final(self)@ == old(self)@.run(text@.skip(skip as int)).0,
            final(decoded)@ == old(decoded)@ + old(self)@.run(text@.skip(skip as int)).1,
    {
        let ghost start = self@;
        let ghost before = decoded@;
        let ghost value = text@.skip(skip as int);
        let mut left: usize = skip;
        assert(value.take(0) =~= Seq::<char>::empty());
        assert(before + Seq::<char>::empty() =~= before);
        for c in it: text.chars()
            invariant
                it.seq() == text@,
                value == text@.skip(skip as int),
                skip <= text@.len(),
                left == (if it.index() < skip {
                    skip - it.index()
                } else {
                    0
                }),
                self@.wf(),
                !(self@.state is Prefix),
                self@ == start.run(
                    value.take(
                        if it.index() < skip {
                            0
                        } else {
                            it.index() - skip
                        },
                    ),
                ).0,
                decoded@ == before + start.run(
                    value.take(
                        if it.index() < skip {
                            0
                        } else {
                            it.index() - skip
                        },
                    ),
                ).1,
        {
            if left > 0 {
                left -= 1;
            } else {
                let ghost at = it.index() - skip;
                let ghost seen = decoded@;
                proof {
                    assert(value.take(at + 1) =~= value.take(at).push(c));
                    start.run_push(value.take(at), c);
                    self@.step_wf(c);
                }
                self.push_char(c, decoded);
                assert(decoded@ =~= before + start.run(value.take(at + 1)).1);
            }
        }
        assert(value.take(value.len() as int) =~= value);
    }

    /// Decode one character of the value text.
    fn push_char(&mut self, c: char, decoded: &mut String)
        requires
            old(self)@.wf(),
            !(old(self)@.state is Prefix),
        ensures
            final(self)@ == old(self)@.step(c).0,
            final(decoded)@ == old(decoded)@ + old(self)@.step(c).1,
            !(final(self)@.state is Prefix),
    {
        let ghost before = decoded@;
        if self.state == DecoderState::Stopped {
            assert(before + Seq::<char>::empty() =~= before);
            return;
        }
        if self.pending.as_str().is_empty() {
            if c == '"' {
                self.flush_surrogate(decoded);
                self.stop();
            } else if c == '\\' {
                self.pending.push(c);
                assert(self@.pending =~= seq![c]);
                assert(before + Seq::<char>::empty() =~= before);
            } else {
                self.flush_surrogate(decoded);
                decoded.push(c);
                assert(decoded@ =~= before + flushed(old(self)@.high).push(c));
            }
            return;
        }
        self.pending.push(c);
        match parse_escape(self.pending.as_str()) {
            Escape::Char(ch) => {
                self.pending = String::new();
                assert(self.pending@ =~= Seq::<char>::empty());
                self.flush_surrogate(decoded);
                decoded.push(ch);
                assert(decoded@ =~= before + flushed(old(self)@.high).push(ch));
            },
            Escape::Unit(unit) => {
                self.pending = String::new();
                assert(self.pending@ =~= Seq::<char>::empty());
                self.push_unit(unit, decoded);
            },
            Escape::Incomplete => {
                assert(before + Seq::<char>::empty() =~= before);
            },
            Escape::Invalid => {
                self.flush_surrogate(decoded);
                self.stop();
            },
        }
    }

    /// Stop decoding for good.
    fn stop(&mut self)
        ensures
            final(self)@ == old(self)@.stopped(),
    {
        self.state = DecoderState::Stopped;
        self.pending = String::new();
        assert(self.pending@ =~= Seq::<char>::empty());
    }

    /// Decode one UTF-16 code unit, pairing surrogates across escapes.
    pub fn push_unit(&mut self, unit: u16, decoded: &mut String)
        requires
            old(self)@.high matches Some(high) ==> is_high(high),
        ensures
            final(self)@.high matches Some(high) ==> is_high(high),
            final(self)@ == old(self)@.unit(unit).0,
            final(decoded)@ == old(decoded)@ + old(self)@.unit(unit).1,
    {
        let ghost before = decoded@;
        if 0xD800 <= unit && unit <= 0xDBFF {
            self.flush_surrogate(decoded);
            self.high_surrogate = Some(unit);
        } else if 0xDC00 <= unit && unit <= 0xDFFF {
            match self.high_surrogate.take() {
                Some(high) => {
                    let code: u32 = 0x10000 + (high as u32 - 0xD800) * 0x400 + (unit as u32
                        - 0xDC00);
                    match char::from_u32(code) {
                        Some(c) => {
                            decoded.push(c);
                            assert(decoded@ =~= before + seq![pair_char(high, unit)]);
                        },
                        None => {
                            assert(is_scalar(code));
                        },
                    }
                },
                None => {
                    decoded.push('\u{fffd}');
                    assert(decoded@ =~= before + seq!['\u{fffd}']);
                },
            }
        } else {
            self.flush_surrogate(decoded);
            match char::from_u32(unit as u32) {
                Some(c) => {
                    decoded.push(c);
                    assert(decoded@ =~= before + flushed(old(self)@.high).push(unit as char));
                },
                None => {
                    assert(is_scalar(unit as u32));
                },
            }
        }
    }

    /// Emit a high surrogate that was not followed by its low half.
    fn flush_surrogate(&mut self, decoded: &mut String)
        ensures
            final(self)@ == (DecoderModel { high: None, ..old(self)@ }),
            final(decoded)@ == old(decoded)@ + flushed(old(self)@.high),
    {
        let ghost before = decoded@;
        if self.high_surrogate.take().is_some() {
            decoded.push('\u{fffd}');
            assert(decoded@ =~= before + seq!['\u{fffd}']);
        } else {
            assert(before + Seq::<char>::empty() =~= before);
        }
    }
}

/// Whitespace between tokens does not advance the prefix.
proof fn prefix_blank(blank: Seq<char>, rest: Seq<char>, at: int, used: nat)
    requires
        is_blank(blank),
        0 <= at < 10,
        whitespace_before(at),
    ensures
        prefix_from(blank + rest, at, used) == prefix_from(rest, at, used + blank.len()),
    decreases blank.len(),
{
    if blank.len() == 0 {
        assert(blank + rest =~= rest);
    } else {
        let tail = blank.drop_first();
        assert((blank + rest).drop_first() =~= tail + rest);
        assert(is_whitespace(blank[0]));
        assert forall|i: int| 0 <= i < tail.len() implies is_whitespace(#[trigger] tail[i]) by {
            assert(tail[i] == blank[i + 1]);
        }
        prefix_blank(tail, rest, at, used + 1);
    }
}

/// The significant character at hand advances the prefix.
proof fn prefix_advance(rest: Seq<char>, at: int, used: nat)
    requires
        0 <= at < 10,
    ensures
        prefix_from(seq![prefix_chars()[at]] + rest, at, used) == prefix_from(
            rest,
            at + 1,
            used + 1,
        ),
{
    let text = seq![prefix_chars()[at]] + rest;
    assert(text.drop_first() =~= rest);
}

/// The opening of shim arguments is a complete prefix, however it is spaced.
proof fn prefix_opening(layout: MemberLayout)
    requires
        layout.is_spaced(),
        layout.opening(INPUT@).len() <= usize::MAX,
    ensures
        prefix_of(layout.opening(INPUT@)) == PrefixMatch::Complete(
            layout.opening(INPUT@).len() as usize,
        ),
{
    reveal_strlit("input");
    let none = Seq::<char>::empty();
    let chars = prefix_chars();
    let r9 = seq![chars[9]] + none;
    let r8 = seq![chars[8]] + (layout.before_value + r9);
    let r7 = seq![chars[7]] + (layout.before_colon + r8);
    let r6 = seq![chars[6]] + r7;
    let r5 = seq![chars[5]] + r6;
    let r4 = seq![chars[4]] + r5;
    let r3 = seq![chars[3]] + r4;
    let r2 = seq![chars[2]] + r3;
    let r1 = seq![chars[1]] + r2;
    let r0 = seq![chars[0]] + (layout.before_name + r1);
    assert(layout.opening(INPUT@) =~= layout.lead + r0);
    let u0 = layout.lead.len();
    let u1 = u0 + 1 + layout.before_name.len();
    let u8 = u1 + 7 + layout.before_colon.len();
    let u9 = u8 + 1 + layout.before_value.len();
    prefix_blank(layout.lead, r0, 0, 0);
    prefix_advance(layout.before_name + r1, 0, u0);
    prefix_blank(layout.before_name, r1, 1, u0 + 1);
    prefix_advance(r2, 1, u1);
    prefix_advance(r3, 2, u1 + 1);
    prefix_advance(r4, 3, u1 + 2);
    prefix_advance(r5, 4, u1 + 3);
    prefix_advance(r6, 5, u1 + 4);
    prefix_advance(r7, 6, u1 + 5);
    prefix_advance(layout.before_colon + r8, 7, u1 + 6);
    prefix_blank(layout.before_colon, r8, 8, u1 + 7);
    prefix_advance(layout.before_value + r9, 8, u8);
    prefix_blank(layout.before_value, r9, 9, u8 + 1);
    prefix_advance(none, 9, u9);
}

impl DecoderModel {
    /// The state in which the value is being decoded and nothing is held back.
    pub open spec fn in_value() -> DecoderModel {
        DecoderModel { state: DecoderState::Value, pending: Seq::empty(), high: None }
    }

    /// An escape is held back until its last character.
    proof fn run_held(self, more: Seq<char>)
        requires
            self.state is Value,
            self.pending.len() > 0,
            more.len() > 0,
            forall|k: int|
                0 <= k < more.len() ==> escape_of(#[trigger] (self.pending + more.take(k)))
                    is Incomplete,
        ensures
            self.run(more) == (DecoderModel { pending: self.pending + more.drop_last(), ..self }).step(
                more.last(),
            ),
        decreases more.len(),
    {
        let (next, head) = self.step(more[0]);
        let rest = more.drop_first();
        if rest.len() == 0 {
            assert(more.drop_last() =~= Seq::<char>::empty());
            assert(self.pending + more.drop_last() =~= self.pending);
            assert(head + Seq::<char>::empty() =~= head);
            assert(next.run(rest) == (next, Seq::<char>::empty()));
        } else {
            assert(self.pending + more.take(1) =~= self.pending.push(more[0]));
            assert(escape_of(self.pending + more.take(1)) is Incomplete);
            assert forall|k: int| 0 <= k < rest.len() implies escape_of(
                #[trigger] (next.pending + rest.take(k)),
            ) is Incomplete by {
                assert(next.pending + rest.take(k) =~= self.pending + more.take(k + 1));
            }
            next.run_held(rest);
            assert(next.pending + rest.drop_last() =~= self.pending + more.drop_last());
            let tail = next.run(rest).1;
            assert(head + tail =~= tail);
        }
    }

    /// A whole escape at the start of `body`, `len` characters long, decodes
    /// at once.
    proof fn run_escape(self, body: Seq<char>, len: int)
        requires
            self.state is Value,
            self.pending.len() == 0,
            body.len() > 0,
            body[0] == '\\',
            escape_of(body) is Char && len == 2 || escape_of(body) is Unit && len == 6,
        ensures
            len <= body.len(),
            match escape_of(body) {
                Escape::Char(c) => self.run(body.take(len)) == (
                    DecoderModel { high: None, ..self },
                    flushed(self.high).push(c),
                ),
                Escape::Unit(unit) => self.run(body.take(len)) == self.unit(unit),
                _ => true,
            },
    {
        let text = body.take(len);
        let held = DecoderModel { pending: seq![body[0]], ..self };
        let more = text.drop_first();
        assert forall|k: int| 0 <= k < more.len() implies escape_of(
            #[trigger] (held.pending + more.take(k)),
        ) is Incomplete by {
            let part = held.pending + more.take(k);
            assert(part =~= body.take(k + 1));
            if part.len() >= 2 {
                assert(part[1] == body[1]);
                assert forall|i: int| 2 <= i < 2 + hex_len(part) implies hex_digit(
                    #[trigger] part[i],
                ) is Some by {
                    assert(part[i] == body[i]);
                }
            }
        }
        held.run_held(more);
        assert(held.pending + more.drop_last() =~= text.drop_last());
        assert(text.drop_last().push(more.last()) =~= text);
        assert(self.step(text[0]) == (held, Seq::<char>::empty()));
        let tail = held.run(more).1;
        assert(Seq::<char>::empty() + tail =~= tail);
        assert(escape_of(text) == escape_of(body)) by {
            assert(text[1] == body[1]);
            if escape_of(body) is Unit {
                assert(hex_len(text) == 4 && hex_len(body) == 4);
                assert forall|i: int| 2 <= i < 6 implies hex_digit(#[trigger] text[i]) is Some by {
                    assert(text[i] == body[i]);
                }
            }
        }
        assert(self.pending =~= Seq::<char>::empty());
    }

    /// The value of a JSON string is what decoding its body streams.
    pub proof fn run_string(body: Seq<char>)
        requires
            string_value(body) is Some,
        ensures
            DecoderModel::in_value().run(body) == (
                DecoderModel::in_value(),
                string_value(body)->0,
            ),
        decreases body.len(),
    {
        let start = DecoderModel::in_value();
        let none = Seq::<char>::empty();
        if body.len() > 0 {
            let (len, c) = if body[0] != '\\' {
                (1int, body[0])
            } else {
                match escape_of(body) {
                    Escape::Char(c) => (2int, c),
                    Escape::Unit(unit) => if is_high(unit) {
                        (12int, pair_char(unit, escape_of(body.skip(6))->Unit_0))
                    } else {
                        (6int, unit as char)
                    },
                    _ => (0int, body[0]),
                }
            };
            assert(start.run(body.take(len)) == (start, seq![c])) by {
                if len == 1 {
                    assert(body.take(len) =~= none.push(c));
                    start.run_push(none, c);
                    assert(none.push(c) =~= seq![c]);
                    assert(none + seq![c] =~= seq![c]);
                } else if len == 2 {
                    start.run_escape(body, 2);
                    assert(none.push(c) =~= seq![c]);
                } else if len == 6 {
                    start.run_escape(body, 6);
                    assert(none.push(c) =~= seq![c]);
                } else {
                    let unit = escape_of(body)->Unit_0;
                    let rest = body.skip(6);
                    start.run_escape(body, 6);
                    let middle = DecoderModel { high: Some(unit), ..start };
                    assert(start.run(body.take(6)) == (middle, none));
                    assert(rest[0] == body[6]);
                    middle.run_escape(rest, 6);
                    assert(body.take(12) =~= body.take(6) + rest.take(6));
                    start.run_concat(body.take(6), rest.take(6));
                    assert(none + seq![c] =~= seq![c]);
                }
            }
            DecoderModel::run_string(body.skip(len));
            assert(body =~= body.take(len) + body.skip(len));
            start.run_concat(body.take(len), body.skip(len));
        }
    }

    /// Decoding complete shim arguments streams exactly the input that they
    /// wrap, however their tokens are spaced and their text is escaped.
    pub proof fn run_shim(layout: MemberLayout)
        requires
            layout.is_spaced(),
            string_value(layout.body) is Some,
            layout.text(INPUT@).len() <= usize::MAX,
        ensures
            DecoderModel::start().run(layout.text(INPUT@)).1 == string_value(layout.body)->0,
    {
        let start = DecoderModel::start();
        let value = DecoderModel::in_value();
        let none = Seq::<char>::empty();
        let opening = layout.opening(INPUT@);
        let closing = layout.closing();
        let text = string_value(layout.body)->0;
        prefix_opening(layout);
        assert(none + opening =~= opening);
        start.run_prefix(opening);
        assert(opening.skip(opening.len() as int) =~= none);
        assert(start.run(opening) == (value, none));
        DecoderModel::run_string(layout.body);
        start.run_concat(opening, layout.body);
        assert(none + text =~= text);
        start.run_concat(opening + layout.body, closing);
        let after = value.step(closing[0]).0;
        after.run_stopped(closing.drop_first());
        assert(value.run(closing).1 =~= none);
        assert(text + none =~= text);
    }
}

/// Lossy decoding of UTF-16: surrogate pairs are joined, and each surrogate
/// that is not part of a pair becomes the replacement character.
pub open spec fn lossy_utf16(units: Seq<u16>) -> Seq<char>
    decreases units.len(),
{
    if units.len() == 0 {
        Seq::empty()
    } else if is_high(units[0]) && units.len() > 1 && is_low(units[1]) {
        seq![pair_char(units[0], units[1])] + lossy_utf16(units.skip(2))
    } else if is_high(units[0]) || is_low(units[0]) {
        seq!['\u{fffd}'] + lossy_utf16(units.skip(1))
    } else {
        seq![units[0] as char] + lossy_utf16(units.skip(1))
    }
}

/// The code unit that is held back, as a sequence.
spec fn held(high: Option<u16>) -> Seq<u16> {
    match high {
        Some(unit) => seq![unit],
        None => Seq::empty(),
    }
}

/// How a code unit is spelled by a `\uXXXX` escape.
pub open spec fn unit_escape(unit: u16) -> Seq<char> {
    seq![
        '\\',
        'u',
        hex_char(unit as u32 / 4096),
        hex_char(unit as u32 / 256 % 16),
        hex_char(unit as u32 / 16 % 16),
        hex_char(unit as u32 % 16),
    ]
}

/// How code units are spelled by `\uXXXX` escapes.
pub open spec fn unit_escapes(units: Seq<u16>) -> Seq<char>
    decreases units.len(),
{
    if units.len() == 0 {
        Seq::empty()
    } else {
        unit_escape(units[0]) + unit_escapes(units.drop_first())
    }
}

/// A hexadecimal digit reads as the number that it spells.
proof fn hex_char_reads(digit: u32)
    requires
        digit < 16,
    ensures
        hex_digit(hex_char(digit)) == Some(digit as u16),
{
}

/// The escape of a code unit reads as that unit.
proof fn unit_escape_reads(unit: u16)
    ensures
        escape_of(unit_escape(unit)) == Escape::Unit(unit),
{
    let text = unit_escape(unit);
    let code = unit as u32;
    let (a, b, c, d) = (code / 4096, code / 256 % 16, code / 16 % 16, code % 16);
    assert(a < 16 && b < 16 && c < 16 && d < 16 && a * 4096 + b * 256 + c * 16 + d == code)
        by (bit_vector)
        requires
            code < 0x10000,
            a == code / 4096,
            b == code / 256 % 16,
            c == code / 16 % 16,
            d == code % 16,
    ;
    hex_char_reads(a);
    hex_char_reads(b);
    hex_char_reads(c);
    hex_char_reads(d);
    assert(text[2] == hex_char(a) && text[3] == hex_char(b));
    assert(text[4] == hex_char(c) && text[5] == hex_char(d));
}

impl DecoderModel {
    /// Decode a run of UTF-16 code units: the state reached, and all the input
    /// text that became known on the way.
    pub open spec fn run_units(self, units: Seq<u16>) -> (DecoderModel, Seq<char>)
        decreases units.len(),
    {
        if units.len() == 0 {
            (self, Seq::empty())
        } else {
            let (next, head) = self.unit(units[0]);
            let (last, tail) = next.run_units(units.drop_first());
            (last, head + tail)
        }
    }

    /// A run of code units decodes to what the unit held back and the run
    /// decode to, but for the unit that is held back at the end.
    proof fn run_units_held(self, units: Seq<u16>)
        requires
            self.high matches Some(high) ==> is_high(high),
        ensures
            ({
                let (last, decoded) = self.run_units(units);
                &&& decoded + flushed(last.high) == lossy_utf16(held(self.high) + units)
                &&& last == DecoderModel { high: last.high, ..self }
                &&& last.high == (if units.len() == 0 {
                    self.high
                } else if is_high(units.last()) {
                    Some(units.last())
                } else {
                    None
                })
            }),
        decreases units.len(),
    {
        let all = held(self.high) + units;
        let none = Seq::<u16>::empty();
        if units.len() == 0 {
            assert(all =~= held(self.high));
            if self.high is Some {
                assert(all.skip(1) =~= none);
                assert(seq!['\u{fffd}'] + lossy_utf16(none) =~= seq!['\u{fffd}']);
            }
            assert(Seq::<char>::empty() + flushed(self.high) =~= flushed(self.high));
        } else {
            let unit = units[0];
            let rest = units.drop_first();
            let (next, head) = self.unit(unit);
            next.run_units_held(rest);
            let (last, tail) = next.run_units(rest);
            let after = lossy_utf16(held(next.high) + rest);
            assert((head + tail) + flushed(last.high) =~= head + (tail + flushed(last.high)));
            assert(head + after == lossy_utf16(all)) by {
                reveal_with_fuel(lossy_utf16, 3);
                assert(none + rest =~= rest);
                assert(seq![unit] + rest =~= units);
                if self.high is Some {
                    assert(all.skip(1) =~= units);
                    assert(all.skip(2) =~= rest);
                } else {
                    assert(all =~= units);
                }
                assert(units.skip(1) =~= rest);
                if is_high(unit) {
                    assert(Seq::<char>::empty() + after =~= after);
                } else if !is_low(unit) {
                    assert(head + after =~= flushed(self.high) + (seq![unit as char] + after));
                    assert(Seq::<char>::empty() + lossy_utf16(units) =~= lossy_utf16(units));
                }
            }
        }
    }

    /// Decoding a run of UTF-16 code units is lossy UTF-16 decoding: pairs are
    /// joined, and each lone surrogate becomes the replacement character. A high
    /// surrogate at the end, and nothing else, is held back.
    pub proof fn run_units_is_lossy_utf16(self, units: Seq<u16>)
        requires
            self.high is None,
        ensures
            ({
                let (last, decoded) = self.run_units(units);
                &&& decoded + flushed(last.high) == lossy_utf16(units)
                &&& last == DecoderModel { high: last.high, ..self }
                &&& last.high == (if units.len() > 0 && is_high(units.last()) {
                    Some(units.last())
                } else {
                    None
                })
            }),
    {
        self.run_units_held(units);
        assert(Seq::<u16>::empty() + units =~= units);
    }

    /// Decoding one more code unit is one more step.
    pub proof fn run_units_push(self, units: Seq<u16>, unit: u16)
        ensures
            self.run_units(units.push(unit)) == ({
                let (middle, head) = self.run_units(units);
                let (last, tail) = middle.unit(unit);
                (last, head + tail)
            }),
        decreases units.len(),
    {
        reveal_with_fuel(DecoderModel::run_units, 2);
        let all = units.push(unit);
        let none = Seq::<char>::empty();
        if units.len() == 0 {
            assert(all.drop_first() =~= Seq::<u16>::empty());
            let (_, tail) = self.unit(unit);
            assert(tail + none =~= tail);
            assert(none + tail =~= tail);
        } else {
            assert(all.drop_first() =~= units.drop_first().push(unit));
            let (next, head) = self.unit(units[0]);
            next.run_units_push(units.drop_first(), unit);
            let (middle, rest) = next.run_units(units.drop_first());
            let (_, tail) = middle.unit(unit);
            assert((head + rest) + tail =~= head + (rest + tail));
        }
    }

    /// A run of `\uXXXX` escapes in the value decodes as the code units that it
    /// spells.
    pub proof fn run_unit_escapes(self, units: Seq<u16>)
        requires
            self.state is Value,
            self.pending.len() == 0,
        ensures
            self.run(unit_escapes(units)) == self.run_units(units),
        decreases units.len(),
    {
        if units.len() > 0 {
            let text = unit_escape(units[0]);
            let rest = unit_escapes(units.drop_first());
            unit_escape_reads(units[0]);
            self.run_escape(text, 6);
            assert(text.take(6) =~= text);
            self.run_concat(text, rest);
            self.unit(units[0]).0.run_unit_escapes(units.drop_first());
        }
    }
}

} // verus!
