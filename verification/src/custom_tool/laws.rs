//! What holds of decoded custom tool inputs, whatever the arguments are.

use vstd::prelude::*;

use super::decoder::{flushed, prefix_from, prefix_of, prefix_step, DecoderModel};
use super::{input_of, INPUT};
use crate::json::laws::{code, digit_value, escape_code, short_escapes_stand_for_their_character};
use crate::json::string::{escape_of, hex_digit, MemberLayout};
use crate::json::Json;

verus! {

/// Whether arguments read as an object whose only member is `input`, under the
/// name `input`.
pub open spec fn wraps(read: Option<Json>, input: Seq<char>) -> bool {
    read == Some(Json::Object(seq![(INPUT@, Json::String(input))]))
}

/// The input is unwrapped from an object whose only member is a string under
/// `input`. Any other arguments are passed on verbatim, whatever they read as.
pub proof fn other_arguments_are_passed_on(arguments: Seq<char>, read: Option<Json>)
    ensures
        forall|input: Seq<char>| #[trigger] wraps(read, input) ==> input_of(arguments, read)
            == input,
        (forall|input: Seq<char>| !#[trigger] wraps(read, input)) ==> input_of(arguments, read)
            == arguments,
{
    if let Some(Json::Object(entries)) = read {
        if entries.len() == 1 && entries[0].0 == INPUT@ {
            if let Json::String(input) = entries[0].1 {
                assert(entries =~= seq![(INPUT@, Json::String(input))]);
                assert(wraps(read, input));
            }
        }
    }
}

/// The end of a shim opening from its significant character `at` on.
spec fn opening_from(layout: MemberLayout, at: int) -> Seq<char> {
    let value = layout.before_value + seq!['"'];
    let colon = layout.before_colon + seq![':'] + value;
    if at == 0 {
        layout.opening(INPUT@)
    } else if at == 1 {
        layout.before_name + seq!['"', 'i', 'n', 'p', 'u', 't', '"'] + colon
    } else if at == 2 {
        seq!['i', 'n', 'p', 'u', 't', '"'] + colon
    } else if at == 3 {
        seq!['n', 'p', 'u', 't', '"'] + colon
    } else if at == 4 {
        seq!['p', 'u', 't', '"'] + colon
    } else if at == 5 {
        seq!['u', 't', '"'] + colon
    } else if at == 6 {
        seq!['t', '"'] + colon
    } else if at == 7 {
        seq!['"'] + colon
    } else if at == 8 {
        colon
    } else if at == 9 {
        value
    } else {
        Seq::empty()
    }
}

/// The layout of a complete shim opening.
proof fn complete_prefix_is_opening(text: Seq<char>, at: int, used: nat) -> (layout: MemberLayout)
    requires
        0 <= at <= 10,
        prefix_from(text, at, used) is Complete,
        used + text.len() <= usize::MAX,
    ensures
        layout.is_spaced(),
        ({
            let len = prefix_from(text, at, used)->Complete_0 - used;
            0 <= len <= text.len() && text.take(len) == opening_from(layout, at)
        }),
    decreases text.len(),
{
    reveal_strlit("input");
    let none = Seq::<char>::empty();
    if at == 10 {
        let layout = MemberLayout {
            lead: none,
            before_name: none,
            before_colon: none,
            before_value: none,
            body: none,
            before_end: none,
            trail: none,
        };
        assert(text.take(0) =~= opening_from(layout, at));
        layout
    } else {
        let c = text[0];
        let rest = text.drop_first();
        let next = prefix_step(at, c)->0;
        let inner = complete_prefix_is_opening(rest, next, used + 1);
        let len = prefix_from(text, at, used)->Complete_0 - used;
        assert(text.take(len) =~= seq![c] + rest.take(len - 1));
        if next == at + 1 {
            let layout = if at == 0 {
                MemberLayout { lead: none, ..inner }
            } else if at == 1 {
                MemberLayout { before_name: none, ..inner }
            } else if at == 8 {
                MemberLayout { before_colon: none, ..inner }
            } else if at == 9 {
                MemberLayout { before_value: none, ..inner }
            } else {
                inner
            };
            assert(seq![c] + opening_from(inner, at + 1) =~= opening_from(layout, at));
            layout
        } else {
            let layout = if at == 0 {
                MemberLayout { lead: seq![c] + inner.lead, ..inner }
            } else if at == 1 {
                MemberLayout { before_name: seq![c] + inner.before_name, ..inner }
            } else if at == 8 {
                MemberLayout { before_colon: seq![c] + inner.before_colon, ..inner }
            } else {
                MemberLayout { before_value: seq![c] + inner.before_value, ..inner }
            };
            assert(seq![c] + opening_from(inner, at) =~= opening_from(layout, at));
            layout
        }
    }
}

/// Nothing is decoded of arguments that do not open like a shim: where any input
/// became known, or is being decoded, the arguments start with an object whose
/// first member `input` opens a string, with nothing but whitespace between.
pub proof fn only_shim_arguments_are_decoded(arguments: Seq<char>)
    requires
        arguments.len() <= usize::MAX,
        ({
            let (last, input) = DecoderModel::start().run(arguments);
            input.len() > 0 || last.state is Value
        }),
    ensures
        exists|layout: MemberLayout|
            layout.is_spaced() && (#[trigger] layout.opening(INPUT@)).is_prefix_of(arguments),
{
    let start = DecoderModel::start();
    assert(start.pending + arguments =~= arguments);
    start.run_prefix(arguments);
    let layout = complete_prefix_is_opening(arguments, 0, 0);
    let len = prefix_of(arguments)->Complete_0 as int;
    assert(arguments.take(len) == layout.opening(INPUT@));
    assert(layout.opening(INPUT@) =~= arguments.take(layout.opening(INPUT@).len() as int));
}

/// A decoder of a string value between two escapes.
pub open spec fn is_between_escapes(model: DecoderModel) -> bool {
    model.state is Value && model.pending.len() == 0
}

/// Text without quotes and escapes is decoded verbatim, as it arrives, whatever
/// characters it holds.
pub proof fn plain_text_is_decoded_verbatim(model: DecoderModel, text: Seq<char>)
    requires
        is_between_escapes(model),
        model.high is None,
        forall|i: int| 0 <= i < text.len() ==> #[trigger] text[i] != '"' && text[i] != '\\',
    ensures
        model.run(text) == (model, text),
    decreases text.len(),
{
    if text.len() > 0 {
        let rest = text.drop_first();
        assert(text[0] != '"' && text[0] != '\\');
        assert forall|i: int| 0 <= i < rest.len() implies #[trigger] rest[i] != '"' && rest[i]
            != '\\' by {
            assert(rest[i] == text[i + 1]);
        }
        plain_text_is_decoded_verbatim(model, rest);
        assert(model.step(text[0]).1 =~= seq![text[0]]);
        assert(model.step(text[0]).0 == model);
        assert(seq![text[0]] + rest =~= text);
    }
}

/// A high surrogate whose low half does not follow becomes a replacement
/// character, in front of what does follow.
pub proof fn lone_high_surrogate_is_replaced(model: DecoderModel, c: char)
    requires
        is_between_escapes(model),
        model.high is Some,
        c != '"',
        c != '\\',
    ensures
        model.step(c).1 == seq!['\u{fffd}', c],
        model.step(c).0.high is None,
        is_between_escapes(model.step(c).0),
{
    assert(model.step(c).1 =~= seq!['\u{fffd}', c]);
}

/// The closing quote ends the input: nothing after it is decoded. A high
/// surrogate in front of it is replaced.
pub proof fn closing_quote_ends_the_input(model: DecoderModel, rest: Seq<char>)
    requires
        is_between_escapes(model),
    ensures
        model.run(seq!['"'] + rest).0.state is Stopped,
        model.high is None ==> model.run(seq!['"'] + rest).1.len() == 0,
        model.high is Some ==> model.run(seq!['"'] + rest).1 == seq!['\u{fffd}'],
{
    let text = seq!['"'] + rest;
    let next = model.step('"').0;
    assert(text.drop_first() =~= rest);
    next.run_stopped(rest);
    assert(model.run(text).1 =~= flushed(model.high));
}

/// An escape that JSON does not know ends the input: nothing from it on is
/// decoded, and what was decoded before it stands. A high surrogate in front of
/// it is replaced.
pub proof fn unknown_escape_ends_the_input(model: DecoderModel, kind: char, rest: Seq<char>)
    requires
        is_between_escapes(model),
        !seq!['"', '\\', '/', 'b', 'f', 'n', 'r', 't', 'u'].contains(kind),
    ensures
        model.run(seq!['\\', kind] + rest).0.state is Stopped,
        model.high is None ==> model.run(seq!['\\', kind] + rest).1.len() == 0,
        model.high is Some ==> model.run(seq!['\\', kind] + rest).1 == seq!['\u{fffd}'],
{
    let kinds = seq!['"', '\\', '/', 'b', 'f', 'n', 'r', 't', 'u'];
    assert(kinds[0] != kind && kinds[1] != kind && kinds[2] != kind && kinds[3] != kind);
    assert(kinds[4] != kind && kinds[5] != kind && kinds[6] != kind && kinds[7] != kind);
    assert(kinds[8] != kind);
    let text = seq!['\\', kind] + rest;
    let tail = seq![kind] + rest;
    let escaping = model.step('\\').0;
    let next = escaping.step(kind).0;
    assert(text.drop_first() =~= tail);
    assert(tail.drop_first() =~= rest);
    assert(escaping.pending.push(kind) =~= seq!['\\', kind]);
    assert(escape_of(seq!['\\', kind]) is Invalid);
    next.run_stopped(rest);
    assert(escaping.run(tail).1 =~= flushed(model.high));
    assert(model.run(text).1 =~= flushed(model.high));
}

/// An escaped character is decoded to that character. A high surrogate in front
/// of it is replaced first.
pub proof fn escaped_character_is_decoded(model: DecoderModel, kind: char)
    requires
        is_between_escapes(model),
        escape_code(kind) >= 0,
    ensures
        ({
            let (next, decoded) = model.run(seq!['\\', kind]);
            &&& is_between_escapes(next)
            &&& next.high is None
            &&& model.high is None ==> decoded.len() == 1 && code(decoded[0]) == escape_code(kind)
            &&& model.high is Some ==> decoded.len() == 2 && decoded[0] == '\u{fffd}' && code(
                decoded[1],
            ) == escape_code(kind)
        }),
{
    reveal_with_fuel(DecoderModel::run, 3);
    let text = seq!['\\', kind];
    let escaping = model.step('\\').0;
    assert(text.drop_first() =~= seq![kind]);
    assert(seq![kind].drop_first() =~= Seq::<char>::empty());
    assert(escaping.pending.push(kind) =~= text);
    short_escapes_stand_for_their_character(kind, Seq::empty());
    assert(text + Seq::<char>::empty() =~= text);
    assert(model.run(text).1 =~= flushed(model.high).push(escape_of(text)->Char_0));
}

/// A unit escape with a character that is no hexadecimal digit ends the input
/// at that character.
pub proof fn broken_unit_escape_ends_the_input(model: DecoderModel, c: char)
    requires
        model.state is Value,
        2 <= model.pending.len() < 6,
        model.pending[1] == 'u',
        digit_value(c) < 0,
    ensures
        model.step(c).0.state is Stopped,
        model.high is None ==> model.step(c).1.len() == 0,
        model.high is Some ==> model.step(c).1 == seq!['\u{fffd}'],
{
    let pending = model.pending.push(c);
    let last = pending.len() - 1;
    assert(pending[1] == 'u');
    assert(pending[last] == c);
    assert(hex_digit(pending[last]) is None);
    assert(escape_of(pending) is Invalid);
}

} // verus!
