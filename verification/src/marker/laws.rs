//! What holds of markers and of the streams that they are parsed from.

use vstd::prelude::*;
use vstd::utf8::{
    char_u32_cast, decode_utf8, decode_utf8_encode_utf8, encode_utf8, encode_utf8_decode_utf8,
    encode_utf8_first_scalar, encode_utf8_valid_utf8, valid_utf8_split,
};

use super::anchors::{offset_of, visible_between, AnchorsView, TokenAnchor, TokenAttribution};
use super::scan::{begins_by_text, begins_by_token, is_candidate, is_textual};
use super::search::{begins_at, ends_with_prefix, occurs_at};
use super::stream::StreamState;
use super::{
    byte_len, parts_match, spelling_extends, spelling_of, spelling_pushes, token_offset,
    MarkerError, MarkerView, PartView,
};
use crate::text::{encode_utf8_concat, encode_utf8_injective, encode_utf8_len};

verus! {

/// Whether every special token of the parts stands, as a single token, where
/// the marker's spelling puts it when it begins at byte offset `at`.
pub open spec fn is_genuine(parts: Seq<PartView>, at: int, anchors: AnchorsView) -> bool {
    forall|k: int|
        0 <= k < parts.len() ==> #[trigger] anchors.is_single(
            at + token_offset(parts, k),
            at + token_offset(parts, k) + byte_len(parts[k].spelling),
            parts[k].token_id,
        )
}

/// Offsets of the parts after the first, from where the first part ends.
proof fn token_offset_shifts(parts: Seq<PartView>, k: int)
    requires
        0 < k < parts.len(),
    ensures
        token_offset(parts, k) == byte_len(parts[0].before) + byte_len(parts[0].spelling)
            + token_offset(parts.drop_first(), k - 1),
{
    let rest = parts.drop_first();
    let inner = spelling_of(rest.take(k - 1), parts[k].before);
    assert(parts.take(k).drop_first() =~= rest.take(k - 1));
    encode_utf8_concat(parts[0].before, parts[0].spelling + inner);
    encode_utf8_concat(parts[0].spelling, inner);
}

proof fn token_offset_first(parts: Seq<PartView>)
    requires
        parts.len() > 0,
    ensures
        token_offset(parts, 0) == byte_len(parts[0].before),
{
    assert(parts.take(0) =~= Seq::<PartView>::empty());
}

proof fn genuine_rest(parts: Seq<PartView>, at: int, anchors: AnchorsView)
    requires
        parts.len() > 0,
        is_genuine(parts, at, anchors),
    ensures
        anchors.is_single(
            at + byte_len(parts[0].before),
            at + byte_len(parts[0].before) + byte_len(parts[0].spelling),
            parts[0].token_id,
        ),
        is_genuine(
            parts.drop_first(),
            at + byte_len(parts[0].before) + byte_len(parts[0].spelling),
            anchors,
        ),
{
    let rest = parts.drop_first();
    let shifted = at + byte_len(parts[0].before) + byte_len(parts[0].spelling);
    token_offset_first(parts);
    assert(anchors.is_single(
        at + token_offset(parts, 0),
        at + token_offset(parts, 0) + byte_len(parts[0].spelling),
        parts[0].token_id,
    ));
    assert forall|k: int| 0 <= k < rest.len() implies #[trigger] anchors.is_single(
        shifted + token_offset(rest, k),
        shifted + token_offset(rest, k) + byte_len(rest[k].spelling),
        rest[k].token_id,
    ) by {
        token_offset_shifts(parts, k + 1);
        assert(rest[k] == parts[k + 1]);
        assert(anchors.is_single(
            at + token_offset(parts, k + 1),
            at + token_offset(parts, k + 1) + byte_len(parts[k + 1].spelling),
            parts[k + 1].token_id,
        ));
    }
}

proof fn genuine_parts_match(
    parts: Seq<PartView>,
    tail: Seq<char>,
    after: Seq<char>,
    at: int,
    anchors: AnchorsView,
)
    requires
        is_genuine(parts, at, anchors),
    ensures
        parts_match(parts, tail, spelling_of(parts, tail) + after, at, anchors) is Ok,
    decreases parts.len(),
{
    let text = spelling_of(parts, tail) + after;
    if parts.len() == 0 {
        assert(tail =~= text.take(tail.len() as int));
    } else {
        let part = parts[0];
        let rest = parts.drop_first();
        let spelled = spelling_of(rest, tail) + after;
        let middle = text.skip(part.before.len() as int);
        genuine_rest(parts, at, anchors);
        genuine_parts_match(
            rest,
            tail,
            after,
            at + byte_len(part.before) + byte_len(part.spelling),
            anchors,
        );
        assert(part.before =~= text.take(part.before.len() as int));
        assert(middle =~= part.spelling + spelled);
        assert(part.spelling =~= middle.take(part.spelling.len() as int));
        assert(middle.skip(part.spelling.len() as int) =~= spelled);
    }
}

/// A marker is recognised wherever it stands: where the remaining text starts
/// with its full spelling, and each of its special tokens was generated as that
/// single token, it matches, whatever text follows.
pub proof fn genuine_marker_is_recognised(
    marker: MarkerView,
    state: StreamState,
    after: Seq<char>,
)
    requires
        state.text == marker.spelling() + after,
        is_genuine(marker.parts, state.at as int, state.anchors),
    ensures
        marker.matched(state) is Ok,
{
    genuine_parts_match(marker.parts, marker.tail, after, state.at as int, state.anchors);
}

/// [`genuine_marker_is_recognised`] for whatever follows the spelling.
pub proof fn recognised_where_genuine(marker: MarkerView, state: StreamState)
    ensures
        marker.spelling().is_prefix_of(state.text) && is_genuine(
            marker.parts,
            state.at as int,
            state.anchors,
        ) ==> marker.matched(state) is Ok,
{
    let spelling = marker.spelling();
    if spelling.is_prefix_of(state.text) && is_genuine(
        marker.parts,
        state.at as int,
        state.anchors,
    ) {
        let after = state.text.skip(spelling.len() as int);
        assert(state.text =~= spelling + after);
        genuine_marker_is_recognised(marker, state, after);
    }
}

/// A marker of plain text is recognised by its spelling alone, whatever text
/// follows and whatever tokens spell it.
pub proof fn text_marker_is_recognised(text: Seq<char>, state: StreamState, after: Seq<char>)
    requires
        state.text == text + after,
    ensures
        MarkerView::of_text(text).matched(state) is Ok,
{
    genuine_marker_is_recognised(MarkerView::of_text(text), state, after);
}

/// Without attribution every marker is recognised by its spelling alone,
/// whatever text follows.
pub proof fn spelling_is_recognised_without_attribution(
    marker: MarkerView,
    state: StreamState,
    after: Seq<char>,
)
    requires
        state.text == marker.spelling() + after,
        state.anchors is TextOnly,
    ensures
        marker.matched(state) is Ok,
{
    genuine_marker_is_recognised(marker, state, after);
}

proof fn match_needs_spelling(
    parts: Seq<PartView>,
    tail: Seq<char>,
    text: Seq<char>,
    at: int,
    anchors: AnchorsView,
)
    ensures
        parts_match(parts, tail, text, at, anchors) is Ok ==> spelling_of(
            parts,
            tail,
        ).is_prefix_of(text),
        parts_match(parts, tail, text, at, anchors) == Err::<(), _>(MarkerError::Incomplete) ==> {
            &&& text.is_prefix_of(spelling_of(parts, tail))
            &&& text != spelling_of(parts, tail)
        },
    decreases parts.len(),
{
    if parts.len() > 0 {
        let part = parts[0];
        let rest = spelling_of(parts.drop_first(), tail);
        let spelling = spelling_of(parts, tail);
        let middle = text.skip(part.before.len() as int);
        let after = middle.skip(part.spelling.len() as int);
        match_needs_spelling(
            parts.drop_first(),
            tail,
            after,
            at + byte_len(part.before) + byte_len(part.spelling),
            anchors,
        );
        if part.before.is_prefix_of(text) {
            assert(text =~= part.before + middle);
            if part.spelling.is_prefix_of(middle) {
                assert(middle =~= part.spelling + after);
                if rest.is_prefix_of(after) {
                    assert(spelling =~= text.take(spelling.len() as int));
                }
                if after.is_prefix_of(rest) {
                    assert(text =~= spelling.take(text.len() as int));
                    assert(after != rest ==> after.len() < rest.len()) by {
                        if after.len() == rest.len() {
                            assert(after =~= rest);
                        }
                    }
                }
            } else if middle.is_prefix_of(part.spelling) {
                assert(text =~= spelling.take(text.len() as int));
                assert(middle.len() < part.spelling.len()) by {
                    if middle.len() == part.spelling.len() {
                        assert(middle =~= part.spelling);
                    }
                }
            }
        } else if text.is_prefix_of(part.before) {
            assert(text =~= spelling.take(text.len() as int));
            assert(text.len() < part.before.len()) by {
                if text.len() == part.before.len() {
                    assert(text =~= part.before);
                }
            }
        }
    } else if text.is_prefix_of(tail) && !tail.is_prefix_of(text) {
        assert(text != tail);
    }
}

/// A marker matches only where the remaining text starts with its full
/// spelling, and asks for more input only where all of the remaining text is a
/// proper prefix of it. Text that departs from the spelling backtracks.
pub proof fn match_follows_the_text(marker: MarkerView, state: StreamState)
    ensures
        marker.matched(state) is Ok ==> marker.spelling().is_prefix_of(state.text),
        marker.matched(state) == Err::<(), _>(MarkerError::Incomplete) ==> state.text.is_prefix_of(
            marker.spelling(),
        ) && state.text != marker.spelling(),
        !marker.spelling().is_prefix_of(state.text) && !state.text.is_prefix_of(marker.spelling())
            ==> marker.matched(state) == Err::<(), _>(MarkerError::Backtrack),
{
    match_needs_spelling(marker.parts, marker.tail, state.text, state.at as int, state.anchors);
    match marker.matched(state) {
        Ok(_) => {},
        Err(MarkerError::Incomplete) => {},
        Err(MarkerError::Backtrack) => {},
    }
}

proof fn genuine_prefix_waits(
    parts: Seq<PartView>,
    tail: Seq<char>,
    text: Seq<char>,
    at: int,
    anchors: AnchorsView,
)
    requires
        text.is_prefix_of(spelling_of(parts, tail)),
        text != spelling_of(parts, tail),
        is_genuine(parts, at, anchors),
    ensures
        parts_match(parts, tail, text, at, anchors) == Err::<(), _>(MarkerError::Incomplete),
    decreases parts.len(),
{
    let spelling = spelling_of(parts, tail);
    assert(text.len() < spelling.len()) by {
        if text.len() == spelling.len() {
            assert(text =~= spelling);
        }
    }
    if parts.len() > 0 {
        let part = parts[0];
        let rest = spelling_of(parts.drop_first(), tail);
        let middle = text.skip(part.before.len() as int);
        let after = middle.skip(part.spelling.len() as int);
        genuine_rest(parts, at, anchors);
        if text.len() < part.before.len() {
            assert(text =~= part.before.take(text.len() as int));
        } else {
            assert(part.before =~= text.take(part.before.len() as int));
            if middle.len() < part.spelling.len() {
                assert(middle =~= part.spelling.take(middle.len() as int));
            } else {
                assert(part.spelling =~= middle.take(part.spelling.len() as int));
                assert(after =~= rest.take(after.len() as int));
                genuine_prefix_waits(
                    parts.drop_first(),
                    tail,
                    after,
                    at + byte_len(part.before) + byte_len(part.spelling),
                    anchors,
                );
            }
        }
    }
}

/// A genuine spelling that has arrived in part is waited for, not given up.
pub proof fn split_marker_is_waited_for(marker: MarkerView, state: StreamState)
    requires
        state.text.is_prefix_of(marker.spelling()),
        state.text != marker.spelling(),
        is_genuine(marker.parts, state.at as int, state.anchors),
    ensures
        marker.matched(state) == Err::<(), _>(MarkerError::Incomplete),
{
    genuine_prefix_waits(
        marker.parts,
        marker.tail,
        state.text,
        state.at as int,
        state.anchors,
    );
}

/// Where bytes are available at the cursor and they do not belong to the
/// special token that the marker begins with, the marker is given up at once,
/// whether or not the text looks like it so far.
pub proof fn lookalike_is_given_up_at_once(marker: MarkerView, state: StreamState)
    requires
        state.text.len() > 0,
        marker.first_token() is Some,
        !state.anchors.is_single(
            state.at as int,
            state.at as int + byte_len(marker.parts[0].spelling) as int,
            marker.first_token()->0,
        ),
    ensures
        marker.matched(state) == Err::<(), _>(MarkerError::Backtrack),
{
    let part = marker.parts[0];
    assert(part.before =~= Seq::<char>::empty());
    assert(state.text.skip(0) =~= state.text);
    assert(part.before =~= state.text.take(0));
    assert(byte_len(part.before) == 0) by {
        encode_utf8_concat(part.before, part.before);
        assert(part.before + part.before =~= part.before);
    }
}

/// The byte range and ID of each special token within a marker.
pub open spec fn guards(marker: MarkerView) -> Seq<(nat, nat, u32)> {
    Seq::new(
        marker.parts.len(),
        |k: int|
            (
                token_offset(marker.parts, k),
                byte_len(marker.parts[k].spelling),
                marker.parts[k].token_id,
            ),
    )
}

/// Building a marker appends to its spelling, and guards exactly the appended
/// special tokens, each over its own bytes.
pub proof fn markers_are_built_by_appending(
    marker: MarkerView,
    text: Seq<char>,
    token_id: u32,
)
    ensures
        MarkerView::of_text(text).spelling() == text,
        guards(MarkerView::of_text(text)).len() == 0,
        marker.with_text(text).spelling() == marker.spelling() + text,
        guards(marker.with_text(text)) == guards(marker),
        marker.with_special(text, token_id).spelling() == marker.spelling() + text,
        guards(marker.with_special(text, token_id)) == guards(marker).push(
            (byte_len(marker.spelling()), byte_len(text), token_id),
        ),
{
    let special = marker.with_special(text, token_id);
    let part = PartView { before: marker.tail, spelling: text, token_id };
    spelling_extends(marker.parts, marker.tail, text);
    spelling_pushes(marker.parts, part);
    assert(guards(marker.with_text(text)) =~= guards(marker));
    assert forall|k: int| 0 <= k < marker.parts.len() implies token_offset(special.parts, k)
        == token_offset(marker.parts, k) by {
        assert(special.parts.take(k) =~= marker.parts.take(k));
    }
    assert(special.parts.take(marker.parts.len() as int) =~= marker.parts);
    assert(guards(special) =~= guards(marker).push(
        (byte_len(marker.spelling()), byte_len(text), token_id),
    ));
}

/// A marker begins with a special token where its first special token has no
/// text before it.
pub proof fn first_token_stands_first(
    marker: MarkerView,
    text: Seq<char>,
    spelling: Seq<char>,
    token_id: u32,
)
    ensures
        MarkerView::of_text(text).first_token() is None,
        text.len() == 0 ==> MarkerView::of_text(text).with_special(
            spelling,
            token_id,
        ).first_token() == Some(token_id),
        text.len() > 0 ==> MarkerView::of_text(text).with_special(
            spelling,
            token_id,
        ).first_token() is None,
        marker.with_text(text).first_token() == marker.first_token(),
        marker.parts.len() > 0 ==> marker.with_special(spelling, token_id).first_token()
            == marker.first_token(),
{
}

/// The attribution at `i` has visible text in the bytes from `start` to `end`.
pub open spec fn is_visible_in(
    attributions: Seq<TokenAttribution>,
    i: int,
    start: int,
    end: int,
) -> bool {
    0 <= i < attributions.len() && (attributions[i].anchor matches TokenAnchor::Visible {
        byte_offset,
    } && start <= byte_offset < end)
}

proof fn nothing_visible(attributions: Seq<TokenAttribution>, start: int, end: int)
    ensures
        visible_between(attributions, start, end).len() == 0 <==> (forall|i: int|
            !#[trigger] is_visible_in(attributions, i, start, end)),
    decreases attributions.len(),
{
    if attributions.len() > 0 {
        let rest = attributions.drop_last();
        nothing_visible(rest, start, end);
        assert forall|i: int| 0 <= i < rest.len() implies is_visible_in(rest, i, start, end)
            == #[trigger] is_visible_in(attributions, i, start, end) by {}
        let last = attributions.len() - 1;
        if visible_between(attributions, start, end).len() == 0 {
            assert(!is_visible_in(attributions, last, start, end));
            assert forall|i: int| !#[trigger] is_visible_in(attributions, i, start, end) by {
                if 0 <= i < rest.len() {
                    assert(!is_visible_in(rest, i, start, end));
                }
            }
        }
        if forall|i: int| !#[trigger] is_visible_in(attributions, i, start, end) {
            assert(!is_visible_in(attributions, last, start, end));
            assert forall|i: int| !#[trigger] is_visible_in(rest, i, start, end) by {
                if 0 <= i < rest.len() {
                    assert(!is_visible_in(attributions, i, start, end));
                }
            }
        }
    }
}

proof fn one_visible(attributions: Seq<TokenAttribution>, start: int, end: int, i: int)
    requires
        is_visible_in(attributions, i, start, end),
        forall|j: int| j != i ==> !#[trigger] is_visible_in(attributions, j, start, end),
    ensures
        visible_between(attributions, start, end) == seq![
            (offset_of(attributions[i].anchor), attributions[i].token_id),
        ],
    decreases attributions.len(),
{
    let rest = attributions.drop_last();
    let last = attributions.len() - 1;
    if i == last {
        nothing_visible(rest, start, end);
        assert forall|j: int| !#[trigger] is_visible_in(rest, j, start, end) by {
            if 0 <= j < rest.len() {
                assert(!is_visible_in(attributions, j, start, end));
            }
        }
        assert(visible_between(attributions, start, end) =~= seq![
            (offset_of(attributions[i].anchor), attributions[i].token_id),
        ]);
    } else {
        assert(!is_visible_in(attributions, last, start, end));
        assert(is_visible_in(rest, i, start, end));
        assert forall|j: int| j != i implies !#[trigger] is_visible_in(rest, j, start, end) by {
            if 0 <= j < rest.len() {
                assert(!is_visible_in(attributions, j, start, end));
            }
        }
        one_visible(rest, start, end, i);
    }
}

proof fn two_visible(attributions: Seq<TokenAttribution>, start: int, end: int, i: int, j: int)
    requires
        i < j,
        is_visible_in(attributions, i, start, end),
        is_visible_in(attributions, j, start, end),
    ensures
        visible_between(attributions, start, end).len() >= 2,
    decreases attributions.len(),
{
    let rest = attributions.drop_last();
    if j == attributions.len() - 1 {
        assert(is_visible_in(rest, i, start, end));
        nothing_visible(rest, start, end);
    } else {
        assert(is_visible_in(rest, i, start, end));
        assert(is_visible_in(rest, j, start, end));
        two_visible(rest, start, end, i, j);
    }
}

/// A byte range is the span of a single token exactly where one visible
/// attribution stands at its start with that ID, and no other stands inside.
/// Attributions without visible text do not count.
pub proof fn single_token_spans_are_exact(
    attributions: Seq<TokenAttribution>,
    start: int,
    end: int,
    token_id: u32,
)
    ensures
        AnchorsView::TextOnly.is_single(start, end, token_id),
        AnchorsView::Tokens(attributions).is_single(start, end, token_id) <==> exists|i: int|
            #[trigger] is_visible_in(attributions, i, start, end)
                && attributions[i].anchor->Visible_byte_offset == start && attributions[i].token_id
                == token_id && (forall|j: int|
                j != i ==> !#[trigger] is_visible_in(attributions, j, start, end)),
{
    let visible = visible_between(attributions, start, end);
    if AnchorsView::Tokens(attributions).is_single(start, end, token_id) {
        nothing_visible(attributions, start, end);
        let i = choose|i: int| is_visible_in(attributions, i, start, end);
        assert forall|j: int| j != i implies !#[trigger] is_visible_in(
            attributions,
            j,
            start,
            end,
        ) by {
            if is_visible_in(attributions, j, start, end) {
                if i < j {
                    two_visible(attributions, start, end, i, j);
                } else {
                    two_visible(attributions, start, end, j, i);
                }
            }
        }
        one_visible(attributions, start, end, i);
        assert(visible[0] == (offset_of(attributions[i].anchor), attributions[i].token_id));
    }
    if exists|i: int| #[trigger]
        is_visible_in(attributions, i, start, end) && attributions[i].anchor->Visible_byte_offset
            == start && attributions[i].token_id == token_id && (forall|j: int|
            j != i ==> !#[trigger] is_visible_in(attributions, j, start, end)) {
        let i = choose|i: int| #[trigger]
            is_visible_in(attributions, i, start, end)
                && attributions[i].anchor->Visible_byte_offset == start && attributions[i].token_id == token_id && (forall|j: int|
                j != i ==> !#[trigger] is_visible_in(attributions, j, start, end));
        one_visible(attributions, start, end, i);
    }
}

/// Texts whose bytes start alike start with the same character.
proof fn first_scalar_agrees(first: Seq<char>, second: Seq<char>)
    requires
        first.len() > 0,
        second.len() > 0,
        encode_utf8(first).is_prefix_of(encode_utf8(second)),
    ensures
        first[0] == second[0],
{
    let (a, b) = (encode_utf8(first), encode_utf8(second));
    encode_utf8_first_scalar(first);
    encode_utf8_first_scalar(second);
    encode_utf8_len(first);
    assert(a =~= b.take(a.len() as int));
    assert(a[0] == b[0]);
    assert(a.len() >= 2 ==> a[1] == b[1]);
    assert(a.len() >= 3 ==> a[2] == b[2]);
    assert(a.len() >= 4 ==> a[3] == b[3]);
    char_u32_cast(first[0], first[0] as u32);
    char_u32_cast(second[0], second[0] as u32);
}

/// A text whose bytes begin another's begins that other.
proof fn bytes_prefix(first: Seq<char>, second: Seq<char>)
    requires
        encode_utf8(first).is_prefix_of(encode_utf8(second)),
    ensures
        first.is_prefix_of(second),
    decreases first.len(),
{
    if first.len() > 0 {
        encode_utf8_len(first);
        if second.len() > 0 {
            let (a, b) = (encode_utf8(first), encode_utf8(second));
            let head = seq![first[0]];
            let (s, t) = (first.drop_first(), second.drop_first());
            first_scalar_agrees(first, second);
            assert(first =~= head + s);
            assert(second =~= head + t);
            encode_utf8_concat(head, s);
            encode_utf8_concat(head, t);
            let (x, y) = (encode_utf8(s), encode_utf8(t));
            let n = encode_utf8(head).len() as int;
            assert(a =~= b.take(a.len() as int));
            assert forall|i: int| 0 <= i < x.len() implies x[i] == y[i] by {
                assert(a[n + i] == x[i]);
                assert(b[n + i] == y[i]);
            }
            assert(x =~= y.take(x.len() as int));
            bytes_prefix(s, t);
            assert(first =~= second.take(first.len() as int));
        }
    } else {
        assert(first =~= second.take(0));
    }
}

/// A position of `text` from which `spelling` stands, in full or as far as the
/// text goes.
pub open spec fn stands_after(
    text: Seq<char>,
    skipped: Seq<char>,
    rest: Seq<char>,
    spelling: Seq<char>,
) -> bool {
    &&& text == skipped + rest
    &&& rest.len() > 0
    &&& spelling.is_prefix_of(rest) || rest.is_prefix_of(spelling)
}

/// Every candidate by text is justified: behind it the text follows the
/// spelling of one of the markers, for the whole spelling or up to the end of
/// the input.
pub proof fn candidates_follow_a_spelling(state: StreamState, markers: Seq<MarkerView>, at: int)
    requires
        begins_by_text(state, markers, at),
    ensures
        exists|i: int, skipped: Seq<char>, rest: Seq<char>|
            0 <= i < markers.len() && state.at + byte_len(skipped) == at
                && #[trigger] stands_after(state.text, skipped, rest, markers[i].spelling()),
{
    let i = choose|i: int|
        0 <= i < markers.len() && is_textual(#[trigger] markers[i], state.anchors) && begins_at(
            encode_utf8(state.text),
            encode_utf8(markers[i].spelling()),
            at - state.at,
        );
    let bytes = encode_utf8(state.text);
    let needle = encode_utf8(markers[i].spelling());
    let p = at - state.at;
    encode_utf8_valid_utf8(state.text);
    encode_utf8_decode_utf8(state.text);
    valid_utf8_split(bytes, p);
    let (before, after) = (bytes.subrange(0, p), bytes.subrange(p, bytes.len() as int));
    let (skipped, rest) = (decode_utf8(before), decode_utf8(after));
    decode_utf8_encode_utf8(before);
    decode_utf8_encode_utf8(after);
    encode_utf8_concat(skipped, rest);
    assert(before + after =~= bytes);
    encode_utf8_injective(state.text, skipped + rest);
    encode_utf8_len(rest);
    if rest.len() == 0 {
        assert(encode_utf8(rest).len() == 0);
    }
    if occurs_at(bytes, needle, p) {
        assert(needle =~= after.take(needle.len() as int));
        bytes_prefix(markers[i].spelling(), rest);
    } else {
        assert(ends_with_prefix(bytes, needle, bytes.len() - p));
        assert(bytes.skip(p) =~= after);
        assert(after =~= needle.take(after.len() as int));
        bytes_prefix(rest, markers[i].spelling());
    }
    assert(stands_after(state.text, skipped, rest, markers[i].spelling()));
}

/// Every candidate by token is justified: the first special token of one of the
/// markers was generated there, with visible text. Without attribution there
/// are none.
pub proof fn token_candidates_are_visible(state: StreamState, markers: Seq<MarkerView>, at: int)
    requires
        begins_by_token(state, markers, at),
    ensures
        state.anchors is Tokens,
        exists|i: int, k: int|
            0 <= i < markers.len() && #[trigger] is_visible_in(
                state.anchors->Tokens_0,
                k,
                at,
                at + 1,
            ) && (#[trigger] markers[i]).first_token() == Some(
                state.anchors->Tokens_0[k].token_id,
            ),
{
    let i = choose|i: int|
        0 <= i < markers.len() && (#[trigger] markers[i]).first_token() is Some
            && state.anchors.has_visible(at, seq![markers[i].first_token()->0]);
    let id = markers[i].first_token()->0;
    let attributions = state.anchors->Tokens_0;
    let k = choose|k: int|
        0 <= k < attributions.len() && (#[trigger] attributions[k]).anchor is Visible && offset_of(
            attributions[k].anchor,
        ) == at && seq![id].contains(attributions[k].token_id);
    assert(is_visible_in(attributions, k, at, at + 1));
    assert(markers[i].first_token() == Some(attributions[k].token_id));
}

/// Whatever position a scanner stops at is justified: it is not before the
/// cursor or where the search began, and there either the text follows the
/// spelling of one of the markers, or the first special token of one of them
/// was generated.
pub proof fn scanner_stops_for_a_reason(
    state: StreamState,
    markers: Seq<MarkerView>,
    from: int,
    at: usize,
)
    requires
        is_candidate(Some(at), state, markers, from),
    ensures
        from <= at,
        state.at <= at,
        (exists|i: int, skipped: Seq<char>, rest: Seq<char>|
            0 <= i < markers.len() && state.at + byte_len(skipped) == at
                && #[trigger] stands_after(state.text, skipped, rest, markers[i].spelling())) || (
        exists|i: int, k: int|
            0 <= i < markers.len() && #[trigger] is_visible_in(
                state.anchors->Tokens_0,
                k,
                at as int,
                at + 1,
            ) && (#[trigger] markers[i]).first_token() == Some(
                state.anchors->Tokens_0[k].token_id,
            )),
{
    if begins_by_text(state, markers, at as int) {
        candidates_follow_a_spelling(state, markers, at as int);
    } else {
        token_candidates_are_visible(state, markers, at as int);
    }
}

} // verus!
