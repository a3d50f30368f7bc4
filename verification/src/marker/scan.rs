//! Where markers may begin in a stream.

use vstd::prelude::*;
use vstd::string::StringSliceAdditionalSpecFns;
use vstd::utf8::encode_utf8;

use super::anchors::{visible_has_source, Anchors, AnchorsView};
use super::search::{
    any_begins, begins_at, earlier, ends_with_prefix, occurs_at, spelled, text_candidate,
};
use super::stream::{Attributed, MarkerStream, PartialText, StreamState};
use super::{
    byte_len, literal_match, parts_match, special_match, spelling_of, MarkerError, MarkerLike,
    MarkerView, PartView,
};
use crate::text::{concat_boundary, encode_utf8_concat, encode_utf8_len};

verus! {

/// What the markers of a slice are made of.
pub open spec fn markers_view<M: MarkerLike>(markers: Seq<M>) -> Seq<MarkerView> {
    markers.map_values(|marker: M| marker.marker())
}

/// Whether `marker` is looked for by its spelling: without attribution every
/// marker is, and with it those that do not begin with a special token.
pub open spec fn is_textual(marker: MarkerView, anchors: AnchorsView) -> bool {
    anchors is TextOnly || marker.first_token() is None
}

/// Whether the spelling of one of `markers` may begin at offset `at`.
pub open spec fn begins_by_text(state: StreamState, markers: Seq<MarkerView>, at: int) -> bool {
    exists|i: int|
        0 <= i < markers.len() && is_textual(#[trigger] markers[i], state.anchors) && begins_at(
            encode_utf8(state.text),
            encode_utf8(markers[i].spelling()),
            at - state.at,
        )
}

/// Whether a visible anchor of the first special token of one of `markers`
/// stands at offset `at`.
pub open spec fn begins_by_token(state: StreamState, markers: Seq<MarkerView>, at: int) -> bool {
    exists|i: int|
        0 <= i < markers.len() && (#[trigger] markers[i]).first_token() is Some
            && state.anchors.has_visible(at, seq![markers[i].first_token()->0])
}

/// Whether one of `markers` may begin at offset `at`.
pub open spec fn may_begin(state: StreamState, markers: Seq<MarkerView>, at: int) -> bool {
    begins_by_text(state, markers, at) || begins_by_token(state, markers, at)
}

/// `found` is the earliest offset, at or after both `from` and the cursor, at
/// which one of `markers` may begin.
pub open spec fn is_candidate(
    found: Option<usize>,
    state: StreamState,
    markers: Seq<MarkerView>,
    from: int,
) -> bool {
    match found {
        Some(at) => {
            &&& from <= at
            &&& state.at <= at
            &&& may_begin(state, markers, at as int)
            &&& forall|p: int| from <= p < at && state.at <= p ==> !may_begin(state, markers, p)
        },
        None => forall|p: int|
            from <= p < usize::MAX && state.at <= p ==> !may_begin(state, markers, p),
    }
}

/// A stream that can say where markers may begin.
///
/// The difference between the streams is only the source of candidates: text
/// occurrences of a spelling versus visible anchors of a marker's first special
/// token.
pub trait MarkerScan<'i>: MarkerStream<'i> {
    /// Earliest offset at or after `from` where one of `markers` may begin:
    /// a complete spelling, a partial spelling at the end of the input, or a
    /// visible anchor of a marker's first special token.
    fn next_candidate<M: MarkerLike>(&self, markers: &[M], from: usize) -> (found: Option<usize>)
        requires
            self.state().wf(),
        ensures
            is_candidate(found, self.state(), markers_view(markers@), from as int),
    ;
}

/// Whether `spelling` is the one of a marker that is looked for in the text.
spec fn spells_one<M: MarkerLike>(
    markers: Seq<M>,
    text_only: bool,
    spelling: Seq<char>,
) -> bool {
    exists|i: int|
        0 <= i < markers.len() && (text_only || (#[trigger] markers[i]).marker().first_token()
            is None) && spelling == markers[i].marker().spelling()
}

/// The spellings to look for in the text.
fn text_spellings<'m, M: MarkerLike>(markers: &'m [M], text_only: bool) -> (spellings: Vec<
    &'m str,
>)
    ensures
        forall|i: int|
            0 <= i < markers@.len() && (text_only || (
            #[trigger] markers@[i]).marker().first_token() is None) ==> spelled(
                spellings@,
            ).contains(encode_utf8(markers@[i].marker().spelling())),
        forall|k: int|
            0 <= k < spellings@.len() ==> spells_one(
                markers@,
                text_only,
                (#[trigger] spellings@[k])@,
            ),
{
    let mut spellings: Vec<&'m str> = Vec::new();
    let mut at: usize = 0;
    while at < markers.len()
        invariant
            at <= markers@.len(),
            forall|i: int|
                0 <= i < at && (text_only || (#[trigger] markers@[i]).marker().first_token()
                    is None) ==> spelled(spellings@).contains(
                    encode_utf8(markers@[i].marker().spelling()),
                ),
            forall|k: int|
                0 <= k < spellings@.len() ==> spells_one(
                    markers@,
                    text_only,
                    (#[trigger] spellings@[k])@,
                ),
        decreases markers@.len() - at,
    {
        let marker = &markers[at];
        let ghost before = spellings@;
        if text_only || marker.first_token_id().is_none() {
            let spelling = marker.text();
            spellings.push(spelling);
            proof {
                assert(spelled(spellings@) =~= spelled(before).push(spelling.spec_bytes()));
                assert forall|i: int|
                    0 <= i < at + 1 && (text_only || (
                    #[trigger] markers@[i]).marker().first_token() is None) implies spelled(
                    spellings@,
                ).contains(encode_utf8(markers@[i].marker().spelling())) by {
                    if i < at {
                        let k = choose|k: int|
                            0 <= k < spelled(before).len() && spelled(before)[k] == encode_utf8(
                                markers@[i].marker().spelling(),
                            );
                        assert(spelled(spellings@)[k] == spelled(before)[k]);
                    } else {
                        assert(spelled(spellings@)[before.len() as int]
                            == spelling.spec_bytes());
                    }
                }
                assert(markers@[at as int].marker().spelling() == spelling@);
                assert(spells_one(markers@, text_only, spelling@));
            }
        }
        at += 1;
    }
    spellings
}

/// The first special tokens of markers.
fn first_tokens<M: MarkerLike>(markers: &[M]) -> (ids: Vec<u32>)
    ensures
        forall|id: u32| #[trigger]
            ids@.contains(id) <==> exists|i: int|
                0 <= i < markers@.len() && (#[trigger] markers@[i]).marker().first_token() == Some(
                    id,
                ),
{
    let mut ids: Vec<u32> = Vec::new();
    let mut at: usize = 0;
    while at < markers.len()
        invariant
            at <= markers@.len(),
            forall|id: u32| #[trigger]
                ids@.contains(id) <==> exists|i: int|
                    0 <= i < at && (#[trigger] markers@[i]).marker().first_token() == Some(id),
        decreases markers@.len() - at,
    {
        let ghost before = ids@;
        if let Some(token_id) = markers[at].first_token_id() {
            ids.push(token_id);
            proof {
                assert forall|id: u32| #[trigger]
                    ids@.contains(id) <==> exists|i: int|
                        0 <= i < at + 1 && (#[trigger] markers@[i]).marker().first_token() == Some(
                            id,
                        ) by {
                    vstd::seq_lib::lemma_seq_contains_after_push(before, token_id, id);
                    if id == token_id {
                        assert(markers@[at as int].marker().first_token() == Some(id));
                    }
                    if before.contains(id) {
                        let i = choose|i: int|
                            0 <= i < at && (#[trigger] markers@[i]).marker().first_token() == Some(
                                id,
                            );
                        assert(markers@[i].marker().first_token() == Some(id));
                    }
                }
            }
        }
        at += 1;
    }
    ids
}

/// Looking for the collected spellings is looking for the markers' own.
proof fn spellings_cover<M: MarkerLike>(
    state: StreamState,
    markers: Seq<M>,
    spellings: Seq<&str>,
    text_only: bool,
    at: int,
)
    requires
        text_only == (state.anchors is TextOnly),
        forall|i: int|
            0 <= i < markers.len() && (text_only || (#[trigger] markers[i]).marker().first_token()
                is None) ==> spelled(spellings).contains(
                encode_utf8(markers[i].marker().spelling()),
            ),
        forall|k: int|
            0 <= k < spellings.len() ==> spells_one(
                markers,
                text_only,
                (#[trigger] spellings[k])@,
            ),
    ensures
        any_begins(encode_utf8(state.text), spelled(spellings), at - state.at) <==> begins_by_text(
            state,
            markers_view(markers),
            at,
        ),
{
    let bytes = encode_utf8(state.text);
    let views = markers_view(markers);
    if any_begins(bytes, spelled(spellings), at - state.at) {
        let k = choose|k: int|
            0 <= k < spelled(spellings).len() && begins_at(
                bytes,
                #[trigger] spelled(spellings)[k],
                at - state.at,
            );
        assert(spelled(spellings)[k] == spellings[k].spec_bytes());
        let i = choose|i: int|
            0 <= i < markers.len() && (text_only || (#[trigger] markers[i]).marker().first_token()
                is None) && spellings[k]@ == markers[i].marker().spelling();
        assert(views[i] == markers[i].marker());
        assert(is_textual(views[i], state.anchors));
    }
    if begins_by_text(state, views, at) {
        let i = choose|i: int|
            0 <= i < views.len() && is_textual(#[trigger] views[i], state.anchors) && begins_at(
                bytes,
                encode_utf8(views[i].spelling()),
                at - state.at,
            );
        assert(views[i] == markers[i].marker());
        let k = choose|k: int|
            0 <= k < spelled(spellings).len() && spelled(spellings)[k] == encode_utf8(
                markers[i].marker().spelling(),
            );
        assert(begins_at(bytes, spelled(spellings)[k], at - state.at));
    }
}

/// Looking for the collected tokens is looking for the markers' own.
proof fn tokens_cover<M: MarkerLike>(
    state: StreamState,
    markers: Seq<M>,
    ids: Seq<u32>,
    at: int,
)
    requires
        forall|id: u32| #[trigger]
            ids.contains(id) <==> exists|i: int|
                0 <= i < markers.len() && (#[trigger] markers[i]).marker().first_token() == Some(
                    id,
                ),
    ensures
        state.anchors.has_visible(at, ids) <==> begins_by_token(state, markers_view(markers), at),
{
    let views = markers_view(markers);
    if let AnchorsView::Tokens(attributions) = state.anchors {
        if state.anchors.has_visible(at, ids) {
            let k = choose|k: int|
                0 <= k < attributions.len() && (#[trigger] attributions[k]).anchor is Visible
                    && super::anchors::offset_of(attributions[k].anchor) == at && ids.contains(
                    attributions[k].token_id,
                );
            let id = attributions[k].token_id;
            let i = choose|i: int|
                0 <= i < markers.len() && (#[trigger] markers[i]).marker().first_token() == Some(
                    id,
                );
            assert(views[i] == markers[i].marker());
            assert(seq![id][0] == id);
            assert(seq![id].contains(id));
            assert(state.anchors.has_visible(at, seq![id]));
        }
        if begins_by_token(state, views, at) {
            let i = choose|i: int|
                0 <= i < views.len() && (#[trigger] views[i]).first_token() is Some
                    && state.anchors.has_visible(at, seq![views[i].first_token()->0]);
            let id = views[i].first_token()->0;
            assert(markers[i].marker() == views[i]);
            assert(markers[i].marker().first_token() == Some(id));
            let k = choose|k: int|
                0 <= k < attributions.len() && (#[trigger] attributions[k]).anchor is Visible
                    && super::anchors::offset_of(attributions[k].anchor) == at && seq![id].contains(
                    attributions[k].token_id,
                );
            assert(ids.contains(attributions[k].token_id));
        }
    }
}

impl<'i> MarkerScan<'i> for PartialText<'i> {
    fn next_candidate<M: MarkerLike>(&self, markers: &[M], from: usize) -> (found: Option<usize>) {
        let spellings = text_spellings(markers, true);
        let found = text_candidate(self.remaining(), &spellings, from);
        proof {
            let state = self.state();
            let views = markers_view(markers@);
            PartialText::state_is_textual(self);
            assert forall|p: int| #[trigger] may_begin(state, views, p) <==> any_begins(
                encode_utf8(state.text),
                spelled(spellings@),
                p,
            ) by {
                spellings_cover(state, markers@, spellings@, true, p);
            }
        }
        found
    }
}

impl<'i> MarkerScan<'i> for Attributed<'i> {
    fn next_candidate<M: MarkerLike>(&self, markers: &[M], from: usize) -> (found: Option<usize>) {
        let start: usize = self.offset();
        let from_here: usize = if from < start {
            start
        } else {
            from
        };
        // Guarded markers can only begin at a visible anchor of their first
        // special token; the rest (and everything in text-only mode) fall back
        // to text occurrences.
        let anchors = self.anchors();
        let text_only = matches!(anchors, Anchors::TextOnly);
        let ids = first_tokens(markers);
        let anchored = anchors.find_visible(from_here, &ids);
        let spellings = text_spellings(markers, text_only);
        let ghost bytes = encode_utf8(self.state().text);
        let by_text = match text_candidate(self.remaining(), &spellings, from_here - start) {
            Some(at) => {
                proof {
                    assert(any_begins(bytes, spelled(spellings@), at as int));
                    let k = choose|k: int|
                        0 <= k < spelled(spellings@).len() && begins_at(
                            bytes,
                            #[trigger] spelled(spellings@)[k],
                            at as int,
                        );
                    assert(at < bytes.len());
                }
                Some(start + at)
            },
            None => None,
        };
        proof {
            let state = self.state();
            let views = markers_view(markers@);
            assert forall|p: int| #[trigger] may_begin(state, views, p) <==> any_begins(
                bytes,
                spelled(spellings@),
                p - state.at,
            ) || state.anchors.has_visible(p, ids@) by {
                spellings_cover(state, markers@, spellings@, text_only, p);
                tokens_cover(state, markers@, ids@, p);
            }
        }
        earlier(anchored, by_text)
    }
}

/// What matches in part is spelled as far as the text goes.
proof fn match_follows_spelling(
    parts: Seq<PartView>,
    tail: Seq<char>,
    text: Seq<char>,
    at: int,
    anchors: AnchorsView,
)
    requires
        parts_match(parts, tail, text, at, anchors) != Err::<(), _>(MarkerError::Backtrack),
    ensures
        spelling_of(parts, tail).is_prefix_of(text) || text.is_prefix_of(
            spelling_of(parts, tail),
        ),
    decreases parts.len(),
{
    if parts.len() > 0 {
        let part = parts[0];
        let rest = spelling_of(parts.drop_first(), tail);
        let spelling = spelling_of(parts, tail);
        let middle = text.skip(part.before.len() as int);
        if literal_match(text, part.before) is Err {
            assert(text =~= spelling.take(text.len() as int));
        } else {
            assert(text =~= part.before + middle);
            let special = special_match(
                middle,
                at + byte_len(part.before),
                anchors,
                part.spelling,
                part.token_id,
            );
            if special is Err {
                assert(middle.is_prefix_of(part.spelling));
                assert(text =~= spelling.take(text.len() as int));
            } else {
                let after = middle.skip(part.spelling.len() as int);
                assert(middle =~= part.spelling + after);
                match_follows_spelling(
                    parts.drop_first(),
                    tail,
                    after,
                    at + byte_len(part.before) + byte_len(part.spelling),
                    anchors,
                );
                if rest.is_prefix_of(after) {
                    assert(spelling =~= text.take(spelling.len() as int));
                } else {
                    assert(text =~= spelling.take(text.len() as int));
                }
            }
        }
    }
}

/// Text that follows a spelling as far as it goes is where the spelling may
/// begin.
proof fn following_begins(skipped: Seq<char>, rest: Seq<char>, spelling: Seq<char>)
    requires
        rest.len() > 0,
        spelling.is_prefix_of(rest) || rest.is_prefix_of(spelling),
    ensures
        begins_at(
            encode_utf8(skipped + rest),
            encode_utf8(spelling),
            byte_len(skipped) as int,
        ),
{
    let bytes = encode_utf8(skipped + rest);
    let needle = encode_utf8(spelling);
    let at = byte_len(skipped) as int;
    encode_utf8_concat(skipped, rest);
    concat_boundary(skipped, rest);
    encode_utf8_len(rest);
    if spelling.is_prefix_of(rest) {
        let more = rest.skip(spelling.len() as int);
        assert(rest =~= spelling + more);
        encode_utf8_concat(spelling, more);
        assert(bytes.subrange(at, at + needle.len()) =~= needle);
        assert(occurs_at(bytes, needle, at));
    } else {
        let more = spelling.skip(rest.len() as int);
        assert(spelling =~= rest + more);
        encode_utf8_concat(rest, more);
        encode_utf8_len(more);
        assert(bytes.skip(at) =~= needle.take(bytes.len() - at));
        assert(ends_with_prefix(bytes, needle, bytes.len() - at));
    }
}

/// A scanner never passes over a marker: where the cursor could be moved to
/// `rest` and one of the markers would be parsed there, or would ask for more
/// input there, the scanner stops at that position or before it.
pub proof fn scanner_never_skips_a_marker(
    state: StreamState,
    markers: Seq<MarkerView>,
    from: int,
    found: Option<usize>,
    skipped: Seq<char>,
    rest: Seq<char>,
    i: int,
)
    requires
        state.wf(),
        is_candidate(found, state, markers, from),
        state.text == skipped + rest,
        rest.len() > 0,
        from <= state.at + byte_len(skipped),
        0 <= i < markers.len(),
        markers[i].matched(
            (StreamState { text: rest, at: state.at + byte_len(skipped), ..state }),
        ) != Err::<(), _>(MarkerError::Backtrack),
    ensures
        found matches Some(at) && at <= state.at + byte_len(skipped),
{
    let marker = markers[i];
    let at = (state.at + byte_len(skipped)) as int;
    if is_textual(marker, state.anchors) {
        match_follows_spelling(marker.parts, marker.tail, rest, at, state.anchors);
        following_begins(skipped, rest, marker.spelling());
        assert(begins_by_text(state, markers, at));
    } else {
        let part = marker.parts[0];
        assert(part.before =~= Seq::<char>::empty());
        assert(rest.skip(0) =~= rest);
        encode_utf8_concat(part.before, part.before);
        assert(byte_len(part.before) == 0) by {
            assert(part.before + part.before =~= part.before);
        }
        let end = at + byte_len(part.spelling);
        assert(state.anchors.is_single(at, end, part.token_id));
        let attributions = state.anchors->Tokens_0;
        visible_has_source(attributions, at, end, 0);
        let id = marker.first_token()->0;
        assert(seq![id][0] == id);
        assert(seq![id].contains(id));
        assert(state.anchors.has_visible(at, seq![id]));
        assert(begins_by_token(state, markers, at));
    }
    assert(may_begin(state, markers, at));
    encode_utf8_concat(skipped, rest);
    encode_utf8_len(rest);
}

/// A guarded marker is looked for only where its first special token stands:
/// equal text from ordinary tokens is passed over.
pub proof fn lookalikes_are_no_candidates(
    state: StreamState,
    markers: Seq<MarkerView>,
    at: int,
)
    requires
        !(state.anchors is TextOnly),
        forall|i: int| 0 <= i < markers.len() ==> (#[trigger] markers[i]).first_token() is Some,
        forall|i: int|
            0 <= i < markers.len() ==> !state.anchors.has_visible(
                at,
                seq![(#[trigger] markers[i]).first_token()->0],
            ),
    ensures
        !may_begin(state, markers, at),
{
}

} // verus!
