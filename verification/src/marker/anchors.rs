//! Generated-token attribution of decoded text.

use std::ops::Range;

use vstd::prelude::*;

verus! {

/// Where a generated token stands in the decoded text.
#[derive(Clone, Copy, Debug, PartialEq, Eq, Structural)]
pub enum TokenAnchor {
    /// The token's first byte of visible text.
    Visible { byte_offset: u32 },
    /// The position of a token without visible text.
    ZeroWidth { byte_offset: u32 },
}

/// One generated token and where it stands.
#[derive(Clone, Copy, Debug, PartialEq, Eq, Structural)]
pub struct TokenAttribution {
    pub token_id: u32,
    pub anchor: TokenAnchor,
}

/// Decoded text with one attribution per generated token, sorted by byte
/// offset.
#[derive(Clone, Debug)]
pub struct DecodedText {
    pub text: String,
    pub attributions: Vec<TokenAttribution>,
}

/// Whether parser input carries generated-token attribution.
///
/// This is a property of the caller's pipeline, known before the first delta,
/// so it is chosen once when the parser is constructed and never inferred from
/// the data.
#[derive(Clone, Copy, Debug, PartialEq, Eq, Structural)]
pub enum AttributionMode {
    /// Every delta carries one [`TokenAttribution`] per generated token, as
    /// produced by the incremental detokenizer. Structural markers must be
    /// spelled by their dedicated special tokens; equal text from ordinary
    /// tokens stays content.
    Tokens,
    /// Deltas carry text only. Markers are matched by spelling alone, which
    /// cannot tell model-written marker text from structure.
    TextOnly,
}

impl Default for AttributionMode {
    fn default() -> (mode: Self)
        ensures
            mode == AttributionMode::Tokens,
    {
        AttributionMode::Tokens
    }
}

/// Buffer-local token anchors of the text being parsed.
#[derive(Clone, Copy, Debug)]
pub enum Anchors<'i> {
    /// No attribution available: every spelling check passes.
    TextOnly,
    /// One record per generated token, sorted by byte offset. May be empty for
    /// an empty buffer.
    Tokens(&'i [TokenAttribution]),
}

/// What [`Anchors`] hold.
#[verifier::ext_equal]
pub enum AnchorsView {
    TextOnly,
    Tokens(Seq<TokenAttribution>),
}

impl<'i> View for Anchors<'i> {
    type V = AnchorsView;

    open spec fn view(&self) -> AnchorsView {
        match self {
            Anchors::TextOnly => AnchorsView::TextOnly,
            Anchors::Tokens(attributions) => AnchorsView::Tokens(attributions@),
        }
    }
}

/// Byte offset of an anchor.
pub open spec fn offset_of(anchor: TokenAnchor) -> usize {
    match anchor {
        TokenAnchor::Visible { byte_offset } => byte_offset as usize,
        TokenAnchor::ZeroWidth { byte_offset } => byte_offset as usize,
    }
}

/// Attributions in the order of their byte offsets.
pub open spec fn is_sorted(attributions: Seq<TokenAttribution>) -> bool {
    forall|i: int, j: int|
        0 <= i <= j < attributions.len() ==> offset_of((#[trigger] attributions[i]).anchor)
            <= offset_of((#[trigger] attributions[j]).anchor)
}

/// The visible anchors at or after `start` and before `end`, as byte offset and
/// token ID, in generation order.
pub open spec fn visible_between(
    attributions: Seq<TokenAttribution>,
    start: int,
    end: int,
) -> Seq<(usize, u32)>
    decreases attributions.len(),
{
    if attributions.len() == 0 {
        Seq::empty()
    } else {
        let rest = visible_between(attributions.drop_last(), start, end);
        let last = attributions.last();
        if last.anchor is Visible && start <= offset_of(last.anchor) < end {
            rest.push((offset_of(last.anchor), last.token_id))
        } else {
            rest
        }
    }
}

impl AnchorsView {
    /// Attributions are in order.
    pub open spec fn wf(self) -> bool {
        self matches AnchorsView::Tokens(attributions) ==> is_sorted(attributions)
    }

    /// Whether the bytes from `start` to `end` are the visible span of the
    /// single token `token_id`: one visible anchor at `start` with that ID, and
    /// no other visible anchor inside.
    pub open spec fn is_single(self, start: int, end: int, token_id: u32) -> bool {
        match self {
            AnchorsView::TextOnly => true,
            AnchorsView::Tokens(attributions) => {
                let visible = visible_between(attributions, start, end);
                visible.len() == 1 && visible[0].0 == start && visible[0].1 == token_id
            },
        }
    }

    /// Whether a visible anchor of one of the tokens `ids` stands at `at`.
    pub open spec fn has_visible(self, at: int, ids: Seq<u32>) -> bool {
        match self {
            AnchorsView::TextOnly => false,
            AnchorsView::Tokens(attributions) => exists|i: int|
                0 <= i < attributions.len() && (#[trigger] attributions[i]).anchor is Visible
                    && offset_of(attributions[i].anchor) == at && ids.contains(
                    attributions[i].token_id,
                ),
        }
    }
}

/// Anchors before `start` and from `end` on are not between.
proof fn visible_outside(attributions: Seq<TokenAttribution>, start: int, end: int, at: int)
    requires
        0 <= at <= attributions.len(),
        forall|i: int|
            at <= i < attributions.len() ==> offset_of((#[trigger] attributions[i]).anchor) < start
                || offset_of(attributions[i].anchor) >= end,
    ensures
        visible_between(attributions, start, end) == visible_between(
            attributions.take(at),
            start,
            end,
        ),
    decreases attributions.len(),
{
    if at == attributions.len() {
        assert(attributions.take(at) =~= attributions);
    } else {
        let rest = attributions.drop_last();
        assert forall|i: int| at <= i < rest.len() implies offset_of((#[trigger] rest[i]).anchor)
            < start || offset_of(rest[i].anchor) >= end by {
            assert(rest[i] == attributions[i]);
        }
        visible_outside(rest, start, end, at);
        assert(rest.take(at) =~= attributions.take(at));
    }
}

/// Each anchor that is between comes from an attribution.
pub proof fn visible_has_source(
    attributions: Seq<TokenAttribution>,
    start: int,
    end: int,
    k: int,
)
    requires
        0 <= k < visible_between(attributions, start, end).len(),
    ensures
        ({
            let (at, token_id) = visible_between(attributions, start, end)[k];
            start <= at < end && exists|i: int|
                0 <= i < attributions.len() && (#[trigger] attributions[i]).anchor is Visible
                    && offset_of(attributions[i].anchor) == at && attributions[i].token_id
                    == token_id
        }),
    decreases attributions.len(),
{
    let rest = attributions.drop_last();
    let before = visible_between(rest, start, end);
    if k < before.len() {
        visible_has_source(rest, start, end, k);
        let i = choose|i: int|
            0 <= i < rest.len() && (#[trigger] rest[i]).anchor is Visible && offset_of(
                rest[i].anchor,
            ) == before[k].0 && rest[i].token_id == before[k].1;
        assert(attributions[i] == rest[i]);
    } else {
        assert(attributions[attributions.len() - 1] == attributions.last());
    }
}

/// Each attribution that is visible and between is among the anchors.
proof fn visible_has_anchor(attributions: Seq<TokenAttribution>, start: int, end: int, i: int)
    requires
        0 <= i < attributions.len(),
        attributions[i].anchor is Visible,
        start <= offset_of(attributions[i].anchor) < end,
    ensures
        exists|k: int|
            0 <= k < visible_between(attributions, start, end).len()
                && #[trigger] visible_between(attributions, start, end)[k] == (
                offset_of(attributions[i].anchor),
                attributions[i].token_id,
            ),
    decreases attributions.len(),
{
    let rest = attributions.drop_last();
    let before = visible_between(rest, start, end);
    let all = visible_between(attributions, start, end);
    if i == attributions.len() - 1 {
        assert(all[before.len() as int] == (
            offset_of(attributions[i].anchor),
            attributions[i].token_id,
        ));
    } else {
        visible_has_anchor(rest, start, end, i);
        let k = choose|k: int|
            0 <= k < before.len() && #[trigger] before[k] == (
                offset_of(rest[i].anchor),
                rest[i].token_id,
            );
        assert(all[k] == before[k]);
    }
}

/// Anchors of attributions in order are in order.
proof fn visible_sorted(attributions: Seq<TokenAttribution>, start: int, end: int)
    requires
        is_sorted(attributions),
    ensures
        forall|i: int, j: int|
            0 <= i <= j < visible_between(attributions, start, end).len() ==> (
            #[trigger] visible_between(attributions, start, end)[i]).0 <= (
            #[trigger] visible_between(attributions, start, end)[j]).0,
    decreases attributions.len(),
{
    if attributions.len() > 0 {
        let rest = attributions.drop_last();
        let before = visible_between(rest, start, end);
        visible_sorted(rest, start, end);
        assert forall|k: int| 0 <= k < before.len() implies (#[trigger] before[k]).0 <= offset_of(
            attributions.last().anchor,
        ) by {
            visible_has_source(rest, start, end, k);
            let i = choose|i: int|
                0 <= i < rest.len() && (#[trigger] rest[i]).anchor is Visible && offset_of(
                    rest[i].anchor,
                ) == before[k].0 && rest[i].token_id == before[k].1;
            assert(attributions[i] == rest[i]);
            assert(attributions[attributions.len() - 1] == attributions.last());
        }
    }
}

/// Byte offset of an anchor.
fn anchor_offset(anchor: TokenAnchor) -> (offset: usize)
    ensures
        offset == offset_of(anchor),
{
    match anchor {
        TokenAnchor::Visible { byte_offset } => byte_offset as usize,
        TokenAnchor::ZeroWidth { byte_offset } => byte_offset as usize,
    }
}

/// Number of leading attributions whose anchor stands before `start`.
fn partition_at(attributions: &[TokenAttribution], start: usize) -> (first: usize)
    requires
        is_sorted(attributions@),
    ensures
        first <= attributions@.len(),
        forall|i: int|
            0 <= i < first ==> offset_of((#[trigger] attributions@[i]).anchor) < start,
        forall|i: int|
            first <= i < attributions@.len() ==> offset_of((#[trigger] attributions@[i]).anchor)
                >= start,
{
    let mut low: usize = 0;
    let mut high: usize = attributions.len();
    while low < high
        invariant
            low <= high <= attributions@.len(),
            is_sorted(attributions@),
            forall|i: int|
                0 <= i < low ==> offset_of((#[trigger] attributions@[i]).anchor) < start,
            forall|i: int|
                high <= i < attributions@.len() ==> offset_of((#[trigger] attributions@[i]).anchor)
                    >= start,
        decreases high - low,
    {
        let middle: usize = low + (high - low) / 2;
        if anchor_offset(attributions[middle].anchor) < start {
            low = middle + 1;
        } else {
            high = middle;
        }
    }
    low
}

impl<'i> Anchors<'i> {
    /// Visible anchors at or after `start` and before `end`, as byte offset and
    /// token ID, in generation order.
    fn visible_in(attributions: &[TokenAttribution], start: usize, end: usize) -> (visible: Vec<
        (usize, u32),
    >)
        requires
            is_sorted(attributions@),
        ensures
            visible@ == visible_between(attributions@, start as int, end as int),
    {
        let ghost all = attributions@;
        let first: usize = partition_at(attributions, start);
        let mut visible: Vec<(usize, u32)> = Vec::new();
        let mut at: usize = first;
        proof {
            visible_outside(all.take(first as int), start as int, end as int, 0);
            assert(all.take(first as int).take(0) =~= Seq::<TokenAttribution>::empty());
        }
        assert(visible@ =~= visible_between(all.take(first as int), start as int, end as int));
        while at < attributions.len() && anchor_offset(attributions[at].anchor) < end
            invariant
                all == attributions@,
                first <= at <= all.len(),
                forall|i: int|
                    first <= i < all.len() ==> offset_of((#[trigger] all[i]).anchor) >= start,
                visible@ == visible_between(all.take(at as int), start as int, end as int),
            decreases all.len() - at,
        {
            let attribution = attributions[at];
            assert(all.take(at + 1).drop_last() =~= all.take(at as int));
            assert(all.take(at + 1).last() == all[at as int]);
            if let TokenAnchor::Visible { byte_offset } = attribution.anchor {
                visible.push((byte_offset as usize, attribution.token_id));
            }
            at += 1;
        }
        proof {
            visible_outside(all, start as int, end as int, at as int);
        }
        visible
    }

    /// Return whether `range` is exactly the visible span of the single token
    /// `token_id`: one visible anchor at `range.start` with that ID and no
    /// other visible anchor inside. Zero-width records are ignored.
    ///
    /// Special tokens never merge with neighbouring text, so this is the
    /// identity test for a special token's spelling. Anchors beyond the
    /// available input do not exist yet, so a partially arrived genuine
    /// spelling passes and is left to the literal match to report as
    /// incomplete.
    pub fn is_single_token(self, range: Range<usize>, token_id: u32) -> (single: bool)
        requires
            self@.wf(),
        ensures
            single == self@.is_single(range.start as int, range.end as int, token_id),
    {
        match self {
            Anchors::TextOnly => true,
            Anchors::Tokens(attributions) => {
                let visible = Anchors::visible_in(attributions, range.start, range.end);
                visible.len() == 1 && visible[0].0 == range.start && visible[0].1 == token_id
            },
        }
    }

    /// Earliest visible anchor at or after `from` of one of the tokens `ids`.
    pub fn find_visible(self, from: usize, ids: &Vec<u32>) -> (found: Option<usize>)
        requires
            self@.wf(),
        ensures
            match found {
                Some(at) => {
                    &&& from <= at < usize::MAX
                    &&& self@.has_visible(at as int, ids@)
                    &&& forall|p: int| from <= p < at ==> !self@.has_visible(p, ids@)
                },
                None => forall|p: int| from <= p < usize::MAX ==> !self@.has_visible(p, ids@),
            },
    {
        let attributions = match self {
            Anchors::TextOnly => return None,
            Anchors::Tokens(attributions) => attributions,
        };
        let ghost all = attributions@;
        let visible = Anchors::visible_in(attributions, from, usize::MAX);
        proof {
            visible_sorted(all, from as int, usize::MAX as int);
        }
        let mut at: usize = 0;
        while at < visible.len()
            invariant
                at <= visible.len(),
                visible@ == visible_between(all, from as int, usize::MAX as int),
                self@ == AnchorsView::Tokens(all),
                forall|i: int, j: int|
                    0 <= i <= j < visible.len() ==> (#[trigger] visible@[i]).0 <= (
                    #[trigger] visible@[j]).0,
                forall|k: int| 0 <= k < at ==> !ids@.contains((#[trigger] visible@[k]).1),
            decreases visible.len() - at,
        {
            let (offset, token_id) = visible[at];
            if contains_id(ids, token_id) {
                proof {
                    visible_has_source(all, from as int, usize::MAX as int, at as int);
                    assert forall|p: int| from <= p < offset implies !self@.has_visible(
                        p,
                        ids@,
                    ) by {
                        absent_before(all, from as int, p, ids@, at as int);
                    }
                }
                return Some(offset);
            }
            at += 1;
        }
        proof {
            assert forall|p: int| from <= p < usize::MAX implies !self@.has_visible(p, ids@) by {
                absent_before(all, from as int, p, ids@, visible.len() as int);
            }
        }
        None
    }
}

/// No token of `ids` has an anchor at `p` where none of the first `count`
/// anchors is of one, and the others stand after `p`.
proof fn absent_before(
    attributions: Seq<TokenAttribution>,
    from: int,
    p: int,
    ids: Seq<u32>,
    count: int,
)
    requires
        from <= p < usize::MAX,
        0 <= count <= visible_between(attributions, from, usize::MAX as int).len(),
        forall|k: int|
            0 <= k < count ==> !ids.contains(
                (#[trigger] visible_between(attributions, from, usize::MAX as int)[k]).1,
            ),
        forall|k: int|
            count <= k < visible_between(attributions, from, usize::MAX as int).len() ==> (
            #[trigger] visible_between(attributions, from, usize::MAX as int)[k]).0 > p,
    ensures
        !AnchorsView::Tokens(attributions).has_visible(p, ids),
{
    if AnchorsView::Tokens(attributions).has_visible(p, ids) {
        let i = choose|i: int|
            0 <= i < attributions.len() && (#[trigger] attributions[i]).anchor is Visible
                && offset_of(attributions[i].anchor) == p && ids.contains(
                attributions[i].token_id,
            );
        visible_has_anchor(attributions, from, usize::MAX as int, i);
    }
}

/// Whether `id` is among `ids`.
fn contains_id(ids: &Vec<u32>, id: u32) -> (found: bool)
    ensures
        found == ids@.contains(id),
{
    let mut at: usize = 0;
    while at < ids.len()
        invariant
            at <= ids.len(),
            forall|i: int| 0 <= i < at ==> ids@[i] != id,
        decreases ids.len() - at,
    {
        if ids[at] == id {
            return true;
        }
        at += 1;
    }
    false
}

} // verus!
