//! Token-aware marker matching for streaming parsers.
//!
//! Model protocols delimit channels with dedicated special tokens such as
//! `<|close|>` and `<|sep|>`. Ordinary BPE tokens can decode to the very same
//! spelling, so matching a marker by text alone mistakes model-written content
//! for structure. The helpers here keep text as the parse axis and consult the
//! generated-token attribution carried by [`DecodedText`](anchors::DecodedText)
//! only where a marker's bytes must have come from a special token.
//!
//! - [`Attributed`](stream::Attributed) is a streaming input over one
//!   `DecodedText` buffer: the text plus its buffer-local anchors.
//! - [`special`] matches a special token's spelling only when a single token
//!   with the expected ID produced it.
//! - [`Marker`] is a fixed marker string with guarded special-token segments,
//!   built once from tokenizer IDs. It is both the parser that consumes the
//!   marker and, through [`MarkerLike`], the definition that a scanner uses to
//!   stop in front of it, so the two never disagree.
//! - [`MarkerStream`](stream::MarkerStream) abstracts over
//!   [`PartialText`](stream::PartialText) (text-only parsers) and `Attributed`,
//!   letting one generic scanner serve both.

pub mod anchors;
pub mod laws;
pub mod scan;
pub mod search;
pub mod stream;

use vstd::prelude::*;
use vstd::utf8::encode_utf8;
use winnow::error::{ContextError, ErrMode};
use winnow::stream::Partial;
use winnow::Parser;

use self::anchors::{Anchors, AnchorsView};
use self::laws::{is_genuine, recognised_where_genuine};
use self::stream::{MarkerStream, StreamState};
use crate::text::{encode_utf8_concat, encode_utf8_injective};

verus! {

/// Why a marker was not consumed.
#[derive(Clone, Copy, Debug, PartialEq, Eq, Structural)]
pub enum MarkerError {
    /// The marker does not stand at the cursor.
    Backtrack,
    /// More input is needed to decide.
    Incomplete,
}

/// Number of bytes that a text takes.
pub open spec fn byte_len(text: Seq<char>) -> nat {
    encode_utf8(text).len()
}

/// How `spelling` matches at the start of `text`: in full, or else as far as
/// `text` goes, or not at all.
pub open spec fn literal_match(text: Seq<char>, spelling: Seq<char>) -> Result<(), MarkerError> {
    if spelling.is_prefix_of(text) {
        Ok(())
    } else if text.is_prefix_of(spelling) {
        Err(MarkerError::Incomplete)
    } else {
        Err(MarkerError::Backtrack)
    }
}

/// How the special token `token_id`, spelled `spelling`, matches at the start
/// of `text`, which stands at byte offset `at`.
pub open spec fn special_match(
    text: Seq<char>,
    at: int,
    anchors: AnchorsView,
    spelling: Seq<char>,
    token_id: u32,
) -> Result<(), MarkerError> {
    if text.len() > 0 && !anchors.is_single(at, at + byte_len(spelling), token_id) {
        Err(MarkerError::Backtrack)
    } else {
        literal_match(text, spelling)
    }
}

/// Text and the special token that follows it.
#[verifier::ext_equal]
pub struct PartView {
    /// Ordinary text, matched by spelling.
    pub before: Seq<char>,
    /// Spelling of the special token.
    pub spelling: Seq<char>,
    pub token_id: u32,
}

/// What a marker is made of: special tokens with the text before each, and the
/// text after the last.
#[verifier::ext_equal]
pub struct MarkerView {
    pub parts: Seq<PartView>,
    pub tail: Seq<char>,
}

/// The spelling of a marker's parts and tail.
pub open spec fn spelling_of(parts: Seq<PartView>, tail: Seq<char>) -> Seq<char>
    decreases parts.len(),
{
    if parts.len() == 0 {
        tail
    } else {
        parts[0].before + (parts[0].spelling + spelling_of(parts.drop_first(), tail))
    }
}

/// How a marker's parts and tail match at the start of `text`, which stands at
/// byte offset `at`.
pub open spec fn parts_match(
    parts: Seq<PartView>,
    tail: Seq<char>,
    text: Seq<char>,
    at: int,
    anchors: AnchorsView,
) -> Result<(), MarkerError>
    decreases parts.len(),
{
    if parts.len() == 0 {
        literal_match(text, tail)
    } else {
        let part = parts[0];
        let text_after = text.skip(part.before.len() as int);
        let at_after = at + byte_len(part.before);
        match literal_match(text, part.before) {
            Ok(_) => match special_match(
                text_after,
                at_after,
                anchors,
                part.spelling,
                part.token_id,
            ) {
                Ok(_) => parts_match(
                    parts.drop_first(),
                    tail,
                    text_after.skip(part.spelling.len() as int),
                    at_after + byte_len(part.spelling),
                    anchors,
                ),
                Err(error) => Err(error),
            },
            Err(error) => Err(error),
        }
    }
}

impl MarkerView {
    /// A marker matched by spelling alone.
    pub open spec fn of_text(text: Seq<char>) -> MarkerView {
        MarkerView { parts: Seq::empty(), tail: text }
    }

    /// The marker with text appended.
    pub open spec fn with_text(self, text: Seq<char>) -> MarkerView {
        MarkerView { tail: self.tail + text, ..self }
    }

    /// The marker with a special token appended.
    pub open spec fn with_special(self, spelling: Seq<char>, token_id: u32) -> MarkerView {
        MarkerView {
            parts: self.parts.push(PartView { before: self.tail, spelling, token_id }),
            tail: Seq::empty(),
        }
    }

    /// The full spelling.
    pub open spec fn spelling(self) -> Seq<char> {
        spelling_of(self.parts, self.tail)
    }

    /// The special token that the marker begins with, if it begins with one.
    pub open spec fn first_token(self) -> Option<u32> {
        if self.parts.len() > 0 && self.parts[0].before.len() == 0 {
            Some(self.parts[0].token_id)
        } else {
            None
        }
    }

    /// How the marker matches at a stream's cursor.
    pub open spec fn matched(self, state: StreamState) -> Result<(), MarkerError> {
        parts_match(self.parts, self.tail, state.text, state.at as int, state.anchors)
    }
}

/// What an attempt to consume `spelling` leads to: on a match the spelling is
/// handed back and the cursor stands after it, and on a failure nothing is
/// consumed.
pub open spec fn consumes(
    before: StreamState,
    after: StreamState,
    matched: Result<(), MarkerError>,
    spelling: Seq<char>,
    outcome: Result<&str, MarkerError>,
) -> bool {
    match outcome {
        Ok(slice) => {
            &&& matched is Ok
            &&& slice@ == spelling
            &&& before.text == spelling + after.text
            &&& after == before.advanced(spelling)
        },
        Err(error) => matched == Err::<(), _>(error) && after == before,
    }
}

/// What a successful attempt to consume `spelling` hands back and leaves: the
/// spelling is what stood at the cursor, all that followed it remains, and an
/// offset that follows the cursor moves on by the bytes of the spelling. A
/// failed attempt leaves the stream as it was.
pub open spec fn leaves_the_rest(
    before: StreamState,
    after: StreamState,
    spelling: Seq<char>,
    outcome: Result<&str, MarkerError>,
) -> bool {
    match outcome {
        Ok(slice) => {
            &&& slice@ == spelling
            &&& before.text == slice@ + after.text
            &&& before.tracks ==> after.at == before.at + byte_len(spelling)
            &&& !before.tracks ==> after.at == before.at
            &&& after.anchors == before.anchors
            &&& after.tracks == before.tracks
        },
        Err(_) => after == before,
    }
}

/// winnow's `literal` on a partial input: the matched text and the input after
/// it. It asks for more input where all of the input is a proper prefix of
/// `spelling`, and backtracks where the two differ.
#[verifier::external_body]
fn literal<'i>(text: &'i str, spelling: &str) -> (outcome: Result<(&'i str, &'i str), MarkerError>)
    ensures
        match outcome {
            Ok((matched, rest)) => {
                &&& literal_match(text@, spelling@) is Ok
                &&& matched@ == spelling@
                &&& text@ == spelling@ + rest@
            },
            Err(error) => literal_match(text@, spelling@) == Err::<(), _>(error),
        },
{
    let mut input = Partial::new(text);
    let outcome: Result<&'i str, ErrMode<ContextError>> =
        winnow::token::literal(spelling).parse_next(&mut input);
    match outcome {
        Ok(matched) => Ok((matched, input.into_inner())),
        Err(ErrMode::Incomplete(_)) => Err(MarkerError::Incomplete),
        Err(_) => Err(MarkerError::Backtrack),
    }
}

/// Match the special token `token_id` at the start of `text`, which stands at
/// byte offset `at`.
fn special_at<'i>(
    text: &'i str,
    at: usize,
    anchors: Anchors<'i>,
    spelling: &str,
    token_id: u32,
) -> (outcome: Result<(&'i str, &'i str), MarkerError>)
    requires
        anchors@.wf(),
        at + byte_len(spelling@) <= usize::MAX,
    ensures
        match outcome {
            Ok((matched, rest)) => {
                &&& special_match(text@, at as int, anchors@, spelling@, token_id) is Ok
                &&& matched@ == spelling@
                &&& text@ == spelling@ + rest@
            },
            Err(error) => special_match(text@, at as int, anchors@, spelling@, token_id) == Err::<
                (),
                _,
            >(error),
        },
{
    let end: usize = at + spelling.as_bytes().len();
    if !text.is_empty() && !anchors.is_single_token(at..end, token_id) {
        return Err(MarkerError::Backtrack);
    }
    literal(text, spelling)
}

/// Consume `spelling`, which stands at the cursor.
fn consume<'i, I: MarkerStream<'i>>(input: &mut I, spelling: &str) -> (slice: &'i str)
    requires
        old(input).state().wf(),
        spelling@.is_prefix_of(old(input).state().text),
    ensures
        slice@ == spelling@,
        old(input).state().text == spelling@ + final(input).state().text,
        final(input).state() == old(input).state().advanced(spelling@),
        final(input).state().wf(),
{
    let ghost text = input.state().text;
    let ghost rest = text.skip(spelling@.len() as int);
    let len: usize = spelling.as_bytes().len();
    proof {
        assert(text =~= spelling@ + rest);
        crate::text::concat_boundary(spelling@, rest);
    }
    let slice = input.next_slice(len);
    proof {
        let after = input.state().text;
        encode_utf8_concat(spelling@, rest);
        encode_utf8_concat(slice@, after);
        assert(encode_utf8(slice@) =~= encode_utf8(text).take(len as int));
        assert(encode_utf8(spelling@) =~= encode_utf8(text).take(len as int));
        encode_utf8_injective(slice@, spelling@);
    }
    slice
}

/// Parse the spelling of one special token, only when a single token with ID
/// `token_id` produced it.
///
/// The identity check runs before the literal match: when bytes are available
/// at the cursor and they do not belong to that token, the parser backtracks at
/// once instead of asking for more input, so an ordinary partial lookalike
/// streams as content immediately. A genuine spelling split by output holdback
/// still reports incomplete, because its anchor arrived with its first byte.
/// Nothing is consumed on either failure path. Under [`Anchors::TextOnly`] this
/// is a plain literal match.
pub fn special<'i, I: MarkerStream<'i>>(input: &mut I, spelling: &str, token_id: u32) -> (outcome:
    Result<&'i str, MarkerError>)
    requires
        old(input).state().wf(),
        old(input).state().at + byte_len(spelling@) <= usize::MAX,
    ensures
        consumes(
            old(input).state(),
            final(input).state(),
            special_match(
                old(input).state().text,
                old(input).state().at as int,
                old(input).state().anchors,
                spelling@,
                token_id,
            ),
            spelling@,
            outcome,
        ),
        final(input).state().wf(),
        leaves_the_rest(old(input).state(), final(input).state(), spelling@, outcome),
        outcome is Ok <==> spelling@.is_prefix_of(old(input).state().text) && (
        old(input).state().text.len() == 0 || old(input).state().anchors.is_single(
            old(input).state().at as int,
            old(input).state().at as int + byte_len(spelling@) as int,
            token_id,
        )),
{
    match special_at(input.remaining(), input.offset(), input.anchors(), spelling, token_id) {
        Ok(_) => Ok(consume(input, spelling)),
        Err(error) => Err(error),
    }
}

/// A fixed marker: pure text, or text with guarded special-token segments.
///
/// Implemented for `str` (and references), so text-only parsers keep passing
/// plain strings, and for [`Marker`].
pub trait MarkerLike {
    /// What the marker is made of.
    spec fn marker(&self) -> MarkerView;

    /// The full spelling of the marker.
    fn text(&self) -> (text: &str)
        ensures
            text@ == self.marker().spelling(),
    ;

    /// The special token the marker begins with, if it begins with one.
    fn first_token_id(&self) -> (token_id: Option<u32>)
        ensures
            token_id == self.marker().first_token(),
    ;

    /// Parse the marker at the cursor, returning its spelling.
    fn parse_marker<'i, I: MarkerStream<'i>>(&self, input: &mut I) -> (outcome: Result<
        &'i str,
        MarkerError,
    >)
        requires
            old(input).state().wf(),
            old(input).state().at + byte_len(self.marker().spelling()) <= usize::MAX,
        ensures
            consumes(
                old(input).state(),
                final(input).state(),
                self.marker().matched(old(input).state()),
                self.marker().spelling(),
                outcome,
            ),
            final(input).state().wf(),
            leaves_the_rest(
                old(input).state(),
                final(input).state(),
                self.marker().spelling(),
                outcome,
            ),
            self.marker().spelling().is_prefix_of(old(input).state().text) && is_genuine(
                self.marker().parts,
                old(input).state().at as int,
                old(input).state().anchors,
            ) ==> outcome is Ok,
    ;
}

impl MarkerLike for str {
    open spec fn marker(&self) -> MarkerView {
        MarkerView::of_text(self@)
    }

    fn text(&self) -> (text: &str) {
        self
    }

    fn first_token_id(&self) -> (token_id: Option<u32>) {
        None
    }

    fn parse_marker<'i, I: MarkerStream<'i>>(&self, input: &mut I) -> (outcome: Result<
        &'i str,
        MarkerError,
    >) {
        match literal(input.remaining(), self) {
            Ok(_) => Ok(consume(input, self)),
            Err(error) => Err(error),
        }
    }
}

impl MarkerLike for String {
    open spec fn marker(&self) -> MarkerView {
        MarkerView::of_text(self@)
    }

    fn text(&self) -> (text: &str) {
        self.as_str()
    }

    fn first_token_id(&self) -> (token_id: Option<u32>) {
        None
    }

    fn parse_marker<'i, I: MarkerStream<'i>>(&self, input: &mut I) -> (outcome: Result<
        &'i str,
        MarkerError,
    >) {
        self.as_str().parse_marker(input)
    }
}

impl<M: MarkerLike + ?Sized> MarkerLike for &M {
    open spec fn marker(&self) -> MarkerView {
        (**self).marker()
    }

    fn text(&self) -> (text: &str) {
        (**self).text()
    }

    fn first_token_id(&self) -> (token_id: Option<u32>) {
        (**self).first_token_id()
    }

    fn parse_marker<'i, I: MarkerStream<'i>>(&self, input: &mut I) -> (outcome: Result<
        &'i str,
        MarkerError,
    >) {
        (**self).parse_marker(input)
    }
}

/// One special token of a [`Marker`], with the text before it.
#[derive(Debug, PartialEq, Eq)]
struct Part {
    before: String,
    spelling: String,
    token_id: u32,
}

impl DeepView for Part {
    type V = PartView;

    closed spec fn deep_view(&self) -> PartView {
        PartView { before: self.before@, spelling: self.spelling@, token_id: self.token_id }
    }
}

impl Clone for Part {
    fn clone(&self) -> (copy: Self)
        ensures
            copy.deep_view() == self.deep_view(),
    {
        Part {
            before: self.before.clone(),
            spelling: self.spelling.clone(),
            token_id: self.token_id,
        }
    }
}

/// A fixed marker string whose special-token segments are guarded by token
/// identity.
///
/// Build it once from tokenizer IDs, then use it both as the parser that
/// consumes the marker and as the definition a scanner stops in front of.
///
/// ```ignore
/// let think_close = Marker::special("<|close|>", close_id)
///     .then_text("think")
///     .then_special("<|sep|>", sep_id);
/// ```
#[derive(Debug, PartialEq, Eq)]
pub struct Marker {
    /// The full spelling.
    text: String,
    parts: Vec<Part>,
    tail: String,
}

impl View for Marker {
    type V = MarkerView;

    closed spec fn view(&self) -> MarkerView {
        MarkerView { parts: self.parts.deep_view(), tail: self.tail@ }
    }
}

impl Clone for Marker {
    fn clone(&self) -> (copy: Self)
        ensures
            copy@ == self@,
    {
        proof {
            use_type_invariant(self);
        }
        let parts = self.parts.clone();
        assert(parts.deep_view() =~= self.parts.deep_view());
        Marker { text: self.text.clone(), parts, tail: self.tail.clone() }
    }
}

/// Appending to a marker's tail appends to its spelling.
pub proof fn spelling_extends(parts: Seq<PartView>, tail: Seq<char>, text: Seq<char>)
    ensures
        spelling_of(parts, tail + text) == spelling_of(parts, tail) + text,
    decreases parts.len(),
{
    if parts.len() > 0 {
        let rest = parts.drop_first();
        spelling_extends(rest, tail, text);
        assert(spelling_of(parts, tail + text) =~= spelling_of(parts, tail) + text);
    }
}

/// Turning a marker's tail into a part keeps its spelling.
pub proof fn spelling_pushes(parts: Seq<PartView>, part: PartView)
    ensures
        spelling_of(parts.push(part), Seq::empty()) == spelling_of(
            parts,
            part.before + part.spelling,
        ),
    decreases parts.len(),
{
    reveal_with_fuel(spelling_of, 2);
    if parts.len() > 0 {
        assert(parts.push(part).drop_first() =~= parts.drop_first().push(part));
        spelling_pushes(parts.drop_first(), part);
    } else {
        assert(parts.push(part).drop_first() =~= Seq::<PartView>::empty());
        assert(part.spelling + Seq::<char>::empty() =~= part.spelling);
    }
}

impl Marker {
    /// The full spelling is the one of the parts.
    #[verifier::type_invariant]
    spec fn is_spelled(self) -> bool {
        self.text@ == self@.spelling()
    }

    /// A marker matched by spelling alone.
    pub fn text(text: &str) -> (marker: Self)
        ensures
            marker@ == MarkerView::of_text(text@),
    {
        let parts: Vec<Part> = Vec::new();
        assert(parts.deep_view() =~= Seq::<PartView>::empty());
        Marker { text: text.to_string(), parts, tail: text.to_string() }
    }

    /// A marker beginning with the special token `token_id` spelled `spelling`.
    pub fn special(spelling: &str, token_id: u32) -> (marker: Self)
        ensures
            marker@ == MarkerView::of_text(Seq::empty()).with_special(spelling@, token_id),
    {
        proof {
            reveal_strlit("");
        }
        assert(""@ =~= Seq::<char>::empty());
        Marker::text("").then_special(spelling, token_id)
    }

    /// Append ordinary text, matched by spelling.
    #[must_use]
    pub fn then_text(self, text: &str) -> (marker: Self)
        ensures
            marker@ == self@.with_text(text@),
    {
        proof {
            use_type_invariant(&self);
            spelling_extends(self@.parts, self@.tail, text@);
        }
        let Marker { text: mut spelled, parts, mut tail } = self;
        spelled.append(text);
        tail.append(text);
        Marker { text: spelled, parts, tail }
    }

    /// Append the special token `token_id` spelled `spelling`.
    #[must_use]
    pub fn then_special(self, spelling: &str, token_id: u32) -> (marker: Self)
        ensures
            marker@ == self@.with_special(spelling@, token_id),
    {
        proof {
            use_type_invariant(&self);
            spelling_extends(self@.parts, self@.tail, spelling@);
            spelling_pushes(
                self@.parts,
                PartView { before: self@.tail, spelling: spelling@, token_id },
            );
        }
        let Marker { text: mut spelled, mut parts, tail } = self;
        let ghost before = parts.deep_view();
        spelled.append(spelling);
        parts.push(Part { before: tail, spelling: spelling.to_string(), token_id });
        let rest = String::new();
        assert(parts.deep_view() =~= before.push(
            PartView { before: tail@, spelling: spelling@, token_id },
        ));
        assert(rest@ =~= Seq::<char>::empty());
        Marker { text: spelled, parts, tail: rest }
    }

    /// The full spelling of the marker.
    pub fn as_str(&self) -> (text: &str)
        ensures
            text@ == self@.spelling(),
    {
        proof {
            use_type_invariant(self);
        }
        self.text.as_str()
    }

    /// Match the parts and the tail at the start of `text`, which stands at
    /// byte offset `at`.
    fn match_parts<'i>(&self, text: &'i str, at: usize, anchors: Anchors<'i>) -> (outcome: Result<
        (),
        MarkerError,
    >)
        requires
            anchors@.wf(),
            at + byte_len(self@.spelling()) <= usize::MAX,
        ensures
            outcome == parts_match(self@.parts, self@.tail, text@, at as int, anchors@),
            outcome is Ok ==> self@.spelling().is_prefix_of(text@),
    {
        let ghost all = self.parts.deep_view();
        let ghost tail = self.tail@;
        let mut rest: &'i str = text;
        let mut offset: usize = at;
        let mut next: usize = 0;
        assert(all.skip(0) =~= all);
        while next < self.parts.len()
            invariant
                next <= self.parts.len(),
                all == self.parts.deep_view(),
                tail == self.tail@,
                self@ == (MarkerView { parts: all, tail }),
                anchors@.wf(),
                offset + byte_len(spelling_of(all.skip(next as int), tail)) <= usize::MAX,
                parts_match(all, tail, text@, at as int, anchors@) == parts_match(
                    all.skip(next as int),
                    tail,
                    rest@,
                    offset as int,
                    anchors@,
                ),
                spelling_of(all.skip(next as int), tail).is_prefix_of(rest@)
                    ==> self@.spelling().is_prefix_of(text@),
            decreases self.parts.len() - next,
        {
            let ghost left = all.skip(next as int);
            let ghost after = spelling_of(left.drop_first(), tail);
            let part = &self.parts[next];
            proof {
                assert(left[0] == part.deep_view());
                assert(left.drop_first() =~= all.skip(next + 1));
                encode_utf8_concat(part.before@, part.spelling@ + after);
                encode_utf8_concat(part.spelling@, after);
            }
            let before = match literal(rest, part.before.as_str()) {
                Ok((_, after)) => after,
                Err(error) => return Err(error),
            };
            assert(before@ =~= rest@.skip(part.before@.len() as int));
            let middle: usize = offset + part.before.as_str().as_bytes().len();
            let behind = match special_at(
                before,
                middle,
                anchors,
                part.spelling.as_str(),
                part.token_id,
            ) {
                Ok((_, after)) => after,
                Err(error) => return Err(error),
            };
            assert(behind@ =~= before@.skip(part.spelling@.len() as int));
            proof {
                let spelled = spelling_of(left, tail);
                if after.is_prefix_of(behind@) {
                    assert(rest@ =~= part.before@ + (part.spelling@ + behind@));
                    assert(spelled =~= rest@.take(spelled.len() as int));
                }
            }
            offset = middle + part.spelling.as_str().as_bytes().len();
            rest = behind;
            next += 1;
        }
        assert(all.skip(next as int).len() == 0);
        match literal(rest, self.tail.as_str()) {
            Ok(_) => Ok(()),
            Err(error) => Err(error),
        }
    }
}

impl MarkerLike for Marker {
    open spec fn marker(&self) -> MarkerView {
        self@
    }

    fn text(&self) -> (text: &str) {
        self.as_str()
    }

    fn first_token_id(&self) -> (token_id: Option<u32>) {
        if self.parts.len() > 0 && self.parts[0].before.as_str().is_empty() {
            Some(self.parts[0].token_id)
        } else {
            None
        }
    }

    fn parse_marker<'i, I: MarkerStream<'i>>(&self, input: &mut I) -> (outcome: Result<
        &'i str,
        MarkerError,
    >) {
        proof {
            recognised_where_genuine(self@, input.state());
        }
        match self.match_parts(input.remaining(), input.offset(), input.anchors()) {
            // Hand the whole spelling back as one slice.
            Ok(_) => Ok(consume(input, self.as_str())),
            Err(error) => Err(error),
        }
    }
}

/// Byte offset of the special token of part `k` from the start of a marker.
pub open spec fn token_offset(parts: Seq<PartView>, k: int) -> nat {
    byte_len(spelling_of(parts.take(k), parts[k].before))
}

/// With attribution, a marker is consumed only where each of its special tokens
/// was generated as that single token: a mix with ordinary tokens of the same
/// spelling stays content.
pub proof fn consumed_marker_is_genuine(
    parts: Seq<PartView>,
    tail: Seq<char>,
    text: Seq<char>,
    at: int,
    anchors: AnchorsView,
    k: int,
)
    requires
        parts_match(parts, tail, text, at, anchors) is Ok,
        0 <= k < parts.len(),
        parts[k].spelling.len() > 0,
    ensures
        anchors.is_single(
            at + token_offset(parts, k),
            at + token_offset(parts, k) + byte_len(parts[k].spelling),
            parts[k].token_id,
        ),
    decreases parts.len(),
{
    let first = parts[0];
    let middle = text.skip(first.before.len() as int);
    if k == 0 {
        assert(parts.take(0) =~= Seq::<PartView>::empty());
        assert(middle.len() > 0);
    } else {
        let rest = parts.drop_first();
        let inner = spelling_of(rest.take(k - 1), parts[k].before);
        consumed_marker_is_genuine(
            rest,
            tail,
            middle.skip(first.spelling.len() as int),
            at + byte_len(first.before) + byte_len(first.spelling),
            anchors,
            k - 1,
        );
        assert(parts.take(k).drop_first() =~= rest.take(k - 1));
        encode_utf8_concat(first.before, first.spelling + inner);
        encode_utf8_concat(first.spelling, inner);
    }
}

/// Where no attribution is available, special tokens match as plain text.
pub proof fn special_is_literal_in_text_only_mode(
    text: Seq<char>,
    at: int,
    spelling: Seq<char>,
    token_id: u32,
)
    ensures
        special_match(text, at, AnchorsView::TextOnly, spelling, token_id) == literal_match(
            text,
            spelling,
        ),
{
}

} // verus!
