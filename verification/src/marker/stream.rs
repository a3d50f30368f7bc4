//! Streaming inputs that markers are parsed from.

use vstd::prelude::*;
use vstd::utf8::{encode_utf8, encode_utf8_valid_utf8, is_char_boundary};

use super::anchors::{is_sorted, Anchors, AnchorsView, AttributionMode, DecodedText};
use super::byte_len;
use crate::text::{encode_utf8_concat, encode_utf8_injective};

verus! {

/// What a stream holds.
#[verifier::ext_equal]
pub struct StreamState {
    /// Remaining input from the cursor.
    pub text: Seq<char>,
    /// Byte offset that the stream reports for the cursor.
    pub at: nat,
    /// Whether the reported offset follows the cursor.
    pub tracks: bool,
    /// Token anchors of the buffer.
    pub anchors: AnchorsView,
}

impl StreamState {
    /// Offsets within the input are machine integers, and anchors are in order.
    pub open spec fn wf(self) -> bool {
        &&& self.at + byte_len(self.text) <= usize::MAX
        &&& self.anchors.wf()
    }

    /// The state after `spelling` at the cursor was consumed.
    pub open spec fn advanced(self, spelling: Seq<char>) -> StreamState {
        StreamState {
            text: self.text.skip(spelling.len() as int),
            at: if self.tracks {
                self.at + byte_len(spelling)
            } else {
                self.at
            },
            ..self
        }
    }
}

/// A streaming text input with a cursor.
///
/// Implemented for [`PartialText`] (text-only parsers) and [`Attributed`].
pub trait MarkerStream<'i>: Sized {
    /// What the stream holds.
    spec fn state(&self) -> StreamState;

    /// Remaining input from the cursor.
    fn remaining(&self) -> (rest: &'i str)
        ensures
            rest@ == self.state().text,
    ;

    /// Byte offset of the cursor in the coordinate system used by
    /// [`next_candidate`](super::scan::MarkerScan::next_candidate) and by
    /// resumable scan state.
    ///
    /// [`PartialText`] tracks no origin and reports 0, so its offsets are
    /// relative to the cursor at the time of the call; [`Attributed`] reports
    /// the offset from the buffer start.
    fn offset(&self) -> (at: usize)
        requires
            self.state().wf(),
        ensures
            at == self.state().at,
    ;

    /// Token anchors of the buffer.
    fn anchors(&self) -> (anchors: Anchors<'i>)
        ensures
            anchors@ == self.state().anchors,
    ;

    /// Consume the next `len` bytes and hand them back.
    fn next_slice(&mut self, len: usize) -> (slice: &'i str)
        requires
            old(self).state().wf(),
            is_char_boundary(encode_utf8(old(self).state().text), len as int),
        ensures
            byte_len(slice@) == len,
            old(self).state().text == slice@ + final(self).state().text,
            final(self).state() == old(self).state().advanced(slice@),
            final(self).state().wf(),
            final(self).state().at == old(self).state().at + (if old(self).state().tracks {
                len as int
            } else {
                0
            }),
            final(self).state().anchors == old(self).state().anchors,
            final(self).state().tracks == old(self).state().tracks,
    ;
}

/// Split a text at a character boundary.
fn split<'i>(text: &'i str, len: usize) -> (pieces: (&'i str, &'i str))
    requires
        is_char_boundary(encode_utf8(text@), len as int),
        byte_len(text@) <= usize::MAX,
    ensures
        byte_len(pieces.0@) == len,
        text@ == pieces.0@ + pieces.1@,
        byte_len(text@) == len + byte_len(pieces.1@),
{
    let pieces = text.split_at(len);
    proof {
        let (first, second) = (pieces.0@, pieces.1@);
        encode_utf8_valid_utf8(text@);
        encode_utf8_concat(first, second);
        boundary_in_range(encode_utf8(text@), len as int);
        assert(encode_utf8(first + second) =~= encode_utf8(text@));
        encode_utf8_injective(first + second, text@);
    }
    pieces
}

/// A character boundary lies within the text.
proof fn boundary_in_range(bytes: Seq<u8>, at: int)
    requires
        vstd::utf8::valid_utf8(bytes),
        is_char_boundary(bytes, at),
    ensures
        0 <= at <= bytes.len(),
{
}

/// Streaming text without attribution.
#[derive(Clone, Copy, Debug)]
pub struct PartialText<'i> {
    text: &'i str,
}

impl<'i> PartialText<'i> {
    /// An input over `text`.
    pub fn new(text: &'i str) -> (input: Self)
        ensures
            input.state() == (StreamState {
                text: text@,
                at: 0,
                tracks: false,
                anchors: AnchorsView::TextOnly,
            }),
            input.state().wf(),
    {
        let len: usize = text.as_bytes().len();
        assert(byte_len(text@) == len);
        PartialText { text }
    }

    /// Offsets are relative to the cursor, and there is no attribution.
    pub proof fn state_is_textual(&self)
        ensures
            self.state().at == 0,
            self.state().anchors == AnchorsView::TextOnly,
    {
    }
}

impl<'i> MarkerStream<'i> for PartialText<'i> {
    closed spec fn state(&self) -> StreamState {
        StreamState {
            text: self.text@,
            at: 0,
            tracks: false,
            anchors: AnchorsView::TextOnly,
        }
    }

    fn remaining(&self) -> (rest: &'i str) {
        self.text
    }

    fn offset(&self) -> (at: usize) {
        0
    }

    fn anchors(&self) -> (anchors: Anchors<'i>) {
        Anchors::TextOnly
    }

    fn next_slice(&mut self, len: usize) -> (slice: &'i str) {
        let (slice, rest) = split(self.text, len);
        assert(rest@ =~= self.text@.skip(slice@.len() as int));
        self.text = rest;
        slice
    }
}

/// Streaming input over one [`DecodedText`] buffer.
///
/// It reports the cursor's byte offset from the buffer start, which is the
/// coordinate system of the anchors, and carries the immutable anchors.
#[derive(Clone, Copy, Debug)]
pub struct Attributed<'i> {
    text: &'i str,
    offset: usize,
    anchors: Anchors<'i>,
}

impl<'i> Attributed<'i> {
    /// An input whose cursor stands at byte `offset` of its buffer, before
    /// `text`.
    pub fn resume(text: &'i str, offset: usize, anchors: Anchors<'i>) -> (input: Self)
        ensures
            input.state() == (StreamState {
                text: text@,
                at: offset as nat,
                tracks: true,
                anchors: anchors@,
            }),
    {
        Attributed { text, offset, anchors }
    }
}

impl<'i> MarkerStream<'i> for Attributed<'i> {
    closed spec fn state(&self) -> StreamState {
        StreamState {
            text: self.text@,
            at: self.offset as nat,
            tracks: true,
            anchors: self.anchors@,
        }
    }

    fn remaining(&self) -> (rest: &'i str) {
        self.text
    }

    fn offset(&self) -> (at: usize) {
        self.offset
    }

    fn anchors(&self) -> (anchors: Anchors<'i>) {
        self.anchors
    }

    fn next_slice(&mut self, len: usize) -> (slice: &'i str) {
        let (slice, rest) = split(self.text, len);
        assert(rest@ =~= self.text@.skip(slice@.len() as int));
        self.text = rest;
        self.offset = self.offset + len;
        slice
    }
}

/// The anchors of a buffer under `mode`.
pub open spec fn anchors_of(buffer: DecodedText, mode: AttributionMode) -> AnchorsView {
    match mode {
        AttributionMode::Tokens => AnchorsView::Tokens(buffer.attributions@),
        AttributionMode::TextOnly => AnchorsView::TextOnly,
    }
}

/// Create an [`Attributed`] input over `buffer` under `mode`.
pub fn attributed<'i>(buffer: &'i DecodedText, mode: AttributionMode) -> (input: Attributed<'i>)
    ensures
        input.state() == (StreamState {
            text: buffer.text@,
            at: 0,
            tracks: true,
            anchors: anchors_of(*buffer, mode),
        }),
        is_sorted(buffer.attributions@) ==> input.state().wf(),
        mode is Tokens ==> input.state().anchors == AnchorsView::Tokens(buffer.attributions@),
        mode is TextOnly ==> input.state().anchors is TextOnly,
{
    let len: usize = buffer.text.as_str().as_bytes().len();
    assert(byte_len(buffer.text@) == len);
    Attributed {
        text: buffer.text.as_str(),
        offset: 0,
        anchors: match mode {
            AttributionMode::Tokens => Anchors::Tokens(buffer.attributions.as_slice()),
            AttributionMode::TextOnly => Anchors::TextOnly,
        },
    }
}

} // verus!
