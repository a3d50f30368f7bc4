//! Where marker spellings may begin in a text.
//!
//! Positions are byte offsets, so texts are taken by their UTF-8 bytes.

use vstd::prelude::*;
use vstd::string::StringSliceAdditionalSpecFns;
use vstd::utf8::{
    encode_utf8_valid_utf8, is_char_boundary, is_char_boundary_iff_not_is_continuation_byte,
    is_char_boundary_start_end_of_seq, valid_utf8,
};
use winnow::stream::FindSlice;

verus! {

/// Whether `needle` occurs at `at`.
pub open spec fn occurs_at(text: Seq<u8>, needle: Seq<u8>, at: int) -> bool {
    0 <= at && at + needle.len() <= text.len() && text.subrange(at, at + needle.len()) == needle
}

/// Whether the last `len` bytes of `text` are a proper prefix of `needle`.
pub open spec fn ends_with_prefix(text: Seq<u8>, needle: Seq<u8>, len: int) -> bool {
    0 < len <= text.len() && len < needle.len() && text.skip(text.len() - len) == needle.take(len)
}

/// Whether `needle` may begin at `at`: it occurs there in full, or a proper
/// prefix of it stands there and ends the text.
pub open spec fn begins_at(text: Seq<u8>, needle: Seq<u8>, at: int) -> bool {
    &&& 0 <= at < text.len()
    &&& is_char_boundary(text, at)
    &&& occurs_at(text, needle, at) || ends_with_prefix(text, needle, text.len() - at)
}

/// Whether one of `needles` occurs at `at`.
pub open spec fn any_occurs(text: Seq<u8>, needles: Seq<Seq<u8>>, at: int) -> bool {
    exists|i: int| 0 <= i < needles.len() && occurs_at(text, #[trigger] needles[i], at)
}

/// Whether one of `needles` may begin at `at`.
pub open spec fn any_begins(text: Seq<u8>, needles: Seq<Seq<u8>>, at: int) -> bool {
    exists|i: int| 0 <= i < needles.len() && begins_at(text, #[trigger] needles[i], at)
}

/// `found` is the earliest position at which one of `needles` occurs.
pub open spec fn is_first_occurrence(
    found: Option<usize>,
    text: Seq<u8>,
    needles: Seq<Seq<u8>>,
) -> bool {
    match found {
        Some(at) => {
            &&& any_occurs(text, needles, at as int)
            &&& forall|p: int| 0 <= p < at ==> !any_occurs(text, needles, p)
        },
        None => forall|p: int| 0 <= p ==> !any_occurs(text, needles, p),
    }
}

/// `found` is the earliest position at or after `from` at which one of
/// `needles` may begin.
pub open spec fn is_first_beginning(
    found: Option<usize>,
    text: Seq<u8>,
    needles: Seq<Seq<u8>>,
    from: int,
) -> bool {
    match found {
        Some(at) => {
            &&& from <= at
            &&& any_begins(text, needles, at as int)
            &&& forall|p: int| from <= p < at ==> !any_begins(text, needles, p)
        },
        None => forall|p: int| from <= p ==> !any_begins(text, needles, p),
    }
}

/// The bytes of spellings.
pub open spec fn spelled(spellings: Seq<&str>) -> Seq<Seq<u8>> {
    spellings.map_values(|spelling: &str| spelling.spec_bytes())
}

/// winnow's `find_slice` with one literal: the earliest byte offset at which
/// the literal occurs.
#[verifier::external_body]
fn find_one(text: &str, first: &str) -> (found: Option<usize>)
    ensures
        is_first_occurrence(found, text.spec_bytes(), seq![first.spec_bytes()]),
{
    text.find_slice(first).map(|range| range.start)
}

/// winnow's `find_slice` with two literals: the earliest byte offset at which
/// one of them occurs.
#[verifier::external_body]
fn find_two(text: &str, first: &str, second: &str) -> (found: Option<usize>)
    ensures
        is_first_occurrence(
            found,
            text.spec_bytes(),
            seq![first.spec_bytes(), second.spec_bytes()],
        ),
{
    text.find_slice((first, second)).map(|range| range.start)
}

/// winnow's `find_slice` with three literals: the earliest byte offset at which
/// one of them occurs.
#[verifier::external_body]
fn find_three(text: &str, first: &str, second: &str, third: &str) -> (found: Option<usize>)
    ensures
        is_first_occurrence(
            found,
            text.spec_bytes(),
            seq![first.spec_bytes(), second.spec_bytes(), third.spec_bytes()],
        ),
{
    text.find_slice((first, second, third)).map(|range| range.start)
}

/// `str::find` with a text to find: the earliest byte offset at which it
/// occurs.
#[verifier::external_body]
fn find_str(text: &str, spelling: &str) -> (found: Option<usize>)
    ensures
        is_first_occurrence(found, text.spec_bytes(), seq![spelling.spec_bytes()]),
{
    text.find(spelling)
}

/// What one needle in a sequence of one says.
proof fn occurs_single(text: Seq<u8>, needle: Seq<u8>)
    ensures
        forall|p: int|
            #![trigger any_occurs(text, seq![needle], p)]
            #![trigger occurs_at(text, needle, p)]
            any_occurs(text, seq![needle], p) <==> occurs_at(text, needle, p),
{
    assert forall|p: int| #[trigger] any_occurs(text, seq![needle], p) <==> occurs_at(
        text,
        needle,
        p,
    ) by {
        assert(seq![needle][0] == needle);
    }
}

/// What one more needle adds.
proof fn occurs_push(text: Seq<u8>, needles: Seq<Seq<u8>>, needle: Seq<u8>)
    ensures
        forall|p: int| #[trigger]
            any_occurs(text, needles.push(needle), p) <==> any_occurs(text, needles, p)
                || occurs_at(text, needle, p),
{
    let more = needles.push(needle);
    assert forall|p: int| #[trigger]
        any_occurs(text, more, p) <==> any_occurs(text, needles, p) || occurs_at(
        text,
        needle,
        p,
    ) by {
        if any_occurs(text, needles, p) {
            let i = choose|i: int|
                0 <= i < needles.len() && occurs_at(text, #[trigger] needles[i], p);
            assert(more[i] == needles[i]);
        }
        if occurs_at(text, needle, p) {
            assert(more[needles.len() as int] == needle);
        }
        if any_occurs(text, more, p) {
            let i = choose|i: int| 0 <= i < more.len() && occurs_at(text, #[trigger] more[i], p);
            if i < needles.len() {
                assert(needles[i] == more[i]);
            }
        }
    }
}

/// Earliest occurrence of any spelling in `text`.
pub fn find_earliest(text: &str, spellings: &Vec<&str>) -> (found: Option<usize>)
    ensures
        is_first_occurrence(found, text.spec_bytes(), spelled(spellings@)),
{
    let count: usize = spellings.len();
    if count == 0 {
        return None;
    }
    // Use the fast specialized searches for one to three spellings, and fall
    // back to a search for each of them.
    if count == 1 {
        assert(spelled(spellings@) =~= seq![spellings@[0].spec_bytes()]);
        return find_one(text, spellings[0]);
    }
    if count == 2 {
        assert(spelled(spellings@) =~= seq![
            spellings@[0].spec_bytes(),
            spellings@[1].spec_bytes(),
        ]);
        return find_two(text, spellings[0], spellings[1]);
    }
    if count == 3 {
        assert(spelled(spellings@) =~= seq![
            spellings@[0].spec_bytes(),
            spellings@[1].spec_bytes(),
            spellings@[2].spec_bytes(),
        ]);
        return find_three(text, spellings[0], spellings[1], spellings[2]);
    }
    let mut found: Option<usize> = None;
    let mut at: usize = 0;
    let ghost bytes = text.spec_bytes();
    let ghost all = spelled(spellings@);
    while at < count
        invariant
            at <= count,
            count == spellings.len(),
            bytes == text.spec_bytes(),
            all == spelled(spellings@),
            is_first_occurrence(found, bytes, all.take(at as int)),
        decreases count - at,
    {
        let next: Option<usize> = find_str(text, spellings[at]);
        proof {
            occurs_single(bytes, spellings@[at as int].spec_bytes());
            occurs_push(bytes, all.take(at as int), spellings@[at as int].spec_bytes());
            assert(all.take(at + 1) =~= all.take(at as int).push(
                spellings@[at as int].spec_bytes(),
            ));
        }
        found = earlier(found, next);
        at += 1;
    }
    assert(all.take(count as int) =~= all);
    found
}

/// The earlier of two positions, where there are any.
pub fn earlier(first: Option<usize>, second: Option<usize>) -> (least: Option<usize>)
    ensures
        match (first, second) {
            (Some(a), Some(b)) => least == Some(if a <= b {
                a
            } else {
                b
            }),
            (Some(_), None) => least == first,
            (None, _) => least == second,
        },
{
    match (first, second) {
        (Some(a), Some(b)) => if a <= b {
            Some(a)
        } else {
            Some(b)
        },
        (Some(a), None) => Some(a),
        (None, second) => second,
    }
}

/// Length of the longest proper prefix of `spelling` that ends `text`.
pub fn partial_prefix_len(text: &str, spelling: &str) -> (len: usize)
    ensures
        len > 0 ==> ends_with_prefix(text.spec_bytes(), spelling.spec_bytes(), len as int),
        forall|more: int|
            len < more ==> !ends_with_prefix(text.spec_bytes(), spelling.spec_bytes(), more),
{
    let text_bytes = text.as_bytes();
    let spelling_bytes = spelling.as_bytes();
    let ghost t = text_bytes@;
    let ghost s = spelling_bytes@;
    if spelling_bytes.len() == 0 {
        return 0;
    }
    let mut len: usize = if text_bytes.len() < spelling_bytes.len() {
        text_bytes.len()
    } else {
        spelling_bytes.len() - 1
    };
    while len > 0
        invariant
            t == text_bytes@,
            s == spelling_bytes@,
            len <= t.len(),
            len < s.len(),
            t == text.spec_bytes(),
            s == spelling.spec_bytes(),
            forall|more: int| len < more ==> !ends_with_prefix(t, s, more),
        decreases len,
    {
        let start: usize = text_bytes.len() - len;
        let mut at: usize = 0;
        while at < len && text_bytes[start + at] == spelling_bytes[at]
            invariant
                t == text_bytes@,
                s == spelling_bytes@,
                at <= len <= t.len(),
                len < s.len(),
                start == t.len() - len,
                start + len <= usize::MAX,
                forall|i: int| 0 <= i < at ==> t[start + i] == s[i],
            decreases len - at,
        {
            at += 1;
        }
        if at == len {
            assert(t.skip(t.len() - len) =~= s.take(len as int));
            return len;
        }
        proof {
            assert(t.skip(t.len() - len)[at as int] != s.take(len as int)[at as int]);
        }
        len -= 1;
    }
    0
}

/// The largest character boundary of `text` that is at most `index`.
pub fn floor_char_boundary(text: &str, index: usize) -> (boundary: usize)
    ensures
        boundary <= index,
        is_char_boundary(text.spec_bytes(), boundary as int),
        forall|p: int|
            boundary < p <= index && p <= text.spec_bytes().len() ==> !is_char_boundary(
                text.spec_bytes(),
                p,
            ),
{
    let ghost bytes = text.spec_bytes();
    proof {
        encode_utf8_valid_utf8(text@);
        is_char_boundary_start_end_of_seq(bytes);
    }
    let len: usize = text.as_bytes().len();
    let mut boundary: usize = if index < len {
        index
    } else {
        len
    };
    while !text.is_char_boundary(boundary)
        invariant
            bytes == text.spec_bytes(),
            is_char_boundary(bytes, 0),
            boundary <= index,
            forall|p: int|
                boundary < p <= index && p <= bytes.len() ==> !is_char_boundary(bytes, p),
        decreases boundary,
    {
        boundary -= 1;
    }
    boundary
}

/// A spelling begins only where a character begins.
proof fn beginning_is_boundary(text: Seq<u8>, needle: Seq<u8>, at: int)
    requires
        valid_utf8(text),
        valid_utf8(needle),
        needle.len() > 0,
        0 <= at < text.len(),
        occurs_at(text, needle, at) || ends_with_prefix(text, needle, text.len() - at),
    ensures
        is_char_boundary(text, at),
{
    if occurs_at(text, needle, at) {
        assert(text.subrange(at, at + needle.len())[0] == needle[0]);
    } else {
        assert(text.skip(text.len() - (text.len() - at))[0] == needle.take(text.len() - at)[0]);
    }
    assert(text[at] == needle[0]);
    is_char_boundary_start_end_of_seq(needle);
    is_char_boundary_iff_not_is_continuation_byte(needle, 0);
    is_char_boundary_iff_not_is_continuation_byte(text, at);
}

/// Occurrences and partial spellings in the tail of a text are those of the
/// text.
proof fn tail_positions(text: Seq<u8>, needle: Seq<u8>, start: int, at: int)
    requires
        0 <= start <= at < text.len(),
    ensures
        occurs_at(text.skip(start), needle, at - start) <==> occurs_at(text, needle, at),
        ends_with_prefix(text.skip(start), needle, text.len() - at) <==> ends_with_prefix(
            text,
            needle,
            text.len() - at,
        ),
{
    let tail = text.skip(start);
    let len = needle.len() as int;
    if at + len <= text.len() {
        assert(tail.subrange(at - start, at - start + len) =~= text.subrange(at, at + len));
    }
    assert(tail.skip(tail.len() - (text.len() - at)) =~= text.skip(at));
}

/// The last bytes that start one of `spellings`: how many there are at most.
fn longest_partial(text: &str, spellings: &Vec<&str>) -> (len: usize)
    ensures
        len > 0 ==> exists|i: int|
            0 <= i < spelled(spellings@).len() && ends_with_prefix(
                text.spec_bytes(),
                #[trigger] spelled(spellings@)[i],
                len as int,
            ),
        forall|i: int, more: int|
            0 <= i < spelled(spellings@).len() && len < more ==> !#[trigger] ends_with_prefix(
                text.spec_bytes(),
                spelled(spellings@)[i],
                more,
            ),
{
    let ghost bytes = text.spec_bytes();
    let ghost all = spelled(spellings@);
    let mut len: usize = 0;
    let mut at: usize = 0;
    while at < spellings.len()
        invariant
            at <= spellings.len(),
            bytes == text.spec_bytes(),
            all == spelled(spellings@),
            len > 0 ==> exists|i: int|
                0 <= i < all.len() && ends_with_prefix(bytes, #[trigger] all[i], len as int),
            forall|i: int, more: int|
                0 <= i < at && len < more ==> !#[trigger] ends_with_prefix(bytes, all[i], more),
        decreases spellings.len() - at,
    {
        let next: usize = partial_prefix_len(text, spellings[at]);
        assert(all[at as int] == spellings@[at as int].spec_bytes());
        if next > len {
            len = next;
        }
        at += 1;
    }
    len
}

/// Earliest text position at or after `from` where one of `spellings` occurs
/// in full, or where a proper prefix of one of them ends the input.
pub fn text_candidate(text: &str, spellings: &Vec<&str>, from: usize) -> (found: Option<usize>)
    ensures
        is_first_beginning(found, text.spec_bytes(), spelled(spellings@), from as int),
{
    let ghost bytes = text.spec_bytes();
    let ghost all = spelled(spellings@);
    proof {
        encode_utf8_valid_utf8(text@);
        is_char_boundary_start_end_of_seq(bytes);
    }
    let len: usize = text.as_bytes().len();
    if from >= len {
        return None;
    }
    let mut start: usize = from;
    while !text.is_char_boundary(start)
        invariant
            bytes == text.spec_bytes(),
            len == bytes.len(),
            from <= start <= len,
            is_char_boundary(bytes, bytes.len() as int),
            forall|p: int| from <= p < start ==> !is_char_boundary(bytes, p),
        decreases len - start,
    {
        start += 1;
    }
    if start == len {
        return None;
    }
    let (_, tail) = text.split_at(start);
    assert(tail.spec_bytes() =~= bytes.skip(start as int));
    let occurrence: Option<usize> = find_earliest(tail, spellings);
    let keep: usize = longest_partial(tail, spellings);
    let full: Option<usize> = match occurrence {
        Some(at) => {
            proof {
                let i = choose|i: int|
                    0 <= i < all.len() && occurs_at(
                        tail.spec_bytes(),
                        #[trigger] all[i],
                        at as int,
                    );
                assert(occurs_at(tail.spec_bytes(), all[i], at as int));
                assert(at <= tail.spec_bytes().len());
            }
            Some(start + at)
        },
        None => None,
    };
    let partial: Option<usize> = if keep > 0 {
        Some(len - keep)
    } else {
        None
    };
    let found = earlier(full, partial);
    proof {
        candidate_is_first(text, spellings@, from as int, start as int, occurrence, keep, found);
    }
    found
}

/// The earlier of the first occurrence and the longest partial spelling in the
/// tail is where a spelling may first begin.
proof fn candidate_is_first(
    text: &str,
    spellings: Seq<&str>,
    from: int,
    start: int,
    occurrence: Option<usize>,
    keep: usize,
    found: Option<usize>,
)
    requires
        0 <= from <= start < text.spec_bytes().len() <= usize::MAX,
        is_char_boundary(text.spec_bytes(), start),
        forall|p: int| from <= p < start ==> !is_char_boundary(text.spec_bytes(), p),
        is_first_occurrence(occurrence, text.spec_bytes().skip(start), spelled(spellings)),
        keep > 0 ==> exists|i: int|
            0 <= i < spelled(spellings).len() && ends_with_prefix(
                text.spec_bytes().skip(start),
                #[trigger] spelled(spellings)[i],
                keep as int,
            ),
        forall|i: int, more: int|
            0 <= i < spelled(spellings).len() && keep < more ==> !#[trigger] ends_with_prefix(
                text.spec_bytes().skip(start),
                spelled(spellings)[i],
                more,
            ),
        match (occurrence, keep > 0) {
            (Some(at), true) => found == Some(
                if start + at <= text.spec_bytes().len() - keep {
                    (start + at) as usize
                } else {
                    (text.spec_bytes().len() - keep) as usize
                },
            ),
            (Some(at), false) => found == Some((start + at) as usize),
            (None, true) => found == Some((text.spec_bytes().len() - keep) as usize),
            (None, false) => found is None,
        },
    ensures
        is_first_beginning(found, text.spec_bytes(), spelled(spellings), from),
{
    let bytes = text.spec_bytes();
    let tail = bytes.skip(start);
    let all = spelled(spellings);
    encode_utf8_valid_utf8(text@);
    let limit = if found is Some {
        found->0 as int
    } else {
        bytes.len() as int
    };
    if occurrence is Some {
        let at = occurrence->0 as int;
        let i = choose|i: int| 0 <= i < all.len() && occurs_at(tail, #[trigger] all[i], at);
        assert(all[i] == spellings[i].spec_bytes());
        encode_utf8_valid_utf8(spellings[i]@);
        if all[i].len() == 0 {
            assert(tail.subrange(0, 0) =~= all[i]);
            assert(occurs_at(tail, all[i], 0));
            assert(any_occurs(tail, all, 0));
            assert(at == 0);
        }
        assert(start + at < bytes.len());
        tail_positions(bytes, all[i], start, start + at);
        if all[i].len() > 0 {
            beginning_is_boundary(bytes, all[i], start + at);
        }
        assert(begins_at(bytes, all[i], start + at));
        assert(any_begins(bytes, all, start + at));
    }
    if keep > 0 {
        let at = bytes.len() - keep;
        let i = choose|i: int|
            0 <= i < all.len() && ends_with_prefix(tail, #[trigger] all[i], keep as int);
        assert(all[i] == spellings[i].spec_bytes());
        encode_utf8_valid_utf8(spellings[i]@);
        tail_positions(bytes, all[i], start, at);
        beginning_is_boundary(bytes, all[i], at);
        assert(begins_at(bytes, all[i], at));
        assert(any_begins(bytes, all, at));
    }
    assert forall|p: int| from <= p < limit implies !any_begins(bytes, all, p) by {
        if any_begins(bytes, all, p) {
            let i = choose|i: int| 0 <= i < all.len() && begins_at(bytes, #[trigger] all[i], p);
            assert(begins_at(bytes, all[i], p));
            assert(p >= start);
            tail_positions(bytes, all[i], start, p);
            if occurs_at(bytes, all[i], p) {
                assert(any_occurs(tail, all, p - start));
            }
        }
    }
}

} // verus!
