use vllm_responses::marker::anchors::{
    Anchors, AttributionMode, DecodedText, TokenAnchor, TokenAttribution,
};
use vllm_responses::marker::scan::MarkerScan;
use vllm_responses::marker::search::{
    find_earliest, floor_char_boundary, partial_prefix_len, text_candidate,
};
use vllm_responses::marker::stream::{attributed, Attributed, MarkerStream, PartialText};
use vllm_responses::marker::{special, Marker, MarkerError, MarkerLike};

const CLOSE_ID: u32 = 256;
const SEP_ID: u32 = 258;

/// Build attributed text from `(piece, token_id)` pairs, one visible anchor at
/// the first byte of each piece.
fn pieces(pieces: &[(&str, u32)]) -> DecodedText {
    let mut decoded = DecodedText { text: String::new(), attributions: Vec::new() };
    for &(piece, token_id) in pieces {
        decoded.attributions.push(TokenAttribution {
            token_id,
            anchor: TokenAnchor::Visible { byte_offset: decoded.text.len() as u32 },
        });
        decoded.text.push_str(piece);
    }
    decoded
}

fn think_close() -> Marker {
    Marker::special("<|close|>", CLOSE_ID).then_text("think").then_special("<|sep|>", SEP_ID)
}

/// `<|close|>` spelled by ordinary tokens.
fn ordinary_close() -> Vec<(&'static str, u32)> {
    vec![("<", 60), ("|", 124), ("close", 900), ("|", 124), (">", 62)]
}

#[test]
fn special_accepts_single_token_with_expected_id() {
    let buffer = pieces(&[("<|close|>", CLOSE_ID), ("x", 1)]);
    let mut input = attributed(&buffer, AttributionMode::Tokens);

    let matched = special(&mut input, "<|close|>", CLOSE_ID).unwrap();

    assert_eq!(matched, "<|close|>");
    assert_eq!(input.remaining(), "x");
}

#[test]
fn special_rejects_ordinary_tokens_with_same_spelling() {
    let mut fixture = ordinary_close();
    fixture.push(("x", 1));
    let buffer = pieces(&fixture);
    let mut input = attributed(&buffer, AttributionMode::Tokens);

    let error = special(&mut input, "<|close|>", CLOSE_ID).unwrap_err();

    assert!(matches!(error, MarkerError::Backtrack));
    assert_eq!(input.remaining(), "<|close|>x", "nothing consumed");
}

#[test]
fn special_rejects_single_ordinary_token_with_wrong_id() {
    let buffer = pieces(&[("<|close|>", 900)]);
    let mut input = attributed(&buffer, AttributionMode::Tokens);

    let error = special(&mut input, "<|close|>", CLOSE_ID).unwrap_err();

    assert!(matches!(error, MarkerError::Backtrack));
}

#[test]
fn special_reports_incomplete_for_split_genuine_spelling() {
    // Output holdback delivered only the first bytes; the anchor came with them.
    let buffer = pieces(&[("<|clo", CLOSE_ID)]);
    let mut input = attributed(&buffer, AttributionMode::Tokens);

    let error = special(&mut input, "<|close|>", CLOSE_ID).unwrap_err();

    assert!(matches!(error, MarkerError::Incomplete));
}

#[test]
fn special_rejects_partial_lookalike_without_waiting() {
    let buffer = pieces(&[("<", 60), ("|", 124), ("clo", 901)]);
    let mut input = attributed(&buffer, AttributionMode::Tokens);

    let error = special(&mut input, "<|close|>", CLOSE_ID).unwrap_err();

    assert!(matches!(error, MarkerError::Backtrack));
}

#[test]
fn special_ignores_zero_width_records_inside_span() {
    let mut buffer = pieces(&[("<|close|>", CLOSE_ID)]);
    buffer.attributions.push(TokenAttribution {
        token_id: 7,
        anchor: TokenAnchor::ZeroWidth { byte_offset: 3 },
    });
    buffer.attributions.sort_by_key(|attribution| match attribution.anchor {
        TokenAnchor::Visible { byte_offset } | TokenAnchor::ZeroWidth { byte_offset } => {
            byte_offset
        }
    });
    let mut input = attributed(&buffer, AttributionMode::Tokens);

    special(&mut input, "<|close|>", CLOSE_ID).unwrap();
}

#[test]
fn special_is_literal_in_text_only_mode() {
    let buffer = pieces(&ordinary_close());
    let mut input = attributed(&buffer, AttributionMode::TextOnly);

    special(&mut input, "<|close|>", CLOSE_ID).unwrap();

    let mut input = PartialText::new("<|close|>");
    special(&mut input, "<|close|>", CLOSE_ID).unwrap();
}

#[test]
fn marker_requires_every_special_segment() {
    let marker = think_close();
    let genuine = pieces(&[("<|close|>", CLOSE_ID), ("think", 5), ("<|sep|>", SEP_ID)]);
    let mut input = attributed(&genuine, AttributionMode::Tokens);
    assert_eq!(marker.parse_marker(&mut input).unwrap(), "<|close|>think<|sep|>");

    // Real close, ordinary separator: the strict rule keeps it as content.
    let mixed = pieces(&[("<|close|>", CLOSE_ID), ("think", 5), ("<|sep|>", 902)]);
    let mut input = attributed(&mixed, AttributionMode::Tokens);
    assert!(matches!(marker.parse_marker(&mut input).unwrap_err(), MarkerError::Backtrack));
    assert_eq!(input.remaining(), "<|close|>think<|sep|>", "nothing consumed");
}

#[test]
fn marker_first_token_id_requires_leading_special() {
    assert_eq!(think_close().first_token_id(), Some(CLOSE_ID));
    assert_eq!(Marker::text("</think>").first_token_id(), None);
    assert_eq!(Marker::text("x").then_special("<|sep|>", SEP_ID).first_token_id(), None);
    assert_eq!("</think>".first_token_id(), None);
}

#[test]
fn attributed_next_candidate_uses_anchors_for_guarded_markers() {
    let mut fixture = vec![("say ", 1)];
    fixture.extend(ordinary_close()); // lookalike at 4
    fixture.extend([("think", 5), ("<|sep|>", 903), (" then ", 2)]);
    let genuine_at = fixture.iter().map(|(piece, _)| piece.len()).sum::<usize>();
    fixture.extend([("<|close|>", CLOSE_ID), ("think", 5), ("<|sep|>", SEP_ID)]);
    let buffer = pieces(&fixture);
    let input = attributed(&buffer, AttributionMode::Tokens);

    let marker = think_close();
    assert_eq!(input.next_candidate(&[&marker], 0), Some(genuine_at));
    assert_eq!(input.next_candidate(&[&marker], genuine_at + 1), None);
}

#[test]
fn attributed_next_candidate_falls_back_to_text_for_unguarded_markers() {
    let buffer = pieces(&[("a", 1), ("</think>", 2), ("b", 3)]);
    let input = attributed(&buffer, AttributionMode::Tokens);

    assert_eq!(input.next_candidate(&["</think>"], 0), Some(1));
    assert_eq!(input.next_candidate(&["</thinking>"], 0), None);
    // Partial spelling at the end of the input is a candidate too.
    let buffer = pieces(&[("a", 1), ("</thi", 2)]);
    let input = attributed(&buffer, AttributionMode::Tokens);
    assert_eq!(input.next_candidate(&["</think>"], 0), Some(1));
}

#[test]
fn text_next_candidate_matches_previous_scan_semantics() {
    let input = PartialText::new("hello<not_marker><|tool");

    assert_eq!(
        input.next_candidate(&["<|tool_call>", "<|channel>thought\n"], 0),
        Some("hello<not_marker>".len())
    );
    assert_eq!(input.next_candidate(&["<|tool_call>"], 18), None);
    assert_eq!(
        PartialText::new("hello<channel|><|tool_call>")
            .next_candidate(&["<|tool_call>", "<channel|>"], 0),
        Some(5)
    );
}

#[test]
fn attributed_offsets_follow_the_cursor() {
    let buffer = pieces(&[("ab", 1), ("<|close|>", CLOSE_ID)]);
    let mut input = attributed(&buffer, AttributionMode::Tokens);
    input.next_slice(2);

    assert_eq!(input.offset(), 2);
    assert_eq!(input.remaining(), "<|close|>");
    special(&mut input, "<|close|>", CLOSE_ID).unwrap();
    assert_eq!(input.offset(), 11);
}

#[test]
fn resumed_streams_stand_at_their_offset() {
    let buffer = pieces(&[("ab", 1), ("<|close|>", CLOSE_ID)]);
    let anchors = Anchors::Tokens(&buffer.attributions);
    let mut input = Attributed::resume(&buffer.text[2..], 2, anchors);
    assert_eq!(input.offset(), 2);
    assert_eq!(special(&mut input, "<|close|>", CLOSE_ID), Ok("<|close|>"));
    assert_eq!(input.offset(), 11);
}

#[test]
fn text_streams_report_offsets_relative_to_the_cursor() {
    let mut input = PartialText::new("ab<|sep|>");
    assert_eq!(input.next_candidate(&["<|sep|>"], 0), Some(2));
    assert_eq!(input.next_slice(2), "ab");
    assert_eq!(input.offset(), 0);
    assert_eq!(input.next_candidate(&["<|sep|>"], 0), Some(0));
    assert_eq!("<|sep|>".parse_marker(&mut input), Ok("<|sep|>"));
    assert_eq!(input.remaining(), "");
    assert_eq!("<|sep|>".to_string().parse_marker(&mut input), Err(MarkerError::Incomplete));
}

#[test]
fn marker_spelling_is_the_concatenation_of_its_segments() {
    assert_eq!(think_close().as_str(), "<|close|>think<|sep|>");
    assert_eq!(MarkerLike::text(&think_close()), "<|close|>think<|sep|>");
    assert_eq!(Marker::text("a").then_text("b").as_str(), "ab");
    assert_eq!(Marker::text("a").then_text("b"), Marker::text("ab"));
    assert!(Marker::text("ab") != Marker::text("a").then_special("b", 1));
}

#[test]
fn marker_waits_for_a_split_spelling() {
    let marker = think_close();
    let buffer = pieces(&[("<|close|>", CLOSE_ID), ("thi", 5)]);
    let mut input = attributed(&buffer, AttributionMode::Tokens);
    assert_eq!(marker.parse_marker(&mut input), Err(MarkerError::Incomplete));
    assert_eq!(input.offset(), 0);
    let buffer = pieces(&[("<|close|>", CLOSE_ID), ("thank", 5)]);
    let mut input = attributed(&buffer, AttributionMode::Tokens);
    assert_eq!(marker.parse_marker(&mut input), Err(MarkerError::Backtrack));
}

#[test]
fn find_earliest_serves_any_number_of_spellings() {
    let text = "..bb..aa..dd..cc";
    assert_eq!(find_earliest(text, &vec![]), None);
    assert_eq!(find_earliest(text, &vec!["aa"]), Some(6));
    assert_eq!(find_earliest(text, &vec!["aa", "bb"]), Some(2));
    assert_eq!(find_earliest(text, &vec!["cc", "dd", "aa"]), Some(6));
    assert_eq!(find_earliest(text, &vec!["xx", "cc", "dd", "yy"]), Some(10));
    assert_eq!(find_earliest(text, &vec!["xx", "yy", "zz", "ww"]), None);
    assert_eq!(find_earliest(text, &vec!["aa", ""]), Some(0));
}

#[test]
fn partial_spellings_are_proper_prefixes_at_the_end() {
    assert_eq!(partial_prefix_len("x<|to", "<|tool|>"), 4);
    assert_eq!(partial_prefix_len("x<|tool|>", "<|tool|>"), 0);
    assert_eq!(partial_prefix_len("aa", "aaa"), 2);
    assert_eq!(partial_prefix_len("é", "éa"), 2);
    assert_eq!(partial_prefix_len("x", ""), 0);
}

#[test]
fn the_earliest_candidate_wins_over_a_later_occurrence() {
    // `<a` may become `<ab>`; `a` occurs in full one byte later.
    assert_eq!(text_candidate("x<a", &vec!["<ab>", "a"], 0), Some(1));
    assert_eq!(text_candidate("x<a", &vec!["<ab>", "a"], 2), Some(2));
    assert_eq!(text_candidate("x<a", &vec!["<ab>", "a"], 3), None);
    assert_eq!(text_candidate("", &vec!["a"], 0), None);
}

#[test]
fn candidates_stand_at_or_after_the_start() {
    // Offset 1 is inside the first character.
    assert_eq!(text_candidate("éé", &vec!["é"], 1), Some(2));
    assert_eq!(text_candidate("é", &vec!["é"], 1), None);
    assert_eq!(floor_char_boundary("éé", 1), 0);
    assert_eq!(floor_char_boundary("éé", 3), 2);
    assert_eq!(floor_char_boundary("éé", 9), 4);
}

#[test]
fn single_token_spans_are_exact() {
    let buffer = pieces(&[("ab", 1), ("cd", 2)]);
    let anchors = Anchors::Tokens(&buffer.attributions);
    assert!(anchors.is_single_token(0..2, 1));
    assert!(!anchors.is_single_token(0..3, 1));
    assert!(!anchors.is_single_token(0..2, 2));
    assert!(!anchors.is_single_token(1..2, 1));
    assert!(Anchors::TextOnly.is_single_token(0..1, 9));
    assert_eq!(anchors.find_visible(1, &vec![1, 2]), Some(2));
    assert_eq!(anchors.find_visible(3, &vec![1, 2]), None);
    assert_eq!(AttributionMode::default(), AttributionMode::Tokens);
}

#[test]
fn a_scan_stops_no_later_than_a_marker_that_parses() {
    let buffer = pieces(&[("say ", 1), ("<|close|>", CLOSE_ID), ("think", 5), ("<|sep|>", SEP_ID)]);
    let marker = think_close();
    for from in 0..=4 {
        let input = attributed(&buffer, AttributionMode::Tokens);
        assert_eq!(input.next_candidate(&[&marker], from), Some(4));
    }
    let mut input = attributed(&buffer, AttributionMode::Tokens);
    input.next_slice(4);
    assert!(marker.parse_marker(&mut input).is_ok());
}
