use vllm_responses::custom_tool::decoder::InputDecoder;
use vllm_responses::custom_tool::{
    input_from, raw_input, shim_arguments, shim_parameters, CustomToolNames,
};
use vllm_responses::types::CustomToolFormat;

/// Decode `arguments` split into chunks of `size` characters.
fn decode_in_chunks(arguments: &str, size: usize) -> String {
    let chars: Vec<char> = arguments.chars().collect();
    let mut decoder = InputDecoder::default();
    chars.chunks(size).map(|chunk| decoder.push(&chunk.iter().collect::<String>())).collect()
}

#[test]
fn raw_input_recovers_text_from_shim_arguments() {
    let input = "*** Begin Patch\n*** Add File: a.txt\n+\"quoted\"\n*** End Patch";
    assert_eq!(raw_input(shim_arguments(input.to_string())), input);
    // Arguments outside the shim schema are passed through verbatim.
    for arguments in ["not json", r#"{"patch":"x"}"#, r#"{"input":"x","extra":1}"#] {
        assert_eq!(raw_input(arguments.to_string()), arguments);
    }
}

#[test]
fn decoder_streams_the_final_input_at_every_split() {
    let input = "*** Begin Patch\n+say \"hi\" \\ tab\t/ \u{1}é中🦀\n*** End Patch\n";
    for arguments in [
        shim_arguments(input.to_string()),
        // Escaped non-ASCII, including a surrogate pair, and spaced tokens.
        format!(
            "{{ \"input\" :\n \"{}\" }}",
            serde_json::to_string(input)
                .unwrap()
                .trim_matches('"')
                .replace('🦀', "\\ud83e\\udd80")
                .replace('中', "\\u4e2d")
        ),
    ] {
        assert_eq!(raw_input(arguments.clone()), input, "{arguments}");
        for size in 1..=8 {
            assert_eq!(decode_in_chunks(&arguments, size), input, "size={size} {arguments}");
        }
    }
}

#[test]
fn decoder_stops_when_arguments_depart_from_the_shim() {
    for arguments in
        [r#"{"patch": "x"}"#, r#"{"inputs": "x"}"#, r#"["x"]"#, r#"{"input": 1}"#]
    {
        assert_eq!(decode_in_chunks(arguments, 1), "", "{arguments}");
    }
    // Text before an invalid escape is kept; nothing after it.
    assert_eq!(decode_in_chunks(r#"{"input": "ab\qcd"}"#, 3), "ab");
    // A lone surrogate decodes to the replacement character.
    assert_eq!(
        decode_in_chunks(&shim_arguments("x".to_string()).replace('x', "\\ud800x"), 2),
        "\u{fffd}x"
    );
}

#[test]
fn decoder_pairs_and_replaces_surrogates() {
    assert_eq!(decode_in_chunks(r#"{"input":"\ud83e\udd80"}"#, 5), "🦀");
    assert_eq!(decode_in_chunks(r#"{"input":"\udd80"}"#, 1), "\u{fffd}");
    assert_eq!(decode_in_chunks(r#"{"input":"\ud83e\ud83e\udd80"}"#, 1), "\u{fffd}🦀");
    assert_eq!(decode_in_chunks(r#"{"input":"\ud83e"}"#, 1), "\u{fffd}");
    assert_eq!(decode_in_chunks(r#"{"input":"\ud83e\n"}"#, 1), "\u{fffd}\n");
}

#[test]
fn a_surrogate_waiting_at_an_invalid_escape_is_replaced() {
    for size in 1..=8 {
        assert_eq!(decode_in_chunks(r#"{"input": "\ud800\q"}"#, size), "\u{fffd}");
        assert_eq!(decode_in_chunks(r#"{"input": "a\ud800\u00zz\udc00"}"#, size), "a\u{fffd}");
    }
}

#[test]
fn escaped_units_decode_as_lossy_utf16() {
    let kinds: [u16; 5] = [0x41, 0xd800, 0xdbff, 0xdc00, 0x4e2d];
    for index in 0..5 * 5 * 5 * 5 {
        let units: Vec<u16> =
            [1, 5, 25, 125].iter().map(|scale| kinds[index / scale % 5]).collect();
        let escapes: String = units.iter().map(|unit| format!("\\u{unit:04x}")).collect();
        let mut decoder = InputDecoder::default();
        let mut decoded = decoder.push(&format!("{{\"input\":\"{escapes}"));
        let held = matches!(units[3], 0xd800..=0xdbff);
        assert_eq!(
            format!("{decoded}{}", if held { "\u{fffd}" } else { "" }),
            String::from_utf16_lossy(&units)
        );
        decoded.push_str(&decoder.push("\"}"));
        assert_eq!(decoded, String::from_utf16_lossy(&units));
    }
}

#[test]
fn pushed_units_decode_as_lossy_utf16() {
    let kinds: [u16; 5] = [0x41, 0xd83e, 0xdbff, 0xdd80, 0x4e2d];
    for index in 0..5 * 5 * 5 {
        let units: Vec<u16> = [1, 5, 25].iter().map(|scale| kinds[index / scale % 5]).collect();
        let mut decoder = InputDecoder::default();
        let mut decoded = String::new();
        for unit in &units {
            decoder.push_unit(*unit, &mut decoded);
        }
        if matches!(units[2], 0xd800..=0xdbff) {
            decoded.push('\u{fffd}');
        }
        assert_eq!(decoded, String::from_utf16_lossy(&units));
    }
}

#[test]
fn decoder_reads_every_escape() {
    assert_eq!(
        decode_in_chunks(r#"{"input":"\"\\\/\b\f\n\r\t\u0041\u00E9\ufffd"}"#, 4),
        "\"\\/\u{8}\u{c}\n\r\tAé\u{fffd}"
    );
    assert_eq!(decode_in_chunks(r#"{"input":"a\u00zz"}"#, 2), "a");
    // Nothing follows the closing quote.
    assert_eq!(decode_in_chunks(r#"{"input":"a"}trailing"#, 3), "a");
}

#[test]
fn decoder_holds_back_split_escapes() {
    let mut decoder = InputDecoder::default();
    assert_eq!(decoder.push("{\"in"), "");
    assert_eq!(decoder.push("put\":\"a\\"), "a");
    assert_eq!(decoder.push("u00"), "");
    assert_eq!(decoder.push("e9b"), "éb");
    assert_eq!(decoder.push("\"}"), "");
    assert_eq!(decoder.push("more"), "");
}

#[test]
fn shim_arguments_escape_the_input() {
    assert_eq!(shim_arguments("".to_string()), r#"{"input":""}"#);
    assert_eq!(
        shim_arguments("a\"b\\c\n\u{8}\u{1f}\u{7f}é".to_string()),
        "{\"input\":\"a\\\"b\\\\c\\n\\b\\u001f\u{7f}é\"}"
    );
}

#[test]
fn raw_input_needs_exactly_the_string_member() {
    for arguments in ["", "{}", r#"{"input":1}"#, r#"["input"]"#, r#""input""#, r#"{"input":"x"}}"#] {
        assert_eq!(raw_input(arguments.to_string()), arguments);
    }
    assert_eq!(raw_input("\n{ \"input\"\t: \"x\" }\r\n".to_string()), "x");
    assert_eq!(raw_input(r#"{"input":"\u0078"}"#.to_string()), "x");
}

#[test]
fn input_is_taken_from_what_the_arguments_read_as() {
    let read = serde_json::from_str(r#"{"input":"x"}"#).ok();
    assert_eq!(input_from("spelled otherwise".to_string(), read), "x");
    assert_eq!(input_from("verbatim".to_string(), None), "verbatim");
    assert_eq!(
        input_from("verbatim".to_string(), serde_json::from_str(r#"{"input":null}"#).ok()),
        "verbatim"
    );
}

#[test]
fn custom_tool_names_are_a_set() {
    let names = CustomToolNames::new(vec![
        "apply_patch".to_string(),
        "edit".to_string(),
        "apply_patch".to_string(),
    ]);
    assert!(names.contains("apply_patch"));
    assert!(names.contains("edit"));
    assert!(!names.contains("shell"));
    assert!(!CustomToolNames::new(vec![]).contains(""));
    assert!(names.clone().contains("edit"));
    assert!(!names.clone().contains("shell"));
    assert!(!CustomToolNames::default().contains("edit"));
}

#[test]
fn shim_parameters_describe_the_input() {
    let text = r#"{"type":"object","properties":{"input":{"type":"string","description":"The raw text input of this tool, passed through verbatim."}},"required":["input"]}"#;
    assert_eq!(shim_parameters(None).to_string(), text);
    assert_eq!(shim_parameters(Some(&CustomToolFormat::Text)).to_string(), text);
    let grammar = CustomToolFormat::Grammar {
        syntax: "lark".to_string(),
        definition: "start: \"patch\"".to_string(),
    };
    assert_eq!(
        shim_parameters(Some(&grammar)).to_string(),
        r#"{"type":"object","properties":{"input":{"type":"string","description":"The raw text input of this tool, passed through verbatim. It must conform to the following lark grammar:\nstart: \"patch\""}},"required":["input"]}"#
    );
}
