//! Function shim through which custom tools are offered to the model.
//!
//! A custom tool takes free-form text instead of a JSON object. The chat engine
//! and the model-specific tool parsers only know function tools, so each custom
//! tool is declared as a function taking one string parameter,
//! `{"input": "<text>"}`. Replayed custom tool calls are wrapped the same way,
//! and generated calls to a custom tool name are unwrapped back into raw text.

pub mod decoder;
pub mod laws;

use serde_json::Value;
use vstd::prelude::*;
use vstd::seq_lib::lemma_seq_contains_after_push;

use self::decoder::DecoderModel;
use crate::json::string::{
    escaped, escaped_plain, escaped_round_trip, is_member_text, quoted, string_value, MemberLayout,
};
use crate::json::{
    json_array, json_entries, json_node, json_object, json_option, json_parse, json_string,
    json_view, json_views, map_insert, map_is_empty, map_new, map_remove, member_index,
    member_index_bounds, member_to_string, members_view, object_of, parse_json, reads_members,
    Json, JsonNode,
};
use crate::text::str_eq;
use crate::types::{CustomToolFormat, CustomToolFormatView};

verus! {

/// Name of the single string parameter of the function shim.
pub const INPUT: &'static str = "input";

/// Names of the custom tools declared by one request.
#[derive(Debug)]
pub struct CustomToolNames(Vec<String>);

impl View for CustomToolNames {
    type V = Set<Seq<char>>;

    closed spec fn view(&self) -> Set<Seq<char>> {
        self.0.deep_view().to_set()
    }
}

impl Default for CustomToolNames {
    /// No names.
    fn default() -> (made: Self)
        ensures
            made@ == Set::<Seq<char>>::empty(),
    {
        let made = CustomToolNames(Vec::new());
        assert(made@ =~= Set::<Seq<char>>::empty());
        made
    }
}

impl Clone for CustomToolNames {
    fn clone(&self) -> (copy: Self)
        ensures
            copy@ == self@,
    {
        proof {
            use_type_invariant(self);
        }
        let names = self.0.clone();
        assert(names.deep_view() =~= self.0.deep_view());
        CustomToolNames(names)
    }
}

impl CustomToolNames {
    /// No name is kept twice.
    #[verifier::type_invariant]
    spec fn distinct(self) -> bool {
        self.0.deep_view().no_duplicates()
    }

    /// Collect the given names.
    pub fn new(names: Vec<String>) -> (collected: Self)
        ensures
            collected@ == names.deep_view().to_set(),
    {
        let mut kept: Vec<String> = Vec::new();
        for name in it: names
            invariant
                it.seq() == names@,
                kept.deep_view().no_duplicates(),
                forall|text: Seq<char>| #[trigger]
                    kept.deep_view().contains(text) <==> names.deep_view().take(
                        it.index(),
                    ).contains(text),
        {
            let ghost before = kept.deep_view();
            let ghost seen = names.deep_view().take(it.index());
            assert(names.deep_view().take(it.index() + 1) =~= seen.push(name@));
            if !contains_name(&kept, name.as_str()) {
                kept.push(name);
                assert(kept.deep_view() =~= before.push(name@));
            }
            assert forall|text: Seq<char>| #[trigger]
                kept.deep_view().contains(text) <==> seen.push(name@).contains(text) by {
                lemma_seq_contains_after_push(before, name@, text);
                lemma_seq_contains_after_push(seen, name@, text);
            }
        }
        assert(names.deep_view().take(names.deep_view().len() as int) =~= names.deep_view());
        assert(kept.deep_view().to_set() =~= names.deep_view().to_set());
        CustomToolNames(kept)
    }

    /// Whether `name` was declared as a custom tool.
    pub fn contains(&self, name: &str) -> (found: bool)
        ensures
            found == self@.contains(name@),
    {
        contains_name(&self.0, name)
    }
}

/// Whether `name` occurs in `names`.
fn contains_name(names: &Vec<String>, name: &str) -> (found: bool)
    ensures
        found == names.deep_view().contains(name@),
{
    let mut at: usize = 0;
    while at < names.len()
        invariant
            at <= names.len(),
            forall|i: int| 0 <= i < at ==> names.deep_view()[i] != name@,
        decreases names.len() - at,
    {
        if str_eq(names[at].as_str(), name) {
            assert(names.deep_view()[at as int] == name@);
            return true;
        }
        at += 1;
    }
    false
}

/// How the input of a custom tool is described to the model.
pub open spec fn input_description(format: Option<CustomToolFormatView>) -> Seq<char> {
    match format {
        Some(CustomToolFormatView::Grammar { syntax, definition }) => {
            "The raw text input of this tool, passed through verbatim. It must conform to the following "@
                + syntax + " grammar:\n"@ + definition
        },
        _ => "The raw text input of this tool, passed through verbatim."@,
    }
}

/// JSON schema of an object with the single string member `input`.
pub open spec fn shim_schema(description: Seq<char>) -> Json {
    Json::Object(
        seq![
            ("type"@, Json::String("object"@)),
            (
                "properties"@,
                Json::Object(
                    seq![
                        (
                            INPUT@,
                            Json::Object(
                                seq![
                                    ("type"@, Json::String("string"@)),
                                    ("description"@, Json::String(description)),
                                ],
                            ),
                        ),
                    ],
                ),
            ),
            ("required"@, Json::Array(seq![Json::String(INPUT@)])),
        ],
    )
}

/// JSON schema of the function shim offered to the model for a custom tool.
///
/// Grammar formats are described to the model but not enforced.
pub fn shim_parameters(format: Option<&CustomToolFormat>) -> (schema: Value)
    ensures
        json_view(schema) == shim_schema(
            input_description(
                match format {
                    Some(format) => Some(format.deep_view()),
                    None => None,
                },
            ),
        ),
{
    let description = match format {
        Some(CustomToolFormat::Grammar { syntax, definition }) => {
            let mut text =
                "The raw text input of this tool, passed through verbatim. It must conform to the following ".to_string();
            text.append(syntax.as_str());
            text.append(" grammar:\n");
            text.append(definition.as_str());
            text
        },
        _ => "The raw text input of this tool, passed through verbatim.".to_string(),
    };
    proof {
        reveal_strlit("type");
        reveal_strlit("description");
        reveal_strlit("properties");
        reveal_strlit("required");
    }
    assert("type"@.len() == 4 && "description"@.len() == 11);
    assert("properties"@.len() == 10 && "required"@.len() == 8);
    let kind = json_string("string".to_string());
    let described = json_string(description);
    let members = vec![("type", kind), ("description", described)];
    assert(members_view(members@) =~= seq![
        ("type"@, json_view(kind)),
        ("description"@, json_view(described)),
    ]);
    let input = object_of(members);
    let members = vec![(INPUT, input)];
    assert(members_view(members@) =~= seq![(INPUT@, json_view(input))]);
    let properties = object_of(members);
    let names = vec![json_string(INPUT.to_string())];
    assert(json_views(names@) =~= seq![Json::String(INPUT@)]);
    let required = json_array(names);
    let kind = json_string("object".to_string());
    let members = vec![("type", kind), ("properties", properties), ("required", required)];
    assert(members_view(members@) =~= seq![
        ("type"@, json_view(kind)),
        ("properties"@, json_view(properties)),
        ("required"@, json_view(required)),
    ]);
    object_of(members)
}

/// Shim arguments that wrap the raw input `input`.
pub open spec fn shim_text(input: Seq<char>) -> Seq<char> {
    seq!['{'] + quoted(INPUT@) + seq![':'] + quoted(input) + seq!['}']
}

/// The raw input in shim arguments that read as `read`: the value of their only
/// member `input` where that is a string, or else the arguments themselves.
pub open spec fn input_of(arguments: Seq<char>, read: Option<Json>) -> Seq<char> {
    match read {
        Some(Json::Object(entries)) => if entries.len() == 1 && entries[0].0 == INPUT@ {
            match entries[0].1 {
                Json::String(input) => input,
                _ => arguments,
            }
        } else {
            arguments
        },
        _ => arguments,
    }
}

/// Wrap the raw input of a replayed custom tool call into shim arguments.
pub fn shim_arguments(input: String) -> (arguments: String)
    ensures
        arguments@ == shim_text(input@),
{
    let mut object = map_new();
    map_insert(&mut object, INPUT.to_string(), json_string(input));
    assert(json_entries(object) =~= seq![(INPUT@, Json::String(input@))]);
    member_to_string(&json_object(object))
}

/// Recover the raw custom tool input from complete shim arguments.
///
/// Arguments that do not match the shim schema are passed through verbatim, so
/// the client can report the malformed call back to the model.
pub fn raw_input(arguments: String) -> (input: String)
    ensures
        input@ == input_of(arguments@, json_parse(arguments@)),
        arguments@.len() == 0 ==> input@ == arguments@,
        forall|value: Seq<char>| #[trigger]
            is_member_text(arguments@, INPUT@, value) ==> input@ == value,
        reads_members(arguments@, json_parse(arguments@)),
{
    match parse_json(arguments.as_str()) {
        Ok(value) => input_from(arguments, Some(value)),
        Err(_) => input_from(arguments, None),
    }
}

/// Recover the raw custom tool input from shim arguments and what they read
/// as, `None` where they are not JSON.
pub fn input_from(arguments: String, read: Option<Value>) -> (input: String)
    ensures
        input@ == input_of(arguments@, json_option(read)),
{
    let value = match read {
        Some(value) => value,
        None => return arguments,
    };
    let mut object = match json_node(value) {
        JsonNode::Object(object) => object,
        _ => return arguments,
    };
    let ghost entries = json_entries(object);
    proof {
        member_index_bounds(entries, INPUT@);
        if entries.len() == 1 {
            assert(entries.drop_first().len() == 0);
            reveal_with_fuel(member_index, 2);
        }
    }
    match map_remove(&mut object, INPUT) {
        Some(member) => match json_node(member) {
            JsonNode::String(input) => if map_is_empty(&object) {
                input
            } else {
                arguments
            },
            _ => arguments,
        },
        None => arguments,
    }
}

/// Shim arguments are an object whose only member is the input.
pub proof fn shim_is_member_text(input: Seq<char>)
    ensures
        is_member_text(shim_text(input), INPUT@, input),
{
    reveal_strlit("input");
    let none = Seq::<char>::empty();
    let layout = MemberLayout {
        lead: none,
        before_name: none,
        before_colon: none,
        before_value: none,
        body: escaped(input),
        before_end: none,
        trail: none,
    };
    escaped_round_trip(input);
    escaped_plain(INPUT@);
    assert(layout.is_spaced());
    assert(shim_text(input) =~= layout.text(INPUT@));
}

/// Unwrapping the shim arguments of a raw input gives back that input, where
/// they read as what they spell.
pub proof fn shim_round_trip(input: Seq<char>, read: Option<Json>)
    requires
        reads_members(shim_text(input), read),
    ensures
        is_member_text(shim_text(input), INPUT@, input),
        input_of(shim_text(input), read) == input,
{
    shim_is_member_text(input);
}

/// Decoding well-formed shim arguments streams the input that they wrap.
proof fn decoder_streams_member(arguments: Seq<char>, input: Seq<char>)
    requires
        is_member_text(arguments, INPUT@, input),
        arguments.len() <= usize::MAX,
    ensures
        DecoderModel::start().run(arguments).1 == input,
{
    let layout = choose|layout: MemberLayout|
        layout.is_spaced() && arguments == #[trigger] layout.text(INPUT@) && string_value(
            layout.body,
        ) == Some(input);
    DecoderModel::run_shim(layout);
}

/// Decoding shim arguments as they stream gives what unwrapping the complete
/// arguments gives, at whatever points they are split, where the arguments read
/// as what they spell.
pub proof fn decoder_streams_input(arguments: Seq<char>, input: Seq<char>, read: Option<Json>)
    requires
        is_member_text(arguments, INPUT@, input),
        reads_members(arguments, read),
        arguments.len() <= usize::MAX,
    ensures
        DecoderModel::start().run(arguments).1 == input,
        input_of(arguments, read) == input,
{
    decoder_streams_member(arguments, input);
}

/// Decoding the shim arguments of a raw input streams that input.
pub proof fn decoder_streams_shim(input: Seq<char>)
    requires
        shim_text(input).len() <= usize::MAX,
    ensures
        DecoderModel::start().run(shim_text(input)).1 == input,
{
    shim_is_member_text(input);
    decoder_streams_member(shim_text(input), input);
}

} // verus!
