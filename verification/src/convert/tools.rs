//! What holds of lowered tools, tool choices and formats.

use vstd::prelude::*;

use super::{
    chat_choice_of, chat_tool_of, chat_tools_of, custom_names, response_format_json,
    response_format_of, supported_tools,
};
use crate::chat::{ChatToolChoiceView, ResponseFormatView};
use crate::custom_tool::INPUT;
use crate::json::{member, member_index, Json};
use crate::types::{
    CustomToolFormatView, CustomToolView, FunctionToolView, NamedToolChoiceView,
    ResponseToolChoiceView, ResponseToolView, TextFormatView,
};

verus! {

/// Whether `text` holds `piece` somewhere.
pub open spec fn mentions(text: Seq<char>, piece: Seq<char>) -> bool {
    exists|at: int|
        0 <= at && at + piece.len() <= text.len() && #[trigger] text.subrange(
            at,
            at + piece.len(),
        ) == piece
}

/// Whether a schema accepts an object, and asks for no members.
pub open spec fn takes_nothing(schema: Json) -> bool {
    &&& schema matches Json::Object(entries) && entries.len() == 2
    &&& member(schema, "type"@) == Some(Json::String("object"@))
    &&& member(schema, "properties"@) == Some(Json::Object(Seq::empty()))
}

/// Whether a schema accepts an object with exactly the string member `name`,
/// described by `description`.
pub open spec fn takes_one_string(schema: Json, name: Seq<char>, description: Seq<char>) -> bool {
    &&& schema matches Json::Object(entries) && entries.len() == 3
    &&& member(schema, "type"@) == Some(Json::String("object"@))
    &&& member(schema, "required"@) == Some(Json::Array(seq![Json::String(name)]))
    &&& member(schema, "properties"@) matches Some(properties) && {
        &&& properties matches Json::Object(entries) && entries.len() == 1
        &&& member(properties, name) matches Some(taken) && {
            &&& taken matches Json::Object(entries) && entries.len() == 2
            &&& member(taken, "type"@) == Some(Json::String("string"@))
            &&& member(taken, "description"@) == Some(Json::String(description))
        }
    }
}

/// A function tool is offered with the name, the description, the strictness and
/// the parameters that it declares. One that declares no parameters is offered
/// as taking nothing.
pub proof fn function_tool_is_offered_as_declared(tool: FunctionToolView)
    ensures
        chat_tool_of(ResponseToolView::Function(tool)) matches Some(offered) && {
            &&& offered.name == tool.name
            &&& offered.description == tool.description
            &&& offered.strict == tool.strict
            &&& tool.parameters matches Some(parameters) ==> offered.parameters == parameters
            &&& tool.parameters is None ==> takes_nothing(offered.parameters)
        },
{
    reveal_strlit("type");
    reveal_strlit("properties");
    assert("type"@.len() == 4 && "properties"@.len() == 10);
    reveal_with_fuel(member_index, 3);
}

/// A custom tool is offered under the name and the description that it declares,
/// as a function that takes its input as one string. The description of the
/// input tells the grammar that the input must conform to, where the tool
/// declares one.
pub proof fn custom_tool_is_offered_as_a_function(tool: CustomToolView)
    ensures
        chat_tool_of(ResponseToolView::Custom(tool)) matches Some(offered) && {
            &&& offered.name == tool.name
            &&& offered.description == tool.description
            &&& offered.strict is None
            &&& exists|told: Seq<char>| #[trigger]
                takes_one_string(offered.parameters, INPUT@, told) && (
                tool.format matches Some(CustomToolFormatView::Grammar { syntax, definition })
                    ==> mentions(told, syntax) && mentions(told, definition))
        },
{
    let offered = chat_tool_of(ResponseToolView::Custom(tool))->0;
    let told = crate::custom_tool::input_description(tool.format);
    reveal_strlit("type");
    reveal_strlit("properties");
    reveal_strlit("required");
    reveal_strlit("description");
    assert("type"@.len() == 4 && "properties"@.len() == 10);
    assert("required"@.len() == 8 && "description"@.len() == 11);
    reveal_with_fuel(member_index, 4);
    assert(takes_one_string(offered.parameters, INPUT@, told));
    if let Some(CustomToolFormatView::Grammar { syntax, definition }) = tool.format {
        let before =
            "The raw text input of this tool, passed through verbatim. It must conform to the following "@;
        let between = " grammar:\n"@;
        let at = before.len() as int;
        let from = at + syntax.len() + between.len();
        assert(told.subrange(at, at + syntax.len()) =~= syntax);
        assert(told.subrange(from, from + definition.len()) =~= definition);
    }
}

/// Every tool that can be offered is, in the order of declaration and each as
/// its own declaration says.
pub proof fn tools_are_offered_in_order(tools: Seq<ResponseToolView>)
    requires
        forall|i: int| 0 <= i < tools.len() ==> !(#[trigger] tools[i] is Unsupported),
    ensures
        chat_tools_of(tools).len() == tools.len(),
        forall|i: int|
            0 <= i < tools.len() ==> chat_tool_of(#[trigger] tools[i]) == Some(
                chat_tools_of(tools)[i],
            ),
    decreases tools.len(),
{
    if tools.len() > 0 {
        let rest = tools.drop_last();
        assert forall|i: int| 0 <= i < rest.len() implies !(#[trigger] rest[i] is Unsupported) by {
            assert(rest[i] == tools[i]);
        }
        tools_are_offered_in_order(rest);
        assert(!(tools[tools.len() - 1] is Unsupported));
        assert forall|i: int| 0 <= i < tools.len() implies chat_tool_of(#[trigger] tools[i])
            == Some(chat_tools_of(tools)[i]) by {
            if i < rest.len() {
                assert(rest[i] == tools[i]);
            }
        }
    }
}

/// Keeping the tools that can be offered drops the unsupported ones and nothing
/// else, and keeps the order.
pub proof fn only_unsupported_tools_are_dropped(
    first: Seq<ResponseToolView>,
    second: Seq<ResponseToolView>,
    tool: ResponseToolView,
)
    ensures
        supported_tools(first + second) == supported_tools(first) + supported_tools(second),
        tool is Unsupported ==> supported_tools(seq![tool]).len() == 0,
        !(tool is Unsupported) ==> supported_tools(seq![tool]) == seq![tool],
    decreases second.len(),
{
    reveal(Seq::filter);
    reveal_with_fuel(Seq::filter, 2);
    assert(seq![tool].drop_last() =~= Seq::<ResponseToolView>::empty());
    if !(tool is Unsupported) {
        assert(supported_tools(seq![tool]) =~= seq![tool]);
    }
    if second.len() == 0 {
        assert(first + second =~= first);
        assert(supported_tools(first) + supported_tools(second) =~= supported_tools(first));
    } else {
        assert((first + second).drop_last() =~= first + second.drop_last());
        only_unsupported_tools_are_dropped(first, second.drop_last(), tool);
        assert(supported_tools(first + second) =~= supported_tools(first) + supported_tools(
            second,
        ));
    }
}

/// The names of the custom tools are the names that custom tools are declared
/// under, and no others.
pub proof fn custom_names_are_declared(tools: Seq<ResponseToolView>, name: Seq<char>)
    ensures
        custom_names(tools).to_set().contains(name) <==> exists|i: int|
            0 <= i < tools.len() && (#[trigger] tools[i] matches ResponseToolView::Custom(tool)
                && tool.name == name),
    decreases tools.len(),
{
    let names = custom_names(tools);
    if tools.len() > 0 {
        let rest = tools.drop_last();
        custom_names_are_declared(rest, name);
        let last = tools.len() - 1;
        if names.contains(name) {
            let at = choose|at: int| 0 <= at < names.len() && names[at] == name;
            if at < custom_names(rest).len() {
                assert(custom_names(rest)[at] == name);
                assert(custom_names(rest).contains(name));
                let i = choose|i: int|
                    0 <= i < rest.len() && (#[trigger] rest[i] matches ResponseToolView::Custom(
                        tool,
                    ) && tool.name == name);
                assert(tools[i] == rest[i]);
            } else {
                assert(tools[last] is Custom);
            }
        }
        if exists|i: int|
            0 <= i < tools.len() && (#[trigger] tools[i] matches ResponseToolView::Custom(tool)
                && tool.name == name) {
            let i = choose|i: int|
                0 <= i < tools.len() && (#[trigger] tools[i] matches ResponseToolView::Custom(tool)
                    && tool.name == name);
            if i < last {
                assert(rest[i] == tools[i]);
                assert(custom_names(rest).contains(name));
                let at = choose|at: int|
                    0 <= at < custom_names(rest).len() && custom_names(rest)[at] == name;
                assert(names[at] == name);
            } else {
                assert(names[names.len() - 1] == name);
            }
            assert(names.contains(name));
        }
    }
}

/// A tool choice keeps its meaning: a named tool stays the one that is named,
/// whatever its sort, and what is left to the engine is what asks for nothing
/// in particular.
pub proof fn tool_choice_keeps_its_meaning(choice: ResponseToolChoiceView)
    ensures
        match chat_choice_of(choice) {
            None => choice matches ResponseToolChoiceView::Mode(mode) && mode is Auto,
            Some(ChatToolChoiceView::Auto) => false,
            Some(ChatToolChoiceView::NoTools) => choice matches ResponseToolChoiceView::Mode(mode)
                && mode is NoTools,
            Some(ChatToolChoiceView::Required) => choice matches ResponseToolChoiceView::Mode(mode)
                && mode is Required,
            Some(ChatToolChoiceView::Function { name: chosen }) => match choice {
                ResponseToolChoiceView::Named(NamedToolChoiceView::Function { name }) => name
                    == chosen,
                ResponseToolChoiceView::Named(NamedToolChoiceView::Custom { name }) => name
                    == chosen,
                _ => false,
            },
        },
{
}

/// A text format keeps its meaning: plain text asks for no format, and a schema
/// is asked for with its name, description and strictness.
pub proof fn text_format_keeps_its_meaning(format: TextFormatView)
    ensures
        match response_format_of(format) {
            None => format is Text,
            Some(ResponseFormatView::JsonObject) => format is JsonObject,
            Some(ResponseFormatView::JsonSchema { json_schema }) => {
                &&& format matches TextFormatView::JsonSchema { name, description, schema, strict }
                &&& json_schema.name == name
                &&& json_schema.description == description
                &&& json_schema.schema == schema
                &&& json_schema.strict == strict
            },
        },
{
}

/// The JSON form of a response format tells its type, and of a schema all that
/// it carries: members that it lacks are left out.
pub proof fn format_json_tells_the_format(format: ResponseFormatView)
    ensures
        match format {
            ResponseFormatView::JsonObject => {
                &&& member(response_format_json(format), "type"@) == Some(
                    Json::String("json_object"@),
                )
                &&& member(response_format_json(format), "json_schema"@) is None
            },
            ResponseFormatView::JsonSchema { json_schema } => {
                &&& member(response_format_json(format), "type"@) == Some(
                    Json::String("json_schema"@),
                )
                &&& member(response_format_json(format), "json_schema"@) matches Some(told)
                &&& member(told, "name"@) == Some(Json::String(json_schema.name))
                &&& member(told, "schema"@) == Some(json_schema.schema)
                &&& member(told, "description"@) == match json_schema.description {
                    Some(text) => Some(Json::String(text)),
                    None => None,
                }
                &&& member(told, "strict"@) == match json_schema.strict {
                    Some(flag) => Some(Json::Bool(flag)),
                    None => None,
                }
            },
        },
{
    reveal_strlit("type");
    reveal_strlit("json_schema");
    reveal_strlit("name");
    reveal_strlit("description");
    reveal_strlit("schema");
    reveal_strlit("strict");
    assert("type"@.len() == 4 && "json_schema"@.len() == 11);
    assert("name"@.len() == 4 && "description"@.len() == 11 && "schema"@.len() == 6);
    assert("schema"@[1] == 'c' && "strict"@[1] == 't' && "strict"@.len() == 6);
    reveal_with_fuel(member_index, 5);
}

} // verus!
