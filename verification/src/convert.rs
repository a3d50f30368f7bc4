//! Lowering of stateless Responses requests into chat requests.

pub mod laws;
pub mod tools;

use serde_json::Value;
use vstd::prelude::*;

use crate::chat::{
    AssistantContentBlock, AssistantContentBlockView, AssistantToolCall, AssistantToolCallView,
    ChatContent, ChatContentPart, ChatContentPartView, ChatContentView, ChatMessage,
    ChatMessageView, ChatTool, ChatToolChoice, ChatToolChoiceView, ChatToolView, ImageDetail,
    JsonSchemaFormat, JsonSchemaFormatView, ResponseFormat, ResponseFormatView,
};
use crate::custom_tool::{
    input_description, shim_arguments, shim_parameters, shim_schema, shim_text, CustomToolNames,
};
use crate::error::{ApiError, ApiErrorView};
use crate::json::{
    json_bool, json_object, json_string, json_view, map_new, members_view, object_of, Json,
};
use crate::text::str_eq;
use crate::types::{
    CustomTool, FunctionTool, InputContentPart, InputContentPartView, InputItem, InputItemView,
    InputMessage, InputRole, InputToolOutput, NamedToolChoice, NamedToolChoiceView,
    ReasoningTextPart, ReasoningTextPartView, ResponseTool, ResponseToolChoice,
    ResponseToolChoiceView, ResponseToolView, ResponsesRequest, ResponsesRequestView, TextFormat,
    TextFormatView, TextOrList, TextOrListView, ToolChoiceMode,
};

verus! {

/// The error that rejects the parameter `param`.
pub open spec fn invalid(message: Seq<char>, param: Seq<char>) -> ApiErrorView {
    ApiErrorView::InvalidRequest { message, param: Some(param) }
}

/// Reject the parameter `param`.
pub(crate) fn invalid_request(message: String, param: &str) -> (error: ApiError)
    ensures
        error.deep_view() == invalid(message@, param@),
{
    ApiError::InvalidRequest { message, param: Some(param.to_string()) }
}

/// Why a request cannot be served faithfully, given the names of the served
/// models; `None` where it can.
pub open spec fn rejection(request: ResponsesRequestView, served: Seq<Seq<char>>) -> Option<
    ApiErrorView,
> {
    if request.model is Some && request.model->0.len() > 0 && !served.contains(request.model->0) {
        Some(ApiErrorView::ModelNotFound { model: request.model->0 })
    } else if request.previous_response_id is Some {
        Some(
            invalid(
                "`previous_response_id` is not supported: responses are not stored. Send the full conversation history in `input` instead."@,
                "previous_response_id"@,
            ),
        )
    } else if request.conversation is Some {
        Some(
            invalid(
                "`conversation` is not supported: responses are not stored. Send the full conversation history in `input` instead."@,
                "conversation"@,
            ),
        )
    } else if request.background == Some(true) {
        Some(invalid("`background` is not supported."@, "background"@))
    } else if request.top_logprobs is Some && request.top_logprobs->0 > 0 {
        Some(invalid("`top_logprobs` is not supported yet."@, "top_logprobs"@))
    } else {
        None
    }
}

/// Reject requests this stateless subset cannot serve faithfully.
///
/// Unrecognized fields are ignored. The fields rejected here are the ones whose
/// omission would silently change the generated result.
pub fn validate_request(request: &ResponsesRequest, served_model_names: &Vec<String>) -> (outcome:
    Result<(), ApiError>)
    ensures
        match outcome {
            Ok(_) => rejection(request.deep_view(), served_model_names.deep_view()) is None,
            Err(error) => rejection(request.deep_view(), served_model_names.deep_view()) == Some(
                error.deep_view(),
            ),
        },
{
    if let Some(model) = &request.model {
        if !model.as_str().is_empty() && !is_served(model, served_model_names) {
            return Err(ApiError::ModelNotFound { model: model.clone() });
        }
    }
    if request.previous_response_id.is_some() {
        return Err(
            invalid_request(
                "`previous_response_id` is not supported: responses are not stored. Send the full conversation history in `input` instead.".to_string(),
                "previous_response_id",
            ),
        );
    }
    if request.conversation.is_some() {
        return Err(
            invalid_request(
                "`conversation` is not supported: responses are not stored. Send the full conversation history in `input` instead.".to_string(),
                "conversation",
            ),
        );
    }
    if let Some(background) = request.background {
        if background {
            return Err(
                invalid_request("`background` is not supported.".to_string(), "background"),
            );
        }
    }
    if let Some(top_logprobs) = request.top_logprobs {
        if top_logprobs > 0 {
            return Err(
                invalid_request(
                    "`top_logprobs` is not supported yet.".to_string(),
                    "top_logprobs",
                ),
            );
        }
    }
    Ok(())
}

/// Whether `model` is among the served models.
fn is_served(model: &String, served: &Vec<String>) -> (found: bool)
    ensures
        found == served.deep_view().contains(model@),
{
    let mut at: usize = 0;
    while at < served.len()
        invariant
            at <= served.len(),
            forall|i: int| 0 <= i < at ==> served.deep_view()[i] != model@,
        decreases served.len() - at,
    {
        if str_eq(served[at].as_str(), model.as_str()) {
            assert(served.deep_view()[at as int] == model@);
            return true;
        }
        at += 1;
    }
    false
}

/// Whether `input_image` parts are accepted in one content position.
#[derive(Debug, Clone, Copy)]
pub enum ImagePolicy {
    Allowed,
    /// Rejected in messages of the given role.
    Rejected(&'static str),
}

/// The lowered form of one content part, or why it is rejected.
pub open spec fn part_of(part: InputContentPartView, policy: ImagePolicy) -> Result<
    ChatContentPartView,
    ApiErrorView,
> {
    match part {
        InputContentPartView::InputText { text } => Ok(ChatContentPartView::Text { text }),
        InputContentPartView::OutputText { text } => Ok(ChatContentPartView::Text { text }),
        InputContentPartView::InputImage { image_url, file_id, detail } => match policy {
            ImagePolicy::Rejected(role) => Err(
                invalid(
                    "input_image is not supported in "@ + role@ + " messages."@,
                    "input"@,
                ),
            ),
            ImagePolicy::Allowed => match (image_url, file_id) {
                (Some(image_url), None) => Ok(
                    ChatContentPartView::ImageUrl {
                        image_url,
                        detail: match detail {
                            Some(detail) => Some(
                                <ImageDetail as vstd::std_specs::convert::FromSpec<_>>::from_spec(
                                    detail,
                                ),
                            ),
                            None => None,
                        },
                        uuid: None,
                    },
                ),
                (None, None) => Err(
                    invalid("input_image must have image_url or file_id."@, "input"@),
                ),
                (Some(_), Some(_)) => Err(
                    invalid("input_image cannot have both image_url and file_id."@, "input"@),
                ),
                (None, Some(_)) => Err(
                    invalid(
                        "input_image file_id is not supported; pass the image as image_url."@,
                        "input"@,
                    ),
                ),
            },
        },
    }
}

/// The lowered forms of content parts, or why the first rejected one is.
pub open spec fn parts_of(parts: Seq<InputContentPartView>, policy: ImagePolicy) -> Result<
    Seq<ChatContentPartView>,
    ApiErrorView,
>
    decreases parts.len(),
{
    if parts.len() == 0 {
        Ok(Seq::empty())
    } else {
        match parts_of(parts.drop_last(), policy) {
            Err(error) => Err(error),
            Ok(lowered) => match part_of(parts.last(), policy) {
                Err(error) => Err(error),
                Ok(part) => Ok(lowered.push(part)),
            },
        }
    }
}

/// The lowered form of message content, or why it is rejected.
pub open spec fn content_of(
    content: TextOrListView<InputContentPartView>,
    policy: ImagePolicy,
) -> Result<ChatContentView, ApiErrorView> {
    match content {
        TextOrListView::Text(text) => Ok(ChatContentView::Text(text)),
        TextOrListView::List(parts) => match parts_of(parts, policy) {
            Ok(parts) => Ok(ChatContentView::Parts(parts)),
            Err(error) => Err(error),
        },
    }
}

/// The first error among content parts decides.
proof fn parts_fail(parts: Seq<InputContentPartView>, at: int, policy: ImagePolicy)
    requires
        0 <= at <= parts.len(),
        parts_of(parts.take(at), policy) is Err,
    ensures
        parts_of(parts, policy) == parts_of(parts.take(at), policy),
    decreases parts.len() - at,
{
    if at == parts.len() {
        assert(parts.take(at) =~= parts);
    } else {
        assert(parts.take(at + 1).drop_last() =~= parts.take(at));
        parts_fail(parts, at + 1, policy);
    }
}

/// Lower one content part.
fn convert_part(part: InputContentPart, image_policy: ImagePolicy) -> (outcome: Result<
    ChatContentPart,
    ApiError,
>)
    ensures
        match outcome {
            Ok(lowered) => part_of(part.deep_view(), image_policy) == Ok::<_, ApiErrorView>(
                lowered.deep_view(),
            ),
            Err(error) => part_of(part.deep_view(), image_policy) == Err::<ChatContentPartView, _>(
                error.deep_view(),
            ),
        },
{
    match part {
        InputContentPart::InputText { text } => Ok(ChatContentPart::Text { text }),
        InputContentPart::OutputText { text } => Ok(ChatContentPart::Text { text }),
        InputContentPart::InputImage { image_url, file_id, detail } => {
            if let ImagePolicy::Rejected(role) = image_policy {
                let mut message = "input_image is not supported in ".to_string();
                message.append(role);
                message.append(" messages.");
                return Err(invalid_request(message, "input"));
            }
            match (image_url, file_id) {
                (Some(image_url), None) => {
                    let detail = match detail {
                        Some(detail) => Some(ImageDetail::from(detail)),
                        None => None,
                    };
                    Ok(ChatContentPart::ImageUrl { image_url, detail, uuid: None })
                },
                (None, None) => Err(
                    invalid_request(
                        "input_image must have image_url or file_id.".to_string(),
                        "input",
                    ),
                ),
                (Some(_), Some(_)) => Err(
                    invalid_request(
                        "input_image cannot have both image_url and file_id.".to_string(),
                        "input",
                    ),
                ),
                (None, Some(_)) => Err(
                    invalid_request(
                        "input_image file_id is not supported; pass the image as image_url.".to_string(),
                        "input",
                    ),
                ),
            }
        },
    }
}

/// Lower message content.
pub fn convert_content(content: TextOrList<InputContentPart>, image_policy: ImagePolicy) -> (outcome:
    Result<ChatContent, ApiError>)
    ensures
        match outcome {
            Ok(lowered) => content_of(content.deep_view(), image_policy) == Ok::<_, ApiErrorView>(
                lowered.deep_view(),
            ),
            Err(error) => content_of(content.deep_view(), image_policy) == Err::<
                ChatContentView,
                _,
            >(error.deep_view()),
        },
{
    let parts = match content {
        TextOrList::Text(text) => return Ok(ChatContent::Text(text)),
        TextOrList::List(parts) => parts,
    };
    let ghost all = parts.deep_view();
    let mut lowered: Vec<ChatContentPart> = Vec::new();
    assert(lowered.deep_view() =~= Seq::<ChatContentPartView>::empty());
    assert(all.take(0) =~= Seq::<InputContentPartView>::empty());
    for part in it: parts
        invariant
            it.seq() == parts@,
            all == parts.deep_view(),
            content.deep_view() == TextOrListView::List(all),
            parts_of(all.take(it.index()), image_policy) == Ok::<_, ApiErrorView>(
                lowered.deep_view(),
            ),
    {
        let ghost before = lowered.deep_view();
        proof {
            assert(all.take(it.index() + 1).drop_last() =~= all.take(it.index()));
            assert(all.take(it.index() + 1).last() == part.deep_view());
        }
        match convert_part(part, image_policy) {
            Ok(converted) => {
                lowered.push(converted);
                assert(lowered.deep_view() =~= before.push(converted.deep_view()));
            },
            Err(error) => {
                proof {
                    parts_fail(all, it.index() + 1, image_policy);
                }
                return Err(error);
            },
        }
    }
    assert(all.take(all.len() as int) =~= all);
    Ok(ChatContent::Parts(lowered))
}

/// The text blocks of a replayed assistant message's parts, or why the first
/// rejected part is.
pub open spec fn text_blocks_of(parts: Seq<InputContentPartView>) -> Result<
    Seq<AssistantContentBlockView>,
    ApiErrorView,
>
    decreases parts.len(),
{
    if parts.len() == 0 {
        Ok(Seq::empty())
    } else {
        match text_blocks_of(parts.drop_last()) {
            Err(error) => Err(error),
            Ok(blocks) => match parts.last() {
                InputContentPartView::InputText { text } => Ok(
                    blocks.push(AssistantContentBlockView::Text { text }),
                ),
                InputContentPartView::OutputText { text } => Ok(
                    blocks.push(AssistantContentBlockView::Text { text }),
                ),
                InputContentPartView::InputImage { .. } => Err(
                    invalid("input_image is not supported in assistant messages."@, "input"@),
                ),
            },
        }
    }
}

/// The text blocks of a replayed assistant message, or why it is rejected.
pub open spec fn assistant_blocks_of(content: TextOrListView<InputContentPartView>) -> Result<
    Seq<AssistantContentBlockView>,
    ApiErrorView,
> {
    match content {
        TextOrListView::Text(text) => Ok(seq![AssistantContentBlockView::Text { text }]),
        TextOrListView::List(parts) => text_blocks_of(parts),
    }
}

/// The first error among assistant parts decides.
proof fn text_blocks_fail(parts: Seq<InputContentPartView>, at: int)
    requires
        0 <= at <= parts.len(),
        text_blocks_of(parts.take(at)) is Err,
    ensures
        text_blocks_of(parts) == text_blocks_of(parts.take(at)),
    decreases parts.len() - at,
{
    if at == parts.len() {
        assert(parts.take(at) =~= parts);
    } else {
        assert(parts.take(at + 1).drop_last() =~= parts.take(at));
        text_blocks_fail(parts, at + 1);
    }
}

/// Convert replayed assistant message content into assistant text blocks.
pub fn assistant_text_blocks(content: TextOrList<InputContentPart>) -> (outcome: Result<
    Vec<AssistantContentBlock>,
    ApiError,
>)
    ensures
        match outcome {
            Ok(blocks) => assistant_blocks_of(content.deep_view()) == Ok::<_, ApiErrorView>(
                blocks.deep_view(),
            ),
            Err(error) => assistant_blocks_of(content.deep_view()) == Err::<
                Seq<AssistantContentBlockView>,
                _,
            >(error.deep_view()),
        },
{
    let parts = match content {
        TextOrList::Text(text) => {
            let blocks = vec![AssistantContentBlock::Text { text }];
            assert(blocks.deep_view() =~= seq![AssistantContentBlockView::Text { text: text@ }]);
            return Ok(blocks);
        },
        TextOrList::List(parts) => parts,
    };
    let ghost all = parts.deep_view();
    let mut blocks: Vec<AssistantContentBlock> = Vec::new();
    assert(blocks.deep_view() =~= Seq::<AssistantContentBlockView>::empty());
    assert(all.take(0) =~= Seq::<InputContentPartView>::empty());
    for part in it: parts
        invariant
            it.seq() == parts@,
            all == parts.deep_view(),
            content.deep_view() == TextOrListView::List(all),
            text_blocks_of(all.take(it.index())) == Ok::<_, ApiErrorView>(blocks.deep_view()),
    {
        let ghost before = blocks.deep_view();
        proof {
            assert(all.take(it.index() + 1).drop_last() =~= all.take(it.index()));
            assert(all.take(it.index() + 1).last() == part.deep_view());
        }
        match part {
            InputContentPart::InputText { text } => {
                blocks.push(AssistantContentBlock::Text { text });
                assert(blocks.deep_view() =~= before.push(
                    AssistantContentBlockView::Text { text: text@ },
                ));
            },
            InputContentPart::OutputText { text } => {
                blocks.push(AssistantContentBlock::Text { text });
                assert(blocks.deep_view() =~= before.push(
                    AssistantContentBlockView::Text { text: text@ },
                ));
            },
            InputContentPart::InputImage { .. } => {
                proof {
                    text_blocks_fail(all, it.index() + 1);
                }
                return Err(
                    invalid_request(
                        "input_image is not supported in assistant messages.".to_string(),
                        "input",
                    ),
                );
            },
        }
    }
    assert(all.take(all.len() as int) =~= all);
    Ok(blocks)
}

/// `messages` with `blocks` at the end of its trailing assistant message, or in
/// a new one.
pub open spec fn with_blocks(
    messages: Seq<ChatMessageView>,
    blocks: Seq<AssistantContentBlockView>,
) -> Seq<ChatMessageView> {
    if messages.len() > 0 && messages.last() is Assistant {
        messages.drop_last().push(
            ChatMessageView::Assistant { content: messages.last()->Assistant_content + blocks },
        )
    } else {
        messages.push(ChatMessageView::Assistant { content: blocks })
    }
}

/// All reasoning text, in order.
pub open spec fn reasoning_text(parts: Seq<ReasoningTextPartView>) -> Seq<char>
    decreases parts.len(),
{
    if parts.len() == 0 {
        Seq::empty()
    } else {
        reasoning_text(parts.drop_last()) + parts.last().text
    }
}

/// `messages` with one more message whose content is `content`.
pub open spec fn with_message(
    messages: Seq<ChatMessageView>,
    content: Result<ChatContentView, ApiErrorView>,
    message: spec_fn(ChatContentView) -> ChatMessageView,
) -> Result<Seq<ChatMessageView>, ApiErrorView> {
    match content {
        Ok(content) => Ok(messages.push(message(content))),
        Err(error) => Err(error),
    }
}

/// The messages after one more history item, or why the item is rejected.
pub open spec fn with_item(messages: Seq<ChatMessageView>, item: InputItemView) -> Result<
    Seq<ChatMessageView>,
    ApiErrorView,
> {
    match item {
        InputItemView::Message(message) => match message.role {
            InputRole::User => with_message(
                messages,
                content_of(message.content, ImagePolicy::Allowed),
                |content: ChatContentView| ChatMessageView::User { content },
            ),
            InputRole::Developer => with_message(
                messages,
                content_of(message.content, ImagePolicy::Allowed),
                |content: ChatContentView| ChatMessageView::Developer { content, tools: None },
            ),
            InputRole::System => with_message(
                messages,
                content_of(message.content, ImagePolicy::Rejected("system")),
                |content: ChatContentView| ChatMessageView::System { content },
            ),
            InputRole::Assistant => match assistant_blocks_of(message.content) {
                Ok(blocks) => Ok(with_blocks(messages, blocks)),
                Err(error) => Err(error),
            },
        },
        InputItemView::Reasoning(reasoning) => {
            let text = match reasoning.content {
                Some(parts) => reasoning_text(parts),
                None => Seq::empty(),
            };
            if text.len() == 0 {
                Ok(messages)
            } else {
                Ok(with_blocks(messages, seq![AssistantContentBlockView::Reasoning { text }]))
            }
        },
        InputItemView::FunctionCall(call) => Ok(
            with_call(messages, call.call_id, call.name, call.arguments),
        ),
        InputItemView::CustomToolCall(call) => Ok(
            with_call(messages, call.call_id, call.name, shim_text(call.input)),
        ),
        InputItemView::FunctionCallOutput(output) => with_output(
            messages,
            output.output,
            output.call_id,
        ),
        InputItemView::CustomToolCallOutput(output) => with_output(
            messages,
            output.output,
            output.call_id,
        ),
        InputItemView::Unsupported => Ok(messages),
    }
}

/// `messages` with one more tool call by the assistant.
pub open spec fn with_call(
    messages: Seq<ChatMessageView>,
    id: Seq<char>,
    name: Seq<char>,
    arguments: Seq<char>,
) -> Seq<ChatMessageView> {
    with_blocks(
        messages,
        seq![
            AssistantContentBlockView::ToolCall(AssistantToolCallView { id, name, arguments }),
        ],
    )
}

/// `messages` with one more tool response.
pub open spec fn with_output(
    messages: Seq<ChatMessageView>,
    output: TextOrListView<InputContentPartView>,
    tool_call_id: Seq<char>,
) -> Result<Seq<ChatMessageView>, ApiErrorView> {
    with_message(
        messages,
        content_of(output, ImagePolicy::Allowed),
        |content: ChatContentView| ChatMessageView::ToolResponse { content, tool_call_id },
    )
}

/// The messages that start a conversation with the given instructions.
pub open spec fn instruction_messages(instructions: Option<Seq<char>>) -> Seq<ChatMessageView> {
    match instructions {
        Some(text) => seq![ChatMessageView::System { content: ChatContentView::Text(text) }],
        None => Seq::empty(),
    }
}

/// The messages of `instructions` and a history, or why the first rejected
/// history item is.
pub open spec fn messages_of(
    instructions: Option<Seq<char>>,
    items: Seq<InputItemView>,
) -> Result<Seq<ChatMessageView>, ApiErrorView>
    decreases items.len(),
{
    if items.len() == 0 {
        Ok(instruction_messages(instructions))
    } else {
        match messages_of(instructions, items.drop_last()) {
            Ok(messages) => with_item(messages, items.last()),
            Err(error) => Err(error),
        }
    }
}

/// The first error among history items decides.
proof fn messages_fail(instructions: Option<Seq<char>>, items: Seq<InputItemView>, at: int)
    requires
        0 <= at <= items.len(),
        messages_of(instructions, items.take(at)) is Err,
    ensures
        messages_of(instructions, items) == messages_of(instructions, items.take(at)),
    decreases items.len() - at,
{
    if at == items.len() {
        assert(items.take(at) =~= items);
    } else {
        assert(items.take(at + 1).drop_last() =~= items.take(at));
        messages_fail(instructions, items, at + 1);
    }
}

/// Lower `instructions` plus the input history into chat messages.
///
/// Consecutive assistant-side items (assistant messages, reasoning, and tool
/// calls) are merged into one assistant message, in order. Each tool-call
/// output becomes one tool-response message.
pub fn convert_input(instructions: Option<String>, input: Vec<InputItem>) -> (outcome: Result<
    Vec<ChatMessage>,
    ApiError,
>)
    ensures
        match outcome {
            Ok(messages) => messages_of(instructions.deep_view(), input.deep_view()) == Ok::<
                _,
                ApiErrorView,
            >(messages.deep_view()),
            Err(error) => messages_of(instructions.deep_view(), input.deep_view()) == Err::<
                Seq<ChatMessageView>,
                _,
            >(error.deep_view()),
        },
{
    let ghost told = instructions.deep_view();
    let ghost all = input.deep_view();
    let mut messages: Vec<ChatMessage> = Vec::new();
    if let Some(instructions) = instructions {
        messages.push(ChatMessage::System { content: ChatContent::Text(instructions) });
    }
    assert(messages.deep_view() =~= instruction_messages(told));
    assert(all.take(0) =~= Seq::<InputItemView>::empty());
    for item in it: input
        invariant
            it.seq() == input@,
            all == input.deep_view(),
            told == instructions.deep_view(),
            messages_of(told, all.take(it.index())) == Ok::<_, ApiErrorView>(messages.deep_view()),
    {
        proof {
            assert(all.take(it.index() + 1).drop_last() =~= all.take(it.index()));
            assert(all.take(it.index() + 1).last() == item.deep_view());
        }
        match push_item(&mut messages, item) {
            Ok(_) => {},
            Err(error) => {
                proof {
                    messages_fail(told, all, it.index() + 1);
                }
                return Err(error);
            },
        }
    }
    assert(all.take(all.len() as int) =~= all);
    Ok(messages)
}

/// Append one history item to the messages.
fn push_item(messages: &mut Vec<ChatMessage>, item: InputItem) -> (outcome: Result<(), ApiError>)
    ensures
        match outcome {
            Ok(_) => with_item(old(messages).deep_view(), item.deep_view()) == Ok::<
                _,
                ApiErrorView,
            >(final(messages).deep_view()),
            Err(error) => with_item(old(messages).deep_view(), item.deep_view()) == Err::<
                Seq<ChatMessageView>,
                _,
            >(error.deep_view()),
        },
{
    let ghost before = messages.deep_view();
    match item {
        InputItem::Message(InputMessage { role, content }) => match role {
            InputRole::User => match convert_content(content, ImagePolicy::Allowed) {
                Ok(content) => {
                    messages.push(ChatMessage::User { content });
                    assert(messages.deep_view() =~= before.push(
                        ChatMessageView::User { content: content.deep_view() },
                    ));
                },
                Err(error) => return Err(error),
            },
            InputRole::Developer => match convert_content(content, ImagePolicy::Allowed) {
                Ok(content) => {
                    messages.push(ChatMessage::Developer { content, tools: None });
                    assert(messages.deep_view() =~= before.push(
                        ChatMessageView::Developer { content: content.deep_view(), tools: None },
                    ));
                },
                Err(error) => return Err(error),
            },
            InputRole::System => match convert_content(
                content,
                ImagePolicy::Rejected("system"),
            ) {
                Ok(content) => {
                    messages.push(ChatMessage::System { content });
                    assert(messages.deep_view() =~= before.push(
                        ChatMessageView::System { content: content.deep_view() },
                    ));
                },
                Err(error) => return Err(error),
            },
            InputRole::Assistant => match assistant_text_blocks(content) {
                Ok(blocks) => push_assistant_blocks(messages, blocks),
                Err(error) => return Err(error),
            },
        },
        InputItem::Reasoning(reasoning) => {
            let text = match reasoning.content {
                Some(parts) => join_reasoning(parts),
                None => String::new(),
            };
            if !text.as_str().is_empty() {
                let blocks = vec![AssistantContentBlock::Reasoning { text }];
                assert(blocks.deep_view() =~= seq![
                    AssistantContentBlockView::Reasoning { text: text@ },
                ]);
                push_assistant_blocks(messages, blocks);
            }
        },
        InputItem::FunctionCall(call) => push_call(
            messages,
            AssistantToolCall { id: call.call_id, name: call.name, arguments: call.arguments },
        ),
        InputItem::CustomToolCall(call) => push_call(
            messages,
            AssistantToolCall {
                id: call.call_id,
                name: call.name,
                arguments: shim_arguments(call.input),
            },
        ),
        InputItem::FunctionCallOutput(output) => return push_output(messages, output),
        InputItem::CustomToolCallOutput(output) => return push_output(messages, output),
        InputItem::Unsupported => {},
    }
    Ok(())
}

/// Append one tool call by the assistant.
fn push_call(messages: &mut Vec<ChatMessage>, call: AssistantToolCall)
    ensures
        final(messages).deep_view() == with_call(
            old(messages).deep_view(),
            call.id@,
            call.name@,
            call.arguments@,
        ),
{
    let blocks = vec![AssistantContentBlock::ToolCall(call)];
    assert(blocks.deep_view() =~= seq![AssistantContentBlockView::ToolCall(call.deep_view())]);
    push_assistant_blocks(messages, blocks);
}

/// Append one tool response.
fn push_output(messages: &mut Vec<ChatMessage>, output: InputToolOutput) -> (outcome: Result<
    (),
    ApiError,
>)
    ensures
        match outcome {
            Ok(_) => with_output(
                old(messages).deep_view(),
                output.deep_view().output,
                output.call_id@,
            ) == Ok::<_, ApiErrorView>(final(messages).deep_view()),
            Err(error) => with_output(
                old(messages).deep_view(),
                output.deep_view().output,
                output.call_id@,
            ) == Err::<Seq<ChatMessageView>, _>(error.deep_view()),
        },
{
    let ghost before = messages.deep_view();
    let InputToolOutput { call_id, output } = output;
    match convert_content(output, ImagePolicy::Allowed) {
        Ok(content) => {
            messages.push(ChatMessage::ToolResponse { content, tool_call_id: call_id });
            assert(messages.deep_view() =~= before.push(
                ChatMessageView::ToolResponse {
                    content: content.deep_view(),
                    tool_call_id: call_id@,
                },
            ));
            Ok(())
        },
        Err(error) => Err(error),
    }
}

/// Join the reasoning text, in order.
fn join_reasoning(parts: Vec<ReasoningTextPart>) -> (text: String)
    ensures
        text@ == reasoning_text(parts.deep_view()),
{
    let ghost all = parts.deep_view();
    let mut text = String::new();
    assert(text@ =~= reasoning_text(all.take(0)));
    for part in it: parts
        invariant
            it.seq() == parts@,
            all == parts.deep_view(),
            text@ == reasoning_text(all.take(it.index())),
    {
        assert(all.take(it.index() + 1).drop_last() =~= all.take(it.index()));
        assert(all.take(it.index() + 1).last() == part.deep_view());
        text.append(part.text.as_str());
    }
    assert(all.take(all.len() as int) =~= all);
    text
}

/// Append blocks to the trailing assistant message, or start a new one.
pub fn push_assistant_blocks(messages: &mut Vec<ChatMessage>, blocks: Vec<AssistantContentBlock>)
    ensures
        final(messages).deep_view() == with_blocks(old(messages).deep_view(), blocks.deep_view()),
{
    let ghost before = messages.deep_view();
    let ghost added = blocks.deep_view();
    match messages.pop() {
        Some(ChatMessage::Assistant { mut content }) => {
            let ghost kept = content.deep_view();
            let mut blocks = blocks;
            content.append(&mut blocks);
            assert(content.deep_view() =~= kept + added);
            messages.push(ChatMessage::Assistant { content });
            assert(messages.deep_view() =~= before.drop_last().push(
                ChatMessageView::Assistant { content: kept + added },
            ));
        },
        Some(other) => {
            messages.push(other);
            messages.push(ChatMessage::Assistant { content: blocks });
            assert(messages.deep_view() =~= before.push(
                ChatMessageView::Assistant { content: added },
            ));
        },
        None => {
            messages.push(ChatMessage::Assistant { content: blocks });
            assert(messages.deep_view() =~= before.push(
                ChatMessageView::Assistant { content: added },
            ));
        },
    }
}

/// No assistant message follows another directly.
pub open spec fn is_merged(messages: Seq<ChatMessageView>) -> bool {
    forall|i: int|
        #![trigger messages[i]]
        0 <= i < messages.len() - 1 ==> !(messages[i] is Assistant && messages[i + 1] is Assistant)
}

/// Consecutive assistant-side items end up in one assistant message: a lowered
/// history never holds two assistant messages in a row.
pub proof fn lowered_history_is_merged(
    instructions: Option<Seq<char>>,
    items: Seq<InputItemView>,
)
    ensures
        messages_of(instructions, items) matches Ok(messages) ==> is_merged(messages),
    decreases items.len(),
{
    if items.len() > 0 {
        lowered_history_is_merged(instructions, items.drop_last());
    }
}

/// All assistant blocks of messages, in order.
pub open spec fn all_blocks(messages: Seq<ChatMessageView>) -> Seq<AssistantContentBlockView>
    decreases messages.len(),
{
    if messages.len() == 0 {
        Seq::empty()
    } else {
        match messages.last() {
            ChatMessageView::Assistant { content } => all_blocks(messages.drop_last()) + content,
            _ => all_blocks(messages.drop_last()),
        }
    }
}

/// The assistant blocks that one history item stands for.
pub open spec fn item_blocks(item: InputItemView) -> Seq<AssistantContentBlockView> {
    match item {
        InputItemView::Message(message) => if message.role is Assistant {
            match assistant_blocks_of(message.content) {
                Ok(blocks) => blocks,
                Err(_) => Seq::empty(),
            }
        } else {
            Seq::empty()
        },
        InputItemView::Reasoning(reasoning) => match reasoning.content {
            Some(parts) => if reasoning_text(parts).len() == 0 {
                Seq::empty()
            } else {
                seq![AssistantContentBlockView::Reasoning { text: reasoning_text(parts) }]
            },
            None => Seq::empty(),
        },
        InputItemView::FunctionCall(call) => seq![
            AssistantContentBlockView::ToolCall(
                AssistantToolCallView {
                    id: call.call_id,
                    name: call.name,
                    arguments: call.arguments,
                },
            ),
        ],
        InputItemView::CustomToolCall(call) => seq![
            AssistantContentBlockView::ToolCall(
                AssistantToolCallView {
                    id: call.call_id,
                    name: call.name,
                    arguments: shim_text(call.input),
                },
            ),
        ],
        _ => Seq::empty(),
    }
}

/// The assistant blocks that a history stands for, in order.
pub open spec fn history_blocks(items: Seq<InputItemView>) -> Seq<AssistantContentBlockView>
    decreases items.len(),
{
    if items.len() == 0 {
        Seq::empty()
    } else {
        history_blocks(items.drop_last()) + item_blocks(items.last())
    }
}

/// Merging assistant blocks keeps all of them, in order.
proof fn with_blocks_keeps(
    messages: Seq<ChatMessageView>,
    blocks: Seq<AssistantContentBlockView>,
)
    ensures
        all_blocks(with_blocks(messages, blocks)) == all_blocks(messages) + blocks,
        tool_responses(with_blocks(messages, blocks)) == tool_responses(messages),
{
    let merged = with_blocks(messages, blocks);
    if messages.len() > 0 && messages.last() is Assistant {
        assert(merged.drop_last() =~= messages.drop_last());
    } else {
        assert(merged.drop_last() =~= messages);
    }
    assert(all_blocks(merged) =~= all_blocks(messages) + blocks);
}

/// IDs of the tool calls that tool-response messages answer, in order.
pub open spec fn tool_responses(messages: Seq<ChatMessageView>) -> Seq<Seq<char>>
    decreases messages.len(),
{
    if messages.len() == 0 {
        Seq::empty()
    } else {
        match messages.last() {
            ChatMessageView::ToolResponse { tool_call_id, .. } => tool_responses(
                messages.drop_last(),
            ).push(tool_call_id),
            _ => tool_responses(messages.drop_last()),
        }
    }
}

/// IDs of the tool calls whose outputs stand in a history, in order.
pub open spec fn tool_outputs(items: Seq<InputItemView>) -> Seq<Seq<char>>
    decreases items.len(),
{
    if items.len() == 0 {
        Seq::empty()
    } else {
        match items.last() {
            InputItemView::FunctionCallOutput(output) => tool_outputs(items.drop_last()).push(
                output.call_id,
            ),
            InputItemView::CustomToolCallOutput(output) => tool_outputs(items.drop_last()).push(
                output.call_id,
            ),
            _ => tool_outputs(items.drop_last()),
        }
    }
}

/// Lowering keeps every assistant-side item, in order, and turns each tool-call
/// output into one tool-response message.
pub proof fn lowered_history_is_complete(
    instructions: Option<Seq<char>>,
    items: Seq<InputItemView>,
)
    ensures
        messages_of(instructions, items) matches Ok(messages) ==> all_blocks(messages)
            == history_blocks(items) && tool_responses(messages) == tool_outputs(items),
    decreases items.len(),
{
    reveal_with_fuel(all_blocks, 2);
    reveal_with_fuel(tool_responses, 2);
    if items.len() == 0 {
        let messages = instruction_messages(instructions);
        assert(messages.len() > 0 ==> messages.drop_last().len() == 0);
    } else {
        lowered_history_is_complete(instructions, items.drop_last());
        if let Ok(before) = messages_of(instructions, items.drop_last()) {
            if let Ok(after) = with_item(before, items.last()) {
                let blocks = item_blocks(items.last());
                with_blocks_keeps(before, blocks);
                if after == with_blocks(before, blocks) {
                } else if after == before {
                    assert(all_blocks(before) + blocks =~= all_blocks(before));
                } else {
                    assert(after.drop_last() =~= before);
                    assert(all_blocks(before) + blocks =~= all_blocks(before));
                }
            }
        }
    }
}

/// Instructions stand before the history, as its system message.
pub proof fn instructions_come_first(instructions: Seq<char>, items: Seq<InputItemView>)
    ensures
        messages_of(Some(instructions), items) matches Ok(messages) ==> messages.len() > 0
            && messages[0] == (ChatMessageView::System {
            content: ChatContentView::Text(instructions),
        }),
    decreases items.len(),
{
    if items.len() > 0 {
        instructions_come_first(instructions, items.drop_last());
    }
}

/// Whether a tool of this kind can be offered.
pub open spec fn is_supported(tool: ResponseToolView) -> bool {
    !(tool is Unsupported)
}

/// The tools that can be offered, in order.
pub open spec fn supported_tools(tools: Seq<ResponseToolView>) -> Seq<ResponseToolView> {
    tools.filter(|tool: ResponseToolView| is_supported(tool))
}

/// Names of the custom tools among `tools`, in order.
pub open spec fn custom_names(tools: Seq<ResponseToolView>) -> Seq<Seq<char>>
    decreases tools.len(),
{
    if tools.len() == 0 {
        Seq::empty()
    } else {
        match tools.last() {
            ResponseToolView::Custom(tool) => custom_names(tools.drop_last()).push(tool.name),
            _ => custom_names(tools.drop_last()),
        }
    }
}

/// The schema of a function without arguments.
pub open spec fn no_arguments() -> Json {
    Json::Object(
        seq![
            ("type"@, Json::String("object"@)),
            ("properties"@, Json::Object(Seq::empty())),
        ],
    )
}

/// The chat tool of one tool declaration, where it is supported.
pub open spec fn chat_tool_of(tool: ResponseToolView) -> Option<ChatToolView> {
    match tool {
        ResponseToolView::Function(tool) => Some(
            ChatToolView {
                name: tool.name,
                description: tool.description,
                parameters: match tool.parameters {
                    Some(parameters) => parameters,
                    None => no_arguments(),
                },
                strict: tool.strict,
            },
        ),
        ResponseToolView::Custom(tool) => Some(
            ChatToolView {
                name: tool.name,
                description: tool.description,
                parameters: shim_schema(input_description(tool.format)),
                strict: None,
            },
        ),
        ResponseToolView::Unsupported => None,
    }
}

/// The chat tools of tool declarations, in order.
pub open spec fn chat_tools_of(tools: Seq<ResponseToolView>) -> Seq<ChatToolView>
    decreases tools.len(),
{
    if tools.len() == 0 {
        Seq::empty()
    } else {
        match chat_tool_of(tools.last()) {
            Some(tool) => chat_tools_of(tools.drop_last()).push(tool),
            None => chat_tools_of(tools.drop_last()),
        }
    }
}

/// Lower one supported tool declaration into a chat tool.
pub fn convert_tool(tool: &ResponseTool) -> (lowered: Option<ChatTool>)
    ensures
        lowered.deep_view() == chat_tool_of(tool.deep_view()),
        lowered is None <==> tool is Unsupported,
        tool matches ResponseTool::Function(declared) ==> (lowered matches Some(offered)
            && offered.name@ == declared.name@ && offered.description.deep_view()
            == declared.description.deep_view() && offered.strict == declared.strict && (
        declared.parameters matches Some(parameters) ==> json_view(offered.parameters)
            == json_view(parameters))),
        tool matches ResponseTool::Custom(declared) ==> (lowered matches Some(offered)
            && offered.name@ == declared.name@ && offered.description.deep_view()
            == declared.description.deep_view() && offered.strict is None),
{
    match tool {
        ResponseTool::Function(FunctionTool { name, description, parameters, strict }) => {
            let parameters = match parameters {
                Some(parameters) => parameters.clone(),
                None => empty_parameters(),
            };
            Some(
                ChatTool {
                    name: name.clone(),
                    description: description.clone(),
                    parameters,
                    strict: *strict,
                },
            )
        },
        ResponseTool::Custom(CustomTool { name, description, format }) => Some(
            ChatTool {
                name: name.clone(),
                description: description.clone(),
                parameters: shim_parameters(format.as_ref()),
                strict: None,
            },
        ),
        ResponseTool::Unsupported => None,
    }
}

/// The schema of a function without arguments.
fn empty_parameters() -> (schema: Value)
    ensures
        json_view(schema) == no_arguments(),
{
    proof {
        reveal_strlit("type");
        reveal_strlit("properties");
    }
    assert("type"@.len() == 4 && "properties"@.len() == 10);
    let kind = json_string("object".to_string());
    let properties = json_object(map_new());
    let members = vec![("type", kind), ("properties", properties)];
    assert(members_view(members@) =~= seq![
        ("type"@, json_view(kind)),
        ("properties"@, json_view(properties)),
    ]);
    object_of(members)
}

/// Keep the tools that can be offered.
pub(crate) fn keep_supported(tools: Vec<ResponseTool>) -> (kept: Vec<ResponseTool>)
    ensures
        kept.deep_view() == supported_tools(tools.deep_view()),
{
    reveal(Seq::filter);
    let ghost all = tools.deep_view();
    let mut kept: Vec<ResponseTool> = Vec::new();
    assert(kept.deep_view() =~= supported_tools(all.take(0)));
    for tool in it: tools
        invariant
            it.seq() == tools@,
            all == tools.deep_view(),
            kept.deep_view() == supported_tools(all.take(it.index())),
    {
        reveal(Seq::filter);
        let ghost before = kept.deep_view();
        assert(all.take(it.index() + 1).drop_last() =~= all.take(it.index()));
        assert(all.take(it.index() + 1).last() == tool.deep_view());
        match tool {
            ResponseTool::Unsupported => {},
            supported => {
                kept.push(supported);
                assert(kept.deep_view() =~= before.push(supported.deep_view()));
            },
        }
    }
    assert(all.take(all.len() as int) =~= all);
    kept
}

/// Collect the names of the custom tools.
pub(crate) fn collect_custom_names(tools: &Vec<ResponseTool>) -> (names: CustomToolNames)
    ensures
        names@ == custom_names(tools.deep_view()).to_set(),
{
    let ghost all = tools.deep_view();
    let mut names: Vec<String> = Vec::new();
    assert(names.deep_view() =~= custom_names(all.take(0)));
    let mut at: usize = 0;
    while at < tools.len()
        invariant
            at <= tools.len(),
            all == tools.deep_view(),
            names.deep_view() == custom_names(all.take(at as int)),
        decreases tools.len() - at,
    {
        let ghost before = names.deep_view();
        assert(all.take(at + 1).drop_last() =~= all.take(at as int));
        assert(all.take(at + 1).last() == tools@[at as int].deep_view());
        if let ResponseTool::Custom(tool) = &tools[at] {
            names.push(tool.name.clone());
            assert(names.deep_view() =~= before.push(tool.name@));
        }
        at += 1;
    }
    assert(all.take(all.len() as int) =~= all);
    CustomToolNames::new(names)
}

/// Lower the tool declarations.
pub(crate) fn convert_tools(tools: &Vec<ResponseTool>) -> (lowered: Vec<ChatTool>)
    ensures
        lowered.deep_view() == chat_tools_of(tools.deep_view()),
{
    let ghost all = tools.deep_view();
    let mut lowered: Vec<ChatTool> = Vec::new();
    assert(lowered.deep_view() =~= chat_tools_of(all.take(0)));
    let mut at: usize = 0;
    while at < tools.len()
        invariant
            at <= tools.len(),
            all == tools.deep_view(),
            lowered.deep_view() == chat_tools_of(all.take(at as int)),
        decreases tools.len() - at,
    {
        let ghost before = lowered.deep_view();
        assert(all.take(at + 1).drop_last() =~= all.take(at as int));
        assert(all.take(at + 1).last() == tools@[at as int].deep_view());
        if let Some(tool) = convert_tool(&tools[at]) {
            lowered.push(tool);
            assert(lowered.deep_view() =~= before.push(tool.deep_view()));
        }
        at += 1;
    }
    assert(all.take(all.len() as int) =~= all);
    lowered
}

/// The chat tool choice of a requested one; `None` leaves it to the engine.
pub open spec fn chat_choice_of(choice: ResponseToolChoiceView) -> Option<ChatToolChoiceView> {
    match choice {
        ResponseToolChoiceView::Mode(ToolChoiceMode::Auto) => None,
        ResponseToolChoiceView::Mode(ToolChoiceMode::NoTools) => Some(ChatToolChoiceView::NoTools),
        ResponseToolChoiceView::Mode(ToolChoiceMode::Required) => Some(
            ChatToolChoiceView::Required,
        ),
        ResponseToolChoiceView::Named(NamedToolChoiceView::Function { name }) => Some(
            ChatToolChoiceView::Function { name },
        ),
        ResponseToolChoiceView::Named(NamedToolChoiceView::Custom { name }) => Some(
            ChatToolChoiceView::Function { name },
        ),
    }
}

/// Convert a requested tool choice. `auto` maps to the default, which falls
/// back to no tools when no supported tool is declared.
pub fn convert_tool_choice(tool_choice: &ResponseToolChoice) -> (choice: Option<ChatToolChoice>)
    ensures
        choice.deep_view() == chat_choice_of(tool_choice.deep_view()),
{
    match tool_choice {
        ResponseToolChoice::Mode(ToolChoiceMode::Auto) => None,
        ResponseToolChoice::Mode(ToolChoiceMode::NoTools) => Some(ChatToolChoice::NoTools),
        ResponseToolChoice::Mode(ToolChoiceMode::Required) => Some(ChatToolChoice::Required),
        ResponseToolChoice::Named(NamedToolChoice::Function { name }) => Some(
            ChatToolChoice::Function { name: name.clone() },
        ),
        ResponseToolChoice::Named(NamedToolChoice::Custom { name }) => Some(
            ChatToolChoice::Function { name: name.clone() },
        ),
    }
}

/// The response format of a text format, or `None` for plain text.
pub open spec fn response_format_of(format: TextFormatView) -> Option<ResponseFormatView> {
    match format {
        TextFormatView::Text => None,
        TextFormatView::JsonObject => Some(ResponseFormatView::JsonObject),
        TextFormatView::JsonSchema { name, description, schema, strict } => Some(
            ResponseFormatView::JsonSchema {
                json_schema: JsonSchemaFormatView { name, description, schema, strict },
            },
        ),
    }
}

/// Convert `text.format` into the shared response format, or `None` for plain
/// text.
pub fn convert_text_format(format: &TextFormat) -> (converted: Option<ResponseFormat>)
    ensures
        converted.deep_view() == response_format_of(format.deep_view()),
{
    match format {
        TextFormat::Text => None,
        TextFormat::JsonObject => Some(ResponseFormat::JsonObject),
        TextFormat::JsonSchema { name, description, schema, strict } => Some(
            ResponseFormat::JsonSchema {
                json_schema: JsonSchemaFormat {
                    name: name.clone(),
                    description: description.clone(),
                    schema: schema.clone(),
                    strict: *strict,
                },
            },
        ),
    }
}

/// The member `name` with the value in `value`, where there is one.
pub open spec fn optional_member(name: Seq<char>, value: Option<Json>) -> Seq<
    (Seq<char>, Json),
> {
    match value {
        Some(value) => seq![(name, value)],
        None => Seq::empty(),
    }
}

/// The JSON members of a schema format. Absent ones are left out.
pub open spec fn schema_members(format: JsonSchemaFormatView) -> Seq<(Seq<char>, Json)> {
    let description = match format.description {
        Some(text) => Some(Json::String(text)),
        None => None,
    };
    let strict = match format.strict {
        Some(flag) => Some(Json::Bool(flag)),
        None => None,
    };
    seq![("name"@, Json::String(format.name))] + optional_member("description"@, description)
        + seq![("schema"@, format.schema)] + optional_member("strict"@, strict)
}

/// The JSON form of a response format.
pub open spec fn response_format_json(format: ResponseFormatView) -> Json {
    match format {
        ResponseFormatView::JsonObject => Json::Object(
            seq![("type"@, Json::String("json_object"@))],
        ),
        ResponseFormatView::JsonSchema { json_schema } => Json::Object(
            seq![
                ("type"@, Json::String("json_schema"@)),
                ("json_schema"@, Json::Object(schema_members(json_schema))),
            ],
        ),
    }
}

/// Spell a response format as JSON.
pub fn response_format_value(format: &ResponseFormat) -> (value: Value)
    ensures
        json_view(value) == response_format_json(format.deep_view()),
{
    proof {
        reveal_strlit("type");
        reveal_strlit("json_schema");
        reveal_strlit("name");
        reveal_strlit("description");
        reveal_strlit("schema");
        reveal_strlit("strict");
    }
    assert("type"@.len() == 4 && "json_schema"@.len() == 11);
    assert("name"@.len() == 4 && "description"@.len() == 11 && "schema"@.len() == 6);
    assert("schema"@[1] == 'c' && "strict"@[1] == 't' && "strict"@.len() == 6);
    match format {
        ResponseFormat::JsonObject => {
            let kind = json_string("json_object".to_string());
            let members = vec![("type", kind)];
            assert(members_view(members@) =~= seq![("type"@, json_view(kind))]);
            object_of(members)
        },
        ResponseFormat::JsonSchema { json_schema } => {
            let name = json_string(json_schema.name.clone());
            let mut members = vec![("name", name)];
            if let Some(description) = &json_schema.description {
                members.push(("description", json_string(description.clone())));
            }
            members.push(("schema", json_schema.schema.clone()));
            if let Some(strict) = json_schema.strict {
                members.push(("strict", json_bool(strict)));
            }
            assert(members_view(members@) =~= schema_members(json_schema.deep_view()));
            let schema = object_of(members);
            let kind = json_string("json_schema".to_string());
            let members = vec![("type", kind), ("json_schema", schema)];
            assert(members_view(members@) =~= seq![
                ("type"@, json_view(kind)),
                ("json_schema"@, json_view(schema)),
            ]);
            object_of(members)
        },
    }
}

/// Ignored built-in tools are not echoed back, and each of the others is
/// offered to the model.
pub proof fn supported_tools_are_offered(tools: Seq<ResponseToolView>)
    ensures
        forall|i: int|
            0 <= i < supported_tools(tools).len() ==> is_supported(
                #[trigger] supported_tools(tools)[i],
            ),
        chat_tools_of(supported_tools(tools)).len() == supported_tools(tools).len(),
        chat_tools_of(supported_tools(tools)) == chat_tools_of(tools),
    decreases tools.len(),
{
    reveal(Seq::filter);
    if tools.len() > 0 {
        let rest = tools.drop_last();
        supported_tools_are_offered(rest);
        if is_supported(tools.last()) {
            assert(supported_tools(tools).drop_last() =~= supported_tools(rest));
        }
    }
}

} // verus!
