//! Assembly of Responses output items from chat events.
//!
//! Every assistant block becomes one output item: text blocks become
//! `message` items, reasoning blocks become `reasoning` items, and tool calls
//! become `function_call` or `custom_tool_call` items. Streaming and
//! non-streaming responses share the item builders here, so an item streamed
//! by `response.output_item.done` is identical to the one in the final
//! response.

pub mod events;
pub mod laws;

use uuid::Uuid;
use vstd::prelude::*;

use crate::chat::{
    AssistantBlockKind, AssistantContentBlock, AssistantContentBlockView, AssistantToolCall,
    AssistantToolCallView, ChatEvent, ChatEventView, ChatTokenUsage, FinishReason,
};
use crate::custom_tool::decoder::{DecoderModel, InputDecoder};
use crate::custom_tool::{input_of, raw_input, CustomToolNames};
use crate::json::json_parse;
use crate::text::strip_prefix;
use crate::types::{
    IncompleteDetails, IncompleteDetailsView, InputTokensDetails, ItemStatus, OutputContentPart,
    OutputContentPartView, OutputItem, OutputItemView, OutputTokensDetails, ResponseError,
    ResponseErrorView, ResponseObject, ResponseObjectView, ResponseStatus, ResponseUsage,
    StreamEvent, StreamEventView,
};

verus! {

/// A lowercase hexadecimal digit.
pub open spec fn is_hex_lower(c: char) -> bool {
    '0' <= c <= '9' || 'a' <= c <= 'f'
}

/// The 32 hexadecimal digits of a random UUID of the variant in common use.
pub open spec fn is_uuid_hex(text: Seq<char>) -> bool {
    &&& text.len() == 32
    &&& forall|i: int| 0 <= i < 32 ==> is_hex_lower(#[trigger] text[i])
    &&& text[12] == '4'
    &&& text[16] == '8' || text[16] == '9' || text[16] == 'a' || text[16] == 'b'
}

/// An item ID with the type prefix `prefix`.
pub open spec fn is_item_id(id: Seq<char>, prefix: Seq<char>) -> bool {
    exists|hex: Seq<char>| #[trigger] is_uuid_hex(hex) && id == prefix + seq!['_'] + hex
}

/// Draw the hexadecimal digits of a random UUID.
///
/// `Uuid::new_v4` draws a random version 4 UUID, which `simple` spells as 32
/// lowercase hexadecimal digits. Nothing more is said of the digits: they
/// differ from call to call.
#[verifier::external_body]
fn uuid_hex() -> (hex: String)
    ensures
        is_uuid_hex(hex@),
{
    Uuid::new_v4().simple().to_string()
}

/// Generate one output item ID with the given type prefix.
fn item_id(prefix: &str) -> (id: String)
    ensures
        is_item_id(id@, prefix@),
{
    let hex = uuid_hex();
    let mut id = prefix.to_string();
    id.push('_');
    id.append(hex.as_str());
    assert(id@ =~= prefix@ + seq!['_'] + hex@);
    id
}

/// The output item of one tool call.
pub open spec fn tool_call_item_of(
    id: Seq<char>,
    status: ItemStatus,
    call: AssistantToolCallView,
    custom_tools: Set<Seq<char>>,
) -> OutputItemView {
    if custom_tools.contains(call.name) {
        OutputItemView::CustomToolCall {
            id,
            status,
            call_id: call.id,
            name: call.name,
            input: input_of(call.arguments, json_parse(call.arguments)),
        }
    } else {
        OutputItemView::FunctionCall {
            id,
            status,
            call_id: call.id,
            name: call.name,
            arguments: call.arguments,
        }
    }
}

/// The completed output item of one finished assistant block.
pub open spec fn completed_item_of(
    id: Seq<char>,
    block: AssistantContentBlockView,
    custom_tools: Set<Seq<char>>,
) -> OutputItemView {
    match block {
        AssistantContentBlockView::Text { text } => OutputItemView::Message {
            id,
            role: "assistant"@,
            status: ItemStatus::Completed,
            content: seq![OutputContentPartView::output_text(text)],
        },
        AssistantContentBlockView::Reasoning { text } => OutputItemView::Reasoning {
            id,
            status: ItemStatus::Completed,
            summary: Seq::empty(),
            content: seq![OutputContentPartView::ReasoningText { text }],
        },
        AssistantContentBlockView::ToolCall(call) => tool_call_item_of(
            id,
            ItemStatus::Completed,
            call,
            custom_tools,
        ),
    }
}

/// Item ID prefix for one tool call.
pub open spec fn tool_call_prefix(name: Seq<char>, custom_tools: Set<Seq<char>>) -> Seq<char> {
    if custom_tools.contains(name) {
        "ctc"@
    } else {
        "fc"@
    }
}

/// Item ID prefix for one assistant block.
pub open spec fn block_prefix(
    block: AssistantContentBlockView,
    custom_tools: Set<Seq<char>>,
) -> Seq<char> {
    match block {
        AssistantContentBlockView::Text { .. } => "msg"@,
        AssistantContentBlockView::Reasoning { .. } => "rs"@,
        AssistantContentBlockView::ToolCall(call) => tool_call_prefix(call.name, custom_tools),
    }
}

/// Build one completed output item from one finished assistant block.
pub fn completed_item(
    id: String,
    block: AssistantContentBlock,
    custom_tools: &CustomToolNames,
) -> (item: OutputItem)
    ensures
        item.deep_view() == completed_item_of(id@, block.deep_view(), custom_tools@),
{
    match block {
        AssistantContentBlock::Text { text } => {
            let content = vec![OutputContentPart::output_text(text)];
            assert(content.deep_view() =~= seq![OutputContentPartView::output_text(text@)]);
            OutputItem::Message { id, role: "assistant", status: ItemStatus::Completed, content }
        },
        AssistantContentBlock::Reasoning { text } => {
            let content = vec![OutputContentPart::ReasoningText { text }];
            assert(content.deep_view() =~= seq![
                OutputContentPartView::ReasoningText { text: text@ },
            ]);
            OutputItem::Reasoning {
                id,
                status: ItemStatus::Completed,
                summary: Vec::new(),
                content,
            }
        },
        AssistantContentBlock::ToolCall(call) => tool_call_item(
            id,
            ItemStatus::Completed,
            call,
            custom_tools,
        ),
    }
}

/// Build one tool-call output item.
pub fn tool_call_item(
    id: String,
    status: ItemStatus,
    call: AssistantToolCall,
    custom_tools: &CustomToolNames,
) -> (item: OutputItem)
    ensures
        item.deep_view() == tool_call_item_of(id@, status, call.deep_view(), custom_tools@),
{
    let AssistantToolCall { id: call_id, name, arguments } = call;
    if custom_tools.contains(name.as_str()) {
        OutputItem::CustomToolCall { id, status, call_id, name, input: raw_input(arguments) }
    } else {
        OutputItem::FunctionCall { id, status, call_id, name, arguments }
    }
}

/// Item ID prefix for one tool call.
pub fn tool_call_id_prefix(name: &str, custom_tools: &CustomToolNames) -> (prefix: &'static str)
    ensures
        prefix@ == tool_call_prefix(name@, custom_tools@),
{
    if custom_tools.contains(name) {
        "ctc"
    } else {
        "fc"
    }
}

/// Item ID prefix for one assistant block.
fn block_id_prefix(block: &AssistantContentBlock, custom_tools: &CustomToolNames) -> (prefix:
    &'static str)
    ensures
        prefix@ == block_prefix(block.deep_view(), custom_tools@),
{
    match block {
        AssistantContentBlock::Text { .. } => "msg",
        AssistantContentBlock::Reasoning { .. } => "rs",
        AssistantContentBlock::ToolCall(call) => tool_call_id_prefix(
            call.name.as_str(),
            custom_tools,
        ),
    }
}

/// `items` are the completed items of `blocks`, in order, whatever their IDs.
pub open spec fn are_items_of(
    items: Seq<OutputItemView>,
    blocks: Seq<AssistantContentBlockView>,
    custom_tools: Set<Seq<char>>,
) -> bool {
    &&& items.len() == blocks.len()
    &&& forall|i: int|
        0 <= i < items.len() ==> #[trigger] items[i] == completed_item_of(
            items[i].id(),
            blocks[i],
            custom_tools,
        )
}

/// Build the output items of one non-streaming response.
pub fn output_items(blocks: Vec<AssistantContentBlock>, custom_tools: &CustomToolNames) -> (items:
    Vec<OutputItem>)
    ensures
        are_items_of(items.deep_view(), blocks.deep_view(), custom_tools@),
        forall|i: int|
            0 <= i < items.deep_view().len() ==> is_item_id(
                (#[trigger] items.deep_view()[i]).id(),
                block_prefix(blocks.deep_view()[i], custom_tools@),
            ),
{
    let mut items: Vec<OutputItem> = Vec::new();
    for block in it: blocks
        invariant
            it.seq() == blocks@,
            items.deep_view().len() == it.index(),
            forall|i: int|
                0 <= i < it.index() ==> #[trigger] items.deep_view()[i] == completed_item_of(
                    items.deep_view()[i].id(),
                    blocks.deep_view()[i],
                    custom_tools@,
                ),
            forall|i: int|
                0 <= i < it.index() ==> is_item_id(
                    (#[trigger] items.deep_view()[i]).id(),
                    block_prefix(blocks.deep_view()[i], custom_tools@),
                ),
    {
        let ghost before = items.deep_view();
        let ghost viewed = block.deep_view();
        let id = item_id(block_id_prefix(&block, custom_tools));
        items.push(completed_item(id, block, custom_tools));
        assert(viewed == blocks.deep_view()[it.index()]);
        assert(items.deep_view() =~= before.push(completed_item_of(id@, viewed, custom_tools@)));
    }
    items
}

/// The status of a response whose generation ended for `reason`.
pub open spec fn status_of(reason: FinishReason) -> ResponseStatus {
    match reason {
        FinishReason::Stop => ResponseStatus::Completed,
        FinishReason::Length | FinishReason::Repetition => ResponseStatus::Incomplete,
        FinishReason::Abort | FinishReason::Error => ResponseStatus::Failed,
    }
}

/// Why a response whose generation ended for `reason` is incomplete.
pub open spec fn incomplete_details_of(reason: FinishReason) -> Option<IncompleteDetailsView> {
    match reason {
        FinishReason::Length => Some(IncompleteDetailsView { reason: "max_output_tokens"@ }),
        FinishReason::Repetition => Some(IncompleteDetailsView { reason: "repetition"@ }),
        _ => None,
    }
}

/// The error of a response whose generation ended for `reason`.
pub open spec fn error_of(reason: FinishReason) -> Option<ResponseErrorView> {
    match reason {
        FinishReason::Abort => Some(
            ResponseErrorView { code: "server_error"@, message: "The request was aborted."@ },
        ),
        FinishReason::Error => Some(
            ResponseErrorView { code: "server_error"@, message: "Internal server error"@ },
        ),
        _ => None,
    }
}

/// The token counts of a finished response.
pub open spec fn usage_of(usage: ChatTokenUsage) -> ResponseUsage {
    ResponseUsage {
        input_tokens: usage.prompt_token_count,
        input_tokens_details: InputTokensDetails { cached_tokens: usage.cached_token_count },
        output_tokens: usage.output_token_count,
        output_tokens_details: OutputTokensDetails { reasoning_tokens: usage.reasoning_tokens },
        total_tokens: (usage.prompt_token_count + usage.output_token_count) as usize,
    }
}

/// Whether the token counts of a generation can be summed.
pub open spec fn usage_fits(usage: ChatTokenUsage) -> bool {
    usage.prompt_token_count + usage.output_token_count <= usize::MAX
}

/// A response after its generation ended.
pub open spec fn finished(
    response: ResponseObjectView,
    output: Seq<OutputItemView>,
    usage: ChatTokenUsage,
    reason: FinishReason,
) -> ResponseObjectView {
    ResponseObjectView {
        status: status_of(reason),
        incomplete_details: incomplete_details_of(reason),
        error: error_of(reason),
        output,
        usage: Some(usage_of(usage)),
        ..response
    }
}

/// A response after its generation broke off.
pub open spec fn failed(
    response: ResponseObjectView,
    output: Seq<OutputItemView>,
    message: Seq<char>,
) -> ResponseObjectView {
    ResponseObjectView {
        status: ResponseStatus::Failed,
        error: Some(ResponseErrorView { code: "server_error"@, message }),
        output,
        ..response
    }
}

/// Fill in the terminal state of a response from the chat terminal metadata.
pub fn finish_response(
    response: &mut ResponseObject,
    output: Vec<OutputItem>,
    usage: ChatTokenUsage,
    finish_reason: &FinishReason,
)
    requires
        usage_fits(usage),
    ensures
        final(response).deep_view() == finished(
            old(response).deep_view(),
            output.deep_view(),
            usage,
            *finish_reason,
        ),
        final(response).status == status_of(*finish_reason),
        final(response).status is Completed <==> *finish_reason is Stop,
        final(response).status is Incomplete <==> *finish_reason is Length || *finish_reason
            is Repetition,
        final(response).output.deep_view() == output.deep_view(),
        final(response).usage matches Some(counts) && {
            &&& counts.input_tokens == usage.prompt_token_count
            &&& counts.input_tokens_details.cached_tokens == usage.cached_token_count
            &&& counts.output_tokens == usage.output_token_count
            &&& counts.output_tokens_details.reasoning_tokens == usage.reasoning_tokens
            &&& counts.total_tokens == usage.prompt_token_count + usage.output_token_count
        },
{
    let (status, incomplete_details, error) = match finish_reason {
        FinishReason::Stop => (ResponseStatus::Completed, None, None),
        FinishReason::Length => (
            ResponseStatus::Incomplete,
            Some(IncompleteDetails { reason: "max_output_tokens" }),
            None,
        ),
        FinishReason::Repetition => (
            ResponseStatus::Incomplete,
            Some(IncompleteDetails { reason: "repetition" }),
            None,
        ),
        FinishReason::Abort => (
            ResponseStatus::Failed,
            None,
            Some(
                ResponseError {
                    code: "server_error",
                    message: "The request was aborted.".to_string(),
                },
            ),
        ),
        FinishReason::Error => (
            ResponseStatus::Failed,
            None,
            Some(
                ResponseError {
                    code: "server_error",
                    message: "Internal server error".to_string(),
                },
            ),
        ),
    };
    response.status = status;
    response.incomplete_details = incomplete_details;
    response.error = error;
    response.output = output;
    response.usage = Some(
        ResponseUsage {
            input_tokens: usage.prompt_token_count,
            input_tokens_details: InputTokensDetails { cached_tokens: usage.cached_token_count },
            output_tokens: usage.output_token_count,
            output_tokens_details: OutputTokensDetails {
                reasoning_tokens: usage.reasoning_tokens,
            },
            total_tokens: usage.prompt_token_count + usage.output_token_count,
        },
    );
}

/// Mark a response as failed after generation broke off mid-stream, keeping
/// the output items completed so far.
pub fn fail_response(response: &mut ResponseObject, output: Vec<OutputItem>, message: String)
    ensures
        final(response).deep_view() == failed(
            old(response).deep_view(),
            output.deep_view(),
            message@,
        ),
        final(response).status == ResponseStatus::Failed,
        final(response).output.deep_view() == output.deep_view(),
        final(response).error matches Some(error) && error.message@ == message@,
{
    response.status = ResponseStatus::Failed;
    response.error = Some(ResponseError { code: "server_error", message });
    response.output = output;
}

/// The output item currently being streamed.
#[derive(Debug)]
struct OpenItem {
    id: String,
    output_index: usize,
    kind: OpenItemKind,
}

#[derive(Debug)]
enum OpenItemKind {
    Text,
    Reasoning,
    FunctionCall,
    CustomToolCall {
        decoder: InputDecoder,
        /// Input text streamed so far.
        streamed: String,
    },
}

/// What is being streamed in an open item.
#[verifier::ext_equal]
pub enum OpenKindModel {
    Text,
    Reasoning,
    FunctionCall,
    CustomToolCall { decoder: DecoderModel, streamed: Seq<char> },
}

/// The open item of an [`AssemblerModel`].
#[verifier::ext_equal]
pub struct OpenItemModel {
    pub id: Seq<char>,
    pub output_index: usize,
    pub kind: OpenKindModel,
}

/// Abstract state of a [`StreamAssembler`].
#[verifier::ext_equal]
pub struct AssemblerModel {
    /// Names of the declared custom tools.
    pub custom_tools: Set<Seq<char>>,
    /// Completed output items, in output order.
    pub output: Seq<OutputItemView>,
    /// The item being streamed.
    pub open: Option<OpenItemModel>,
}

impl OpenItem {
    spec fn model(self) -> OpenItemModel {
        OpenItemModel {
            id: self.id@,
            output_index: self.output_index,
            kind: match self.kind {
                OpenItemKind::Text => OpenKindModel::Text,
                OpenItemKind::Reasoning => OpenKindModel::Reasoning,
                OpenItemKind::FunctionCall => OpenKindModel::FunctionCall,
                OpenItemKind::CustomToolCall { decoder, streamed } => OpenKindModel::CustomToolCall {
                    decoder: decoder@,
                    streamed: streamed@,
                },
            },
        }
    }
}

impl AssemblerModel {
    /// The state before the first event.
    pub open spec fn start(custom_tools: Set<Seq<char>>) -> AssemblerModel {
        AssemblerModel { custom_tools, output: Seq::empty(), open: None }
    }

    /// What every reachable state satisfies.
    pub open spec fn wf(self) -> bool {
        self.open matches Some(open) ==> match open.kind {
            OpenKindModel::CustomToolCall { decoder, .. } => decoder.wf(),
            _ => true,
        }
    }

    /// Whether `event` can follow: deltas and ends need an open item of their
    /// kind, tool calls come through their own events, and the terminal event
    /// is the caller's.
    pub open spec fn accepts(self, event: ChatEventView) -> bool {
        match event {
            ChatEventView::Start | ChatEventView::LogprobsDelta => true,
            ChatEventView::BlockStart { kind } => !(kind is ToolCall),
            ChatEventView::BlockDelta { .. } => self.open matches Some(open) && (open.kind is Text
                || open.kind is Reasoning),
            ChatEventView::BlockEnd { block } => self.open is Some && !(block is ToolCall),
            ChatEventView::ToolCallStart { .. } => true,
            ChatEventView::ToolCallArgumentsDelta { .. } => self.open matches Some(open) && (
            open.kind is FunctionCall || open.kind is CustomToolCall),
            ChatEventView::ToolCallEnd { call } => self.open matches Some(open) && (
            self.custom_tools.contains(call.name) ==> open.kind is CustomToolCall),
            ChatEventView::Done { .. } => false,
        }
    }

    /// The ID prefix of the item that `event` opens, where it opens one.
    pub open spec fn opened_prefix(self, event: ChatEventView) -> Option<Seq<char>> {
        match event {
            ChatEventView::BlockStart { kind: AssistantBlockKind::Text } => Some("msg"@),
            ChatEventView::BlockStart { .. } => Some("rs"@),
            ChatEventView::ToolCallStart { name, .. } => Some(
                tool_call_prefix(name, self.custom_tools),
            ),
            _ => None,
        }
    }

    /// The state with one more completed item, and the event that reports it.
    pub open spec fn finish(self, item: OutputItemView) -> (AssemblerModel, StreamEventView) {
        (
            AssemblerModel { output: self.output.push(item), ..self },
            StreamEventView::OutputItemDone { output_index: self.output.len() as usize, item },
        )
    }

    /// Open a text or reasoning item under the ID `id`.
    pub open spec fn block_start(self, kind: AssistantBlockKind, id: Seq<char>) -> (
        AssemblerModel,
        Seq<StreamEventView>,
    ) {
        let output_index = self.output.len() as usize;
        let (kind, item, part) = if kind is Text {
            (
                OpenKindModel::Text,
                OutputItemView::Message {
                    id,
                    role: "assistant"@,
                    status: ItemStatus::InProgress,
                    content: Seq::empty(),
                },
                OutputContentPartView::output_text(Seq::empty()),
            )
        } else {
            (
                OpenKindModel::Reasoning,
                OutputItemView::Reasoning {
                    id,
                    status: ItemStatus::InProgress,
                    summary: Seq::empty(),
                    content: Seq::empty(),
                },
                OutputContentPartView::ReasoningText { text: Seq::empty() },
            )
        };
        (
            AssemblerModel { open: Some(OpenItemModel { id, output_index, kind }), ..self },
            seq![
                StreamEventView::OutputItemAdded { output_index, item },
                StreamEventView::ContentPartAdded {
                    item_id: id,
                    output_index,
                    content_index: 0,
                    part,
                },
            ],
        )
    }

    /// Stream text of the open item.
    pub open spec fn block_delta(self, open: OpenItemModel, delta: Seq<char>) -> Seq<
        StreamEventView,
    > {
        if open.kind is Text {
            seq![
                StreamEventView::OutputTextDelta {
                    item_id: open.id,
                    output_index: open.output_index,
                    content_index: 0,
                    delta,
                    logprobs: Seq::empty(),
                },
            ]
        } else {
            seq![
                StreamEventView::ReasoningTextDelta {
                    item_id: open.id,
                    output_index: open.output_index,
                    content_index: 0,
                    delta,
                },
            ]
        }
    }

    /// Close the open text or reasoning item.
    pub open spec fn block_end(self, open: OpenItemModel, block: AssistantContentBlockView) -> (
        AssemblerModel,
        Seq<StreamEventView>,
    ) {
        let (text_done, part) = match block {
            AssistantContentBlockView::Text { text } => (
                StreamEventView::OutputTextDone {
                    item_id: open.id,
                    output_index: open.output_index,
                    content_index: 0,
                    text,
                    logprobs: Seq::empty(),
                },
                OutputContentPartView::output_text(text),
            ),
            AssistantContentBlockView::Reasoning { text } => (
                StreamEventView::ReasoningTextDone {
                    item_id: open.id,
                    output_index: open.output_index,
                    content_index: 0,
                    text,
                },
                OutputContentPartView::ReasoningText { text },
            ),
            AssistantContentBlockView::ToolCall(_) => arbitrary(),
        };
        let (next, done) = AssemblerModel { open: None, ..self }.finish(
            completed_item_of(open.id, block, self.custom_tools),
        );
        (
            next,
            seq![
                text_done,
                StreamEventView::ContentPartDone {
                    item_id: open.id,
                    output_index: open.output_index,
                    content_index: 0,
                    part,
                },
                done,
            ],
        )
    }

    /// Open a tool-call item under the ID `id`.
    pub open spec fn tool_start(self, call_id: Seq<char>, name: Seq<char>, id: Seq<char>) -> (
        AssemblerModel,
        Seq<StreamEventView>,
    ) {
        let output_index = self.output.len() as usize;
        let kind = if self.custom_tools.contains(name) {
            OpenKindModel::CustomToolCall { decoder: DecoderModel::start(), streamed: Seq::empty() }
        } else {
            OpenKindModel::FunctionCall
        };
        let call = AssistantToolCallView { id: call_id, name, arguments: Seq::empty() };
        (
            AssemblerModel { open: Some(OpenItemModel { id, output_index, kind }), ..self },
            seq![
                StreamEventView::OutputItemAdded {
                    output_index,
                    item: tool_call_item_of(id, ItemStatus::InProgress, call, self.custom_tools),
                },
            ],
        )
    }

    /// Stream arguments of the open tool call: those of a function as they
    /// are, those of a custom tool as far as they decode to input.
    pub open spec fn tool_delta(self, open: OpenItemModel, delta: Seq<char>) -> (
        AssemblerModel,
        Seq<StreamEventView>,
    ) {
        match open.kind {
            OpenKindModel::CustomToolCall { decoder, streamed } => {
                let (decoder, input) = decoder.run(delta);
                let kind = OpenKindModel::CustomToolCall { decoder, streamed: streamed + input };
                (
                    AssemblerModel { open: Some(OpenItemModel { kind, ..open }), ..self },
                    input_delta(open.id, open.output_index, input),
                )
            },
            _ => (
                self,
                seq![
                    StreamEventView::FunctionCallArgumentsDelta {
                        item_id: open.id,
                        output_index: open.output_index,
                        delta,
                    },
                ],
            ),
        }
    }

    /// Close the open tool call. Input that was held back is streamed first,
    /// unless the final input does not continue what was streamed.
    pub open spec fn tool_end(self, open: OpenItemModel, call: AssistantToolCallView) -> (
        AssemblerModel,
        Seq<StreamEventView>,
    ) {
        let item = tool_call_item_of(open.id, ItemStatus::Completed, call, self.custom_tools);
        let (next, done) = AssemblerModel { open: None, ..self }.finish(item);
        let reported = match item {
            OutputItemView::CustomToolCall { input, .. } => {
                let rest = match open.kind {
                    OpenKindModel::CustomToolCall { streamed, .. } => remainder(input, streamed),
                    _ => Seq::empty(),
                };
                input_delta(open.id, open.output_index, rest).push(
                    StreamEventView::CustomToolCallInputDone {
                        item_id: open.id,
                        output_index: open.output_index,
                        input,
                    },
                )
            },
            _ => seq![
                StreamEventView::FunctionCallArgumentsDone {
                    item_id: open.id,
                    output_index: open.output_index,
                    name: call.name,
                    arguments: call.arguments,
                },
            ],
        };
        (next, reported.push(done))
    }

    /// The state after `event`, and the stream events that it turns into.
    /// `id` is the ID of the item that `event` opens, if it opens one.
    pub open spec fn step(self, event: ChatEventView, id: Seq<char>) -> (
        AssemblerModel,
        Seq<StreamEventView>,
    ) {
        match event {
            ChatEventView::BlockStart { kind } => self.block_start(kind, id),
            ChatEventView::BlockDelta { delta } => (self, self.block_delta(self.open->0, delta)),
            ChatEventView::BlockEnd { block } => self.block_end(self.open->0, block),
            ChatEventView::ToolCallStart { id: call_id, name } => self.tool_start(
                call_id,
                name,
                id,
            ),
            ChatEventView::ToolCallArgumentsDelta { delta } => self.tool_delta(
                self.open->0,
                delta,
            ),
            ChatEventView::ToolCallEnd { call } => self.tool_end(self.open->0, call),
            _ => (self, Seq::empty()),
        }
    }
}

/// The event that streams `input`, or none where there is nothing to stream.
pub open spec fn input_delta(id: Seq<char>, output_index: usize, input: Seq<char>) -> Seq<
    StreamEventView,
> {
    if input.len() == 0 {
        Seq::empty()
    } else {
        seq![StreamEventView::CustomToolCallInputDelta { item_id: id, output_index, delta: input }]
    }
}

/// What follows `streamed` in `input`, or nothing where `input` does not start
/// with it.
pub open spec fn remainder(input: Seq<char>, streamed: Seq<char>) -> Seq<char> {
    if streamed.is_prefix_of(input) {
        input.skip(streamed.len() as int)
    } else {
        Seq::empty()
    }
}

/// Per-response streaming state translating chat events into stream events.
///
/// The engine opens at most one block or tool call at a time and closes it
/// before opening the next, so there is at most one open output item.
#[derive(Debug)]
pub struct StreamAssembler {
    custom_tools: CustomToolNames,
    /// Completed output items, in output order.
    output: Vec<OutputItem>,
    open: Option<OpenItem>,
}

impl View for StreamAssembler {
    type V = AssemblerModel;

    closed spec fn view(&self) -> AssemblerModel {
        AssemblerModel {
            custom_tools: self.custom_tools@,
            output: self.output.deep_view(),
            open: match self.open {
                Some(open) => Some(open.model()),
                None => None,
            },
        }
    }
}

impl StreamAssembler {
    /// An assembler before the first event.
    pub fn new(custom_tools: CustomToolNames) -> (assembler: Self)
        ensures
            assembler@ == AssemblerModel::start(custom_tools@),
            assembler@.wf(),
            assembler@.custom_tools == custom_tools@,
            assembler@.output.len() == 0,
            assembler@.open is None,
    {
        StreamAssembler { custom_tools, output: Vec::new(), open: None }
    }

    /// Whether `event` can be pushed next.
    pub fn can_push(&self, event: &ChatEvent) -> (accepted: bool)
        ensures
            accepted == self@.accepts(event.deep_view()),
    {
        match event {
            ChatEvent::Start | ChatEvent::LogprobsDelta => true,
            ChatEvent::BlockStart { kind } => !matches!(kind, AssistantBlockKind::ToolCall),
            ChatEvent::BlockDelta { .. } => match &self.open {
                Some(open) => matches!(open.kind, OpenItemKind::Text | OpenItemKind::Reasoning),
                None => false,
            },
            ChatEvent::BlockEnd { block } => self.open.is_some() && !matches!(
                block,
                AssistantContentBlock::ToolCall(_),
            ),
            ChatEvent::ToolCallStart { .. } => true,
            ChatEvent::ToolCallArgumentsDelta { .. } => match &self.open {
                Some(open) => matches!(
                    open.kind,
                    OpenItemKind::FunctionCall | OpenItemKind::CustomToolCall { .. },
                ),
                None => false,
            },
            ChatEvent::ToolCallEnd { call } => match &self.open {
                Some(open) => !self.custom_tools.contains(call.name.as_str()) || matches!(
                    open.kind,
                    OpenItemKind::CustomToolCall { .. },
                ),
                None => false,
            },
            ChatEvent::Done { .. } => false,
        }
    }

    /// Take the output items completed so far.
    pub fn take_output(&mut self) -> (output: Vec<OutputItem>)
        ensures
            output.deep_view() == old(self)@.output,
            final(self)@ == (AssemblerModel { output: Seq::empty(), ..old(self)@ }),
    {
        let mut output: Vec<OutputItem> = Vec::new();
        std::mem::swap(&mut output, &mut self.output);
        output
    }

    /// Translate one non-terminal chat event into stream events.
    pub fn push(&mut self, event: ChatEvent, events: &mut Vec<StreamEvent>)
        requires
            old(self)@.wf(),
            old(self)@.accepts(event.deep_view()),
        ensures
            final(self)@.wf(),
            exists|id: Seq<char>|
                (old(self)@.opened_prefix(event.deep_view()) matches Some(prefix) ==> is_item_id(
                    id,
                    prefix,
                )) && final(self)@ == (#[trigger] old(self)@.step(event.deep_view(), id)).0
                    && final(events).deep_view() == old(events).deep_view() + old(self)@.step(
                    event.deep_view(),
                    id,
                ).1,
    {
        let id = match &event {
            ChatEvent::BlockStart { kind: AssistantBlockKind::Text } => item_id("msg"),
            ChatEvent::BlockStart { .. } => item_id("rs"),
            ChatEvent::ToolCallStart { name, .. } => item_id(
                tool_call_id_prefix(name.as_str(), &self.custom_tools),
            ),
            _ => String::new(),
        };
        let ghost chosen = id@;
        self.push_with_id(event, id, events);
        assert(self@ == old(self)@.step(event.deep_view(), chosen).0);
    }

    /// Translate one non-terminal chat event into stream events. `id` is the ID
    /// of the item that the event opens, if it opens one.
    pub fn push_with_id(&mut self, event: ChatEvent, id: String, events: &mut Vec<StreamEvent>)
        requires
            old(self)@.wf(),
            old(self)@.accepts(event.deep_view()),
        ensures
            final(self)@.wf(),
            final(self)@ == old(self)@.step(event.deep_view(), id@).0,
            final(events).deep_view() == old(events).deep_view() + old(self)@.step(
                event.deep_view(),
                id@,
            ).1,
    {
        match event {
            ChatEvent::BlockStart { kind } => self.block_start(kind, id, events),
            ChatEvent::BlockDelta { delta } => self.block_delta(delta, events),
            ChatEvent::BlockEnd { block } => self.block_end(block, events),
            ChatEvent::ToolCallStart { id: call_id, name } => self.tool_start(
                call_id,
                name,
                id,
                events,
            ),
            ChatEvent::ToolCallArgumentsDelta { delta } => self.tool_delta(delta, events),
            ChatEvent::ToolCallEnd { call } => self.tool_end(call, events),
            _ => {
                assert(events.deep_view() + Seq::<StreamEventView>::empty() =~= events.deep_view());
            },
        }
    }

    /// Open a text or reasoning item.
    fn block_start(&mut self, kind: AssistantBlockKind, id: String, events: &mut Vec<StreamEvent>)
        requires
            !(kind is ToolCall),
        ensures
            final(self)@.wf(),
            final(self)@ == old(self)@.block_start(kind, id@).0,
            final(events).deep_view() == old(events).deep_view() + old(self)@.block_start(
                kind,
                id@,
            ).1,
    {
        let ghost before = events.deep_view();
        let output_index: usize = self.output.len();
        let (open_kind, item, part) = match kind {
            AssistantBlockKind::Text => (
                OpenItemKind::Text,
                OutputItem::Message {
                    id: id.clone(),
                    role: "assistant",
                    status: ItemStatus::InProgress,
                    content: Vec::new(),
                },
                OutputContentPart::output_text(String::new()),
            ),
            _ => (
                OpenItemKind::Reasoning,
                OutputItem::Reasoning {
                    id: id.clone(),
                    status: ItemStatus::InProgress,
                    summary: Vec::new(),
                    content: Vec::new(),
                },
                OutputContentPart::ReasoningText { text: String::new() },
            ),
        };
        self.open = Some(OpenItem { id: id.clone(), output_index, kind: open_kind });
        events.push(StreamEvent::OutputItemAdded { output_index, item });
        events.push(
            StreamEvent::ContentPartAdded { item_id: id, output_index, content_index: 0, part },
        );
        assert(events.deep_view() =~~= before + old(self)@.block_start(kind, id@).1);
    }

    /// Stream text of the open item.
    fn block_delta(&mut self, delta: String, events: &mut Vec<StreamEvent>)
        requires
            old(self)@.wf(),
            old(self)@.open matches Some(open) && (open.kind is Text || open.kind is Reasoning),
        ensures
            final(self)@ == old(self)@,
            final(events).deep_view() == old(events).deep_view() + old(self)@.block_delta(
                old(self)@.open->0,
                delta@,
            ),
    {
        let ghost before = events.deep_view();
        if let Some(open) = &self.open {
            let item_id = open.id.clone();
            let output_index: usize = open.output_index;
            match open.kind {
                OpenItemKind::Text => events.push(
                    StreamEvent::OutputTextDelta {
                        item_id,
                        output_index,
                        content_index: 0,
                        delta,
                        logprobs: Vec::new(),
                    },
                ),
                _ => events.push(
                    StreamEvent::ReasoningTextDelta {
                        item_id,
                        output_index,
                        content_index: 0,
                        delta,
                    },
                ),
            }
        }
        assert(events.deep_view() =~~= before + self@.block_delta(self@.open->0, delta@));
    }

    /// Close the open text or reasoning item.
    fn block_end(&mut self, block: AssistantContentBlock, events: &mut Vec<StreamEvent>)
        requires
            old(self)@.open is Some,
            !(block is ToolCall),
        ensures
            final(self)@.wf(),
            final(self)@ == old(self)@.block_end(old(self)@.open->0, block.deep_view()).0,
            final(events).deep_view() == old(events).deep_view() + old(self)@.block_end(
                old(self)@.open->0,
                block.deep_view(),
            ).1,
    {
        let ghost before = events.deep_view();
        let ghost viewed = block.deep_view();
        let ghost opened = self@.open->0;
        if let Some(open) = self.open.take() {
            let OpenItem { id, output_index, kind: _ } = open;
            match &block {
                AssistantContentBlock::Text { text } => {
                    events.push(
                        StreamEvent::OutputTextDone {
                            item_id: id.clone(),
                            output_index,
                            content_index: 0,
                            text: text.clone(),
                            logprobs: Vec::new(),
                        },
                    );
                    events.push(
                        StreamEvent::ContentPartDone {
                            item_id: id.clone(),
                            output_index,
                            content_index: 0,
                            part: OutputContentPart::output_text(text.clone()),
                        },
                    );
                },
                AssistantContentBlock::Reasoning { text } => {
                    events.push(
                        StreamEvent::ReasoningTextDone {
                            item_id: id.clone(),
                            output_index,
                            content_index: 0,
                            text: text.clone(),
                        },
                    );
                    events.push(
                        StreamEvent::ContentPartDone {
                            item_id: id.clone(),
                            output_index,
                            content_index: 0,
                            part: OutputContentPart::ReasoningText { text: text.clone() },
                        },
                    );
                },
                AssistantContentBlock::ToolCall(_) => {},
            }
            let item = completed_item(id, block, &self.custom_tools);
            self.finish_item(item, events);
        }
        assert(events.deep_view() =~~= before + old(self)@.block_end(opened, viewed).1);
    }

    /// Open a tool-call item.
    fn tool_start(
        &mut self,
        call_id: String,
        name: String,
        id: String,
        events: &mut Vec<StreamEvent>,
    )
        ensures
            final(self)@.wf(),
            final(self)@ == old(self)@.tool_start(call_id@, name@, id@).0,
            final(events).deep_view() == old(events).deep_view() + old(self)@.tool_start(
                call_id@,
                name@,
                id@,
            ).1,
    {
        let ghost before = events.deep_view();
        let output_index: usize = self.output.len();
        let kind = if self.custom_tools.contains(name.as_str()) {
            OpenItemKind::CustomToolCall {
                decoder: InputDecoder::default(),
                streamed: String::new(),
            }
        } else {
            OpenItemKind::FunctionCall
        };
        self.open = Some(OpenItem { id: id.clone(), output_index, kind });
        let call = AssistantToolCall { id: call_id, name, arguments: String::new() };
        assert(call.deep_view().arguments =~= Seq::<char>::empty());
        let item = tool_call_item(id, ItemStatus::InProgress, call, &self.custom_tools);
        events.push(StreamEvent::OutputItemAdded { output_index, item });
        assert(events.deep_view() =~= before + old(self)@.tool_start(call_id@, name@, id@).1);
    }

    /// Stream arguments of the open tool call.
    fn tool_delta(&mut self, delta: String, events: &mut Vec<StreamEvent>)
        requires
            old(self)@.wf(),
            old(self)@.open matches Some(open) && (open.kind is FunctionCall || open.kind
                is CustomToolCall),
        ensures
            final(self)@.wf(),
            final(self)@ == old(self)@.tool_delta(old(self)@.open->0, delta@).0,
            final(events).deep_view() == old(events).deep_view() + old(self)@.tool_delta(
                old(self)@.open->0,
                delta@,
            ).1,
    {
        let ghost before = events.deep_view();
        let ghost opened = self@.open->0;
        if let Some(open) = self.open.take() {
            let OpenItem { id, output_index, kind } = open;
            match kind {
                OpenItemKind::CustomToolCall { mut decoder, mut streamed } => {
                    let input = decoder.push(delta.as_str());
                    streamed.append(input.as_str());
                    self.open = Some(
                        OpenItem {
                            id: id.clone(),
                            output_index,
                            kind: OpenItemKind::CustomToolCall { decoder, streamed },
                        },
                    );
                    if !input.as_str().is_empty() {
                        events.push(
                            StreamEvent::CustomToolCallInputDelta {
                                item_id: id,
                                output_index,
                                delta: input,
                            },
                        );
                    }
                },
                other => {
                    self.open = Some(OpenItem { id: id.clone(), output_index, kind: other });
                    events.push(
                        StreamEvent::FunctionCallArgumentsDelta { item_id: id, output_index, delta },
                    );
                },
            }
        }
        assert(events.deep_view() =~= before + old(self)@.tool_delta(opened, delta@).1);
    }

    /// Close the open tool call.
    fn tool_end(&mut self, call: AssistantToolCall, events: &mut Vec<StreamEvent>)
        requires
            old(self)@.open matches Some(open) && (old(self)@.custom_tools.contains(
                call.deep_view().name,
            ) ==> open.kind is CustomToolCall),
        ensures
            final(self)@.wf(),
            final(self)@ == old(self)@.tool_end(old(self)@.open->0, call.deep_view()).0,
            final(events).deep_view() == old(events).deep_view() + old(self)@.tool_end(
                old(self)@.open->0,
                call.deep_view(),
            ).1,
    {
        let ghost before = events.deep_view();
        let ghost viewed = call.deep_view();
        let ghost opened = self@.open->0;
        if let Some(open) = self.open.take() {
            let OpenItem { id, output_index, kind } = open;
            let item = tool_call_item(
                id.clone(),
                ItemStatus::Completed,
                call,
                &self.custom_tools,
            );
            match &item {
                OutputItem::FunctionCall { name, arguments, .. } => events.push(
                    StreamEvent::FunctionCallArgumentsDone {
                        item_id: id,
                        output_index,
                        name: name.clone(),
                        arguments: arguments.clone(),
                    },
                ),
                OutputItem::CustomToolCall { input, .. } => {
                    // Stream what the decoder held back. Malformed shim
                    // arguments can make the final input diverge from the
                    // streamed text, in which case only `done` carries it.
                    if let OpenItemKind::CustomToolCall { streamed, .. } = kind {
                        if let Some(rest) = strip_prefix(input.as_str(), streamed.as_str()) {
                            assert(rest@ =~= remainder(input@, streamed@));
                            if !rest.is_empty() {
                                events.push(
                                    StreamEvent::CustomToolCallInputDelta {
                                        item_id: id.clone(),
                                        output_index,
                                        delta: rest.to_string(),
                                    },
                                );
                            }
                        }
                    }
                    events.push(
                        StreamEvent::CustomToolCallInputDone {
                            item_id: id,
                            output_index,
                            input: input.clone(),
                        },
                    );
                },
                _ => {},
            }
            self.finish_item(item, events);
        }
        assert(events.deep_view() =~= before + old(self)@.tool_end(opened, viewed).1);
    }

    /// Record one completed item and emit its `output_item.done` event.
    fn finish_item(&mut self, item: OutputItem, events: &mut Vec<StreamEvent>)
        ensures
            final(self)@ == old(self)@.finish(item.deep_view()).0,
            final(events).deep_view() == old(events).deep_view().push(
                old(self)@.finish(item.deep_view()).1,
            ),
    {
        let ghost before = events.deep_view();
        let ghost output = self.output.deep_view();
        events.push(
            StreamEvent::OutputItemDone { output_index: self.output.len(), item: item.clone() },
        );
        self.output.push(item);
        assert(self.output.deep_view() =~= output.push(item.deep_view()));
        assert(events.deep_view() =~= before.push(old(self)@.finish(item.deep_view()).1));
    }
}

} // verus!
