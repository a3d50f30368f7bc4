//! Data exchanged with the chat engine.
//!
//! Ghost counterparts are named as in [`crate::types`].

use serde_json::{Map as JsonMap, Value};
use vstd::prelude::*;

use crate::json::{entries_option, json_entries, json_option, json_view, Json};
use crate::types::{FloatBits, InputImageDetail};

verus! {

/// One message of the conversation handed to the engine.
#[derive(Debug, PartialEq)]
pub enum ChatMessage {
    System { content: ChatContent },
    Developer { content: ChatContent, tools: Option<Vec<ChatTool>> },
    User { content: ChatContent },
    Assistant { content: Vec<AssistantContentBlock> },
    ToolResponse { content: ChatContent, tool_call_id: String },
}

/// What a [`ChatMessage`] holds.
#[verifier::ext_equal]
pub enum ChatMessageView {
    System { content: ChatContentView },
    Developer { content: ChatContentView, tools: Option<Seq<ChatToolView>> },
    User { content: ChatContentView },
    Assistant { content: Seq<AssistantContentBlockView> },
    ToolResponse { content: ChatContentView, tool_call_id: Seq<char> },
}

impl DeepView for ChatMessage {
    type V = ChatMessageView;

    open spec fn deep_view(&self) -> ChatMessageView {
        match self {
            ChatMessage::System { content } => ChatMessageView::System {
                content: content.deep_view(),
            },
            ChatMessage::Developer { content, tools } => ChatMessageView::Developer {
                content: content.deep_view(),
                tools: tools.deep_view(),
            },
            ChatMessage::User { content } => ChatMessageView::User {
                content: content.deep_view(),
            },
            ChatMessage::Assistant { content } => ChatMessageView::Assistant {
                content: content.deep_view(),
            },
            ChatMessage::ToolResponse { content, tool_call_id } => ChatMessageView::ToolResponse {
                content: content.deep_view(),
                tool_call_id: tool_call_id@,
            },
        }
    }
}

/// Content of a message that the assistant did not write.
#[derive(Debug, PartialEq)]
pub enum ChatContent {
    Text(String),
    Parts(Vec<ChatContentPart>),
}

/// What a [`ChatContent`] holds.
#[verifier::ext_equal]
pub enum ChatContentView {
    Text(Seq<char>),
    Parts(Seq<ChatContentPartView>),
}

impl DeepView for ChatContent {
    type V = ChatContentView;

    open spec fn deep_view(&self) -> ChatContentView {
        match self {
            ChatContent::Text(value) => ChatContentView::Text(value@),
            ChatContent::Parts(value) => ChatContentView::Parts(value.deep_view()),
        }
    }
}

/// One part of a message's content.
#[derive(Debug, PartialEq)]
pub enum ChatContentPart {
    Text { text: String },
    ImageUrl { image_url: String, detail: Option<ImageDetail>, uuid: Option<String> },
}

/// What a [`ChatContentPart`] holds.
#[verifier::ext_equal]
pub enum ChatContentPartView {
    Text { text: Seq<char> },
    ImageUrl { image_url: Seq<char>, detail: Option<ImageDetail>, uuid: Option<Seq<char>> },
}

impl DeepView for ChatContentPart {
    type V = ChatContentPartView;

    open spec fn deep_view(&self) -> ChatContentPartView {
        match self {
            ChatContentPart::Text { text } => ChatContentPartView::Text {
                text: text@,
            },
            ChatContentPart::ImageUrl {
                image_url,
                detail,
                uuid,
            } => ChatContentPartView::ImageUrl {
                image_url: image_url@,
                detail: *detail,
                uuid: uuid.deep_view(),
            },
        }
    }
}

/// Fidelity at which an image is shown to the model.
#[derive(Debug, Clone, Copy, PartialEq, Eq, Structural)]
pub enum ImageDetail {
    Auto,
    Low,
    High,
}

impl DeepView for ImageDetail {
    type V = ImageDetail;

    open spec fn deep_view(&self) -> ImageDetail {
        *self
    }
}

/// One block of an assistant message.
#[derive(Debug, PartialEq)]
pub enum AssistantContentBlock {
    Text { text: String },
    Reasoning { text: String },
    ToolCall(AssistantToolCall),
}

/// What a [`AssistantContentBlock`] holds.
#[verifier::ext_equal]
pub enum AssistantContentBlockView {
    Text { text: Seq<char> },
    Reasoning { text: Seq<char> },
    ToolCall(AssistantToolCallView),
}

impl DeepView for AssistantContentBlock {
    type V = AssistantContentBlockView;

    open spec fn deep_view(&self) -> AssistantContentBlockView {
        match self {
            AssistantContentBlock::Text { text } => AssistantContentBlockView::Text {
                text: text@,
            },
            AssistantContentBlock::Reasoning { text } => AssistantContentBlockView::Reasoning {
                text: text@,
            },
            AssistantContentBlock::ToolCall(value) => AssistantContentBlockView::ToolCall(value.deep_view()),
        }
    }
}

/// The kinds of assistant blocks.
#[derive(Debug, Clone, Copy, PartialEq, Eq, Structural)]
pub enum AssistantBlockKind {
    Text,
    Reasoning,
    ToolCall,
}

impl DeepView for AssistantBlockKind {
    type V = AssistantBlockKind;

    open spec fn deep_view(&self) -> AssistantBlockKind {
        *self
    }
}

/// One tool call by the assistant.
#[derive(Debug, PartialEq)]
pub struct AssistantToolCall {
    pub id: String,
    pub name: String,
    pub arguments: String,
}

/// What a [`AssistantToolCall`] holds.
#[verifier::ext_equal]
pub struct AssistantToolCallView {
    pub id: Seq<char>,
    pub name: Seq<char>,
    pub arguments: Seq<char>,
}

impl DeepView for AssistantToolCall {
    type V = AssistantToolCallView;

    open spec fn deep_view(&self) -> AssistantToolCallView {
        AssistantToolCallView {
            id: self.id@,
            name: self.name@,
            arguments: self.arguments@,
        }
    }
}

/// A function tool offered to the model.
#[derive(Debug, PartialEq)]
pub struct ChatTool {
    pub name: String,
    pub description: Option<String>,
    pub parameters: Value,
    pub strict: Option<bool>,
}

/// What a [`ChatTool`] holds.
#[verifier::ext_equal]
pub struct ChatToolView {
    pub name: Seq<char>,
    pub description: Option<Seq<char>>,
    pub parameters: Json,
    pub strict: Option<bool>,
}

impl DeepView for ChatTool {
    type V = ChatToolView;

    open spec fn deep_view(&self) -> ChatToolView {
        ChatToolView {
            name: self.name@,
            description: self.description.deep_view(),
            parameters: json_view(self.parameters),
            strict: self.strict,
        }
    }
}

/// Which tools the model may or must call.
#[derive(Debug, PartialEq)]
pub enum ChatToolChoice {
    NoTools,
    Auto,
    Required,
    Function { name: String },
}

/// What a [`ChatToolChoice`] holds.
#[verifier::ext_equal]
pub enum ChatToolChoiceView {
    NoTools,
    Auto,
    Required,
    Function { name: Seq<char> },
}

impl DeepView for ChatToolChoice {
    type V = ChatToolChoiceView;

    open spec fn deep_view(&self) -> ChatToolChoiceView {
        match self {
            ChatToolChoice::NoTools => ChatToolChoiceView::NoTools,
            ChatToolChoice::Auto => ChatToolChoiceView::Auto,
            ChatToolChoice::Required => ChatToolChoiceView::Required,
            ChatToolChoice::Function { name } => ChatToolChoiceView::Function {
                name: name@,
            },
        }
    }
}

/// The shape asked of the generated text.
#[derive(Debug, PartialEq)]
pub enum ResponseFormat {
    JsonObject,
    JsonSchema { json_schema: JsonSchemaFormat },
}

/// What a [`ResponseFormat`] holds.
#[verifier::ext_equal]
pub enum ResponseFormatView {
    JsonObject,
    JsonSchema { json_schema: JsonSchemaFormatView },
}

impl DeepView for ResponseFormat {
    type V = ResponseFormatView;

    open spec fn deep_view(&self) -> ResponseFormatView {
        match self {
            ResponseFormat::JsonObject => ResponseFormatView::JsonObject,
            ResponseFormat::JsonSchema { json_schema } => ResponseFormatView::JsonSchema {
                json_schema: json_schema.deep_view(),
            },
        }
    }
}

/// The JSON schema asked of the generated text.
#[derive(Debug, PartialEq)]
pub struct JsonSchemaFormat {
    pub name: String,
    pub description: Option<String>,
    pub schema: Value,
    pub strict: Option<bool>,
}

/// What a [`JsonSchemaFormat`] holds.
#[verifier::ext_equal]
pub struct JsonSchemaFormatView {
    pub name: Seq<char>,
    pub description: Option<Seq<char>>,
    pub schema: Json,
    pub strict: Option<bool>,
}

impl DeepView for JsonSchemaFormat {
    type V = JsonSchemaFormatView;

    open spec fn deep_view(&self) -> JsonSchemaFormatView {
        JsonSchemaFormatView {
            name: self.name@,
            description: self.description.deep_view(),
            schema: json_view(self.schema),
            strict: self.strict,
        }
    }
}

/// The tools of a request, as the engine resolved them.
#[derive(Debug, PartialEq)]
pub struct ResolvedToolContext {
    pub effective_tools: Vec<ChatTool>,
    pub tool_choice: ChatToolChoice,
    pub parallel_tool_calls: bool,
}

/// What a [`ResolvedToolContext`] holds.
#[verifier::ext_equal]
pub struct ResolvedToolContextView {
    pub effective_tools: Seq<ChatToolView>,
    pub tool_choice: ChatToolChoiceView,
    pub parallel_tool_calls: bool,
}

impl DeepView for ResolvedToolContext {
    type V = ResolvedToolContextView;

    open spec fn deep_view(&self) -> ResolvedToolContextView {
        ResolvedToolContextView {
            effective_tools: self.effective_tools.deep_view(),
            tool_choice: self.tool_choice.deep_view(),
            parallel_tool_calls: self.parallel_tool_calls,
        }
    }
}

/// Sampling parameters of a request.
#[derive(Debug, PartialEq)]
pub struct SamplingParams {
    pub temperature: Option<FloatBits>,
    pub top_p: Option<FloatBits>,
    pub top_k: Option<u32>,
    pub seed: Option<i64>,
    pub max_tokens: Option<u32>,
    pub frequency_penalty: Option<FloatBits>,
    pub presence_penalty: Option<FloatBits>,
    pub repetition_penalty: Option<FloatBits>,
    pub ignore_eos: bool,
    pub watermarking: bool,
    /// Bias of each token, by token ID.
    pub logit_bias: Option<Vec<(u32, FloatBits)>>,
    pub structured_outputs: Option<Value>,
    pub vllm_xargs: Option<JsonMap<String, Value>>,
}

/// What a [`SamplingParams`] holds.
#[verifier::ext_equal]
pub struct SamplingParamsView {
    pub temperature: Option<FloatBits>,
    pub top_p: Option<FloatBits>,
    pub top_k: Option<u32>,
    pub seed: Option<i64>,
    pub max_tokens: Option<u32>,
    pub frequency_penalty: Option<FloatBits>,
    pub presence_penalty: Option<FloatBits>,
    pub repetition_penalty: Option<FloatBits>,
    pub ignore_eos: bool,
    pub watermarking: bool,
    pub logit_bias: Option<Seq<(u32, FloatBits)>>,
    pub structured_outputs: Option<Json>,
    pub vllm_xargs: Option<Seq<(Seq<char>, Json)>>,
}

impl DeepView for SamplingParams {
    type V = SamplingParamsView;

    open spec fn deep_view(&self) -> SamplingParamsView {
        SamplingParamsView {
            temperature: self.temperature,
            top_p: self.top_p,
            top_k: self.top_k,
            seed: self.seed,
            max_tokens: self.max_tokens,
            frequency_penalty: self.frequency_penalty,
            presence_penalty: self.presence_penalty,
            repetition_penalty: self.repetition_penalty,
            ignore_eos: self.ignore_eos,
            watermarking: self.watermarking,
            logit_bias: self.logit_bias.deep_view(),
            structured_outputs: json_option(self.structured_outputs),
            vllm_xargs: entries_option(self.vllm_xargs),
        }
    }
}

/// Where the generation prompt continues.
#[derive(Debug, Clone, Copy, PartialEq, Eq, Structural)]
pub enum GenerationPromptMode {
    StartNewAssistant,
}

impl DeepView for GenerationPromptMode {
    type V = GenerationPromptMode;

    open spec fn deep_view(&self) -> GenerationPromptMode {
        *self
    }
}

/// How the conversation is rendered.
#[derive(Debug, PartialEq)]
pub struct ChatOptions {
    pub generation_prompt_mode: GenerationPromptMode,
    pub chat_template: Option<String>,
    pub reasoning_effort: Option<String>,
    pub response_format: Option<Value>,
    pub template_kwargs: JsonMap<String, Value>,
}

/// What a [`ChatOptions`] holds.
#[verifier::ext_equal]
pub struct ChatOptionsView {
    pub generation_prompt_mode: GenerationPromptMode,
    pub chat_template: Option<Seq<char>>,
    pub reasoning_effort: Option<Seq<char>>,
    pub response_format: Option<Json>,
    pub template_kwargs: Seq<(Seq<char>, Json)>,
}

impl DeepView for ChatOptions {
    type V = ChatOptionsView;

    open spec fn deep_view(&self) -> ChatOptionsView {
        ChatOptionsView {
            generation_prompt_mode: self.generation_prompt_mode,
            chat_template: self.chat_template.deep_view(),
            reasoning_effort: self.reasoning_effort.deep_view(),
            response_format: json_option(self.response_format),
            template_kwargs: json_entries(self.template_kwargs),
        }
    }
}

/// How generated tokens are decoded.
#[derive(Debug, PartialEq)]
pub struct TextDecodeOptions {
    pub skip_special_tokens: bool,
    pub include_stop_str_in_output: bool,
    pub stop_strings: Option<Vec<String>>,
    pub min_tokens: u32,
}

/// What a [`TextDecodeOptions`] holds.
#[verifier::ext_equal]
pub struct TextDecodeOptionsView {
    pub skip_special_tokens: bool,
    pub include_stop_str_in_output: bool,
    pub stop_strings: Option<Seq<Seq<char>>>,
    pub min_tokens: u32,
}

impl DeepView for TextDecodeOptions {
    type V = TextDecodeOptionsView;

    open spec fn deep_view(&self) -> TextDecodeOptionsView {
        TextDecodeOptionsView {
            skip_special_tokens: self.skip_special_tokens,
            include_stop_str_in_output: self.include_stop_str_in_output,
            stop_strings: self.stop_strings.deep_view(),
            min_tokens: self.min_tokens,
        }
    }
}

/// A selected LoRA adapter.
#[derive(Debug, PartialEq)]
pub struct LoraRequest {
    pub lora_name: String,
}

/// What a [`LoraRequest`] holds.
#[verifier::ext_equal]
pub struct LoraRequestView {
    pub lora_name: Seq<char>,
}

impl DeepView for LoraRequest {
    type V = LoraRequestView;

    open spec fn deep_view(&self) -> LoraRequestView {
        LoraRequestView {
            lora_name: self.lora_name@,
        }
    }
}

impl Clone for LoraRequest {
    fn clone(&self) -> (copy: Self)
        ensures
            copy.deep_view() == self.deep_view(),
    {
        LoraRequest {
            lora_name: self.lora_name.clone(),
        }
    }
}

/// The models that are served, and the adapter that a request selected.
#[derive(Debug, PartialEq)]
pub struct LoraModelResolution {
    pub model_names: Vec<String>,
    pub lora_request: Option<LoraRequest>,
}

/// What a [`LoraModelResolution`] holds.
#[verifier::ext_equal]
pub struct LoraModelResolutionView {
    pub model_names: Seq<Seq<char>>,
    pub lora_request: Option<LoraRequestView>,
}

impl DeepView for LoraModelResolution {
    type V = LoraModelResolutionView;

    open spec fn deep_view(&self) -> LoraModelResolutionView {
        LoraModelResolutionView {
            model_names: self.model_names.deep_view(),
            lora_request: self.lora_request.deep_view(),
        }
    }
}

/// What the request's headers say.
#[derive(Debug, PartialEq)]
pub struct ResolvedRequestContext {
    pub request_id: String,
    pub priority: Option<i32>,
    pub data_parallel_rank: Option<u32>,
}

/// What a [`ResolvedRequestContext`] holds.
#[verifier::ext_equal]
pub struct ResolvedRequestContextView {
    pub request_id: Seq<char>,
    pub priority: Option<i32>,
    pub data_parallel_rank: Option<u32>,
}

impl DeepView for ResolvedRequestContext {
    type V = ResolvedRequestContextView;

    open spec fn deep_view(&self) -> ResolvedRequestContextView {
        ResolvedRequestContextView {
            request_id: self.request_id@,
            priority: self.priority,
            data_parallel_rank: self.data_parallel_rank,
        }
    }
}

/// One request to the chat engine.
#[derive(Debug, PartialEq)]
pub struct ChatRequest {
    pub request_id: String,
    pub messages: Vec<ChatMessage>,
    pub sampling_params: SamplingParams,
    pub chat_options: ChatOptions,
    pub tool_context: ResolvedToolContext,
    pub decode_options: TextDecodeOptions,
    /// Whether partial results are wanted.
    pub intermediate: bool,
    pub prompt_truncation: Option<u32>,
    pub priority: i32,
    pub documents: Option<Value>,
    pub cache_salt: Option<String>,
    pub add_special_tokens: bool,
    pub data_parallel_rank: Option<u32>,
    pub session_id: Option<String>,
    pub lora_request: Option<LoraRequest>,
}

/// What a [`ChatRequest`] holds.
#[verifier::ext_equal]
pub struct ChatRequestView {
    pub request_id: Seq<char>,
    pub messages: Seq<ChatMessageView>,
    pub sampling_params: SamplingParamsView,
    pub chat_options: ChatOptionsView,
    pub tool_context: ResolvedToolContextView,
    pub decode_options: TextDecodeOptionsView,
    pub intermediate: bool,
    pub prompt_truncation: Option<u32>,
    pub priority: i32,
    pub documents: Option<Json>,
    pub cache_salt: Option<Seq<char>>,
    pub add_special_tokens: bool,
    pub data_parallel_rank: Option<u32>,
    pub session_id: Option<Seq<char>>,
    pub lora_request: Option<LoraRequestView>,
}

impl DeepView for ChatRequest {
    type V = ChatRequestView;

    open spec fn deep_view(&self) -> ChatRequestView {
        ChatRequestView {
            request_id: self.request_id@,
            messages: self.messages.deep_view(),
            sampling_params: self.sampling_params.deep_view(),
            chat_options: self.chat_options.deep_view(),
            tool_context: self.tool_context.deep_view(),
            decode_options: self.decode_options.deep_view(),
            intermediate: self.intermediate,
            prompt_truncation: self.prompt_truncation,
            priority: self.priority,
            documents: json_option(self.documents),
            cache_salt: self.cache_salt.deep_view(),
            add_special_tokens: self.add_special_tokens,
            data_parallel_rank: self.data_parallel_rank,
            session_id: self.session_id.deep_view(),
            lora_request: self.lora_request.deep_view(),
        }
    }
}

/// Token counts of a generation.
#[derive(Debug, Clone, Copy, PartialEq, Eq, Structural)]
pub struct ChatTokenUsage {
    pub prompt_token_count: usize,
    pub cached_token_count: usize,
    pub output_token_count: usize,
    pub reasoning_tokens: usize,
}

impl DeepView for ChatTokenUsage {
    type V = ChatTokenUsage;

    open spec fn deep_view(&self) -> ChatTokenUsage {
        *self
    }
}

/// Why a generation ended.
#[derive(Debug, Clone, Copy, PartialEq, Eq, Structural)]
pub enum FinishReason {
    Stop,
    Length,
    Repetition,
    Abort,
    Error,
}

impl DeepView for FinishReason {
    type V = FinishReason;

    open spec fn deep_view(&self) -> FinishReason {
        *self
    }
}

/// One event of a generation.
///
/// The engine opens at most one block or tool call at a time and closes it
/// before it opens the next.
#[derive(Debug, PartialEq)]
pub enum ChatEvent {
    Start,
    LogprobsDelta,
    BlockStart { kind: AssistantBlockKind },
    BlockDelta { delta: String },
    BlockEnd { block: AssistantContentBlock },
    ToolCallStart { id: String, name: String },
    ToolCallArgumentsDelta { delta: String },
    ToolCallEnd { call: AssistantToolCall },
    Done { usage: ChatTokenUsage, finish_reason: FinishReason },
}

/// What a [`ChatEvent`] holds.
#[verifier::ext_equal]
pub enum ChatEventView {
    Start,
    LogprobsDelta,
    BlockStart { kind: AssistantBlockKind },
    BlockDelta { delta: Seq<char> },
    BlockEnd { block: AssistantContentBlockView },
    ToolCallStart { id: Seq<char>, name: Seq<char> },
    ToolCallArgumentsDelta { delta: Seq<char> },
    ToolCallEnd { call: AssistantToolCallView },
    Done { usage: ChatTokenUsage, finish_reason: FinishReason },
}

impl DeepView for ChatEvent {
    type V = ChatEventView;

    open spec fn deep_view(&self) -> ChatEventView {
        match self {
            ChatEvent::Start => ChatEventView::Start,
            ChatEvent::LogprobsDelta => ChatEventView::LogprobsDelta,
            ChatEvent::BlockStart { kind } => ChatEventView::BlockStart {
                kind: *kind,
            },
            ChatEvent::BlockDelta { delta } => ChatEventView::BlockDelta {
                delta: delta@,
            },
            ChatEvent::BlockEnd { block } => ChatEventView::BlockEnd {
                block: block.deep_view(),
            },
            ChatEvent::ToolCallStart { id, name } => ChatEventView::ToolCallStart {
                id: id@,
                name: name@,
            },
            ChatEvent::ToolCallArgumentsDelta { delta } => ChatEventView::ToolCallArgumentsDelta {
                delta: delta@,
            },
            ChatEvent::ToolCallEnd { call } => ChatEventView::ToolCallEnd {
                call: call.deep_view(),
            },
            ChatEvent::Done { usage, finish_reason } => ChatEventView::Done {
                usage: *usage,
                finish_reason: *finish_reason,
            },
        }
    }
}

/// A whole generation.
#[derive(Debug, PartialEq)]
pub struct CollectedAssistantMessage {
    pub content: Vec<AssistantContentBlock>,
    pub usage: ChatTokenUsage,
    pub finish_reason: FinishReason,
}

/// What a [`CollectedAssistantMessage`] holds.
#[verifier::ext_equal]
pub struct CollectedAssistantMessageView {
    pub content: Seq<AssistantContentBlockView>,
    pub usage: ChatTokenUsage,
    pub finish_reason: FinishReason,
}

impl DeepView for CollectedAssistantMessage {
    type V = CollectedAssistantMessageView;

    open spec fn deep_view(&self) -> CollectedAssistantMessageView {
        CollectedAssistantMessageView {
            content: self.content.deep_view(),
            usage: self.usage,
            finish_reason: self.finish_reason,
        }
    }
}

impl From<InputImageDetail> for ImageDetail {
    fn from(detail: InputImageDetail) -> (shown: ImageDetail) {
        match detail {
            InputImageDetail::Auto => ImageDetail::Auto,
            InputImageDetail::Low => ImageDetail::Low,
            // `original` asks for at least `high` fidelity.
            InputImageDetail::High | InputImageDetail::Original => ImageDetail::High,
        }
    }
}

impl vstd::std_specs::convert::FromSpecImpl<InputImageDetail> for ImageDetail {
    open spec fn obeys_from_spec() -> bool {
        true
    }

    open spec fn from_spec(detail: InputImageDetail) -> ImageDetail {
        match detail {
            InputImageDetail::Auto => ImageDetail::Auto,
            InputImageDetail::Low => ImageDetail::Low,
            InputImageDetail::High | InputImageDetail::Original => ImageDetail::High,
        }
    }
}

} // verus!
