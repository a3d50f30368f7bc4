//! Data of the stateless Responses API.
//!
//! The request side accepts the complete conversation history on every call.
//! Fields whose semantics require server-side state are recognized explicitly
//! so they can be rejected instead of ignored.
//!
//! Each type that holds text, lists or JSON has a ghost counterpart of the same
//! shape, named with the suffix `View`, and `deep_view` maps one to the other.

use serde_json::{Map as JsonMap, Value};
use vstd::prelude::*;

use crate::json::{entries_option, json_option, json_view, json_views, Json};

verus! {

/// A single-precision number, held by its bit pattern.
#[derive(Debug, Clone, Copy, PartialEq, Eq, Structural)]
pub struct FloatBits {
    pub bits: u32,
}

impl DeepView for FloatBits {
    type V = FloatBits;

    open spec fn deep_view(&self) -> FloatBits {
        *self
    }
}

/// How hard the model is asked to reason, as spelled on the wire.
#[derive(Debug, PartialEq)]
pub struct ReasoningEffort {
    pub spelling: String,
}

/// What a [`ReasoningEffort`] holds.
#[verifier::ext_equal]
pub struct ReasoningEffortView {
    pub spelling: Seq<char>,
}

impl DeepView for ReasoningEffort {
    type V = ReasoningEffortView;

    open spec fn deep_view(&self) -> ReasoningEffortView {
        ReasoningEffortView {
            spelling: self.spelling@,
        }
    }
}

impl Clone for ReasoningEffort {
    fn clone(&self) -> (copy: Self)
        ensures
            copy.deep_view() == self.deep_view(),
    {
        ReasoningEffort {
            spelling: self.spelling.clone(),
        }
    }
}

/// One string or a list of strings.
#[derive(Debug, PartialEq)]
pub enum StringOrArray {
    String(String),
    Array(Vec<String>),
}

/// What a [`StringOrArray`] holds.
#[verifier::ext_equal]
pub enum StringOrArrayView {
    String(Seq<char>),
    Array(Seq<Seq<char>>),
}

impl DeepView for StringOrArray {
    type V = StringOrArrayView;

    open spec fn deep_view(&self) -> StringOrArrayView {
        match self {
            StringOrArray::String(value) => StringOrArrayView::String(value@),
            StringOrArray::Array(value) => StringOrArrayView::Array(value.deep_view()),
        }
    }
}

impl Clone for StringOrArray {
    fn clone(&self) -> (copy: Self)
        ensures
            copy.deep_view() == self.deep_view(),
    {
        match self {
            StringOrArray::String(value) => StringOrArray::String(value.clone()),
            StringOrArray::Array(value) => StringOrArray::Array(value.clone()),
        }
    }
}

/// Request body of `POST /v1/responses`.
#[derive(Debug, PartialEq)]
pub struct ResponsesRequest {
    /// ID of the model to use.
    pub model: Option<String>,
    /// Complete conversation history for this generation.
    pub input: ResponseInput,
    /// System instructions inserted before the input history.
    pub instructions: Option<String>,
    /// Whether to stream the response as semantic server-sent events.
    pub stream: bool,
    pub temperature: Option<FloatBits>,
    pub top_p: Option<FloatBits>,
    /// Upper bound on generated tokens, including reasoning tokens.
    pub max_output_tokens: Option<u32>,
    pub top_logprobs: Option<u32>,
    /// Tool declarations. Built-in tool types are ignored.
    pub tools: Option<Vec<ResponseTool>>,
    pub tool_choice: Option<ResponseToolChoice>,
    pub parallel_tool_calls: Option<bool>,
    pub reasoning: Option<ReasoningParam>,
    pub text: Option<TextParam>,
    /// Echoed back unchanged on the response object.
    pub metadata: Option<Value>,
    pub user: Option<String>,
    /// Stateful parameter, rejected when set.
    pub previous_response_id: Option<String>,
    /// Stateful parameter, rejected when set.
    pub conversation: Option<Value>,
    /// Stateful parameter, rejected when set.
    pub background: Option<bool>,
    pub frequency_penalty: Option<FloatBits>,
    pub presence_penalty: Option<FloatBits>,
    pub repetition_penalty: Option<FloatBits>,
    pub top_k: Option<u32>,
    pub seed: Option<i64>,
    /// Bias of each token, by the token's spelling in the request.
    pub logit_bias: Option<Vec<(String, FloatBits)>>,
    pub stop: Option<StringOrArray>,
    pub ignore_eos: bool,
    pub skip_special_tokens: bool,
    pub include_stop_str_in_output: bool,
    pub watermarking: bool,
    /// Explicit structured outputs, taking precedence over `text.format`.
    pub structured_outputs: Option<Value>,
    /// Caller-supplied request ID, overridden by the `X-Request-Id` header.
    pub request_id: Option<String>,
    /// Stable session identity shared by related requests.
    pub session_id: Option<String>,
    /// Scheduling priority, overridden by the `X-Vllm-Priority` header.
    pub priority: Option<i32>,
    pub cache_salt: Option<String>,
    pub chat_template_kwargs: Option<JsonMap<String, Value>>,
    pub vllm_xargs: Option<JsonMap<String, Value>>,
    pub kv_transfer_params: Option<JsonMap<String, Value>>,
    pub ec_transfer_params: Option<JsonMap<String, Value>>,
}

/// What a [`ResponsesRequest`] holds.
#[verifier::ext_equal]
pub struct ResponsesRequestView {
    pub model: Option<Seq<char>>,
    pub input: ResponseInputView,
    pub instructions: Option<Seq<char>>,
    pub stream: bool,
    pub temperature: Option<FloatBits>,
    pub top_p: Option<FloatBits>,
    pub max_output_tokens: Option<u32>,
    pub top_logprobs: Option<u32>,
    pub tools: Option<Seq<ResponseToolView>>,
    pub tool_choice: Option<ResponseToolChoiceView>,
    pub parallel_tool_calls: Option<bool>,
    pub reasoning: Option<ReasoningParamView>,
    pub text: Option<TextParamView>,
    pub metadata: Option<Json>,
    pub user: Option<Seq<char>>,
    pub previous_response_id: Option<Seq<char>>,
    pub conversation: Option<Json>,
    pub background: Option<bool>,
    pub frequency_penalty: Option<FloatBits>,
    pub presence_penalty: Option<FloatBits>,
    pub repetition_penalty: Option<FloatBits>,
    pub top_k: Option<u32>,
    pub seed: Option<i64>,
    pub logit_bias: Option<Seq<(Seq<char>, FloatBits)>>,
    pub stop: Option<StringOrArrayView>,
    pub ignore_eos: bool,
    pub skip_special_tokens: bool,
    pub include_stop_str_in_output: bool,
    pub watermarking: bool,
    pub structured_outputs: Option<Json>,
    pub request_id: Option<Seq<char>>,
    pub session_id: Option<Seq<char>>,
    pub priority: Option<i32>,
    pub cache_salt: Option<Seq<char>>,
    pub chat_template_kwargs: Option<Seq<(Seq<char>, Json)>>,
    pub vllm_xargs: Option<Seq<(Seq<char>, Json)>>,
    pub kv_transfer_params: Option<Seq<(Seq<char>, Json)>>,
    pub ec_transfer_params: Option<Seq<(Seq<char>, Json)>>,
}

impl DeepView for ResponsesRequest {
    type V = ResponsesRequestView;

    open spec fn deep_view(&self) -> ResponsesRequestView {
        ResponsesRequestView {
            model: self.model.deep_view(),
            input: self.input.deep_view(),
            instructions: self.instructions.deep_view(),
            stream: self.stream,
            temperature: self.temperature,
            top_p: self.top_p,
            max_output_tokens: self.max_output_tokens,
            top_logprobs: self.top_logprobs,
            tools: self.tools.deep_view(),
            tool_choice: self.tool_choice.deep_view(),
            parallel_tool_calls: self.parallel_tool_calls,
            reasoning: self.reasoning.deep_view(),
            text: self.text.deep_view(),
            metadata: json_option(self.metadata),
            user: self.user.deep_view(),
            previous_response_id: self.previous_response_id.deep_view(),
            conversation: json_option(self.conversation),
            background: self.background,
            frequency_penalty: self.frequency_penalty,
            presence_penalty: self.presence_penalty,
            repetition_penalty: self.repetition_penalty,
            top_k: self.top_k,
            seed: self.seed,
            logit_bias: self.logit_bias.deep_view(),
            stop: self.stop.deep_view(),
            ignore_eos: self.ignore_eos,
            skip_special_tokens: self.skip_special_tokens,
            include_stop_str_in_output: self.include_stop_str_in_output,
            watermarking: self.watermarking,
            structured_outputs: json_option(self.structured_outputs),
            request_id: self.request_id.deep_view(),
            session_id: self.session_id.deep_view(),
            priority: self.priority,
            cache_salt: self.cache_salt.deep_view(),
            chat_template_kwargs: entries_option(self.chat_template_kwargs),
            vllm_xargs: entries_option(self.vllm_xargs),
            kv_transfer_params: entries_option(self.kv_transfer_params),
            ec_transfer_params: entries_option(self.ec_transfer_params),
        }
    }
}

/// Normalized `input`: a plain string is one user message.
#[derive(Debug, PartialEq)]
pub struct ResponseInput(pub Vec<InputItem>);

/// What a [`ResponseInput`] holds.
#[verifier::ext_equal]
pub struct ResponseInputView(pub Seq<InputItemView>);

impl DeepView for ResponseInput {
    type V = ResponseInputView;

    open spec fn deep_view(&self) -> ResponseInputView {
        ResponseInputView(self.0.deep_view())
    }
}

/// Either a plain string or a list of typed entries, as used by message
/// `content` and tool-call `output`.
#[derive(Debug, PartialEq)]
pub enum TextOrList<T> {
    Text(String),
    List(Vec<T>),
}

/// What a [`TextOrList`] holds.
#[verifier::ext_equal]
pub enum TextOrListView<V> {
    Text(Seq<char>),
    List(Seq<V>),
}

impl<T: DeepView> DeepView for TextOrList<T> {
    type V = TextOrListView<T::V>;

    open spec fn deep_view(&self) -> TextOrListView<T::V> {
        match self {
            TextOrList::Text(value) => TextOrListView::Text(value@),
            TextOrList::List(value) => TextOrListView::List(value.deep_view()),
        }
    }
}

/// One input history item.
///
/// The history is rebuilt from content on every request.
#[derive(Debug, PartialEq)]
pub enum InputItem {
    Message(InputMessage),
    Reasoning(InputReasoning),
    FunctionCall(InputFunctionCall),
    FunctionCallOutput(InputToolOutput),
    CustomToolCall(InputCustomToolCall),
    CustomToolCallOutput(InputToolOutput),
    /// Item types outside this subset, such as built-in tool calls, are
    /// ignored.
    Unsupported,
}

/// What a [`InputItem`] holds.
#[verifier::ext_equal]
pub enum InputItemView {
    Message(InputMessageView),
    Reasoning(InputReasoningView),
    FunctionCall(InputFunctionCallView),
    FunctionCallOutput(InputToolOutputView),
    CustomToolCall(InputCustomToolCallView),
    CustomToolCallOutput(InputToolOutputView),
    Unsupported,
}

impl DeepView for InputItem {
    type V = InputItemView;

    open spec fn deep_view(&self) -> InputItemView {
        match self {
            InputItem::Message(value) => InputItemView::Message(value.deep_view()),
            InputItem::Reasoning(value) => InputItemView::Reasoning(value.deep_view()),
            InputItem::FunctionCall(value) => InputItemView::FunctionCall(value.deep_view()),
            InputItem::FunctionCallOutput(value) => InputItemView::FunctionCallOutput(value.deep_view()),
            InputItem::CustomToolCall(value) => InputItemView::CustomToolCall(value.deep_view()),
            InputItem::CustomToolCallOutput(value) => InputItemView::CustomToolCallOutput(value.deep_view()),
            InputItem::Unsupported => InputItemView::Unsupported,
        }
    }
}

/// One message of the history.
#[derive(Debug, PartialEq)]
pub struct InputMessage {
    pub role: InputRole,
    pub content: TextOrList<InputContentPart>,
}

/// What a [`InputMessage`] holds.
#[verifier::ext_equal]
pub struct InputMessageView {
    pub role: InputRole,
    pub content: TextOrListView<InputContentPartView>,
}

impl DeepView for InputMessage {
    type V = InputMessageView;

    open spec fn deep_view(&self) -> InputMessageView {
        InputMessageView {
            role: self.role,
            content: self.content.deep_view(),
        }
    }
}

/// Author of an input message.
#[derive(Debug, Clone, Copy, PartialEq, Eq, Structural)]
pub enum InputRole {
    User,
    Assistant,
    System,
    Developer,
}

impl DeepView for InputRole {
    type V = InputRole;

    open spec fn deep_view(&self) -> InputRole {
        *self
    }
}

/// One content part of an input message or tool-call output.
#[derive(Debug, PartialEq)]
pub enum InputContentPart {
    InputText { text: String },
    /// Assistant text replayed from an earlier response.
    OutputText { text: String },
    InputImage {
        image_url: Option<String>,
        file_id: Option<String>,
        detail: Option<InputImageDetail>,
    },
}

/// What a [`InputContentPart`] holds.
#[verifier::ext_equal]
pub enum InputContentPartView {
    InputText { text: Seq<char> },
    OutputText { text: Seq<char> },
    InputImage {
        image_url: Option<Seq<char>>,
        file_id: Option<Seq<char>>,
        detail: Option<InputImageDetail>,
    },
}

impl DeepView for InputContentPart {
    type V = InputContentPartView;

    open spec fn deep_view(&self) -> InputContentPartView {
        match self {
            InputContentPart::InputText { text } => InputContentPartView::InputText {
                text: text@,
            },
            InputContentPart::OutputText { text } => InputContentPartView::OutputText {
                text: text@,
            },
            InputContentPart::InputImage {
                image_url,
                file_id,
                detail,
            } => InputContentPartView::InputImage {
                image_url: image_url.deep_view(),
                file_id: file_id.deep_view(),
                detail: *detail,
            },
        }
    }
}

/// Requested fidelity of an image.
#[derive(Debug, Clone, Copy, PartialEq, Eq, Structural)]
pub enum InputImageDetail {
    Auto,
    Low,
    High,
    Original,
}

impl DeepView for InputImageDetail {
    type V = InputImageDetail;

    open spec fn deep_view(&self) -> InputImageDetail {
        *self
    }
}

/// Reasoning replayed from an earlier response.
///
/// Only plain-text `content` is restored.
#[derive(Debug, PartialEq)]
pub struct InputReasoning {
    pub content: Option<Vec<ReasoningTextPart>>,
}

/// What a [`InputReasoning`] holds.
#[verifier::ext_equal]
pub struct InputReasoningView {
    pub content: Option<Seq<ReasoningTextPartView>>,
}

impl DeepView for InputReasoning {
    type V = InputReasoningView;

    open spec fn deep_view(&self) -> InputReasoningView {
        InputReasoningView {
            content: self.content.deep_view(),
        }
    }
}

/// One piece of reasoning text.
#[derive(Debug, PartialEq)]
pub struct ReasoningTextPart {
    pub text: String,
}

/// What a [`ReasoningTextPart`] holds.
#[verifier::ext_equal]
pub struct ReasoningTextPartView {
    pub text: Seq<char>,
}

impl DeepView for ReasoningTextPart {
    type V = ReasoningTextPartView;

    open spec fn deep_view(&self) -> ReasoningTextPartView {
        ReasoningTextPartView {
            text: self.text@,
        }
    }
}

/// A function call replayed from an earlier response.
#[derive(Debug, PartialEq)]
pub struct InputFunctionCall {
    pub call_id: String,
    pub name: String,
    pub arguments: String,
}

/// What a [`InputFunctionCall`] holds.
#[verifier::ext_equal]
pub struct InputFunctionCallView {
    pub call_id: Seq<char>,
    pub name: Seq<char>,
    pub arguments: Seq<char>,
}

impl DeepView for InputFunctionCall {
    type V = InputFunctionCallView;

    open spec fn deep_view(&self) -> InputFunctionCallView {
        InputFunctionCallView {
            call_id: self.call_id@,
            name: self.name@,
            arguments: self.arguments@,
        }
    }
}

/// A custom tool call replayed from an earlier response.
#[derive(Debug, PartialEq)]
pub struct InputCustomToolCall {
    pub call_id: String,
    pub name: String,
    pub input: String,
}

/// What a [`InputCustomToolCall`] holds.
#[verifier::ext_equal]
pub struct InputCustomToolCallView {
    pub call_id: Seq<char>,
    pub name: Seq<char>,
    pub input: Seq<char>,
}

impl DeepView for InputCustomToolCall {
    type V = InputCustomToolCallView;

    open spec fn deep_view(&self) -> InputCustomToolCallView {
        InputCustomToolCallView {
            call_id: self.call_id@,
            name: self.name@,
            input: self.input@,
        }
    }
}

/// Output of a function or custom tool call, provided by the client.
#[derive(Debug, PartialEq)]
pub struct InputToolOutput {
    pub call_id: String,
    pub output: TextOrList<InputContentPart>,
}

/// What a [`InputToolOutput`] holds.
#[verifier::ext_equal]
pub struct InputToolOutputView {
    pub call_id: Seq<char>,
    pub output: TextOrListView<InputContentPartView>,
}

impl DeepView for InputToolOutput {
    type V = InputToolOutputView;

    open spec fn deep_view(&self) -> InputToolOutputView {
        InputToolOutputView {
            call_id: self.call_id@,
            output: self.output.deep_view(),
        }
    }
}

/// One tool declaration.
#[derive(Debug, PartialEq)]
pub enum ResponseTool {
    Function(FunctionTool),
    Custom(CustomTool),
    /// Built-in tools such as `web_search` or `mcp` are executed by the
    /// provider in the full API. This stateless subset ignores them.
    Unsupported,
}

/// What a [`ResponseTool`] holds.
#[verifier::ext_equal]
pub enum ResponseToolView {
    Function(FunctionToolView),
    Custom(CustomToolView),
    Unsupported,
}

impl DeepView for ResponseTool {
    type V = ResponseToolView;

    open spec fn deep_view(&self) -> ResponseToolView {
        match self {
            ResponseTool::Function(value) => ResponseToolView::Function(value.deep_view()),
            ResponseTool::Custom(value) => ResponseToolView::Custom(value.deep_view()),
            ResponseTool::Unsupported => ResponseToolView::Unsupported,
        }
    }
}

impl Clone for ResponseTool {
    fn clone(&self) -> (copy: Self)
        ensures
            copy.deep_view() == self.deep_view(),
    {
        match self {
            ResponseTool::Function(value) => ResponseTool::Function(value.clone()),
            ResponseTool::Custom(value) => ResponseTool::Custom(value.clone()),
            ResponseTool::Unsupported => ResponseTool::Unsupported,
        }
    }
}

/// A tool whose call arguments are a JSON object.
#[derive(Debug, PartialEq)]
pub struct FunctionTool {
    pub name: String,
    pub description: Option<String>,
    /// JSON schema of the arguments object. Absent means no arguments.
    pub parameters: Option<Value>,
    pub strict: Option<bool>,
}

/// What a [`FunctionTool`] holds.
#[verifier::ext_equal]
pub struct FunctionToolView {
    pub name: Seq<char>,
    pub description: Option<Seq<char>>,
    pub parameters: Option<Json>,
    pub strict: Option<bool>,
}

impl DeepView for FunctionTool {
    type V = FunctionToolView;

    open spec fn deep_view(&self) -> FunctionToolView {
        FunctionToolView {
            name: self.name@,
            description: self.description.deep_view(),
            parameters: json_option(self.parameters),
            strict: self.strict,
        }
    }
}

impl Clone for FunctionTool {
    fn clone(&self) -> (copy: Self)
        ensures
            copy.deep_view() == self.deep_view(),
    {
        FunctionTool {
            name: self.name.clone(),
            description: self.description.clone(),
            parameters: self.parameters.clone(),
            strict: self.strict,
        }
    }
}

/// A tool whose call input is free-form text instead of a JSON object.
#[derive(Debug, PartialEq)]
pub struct CustomTool {
    pub name: String,
    pub description: Option<String>,
    pub format: Option<CustomToolFormat>,
}

/// What a [`CustomTool`] holds.
#[verifier::ext_equal]
pub struct CustomToolView {
    pub name: Seq<char>,
    pub description: Option<Seq<char>>,
    pub format: Option<CustomToolFormatView>,
}

impl DeepView for CustomTool {
    type V = CustomToolView;

    open spec fn deep_view(&self) -> CustomToolView {
        CustomToolView {
            name: self.name@,
            description: self.description.deep_view(),
            format: self.format.deep_view(),
        }
    }
}

impl Clone for CustomTool {
    fn clone(&self) -> (copy: Self)
        ensures
            copy.deep_view() == self.deep_view(),
    {
        CustomTool {
            name: self.name.clone(),
            description: self.description.clone(),
            format: self.format.clone(),
        }
    }
}

/// What the text of a custom tool call looks like.
#[derive(Debug, PartialEq)]
pub enum CustomToolFormat {
    /// Unconstrained text.
    Text,
    /// Text described by a grammar, e.g. Codex's Lark `apply_patch` grammar.
    Grammar { syntax: String, definition: String },
}

/// What a [`CustomToolFormat`] holds.
#[verifier::ext_equal]
pub enum CustomToolFormatView {
    Text,
    Grammar { syntax: Seq<char>, definition: Seq<char> },
}

impl DeepView for CustomToolFormat {
    type V = CustomToolFormatView;

    open spec fn deep_view(&self) -> CustomToolFormatView {
        match self {
            CustomToolFormat::Text => CustomToolFormatView::Text,
            CustomToolFormat::Grammar { syntax, definition } => CustomToolFormatView::Grammar {
                syntax: syntax@,
                definition: definition@,
            },
        }
    }
}

impl Clone for CustomToolFormat {
    fn clone(&self) -> (copy: Self)
        ensures
            copy.deep_view() == self.deep_view(),
    {
        match self {
            CustomToolFormat::Text => CustomToolFormat::Text,
            CustomToolFormat::Grammar { syntax, definition } => CustomToolFormat::Grammar {
                syntax: syntax.clone(),
                definition: definition.clone(),
            },
        }
    }
}

/// Which tools the model may or must call.
#[derive(Debug, PartialEq)]
pub enum ResponseToolChoice {
    Mode(ToolChoiceMode),
    Named(NamedToolChoice),
}

/// What a [`ResponseToolChoice`] holds.
#[verifier::ext_equal]
pub enum ResponseToolChoiceView {
    Mode(ToolChoiceMode),
    Named(NamedToolChoiceView),
}

impl DeepView for ResponseToolChoice {
    type V = ResponseToolChoiceView;

    open spec fn deep_view(&self) -> ResponseToolChoiceView {
        match self {
            ResponseToolChoice::Mode(value) => ResponseToolChoiceView::Mode(*value),
            ResponseToolChoice::Named(value) => ResponseToolChoiceView::Named(value.deep_view()),
        }
    }
}

impl Clone for ResponseToolChoice {
    fn clone(&self) -> (copy: Self)
        ensures
            copy.deep_view() == self.deep_view(),
    {
        match self {
            ResponseToolChoice::Mode(value) => ResponseToolChoice::Mode(*value),
            ResponseToolChoice::Named(value) => ResponseToolChoice::Named(value.clone()),
        }
    }
}

/// A tool choice that names no tool.
#[derive(Debug, Clone, Copy, PartialEq, Eq, Structural)]
pub enum ToolChoiceMode {
    NoTools,
    Auto,
    Required,
}

impl DeepView for ToolChoiceMode {
    type V = ToolChoiceMode;

    open spec fn deep_view(&self) -> ToolChoiceMode {
        *self
    }
}

/// A tool choice that names one tool.
#[derive(Debug, PartialEq)]
pub enum NamedToolChoice {
    Function { name: String },
    Custom { name: String },
}

/// What a [`NamedToolChoice`] holds.
#[verifier::ext_equal]
pub enum NamedToolChoiceView {
    Function { name: Seq<char> },
    Custom { name: Seq<char> },
}

impl DeepView for NamedToolChoice {
    type V = NamedToolChoiceView;

    open spec fn deep_view(&self) -> NamedToolChoiceView {
        match self {
            NamedToolChoice::Function { name } => NamedToolChoiceView::Function {
                name: name@,
            },
            NamedToolChoice::Custom { name } => NamedToolChoiceView::Custom {
                name: name@,
            },
        }
    }
}

impl Clone for NamedToolChoice {
    fn clone(&self) -> (copy: Self)
        ensures
            copy.deep_view() == self.deep_view(),
    {
        match self {
            NamedToolChoice::Function { name } => NamedToolChoice::Function {
                name: name.clone(),
            },
            NamedToolChoice::Custom { name } => NamedToolChoice::Custom {
                name: name.clone(),
            },
        }
    }
}

/// Reasoning parameters of a request.
#[derive(Debug, PartialEq)]
pub struct ReasoningParam {
    pub effort: Option<ReasoningEffort>,
}

/// What a [`ReasoningParam`] holds.
#[verifier::ext_equal]
pub struct ReasoningParamView {
    pub effort: Option<ReasoningEffortView>,
}

impl DeepView for ReasoningParam {
    type V = ReasoningParamView;

    open spec fn deep_view(&self) -> ReasoningParamView {
        ReasoningParamView {
            effort: self.effort.deep_view(),
        }
    }
}

/// Text parameters of a request.
#[derive(Debug, PartialEq)]
pub struct TextParam {
    pub format: Option<TextFormat>,
}

/// What a [`TextParam`] holds.
#[verifier::ext_equal]
pub struct TextParamView {
    pub format: Option<TextFormatView>,
}

impl DeepView for TextParam {
    type V = TextParamView;

    open spec fn deep_view(&self) -> TextParamView {
        TextParamView {
            format: self.format.deep_view(),
        }
    }
}

/// Output text format, echoed back on the response object.
#[derive(Debug, PartialEq)]
pub enum TextFormat {
    Text,
    JsonObject,
    JsonSchema {
        name: String,
        description: Option<String>,
        schema: Value,
        strict: Option<bool>,
    },
}

/// What a [`TextFormat`] holds.
#[verifier::ext_equal]
pub enum TextFormatView {
    Text,
    JsonObject,
    JsonSchema {
        name: Seq<char>,
        description: Option<Seq<char>>,
        schema: Json,
        strict: Option<bool>,
    },
}

impl DeepView for TextFormat {
    type V = TextFormatView;

    open spec fn deep_view(&self) -> TextFormatView {
        match self {
            TextFormat::Text => TextFormatView::Text,
            TextFormat::JsonObject => TextFormatView::JsonObject,
            TextFormat::JsonSchema {
                name,
                description,
                schema,
                strict,
            } => TextFormatView::JsonSchema {
                name: name@,
                description: description.deep_view(),
                schema: json_view(*schema),
                strict: *strict,
            },
        }
    }
}

impl Clone for TextFormat {
    fn clone(&self) -> (copy: Self)
        ensures
            copy.deep_view() == self.deep_view(),
    {
        match self {
            TextFormat::Text => TextFormat::Text,
            TextFormat::JsonObject => TextFormat::JsonObject,
            TextFormat::JsonSchema { name, description, schema, strict } => TextFormat::JsonSchema {
                name: name.clone(),
                description: description.clone(),
                schema: schema.clone(),
                strict: *strict,
            },
        }
    }
}

/// The `response` object returned by non-streaming requests and carried by
/// lifecycle stream events.
///
/// Fields that depend on unsupported capabilities have fixed values, e.g.
/// `store: false` and `previous_response_id: null`.
#[derive(Debug, PartialEq)]
pub struct ResponseObject {
    pub id: String,
    pub object: &'static str,
    pub created_at: u64,
    pub status: ResponseStatus,
    pub error: Option<ResponseError>,
    pub incomplete_details: Option<IncompleteDetails>,
    pub instructions: Option<String>,
    pub max_output_tokens: Option<u32>,
    pub model: String,
    pub output: Vec<OutputItem>,
    pub parallel_tool_calls: bool,
    pub previous_response_id: Option<String>,
    pub reasoning: ReasoningEcho,
    pub store: bool,
    pub temperature: Option<FloatBits>,
    pub text: TextEcho,
    pub tool_choice: ResponseToolChoice,
    pub tools: Vec<ResponseTool>,
    pub top_p: Option<FloatBits>,
    pub truncation: &'static str,
    pub usage: Option<ResponseUsage>,
    pub user: Option<String>,
    pub metadata: Value,
}

/// What a [`ResponseObject`] holds.
#[verifier::ext_equal]
pub struct ResponseObjectView {
    pub id: Seq<char>,
    pub object: Seq<char>,
    pub created_at: u64,
    pub status: ResponseStatus,
    pub error: Option<ResponseErrorView>,
    pub incomplete_details: Option<IncompleteDetailsView>,
    pub instructions: Option<Seq<char>>,
    pub max_output_tokens: Option<u32>,
    pub model: Seq<char>,
    pub output: Seq<OutputItemView>,
    pub parallel_tool_calls: bool,
    pub previous_response_id: Option<Seq<char>>,
    pub reasoning: ReasoningEchoView,
    pub store: bool,
    pub temperature: Option<FloatBits>,
    pub text: TextEchoView,
    pub tool_choice: ResponseToolChoiceView,
    pub tools: Seq<ResponseToolView>,
    pub top_p: Option<FloatBits>,
    pub truncation: Seq<char>,
    pub usage: Option<ResponseUsage>,
    pub user: Option<Seq<char>>,
    pub metadata: Json,
}

impl DeepView for ResponseObject {
    type V = ResponseObjectView;

    open spec fn deep_view(&self) -> ResponseObjectView {
        ResponseObjectView {
            id: self.id@,
            object: self.object@,
            created_at: self.created_at,
            status: self.status,
            error: self.error.deep_view(),
            incomplete_details: self.incomplete_details.deep_view(),
            instructions: self.instructions.deep_view(),
            max_output_tokens: self.max_output_tokens,
            model: self.model@,
            output: self.output.deep_view(),
            parallel_tool_calls: self.parallel_tool_calls,
            previous_response_id: self.previous_response_id.deep_view(),
            reasoning: self.reasoning.deep_view(),
            store: self.store,
            temperature: self.temperature,
            text: self.text.deep_view(),
            tool_choice: self.tool_choice.deep_view(),
            tools: self.tools.deep_view(),
            top_p: self.top_p,
            truncation: self.truncation@,
            usage: self.usage,
            user: self.user.deep_view(),
            metadata: json_view(self.metadata),
        }
    }
}

impl Clone for ResponseObject {
    fn clone(&self) -> (copy: Self)
        ensures
            copy.deep_view() == self.deep_view(),
    {
        ResponseObject {
            id: self.id.clone(),
            object: self.object,
            created_at: self.created_at,
            status: self.status,
            error: self.error.clone(),
            incomplete_details: self.incomplete_details.clone(),
            instructions: self.instructions.clone(),
            max_output_tokens: self.max_output_tokens,
            model: self.model.clone(),
            output: self.output.clone(),
            parallel_tool_calls: self.parallel_tool_calls,
            previous_response_id: self.previous_response_id.clone(),
            reasoning: self.reasoning.clone(),
            store: self.store,
            temperature: self.temperature,
            text: self.text.clone(),
            tool_choice: self.tool_choice.clone(),
            tools: self.tools.clone(),
            top_p: self.top_p,
            truncation: self.truncation,
            usage: self.usage,
            user: self.user.clone(),
            metadata: self.metadata.clone(),
        }
    }
}

/// Progress of a response.
#[derive(Debug, Clone, Copy, PartialEq, Eq, Structural)]
pub enum ResponseStatus {
    InProgress,
    Completed,
    Incomplete,
    Failed,
}

impl DeepView for ResponseStatus {
    type V = ResponseStatus;

    open spec fn deep_view(&self) -> ResponseStatus {
        *self
    }
}

/// Why a response failed.
#[derive(Debug, PartialEq)]
pub struct ResponseError {
    pub code: &'static str,
    pub message: String,
}

/// What a [`ResponseError`] holds.
#[verifier::ext_equal]
pub struct ResponseErrorView {
    pub code: Seq<char>,
    pub message: Seq<char>,
}

impl DeepView for ResponseError {
    type V = ResponseErrorView;

    open spec fn deep_view(&self) -> ResponseErrorView {
        ResponseErrorView {
            code: self.code@,
            message: self.message@,
        }
    }
}

impl Clone for ResponseError {
    fn clone(&self) -> (copy: Self)
        ensures
            copy.deep_view() == self.deep_view(),
    {
        ResponseError {
            code: self.code,
            message: self.message.clone(),
        }
    }
}

/// Why a response is incomplete.
#[derive(Debug, PartialEq)]
pub struct IncompleteDetails {
    pub reason: &'static str,
}

/// What a [`IncompleteDetails`] holds.
#[verifier::ext_equal]
pub struct IncompleteDetailsView {
    pub reason: Seq<char>,
}

impl DeepView for IncompleteDetails {
    type V = IncompleteDetailsView;

    open spec fn deep_view(&self) -> IncompleteDetailsView {
        IncompleteDetailsView {
            reason: self.reason@,
        }
    }
}

impl Clone for IncompleteDetails {
    fn clone(&self) -> (copy: Self)
        ensures
            copy.deep_view() == self.deep_view(),
    {
        IncompleteDetails {
            reason: self.reason,
        }
    }
}

/// Reasoning parameters, echoed back.
#[derive(Debug, PartialEq)]
pub struct ReasoningEcho {
    pub effort: Option<ReasoningEffort>,
    pub summary: Option<String>,
}

/// What a [`ReasoningEcho`] holds.
#[verifier::ext_equal]
pub struct ReasoningEchoView {
    pub effort: Option<ReasoningEffortView>,
    pub summary: Option<Seq<char>>,
}

impl DeepView for ReasoningEcho {
    type V = ReasoningEchoView;

    open spec fn deep_view(&self) -> ReasoningEchoView {
        ReasoningEchoView {
            effort: self.effort.deep_view(),
            summary: self.summary.deep_view(),
        }
    }
}

impl Clone for ReasoningEcho {
    fn clone(&self) -> (copy: Self)
        ensures
            copy.deep_view() == self.deep_view(),
    {
        ReasoningEcho {
            effort: self.effort.clone(),
            summary: self.summary.clone(),
        }
    }
}

/// Text parameters, echoed back.
#[derive(Debug, PartialEq)]
pub struct TextEcho {
    pub format: TextFormat,
}

/// What a [`TextEcho`] holds.
#[verifier::ext_equal]
pub struct TextEchoView {
    pub format: TextFormatView,
}

impl DeepView for TextEcho {
    type V = TextEchoView;

    open spec fn deep_view(&self) -> TextEchoView {
        TextEchoView {
            format: self.format.deep_view(),
        }
    }
}

impl Clone for TextEcho {
    fn clone(&self) -> (copy: Self)
        ensures
            copy.deep_view() == self.deep_view(),
    {
        TextEcho {
            format: self.format.clone(),
        }
    }
}

/// Token counts of a finished response.
#[derive(Debug, Clone, Copy, PartialEq, Eq, Structural)]
pub struct ResponseUsage {
    pub input_tokens: usize,
    pub input_tokens_details: InputTokensDetails,
    pub output_tokens: usize,
    pub output_tokens_details: OutputTokensDetails,
    pub total_tokens: usize,
}

impl DeepView for ResponseUsage {
    type V = ResponseUsage;

    open spec fn deep_view(&self) -> ResponseUsage {
        *self
    }
}

/// Breakdown of the input tokens.
#[derive(Debug, Clone, Copy, PartialEq, Eq, Structural)]
pub struct InputTokensDetails {
    pub cached_tokens: usize,
}

impl DeepView for InputTokensDetails {
    type V = InputTokensDetails;

    open spec fn deep_view(&self) -> InputTokensDetails {
        *self
    }
}

/// Breakdown of the output tokens.
#[derive(Debug, Clone, Copy, PartialEq, Eq, Structural)]
pub struct OutputTokensDetails {
    pub reasoning_tokens: usize,
}

impl DeepView for OutputTokensDetails {
    type V = OutputTokensDetails;

    open spec fn deep_view(&self) -> OutputTokensDetails {
        *self
    }
}

/// One generated output item.
#[derive(Debug, PartialEq)]
pub enum OutputItem {
    Message {
        id: String,
        role: &'static str,
        status: ItemStatus,
        content: Vec<OutputContentPart>,
    },
    Reasoning {
        id: String,
        status: ItemStatus,
        /// Always empty: summaries are not generated.
        summary: Vec<Value>,
        content: Vec<OutputContentPart>,
    },
    FunctionCall {
        id: String,
        status: ItemStatus,
        call_id: String,
        name: String,
        arguments: String,
    },
    CustomToolCall {
        id: String,
        status: ItemStatus,
        call_id: String,
        name: String,
        input: String,
    },
}

/// What a [`OutputItem`] holds.
#[verifier::ext_equal]
pub enum OutputItemView {
    Message {
        id: Seq<char>,
        role: Seq<char>,
        status: ItemStatus,
        content: Seq<OutputContentPartView>,
    },
    Reasoning {
        id: Seq<char>,
        status: ItemStatus,
        summary: Seq<Json>,
        content: Seq<OutputContentPartView>,
    },
    FunctionCall {
        id: Seq<char>,
        status: ItemStatus,
        call_id: Seq<char>,
        name: Seq<char>,
        arguments: Seq<char>,
    },
    CustomToolCall {
        id: Seq<char>,
        status: ItemStatus,
        call_id: Seq<char>,
        name: Seq<char>,
        input: Seq<char>,
    },
}

impl DeepView for OutputItem {
    type V = OutputItemView;

    open spec fn deep_view(&self) -> OutputItemView {
        match self {
            OutputItem::Message { id, role, status, content } => OutputItemView::Message {
                id: id@,
                role: role@,
                status: *status,
                content: content.deep_view(),
            },
            OutputItem::Reasoning { id, status, summary, content } => OutputItemView::Reasoning {
                id: id@,
                status: *status,
                summary: json_views(summary@),
                content: content.deep_view(),
            },
            OutputItem::FunctionCall {
                id,
                status,
                call_id,
                name,
                arguments,
            } => OutputItemView::FunctionCall {
                id: id@,
                status: *status,
                call_id: call_id@,
                name: name@,
                arguments: arguments@,
            },
            OutputItem::CustomToolCall {
                id,
                status,
                call_id,
                name,
                input,
            } => OutputItemView::CustomToolCall {
                id: id@,
                status: *status,
                call_id: call_id@,
                name: name@,
                input: input@,
            },
        }
    }
}

impl Clone for OutputItem {
    fn clone(&self) -> (copy: Self)
        ensures
            copy.deep_view() == self.deep_view(),
    {
        match self {
            OutputItem::Message { id, role, status, content } => OutputItem::Message {
                id: id.clone(),
                role: *role,
                status: *status,
                content: content.clone(),
            },
            OutputItem::Reasoning { id, status, summary, content } => OutputItem::Reasoning {
                id: id.clone(),
                status: *status,
                summary: summary.clone(),
                content: content.clone(),
            },
            OutputItem::FunctionCall { id, status, call_id, name, arguments } => OutputItem::FunctionCall {
                id: id.clone(),
                status: *status,
                call_id: call_id.clone(),
                name: name.clone(),
                arguments: arguments.clone(),
            },
            OutputItem::CustomToolCall { id, status, call_id, name, input } => OutputItem::CustomToolCall {
                id: id.clone(),
                status: *status,
                call_id: call_id.clone(),
                name: name.clone(),
                input: input.clone(),
            },
        }
    }
}

/// Progress of an output item.
#[derive(Debug, Clone, Copy, PartialEq, Eq, Structural)]
pub enum ItemStatus {
    InProgress,
    Completed,
}

impl DeepView for ItemStatus {
    type V = ItemStatus;

    open spec fn deep_view(&self) -> ItemStatus {
        *self
    }
}

/// One content part of an output message or reasoning item.
#[derive(Debug, PartialEq)]
pub enum OutputContentPart {
    OutputText { text: String, annotations: Vec<Value>, logprobs: Vec<Value> },
    ReasoningText { text: String },
}

/// What a [`OutputContentPart`] holds.
#[verifier::ext_equal]
pub enum OutputContentPartView {
    OutputText { text: Seq<char>, annotations: Seq<Json>, logprobs: Seq<Json> },
    ReasoningText { text: Seq<char> },
}

impl DeepView for OutputContentPart {
    type V = OutputContentPartView;

    open spec fn deep_view(&self) -> OutputContentPartView {
        match self {
            OutputContentPart::OutputText {
                text,
                annotations,
                logprobs,
            } => OutputContentPartView::OutputText {
                text: text@,
                annotations: json_views(annotations@),
                logprobs: json_views(logprobs@),
            },
            OutputContentPart::ReasoningText { text } => OutputContentPartView::ReasoningText {
                text: text@,
            },
        }
    }
}

impl Clone for OutputContentPart {
    fn clone(&self) -> (copy: Self)
        ensures
            copy.deep_view() == self.deep_view(),
    {
        match self {
            OutputContentPart::OutputText { text, annotations, logprobs } => OutputContentPart::OutputText {
                text: text.clone(),
                annotations: annotations.clone(),
                logprobs: logprobs.clone(),
            },
            OutputContentPart::ReasoningText { text } => OutputContentPart::ReasoningText {
                text: text.clone(),
            },
        }
    }
}

/// One semantic server-sent event.
///
/// Every event carries a monotonically increasing `sequence_number`, assigned
/// when the event is serialized.
#[derive(Debug, PartialEq)]
pub enum StreamEvent {
    Created { response: ResponseObject },
    InProgress { response: ResponseObject },
    OutputItemAdded { output_index: usize, item: OutputItem },
    OutputItemDone { output_index: usize, item: OutputItem },
    ContentPartAdded {
        item_id: String,
        output_index: usize,
        content_index: usize,
        part: OutputContentPart,
    },
    ContentPartDone {
        item_id: String,
        output_index: usize,
        content_index: usize,
        part: OutputContentPart,
    },
    OutputTextDelta {
        item_id: String,
        output_index: usize,
        content_index: usize,
        delta: String,
        logprobs: Vec<Value>,
    },
    OutputTextDone {
        item_id: String,
        output_index: usize,
        content_index: usize,
        text: String,
        logprobs: Vec<Value>,
    },
    ReasoningTextDelta {
        item_id: String,
        output_index: usize,
        content_index: usize,
        delta: String,
    },
    ReasoningTextDone {
        item_id: String,
        output_index: usize,
        content_index: usize,
        text: String,
    },
    FunctionCallArgumentsDelta { item_id: String, output_index: usize, delta: String },
    FunctionCallArgumentsDone {
        item_id: String,
        output_index: usize,
        name: String,
        arguments: String,
    },
    CustomToolCallInputDelta { item_id: String, output_index: usize, delta: String },
    CustomToolCallInputDone { item_id: String, output_index: usize, input: String },
    Completed { response: ResponseObject },
    Incomplete { response: ResponseObject },
    Failed { response: ResponseObject },
}

/// What a [`StreamEvent`] holds.
#[verifier::ext_equal]
pub enum StreamEventView {
    Created { response: ResponseObjectView },
    InProgress { response: ResponseObjectView },
    OutputItemAdded { output_index: usize, item: OutputItemView },
    OutputItemDone { output_index: usize, item: OutputItemView },
    ContentPartAdded {
        item_id: Seq<char>,
        output_index: usize,
        content_index: usize,
        part: OutputContentPartView,
    },
    ContentPartDone {
        item_id: Seq<char>,
        output_index: usize,
        content_index: usize,
        part: OutputContentPartView,
    },
    OutputTextDelta {
        item_id: Seq<char>,
        output_index: usize,
        content_index: usize,
        delta: Seq<char>,
        logprobs: Seq<Json>,
    },
    OutputTextDone {
        item_id: Seq<char>,
        output_index: usize,
        content_index: usize,
        text: Seq<char>,
        logprobs: Seq<Json>,
    },
    ReasoningTextDelta {
        item_id: Seq<char>,
        output_index: usize,
        content_index: usize,
        delta: Seq<char>,
    },
    ReasoningTextDone {
        item_id: Seq<char>,
        output_index: usize,
        content_index: usize,
        text: Seq<char>,
    },
    FunctionCallArgumentsDelta { item_id: Seq<char>, output_index: usize, delta: Seq<char> },
    FunctionCallArgumentsDone {
        item_id: Seq<char>,
        output_index: usize,
        name: Seq<char>,
        arguments: Seq<char>,
    },
    CustomToolCallInputDelta { item_id: Seq<char>, output_index: usize, delta: Seq<char> },
    CustomToolCallInputDone { item_id: Seq<char>, output_index: usize, input: Seq<char> },
    Completed { response: ResponseObjectView },
    Incomplete { response: ResponseObjectView },
    Failed { response: ResponseObjectView },
}

impl DeepView for StreamEvent {
    type V = StreamEventView;

    open spec fn deep_view(&self) -> StreamEventView {
        match self {
            StreamEvent::Created { response } => StreamEventView::Created {
                response: response.deep_view(),
            },
            StreamEvent::InProgress { response } => StreamEventView::InProgress {
                response: response.deep_view(),
            },
            StreamEvent::OutputItemAdded {
                output_index,
                item,
            } => StreamEventView::OutputItemAdded {
                output_index: *output_index,
                item: item.deep_view(),
            },
            StreamEvent::OutputItemDone { output_index, item } => StreamEventView::OutputItemDone {
                output_index: *output_index,
                item: item.deep_view(),
            },
            StreamEvent::ContentPartAdded {
                item_id,
                output_index,
                content_index,
                part,
            } => StreamEventView::ContentPartAdded {
                item_id: item_id@,
                output_index: *output_index,
                content_index: *content_index,
                part: part.deep_view(),
            },
            StreamEvent::ContentPartDone {
                item_id,
                output_index,
                content_index,
                part,
            } => StreamEventView::ContentPartDone {
                item_id: item_id@,
                output_index: *output_index,
                content_index: *content_index,
                part: part.deep_view(),
            },
            StreamEvent::OutputTextDelta {
                item_id,
                output_index,
                content_index,
                delta,
                logprobs,
            } => StreamEventView::OutputTextDelta {
                item_id: item_id@,
                output_index: *output_index,
                content_index: *content_index,
                delta: delta@,
                logprobs: json_views(logprobs@),
            },
            StreamEvent::OutputTextDone {
                item_id,
                output_index,
                content_index,
                text,
                logprobs,
            } => StreamEventView::OutputTextDone {
                item_id: item_id@,
                output_index: *output_index,
                content_index: *content_index,
                text: text@,
                logprobs: json_views(logprobs@),
            },
            StreamEvent::ReasoningTextDelta {
                item_id,
                output_index,
                content_index,
                delta,
            } => StreamEventView::ReasoningTextDelta {
                item_id: item_id@,
                output_index: *output_index,
                content_index: *content_index,
                delta: delta@,
            },
            StreamEvent::ReasoningTextDone {
                item_id,
                output_index,
                content_index,
                text,
            } => StreamEventView::ReasoningTextDone {
                item_id: item_id@,
                output_index: *output_index,
                content_index: *content_index,
                text: text@,
            },
            StreamEvent::FunctionCallArgumentsDelta {
                item_id,
                output_index,
                delta,
            } => StreamEventView::FunctionCallArgumentsDelta {
                item_id: item_id@,
                output_index: *output_index,
                delta: delta@,
            },
            StreamEvent::FunctionCallArgumentsDone {
                item_id,
                output_index,
                name,
                arguments,
            } => StreamEventView::FunctionCallArgumentsDone {
                item_id: item_id@,
                output_index: *output_index,
                name: name@,
                arguments: arguments@,
            },
            StreamEvent::CustomToolCallInputDelta {
                item_id,
                output_index,
                delta,
            } => StreamEventView::CustomToolCallInputDelta {
                item_id: item_id@,
                output_index: *output_index,
                delta: delta@,
            },
            StreamEvent::CustomToolCallInputDone {
                item_id,
                output_index,
                input,
            } => StreamEventView::CustomToolCallInputDone {
                item_id: item_id@,
                output_index: *output_index,
                input: input@,
            },
            StreamEvent::Completed { response } => StreamEventView::Completed {
                response: response.deep_view(),
            },
            StreamEvent::Incomplete { response } => StreamEventView::Incomplete {
                response: response.deep_view(),
            },
            StreamEvent::Failed { response } => StreamEventView::Failed {
                response: response.deep_view(),
            },
        }
    }
}

impl ReasoningEffort {
    /// The wire spelling.
    pub fn as_str(&self) -> (spelling: &str)
        ensures
            spelling@ == self.deep_view().spelling,
    {
        self.spelling.as_str()
    }
}

impl StringOrArrayView {
    /// The strings, in order.
    pub open spec fn strings(self) -> Seq<Seq<char>> {
        match self {
            StringOrArrayView::String(text) => seq![text],
            StringOrArrayView::Array(texts) => texts,
        }
    }
}

impl StringOrArray {
    /// The strings, in order.
    pub fn into_vec(self) -> (texts: Vec<String>)
        ensures
            texts.deep_view() == self.deep_view().strings(),
    {
        match self {
            StringOrArray::String(text) => vec![text],
            StringOrArray::Array(texts) => texts,
        }
    }
}

impl Default for TextFormat {
    /// Plain text.
    fn default() -> (format: Self)
        ensures
            format.deep_view() == TextFormatView::Text,
    {
        TextFormat::Text
    }
}

impl OutputContentPart {
    /// A text part without annotations.
    pub fn output_text(text: String) -> (part: Self)
        ensures
            part.deep_view() == OutputContentPartView::output_text(text@),
    {
        OutputContentPart::OutputText { text, annotations: Vec::new(), logprobs: Vec::new() }
    }
}

impl OutputContentPartView {
    /// A text part without annotations.
    pub open spec fn output_text(text: Seq<char>) -> OutputContentPartView {
        OutputContentPartView::OutputText {
            text,
            annotations: Seq::empty(),
            logprobs: Seq::empty(),
        }
    }
}

impl OutputItemView {
    /// The item's ID.
    pub open spec fn id(self) -> Seq<char> {
        match self {
            OutputItemView::Message { id, .. } => id,
            OutputItemView::Reasoning { id, .. } => id,
            OutputItemView::FunctionCall { id, .. } => id,
            OutputItemView::CustomToolCall { id, .. } => id,
        }
    }
}

impl StreamEventView {
    /// The wire name of the event.
    pub open spec fn name(self) -> Seq<char> {
        match self {
            StreamEventView::Created { .. } => "response.created"@,
            StreamEventView::InProgress { .. } => "response.in_progress"@,
            StreamEventView::OutputItemAdded { .. } => "response.output_item.added"@,
            StreamEventView::OutputItemDone { .. } => "response.output_item.done"@,
            StreamEventView::ContentPartAdded { .. } => "response.content_part.added"@,
            StreamEventView::ContentPartDone { .. } => "response.content_part.done"@,
            StreamEventView::OutputTextDelta { .. } => "response.output_text.delta"@,
            StreamEventView::OutputTextDone { .. } => "response.output_text.done"@,
            StreamEventView::ReasoningTextDelta { .. } => "response.reasoning_text.delta"@,
            StreamEventView::ReasoningTextDone { .. } => "response.reasoning_text.done"@,
            StreamEventView::FunctionCallArgumentsDelta { .. } => {
                "response.function_call_arguments.delta"@
            },
            StreamEventView::FunctionCallArgumentsDone { .. } => {
                "response.function_call_arguments.done"@
            },
            StreamEventView::CustomToolCallInputDelta { .. } => {
                "response.custom_tool_call_input.delta"@
            },
            StreamEventView::CustomToolCallInputDone { .. } => {
                "response.custom_tool_call_input.done"@
            },
            StreamEventView::Completed { .. } => "response.completed"@,
            StreamEventView::Incomplete { .. } => "response.incomplete"@,
            StreamEventView::Failed { .. } => "response.failed"@,
        }
    }

    /// Whether the event ends a stream.
    pub open spec fn is_terminal(self) -> bool {
        self is Completed || self is Incomplete || self is Failed
    }

    /// The event that ends a stream whose response is `response`.
    pub open spec fn terminal(response: ResponseObjectView) -> StreamEventView {
        match response.status {
            ResponseStatus::Completed => StreamEventView::Completed { response },
            ResponseStatus::Incomplete => StreamEventView::Incomplete { response },
            _ => StreamEventView::Failed { response },
        }
    }
}

impl StreamEvent {
    /// Return the SSE `event:` name, which equals the payload `type`.
    pub fn name(&self) -> (name: &'static str)
        ensures
            name@ == self.deep_view().name(),
    {
        match self {
            StreamEvent::Created { .. } => "response.created",
            StreamEvent::InProgress { .. } => "response.in_progress",
            StreamEvent::OutputItemAdded { .. } => "response.output_item.added",
            StreamEvent::OutputItemDone { .. } => "response.output_item.done",
            StreamEvent::ContentPartAdded { .. } => "response.content_part.added",
            StreamEvent::ContentPartDone { .. } => "response.content_part.done",
            StreamEvent::OutputTextDelta { .. } => "response.output_text.delta",
            StreamEvent::OutputTextDone { .. } => "response.output_text.done",
            StreamEvent::ReasoningTextDelta { .. } => "response.reasoning_text.delta",
            StreamEvent::ReasoningTextDone { .. } => "response.reasoning_text.done",
            StreamEvent::FunctionCallArgumentsDelta { .. } => {
                "response.function_call_arguments.delta"
            },
            StreamEvent::FunctionCallArgumentsDone { .. } => {
                "response.function_call_arguments.done"
            },
            StreamEvent::CustomToolCallInputDelta { .. } => "response.custom_tool_call_input.delta",
            StreamEvent::CustomToolCallInputDone { .. } => "response.custom_tool_call_input.done",
            StreamEvent::Completed { .. } => "response.completed",
            StreamEvent::Incomplete { .. } => "response.incomplete",
            StreamEvent::Failed { .. } => "response.failed",
        }
    }

    /// Terminal lifecycle event for a finished response with the given status.
    pub fn terminal(response: ResponseObject) -> (event: Self)
        requires
            !(response.status is InProgress),
        ensures
            event.deep_view() == StreamEventView::terminal(response.deep_view()),
    {
        match response.status {
            ResponseStatus::Completed => StreamEvent::Completed { response },
            ResponseStatus::Incomplete => StreamEvent::Incomplete { response },
            _ => StreamEvent::Failed { response },
        }
    }
}

/// Wire form of one [`StreamEvent`] with its sequence number.
#[derive(Debug)]
pub struct SequencedEvent<'a> {
    pub event: &'a StreamEvent,
    pub sequence_number: u64,
}

impl<'a> SequencedEvent<'a> {
    /// Number the event at position `index` of its stream.
    pub fn new(event: &'a StreamEvent, index: usize) -> (sequenced: Self)
        ensures
            sequenced.event.deep_view() == event.deep_view(),
            sequenced.sequence_number == index,
    {
        SequencedEvent { event, sequence_number: index as u64 }
    }
}

/// The terminal event says how the response ended.
pub proof fn terminal_names_status(response: ResponseObjectView)
    requires
        !(response.status is InProgress),
    ensures
        StreamEventView::terminal(response).is_terminal(),
        StreamEventView::terminal(response) is Completed <==> response.status is Completed,
        StreamEventView::terminal(response) is Incomplete <==> response.status is Incomplete,
        StreamEventView::terminal(response) is Failed <==> response.status is Failed,
{
}

/// The terminal event carries the response that ended.
pub proof fn terminal_carries_the_response(response: ResponseObjectView)
    ensures
        match StreamEventView::terminal(response) {
            StreamEventView::Completed { response: carried } => carried == response,
            StreamEventView::Incomplete { response: carried } => carried == response,
            StreamEventView::Failed { response: carried } => carried == response,
            _ => false,
        },
{
}

/// The last characters of the name of an event.
pub open spec fn name_ends(event: StreamEventView, ending: Seq<char>) -> bool {
    ending.len() <= event.name().len() && event.name().skip(event.name().len() - ending.len())
        == ending
}

/// Whether an event streams a piece of text.
pub open spec fn is_delta(event: StreamEventView) -> bool {
    event is OutputTextDelta || event is ReasoningTextDelta || event is FunctionCallArgumentsDelta
        || event is CustomToolCallInputDelta
}

/// Whether an event reports something as done.
pub open spec fn is_done(event: StreamEventView) -> bool {
    event is OutputItemDone || event is ContentPartDone || event is OutputTextDone
        || event is ReasoningTextDone || event is FunctionCallArgumentsDone
        || event is CustomToolCallInputDone
}

/// Whether an event announces something.
pub open spec fn is_added(event: StreamEventView) -> bool {
    event is OutputItemAdded || event is ContentPartAdded
}

/// What the letters of all event names are.
proof fn reveal_names()
    ensures
        "response.created"@.len() == 16,
        "response.in_progress"@.len() == 20,
        "response.output_item.added"@.len() == 26,
        "response.output_item.done"@.len() == 25,
        "response.content_part.added"@.len() == 27,
        "response.content_part.done"@.len() == 26,
        "response.output_text.delta"@.len() == 26,
        "response.output_text.done"@.len() == 25,
        "response.reasoning_text.delta"@.len() == 29,
        "response.reasoning_text.done"@.len() == 28,
        "response.function_call_arguments.delta"@.len() == 38,
        "response.function_call_arguments.done"@.len() == 37,
        "response.custom_tool_call_input.delta"@.len() == 37,
        "response.custom_tool_call_input.done"@.len() == 36,
        "response.completed"@.len() == 18,
        "response.incomplete"@.len() == 19,
        "response.failed"@.len() == 15,
        "response.output_item.added"@[9] == 'o',
        "response.output_item.added"@[16] == 'i',
        "response.content_part.done"@[9] == 'c',
        "response.output_text.delta"@[9] == 'o',
        "response.output_text.delta"@[16] == 't',
        "response.output_item.done"@[16] == 'i',
        "response.output_text.done"@[16] == 't',
        "response.function_call_arguments.done"@[9] == 'f',
        "response.custom_tool_call_input.delta"@[9] == 'c',
{
    reveal_strlit("response.created");
    reveal_strlit("response.in_progress");
    reveal_strlit("response.output_item.added");
    reveal_strlit("response.output_item.done");
    reveal_strlit("response.content_part.added");
    reveal_strlit("response.content_part.done");
    reveal_strlit("response.output_text.delta");
    reveal_strlit("response.output_text.done");
    reveal_strlit("response.reasoning_text.delta");
    reveal_strlit("response.reasoning_text.done");
    reveal_strlit("response.function_call_arguments.delta");
    reveal_strlit("response.function_call_arguments.done");
    reveal_strlit("response.custom_tool_call_input.delta");
    reveal_strlit("response.custom_tool_call_input.done");
    reveal_strlit("response.completed");
    reveal_strlit("response.incomplete");
    reveal_strlit("response.failed");
}

/// Events of different sorts have different names: a name tells what its event
/// carries.
pub proof fn names_tell_events_apart(first: StreamEventView, second: StreamEventView)
    requires
        first.name() == second.name(),
    ensures
        first is Created <==> second is Created,
        first is InProgress <==> second is InProgress,
        first is OutputItemAdded <==> second is OutputItemAdded,
        first is OutputItemDone <==> second is OutputItemDone,
        first is ContentPartAdded <==> second is ContentPartAdded,
        first is ContentPartDone <==> second is ContentPartDone,
        first is OutputTextDelta <==> second is OutputTextDelta,
        first is OutputTextDone <==> second is OutputTextDone,
        first is ReasoningTextDelta <==> second is ReasoningTextDelta,
        first is ReasoningTextDone <==> second is ReasoningTextDone,
        first is FunctionCallArgumentsDelta <==> second is FunctionCallArgumentsDelta,
        first is FunctionCallArgumentsDone <==> second is FunctionCallArgumentsDone,
        first is CustomToolCallInputDelta <==> second is CustomToolCallInputDelta,
        first is CustomToolCallInputDone <==> second is CustomToolCallInputDone,
        first is Completed <==> second is Completed,
        first is Incomplete <==> second is Incomplete,
        first is Failed <==> second is Failed,
{
    reveal_names();
}

/// The name of an event ends with whether it announces something, streams a
/// piece of it, or reports it as done.
pub proof fn names_say_what_is_reported(event: StreamEventView)
    ensures
        is_added(event) ==> name_ends(event, ".added"@),
        is_delta(event) ==> name_ends(event, ".delta"@),
        is_done(event) ==> name_ends(event, ".done"@),
{
    let name = event.name();
    reveal_strlit(".added");
    reveal_strlit(".delta");
    reveal_strlit(".done");
    match event {
        StreamEventView::OutputItemAdded { .. } => {
            reveal_strlit("response.output_item.added");
            assert(name.skip(name.len() - 6) =~= ".added"@);
        },
        StreamEventView::OutputItemDone { .. } => {
            reveal_strlit("response.output_item.done");
            assert(name.skip(name.len() - 5) =~= ".done"@);
        },
        StreamEventView::ContentPartAdded { .. } => {
            reveal_strlit("response.content_part.added");
            assert(name.skip(name.len() - 6) =~= ".added"@);
        },
        StreamEventView::ContentPartDone { .. } => {
            reveal_strlit("response.content_part.done");
            assert(name.skip(name.len() - 5) =~= ".done"@);
        },
        StreamEventView::OutputTextDelta { .. } => {
            reveal_strlit("response.output_text.delta");
            assert(name.skip(name.len() - 6) =~= ".delta"@);
        },
        StreamEventView::OutputTextDone { .. } => {
            reveal_strlit("response.output_text.done");
            assert(name.skip(name.len() - 5) =~= ".done"@);
        },
        StreamEventView::ReasoningTextDelta { .. } => {
            reveal_strlit("response.reasoning_text.delta");
            assert(name.skip(name.len() - 6) =~= ".delta"@);
        },
        StreamEventView::ReasoningTextDone { .. } => {
            reveal_strlit("response.reasoning_text.done");
            assert(name.skip(name.len() - 5) =~= ".done"@);
        },
        StreamEventView::FunctionCallArgumentsDelta { .. } => {
            reveal_strlit("response.function_call_arguments.delta");
            assert(name.skip(name.len() - 6) =~= ".delta"@);
        },
        StreamEventView::FunctionCallArgumentsDone { .. } => {
            reveal_strlit("response.function_call_arguments.done");
            assert(name.skip(name.len() - 5) =~= ".done"@);
        },
        StreamEventView::CustomToolCallInputDelta { .. } => {
            reveal_strlit("response.custom_tool_call_input.delta");
            assert(name.skip(name.len() - 6) =~= ".delta"@);
        },
        StreamEventView::CustomToolCallInputDone { .. } => {
            reveal_strlit("response.custom_tool_call_input.done");
            assert(name.skip(name.len() - 5) =~= ".done"@);
        },
        _ => {},
    }
}

} // verus!
