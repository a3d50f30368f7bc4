//! Validation and lowering of whole Responses requests.
//!
//! Lowering has two phases. [`lower_responses_request`] validates a request and
//! converts its history and tools. The engine then resolves the tools and the
//! output constraints, and [`prepare_responses_request`] puts its answers and
//! the lowered request together.

pub mod laws;

use serde_json::{Map as JsonMap, Value};
use vstd::prelude::*;

use crate::chat::{
    ChatMessage, ChatMessageView, ChatOptions, ChatOptionsView, ChatRequest, ChatRequestView,
    ChatTool, ChatToolChoice, ChatToolChoiceView, ChatToolView, GenerationPromptMode,
    LoraModelResolution, LoraModelResolutionView, ResolvedRequestContext,
    ResolvedRequestContextView, ResolvedToolContext, ResolvedToolContextView, ResponseFormat,
    ResponseFormatView, SamplingParams, SamplingParamsView, TextDecodeOptions,
    TextDecodeOptionsView,
};
use crate::convert::{
    chat_choice_of, chat_tools_of, collect_custom_names, convert_input, convert_text_format,
    convert_tool_choice, convert_tools, custom_names, invalid, invalid_request, keep_supported,
    messages_of, rejection, response_format_json, response_format_of, response_format_value,
    supported_tools, validate_request,
};
use crate::custom_tool::CustomToolNames;
use crate::error::{ApiError, ApiErrorView};
use crate::json::{
    entries_option, inserted, json_object, json_option, json_view, map_insert, map_new, Json,
};
use crate::types::{
    FloatBits, ReasoningEcho, ReasoningEchoView, ReasoningEffortView, ResponseInput,
    ResponseInputView, ResponseObject, ResponseObjectView, ResponseStatus, ResponseTool,
    ResponseToolChoice, ResponseToolChoiceView, ResponseToolView, ResponsesRequest,
    ResponsesRequestView, TextEcho, TextEchoView, TextFormat, TextFormatView, ToolChoiceMode,
};

verus! {

/// A validated request with its history and tools converted.
#[derive(Debug)]
pub struct LoweredRequest {
    /// The rest of the request: everything but `input`, `tools` and `text`.
    pub request: ResponsesRequest,
    /// The supported tool declarations.
    pub tools: Vec<ResponseTool>,
    /// Names of the declared custom tools.
    pub custom_tools: CustomToolNames,
    /// The tools to offer to the model.
    pub chat_tools: Vec<ChatTool>,
    pub messages: Vec<ChatMessage>,
    /// The tool choice to ask of the engine.
    pub tool_choice: Option<ChatToolChoice>,
    pub parallel_tool_calls: bool,
    pub text_format: TextFormat,
    pub response_format: Option<ResponseFormat>,
}

/// What a [`LoweredRequest`] holds.
#[verifier::ext_equal]
pub struct LoweredRequestView {
    pub request: ResponsesRequestView,
    pub tools: Seq<ResponseToolView>,
    pub custom_tools: Set<Seq<char>>,
    pub chat_tools: Seq<ChatToolView>,
    pub messages: Seq<ChatMessageView>,
    pub tool_choice: Option<ChatToolChoiceView>,
    pub parallel_tool_calls: bool,
    pub text_format: TextFormatView,
    pub response_format: Option<ResponseFormatView>,
}

impl DeepView for LoweredRequest {
    type V = LoweredRequestView;

    open spec fn deep_view(&self) -> LoweredRequestView {
        LoweredRequestView {
            request: self.request.deep_view(),
            tools: self.tools.deep_view(),
            custom_tools: self.custom_tools@,
            chat_tools: self.chat_tools.deep_view(),
            messages: self.messages.deep_view(),
            tool_choice: self.tool_choice.deep_view(),
            parallel_tool_calls: self.parallel_tool_calls,
            text_format: self.text_format.deep_view(),
            response_format: self.response_format.deep_view(),
        }
    }
}

/// The text format that a request asks for.
pub open spec fn text_format_of(request: ResponsesRequestView) -> TextFormatView {
    match request.text {
        Some(text) => match text.format {
            Some(format) => format,
            None => TextFormatView::Text,
        },
        None => TextFormatView::Text,
    }
}

/// The tools that a request declares.
pub open spec fn declared_tools(request: ResponsesRequestView) -> Seq<ResponseToolView> {
    match request.tools {
        Some(tools) => tools,
        None => Seq::empty(),
    }
}

/// The lowered form of a request, or why it is rejected.
pub open spec fn lowered_of(request: ResponsesRequestView, served: Seq<Seq<char>>) -> Result<
    LoweredRequestView,
    ApiErrorView,
> {
    match rejection(request, served) {
        Some(error) => Err(error),
        None => match messages_of(request.instructions, request.input.0) {
            Err(error) => Err(error),
            Ok(messages) => if messages.len() == 0 {
                Err(
                    invalid(
                        "At least one of `input` and `instructions` is required."@,
                        "input"@,
                    ),
                )
            } else {
                let tools = supported_tools(declared_tools(request));
                Ok(
                    LoweredRequestView {
                        request: ResponsesRequestView {
                            input: ResponseInputView(Seq::empty()),
                            tools: None,
                            text: None,
                            ..request
                        },
                        tools,
                        custom_tools: custom_names(tools).to_set(),
                        chat_tools: chat_tools_of(tools),
                        messages,
                        tool_choice: match request.tool_choice {
                            Some(choice) => chat_choice_of(choice),
                            None => None,
                        },
                        parallel_tool_calls: request.parallel_tool_calls.unwrap_or(true),
                        text_format: text_format_of(request),
                        response_format: response_format_of(text_format_of(request)),
                    },
                )
            },
        },
    }
}

/// Validate a request and convert its history and tools.
pub fn lower_responses_request(request: ResponsesRequest, served_model_names: &Vec<String>) -> (
    outcome: Result<LoweredRequest, ApiError>)
    ensures
        match outcome {
            Ok(lowered) => lowered_of(request.deep_view(), served_model_names.deep_view()) == Ok::<
                _,
                ApiErrorView,
            >(lowered.deep_view()),
            Err(error) => lowered_of(request.deep_view(), served_model_names.deep_view()) == Err::<
                LoweredRequestView,
                _,
            >(error.deep_view()),
        },
{
    let ghost asked = request.deep_view();
    match validate_request(&request, served_model_names) {
        Ok(_) => {},
        Err(error) => return Err(error),
    }
    let mut request = request;
    let declared = match request.tools.take() {
        Some(tools) => tools,
        None => Vec::new(),
    };
    assert(declared.deep_view() =~= declared_tools(asked));
    let tools = keep_supported(declared);
    let custom_tools = collect_custom_names(&tools);
    let chat_tools = convert_tools(&tools);

    let mut input = ResponseInput(Vec::new());
    std::mem::swap(&mut input, &mut request.input);
    let messages = match convert_input(request.instructions.clone(), input.0) {
        Ok(messages) => messages,
        Err(error) => return Err(error),
    };
    if messages.len() == 0 {
        return Err(
            invalid_request(
                "At least one of `input` and `instructions` is required.".to_string(),
                "input",
            ),
        );
    }
    let tool_choice = match &request.tool_choice {
        Some(choice) => convert_tool_choice(choice),
        None => None,
    };
    let parallel_tool_calls = match request.parallel_tool_calls {
        Some(parallel) => parallel,
        None => true,
    };
    let text_format = match request.text.take() {
        Some(text) => match text.format {
            Some(format) => format,
            None => TextFormat::default(),
        },
        None => TextFormat::default(),
    };
    let response_format = convert_text_format(&text_format);
    assert(request.input.deep_view().0 =~= Seq::empty());
    Ok(
        LoweredRequest {
            request,
            tools,
            custom_tools,
            chat_tools,
            messages,
            tool_choice,
            parallel_tool_calls,
            text_format,
            response_format,
        },
    )
}

/// What constrains the generated text.
#[derive(Debug)]
pub enum ConstraintSource<'a> {
    /// Structured outputs that the request spells out.
    Explicit(&'a Value),
    /// The format of `text.format`.
    Format(&'a ResponseFormat),
    Unconstrained,
}

/// What a [`ConstraintSource`] holds.
#[verifier::ext_equal]
pub enum ConstraintSourceView {
    Explicit(Json),
    Format(ResponseFormatView),
    Unconstrained,
}

impl<'a> DeepView for ConstraintSource<'a> {
    type V = ConstraintSourceView;

    open spec fn deep_view(&self) -> ConstraintSourceView {
        match self {
            ConstraintSource::Explicit(value) => ConstraintSourceView::Explicit(json_view(**value)),
            ConstraintSource::Format(format) => ConstraintSourceView::Format(format.deep_view()),
            ConstraintSource::Unconstrained => ConstraintSourceView::Unconstrained,
        }
    }
}

/// What constrains the text generated for a lowered request: explicit
/// structured outputs take precedence over `text.format`.
pub open spec fn constraint_source_of(lowered: LoweredRequestView) -> ConstraintSourceView {
    match lowered.request.structured_outputs {
        Some(value) => ConstraintSourceView::Explicit(value),
        None => match lowered.response_format {
            Some(format) => ConstraintSourceView::Format(format),
            None => ConstraintSourceView::Unconstrained,
        },
    }
}

/// Choose what constrains the text generated for a lowered request.
pub fn constraint_source(lowered: &LoweredRequest) -> (source: ConstraintSource<'_>)
    ensures
        source.deep_view() == constraint_source_of(lowered.deep_view()),
{
    match &lowered.request.structured_outputs {
        Some(value) => ConstraintSource::Explicit(value),
        None => match &lowered.response_format {
            Some(format) => ConstraintSource::Format(format),
            None => ConstraintSource::Unconstrained,
        },
    }
}

/// Explicit structured outputs take precedence over `text.format`, which
/// constrains the text only in their absence.
pub proof fn explicit_constraint_wins(request: ResponsesRequestView, served: Seq<Seq<char>>)
    ensures
        lowered_of(request, served) matches Ok(lowered) ==> constraint_source_of(lowered) == (
        match request.structured_outputs {
            Some(value) => ConstraintSourceView::Explicit(value),
            None => match response_format_of(text_format_of(request)) {
                Some(format) => ConstraintSourceView::Format(format),
                None => ConstraintSourceView::Unconstrained,
            },
        }),
{
}

/// What the engine resolved for a lowered request.
#[derive(Debug)]
pub struct ResolvedInputs {
    /// The tools, resolved from the lowered messages, tools and tool choice.
    pub tool_context: Result<ResolvedToolContext, ApiError>,
    /// The output constraint, resolved from what [`constraint_source`] chose.
    pub structured_outputs: Result<Option<Value>, ApiError>,
    /// The token biases by token ID.
    pub logit_bias: Result<Option<Vec<(u32, FloatBits)>>, ApiError>,
    /// The session that the request belongs to.
    pub session_id: Option<String>,
}

/// Lowered chat request plus the response state shared by both delivery modes.
#[derive(Debug)]
pub struct PreparedRequest {
    /// Lowered chat request.
    pub chat_request: ChatRequest,
    /// In-progress response object echoing the request parameters.
    pub response: ResponseObject,
    /// Names of the declared custom tools.
    pub custom_tools: CustomToolNames,
}

/// What a [`PreparedRequest`] holds.
#[verifier::ext_equal]
pub struct PreparedRequestView {
    pub chat_request: ChatRequestView,
    pub response: ResponseObjectView,
    pub custom_tools: Set<Seq<char>>,
}

impl DeepView for PreparedRequest {
    type V = PreparedRequestView;

    open spec fn deep_view(&self) -> PreparedRequestView {
        PreparedRequestView {
            chat_request: self.chat_request.deep_view(),
            response: self.response.deep_view(),
            custom_tools: self.custom_tools@,
        }
    }
}

/// The engine parameters with `params` stored under `name`, where there are
/// any.
pub open spec fn merged_params(
    xargs: Option<Seq<(Seq<char>, Json)>>,
    name: Seq<char>,
    params: Option<Seq<(Seq<char>, Json)>>,
) -> Option<Seq<(Seq<char>, Json)>> {
    match params {
        Some(params) => Some(
            inserted(
                match xargs {
                    Some(xargs) => xargs,
                    None => Seq::empty(),
                },
                name,
                Json::Object(params),
            ),
        ),
        None => xargs,
    }
}

/// Store `params` under `name` among the engine parameters, where there are
/// any.
fn merge_params(
    xargs: Option<JsonMap<String, Value>>,
    name: &str,
    params: Option<JsonMap<String, Value>>,
) -> (merged: Option<JsonMap<String, Value>>)
    ensures
        entries_option(merged) == merged_params(
            entries_option(xargs),
            name@,
            entries_option(params),
        ),
{
    match params {
        Some(params) => {
            let mut merged = match xargs {
                Some(xargs) => xargs,
                None => map_new(),
            };
            map_insert(&mut merged, name.to_string(), json_object(params));
            Some(merged)
        },
        None => xargs,
    }
}

/// The model named in the response: the selected adapter, or else the first
/// served model.
pub open spec fn response_model_of(lora: LoraModelResolutionView) -> Seq<char> {
    match lora.lora_request {
        Some(request) => request.lora_name,
        None => if lora.model_names.len() > 0 {
            lora.model_names[0]
        } else {
            Seq::empty()
        },
    }
}

/// Name the model in the response.
fn response_model(lora: &LoraModelResolution) -> (model: String)
    ensures
        model@ == response_model_of(lora.deep_view()),
{
    match &lora.lora_request {
        Some(request) => request.lora_name.clone(),
        None => if lora.model_names.len() > 0 {
            lora.model_names[0].clone()
        } else {
            String::new()
        },
    }
}

/// The reasoning effort that a request asks for.
pub open spec fn effort_of(request: ResponsesRequestView) -> Option<ReasoningEffortView> {
    match request.reasoning {
        Some(reasoning) => reasoning.effort,
        None => None,
    }
}

/// The chat request of a lowered request and the engine's answers.
pub open spec fn chat_request_of(
    lowered: LoweredRequestView,
    lora: LoraModelResolutionView,
    ctx: ResolvedRequestContextView,
    tool_context: ResolvedToolContextView,
    structured_outputs: Option<Json>,
    logit_bias: Option<Seq<(u32, FloatBits)>>,
    session_id: Option<Seq<char>>,
) -> ChatRequestView {
    let request = lowered.request;
    ChatRequestView {
        request_id: "resp_"@ + ctx.request_id,
        messages: lowered.messages,
        sampling_params: SamplingParamsView {
            temperature: request.temperature,
            top_p: request.top_p,
            top_k: request.top_k,
            seed: request.seed,
            max_tokens: request.max_output_tokens,
            frequency_penalty: request.frequency_penalty,
            presence_penalty: request.presence_penalty,
            repetition_penalty: request.repetition_penalty,
            ignore_eos: request.ignore_eos,
            watermarking: request.watermarking,
            logit_bias,
            structured_outputs,
            vllm_xargs: merged_params(
                merged_params(
                    request.vllm_xargs,
                    "ec_transfer_params"@,
                    request.ec_transfer_params,
                ),
                "kv_transfer_params"@,
                request.kv_transfer_params,
            ),
        },
        chat_options: ChatOptionsView {
            generation_prompt_mode: GenerationPromptMode::StartNewAssistant,
            chat_template: None,
            reasoning_effort: match effort_of(request) {
                Some(effort) => Some(effort.spelling),
                None => None,
            },
            response_format: match lowered.response_format {
                Some(format) => Some(response_format_json(format)),
                None => None,
            },
            template_kwargs: match request.chat_template_kwargs {
                Some(kwargs) => kwargs,
                None => Seq::empty(),
            },
        },
        tool_context,
        decode_options: TextDecodeOptionsView {
            skip_special_tokens: request.skip_special_tokens,
            include_stop_str_in_output: request.include_stop_str_in_output,
            stop_strings: match request.stop {
                Some(stop) => Some(stop.strings()),
                None => None,
            },
            min_tokens: 0,
        },
        intermediate: request.stream,
        prompt_truncation: None,
        priority: match ctx.priority {
            Some(priority) => priority,
            None => request.priority.unwrap_or(0),
        },
        documents: None,
        cache_salt: request.cache_salt,
        add_special_tokens: false,
        data_parallel_rank: ctx.data_parallel_rank,
        session_id,
        lora_request: lora.lora_request,
    }
}

/// The in-progress response of a lowered request.
pub open spec fn response_of(
    lowered: LoweredRequestView,
    lora: LoraModelResolutionView,
    ctx: ResolvedRequestContextView,
    created_at: u64,
) -> ResponseObjectView {
    let request = lowered.request;
    ResponseObjectView {
        id: "resp_"@ + ctx.request_id,
        object: "response"@,
        created_at,
        status: ResponseStatus::InProgress,
        error: None,
        incomplete_details: None,
        instructions: request.instructions,
        max_output_tokens: request.max_output_tokens,
        model: response_model_of(lora),
        output: Seq::empty(),
        parallel_tool_calls: lowered.parallel_tool_calls,
        previous_response_id: None,
        reasoning: ReasoningEchoView { effort: effort_of(request), summary: None },
        store: false,
        temperature: request.temperature,
        text: TextEchoView { format: lowered.text_format },
        tool_choice: match request.tool_choice {
            Some(choice) => choice,
            None => ResponseToolChoiceView::Mode(ToolChoiceMode::Auto),
        },
        tools: lowered.tools,
        top_p: request.top_p,
        truncation: "disabled"@,
        usage: None,
        user: request.user,
        metadata: match request.metadata {
            Some(metadata) => metadata,
            None => Json::Object(Seq::empty()),
        },
    }
}

/// Whether sampling follows the options of a request, each under its own name.
pub open spec fn samples_as_asked(given: SamplingParams, asked: ResponsesRequest) -> bool {
    &&& given.temperature == asked.temperature
    &&& given.top_p == asked.top_p
    &&& given.top_k == asked.top_k
    &&& given.seed == asked.seed
    &&& given.max_tokens == asked.max_output_tokens
    &&& given.frequency_penalty == asked.frequency_penalty
    &&& given.presence_penalty == asked.presence_penalty
    &&& given.repetition_penalty == asked.repetition_penalty
    &&& given.ignore_eos == asked.ignore_eos
    &&& given.watermarking == asked.watermarking
}

/// Whether decoding and scheduling follow the options of a request. A priority
/// given with the call comes before the one in the request.
pub open spec fn decodes_as_asked(
    given: ChatRequest,
    asked: ResponsesRequest,
    ctx: ResolvedRequestContext,
) -> bool {
    &&& given.decode_options.skip_special_tokens == asked.skip_special_tokens
    &&& given.decode_options.include_stop_str_in_output == asked.include_stop_str_in_output
    &&& given.cache_salt.deep_view() == asked.cache_salt.deep_view()
    &&& given.data_parallel_rank == ctx.data_parallel_rank
    &&& ctx.priority matches Some(priority) ==> given.priority == priority
    &&& ctx.priority is None ==> given.priority == asked.priority.unwrap_or(0)
}

/// Whether a response in progress echoes the options of a request.
pub open spec fn echoes_as_asked(
    echo: ResponseObject,
    asked: ResponsesRequest,
    created_at: u64,
) -> bool {
    &&& echo.created_at == created_at
    &&& echo.status is InProgress
    &&& echo.error is None
    &&& echo.usage is None
    &&& !echo.store
    &&& echo.max_output_tokens == asked.max_output_tokens
    &&& echo.temperature == asked.temperature
    &&& echo.top_p == asked.top_p
    &&& echo.instructions.deep_view() == asked.instructions.deep_view()
    &&& echo.user.deep_view() == asked.user.deep_view()
}

/// The first error among the engine's answers.
pub open spec fn resolution_error(resolved: ResolvedInputs) -> Option<ApiErrorView> {
    match resolved.tool_context {
        Err(error) => Some(error.deep_view()),
        Ok(_) => match resolved.structured_outputs {
            Err(error) => Some(error.deep_view()),
            Ok(_) => match resolved.logit_bias {
                Err(error) => Some(error.deep_view()),
                Ok(_) => None,
            },
        },
    }
}

/// Put a lowered request and the engine's answers together.
///
/// `lora_resolution.model_names` should be non-empty; the first entry is used as
/// the base `model` field in responses when no LoRA adapter is selected.
pub fn prepare_responses_request(
    lowered: LoweredRequest,
    lora_resolution: &LoraModelResolution,
    ctx: ResolvedRequestContext,
    created_at: u64,
    resolved: ResolvedInputs,
) -> (outcome: Result<PreparedRequest, ApiError>)
    ensures
        match outcome {
            Err(error) => resolution_error(resolved) == Some(error.deep_view()),
            Ok(prepared) => {
                &&& resolution_error(resolved) is None
                &&& prepared.deep_view() == PreparedRequestView {
                    chat_request: chat_request_of(
                        lowered.deep_view(),
                        lora_resolution.deep_view(),
                        ctx.deep_view(),
                        resolved.tool_context->Ok_0.deep_view(),
                        json_option(resolved.structured_outputs->Ok_0),
                        resolved.logit_bias->Ok_0.deep_view(),
                        resolved.session_id.deep_view(),
                    ),
                    response: response_of(
                        lowered.deep_view(),
                        lora_resolution.deep_view(),
                        ctx.deep_view(),
                        created_at,
                    ),
                    custom_tools: lowered.deep_view().custom_tools,
                }
            },
        },
        outcome matches Ok(prepared) ==> prepared.chat_request.lora_request.deep_view()
            == lora_resolution.lora_request.deep_view(),
        outcome matches Ok(prepared) ==> match lora_resolution.lora_request {
            Some(adapter) => prepared.chat_request.lora_request matches Some(used)
                && used.lora_name@ == adapter.lora_name@ && prepared.response.model@
                == adapter.lora_name@,
            None => prepared.chat_request.lora_request is None,
        },
        outcome matches Ok(prepared) ==> samples_as_asked(
            prepared.chat_request.sampling_params,
            lowered.request,
        ),
        outcome matches Ok(prepared) ==> decodes_as_asked(
            prepared.chat_request,
            lowered.request,
            ctx,
        ),
        outcome matches Ok(prepared) ==> echoes_as_asked(
            prepared.response,
            lowered.request,
            created_at,
        ),
        outcome matches Ok(prepared) ==> prepared.chat_request.intermediate
            == lowered.request.stream && prepared.custom_tools@ == lowered.custom_tools@
            && prepared.chat_request.messages.deep_view() == lowered.messages.deep_view(),
{
    let tool_context = match resolved.tool_context {
        Ok(tool_context) => tool_context,
        Err(error) => return Err(error),
    };
    let structured_outputs = match resolved.structured_outputs {
        Ok(structured_outputs) => structured_outputs,
        Err(error) => return Err(error),
    };
    let logit_bias = match resolved.logit_bias {
        Ok(logit_bias) => logit_bias,
        Err(error) => return Err(error),
    };
    let mut request_id = "resp_".to_string();
    request_id.append(ctx.request_id.as_str());
    let request = lowered.request;
    let effort = match request.reasoning {
        Some(reasoning) => reasoning.effort,
        None => None,
    };
    let reasoning_effort = match &effort {
        Some(effort) => Some(effort.as_str().to_string()),
        None => None,
    };
    let response_format = match &lowered.response_format {
        Some(format) => Some(response_format_value(format)),
        None => None,
    };
    let template_kwargs = match request.chat_template_kwargs {
        Some(kwargs) => kwargs,
        None => map_new(),
    };
    let stop_strings = match request.stop {
        Some(stop) => Some(stop.into_vec()),
        None => None,
    };
    let priority: i32 = match ctx.priority {
        Some(priority) => priority,
        None => match request.priority {
            Some(priority) => priority,
            None => 0,
        },
    };
    let vllm_xargs = merge_params(
        merge_params(request.vllm_xargs, "ec_transfer_params", request.ec_transfer_params),
        "kv_transfer_params",
        request.kv_transfer_params,
    );
    let chat_request = ChatRequest {
        request_id: request_id.clone(),
        messages: lowered.messages,
        sampling_params: SamplingParams {
            temperature: request.temperature,
            top_p: request.top_p,
            top_k: request.top_k,
            seed: request.seed,
            max_tokens: request.max_output_tokens,
            frequency_penalty: request.frequency_penalty,
            presence_penalty: request.presence_penalty,
            repetition_penalty: request.repetition_penalty,
            ignore_eos: request.ignore_eos,
            watermarking: request.watermarking,
            logit_bias,
            structured_outputs,
            vllm_xargs,
        },
        chat_options: ChatOptions {
            generation_prompt_mode: GenerationPromptMode::StartNewAssistant,
            chat_template: None,
            reasoning_effort,
            response_format,
            template_kwargs,
        },
        tool_context,
        decode_options: TextDecodeOptions {
            skip_special_tokens: request.skip_special_tokens,
            include_stop_str_in_output: request.include_stop_str_in_output,
            stop_strings,
            min_tokens: 0,
        },
        intermediate: request.stream,
        prompt_truncation: None,
        priority,
        documents: None,
        cache_salt: request.cache_salt,
        add_special_tokens: false,
        data_parallel_rank: ctx.data_parallel_rank,
        session_id: resolved.session_id,
        lora_request: lora_resolution.lora_request.clone(),
    };
    let response = ResponseObject {
        id: request_id,
        object: "response",
        created_at,
        status: ResponseStatus::InProgress,
        error: None,
        incomplete_details: None,
        instructions: request.instructions,
        max_output_tokens: request.max_output_tokens,
        model: response_model(lora_resolution),
        output: Vec::new(),
        parallel_tool_calls: lowered.parallel_tool_calls,
        previous_response_id: None,
        reasoning: ReasoningEcho { effort, summary: None },
        store: false,
        temperature: request.temperature,
        text: TextEcho { format: lowered.text_format },
        tool_choice: match request.tool_choice {
            Some(choice) => choice,
            None => ResponseToolChoice::Mode(ToolChoiceMode::Auto),
        },
        tools: lowered.tools,
        top_p: request.top_p,
        truncation: "disabled",
        usage: None,
        user: request.user,
        metadata: match request.metadata {
            Some(metadata) => metadata,
            None => json_object(map_new()),
        },
    };
    assert(chat_request.deep_view() == chat_request_of(
        lowered.deep_view(),
        lora_resolution.deep_view(),
        ctx.deep_view(),
        tool_context.deep_view(),
        json_option(structured_outputs),
        logit_bias.deep_view(),
        resolved.session_id.deep_view(),
    ));
    assert(response.deep_view() == response_of(
        lowered.deep_view(),
        lora_resolution.deep_view(),
        ctx.deep_view(),
        created_at,
    ));
    Ok(PreparedRequest { chat_request, response, custom_tools: lowered.custom_tools })
}

/// Both delivery modes announce the response under the ID of the chat request.
pub proof fn response_shares_request_id(
    lowered: LoweredRequestView,
    lora: LoraModelResolutionView,
    ctx: ResolvedRequestContextView,
    created_at: u64,
    tool_context: ResolvedToolContextView,
    structured_outputs: Option<Json>,
    logit_bias: Option<Seq<(u32, FloatBits)>>,
    session_id: Option<Seq<char>>,
)
    ensures
        response_of(lowered, lora, ctx, created_at).id == chat_request_of(
            lowered,
            lora,
            ctx,
            tool_context,
            structured_outputs,
            logit_bias,
            session_id,
        ).request_id,
{
}

} // verus!
