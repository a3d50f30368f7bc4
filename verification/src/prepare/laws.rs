//! What holds of lowered and prepared requests.

use vstd::prelude::*;

use super::{
    chat_request_of, lowered_of, merged_params, resolution_error, response_of, LoweredRequestView,
    ResolvedInputs,
};
use crate::chat::{LoraModelResolutionView, ResolvedRequestContextView, ResolvedToolContextView};
use crate::convert::laws::{can_lower, history_is_accepted};
use crate::convert::{
    chat_choice_of, chat_tools_of, custom_names, messages_of, rejection, response_format_json,
    response_format_of, supported_tools,
};
use crate::error::ApiErrorView;
use crate::json::{inserted_is_found, member, Json};
use crate::types::{
    FloatBits, ResponseToolChoiceView, ResponsesRequestView, StringOrArrayView, ToolChoiceMode,
};

verus! {

/// Whether every option of `first` is that of `second`: all but the history, the
/// tools and the text format.
pub open spec fn has_options_of(
    first: ResponsesRequestView,
    second: ResponsesRequestView,
) -> bool {
    &&& first.model == second.model
    &&& first.instructions == second.instructions
    &&& first.stream == second.stream
    &&& first.temperature == second.temperature
    &&& first.top_p == second.top_p
    &&& first.max_output_tokens == second.max_output_tokens
    &&& first.top_logprobs == second.top_logprobs
    &&& first.tool_choice == second.tool_choice
    &&& first.parallel_tool_calls == second.parallel_tool_calls
    &&& first.reasoning == second.reasoning
    &&& first.metadata == second.metadata
    &&& first.user == second.user
    &&& first.previous_response_id == second.previous_response_id
    &&& first.conversation == second.conversation
    &&& first.background == second.background
    &&& first.frequency_penalty == second.frequency_penalty
    &&& first.presence_penalty == second.presence_penalty
    &&& first.repetition_penalty == second.repetition_penalty
    &&& first.top_k == second.top_k
    &&& first.seed == second.seed
    &&& first.logit_bias == second.logit_bias
    &&& first.stop == second.stop
    &&& first.ignore_eos == second.ignore_eos
    &&& first.skip_special_tokens == second.skip_special_tokens
    &&& first.include_stop_str_in_output == second.include_stop_str_in_output
    &&& first.watermarking == second.watermarking
    &&& first.structured_outputs == second.structured_outputs
    &&& first.request_id == second.request_id
    &&& first.session_id == second.session_id
    &&& first.priority == second.priority
    &&& first.cache_salt == second.cache_salt
    &&& first.chat_template_kwargs == second.chat_template_kwargs
    &&& first.vllm_xargs == second.vllm_xargs
    &&& first.kv_transfer_params == second.kv_transfer_params
    &&& first.ec_transfer_params == second.ec_transfer_params
}

/// Lowering keeps every option of the request, and converts the history, the
/// tools, the tool choice and the text format that the request holds. Calls may
/// run in parallel unless the request says otherwise.
pub proof fn lowering_keeps_the_request(request: ResponsesRequestView, served: Seq<Seq<char>>)
    ensures
        lowered_of(request, served) matches Ok(lowered) ==> {
            &&& has_options_of(lowered.request, request)
            &&& messages_of(request.instructions, request.input.0) == Ok::<_, ApiErrorView>(
                lowered.messages,
            )
            &&& lowered.messages.len() > 0
            &&& request.tools matches Some(tools) ==> lowered.tools == supported_tools(tools)
            &&& request.tools is None ==> lowered.tools.len() == 0
            &&& lowered.custom_tools == custom_names(lowered.tools).to_set()
            &&& lowered.chat_tools == chat_tools_of(lowered.tools)
            &&& request.tool_choice matches Some(choice) ==> lowered.tool_choice
                == chat_choice_of(choice)
            &&& request.tool_choice is None ==> lowered.tool_choice is None
            &&& request.parallel_tool_calls matches Some(flag) ==> lowered.parallel_tool_calls
                == flag
            &&& request.parallel_tool_calls is None ==> lowered.parallel_tool_calls
            &&& (request.text matches Some(text) && text.format is Some) ==> lowered.text_format
                == request.text->0.format->0
            &&& !(request.text matches Some(text) && text.format is Some)
                ==> lowered.text_format is Text
            &&& lowered.response_format == response_format_of(lowered.text_format)
        },
{
    reveal(Seq::filter);
}

/// A request is lowered unless it is rejected for an option, holds an image that
/// cannot be shown, or leaves nothing to answer: neither instructions nor
/// history. An error after the options is about the `input`.
pub proof fn lowering_fails_only_for_a_reason(
    request: ResponsesRequestView,
    served: Seq<Seq<char>>,
)
    ensures
        lowered_of(request, served) is Ok <==> {
            &&& rejection(request, served) is None
            &&& forall|i: int|
                0 <= i < request.input.0.len() ==> can_lower(#[trigger] request.input.0[i])
            &&& messages_of(request.instructions, request.input.0)->Ok_0.len() > 0
        },
        rejection(request, served) matches Some(error) ==> lowered_of(request, served) == Err::<
            LoweredRequestView,
            _,
        >(error),
        rejection(request, served) is None ==> (lowered_of(request, served) matches Err(error)
            ==> error matches ApiErrorView::InvalidRequest { param, .. } && param == Some(
            "input"@,
        )),
{
    history_is_accepted(request.instructions, request.input.0);
}

/// Stop strings: one alone, or all that are listed.
pub open spec fn is_stop_list(stop: StringOrArrayView, strings: Seq<Seq<char>>) -> bool {
    match stop {
        StringOrArrayView::String(text) => strings == seq![text],
        StringOrArrayView::Array(texts) => strings == texts,
    }
}

/// Every sampling option of a request reaches the engine under its own name.
pub proof fn sampling_options_reach_the_engine(
    lowered: LoweredRequestView,
    lora: LoraModelResolutionView,
    ctx: ResolvedRequestContextView,
    tool_context: ResolvedToolContextView,
    structured_outputs: Option<Json>,
    logit_bias: Option<Seq<(u32, FloatBits)>>,
    session_id: Option<Seq<char>>,
)
    ensures
        ({
            let asked = lowered.request;
            let given = chat_request_of(
                lowered,
                lora,
                ctx,
                tool_context,
                structured_outputs,
                logit_bias,
                session_id,
            ).sampling_params;
            &&& given.temperature == asked.temperature
            &&& given.top_p == asked.top_p
            &&& given.top_k == asked.top_k
            &&& given.seed == asked.seed
            &&& given.max_tokens == asked.max_output_tokens
            &&& given.frequency_penalty == asked.frequency_penalty
            &&& given.presence_penalty == asked.presence_penalty
            &&& given.repetition_penalty == asked.repetition_penalty
            &&& given.ignore_eos == asked.ignore_eos
            &&& given.watermarking == asked.watermarking
            &&& given.logit_bias == logit_bias
            &&& given.structured_outputs == structured_outputs
        }),
{
}

/// Every other option of a request reaches the engine, as do the conversation
/// and what the engine resolved. A priority given with the call comes before
/// the one in the request.
pub proof fn chat_options_reach_the_engine(
    lowered: LoweredRequestView,
    lora: LoraModelResolutionView,
    ctx: ResolvedRequestContextView,
    tool_context: ResolvedToolContextView,
    structured_outputs: Option<Json>,
    logit_bias: Option<Seq<(u32, FloatBits)>>,
    session_id: Option<Seq<char>>,
)
    ensures
        ({
            let asked = lowered.request;
            let given = chat_request_of(
                lowered,
                lora,
                ctx,
                tool_context,
                structured_outputs,
                logit_bias,
                session_id,
            );
            &&& given.request_id == "resp_"@ + ctx.request_id
            &&& given.messages == lowered.messages
            &&& given.tool_context == tool_context
            &&& given.intermediate == asked.stream
            &&& given.cache_salt == asked.cache_salt
            &&& given.data_parallel_rank == ctx.data_parallel_rank
            &&& given.session_id == session_id
            &&& ctx.priority matches Some(priority) ==> given.priority == priority
            &&& ctx.priority is None ==> (asked.priority matches Some(priority) ==> given.priority
                == priority)
            &&& ctx.priority is None && asked.priority is None ==> given.priority == 0
            &&& given.prompt_truncation is None
            &&& given.documents is None
            &&& !given.add_special_tokens
            &&& given.chat_options.generation_prompt_mode is StartNewAssistant
            &&& given.chat_options.chat_template is None
            &&& (asked.reasoning matches Some(reasoning) && reasoning.effort is Some)
                ==> given.chat_options.reasoning_effort == Some(
                asked.reasoning->0.effort->0.spelling,
            )
            &&& !(asked.reasoning matches Some(reasoning) && reasoning.effort is Some)
                ==> given.chat_options.reasoning_effort is None
            &&& lowered.response_format matches Some(format) ==> given.chat_options.response_format
                == Some(response_format_json(format))
            &&& lowered.response_format is None ==> given.chat_options.response_format is None
            &&& asked.chat_template_kwargs matches Some(kwargs)
                ==> given.chat_options.template_kwargs == kwargs
            &&& asked.chat_template_kwargs is None ==> given.chat_options.template_kwargs.len() == 0
            &&& given.decode_options.skip_special_tokens == asked.skip_special_tokens
            &&& given.decode_options.include_stop_str_in_output == asked.include_stop_str_in_output
            &&& given.decode_options.min_tokens == 0
            &&& asked.stop matches Some(stop) ==> given.decode_options.stop_strings matches Some(
                strings,
            ) && is_stop_list(stop, strings)
            &&& asked.stop is None ==> given.decode_options.stop_strings is None
        }),
{
}

/// The adapter that was resolved is the one that the chat request asks for. The
/// response names the same adapter as its model, and the first served model
/// where there is none.
pub proof fn resolved_adapter_is_used(
    lowered: LoweredRequestView,
    lora: LoraModelResolutionView,
    ctx: ResolvedRequestContextView,
    created_at: u64,
    tool_context: ResolvedToolContextView,
    structured_outputs: Option<Json>,
    logit_bias: Option<Seq<(u32, FloatBits)>>,
    session_id: Option<Seq<char>>,
)
    ensures
        ({
            let chat = chat_request_of(
                lowered,
                lora,
                ctx,
                tool_context,
                structured_outputs,
                logit_bias,
                session_id,
            );
            let response = response_of(lowered, lora, ctx, created_at);
            &&& chat.lora_request == lora.lora_request
            &&& chat.lora_request matches Some(adapter) ==> response.model == adapter.lora_name
            &&& chat.lora_request is None && lora.model_names.len() > 0 ==> response.model
                == lora.model_names[0]
            &&& chat.lora_request is None && lora.model_names.len() == 0 ==> response.model.len()
                == 0
        }),
{
}

/// Engine parameters are stored under their name: the member of that name is
/// what is given, every other member stays, and where nothing is given nothing
/// changes.
pub proof fn params_are_stored_under_their_name(
    xargs: Option<Seq<(Seq<char>, Json)>>,
    name: Seq<char>,
    params: Option<Seq<(Seq<char>, Json)>>,
    other: Seq<char>,
)
    ensures
        params is None ==> merged_params(xargs, name, params) == xargs,
        params matches Some(given) ==> merged_params(xargs, name, params) matches Some(merged) && {
            &&& member(Json::Object(merged), name) == Some(Json::Object(given))
            &&& other != name ==> member(Json::Object(merged), other) == (match xargs {
                Some(before) => member(Json::Object(before), other),
                None => None,
            })
        },
{
    if let Some(given) = params {
        let before = match xargs {
            Some(before) => before,
            None => Seq::empty(),
        };
        inserted_is_found(before, name, Json::Object(given), other);
    }
}

/// What a parameter of the engine is, where there are any.
pub open spec fn engine_param(xargs: Option<Seq<(Seq<char>, Json)>>, name: Seq<char>) -> Option<
    Json,
> {
    match xargs {
        Some(entries) => member(Json::Object(entries), name),
        None => None,
    }
}

/// The transfer parameters of a request reach the engine, each under its name,
/// beside every other engine parameter of the request.
pub proof fn transfer_params_reach_the_engine(
    lowered: LoweredRequestView,
    lora: LoraModelResolutionView,
    ctx: ResolvedRequestContextView,
    tool_context: ResolvedToolContextView,
    structured_outputs: Option<Json>,
    logit_bias: Option<Seq<(u32, FloatBits)>>,
    session_id: Option<Seq<char>>,
    other: Seq<char>,
)
    ensures
        ({
            let asked = lowered.request;
            let given = chat_request_of(
                lowered,
                lora,
                ctx,
                tool_context,
                structured_outputs,
                logit_bias,
                session_id,
            ).sampling_params.vllm_xargs;
            &&& asked.kv_transfer_params matches Some(params) ==> engine_param(
                given,
                "kv_transfer_params"@,
            ) == Some(Json::Object(params))
            &&& asked.ec_transfer_params matches Some(params) ==> engine_param(
                given,
                "ec_transfer_params"@,
            ) == Some(Json::Object(params))
            &&& (other != "kv_transfer_params"@ || asked.kv_transfer_params is None) && (other
                != "ec_transfer_params"@ || asked.ec_transfer_params is None) ==> engine_param(
                given,
                other,
            ) == engine_param(asked.vllm_xargs, other)
        }),
{
    let asked = lowered.request;
    let (ec, kv) = ("ec_transfer_params"@, "kv_transfer_params"@);
    reveal_strlit("ec_transfer_params");
    reveal_strlit("kv_transfer_params");
    assert(ec[0] == 'e' && kv[0] == 'k');
    let middle = merged_params(asked.vllm_xargs, ec, asked.ec_transfer_params);
    params_are_stored_under_their_name(asked.vllm_xargs, ec, asked.ec_transfer_params, other);
    params_are_stored_under_their_name(asked.vllm_xargs, ec, asked.ec_transfer_params, kv);
    params_are_stored_under_their_name(middle, kv, asked.kv_transfer_params, other);
    params_are_stored_under_their_name(middle, kv, asked.kv_transfer_params, ec);
}

/// The response that is announced echoes the request, and is in progress: it has
/// no output, no usage and no error yet. Nothing is stored and nothing is
/// truncated.
pub proof fn response_echoes_the_request(
    lowered: LoweredRequestView,
    lora: LoraModelResolutionView,
    ctx: ResolvedRequestContextView,
    created_at: u64,
)
    ensures
        ({
            let asked = lowered.request;
            let echo = response_of(lowered, lora, ctx, created_at);
            &&& echo.id == "resp_"@ + ctx.request_id
            &&& echo.object == "response"@
            &&& echo.created_at == created_at
            &&& echo.status is InProgress
            &&& echo.error is None
            &&& echo.incomplete_details is None
            &&& echo.output.len() == 0
            &&& echo.usage is None
            &&& echo.instructions == asked.instructions
            &&& echo.max_output_tokens == asked.max_output_tokens
            &&& echo.parallel_tool_calls == lowered.parallel_tool_calls
            &&& echo.previous_response_id is None
            &&& echo.reasoning.summary is None
            &&& asked.reasoning matches Some(reasoning) ==> echo.reasoning.effort
                == reasoning.effort
            &&& asked.reasoning is None ==> echo.reasoning.effort is None
            &&& !echo.store
            &&& echo.temperature == asked.temperature
            &&& echo.top_p == asked.top_p
            &&& echo.text.format == lowered.text_format
            &&& asked.tool_choice matches Some(choice) ==> echo.tool_choice == choice
            &&& asked.tool_choice is None ==> echo.tool_choice == ResponseToolChoiceView::Mode(
                ToolChoiceMode::Auto,
            )
            &&& echo.tools == lowered.tools
            &&& echo.truncation == "disabled"@
            &&& echo.user == asked.user
            &&& asked.metadata matches Some(metadata) ==> echo.metadata == metadata
            &&& asked.metadata is None ==> echo.metadata == Json::Object(Seq::empty())
        }),
{
}

/// A request is prepared unless the engine could not resolve it. The tools are
/// looked at first, then the constraint, and then the biases.
pub proof fn first_unresolved_input_decides(resolved: ResolvedInputs)
    ensures
        resolution_error(resolved) is None <==> resolved.tool_context is Ok
            && resolved.structured_outputs is Ok && resolved.logit_bias is Ok,
        resolved.tool_context matches Err(error) ==> resolution_error(resolved) == Some(
            error.deep_view(),
        ),
        resolved.tool_context is Ok ==> (resolved.structured_outputs matches Err(error)
            ==> resolution_error(resolved) == Some(error.deep_view())),
        resolved.tool_context is Ok && resolved.structured_outputs is Ok ==> (
        resolved.logit_bias matches Err(error) ==> resolution_error(resolved) == Some(
            error.deep_view(),
        )),
{
}

} // verus!
