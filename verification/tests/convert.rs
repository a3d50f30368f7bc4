use serde_json::{Map as JsonMap, Value};
use vllm_responses::chat::{
    AssistantContentBlock, AssistantToolCall, ChatContent, ChatContentPart, ChatMessage,
    ChatToolChoice, ImageDetail, LoraModelResolution, LoraRequest, ResolvedRequestContext,
    ResolvedToolContext, ResponseFormat,
};
use vllm_responses::error::ApiError;
use vllm_responses::input::tag_item;
use vllm_responses::prepare::{
    constraint_source, lower_responses_request, prepare_responses_request, ConstraintSource,
    LoweredRequest, PreparedRequest, ResolvedInputs,
};
use vllm_responses::types::{
    CustomTool, CustomToolFormat, FloatBits, FunctionTool, InputContentPart, InputCustomToolCall,
    InputFunctionCall, InputImageDetail, InputItem, InputMessage, InputReasoning, InputRole,
    InputToolOutput, NamedToolChoice, ReasoningEffort, ReasoningParam, ReasoningTextPart,
    ResponseInput, ResponseStatus, ResponseTool, ResponseToolChoice, ResponsesRequest,
    StringOrArray, TextFormat, TextOrList, TextParam, ToolChoiceMode,
};

fn float(value: f32) -> FloatBits {
    FloatBits { bits: value.to_bits() }
}

fn value(text: &str) -> Value {
    serde_json::from_str(text).unwrap()
}

fn object(text: &str) -> JsonMap<String, Value> {
    serde_json::from_str(text).unwrap()
}

/// A request with nothing set.
fn request() -> ResponsesRequest {
    ResponsesRequest {
        model: None,
        input: ResponseInput::default(),
        instructions: None,
        stream: false,
        temperature: None,
        top_p: None,
        max_output_tokens: None,
        top_logprobs: None,
        tools: None,
        tool_choice: None,
        parallel_tool_calls: None,
        reasoning: None,
        text: None,
        metadata: None,
        user: None,
        previous_response_id: None,
        conversation: None,
        background: None,
        frequency_penalty: None,
        presence_penalty: None,
        repetition_penalty: None,
        top_k: None,
        seed: None,
        logit_bias: None,
        stop: None,
        ignore_eos: false,
        skip_special_tokens: true,
        include_stop_str_in_output: false,
        watermarking: true,
        structured_outputs: None,
        request_id: None,
        session_id: None,
        priority: None,
        cache_salt: None,
        chat_template_kwargs: None,
        vllm_xargs: None,
        kv_transfer_params: None,
        ec_transfer_params: None,
    }
}

fn text_request(text: &str) -> ResponsesRequest {
    ResponsesRequest { input: ResponseInput::from_text(text), ..request() }
}

fn lower(request: ResponsesRequest) -> Result<LoweredRequest, ApiError> {
    lower_responses_request(request, &vec!["test-model".to_string()])
}

/// Resolve a request as an engine that takes the lowered tools as they are.
fn resolved(lowered: &mut LoweredRequest) -> ResolvedInputs {
    ResolvedInputs {
        tool_context: Ok(ResolvedToolContext {
            effective_tools: std::mem::take(&mut lowered.chat_tools),
            tool_choice: lowered.tool_choice.take().unwrap_or(ChatToolChoice::Auto),
            parallel_tool_calls: lowered.parallel_tool_calls,
        }),
        structured_outputs: Ok(match constraint_source(lowered) {
            ConstraintSource::Explicit(value) => Some(value.clone()),
            ConstraintSource::Format(_) => Some(Value::from("constraint")),
            ConstraintSource::Unconstrained => None,
        }),
        logit_bias: Ok(None),
        session_id: lowered.request.session_id.take(),
    }
}

fn context() -> ResolvedRequestContext {
    ResolvedRequestContext {
        request_id: "test".to_string(),
        priority: None,
        data_parallel_rank: None,
    }
}

fn models() -> LoraModelResolution {
    LoraModelResolution { model_names: vec!["test-model".to_string()], lora_request: None }
}

fn prepare(request: ResponsesRequest) -> Result<PreparedRequest, ApiError> {
    let mut lowered = lower(request)?;
    let resolved = resolved(&mut lowered);
    prepare_responses_request(lowered, &models(), context(), 1, resolved)
}

fn error_message(request: ResponsesRequest) -> String {
    match prepare(request) {
        Err(ApiError::InvalidRequest { message, .. }) => message,
        other => panic!("request should be rejected: {other:?}"),
    }
}

fn message(role: InputRole, content: TextOrList<InputContentPart>) -> InputItem {
    InputItem::Message(InputMessage { role, content })
}

fn text(text: &str) -> TextOrList<InputContentPart> {
    TextOrList::Text(text.to_string())
}

#[test]
fn string_input_becomes_user_message_after_instructions() {
    let prepared = prepare(ResponsesRequest {
        model: Some("test-model".to_string()),
        instructions: Some("Be brief.".to_string()),
        ..text_request("Hi")
    })
    .unwrap();

    assert_eq!(prepared.chat_request.request_id, "resp_test");
    assert_eq!(
        prepared.chat_request.messages,
        vec![
            ChatMessage::System { content: ChatContent::Text("Be brief.".to_string()) },
            ChatMessage::User { content: ChatContent::Text("Hi".to_string()) },
        ]
    );
}

#[test]
fn instructions_alone_are_a_valid_request() {
    let prepared =
        prepare(ResponsesRequest { instructions: Some("Say hi.".to_string()), ..request() })
            .unwrap();
    assert_eq!(prepared.chat_request.messages.len(), 1);
}

#[test]
fn replayed_agent_history_merges_assistant_side_items() {
    let input = vec![
        message(
            InputRole::Developer,
            TextOrList::List(vec![InputContentPart::InputText {
                text: "Sandbox: read-only.".to_string(),
            }]),
        ),
        message(InputRole::User, text("Fix the bug.")),
        InputItem::Reasoning(InputReasoning {
            content: Some(vec![ReasoningTextPart { text: "Read the file first.".to_string() }]),
        }),
        InputItem::FunctionCall(InputFunctionCall {
            call_id: "call_1".to_string(),
            name: "shell".to_string(),
            arguments: "{\"command\":\"cat a.py\"}".to_string(),
        }),
        InputItem::FunctionCallOutput(InputToolOutput {
            call_id: "call_1".to_string(),
            output: text("print(1)"),
        }),
        InputItem::Reasoning(InputReasoning { content: None }),
        InputItem::CustomToolCall(InputCustomToolCall {
            call_id: "call_2".to_string(),
            name: "apply_patch".to_string(),
            input: "*** Begin Patch\n*** End Patch".to_string(),
        }),
        InputItem::CustomToolCallOutput(InputToolOutput {
            call_id: "call_2".to_string(),
            output: TextOrList::List(vec![
                InputContentPart::InputText { text: "Done.".to_string() },
                InputContentPart::InputImage {
                    image_url: Some("data:image/png;base64,AAAA".to_string()),
                    file_id: None,
                    detail: Some(InputImageDetail::Original),
                },
            ]),
        }),
        InputItem::Unsupported,
        message(
            InputRole::Assistant,
            TextOrList::List(vec![InputContentPart::OutputText { text: "Fixed.".to_string() }]),
        ),
        message(InputRole::User, text("Thanks.")),
    ];
    let prepared = prepare(ResponsesRequest { input: ResponseInput(input), ..request() }).unwrap();

    let call = |id: &str, name: &str, arguments: &str| {
        AssistantContentBlock::ToolCall(AssistantToolCall {
            id: id.to_string(),
            name: name.to_string(),
            arguments: arguments.to_string(),
        })
    };
    assert_eq!(
        prepared.chat_request.messages,
        vec![
            ChatMessage::Developer {
                content: ChatContent::Parts(vec![ChatContentPart::Text {
                    text: "Sandbox: read-only.".to_string(),
                }]),
                tools: None,
            },
            ChatMessage::User { content: ChatContent::Text("Fix the bug.".to_string()) },
            ChatMessage::Assistant {
                content: vec![
                    AssistantContentBlock::Reasoning { text: "Read the file first.".to_string() },
                    call("call_1", "shell", "{\"command\":\"cat a.py\"}"),
                ],
            },
            ChatMessage::ToolResponse {
                content: ChatContent::Text("print(1)".to_string()),
                tool_call_id: "call_1".to_string(),
            },
            ChatMessage::Assistant {
                content: vec![call(
                    "call_2",
                    "apply_patch",
                    "{\"input\":\"*** Begin Patch\\n*** End Patch\"}",
                )],
            },
            ChatMessage::ToolResponse {
                content: ChatContent::Parts(vec![
                    ChatContentPart::Text { text: "Done.".to_string() },
                    ChatContentPart::ImageUrl {
                        image_url: "data:image/png;base64,AAAA".to_string(),
                        detail: Some(ImageDetail::High),
                        uuid: None,
                    },
                ]),
                tool_call_id: "call_2".to_string(),
            },
            ChatMessage::Assistant {
                content: vec![AssistantContentBlock::Text { text: "Fixed.".to_string() }],
            },
            ChatMessage::User { content: ChatContent::Text("Thanks.".to_string()) },
        ]
    );
}

#[test]
fn custom_tools_are_offered_as_single_string_function_shims() {
    let prepared = prepare(ResponsesRequest {
        tools: Some(vec![
            ResponseTool::Function(FunctionTool {
                name: "shell".to_string(),
                description: Some("Run a command.".to_string()),
                parameters: Some(value(
                    r#"{"type": "object", "properties": {"command": {"type": "string"}}}"#,
                )),
                strict: Some(false),
            }),
            ResponseTool::Custom(CustomTool {
                name: "apply_patch".to_string(),
                description: Some("Edit files.".to_string()),
                format: Some(CustomToolFormat::Grammar {
                    syntax: "lark".to_string(),
                    definition: "start: \"patch\"".to_string(),
                }),
            }),
            ResponseTool::Unsupported,
        ]),
        tool_choice: Some(ResponseToolChoice::Named(NamedToolChoice::Custom {
            name: "apply_patch".to_string(),
        })),
        parallel_tool_calls: Some(false),
        ..text_request("Edit the file.")
    })
    .unwrap();

    assert!(prepared.custom_tools.contains("apply_patch"));
    assert!(!prepared.custom_tools.contains("shell"));
    let context = &prepared.chat_request.tool_context;
    assert_eq!(
        context.tool_choice,
        ChatToolChoice::Function { name: "apply_patch".to_string() }
    );
    assert!(!context.parallel_tool_calls);
    let [shell, apply_patch] = context.effective_tools.as_slice() else {
        panic!("expected two tools: {:?}", context.effective_tools);
    };
    assert_eq!(shell.strict, Some(false));
    assert_eq!(apply_patch.name, "apply_patch");
    assert_eq!(apply_patch.description, Some("Edit files.".to_string()));
    assert_eq!(
        apply_patch.parameters,
        value(
            r#"{
                "type": "object",
                "properties": {
                    "input": {
                        "type": "string",
                        "description": "The raw text input of this tool, passed through verbatim. It must conform to the following lark grammar:\nstart: \"patch\""
                    }
                },
                "required": ["input"]
            }"#
        )
    );
    assert_eq!(apply_patch.strict, None);
    // Ignored built-in tools are not echoed back.
    assert_eq!(prepared.response.tools.len(), 2);
}

#[test]
fn auto_tool_choice_without_supported_tools_offers_none() {
    let lowered = lower(ResponsesRequest {
        tools: Some(vec![ResponseTool::Unsupported]),
        tool_choice: Some(ResponseToolChoice::Mode(ToolChoiceMode::Auto)),
        ..text_request("Hi")
    })
    .unwrap();
    assert!(lowered.chat_tools.is_empty());
    assert_eq!(lowered.tool_choice, None);
    assert!(lowered.parallel_tool_calls);
}

#[test]
fn tool_choices_are_lowered() {
    let choice = |choice| {
        lower(ResponsesRequest { tool_choice: Some(choice), ..text_request("Hi") })
            .unwrap()
            .tool_choice
    };
    assert_eq!(
        choice(ResponseToolChoice::Mode(ToolChoiceMode::NoTools)),
        Some(ChatToolChoice::NoTools)
    );
    assert_eq!(
        choice(ResponseToolChoice::Mode(ToolChoiceMode::Required)),
        Some(ChatToolChoice::Required)
    );
    assert_eq!(
        choice(ResponseToolChoice::Named(NamedToolChoice::Function { name: "f".to_string() })),
        Some(ChatToolChoice::Function { name: "f".to_string() })
    );
}

#[test]
fn functions_without_parameters_take_no_arguments() {
    let lowered = lower(ResponsesRequest {
        tools: Some(vec![ResponseTool::Function(FunctionTool {
            name: "now".to_string(),
            description: None,
            parameters: None,
            strict: None,
        })]),
        ..text_request("Hi")
    })
    .unwrap();
    assert_eq!(
        lowered.chat_tools[0].parameters,
        value(r#"{"type": "object", "properties": {}}"#)
    );
}

#[test]
fn sampling_reasoning_and_text_format_are_lowered() {
    let prepared = prepare(ResponsesRequest {
        temperature: Some(float(0.5)),
        top_p: Some(float(0.9)),
        max_output_tokens: Some(64),
        reasoning: Some(ReasoningParam {
            effort: Some(ReasoningEffort { spelling: "max".to_string() }),
        }),
        text: Some(TextParam {
            format: Some(TextFormat::JsonSchema {
                name: "answer".to_string(),
                description: None,
                schema: value(r#"{"type": "object"}"#),
                strict: Some(true),
            }),
        }),
        stream: true,
        ..text_request("Hi")
    })
    .unwrap();
    let request = &prepared.chat_request;

    assert_eq!(request.sampling_params.temperature, Some(float(0.5)));
    assert_eq!(request.sampling_params.top_p, Some(float(0.9)));
    assert_eq!(request.sampling_params.max_tokens, Some(64));
    assert!(request.sampling_params.structured_outputs.is_some());
    assert_eq!(request.chat_options.reasoning_effort, Some("max".into()));
    assert_eq!(
        request.chat_options.response_format,
        Some(value(
            r#"{"type": "json_schema", "json_schema": {
                "name": "answer", "schema": {"type": "object"}, "strict": true
            }}"#
        ))
    );
    assert!(request.intermediate);
    assert_eq!(prepared.response.reasoning.effort.as_ref().unwrap().as_str(), "max");
}

#[test]
fn json_object_format_is_lowered() {
    let prepared = prepare(ResponsesRequest {
        text: Some(TextParam { format: Some(TextFormat::JsonObject) }),
        ..text_request("Hi")
    })
    .unwrap();
    assert_eq!(
        prepared.chat_request.chat_options.response_format,
        Some(value(r#"{"type": "json_object"}"#))
    );
    assert_eq!(prepared.response.text.format, TextFormat::JsonObject);
    let prepared = prepare(text_request("Hi")).unwrap();
    assert_eq!(prepared.chat_request.chat_options.response_format, None);
    assert_eq!(prepared.response.text.format, TextFormat::default());
}

#[test]
fn vllm_sampling_extensions_are_passed_through() {
    let mut lowered = lower(ResponsesRequest {
        top_k: Some(20),
        seed: Some(7),
        repetition_penalty: Some(float(1.1)),
        frequency_penalty: Some(float(0.5)),
        presence_penalty: Some(float(-0.5)),
        logit_bias: Some(vec![("42".to_string(), float(-100.0))]),
        stop: Some(StringOrArray::Array(vec!["END".to_string()])),
        ignore_eos: true,
        skip_special_tokens: false,
        include_stop_str_in_output: true,
        watermarking: false,
        structured_outputs: Some(value(r#"{"regex": "[a-z]+"}"#)),
        text: Some(TextParam { format: Some(TextFormat::JsonObject) }),
        session_id: Some("session-1".to_string()),
        priority: Some(3),
        cache_salt: Some("salt".to_string()),
        chat_template_kwargs: Some(object(r#"{"thinking": false}"#)),
        kv_transfer_params: Some(object(r#"{"do_remote_decode": true}"#)),
        ..text_request("Hi")
    })
    .unwrap();
    let mut answers = resolved(&mut lowered);
    // Explicit structured outputs take precedence over `text.format`.
    answers.structured_outputs = match constraint_source(&lowered) {
        ConstraintSource::Explicit(value) => Ok(Some(value.clone())),
        other => panic!("unexpected constraint: {other:?}"),
    };
    answers.logit_bias = Ok(Some(vec![(42, float(-100.0))]));
    let prepared =
        prepare_responses_request(lowered, &models(), context(), 1, answers).unwrap();
    let request = &prepared.chat_request;
    let sampling = &request.sampling_params;

    assert_eq!(sampling.top_k, Some(20));
    assert_eq!(sampling.seed, Some(7));
    assert_eq!(sampling.repetition_penalty, Some(float(1.1)));
    assert_eq!(sampling.frequency_penalty, Some(float(0.5)));
    assert_eq!(sampling.presence_penalty, Some(float(-0.5)));
    assert_eq!(sampling.logit_bias.as_ref().unwrap()[0], (42, float(-100.0)));
    assert!(sampling.ignore_eos);
    assert!(!sampling.watermarking);
    assert_eq!(sampling.structured_outputs, Some(value(r#"{"regex": "[a-z]+"}"#)));
    assert_eq!(
        sampling.vllm_xargs.as_ref().unwrap()["kv_transfer_params"],
        value(r#"{"do_remote_decode": true}"#)
    );
    assert_eq!(request.decode_options.stop_strings, Some(vec!["END".to_string()]));
    assert!(!request.decode_options.skip_special_tokens);
    assert!(request.decode_options.include_stop_str_in_output);
    assert_eq!(request.session_id.as_deref(), Some("session-1"));
    assert_eq!(request.priority, 3);
    assert_eq!(request.cache_salt.as_deref(), Some("salt"));
    assert_eq!(request.chat_options.template_kwargs["thinking"], Value::Bool(false));
}

#[test]
fn the_constraint_is_chosen_by_precedence() {
    let lowered = |structured_outputs: Option<&str>, format: Option<TextFormat>| {
        lower(ResponsesRequest {
            structured_outputs: structured_outputs.map(value),
            text: Some(TextParam { format }),
            ..text_request("Hi")
        })
        .unwrap()
    };
    let regex = r#"{"regex": "[a-z]+"}"#;
    assert!(matches!(
        constraint_source(&lowered(Some(regex), Some(TextFormat::JsonObject))),
        ConstraintSource::Explicit(explicit) if *explicit == value(regex)
    ));
    assert!(matches!(
        constraint_source(&lowered(None, Some(TextFormat::JsonObject))),
        ConstraintSource::Format(ResponseFormat::JsonObject)
    ));
    assert!(matches!(
        constraint_source(&lowered(None, Some(TextFormat::Text))),
        ConstraintSource::Unconstrained
    ));
    assert!(matches!(
        constraint_source(&lowered(Some(regex), None)),
        ConstraintSource::Explicit(_)
    ));
}

#[test]
fn transfer_params_join_the_engine_parameters() {
    let prepared = prepare(ResponsesRequest {
        vllm_xargs: Some(object(r#"{"a": 1, "kv_transfer_params": null, "b": 2}"#)),
        ec_transfer_params: Some(object(r#"{"e": 1}"#)),
        kv_transfer_params: Some(object(r#"{"k": 2}"#)),
        stop: Some(StringOrArray::String("END".to_string())),
        ..text_request("Hi")
    })
    .unwrap();
    let xargs = prepared.chat_request.sampling_params.vllm_xargs.unwrap();
    assert_eq!(
        Value::Object(xargs).to_string(),
        r#"{"a":1,"kv_transfer_params":{"k":2},"b":2,"ec_transfer_params":{"e":1}}"#
    );
    assert_eq!(
        prepared.chat_request.decode_options.stop_strings,
        Some(vec!["END".to_string()])
    );
}

#[test]
fn stateful_and_unsupported_requests_are_rejected() {
    assert_eq!(
        error_message(ResponsesRequest {
            previous_response_id: Some("resp_1".to_string()),
            ..text_request("Hi")
        }),
        "`previous_response_id` is not supported: responses are not stored. Send the full conversation history in `input` instead."
    );
    assert_eq!(
        error_message(ResponsesRequest {
            conversation: Some(Value::from("conv_1")),
            ..text_request("Hi")
        }),
        "`conversation` is not supported: responses are not stored. Send the full conversation history in `input` instead."
    );
    assert_eq!(
        error_message(ResponsesRequest { background: Some(true), ..text_request("Hi") }),
        "`background` is not supported."
    );
    assert_eq!(
        error_message(ResponsesRequest { top_logprobs: Some(2), ..text_request("Hi") }),
        "`top_logprobs` is not supported yet."
    );
    assert_eq!(
        error_message(request()),
        "At least one of `input` and `instructions` is required."
    );
}

#[test]
fn rejections_name_their_parameter() {
    let error = prepare(ResponsesRequest {
        previous_response_id: Some("resp_1".to_string()),
        ..text_request("Continue.")
    })
    .unwrap_err();
    match error {
        ApiError::InvalidRequest { param, .. } => {
            assert_eq!(param.as_deref(), Some("previous_response_id"))
        }
        other => panic!("unexpected error: {other:?}"),
    }
}

#[test]
fn unserved_models_are_not_found() {
    let error = prepare(ResponsesRequest {
        model: Some("other".to_string()),
        previous_response_id: Some("resp_1".to_string()),
        ..text_request("Hi")
    })
    .unwrap_err();
    assert_eq!(error, ApiError::ModelNotFound { model: "other".to_string() });
    assert!(prepare(ResponsesRequest { model: Some(String::new()), ..text_request("Hi") }).is_ok());
    assert!(prepare(ResponsesRequest {
        background: Some(false),
        top_logprobs: Some(0),
        ..text_request("Hi")
    })
    .is_ok());
}

#[test]
fn invalid_images_are_rejected() {
    let image_message = |role: InputRole, image_url: Option<&str>, file_id: Option<&str>| {
        let content = TextOrList::List(vec![
            InputContentPart::InputText { text: "Look.".to_string() },
            InputContentPart::InputImage {
                image_url: image_url.map(str::to_string),
                file_id: file_id.map(str::to_string),
                detail: Some(InputImageDetail::Low),
            },
        ]);
        ResponsesRequest { input: ResponseInput(vec![message(role, content)]), ..request() }
    };

    let url = Some("https://example.com/a.png");
    assert_eq!(
        error_message(image_message(InputRole::System, url, None)),
        "input_image is not supported in system messages."
    );
    assert_eq!(
        error_message(image_message(InputRole::Assistant, url, None)),
        "input_image is not supported in assistant messages."
    );
    assert_eq!(
        error_message(image_message(InputRole::User, None, None)),
        "input_image must have image_url or file_id."
    );
    assert_eq!(
        error_message(image_message(InputRole::User, url, Some("file-1"))),
        "input_image cannot have both image_url and file_id."
    );
    assert_eq!(
        error_message(image_message(InputRole::User, None, Some("file-1"))),
        "input_image file_id is not supported; pass the image as image_url."
    );
    assert!(prepare(image_message(InputRole::User, url, None)).is_ok());
}

#[test]
fn malformed_input_items_report_their_position() {
    let error = ResponseInput::from_items(vec![
        Ok(message(InputRole::User, text("Hi"))),
        Err("missing field `call_id`".to_string()),
        Err("never reached".to_string()),
    ])
    .unwrap_err();
    assert_eq!(error, "input[1]: missing field `call_id`");
}

#[test]
fn positions_are_decimal() {
    let mut items: Vec<Result<InputItem, String>> = Vec::new();
    for _ in 0..120 {
        items.push(Ok(InputItem::Unsupported));
    }
    items.push(Err("bad".to_string()));
    assert_eq!(ResponseInput::from_items(items).unwrap_err(), "input[120]: bad");
    let read = ResponseInput::from_items(vec![Ok(InputItem::Unsupported)]).unwrap();
    assert_eq!(read, ResponseInput(vec![InputItem::Unsupported]));
}

#[test]
fn items_without_a_tag_are_messages() {
    let tagged = tag_item(object(r#"{"role": "user"}"#));
    assert_eq!(Value::Object(tagged).to_string(), r#"{"role":"user","type":"message"}"#);
    let kept = tag_item(object(r#"{"type": "reasoning"}"#));
    assert_eq!(Value::Object(kept).to_string(), r#"{"type":"reasoning"}"#);
}

#[test]
fn assistant_items_in_a_row_share_one_message() {
    let prepared = prepare(ResponsesRequest {
        input: ResponseInput(vec![
            message(InputRole::Assistant, text("a")),
            message(InputRole::Assistant, TextOrList::List(vec![])),
            InputItem::Unsupported,
            message(InputRole::Assistant, text("b")),
        ]),
        ..request()
    })
    .unwrap();
    assert_eq!(
        prepared.chat_request.messages,
        vec![ChatMessage::Assistant {
            content: vec![
                AssistantContentBlock::Text { text: "a".to_string() },
                AssistantContentBlock::Text { text: "b".to_string() },
            ],
        }]
    );
}

#[test]
fn responses_echo_the_request() {
    let mut lowered = lower(ResponsesRequest {
        user: Some("u".to_string()),
        metadata: Some(value(r#"{"trace": "1"}"#)),
        max_output_tokens: Some(5),
        priority: Some(3),
        ..text_request("Hi")
    })
    .unwrap();
    let answers = resolved(&mut lowered);
    let lora = LoraModelResolution {
        model_names: vec!["base".to_string()],
        lora_request: Some(LoraRequest { lora_name: "adapter".to_string() }),
    };
    let ctx = ResolvedRequestContext {
        request_id: "7".to_string(),
        priority: Some(-1),
        data_parallel_rank: Some(2),
    };
    let prepared = prepare_responses_request(lowered, &lora, ctx, 9, answers).unwrap();
    let response = &prepared.response;
    assert_eq!(response.id, "resp_7");
    assert_eq!(response.object, "response");
    assert_eq!(response.created_at, 9);
    assert_eq!(response.status, ResponseStatus::InProgress);
    assert_eq!(response.model, "adapter");
    assert_eq!(response.max_output_tokens, Some(5));
    assert_eq!(response.tool_choice, ResponseToolChoice::Mode(ToolChoiceMode::Auto));
    assert_eq!(response.truncation, "disabled");
    assert_eq!(response.metadata, value(r#"{"trace": "1"}"#));
    assert!(!response.store);
    assert!(response.parallel_tool_calls);
    assert_eq!(prepared.chat_request.priority, -1);
    assert_eq!(prepared.chat_request.data_parallel_rank, Some(2));
    assert_eq!(
        prepare(text_request("Hi")).unwrap().response.metadata,
        Value::Object(JsonMap::new())
    );
}

#[test]
fn the_first_unresolved_input_is_reported() {
    let failed = |message: &str| ApiError::ServerError { message: message.to_string() };
    let attempt = |tools: bool, outputs: bool, bias: bool| {
        let mut lowered = lower(text_request("Hi")).unwrap();
        let mut answers = resolved(&mut lowered);
        if tools {
            answers.tool_context = Err(failed("tools"));
        }
        if outputs {
            answers.structured_outputs = Err(failed("outputs"));
        }
        if bias {
            answers.logit_bias = Err(failed("bias"));
        }
        prepare_responses_request(lowered, &models(), context(), 1, answers).unwrap_err()
    };
    assert_eq!(attempt(true, true, true), failed("tools"));
    assert_eq!(attempt(false, true, true), failed("outputs"));
    assert_eq!(attempt(false, false, true), failed("bias"));
}
