use serde_json::{Map as JsonMap, Value};
use vllm_responses::chat::{
    AssistantBlockKind, AssistantContentBlock, AssistantToolCall, ChatEvent, ChatTokenUsage,
    CollectedAssistantMessage, FinishReason,
};
use vllm_responses::custom_tool::{shim_arguments, CustomToolNames};
use vllm_responses::error::ApiError;
use vllm_responses::output::{
    completed_item, fail_response, output_items, tool_call_id_prefix, StreamAssembler,
};
use vllm_responses::stream::{
    collect_response, finish_message, reject_failed, ResponseStream, StreamStep,
};
use vllm_responses::types::{
    IncompleteDetails, ItemStatus, OutputContentPart, OutputItem, ReasoningEcho, ResponseObject,
    ResponseStatus, ResponseToolChoice, SequencedEvent, StreamEvent, TextEcho, TextFormat,
    ToolChoiceMode,
};

fn names(names: &[&str]) -> CustomToolNames {
    CustomToolNames::new(names.iter().map(|name| name.to_string()).collect())
}

fn response() -> ResponseObject {
    ResponseObject {
        id: "resp_test".to_string(),
        object: "response",
        created_at: 0,
        status: ResponseStatus::InProgress,
        error: None,
        incomplete_details: None,
        instructions: None,
        max_output_tokens: Some(5),
        model: "test-model".to_string(),
        output: Vec::new(),
        parallel_tool_calls: true,
        previous_response_id: None,
        reasoning: ReasoningEcho { effort: None, summary: None },
        store: false,
        temperature: None,
        text: TextEcho { format: TextFormat::Text },
        tool_choice: ResponseToolChoice::Mode(ToolChoiceMode::Auto),
        tools: Vec::new(),
        top_p: None,
        truncation: "disabled",
        usage: None,
        user: None,
        metadata: Value::Object(JsonMap::new()),
    }
}

fn usage() -> ChatTokenUsage {
    ChatTokenUsage {
        prompt_token_count: 40,
        cached_token_count: 3,
        output_token_count: 24,
        reasoning_tokens: 5,
    }
}

fn text_block(text: &str) -> AssistantContentBlock {
    AssistantContentBlock::Text { text: text.to_string() }
}

fn tool_call(name: &str, arguments: &str) -> AssistantToolCall {
    AssistantToolCall {
        id: "call_1".to_string(),
        name: name.to_string(),
        arguments: arguments.to_string(),
    }
}

fn delta(text: &str) -> ChatEvent {
    ChatEvent::BlockDelta { delta: text.to_string() }
}

fn arguments(text: &str) -> ChatEvent {
    ChatEvent::ToolCallArgumentsDelta { delta: text.to_string() }
}

fn done(finish_reason: FinishReason) -> ChatEvent {
    ChatEvent::Done { usage: usage(), finish_reason }
}

/// Stream a whole generation.
fn stream(custom_tools: CustomToolNames, input: Vec<Result<ChatEvent, String>>) -> Vec<StreamEvent> {
    let (mut stream, mut events) = ResponseStream::start(response(), custom_tools);
    for next in input {
        match stream.step(next) {
            StreamStep::Continue { stream: rest, events: more } => {
                stream = rest;
                events.extend(more);
            }
            StreamStep::Finished { event } => {
                events.push(event);
                return events;
            }
        }
    }
    panic!("the stream did not end");
}

fn event_names(events: &[StreamEvent]) -> Vec<&'static str> {
    events.iter().map(|event| event.name()).collect()
}

fn final_response(events: &[StreamEvent]) -> &ResponseObject {
    match events.last() {
        Some(
            StreamEvent::Completed { response }
            | StreamEvent::Incomplete { response }
            | StreamEvent::Failed { response },
        ) => response,
        other => panic!("not a terminal event: {other:?}"),
    }
}

fn item_id(item: &OutputItem) -> &str {
    match item {
        OutputItem::Message { id, .. }
        | OutputItem::Reasoning { id, .. }
        | OutputItem::FunctionCall { id, .. }
        | OutputItem::CustomToolCall { id, .. } => id,
    }
}

/// Items reported as done are those of the final response, in order.
fn check_done_items(events: &[StreamEvent]) {
    let mut done = Vec::new();
    let mut added = Vec::new();
    for event in events {
        match event {
            StreamEvent::OutputItemDone { output_index, item } => {
                assert_eq!(*output_index, done.len());
                done.push(item);
            }
            StreamEvent::OutputItemAdded { output_index, item } => {
                assert_eq!(*output_index, added.len());
                added.push(item_id(item));
            }
            _ => {}
        }
    }
    assert_eq!(done, final_response(events).output.iter().collect::<Vec<_>>());
    assert_eq!(added, done.iter().map(|item| item_id(item)).collect::<Vec<_>>());
}

fn check_id(id: &str, prefix: &str) {
    let hex = id.strip_prefix(prefix).unwrap().strip_prefix('_').unwrap();
    assert_eq!(hex.len(), 32);
    assert!(hex.bytes().all(|byte| matches!(byte, b'0'..=b'9' | b'a'..=b'f')));
    assert_eq!(&hex[12..13], "4");
    assert!(matches!(&hex[16..17], "8" | "9" | "a" | "b"));
}

#[test]
fn responses_returns_reasoning_and_message_items() {
    let collected = CollectedAssistantMessage {
        content: vec![
            AssistantContentBlock::Reasoning { text: "Plan.".to_string() },
            text_block("Hi!"),
        ],
        usage: usage(),
        finish_reason: FinishReason::Stop,
    };
    let response = collect_response(Ok(collected), response(), &names(&[])).unwrap();

    assert_eq!(response.status, ResponseStatus::Completed);
    assert_eq!(response.error, None);
    assert_eq!(response.incomplete_details, None);
    let [OutputItem::Reasoning { id: reasoning_id, status, summary, content }, message] =
        response.output.as_slice()
    else {
        panic!("unexpected output: {:?}", response.output);
    };
    check_id(reasoning_id, "rs");
    assert_eq!(*status, ItemStatus::Completed);
    assert!(summary.is_empty());
    assert_eq!(content, &vec![OutputContentPart::ReasoningText { text: "Plan.".to_string() }]);
    check_id(item_id(message), "msg");
    assert_eq!(
        message,
        &OutputItem::Message {
            id: item_id(message).to_string(),
            role: "assistant",
            status: ItemStatus::Completed,
            content: vec![OutputContentPart::output_text("Hi!".to_string())],
        }
    );
    let usage = response.usage.unwrap();
    assert_eq!(usage.input_tokens, 40);
    assert_eq!(usage.input_tokens_details.cached_tokens, 3);
    assert_eq!(usage.output_tokens, 24);
    assert_eq!(usage.output_tokens_details.reasoning_tokens, 5);
    assert_eq!(usage.total_tokens, 64);
}

#[test]
fn responses_stream_emits_function_call_events() {
    let events = stream(
        names(&[]),
        vec![
            Ok(ChatEvent::Start),
            Ok(ChatEvent::BlockStart { kind: AssistantBlockKind::Reasoning }),
            Ok(delta("Need tool.")),
            Ok(ChatEvent::BlockEnd {
                block: AssistantContentBlock::Reasoning { text: "Need tool.".to_string() },
            }),
            Ok(ChatEvent::ToolCallStart {
                id: "call_1".to_string(),
                name: "get_weather".to_string(),
            }),
            Ok(arguments("{\"city\":\"Paris\"}")),
            Ok(ChatEvent::ToolCallEnd {
                call: tool_call("get_weather", "{\"city\":\"Paris\"}"),
            }),
            Ok(ChatEvent::LogprobsDelta),
            Ok(ChatEvent::BlockStart { kind: AssistantBlockKind::Text }),
            Ok(delta("}\n</tool_call")),
            Ok(ChatEvent::BlockEnd { block: text_block("}\n</tool_call") }),
            Ok(done(FinishReason::Stop)),
        ],
    );
    assert_eq!(
        event_names(&events),
        vec![
            "response.created",
            "response.in_progress",
            "response.output_item.added",
            "response.content_part.added",
            "response.reasoning_text.delta",
            "response.reasoning_text.done",
            "response.content_part.done",
            "response.output_item.done",
            "response.output_item.added",
            "response.function_call_arguments.delta",
            "response.function_call_arguments.done",
            "response.output_item.done",
            "response.output_item.added",
            "response.content_part.added",
            "response.output_text.delta",
            "response.output_text.done",
            "response.content_part.done",
            "response.output_item.done",
            "response.completed",
        ]
    );
    assert_eq!(events[0], StreamEvent::Created { response: response() });
    check_done_items(&events);
    let call = &final_response(&events).output[1];
    check_id(item_id(call), "fc");
    assert_eq!(
        call,
        &OutputItem::FunctionCall {
            id: item_id(call).to_string(),
            status: ItemStatus::Completed,
            call_id: "call_1".to_string(),
            name: "get_weather".to_string(),
            arguments: "{\"city\":\"Paris\"}".to_string(),
        }
    );
}

#[test]
fn responses_raise_custom_tool_calls_from_function_shims() {
    let patch = "*** Begin Patch\n*** Add File: a.txt\n+say \"hi\"\n*** End Patch\n";
    let shim = shim_arguments(patch.to_string());
    // Split the arguments so some deltas cut through escape sequences.
    let mut input = vec![Ok(ChatEvent::ToolCallStart {
        id: "call_1".to_string(),
        name: "apply_patch".to_string(),
    })];
    for chunk in shim.as_bytes().chunks(7) {
        input.push(Ok(arguments(std::str::from_utf8(chunk).unwrap())));
    }
    input.push(Ok(ChatEvent::ToolCallEnd { call: tool_call("apply_patch", &shim) }));
    input.push(Ok(done(FinishReason::Stop)));
    let events = stream(names(&["apply_patch"]), input);

    let mut deltas = Vec::new();
    let mut rest = Vec::new();
    for event in &events {
        match event {
            StreamEvent::CustomToolCallInputDelta { delta, .. } => deltas.push(delta.as_str()),
            StreamEvent::CustomToolCallInputDone { input, .. } => {
                assert_eq!(input, patch);
                rest.push(event.name());
            }
            _ => rest.push(event.name()),
        }
    }
    assert!(deltas.len() > 1, "input was not streamed: {deltas:?}");
    assert_eq!(deltas.concat(), patch);
    assert_eq!(
        rest,
        vec![
            "response.created",
            "response.in_progress",
            "response.output_item.added",
            "response.custom_tool_call_input.done",
            "response.output_item.done",
            "response.completed",
        ]
    );
    check_done_items(&events);
    let item = &final_response(&events).output[0];
    check_id(item_id(item), "ctc");
    assert_eq!(
        item,
        &OutputItem::CustomToolCall {
            id: item_id(item).to_string(),
            status: ItemStatus::Completed,
            call_id: "call_1".to_string(),
            name: "apply_patch".to_string(),
            input: patch.to_string(),
        }
    );

    let collected = output_items(
        vec![AssistantContentBlock::ToolCall(tool_call("apply_patch", &shim))],
        &names(&["apply_patch"]),
    );
    let [OutputItem::CustomToolCall { id, input, .. }] = collected.as_slice() else {
        panic!("unexpected output: {collected:?}");
    };
    check_id(id, "ctc");
    assert_eq!(input, patch);
}

#[test]
fn responses_truncated_by_max_output_tokens_are_incomplete() {
    let events = stream(
        names(&[]),
        vec![
            Ok(ChatEvent::BlockStart { kind: AssistantBlockKind::Text }),
            Ok(delta("Hel")),
            Ok(delta("lo")),
            Ok(ChatEvent::BlockEnd { block: text_block("Hello") }),
            Ok(done(FinishReason::Length)),
        ],
    );
    assert_eq!(
        event_names(&events),
        vec![
            "response.created",
            "response.in_progress",
            "response.output_item.added",
            "response.content_part.added",
            "response.output_text.delta",
            "response.output_text.delta",
            "response.output_text.done",
            "response.content_part.done",
            "response.output_item.done",
            "response.incomplete",
        ]
    );
    let response = final_response(&events);
    assert_eq!(response.status, ResponseStatus::Incomplete);
    assert_eq!(
        response.incomplete_details,
        Some(IncompleteDetails { reason: "max_output_tokens" })
    );
    assert_eq!(response.max_output_tokens, Some(5));
    let text = vec![OutputContentPart::output_text("Hello".to_string())];
    assert!(matches!(
        response.output.as_slice(),
        [OutputItem::Message { content, .. }] if *content == text
    ));
    check_done_items(&events);

    let collected = CollectedAssistantMessage {
        content: vec![text_block("Hello")],
        usage: usage(),
        finish_reason: FinishReason::Length,
    };
    let response = collect_response(Ok(collected), self::response(), &names(&[])).unwrap();
    assert_eq!(response.status, ResponseStatus::Incomplete);
    assert_eq!(
        response.incomplete_details,
        Some(IncompleteDetails { reason: "max_output_tokens" })
    );
}

#[test]
fn generations_stopped_for_repetition_are_incomplete() {
    let events = stream(names(&[]), vec![Ok(done(FinishReason::Repetition))]);
    assert_eq!(
        final_response(&events).incomplete_details,
        Some(IncompleteDetails { reason: "repetition" })
    );
}

#[test]
fn failed_generations_are_errors_before_streaming() {
    let collect = |finish_reason| {
        let collected =
            CollectedAssistantMessage { content: Vec::new(), usage: usage(), finish_reason };
        collect_response(Ok(collected), response(), &names(&[])).unwrap_err()
    };
    assert_eq!(
        collect(FinishReason::Abort),
        ApiError::ServerError { message: "The request was aborted.".to_string() }
    );
    assert_eq!(
        collect(FinishReason::Error),
        ApiError::ServerError { message: "Internal server error".to_string() }
    );
    assert_eq!(
        collect_response(Err("engine died".to_string()), response(), &names(&[])).unwrap_err(),
        ApiError::ServerError { message: "failed to collect response: engine died".to_string() }
    );
}

#[test]
fn failed_responses_are_finished_before_they_are_rejected() {
    let collected = CollectedAssistantMessage {
        content: vec![text_block("a")],
        usage: usage(),
        finish_reason: FinishReason::Abort,
    };
    let finished = finish_message(Ok(collected), response(), &names(&[])).unwrap();
    assert_eq!(finished.status, ResponseStatus::Failed);
    assert_eq!(finished.output.len(), 1);
    assert_eq!(finished.usage.unwrap().total_tokens, 64);
    assert_eq!(
        reject_failed(finished.clone()).unwrap_err(),
        ApiError::ServerError { message: "The request was aborted.".to_string() }
    );
    let unexplained = ResponseObject { error: None, ..finished };
    assert_eq!(
        reject_failed(unexplained).unwrap_err(),
        ApiError::ServerError { message: String::new() }
    );
    assert_eq!(reject_failed(response()).unwrap(), response());
}

#[test]
fn errors_after_streaming_started_end_the_stream_as_failed() {
    let events = stream(
        names(&[]),
        vec![
            Ok(ChatEvent::BlockStart { kind: AssistantBlockKind::Text }),
            Ok(ChatEvent::BlockEnd { block: text_block("a") }),
            Ok(ChatEvent::BlockStart { kind: AssistantBlockKind::Text }),
            Err("engine died".to_string()),
        ],
    );
    assert_eq!(events.last().unwrap().name(), "response.failed");
    let response = final_response(&events);
    assert_eq!(response.status, ResponseStatus::Failed);
    assert_eq!(response.error.as_ref().unwrap().code, "server_error");
    assert_eq!(response.error.as_ref().unwrap().message, "engine died");
    assert_eq!(response.output.len(), 1);
    assert_eq!(response.usage, None);
    let aborted = stream(names(&[]), vec![Ok(done(FinishReason::Abort))]);
    assert_eq!(aborted.last().unwrap().name(), "response.failed");
    assert_eq!(aborted.len(), 3);
}

#[test]
fn malformed_custom_arguments_are_only_reported_as_done() {
    let call = tool_call("edit", "{\"input\":\"ab\\qcd\"}");
    let mut assembler = StreamAssembler::new(names(&["edit"]));
    let mut events = Vec::new();
    assembler.push_with_id(
        ChatEvent::ToolCallStart { id: "call_1".to_string(), name: "edit".to_string() },
        "ctc_1".to_string(),
        &mut events,
    );
    assembler.push_with_id(arguments(&call.arguments), String::new(), &mut events);
    assembler.push_with_id(
        ChatEvent::ToolCallEnd { call: tool_call("edit", &call.arguments) },
        String::new(),
        &mut events,
    );
    let item = |status, input: &str| OutputItem::CustomToolCall {
        id: "ctc_1".to_string(),
        status,
        call_id: "call_1".to_string(),
        name: "edit".to_string(),
        input: input.to_string(),
    };
    assert_eq!(
        events,
        vec![
            StreamEvent::OutputItemAdded {
                output_index: 0,
                item: item(ItemStatus::InProgress, ""),
            },
            StreamEvent::CustomToolCallInputDelta {
                item_id: "ctc_1".to_string(),
                output_index: 0,
                delta: "ab".to_string(),
            },
            StreamEvent::CustomToolCallInputDone {
                item_id: "ctc_1".to_string(),
                output_index: 0,
                input: call.arguments.clone(),
            },
            StreamEvent::OutputItemDone {
                output_index: 0,
                item: item(ItemStatus::Completed, &call.arguments),
            },
        ]
    );
    assert_eq!(assembler.take_output().len(), 1);
    assert!(assembler.take_output().is_empty());
}

#[test]
fn held_back_input_is_streamed_at_the_end() {
    let mut assembler = StreamAssembler::new(names(&["edit"]));
    let mut events = Vec::new();
    assembler.push(
        ChatEvent::ToolCallStart { id: "call_1".to_string(), name: "edit".to_string() },
        &mut events,
    );
    assembler.push(arguments("{\"input\":\"a"), &mut events);
    assembler.push(
        ChatEvent::ToolCallEnd { call: tool_call("edit", "{\"input\":\"abc\"}") },
        &mut events,
    );
    let deltas: Vec<&str> = events
        .iter()
        .filter_map(|event| match event {
            StreamEvent::CustomToolCallInputDelta { delta, .. } => Some(delta.as_str()),
            _ => None,
        })
        .collect();
    assert_eq!(deltas, vec!["a", "bc"]);
}

#[test]
fn final_arguments_need_not_be_the_streamed_ones() {
    let streamed = |pieces: &[&str], last: &str| {
        let mut assembler = StreamAssembler::new(names(&["edit"]));
        let mut events = Vec::new();
        assembler.push(
            ChatEvent::ToolCallStart { id: "call_1".to_string(), name: "edit".to_string() },
            &mut events,
        );
        for piece in pieces {
            assembler.push(arguments(piece), &mut events);
        }
        assembler.push(ChatEvent::ToolCallEnd { call: tool_call("edit", last) }, &mut events);
        let mut text = String::new();
        for event in &events {
            if let StreamEvent::CustomToolCallInputDelta { delta, .. } = event {
                text.push_str(delta);
            }
        }
        text
    };
    // Nothing, part and all of the arguments arrived as deltas.
    assert_eq!(streamed(&[], r#"{"input":"abc"}"#), "abc");
    assert_eq!(streamed(&[r#"{"inp"#, r#"ut":"a"#], r#"{"input":"abc"}"#), "abc");
    assert_eq!(streamed(&[r#"{"input":"abc"}"#], r#"{"input":"abc"}"#), "abc");
    // Other arguments: the input continues what was streamed, or departs from it.
    assert_eq!(streamed(&[r#"{"input":"ab"#], r#"{ "input" : "abc" }"#), "abc");
    assert_eq!(streamed(&[r#"{"input":"ab"#], r#"{"input":"xyz"}"#), "ab");
}

#[test]
fn text_blocks_stream_exact_events() {
    let mut assembler = StreamAssembler::new(names(&[]));
    let mut events = Vec::new();
    assembler.push_with_id(
        ChatEvent::BlockStart { kind: AssistantBlockKind::Text },
        "msg_1".to_string(),
        &mut events,
    );
    assembler.push_with_id(delta("Hi"), String::new(), &mut events);
    assembler.push_with_id(
        ChatEvent::BlockEnd { block: text_block("Hi") },
        String::new(),
        &mut events,
    );
    let id = || "msg_1".to_string();
    assert_eq!(
        events,
        vec![
            StreamEvent::OutputItemAdded {
                output_index: 0,
                item: OutputItem::Message {
                    id: id(),
                    role: "assistant",
                    status: ItemStatus::InProgress,
                    content: vec![],
                },
            },
            StreamEvent::ContentPartAdded {
                item_id: id(),
                output_index: 0,
                content_index: 0,
                part: OutputContentPart::output_text(String::new()),
            },
            StreamEvent::OutputTextDelta {
                item_id: id(),
                output_index: 0,
                content_index: 0,
                delta: "Hi".to_string(),
                logprobs: vec![],
            },
            StreamEvent::OutputTextDone {
                item_id: id(),
                output_index: 0,
                content_index: 0,
                text: "Hi".to_string(),
                logprobs: vec![],
            },
            StreamEvent::ContentPartDone {
                item_id: id(),
                output_index: 0,
                content_index: 0,
                part: OutputContentPart::output_text("Hi".to_string()),
            },
            StreamEvent::OutputItemDone {
                output_index: 0,
                item: completed_item(id(), text_block("Hi"), &names(&[])),
            },
        ]
    );
}

#[test]
fn item_ids_differ() {
    let items = output_items(vec![text_block("a"), text_block("a")], &names(&[]));
    assert!(item_id(&items[0]) != item_id(&items[1]));
    assert_eq!(tool_call_id_prefix("f", &names(&["edit"])), "fc");
    assert_eq!(tool_call_id_prefix("edit", &names(&["edit"])), "ctc");
}

#[test]
fn a_broken_off_response_keeps_its_output() {
    let mut failed = response();
    let items = output_items(vec![text_block("a")], &names(&[]));
    fail_response(&mut failed, items.clone(), "broken".to_string());
    assert_eq!(failed.output, items);
    assert_eq!(StreamEvent::terminal(failed.clone()).name(), "response.failed");
    assert_eq!(failed.status, ResponseStatus::Failed);
}

#[test]
fn events_are_numbered_by_position() {
    let events = stream(names(&[]), vec![Ok(done(FinishReason::Stop))]);
    for (index, event) in events.iter().enumerate() {
        let sequenced = SequencedEvent::new(event, index);
        assert_eq!(sequenced.sequence_number, index as u64);
        assert_eq!(sequenced.event, event);
    }
}
