//! Delivery of one generation: collected into one response, or streamed as
//! Responses events.

use vstd::prelude::*;

use crate::chat::{ChatEvent, ChatEventView, CollectedAssistantMessage};
use crate::custom_tool::CustomToolNames;
use crate::error::{ApiError, ApiErrorView};
use crate::output::events::{completed_item_tells_its_block, is_same_request, tells};
use crate::output::laws::{
    done_reports, done_reports_are_output, finished_blocks, reports_concat,
    streamed_items_match_blocks, IdentifiedEvent,
};
use crate::output::{
    are_items_of, block_prefix, error_of, fail_response, failed, finish_response, finished,
    is_item_id, output_items, status_of, usage_fits, AssemblerModel, StreamAssembler,
};
use crate::types::{
    OutputItemView, ResponseObject, ResponseObjectView, ResponseStatus, StreamEvent,
    StreamEventView,
};

verus! {

/// Collect one generation into a complete response object.
///
/// Failed generations are reported as errors, since no response has been sent
/// yet.
pub fn collect_response(
    collected: Result<CollectedAssistantMessage, String>,
    response: ResponseObject,
    custom_tools: &CustomToolNames,
) -> (outcome: Result<ResponseObject, ApiError>)
    requires
        collected matches Ok(message) ==> usage_fits(message.usage),
    ensures
        match collected {
            Err(report) => outcome matches Err(error) && error.deep_view()
                == ApiErrorView::ServerError {
                message: "failed to collect response: "@ + report@,
            },
            Ok(message) => match outcome {
                Ok(done) => {
                    let output = done.deep_view().output;
                    let blocks = message.content.deep_view();
                    &&& !(status_of(message.finish_reason) is Failed)
                    &&& are_items_of(output, blocks, custom_tools@)
                    &&& forall|i: int|
                        0 <= i < output.len() ==> is_item_id(
                            (#[trigger] output[i]).id(),
                            block_prefix(blocks[i], custom_tools@),
                        )
                    &&& done.deep_view() == finished(
                        response.deep_view(),
                        output,
                        message.usage,
                        message.finish_reason,
                    )
                },
                Err(error) => {
                    &&& status_of(message.finish_reason) is Failed
                    &&& error.deep_view() == ApiErrorView::ServerError {
                        message: error_of(message.finish_reason)->0.message,
                    }
                },
            },
        },
{
    match finish_message(collected, response, custom_tools) {
        Ok(response) => reject_failed(response),
        Err(error) => Err(error),
    }
}

/// Complete a response with a collected generation, however that ended.
pub fn finish_message(
    collected: Result<CollectedAssistantMessage, String>,
    response: ResponseObject,
    custom_tools: &CustomToolNames,
) -> (outcome: Result<ResponseObject, ApiError>)
    requires
        collected matches Ok(message) ==> usage_fits(message.usage),
    ensures
        match collected {
            Err(report) => outcome matches Err(error) && error.deep_view()
                == ApiErrorView::ServerError {
                message: "failed to collect response: "@ + report@,
            },
            Ok(message) => outcome matches Ok(done) && ({
                let output = done.deep_view().output;
                let blocks = message.content.deep_view();
                &&& are_items_of(output, blocks, custom_tools@)
                &&& forall|i: int|
                    0 <= i < output.len() ==> is_item_id(
                        (#[trigger] output[i]).id(),
                        block_prefix(blocks[i], custom_tools@),
                    )
                &&& done.deep_view() == finished(
                    response.deep_view(),
                    output,
                    message.usage,
                    message.finish_reason,
                )
            }),
        },
{
    match collected {
        Err(report) => {
            let mut message = "failed to collect response: ".to_string();
            message.append(report.as_str());
            Err(ApiError::ServerError { message })
        },
        Ok(CollectedAssistantMessage { content, usage, finish_reason }) => {
            let mut response = response;
            let output = output_items(content, custom_tools);
            finish_response(&mut response, output, usage, &finish_reason);
            Ok(response)
        },
    }
}

/// Hand a finished response on, or report the error of one that failed.
pub fn reject_failed(response: ResponseObject) -> (outcome: Result<ResponseObject, ApiError>)
    ensures
        match outcome {
            Ok(done) => !(response.status is Failed) && done.deep_view() == response.deep_view(),
            Err(error) => response.status is Failed && error.deep_view()
                == ApiErrorView::ServerError {
                message: match response.deep_view().error {
                    Some(error) => error.message,
                    None => Seq::empty(),
                },
            },
        },
{
    if response.status == ResponseStatus::Failed {
        let message = match response.error {
            Some(error) => error.message,
            None => String::new(),
        };
        return Err(ApiError::ServerError { message });
    }
    Ok(response)
}

/// Abstract state of a [`ResponseStream`].
#[verifier::ext_equal]
pub struct StreamModel {
    /// The response as announced at the start.
    pub response: ResponseObjectView,
    pub assembler: AssemblerModel,
}

/// What the engine hands over next: an event, or the report of an error.
pub open spec fn next_view(next: Result<ChatEvent, String>) -> Result<ChatEventView, Seq<char>> {
    match next {
        Ok(event) => Ok(event.deep_view()),
        Err(report) => Err(report@),
    }
}

impl StreamModel {
    /// Whether the stream ends with `next`.
    pub open spec fn ends_with(next: Result<ChatEventView, Seq<char>>) -> bool {
        next is Err || next->Ok_0 is Done
    }

    /// Whether `next` can follow.
    pub open spec fn accepts(self, next: Result<ChatEventView, Seq<char>>) -> bool {
        match next {
            Ok(ChatEventView::Done { usage, .. }) => usage_fits(usage),
            Ok(event) => self.assembler.accepts(event),
            Err(_) => true,
        }
    }

    /// The event that ends the stream on `next`.
    pub open spec fn last_event(self, next: Result<ChatEventView, Seq<char>>) -> StreamEventView {
        match next {
            Ok(ChatEventView::Done { usage, finish_reason }) => StreamEventView::terminal(
                finished(self.response, self.assembler.output, usage, finish_reason),
            ),
            Ok(_) => arbitrary(),
            Err(report) => StreamEventView::Failed {
                response: failed(self.response, self.assembler.output, report),
            },
        }
    }
}

/// The conversion of one chat event stream into Responses stream events.
///
/// The stream always ends with exactly one terminal lifecycle event:
/// `response.completed`, `response.incomplete`, or `response.failed`. Errors
/// after streaming has started are reported through `response.failed`.
#[derive(Debug)]
pub struct ResponseStream {
    response: ResponseObject,
    assembler: StreamAssembler,
}

impl View for ResponseStream {
    type V = StreamModel;

    closed spec fn view(&self) -> StreamModel {
        StreamModel { response: self.response.deep_view(), assembler: self.assembler@ }
    }
}

/// What one step of a [`ResponseStream`] leads to.
pub enum StreamStep {
    /// Deliver the events and go on.
    Continue { stream: ResponseStream, events: Vec<StreamEvent> },
    /// Deliver the terminal event and end.
    Finished { event: StreamEvent },
}

impl ResponseStream {
    /// Start a stream: the events to deliver before the generation's own.
    pub fn start(response: ResponseObject, custom_tools: CustomToolNames) -> (started: (
        Self,
        Vec<StreamEvent>,
    ))
        ensures
            started.0@ == (StreamModel {
                response: response.deep_view(),
                assembler: AssemblerModel::start(custom_tools@),
            }),
            started.0@.assembler.wf(),
            started.1.deep_view() == seq![
                StreamEventView::Created { response: response.deep_view() },
                StreamEventView::InProgress { response: response.deep_view() },
            ],
    {
        let events = vec![
            StreamEvent::Created { response: response.clone() },
            StreamEvent::InProgress { response: response.clone() },
        ];
        assert(events.deep_view() =~= seq![
            StreamEventView::Created { response: response.deep_view() },
            StreamEventView::InProgress { response: response.deep_view() },
        ]);
        (ResponseStream { response, assembler: StreamAssembler::new(custom_tools) }, events)
    }

    /// Whether the engine may hand over `next`.
    pub fn can_step(&self, next: &Result<ChatEvent, String>) -> (accepted: bool)
        ensures
            accepted == self@.accepts(next_view(*next)),
    {
        match next {
            Ok(ChatEvent::Done { usage, .. }) => usage.output_token_count <= usize::MAX
                - usage.prompt_token_count,
            Ok(event) => self.assembler.can_push(event),
            Err(_) => true,
        }
    }

    /// Convert what the engine hands over next.
    pub fn step(self, next: Result<ChatEvent, String>) -> (step: StreamStep)
        requires
            self@.assembler.wf(),
            self@.accepts(next_view(next)),
        ensures
            match step {
                StreamStep::Finished { event } => {
                    &&& StreamModel::ends_with(next_view(next))
                    &&& event.deep_view() == self@.last_event(next_view(next))
                },
                StreamStep::Continue { stream, events } => {
                    &&& !StreamModel::ends_with(next_view(next))
                    &&& stream@.assembler.wf()
                    &&& stream@.response == self@.response
                    &&& exists|id: Seq<char>|
                        (self@.assembler.opened_prefix(next_view(next)->Ok_0) matches Some(prefix)
                            ==> is_item_id(id, prefix)) && (stream@.assembler, events.deep_view())
                            == #[trigger] self@.assembler.step(next_view(next)->Ok_0, id)
                },
            },
    {
        let ResponseStream { mut response, mut assembler } = self;
        match next {
            Ok(ChatEvent::Done { usage, finish_reason }) => {
                let output = assembler.take_output();
                finish_response(&mut response, output, usage, &finish_reason);
                StreamStep::Finished { event: StreamEvent::terminal(response) }
            },
            Ok(event) => {
                let mut events: Vec<StreamEvent> = Vec::new();
                let ghost before = assembler@;
                assert(events.deep_view() =~= Seq::<StreamEventView>::empty());
                assembler.push(event, &mut events);
                proof {
                    let id = choose|id: Seq<char>|
                        (before.opened_prefix(event.deep_view()) matches Some(prefix)
                            ==> is_item_id(id, prefix)) && assembler@ == (#[trigger] before.step(
                            event.deep_view(),
                            id,
                        )).0 && events.deep_view() == Seq::<StreamEventView>::empty() + before.step(
                            event.deep_view(),
                            id,
                        ).1;
                    let more = before.step(event.deep_view(), id).1;
                    assert(Seq::<StreamEventView>::empty() + more =~= more);
                }
                StreamStep::Continue { stream: ResponseStream { response, assembler }, events }
            },
            Err(report) => {
                let output = assembler.take_output();
                fail_response(&mut response, output, report);
                StreamStep::Finished { event: StreamEvent::Failed { response } }
            },
        }
    }
}

/// All events of a stream: what the engine hands over before the end, and how
/// it ends.
pub open spec fn whole_stream(
    response: ResponseObjectView,
    custom_tools: Set<Seq<char>>,
    events: Seq<IdentifiedEvent>,
    end: Result<ChatEventView, Seq<char>>,
) -> Seq<StreamEventView> {
    let (assembler, streamed) = AssemblerModel::start(custom_tools).run(events);
    let opening = seq![
        StreamEventView::Created { response },
        StreamEventView::InProgress { response },
    ];
    (opening + streamed).push(StreamModel { response, assembler }.last_event(end))
}

/// An assembler emits no lifecycle event.
proof fn run_is_inner(state: AssemblerModel, events: Seq<IdentifiedEvent>)
    requires
        state.accepts_run(events),
    ensures
        forall|i: int|
            0 <= i < state.run(events).1.len() ==> !(#[trigger] state.run(events).1[i]).is_terminal()
                && !(state.run(events).1[i] is Created) && !(state.run(events).1[i] is InProgress),
    decreases events.len(),
{
    if events.len() > 0 {
        run_is_inner(state, events.drop_last());
    }
}

/// A stream starts with `response.created` and `response.in_progress`, and
/// ends with exactly one terminal lifecycle event.
pub proof fn stream_has_one_terminal_event(
    response: ResponseObjectView,
    custom_tools: Set<Seq<char>>,
    events: Seq<IdentifiedEvent>,
    end: Result<ChatEventView, Seq<char>>,
)
    requires
        AssemblerModel::start(custom_tools).accepts_run(events),
        StreamModel::ends_with(end),
    ensures
        ({
            let stream = whole_stream(response, custom_tools, events, end);
            &&& stream.len() >= 3
            &&& stream[0] == StreamEventView::Created { response }
            &&& stream[1] == StreamEventView::InProgress { response }
            &&& stream.last().is_terminal()
            &&& forall|i: int|
                0 <= i < stream.len() - 1 ==> !(#[trigger] stream[i]).is_terminal()
            &&& forall|i: int|
                2 <= i < stream.len() ==> !((#[trigger] stream[i]) is Created) && !(stream[i]
                    is InProgress)
        }),
{
    let start = AssemblerModel::start(custom_tools);
    let streamed = start.run(events).1;
    let stream = whole_stream(response, custom_tools, events, end);
    run_is_inner(start, events);
    assert forall|i: int| 2 <= i < stream.len() - 1 implies #[trigger] stream[i] == streamed[i
        - 2] by {}
    assert forall|i: int| 0 <= i < stream.len() - 1 implies !(
    #[trigger] stream[i]).is_terminal() by {
        if i >= 2 {
            assert(stream[i] == streamed[i - 2]);
        }
    }
}

/// The response of a stream's terminal event.
pub open spec fn terminal_response(event: StreamEventView) -> ResponseObjectView {
    match event {
        StreamEventView::Completed { response } => response,
        StreamEventView::Incomplete { response } => response,
        StreamEventView::Failed { response } => response,
        _ => arbitrary(),
    }
}

/// The final response holds exactly the items that the stream reported by
/// `output_item.done`, in the order and at the output index of the reports.
pub proof fn final_output_is_what_was_done(
    response: ResponseObjectView,
    custom_tools: Set<Seq<char>>,
    events: Seq<IdentifiedEvent>,
    end: Result<ChatEventView, Seq<char>>,
)
    requires
        AssemblerModel::start(custom_tools).accepts_run(events),
        StreamModel::ends_with(end),
        AssemblerModel::start(custom_tools).run(events).0.output.len() <= usize::MAX,
    ensures
        ({
            let stream = whole_stream(response, custom_tools, events, end);
            let output = terminal_response(stream.last()).output;
            &&& done_reports(stream).len() == output.len()
            &&& forall|i: int|
                0 <= i < output.len() ==> #[trigger] done_reports(stream)[i] == (
                    i as usize,
                    output[i],
                )
        }),
{
    let start = AssemblerModel::start(custom_tools);
    let (assembler, streamed) = start.run(events);
    let opening = seq![
        StreamEventView::Created { response },
        StreamEventView::InProgress { response },
    ];
    let last = seq![StreamModel { response, assembler }.last_event(end)];
    let stream = whole_stream(response, custom_tools, events, end);
    assert(stream =~= opening + streamed + last);
    reports_concat(opening, streamed);
    reports_concat(opening + streamed, last);
    reveal_with_fuel(done_reports, 3);
    assert(done_reports(opening) =~= Seq::<(usize, OutputItemView)>::empty());
    assert(done_reports(last) =~= Seq::<(usize, OutputItemView)>::empty());
    assert(done_reports(stream) =~= done_reports(streamed));
    done_reports_are_output(start, events);
}

/// How the engine ends decides how the stream ends. A generation that came to
/// an end is reported as complete, incomplete or failed by why it ended, with
/// its token counts. One that broke off is reported as failed, with the report
/// of the error. Either way the response is the one that was announced, with
/// the items completed so far.
pub proof fn stream_ends_as_the_engine_does(
    response: ResponseObjectView,
    custom_tools: Set<Seq<char>>,
    events: Seq<IdentifiedEvent>,
    end: Result<ChatEventView, Seq<char>>,
)
    requires
        StreamModel::ends_with(end),
    ensures
        ({
            let last = whole_stream(response, custom_tools, events, end).last();
            let done = terminal_response(last);
            &&& is_same_request(done, response)
            &&& done.output == AssemblerModel::start(custom_tools).run(events).0.output
            &&& match end {
                Err(report) => {
                    &&& last is Failed
                    &&& done.status is Failed
                    &&& done.usage == response.usage
                    &&& done.error matches Some(error) && error.message == report
                },
                Ok(ChatEventView::Done { usage, finish_reason }) => {
                    &&& last is Completed <==> finish_reason is Stop
                    &&& last is Incomplete <==> finish_reason is Length || finish_reason
                        is Repetition
                    &&& last is Failed <==> finish_reason is Abort || finish_reason is Error
                    &&& done.status is Completed <==> last is Completed
                    &&& done.status is Incomplete <==> last is Incomplete
                    &&& done.status is Failed <==> last is Failed
                    &&& done.usage matches Some(counts) && counts.input_tokens
                        == usage.prompt_token_count && counts.output_tokens
                        == usage.output_token_count
                },
                Ok(_) => true,
            }
        }),
{
}

/// A streamed response holds what the collected one would: an item for each
/// block that the generation finished, in order, and telling that block.
pub proof fn streamed_response_holds_every_block(
    response: ResponseObjectView,
    custom_tools: Set<Seq<char>>,
    events: Seq<IdentifiedEvent>,
    end: Result<ChatEventView, Seq<char>>,
)
    requires
        AssemblerModel::start(custom_tools).accepts_run(events),
        StreamModel::ends_with(end),
    ensures
        ({
            let output = terminal_response(
                whole_stream(response, custom_tools, events, end).last(),
            ).output;
            let blocks = finished_blocks(events);
            &&& output.len() == blocks.len()
            &&& forall|i: int|
                0 <= i < output.len() ==> tells(
                    #[trigger] output[i],
                    output[i].id(),
                    blocks[i],
                    custom_tools,
                )
        }),
{
    let start = AssemblerModel::start(custom_tools);
    let output = start.run(events).0.output;
    let blocks = finished_blocks(events);
    stream_ends_as_the_engine_does(response, custom_tools, events, end);
    streamed_items_match_blocks(start, events);
    assert(output.skip(0) =~= output);
    assert forall|i: int| 0 <= i < output.len() implies tells(
        #[trigger] output[i],
        output[i].id(),
        blocks[i],
        custom_tools,
    ) by {
        completed_item_tells_its_block(output[i].id(), blocks[i], custom_tools);
    }
}

/// A stream can end at any time: by the report of an error, or by the end of a
/// generation whose token counts can be summed. Nothing else ends it.
pub proof fn stream_can_end_at_any_time(
    state: StreamModel,
    report: Seq<char>,
    event: ChatEventView,
)
    ensures
        state.accepts(Err(report)),
        StreamModel::ends_with(Err(report)),
        event matches ChatEventView::Done { usage, .. } ==> (state.accepts(Ok(event))
            <==> usage.prompt_token_count + usage.output_token_count <= usize::MAX),
        StreamModel::ends_with(Ok(event)) <==> event is Done,
        !(event is Done) ==> (state.accepts(Ok(event)) <==> state.assembler.accepts(event)),
{
}

} // verus!
