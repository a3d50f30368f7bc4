//! What the stream events of an assembler carry.

use vstd::prelude::*;

use super::laws::{joined, opening_events, IdentifiedEvent};
use super::{
    block_prefix, completed_item_of, failed, finished, tool_call_item_of, AssemblerModel,
    OpenKindModel,
};
use crate::chat::{
    AssistantBlockKind, AssistantContentBlockView, AssistantToolCallView, ChatEventView,
    ChatTokenUsage, FinishReason,
};
use crate::custom_tool::input_of;
use crate::json::json_parse;
use crate::types::{
    ItemStatus, OutputContentPartView, OutputItemView, ResponseObjectView, ResponseStatus,
    StreamEventView,
};

verus! {

/// The text that the message text deltas of a stream spell together.
pub open spec fn text_deltas(stream: Seq<StreamEventView>) -> Seq<char>
    decreases stream.len(),
{
    if stream.len() == 0 {
        Seq::empty()
    } else {
        match stream.last() {
            StreamEventView::OutputTextDelta { delta, .. } => text_deltas(stream.drop_last())
                + delta,
            _ => text_deltas(stream.drop_last()),
        }
    }
}

/// The text that the reasoning text deltas of a stream spell together.
pub open spec fn reasoning_deltas(stream: Seq<StreamEventView>) -> Seq<char>
    decreases stream.len(),
{
    if stream.len() == 0 {
        Seq::empty()
    } else {
        match stream.last() {
            StreamEventView::ReasoningTextDelta { delta, .. } => reasoning_deltas(
                stream.drop_last(),
            ) + delta,
            _ => reasoning_deltas(stream.drop_last()),
        }
    }
}

/// The text that the function argument deltas of a stream spell together.
pub open spec fn argument_deltas(stream: Seq<StreamEventView>) -> Seq<char>
    decreases stream.len(),
{
    if stream.len() == 0 {
        Seq::empty()
    } else {
        match stream.last() {
            StreamEventView::FunctionCallArgumentsDelta { delta, .. } => argument_deltas(
                stream.drop_last(),
            ) + delta,
            _ => argument_deltas(stream.drop_last()),
        }
    }
}

/// The deltas of two streams, one after the other.
proof fn deltas_concat(first: Seq<StreamEventView>, second: Seq<StreamEventView>)
    ensures
        text_deltas(first + second) == text_deltas(first) + text_deltas(second),
        reasoning_deltas(first + second) == reasoning_deltas(first) + reasoning_deltas(second),
        argument_deltas(first + second) == argument_deltas(first) + argument_deltas(second),
    decreases second.len(),
{
    if second.len() == 0 {
        assert(first + second =~= first);
    } else {
        assert((first + second).drop_last() =~= first + second.drop_last());
        deltas_concat(first, second.drop_last());
    }
    assert(text_deltas(first + second) =~= text_deltas(first) + text_deltas(second));
    assert(reasoning_deltas(first + second) =~= reasoning_deltas(first) + reasoning_deltas(
        second,
    ));
    assert(argument_deltas(first + second) =~= argument_deltas(first) + argument_deltas(second));
}

/// What an output item is of.
pub enum ItemTag {
    Message,
    Reasoning,
    FunctionCall,
    CustomToolCall,
}

/// What the open item of a state is of.
pub open spec fn open_tag(state: AssemblerModel) -> Option<ItemTag> {
    match state.open {
        Some(open) => Some(
            match open.kind {
                OpenKindModel::Text => ItemTag::Message,
                OpenKindModel::Reasoning => ItemTag::Reasoning,
                OpenKindModel::FunctionCall => ItemTag::FunctionCall,
                OpenKindModel::CustomToolCall { .. } => ItemTag::CustomToolCall,
            },
        ),
        None => None,
    }
}

/// What is open after a run of engine events, where `before` was open first:
/// whatever was started last, unless it was ended.
pub open spec fn tag_after(
    before: Option<ItemTag>,
    custom_tools: Set<Seq<char>>,
    events: Seq<IdentifiedEvent>,
) -> Option<ItemTag>
    decreases events.len(),
{
    if events.len() == 0 {
        before
    } else {
        match events.last().0 {
            ChatEventView::BlockStart { kind } => Some(
                if kind is Text {
                    ItemTag::Message
                } else {
                    ItemTag::Reasoning
                },
            ),
            ChatEventView::ToolCallStart { name, .. } => Some(
                if custom_tools.contains(name) {
                    ItemTag::CustomToolCall
                } else {
                    ItemTag::FunctionCall
                },
            ),
            ChatEventView::BlockEnd { .. } | ChatEventView::ToolCallEnd { .. } => None,
            _ => tag_after(before, custom_tools, events.drop_last()),
        }
    }
}

/// The text that the engine sent for items of one sort: its deltas while such
/// an item was open, joined in order.
pub open spec fn sent(
    before: Option<ItemTag>,
    custom_tools: Set<Seq<char>>,
    events: Seq<IdentifiedEvent>,
    tag: ItemTag,
) -> Seq<char>
    decreases events.len(),
{
    if events.len() == 0 {
        Seq::empty()
    } else {
        let rest = events.drop_last();
        let earlier = sent(before, custom_tools, rest, tag);
        if tag_after(before, custom_tools, rest) == Some(tag) {
            match events.last().0 {
                ChatEventView::BlockDelta { delta } => earlier + delta,
                ChatEventView::ToolCallArgumentsDelta { delta } => earlier + delta,
                _ => earlier,
            }
        } else {
            earlier
        }
    }
}

/// A run of the assembler has open what the engine started last and has not
/// ended.
pub proof fn open_item_is_what_was_started(state: AssemblerModel, events: Seq<IdentifiedEvent>)
    requires
        state.accepts_run(events),
    ensures
        state.run(events).0.custom_tools == state.custom_tools,
        open_tag(state.run(events).0) == tag_after(open_tag(state), state.custom_tools, events),
    decreases events.len(),
{
    if events.len() > 0 {
        open_item_is_what_was_started(state, events.drop_last());
    }
}

/// In every run, the deltas that the assembler streams for messages, joined in
/// order, are the deltas that the engine sent for them, joined in order. So are
/// those for reasoning, and the argument deltas of function calls.
pub proof fn deltas_are_what_was_sent(state: AssemblerModel, events: Seq<IdentifiedEvent>)
    requires
        state.accepts_run(events),
    ensures
        ({
            let stream = state.run(events).1;
            let (before, custom_tools) = (open_tag(state), state.custom_tools);
            &&& text_deltas(stream) == sent(before, custom_tools, events, ItemTag::Message)
            &&& reasoning_deltas(stream) == sent(before, custom_tools, events, ItemTag::Reasoning)
            &&& argument_deltas(stream) == sent(
                before,
                custom_tools,
                events,
                ItemTag::FunctionCall,
            )
        }),
    decreases events.len(),
{
    if events.len() > 0 {
        let rest = events.drop_last();
        let (middle, stream) = state.run(rest);
        let (event, id) = events.last();
        let more = middle.step(event, id).1;
        deltas_are_what_was_sent(state, rest);
        open_item_is_what_was_started(state, rest);
        deltas_concat(stream, more);
        step_deltas(middle, event, id);
        let (before, custom_tools) = (open_tag(state), state.custom_tools);
        assert(text_deltas(stream + more) =~= sent(before, custom_tools, events, ItemTag::Message));
        assert(reasoning_deltas(stream + more) =~= sent(
            before,
            custom_tools,
            events,
            ItemTag::Reasoning,
        ));
        assert(argument_deltas(stream + more) =~= sent(
            before,
            custom_tools,
            events,
            ItemTag::FunctionCall,
        ));
    }
}

/// The delta that an event brings to an item of one sort.
spec fn sent_one(state: AssemblerModel, event: ChatEventView, tag: ItemTag) -> Seq<char> {
    if open_tag(state) == Some(tag) {
        match event {
            ChatEventView::BlockDelta { delta } => delta,
            ChatEventView::ToolCallArgumentsDelta { delta } => delta,
            _ => Seq::empty(),
        }
    } else {
        Seq::empty()
    }
}

/// The deltas of one event.
proof fn step_deltas(state: AssemblerModel, event: ChatEventView, id: Seq<char>)
    requires
        state.accepts(event),
    ensures
        text_deltas(state.step(event, id).1) == sent_one(state, event, ItemTag::Message),
        reasoning_deltas(state.step(event, id).1) == sent_one(state, event, ItemTag::Reasoning),
        argument_deltas(state.step(event, id).1) == sent_one(state, event, ItemTag::FunctionCall),
{
    reveal_with_fuel(text_deltas, 4);
    reveal_with_fuel(reasoning_deltas, 4);
    reveal_with_fuel(argument_deltas, 4);
    let stream = state.step(event, id).1;
    assert(stream.len() <= 3);
    assert(text_deltas(stream) =~= sent_one(state, event, ItemTag::Message));
    assert(reasoning_deltas(stream) =~= sent_one(state, event, ItemTag::Reasoning));
    assert(argument_deltas(stream) =~= sent_one(state, event, ItemTag::FunctionCall));
}

/// The argument deltas of one open function call, joined in order, are the
/// pieces in which the engine sent its arguments, joined in order, whatever was
/// streamed before it.
pub proof fn function_call_streams_its_arguments(
    state: AssemblerModel,
    call_id: Seq<char>,
    name: Seq<char>,
    pieces: Seq<Seq<char>>,
    id: Seq<char>,
)
    requires
        !state.custom_tools.contains(name),
    ensures
        ({
            let events = opening_events(call_id, name, pieces, id);
            let (last, stream) = state.run(events);
            &&& state.accepts_run(events)
            &&& argument_deltas(stream) == joined(pieces)
            &&& last.open matches Some(open) && open.id == id && open.kind is FunctionCall
            &&& last.output == state.output
        }),
    decreases pieces.len(),
{
    reveal_with_fuel(AssemblerModel::run, 2);
    reveal_with_fuel(AssemblerModel::accepts_run, 2);
    let events = opening_events(call_id, name, pieces, id);
    if pieces.len() == 0 {
        assert(events.drop_last() =~= Seq::<IdentifiedEvent>::empty());
        let (event, _) = events.last();
        step_deltas(state, event, id);
        assert(state.run(events).1 =~= state.step(event, id).1);
    } else {
        let rest = pieces.drop_last();
        function_call_streams_its_arguments(state, call_id, name, rest, id);
        assert(events.drop_last() =~= opening_events(call_id, name, rest, id));
        let (before, stream) = state.run(events.drop_last());
        let (event, _) = events.last();
        step_deltas(before, event, id);
        deltas_concat(stream, before.step(event, id).1);
        assert(argument_deltas(state.run(events).1) =~= joined(rest) + pieces.last());
    }
}

/// The events of an open text or reasoning block whose text arrives in
/// `pieces`, its item having the ID `id`.
pub open spec fn block_events(
    kind: AssistantBlockKind,
    pieces: Seq<Seq<char>>,
    id: Seq<char>,
) -> Seq<IdentifiedEvent>
    decreases pieces.len(),
{
    if pieces.len() == 0 {
        seq![(ChatEventView::BlockStart { kind }, id)]
    } else {
        block_events(kind, pieces.drop_last(), id).push(
            (ChatEventView::BlockDelta { delta: pieces.last() }, id),
        )
    }
}

/// The text deltas of one open block, joined in order, are the pieces in which
/// the engine sent its text, joined in order: as message text for a text block,
/// and as reasoning text for a reasoning block.
pub proof fn block_streams_its_text(
    state: AssemblerModel,
    kind: AssistantBlockKind,
    pieces: Seq<Seq<char>>,
    id: Seq<char>,
)
    requires
        !(kind is ToolCall),
    ensures
        ({
            let events = block_events(kind, pieces, id);
            let (last, stream) = state.run(events);
            &&& state.accepts_run(events)
            &&& text_deltas(stream) == if kind is Text {
                joined(pieces)
            } else {
                Seq::empty()
            }
            &&& reasoning_deltas(stream) == if kind is Reasoning {
                joined(pieces)
            } else {
                Seq::empty()
            }
            &&& last.open matches Some(open) && open.id == id && (if kind is Text {
                open.kind is Text
            } else {
                open.kind is Reasoning
            })
            &&& last.output == state.output
        }),
    decreases pieces.len(),
{
    reveal_with_fuel(AssemblerModel::run, 2);
    reveal_with_fuel(AssemblerModel::accepts_run, 2);
    let events = block_events(kind, pieces, id);
    if pieces.len() == 0 {
        assert(events.drop_last() =~= Seq::<IdentifiedEvent>::empty());
        let (event, _) = events.last();
        step_deltas(state, event, id);
        assert(state.run(events).1 =~= state.step(event, id).1);
    } else {
        let rest = pieces.drop_last();
        block_streams_its_text(state, kind, rest, id);
        assert(events.drop_last() =~= block_events(kind, rest, id));
        let (before, stream) = state.run(events.drop_last());
        let (event, _) = events.last();
        step_deltas(before, event, id);
        deltas_concat(stream, before.step(event, id).1);
        let all = state.run(events).1;
        if kind is Text {
            assert(text_deltas(all) =~= joined(rest) + pieces.last());
            assert(reasoning_deltas(all) =~= Seq::<char>::empty());
        } else {
            assert(reasoning_deltas(all) =~= joined(rest) + pieces.last());
            assert(text_deltas(all) =~= Seq::<char>::empty());
        }
    }
}

/// The item ID and output index that an event between the announcement and the
/// completion of an item refers to.
pub open spec fn refers_to(event: StreamEventView) -> Option<(Seq<char>, usize)> {
    match event {
        StreamEventView::ContentPartAdded { item_id, output_index, .. } => Some(
            (item_id, output_index),
        ),
        StreamEventView::ContentPartDone { item_id, output_index, .. } => Some(
            (item_id, output_index),
        ),
        StreamEventView::OutputTextDelta { item_id, output_index, .. } => Some(
            (item_id, output_index),
        ),
        StreamEventView::OutputTextDone { item_id, output_index, .. } => Some(
            (item_id, output_index),
        ),
        StreamEventView::ReasoningTextDelta { item_id, output_index, .. } => Some(
            (item_id, output_index),
        ),
        StreamEventView::ReasoningTextDone { item_id, output_index, .. } => Some(
            (item_id, output_index),
        ),
        StreamEventView::FunctionCallArgumentsDelta { item_id, output_index, .. } => Some(
            (item_id, output_index),
        ),
        StreamEventView::FunctionCallArgumentsDone { item_id, output_index, .. } => Some(
            (item_id, output_index),
        ),
        StreamEventView::CustomToolCallInputDelta { item_id, output_index, .. } => Some(
            (item_id, output_index),
        ),
        StreamEventView::CustomToolCallInputDone { item_id, output_index, .. } => Some(
            (item_id, output_index),
        ),
        _ => None,
    }
}

/// The index of the content part that an event is about, for events about one.
pub open spec fn part_index(event: StreamEventView) -> Option<usize> {
    match event {
        StreamEventView::ContentPartAdded { content_index, .. } => Some(content_index),
        StreamEventView::ContentPartDone { content_index, .. } => Some(content_index),
        StreamEventView::OutputTextDelta { content_index, .. } => Some(content_index),
        StreamEventView::OutputTextDone { content_index, .. } => Some(content_index),
        StreamEventView::ReasoningTextDelta { content_index, .. } => Some(content_index),
        StreamEventView::ReasoningTextDone { content_index, .. } => Some(content_index),
        _ => None,
    }
}

/// Whatever an event makes the assembler stream is about one item: the one that
/// the event opens, or else the one that is open. Its announcement and its
/// completion carry its ID, and everything else its ID and its output index.
/// Items have a single content part.
pub proof fn events_refer_to_their_item(state: AssemblerModel, event: ChatEventView, id: Seq<char>)
    requires
        state.accepts(event),
    ensures
        ({
            let (next, stream) = state.step(event, id);
            let opens = event is BlockStart || event is ToolCallStart;
            let item = if opens {
                next.open->0
            } else {
                state.open->0
            };
            &&& opens ==> next.open is Some && item.id == id && item.output_index
                == state.output.len() as usize
            &&& forall|i: int|
                0 <= i < stream.len() ==> {
                    &&& refers_to(#[trigger] stream[i]) matches Some(named) ==> named == (
                        item.id,
                        item.output_index,
                    )
                    &&& part_index(stream[i]) matches Some(index) ==> index == 0
                    &&& stream[i] matches StreamEventView::OutputItemAdded {
                        output_index,
                        item: added,
                    } ==> opens && added.id() == item.id && output_index == item.output_index
                    &&& stream[i] matches StreamEventView::OutputItemDone { item: done, .. }
                        ==> !opens && done.id() == item.id
                    &&& !(stream[i] is Created || stream[i] is InProgress || stream[i] is Completed
                        || stream[i] is Incomplete || stream[i] is Failed)
                }
        }),
{
    let stream = state.step(event, id).1;
    assert(stream.len() <= 3);
}

/// An empty content part of the sort that `kind` streams.
pub open spec fn is_empty_part(part: OutputContentPartView, kind: AssistantBlockKind) -> bool {
    match part {
        OutputContentPartView::OutputText { text, annotations, logprobs } => kind is Text
            && text.len() == 0 && annotations.len() == 0 && logprobs.len() == 0,
        OutputContentPartView::ReasoningText { text } => kind is Reasoning && text.len() == 0,
    }
}

/// An item of the sort that `kind` streams, in progress and without content.
pub open spec fn is_announcement(item: OutputItemView, kind: AssistantBlockKind) -> bool {
    match item {
        OutputItemView::Message { role, status, content, .. } => kind is Text && role
            == "assistant"@ && status is InProgress && content.len() == 0,
        OutputItemView::Reasoning { status, summary, content, .. } => kind is Reasoning && status
            is InProgress && summary.len() == 0 && content.len() == 0,
        _ => false,
    }
}

/// A started block is announced by an item of its sort, in progress and empty,
/// and by its one content part, empty too. Nothing is completed yet.
pub proof fn started_block_is_announced(
    state: AssemblerModel,
    kind: AssistantBlockKind,
    id: Seq<char>,
)
    requires
        !(kind is ToolCall),
    ensures
        ({
            let (next, stream) = state.step(ChatEventView::BlockStart { kind }, id);
            &&& stream.len() == 2
            &&& stream[0] matches StreamEventView::OutputItemAdded { item, .. } && is_announcement(
                item,
                kind,
            )
            &&& stream[1] matches StreamEventView::ContentPartAdded { part, .. } && is_empty_part(
                part,
                kind,
            )
            &&& next.output == state.output
        }),
{
}

/// Text of an open block is streamed in one event, as it is: as message text
/// for a text block, and as reasoning text for a reasoning block.
pub proof fn block_text_is_streamed(state: AssemblerModel, delta: Seq<char>, id: Seq<char>)
    requires
        state.accepts(ChatEventView::BlockDelta { delta }),
    ensures
        ({
            let text = delta;
            let (next, stream) = state.step(ChatEventView::BlockDelta { delta }, id);
            &&& next == state
            &&& stream.len() == 1
            &&& state.open->0.kind is Text ==> (stream[0] matches StreamEventView::OutputTextDelta {
                delta,
                logprobs,
                ..
            } && delta == text && logprobs.len() == 0)
            &&& state.open->0.kind is Reasoning ==> (
            stream[0] matches StreamEventView::ReasoningTextDelta { delta, .. } && delta == text)
        }),
{
}

/// The text of a content part.
pub open spec fn part_text(part: OutputContentPartView) -> Seq<char> {
    match part {
        OutputContentPartView::OutputText { text, .. } => text,
        OutputContentPartView::ReasoningText { text } => text,
    }
}

/// The text of a finished block, the text of its finished content part and the
/// text of its completed item are the same, and are the text of the block that
/// the engine ended. The events come in this order and no others do.
pub proof fn finished_block_reports_its_text(
    state: AssemblerModel,
    block: AssistantContentBlockView,
    id: Seq<char>,
)
    requires
        state.accepts(ChatEventView::BlockEnd { block }),
    ensures
        ({
            let (next, stream) = state.step(ChatEventView::BlockEnd { block }, id);
            &&& stream.len() == 3
            &&& stream[1] is ContentPartDone
            &&& stream[2] is OutputItemDone
            &&& next.open is None
            &&& next.output == state.output.push(stream[2]->OutputItemDone_item)
            &&& match block {
                AssistantContentBlockView::Text { text: whole } => {
                    &&& stream[0] matches StreamEventView::OutputTextDone { text, logprobs, .. }
                        && text == whole && logprobs.len() == 0
                    &&& stream[1]->ContentPartDone_part is OutputText
                    &&& part_text(stream[1]->ContentPartDone_part) == whole
                    &&& stream[2]->OutputItemDone_item matches OutputItemView::Message {
                        content,
                        ..
                    } && content == seq![stream[1]->ContentPartDone_part]
                },
                AssistantContentBlockView::Reasoning { text: whole } => {
                    &&& stream[0] matches StreamEventView::ReasoningTextDone { text, .. } && text
                        == whole
                    &&& stream[1]->ContentPartDone_part is ReasoningText
                    &&& part_text(stream[1]->ContentPartDone_part) == whole
                    &&& stream[2]->OutputItemDone_item matches OutputItemView::Reasoning {
                        content,
                        ..
                    } && content == seq![stream[1]->ContentPartDone_part]
                },
                AssistantContentBlockView::ToolCall(_) => true,
            }
        }),
{
}

/// A started tool call is announced by one item in progress, which carries the
/// call's ID and name: a custom call for a declared custom tool, and otherwise
/// a function call without arguments yet.
pub proof fn started_call_is_announced(
    state: AssemblerModel,
    call_id: Seq<char>,
    name: Seq<char>,
    id: Seq<char>,
)
    ensures
        ({
            let (next, stream) = state.step(
                ChatEventView::ToolCallStart { id: call_id, name },
                id,
            );
            let (started, called) = (call_id, name);
            &&& stream.len() == 1
            &&& next.output == state.output
            &&& stream[0] is OutputItemAdded
            &&& match stream[0]->OutputItemAdded_item {
                OutputItemView::FunctionCall { status, call_id, name, arguments, .. } => {
                    &&& !state.custom_tools.contains(called)
                    &&& status is InProgress
                    &&& call_id == started
                    &&& name == called
                    &&& arguments.len() == 0
                },
                OutputItemView::CustomToolCall { status, call_id, name, .. } => {
                    &&& state.custom_tools.contains(called)
                    &&& status is InProgress
                    &&& call_id == started
                    &&& name == called
                },
                _ => false,
            }
        }),
{
}

/// Arguments of an open function call are streamed in one event, as they are.
pub proof fn function_arguments_are_streamed(state: AssemblerModel, delta: Seq<char>, id: Seq<char>)
    requires
        state.open is Some,
        state.open->0.kind is FunctionCall,
    ensures
        ({
            let sent = delta;
            let (next, stream) = state.step(ChatEventView::ToolCallArgumentsDelta { delta }, id);
            &&& next == state
            &&& stream.len() == 1
            &&& stream[0] matches StreamEventView::FunctionCallArgumentsDelta { delta, .. }
                && delta == sent
        }),
{
}

/// No input delta of a custom tool call is empty: arguments that decode to
/// nothing yet are streamed by no event, and others by one.
pub proof fn input_deltas_are_not_empty(state: AssemblerModel, event: ChatEventView, id: Seq<char>)
    requires
        state.accepts(event),
    ensures
        forall|i: int|
            0 <= i < state.step(event, id).1.len() ==> (#[trigger] state.step(
                event,
                id,
            ).1[i] matches StreamEventView::CustomToolCallInputDelta { delta, .. } ==> delta.len()
                > 0),
        event is ToolCallArgumentsDelta ==> state.step(event, id).1.len() <= 1,
{
}

/// A finished function call reports the name and the arguments that the engine
/// ended it with, and completes an item with the same call ID, name and
/// arguments. Nothing else is streamed.
pub proof fn finished_call_reports_its_arguments(
    state: AssemblerModel,
    call: AssistantToolCallView,
    id: Seq<char>,
)
    requires
        state.accepts(ChatEventView::ToolCallEnd { call }),
        !state.custom_tools.contains(call.name),
    ensures
        ({
            let (next, stream) = state.step(ChatEventView::ToolCallEnd { call }, id);
            &&& stream.len() == 2
            &&& stream[0] matches StreamEventView::FunctionCallArgumentsDone {
                name,
                arguments,
                ..
            } && name == call.name && arguments == call.arguments
            &&& stream[1] is OutputItemDone
            &&& stream[1]->OutputItemDone_item matches OutputItemView::FunctionCall {
                status,
                call_id,
                name,
                arguments,
                ..
            } && status is Completed && call_id == call.id && name == call.name && arguments
                == call.arguments
            &&& next.open is None
            &&& next.output == state.output.push(stream[1]->OutputItemDone_item)
        }),
{
}

/// A finished custom tool call reports one input, with the call's ID and name,
/// as done and in its completed item, after a last delta at most. The input is
/// the one that the final arguments wrap.
pub proof fn finished_custom_call_reports_its_input(
    state: AssemblerModel,
    call: AssistantToolCallView,
    id: Seq<char>,
)
    requires
        state.accepts(ChatEventView::ToolCallEnd { call }),
        state.custom_tools.contains(call.name),
    ensures
        ({
            let (next, stream) = state.step(ChatEventView::ToolCallEnd { call }, id);
            let whole = input_of(call.arguments, json_parse(call.arguments));
            let n = stream.len();
            &&& n == 2 || n == 3 && stream[0] is CustomToolCallInputDelta
            &&& stream[n - 2] matches StreamEventView::CustomToolCallInputDone { input, .. }
                && input == whole
            &&& stream[n - 1] is OutputItemDone
            &&& stream[n - 1]->OutputItemDone_item matches OutputItemView::CustomToolCall {
                status,
                call_id,
                name,
                input,
                ..
            } && status is Completed && call_id == call.id && name == call.name && input == whole
            &&& next.open is None
            &&& next.output == state.output.push(stream[n - 1]->OutputItemDone_item)
        }),
{
}

/// Events that carry no output change nothing and stream nothing.
pub proof fn other_events_are_silent(state: AssemblerModel, event: ChatEventView, id: Seq<char>)
    requires
        event is Start || event is LogprobsDelta,
    ensures
        state.accepts(event),
        state.step(event, id) == (state, Seq::<StreamEventView>::empty()),
{
}

/// The engine's protocol is accepted: an item can be opened at any time, an
/// open block takes text and can end, and an open call takes arguments and can
/// end under its own name.
pub proof fn protocol_is_accepted(
    state: AssemblerModel,
    kind: AssistantBlockKind,
    delta: Seq<char>,
    block: AssistantContentBlockView,
    call: AssistantToolCallView,
    id: Seq<char>,
)
    requires
        !(kind is ToolCall),
        !(block is ToolCall),
    ensures
        state.accepts(ChatEventView::BlockStart { kind }),
        state.accepts(ChatEventView::ToolCallStart { id: call.id, name: call.name }),
        ({
            let opened = state.step(ChatEventView::BlockStart { kind }, id).0;
            let more = opened.step(ChatEventView::BlockDelta { delta }, id).0;
            &&& opened.accepts(ChatEventView::BlockDelta { delta })
            &&& opened.accepts(ChatEventView::BlockEnd { block })
            &&& more.accepts(ChatEventView::BlockDelta { delta })
            &&& more.accepts(ChatEventView::BlockEnd { block })
        }),
        ({
            let opened = state.step(
                ChatEventView::ToolCallStart { id: call.id, name: call.name },
                id,
            ).0;
            let more = opened.step(ChatEventView::ToolCallArgumentsDelta { delta }, id).0;
            &&& opened.accepts(ChatEventView::ToolCallArgumentsDelta { delta })
            &&& opened.accepts(ChatEventView::ToolCallEnd { call })
            &&& more.accepts(ChatEventView::ToolCallArgumentsDelta { delta })
            &&& more.accepts(ChatEventView::ToolCallEnd { call })
        }),
{
}

/// A block's item has the same ID prefix whether it is streamed or not.
pub proof fn streamed_ids_have_the_same_prefix(
    state: AssemblerModel,
    text: Seq<char>,
    call: AssistantToolCallView,
)
    ensures
        state.opened_prefix(ChatEventView::BlockStart { kind: AssistantBlockKind::Text }) == Some(
            block_prefix(AssistantContentBlockView::Text { text }, state.custom_tools),
        ),
        state.opened_prefix(ChatEventView::BlockStart { kind: AssistantBlockKind::Reasoning })
            == Some(
            block_prefix(AssistantContentBlockView::Reasoning { text }, state.custom_tools),
        ),
        state.opened_prefix(ChatEventView::ToolCallStart { id: call.id, name: call.name }) == Some(
            block_prefix(AssistantContentBlockView::ToolCall(call), state.custom_tools),
        ),
        state.opened_prefix(ChatEventView::BlockDelta { delta: text }) is None,
        state.opened_prefix(ChatEventView::ToolCallArgumentsDelta { delta: text }) is None,
        state.opened_prefix(ChatEventView::ToolCallEnd { call }) is None,
{
}

/// Whether `item` tells a block: it is of the block's sort, completed, under
/// `id`, and carries the block's text, or the call's ID, name and arguments.
pub open spec fn tells(
    item: OutputItemView,
    id: Seq<char>,
    block: AssistantContentBlockView,
    custom_tools: Set<Seq<char>>,
) -> bool {
    &&& item.id() == id
    &&& match block {
        AssistantContentBlockView::Text { text: whole } => {
            &&& item matches OutputItemView::Message { role, status, content, .. } && role
                == "assistant"@ && status is Completed && content.len() == 1
                && content[0] is OutputText && part_text(content[0]) == whole
                && content[0]->annotations.len() == 0 && content[0]->logprobs.len() == 0
        },
        AssistantContentBlockView::Reasoning { text: whole } => {
            &&& item matches OutputItemView::Reasoning { status, summary, content, .. } && status
                is Completed && summary.len() == 0 && content.len() == 1
                && content[0] is ReasoningText && part_text(content[0]) == whole
        },
        AssistantContentBlockView::ToolCall(call) => if custom_tools.contains(call.name) {
            &&& item matches OutputItemView::CustomToolCall { status, call_id, name, input, .. }
                && status is Completed && call_id == call.id && name == call.name && input
                == input_of(call.arguments, json_parse(call.arguments))
        } else {
            &&& item matches OutputItemView::FunctionCall { status, call_id, name, arguments, .. }
                && status is Completed && call_id == call.id && name == call.name && arguments
                == call.arguments
        },
    }
}

/// A completed item tells the block that it was made of.
pub proof fn completed_item_tells_its_block(
    id: Seq<char>,
    block: AssistantContentBlockView,
    custom_tools: Set<Seq<char>>,
)
    ensures
        tells(completed_item_of(id, block, custom_tools), id, block, custom_tools),
{
}

/// The item of a tool call carries the status that it is given, and the call's
/// ID and name.
pub proof fn call_item_carries_status(
    id: Seq<char>,
    status: ItemStatus,
    call: AssistantToolCallView,
    custom_tools: Set<Seq<char>>,
)
    ensures
        ({
            let given = status;
            match tool_call_item_of(id, status, call, custom_tools) {
                OutputItemView::FunctionCall { id: own, status, call_id, name, arguments } => {
                    &&& !custom_tools.contains(call.name)
                    &&& own == id && status == given && call_id == call.id && name == call.name
                    &&& arguments == call.arguments
                },
                OutputItemView::CustomToolCall { id: own, status, call_id, name, .. } => {
                    &&& custom_tools.contains(call.name)
                    &&& own == id && status == given && call_id == call.id && name == call.name
                },
                _ => false,
            }
        }),
{
}

/// Two responses agree but for how their generation ended.
pub open spec fn is_same_request(first: ResponseObjectView, second: ResponseObjectView) -> bool {
    &&& first.id == second.id
    &&& first.object == second.object
    &&& first.created_at == second.created_at
    &&& first.instructions == second.instructions
    &&& first.max_output_tokens == second.max_output_tokens
    &&& first.model == second.model
    &&& first.parallel_tool_calls == second.parallel_tool_calls
    &&& first.previous_response_id == second.previous_response_id
    &&& first.reasoning == second.reasoning
    &&& first.store == second.store
    &&& first.temperature == second.temperature
    &&& first.text == second.text
    &&& first.tool_choice == second.tool_choice
    &&& first.tools == second.tools
    &&& first.top_p == second.top_p
    &&& first.truncation == second.truncation
    &&& first.user == second.user
    &&& first.metadata == second.metadata
}

/// A finished response keeps all that its request decided, holds the output it
/// is given, and accounts for the tokens that were spent: what was read, what
/// of it was cached, what was written, what of it was reasoning, and the sum.
pub proof fn finished_response_accounts_for_tokens(
    response: ResponseObjectView,
    output: Seq<OutputItemView>,
    usage: ChatTokenUsage,
    reason: FinishReason,
)
    requires
        usage.prompt_token_count + usage.output_token_count <= usize::MAX,
    ensures
        ({
            let done = finished(response, output, usage, reason);
            &&& is_same_request(done, response)
            &&& done.output == output
            &&& done.usage matches Some(counts) && {
                &&& counts.input_tokens == usage.prompt_token_count
                &&& counts.input_tokens_details.cached_tokens == usage.cached_token_count
                &&& counts.output_tokens == usage.output_token_count
                &&& counts.output_tokens_details.reasoning_tokens == usage.reasoning_tokens
                &&& counts.total_tokens == counts.input_tokens + counts.output_tokens
            }
        }),
{
}

/// How a generation ended decides the status of its response: one that stopped
/// is complete, one that was cut short is incomplete and says which limit cut
/// it, and one that was given up has failed with a server error.
pub proof fn ending_decides_status(
    response: ResponseObjectView,
    output: Seq<OutputItemView>,
    usage: ChatTokenUsage,
    reason: FinishReason,
)
    ensures
        ({
            let done = finished(response, output, usage, reason);
            &&& done.status is Completed <==> reason is Stop
            &&& done.status is Incomplete <==> reason is Length || reason is Repetition
            &&& done.status is Failed <==> reason is Abort || reason is Error
            &&& reason is Length ==> done.incomplete_details->0.reason == "max_output_tokens"@
            &&& reason is Repetition ==> done.incomplete_details->0.reason == "repetition"@
            &&& done.error matches Some(error) ==> error.code == "server_error"@
            &&& reason is Abort ==> done.error->0.message == "The request was aborted."@
            &&& reason is Error ==> done.error->0.message == "Internal server error"@
        }),
{
}

/// A response that broke off keeps all that its request decided, the usage and
/// details that it had, and the items completed so far, and fails with a server
/// error that carries the message.
pub proof fn failed_response_keeps_its_output(
    response: ResponseObjectView,
    output: Seq<OutputItemView>,
    message: Seq<char>,
)
    ensures
        ({
            let done = failed(response, output, message);
            &&& is_same_request(done, response)
            &&& done.output == output
            &&& done.status == ResponseStatus::Failed
            &&& done.usage == response.usage
            &&& done.incomplete_details == response.incomplete_details
            &&& done.error matches Some(error) && error.code == "server_error"@ && error.message
                == message
        }),
{
}

/// An assembler starts with nothing open and nothing completed, and knows the
/// custom tools that it is given.
pub proof fn assembler_starts_empty(custom_tools: Set<Seq<char>>)
    ensures
        ({
            let start = AssemblerModel::start(custom_tools);
            &&& start.custom_tools == custom_tools
            &&& start.output.len() == 0
            &&& start.open is None
        }),
{
}

/// The prefix of an item's ID tells the sort of its block.
pub proof fn prefix_tells_the_sort(
    block: AssistantContentBlockView,
    custom_tools: Set<Seq<char>>,
)
    ensures
        match block {
            AssistantContentBlockView::Text { .. } => block_prefix(block, custom_tools) == "msg"@,
            AssistantContentBlockView::Reasoning { .. } => block_prefix(block, custom_tools)
                == "rs"@,
            AssistantContentBlockView::ToolCall(call) => {
                &&& custom_tools.contains(call.name) ==> block_prefix(block, custom_tools)
                    == "ctc"@
                &&& !custom_tools.contains(call.name) ==> block_prefix(block, custom_tools)
                    == "fc"@
            },
        },
{
}

/// A run in two parts is a run of the first and then of the second from where
/// the first left off.
pub proof fn run_in_two_parts(
    state: AssemblerModel,
    first: Seq<IdentifiedEvent>,
    second: Seq<IdentifiedEvent>,
)
    ensures
        ({
            let (middle, streamed) = state.run(first);
            let (last, more) = middle.run(second);
            state.run(first + second) == (last, streamed + more)
        }),
    decreases second.len(),
{
    let (middle, streamed) = state.run(first);
    if second.len() == 0 {
        assert(first + second =~= first);
        assert(streamed + Seq::<StreamEventView>::empty() =~= streamed);
    } else {
        let rest = second.drop_last();
        run_in_two_parts(state, first, rest);
        assert((first + second).drop_last() =~= first + rest);
        let (before, earlier) = middle.run(rest);
        let (event, id) = second.last();
        let more = before.step(event, id).1;
        assert((streamed + earlier) + more =~= streamed + (earlier + more));
    }
}

} // verus!
