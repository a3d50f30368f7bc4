//! What holds of whole runs of a stream assembler.

use vstd::prelude::*;

use super::{
    are_items_of, completed_item_of, finished, input_delta, remainder, AssemblerModel,
    OpenKindModel,
};
use crate::chat::{
    AssistantContentBlockView, AssistantToolCallView, ChatEventView, ChatTokenUsage, FinishReason,
};
use crate::custom_tool::decoder::DecoderModel;
use crate::custom_tool::{decoder_streams_input, input_of, INPUT};
use crate::json::string::is_member_text;
use crate::json::{json_parse, reads_members};
use crate::types::{ItemStatus, OutputItemView, ResponseObjectView, StreamEventView};

verus! {

/// A chat event, with the ID of the item that it opens.
pub type IdentifiedEvent = (ChatEventView, Seq<char>);

impl AssemblerModel {
    /// The state after a run of events, and all the stream events of the run.
    pub open spec fn run(self, events: Seq<IdentifiedEvent>) -> (
        AssemblerModel,
        Seq<StreamEventView>,
    )
        decreases events.len(),
    {
        if events.len() == 0 {
            (self, Seq::empty())
        } else {
            let (state, streamed) = self.run(events.drop_last());
            let (next, more) = state.step(events.last().0, events.last().1);
            (next, streamed + more)
        }
    }

    /// Whether each event of a run can follow the ones before.
    pub open spec fn accepts_run(self, events: Seq<IdentifiedEvent>) -> bool
        decreases events.len(),
    {
        events.len() == 0 || {
            &&& self.accepts_run(events.drop_last())
            &&& self.run(events.drop_last()).0.accepts(events.last().0)
        }
    }

    /// Whether each event of a run can follow the ones before, and no item is
    /// opened while another is open.
    pub open spec fn is_orderly(self, events: Seq<IdentifiedEvent>) -> bool
        decreases events.len(),
    {
        events.len() == 0 || {
            let state = self.run(events.drop_last()).0;
            &&& self.is_orderly(events.drop_last())
            &&& state.accepts(events.last().0)
            &&& state.opened_prefix(events.last().0) is Some ==> state.open is None
        }
    }
}

/// The `output_item.done` reports in a stream: output index and item.
pub open spec fn done_reports(stream: Seq<StreamEventView>) -> Seq<(usize, OutputItemView)>
    decreases stream.len(),
{
    if stream.len() == 0 {
        Seq::empty()
    } else {
        match stream.last() {
            StreamEventView::OutputItemDone { output_index, item } => done_reports(
                stream.drop_last(),
            ).push((output_index, item)),
            _ => done_reports(stream.drop_last()),
        }
    }
}

/// The `output_item.added` reports in a stream: output index and item ID.
pub open spec fn added_reports(stream: Seq<StreamEventView>) -> Seq<(usize, Seq<char>)>
    decreases stream.len(),
{
    if stream.len() == 0 {
        Seq::empty()
    } else {
        match stream.last() {
            StreamEventView::OutputItemAdded { output_index, item } => added_reports(
                stream.drop_last(),
            ).push((output_index, item.id())),
            _ => added_reports(stream.drop_last()),
        }
    }
}

/// The text that the custom input deltas of a stream spell together.
pub open spec fn streamed_input(stream: Seq<StreamEventView>) -> Seq<char>
    decreases stream.len(),
{
    if stream.len() == 0 {
        Seq::empty()
    } else {
        match stream.last() {
            StreamEventView::CustomToolCallInputDelta { delta, .. } => streamed_input(
                stream.drop_last(),
            ) + delta,
            _ => streamed_input(stream.drop_last()),
        }
    }
}

/// The blocks and tool calls that the events of a run finish.
pub open spec fn finished_blocks(events: Seq<IdentifiedEvent>) -> Seq<AssistantContentBlockView>
    decreases events.len(),
{
    if events.len() == 0 {
        Seq::empty()
    } else {
        match events.last().0 {
            ChatEventView::BlockEnd { block } => finished_blocks(events.drop_last()).push(block),
            ChatEventView::ToolCallEnd { call } => finished_blocks(events.drop_last()).push(
                AssistantContentBlockView::ToolCall(call),
            ),
            _ => finished_blocks(events.drop_last()),
        }
    }
}

/// Index and ID of each report.
pub open spec fn report_ids(reports: Seq<(usize, OutputItemView)>) -> Seq<(usize, Seq<char>)> {
    reports.map_values(|report: (usize, OutputItemView)| (report.0, report.1.id()))
}

/// Reports of two streams, one after the other.
pub proof fn reports_concat(first: Seq<StreamEventView>, second: Seq<StreamEventView>)
    ensures
        done_reports(first + second) == done_reports(first) + done_reports(second),
        added_reports(first + second) == added_reports(first) + added_reports(second),
        streamed_input(first + second) == streamed_input(first) + streamed_input(second),
    decreases second.len(),
{
    if second.len() == 0 {
        assert(first + second =~= first);
    } else {
        assert((first + second).drop_last() =~= first + second.drop_last());
        reports_concat(first, second.drop_last());
    }
    assert(done_reports(first + second) =~= done_reports(first) + done_reports(second));
    assert(added_reports(first + second) =~= added_reports(first) + added_reports(second));
    assert(streamed_input(first + second) =~= streamed_input(first) + streamed_input(second));
}

/// Reports of streams of up to three events.
proof fn reports_short(stream: Seq<StreamEventView>)
    requires
        stream.len() <= 3,
    ensures
        stream.len() == 0 ==> done_reports(stream).len() == 0 && added_reports(stream).len() == 0
            && streamed_input(stream).len() == 0,
        stream.len() == 1 ==> done_reports(stream) == done_one(stream[0]) && added_reports(stream)
            == added_one(stream[0]),
        stream.len() == 2 ==> done_reports(stream) == done_one(stream[0]) + done_one(stream[1])
            && added_reports(stream) == added_one(stream[0]) + added_one(stream[1]),
        stream.len() == 3 ==> done_reports(stream) == done_one(stream[0]) + done_one(stream[1])
            + done_one(stream[2]) && added_reports(stream) == added_one(stream[0]) + added_one(
            stream[1],
        ) + added_one(stream[2]),
    decreases stream.len(),
{
    if stream.len() > 0 {
        let rest = stream.drop_last();
        reports_short(rest);
        assert(done_reports(stream) =~= done_reports(rest) + done_one(stream.last()));
        assert(added_reports(stream) =~= added_reports(rest) + added_one(stream.last()));
        assert(rest.len() == 0 ==> done_reports(stream) =~= done_one(stream[0]));
        assert(rest.len() == 0 ==> added_reports(stream) =~= added_one(stream[0]));
    }
}

/// The `done` report in one event.
spec fn done_one(event: StreamEventView) -> Seq<(usize, OutputItemView)> {
    match event {
        StreamEventView::OutputItemDone { output_index, item } => seq![(output_index, item)],
        _ => Seq::empty(),
    }
}

/// The `added` report in one event.
spec fn added_one(event: StreamEventView) -> Seq<(usize, Seq<char>)> {
    match event {
        StreamEventView::OutputItemAdded { output_index, item } => seq![(output_index, item.id())],
        _ => Seq::empty(),
    }
}

/// The block that one event finishes.
spec fn finished_one(event: ChatEventView) -> Seq<AssistantContentBlockView> {
    match event {
        ChatEventView::BlockEnd { block } => seq![block],
        ChatEventView::ToolCallEnd { call } => seq![AssistantContentBlockView::ToolCall(call)],
        _ => Seq::empty(),
    }
}

/// What one event reports.
proof fn step_reports(state: AssemblerModel, event: ChatEventView, id: Seq<char>)
    requires
        state.accepts(event),
    ensures
        ({
            let (next, stream) = state.step(event, id);
            let index = state.output.len() as usize;
            &&& next.custom_tools == state.custom_tools
            &&& finished_one(event).len() == 0 ==> {
                &&& next.output == state.output
                &&& done_reports(stream).len() == 0
            }
            &&& finished_one(event).len() > 0 ==> {
                let item = completed_item_of(
                    state.open->0.id,
                    finished_one(event)[0],
                    state.custom_tools,
                );
                &&& finished_one(event).len() == 1
                &&& state.open is Some
                &&& next.open is None
                &&& item.id() == state.open->0.id
                &&& next.output == state.output.push(item)
                &&& done_reports(stream) == seq![(index, item)]
            }
            &&& if state.opened_prefix(event) is Some {
                &&& added_reports(stream) == seq![(index, id)]
                &&& next.open matches Some(open) && open.id == id && open.output_index == index
            } else {
                &&& added_reports(stream).len() == 0
                &&& finished_one(event).len() == 0 ==> match state.open {
                    Some(open) => next.open matches Some(kept) && kept.id == open.id
                        && kept.output_index == open.output_index,
                    None => next.open is None,
                }
            }
        }),
{
    let (next, stream) = state.step(event, id);
    assert(stream.len() <= 3);
    reports_short(stream);
    if finished_one(event).len() > 0 {
        let item = completed_item_of(
            state.open->0.id,
            finished_one(event)[0],
            state.custom_tools,
        );
        assert(done_reports(stream) =~= seq![(state.output.len() as usize, item)]);
    } else {
        assert(done_reports(stream) =~= Seq::<(usize, OutputItemView)>::empty());
    }
    if state.opened_prefix(event) is Some {
        assert(added_reports(stream) =~= seq![(state.output.len() as usize, id)]);
    } else {
        assert(added_reports(stream) =~= Seq::<(usize, Seq<char>)>::empty());
    }
}

/// A run keeps the custom tools, and its output items are those of the blocks
/// and tool calls that it finishes: the ones that a non-streaming response
/// would hold, but for the IDs.
pub proof fn streamed_items_match_blocks(state: AssemblerModel, events: Seq<IdentifiedEvent>)
    requires
        state.accepts_run(events),
    ensures
        ({
            let last = state.run(events).0;
            &&& last.custom_tools == state.custom_tools
            &&& last.output.len() >= state.output.len()
            &&& last.output.take(state.output.len() as int) == state.output
            &&& are_items_of(
                last.output.skip(state.output.len() as int),
                finished_blocks(events),
                state.custom_tools,
            )
        }),
    decreases events.len(),
{
    let start = state.output.len() as int;
    if events.len() == 0 {
        assert(state.output.take(start) =~= state.output);
    } else {
        let rest = events.drop_last();
        let before = state.run(rest).0;
        let after = state.run(events).0;
        streamed_items_match_blocks(state, rest);
        step_reports(before, events.last().0, events.last().1);
        assert(after.output.take(start) =~= state.output);
        assert forall|i: int| 0 <= i < after.output.skip(start).len() implies #[trigger]
            after.output.skip(start)[i] == completed_item_of(
            after.output.skip(start)[i].id(),
            finished_blocks(events)[i],
            state.custom_tools,
        ) by {
            if i < before.output.skip(start).len() {
                assert(after.output.skip(start)[i] == before.output.skip(start)[i]);
            }
        }
    }
}

/// The items reported by `output_item.done` are the output items that the run
/// completes, each reported once, in order and at its output index.
pub proof fn done_reports_are_output(state: AssemblerModel, events: Seq<IdentifiedEvent>)
    requires
        state.accepts_run(events),
        state.run(events).0.output.len() <= usize::MAX,
    ensures
        ({
            let (last, stream) = state.run(events);
            let start = state.output.len();
            &&& start + done_reports(stream).len() == last.output.len()
            &&& forall|i: int|
                0 <= i < done_reports(stream).len() ==> (#[trigger] done_reports(stream)[i]).0
                    == start + i && done_reports(stream)[i].1 == last.output[start + i]
        }),
    decreases events.len(),
{
    if events.len() > 0 {
        let rest = events.drop_last();
        let (before, stream) = state.run(rest);
        let more = before.step(events.last().0, events.last().1).1;
        step_reports(before, events.last().0, events.last().1);
        done_reports_are_output(state, rest);
        reports_concat(stream, more);
    }
}

/// In an orderly run every `output_item.added` is followed by the
/// `output_item.done` of the same item at the same output index, in the same
/// order; only the item that is still open is yet to be done.
pub proof fn added_items_are_done(custom_tools: Set<Seq<char>>, events: Seq<IdentifiedEvent>)
    requires
        AssemblerModel::start(custom_tools).is_orderly(events),
    ensures
        ({
            let (last, stream) = AssemblerModel::start(custom_tools).run(events);
            let done = report_ids(done_reports(stream));
            match last.open {
                Some(open) => added_reports(stream) == done.push((open.output_index, open.id))
                    && open.output_index == last.output.len() as usize,
                None => added_reports(stream) == done,
            }
        }),
    decreases events.len(),
{
    let start = AssemblerModel::start(custom_tools);
    if events.len() == 0 {
        assert(added_reports(Seq::<StreamEventView>::empty()) =~= report_ids(
            done_reports(Seq::<StreamEventView>::empty()),
        ));
    } else {
        let rest = events.drop_last();
        let (before, stream) = start.run(rest);
        let (event, id) = events.last();
        let (after, more) = before.step(event, id);
        added_items_are_done(custom_tools, rest);
        step_reports(before, event, id);
        reports_concat(stream, more);
        let done = report_ids(done_reports(stream));
        let done_after = report_ids(done_reports(stream + more));
        if finished_one(event).len() > 0 {
            assert(done_after =~= done.push(
                (before.output.len() as usize, before.open->0.id),
            ));
            assert(added_reports(stream + more) =~= done_after);
        } else {
            assert(done_after =~= done);
            if before.opened_prefix(event) is Some {
                assert(added_reports(stream + more) =~= done.push(
                    (before.output.len() as usize, id),
                ));
            } else {
                assert(added_reports(stream + more) =~= added_reports(stream));
            }
        }
    }
}

/// A finished response says why it failed if and only if it failed, and why it
/// is incomplete if and only if it is.
pub proof fn finished_response_explains_itself(
    response: ResponseObjectView,
    output: Seq<OutputItemView>,
    usage: ChatTokenUsage,
    reason: FinishReason,
)
    ensures
        ({
            let done = finished(response, output, usage, reason);
            &&& !(done.status is InProgress)
            &&& done.error is Some <==> done.status is Failed
            &&& done.incomplete_details is Some <==> done.status is Incomplete
            &&& done.usage is Some
        }),
{
}

/// The pieces in one text.
pub open spec fn joined(pieces: Seq<Seq<char>>) -> Seq<char>
    decreases pieces.len(),
{
    if pieces.len() == 0 {
        Seq::empty()
    } else {
        joined(pieces.drop_last()) + pieces.last()
    }
}

/// The events of one tool call whose arguments arrive in `pieces`, its item
/// having the ID `id`.
pub open spec fn opening_events(
    call_id: Seq<char>,
    name: Seq<char>,
    pieces: Seq<Seq<char>>,
    id: Seq<char>,
) -> Seq<IdentifiedEvent>
    decreases pieces.len(),
{
    if pieces.len() == 0 {
        seq![(ChatEventView::ToolCallStart { id: call_id, name }, id)]
    } else {
        opening_events(call_id, name, pieces.drop_last(), id).push(
            (ChatEventView::ToolCallArgumentsDelta { delta: pieces.last() }, id),
        )
    }
}

proof fn input_delta_spells(id: Seq<char>, output_index: usize, input: Seq<char>)
    ensures
        streamed_input(input_delta(id, output_index, input)) == input,
{
    reveal_with_fuel(streamed_input, 2);
    let stream = input_delta(id, output_index, input);
    if input.len() > 0 {
        assert(stream.drop_last() =~= Seq::<StreamEventView>::empty());
        assert(streamed_input(stream) =~= input);
    } else {
        assert(streamed_input(stream) =~= input);
    }
}

/// The deltas of an open custom tool call spell what its decoder has decoded
/// of the arguments so far.
pub proof fn custom_call_streams_decoded(
    state: AssemblerModel,
    call_id: Seq<char>,
    name: Seq<char>,
    pieces: Seq<Seq<char>>,
    id: Seq<char>,
)
    requires
        state.custom_tools.contains(name),
    ensures
        ({
            let (last, stream) = state.run(opening_events(call_id, name, pieces, id));
            let (decoder, decoded) = DecoderModel::start().run(joined(pieces));
            &&& last.custom_tools == state.custom_tools
            &&& last.open matches Some(open) && open.id == id && open.kind
                == OpenKindModel::CustomToolCall { decoder, streamed: decoded }
            &&& streamed_input(stream) == decoded
        }),
    decreases pieces.len(),
{
    reveal_with_fuel(AssemblerModel::run, 2);
    let events = opening_events(call_id, name, pieces, id);
    if pieces.len() == 0 {
        assert(events.drop_last() =~= Seq::<IdentifiedEvent>::empty());
        let stream = state.run(events).1;
        reveal_with_fuel(streamed_input, 2);
        assert(stream.drop_last() =~= Seq::<StreamEventView>::empty());
    } else {
        let rest = pieces.drop_last();
        custom_call_streams_decoded(state, call_id, name, rest, id);
        assert(events.drop_last() =~= opening_events(call_id, name, rest, id));
        let (before, stream) = state.run(events.drop_last());
        let open = before.open->0;
        let more = before.tool_delta(open, pieces.last()).1;
        let (decoder, decoded) = DecoderModel::start().run(joined(rest));
        DecoderModel::start().run_concat(joined(rest), pieces.last());
        input_delta_spells(id, open.output_index, decoder.run(pieces.last()).1);
        reports_concat(stream, more);
    }
}

/// The deltas of a finished custom tool call spell the input that it reports
/// as done, unless that input departs from what was decoded on the way: then
/// they spell what was decoded. The final arguments need not be the ones that
/// arrived in pieces.
pub proof fn custom_call_streams_input(
    state: AssemblerModel,
    call_id: Seq<char>,
    name: Seq<char>,
    pieces: Seq<Seq<char>>,
    id: Seq<char>,
    arguments: Seq<char>,
)
    requires
        state.custom_tools.contains(name),
    ensures
        ({
            let call = AssistantToolCallView { id: call_id, name, arguments };
            let events = opening_events(call_id, name, pieces, id).push(
                (ChatEventView::ToolCallEnd { call }, id),
            );
            let (last, stream) = state.run(events);
            let input = input_of(arguments, json_parse(arguments));
            let decoded = DecoderModel::start().run(joined(pieces)).1;
            &&& streamed_input(stream) == (if decoded.is_prefix_of(input) {
                input
            } else {
                decoded
            })
            &&& last.open is None
            &&& last.output.len() > 0
            &&& last.output.last() == OutputItemView::CustomToolCall {
                id,
                status: ItemStatus::Completed,
                call_id,
                name,
                input,
            }
        }),
{
    reveal_with_fuel(AssemblerModel::run, 2);
    let call = AssistantToolCallView { id: call_id, name, arguments };
    let opening = opening_events(call_id, name, pieces, id);
    let events = opening.push((ChatEventView::ToolCallEnd { call }, id));
    assert(events.drop_last() =~= opening);
    custom_call_streams_decoded(state, call_id, name, pieces, id);
    let (before, stream) = state.run(opening);
    let open = before.open->0;
    let more = before.tool_end(open, call).1;
    let input = input_of(arguments, json_parse(arguments));
    let decoded = DecoderModel::start().run(joined(pieces)).1;
    let rest = remainder(input, decoded);
    let held = input_delta(id, open.output_index, rest);
    input_delta_spells(id, open.output_index, rest);
    assert(more.drop_last().drop_last() =~= held);
    reveal_with_fuel(streamed_input, 3);
    assert(streamed_input(more) == rest);
    reports_concat(stream, more);
    if decoded.is_prefix_of(input) {
        assert(decoded + rest =~= input);
    } else {
        assert(decoded + rest =~= decoded);
    }
}

/// The deltas of a custom tool call whose final arguments are well-formed shim
/// arguments, and read as what they spell, spell the input that they wrap. This
/// holds at whatever points the arguments are split, and however much of their
/// end never arrives as a delta. The call reports the same input as done.
pub proof fn well_formed_call_streams_its_input(
    state: AssemblerModel,
    call_id: Seq<char>,
    name: Seq<char>,
    pieces: Seq<Seq<char>>,
    id: Seq<char>,
    arguments: Seq<char>,
    input: Seq<char>,
)
    requires
        state.custom_tools.contains(name),
        joined(pieces).is_prefix_of(arguments),
        is_member_text(arguments, INPUT@, input),
        reads_members(arguments, json_parse(arguments)),
        arguments.len() <= usize::MAX,
    ensures
        ({
            let call = AssistantToolCallView { id: call_id, name, arguments };
            let events = opening_events(call_id, name, pieces, id).push(
                (ChatEventView::ToolCallEnd { call }, id),
            );
            let (last, stream) = state.run(events);
            &&& streamed_input(stream) == input
            &&& last.output.len() > 0
            &&& last.output.last() == OutputItemView::CustomToolCall {
                id,
                status: ItemStatus::Completed,
                call_id,
                name,
                input,
            }
        }),
{
    let start = DecoderModel::start();
    let arrived = joined(pieces);
    let rest = arguments.skip(arrived.len() as int);
    decoder_streams_input(arguments, input, json_parse(arguments));
    custom_call_streams_input(state, call_id, name, pieces, id, arguments);
    assert(arguments =~= arrived + rest);
    start.run_concat(arrived, rest);
    let (middle, decoded) = start.run(arrived);
    assert(decoded =~= (decoded + middle.run(rest).1).take(decoded.len() as int));
}

} // verus!
