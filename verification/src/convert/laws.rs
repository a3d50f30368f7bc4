//! What holds of lowered histories.

use vstd::prelude::*;

use super::{
    assistant_blocks_of, content_of, instruction_messages, messages_of, part_of, parts_of,
    reasoning_text, rejection, text_blocks_of, with_item, ImagePolicy,
};
use crate::chat::{
    AssistantContentBlockView, ChatContentPartView, ChatContentView, ChatMessageView, ImageDetail,
};
use crate::custom_tool::shim_text;
use crate::error::ApiErrorView;
use crate::types::{
    InputContentPartView, InputImageDetail, InputItemView, InputRole, ReasoningTextPartView,
    ResponsesRequestView, TextOrListView,
};

verus! {

/// Whether `shown` is the fidelity that `asked` asks for. The original
/// resolution is shown at the highest fidelity there is.
pub open spec fn keeps_detail(asked: Option<InputImageDetail>, shown: Option<ImageDetail>) -> bool {
    match asked {
        None => shown is None,
        Some(InputImageDetail::Auto) => shown == Some(ImageDetail::Auto),
        Some(InputImageDetail::Low) => shown == Some(ImageDetail::Low),
        Some(InputImageDetail::High) => shown == Some(ImageDetail::High),
        Some(InputImageDetail::Original) => shown == Some(ImageDetail::High),
    }
}

/// Whether a chat part shows what a request part holds: the same text, or the
/// same image at the fidelity asked for.
pub open spec fn carries_part(part: InputContentPartView, shown: ChatContentPartView) -> bool {
    match shown {
        ChatContentPartView::Text { text: carried } => match part {
            InputContentPartView::InputText { text } => text == carried,
            InputContentPartView::OutputText { text } => text == carried,
            _ => false,
        },
        ChatContentPartView::ImageUrl { image_url: carried, detail: shown, uuid } => match part {
            InputContentPartView::InputImage { image_url, file_id, detail } => image_url == Some(
                carried,
            ) && file_id is None && uuid is None && keeps_detail(detail, shown),
            _ => false,
        },
    }
}

/// Whether chat content shows what request content holds, part by part.
pub open spec fn carries(
    content: TextOrListView<InputContentPartView>,
    shown: ChatContentView,
) -> bool {
    match (content, shown) {
        (TextOrListView::Text(text), ChatContentView::Text(carried)) => text == carried,
        (TextOrListView::List(parts), ChatContentView::Parts(carried)) => {
            &&& parts.len() == carried.len()
            &&& forall|i: int|
                0 <= i < parts.len() ==> carries_part(#[trigger] parts[i], carried[i])
        },
        _ => false,
    }
}

/// Whether a part can be shown where images are (`images`) or are not accepted:
/// every text can, and an image that is given by its URL alone.
pub open spec fn can_show_part(part: InputContentPartView, images: bool) -> bool {
    part matches InputContentPartView::InputImage { image_url, file_id, .. } ==> images
        && image_url is Some && file_id is None
}

/// Whether content can be shown where images are or are not accepted.
pub open spec fn can_show(content: TextOrListView<InputContentPartView>, images: bool) -> bool {
    content matches TextOrListView::List(parts) ==> forall|i: int|
        0 <= i < parts.len() ==> can_show_part(#[trigger] parts[i], images)
}

proof fn parts_are_carried(parts: Seq<InputContentPartView>, policy: ImagePolicy)
    ensures
        parts_of(parts, policy) matches Ok(shown) ==> parts.len() == shown.len() && forall|i: int|
            0 <= i < parts.len() ==> carries_part(#[trigger] parts[i], shown[i]),
        parts_of(parts, policy) is Ok <==> forall|i: int|
            0 <= i < parts.len() ==> can_show_part(#[trigger] parts[i], policy is Allowed),
        parts_of(parts, policy) matches Err(error) ==> error matches ApiErrorView::InvalidRequest {
            param,
            ..
        } && param == Some("input"@),
    decreases parts.len(),
{
    if parts.len() > 0 {
        let rest = parts.drop_last();
        parts_are_carried(rest, policy);
        if parts_of(parts, policy) is Ok {
            assert forall|i: int| 0 <= i < parts.len() implies can_show_part(
                #[trigger] parts[i],
                policy is Allowed,
            ) by {
                if i < rest.len() {
                    assert(rest[i] == parts[i]);
                }
            }
            assert forall|i: int| 0 <= i < parts.len() implies carries_part(
                #[trigger] parts[i],
                parts_of(parts, policy)->Ok_0[i],
            ) by {
                if i < rest.len() {
                    assert(rest[i] == parts[i]);
                }
            }
        } else if forall|i: int|
            0 <= i < parts.len() ==> can_show_part(#[trigger] parts[i], policy is Allowed) {
            assert forall|i: int| 0 <= i < rest.len() implies can_show_part(
                #[trigger] rest[i],
                policy is Allowed,
            ) by {
                assert(rest[i] == parts[i]);
            }
            assert(can_show_part(parts[parts.len() - 1], policy is Allowed));
        }
    }
}

/// Lowered content shows what the request holds: the same text, or the same
/// parts in the same order, each with its text or its image. It is rejected
/// only for an image that cannot be shown, and then for the `input`.
pub proof fn content_is_carried(content: TextOrListView<InputContentPartView>, policy: ImagePolicy)
    ensures
        content_of(content, policy) matches Ok(shown) ==> carries(content, shown),
        content_of(content, policy) is Ok <==> can_show(content, policy is Allowed),
        content_of(content, policy) matches Err(error)
            ==> error matches ApiErrorView::InvalidRequest { param, .. } && param == Some(
            "input"@,
        ),
{
    if let TextOrListView::List(parts) = content {
        parts_are_carried(parts, policy);
    }
}

/// Why an image is rejected depends on where it stands and on how it is given,
/// and on the first rejected image alone.
pub proof fn first_rejected_image_decides(
    before: Seq<InputContentPartView>,
    part: InputContentPartView,
    after: Seq<InputContentPartView>,
    policy: ImagePolicy,
)
    requires
        part_of(part, policy) is Err,
        forall|i: int|
            0 <= i < before.len() ==> can_show_part(#[trigger] before[i], policy is Allowed),
    ensures
        parts_of(before.push(part) + after, policy) == Err::<Seq<ChatContentPartView>, _>(
            part_of(part, policy)->Err_0,
        ),
    decreases after.len(),
{
    let all = before.push(part) + after;
    if after.len() == 0 {
        assert(all =~= before.push(part));
        assert(all.drop_last() =~= before);
        parts_are_carried(before, policy);
    } else {
        first_rejected_image_decides(before, part, after.drop_last(), policy);
        assert(all.drop_last() =~= before.push(part) + after.drop_last());
    }
}

/// The text of a text part.
pub open spec fn text_of_part(part: InputContentPartView) -> Seq<char> {
    match part {
        InputContentPartView::InputText { text } => text,
        InputContentPartView::OutputText { text } => text,
        InputContentPartView::InputImage { .. } => Seq::empty(),
    }
}

/// Whether blocks are the texts of content, in order.
pub open spec fn are_texts_of(
    blocks: Seq<AssistantContentBlockView>,
    content: TextOrListView<InputContentPartView>,
) -> bool {
    match content {
        TextOrListView::Text(whole) => blocks == seq![
            AssistantContentBlockView::Text { text: whole },
        ],
        TextOrListView::List(parts) => {
            &&& blocks.len() == parts.len()
            &&& forall|i: int|
                0 <= i < parts.len() ==> #[trigger] blocks[i] == (AssistantContentBlockView::Text {
                    text: text_of_part(parts[i]),
                })
        },
    }
}

proof fn text_blocks_are_texts(parts: Seq<InputContentPartView>)
    ensures
        text_blocks_of(parts) matches Ok(blocks) ==> are_texts_of(
            blocks,
            TextOrListView::List(parts),
        ),
        text_blocks_of(parts) is Ok <==> forall|i: int|
            0 <= i < parts.len() ==> can_show_part(#[trigger] parts[i], false),
        text_blocks_of(parts) matches Err(error) ==> error matches ApiErrorView::InvalidRequest {
            param,
            ..
        } && param == Some("input"@),
    decreases parts.len(),
{
    if parts.len() > 0 {
        let rest = parts.drop_last();
        text_blocks_are_texts(rest);
        assert forall|i: int| 0 <= i < rest.len() implies #[trigger] rest[i] == parts[i] by {}
        if text_blocks_of(parts) is Ok {
            assert forall|i: int| 0 <= i < parts.len() implies can_show_part(
                #[trigger] parts[i],
                false,
            ) by {
                if i < rest.len() {
                    assert(rest[i] == parts[i]);
                }
            }
        } else if forall|i: int|
            0 <= i < parts.len() ==> can_show_part(#[trigger] parts[i], false) {
            assert forall|i: int| 0 <= i < rest.len() implies can_show_part(
                #[trigger] rest[i],
                false,
            ) by {
                assert(rest[i] == parts[i]);
            }
            assert(can_show_part(parts[parts.len() - 1], false));
        }
    }
}

/// A replayed assistant message becomes its texts, one block each, in order. It
/// is rejected only for holding an image.
pub proof fn assistant_texts_are_kept(content: TextOrListView<InputContentPartView>)
    ensures
        assistant_blocks_of(content) matches Ok(blocks) ==> are_texts_of(blocks, content),
        assistant_blocks_of(content) is Ok <==> can_show(content, false),
        assistant_blocks_of(content) matches Err(error)
            ==> error matches ApiErrorView::InvalidRequest { param, .. } && param == Some(
            "input"@,
        ),
{
    if let TextOrListView::List(parts) = content {
        text_blocks_are_texts(parts);
    }
}

/// Reasoning text is joined in order: that of two runs of parts is that of the
/// first and then that of the second, and that of one part is its text.
pub proof fn reasoning_is_joined(
    first: Seq<ReasoningTextPartView>,
    second: Seq<ReasoningTextPartView>,
    part: ReasoningTextPartView,
)
    ensures
        reasoning_text(first + second) == reasoning_text(first) + reasoning_text(second),
        reasoning_text(seq![part]) == part.text,
    decreases second.len(),
{
    reveal_with_fuel(reasoning_text, 2);
    assert(seq![part].drop_last() =~= Seq::<ReasoningTextPartView>::empty());
    assert(reasoning_text(seq![part]) =~= part.text);
    if second.len() == 0 {
        assert(first + second =~= first);
    } else {
        assert((first + second).drop_last() =~= first + second.drop_last());
        reasoning_is_joined(first, second.drop_last(), part);
    }
    assert(reasoning_text(first + second) =~= reasoning_text(first) + reasoning_text(second));
}

/// Contents of the system messages, in order.
pub open spec fn system_contents(messages: Seq<ChatMessageView>) -> Seq<ChatContentView>
    decreases messages.len(),
{
    if messages.len() == 0 {
        Seq::empty()
    } else {
        match messages.last() {
            ChatMessageView::System { content } => system_contents(messages.drop_last()).push(
                content,
            ),
            _ => system_contents(messages.drop_last()),
        }
    }
}

/// Contents of the user messages, in order.
pub open spec fn user_contents(messages: Seq<ChatMessageView>) -> Seq<ChatContentView>
    decreases messages.len(),
{
    if messages.len() == 0 {
        Seq::empty()
    } else {
        match messages.last() {
            ChatMessageView::User { content } => user_contents(messages.drop_last()).push(content),
            _ => user_contents(messages.drop_last()),
        }
    }
}

/// Contents of the developer messages, in order.
pub open spec fn developer_contents(messages: Seq<ChatMessageView>) -> Seq<ChatContentView>
    decreases messages.len(),
{
    if messages.len() == 0 {
        Seq::empty()
    } else {
        match messages.last() {
            ChatMessageView::Developer { content, .. } => developer_contents(
                messages.drop_last(),
            ).push(content),
            _ => developer_contents(messages.drop_last()),
        }
    }
}

/// Call IDs and contents of the tool-response messages, in order.
pub open spec fn response_contents(messages: Seq<ChatMessageView>) -> Seq<
    (Seq<char>, ChatContentView),
>
    decreases messages.len(),
{
    if messages.len() == 0 {
        Seq::empty()
    } else {
        match messages.last() {
            ChatMessageView::ToolResponse { content, tool_call_id } => response_contents(
                messages.drop_last(),
            ).push((tool_call_id, content)),
            _ => response_contents(messages.drop_last()),
        }
    }
}

/// Contents of the input messages with one role, in order.
pub open spec fn said_as(items: Seq<InputItemView>, role: InputRole) -> Seq<
    TextOrListView<InputContentPartView>,
>
    decreases items.len(),
{
    if items.len() == 0 {
        Seq::empty()
    } else {
        match items.last() {
            InputItemView::Message(message) => if message.role == role {
                said_as(items.drop_last(), role).push(message.content)
            } else {
                said_as(items.drop_last(), role)
            },
            _ => said_as(items.drop_last(), role),
        }
    }
}

/// Call IDs and contents of the tool-call outputs of a history, in order.
pub open spec fn output_contents(items: Seq<InputItemView>) -> Seq<
    (Seq<char>, TextOrListView<InputContentPartView>),
>
    decreases items.len(),
{
    if items.len() == 0 {
        Seq::empty()
    } else {
        match items.last() {
            InputItemView::FunctionCallOutput(output) => output_contents(items.drop_last()).push(
                (output.call_id, output.output),
            ),
            InputItemView::CustomToolCallOutput(output) => output_contents(items.drop_last()).push(
                (output.call_id, output.output),
            ),
            _ => output_contents(items.drop_last()),
        }
    }
}

/// Whether `shown` shows `contents`, one for one, in order.
pub open spec fn carries_all(
    contents: Seq<TextOrListView<InputContentPartView>>,
    shown: Seq<ChatContentView>,
) -> bool {
    &&& contents.len() == shown.len()
    &&& forall|i: int| 0 <= i < contents.len() ==> carries(#[trigger] contents[i], shown[i])
}

/// Whether tool responses answer `outputs`, one for one, in order.
pub open spec fn answers_all(
    outputs: Seq<(Seq<char>, TextOrListView<InputContentPartView>)>,
    shown: Seq<(Seq<char>, ChatContentView)>,
) -> bool {
    &&& outputs.len() == shown.len()
    &&& forall|i: int|
        0 <= i < outputs.len() ==> (#[trigger] outputs[i]).0 == shown[i].0 && carries(
            outputs[i].1,
            shown[i].1,
        )
}

/// What one history item adds to the messages, and where.
pub open spec fn item_is_added(
    before: Seq<ChatMessageView>,
    after: Seq<ChatMessageView>,
    item: InputItemView,
) -> bool {
    match item {
        InputItemView::Message(message) => if message.role is Assistant {
            true
        } else {
            &&& after.len() == before.len() + 1
            &&& after.drop_last() == before
            &&& match after.last() {
                ChatMessageView::User { content } => message.role is User && carries(
                    message.content,
                    content,
                ),
                ChatMessageView::Developer { content, tools } => message.role is Developer
                    && tools is None && carries(message.content, content),
                ChatMessageView::System { content } => message.role is System && carries(
                    message.content,
                    content,
                ),
                _ => false,
            }
        },
        InputItemView::FunctionCallOutput(output) => {
            &&& after.len() == before.len() + 1
            &&& after.drop_last() == before
            &&& after.last() matches ChatMessageView::ToolResponse { content, tool_call_id }
                && tool_call_id == output.call_id && carries(output.output, content)
        },
        InputItemView::CustomToolCallOutput(output) => {
            &&& after.len() == before.len() + 1
            &&& after.drop_last() == before
            &&& after.last() matches ChatMessageView::ToolResponse { content, tool_call_id }
                && tool_call_id == output.call_id && carries(output.output, content)
        },
        InputItemView::Unsupported => after == before,
        _ => true,
    }
}

/// The messages of one speaker in the messages with one more item.
proof fn item_keeps_speakers(before: Seq<ChatMessageView>, item: InputItemView)
    ensures
        with_item(before, item) matches Ok(after) ==> {
            &&& item_is_added(before, after, item)
            &&& carries_one(
                system_contents(before),
                system_contents(after),
                item,
                InputRole::System,
            )
            &&& carries_one(user_contents(before), user_contents(after), item, InputRole::User)
            &&& carries_one(
                developer_contents(before),
                developer_contents(after),
                item,
                InputRole::Developer,
            )
            &&& answers_one(response_contents(before), response_contents(after), item)
        },
{
    if let Ok(after) = with_item(before, item) {
        match item {
            InputItemView::Message(message) => {
                content_is_carried(message.content, ImagePolicy::Allowed);
                content_is_carried(message.content, ImagePolicy::Rejected("system"));
                if !(message.role is Assistant) {
                    assert(after.drop_last() =~= before);
                }
                if message.role is System {
                    assert(system_contents(after).drop_last() =~= system_contents(before));
                } else if message.role is User {
                    assert(user_contents(after).drop_last() =~= user_contents(before));
                } else if message.role is Developer {
                    assert(developer_contents(after).drop_last() =~= developer_contents(before));
                }
            },
            InputItemView::FunctionCallOutput(output) => {
                content_is_carried(output.output, ImagePolicy::Allowed);
                assert(after.drop_last() =~= before);
                assert(response_contents(after).drop_last() =~= response_contents(before));
            },
            InputItemView::CustomToolCallOutput(output) => {
                content_is_carried(output.output, ImagePolicy::Allowed);
                assert(after.drop_last() =~= before);
                assert(response_contents(after).drop_last() =~= response_contents(before));
            },
            _ => {},
        }
        if is_assistant_side(item) && after != before {
            if before.len() > 0 && before.last() is Assistant {
                assert(after.drop_last() =~= before.drop_last());
            } else {
                assert(after.drop_last() =~= before);
            }
        }
    }
}

/// Whether a history item is part of what the assistant did.
pub open spec fn is_assistant_side(item: InputItemView) -> bool {
    match item {
        InputItemView::Message(message) => message.role is Assistant,
        InputItemView::Reasoning(_) => true,
        InputItemView::FunctionCall(_) => true,
        InputItemView::CustomToolCall(_) => true,
        _ => false,
    }
}

/// One more item adds its content where it is a message of the role, and
/// nothing otherwise.
spec fn carries_one(
    before: Seq<ChatContentView>,
    after: Seq<ChatContentView>,
    item: InputItemView,
    role: InputRole,
) -> bool {
    if item is Message && item->Message_0.role == role {
        &&& after.len() == before.len() + 1
        &&& after.drop_last() == before
        &&& carries(item->Message_0.content, after.last())
    } else {
        after == before
    }
}

/// One more item adds its output where it is one, and nothing otherwise.
spec fn answers_one(
    before: Seq<(Seq<char>, ChatContentView)>,
    after: Seq<(Seq<char>, ChatContentView)>,
    item: InputItemView,
) -> bool {
    match item {
        InputItemView::FunctionCallOutput(output) => {
            &&& after.len() == before.len() + 1
            &&& after.drop_last() == before
            &&& after.last().0 == output.call_id
            &&& carries(output.output, after.last().1)
        },
        InputItemView::CustomToolCallOutput(output) => {
            &&& after.len() == before.len() + 1
            &&& after.drop_last() == before
            &&& after.last().0 == output.call_id
            &&& carries(output.output, after.last().1)
        },
        _ => after == before,
    }
}

proof fn carries_all_push(
    contents: Seq<TextOrListView<InputContentPartView>>,
    shown: Seq<ChatContentView>,
    content: TextOrListView<InputContentPartView>,
    last: ChatContentView,
)
    requires
        carries_all(contents, shown),
        carries(content, last),
    ensures
        carries_all(contents.push(content), shown.push(last)),
{
}

/// Who said what is kept: the system messages of a lowered history are the
/// instructions, if there are any, and then what the input messages with the
/// role `system` say, in order. The user and the developer messages are what the
/// input messages with these roles say, and the tool responses are the outputs
/// of tool calls, each under the ID of its call.
pub proof fn lowered_history_keeps_speakers(
    instructions: Option<Seq<char>>,
    items: Seq<InputItemView>,
)
    ensures
        messages_of(instructions, items) matches Ok(messages) ==> {
            let told = if instructions is Some {
                1int
            } else {
                0int
            };
            let systems = system_contents(messages);
            &&& systems.len() >= told
            &&& instructions matches Some(text) ==> systems[0] == ChatContentView::Text(text)
            &&& carries_all(said_as(items, InputRole::System), systems.skip(told))
            &&& carries_all(said_as(items, InputRole::User), user_contents(messages))
            &&& carries_all(said_as(items, InputRole::Developer), developer_contents(messages))
            &&& answers_all(output_contents(items), response_contents(messages))
        },
    decreases items.len(),
{
    let told = if instructions is Some {
        1int
    } else {
        0int
    };
    if items.len() == 0 {
        let messages = instruction_messages(instructions);
        reveal_with_fuel(system_contents, 2);
        reveal_with_fuel(user_contents, 2);
        reveal_with_fuel(developer_contents, 2);
        reveal_with_fuel(response_contents, 2);
        if messages.len() > 0 {
            assert(messages.drop_last() =~= Seq::<ChatMessageView>::empty());
        }
    } else {
        let rest = items.drop_last();
        let item = items.last();
        lowered_history_keeps_speakers(instructions, rest);
        if let Ok(before) = messages_of(instructions, rest) {
            item_keeps_speakers(before, item);
            if let Ok(after) = with_item(before, item) {
                let (old_systems, systems) = (system_contents(before), system_contents(after));
                if item is Message {
                    let (role, content) = (item->Message_0.role, item->Message_0.content);
                    if role is System {
                        assert(systems.skip(told) =~= old_systems.skip(told).push(systems.last()));
                        carries_all_push(
                            said_as(rest, role),
                            old_systems.skip(told),
                            content,
                            systems.last(),
                        );
                    } else if role is User {
                        let (old, new) = (user_contents(before), user_contents(after));
                        assert(new =~= old.push(new.last()));
                        carries_all_push(said_as(rest, role), old, content, new.last());
                    } else if role is Developer {
                        let (old, new) = (developer_contents(before), developer_contents(after));
                        assert(new =~= old.push(new.last()));
                        carries_all_push(said_as(rest, role), old, content, new.last());
                    }
                } else {
                    let (old, new) = (response_contents(before), response_contents(after));
                    if item is FunctionCallOutput || item is CustomToolCallOutput {
                        assert(new =~= old.push(new.last()));
                    }
                    assert(answers_all(output_contents(items), new));
                }
            }
        }
    }
}

/// The order of a history is kept: messages, tool outputs and unsupported items
/// are added behind everything before them, as one message each or as none.
pub proof fn items_are_added_in_order(
    instructions: Option<Seq<char>>,
    items: Seq<InputItemView>,
    item: InputItemView,
)
    ensures
        messages_of(instructions, items.push(item)) matches Ok(after) ==> messages_of(
            instructions,
            items,
        ) matches Ok(before) && item_is_added(before, after, item),
{
    assert(items.push(item).drop_last() =~= items);
    if let Ok(before) = messages_of(instructions, items) {
        item_keeps_speakers(before, item);
    }
}

/// What the assistant did is added behind everything before it: to the trailing
/// assistant message, after what it holds, or in a new message.
pub proof fn assistant_items_are_added_in_order(
    instructions: Option<Seq<char>>,
    items: Seq<InputItemView>,
    item: InputItemView,
)
    requires
        is_assistant_side(item),
    ensures
        messages_of(instructions, items.push(item)) matches Ok(after) ==> {
            &&& messages_of(instructions, items) matches Ok(before)
            &&& after == before || {
                &&& after.len() > 0
                &&& after.last() is Assistant
                &&& if before.len() > 0 && before.last() is Assistant {
                    &&& after.drop_last() == before.drop_last()
                    &&& before.last()->Assistant_content.is_prefix_of(
                        after.last()->Assistant_content,
                    )
                } else {
                    after.drop_last() == before
                }
            }
        },
{
    assert(items.push(item).drop_last() =~= items);
    if let Ok(before) = messages_of(instructions, items) {
        if let Ok(after) = with_item(before, item) {
            if after != before {
                if before.len() > 0 && before.last() is Assistant {
                    let kept = before.last()->Assistant_content;
                    assert(after.drop_last() =~= before.drop_last());
                    assert(kept =~= after.last()->Assistant_content.take(kept.len() as int));
                } else {
                    assert(after.drop_last() =~= before);
                }
            }
        }
    }
}

/// Whether a history item can be lowered: images are shown to the model in
/// user and developer messages and in tool outputs, and nowhere else.
pub open spec fn can_lower(item: InputItemView) -> bool {
    match item {
        InputItemView::Message(message) => can_show(
            message.content,
            message.role is User || message.role is Developer,
        ),
        InputItemView::FunctionCallOutput(output) => can_show(output.output, true),
        InputItemView::CustomToolCallOutput(output) => can_show(output.output, true),
        _ => true,
    }
}

/// A history is rejected only for an image that cannot be shown, and then for
/// the `input`.
pub proof fn history_is_accepted(instructions: Option<Seq<char>>, items: Seq<InputItemView>)
    ensures
        messages_of(instructions, items) is Ok <==> forall|i: int|
            0 <= i < items.len() ==> can_lower(#[trigger] items[i]),
        messages_of(instructions, items) matches Err(error)
            ==> error matches ApiErrorView::InvalidRequest { param, .. } && param == Some(
            "input"@,
        ),
    decreases items.len(),
{
    if items.len() > 0 {
        let rest = items.drop_last();
        let item = items.last();
        history_is_accepted(instructions, rest);
        match item {
            InputItemView::Message(message) => {
                content_is_carried(message.content, ImagePolicy::Allowed);
                content_is_carried(message.content, ImagePolicy::Rejected("system"));
                assistant_texts_are_kept(message.content);
            },
            InputItemView::FunctionCallOutput(output) => {
                content_is_carried(output.output, ImagePolicy::Allowed);
            },
            InputItemView::CustomToolCallOutput(output) => {
                content_is_carried(output.output, ImagePolicy::Allowed);
            },
            _ => {},
        }
        assert(items[items.len() - 1] == item);
        if messages_of(instructions, items) is Ok {
            assert forall|i: int| 0 <= i < items.len() implies can_lower(#[trigger] items[i]) by {
                if i < rest.len() {
                    assert(rest[i] == items[i]);
                }
            }
        } else if forall|i: int| 0 <= i < items.len() ==> can_lower(#[trigger] items[i]) {
            assert forall|i: int| 0 <= i < rest.len() implies can_lower(#[trigger] rest[i]) by {
                assert(rest[i] == items[i]);
            }
            assert(can_lower(items[items.len() - 1]));
        }
    }
}

/// A call that the assistant made is replayed with its ID, its name and its
/// arguments; that of a custom tool with its input wrapped. Reasoning is
/// replayed as the text of its parts, unless that is empty.
pub proof fn calls_and_reasoning_are_replayed(before: Seq<ChatMessageView>, item: InputItemView)
    requires
        item is FunctionCall || item is CustomToolCall || item is Reasoning,
    ensures
        with_item(before, item) matches Ok(after) && match item {
            InputItemView::FunctionCall(call) => {
                &&& after.last() matches ChatMessageView::Assistant { content }
                &&& content.last() matches AssistantContentBlockView::ToolCall(replayed)
                &&& replayed.id == call.call_id
                &&& replayed.name == call.name
                &&& replayed.arguments == call.arguments
            },
            InputItemView::CustomToolCall(call) => {
                &&& after.last() matches ChatMessageView::Assistant { content }
                &&& content.last() matches AssistantContentBlockView::ToolCall(replayed)
                &&& replayed.id == call.call_id
                &&& replayed.name == call.name
                &&& replayed.arguments == shim_text(call.input)
            },
            InputItemView::Reasoning(reasoning) => match reasoning.content {
                Some(parts) => if reasoning_text(parts).len() > 0 {
                    &&& after.last() matches ChatMessageView::Assistant { content }
                    &&& content.last() matches AssistantContentBlockView::Reasoning { text }
                    &&& text == reasoning_text(parts)
                } else {
                    after == before
                },
                None => after == before,
            },
            _ => true,
        },
{
}

/// Whether a request names a model that is not served.
pub open spec fn names_unknown_model(
    request: ResponsesRequestView,
    served: Seq<Seq<char>>,
) -> bool {
    request.model matches Some(model) && model.len() > 0 && forall|i: int|
        0 <= i < served.len() ==> #[trigger] served[i] != model
}

/// Whether `error` rejects the parameter `param`.
pub open spec fn rejects_param(error: Option<ApiErrorView>, param: Seq<char>) -> bool {
    error matches Some(ApiErrorView::InvalidRequest { param: named, .. }) && named == Some(param)
}

/// A request is served unless it names an unknown model, refers to a stored
/// response or conversation, is to run in the background, or asks for the
/// likelihood of alternatives. The first of these decides, and the error names
/// it.
pub proof fn rejection_names_its_reason(request: ResponsesRequestView, served: Seq<Seq<char>>)
    ensures
        ({
            let error = rejection(request, served);
            let unknown = names_unknown_model(request, served);
            let previous = request.previous_response_id is Some;
            let conversation = request.conversation is Some;
            let background = request.background == Some(true);
            let likelihood = request.top_logprobs matches Some(count) && count > 0;
            &&& unknown ==> error == Some(ApiErrorView::ModelNotFound { model: request.model->0 })
            &&& !unknown && previous ==> rejects_param(error, "previous_response_id"@)
            &&& !unknown && !previous && conversation ==> rejects_param(error, "conversation"@)
            &&& !unknown && !previous && !conversation && background ==> rejects_param(
                error,
                "background"@,
            )
            &&& !unknown && !previous && !conversation && !background && likelihood
                ==> rejects_param(error, "top_logprobs"@)
            &&& error is None <==> !unknown && !previous && !conversation && !background
                && !likelihood
        }),
{
    if request.model is Some && served.contains(request.model->0) {
        let i = choose|i: int| 0 <= i < served.len() && served[i] == request.model->0;
        assert(served[i] == request.model->0);
    }
}

} // verus!
