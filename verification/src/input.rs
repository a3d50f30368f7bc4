//! Normalization of the `input` of a request.

use serde_json::{Map as JsonMap, Value};
use vstd::prelude::*;

use crate::json::{
    has_member, inserted_is_found, json_entries, json_string, map_contains, map_insert, member,
    Json,
};
use crate::text::{decimal, usize_to_string};
use crate::types::{
    InputContentPartView, InputItem, InputItemView, InputMessage, InputMessageView, InputRole,
    ResponseInput, ResponseInputView, TextOrList, TextOrListView,
};

verus! {

/// The members of a history item after its type tag was filled in.
pub open spec fn tagged(entries: Seq<(Seq<char>, Json)>) -> Seq<(Seq<char>, Json)> {
    if has_member(entries, "type"@) {
        entries
    } else {
        entries.push(("type"@, Json::String("message"@)))
    }
}

/// Fill in the type tag of a history item: messages may omit it.
pub fn tag_item(object: JsonMap<String, Value>) -> (item: JsonMap<String, Value>)
    ensures
        json_entries(item) == tagged(json_entries(object)),
{
    let mut object = object;
    if !map_contains(&object, "type") {
        map_insert(&mut object, "type".to_string(), json_string("message".to_string()));
    }
    object
}

/// The error of the history item at `index`.
pub open spec fn item_error(index: nat, report: Seq<char>) -> Seq<char> {
    "input["@ + decimal(index) + "]: "@ + report
}

/// What history items read as: all of them, or the first error with its
/// position.
pub open spec fn items_of(items: Seq<Result<InputItem, String>>) -> Result<
    Seq<InputItemView>,
    Seq<char>,
>
    decreases items.len(),
{
    if items.len() == 0 {
        Ok(Seq::empty())
    } else {
        match items_of(items.drop_last()) {
            Err(report) => Err(report),
            Ok(read) => match items.last() {
                Ok(item) => Ok(read.push(item.deep_view())),
                Err(report) => Err(item_error((items.len() - 1) as nat, report@)),
            },
        }
    }
}

/// The first error among history items decides.
proof fn items_fail(items: Seq<Result<InputItem, String>>, at: int)
    requires
        0 <= at <= items.len(),
        items_of(items.take(at)) is Err,
    ensures
        items_of(items) == items_of(items.take(at)),
    decreases items.len() - at,
{
    if at == items.len() {
        assert(items.take(at) =~= items);
    } else {
        assert(items.take(at + 1).drop_last() =~= items.take(at));
        items_fail(items, at + 1);
    }
}

impl ResponseInputView {
    /// A history of one user message.
    pub open spec fn of_text(text: Seq<char>) -> ResponseInputView {
        ResponseInputView(
            seq![
                InputItemView::Message(
                    InputMessageView { role: InputRole::User, content: TextOrListView::Text(text) },
                ),
            ],
        )
    }
}

impl Default for ResponseInput {
    /// An empty history.
    fn default() -> (input: Self)
        ensures
            input.deep_view() == ResponseInputView(Seq::empty()),
    {
        let input = ResponseInput(Vec::new());
        assert(input.deep_view().0 =~= Seq::empty());
        input
    }
}

impl ResponseInput {
    /// A plain string is one user message.
    pub fn from_text(text: &str) -> (input: Self)
        ensures
            input.deep_view() == ResponseInputView::of_text(text@),
    {
        let input = ResponseInput(
            vec![
                InputItem::Message(
                    InputMessage {
                        role: InputRole::User,
                        content: TextOrList::Text(text.to_string()),
                    },
                ),
            ],
        );
        assert(input.deep_view().0 =~= ResponseInputView::of_text(text@).0);
        input
    }

    /// A list of items, each read or reported as malformed. The first malformed
    /// one is reported with its position.
    pub fn from_items(items: Vec<Result<InputItem, String>>) -> (input: Result<Self, String>)
        ensures
            match input {
                Ok(input) => items_of(items@) == Ok::<_, Seq<char>>(input.deep_view().0),
                Err(report) => items_of(items@) == Err::<Seq<InputItemView>, _>(report@),
            },
    {
        let mut read: Vec<InputItem> = Vec::new();
        assert(read.deep_view() =~= Seq::<InputItemView>::empty());
        for item in it: items
            invariant
                it.seq() == items@,
                read.len() == it.index(),
                items_of(items@.take(it.index())) == Ok::<_, Seq<char>>(read.deep_view()),
        {
            let ghost before = read.deep_view();
            assert(items@.take(it.index() + 1).drop_last() =~= items@.take(it.index()));
            assert(items@.take(it.index() + 1).last() == item);
            match item {
                Ok(item) => {
                    read.push(item);
                    assert(read.deep_view() =~= before.push(item.deep_view()));
                },
                Err(error) => {
                    proof {
                        items_fail(items@, it.index() + 1);
                    }
                    let mut report = "input[".to_string();
                    report.append(usize_to_string(read.len()).as_str());
                    report.append("]: ");
                    report.append(error.as_str());
                    return Err(report);
                },
            }
        }
        assert(items@.take(items@.len() as int) =~= items@);
        Ok(ResponseInput(read))
    }
}

/// A tagged item has a type: its own, or that of a message where it has none.
/// Every other member stays as it is.
pub proof fn tagging_keeps_the_item(entries: Seq<(Seq<char>, Json)>, other: Seq<char>)
    ensures
        ({
            let before = Json::Object(entries);
            let after = Json::Object(tagged(entries));
            &&& member(before, "type"@) matches Some(kind) ==> after == before
            &&& member(before, "type"@) is None ==> member(after, "type"@) == Some(
                Json::String("message"@),
            )
            &&& other != "type"@ ==> member(after, other) == member(before, other)
        }),
{
    inserted_is_found(entries, "type"@, Json::String("message"@), other);
}

/// A list of items is read where all of them are: each as itself, in order.
/// Otherwise the first malformed one is reported, by its position from zero and
/// with its own report.
pub proof fn first_malformed_item_is_reported(items: Seq<Result<InputItem, String>>)
    ensures
        items_of(items) matches Ok(read) ==> read.len() == items.len() && forall|i: int|
            0 <= i < items.len() ==> (#[trigger] items[i] matches Ok(item) && item.deep_view()
                == read[i]),
        items_of(items) matches Err(report) ==> exists|at: int|
            0 <= at < items.len() && (forall|i: int| 0 <= i < at ==> #[trigger] items[i] is Ok) && (
            #[trigger] items[at] matches Err(own) && report == "input["@ + decimal(at as nat)
                + "]: "@ + own@),
        items_of(items) is Ok <==> forall|i: int|
            0 <= i < items.len() ==> #[trigger] items[i] is Ok,
    decreases items.len(),
{
    if items.len() > 0 {
        let rest = items.drop_last();
        let last = items.len() - 1;
        first_malformed_item_is_reported(rest);
        assert forall|i: int| 0 <= i < rest.len() implies rest[i] == #[trigger] items[i] by {}
        match items_of(rest) {
            Ok(read) => {
                assert forall|i: int| 0 <= i < last implies #[trigger] items[i] is Ok && items[i]
                    ->Ok_0.deep_view() == read[i] by {
                    assert(rest[i] is Ok);
                }
                assert(items[last] == items.last());
            },
            Err(_) => {
                let at = choose|at: int|
                    0 <= at < rest.len() && (forall|i: int|
                        0 <= i < at ==> #[trigger] rest[i] is Ok) && (
                    #[trigger] rest[at] matches Err(own) && items_of(rest)->Err_0 == "input["@
                        + decimal(at as nat) + "]: "@ + own@);
                assert(items[at] == rest[at]);
                assert forall|i: int| 0 <= i < at implies #[trigger] items[i] is Ok by {
                    assert(rest[i] is Ok);
                }
            },
        }
    }
}

/// A plain string is a history of one message, which the user says.
pub proof fn plain_text_is_said_by_the_user(text: Seq<char>)
    ensures
        ({
            let items = ResponseInputView::of_text(text).0;
            &&& items.len() == 1
            &&& items[0] matches InputItemView::Message(message) && message.role is User
                && message.content == TextOrListView::<InputContentPartView>::Text(text)
        }),
{
}

} // verus!
