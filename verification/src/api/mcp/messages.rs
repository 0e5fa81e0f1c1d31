//! Messages of plugins, cut to a length that the host can carry.

use vstd::prelude::*;
use vstd::utf8::*;

use crate::api::auth::wit_error_name;
use crate::api::wire::{wire_error, WireCommandResult, WireValue, WireWitError};
use crate::json_value::{
    json_items, json_list, json_members, json_object, json_text, object1, object2, Json, JsonModel,
};
use crate::state::{CommandResult, ValueModel, WitError};
use crate::text::{char_bytes, char_len, chars_of, lemma_encode_add, lemma_encode_push};

verus! {

/// The longest message of a plugin, in bytes.
pub const MAX_PLUGIN_ERROR_MESSAGE_BYTES: usize = 4096;

/// What stands at the end of a message that was cut.
pub const TRUNCATED_SUFFIX: &'static str = "… [truncated by host]";

/// Whether `n` is the number of characters that a message is cut to: so many fit, and one more
/// does not.
pub open spec fn is_cut(message: Seq<char>, n: int) -> bool {
    &&& 0 <= n <= message.len()
    &&& encode_utf8(message.take(n)).len() <= MAX_PLUGIN_ERROR_MESSAGE_BYTES
    &&& n < message.len() ==> encode_utf8(message.take(n + 1)).len()
        > MAX_PLUGIN_ERROR_MESSAGE_BYTES
}

/// Whether `out` is a message as it is carried: whole where it is short enough, and cut between
/// two characters otherwise.
pub open spec fn is_capped(message: Seq<char>, out: Seq<char>) -> bool {
    if encode_utf8(message).len() <= MAX_PLUGIN_ERROR_MESSAGE_BYTES {
        out == message
    } else {
        exists|n: int| #[trigger] is_cut(message, n) && out == message.take(n) + TRUNCATED_SUFFIX@
    }
}

/// Cuts a message that is too long.
pub fn cap_message(message: String) -> (r: String)
    ensures
        is_capped(message@, r@),
{
    if message.as_str().as_bytes().len() <= MAX_PLUGIN_ERROR_MESSAGE_BYTES {
        return message;
    }
    let ghost all = message@;
    let chars = chars_of(message.as_str());
    let mut n: usize = 0;
    let mut size: usize = 0;
    assert(all.take(0) =~= Seq::<char>::empty());
    assert(encode_utf8(Seq::<char>::empty()) =~= Seq::<u8>::empty());
    while n < chars.len() && size + char_len(chars[n]) <= MAX_PLUGIN_ERROR_MESSAGE_BYTES
        invariant
            0 <= n <= chars.len(),
            chars@ == all,
            size == encode_utf8(all.take(n as int)).len(),
            size <= MAX_PLUGIN_ERROR_MESSAGE_BYTES,
        ensures
            n < chars.len() ==> size + char_bytes(chars@[n as int])
                > MAX_PLUGIN_ERROR_MESSAGE_BYTES,
        decreases chars.len() - n,
    {
        proof {
            lemma_encode_push(all.take(n as int), all[n as int]);
            assert(all.take(n + 1) =~= all.take(n as int).push(all[n as int]));
        }
        size = size + char_len(chars[n]);
        n += 1;
    }
    proof {
        if n < chars.len() {
            lemma_encode_push(all.take(n as int), all[n as int]);
            assert(all.take(n + 1) =~= all.take(n as int).push(all[n as int]));
        }
        assert(is_cut(all, n as int));
    }
    let mut out = message.as_str().substring_char(0, n).to_owned();
    assert(out@ == all.take(n as int));
    out.append(TRUNCATED_SUFFIX);
    out
}

/// A message is cut at one place only, so what is carried is determined by the message.
pub proof fn law_cut_is_unique(message: Seq<char>, n: int, m: int)
    requires
        is_cut(message, n),
        is_cut(message, m),
    ensures
        n == m,
{
    if n < m {
        lemma_prefix_bytes(message, n + 1, m);
    }
    if m < n {
        lemma_prefix_bytes(message, m + 1, n);
    }
}

/// A longer beginning takes no fewer bytes.
proof fn lemma_prefix_bytes(message: Seq<char>, n: int, m: int)
    requires
        0 <= n <= m <= message.len(),
    ensures
        encode_utf8(message.take(n)).len() <= encode_utf8(message.take(m)).len(),
{
    assert(message.take(m) =~= message.take(n) + message.subrange(n, m));
    lemma_encode_add(message.take(n), message.subrange(n, m));
}

/// What is carried never takes more bytes than the longest message and the mark of the cut.
pub proof fn law_carried_messages_are_bounded(message: Seq<char>, out: Seq<char>)
    requires
        is_capped(message, out),
    ensures
        encode_utf8(out).len() <= MAX_PLUGIN_ERROR_MESSAGE_BYTES + encode_utf8(
            TRUNCATED_SUFFIX@,
        ).len(),
{
    if encode_utf8(message).len() > MAX_PLUGIN_ERROR_MESSAGE_BYTES {
        let n = choose|n: int|
            #[trigger] is_cut(message, n) && out == message.take(n) + TRUNCATED_SUFFIX@;
        lemma_encode_add(message.take(n), TRUNCATED_SUFFIX@);
    }
}

/// The message of a plugin error.
pub open spec fn wit_message(err: WitError) -> Seq<char> {
    match err {
        WitError::NotFound(m) => m@,
        WitError::InvalidArgument(m) => m@,
        WitError::PermissionDenied(m) => m@,
        WitError::Unavailable(m) => m@,
        WitError::Internal(m) => m@,
    }
}

/// Whether an answer is that of a plugin, with a message that the host can carry.
pub open spec fn is_truncated(r: CommandResult, result: CommandResult) -> bool {
    match result {
        CommandResult::Failed(e) => r matches CommandResult::Failed(out) && wit_error_name(out)
            == wit_error_name(e) && is_capped(wit_message(e), wit_message(out)),
        other => r == other,
    }
}

/// Cuts the message of a plugin error. Any other answer stays as it is.
pub fn truncate_plugin_error(result: CommandResult) -> (r: CommandResult)
    ensures
        is_truncated(r, result),
{
    let err = match result {
        CommandResult::Failed(err) => err,
        other => return other,
    };
    let truncated = match err {
        WitError::NotFound(m) => WitError::NotFound(cap_message(m)),
        WitError::InvalidArgument(m) => WitError::InvalidArgument(cap_message(m)),
        WitError::PermissionDenied(m) => WitError::PermissionDenied(cap_message(m)),
        WitError::Unavailable(m) => WitError::Unavailable(cap_message(m)),
        WitError::Internal(m) => WitError::Internal(cap_message(m)),
    };
    CommandResult::Failed(truncated)
}

/// The stable name of a plugin error on the wire.
pub open spec fn wire_error_name(err: WireWitError) -> Seq<char> {
    match err {
        WireWitError::NotFound { .. } => "not_found"@,
        WireWitError::InvalidArgument { .. } => "invalid_argument"@,
        WireWitError::PermissionDenied { .. } => "permission_denied"@,
        WireWitError::Unavailable { .. } => "unavailable"@,
        WireWitError::Internal { .. } => "internal"@,
    }
}

/// The message of a plugin error on the wire.
pub open spec fn wire_message(err: WireWitError) -> Seq<char> {
    match err {
        WireWitError::NotFound { message } => message@,
        WireWitError::InvalidArgument { message } => message@,
        WireWitError::PermissionDenied { message } => message@,
        WireWitError::Unavailable { message } => message@,
        WireWitError::Internal { message } => message@,
    }
}

/// The stable name of a plugin error on the wire.
pub fn wit_error_kind_of_wire(err: &WireWitError) -> (r: &'static str)
    ensures
        r@ == wire_error_name(*err),
{
    match err {
        WireWitError::NotFound { .. } => "not_found",
        WireWitError::InvalidArgument { .. } => "invalid_argument",
        WireWitError::PermissionDenied { .. } => "permission_denied",
        WireWitError::Unavailable { .. } => "unavailable",
        WireWitError::Internal { .. } => "internal",
    }
}

/// The message of a plugin error on the wire.
pub fn message_of_wire_error(err: &WireWitError) -> (r: &str)
    ensures
        r@ == wire_message(*err),
{
    match err {
        WireWitError::NotFound { message } => message.as_str(),
        WireWitError::InvalidArgument { message } => message.as_str(),
        WireWitError::PermissionDenied { message } => message.as_str(),
        WireWitError::Unavailable { message } => message.as_str(),
        WireWitError::Internal { message } => message.as_str(),
    }
}

/// An error keeps its name and its message on the wire.
pub proof fn law_wire_errors_keep_name_and_message(err: WitError)
    ensures
        wire_error_name(wire_error(err)) == wit_error_name(err),
        wire_message(wire_error(err)) == wit_message(err),
{
}

// ---------------------------------------------------------------------
// Answers to commands as JSON
// ---------------------------------------------------------------------

/// A byte as a JSON number.
pub open spec fn byte_numbers(bytes: Seq<u8>) -> Seq<JsonModel> {
    bytes.map_values(|b: u8| JsonModel::Int(b as int))
}

/// A value with its type beside it.
pub open spec fn tagged_json(tag: Seq<char>, value: JsonModel) -> JsonModel {
    JsonModel::Object(seq![("t"@, JsonModel::Text(tag)), ("v"@, value)])
}

/// A typed value as JSON.
pub open spec fn value_json(value: ValueModel) -> JsonModel {
    match value {
        ValueModel::Bool(b) => tagged_json("Bool"@, JsonModel::Bool(b)),
        ValueModel::Int(i) => tagged_json("Int"@, JsonModel::Int(i as int)),
        ValueModel::Float(bits) => tagged_json("Float"@, JsonModel::Float(bits)),
        ValueModel::Text(t) => tagged_json("String"@, JsonModel::Text(t)),
        ValueModel::Bytes(b) => tagged_json("Bytes"@, JsonModel::List(byte_numbers(b))),
        ValueModel::Json(t) => tagged_json("Json"@, JsonModel::Text(t)),
    }
}

/// A typed value as JSON.
pub fn wire_value_json(value: &WireValue) -> (r: Json)
    ensures
        r@ == value_json(value@),
{
    match value {
        WireValue::Bool(b) => object2("t", json_text("Bool"), "v", Json::Bool(*b)),
        WireValue::Int(i) => object2("t", json_text("Int"), "v", Json::Int(*i as i128)),
        WireValue::Float(bits) => object2("t", json_text("Float"), "v", Json::Float(*bits)),
        WireValue::Text(t) => object2("t", json_text("String"), "v", json_text(t.as_str())),
        WireValue::Bytes(bytes) => {
            let mut items: Vec<Json> = Vec::new();
            let mut i: usize = 0;
            while i < bytes.len()
                invariant
                    0 <= i <= bytes.len(),
                    items.len() == i,
                    forall|j: int|
                        0 <= j < i ==> (#[trigger] items@[j])@ == JsonModel::Int(bytes@[j] as int),
                decreases bytes.len() - i,
            {
                items.push(Json::Int(bytes[i] as i128));
                i += 1;
            }
            assert(json_items(items@) =~= byte_numbers(bytes@));
            object2("t", json_text("Bytes"), "v", json_list(items))
        },
        WireValue::Json(t) => object2("t", json_text("Json"), "v", json_text(t.as_str())),
    }
}

/// Whether members are those of a map, each name once.
pub open spec fn is_state_object(
    members: Seq<(Seq<char>, JsonModel)>,
    state: Map<Seq<char>, WireValue>,
) -> bool {
    &&& forall|i: int, j: int|
        0 <= i < j < members.len() ==> (#[trigger] members[i]).0 != (#[trigger] members[j]).0
    &&& forall|i: int|
        0 <= i < members.len() ==> state.dom().contains((#[trigger] members[i]).0)
            && members[i].1 == value_json(state[members[i].0]@)
    &&& forall|k: Seq<char>|
        state.dom().contains(k) ==> exists|i: int|
            0 <= i < members.len() && (#[trigger] members[i]).0 == k
}

/// Whether a JSON value is the answer to a command.
pub open spec fn is_result_json(r: JsonModel, result: WireCommandResult) -> bool {
    match result {
        WireCommandResult::Done => r == JsonModel::Object(seq![("kind"@, JsonModel::Text("ok"@))]),
        WireCommandResult::OkWithState { state } => exists|members: Seq<(Seq<char>, JsonModel)>|
            #[trigger]
            is_state_object(members, state@) && r == JsonModel::Object(
                seq![
                    ("kind"@, JsonModel::Text("ok_with_state"@)),
                    ("state"@, JsonModel::Object(members)),
                ],
            ),
        WireCommandResult::Failed { error } => r == JsonModel::Object(
            seq![
                ("kind"@, JsonModel::Text("err"@)),
                (
                    "error"@,
                    JsonModel::Object(
                        seq![
                            ("kind"@, JsonModel::Text(wire_error_name(error))),
                            ("message"@, JsonModel::Text(wire_message(error))),
                        ],
                    ),
                ),
            ],
        ),
    }
}

/// The answer to a command as JSON, and the name of the error that it carries.
pub fn command_result_json(result: WireCommandResult) -> (r: Json)
    ensures
        is_result_json(r@, result),
{
    match result {
        WireCommandResult::Done => object1("kind", json_text("ok")),
        WireCommandResult::OkWithState { state } => {
            let ghost map = state@;
            let entries = state.into_entries();
            let mut members: Vec<(String, Json)> = Vec::new();
            let mut i: usize = 0;
            while i < entries.len()
                invariant
                    0 <= i <= entries.len(),
                    members.len() == i,
                    forall|j: int|
                        0 <= j < i ==> (#[trigger] members@[j]).0@ == entries@[j].0@
                            && members@[j].1@ == value_json(entries@[j].1@),
                decreases entries.len() - i,
            {
                let entry = &entries[i];
                members.push((entry.0.clone(), wire_value_json(&entry.1)));
                i += 1;
            }
            proof {
                let m = json_members(members@);
                assert forall|a: int, b: int| 0 <= a < b < m.len() implies (#[trigger] m[a]).0 != (
                #[trigger] m[b]).0 by {
                    assert(entries@[a].0@ != entries@[b].0@);
                }
                assert forall|a: int| 0 <= a < m.len() implies map.dom().contains(
                    (#[trigger] m[a]).0,
                ) && m[a].1 == value_json(map[m[a].0]@) by {
                    crate::text_map::lemma_entries_value(entries@, a);
                }
                assert forall|k: Seq<char>| map.dom().contains(k) implies exists|a: int|
                    0 <= a < m.len() && (#[trigger] m[a]).0 == k by {
                    crate::text_map::lemma_entries_dom(entries@, k);
                    let a = choose|a: int|
                        0 <= a < entries@.len() && (#[trigger] entries@[a]).0@ == k;
                    assert(m[a].0 == k);
                }
                assert(is_state_object(m, map));
            }
            object2("kind", json_text("ok_with_state"), "state", json_object(members))
        },
        WireCommandResult::Failed { error } => {
            let kind = json_text(wit_error_kind_of_wire(&error));
            let message = json_text(message_of_wire_error(&error));
            let inner = object2("kind", kind, "message", message);
            object2("kind", json_text("err"), "error", inner)
        },
    }
}

} // verus!
