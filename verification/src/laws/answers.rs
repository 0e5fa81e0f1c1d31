//! What is said of an outcome, in JSON and in words.

use vstd::prelude::*;
use vstd::utf8::*;

use crate::api::auth::wit_error_name;
use crate::api::connect_rpc::{
    fault_text, install_rpc_error, missing_scope_text, uninstall_rpc_error, HostFault,
};
use crate::api::mcp::messages::{
    is_result_json, is_state_object, is_truncated, value_json, wit_message,
};
use crate::api::wire::{WireCommandResult, WireValue, WireWitError};
use crate::json::object_members_of;
use crate::json_value::{member_index, member_of, JsonModel};
use crate::overrides::{json_as_toml, table_of};
use crate::state::{CommandResult, InstallError, UninstallError, WitError};

verus! {

// ---------------------------------------------------------------------
// JSON
// ---------------------------------------------------------------------

/// A member that occurs once is found.
proof fn lemma_member_is_found(members: Seq<(Seq<char>, JsonModel)>, i: int)
    requires
        0 <= i < members.len(),
        forall|a: int, b: int|
            0 <= a < b < members.len() ==> (#[trigger] members[a]).0 != (#[trigger] members[b]).0,
    ensures
        member_index(members, members[i].0) == i,
    decreases members.len(),
{
    if i > 0 {
        assert(members[0].0 != members[i].0);
        let rest = members.skip(1);
        assert(rest[i - 1] == members[i]);
        assert forall|a: int, b: int| 0 <= a < b < rest.len() implies (#[trigger] rest[a]).0 != (
        #[trigger] rest[b]).0 by {
            assert(rest[a] == members[a + 1] && rest[b] == members[b + 1]);
        }
        lemma_member_is_found(rest, i - 1);
    }
}

/// The answer to a command says how it ended, and of an error its kind and its message.
pub proof fn law_answers_say_how_it_ended(r: JsonModel, result: WireCommandResult)
    requires
        is_result_json(r, result),
    ensures
        member_of(r, "kind"@) == Some(
            JsonModel::Text(
                match result {
                    WireCommandResult::Done => "ok"@,
                    WireCommandResult::OkWithState { .. } => "ok_with_state"@,
                    WireCommandResult::Failed { .. } => "err"@,
                },
            ),
        ),
        member_of(r, "state"@) is Some <==> result is OkWithState,
        member_of(r, "error"@) is Some <==> result is Failed,
        result matches WireCommandResult::Failed { error } ==> member_of(
            member_of(r, "error"@)->0,
            "message"@,
        ) == Some(
            JsonModel::Text(
                match error {
                    WireWitError::NotFound { message } => message@,
                    WireWitError::InvalidArgument { message } => message@,
                    WireWitError::PermissionDenied { message } => message@,
                    WireWitError::Unavailable { message } => message@,
                    WireWitError::Internal { message } => message@,
                },
            ),
        ) && member_of(member_of(r, "error"@)->0, "kind"@) == Some(
            JsonModel::Text(
                match error {
                    WireWitError::NotFound { .. } => "not_found"@,
                    WireWitError::InvalidArgument { .. } => "invalid_argument"@,
                    WireWitError::PermissionDenied { .. } => "permission_denied"@,
                    WireWitError::Unavailable { .. } => "unavailable"@,
                    WireWitError::Internal { .. } => "internal"@,
                },
            ),
        ),
{
    reveal_strlit("kind");
    reveal_strlit("state");
    reveal_strlit("error");
    reveal_strlit("message");
    assert("kind"@[0] == 'k' && "state"@[0] == 's' && "error"@[0] == 'e' && "message"@[0] == 'm');
    reveal_with_fuel(member_index, 3);
    if let JsonModel::Object(members) = r {
        if members.len() == 2 {
            assert(members.skip(1)[0] == members[1]);
            if let JsonModel::Object(inner) = members[1].1 {
                if inner.len() == 2 {
                    assert(inner.skip(1)[0] == inner[1]);
                }
            }
        }
    }
}

/// The state that comes with an answer has every field of it under its name, and no other.
pub proof fn law_answers_carry_the_state(
    members: Seq<(Seq<char>, JsonModel)>,
    state: Map<Seq<char>, WireValue>,
    name: Seq<char>,
)
    requires
        is_state_object(members, state),
    ensures
        state.dom().contains(name) ==> member_of(JsonModel::Object(members), name) == Some(
            value_json(state[name]@),
        ),
        member_of(JsonModel::Object(members), name) is Some ==> state.dom().contains(name),
{
    if state.dom().contains(name) {
        let i = choose|i: int| 0 <= i < members.len() && (#[trigger] members[i]).0 == name;
        lemma_member_is_found(members, i);
    }
    if member_of(JsonModel::Object(members), name) is Some {
        lemma_index_has_name(members, name);
        assert(state.dom().contains(members[member_index(members, name)].0));
    }
}

/// The member at the index of a name has the name.
proof fn lemma_index_has_name(members: Seq<(Seq<char>, JsonModel)>, name: Seq<char>)
    ensures
        0 <= member_index(members, name) <= members.len(),
        member_index(members, name) < members.len() ==> members[member_index(members, name)].0
            == name,
    decreases members.len(),
{
    if members.len() > 0 && members[0].0 != name {
        lemma_index_has_name(members.skip(1), name);
    }
}

/// What a plugin answered is changed in nothing but the length of an error's message.
pub proof fn law_only_long_messages_are_cut(r: CommandResult, result: CommandResult)
    requires
        is_truncated(r, result),
    ensures
        !(result is Failed) ==> r == result,
        result matches CommandResult::Failed(err) ==> (r matches CommandResult::Failed(out) && (
        encode_utf8(wit_message(err)).len() <= 4096 ==> wit_message(out) == wit_message(err)) && (
        out is NotFound <==> err is NotFound) && (out is PermissionDenied <==> err
            is PermissionDenied) && (out is InvalidArgument <==> err is InvalidArgument) && (
        out is Unavailable <==> err is Unavailable) && (out is Internal <==> err is Internal)),
{
    reveal_strlit("not_found");
    reveal_strlit("invalid_argument");
    reveal_strlit("permission_denied");
    reveal_strlit("unavailable");
    reveal_strlit("internal");
    assert("not_found"@[0] == 'n' && "invalid_argument"@[0] == 'i' && "permission_denied"@[0]
        == 'p' && "unavailable"@[0] == 'u' && "internal"@[0] == 'i');
    assert("not_found"@.len() == 9 && "invalid_argument"@.len() == 16 && "internal"@.len() == 8);
}

/// The message of an error is the one that the plugin gave.
pub proof fn law_messages_are_the_plugins(err: WitError)
    ensures
        wit_message(err) == (match err {
            WitError::NotFound(message) => message@,
            WitError::PermissionDenied(message) => message@,
            WitError::InvalidArgument(message) => message@,
            WitError::Unavailable(message) => message@,
            WitError::Internal(message) => message@,
        }),
        wit_error_name(err) == (match err {
            WitError::NotFound(_) => "not_found"@,
            WitError::PermissionDenied(_) => "permission_denied"@,
            WitError::InvalidArgument(_) => "invalid_argument"@,
            WitError::Unavailable(_) => "unavailable"@,
            WitError::Internal(_) => "internal"@,
        }),
{
}

// ---------------------------------------------------------------------
// Words
// ---------------------------------------------------------------------

/// Whether a text says something: whether it stands somewhere in it.
pub open spec fn says(text: Seq<char>, what: Seq<char>) -> bool {
    exists|before: Seq<char>, after: Seq<char>| #[trigger] is_around(text, before, what, after)
}

/// Whether a text is another with these around it.
pub open spec fn is_around(
    text: Seq<char>,
    before: Seq<char>,
    what: Seq<char>,
    after: Seq<char>,
) -> bool {
    text == before + what + after
}

/// A text says what stands in it.
pub proof fn lemma_says(text: Seq<char>, before: Seq<char>, what: Seq<char>, after: Seq<char>)
    requires
        text =~= before + what + after,
    ensures
        says(text, what),
{
    assert(is_around(text, before, what, after));
}

/// An error tells what it is about: the scope that is missing, the path or the plugin that an
/// installation or a removal failed on, and the words of the cause.
pub proof fn law_errors_say_what_they_are_about(
    required: Seq<char>,
    install: InstallError,
    uninstall: UninstallError,
    fault: HostFault,
)
    ensures
        says(missing_scope_text(required), required),
        install matches InstallError::SourceMissing { path } ==> says(
            install_rpc_error(install).1,
            path@,
        ),
        install matches InstallError::AlreadyInstalled { plugin_id } ==> says(
            install_rpc_error(install).1,
            plugin_id@,
        ),
        install matches InstallError::BadManifest { path, reason } ==> says(
            install_rpc_error(install).1,
            path@,
        ) && says(install_rpc_error(install).1, reason@),
        uninstall matches UninstallError::NotInstalled { plugin_id } ==> says(
            uninstall_rpc_error(uninstall).1,
            plugin_id@,
        ),
        fault matches HostFault::Start(words) ==> says(fault_text(fault), words@),
        fault matches HostFault::NotRunning(words) ==> says(fault_text(fault), words@),
{
    let none = Seq::<char>::empty();
    lemma_says(missing_scope_text(required), "scope "@, required, " required"@);
    let text = install_rpc_error(install).1;
    match install {
        InstallError::SourceMissing { path } => {
            lemma_says(
                text,
                "source dir missing or has no manifest.toml: "@,
                path@,
                none,
            );
        },
        InstallError::AlreadyInstalled { plugin_id } => {
            lemma_says(text, "plugin "@, plugin_id@, " is already installed"@);
        },
        InstallError::BadManifest { path, reason } => {
            lemma_says(text, "manifest at "@, path@, ": "@ + reason@);
            lemma_says(text, "manifest at "@ + path@ + ": "@, reason@, none);
        },
        _ => {},
    }
    if let UninstallError::NotInstalled { plugin_id } = uninstall {
        lemma_says(
            uninstall_rpc_error(uninstall).1,
            "plugin "@,
            plugin_id@,
            " is not installed"@,
        );
    }
    match fault {
        HostFault::Start(words) => {
            lemma_says(fault_text(fault), "start_instance failed: "@, words@, none);
        },
        HostFault::NotRunning(words) => {
            lemma_says(fault_text(fault), "wait_for_running failed: "@, words@, none);
        },
        _ => {},
    }
}

/// How the words on a failure of the host begin.
spec fn first_of(fault: HostFault) -> char {
    match fault {
        HostFault::Dispatch => 'd',
        HostFault::Logs => 'l',
        HostFault::Install => 'i',
        HostFault::Uninstall => 'u',
        HostFault::Start(_) => 's',
        HostFault::NotRunning(_) => 'w',
    }
}

/// Two failures of the host that are of different kinds are told differently.
pub proof fn law_faults_are_told_apart(a: HostFault, b: HostFault)
    requires
        fault_text(a) == fault_text(b),
    ensures
        a is Dispatch <==> b is Dispatch,
        a is Logs <==> b is Logs,
        a is Install <==> b is Install,
        a is Uninstall <==> b is Uninstall,
        a is Start <==> b is Start,
        a is NotRunning <==> b is NotRunning,
{
    reveal_strlit("device command dispatch failed");
    reveal_strlit("logs query failed");
    reveal_strlit("install task join failed");
    reveal_strlit("uninstall task join failed");
    reveal_strlit("start_instance failed: ");
    reveal_strlit("wait_for_running failed: ");
    assert("device command dispatch failed"@[0] == 'd' && "logs query failed"@[0] == 'l'
        && "install task join failed"@[0] == 'i' && "uninstall task join failed"@[0] == 'u'
        && "start_instance failed: "@[0] == 's' && "wait_for_running failed: "@[0] == 'w');
    assert(first_of(a) == fault_text(a)[0]);
    assert(first_of(b) == fault_text(b)[0]);
}

/// What is said of a failure of the host's own, or of a refusal of authentication, does not depend
/// on what went wrong inside.
pub proof fn law_inner_failures_are_not_told(a: String, b: String)
    ensures
        install_rpc_error(InstallError::Io(a)) == install_rpc_error(InstallError::Io(b)),
        install_rpc_error(InstallError::Persistence(a)) == install_rpc_error(
            InstallError::Persistence(b),
        ),
        uninstall_rpc_error(UninstallError::Io(a)) == uninstall_rpc_error(UninstallError::Io(b)),
        uninstall_rpc_error(UninstallError::Persistence(a)) == uninstall_rpc_error(
            UninstallError::Persistence(b),
        ),
{
}

/// Overrides that come in a body are read exactly where they are a JSON object that the
/// configuration can hold, and are then what was written.
pub proof fn law_overrides_are_objects(text: Seq<char>)
    ensures
        table_of(text) is Ok <==> object_members_of(text) is Some && json_as_toml(text) is Ok,
        table_of(text) is Ok ==> table_of(text) == json_as_toml(text),
        object_members_of(text) is Some ==> table_of(text) == json_as_toml(text),
{
}

} // verus!
