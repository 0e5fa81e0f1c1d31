//! What the values of the library say of themselves.

use vstd::prelude::*;

use crate::api::mcp::handler::opt_actor;
use crate::api::mcp::prompts::{opt_args, ArgValue};
use crate::api::mcp::resources::{KindModel, ResourceKind, Route, RouteModel};
use crate::api::mcp::tool_bodies::{
    are_start_args, is_plan, is_taken, DeviceSendCommandArgs, PluginsStartArgs,
};
use crate::api::mcp::tools::ToolOutcome;
use crate::api::ui::{ui_reply, verdict_of, PluginUiError, UiVerdict};
use crate::auth::Actor;
use crate::auth::policy::{TokenPolicy, ToolConstraint};
use crate::exclusive_lock::{opt_failure, LockFailure, LockStep, LockVerdict};
use crate::json::{opt_member_views, opt_texts};
use crate::json_value::{Json, JsonModel};
use crate::state::{EventQuery, KeyValue, LogQuery, ValueModel, WitValue};
use crate::text::texts;
use crate::text_map::TextMap;

verus! {

/// A constraint restricts devices exactly where it has a list of them, to those on the list, and
/// plugins likewise; a policy has its scopes and its constraints.
pub proof fn law_policies_say_what_they_hold(constraint: ToolConstraint, policy: TokenPolicy)
    ensures
        constraint@.devices is Some <==> constraint.devices is Some,
        constraint.devices matches Some(list) ==> constraint@.devices == Some(texts(list@)),
        constraint@.plugins is Some <==> constraint.plugins is Some,
        constraint.plugins matches Some(list) ==> constraint@.plugins == Some(texts(list@)),
        policy@.scopes == texts(policy.scopes@),
        policy@.constraints == policy.constraints@,
{
}

/// A value has its own type and content, and a named one its own name.
pub proof fn law_values_say_their_type(value: WitValue, named: KeyValue)
    ensures
        match value {
            WitValue::BoolVal(b) => value@ == ValueModel::Bool(b),
            WitValue::IntVal(i) => value@ == ValueModel::Int(i),
            WitValue::FloatVal(bits) => value@ == ValueModel::Float(bits),
            WitValue::StringVal(t) => value@ == ValueModel::Text(t@),
            WitValue::BytesVal(b) => value@ == ValueModel::Bytes(b@),
            WitValue::JsonVal(t) => value@ == ValueModel::Json(t@),
        },
        named@.0 == named.key@,
        named@.1 == named.value@,
{
}

/// A JSON value has its own type and content.
pub proof fn law_json_says_its_type(value: Json)
    ensures
        value is Null <==> value@ is Null,
        value matches Json::Bool(b) ==> value@ == JsonModel::Bool(b),
        value matches Json::Int(i) ==> value@ == JsonModel::Int(i as int),
        value matches Json::Float(bits) ==> value@ == JsonModel::Float(bits),
        value matches Json::Text(t) ==> value@ == JsonModel::Text(t@),
        value matches Json::List(items) ==> (value@ matches JsonModel::List(out) && out.len()
            == items.len() && forall|i: int| 0 <= i < items.len() ==> #[trigger] out[i]
            == items@[i]@),
        value matches Json::Object(members) ==> (value@ matches JsonModel::Object(out) && out.len()
            == members.len() && forall|i: int|
            0 <= i < members.len() ==> (#[trigger] out[i]).0 == members@[i].0@ && out[i].1
                == members@[i].1@),
{
}

/// A resource is of the kind that it is, with its own id, query or name; an address leads nowhere
/// or to a resource, under its family and its scope.
pub proof fn law_resources_say_their_kind(kind: ResourceKind, route: Route)
    ensures
        match kind {
            ResourceKind::DevicesList => kind@ == KindModel::DevicesList,
            ResourceKind::DevicesDetail(id) => kind@ == KindModel::DevicesDetail(id@),
            ResourceKind::PluginsList => kind@ == KindModel::PluginsList,
            ResourceKind::PluginsDetail(id) => kind@ == KindModel::PluginsDetail(id@),
            ResourceKind::Events(query) => kind@ == KindModel::Events(query@),
            ResourceKind::Logs(query) => kind@ == KindModel::Logs(query@),
            ResourceKind::Status => kind@ == KindModel::Status,
            ResourceKind::Blob(instance, name) => kind@ == KindModel::Blob(instance@, name@),
        },
        route matches Route::Nowhere { family, reason } ==> (route@ matches RouteModel::Nowhere {
            family: f,
            reason: why,
        } && f == family@ && why == reason@),
        route matches Route::Found { family, scope, kind: k } ==> (route@ matches RouteModel::Found {
            family: f,
            scope: s,
            kind: m,
        } && f == family@ && s == scope@ && m == k@),
{
}

/// A lock is held, tried again or refused in its own words, and a failure has its own code and
/// words.
pub proof fn law_locks_say_what_they_are(step: LockStep, failure: Option<LockFailure>)
    ensures
        step is Held <==> step@ is Held,
        step is Retry <==> step@ is Retry,
        step matches LockStep::Refused(words) ==> step@ == LockVerdict::Refused(words@),
        failure is Some <==> opt_failure(failure) is Some,
        failure matches Some(f) ==> (opt_failure(failure) matches Some((code, words)) && code
            == f.code && words == f.words@),
{
}

/// What is given is what is taken: a caller, arguments and lists are there exactly where they are
/// given.
pub proof fn law_given_values_are_taken(
    actor: Option<&Actor>,
    args: Option<&TextMap<ArgValue>>,
    list: Option<Vec<String>>,
    members: Option<Vec<(String, String)>>,
    i: int,
)
    ensures
        actor is Some <==> opt_actor(actor) is Some,
        actor matches Some(a) ==> opt_actor(actor) == Some(a@),
        args is Some <==> opt_args(args) is Some,
        args matches Some(map) ==> opt_args(args) == Some(map@),
        list is Some <==> opt_texts(list) is Some,
        list matches Some(l) ==> opt_texts(list) == Some(texts(l@)),
        members is Some <==> opt_member_views(members) is Some,
        members matches Some(m) ==> (0 <= i < m.len() ==> opt_member_views(members)->0.len()
            == m.len() && opt_member_views(members)->0[i].0 == m@[i].0@ && opt_member_views(
            members,
        )->0[i].1 == m@[i].1@),
{
}

/// A page is shown exactly where the decision lets it through, and every refusal is answered with
/// the status that belongs to its verdict.
pub proof fn law_decisions_say_their_verdict(decision: Result<(), PluginUiError>, verdict: UiVerdict)
    requires
        verdict_of(decision) == Some(verdict),
    ensures
        verdict is Shown <==> decision is Ok,
        decision matches Err(err) ==> ui_reply(err).status == (match verdict {
            UiVerdict::TicketBad => 400u16,
            UiVerdict::TicketExpired => 401u16,
            _ => 404u16,
        }),
{
}

/// Arguments that read are taken as they are, and others are refused.
pub proof fn law_read_arguments_are_taken(
    r: Result<DeviceSendCommandArgs, ToolOutcome>,
    args: Result<DeviceSendCommandArgs, Seq<char>>,
    logs: Result<(LogQuery, usize), ToolOutcome>,
    log_plan: Result<(LogQuery, nat), Seq<char>>,
    events: Result<(EventQuery, usize), ToolOutcome>,
    event_plan: Result<(EventQuery, nat), Seq<char>>,
)
    requires
        is_taken(r, args),
        is_plan(logs, log_plan),
        is_plan(events, event_plan),
    ensures
        r is Ok <==> args is Ok,
        args matches Ok(a) ==> r == Ok::<DeviceSendCommandArgs, ToolOutcome>(a),
        r matches Err(outcome) ==> (outcome matches ToolOutcome::InvalidParams(words) && args
            == Err::<DeviceSendCommandArgs, Seq<char>>(words@)),
        logs is Ok <==> log_plan is Ok,
        log_plan matches Ok(plan) ==> logs->Ok_0.0 == plan.0 && logs->Ok_0.1 == plan.1,
        logs matches Err(outcome) ==> outcome is InvalidParams,
        events is Ok <==> event_plan is Ok,
        event_plan matches Ok(plan) ==> events->Ok_0.0 == plan.0 && events->Ok_0.1 == plan.1,
        events matches Err(outcome) ==> outcome is InvalidParams,
{
}

/// A start is of the plugin that is named, under the id that is named or else that of the plugin,
/// with the overrides that are given.
pub proof fn law_start_arguments_are_the_callers(
    r: Result<(String, String, Option<toml::Value>), ToolOutcome>,
    args: PluginsStartArgs,
)
    requires
        are_start_args(r, Some(Ok(args))),
    ensures
        r is Ok <==> args.plugin_id@.len() > 0 && (args.instance_id matches Some(id) ==> id@.len()
            > 0),
        r matches Ok((plugin_id, instance_id, overrides)) ==> plugin_id@ == args.plugin_id@
            && instance_id@ == (match args.instance_id {
            Some(id) => id@,
            None => args.plugin_id@,
        }) && overrides == args.config_overrides,
        r matches Err(outcome) ==> outcome is InvalidParams,
{
}

} // verus!
