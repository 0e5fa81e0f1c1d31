//! Who an MCP request is made for.

use vstd::prelude::*;

use crate::api::scopes::{scope_satisfied, WILDCARD};
use crate::auth::policy::ConstraintModel;
use crate::auth::{Actor, ActorKind, ActorModel};
use crate::text::texts;

verus! {

/// The name of this server.
pub const SERVER_NAME: &'static str = "oxidhome";

/// What the server is called towards people.
pub const SERVER_TITLE: &'static str = "OxidHome MCP";

/// What the server says of itself.
pub const SERVER_DESCRIPTION: &'static str = "OxidHome home-automation hub. Exposes device state, event history, logs, and plugin control to MCP-speaking agents.";

/// Where the project lives.
pub const SERVER_WEBSITE: &'static str = "https://github.com/oxidhome/oxidhome";

/// What an agent is told first.
pub const SERVER_INSTRUCTIONS: &'static str = "Discover data with `resources/list`, actions with `tools/list`. Read tools are safe; action tools carry an `oxidhome.audit` note when they mutate host state.";

/// The id under which a request without an actor is recorded.
pub const UNAUTHENTICATED_TOKEN_ID: &'static str = "anonymous";

/// The id under which the calls of the parent process are recorded. No token has it.
pub const STDIO_TOKEN_ID: &'static str = "mcp-stdio-parent-process";

/// The caller on the standard streams of the process: the one who started it, who may do all.
pub open spec fn stdio_model() -> ActorModel {
    ActorModel {
        kind: ActorKind::Api,
        id: STDIO_TOKEN_ID@,
        scopes: seq![WILDCARD@],
        constraints: Map::<Seq<char>, ConstraintModel>::empty(),
    }
}

/// The actor of a session over standard input and output: the parent process, with every scope.
pub fn stdio_actor() -> (r: Actor)
    ensures
        r@ == stdio_model(),
{
    let scopes = vec![WILDCARD.to_owned()];
    let actor = Actor::api(STDIO_TOKEN_ID, scopes);
    assert(texts(scopes@) =~= seq![WILDCARD@]);
    actor
}

/// The actor that a request is handled for.
pub open spec fn resolved(stdio: Option<ActorModel>, request: Option<ActorModel>) -> ActorModel {
    match (stdio, request) {
        (Some(actor), _) => actor,
        (None, Some(actor)) => actor,
        (None, None) => ActorModel {
            kind: ActorKind::Api,
            id: UNAUTHENTICATED_TOKEN_ID@,
            scopes: Seq::<Seq<char>>::empty(),
            constraints: Map::<Seq<char>, ConstraintModel>::empty(),
        },
    }
}

/// The model of an optional actor.
pub open spec fn opt_actor(actor: Option<&Actor>) -> Option<ActorModel> {
    match actor {
        Some(a) => Some(a@),
        None => None,
    }
}

/// Finds the actor that a request is handled for: the actor of the session where it has one, else
/// the one that the request was authenticated for. A request that carries none gets an anonymous
/// actor without scopes, so that it is refused everything and the refusals are recorded.
pub fn resolve_actor(stdio: Option<&Actor>, request: Option<&Actor>) -> (r: Actor)
    ensures
        r@ == resolved(opt_actor(stdio), opt_actor(request)),
{
    if let Some(actor) = stdio {
        return actor.clone();
    }
    match request {
        Some(actor) => actor.clone(),
        None => {
            let scopes: Vec<String> = Vec::new();
            assert(texts(scopes@) =~= Seq::<Seq<char>>::empty());
            Actor::api(UNAUTHENTICATED_TOKEN_ID, scopes)
        },
    }
}

/// A request that reaches the server past authentication satisfies no scope.
pub proof fn law_missing_actor_satisfies_nothing(required: Seq<char>)
    ensures
        !scope_satisfied(required, resolved(None, None).scopes),
{
}

} // verus!
