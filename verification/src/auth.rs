//! Actor identity: who makes a call, and what the call may do.

use std::sync::Arc;

use vstd::prelude::*;

pub mod policy;

use crate::auth::policy::{ConstraintMap, ConstraintModel, ToolConstraint};
use crate::text::texts;

verus! {

/// What kind of caller an [`Actor`] stands for.
#[derive(Debug, Clone, Copy, PartialEq, Eq, Hash, Structural)]
pub enum ActorKind {
    /// A plugin instance in this process; the id is the instance id.
    Plugin,
    /// An HTTP or WebSocket request; the id is the token id.
    Api,
    /// A command-line call; the id is the token id.
    Cli,
    /// A tool call; the id is the token id.
    Mcp,
    /// An automation script; the id is `<scripting-plugin>/<script-name>`.
    Automation,
}

/// The stable name of a kind of caller.
pub open spec fn kind_name(kind: ActorKind) -> Seq<char> {
    match kind {
        ActorKind::Plugin => "plugin"@,
        ActorKind::Api => "api"@,
        ActorKind::Cli => "cli"@,
        ActorKind::Mcp => "mcp"@,
        ActorKind::Automation => "automation"@,
    }
}

impl ActorKind {
    /// The stable name for logs and the audit ledger.
    #[must_use]
    pub fn as_str(self) -> (r: &'static str)
        ensures
            r@ == kind_name(self),
    {
        match self {
            ActorKind::Plugin => "plugin",
            ActorKind::Api => "api",
            ActorKind::Cli => "cli",
            ActorKind::Mcp => "mcp",
            ActorKind::Automation => "automation",
        }
    }
}

/// What an actor is: its kind, its id, its scopes, and its constraints by tool name.
pub struct ActorModel {
    pub kind: ActorKind,
    pub id: Seq<char>,
    pub scopes: Seq<Seq<char>>,
    pub constraints: Map<Seq<char>, ConstraintModel>,
}

/// Identity and scopes of one caller. A clone shares the identity.
#[derive(Debug)]
pub struct Actor {
    pub inner: Arc<ActorInner>,
}

/// The shared part of an [`Actor`].
#[derive(Debug)]
pub struct ActorInner {
    kind: ActorKind,
    id: String,
    scopes: Vec<String>,
    constraints: ConstraintMap,
}

impl View for Actor {
    type V = ActorModel;

    closed spec fn view(&self) -> ActorModel {
        ActorModel {
            kind: self.inner.kind,
            id: self.inner.id@,
            scopes: texts(self.inner.scopes@),
            constraints: self.inner.constraints@,
        }
    }
}

impl Clone for Actor {
    fn clone(&self) -> (r: Self)
        ensures
            r == *self,
            r@ == self@,
    {
        Actor { inner: self.inner.clone() }
    }
}

impl Actor {
    /// The actor of a plugin instance. It holds no scopes: what a plugin may do is its
    /// manifest's matter.
    #[must_use]
    pub fn plugin(instance_id: &str) -> (r: Self)
        ensures
            r@.kind == ActorKind::Plugin,
            r@.id == instance_id@,
            r@.scopes == Seq::<Seq<char>>::empty(),
            r@.constraints == Map::<Seq<char>, ConstraintModel>::empty(),
    {
        let scopes: Vec<String> = Vec::new();
        assert(texts(scopes@) =~= Seq::<Seq<char>>::empty());
        Actor {
            inner: Arc::new(
                ActorInner {
                    kind: ActorKind::Plugin,
                    id: instance_id.to_owned(),
                    scopes,
                    constraints: ConstraintMap::new(),
                },
            ),
        }
    }

    /// The actor of an API token without constraints.
    #[must_use]
    pub fn api(token_id: &str, scopes: Vec<String>) -> (r: Self)
        ensures
            r@.kind == ActorKind::Api,
            r@.id == token_id@,
            r@.scopes == texts(scopes@),
            r@.constraints == Map::<Seq<char>, ConstraintModel>::empty(),
    {
        Self::api_with_policy(token_id, scopes, ConstraintMap::new())
    }

    /// The actor of an API token with the constraints of its policy.
    #[must_use]
    pub fn api_with_policy(token_id: &str, scopes: Vec<String>, constraints: ConstraintMap) -> (r:
        Self)
        ensures
            r@.kind == ActorKind::Api,
            r@.id == token_id@,
            r@.scopes == texts(scopes@),
            r@.constraints == constraints@,
    {
        Actor {
            inner: Arc::new(
                ActorInner { kind: ActorKind::Api, id: token_id.to_owned(), scopes, constraints },
            ),
        }
    }

    /// What kind of caller this is.
    #[must_use]
    pub fn kind(&self) -> (r: ActorKind)
        ensures
            r == self@.kind,
    {
        self.inner.kind
    }

    /// The id of the caller.
    #[must_use]
    pub fn id(&self) -> (r: &str)
        ensures
            r@ == self@.id,
    {
        self.inner.id.as_str()
    }

    /// The scopes of the caller.
    #[must_use]
    pub fn scopes(&self) -> (r: &[String])
        ensures
            texts(r@) == self@.scopes,
    {
        self.inner.scopes.as_slice()
    }

    /// The constraint of the caller's token on a tool. A tool without one is unrestricted.
    #[must_use]
    pub fn constraint(&self, tool_name: &str) -> (r: Option<&ToolConstraint>)
        ensures
            match r {
                Some(c) => self@.constraints.dom().contains(tool_name@) && c@
                    == self@.constraints[tool_name@],
                None => !self@.constraints.dom().contains(tool_name@),
            },
    {
        self.inner.constraints.get(tool_name)
    }

    /// Whether the caller's token carries any constraint.
    #[must_use]
    pub fn is_constrained(&self) -> (r: bool)
        ensures
            r == (self@.constraints != Map::<Seq<char>, ConstraintModel>::empty()),
    {
        !self.inner.constraints.is_empty()
    }

    /// The tool names that the caller's token constrains, each once.
    pub fn constraint_keys(&self) -> (r: Vec<&str>)
        ensures
            forall|k: Seq<char>|
                self@.constraints.dom().contains(k) <==> exists|i: int|
                    0 <= i < r.len() && (#[trigger] r@[i])@ == k,
            forall|i: int, j: int|
                0 <= i < j < r.len() ==> (#[trigger] r@[i])@ != (#[trigger] r@[j])@,
    {
        self.inner.constraints.keys()
    }
}

} // verus!
