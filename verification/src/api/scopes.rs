//! Scopes: what a caller must hold to reach an operation.
//!
//! A scope is a name such as `devices:list`. A caller satisfies it by holding that very name, or
//! by holding the wildcard `*`. There is no hierarchy and no other glob.

use vstd::prelude::*;

use crate::auth::Actor;
use crate::text::texts;

verus! {

/// The scope name that satisfies every requirement.
pub const WILDCARD: &'static str = "*";

/// List the running instances.
pub const INSTANCES_LIST: &'static str = "instances:list";

/// List the devices.
pub const DEVICES_LIST: &'static str = "devices:list";

/// Read device state.
pub const DEVICES_READ: &'static str = "devices:read";

/// Send a command to a device. Sensitive: it acts on the physical world.
pub const DEVICES_COMMAND: &'static str = "devices:command";

/// Follow the event bus.
pub const EVENTS_TAIL: &'static str = "events:tail";

/// Read the event history.
pub const EVENTS_READ: &'static str = "events:read";

/// Read the logs.
pub const LOGS_READ: &'static str = "logs:read";

/// Read the host status.
pub const STATUS_READ: &'static str = "status:read";

/// Read plugin blobs.
pub const BLOBS_READ: &'static str = "blobs:read";

/// Read the audit ledger.
pub const AUDIT_READ: &'static str = "audit:read";

/// List the plugins.
pub const PLUGINS_LIST: &'static str = "plugins:list";

/// Install a plugin. Sensitive.
pub const PLUGINS_INSTALL: &'static str = "plugins:install";

/// Start a plugin instance.
pub const PLUGINS_START: &'static str = "plugins:start";

/// Stop plugin instances.
pub const PLUGINS_STOP: &'static str = "plugins:stop";

/// Uninstall a plugin. Sensitive.
pub const PLUGINS_UNINSTALL: &'static str = "plugins:uninstall";

/// Open a plugin's user interface.
pub const PLUGINS_UI: &'static str = "plugins:ui";

/// A required scope.
#[derive(Debug, Clone, Copy)]
pub struct Scope(pub &'static str);

/// Whether a list of scope names satisfies a requirement.
pub open spec fn scope_satisfied(required: Seq<char>, authorized: Seq<Seq<char>>) -> bool {
    authorized.contains(WILDCARD@) || authorized.contains(required)
}

impl Scope {
    /// The scope with a name.
    pub fn new(name: &'static str) -> (r: Self)
        ensures
            r.0@ == name@,
    {
        Scope(name)
    }

    /// The name of the scope.
    pub fn name(self) -> (r: &'static str)
        ensures
            r@ == self.0@,
    {
        self.0
    }

    /// Whether a token with these scopes satisfies this one.
    pub fn satisfied_by(self, authorized: &[String]) -> (r: bool)
        ensures
            r == scope_satisfied(self.0@, texts(authorized@)),
    {
        let ghost names = texts(authorized@);
        let mut i: usize = 0;
        while i < authorized.len()
            invariant
                0 <= i <= authorized.len(),
                names == texts(authorized@),
                forall|j: int|
                    0 <= j < i ==> #[trigger] names[j] != WILDCARD@ && names[j] != self.0@,
            decreases authorized.len() - i,
        {
            let held = authorized[i].as_str();
            assert(names[i as int] == held@);
            if held.eq(WILDCARD) || held.eq(self.0) {
                return true;
            }
            i += 1;
        }
        false
    }
}

/// A refused scope check. The answer is a bare 403; the missing name goes to the audit ledger
/// only, so a caller cannot list what is required.
#[derive(Debug)]
pub struct ScopeDenied {
    /// The scope that was missing.
    pub required: &'static str,
}

/// Whether a check is the one of a requirement against the scopes of a caller.
pub open spec fn is_check(
    r: Result<(), ScopeDenied>,
    required: Seq<char>,
    held: Seq<Seq<char>>,
) -> bool {
    match r {
        Ok(()) => scope_satisfied(required, held),
        Err(denied) => !scope_satisfied(required, held) && denied.required@ == required,
    }
}

/// Checks a requirement against the scopes of the caller.
pub fn require_scope(actor: &Actor, required: Scope) -> (r: Result<(), ScopeDenied>)
    ensures
        is_check(r, required.0@, actor@.scopes),
{
    if required.satisfied_by(actor.scopes()) {
        Ok(())
    } else {
        Err(ScopeDenied { required: required.name() })
    }
}

/// A caller with the wildcard satisfies every requirement, whatever else it holds.
pub proof fn law_wildcard_satisfies_everything(required: Seq<char>, authorized: Seq<Seq<char>>)
    requires
        authorized.contains(WILDCARD@),
    ensures
        scope_satisfied(required, authorized),
{
}

/// A caller without scopes satisfies no requirement.
pub proof fn law_no_scopes_satisfy_nothing(required: Seq<char>)
    ensures
        !scope_satisfied(required, Seq::<Seq<char>>::empty()),
{
}

/// Holding more scopes never loses one.
pub proof fn law_more_scopes_satisfy_more(
    required: Seq<char>,
    authorized: Seq<Seq<char>>,
    more: Seq<Seq<char>>,
)
    requires
        scope_satisfied(required, authorized),
    ensures
        scope_satisfied(required, authorized + more),
{
    let name = if authorized.contains(WILDCARD@) {
        WILDCARD@
    } else {
        required
    };
    let i = choose|i: int| 0 <= i < authorized.len() && authorized[i] == name;
    assert((authorized + more)[i] == name);
}

} // verus!
