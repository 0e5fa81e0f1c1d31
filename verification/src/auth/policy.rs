//! Token policies: what a bearer token may do.
//!
//! The `scope_json` column of a token holds one of two JSON shapes.
//!
//! - A bare array of scope names, `["logs:read", "devices:command"]`: those scopes and no
//!   constraints.
//! - An object with `scopes` and optional `constraints`. `constraints` maps a tool name to the
//!   devices and plugins that the token may address through that tool. A tool name that is
//!   written twice makes the whole policy malformed, so a later entry can never widen an
//!   earlier one.
//!
//! Every other shape is malformed. A malformed policy is no policy: its token gets no scopes at
//! all.

use vstd::prelude::*;
use vstd::utf8::*;

use crate::json::{
    json_string_list, member_views, object_members, object_members_of, opt_texts,
    parse_string_list,
};
use crate::text::{opt_str, starts_with, texts, utf8_text};
use crate::text_map::TextMap;

verus! {

// ---------------------------------------------------------------------
// Constraints
// ---------------------------------------------------------------------

/// What a constraint says: for each field no restriction, or a list of patterns.
pub struct ConstraintModel {
    pub devices: Option<Seq<Seq<char>>>,
    pub plugins: Option<Seq<Seq<char>>>,
}

/// Restrictions of one tool. `None` leaves a field unrestricted; an empty list denies every id.
#[derive(Debug, PartialEq, Eq)]
pub struct ToolConstraint {
    /// Allowed device ids: literal ids, or prefixes followed by one `*`.
    pub devices: Option<Vec<String>>,
    /// Allowed plugin ids, in the same form.
    pub plugins: Option<Vec<String>>,
}

impl View for ToolConstraint {
    type V = ConstraintModel;

    open spec fn view(&self) -> ConstraintModel {
        ConstraintModel { devices: opt_texts(self.devices), plugins: opt_texts(self.plugins) }
    }
}

impl Default for ToolConstraint {
    /// The constraint that restricts nothing.
    fn default() -> (r: Self)
        ensures
            r@ == (ConstraintModel { devices: None, plugins: None }),
    {
        ToolConstraint { devices: None, plugins: None }
    }
}

impl Clone for ToolConstraint {
    fn clone(&self) -> (r: Self)
        ensures
            r@ == self@,
    {
        ToolConstraint { devices: self.devices.clone(), plugins: self.plugins.clone() }
    }
}

/// Whether `id` matches `pattern`: a literal id, or a prefix followed by one `*`.
pub open spec fn pattern_matches(pattern: Seq<char>, id: Seq<char>) -> bool {
    if pattern.len() > 0 && pattern.last() == '*' {
        pattern.drop_last().is_prefix_of(id)
    } else {
        pattern == id
    }
}

/// Whether one pattern of a list matches `id`.
pub open spec fn any_matches(list: Seq<Seq<char>>, id: Seq<char>) -> bool {
    exists|i: int| 0 <= i < list.len() && #[trigger] pattern_matches(list[i], id)
}

/// Whether a list of patterns lets `id` pass. No list lets everything pass.
pub open spec fn list_allows(patterns: Option<Seq<Seq<char>>>, id: Seq<char>) -> bool {
    match patterns {
        None => true,
        Some(list) => any_matches(list, id),
    }
}

/// Whether `id` matches `pattern`. A `*` anywhere but at the end stands for itself.
pub fn match_pattern(pattern: &str, id: &str) -> (r: bool)
    ensures
        r == pattern_matches(pattern@, id@),
{
    let n = pattern.unicode_len();
    if n > 0 && pattern.get_char(n - 1) == '*' {
        let prefix = pattern.substring_char(0, n - 1);
        assert(prefix@ =~= pattern@.drop_last());
        starts_with(id, prefix)
    } else {
        pattern.eq(id)
    }
}

impl ToolConstraint {
    /// Whether the `devices` list lets `id` pass.
    #[must_use]
    pub fn allows_device(&self, id: &str) -> (r: bool)
        ensures
            r == list_allows(self@.devices, id@),
    {
        Self::allows(&self.devices, id)
    }

    /// Whether the `plugins` list lets `id` pass.
    #[must_use]
    pub fn allows_plugin(&self, id: &str) -> (r: bool)
        ensures
            r == list_allows(self@.plugins, id@),
    {
        Self::allows(&self.plugins, id)
    }

    /// Whether at least one pattern matches `id`, or there is no list.
    fn allows(patterns: &Option<Vec<String>>, id: &str) -> (r: bool)
        ensures
            r == list_allows(opt_texts(*patterns), id@),
    {
        match patterns {
            None => true,
            Some(list) => {
                let mut i: usize = 0;
                while i < list.len()
                    invariant
                        0 <= i <= list.len(),
                        opt_texts(*patterns) == Some(texts(list@)),
                        forall|j: int|
                            0 <= j < i ==> !(#[trigger] pattern_matches(list@[j]@, id@)),
                    decreases list.len() - i,
                {
                    if match_pattern(list[i].as_str(), id) {
                        assert(texts(list@).len() == list@.len());
                        assert(texts(list@)[i as int] == list@[i as int]@);
                        assert(pattern_matches(texts(list@)[i as int], id@));
                        return true;
                    }
                    i += 1;
                }
                proof {
                    assert forall|j: int| 0 <= j < texts(list@).len() implies !(
                    #[trigger] pattern_matches(texts(list@)[j], id@)) by {
                        assert(texts(list@)[j] == list@[j]@);
                    }
                }
                false
            },
        }
    }
}

// ---------------------------------------------------------------------
// The map of constraints
// ---------------------------------------------------------------------

/// The constraints of a token by tool name.
#[derive(Debug, PartialEq, Eq)]
pub struct ConstraintMap {
    entries: TextMap<ToolConstraint>,
}

/// What the constraints of a map say.
pub open spec fn constraint_models(map: Map<Seq<char>, ToolConstraint>) -> Map<
    Seq<char>,
    ConstraintModel,
> {
    map.map_values(|c: ToolConstraint| c@)
}

impl View for ConstraintMap {
    type V = Map<Seq<char>, ConstraintModel>;

    closed spec fn view(&self) -> Map<Seq<char>, ConstraintModel> {
        constraint_models(self.entries@)
    }
}

impl Default for ConstraintMap {
    /// The map without entries.
    fn default() -> (r: Self)
        ensures
            r@ == Map::<Seq<char>, ConstraintModel>::empty(),
    {
        ConstraintMap::new()
    }
}

impl ConstraintMap {
    /// The map without entries.
    pub fn new() -> (r: Self)
        ensures
            r@ == Map::<Seq<char>, ConstraintModel>::empty(),
    {
        let r = ConstraintMap { entries: TextMap::new() };
        assert(r@ =~= Map::<Seq<char>, ConstraintModel>::empty());
        r
    }

    /// Constrains a tool, in place of the constraint that it may have had.
    pub fn insert(&mut self, key: String, constraint: ToolConstraint)
        ensures
            final(self)@ == old(self)@.insert(key@, constraint@),
    {
        self.entries.insert(key, constraint);
        assert(self@ =~= old(self)@.insert(key@, constraint@));
    }

    /// Constrains a tool that is not constrained yet, and says whether it could.
    pub fn insert_new(&mut self, key: String, constraint: ToolConstraint) -> (r: bool)
        ensures
            r == !old(self)@.dom().contains(key@),
            r ==> final(self)@ == old(self)@.insert(key@, constraint@),
            !r ==> *final(self) == *old(self),
    {
        if self.entries.contains_key(key.as_str()) {
            return false;
        }
        self.insert(key, constraint);
        true
    }

    /// The constraint on a tool.
    pub fn get(&self, key: &str) -> (r: Option<&ToolConstraint>)
        ensures
            match r {
                Some(c) => self@.dom().contains(key@) && c@ == self@[key@],
                None => !self@.dom().contains(key@),
            },
    {
        self.entries.get(key)
    }

    /// Whether no tool is constrained.
    pub fn is_empty(&self) -> (r: bool)
        ensures
            r == (self@ == Map::<Seq<char>, ConstraintModel>::empty()),
    {
        proof {
            if self.entries@ == Map::<Seq<char>, ToolConstraint>::empty() {
                assert(self@ =~= Map::<Seq<char>, ConstraintModel>::empty());
            }
            if self@ == Map::<Seq<char>, ConstraintModel>::empty() {
                assert(self.entries@.dom() =~= self@.dom());
                assert(self.entries@ =~= Map::<Seq<char>, ToolConstraint>::empty());
            }
        }
        self.entries.is_empty()
    }

    /// The names of the constrained tools, each once.
    pub fn keys(&self) -> (r: Vec<&str>)
        ensures
            forall|k: Seq<char>|
                self@.dom().contains(k) <==> exists|i: int|
                    0 <= i < r.len() && (#[trigger] r@[i])@ == k,
            forall|i: int, j: int|
                0 <= i < j < r.len() ==> (#[trigger] r@[i])@ != (#[trigger] r@[j])@,
    {
        assert(self.entries@.dom() =~= self@.dom());
        self.entries.keys()
    }
}

// ---------------------------------------------------------------------
// Policies
// ---------------------------------------------------------------------

/// What a policy says: the scopes in their order, and a constraint for some tools.
pub struct PolicyModel {
    pub scopes: Seq<Seq<char>>,
    pub constraints: Map<Seq<char>, ConstraintModel>,
}

/// A decoded token policy.
#[derive(Debug, PartialEq, Eq)]
pub struct TokenPolicy {
    /// The scopes that the token holds.
    pub scopes: Vec<String>,
    /// The constraints by tool name. A tool without an entry is unrestricted.
    pub constraints: ConstraintMap,
}

impl View for TokenPolicy {
    type V = PolicyModel;

    open spec fn view(&self) -> PolicyModel {
        PolicyModel { scopes: texts(self.scopes@), constraints: self.constraints@ }
    }
}

impl Default for TokenPolicy {
    /// The policy without scopes and without constraints.
    fn default() -> (r: Self)
        ensures
            r@.scopes == Seq::<Seq<char>>::empty(),
            r@.constraints == Map::<Seq<char>, ConstraintModel>::empty(),
    {
        let scopes: Vec<String> = Vec::new();
        assert(texts(scopes@) =~= Seq::<Seq<char>>::empty());
        TokenPolicy { scopes, constraints: ConstraintMap::new() }
    }
}

/// Whether no name occurs twice among the members of an object.
pub open spec fn members_unique(members: Seq<(Seq<char>, Seq<char>)>) -> bool {
    forall|i: int, j: int|
        0 <= i < j < members.len() ==> (#[trigger] members[i]).0 != (#[trigger] members[j]).0
}

/// Whether every member of an object has one of two names.
pub open spec fn members_named(
    members: Seq<(Seq<char>, Seq<char>)>,
    a: Seq<char>,
    b: Seq<char>,
) -> bool {
    forall|i: int|
        0 <= i < members.len() ==> (#[trigger] members[i]).0 == a || members[i].0 == b
}

/// The value of the first member with a name, as it is written.
pub open spec fn member_value(members: Seq<(Seq<char>, Seq<char>)>, name: Seq<char>) -> Option<
    Seq<char>,
>
    decreases members.len(),
{
    if members.len() == 0 {
        None
    } else if members[0].0 == name {
        Some(members[0].1)
    } else {
        member_value(members.skip(1), name)
    }
}

/// The value of an optional list field: absent and `null` both leave it open.
pub open spec fn list_field_of(value: Option<Seq<char>>) -> Option<Option<Seq<Seq<char>>>> {
    match value {
        Some(text) => json_string_list(text),
        None => Some(None),
    }
}

/// The constraint that two list fields make.
pub open spec fn constraint_of_fields(devices: Option<Seq<char>>, plugins: Option<Seq<char>>) -> Option<
    ConstraintModel,
> {
    match (list_field_of(devices), list_field_of(plugins)) {
        (Some(devices), Some(plugins)) => Some(ConstraintModel { devices, plugins }),
        _ => None,
    }
}

/// The constraint that a JSON text writes.
pub open spec fn constraint_of(text: Seq<char>) -> Option<ConstraintModel> {
    match object_members_of(text) {
        Some(members) => if members_unique(members) && members_named(
            members,
            "devices"@,
            "plugins"@,
        ) {
            constraint_of_fields(
                member_value(members, "devices"@),
                member_value(members, "plugins"@),
            )
        } else {
            None
        },
        None => None,
    }
}

/// The constraints that the members of an object write, name by name.
pub open spec fn constraints_of_members(members: Seq<(Seq<char>, Seq<char>)>) -> Option<
    Map<Seq<char>, ConstraintModel>,
>
    decreases members.len(),
{
    if members.len() == 0 {
        Some(Map::empty())
    } else {
        match (constraints_of_members(members.drop_last()), constraint_of(members.last().1)) {
            (Some(map), Some(constraint)) => if map.dom().contains(members.last().0) {
                None
            } else {
                Some(map.insert(members.last().0, constraint))
            },
            _ => None,
        }
    }
}

/// The constraints that a JSON text writes.
pub open spec fn constraint_map_of(text: Seq<char>) -> Option<Map<Seq<char>, ConstraintModel>> {
    match object_members_of(text) {
        Some(members) => constraints_of_members(members),
        None => None,
    }
}

/// The policy that the two fields of the extended shape make.
pub open spec fn policy_of_fields(scopes: Option<Seq<char>>, constraints: Option<Seq<char>>) -> Option<
    PolicyModel,
> {
    match scopes {
        Some(scopes_text) => match json_string_list(scopes_text) {
            Some(Some(scopes)) => match constraints {
                Some(map_text) => match constraint_map_of(map_text) {
                    Some(constraints) => Some(PolicyModel { scopes, constraints }),
                    None => None,
                },
                None => Some(PolicyModel { scopes, constraints: Map::empty() }),
            },
            _ => None,
        },
        None => None,
    }
}

/// The policy that a JSON text writes, in one shape or the other.
pub open spec fn policy_of(text: Seq<char>) -> Option<PolicyModel> {
    match json_string_list(text) {
        Some(Some(scopes)) => Some(PolicyModel { scopes, constraints: Map::empty() }),
        _ => match object_members_of(text) {
            Some(members) => if members_unique(members) && members_named(
                members,
                "scopes"@,
                "constraints"@,
            ) {
                policy_of_fields(
                    member_value(members, "scopes"@),
                    member_value(members, "constraints"@),
                )
            } else {
                None
            },
            None => None,
        },
    }
}

/// The policy that a stored blob writes: a JSON text in UTF-8.
pub open spec fn policy_of_bytes(blob: Seq<u8>) -> Option<PolicyModel> {
    if valid_utf8(blob) {
        policy_of(decode_utf8(blob))
    } else {
        None
    }
}

/// Whether no name occurs twice among the members.
fn unique_members(members: &Vec<(String, String)>) -> (r: bool)
    ensures
        r == members_unique(member_views(members@)),
{
    let ghost views = member_views(members@);
    let mut i: usize = 0;
    while i < members.len()
        invariant
            0 <= i <= members.len(),
            views == member_views(members@),
            forall|a: int, b: int|
                0 <= a < b < i ==> (#[trigger] views[a]).0 != (#[trigger] views[b]).0,
        decreases members.len() - i,
    {
        let mut j: usize = 0;
        while j < i
            invariant
                0 <= j <= i < members.len(),
                views == member_views(members@),
                forall|a: int| 0 <= a < j ==> (#[trigger] views[a]).0 != views[i as int].0,
            decreases i - j,
        {
            if members[j].0 == members[i].0 {
                assert(views[j as int].0 == views[i as int].0);
                return false;
            }
            j += 1;
        }
        i += 1;
    }
    true
}

/// Whether every member has one of two names.
fn named_members(members: &Vec<(String, String)>, a: &str, b: &str) -> (r: bool)
    ensures
        r == members_named(member_views(members@), a@, b@),
{
    let ghost views = member_views(members@);
    let mut i: usize = 0;
    while i < members.len()
        invariant
            0 <= i <= members.len(),
            views == member_views(members@),
            forall|j: int| 0 <= j < i ==> (#[trigger] views[j]).0 == a@ || views[j].0 == b@,
        decreases members.len() - i,
    {
        let name = members[i].0.as_str();
        if !name.eq(a) && !name.eq(b) {
            assert(views[i as int].0 == name@);
            return false;
        }
        i += 1;
    }
    true
}

/// The value of the first member with a name.
fn value_of_member<'a>(members: &'a Vec<(String, String)>, name: &str) -> (r: Option<&'a str>)
    ensures
        match r {
            Some(value) => member_value(member_views(members@), name@) == Some(value@),
            None => member_value(member_views(members@), name@) is None,
        },
{
    let ghost views = member_views(members@);
    let mut i: usize = 0;
    assert(views.skip(0) =~= views);
    while i < members.len()
        invariant
            0 <= i <= members.len(),
            views == member_views(members@),
            member_value(views, name@) == member_value(views.skip(i as int), name@),
        decreases members.len() - i,
    {
        assert(views.skip(i as int)[0] == views[i as int]);
        if members[i].0.as_str().eq(name) {
            return Some(members[i].1.as_str());
        }
        assert(views.skip(i as int).skip(1) =~= views.skip(i + 1));
        i += 1;
    }
    None
}

/// Reads an optional list field.
fn list_field(value: Option<&str>) -> (r: Option<Option<Vec<String>>>)
    ensures
        match r {
            Some(list) => list_field_of(opt_str(value)) == Some(opt_texts(list)),
            None => list_field_of(opt_str(value)) is None,
        },
{
    match value {
        Some(text) => parse_string_list(text),
        None => Some(None),
    }
}

/// The constraint that two list fields make.
fn constraint_from_fields(devices: Option<&str>, plugins: Option<&str>) -> (r: Option<
    ToolConstraint,
>)
    ensures
        match r {
            Some(c) => constraint_of_fields(opt_str(devices), opt_str(plugins)) == Some(c@),
            None => constraint_of_fields(opt_str(devices), opt_str(plugins)) is None,
        },
{
    let devices = match list_field(devices) {
        Some(list) => list,
        None => return None,
    };
    let plugins = match list_field(plugins) {
        Some(list) => list,
        None => return None,
    };
    Some(ToolConstraint { devices, plugins })
}

/// Reads one constraint.
fn parse_constraint(text: &str) -> (r: Option<ToolConstraint>)
    ensures
        match r {
            Some(c) => constraint_of(text@) == Some(c@),
            None => constraint_of(text@) is None,
        },
{
    match object_members(text) {
        Some(members) => {
            if unique_members(&members) && named_members(&members, "devices", "plugins") {
                constraint_from_fields(
                    value_of_member(&members, "devices"),
                    value_of_member(&members, "plugins"),
                )
            } else {
                None
            }
        },
        None => None,
    }
}

/// Reads the constraints of a policy. A name that occurs twice makes them malformed.
fn parse_constraint_map(text: &str) -> (r: Option<ConstraintMap>)
    ensures
        match r {
            Some(map) => constraint_map_of(text@) == Some(map@),
            None => constraint_map_of(text@) is None,
        },
{
    let members = match object_members(text) {
        Some(members) => members,
        None => return None,
    };
    let ghost views = member_views(members@);
    let mut map = ConstraintMap::new();
    let mut i: usize = 0;
    while i < members.len()
        invariant
            0 <= i <= members.len(),
            views == member_views(members@),
            object_members_of(text@) == Some(views),
            constraints_of_members(views.take(i as int)) == Some(map@),
        decreases members.len() - i,
    {
        proof {
            assert(views.take(i + 1).drop_last() =~= views.take(i as int));
            assert(views.take(i + 1).last() == views[i as int]);
        }
        let constraint = parse_constraint(members[i].1.as_str());
        let added = match constraint {
            Some(c) => map.insert_new(members[i].0.clone(), c),
            None => false,
        };
        if !added {
            proof {
                lemma_constraints_prefix(views, i + 1);
            }
            return None;
        }
        i += 1;
    }
    assert(views.take(i as int) =~= views);
    Some(map)
}

/// Where the first members already fail, so do all of them.
proof fn lemma_constraints_prefix(members: Seq<(Seq<char>, Seq<char>)>, i: int)
    requires
        0 <= i <= members.len(),
        constraints_of_members(members.take(i)) is None,
    ensures
        constraints_of_members(members) is None,
    decreases members.len() - i,
{
    if i == members.len() {
        assert(members.take(i) =~= members);
    } else {
        assert(members.take(i + 1).drop_last() =~= members.take(i));
        lemma_constraints_prefix(members, i + 1);
    }
}

/// The policy that the two fields of the extended shape make.
fn policy_from_fields(scopes: Option<&str>, constraints: Option<&str>) -> (r: Option<TokenPolicy>)
    ensures
        match r {
            Some(p) => policy_of_fields(opt_str(scopes), opt_str(constraints)) == Some(p@),
            None => policy_of_fields(opt_str(scopes), opt_str(constraints)) is None,
        },
{
    let scopes = match scopes {
        Some(text) => match parse_string_list(text) {
            Some(Some(list)) => list,
            _ => return None,
        },
        None => return None,
    };
    match constraints {
        Some(text) => match parse_constraint_map(text) {
            Some(constraints) => Some(TokenPolicy { scopes, constraints }),
            None => None,
        },
        None => Some(TokenPolicy { scopes, constraints: ConstraintMap::new() }),
    }
}

/// Decodes the `scope_json` blob of a token. A malformed blob gives no policy.
#[must_use]
pub fn parse_policy(blob: &[u8]) -> (r: Option<TokenPolicy>)
    ensures
        match r {
            Some(p) => policy_of_bytes(blob@) == Some(p@),
            None => policy_of_bytes(blob@) is None,
        },
{
    let text = match utf8_text(blob) {
        Some(text) => text,
        None => return None,
    };
    if let Some(Some(scopes)) = parse_string_list(text) {
        return Some(TokenPolicy { scopes, constraints: ConstraintMap::new() });
    }
    match object_members(text) {
        Some(members) => {
            if unique_members(&members) && named_members(&members, "scopes", "constraints") {
                policy_from_fields(
                    value_of_member(&members, "scopes"),
                    value_of_member(&members, "constraints"),
                )
            } else {
                None
            }
        },
        None => None,
    }
}

// ---------------------------------------------------------------------
// Enforcement
// ---------------------------------------------------------------------

/// The constraint fields that a transport honours for one tool.
#[derive(Debug, Clone, Copy)]
pub struct EnforcedConstraint {
    /// The tool name.
    pub key: &'static str,
    /// Whether the transport checks the `devices` list.
    pub enforce_devices: bool,
    /// Whether the transport checks the `plugins` list.
    pub enforce_plugins: bool,
}

/// The first field that a constraint sets and an entry does not honour.
pub open spec fn unenforced_field(
    entry: EnforcedConstraint,
    constraint: ConstraintModel,
) -> Option<Seq<char>> {
    if constraint.devices is Some && !entry.enforce_devices {
        Some("devices"@)
    } else if constraint.plugins is Some && !entry.enforce_plugins {
        Some("plugins"@)
    } else {
        None
    }
}

impl EnforcedConstraint {
    /// The first field that the constraint sets and this entry does not honour. The caller has
    /// matched the tool name.
    #[must_use]
    pub fn first_unenforced_field(&self, constraint: &ToolConstraint) -> (r: Option<&'static str>)
        ensures
            match r {
                Some(f) => unenforced_field(*self, constraint@) == Some(f@),
                None => unenforced_field(*self, constraint@) is None,
            },
    {
        if constraint.devices.is_some() && !self.enforce_devices {
            return Some("devices");
        }
        if constraint.plugins.is_some() && !self.enforce_plugins {
            return Some("plugins");
        }
        None
    }
}

// ---------------------------------------------------------------------
// Laws
// ---------------------------------------------------------------------

/// An absent list lets every id pass, and an empty list none.
pub proof fn law_open_and_closed_lists(id: Seq<char>)
    ensures
        list_allows(None, id),
        !list_allows(Some(Seq::<Seq<char>>::empty()), id),
{
}

/// A pattern that ends in `*` matches the prefix itself and everything that continues it.
pub proof fn law_glob_matches_continuations(prefix: Seq<char>, tail: Seq<char>)
    ensures
        pattern_matches(prefix.push('*'), prefix + tail),
{
    let pattern = prefix.push('*');
    assert(pattern.drop_last() =~= prefix);
    assert(prefix =~= (prefix + tail).subrange(0, prefix.len() as int));
}

/// Adding patterns to a list takes no id away.
pub proof fn law_longer_list_allows_more(
    list: Seq<Seq<char>>,
    more: Seq<Seq<char>>,
    id: Seq<char>,
)
    requires
        list_allows(Some(list), id),
    ensures
        list_allows(Some(list + more), id),
{
    let i = choose|i: int| 0 <= i < list.len() && #[trigger] pattern_matches(list[i], id);
    assert((list + more)[i] == list[i]);
    assert(pattern_matches((list + more)[i], id));
}

/// A policy whose constraints write a tool name twice is malformed, whatever the two entries say.
pub proof fn law_repeated_tool_is_malformed(
    members: Seq<(Seq<char>, Seq<char>)>,
    i: int,
    j: int,
)
    requires
        0 <= i < j < members.len(),
        members[i].0 == members[j].0,
    ensures
        constraints_of_members(members) is None,
    decreases members.len(),
{
    let init = members.drop_last();
    if j < members.len() - 1 {
        law_repeated_tool_is_malformed(init, i, j);
    } else if constraints_of_members(init) is Some {
        lemma_constraint_names(init, i);
        assert(init[i] == members[i]);
    }
}

/// Every member's name is in the map that the members write.
proof fn lemma_constraint_names(members: Seq<(Seq<char>, Seq<char>)>, i: int)
    requires
        0 <= i < members.len(),
        constraints_of_members(members) is Some,
    ensures
        constraints_of_members(members)->0.dom().contains(members[i].0),
    decreases members.len(),
{
    if i < members.len() - 1 {
        lemma_constraint_names(members.drop_last(), i);
        assert(members.drop_last()[i] == members[i]);
    }
}

/// No field of a constraint goes unenforced exactly when the entry honours every field that the
/// constraint sets.
pub proof fn law_every_set_field_is_honoured(
    entry: EnforcedConstraint,
    constraint: ConstraintModel,
)
    ensures
        unenforced_field(entry, constraint) is None <==> (constraint.devices is Some
            ==> entry.enforce_devices) && (constraint.plugins is Some ==> entry.enforce_plugins),
{
}

/// What is neither a list of scope names nor an object is no policy.
pub proof fn law_policies_have_two_shapes(text: Seq<char>)
    requires
        !(json_string_list(text) matches Some(Some(_))),
        object_members_of(text) is None,
    ensures
        policy_of(text) is None,
{
}

} // verus!
