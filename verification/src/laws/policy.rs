//! What a stored policy lets its token do.

use vstd::prelude::*;
use vstd::utf8::*;

use crate::auth::policy::{
    any_matches, constraint_map_of, constraint_of, constraints_of_members, list_allows,
    member_value, pattern_matches, policy_of, policy_of_bytes, ConstraintModel,
};
use crate::json::{json_string_list, object_members_of};

verus! {

// ---------------------------------------------------------------------
// Patterns
// ---------------------------------------------------------------------

/// Whether an id is one that a pattern stands for: the pattern itself where it does not end in
/// `*`, and otherwise every id that begins with what is before the `*`.
pub open spec fn stands_for(pattern: Seq<char>, id: Seq<char>) -> bool {
    ||| id == pattern && !(pattern.len() > 0 && pattern[pattern.len() - 1] == '*')
    ||| exists|prefix: Seq<char>, rest: Seq<char>|
        pattern == #[trigger] prefix.push('*') && id == #[trigger] (prefix + rest)
}

/// Whether an id is one that a list of patterns stands for.
pub open spec fn is_listed(list: Seq<Seq<char>>, id: Seq<char>) -> bool {
    exists|i: int| 0 <= i < list.len() && #[trigger] stands_for(list[i], id)
}

/// A pattern matches the ids that it stands for, and no others.
pub proof fn law_patterns_match_what_they_stand_for(pattern: Seq<char>, id: Seq<char>)
    ensures
        pattern_matches(pattern, id) <==> stands_for(pattern, id),
{
    if pattern.len() > 0 && pattern.last() == '*' {
        let prefix = pattern.drop_last();
        assert(pattern =~= prefix.push('*'));
        if pattern_matches(pattern, id) {
            let rest = id.skip(prefix.len() as int);
            assert(id =~= prefix + rest);
            assert(pattern == prefix.push('*') && id == prefix + rest);
        }
        if stands_for(pattern, id) {
            let (p, rest) = choose|p: Seq<char>, rest: Seq<char>|
                pattern == #[trigger] p.push('*') && id == #[trigger] (p + rest);
            assert(p =~= prefix) by {
                assert(p.push('*').drop_last() =~= p);
            }
            assert(prefix =~= id.subrange(0, prefix.len() as int));
        }
    } else if stands_for(pattern, id) {
        if exists|p: Seq<char>, rest: Seq<char>|
            pattern == #[trigger] p.push('*') && id == #[trigger] (p + rest) {
            let (p, rest) = choose|p: Seq<char>, rest: Seq<char>|
                pattern == #[trigger] p.push('*') && id == #[trigger] (p + rest);
            assert(p.push('*').last() == '*');
        }
    }
}

/// A list lets the ids pass that its patterns stand for, and no others; no list lets all pass.
pub proof fn law_lists_pass_what_they_stand_for(list: Seq<Seq<char>>, id: Seq<char>)
    ensures
        list_allows(Some(list), id) <==> is_listed(list, id),
        list_allows(None, id),
{
    if any_matches(list, id) {
        let i = choose|i: int| 0 <= i < list.len() && #[trigger] pattern_matches(list[i], id);
        law_patterns_match_what_they_stand_for(list[i], id);
        assert(stands_for(list[i], id));
    }
    if is_listed(list, id) {
        let i = choose|i: int| 0 <= i < list.len() && #[trigger] stands_for(list[i], id);
        law_patterns_match_what_they_stand_for(list[i], id);
        assert(pattern_matches(list[i], id));
    }
}

// ---------------------------------------------------------------------
// What a policy text writes
// ---------------------------------------------------------------------

/// Whether a text is an object with a member that is written so.
pub open spec fn has_member(text: Seq<char>, name: Seq<char>, value: Seq<char>) -> bool {
    object_members_of(text) matches Some(members) && members.contains((name, value))
}

/// Whether a text is an object with a member of a name.
pub open spec fn has_name(text: Seq<char>, name: Seq<char>) -> bool {
    exists|value: Seq<char>| #[trigger] has_member(text, name, value)
}

/// Whether the constraints of a policy text give a tool this text.
pub open spec fn constrains_tool(policy: Seq<char>, tool: Seq<char>, constraint: Seq<char>) -> bool {
    exists|constraints: Seq<char>| #[trigger]
        has_member(policy, "constraints"@, constraints) && has_member(
            constraints,
            tool,
            constraint,
        )
}

/// Whether a text is an object in which no name is written twice and every one is one of two.
pub open spec fn is_plain_object(text: Seq<char>, a: Seq<char>, b: Seq<char>) -> bool {
    object_members_of(text) matches Some(members) && {
        &&& forall|i: int, j: int|
            0 <= i < members.len() && 0 <= j < members.len() && (#[trigger] members[i]).0 == (
            #[trigger] members[j]).0 ==> i == j
        &&& forall|i: int|
            0 <= i < members.len() ==> (#[trigger] members[i]).0 == a || members[i].0 == b
    }
}

/// Whether a text is a constraint: an object with lists of texts, or `null`, for `devices` and
/// `plugins`.
pub open spec fn is_constraint_text(text: Seq<char>) -> bool {
    &&& is_plain_object(text, "devices"@, "plugins"@)
    &&& forall|value: Seq<char>| #[trigger]
        has_member(text, "devices"@, value) ==> json_string_list(value) is Some
    &&& forall|value: Seq<char>| #[trigger]
        has_member(text, "plugins"@, value) ==> json_string_list(value) is Some
}

/// Whether a text is an object that gives each of its names, once, a constraint.
pub open spec fn is_constraints_text(text: Seq<char>) -> bool {
    object_members_of(text) matches Some(members) && {
        &&& forall|i: int, j: int|
            0 <= i < members.len() && 0 <= j < members.len() && (#[trigger] members[i]).0 == (
            #[trigger] members[j]).0 ==> i == j
        &&& forall|i: int| 0 <= i < members.len() ==> is_constraint_text((#[trigger] members[i]).1)
    }
}

/// Whether a text is a policy in the shape of an object.
pub open spec fn is_policy_object(text: Seq<char>) -> bool {
    &&& is_plain_object(text, "scopes"@, "constraints"@)
    &&& has_name(text, "scopes"@)
    &&& forall|value: Seq<char>| #[trigger]
        has_member(text, "scopes"@, value) ==> is_scope_list(value)
    &&& forall|value: Seq<char>| #[trigger]
        has_member(text, "constraints"@, value) ==> is_constraints_text(value)
}

/// Whether a text is a bare list of scopes.
pub open spec fn is_scope_list(text: Seq<char>) -> bool {
    json_string_list(text) matches Some(Some(_))
}

/// The value of a member is found, where no name is written twice.
proof fn lemma_member_value(
    members: Seq<(Seq<char>, Seq<char>)>,
    name: Seq<char>,
    value: Seq<char>,
)
    requires
        forall|i: int, j: int|
            0 <= i < members.len() && 0 <= j < members.len() && (#[trigger] members[i]).0 == (
            #[trigger] members[j]).0 ==> i == j,
    ensures
        members.contains((name, value)) <==> member_value(members, name) == Some(value),
    decreases members.len(),
{
    if members.len() > 0 {
        let rest = members.skip(1);
        assert forall|i: int, j: int|
            0 <= i < rest.len() && 0 <= j < rest.len() && (#[trigger] rest[i]).0 == (
            #[trigger] rest[j]).0 implies i == j by {
            assert(rest[i] == members[i + 1] && rest[j] == members[j + 1]);
        }
        lemma_member_value(rest, name, value);
        if members.contains((name, value)) {
            let k = choose|k: int| 0 <= k < members.len() && members[k] == (name, value);
            if k == 0 {
                assert(members[0].1 == value);
            } else {
                assert(rest[k - 1] == (name, value));
                if members[0].0 == name {
                    assert(members[k].0 == members[0].0);
                }
            }
        }
        if member_value(members, name) == Some(value) {
            if members[0].0 == name {
                assert(members[0] == (name, value));
            } else {
                assert(rest.contains((name, value)));
                let k = choose|k: int| 0 <= k < rest.len() && rest[k] == (name, value);
                assert(members[k + 1] == (name, value));
            }
        }
    }
}

/// No value is found under a name that no member has.
proof fn lemma_member_missing(members: Seq<(Seq<char>, Seq<char>)>, name: Seq<char>)
    ensures
        member_value(members, name) is None <==> forall|i: int|
            0 <= i < members.len() ==> (#[trigger] members[i]).0 != name,
    decreases members.len(),
{
    if members.len() > 0 {
        let rest = members.skip(1);
        lemma_member_missing(rest, name);
        if member_value(members, name) is None {
            assert forall|i: int| 0 <= i < members.len() implies (#[trigger] members[i]).0
                != name by {
                if i > 0 {
                    assert(rest[i - 1] == members[i]);
                }
            }
        } else if members[0].0 != name {
            let i = choose|i: int| 0 <= i < rest.len() && (#[trigger] rest[i]).0 == name;
            assert(members[i + 1].0 == name);
        }
    }
}

// ---------------------------------------------------------------------
// Constraints
// ---------------------------------------------------------------------

/// A constraint text reads as a constraint exactly when it is one. The list of `devices` then
/// governs device ids and that of `plugins` governs plugin ids: an id passes exactly when one of
/// the listed patterns stands for it. A list that is not written, or is `null`, lets every id
/// pass.
pub proof fn law_each_list_governs_its_ids(text: Seq<char>)
    ensures
        constraint_of(text) is Some <==> is_constraint_text(text),
        forall|value: Seq<char>, list: Seq<Seq<char>>, id: Seq<char>|
            constraint_of(text) is Some && #[trigger] has_member(text, "plugins"@, value)
                && json_string_list(value) == Some(Some(list)) ==> (#[trigger] list_allows(
                constraint_of(text)->0.plugins,
                id,
            ) <==> #[trigger] is_listed(list, id)),
        forall|value: Seq<char>, list: Seq<Seq<char>>, id: Seq<char>|
            constraint_of(text) is Some && #[trigger] has_member(text, "devices"@, value)
                && json_string_list(value) == Some(Some(list)) ==> (#[trigger] list_allows(
                constraint_of(text)->0.devices,
                id,
            ) <==> #[trigger] is_listed(list, id)),
        constraint_of(text) is Some && !has_name(text, "plugins"@) ==> forall|id: Seq<char>|
            #[trigger]
            list_allows(constraint_of(text)->0.plugins, id),
        constraint_of(text) is Some && !has_name(text, "devices"@) ==> forall|id: Seq<char>|
            #[trigger]
            list_allows(constraint_of(text)->0.devices, id),
        forall|value: Seq<char>, id: Seq<char>|
            constraint_of(text) is Some && #[trigger] has_member(text, "plugins"@, value)
                && json_string_list(value) == Some(None::<Seq<Seq<char>>>)
                ==> #[trigger] list_allows(constraint_of(text)->0.plugins, id),
        forall|value: Seq<char>, id: Seq<char>|
            constraint_of(text) is Some && #[trigger] has_member(text, "devices"@, value)
                && json_string_list(value) == Some(None::<Seq<Seq<char>>>)
                ==> #[trigger] list_allows(constraint_of(text)->0.devices, id),
{
    reveal_strlit("devices");
    reveal_strlit("plugins");
    if let Some(members) = object_members_of(text) {
        if is_plain_object(text, "devices"@, "plugins"@) {
            assert forall|value: Seq<char>| #[trigger] has_member(text, "plugins"@, value) <==>
                member_value(members, "plugins"@) == Some(value) by {
                lemma_member_value(members, "plugins"@, value);
            }
            assert forall|value: Seq<char>| #[trigger] has_member(text, "devices"@, value) <==>
                member_value(members, "devices"@) == Some(value) by {
                lemma_member_value(members, "devices"@, value);
            }
            if let Some(value) = member_value(members, "plugins"@) {
                assert(has_member(text, "plugins"@, value));
            }
            if let Some(value) = member_value(members, "devices"@) {
                assert(has_member(text, "devices"@, value));
            }
        }
    }
    assert forall|value: Seq<char>, list: Seq<Seq<char>>, id: Seq<char>|
        constraint_of(text) is Some && #[trigger] has_member(text, "plugins"@, value)
            && json_string_list(value) == Some(Some(list)) implies (#[trigger] list_allows(
        constraint_of(text)->0.plugins,
        id,
    ) <==> #[trigger] is_listed(list, id)) by {
        law_lists_pass_what_they_stand_for(list, id);
    }
    assert forall|value: Seq<char>, list: Seq<Seq<char>>, id: Seq<char>|
        constraint_of(text) is Some && #[trigger] has_member(text, "devices"@, value)
            && json_string_list(value) == Some(Some(list)) implies (#[trigger] list_allows(
        constraint_of(text)->0.devices,
        id,
    ) <==> #[trigger] is_listed(list, id)) by {
        law_lists_pass_what_they_stand_for(list, id);
    }
}

/// The constraints of members are those that the members write, one by one.
proof fn lemma_constraints_of_members(members: Seq<(Seq<char>, Seq<char>)>)
    ensures
        constraints_of_members(members) is Some <==> {
            &&& forall|i: int, j: int|
                0 <= i < members.len() && 0 <= j < members.len() && (#[trigger] members[i]).0 == (
                #[trigger] members[j]).0 ==> i == j
            &&& forall|i: int|
                0 <= i < members.len() ==> constraint_of((#[trigger] members[i]).1) is Some
        },
        constraints_of_members(members) matches Some(map) ==> {
            &&& forall|key: Seq<char>|
                map.dom().contains(key) <==> exists|i: int|
                    0 <= i < members.len() && (#[trigger] members[i]).0 == key
            &&& forall|i: int|
                0 <= i < members.len() ==> constraint_of((#[trigger] members[i]).1) == Some(
                    map[members[i].0],
                )
        },
    decreases members.len(),
{
    if members.len() > 0 {
        let init = members.drop_last();
        let last = members.len() - 1;
        lemma_constraints_of_members(init);
        if let Some(map) = constraints_of_members(members) {
            let before = constraints_of_members(init)->0;
            assert forall|i: int, j: int|
                0 <= i < members.len() && 0 <= j < members.len() && (#[trigger] members[i]).0 == (
                #[trigger] members[j]).0 implies i == j by {
                if i < last {
                    assert(init[i] == members[i]);
                }
                if j < last {
                    assert(init[j] == members[j]);
                }
            }
            assert forall|i: int| 0 <= i < members.len() implies constraint_of(
                (#[trigger] members[i]).1,
            ) == Some(map[members[i].0]) by {
                if i < last {
                    assert(init[i] == members[i]);
                    assert(before.dom().contains(init[i].0));
                }
            }
            assert forall|key: Seq<char>| map.dom().contains(key) <==> exists|i: int|
                0 <= i < members.len() && (#[trigger] members[i]).0 == key by {
                if before.dom().contains(key) {
                    let i = choose|i: int| 0 <= i < init.len() && (#[trigger] init[i]).0 == key;
                    assert(members[i].0 == key);
                }
                if exists|i: int| 0 <= i < members.len() && (#[trigger] members[i]).0 == key {
                    let i = choose|i: int|
                        0 <= i < members.len() && (#[trigger] members[i]).0 == key;
                    if i < last {
                        assert(init[i].0 == key);
                    }
                }
                assert(members[last].0 == members.last().0);
            }
        } else {
            if constraints_of_members(init) is None {
                if exists|i: int, j: int|
                    0 <= i < init.len() && 0 <= j < init.len() && (#[trigger] init[i]).0 == (
                    #[trigger] init[j]).0 && i != j {
                    let (i, j) = choose|i: int, j: int|
                        0 <= i < init.len() && 0 <= j < init.len() && (#[trigger] init[i]).0 == (
                        #[trigger] init[j]).0 && i != j;
                    assert(members[i].0 == members[j].0);
                } else {
                    let i = choose|i: int|
                        0 <= i < init.len() && constraint_of((#[trigger] init[i]).1) is None;
                    assert(constraint_of(members[i].1) is None);
                }
            } else if constraint_of(members.last().1) is None {
                assert(constraint_of(members[last].1) is None);
            } else {
                let i = choose|i: int|
                    0 <= i < init.len() && (#[trigger] init[i]).0 == members.last().0;
                assert(members[i].0 == members[last].0);
            }
        }
    }
}

/// The constraints of a policy read exactly when each tool is written once with a constraint, and
/// each tool gets the constraint that is written for it.
pub proof fn law_tools_get_their_constraints(text: Seq<char>)
    ensures
        constraint_map_of(text) is Some <==> is_constraints_text(text),
        constraint_map_of(text) matches Some(map) ==> {
            &&& forall|tool: Seq<char>| map.dom().contains(tool) <==> #[trigger] has_name(text, tool)
            &&& forall|tool: Seq<char>, constraint: Seq<char>| #[trigger]
                has_member(text, tool, constraint) ==> constraint_of(constraint) == Some(map[tool])
        },
{
    if let Some(members) = object_members_of(text) {
        lemma_constraints_of_members(members);
        assert forall|i: int| 0 <= i < members.len() implies (constraint_of(
            (#[trigger] members[i]).1,
        ) is Some <==> is_constraint_text(members[i].1)) by {
            law_each_list_governs_its_ids(members[i].1);
        }
        if let Some(map) = constraint_map_of(text) {
            assert forall|tool: Seq<char>| map.dom().contains(tool) <==> #[trigger] has_name(
                text,
                tool,
            ) by {
                if map.dom().contains(tool) {
                    let i = choose|i: int|
                        0 <= i < members.len() && (#[trigger] members[i]).0 == tool;
                    assert(members[i] == (tool, members[i].1));
                    assert(has_member(text, tool, members[i].1));
                }
                if has_name(text, tool) {
                    let value = choose|value: Seq<char>| #[trigger] has_member(text, tool, value);
                    let i = choose|i: int| 0 <= i < members.len() && members[i] == (tool, value);
                    assert(members[i].0 == tool);
                }
            }
            assert forall|tool: Seq<char>, constraint: Seq<char>| #[trigger]
                has_member(text, tool, constraint) implies constraint_of(constraint) == Some(
                map[tool],
            ) by {
                let i = choose|i: int| 0 <= i < members.len() && members[i] == (tool, constraint);
                assert(members[i].0 == tool);
            }
        }
    }
}

// ---------------------------------------------------------------------
// Policies
// ---------------------------------------------------------------------

/// A text reads as a policy exactly when it is a bare list of scopes or an object with `scopes`
/// and perhaps `constraints`.
pub proof fn law_policies_are_lists_or_objects(text: Seq<char>)
    ensures
        policy_of(text) is Some <==> is_scope_list(text) || is_policy_object(text),
{
    lemma_policy_object(text);
}

/// What an object that is a policy says of its scopes and its constraints.
proof fn lemma_policy_object(text: Seq<char>)
    ensures
        policy_of(text) is Some <==> is_scope_list(text) || is_policy_object(text),
        !is_scope_list(text) ==> (policy_of(text) matches Some(policy) ==> {
            &&& forall|value: Seq<char>| #[trigger]
                has_member(text, "scopes"@, value) ==> json_string_list(value) == Some(
                    Some(policy.scopes),
                )
            &&& forall|value: Seq<char>| #[trigger]
                has_member(text, "constraints"@, value) ==> constraint_map_of(value) == Some(
                    policy.constraints,
                )
            &&& !has_name(text, "constraints"@) ==> policy.constraints == Map::<
                Seq<char>,
                ConstraintModel,
            >::empty()
        }),
{
    reveal_strlit("scopes");
    reveal_strlit("constraints");
    if !is_scope_list(text) {
        if let Some(members) = object_members_of(text) {
            if is_plain_object(text, "scopes"@, "constraints"@) {
                assert forall|value: Seq<char>| #[trigger] has_member(text, "scopes"@, value) <==>
                    member_value(members, "scopes"@) == Some(value) by {
                    lemma_member_value(members, "scopes"@, value);
                }
                assert forall|value: Seq<char>| #[trigger] has_member(
                    text,
                    "constraints"@,
                    value,
                ) <==> member_value(members, "constraints"@) == Some(value) by {
                    lemma_member_value(members, "constraints"@, value);
                }
                if let Some(value) = member_value(members, "scopes"@) {
                    assert(has_member(text, "scopes"@, value));
                }
                if let Some(value) = member_value(members, "constraints"@) {
                    assert(has_member(text, "constraints"@, value));
                    law_tools_get_their_constraints(value);
                }
            }
        }
    }
}

/// A token holds exactly the scopes that its policy lists, in their order: the bare list, or the
/// list under `scopes`. A bare list constrains nothing.
pub proof fn law_policies_hold_the_listed_scopes(
    text: Seq<char>,
    value: Seq<char>,
    list: Seq<Seq<char>>,
)
    requires
        policy_of(text) is Some,
        is_scope_list(text) ==> value == text,
        !is_scope_list(text) ==> has_member(text, "scopes"@, value),
        json_string_list(value) == Some(Some(list)),
    ensures
        policy_of(text)->0.scopes == list,
        is_scope_list(text) ==> policy_of(text)->0.constraints == Map::<
            Seq<char>,
            ConstraintModel,
        >::empty(),
{
    lemma_policy_object(text);
}

/// A tool is constrained exactly when the policy names it under `constraints`.
pub proof fn law_only_named_tools_are_constrained(text: Seq<char>, tool: Seq<char>)
    requires
        policy_of(text) is Some,
        !is_scope_list(text),
    ensures
        policy_of(text)->0.constraints.dom().contains(tool) <==> exists|constraint: Seq<char>|
            #[trigger]
            constrains_tool(text, tool, constraint),
{
    lemma_policy_object(text);
    let policy = policy_of(text)->0;
    if policy.constraints.dom().contains(tool) {
        let constraints = choose|value: Seq<char>| #[trigger]
            has_member(text, "constraints"@, value);
        assert(has_name(text, "constraints"@));
        assert(has_member(text, "constraints"@, constraints));
        law_tools_get_their_constraints(constraints);
        assert(has_name(constraints, tool));
        let constraint = choose|value: Seq<char>| #[trigger] has_member(constraints, tool, value);
        assert(constrains_tool(text, tool, constraint));
    }
    if exists|constraint: Seq<char>| #[trigger] constrains_tool(text, tool, constraint) {
        let constraint = choose|constraint: Seq<char>| #[trigger]
            constrains_tool(text, tool, constraint);
        let constraints = choose|constraints: Seq<char>| #[trigger]
            has_member(text, "constraints"@, constraints) && has_member(
                constraints,
                tool,
                constraint,
            );
        law_tools_get_their_constraints(constraints);
        assert(has_name(constraints, tool));
    }
}

/// Where a policy gives a tool a list of plugins, a plugin id passes the tool's constraint exactly
/// when one of the listed patterns stands for it; every other id is refused.
pub proof fn law_only_listed_plugins_pass(
    text: Seq<char>,
    tool: Seq<char>,
    constraint: Seq<char>,
    value: Seq<char>,
    list: Seq<Seq<char>>,
    id: Seq<char>,
)
    requires
        policy_of(text) is Some,
        !is_scope_list(text),
        constrains_tool(text, tool, constraint),
        has_member(constraint, "plugins"@, value),
        json_string_list(value) == Some(Some(list)),
    ensures
        policy_of(text)->0.constraints.dom().contains(tool),
        list_allows(policy_of(text)->0.constraints[tool].plugins, id) <==> is_listed(list, id),
{
    lemma_tool_constraint(text, tool, constraint);
    law_each_list_governs_its_ids(constraint);
}

/// Where a policy gives a tool a list of devices, a device id passes the tool's constraint exactly
/// when one of the listed patterns stands for it; every other id is refused.
pub proof fn law_only_listed_devices_pass(
    text: Seq<char>,
    tool: Seq<char>,
    constraint: Seq<char>,
    value: Seq<char>,
    list: Seq<Seq<char>>,
    id: Seq<char>,
)
    requires
        policy_of(text) is Some,
        !is_scope_list(text),
        constrains_tool(text, tool, constraint),
        has_member(constraint, "devices"@, value),
        json_string_list(value) == Some(Some(list)),
    ensures
        policy_of(text)->0.constraints.dom().contains(tool),
        list_allows(policy_of(text)->0.constraints[tool].devices, id) <==> is_listed(list, id),
{
    lemma_tool_constraint(text, tool, constraint);
    law_each_list_governs_its_ids(constraint);
}

/// A tool has the constraint that the policy writes for it.
proof fn lemma_tool_constraint(text: Seq<char>, tool: Seq<char>, constraint: Seq<char>)
    requires
        policy_of(text) is Some,
        !is_scope_list(text),
        constrains_tool(text, tool, constraint),
    ensures
        policy_of(text)->0.constraints.dom().contains(tool),
        constraint_of(constraint) == Some(policy_of(text)->0.constraints[tool]),
{
    lemma_policy_object(text);
    let constraints = choose|constraints: Seq<char>| #[trigger]
        has_member(text, "constraints"@, constraints) && has_member(constraints, tool, constraint);
    law_tools_get_their_constraints(constraints);
    assert(has_name(constraints, tool));
}

/// What is stored is the text of the policy in UTF-8, and bytes that are not UTF-8 are no policy.
pub proof fn law_policies_are_stored_as_text(text: Seq<char>, blob: Seq<u8>)
    ensures
        policy_of_bytes(encode_utf8(text)) == policy_of(text),
        !valid_utf8(blob) ==> policy_of_bytes(blob) is None,
{
    encode_utf8_valid_utf8(text);
    encode_utf8_decode_utf8(text);
}

} // verus!
