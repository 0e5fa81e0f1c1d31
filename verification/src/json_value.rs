//! JSON values that the library builds itself.

use vstd::prelude::*;

use crate::text::texts;

verus! {

/// A JSON value. A float is held by its bit pattern.
#[derive(Debug)]
pub enum Json {
    Null,
    Bool(bool),
    Int(i128),
    Float(u64),
    Text(String),
    List(Vec<Json>),
    /// The members in order.
    Object(Vec<(String, Json)>),
}

/// What a JSON value says.
pub enum JsonModel {
    Null,
    Bool(bool),
    Int(int),
    Float(u64),
    Text(Seq<char>),
    List(Seq<JsonModel>),
    Object(Seq<(Seq<char>, JsonModel)>),
}

/// What a JSON value says.
pub open spec fn json_model(value: Json) -> JsonModel
    decreases value,
{
    match value {
        Json::Null => JsonModel::Null,
        Json::Bool(b) => JsonModel::Bool(b),
        Json::Int(i) => JsonModel::Int(i as int),
        Json::Float(bits) => JsonModel::Float(bits),
        Json::Text(t) => JsonModel::Text(t@),
        Json::List(items) => JsonModel::List(
            Seq::new(
                items@.len(),
                |i: int|
                    if 0 <= i < items@.len() {
                        json_model(items@[i])
                    } else {
                        JsonModel::Null
                    },
            ),
        ),
        Json::Object(members) => JsonModel::Object(
            Seq::new(
                members@.len(),
                |i: int|
                    if 0 <= i < members@.len() {
                        (members@[i].0@, json_model(members@[i].1))
                    } else {
                        (Seq::empty(), JsonModel::Null)
                    },
            ),
        ),
    }
}

impl View for Json {
    type V = JsonModel;

    open spec fn view(&self) -> JsonModel {
        json_model(*self)
    }
}

/// What a list of JSON values says.
pub open spec fn json_items(items: Seq<Json>) -> Seq<JsonModel> {
    items.map_values(|v: Json| v@)
}

/// What the members of a JSON object say.
pub open spec fn json_members(members: Seq<(String, Json)>) -> Seq<(Seq<char>, JsonModel)> {
    members.map_values(|m: (String, Json)| (m.0@, m.1@))
}

/// A JSON text.
pub fn json_text(text: &str) -> (r: Json)
    ensures
        r@ == JsonModel::Text(text@),
{
    Json::Text(text.to_owned())
}

/// A JSON list.
pub fn json_list(items: Vec<Json>) -> (r: Json)
    ensures
        r@ == JsonModel::List(json_items(items@)),
{
    let r = Json::List(items);
    proof {
        assert(r@->List_0 =~= json_items(items@));
    }
    r
}

/// A JSON object.
pub fn json_object(members: Vec<(String, Json)>) -> (r: Json)
    ensures
        r@ == JsonModel::Object(json_members(members@)),
{
    let r = Json::Object(members);
    proof {
        assert(r@->Object_0 =~= json_members(members@));
    }
    r
}

/// A JSON list of texts.
pub open spec fn text_list(list: Seq<Seq<char>>) -> JsonModel {
    JsonModel::List(list.map_values(|t: Seq<char>| JsonModel::Text(t)))
}

/// A JSON list of texts.
pub fn json_texts(list: &Vec<String>) -> (r: Json)
    ensures
        r@ == text_list(texts(list@)),
{
    let mut items: Vec<Json> = Vec::new();
    let mut i: usize = 0;
    while i < list.len()
        invariant
            0 <= i <= list.len(),
            items.len() == i,
            forall|j: int| 0 <= j < i ==> (#[trigger] items@[j])@ == JsonModel::Text(list@[j]@),
        decreases list.len() - i,
    {
        items.push(json_text(list[i].as_str()));
        i += 1;
    }
    assert(json_items(items@) =~= texts(list@).map_values(|t: Seq<char>| JsonModel::Text(t)));
    json_list(items)
}

/// A JSON object with one member.
pub fn object1(k: &str, v: Json) -> (r: Json)
    ensures
        r@ == JsonModel::Object(seq![(k@, v@)]),
{
    let ghost m = seq![(k@, v@)];
    let mut members: Vec<(String, Json)> = Vec::new();
    members.push((k.to_owned(), v));
    assert(json_members(members@) =~= m);
    json_object(members)
}

/// A JSON object with two members.
pub fn object2(k1: &str, v1: Json, k2: &str, v2: Json) -> (r: Json)
    ensures
        r@ == JsonModel::Object(seq![(k1@, v1@), (k2@, v2@)]),
{
    let ghost m = seq![(k1@, v1@), (k2@, v2@)];
    let mut members: Vec<(String, Json)> = Vec::new();
    members.push((k1.to_owned(), v1));
    members.push((k2.to_owned(), v2));
    assert(json_members(members@) =~= m);
    json_object(members)
}

/// A JSON object with three members.
pub fn object3(k1: &str, v1: Json, k2: &str, v2: Json, k3: &str, v3: Json) -> (r: Json)
    ensures
        r@ == JsonModel::Object(seq![(k1@, v1@), (k2@, v2@), (k3@, v3@)]),
{
    let ghost m = seq![(k1@, v1@), (k2@, v2@), (k3@, v3@)];
    let mut members: Vec<(String, Json)> = Vec::new();
    members.push((k1.to_owned(), v1));
    members.push((k2.to_owned(), v2));
    members.push((k3.to_owned(), v3));
    assert(json_members(members@) =~= m);
    json_object(members)
}

/// The place of the first member with a name, or the number of members.
pub open spec fn member_index(members: Seq<(Seq<char>, JsonModel)>, name: Seq<char>) -> int
    decreases members.len(),
{
    if members.len() == 0 {
        0
    } else if members[0].0 == name {
        0
    } else {
        1 + member_index(members.skip(1), name)
    }
}

/// The members with one added, in place of the member with its name if there is one.
pub open spec fn with_member(
    members: Seq<(Seq<char>, JsonModel)>,
    name: Seq<char>,
    value: JsonModel,
) -> Seq<(Seq<char>, JsonModel)> {
    let i = member_index(members, name);
    if 0 <= i < members.len() {
        members.update(i, (name, value))
    } else {
        members.push((name, value))
    }
}

/// The value of the first member with a name.
pub open spec fn member_of(value: JsonModel, name: Seq<char>) -> Option<JsonModel> {
    match value {
        JsonModel::Object(members) => {
            let i = member_index(members, name);
            if 0 <= i < members.len() {
                Some(members[i].1)
            } else {
                None
            }
        },
        _ => None,
    }
}

/// The place of the first member with a name.
fn find_member(members: &Vec<(String, Json)>, name: &str) -> (r: usize)
    ensures
        r == member_index(json_members(members@), name@),
        r <= members.len(),
{
    let ghost all = json_members(members@);
    let mut i: usize = 0;
    assert(all.skip(0) =~= all);
    while i < members.len()
        invariant
            0 <= i <= members.len(),
            all == json_members(members@),
            member_index(all, name@) == i + member_index(all.skip(i as int), name@),
        decreases members.len() - i,
    {
        assert(all.skip(i as int)[0] == all[i as int]);
        if members[i].0.as_str().eq(name) {
            return i;
        }
        assert(all.skip(i as int).skip(1) =~= all.skip(i + 1));
        i += 1;
    }
    i
}

/// Adds a member, in place of the member with its name if there is one.
pub fn insert_member(members: Vec<(String, Json)>, name: &str, value: Json) -> (r: Vec<
    (String, Json),
>)
    ensures
        json_members(r@) == with_member(json_members(members@), name@, value@),
{
    let ghost all = json_members(members@);
    let i = find_member(&members, name);
    let ghost v = value@;
    let mut out = members;
    if i < out.len() {
        out[i] = (name.to_owned(), value);
        assert(json_members(out@) =~= all.update(i as int, (name@, v)));
    } else {
        out.push((name.to_owned(), value));
        assert(json_members(out@) =~= all.push((name@, v)));
    }
    out
}

impl Json {
    /// The value of the first member with a name, of a value that is an object.
    pub fn get(&self, name: &str) -> (r: Option<&Json>)
        ensures
            match r {
                Some(v) => member_of(self@, name@) == Some(v@),
                None => member_of(self@, name@) is None,
            },
    {
        match self {
            Json::Object(members) => {
                assert(self@->Object_0 =~= json_members(members@));
                let i = find_member(members, name);
                if i < members.len() {
                    Some(&members[i].1)
                } else {
                    None
                }
            },
            _ => None,
        }
    }
}

/// A member that was added is found, and every other one as before.
pub proof fn law_added_member_is_found(
    members: Seq<(Seq<char>, JsonModel)>,
    name: Seq<char>,
    value: JsonModel,
    other: Seq<char>,
)
    requires
        other != name,
    ensures
        member_of(JsonModel::Object(with_member(members, name, value)), name) == Some(value),
        member_of(JsonModel::Object(with_member(members, name, value)), other) == member_of(
            JsonModel::Object(members),
            other,
        ),
    decreases members.len(),
{
    let after = with_member(members, name, value);
    lemma_member_index(members, name);
    lemma_member_index(members, other);
    if members.len() == 0 {
        assert(after =~= seq![(name, value)]);
        assert(after.skip(1) =~= members);
    } else {
        let rest = members.skip(1);
        lemma_member_index(rest, name);
        lemma_member_index(rest, other);
        if members[0].0 == name {
            assert(after.skip(1) =~= rest);
            assert(after[0] == (name, value));
        } else {
            law_added_member_is_found(rest, name, value, other);
            assert(member_index(members, name) == 1 + member_index(rest, name));
            assert(after[0] == members[0]);
            assert(after.skip(1) =~= with_member(rest, name, value));
            lemma_member_index(after.skip(1), name);
            lemma_member_index(after.skip(1), other);
        }
    }
}

/// The place of a member is a place or the end.
proof fn lemma_member_index(members: Seq<(Seq<char>, JsonModel)>, name: Seq<char>)
    ensures
        0 <= member_index(members, name) <= members.len(),
    decreases members.len(),
{
    if members.len() > 0 {
        lemma_member_index(members.skip(1), name);
    }
}

} // verus!
