//! Reading members out of JSON objects, and the field rules that decoding
//! applies to them.
use vstd::prelude::*;
use crate::json::{Json, JsonModel};

verus! {

broadcast use vstd::std_specs::vec::group_vec_axioms;

/// The value of the first member named `key`, if any.
pub open spec fn lookup(members: Seq<(Seq<char>, JsonModel)>, key: Seq<char>) -> Option<JsonModel>
    decreases members.len(),
{
    if members.len() == 0 {
        None
    } else if members[0].0 == key {
        Some(members[0].1)
    } else {
        lookup(members.drop_first(), key)
    }
}

/// A boolean member: `default` when absent, its value when a boolean,
/// nothing when it holds anything else.
pub open spec fn bool_field(
    members: Seq<(Seq<char>, JsonModel)>,
    key: Seq<char>,
    default: bool,
) -> Option<bool> {
    match lookup(members, key) {
        None => Some(default),
        Some(JsonModel::Bool(b)) => Some(b),
        Some(_) => None,
    }
}

/// A string member: empty when absent, its value when a string, nothing
/// when it holds anything else.
pub open spec fn str_field(members: Seq<(Seq<char>, JsonModel)>, key: Seq<char>) -> Option<
    Seq<char>,
> {
    match lookup(members, key) {
        None => Some(Seq::empty()),
        Some(JsonModel::Str(s)) => Some(s),
        Some(_) => None,
    }
}

/// The model of an object's members.
pub open spec fn members_model(members: Vec<(String, Json)>) -> Seq<(Seq<char>, JsonModel)> {
    Seq::new(members.len() as nat, |i: int| (members[i].0@, members[i].1@))
}

/// An object's model holds the models of its members.
pub proof fn lemma_object_view(members: Vec<(String, Json)>)
    ensures
        Json::Object(members)@ == JsonModel::Object(members_model(members)),
{
    reveal_with_fuel(<Json as View>::view, 2);
    assert(members_model(members) =~= match Json::Object(members)@ {
        JsonModel::Object(m) => m,
        _ => Seq::empty(),
    });
}

/// The model of an array's items.
pub open spec fn items_model(items: Vec<Json>) -> Seq<JsonModel> {
    Seq::new(items.len() as nat, |i: int| items[i]@)
}

/// An array's model holds the models of its items.
pub proof fn lemma_array_view(items: Vec<Json>)
    ensures
        Json::Array(items)@ == JsonModel::Array(items_model(items)),
{
    reveal_with_fuel(<Json as View>::view, 2);
    assert(items_model(items) =~= match Json::Array(items)@ {
        JsonModel::Array(m) => m,
        _ => Seq::empty(),
    });
}

/// Skipping members whose names differ from `key` does not change what
/// `key` looks up.
pub proof fn lemma_lookup_skip(members: Seq<(Seq<char>, JsonModel)>, key: Seq<char>, i: int)
    requires
        0 <= i <= members.len(),
        forall|j: int| 0 <= j < i ==> members[j].0 != key,
    ensures
        lookup(members, key) == lookup(members.skip(i), key),
    decreases i,
{
    if i == 0 {
        assert(members.skip(0) =~= members);
    } else {
        lemma_lookup_skip(members.drop_first(), key, i - 1);
        assert(members.drop_first().skip(i - 1) =~= members.skip(i));
    }
}

/// The first member named `key` gives the value that `key` looks up.
pub proof fn lemma_lookup_at(members: Seq<(Seq<char>, JsonModel)>, key: Seq<char>, i: int)
    requires
        0 <= i < members.len(),
        members[i].0 == key,
        forall|j: int| 0 <= j < i ==> members[j].0 != key,
    ensures
        lookup(members, key) == Some(members[i].1),
{
    lemma_lookup_skip(members, key, i);
    assert(members.skip(i)[0] == members[i]);
}

/// A member named otherwise than `key`, inserted anywhere, does not change
/// what `key` looks up.
pub proof fn lemma_lookup_insert(
    members: Seq<(Seq<char>, JsonModel)>,
    pos: int,
    member: (Seq<char>, JsonModel),
    key: Seq<char>,
)
    requires
        0 <= pos <= members.len(),
        member.0 != key,
    ensures
        lookup(members.insert(pos, member), key) == lookup(members, key),
    decreases pos,
{
    let inserted = members.insert(pos, member);
    if pos == 0 {
        assert(inserted.drop_first() =~= members);
    } else {
        assert(inserted[0] == members[0]);
        assert(inserted.drop_first() =~= members.drop_first().insert(pos - 1, member));
        lemma_lookup_insert(members.drop_first(), pos - 1, member, key);
    }
}

/// Whether `key` is present and holds something other than a boolean.
pub open spec fn holds_non_bool(members: Seq<(Seq<char>, JsonModel)>, key: Seq<char>) -> bool {
    match lookup(members, key) {
        None => false,
        Some(JsonModel::Bool(_)) => false,
        Some(_) => true,
    }
}

/// Whether `key` is present and holds something other than a string.
pub open spec fn holds_non_str(members: Seq<(Seq<char>, JsonModel)>, key: Seq<char>) -> bool {
    match lookup(members, key) {
        None => false,
        Some(JsonModel::Str(_)) => false,
        Some(_) => true,
    }
}

/// Whether `key` is present and holds something other than an array.
pub open spec fn holds_non_array(members: Seq<(Seq<char>, JsonModel)>, key: Seq<char>) -> bool {
    match lookup(members, key) {
        None => false,
        Some(JsonModel::Array(_)) => false,
        Some(_) => true,
    }
}

/// Whether `key` is present and holds something other than an object.
pub open spec fn holds_non_object(members: Seq<(Seq<char>, JsonModel)>, key: Seq<char>) -> bool {
    match lookup(members, key) {
        None => false,
        Some(JsonModel::Object(_)) => false,
        Some(_) => true,
    }
}

/// The position of the first member named `key`.
pub fn find_member(members: &Vec<(String, Json)>, key: &String) -> (r: Option<usize>)
    ensures
        match r {
            Some(i) => i < members.len() && lookup(members_model(*members), key@) == Some(
                members[i as int].1@,
            ),
            None => lookup(members_model(*members), key@) is None,
        },
{
    let ghost m = members_model(*members);
    assert(m.len() == members.len());
    let mut i: usize = 0;
    while i < members.len()
        invariant
            i <= members.len(),
            m == members_model(*members),
            m.len() == members.len(),
            forall|j: int| 0 <= j < i ==> m[j].0 != key@,
        decreases members.len() - i,
    {
        let name = &members[i].0;
        if *name == *key {
            proof {
                lemma_lookup_skip(m, key@, i as int);
                assert(m.skip(i as int)[0] == m[i as int]);
            }
            return Some(i);
        }
        i = i + 1;
    }
    proof {
        lemma_lookup_skip(m, key@, i as int);
    }
    None
}

/// Reads a boolean member, with `default` for an absent one.
pub fn bool_member(members: &Vec<(String, Json)>, key: &String, default: bool) -> (r: Option<bool>)
    ensures
        r == bool_field(members_model(*members), key@, default),
{
    match find_member(members, key) {
        None => Some(default),
        Some(i) => match &members[i].1 {
            Json::Bool(b) => Some(*b),
            _ => None,
        },
    }
}

/// Reads a string member, empty for an absent one.
pub fn str_member(members: &Vec<(String, Json)>, key: &String) -> (r: Option<String>)
    ensures
        match str_field(members_model(*members), key@) {
            Some(s) => r is Some && r->Some_0@ == s,
            None => r is None,
        },
{
    match find_member(members, key) {
        None => Some(String::new()),
        Some(i) => match &members[i].1 {
            Json::Str(s) => Some(s.clone()),
            _ => None,
        },
    }
}

} // verus!
