//! A JSON value tree held as plain data, and its mathematical model.
use vstd::prelude::*;

verus! {

/// A JSON value. A number keeps the text it was written with; an object
/// keeps its members in order.
#[derive(Debug)]
pub enum Json {
    Null,
    Bool(bool),
    Num(String),
    Str(String),
    Arr(Vec<Json>),
    Obj(Vec<Member>),
}

/// One member of a JSON object.
#[derive(Debug)]
pub struct Member {
    pub key: String,
    pub value: Json,
}

/// The model of a [`Json`] value.
pub enum JsonValue {
    Null,
    Bool(bool),
    Num(Seq<char>),
    Str(Seq<char>),
    Arr(Seq<JsonValue>),
    Obj(Seq<(Seq<char>, JsonValue)>),
}

pub type Members = Seq<(Seq<char>, JsonValue)>;

pub open spec fn json_view(j: Json) -> JsonValue
    decreases j,
{
    match j {
        Json::Null => JsonValue::Null,
        Json::Bool(b) => JsonValue::Bool(b),
        Json::Num(s) => JsonValue::Num(s@),
        Json::Str(s) => JsonValue::Str(s@),
        Json::Arr(items) => JsonValue::Arr(
            Seq::new(
                items@.len(),
                |i: int|
                    if 0 <= i < items@.len() {
                        json_view(items@[i])
                    } else {
                        JsonValue::Null
                    },
            ),
        ),
        Json::Obj(members) => JsonValue::Obj(
            Seq::new(
                members@.len(),
                |i: int|
                    if 0 <= i < members@.len() {
                        (members@[i].key@, json_view(members@[i].value))
                    } else {
                        (Seq::empty(), JsonValue::Null)
                    },
            ),
        ),
    }
}

impl View for Json {
    type V = JsonValue;

    open spec fn view(&self) -> JsonValue {
        json_view(*self)
    }
}

/// The value of the first member named `k`, if any.
pub open spec fn lookup(members: Members, k: Seq<char>) -> Option<JsonValue>
    decreases members.len(),
{
    if members.len() == 0 {
        None
    } else if members[0].0 == k {
        Some(members[0].1)
    } else {
        lookup(members.drop_first(), k)
    }
}

/// The models of the items of an array, in order.
pub open spec fn items_of(items: Seq<Json>) -> Seq<JsonValue> {
    Seq::new(
        items.len(),
        |i: int|
            if 0 <= i < items.len() {
                json_view(items[i])
            } else {
                JsonValue::Null
            },
    )
}

/// The models of the members of an object, in order.
pub open spec fn members_of(members: Seq<Member>) -> Members {
    Seq::new(
        members.len(),
        |i: int|
            if 0 <= i < members.len() {
                (members[i].key@, json_view(members[i].value))
            } else {
                (Seq::empty(), JsonValue::Null)
            },
    )
}

pub proof fn lemma_arr_view(items: Vec<Json>)
    ensures
        json_view(Json::Arr(items)) == JsonValue::Arr(items_of(items@)),
{
    let v = json_view(Json::Arr(items));
    assert(v->Arr_0 =~= items_of(items@));
}

pub proof fn lemma_obj_view(members: Vec<Member>)
    ensures
        json_view(Json::Obj(members)) == JsonValue::Obj(members_of(members@)),
{
    let v = json_view(Json::Obj(members));
    assert(v->Obj_0 =~= members_of(members@));
}

/// `lookup` finds the first member named `k`.
pub proof fn lemma_lookup_at(members: Members, k: Seq<char>, i: int)
    requires
        0 <= i < members.len(),
        members[i].0 == k,
        forall|j: int| 0 <= j < i ==> members[j].0 != k,
    ensures
        lookup(members, k) == Some(members[i].1),
    decreases i,
{
    if i > 0 {
        lemma_lookup_at(members.drop_first(), k, i - 1);
    }
}

/// `lookup` finds nothing where no member is named `k`.
pub proof fn lemma_lookup_absent(members: Members, k: Seq<char>)
    requires
        forall|j: int| 0 <= j < members.len() ==> members[j].0 != k,
    ensures
        lookup(members, k) is None,
    decreases members.len(),
{
    if members.len() > 0 {
        lemma_lookup_absent(members.drop_first(), k);
    }
}

/// The value of the first member of `members` named `key`, if any.
pub fn lookup_member<'a>(members: &'a Vec<Member>, key: &str) -> (r: Option<&'a Json>)
    ensures
        match r {
            Some(v) => lookup(members_of(members@), key@) == Some(v@),
            None => lookup(members_of(members@), key@) is None,
        },
{
    let ghost ms = members_of(members@);
    let k = key.to_owned();
    let mut i: usize = 0;
    while i < members.len()
        invariant
            i <= members.len(),
            k@ == key@,
            ms == members_of(members@),
            forall|j: int| 0 <= j < i ==> ms[j].0 != key@,
        decreases members.len() - i,
    {
        if members[i].key == k {
            proof {
                lemma_lookup_at(ms, key@, i as int);
            }
            return Some(&members[i].value);
        }
        i = i + 1;
    }
    proof {
        lemma_lookup_absent(ms, key@);
    }
    None
}

impl Json {
    /// The value of the first member named `key`, where `self` is an object
    /// that has one.
    pub fn get(&self, key: &str) -> (r: Option<&Json>)
        ensures
            match self@ {
                JsonValue::Obj(ms) => match r {
                    Some(v) => lookup(ms, key@) == Some(v@),
                    None => lookup(ms, key@) is None,
                },
                _ => r is None,
            },
    {
        match self {
            Json::Obj(members) => {
                proof {
                    lemma_obj_view(*members);
                }
                lookup_member(members, key)
            },
            _ => None,
        }
    }
}

} // verus!
