//! JSON values as the protocol layer reads and writes them.
//!
//! Numbers are kept as the text they were written with, so that no value
//! loses precision on its way through.

use vstd::prelude::*;
use vstd::string::*;
use crate::text::{push_decimal, push_signed_decimal, decimal, signed_decimal, str_equal};

verus! {

/// A JSON value.
#[derive(Debug)]
pub enum Json {
    Null,
    Bool(bool),
    /// A number, as its JSON text.
    Number(String),
    Str(String),
    Array(Vec<Json>),
    /// An object's members, in order; keys are distinct.
    Object(Vec<(String, Json)>),
}

/// The mathematical value of a [`Json`].
pub enum JsonV {
    Null,
    Bool(bool),
    Number(Seq<char>),
    Str(Seq<char>),
    Array(Seq<JsonV>),
    Object(Seq<(Seq<char>, JsonV)>),
}

/// The values of a list of JSON values.
pub open spec fn view_list(s: Seq<Json>) -> Seq<JsonV>
    decreases s,
{
    if s.len() == 0 {
        Seq::empty()
    } else {
        seq![view_json(s[0])] + view_list(s.subrange(1, s.len() as int))
    }
}

/// The values of a list of object members.
pub open spec fn view_members(s: Seq<(String, Json)>) -> Seq<(Seq<char>, JsonV)>
    decreases s,
{
    if s.len() == 0 {
        Seq::empty()
    } else {
        seq![(s[0].0@, view_json(s[0].1))] + view_members(s.subrange(1, s.len() as int))
    }
}

/// The value of a JSON value.
pub open spec fn view_json(j: Json) -> JsonV
    decreases j,
{
    match j {
        Json::Null => JsonV::Null,
        Json::Bool(b) => JsonV::Bool(b),
        Json::Number(s) => JsonV::Number(s@),
        Json::Str(s) => JsonV::Str(s@),
        Json::Array(v) => JsonV::Array(view_list(v@)),
        Json::Object(v) => JsonV::Object(view_members(v@)),
    }
}

impl View for Json {
    type V = JsonV;

    open spec fn view(&self) -> JsonV {
        view_json(*self)
    }
}

/// The value of the first member named `key`.
pub open spec fn member(members: Seq<(Seq<char>, JsonV)>, key: Seq<char>) -> Option<JsonV>
    decreases members.len(),
{
    if members.len() == 0 {
        None
    } else if members[0].0 == key {
        Some(members[0].1)
    } else {
        member(members.drop_first(), key)
    }
}

/// The value stored under `key` when `v` is an object.
pub open spec fn get(v: JsonV, key: Seq<char>) -> Option<JsonV> {
    match v {
        JsonV::Object(members) => member(members, key),
        _ => None,
    }
}

/// The text of `v` when it is a string.
pub open spec fn as_text(v: JsonV) -> Option<Seq<char>> {
    match v {
        JsonV::Str(s) => Some(s),
        _ => None,
    }
}

/// The text stored under `key` in `v`, when there is a string there.
pub open spec fn text_at(v: Option<JsonV>, key: Seq<char>) -> Option<Seq<char>> {
    match v {
        Some(o) => match get(o, key) {
            Some(x) => as_text(x),
            None => None,
        },
        None => None,
    }
}

/// The value stored under `key` in `v`.
pub open spec fn value_at(v: Option<JsonV>, key: Seq<char>) -> Option<JsonV> {
    match v {
        Some(o) => get(o, key),
        None => None,
    }
}

/// A one-element list of values.
pub proof fn lemma_view_list_one(j: Json)
    ensures
        view_list(seq![j]) == seq![view_json(j)],
{
    reveal_with_fuel(view_list, 2);
    assert(seq![j].subrange(1, 1) =~= Seq::<Json>::empty());
}

/// Viewing a list that grows at its end.
pub proof fn lemma_view_list_push(s: Seq<Json>, j: Json)
    ensures
        view_list(s.push(j)) == view_list(s).push(view_json(j)),
    decreases s.len(),
{
    if s.len() == 0 {
        lemma_view_list_one(j);
        assert(s.push(j) =~= seq![j]);
        assert(view_list(s) =~= Seq::<JsonV>::empty());
        assert(view_list(s).push(view_json(j)) =~= seq![view_json(j)]);
    } else {
        lemma_view_list_push(s.subrange(1, s.len() as int), j);
        assert(s.push(j).subrange(1, s.push(j).len() as int) =~= s.subrange(1, s.len() as int).push(j));
        assert(s.push(j)[0] == s[0]);
        assert(view_list(s.push(j)) =~= view_list(s).push(view_json(j)));
    }
}

/// Viewing a member list that grows at its end.
pub proof fn lemma_view_members_push(s: Seq<(String, Json)>, m: (String, Json))
    ensures
        view_members(s.push(m)) == view_members(s).push((m.0@, view_json(m.1))),
    decreases s.len(),
{
    if s.len() == 0 {
        reveal_with_fuel(view_members, 2);
        assert(s.push(m) =~= seq![m]);
        assert(seq![m].subrange(1, 1) =~= Seq::<(String, Json)>::empty());
        assert(view_members(s) =~= Seq::<(Seq<char>, JsonV)>::empty());
        assert(view_members(s.push(m)) =~= seq![(m.0@, view_json(m.1))]);
    } else {
        lemma_view_members_push(s.subrange(1, s.len() as int), m);
        assert(s.push(m).subrange(1, s.push(m).len() as int) =~= s.subrange(1, s.len() as int).push(m));
        assert(s.push(m)[0] == s[0]);
        assert(view_members(s.push(m)) =~= view_members(s).push((m.0@, view_json(m.1))));
    }
}

/// Looking a key up in a member list, one member at a time.
proof fn lemma_members_step(s: Seq<(String, Json)>)
    requires
        s.len() > 0,
    ensures
        view_members(s)[0] == (s[0].0@, view_json(s[0].1)),
        view_members(s).drop_first() == view_members(s.subrange(1, s.len() as int)),
        view_members(s).len() == s.len(),
    decreases s.len(),
{
    lemma_members_len(s);
    lemma_members_len(s.subrange(1, s.len() as int));
    assert(view_members(s).drop_first() =~= view_members(s.subrange(1, s.len() as int)));
}

proof fn lemma_members_len(s: Seq<(String, Json)>)
    ensures
        view_members(s).len() == s.len(),
    decreases s.len(),
{
    if s.len() > 0 {
        lemma_members_len(s.subrange(1, s.len() as int));
    }
}

impl Json {
    /// A string value holding `s`.
    pub fn text(s: &str) -> (r: Json)
        ensures
            r@ == JsonV::Str(s@),
    {
        Json::Str(String::from_str(s))
    }

    /// A number value for `n`.
    pub fn unsigned(n: u64) -> (r: Json)
        ensures
            r@ == JsonV::Number(decimal(n as nat)),
    {
        let mut s = String::new();
        push_decimal(&mut s, n);
        assert(s@ =~= decimal(n as nat));
        Json::Number(s)
    }

    /// A number value for `i`.
    pub fn signed(i: i64) -> (r: Json)
        ensures
            r@ == JsonV::Number(signed_decimal(i as int)),
    {
        let mut s = String::new();
        push_signed_decimal(&mut s, i);
        assert(s@ =~= signed_decimal(i as int));
        Json::Number(s)
    }

    /// The value stored under `key`, when this is an object that has one.
    #[verifier::loop_isolation(false)]
    pub fn get(&self, key: &str) -> (r: Option<&Json>)
        ensures
            match r {
                Some(x) => get(self@, key@) == Some(x@),
                None => get(self@, key@) is None,
            },
    {
        match self {
            Json::Object(members) => {
                let mut i: usize = 0;
                assert(self@ == JsonV::Object(view_members(members@)));
                assert(members@.subrange(0, members@.len() as int) =~= members@);
                while i < members.len()
                    invariant
                        i <= members.len(),
                        member(view_members(members@), key@) == member(
                            view_members(members@.subrange(i as int, members@.len() as int)),
                            key@,
                        ),
                    decreases members.len() - i,
                {
                    let ghost rest = members@.subrange(i as int, members@.len() as int);
                    proof {
                        lemma_members_step(rest);
                        assert(rest.subrange(1, rest.len() as int) =~= members@.subrange(
                            i + 1,
                            members@.len() as int,
                        ));
                        assert(rest[0] == members@[i as int]);
                    }
                    if str_equal(members[i].0.as_str(), key) {
                        assert(view_members(rest)[0].0 == key@);
                        assert(member(view_members(rest), key@) == Some(view_members(rest)[0].1));
                        return Some(&members[i].1);
                    }
                    i = i + 1;
                }
                proof {
                    assert(members@.subrange(i as int, members@.len() as int) =~= Seq::<
                        (String, Json),
                    >::empty());
                    lemma_members_len(Seq::<(String, Json)>::empty());
                }
                None
            },
            _ => None,
        }
    }

    /// A copy of this value.
    #[verifier::loop_isolation(false)]
    pub fn duplicate(&self) -> (r: Json)
        ensures
            r@ == self@,
        decreases self,
    {
        match self {
            Json::Null => Json::Null,
            Json::Bool(b) => Json::Bool(*b),
            Json::Number(s) => Json::Number(s.clone()),
            Json::Str(s) => Json::Str(s.clone()),
            Json::Array(items) => {
                let mut b = ArrayBuilder::new();
                let mut i: usize = 0;
                while i < items.len()
                    invariant
                        i <= items.len(),
                        b.value() == view_list(items@.take(i as int)),
                    decreases items.len() - i,
                {
                    proof {
                        lemma_view_list_push(items@.take(i as int), items@[i as int]);
                        assert(items@.take(i as int).push(items@[i as int]) =~= items@.take(i + 1));
                    }
                    proof {
                        assert(decreases_to!(self => items));
                        assert(decreases_to!(items => items@));
                        assert(decreases_to!(items@ => items@[i as int]));
                    }
                    let c = items[i].duplicate();
                    b.push(c);
                    i = i + 1;
                }
                assert(items@.take(items.len() as int) =~= items@);
                b.build()
            },
            Json::Object(members) => {
                let mut b = ObjectBuilder::new();
                let mut i: usize = 0;
                while i < members.len()
                    invariant
                        i <= members.len(),
                        b.value() == view_members(members@.take(i as int)),
                    decreases members.len() - i,
                {
                    proof {
                        lemma_view_members_push(members@.take(i as int), members@[i as int]);
                        assert(members@.take(i as int).push(members@[i as int]) =~= members@.take(i + 1));
                    }
                    proof {
                        assert(decreases_to!(self => members));
                        assert(decreases_to!(members => members@));
                        assert(decreases_to!(members@ => members@[i as int]));
                        assert(decreases_to!(members@[i as int] => members@[i as int].1));
                    }
                    let v = members[i].1.duplicate();
                    b.put(members[i].0.as_str(), v);
                    i = i + 1;
                }
                assert(members@.take(members.len() as int) =~= members@);
                b.build()
            },
        }
    }

    /// The text of this value, when it is a string.
    pub fn as_str(&self) -> (r: Option<&String>)
        ensures
            match r {
                Some(s) => as_text(self@) == Some(s@),
                None => as_text(self@) is None,
            },
    {
        match self {
            Json::Str(s) => Some(s),
            _ => None,
        }
    }
}

/// Builds an object from its members, one push at a time.
pub struct ObjectBuilder {
    pub members: Vec<(String, Json)>,
}

impl ObjectBuilder {
    /// The object built so far.
    pub open spec fn value(&self) -> Seq<(Seq<char>, JsonV)> {
        view_members(self.members@)
    }

    /// A builder with no members.
    pub fn new() -> (b: Self)
        ensures
            b.value() == Seq::<(Seq<char>, JsonV)>::empty(),
    {
        let b = ObjectBuilder { members: Vec::new() };
        assert(b.members@ =~= Seq::<(String, Json)>::empty());
        b
    }

    /// Adds the member `key: value` at the end.
    pub fn put(&mut self, key: &str, value: Json)
        ensures
            final(self).value() == old(self).value().push((key@, value@)),
    {
        let k = String::from_str(key);
        let ghost before = self.members@;
        self.members.push((k, value));
        proof {
            lemma_view_members_push(before, (k, value));
        }
    }

    /// The finished object.
    pub fn build(self) -> (j: Json)
        ensures
            j@ == JsonV::Object(self.value()),
    {
        Json::Object(self.members)
    }
}

/// Builds an array, one push at a time.
pub struct ArrayBuilder {
    pub items: Vec<Json>,
}

impl ArrayBuilder {
    /// The items so far.
    pub open spec fn value(&self) -> Seq<JsonV> {
        view_list(self.items@)
    }

    /// A builder with no items.
    pub fn new() -> (b: Self)
        ensures
            b.value() == Seq::<JsonV>::empty(),
    {
        let b = ArrayBuilder { items: Vec::new() };
        assert(b.items@ =~= Seq::<Json>::empty());
        b
    }

    /// Adds `item` at the end.
    pub fn push(&mut self, item: Json)
        ensures
            final(self).value() == old(self).value().push(item@),
    {
        let ghost before = self.items@;
        self.items.push(item);
        proof {
            lemma_view_list_push(before, item);
        }
    }

    /// The finished array.
    pub fn build(self) -> (j: Json)
        ensures
            j@ == JsonV::Array(self.value()),
    {
        Json::Array(self.items)
    }
}

} // verus!
