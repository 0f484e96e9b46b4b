//! A JSON document model: the values that requests and replies carry.
use vstd::prelude::*;

use crate::text::{owned, str_eq};

verus! {

/// A JSON number as the parser delivers it: non-negative integers, negative
/// integers, and other numbers kept in their textual form.
#[derive(Debug)]
pub enum JsonNumber {
    PosInt(u64),
    NegInt(i64),
    Float(String),
}

/// A JSON value. Object members keep the order in which they were given.
#[derive(Debug)]
pub enum Json {
    Null,
    Bool(bool),
    Number(JsonNumber),
    Str(String),
    Array(Vec<Json>),
    Object(Vec<(String, Json)>),
}

/// The mathematical view of a JSON number.
pub enum NumV {
    PosInt(u64),
    NegInt(i64),
    Float(Seq<char>),
}

/// The mathematical view of a JSON value.
pub enum JsonV {
    Null,
    Bool(bool),
    Num(NumV),
    Str(Seq<char>),
    Array(Seq<JsonV>),
    Object(Seq<(Seq<char>, JsonV)>),
}

pub open spec fn num_view(n: JsonNumber) -> NumV {
    match n {
        JsonNumber::PosInt(u) => NumV::PosInt(u),
        JsonNumber::NegInt(i) => NumV::NegInt(i),
        JsonNumber::Float(s) => NumV::Float(s@),
    }
}

pub open spec fn json_view(j: Json) -> JsonV
    decreases j,
{
    match j {
        Json::Null => JsonV::Null,
        Json::Bool(b) => JsonV::Bool(b),
        Json::Number(n) => JsonV::Num(num_view(n)),
        Json::Str(s) => JsonV::Str(s@),
        Json::Array(v) => JsonV::Array(items_view(v@)),
        Json::Object(f) => JsonV::Object(members_view(f@)),
    }
}

pub open spec fn items_view(s: Seq<Json>) -> Seq<JsonV>
    decreases s,
{
    if s.len() == 0 {
        Seq::empty()
    } else {
        items_view(s.drop_last()).push(json_view(s.last()))
    }
}

pub open spec fn members_view(s: Seq<(String, Json)>) -> Seq<(Seq<char>, JsonV)>
    decreases s,
{
    if s.len() == 0 {
        Seq::empty()
    } else {
        members_view(s.drop_last()).push((s.last().0@, json_view(s.last().1)))
    }
}

impl View for Json {
    type V = JsonV;

    open spec fn view(&self) -> JsonV {
        json_view(*self)
    }
}

/// The view of an optional borrowed value.
pub open spec fn opt_view(o: Option<&Json>) -> Option<JsonV> {
    match o {
        Some(j) => Some(j@),
        None => None,
    }
}

/// The index of the first member named `key`, if any.
pub open spec fn member_index(m: Seq<(Seq<char>, JsonV)>, key: Seq<char>) -> Option<int>
    decreases m.len(),
{
    if m.len() == 0 {
        None
    } else {
        match member_index(m.drop_last(), key) {
            Some(i) => Some(i),
            None => if m.last().0 == key {
                Some(m.len() - 1)
            } else {
                None
            },
        }
    }
}

impl JsonV {
    /// The value of the first member named `key` of an object.
    pub open spec fn get(self, key: Seq<char>) -> Option<JsonV> {
        match self {
            JsonV::Object(m) => match member_index(m, key) {
                Some(i) => Some(m[i].1),
                None => None,
            },
            _ => None,
        }
    }

    /// The value at `key`, or `Null` when absent (`value[key]`).
    pub open spec fn at(self, key: Seq<char>) -> JsonV {
        match self.get(key) {
            Some(v) => v,
            None => JsonV::Null,
        }
    }

    pub open spec fn as_str(self) -> Option<Seq<char>> {
        match self {
            JsonV::Str(s) => Some(s),
            _ => None,
        }
    }

    pub open spec fn as_array(self) -> Option<Seq<JsonV>> {
        match self {
            JsonV::Array(a) => Some(a),
            _ => None,
        }
    }

    pub open spec fn as_bool(self) -> Option<bool> {
        match self {
            JsonV::Bool(b) => Some(b),
            _ => None,
        }
    }

    /// `Value::as_u64`.
    pub open spec fn as_u64(self) -> Option<u64> {
        match self {
            JsonV::Num(NumV::PosInt(u)) => Some(u),
            _ => None,
        }
    }

    /// `Value::as_i64`.
    pub open spec fn as_i64(self) -> Option<i64> {
        match self {
            JsonV::Num(NumV::PosInt(u)) => if u <= i64::MAX {
                Some(u as i64)
            } else {
                None
            },
            JsonV::Num(NumV::NegInt(i)) => Some(i),
            _ => None,
        }
    }

    /// The element at `i` of an array.
    pub open spec fn item(self, i: int) -> Option<JsonV> {
        match self {
            JsonV::Array(a) => if 0 <= i < a.len() {
                Some(a[i])
            } else {
                None
            },
            _ => None,
        }
    }

    pub open spec fn is_object(self) -> bool {
        self is Object
    }
}

/// The view of a non-negative integer.
pub open spec fn juint(n: u64) -> JsonV {
    JsonV::Num(NumV::PosInt(n))
}

pub proof fn lemma_items_view(s: Seq<Json>)
    ensures
        items_view(s).len() == s.len(),
        forall|i: int| 0 <= i < s.len() ==> #[trigger] items_view(s)[i] == json_view(s[i]),
    decreases s.len(),
{
    if s.len() > 0 {
        lemma_items_view(s.drop_last());
        assert forall|i: int| 0 <= i < s.len() implies #[trigger] items_view(s)[i] == json_view(
            s[i],
        ) by {
            if i < s.len() - 1 {
                assert(s.drop_last()[i] == s[i]);
            }
        }
    }
}

pub proof fn lemma_members_view(s: Seq<(String, Json)>)
    ensures
        members_view(s).len() == s.len(),
        forall|i: int|
            0 <= i < s.len() ==> #[trigger] members_view(s)[i] == (s[i].0@, json_view(s[i].1)),
    decreases s.len(),
{
    if s.len() > 0 {
        lemma_members_view(s.drop_last());
        assert forall|i: int| 0 <= i < s.len() implies #[trigger] members_view(s)[i] == (
            s[i].0@,
            json_view(s[i].1),
        ) by {
            if i < s.len() - 1 {
                assert(s.drop_last()[i] == s[i]);
            }
        }
    }
}

proof fn lemma_member_index(m: Seq<(Seq<char>, JsonV)>, key: Seq<char>, i: int)
    requires
        0 <= i <= m.len(),
        forall|j: int| 0 <= j < i ==> (#[trigger] m[j]).0 != key,
    ensures
        i < m.len() && m[i].0 == key ==> member_index(m, key) == Some(i),
        i == m.len() ==> member_index(m, key) is None,
    decreases m.len(),
{
    if m.len() > 0 {
        if i < m.len() {
            if i < m.len() - 1 {
                lemma_member_index(m.drop_last(), key, i);
            } else {
                lemma_member_index(m.drop_last(), key, i);
            }
        } else {
            lemma_member_index(m.drop_last(), key, i - 1);
        }
    }
}

/// `member_index` finds the first member with the key, and finds none only
/// when no member has it.
pub proof fn lemma_member_index_char(m: Seq<(Seq<char>, JsonV)>, key: Seq<char>)
    ensures
        member_index(m, key) matches Some(i) ==> 0 <= i < m.len() && m[i].0 == key && forall|j: int|
            0 <= j < i ==> (#[trigger] m[j]).0 != key,
        member_index(m, key) is None ==> forall|j: int| 0 <= j < m.len() ==> (#[trigger] m[j]).0 != key,
    decreases m.len(),
{
    if m.len() > 0 {
        lemma_member_index_char(m.drop_last(), key);
        assert forall|j: int| 0 <= j < m.len() - 1 implies m.drop_last()[j] == m[j] by {}
    }
}

/// The member at `i` is what `get` finds for its key when no earlier member
/// has that key.
pub proof fn lemma_object_get_at(m: Seq<(Seq<char>, JsonV)>, i: int)
    requires
        0 <= i < m.len(),
        forall|j: int| 0 <= j < i ==> (#[trigger] m[j]).0 != m[i].0,
    ensures
        JsonV::Object(m).get(m[i].0) == Some(m[i].1),
{
    lemma_member_index(m, m[i].0, i);
}

/// `get` finds nothing for a key that no member has.
pub proof fn lemma_object_get_absent(m: Seq<(Seq<char>, JsonV)>, key: Seq<char>)
    requires
        forall|j: int| 0 <= j < m.len() ==> (#[trigger] m[j]).0 != key,
    ensures
        JsonV::Object(m).get(key) is None,
{
    lemma_member_index(m, key, m.len() as int);
}

/// After `insert(k, v)`, `get(k)` gives `v` and every other key reads as
/// before.
pub proof fn lemma_members_insert_get(m: Seq<(Seq<char>, JsonV)>, k: Seq<char>, v: JsonV, k2: Seq<char>)
    ensures
        JsonV::Object(members_insert(m, k, v)).get(k2) == (if k2 == k {
            Some(v)
        } else {
            JsonV::Object(m).get(k2)
        }),
{
    lemma_member_index_char(m, k);
    lemma_member_index_char(m, k2);
    let r = members_insert(m, k, v);
    lemma_member_index_char(r, k2);
    match member_index(m, k) {
        Some(i) => {
            assert(r == m.update(i, (k, v)));
            assert forall|j: int| 0 <= j < r.len() implies (#[trigger] r[j]).0 == m[j].0 by {}
            if k2 == k {
                lemma_object_get_at(r, i);
            } else {
                match member_index(m, k2) {
                    Some(j) => {
                        assert(j != i);
                        lemma_object_get_at(r, j);
                    },
                    None => {
                        lemma_object_get_absent(r, k2);
                    },
                }
            }
        },
        None => {
            assert(r == m.push((k, v)));
            if k2 == k {
                assert forall|j: int| 0 <= j < m.len() implies (#[trigger] r[j]).0 != r[m.len() as int].0 by {
                    assert(r[j] == m[j]);
                }
                lemma_object_get_at(r, m.len() as int);
            } else {
                match member_index(m, k2) {
                    Some(j) => {
                        assert forall|x: int| 0 <= x < j implies (#[trigger] r[x]).0 != r[j].0 by {
                            assert(r[x] == m[x]);
                        }
                        assert(r[j] == m[j]);
                        lemma_object_get_at(r, j);
                    },
                    None => {
                        assert forall|x: int| 0 <= x < r.len() implies (#[trigger] r[x]).0 != k2 by {
                            if x < m.len() {
                                assert(r[x] == m[x]);
                            }
                        }
                        lemma_object_get_absent(r, k2);
                    },
                }
            }
        },
    }
}

impl Json {
    /// The value of the first member named `key`, for an object.
    pub fn get(&self, key: &str) -> (r: Option<&Json>)
        ensures
            opt_view(r) == self@.get(key@),
    {
        match self {
            Json::Object(fields) => {
                proof {
                    lemma_members_view(fields@);
                }
                let ghost m = members_view(fields@);
                assert(self@ == JsonV::Object(m));
                let mut i: usize = 0;
                while i < fields.len()
                    invariant
                        i <= fields@.len(),
                        m == members_view(fields@),
                        self@ == JsonV::Object(m),
                        m.len() == fields@.len(),
                        forall|j: int|
                            0 <= j < fields@.len() ==> #[trigger] m[j] == (
                                fields@[j].0@,
                                json_view(fields@[j].1),
                            ),
                        forall|j: int| 0 <= j < i ==> (#[trigger] m[j]).0 != key@,
                    decreases fields@.len() - i,
                {
                    if str_eq(fields[i].0.as_str(), key) {
                        assert(m[i as int] == (fields@[i as int].0@, json_view(fields@[i as int].1)));
                        proof {
                            lemma_member_index(m, key@, i as int);
                        }
                        return Some(&fields[i].1);
                    }
                    i += 1;
                }
                proof {
                    lemma_member_index(m, key@, i as int);
                }
                None
            },
            _ => None,
        }
    }

    /// The string held by a string value.
    pub fn as_str(&self) -> (r: Option<&str>)
        ensures
            r matches Some(s) ==> self@.as_str() == Some(s@),
            r is None ==> self@.as_str() is None,
    {
        match self {
            Json::Str(s) => Some(s.as_str()),
            _ => None,
        }
    }

    /// The elements of an array value.
    pub fn as_array(&self) -> (r: Option<&Vec<Json>>)
        ensures
            r matches Some(a) ==> self@.as_array() == Some(items_view(a@)),
            r is None ==> self@.as_array() is None,
    {
        match self {
            Json::Array(a) => Some(a),
            _ => None,
        }
    }

    /// The members of an object value.
    pub fn as_object(&self) -> (r: Option<&Vec<(String, Json)>>)
        ensures
            r matches Some(m) ==> self@ == JsonV::Object(members_view(m@)),
            r is None ==> !(self@ is Object),
    {
        match self {
            Json::Object(m) => Some(m),
            _ => None,
        }
    }

    pub fn as_bool(&self) -> (r: Option<bool>)
        ensures
            r == self@.as_bool(),
    {
        match self {
            Json::Bool(b) => Some(*b),
            _ => None,
        }
    }

    pub fn as_u64(&self) -> (r: Option<u64>)
        ensures
            r == self@.as_u64(),
    {
        match self {
            Json::Number(JsonNumber::PosInt(u)) => Some(*u),
            _ => None,
        }
    }

    pub fn as_i64(&self) -> (r: Option<i64>)
        ensures
            r == self@.as_i64(),
    {
        match self {
            Json::Number(JsonNumber::PosInt(u)) => {
                if *u <= i64::MAX as u64 {
                    Some(*u as i64)
                } else {
                    None
                }
            },
            Json::Number(JsonNumber::NegInt(i)) => Some(*i),
            _ => None,
        }
    }

    pub fn is_object(&self) -> (r: bool)
        ensures
            r == self@.is_object(),
    {
        match self {
            Json::Object(_) => true,
            _ => false,
        }
    }

    /// A string value.
    pub fn string(s: &str) -> (r: Json)
        ensures
            r@ == JsonV::Str(s@),
    {
        Json::Str(owned(s))
    }

    /// A non-negative integer value.
    pub fn uint(n: u64) -> (r: Json)
        ensures
            r@ == juint(n),
    {
        Json::Number(JsonNumber::PosInt(n))
    }

    /// An integer value, stored as the parser would store it.
    pub fn integer(n: i64) -> (r: Json)
        ensures
            n >= 0 ==> r@ == juint(n as u64),
            n < 0 ==> r@ == JsonV::Num(NumV::NegInt(n)),
    {
        if n >= 0 {
            Json::Number(JsonNumber::PosInt(n as u64))
        } else {
            Json::Number(JsonNumber::NegInt(n))
        }
    }

    /// A deep copy.
    #[verifier::loop_isolation(false)]
    pub fn duplicate(&self) -> (r: Json)
        ensures
            r@ == self@,
        decreases self,
    {
        match self {
            Json::Null => Json::Null,
            Json::Bool(b) => Json::Bool(*b),
            Json::Number(JsonNumber::PosInt(u)) => Json::Number(JsonNumber::PosInt(*u)),
            Json::Number(JsonNumber::NegInt(i)) => Json::Number(JsonNumber::NegInt(*i)),
            Json::Number(JsonNumber::Float(s)) => Json::Number(JsonNumber::Float(s.clone())),
            Json::Str(s) => Json::Str(s.clone()),
            Json::Array(v) => {
                let mut out: Vec<Json> = Vec::new();
                let mut i: usize = 0;
                while i < v.len()
                    invariant
                        i <= v@.len(),
                        items_view(out@) == items_view(v@.take(i as int)),
                    decreases v@.len() - i,
                {
                    proof {
                    }
                    let c = v[i].duplicate();
                    let ghost before = out@;
                    out.push(c);
                    proof {
                        assert(out@.drop_last() =~= before);
                        assert(v@.take(i + 1).drop_last() =~= v@.take(i as int));
                    }
                    i += 1;
                }
                assert(v@.take(v@.len() as int) =~= v@);
                Json::Array(out)
            },
            Json::Object(m) => {
                let mut out: Vec<(String, Json)> = Vec::new();
                let mut i: usize = 0;
                while i < m.len()
                    invariant
                        i <= m@.len(),
                        members_view(out@) == members_view(m@.take(i as int)),
                    decreases m@.len() - i,
                {
                    proof {
                    }
                    let c = m[i].1.duplicate();
                    let k = m[i].0.clone();
                    let ghost before = out@;
                    out.push((k, c));
                    proof {
                        assert(out@.drop_last() =~= before);
                        assert(m@.take(i + 1).drop_last() =~= m@.take(i as int));
                    }
                    i += 1;
                }
                assert(m@.take(m@.len() as int) =~= m@);
                Json::Object(out)
            },
        }
    }
}

/// The members of an object after `insert(key, value)`: a member already
/// named `key` keeps its place and takes the new value; otherwise the member
/// is added at the end.
pub open spec fn members_insert(m: Seq<(Seq<char>, JsonV)>, key: Seq<char>, value: JsonV) -> Seq<
    (Seq<char>, JsonV),
> {
    match member_index(m, key) {
        Some(i) => m.update(i, (key, value)),
        None => m.push((key, value)),
    }
}

pub proof fn lemma_member_index_found(m: Seq<(Seq<char>, JsonV)>, key: Seq<char>)
    ensures
        member_index(m, key) matches Some(i) ==> 0 <= i < m.len() && m[i].0 == key,
    decreases m.len(),
{
    if m.len() > 0 {
        lemma_member_index_found(m.drop_last(), key);
    }
}

/// The index of the first member named `key`.
pub fn find_member(members: &Vec<(String, Json)>, key: &str) -> (r: Option<usize>)
    ensures
        match r {
            Some(i) => member_index(members_view(members@), key@) == Some(i as int),
            None => member_index(members_view(members@), key@) is None,
        },
{
    proof {
        lemma_members_view(members@);
    }
    let ghost m = members_view(members@);
    let mut i: usize = 0;
    while i < members.len()
        invariant
            i <= members@.len(),
            m == members_view(members@),
            m.len() == members@.len(),
            forall|j: int|
                0 <= j < members@.len() ==> #[trigger] m[j] == (
                    members@[j].0@,
                    json_view(members@[j].1),
                ),
            forall|j: int| 0 <= j < i ==> (#[trigger] m[j]).0 != key@,
        decreases members@.len() - i,
    {
        if str_eq(members[i].0.as_str(), key) {
            assert(m[i as int].0 == key@);
            proof {
                lemma_member_index(m, key@, i as int);
            }
            return Some(i);
        }
        i += 1;
    }
    proof {
        lemma_member_index(m, key@, i as int);
    }
    None
}

/// Inserts a member into the members of an object (`Map::insert`).
pub fn insert_member(members: &mut Vec<(String, Json)>, key: &str, value: Json)
    ensures
        members_view(final(members)@) == members_insert(members_view(old(members)@), key@, value@),
{
    proof {
        lemma_members_view(members@);
        lemma_member_index_found(members_view(members@), key@);
    }
    let ghost before = members@;
    let ghost vv = value@;
    match find_member(members, key) {
        Some(i) => {
            members.set(i, (owned(key), value));
            proof {
                lemma_members_view(members@);
                assert(members_view(members@) =~= members_view(before).update(
                    i as int,
                    (key@, vv),
                ));
            }
        },
        None => {
            members.push((owned(key), value));
            assert(members@.drop_last() =~= before);
        },
    }
}

/// Adds a member at the end of object members.
pub fn push_member(members: &mut Vec<(String, Json)>, key: &str, value: Json)
    ensures
        members_view(final(members)@) == members_view(old(members)@).push((key@, value@)),
{
    let ghost before = members@;
    members.push((owned(key), value));
    assert(members@.drop_last() =~= before);
}

/// Adds an element at the end of array items.
pub fn push_item(items: &mut Vec<Json>, value: Json)
    ensures
        items_view(final(items)@) == items_view(old(items)@).push(value@),
{
    let ghost before = items@;
    items.push(value);
    assert(items@.drop_last() =~= before);
}

/// An object value built from members.
pub fn object(members: Vec<(String, Json)>) -> (r: Json)
    ensures
        r@ == JsonV::Object(members_view(members@)),
{
    Json::Object(members)
}

} // verus!
