use crate::finite_float::{finite_bits_equal, FiniteFloat};
use vstd::prelude::*;
use vstd::std_specs::cmp::PartialEqSpec;

verus! {

/// A JSON number: a non-negative integer, a negative integer, or a finite
/// float.
#[derive(Debug, Clone, PartialEq)]
pub enum JsonNumber {
    PosInt(u64),
    NegInt(i64),
    Float(FiniteFloat),
}

/// A JSON value.
#[derive(Debug, PartialEq)]
pub enum Json {
    Null,
    Bool(bool),
    Number(JsonNumber),
    String(String),
    Array(Vec<Json>),
    Object(JsonObject),
}

/// The members of a JSON object, each key held once. Built by `Json::object`.
#[derive(Debug)]
pub struct JsonObject {
    members: Vec<(String, Json)>,
}

impl JsonObject {
    #[verifier::type_invariant]
    closed spec fn wf(self) -> bool {
        keys_distinct(self.members@)
    }

    /// The members, in the order in which their keys first occurred.
    pub closed spec fn entries(self) -> Seq<(String, Json)> {
        self.members@
    }

    /// The members.
    pub fn members(&self) -> (members: &Vec<(String, Json)>)
        ensures
            members@ == self.entries(),
            keys_distinct(members@),
    {
        proof {
            use_type_invariant(self);
        }
        &self.members
    }
}

/// No two members of `members` share a key.
pub open spec fn keys_distinct(members: Seq<(String, Json)>) -> bool {
    forall|i: int, j: int|
        0 <= i < j < members.len() ==> #[trigger] members[i].0@ != #[trigger] members[j].0@
}

/// The map from key to value that inserting `entries` one after the other
/// into an empty map gives: a later entry replaces an earlier one with the
/// same key.
pub open spec fn object_map(entries: Seq<(String, Json)>) -> Map<Seq<char>, Json>
    decreases entries.len(),
{
    if entries.len() == 0 {
        Map::empty()
    } else {
        object_map(entries.drop_last()).insert(entries.last().0@, entries.last().1)
    }
}

/// Replacing the member of a key by another with the same key changes only
/// that key's value.
proof fn lemma_object_map_update(members: Seq<(String, Json)>, p: int, entry: (String, Json))
    requires
        keys_distinct(members),
        0 <= p < members.len(),
        members[p].0@ == entry.0@,
    ensures
        object_map(members.update(p, entry)) == object_map(members).insert(entry.0@, entry.1),
    decreases members.len(),
{
    let updated = members.update(p, entry);
    if p == members.len() - 1 {
        assert(updated.drop_last() =~= members.drop_last());
        assert(object_map(updated) =~= object_map(members).insert(entry.0@, entry.1));
    } else {
        let front = members.drop_last();
        assert(keys_distinct(front)) by {
            assert forall|i: int, j: int| 0 <= i < j < front.len() implies front[i].0@
                != front[j].0@ by {
                assert(front[i] == members[i]);
                assert(front[j] == members[j]);
            }
        }
        lemma_object_map_update(front, p, entry);
        assert(updated.drop_last() =~= front.update(p, entry));
        assert(members[p].0@ != members.last().0@);
        assert(object_map(updated) =~= object_map(members).insert(entry.0@, entry.1));
    }
}

/// A key is in the map of `entries` exactly when some entry has it.
pub proof fn lemma_object_map_keys(entries: Seq<(String, Json)>, key: Seq<char>)
    ensures
        object_map(entries).contains_key(key) <==> exists|j: int|
            0 <= j < entries.len() && #[trigger] entries[j].0@ == key,
    decreases entries.len(),
{
    if entries.len() > 0 {
        let front = entries.drop_last();
        let n = entries.len() - 1;
        lemma_object_map_keys(front, key);
        if object_map(entries).contains_key(key) {
            if entries[n].0@ != key {
                let j = choose|j: int| 0 <= j < front.len() && #[trigger] front[j].0@ == key;
                assert(entries[j] == front[j]);
            }
        }
        if exists|j: int| 0 <= j < entries.len() && #[trigger] entries[j].0@ == key {
            let j = choose|j: int| 0 <= j < entries.len() && #[trigger] entries[j].0@ == key;
            if j < n {
                assert(front[j] == entries[j]);
            }
        }
    }
}

/// In the map of `entries`, a key holds the value of its last entry.
pub proof fn lemma_object_map_last_entry_wins(entries: Seq<(String, Json)>, j: int)
    requires
        0 <= j < entries.len(),
        forall|l: int| j < l < entries.len() ==> #[trigger] entries[l].0@ != entries[j].0@,
    ensures
        object_map(entries).contains_key(entries[j].0@),
        object_map(entries)[entries[j].0@] == entries[j].1,
    decreases entries.len(),
{
    let n = entries.len() - 1;
    if j < n {
        let front = entries.drop_last();
        assert(entries[n].0@ != entries[j].0@);
        assert forall|l: int| j < l < front.len() implies #[trigger] front[l].0@ != front[j].0@ by {
            assert(front[l] == entries[l]);
        }
        lemma_object_map_last_entry_wins(front, j);
    }
}

/// When no two members share a key, each member's key holds that member's
/// value in the map of the members, and the map holds as many keys as there
/// are members.
pub proof fn lemma_distinct_members_are_the_map(members: Seq<(String, Json)>)
    requires
        keys_distinct(members),
    ensures
        forall|i: int|
            0 <= i < members.len() ==> object_map(members).contains_key(#[trigger] members[i].0@)
                && object_map(members)[members[i].0@] == members[i].1,
        object_map(members).dom().finite(),
        object_map(members).dom().len() == members.len(),
    decreases members.len(),
{
    if members.len() > 0 {
        let front = members.drop_last();
        let n = members.len() - 1;
        assert(keys_distinct(front)) by {
            assert forall|i: int, j: int| 0 <= i < j < front.len() implies front[i].0@
                != front[j].0@ by {
                assert(front[i] == members[i]);
                assert(front[j] == members[j]);
            }
        }
        lemma_distinct_members_are_the_map(front);
        assert forall|i: int| 0 <= i < members.len() implies object_map(members).contains_key(
            #[trigger] members[i].0@,
        ) && object_map(members)[members[i].0@] == members[i].1 by {
            assert forall|l: int| i < l < members.len() implies #[trigger] members[l].0@
                != members[i].0@ by {
                assert(members[i].0@ != members[l].0@);
            }
            lemma_object_map_last_entry_wins(members, i);
        }
        assert(!object_map(front).contains_key(members[n].0@)) by {
            lemma_object_map_keys(front, members[n].0@);
            if object_map(front).contains_key(members[n].0@) {
                let j = choose|j: int| 0 <= j < front.len() && #[trigger] front[j].0@ == members[n].0@;
                assert(front[j] == members[j]);
                assert(members[j].0@ != members[n].0@);
            }
        }
    }
}

impl Json {
    /// The object holding `entries`, where a later entry replaces an earlier
    /// one with the same key: each key is held once, with the value of its
    /// last entry.
    pub fn object(entries: Vec<(String, Json)>) -> (json: Json)
        ensures
            json matches Json::Object(obj) && keys_distinct(obj.entries()) && object_map(
                obj.entries(),
            ) == object_map(entries@),
    {
        let ghost orig = entries@;
        let total = entries.len();
        assert(orig.len() == total);
        let mut rest = entries;
        let mut members: Vec<(String, Json)> = Vec::new();
        let mut done: usize = 0;
        while rest.len() > 0
            invariant
                done + rest@.len() == orig.len(),
                orig.len() <= usize::MAX,
                rest@ == orig.subrange(done as int, orig.len() as int),
                keys_distinct(members@),
                object_map(members@) == object_map(orig.take(done as int)),
            decreases rest@.len(),
        {
            let entry = rest.remove(0);
            assert(entry == orig[done as int]);
            let mut found = false;
            let mut p: usize = 0;
            let mut a: usize = 0;
            while a < members.len()
                invariant
                    0 <= a <= members.len(),
                    !found ==> forall|b: int| 0 <= b < a ==> members@[b].0@ != entry.0@,
                    found ==> p < members.len() && members@[p as int].0@ == entry.0@,
                decreases members.len() - a,
            {
                if !found && members[a].0 == entry.0 {
                    found = true;
                    p = a;
                }
                a = a + 1;
            }
            let ghost before = members@;
            if found {
                proof {
                    lemma_object_map_update(before, p as int, entry);
                }
                members.set(p, entry);
                assert(keys_distinct(members@)) by {
                    assert forall|i: int, j: int| 0 <= i < j < members@.len() implies #[trigger] members@[i].0@
                        != #[trigger] members@[j].0@ by {
                        assert(before[i].0@ != before[j].0@);
                    }
                }
            } else {
                members.push(entry);
                assert(members@.drop_last() =~= before);
                assert(keys_distinct(members@)) by {
                    assert forall|i: int, j: int| 0 <= i < j < members@.len() implies #[trigger] members@[i].0@
                        != #[trigger] members@[j].0@ by {
                        if j == members@.len() - 1 {
                            assert(members@[i] == before[i]);
                        } else {
                            assert(before[i].0@ != before[j].0@);
                        }
                    }
                }
            }
            assert(orig.take(done + 1).drop_last() =~= orig.take(done as int));
            done = done + 1;
        }
        assert(orig.take(done as int) =~= orig);
        Json::Object(JsonObject { members })
    }
}


/// Whether two JSON numbers are equal: the same kind, and equal values
/// (floats compare as numbers, so `0.0` equals `-0.0`).
pub open spec fn number_eq(a: JsonNumber, b: JsonNumber) -> bool {
    match (a, b) {
        (JsonNumber::PosInt(x), JsonNumber::PosInt(y)) => x == y,
        (JsonNumber::NegInt(x), JsonNumber::NegInt(y)) => x == y,
        (JsonNumber::Float(x), JsonNumber::Float(y)) => finite_bits_equal(x@, y@),
        _ => false,
    }
}

/// The value of the last member of `members` with key `key`, if any.
pub open spec fn lookup(members: Seq<(String, Json)>, key: Seq<char>) -> Option<Json>
    decreases members.len(),
{
    if members.len() == 0 {
        None
    } else if members.last().0@ == key {
        Some(members.last().1)
    } else {
        lookup(members.drop_last(), key)
    }
}

/// Whether two JSON values are equal: the same kind, and equal contents.
/// Arrays are equal element by element; objects are equal when they hold
/// the same number of members and each member of the first has an equal
/// value under its key in the second, whatever the order of the members.
pub closed spec fn json_eq(a: Json, b: Json) -> bool
    decreases a,
{
    match a {
        Json::Null => b is Null,
        Json::Bool(x) => b matches Json::Bool(y) && x == y,
        Json::Number(x) => b matches Json::Number(y) && number_eq(x, y),
        Json::String(x) => b matches Json::String(y) && x@ == y@,
        Json::Array(x) => b matches Json::Array(y) && seq_eq(x@, y@),
        Json::Object(x) => b matches Json::Object(y) && x.members@.len() == y.members@.len()
            && members_in(x.members@, y.members@),
    }
}

/// Whether two sequences of JSON values are equal element by element.
pub closed spec fn seq_eq(xs: Seq<Json>, ys: Seq<Json>) -> bool
    decreases xs,
{
    xs.len() == ys.len() && (xs.len() == 0 || (seq_eq(
        xs.subrange(0, xs.len() - 1),
        ys.subrange(0, ys.len() - 1),
    ) && json_eq(xs[xs.len() - 1], ys[ys.len() - 1])))
}

/// Whether each member of `xs` has an equal value under its key in `ys`.
pub closed spec fn members_in(xs: Seq<(String, Json)>, ys: Seq<(String, Json)>) -> bool
    decreases xs,
{
    xs.len() == 0 || (members_in(xs.subrange(0, xs.len() - 1), ys) && match lookup(
        ys,
        xs[xs.len() - 1].0@,
    ) {
        Some(v) => json_eq(xs[xs.len() - 1].1, v),
        None => false,
    })
}

/// Whether two JSON objects are equal: the same number of members, and an
/// equal value under each key.
pub closed spec fn object_eq(a: JsonObject, b: JsonObject) -> bool {
    a.members@.len() == b.members@.len() && members_in(a.members@, b.members@)
}

/// Whether two JSON numbers are equal.
fn number_equal(a: &JsonNumber, b: &JsonNumber) -> (equal: bool)
    ensures
        equal == number_eq(*a, *b),
{
    match (a, b) {
        (JsonNumber::PosInt(x), JsonNumber::PosInt(y)) => *x == *y,
        (JsonNumber::NegInt(x), JsonNumber::NegInt(y)) => *x == *y,
        (JsonNumber::Float(x), JsonNumber::Float(y)) => x.eq(y),
        _ => false,
    }
}

/// The index of the last member of `members` with key `key`, if any.
fn find_key(members: &Vec<(String, Json)>, key: &String) -> (found: Option<usize>)
    ensures
        found is None <==> lookup(members@, key@) is None,
        found matches Some(i) ==> i < members@.len() && lookup(members@, key@) == Some(
            members@[i as int].1,
        ),
{
    let mut i: usize = members.len();
    assert(members@.subrange(0, i as int) =~= members@);
    while i > 0
        invariant
            i <= members@.len(),
            lookup(members@, key@) == lookup(members@.subrange(0, i as int), key@),
        decreases i,
    {
        let ghost prefix = members@.subrange(0, i as int);
        assert(prefix.drop_last() =~= members@.subrange(0, i - 1));
        if members[i - 1].0 == *key {
            return Some(i - 1);
        }
        i = i - 1;
    }
    assert(members@.subrange(0, 0) =~= Seq::<(String, Json)>::empty());
    None
}

/// Whether two JSON values are equal.
fn json_equal(a: &Json, b: &Json) -> (equal: bool)
    ensures
        equal == json_eq(*a, *b),
    decreases a,
{
    match (a, b) {
        (Json::Null, Json::Null) => true,
        (Json::Bool(x), Json::Bool(y)) => *x == *y,
        (Json::Number(x), Json::Number(y)) => number_equal(x, y),
        (Json::String(x), Json::String(y)) => *x == *y,
        (Json::Array(x), Json::Array(y)) => seq_equal(x, y),
        (Json::Object(x), Json::Object(y)) => x.members.len() == y.members.len() && members_equal(
            &x.members,
            &y.members,
        ),
        _ => false,
    }
}

/// Whether two sequences of JSON values are equal element by element.
fn seq_equal(xs: &Vec<Json>, ys: &Vec<Json>) -> (equal: bool)
    ensures
        equal == seq_eq(xs@, ys@),
    decreases xs,
{
    if xs.len() != ys.len() {
        return false;
    }
    let mut equal = true;
    let mut i: usize = 0;
    assert(xs@.subrange(0, 0).len() == 0);
    while i < xs.len()
        invariant
            i <= xs@.len(),
            xs@.len() == ys@.len(),
            equal == seq_eq(xs@.subrange(0, i as int), ys@.subrange(0, i as int)),
        decreases xs@.len() - i,
    {
        let here = json_equal(&xs[i], &ys[i]);
        let ghost xp = xs@.subrange(0, i + 1);
        let ghost yp = ys@.subrange(0, i + 1);
        assert(xp.subrange(0, xp.len() - 1) =~= xs@.subrange(0, i as int));
        assert(yp.subrange(0, yp.len() - 1) =~= ys@.subrange(0, i as int));
        equal = equal && here;
        i = i + 1;
    }
    assert(xs@.subrange(0, i as int) =~= xs@);
    assert(ys@.subrange(0, i as int) =~= ys@);
    equal
}

/// Whether each member of `xs` has an equal value under its key in `ys`.
fn members_equal(xs: &Vec<(String, Json)>, ys: &Vec<(String, Json)>) -> (equal: bool)
    ensures
        equal == members_in(xs@, ys@),
    decreases xs,
{
    let mut equal = true;
    let mut i: usize = 0;
    while i < xs.len()
        invariant
            i <= xs@.len(),
            equal == members_in(xs@.subrange(0, i as int), ys@),
        decreases xs@.len() - i,
    {
        let here = match find_key(ys, &xs[i].0) {
            Some(j) => json_equal(&xs[i].1, &ys[j].1),
            None => false,
        };
        let ghost xp = xs@.subrange(0, i + 1);
        assert(xp.subrange(0, xp.len() - 1) =~= xs@.subrange(0, i as int));
        equal = equal && here;
        i = i + 1;
    }
    assert(xs@.subrange(0, i as int) =~= xs@);
    equal
}

impl PartialEq for JsonObject {
    /// Equality of objects whatever the order of their members.
    fn eq(&self, other: &JsonObject) -> (equal: bool) {
        self.members.len() == other.members.len() && members_equal(&self.members, &other.members)
    }
}

impl vstd::std_specs::cmp::PartialEqSpecImpl for JsonObject {
    open spec fn obeys_eq_spec() -> bool {
        true
    }

    open spec fn eq_spec(&self, other: &JsonObject) -> bool {
        object_eq(*self, *other)
    }
}

/// A member whose key no member of `xs` has, added after the members of `ys`,
/// leaves each member of `xs` with the value it had under its key.
proof fn lemma_members_in_push(xs: Seq<(String, Json)>, ys: Seq<(String, Json)>, entry: (String, Json))
    requires
        members_in(xs, ys),
        forall|l: int| 0 <= l < xs.len() ==> #[trigger] xs[l].0@ != entry.0@,
    ensures
        members_in(xs, ys.push(entry)),
    decreases xs.len(),
{
    if xs.len() > 0 {
        let front = xs.subrange(0, xs.len() - 1);
        assert forall|l: int| 0 <= l < front.len() implies #[trigger] front[l].0@ != entry.0@ by {
            assert(front[l] == xs[l]);
        }
        lemma_members_in_push(front, ys, entry);
        assert(ys.push(entry).drop_last() =~= ys);
    }
}

/// A copy of a JSON number.
fn clone_number(n: &JsonNumber) -> (c: JsonNumber)
    ensures
        c == *n,
{
    match n {
        JsonNumber::PosInt(x) => JsonNumber::PosInt(*x),
        JsonNumber::NegInt(x) => JsonNumber::NegInt(*x),
        JsonNumber::Float(x) => JsonNumber::Float(*x),
    }
}

/// A copy of a JSON value.
fn clone_json(a: &Json) -> (c: Json)
    ensures
        json_eq(*a, c),
        !(a is Array) && !(a is Object) ==> c == *a,
        a matches Json::Array(v) ==> (c matches Json::Array(w) && w@.len() == v@.len()),
        a matches Json::Object(o) ==> (c matches Json::Object(p) && p.entries().len()
            == o.entries().len() && forall|i: int|
            0 <= i < o.entries().len() ==> #[trigger] p.entries()[i].0@ == o.entries()[i].0@),
    decreases a,
{
    match a {
        Json::Null => Json::Null,
        Json::Bool(b) => Json::Bool(*b),
        Json::Number(n) => Json::Number(clone_number(n)),
        Json::String(s) => Json::String(s.clone()),
        Json::Array(v) => Json::Array(clone_seq(v)),
        Json::Object(o) => {
            proof {
                use_type_invariant(o);
            }
            let members = clone_members(&o.members);
            Json::Object(JsonObject { members })
        },
    }
}

/// A copy of a sequence of JSON values.
fn clone_seq(xs: &Vec<Json>) -> (c: Vec<Json>)
    ensures
        seq_eq(xs@, c@),
        c@.len() == xs@.len(),
    decreases xs,
{
    let mut c: Vec<Json> = Vec::new();
    let mut i: usize = 0;
    assert(xs@.subrange(0, 0).len() == 0);
    while i < xs.len()
        invariant
            i <= xs@.len(),
            c@.len() == i,
            seq_eq(xs@.subrange(0, i as int), c@),
        decreases xs@.len() - i,
    {
        let item = clone_json(&xs[i]);
        let ghost before = c@;
        c.push(item);
        let ghost xp = xs@.subrange(0, i + 1);
        assert(xp.subrange(0, xp.len() - 1) =~= xs@.subrange(0, i as int));
        assert(c@.subrange(0, c@.len() - 1) =~= before);
        i = i + 1;
    }
    assert(xs@.subrange(0, i as int) =~= xs@);
    c
}

/// A copy of the members of an object: the same keys in the same order, each
/// with an equal value.
fn clone_members(xs: &Vec<(String, Json)>) -> (c: Vec<(String, Json)>)
    requires
        keys_distinct(xs@),
    ensures
        c@.len() == xs@.len(),
        forall|i: int| 0 <= i < c@.len() ==> #[trigger] c@[i].0@ == xs@[i].0@,
        keys_distinct(c@),
        members_in(xs@, c@),
    decreases xs,
{
    let mut c: Vec<(String, Json)> = Vec::new();
    let mut i: usize = 0;
    while i < xs.len()
        invariant
            i <= xs@.len(),
            keys_distinct(xs@),
            c@.len() == i,
            forall|k: int| 0 <= k < i ==> #[trigger] c@[k].0@ == xs@[k].0@,
            members_in(xs@.subrange(0, i as int), c@),
        decreases xs@.len() - i,
    {
        let key = xs[i].0.clone();
        let value = clone_json(&xs[i].1);
        let ghost before = c@;
        let ghost prefix = xs@.subrange(0, i as int);
        proof {
            assert forall|l: int| 0 <= l < prefix.len() implies #[trigger] prefix[l].0@ != key@ by {
                assert(prefix[l] == xs@[l]);
                assert(xs@[l].0@ != xs@[i as int].0@);
            }
            lemma_members_in_push(prefix, before, (key, value));
        }
        c.push((key, value));
        let ghost xp = xs@.subrange(0, i + 1);
        assert(xp.subrange(0, xp.len() - 1) =~= prefix);
        assert(c@.drop_last() =~= before);
        i = i + 1;
    }
    assert(xs@.subrange(0, i as int) =~= xs@);
    assert(keys_distinct(c@)) by {
        assert forall|a: int, b: int| 0 <= a < b < c@.len() implies #[trigger] c@[a].0@
            != #[trigger] c@[b].0@ by {
            assert(xs@[a].0@ != xs@[b].0@);
        }
    }
    c
}

impl Clone for Json {
    fn clone(&self) -> (c: Json)
        ensures
            json_eq(*self, c),
            !(self is Array) && !(self is Object) ==> c == *self,
            self matches Json::Array(v) ==> (c matches Json::Array(w) && w@.len() == v@.len()),
            self matches Json::Object(o) ==> (c matches Json::Object(p) && p.entries().len()
                == o.entries().len() && forall|i: int|
                0 <= i < o.entries().len() ==> #[trigger] p.entries()[i].0@ == o.entries()[i].0@),
    {
        clone_json(self)
    }
}

impl Clone for JsonObject {
    fn clone(&self) -> (c: JsonObject)
        ensures
            object_eq(*self, c),
            c.entries().len() == self.entries().len(),
            forall|i: int|
                0 <= i < c.entries().len() ==> #[trigger] c.entries()[i].0@ == self.entries()[i].0@,
    {
        proof {
            use_type_invariant(self);
        }
        JsonObject { members: clone_members(&self.members) }
    }
}

/// Law: JSON values are equal only when they are of the same kind.
pub proof fn law_json_eq_same_kind(a: Json, b: Json)
    ensures
        json_eq(a, b) ==> {
            &&& a is Null <==> b is Null
            &&& a is Bool <==> b is Bool
            &&& a is Number <==> b is Number
            &&& a is String <==> b is String
            &&& a is Array <==> b is Array
            &&& a is Object <==> b is Object
        },
{
}

/// Law: two nulls are equal, and two booleans are equal exactly when they
/// are the same boolean.
pub proof fn law_json_eq_null_bool(x: bool, y: bool)
    ensures
        json_eq(Json::Null, Json::Null),
        json_eq(Json::Bool(x), Json::Bool(y)) <==> x == y,
{
}

/// Law: two strings are equal exactly when they hold the same text.
pub proof fn law_json_eq_string(s: String, t: String)
    ensures
        json_eq(Json::String(s), Json::String(t)) <==> s@ == t@,
{
}

/// Law: two integers of the same kind are equal exactly when they are the
/// same integer; a non-negative integer, a negative integer and a float are
/// never equal to one another.
pub proof fn law_json_eq_integers(x: u64, y: u64, m: i64, n: i64, f: FiniteFloat)
    ensures
        json_eq(Json::Number(JsonNumber::PosInt(x)), Json::Number(JsonNumber::PosInt(y))) <==> x
            == y,
        json_eq(Json::Number(JsonNumber::NegInt(m)), Json::Number(JsonNumber::NegInt(n))) <==> m
            == n,
        !json_eq(Json::Number(JsonNumber::PosInt(x)), Json::Number(JsonNumber::NegInt(m))),
        !json_eq(Json::Number(JsonNumber::NegInt(m)), Json::Number(JsonNumber::PosInt(x))),
        !json_eq(Json::Number(JsonNumber::PosInt(x)), Json::Number(JsonNumber::Float(f))),
        !json_eq(Json::Number(JsonNumber::Float(f)), Json::Number(JsonNumber::PosInt(x))),
        !json_eq(Json::Number(JsonNumber::NegInt(m)), Json::Number(JsonNumber::Float(f))),
        !json_eq(Json::Number(JsonNumber::Float(f)), Json::Number(JsonNumber::NegInt(m))),
{
}

/// Law: two floats are equal exactly when they are equal as numbers.
pub proof fn law_json_eq_float(f: FiniteFloat, g: FiniteFloat)
    ensures
        json_eq(Json::Number(JsonNumber::Float(f)), Json::Number(JsonNumber::Float(g)))
            <==> finite_bits_equal(f@, g@),
{
}

/// Law: two arrays are equal exactly when they have the same length and
/// equal elements at each position.
pub proof fn law_json_eq_array(x: Vec<Json>, y: Vec<Json>)
    ensures
        json_eq(Json::Array(x), Json::Array(y)) <==> x@.len() == y@.len() && forall|i: int|
            0 <= i < x@.len() ==> json_eq(#[trigger] x@[i], y@[i]),
{
    lemma_seq_eq_pointwise(x@, y@);
}

proof fn lemma_seq_eq_pointwise(xs: Seq<Json>, ys: Seq<Json>)
    ensures
        seq_eq(xs, ys) <==> xs.len() == ys.len() && forall|i: int|
            0 <= i < xs.len() ==> json_eq(#[trigger] xs[i], ys[i]),
    decreases xs.len(),
{
    if xs.len() > 0 && xs.len() == ys.len() {
        let xf = xs.subrange(0, xs.len() - 1);
        let yf = ys.subrange(0, ys.len() - 1);
        lemma_seq_eq_pointwise(xf, yf);
        if forall|i: int| 0 <= i < xs.len() ==> json_eq(#[trigger] xs[i], ys[i]) {
            assert forall|i: int| 0 <= i < xf.len() implies json_eq(#[trigger] xf[i], yf[i]) by {
                assert(xs[i] == xf[i]);
                assert(ys[i] == yf[i]);
            }
        }
        if seq_eq(xs, ys) {
            assert forall|i: int| 0 <= i < xs.len() implies json_eq(#[trigger] xs[i], ys[i]) by {
                if i < xs.len() - 1 {
                    assert(xs[i] == xf[i]);
                    assert(ys[i] == yf[i]);
                }
            }
        }
    }
}

/// Law: two objects are equal exactly when they hold the same number of
/// members and, for each member of the first, the second holds an equal
/// value under the same key; the order of the members does not matter.
pub proof fn law_json_eq_object(a: JsonObject, b: JsonObject)
    ensures
        json_eq(Json::Object(a), Json::Object(b)) <==> a.entries().len() == b.entries().len()
            && forall|i: int|
            0 <= i < a.entries().len() ==> (lookup(b.entries(), #[trigger] a.entries()[i].0@) matches Some(
                v,
            ) && json_eq(a.entries()[i].1, v)),
        object_eq(a, b) <==> json_eq(Json::Object(a), Json::Object(b)),
        a.eq_spec(&b) <==> json_eq(Json::Object(a), Json::Object(b)),
{
    lemma_members_in_pointwise(a.members@, b.members@);
}

proof fn lemma_members_in_pointwise(xs: Seq<(String, Json)>, ys: Seq<(String, Json)>)
    ensures
        members_in(xs, ys) <==> forall|i: int|
            0 <= i < xs.len() ==> (lookup(ys, #[trigger] xs[i].0@) matches Some(v) && json_eq(
                xs[i].1,
                v,
            )),
    decreases xs.len(),
{
    if xs.len() > 0 {
        let xf = xs.subrange(0, xs.len() - 1);
        lemma_members_in_pointwise(xf, ys);
        if forall|i: int|
            0 <= i < xs.len() ==> (lookup(ys, #[trigger] xs[i].0@) matches Some(v) && json_eq(
                xs[i].1,
                v,
            )) {
            assert forall|i: int| 0 <= i < xf.len() implies (lookup(ys, #[trigger] xf[i].0@) matches Some(
                v,
            ) && json_eq(xf[i].1, v)) by {
                assert(xs[i] == xf[i]);
            }
            let n = xs.len() - 1;
            assert(lookup(ys, xs[n].0@) matches Some(v) && json_eq(xs[n].1, v));
        }
        if members_in(xs, ys) {
            assert forall|i: int| 0 <= i < xs.len() implies (lookup(ys, #[trigger] xs[i].0@) matches Some(
                v,
            ) && json_eq(xs[i].1, v)) by {
                if i < xs.len() - 1 {
                    assert(xs[i] == xf[i]);
                }
            }
        }
    }
}

/// Law: looking a key up finds nothing exactly when no member has the key,
/// and otherwise finds the value of the last member with the key.
pub proof fn law_lookup(members: Seq<(String, Json)>, key: Seq<char>)
    ensures
        lookup(members, key) is None <==> forall|j: int|
            0 <= j < members.len() ==> #[trigger] members[j].0@ != key,
        forall|j: int|
            0 <= j < members.len() && #[trigger] members[j].0@ == key && (forall|l: int|
                j < l < members.len() ==> members[l].0@ != key) ==> lookup(members, key) == Some(
                members[j].1,
            ),
    decreases members.len(),
{
    if members.len() > 0 {
        let front = members.drop_last();
        let n = members.len() - 1;
        law_lookup(front, key);
        if lookup(members, key) is None {
            assert forall|j: int| 0 <= j < members.len() implies #[trigger] members[j].0@ != key by {
                if j < n {
                    assert(members[j] == front[j]);
                }
            }
        }
        if forall|j: int| 0 <= j < members.len() ==> #[trigger] members[j].0@ != key {
            assert(members[n].0@ != key);
            assert forall|j: int| 0 <= j < front.len() implies #[trigger] front[j].0@ != key by {
                assert(members[j] == front[j]);
            }
        }
        assert forall|j: int|
            0 <= j < members.len() && #[trigger] members[j].0@ == key && (forall|l: int|
                j < l < members.len() ==> members[l].0@ != key) implies lookup(members, key) == Some(
            members[j].1,
        ) by {
            if j < n {
                assert(members[n].0@ != key);
                assert(front[j] == members[j]);
                assert forall|l: int| j < l < front.len() implies front[l].0@ != key by {
                    assert(front[l] == members[l]);
                }
            }
        }
    }
}

} // verus!
