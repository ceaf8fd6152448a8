//! JSON values as the library builds them: the request bodies it sends to
//! HelixDB and to the chat API.
use vstd::prelude::*;
use crate::text::str_eq;

verus! {

/// A JSON value.
///
/// `Real` is a number that is not an `i64` (a fraction, or an integer out of
/// range), held in the text serde_json writes for it; it only comes in
/// answers. `Embedding` holds the bucket counts of an embedding (see `embed`); it is
/// written out as the array of `f32` of unit length that points the way the
/// counts do (all-zero counts give all zeros).
pub enum Json {
    Null,
    Bool(bool),
    Int(i64),
    Real(String),
    Str(String),
    Arr(Vec<Json>),
    Obj(Vec<(String, Json)>),
    Embedding(Vec<i128>),
}

/// The mathematical model of a JSON value.
pub enum JsonV {
    Null,
    Bool(bool),
    Int(int),
    Real(Seq<char>),
    Str(Seq<char>),
    Arr(Seq<JsonV>),
    Obj(Seq<(Seq<char>, JsonV)>),
    Embedding(Seq<int>),
}

impl Json {
    pub open spec fn model(&self) -> JsonV
        decreases self,
    {
        match self {
            Json::Null => JsonV::Null,
            Json::Bool(b) => JsonV::Bool(*b),
            Json::Int(i) => JsonV::Int(*i as int),
            Json::Real(s) => JsonV::Real(s@),
            Json::Str(s) => JsonV::Str(s@),
            Json::Arr(v) => JsonV::Arr(Json::models(v@)),
            Json::Obj(v) => JsonV::Obj(Json::entry_models(v@)),
            Json::Embedding(c) => JsonV::Embedding(c@.map_values(|x: i128| x as int)),
        }
    }

    pub open spec fn models(s: Seq<Json>) -> Seq<JsonV>
        decreases s,
    {
        if s.len() == 0 {
            Seq::empty()
        } else {
            seq![s[0].model()] + Json::models(s.subrange(1, s.len() as int))
        }
    }

    pub open spec fn entry_models(s: Seq<(String, Json)>) -> Seq<(Seq<char>, JsonV)>
        decreases s,
    {
        if s.len() == 0 {
            Seq::empty()
        } else {
            seq![(s[0].0@, s[0].1.model())] + Json::entry_models(s.subrange(1, s.len() as int))
        }
    }

    /// The models of a sequence of values, element by element.
    pub proof fn lemma_models(s: Seq<Json>)
        ensures
            Json::models(s).len() == s.len(),
            forall|i: int| 0 <= i < s.len() ==> #[trigger] Json::models(s)[i] == s[i].model(),
        decreases s.len(),
    {
        if s.len() > 0 {
            let t = s.subrange(1, s.len() as int);
            Json::lemma_models(t);
            assert forall|i: int| 0 <= i < s.len() implies #[trigger] Json::models(s)[i]
                == s[i].model() by {
                if i > 0 {
                    assert(Json::models(s)[i] == Json::models(t)[i - 1]);
                    assert(t[i - 1] == s[i]);
                }
            }
        }
    }

    /// The models of a sequence of entries, element by element.
    pub proof fn lemma_entry_models(s: Seq<(String, Json)>)
        ensures
            Json::entry_models(s).len() == s.len(),
            forall|i: int|
                0 <= i < s.len() ==> #[trigger] Json::entry_models(s)[i] == (
                s[i].0@,
                s[i].1.model(),
            ),
        decreases s.len(),
    {
        if s.len() > 0 {
            let t = s.subrange(1, s.len() as int);
            Json::lemma_entry_models(t);
            assert forall|i: int| 0 <= i < s.len() implies #[trigger] Json::entry_models(s)[i]
                == (s[i].0@, s[i].1.model()) by {
                if i > 0 {
                    assert(Json::entry_models(s)[i] == Json::entry_models(t)[i - 1]);
                    assert(t[i - 1] == s[i]);
                }
            }
        }
    }

    /// A JSON string.
    pub fn str(s: &str) -> (r: Json)
        ensures
            r.model() == JsonV::Str(s@),
    {
        Json::Str(String::from_str(s))
    }

    /// A JSON array of the given items.
    pub fn arr(items: Vec<Json>) -> (r: Json)
        ensures
            r.model() == JsonV::Arr(Json::models(items@)),
    {
        Json::Arr(items)
    }

    /// A JSON object of the given entries, in order.
    pub fn obj(entries: Vec<(String, Json)>) -> (r: Json)
        ensures
            r.model() == JsonV::Obj(Json::entry_models(entries@)),
    {
        Json::Obj(entries)
    }

    /// A JSON array of 1 item.
    pub fn arr1(a: Json) -> (r: Json)
        ensures
            r.model() == JsonV::Arr(seq![a.model()]),
    {
        let ghost m = seq![a.model()];
        let v = vec![a];
        proof {
            Json::lemma_models(v@);
            assert(Json::models(v@) =~= m);
        }
        Json::Arr(v)
    }

    /// A JSON object of 1 entry, in order.
    pub fn obj1(k0: &str, a: Json) -> (r: Json)
        ensures
            r.model() == JsonV::Obj(seq![(k0@, a.model())]),
    {
        let ghost m = seq![(k0@, a.model())];
        let v = vec![(String::from_str(k0), a)];
        proof {
            Json::lemma_entry_models(v@);
            assert(Json::entry_models(v@) =~= m);
        }
        Json::Obj(v)
    }

    /// A JSON array of 2 items.
    pub fn arr2(a: Json, b: Json) -> (r: Json)
        ensures
            r.model() == JsonV::Arr(seq![a.model(), b.model()]),
    {
        let ghost m = seq![a.model(), b.model()];
        let v = vec![a, b];
        proof {
            Json::lemma_models(v@);
            assert(Json::models(v@) =~= m);
        }
        Json::Arr(v)
    }

    /// A JSON object of 2 entries, in order.
    pub fn obj2(k0: &str, a: Json, k1: &str, b: Json) -> (r: Json)
        ensures
            r.model() == JsonV::Obj(seq![(k0@, a.model()), (k1@, b.model())]),
    {
        let ghost m = seq![(k0@, a.model()), (k1@, b.model())];
        let v = vec![(String::from_str(k0), a), (String::from_str(k1), b)];
        proof {
            Json::lemma_entry_models(v@);
            assert(Json::entry_models(v@) =~= m);
        }
        Json::Obj(v)
    }

    /// A JSON array of 3 items.
    pub fn arr3(a: Json, b: Json, c: Json) -> (r: Json)
        ensures
            r.model() == JsonV::Arr(seq![a.model(), b.model(), c.model()]),
    {
        let ghost m = seq![a.model(), b.model(), c.model()];
        let v = vec![a, b, c];
        proof {
            Json::lemma_models(v@);
            assert(Json::models(v@) =~= m);
        }
        Json::Arr(v)
    }

    /// A JSON object of 3 entries, in order.
    pub fn obj3(k0: &str, a: Json, k1: &str, b: Json, k2: &str, c: Json) -> (r: Json)
        ensures
            r.model() == JsonV::Obj(seq![(k0@, a.model()), (k1@, b.model()), (k2@, c.model())]),
    {
        let ghost m = seq![(k0@, a.model()), (k1@, b.model()), (k2@, c.model())];
        let v = vec![(String::from_str(k0), a), (String::from_str(k1), b), (String::from_str(k2), c)];
        proof {
            Json::lemma_entry_models(v@);
            assert(Json::entry_models(v@) =~= m);
        }
        Json::Obj(v)
    }

    /// A JSON array of 4 items.
    pub fn arr4(a: Json, b: Json, c: Json, d: Json) -> (r: Json)
        ensures
            r.model() == JsonV::Arr(seq![a.model(), b.model(), c.model(), d.model()]),
    {
        let ghost m = seq![a.model(), b.model(), c.model(), d.model()];
        let v = vec![a, b, c, d];
        proof {
            Json::lemma_models(v@);
            assert(Json::models(v@) =~= m);
        }
        Json::Arr(v)
    }

    /// A JSON object of 4 entries, in order.
    pub fn obj4(k0: &str, a: Json, k1: &str, b: Json, k2: &str, c: Json, k3: &str, d: Json) -> (r: Json)
        ensures
            r.model() == JsonV::Obj(seq![(k0@, a.model()), (k1@, b.model()), (k2@, c.model()), (k3@, d.model())]),
    {
        let ghost m = seq![(k0@, a.model()), (k1@, b.model()), (k2@, c.model()), (k3@, d.model())];
        let v = vec![(String::from_str(k0), a), (String::from_str(k1), b), (String::from_str(k2), c), (String::from_str(k3), d)];
        proof {
            Json::lemma_entry_models(v@);
            assert(Json::entry_models(v@) =~= m);
        }
        Json::Obj(v)
    }

    /// A JSON array of 5 items.
    pub fn arr5(a: Json, b: Json, c: Json, d: Json, e: Json) -> (r: Json)
        ensures
            r.model() == JsonV::Arr(seq![a.model(), b.model(), c.model(), d.model(), e.model()]),
    {
        let ghost m = seq![a.model(), b.model(), c.model(), d.model(), e.model()];
        let v = vec![a, b, c, d, e];
        proof {
            Json::lemma_models(v@);
            assert(Json::models(v@) =~= m);
        }
        Json::Arr(v)
    }

    /// A JSON object of 5 entries, in order.
    pub fn obj5(k0: &str, a: Json, k1: &str, b: Json, k2: &str, c: Json, k3: &str, d: Json, k4: &str, e: Json) -> (r: Json)
        ensures
            r.model() == JsonV::Obj(seq![(k0@, a.model()), (k1@, b.model()), (k2@, c.model()), (k3@, d.model()), (k4@, e.model())]),
    {
        let ghost m = seq![(k0@, a.model()), (k1@, b.model()), (k2@, c.model()), (k3@, d.model()), (k4@, e.model())];
        let v = vec![(String::from_str(k0), a), (String::from_str(k1), b), (String::from_str(k2), c), (String::from_str(k3), d), (String::from_str(k4), e)];
        proof {
            Json::lemma_entry_models(v@);
            assert(Json::entry_models(v@) =~= m);
        }
        Json::Obj(v)
    }
}

/// The value under `key` of an object's entries: the first entry with that
/// key, else `null`.
pub open spec fn entry_value(entries: Seq<(Seq<char>, JsonV)>, key: Seq<char>) -> JsonV
    decreases entries.len(),
{
    if entries.len() == 0 {
        JsonV::Null
    } else if entries[0].0 == key {
        entries[0].1
    } else {
        entry_value(entries.drop_first(), key)
    }
}

/// The value under `key` is that of the first entry with that key.
pub proof fn lemma_entry_value_at(entries: Seq<(Seq<char>, JsonV)>, key: Seq<char>, i: int)
    requires
        0 <= i < entries.len(),
        entries[i].0 == key,
        forall|j: int| 0 <= j < i ==> #[trigger] entries[j].0 != key,
    ensures
        entry_value(entries, key) == entries[i].1,
    decreases i,
{
    if i > 0 {
        let rest = entries.drop_first();
        assert forall|j: int| 0 <= j < i - 1 implies #[trigger] rest[j].0 != key by {
            assert(rest[j] == entries[j + 1]);
        }
        lemma_entry_value_at(rest, key, i - 1);
    }
}

/// `v[key]`: the value under `key` when `v` is an object, else `null`.
pub open spec fn get_key(v: JsonV, key: Seq<char>) -> JsonV {
    match v {
        JsonV::Obj(entries) => entry_value(entries, key),
        _ => JsonV::Null,
    }
}

/// `v[i]`: the `i`-th item when `v` is an array that long, else `null`.
pub open spec fn get_index(v: JsonV, i: int) -> JsonV {
    match v {
        JsonV::Arr(items) => if 0 <= i < items.len() {
            items[i]
        } else {
            JsonV::Null
        },
        _ => JsonV::Null,
    }
}

/// `v.as_i64()`: the number when `v` is an `i64`.
pub open spec fn as_i64(v: JsonV) -> Option<int> {
    match v {
        JsonV::Int(i) => Some(i),
        _ => None,
    }
}

/// `v.as_str()`: the string when `v` is one.
pub open spec fn as_str(v: JsonV) -> Option<Seq<char>> {
    match v {
        JsonV::Str(s) => Some(s),
        _ => None,
    }
}

/// The model of a value found, or `null` when none was.
pub open spec fn found_model(r: Option<&Json>) -> JsonV {
    match r {
        Some(v) => v.model(),
        None => JsonV::Null,
    }
}

impl Json {
    /// The value under `key` (`self[key]`), if there is one.
    pub fn get(&self, key: &str) -> (r: Option<&Json>)
        ensures
            found_model(r) == get_key(self.model(), key@),
    {
        match self {
            Json::Obj(entries) => {
                proof {
                    Json::lemma_entry_models(entries@);
                }
                let ghost em = Json::entry_models(entries@);
                assert(em.skip(0) =~= em);
                let mut i: usize = 0;
                while i < entries.len()
                    invariant
                        i <= entries@.len(),
                        em == Json::entry_models(entries@),
                        self.model() == JsonV::Obj(em),
                        em.len() == entries@.len(),
                        forall|j: int| 0 <= j < entries@.len() ==> #[trigger] em[j] == (
                            entries@[j].0@,
                            entries@[j].1.model(),
                        ),
                        entry_value(em, key@) == entry_value(em.skip(i as int), key@),
                    decreases entries@.len() - i,
                {
                    assert(em.skip(i as int).drop_first() =~= em.skip(i + 1));
                    assert(em.skip(i as int)[0] == em[i as int]);
                    if str_eq(entries[i].0.as_str(), key) {
                        assert(em[i as int] == (entries@[i as int].0@, entries@[i as int].1.model()));
                        assert(em.skip(i as int).len() > 0);
                        assert(entry_value(em.skip(i as int), key@) == entries@[i as int].1.model());
                        return Some(&entries[i].1);
                    }
                    i = i + 1;
                }
                None
            },
            _ => None,
        }
    }

    /// The `i`-th item (`self[i]`), if there is one.
    pub fn at(&self, i: usize) -> (r: Option<&Json>)
        ensures
            found_model(r) == get_index(self.model(), i as int),
    {
        match self {
            Json::Arr(items) => {
                proof {
                    Json::lemma_models(items@);
                }
                if i < items.len() {
                    Some(&items[i])
                } else {
                    None
                }
            },
            _ => None,
        }
    }

    /// The number, when this is an `i64`.
    pub fn as_i64(&self) -> (r: Option<i64>)
        ensures
            (match r {
                Some(i) => Some(i as int),
                None => None,
            }) == as_i64(self.model()),
    {
        match self {
            Json::Int(i) => Some(*i),
            _ => None,
        }
    }

    /// The string, when this is one.
    pub fn as_str(&self) -> (r: Option<&str>)
        ensures
            (match r {
                Some(s) => Some(s@),
                None => None,
            }) == as_str(self.model()),
    {
        match self {
            Json::Str(s) => Some(s.as_str()),
            _ => None,
        }
    }
}

/// Follows `key` from a value that may be missing.
pub fn get_opt<'a>(v: Option<&'a Json>, key: &str) -> (r: Option<&'a Json>)
    ensures
        found_model(r) == get_key(found_model(v), key@),
{
    match v {
        Some(j) => j.get(key),
        None => None,
    }
}

/// Follows index `i` from a value that may be missing.
pub fn at_opt<'a>(v: Option<&'a Json>, i: usize) -> (r: Option<&'a Json>)
    ensures
        found_model(r) == get_index(found_model(v), i as int),
{
    match v {
        Some(j) => j.at(i),
        None => None,
    }
}

} // verus!
