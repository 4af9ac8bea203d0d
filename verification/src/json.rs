//! The adapter's model of a JSON document.
//!
//! The wire format on both sides of an exchange is JSON. A document is
//! held as a [`JsonValue`]; its mathematical model is [`Json`], whose
//! sequences and character strings make contracts easy to state.

use vstd::prelude::*;

verus! {

broadcast use vstd::std_specs::vec::group_vec_axioms;

/// A JSON document.
///
/// Numbers are held as unsigned 64-bit integers: the only number the
/// adapter ever writes is the maximum-output-token limit, and it reads
/// no numeric field. An object keeps its entries as an ordered list of
/// key/value pairs; a lookup takes the first entry with the given key.
#[derive(Debug, PartialEq, Eq)]
pub enum JsonValue {
    Null,
    Bool(bool),
    Num(u64),
    Str(String),
    Arr(Vec<JsonValue>),
    Obj(Vec<(String, JsonValue)>),
}

/// The mathematical model of a [`JsonValue`].
#[verifier::ext_equal]
pub enum Json {
    Null,
    Bool(bool),
    Num(u64),
    Str(Seq<char>),
    Arr(Seq<Json>),
    Obj(Seq<(Seq<char>, Json)>),
}

impl JsonValue {
    pub open spec fn model(self) -> Json
        decreases self,
    {
        match self {
            JsonValue::Null => Json::Null,
            JsonValue::Bool(b) => Json::Bool(b),
            JsonValue::Num(n) => Json::Num(n),
            JsonValue::Str(s) => Json::Str(s@),
            JsonValue::Arr(items) => Json::Arr(
                Seq::new(
                    items.len() as nat,
                    |i: int|
                        if 0 <= i < items.len() {
                            items[i].model()
                        } else {
                            Json::Null
                        },
                ),
            ),
            JsonValue::Obj(entries) => Json::Obj(
                Seq::new(
                    entries.len() as nat,
                    |i: int|
                        if 0 <= i < entries.len() {
                            (entries[i].0@, entries[i].1.model())
                        } else {
                            (Seq::empty(), Json::Null)
                        },
                ),
            ),
        }
    }
}

impl View for JsonValue {
    type V = Json;

    open spec fn view(&self) -> Json {
        self.model()
    }
}

/// The models of a list of documents, element by element.
pub open spec fn models_of(items: Seq<JsonValue>) -> Seq<Json> {
    Seq::new(
        items.len(),
        |i: int|
            if 0 <= i < items.len() {
                items[i]@
            } else {
                Json::Null
            },
    )
}

/// An array document models to the array of its elements' models.
pub proof fn lemma_arr_models(items: Vec<JsonValue>)
    ensures
        JsonValue::Arr(items)@ == Json::Arr(models_of(items@)),
{
    assert(JsonValue::Arr(items)@->Arr_0 =~= models_of(items@));
    assert(JsonValue::Arr(items)@ =~~= Json::Arr(models_of(items@)));
}

/// The models of a list of key/value entries, element by element.
pub open spec fn pair_models_of(entries: Seq<(String, JsonValue)>) -> Seq<(Seq<char>, Json)> {
    Seq::new(
        entries.len(),
        |i: int|
            if 0 <= i < entries.len() {
                (entries[i].0@, entries[i].1@)
            } else {
                (Seq::empty(), Json::Null)
            },
    )
}

/// An object document models to the list of its entries' models.
pub proof fn lemma_obj_models(entries: Vec<(String, JsonValue)>)
    ensures
        JsonValue::Obj(entries)@ == Json::Obj(pair_models_of(entries@)),
{
    assert(JsonValue::Obj(entries)@->Obj_0 =~= pair_models_of(entries@));
    assert(JsonValue::Obj(entries)@ =~~= Json::Obj(pair_models_of(entries@)));
}

/// Whether a document nests no deeper than `depth`: each array or object
/// level consumes one unit.
pub open spec fn fits_depth(doc: Json, depth: nat) -> bool
    decreases doc,
{
    match doc {
        Json::Arr(items) => depth >= 1 && (forall|i: int|
            0 <= i < items.len() ==> fits_depth(#[trigger] items[i], (depth - 1) as nat)),
        Json::Obj(entries) => depth >= 1 && (forall|i: int|
            0 <= i < entries.len() ==> fits_depth(#[trigger] entries[i].1, (depth - 1) as nat)),
        _ => true,
    }
}

/// The model of an object literal with a single entry.
pub proof fn lemma_obj1_model(o: JsonValue, k: Seq<char>, v: Json)
    requires
        o is Obj,
        o->Obj_0@.len() == 1,
        o->Obj_0@[0].0@ == k,
        o->Obj_0@[0].1@ == v,
    ensures
        o@ == Json::Obj(seq![(k, v)]),
{
    assert(o@->Obj_0[0] == (k, v));
    assert(o@->Obj_0 =~~= seq![(k, v)]);
    assert(o@ =~~= Json::Obj(seq![(k, v)]));
}

/// The model of an object literal with two entries.
pub proof fn lemma_obj2_model(o: JsonValue, k0: Seq<char>, v0: Json, k1: Seq<char>, v1: Json)
    requires
        o is Obj,
        o->Obj_0@.len() == 2,
        o->Obj_0@[0].0@ == k0,
        o->Obj_0@[0].1@ == v0,
        o->Obj_0@[1].0@ == k1,
        o->Obj_0@[1].1@ == v1,
    ensures
        o@ == Json::Obj(seq![(k0, v0), (k1, v1)]),
{
    assert(o@->Obj_0[0] == (k0, v0));
    assert(o@->Obj_0[1] == (k1, v1));
    assert(o@->Obj_0 =~~= seq![(k0, v0), (k1, v1)]);
    assert(o@ =~~= Json::Obj(seq![(k0, v0), (k1, v1)]));
}

/// The model of an array literal with a single element.
pub proof fn lemma_arr1_model(o: JsonValue, m: Json)
    requires
        o is Arr,
        o->Arr_0@.len() == 1,
        o->Arr_0@[0]@ == m,
    ensures
        o@ == Json::Arr(seq![m]),
{
    assert(o@->Arr_0[0] == m);
    assert(o@->Arr_0 =~~= seq![m]);
    assert(o@ =~~= Json::Arr(seq![m]));
}

/// The value of the first entry of `entries` whose key is `key`.
pub open spec fn entries_lookup(entries: Seq<(Seq<char>, Json)>, key: Seq<char>) -> Option<Json>
    decreases entries.len(),
{
    if entries.len() == 0 {
        None
    } else if entries[0].0 == key {
        Some(entries[0].1)
    } else {
        entries_lookup(entries.drop_first(), key)
    }
}

/// Look up `key` in `doc`: the value of the first entry with that key,
/// `None` when `doc` is not an object or has no such entry.
pub open spec fn json_get(doc: Json, key: Seq<char>) -> Option<Json> {
    match doc {
        Json::Obj(entries) => entries_lookup(entries, key),
        _ => None,
    }
}

/// A lookup is unchanged by dropping a prefix of entries none of which
/// carries the key.
proof fn lemma_entries_lookup_skip(entries: Seq<(Seq<char>, Json)>, key: Seq<char>, i: int)
    requires
        0 <= i <= entries.len(),
        forall|j: int| 0 <= j < i ==> entries[j].0 != key,
    ensures
        entries_lookup(entries, key) == entries_lookup(entries.skip(i), key),
    decreases i,
{
    if i > 0 {
        assert(entries.drop_first().skip(i - 1) =~= entries.skip(i));
        lemma_entries_lookup_skip(entries.drop_first(), key, i - 1);
    } else {
        assert(entries.skip(0) =~= entries);
    }
}

impl JsonValue {
    /// Look up `key` in an object document: the value of the first entry
    /// whose key equals `key`, `None` for a missing key or a non-object.
    pub fn get<'a>(&'a self, key: &str) -> (r: Option<&'a JsonValue>)
        ensures
            match r {
                Some(v) => json_get(self@, key@) == Some(v@),
                None => json_get(self@, key@) is None,
            },
    {
        match self {
            JsonValue::Obj(entries) => {
                let wanted = String::from_str(key);
                let ghost m = self@->Obj_0;
                let n = entries.len();
                let mut i: usize = 0;
                while i < n
                    invariant
                        n == entries.len(),
                        0 <= i <= n,
                        self@ == Json::Obj(m),
                        m.len() == n,
                        forall|j: int| 0 <= j < n ==> m[j] == (entries[j].0@, entries[j].1@),
                        wanted@ == key@,
                        forall|j: int| 0 <= j < i ==> m[j].0 != key@,
                    decreases n - i,
                {
                    if entries[i].0 == wanted {
                        proof {
                            lemma_entries_lookup_skip(m, key@, i as int);
                            assert(m.skip(i as int)[0] == m[i as int]);
                            assert(entries_lookup(m.skip(i as int), key@) == Some(m[i as int].1));
                        }
                        return Some(&entries[i].1);
                    }
                    i += 1;
                }
                proof {
                    lemma_entries_lookup_skip(m, key@, n as int);
                    assert(m.skip(n as int).len() == 0);
                }
                None
            },
            _ => None,
        }
    }
}

/// An array that fits within `depth` holds elements that fit within one
/// unit less.
pub proof fn lemma_fits_depth_arr(doc: Json, depth: nat, i: int)
    requires
        fits_depth(doc, depth),
        doc is Arr,
        0 <= i < doc->Arr_0.len(),
    ensures
        depth >= 1,
        fits_depth(doc->Arr_0[i], (depth - 1) as nat),
{
}

/// An object that fits within `depth` holds entry values that fit within
/// one unit less.
pub proof fn lemma_fits_depth_obj(doc: Json, depth: nat, i: int)
    requires
        fits_depth(doc, depth),
        doc is Obj,
        0 <= i < doc->Obj_0.len(),
    ensures
        depth >= 1,
        fits_depth(doc->Obj_0[i].1, (depth - 1) as nat),
{
}

} // verus!
