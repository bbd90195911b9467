//! JSON documents as plain values, read with `serde_json`.

use crate::text::same_text;
use vstd::prelude::*;

verus! {

// ── Values ────────────────────────────────────────────────────────

/// A JSON value. Of numbers only that they are numbers is kept.
#[derive(Debug)]
pub enum Json {
    Null,
    Bool(bool),
    Number,
    Text(String),
    Array(Vec<Json>),
    Object(Vec<(String, Json)>),
}

/// A JSON value as a mathematical tree.
pub ghost enum JsonTree {
    Null,
    Bool(bool),
    Number,
    Text(Seq<char>),
    Array(Seq<JsonTree>),
    Object(Seq<(Seq<char>, JsonTree)>),
}

impl Json {
    /// The tree of the value.
    pub open spec fn tree(&self) -> JsonTree
        decreases self,
    {
        match self {
            Json::Null => JsonTree::Null,
            Json::Bool(b) => JsonTree::Bool(*b),
            Json::Number => JsonTree::Number,
            Json::Text(s) => JsonTree::Text(s@),
            Json::Array(items) => JsonTree::Array(
                Seq::new(
                    items@.len(),
                    |i: int|
                        if 0 <= i < items@.len() {
                            items@[i].tree()
                        } else {
                            JsonTree::Null
                        },
                ),
            ),
            Json::Object(fields) => JsonTree::Object(
                Seq::new(
                    fields@.len(),
                    |i: int|
                        if 0 <= i < fields@.len() {
                            (fields@[i].0@, fields@[i].1.tree())
                        } else {
                            (Seq::empty(), JsonTree::Null)
                        },
                ),
            ),
        }
    }
}

/// The value of the first field named `key` in a list of fields.
pub open spec fn first_named(fields: Seq<(Seq<char>, JsonTree)>, key: Seq<char>) -> Option<JsonTree>
    decreases fields.len(),
{
    if fields.len() == 0 {
        None
    } else if fields[0].0 == key {
        Some(fields[0].1)
    } else {
        first_named(fields.drop_first(), key)
    }
}

impl JsonTree {
    /// The field named `key`, of an object that has it.
    pub open spec fn field(self, key: Seq<char>) -> Option<JsonTree> {
        match self {
            JsonTree::Object(fields) => first_named(fields, key),
            _ => None,
        }
    }

    /// Item `i`, of an array that is long enough.
    pub open spec fn item(self, i: int) -> Option<JsonTree> {
        match self {
            JsonTree::Array(items) if 0 <= i < items.len() => Some(items[i]),
            _ => None,
        }
    }

    /// The text, of a string.
    pub open spec fn text(self) -> Option<Seq<char>> {
        match self {
            JsonTree::Text(s) => Some(s),
            _ => None,
        }
    }

    /// The items, of an array.
    pub open spec fn items(self) -> Option<Seq<JsonTree>> {
        match self {
            JsonTree::Array(items) => Some(items),
            _ => None,
        }
    }

    /// The truth value, of a Boolean.
    pub open spec fn truth(self) -> Option<bool> {
        match self {
            JsonTree::Bool(b) => Some(b),
            _ => None,
        }
    }
}

/// A field of an object is smaller than the object.
pub proof fn a_field_is_smaller(t: JsonTree, key: Seq<char>)
    ensures
        t.field(key) matches Some(v) ==> decreases_to!(t => v),
{
    if let JsonTree::Object(fields) = t {
        lemma_named_field_is_listed(fields, key);
        if let Some(v) = first_named(fields, key) {
            let i = choose|i: int| 0 <= i < fields.len() && fields[i].1 == v;
            assert(decreases_to!(fields[i] => fields[i].1));
            assert(decreases_to!(fields => fields[i]));
            assert(decreases_to!(t => fields));
        }
    }
}

proof fn lemma_named_field_is_listed(fields: Seq<(Seq<char>, JsonTree)>, key: Seq<char>)
    ensures
        first_named(fields, key) matches Some(v) ==> exists|i: int|
            0 <= i < fields.len() && (#[trigger] fields[i]).1 == v,
    decreases fields.len(),
{
    if fields.len() > 0 && fields[0].0 != key {
        lemma_named_field_is_listed(fields.drop_first(), key);
        if let Some(v) = first_named(fields, key) {
            let rest = fields.drop_first();
            let i = choose|i: int| 0 <= i < rest.len() && (#[trigger] rest[i]).1 == v;
            assert(fields[i + 1].1 == v);
        }
    }
}

impl Json {
    /// The field named `key`, of an object that has it.
    pub fn get(&self, key: &str) -> (r: Option<&Json>)
        ensures
            match r {
                Some(v) => self.tree().field(key@) == Some(v.tree()),
                None => self.tree().field(key@) is None,
            },
    {
        match self {
            Json::Object(fields) => {
                let ghost all = self.tree()->Object_0;
                let mut i: usize = 0;
                assert(all.skip(0) =~= all);
                while i < fields.len()
                    invariant
                        i <= fields@.len(),
                        *self == Json::Object(*fields),
                        self.tree() == JsonTree::Object(all),
                        all.len() == fields@.len(),
                        first_named(all, key@) == first_named(all.skip(i as int), key@),
                    decreases fields@.len() - i,
                {
                    assert(all[i as int] == (fields@[i as int].0@, fields@[i as int].1.tree()));
                    assert(all.skip(i as int)[0] == all[i as int]);
                    if same_text(fields[i].0.as_str(), key) {
                        return Some(&fields[i].1);
                    }
                    assert(all.skip(i as int).drop_first() =~= all.skip(i + 1));
                    i += 1;
                }
                None
            },
            _ => None,
        }
    }

    /// Item `i`, of an array that is long enough.
    pub fn item(&self, i: usize) -> (r: Option<&Json>)
        ensures
            match r {
                Some(v) => self.tree().item(i as int) == Some(v.tree()),
                None => self.tree().item(i as int) is None,
            },
    {
        match self {
            Json::Array(items) => {
                if i < items.len() {
                    Some(&items[i])
                } else {
                    None
                }
            },
            _ => None,
        }
    }

    /// The items, of an array.
    pub fn as_array(&self) -> (r: Option<&Vec<Json>>)
        ensures
            match r {
                Some(v) => {
                    &&& self.tree().items() is Some
                    &&& self.tree().items()->0.len() == v@.len()
                    &&& forall|i: int|
                        0 <= i < v@.len() ==> self.tree().items()->0[i] == (#[trigger] v@[i]).tree()
                },
                None => self.tree().items() is None,
            },
    {
        match self {
            Json::Array(items) => Some(items),
            _ => None,
        }
    }

    /// The text, of a string.
    pub fn as_str(&self) -> (r: Option<&str>)
        ensures
            match r {
                Some(s) => self.tree().text() == Some(s@),
                None => self.tree().text() is None,
            },
    {
        match self {
            Json::Text(s) => Some(s.as_str()),
            _ => None,
        }
    }

    /// The truth value, of a Boolean.
    pub fn as_bool(&self) -> (r: Option<bool>)
        ensures
            r == self.tree().truth(),
    {
        match self {
            Json::Bool(b) => Some(*b),
            _ => None,
        }
    }
}

// ── Reading documents ─────────────────────────────────────────────

#[verifier::external_type_specification]
#[verifier::external_body]
pub struct ExValue(serde_json::Value);

#[verifier::external_type_specification]
#[verifier::external_body]
pub struct ExError(serde_json::Error);

/// The tree that a `serde_json::Value` holds.
pub uninterp spec fn value_tree(v: serde_json::Value) -> JsonTree;

/// The tree of the document that `serde_json::from_str` reads in a text, if
/// it reads one.
pub uninterp spec fn document(text: Seq<char>) -> Option<JsonTree>;

/// The tree of the document that `serde_json::from_slice` reads in bytes, if
/// it reads one.
pub uninterp spec fn document_of_bytes(bytes: Seq<u8>) -> Option<JsonTree>;

/// `serde_json::from_str`: reads the text as one JSON value. Whether there is
/// one, and which, depends on the text alone.
#[verifier::external_body]
fn value_from_str(text: &str) -> (r: Result<serde_json::Value, serde_json::Error>)
    ensures
        match r {
            Ok(v) => document(text@) == Some(value_tree(v)),
            Err(_) => document(text@) is None,
        },
{
    serde_json::from_str(text)
}

/// `serde_json::from_slice`: reads the bytes as one JSON value. Whether there
/// is one, and which, depends on the bytes alone.
#[verifier::external_body]
fn value_from_slice(bytes: &[u8]) -> (r: Result<serde_json::Value, serde_json::Error>)
    ensures
        match r {
            Ok(v) => document_of_bytes(bytes@) == Some(value_tree(v)),
            Err(_) => document_of_bytes(bytes@) is None,
        },
{
    serde_json::from_slice(bytes)
}

/// A `serde_json::Value` opened up one level.
enum Opened<'a> {
    Null,
    Bool(bool),
    Number,
    Text(&'a String),
    Array(&'a Vec<serde_json::Value>),
    Object(Vec<(&'a String, &'a serde_json::Value)>),
}

/// An opened value shows the top level of a tree.
spec fn opens(o: Opened, t: JsonTree) -> bool {
    match (o, t) {
        (Opened::Null, JsonTree::Null) => true,
        (Opened::Bool(a), JsonTree::Bool(b)) => a == b,
        (Opened::Number, JsonTree::Number) => true,
        (Opened::Text(a), JsonTree::Text(b)) => a@ == b,
        (Opened::Array(a), JsonTree::Array(b)) => a@.len() == b.len() && forall|i: int|
            0 <= i < b.len() ==> value_tree(#[trigger] a@[i]) == b[i],
        (Opened::Object(a), JsonTree::Object(b)) => a@.len() == b.len() && forall|i: int|
            0 <= i < b.len() ==> (#[trigger] a@[i]).0@ == b[i].0 && value_tree(*a@[i].1) == b[i].1,
        _ => false,
    }
}

/// The variants of `serde_json::Value`, told apart; an object's fields in the
/// order of `serde_json::Map::iter`.
#[verifier::external_body]
fn open(v: &serde_json::Value) -> (r: Opened<'_>)
    ensures
        opens(r, value_tree(*v)),
{
    match v {
        serde_json::Value::Null => Opened::Null,
        serde_json::Value::Bool(b) => Opened::Bool(*b),
        serde_json::Value::Number(_) => Opened::Number,
        serde_json::Value::String(s) => Opened::Text(s),
        serde_json::Value::Array(items) => Opened::Array(items),
        serde_json::Value::Object(fields) => Opened::Object(fields.iter().collect()),
    }
}

/// The value as the library's own.
pub(crate) fn own(v: &serde_json::Value) -> (r: Json)
    ensures
        r.tree() == value_tree(*v),
    decreases value_tree(*v),
{
    match open(v) {
        Opened::Null => Json::Null,
        Opened::Bool(b) => Json::Bool(b),
        Opened::Number => Json::Number,
        Opened::Text(s) => Json::Text(s.clone()),
        Opened::Array(items) => {
            let ghost trees = value_tree(*v)->Array_0;
            let mut out: Vec<Json> = Vec::new();
            for i in 0..items.len()
                invariant
                    value_tree(*v) == JsonTree::Array(trees),
                    items@.len() == trees.len(),
                    forall|k: int| 0 <= k < trees.len() ==> value_tree(#[trigger] items@[k]) == trees[k],
                    out@.len() == i,
                    forall|k: int| 0 <= k < i ==> (#[trigger] out@[k]).tree() == trees[k],
            {
                assert(value_tree(items@[i as int]) == trees[i as int]);
                assert(decreases_to!(value_tree(*v)->Array_0 => value_tree(*v)->Array_0[i as int]));
                assert(decreases_to!(value_tree(*v) => value_tree(*v)->Array_0));
                out.push(own(&items[i]));
            }
            let r = Json::Array(out);
            assert(r.tree()->Array_0 =~= trees);
            r
        },
        Opened::Object(fields) => {
            let ghost trees = value_tree(*v)->Object_0;
            let mut out: Vec<(String, Json)> = Vec::new();
            for i in 0..fields.len()
                invariant
                    value_tree(*v) == JsonTree::Object(trees),
                    fields@.len() == trees.len(),
                    forall|k: int|
                        0 <= k < trees.len() ==> (#[trigger] fields@[k]).0@ == trees[k].0
                            && value_tree(*fields@[k].1) == trees[k].1,
                    out@.len() == i,
                    forall|k: int|
                        0 <= k < i ==> (#[trigger] out@[k]).0@ == trees[k].0 && out@[k].1.tree()
                            == trees[k].1,
            {
                assert(fields@[i as int].0@ == trees[i as int].0);
                assert(decreases_to!(value_tree(*v)->Object_0[i as int] => value_tree(*v)->Object_0[i as int].1));
                assert(decreases_to!(value_tree(*v)->Object_0 => value_tree(*v)->Object_0[i as int]));
                assert(decreases_to!(value_tree(*v) => value_tree(*v)->Object_0));
                out.push((fields[i].0.clone(), own(fields[i].1)));
            }
            let r = Json::Object(out);
            assert(r.tree()->Object_0 =~= trees);
            r
        },
    }
}

/// The JSON document in a text, if it is one.
pub fn parse_json(text: &str) -> (r: Option<Json>)
    ensures
        match r {
            Some(v) => document(text@) == Some(v.tree()),
            None => document(text@) is None,
        },
{
    match value_from_str(text) {
        Ok(v) => Some(own(&v)),
        Err(_) => None,
    }
}

/// The JSON document in bytes, if they are one.
pub fn parse_json_bytes(bytes: &[u8]) -> (r: Option<Json>)
    ensures
        match r {
            Some(v) => document_of_bytes(bytes@) == Some(v.tree()),
            None => document_of_bytes(bytes@) is None,
        },
{
    match value_from_slice(bytes) {
        Ok(v) => Some(own(&v)),
        Err(_) => None,
    }
}

// ── Laws ──────────────────────────────────────────────────────────

/// An object has a field of a name exactly if one is listed under it, and it is
/// the first of those.
pub proof fn a_field_is_found_by_its_name(fields: Seq<(Seq<char>, JsonTree)>, key: Seq<char>, i: int)
    requires
        0 <= i < fields.len(),
        fields[i].0 == key,
        forall|j: int| 0 <= j < i ==> (#[trigger] fields[j]).0 != key,
    ensures
        JsonTree::Object(fields).field(key) == Some(fields[i].1),
    decreases i,
{
    if i > 0 {
        let rest = fields.drop_first();
        assert(fields[0].0 != key);
        assert forall|j: int| 0 <= j < i - 1 implies (#[trigger] rest[j]).0 != key by {
            assert(fields[j + 1].0 != key);
        }
        a_field_is_found_by_its_name(rest, key, i - 1);
    }
}

/// A field under a name that is not listed is not there, and nothing but an
/// object has fields.
pub proof fn a_name_that_is_not_listed_has_no_field(t: JsonTree, key: Seq<char>)
    ensures
        t.field(key) is Some ==> (t matches JsonTree::Object(fields) && exists|i: int|
            0 <= i < fields.len() && (#[trigger] fields[i]).0 == key),
    decreases t,
{
    if let JsonTree::Object(fields) = t {
        if forall|i: int| 0 <= i < fields.len() ==> (#[trigger] fields[i]).0 != key {
            lemma_no_name(fields, key);
        }
    }
}

proof fn lemma_no_name(fields: Seq<(Seq<char>, JsonTree)>, key: Seq<char>)
    requires
        forall|i: int| 0 <= i < fields.len() ==> (#[trigger] fields[i]).0 != key,
    ensures
        first_named(fields, key) is None,
    decreases fields.len(),
{
    if fields.len() > 0 {
        let rest = fields.drop_first();
        assert forall|i: int| 0 <= i < rest.len() implies (#[trigger] rest[i]).0 != key by {
            assert(fields[i + 1].0 != key);
        }
        lemma_no_name(rest, key);
    }
}

/// A value is read as what it is and as nothing else: a string as its text, a
/// Boolean as its truth value, an array by its items.
pub proof fn a_value_is_read_as_what_it_is(t: JsonTree, s: Seq<char>, b: bool, i: int)
    ensures
        t.text() == Some(s) <==> t == JsonTree::Text(s),
        t.truth() == Some(b) <==> t == JsonTree::Bool(b),
        t.item(i) is Some <==> (t matches JsonTree::Array(items) && 0 <= i < items.len()),
        t.item(i) is Some ==> t.items() is Some && t.item(i) == Some(t.items()->0[i]),
        t.items() is Some <==> t is Array,
        t.items() is Some ==> t == JsonTree::Array(t.items()->0),
{
}

/// The tree of a value holds what the value holds.
pub proof fn a_tree_holds_what_the_value_holds(v: Json, i: int)
    ensures
        v is Null <==> v.tree() is Null,
        v is Number <==> v.tree() is Number,
        v matches Json::Bool(b) ==> v.tree().truth() == Some(b),
        v matches Json::Text(s) ==> v.tree().text() == Some(s@),
        v matches Json::Array(items) ==> (v.tree().items() matches Some(trees) && trees.len()
            == items@.len() && (0 <= i < items@.len() ==> trees[i] == items@[i].tree())),
        v matches Json::Object(fields) ==> (v.tree() matches JsonTree::Object(trees) && trees.len()
            == fields@.len() && (0 <= i < fields@.len() ==> trees[i].0 == fields@[i].0@
            && trees[i].1 == fields@[i].1.tree())),
{
}

}
