//! A JSON value model for free-form inventory data.
//!
//! Host data, connection extras, transform options and runner options are
//! arbitrary JSON documents. They are held here as plain values: numbers keep
//! serde_json's three kinds (non-negative integer, negative integer, and a
//! float kept as its decimal text), arrays and objects are linked lists so that
//! a copy equals the value it copies. Object keys are unique when built through
//! [`JsonValue::object`] or [`JsonFields::insert`].
use vstd::prelude::*;
use crate::text::str_eq;

verus! {

/// A JSON number, as serde_json distinguishes them.
#[derive(Debug, PartialEq, Eq)]
pub enum JsonNumber {
    /// A non-negative integer.
    PosInt(u64),
    /// A negative integer.
    NegInt(i64),
    /// A floating-point number, as its decimal text.
    Float(String),
}

/// A JSON document.
#[derive(Debug)]
pub enum JsonValue {
    Null,
    Bool(bool),
    Number(JsonNumber),
    String(String),
    Array(JsonList),
    Object(JsonFields),
}

/// The items of a JSON array, first to last.
#[derive(Debug)]
pub enum JsonList {
    Nil,
    Cons(Box<JsonValue>, Box<JsonList>),
}

/// The members of a JSON object, in insertion order.
#[derive(Debug)]
pub enum JsonFields {
    Nil,
    Cons(String, Box<JsonValue>, Box<JsonFields>),
}

impl Clone for JsonNumber {
    fn clone(&self) -> (res: Self)
        ensures
            res == *self,
    {
        match self {
            JsonNumber::PosInt(n) => JsonNumber::PosInt(*n),
            JsonNumber::NegInt(n) => JsonNumber::NegInt(*n),
            JsonNumber::Float(s) => JsonNumber::Float(s.clone()),
        }
    }
}

impl JsonValue {
    /// An exact copy of this value.
    pub fn deep_clone(&self) -> (res: Self)
        ensures
            res == *self,
        decreases self,
    {
        match self {
            JsonValue::Null => JsonValue::Null,
            JsonValue::Bool(b) => JsonValue::Bool(*b),
            JsonValue::Number(n) => JsonValue::Number(n.clone()),
            JsonValue::String(s) => JsonValue::String(s.clone()),
            JsonValue::Array(items) => JsonValue::Array(items.deep_clone()),
            JsonValue::Object(fields) => JsonValue::Object(fields.deep_clone()),
        }
    }
}

impl JsonList {
    /// An exact copy of these items.
    pub fn deep_clone(&self) -> (res: Self)
        ensures
            res == *self,
        decreases self,
    {
        match self {
            JsonList::Nil => JsonList::Nil,
            JsonList::Cons(head, tail) => {
                let h = (**head).deep_clone();
                let t = (**tail).deep_clone();
                JsonList::Cons(Box::new(h), Box::new(t))
            },
        }
    }
}

impl Clone for JsonValue {
    fn clone(&self) -> (res: Self)
        ensures
            res == *self,
    {
        self.deep_clone()
    }
}

impl Clone for JsonList {
    fn clone(&self) -> (res: Self)
        ensures
            res == *self,
    {
        self.deep_clone()
    }
}

impl Clone for JsonFields {
    fn clone(&self) -> (res: Self)
        ensures
            res == *self,
    {
        self.deep_clone()
    }
}

/// The value stored under `key`, if any (the first member with that key).
pub open spec fn fields_get(f: JsonFields, key: Seq<char>) -> Option<JsonValue>
    decreases f,
{
    match f {
        JsonFields::Nil => None,
        JsonFields::Cons(k, v, rest) => if k@ == key {
            Some(*v)
        } else {
            fields_get(*rest, key)
        },
    }
}

/// Whether no key occurs twice among the members.
pub open spec fn fields_unique(f: JsonFields) -> bool
    decreases f,
{
    match f {
        JsonFields::Nil => true,
        JsonFields::Cons(k, v, rest) => fields_get(*rest, k@) is None && fields_unique(*rest),
    }
}

/// `f` with `key` bound to `value`: an existing member is replaced in place,
/// a new key is added at the end.
pub open spec fn fields_insert(f: JsonFields, key: String, value: JsonValue) -> JsonFields
    decreases f,
{
    match f {
        JsonFields::Nil => JsonFields::Cons(key, Box::new(value), Box::new(JsonFields::Nil)),
        JsonFields::Cons(k, v, rest) => if k@ == key@ {
            JsonFields::Cons(key, Box::new(value), rest)
        } else {
            JsonFields::Cons(k, v, Box::new(fields_insert(*rest, key, value)))
        },
    }
}

/// `target` with every member of `source` inserted, first to last.
pub open spec fn fields_merge(target: JsonFields, source: JsonFields) -> JsonFields
    decreases source,
{
    match source {
        JsonFields::Nil => target,
        JsonFields::Cons(k, v, rest) => fields_merge(fields_insert(target, k, *v), *rest),
    }
}

/// After an insert, `key` reads the new value and every other key is unchanged.
pub proof fn lemma_insert_get(f: JsonFields, key: String, value: JsonValue, other: Seq<char>)
    ensures
        fields_get(fields_insert(f, key, value), other) == if other == key@ {
            Some(value)
        } else {
            fields_get(f, other)
        },
    decreases f,
{
    match f {
        JsonFields::Nil => {},
        JsonFields::Cons(k, v, rest) => {
            if k@ != key@ {
                lemma_insert_get(*rest, key, value, other);
            }
        },
    }
}

/// Inserting keeps keys unique.
pub proof fn lemma_insert_unique(f: JsonFields, key: String, value: JsonValue)
    requires
        fields_unique(f),
    ensures
        fields_unique(fields_insert(f, key, value)),
    decreases f,
{
    match f {
        JsonFields::Nil => {},
        JsonFields::Cons(k, v, rest) => {
            if k@ != key@ {
                lemma_insert_unique(*rest, key, value);
                lemma_insert_get(*rest, key, value, k@);
            }
        },
    }
}

/// Merging reads each key from `source` when it has the key, else from `target`.
pub proof fn lemma_merge_get(target: JsonFields, source: JsonFields, key: Seq<char>)
    requires
        fields_unique(source),
    ensures
        fields_get(fields_merge(target, source), key) == match fields_get(source, key) {
            Some(v) => Some(v),
            None => fields_get(target, key),
        },
    decreases source,
{
    match source {
        JsonFields::Nil => {},
        JsonFields::Cons(k, v, rest) => {
            lemma_merge_get(fields_insert(target, k, *v), *rest, key);
            lemma_insert_get(target, k, *v, key);
        },
    }
}

/// Merging keeps keys unique.
pub proof fn lemma_merge_unique(target: JsonFields, source: JsonFields)
    requires
        fields_unique(target),
    ensures
        fields_unique(fields_merge(target, source)),
    decreases source,
{
    match source {
        JsonFields::Nil => {},
        JsonFields::Cons(k, v, rest) => {
            lemma_insert_unique(target, k, *v);
            lemma_merge_unique(fields_insert(target, k, *v), *rest);
        },
    }
}

impl JsonFields {
    /// An exact copy of these members.
    pub fn deep_clone(&self) -> (res: Self)
        ensures
            res == *self,
        decreases self,
    {
        match self {
            JsonFields::Nil => JsonFields::Nil,
            JsonFields::Cons(k, v, rest) => {
                let v2 = (**v).deep_clone();
                let r2 = (**rest).deep_clone();
                JsonFields::Cons(k.clone(), Box::new(v2), Box::new(r2))
            },
        }
    }

    /// The value stored under `key`, if any.
    pub fn get(&self, key: &str) -> (res: Option<&JsonValue>)
        ensures
            opt_deref(res) == fields_get(*self, key@),
        decreases self,
    {
        match self {
            JsonFields::Nil => None,
            JsonFields::Cons(k, v, rest) => {
                if str_eq(k.as_str(), key) {
                    Some(&**v)
                } else {
                    (**rest).get(key)
                }
            },
        }
    }

    /// Binds `key` to `value`, replacing an existing member with that key.
    pub fn insert(self, key: String, value: JsonValue) -> (res: Self)
        ensures
            res == fields_insert(self, key, value),
        decreases self,
    {
        match self {
            JsonFields::Nil => JsonFields::Cons(key, Box::new(value), Box::new(JsonFields::Nil)),
            JsonFields::Cons(k, v, rest) => {
                if str_eq(k.as_str(), key.as_str()) {
                    JsonFields::Cons(key, Box::new(value), rest)
                } else {
                    let r = (*rest).insert(key, value);
                    JsonFields::Cons(k, v, Box::new(r))
                }
            },
        }
    }

    /// Inserts every member of `source` (copied), first to last.
    pub fn merge_from(self, source: &JsonFields) -> (res: Self)
        ensures
            res == fields_merge(self, *source),
        decreases source,
    {
        match source {
            JsonFields::Nil => self,
            JsonFields::Cons(k, v, rest) => {
                let next = self.insert(k.clone(), (**v).deep_clone());
                next.merge_from(&**rest)
            },
        }
    }

    /// The number of members.
    pub fn len(&self) -> (res: usize)
        ensures
            res as int == fields_len(*self) || res == usize::MAX,
        decreases self,
    {
        match self {
            JsonFields::Nil => 0,
            JsonFields::Cons(_, _, rest) => {
                let n = (**rest).len();
                if n == usize::MAX {
                    usize::MAX
                } else {
                    n + 1
                }
            },
        }
    }
}

/// The number of members of an object.
pub open spec fn fields_len(f: JsonFields) -> int
    decreases f,
{
    match f {
        JsonFields::Nil => 0,
        JsonFields::Cons(_, _, rest) => 1 + fields_len(*rest),
    }
}

/// `f` with all `(key, value)` pairs of `entries` inserted, first to last.
pub open spec fn insert_all(f: JsonFields, entries: Seq<(String, JsonValue)>) -> JsonFields
    decreases entries.len(),
{
    if entries.len() == 0 {
        f
    } else {
        insert_all(fields_insert(f, entries[0].0, entries[0].1), entries.drop_first())
    }
}

/// A list of the given items, first to last.
pub open spec fn list_of(items: Seq<JsonValue>) -> JsonList
    decreases items.len(),
{
    if items.len() == 0 {
        JsonList::Nil
    } else {
        JsonList::Cons(Box::new(items[0]), Box::new(list_of(items.drop_first())))
    }
}

impl JsonValue {
    /// The JSON string `s`.
    pub fn string(s: &str) -> (res: Self)
        ensures
            res matches JsonValue::String(t) && t@ == s@,
    {
        JsonValue::String(String::from_str(s))
    }

    /// A non-negative JSON integer.
    pub fn from_u64(n: u64) -> (res: Self)
        ensures
            res == JsonValue::Number(JsonNumber::PosInt(n)),
    {
        JsonValue::Number(JsonNumber::PosInt(n))
    }

    /// A JSON integer (stored as serde_json does: non-negative values as unsigned).
    pub fn from_i64(n: i64) -> (res: Self)
        ensures
            n >= 0 ==> res == JsonValue::Number(JsonNumber::PosInt(n as u64)),
            n < 0 ==> res == JsonValue::Number(JsonNumber::NegInt(n)),
    {
        if n >= 0 {
            JsonValue::Number(JsonNumber::PosInt(n as u64))
        } else {
            JsonValue::Number(JsonNumber::NegInt(n))
        }
    }

    /// A JSON object with the given members; a repeated key keeps its last value.
    pub fn object(entries: Vec<(String, JsonValue)>) -> (res: Self)
        ensures
            res == JsonValue::Object(insert_all(JsonFields::Nil, entries@)),
            res matches JsonValue::Object(f) && fields_unique(f),
    {
        let ghost all = entries@;
        let mut rest = entries;
        let mut fields = JsonFields::Nil;
        while rest.len() > 0
            invariant
                insert_all(fields, rest@) == insert_all(JsonFields::Nil, all),
                fields_unique(fields),
            decreases rest.len(),
        {
            let ghost before = rest@;
            let (k, v) = rest.remove(0);
            proof {
                assert(rest@ =~= before.drop_first());
                lemma_insert_unique(fields, k, v);
            }
            fields = fields.insert(k, v);
        }
        JsonValue::Object(fields)
    }

    /// A JSON array with the given items.
    pub fn array(items: Vec<JsonValue>) -> (res: Self)
        ensures
            res == JsonValue::Array(list_of(items@)),
    {
        let mut rest = items;
        let mut list = JsonList::Nil;
        let ghost all = rest@;
        proof {
            assert(rest@ + seq_of_list(list) =~= all);
        }
        while rest.len() > 0
            invariant
                rest@ + seq_of_list(list) == all,
            decreases rest.len(),
        {
            let ghost before = rest@;
            let last = rest.pop().unwrap();
            proof {
                assert(before =~= rest@.push(last));
                assert(rest@ + seq_of_list(JsonList::Cons(Box::new(last), Box::new(list)))
                    =~= before + seq_of_list(list));
                assert(seq_of_list(JsonList::Cons(Box::new(last), Box::new(list))) == seq![last]
                    + seq_of_list(list));
            }
            list = JsonList::Cons(Box::new(last), Box::new(list));
        }
        proof {
            assert(rest@ + seq_of_list(list) =~= seq_of_list(list));
            lemma_list_of_seq(list);
        }
        JsonValue::Array(list)
    }

    /// The value under `key` when this is an object that has it.
    pub fn get(&self, key: &str) -> (res: Option<&JsonValue>)
        ensures
            opt_deref(res) == json_get(*self, key@),
    {
        match self {
            JsonValue::Object(f) => f.get(key),
            _ => None,
        }
    }

    /// The members when this is an object.
    pub fn as_object(&self) -> (res: Option<&JsonFields>)
        ensures
            match *self {
                JsonValue::Object(f) => res == Some(&f),
                _ => res is None,
            },
    {
        match self {
            JsonValue::Object(f) => Some(f),
            _ => None,
        }
    }

    /// Whether this is an object.
    pub fn is_object(&self) -> (res: bool)
        ensures
            res == (*self is Object),
    {
        match self {
            JsonValue::Object(_) => true,
            _ => false,
        }
    }

    /// The text when this is a string.
    pub fn as_str(&self) -> (res: Option<&str>)
        ensures
            match *self {
                JsonValue::String(s) => res matches Some(t) && t@ == s@,
                _ => res is None,
            },
    {
        match self {
            JsonValue::String(s) => Some(s.as_str()),
            _ => None,
        }
    }

    /// The value when this is an integer that fits in `u64`.
    pub fn as_u64(&self) -> (res: Option<u64>)
        ensures
            res == match *self {
                JsonValue::Number(JsonNumber::PosInt(n)) => Some(n),
                _ => None::<u64>,
            },
    {
        match self {
            JsonValue::Number(JsonNumber::PosInt(n)) => Some(*n),
            _ => None,
        }
    }

    /// The value when this is an integer that fits in `i64`.
    pub fn as_i64(&self) -> (res: Option<i64>)
        ensures
            res == match *self {
                JsonValue::Number(JsonNumber::PosInt(n)) => if n <= i64::MAX {
                    Some(n as i64)
                } else {
                    None
                },
                JsonValue::Number(JsonNumber::NegInt(n)) => Some(n),
                _ => None::<i64>,
            },
    {
        match self {
            JsonValue::Number(JsonNumber::PosInt(n)) => {
                if *n <= 0x7fff_ffff_ffff_ffffu64 {
                    Some(*n as i64)
                } else {
                    None
                }
            },
            JsonValue::Number(JsonNumber::NegInt(n)) => Some(*n),
            _ => None,
        }
    }

    /// The value when this is a boolean.
    pub fn as_bool(&self) -> (res: Option<bool>)
        ensures
            res == match *self {
                JsonValue::Bool(b) => Some(b),
                _ => None::<bool>,
            },
    {
        match self {
            JsonValue::Bool(b) => Some(*b),
            _ => None,
        }
    }
}

/// The value under `key` when `v` is an object that has it.
pub open spec fn json_get(v: JsonValue, key: Seq<char>) -> Option<JsonValue> {
    match v {
        JsonValue::Object(f) => fields_get(f, key),
        _ => None,
    }
}

/// The value behind an optional reference.
pub open spec fn opt_deref(o: Option<&JsonValue>) -> Option<JsonValue> {
    match o {
        Some(v) => Some(*v),
        None => None,
    }
}

/// The items of a list, first to last.
pub open spec fn seq_of_list(l: JsonList) -> Seq<JsonValue>
    decreases l,
{
    match l {
        JsonList::Nil => Seq::empty(),
        JsonList::Cons(h, t) => seq![*h] + seq_of_list(*t),
    }
}

/// A list is rebuilt from its items.
pub proof fn lemma_list_of_seq(l: JsonList)
    ensures
        list_of(seq_of_list(l)) == l,
    decreases l,
{
    match l {
        JsonList::Nil => {},
        JsonList::Cons(h, t) => {
            lemma_list_of_seq(*t);
            assert((seq![*h] + seq_of_list(*t)).drop_first() =~= seq_of_list(*t));
        },
    }
}

} // verus!
