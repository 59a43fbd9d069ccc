//! A JSON document model: the values that MCP messages and tool results carry.
//!
//! The gateway reads tool arguments and protocol parameters from JSON and
//! builds JSON results. This module holds such documents as plain data so that
//! the library can state and prove what it reads and what it builds; turning
//! text into documents and back happens at the transport edge.

use vstd::prelude::*;

verus! {

/// A JSON number as the wire format distinguishes it: a non-negative integer,
/// a negative integer, or a floating-point number kept in its decimal text.
#[derive(Debug, Clone, PartialEq, Eq)]
pub enum JsonNumber {
    /// Non-negative integer.
    UInt(u64),
    /// Negative integer.
    Int(i64),
    /// Floating-point number, in its decimal text form.
    Float(String),
}

/// A JSON document.
#[derive(Debug, PartialEq, Eq)]
pub enum Json {
    /// `null`.
    Null,
    /// `true` / `false`.
    Bool(bool),
    /// A number.
    Number(JsonNumber),
    /// A string.
    Str(String),
    /// An array.
    Array(Vec<Json>),
    /// An object, as its entries in order; the first entry of a key is its value.
    Object(Vec<(String, Json)>),
}

/// The mathematical value of a JSON number.
pub enum JsonNumberV {
    UInt(u64),
    Int(i64),
    Float(Seq<char>),
}

/// The mathematical value of a JSON document.
pub enum JsonV {
    Null,
    Bool(bool),
    Number(JsonNumberV),
    Str(Seq<char>),
    Array(Seq<JsonV>),
    Object(Seq<(Seq<char>, JsonV)>),
}

impl View for JsonNumber {
    type V = JsonNumberV;

    open spec fn view(&self) -> JsonNumberV {
        match self {
            JsonNumber::UInt(n) => JsonNumberV::UInt(*n),
            JsonNumber::Int(n) => JsonNumberV::Int(*n),
            JsonNumber::Float(s) => JsonNumberV::Float(s@),
        }
    }
}

/// The value of a document.
pub open spec fn json_view(j: Json) -> JsonV
    decreases j,
{
    match j {
        Json::Null => JsonV::Null,
        Json::Bool(b) => JsonV::Bool(b),
        Json::Number(n) => JsonV::Number(n@),
        Json::Str(s) => JsonV::Str(s@),
        Json::Array(v) => JsonV::Array(array_view(v@)),
        Json::Object(es) => JsonV::Object(entries_view(es@)),
    }
}

/// The values of a sequence of documents.
pub open spec fn array_view(s: Seq<Json>) -> Seq<JsonV>
    decreases s,
{
    if s.len() == 0 {
        Seq::empty()
    } else {
        array_view(s.drop_last()).push(json_view(s.last()))
    }
}

/// The values of a sequence of object entries.
pub open spec fn entries_view(s: Seq<(String, Json)>) -> Seq<(Seq<char>, JsonV)>
    decreases s,
{
    if s.len() == 0 {
        Seq::empty()
    } else {
        entries_view(s.drop_last()).push((s.last().0@, json_view(s.last().1)))
    }
}

impl View for Json {
    type V = JsonV;

    open spec fn view(&self) -> JsonV {
        json_view(*self)
    }
}

/// The value of the first entry named `key`, if any.
pub open spec fn lookup(es: Seq<(Seq<char>, JsonV)>, key: Seq<char>) -> Option<JsonV>
    decreases es.len(),
{
    if es.len() == 0 {
        None
    } else if es[0].0 == key {
        Some(es[0].1)
    } else {
        lookup(es.skip(1), key)
    }
}

impl JsonV {
    /// The member `key` of an object; `None` for other documents.
    pub open spec fn get(self, key: Seq<char>) -> Option<JsonV> {
        match self {
            JsonV::Object(es) => lookup(es, key),
            _ => None,
        }
    }

    /// The text of a string document.
    pub open spec fn as_str(self) -> Option<Seq<char>> {
        match self {
            JsonV::Str(s) => Some(s),
            _ => None,
        }
    }

    /// The value of a boolean document.
    pub open spec fn as_bool(self) -> Option<bool> {
        match self {
            JsonV::Bool(b) => Some(b),
            _ => None,
        }
    }

    /// The value of a non-negative integer document.
    pub open spec fn as_u64(self) -> Option<u64> {
        match self {
            JsonV::Number(JsonNumberV::UInt(n)) => Some(n),
            _ => None,
        }
    }

    /// The text of the string member `key`.
    pub open spec fn str_at(self, key: Seq<char>) -> Option<Seq<char>> {
        match self.get(key) {
            Some(v) => v.as_str(),
            None => None,
        }
    }
}

/// The document of a signed number: non-negative numbers are unsigned.
pub open spec fn int_value(n: i64) -> JsonV {
    if n >= 0 {
        JsonV::Number(JsonNumberV::UInt(n as u64))
    } else {
        JsonV::Number(JsonNumberV::Int(n))
    }
}

/// The number `n`, or `null` without one.
pub open spec fn opt_uint_value(n: Option<u64>) -> JsonV {
    match n {
        Some(n) => JsonV::Number(JsonNumberV::UInt(n)),
        None => JsonV::Null,
    }
}

/// The string documents of a sequence of strings.
pub open spec fn str_values(v: Seq<String>) -> Seq<JsonV> {
    v.map_values(|s: String| JsonV::Str(s@))
}

/// A named entry of an object.
pub fn entry(key: &str, value: Json) -> (r: (String, Json))
    ensures
        r.0@ == key@,
        r.1 == value,
{
    (crate::text::owned(key), value)
}

pub proof fn lemma_array_view(s: Seq<Json>)
    ensures
        array_view(s).len() == s.len(),
        forall|i: int| 0 <= i < s.len() ==> #[trigger] array_view(s)[i] == json_view(s[i]),
    decreases s.len(),
{
    if s.len() > 0 {
        lemma_array_view(s.drop_last());
    }
}

/// The value of an array of documents, element by element.
pub proof fn lemma_array_view_eq(items: Seq<Json>, target: Seq<JsonV>)
    requires
        items.len() == target.len(),
        forall|j: int| 0 <= j < items.len() ==> #[trigger] items[j]@ == target[j],
    ensures
        array_view(items) == target,
{
    lemma_array_view(items);
    assert forall|j: int| 0 <= j < items.len() implies array_view(items)[j] == target[j] by {
        assert(items[j]@ == json_view(items[j]));
    }
    assert(array_view(items) =~= target);
}

pub proof fn lemma_entries_view(s: Seq<(String, Json)>)
    ensures
        entries_view(s).len() == s.len(),
        forall|i: int|
            0 <= i < s.len() ==> #[trigger] entries_view(s)[i] == (s[i].0@, json_view(s[i].1)),
    decreases s.len(),
{
    if s.len() > 0 {
        lemma_entries_view(s.drop_last());
    }
}

proof fn lemma_lookup_skip(es: Seq<(Seq<char>, JsonV)>, key: Seq<char>, i: int)
    requires
        0 <= i <= es.len(),
        forall|j: int| 0 <= j < i ==> es[j].0 != key,
    ensures
        lookup(es, key) == lookup(es.skip(i), key),
    decreases i,
{
    if i > 0 {
        assert(es.skip(1).skip(i - 1) =~= es.skip(i));
        assert forall|j: int| 0 <= j < i - 1 implies es.skip(1)[j].0 != key by {
            assert(es.skip(1)[j] == es[j + 1]);
        }
        assert(es[0].0 != key);
        lemma_lookup_skip(es.skip(1), key, i - 1);
    } else {
        assert(es.skip(0) =~= es);
    }
}

impl Json {
    /// A copy of the document.
    #[verifier::loop_isolation(false)]
    pub fn duplicate(&self) -> (r: Json)
        ensures
            r@ == self@,
        decreases self,
    {
        match self {
            Json::Null => Json::Null,
            Json::Bool(b) => Json::Bool(*b),
            Json::Number(n) => Json::Number(
                match n {
                    JsonNumber::UInt(u) => JsonNumber::UInt(*u),
                    JsonNumber::Int(i) => JsonNumber::Int(*i),
                    JsonNumber::Float(f) => JsonNumber::Float(f.clone()),
                },
            ),
            Json::Str(s) => Json::Str(s.clone()),
            Json::Array(v) => {
                let mut out: Vec<Json> = Vec::new();
                let mut i: usize = 0;
                while i < v.len()
                    invariant
                        i <= v.len(),
                        array_view(out@) == array_view(v@.subrange(0, i as int)),
                    decreases v.len() - i,
                {
                    proof {
                        assert(decreases_to!(*self => v@[i as int]));
                    }
                    let d = v[i].duplicate();
                    let ghost prev = out@;
                    out.push(d);
                    proof {
                        assert(out@.drop_last() =~= prev);
                        assert(v@.subrange(0, i + 1 as int).drop_last() =~= v@.subrange(0, i as int));
                    }
                    i = i + 1;
                }
                proof {
                    assert(v@.subrange(0, v.len() as int) =~= v@);
                }
                Json::Array(out)
            },
            Json::Object(es) => {
                let mut out: Vec<(String, Json)> = Vec::new();
                let mut i: usize = 0;
                while i < es.len()
                    invariant
                        i <= es.len(),
                        entries_view(out@) == entries_view(es@.subrange(0, i as int)),
                    decreases es.len() - i,
                {
                    let k = es[i].0.clone();
                    proof {
                        assert(decreases_to!(*self => es@[i as int].1));
                    }
                    let d = es[i].1.duplicate();
                    let ghost prev = out@;
                    out.push((k, d));
                    proof {
                        assert(out@.drop_last() =~= prev);
                        assert(es@.subrange(0, i + 1 as int).drop_last() =~= es@.subrange(0, i as int));
                    }
                    i = i + 1;
                }
                proof {
                    assert(es@.subrange(0, es.len() as int) =~= es@);
                }
                Json::Object(out)
            },
        }
    }

    /// The member `key` of an object.
    #[verifier::loop_isolation(false)]
    pub fn get(&self, key: &str) -> (r: Option<&Json>)
        ensures
            match r {
                Some(v) => self@.get(key@) == Some(v@),
                None => self@.get(key@) is None,
            },
    {
        match self {
            Json::Object(es) => {
                let ghost ev = entries_view(es@);
                proof {
                    lemma_entries_view(es@);
                }
                let mut i: usize = 0;
                while i < es.len()
                    invariant
                        i <= es.len(),
                        ev == entries_view(es@),
                        ev.len() == es.len(),
                        forall|j: int| 0 <= j < i ==> ev[j].0 != key@,
                        forall|j: int|
                            0 <= j < es.len() ==> #[trigger] ev[j] == (es@[j].0@, json_view(
                                es@[j].1,
                            )),
                    decreases es.len() - i,
                {
                    if crate::text::str_eq(es[i].0.as_str(), key) {
                        proof {
                            lemma_lookup_skip(ev, key@, i as int);
                            assert(ev.skip(i as int)[0] == ev[i as int]);
                            assert(self@ == json_view(*self));
                            assert(json_view(*self) == JsonV::Object(entries_view(es@)));
                        }
                        return Some(&es[i].1);
                    }
                    i = i + 1;
                }
                proof {
                    lemma_lookup_skip(ev, key@, i as int);
                    assert(ev.skip(i as int).len() == 0);
                    assert(self@ == JsonV::Object(ev));
                }
                None
            },
            _ => None,
        }
    }

    /// The text of a string document.
    pub fn as_str(&self) -> (r: Option<&str>)
        ensures
            match r {
                Some(s) => self@.as_str() == Some(s@),
                None => self@.as_str() is None,
            },
    {
        match self {
            Json::Str(s) => Some(s.as_str()),
            _ => None,
        }
    }

    /// The value of a boolean document.
    pub fn as_bool(&self) -> (r: Option<bool>)
        ensures
            r == self@.as_bool(),
    {
        match self {
            Json::Bool(b) => Some(*b),
            _ => None,
        }
    }

    /// The value of a non-negative integer document.
    pub fn as_u64(&self) -> (r: Option<u64>)
        ensures
            r == self@.as_u64(),
    {
        match self {
            Json::Number(JsonNumber::UInt(n)) => Some(*n),
            _ => None,
        }
    }

    /// The elements of an array document.
    pub fn as_array(&self) -> (r: Option<&Vec<Json>>)
        ensures
            match r {
                Some(v) => self@ == JsonV::Array(array_view(v@)),
                None => !(self@ is Array),
            },
    {
        match self {
            Json::Array(v) => Some(v),
            _ => None,
        }
    }

    /// The text of the string member `key`.
    pub fn str_at(&self, key: &str) -> (r: Option<&str>)
        ensures
            match r {
                Some(s) => self@.str_at(key@) == Some(s@),
                None => self@.str_at(key@) is None,
            },
    {
        match self.get(key) {
            Some(v) => v.as_str(),
            None => None,
        }
    }

    /// A string document holding `s`.
    pub fn string(s: &str) -> (r: Json)
        ensures
            r@ == JsonV::Str(s@),
    {
        Json::Str(crate::text::owned(s))
    }

    /// A number document holding `n`.
    pub fn uint(n: u64) -> (r: Json)
        ensures
            r@ == JsonV::Number(JsonNumberV::UInt(n)),
    {
        Json::Number(JsonNumber::UInt(n))
    }

    /// A number document holding `n`.
    pub fn signed(n: i64) -> (r: Json)
        ensures
            r@ == int_value(n),
    {
        if n >= 0 {
            Json::Number(JsonNumber::UInt(n as u64))
        } else {
            Json::Number(JsonNumber::Int(n))
        }
    }

    /// The number `n`, or `null` without one.
    pub fn opt_uint(n: Option<u64>) -> (r: Json)
        ensures
            r@ == opt_uint_value(n),
    {
        match n {
            Some(n) => Json::Number(JsonNumber::UInt(n)),
            None => Json::Null,
        }
    }

    /// The text `s`, or `null` without one.
    pub fn opt_string(s: Option<&str>) -> (r: Json)
        ensures
            r@ == (match s {
                Some(t) => JsonV::Str(t@),
                None => JsonV::Null,
            }),
    {
        match s {
            Some(t) => Json::string(t),
            None => Json::Null,
        }
    }

    /// An array of the texts of `v`, in order.
    pub fn strings(v: &Vec<String>) -> (r: Json)
        ensures
            r@ == JsonV::Array(str_values(v@)),
    {
        let mut items: Vec<Json> = Vec::new();
        let mut i: usize = 0;
        while i < v.len()
            invariant
                i <= v.len(),
                items.len() == i,
                forall|j: int| 0 <= j < i ==> #[trigger] json_view(items@[j]) == JsonV::Str(v@[j]@),
            decreases v.len() - i,
        {
            items.push(Json::Str(v[i].clone()));
            i = i + 1;
        }
        proof {
            lemma_array_view(items@);
            assert(array_view(items@) =~= str_values(v@));
        }
        Json::Array(items)
    }

    /// An object document with the given entries, in order.
    pub fn object(entries: Vec<(String, Json)>) -> (r: Json)
        ensures
            r@ == JsonV::Object(entries_view(entries@)),
    {
        Json::Object(entries)
    }
}

} // verus!
