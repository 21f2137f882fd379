//! A JSON document as the library reads it: the shape of a parsed reply,
//! with the accessors the services' answers are read through.

use vstd::prelude::*;

verus! {

/// A JSON number, in the three shapes a parsed document gives.
pub enum Number {
    /// An integer that fits in `u64`.
    UInt(u64),
    /// A negative integer that fits in `i64`.
    NegInt(i64),
    /// Any other number (fractional or too large), kept as its text.
    Other(String),
}

/// A JSON value. An object keeps its members in order; a parsed document
/// never holds a key twice, and a lookup answers the first member with the key.
pub enum Json {
    Null,
    Bool(bool),
    Number(Number),
    Str(String),
    Array(Vec<Json>),
    Object(Vec<(String, Json)>),
}

/// The value of the first member of `fields` whose key is `key`.
pub open spec fn lookup_in(fields: Seq<(String, Json)>, key: Seq<char>) -> Option<Json>
    decreases fields.len(),
{
    if fields.len() == 0 {
        None
    } else if fields[0].0@ == key {
        Some(fields[0].1)
    } else {
        lookup_in(fields.drop_first(), key)
    }
}

/// A reference answer read as an optional value.
pub open spec fn deref_opt(o: Option<&Json>) -> Option<Json> {
    match o {
        Some(v) => Some(*v),
        None => None,
    }
}

/// An optional string read as its characters.
pub open spec fn opt_chars(o: Option<&String>) -> Option<Seq<char>> {
    match o {
        Some(s) => Some(s@),
        None => None,
    }
}

impl Json {
    /// `get(key)`: the member named `key` of an object; nothing for any other value.
    pub open spec fn lookup(self, key: Seq<char>) -> Option<Json> {
        match self {
            Json::Object(fields) => lookup_in(fields@, key),
            _ => None,
        }
    }

    /// `self[key]`: the member named `key`, or `Null` where there is none.
    pub open spec fn field(self, key: Seq<char>) -> Json {
        match self.lookup(key) {
            Some(v) => v,
            None => Json::Null,
        }
    }

    /// `get(i)`: the `i`-th element of an array; nothing for any other value.
    pub open spec fn element(self, i: int) -> Option<Json> {
        match self {
            Json::Array(items) => if 0 <= i < items@.len() {
                Some(items@[i])
            } else {
                None
            },
            _ => None,
        }
    }

    /// `self[i]`: the `i`-th element, or `Null` where there is none.
    pub open spec fn at(self, i: int) -> Json {
        match self.element(i) {
            Some(v) => v,
            None => Json::Null,
        }
    }

    /// `as_str()`: the characters of a string value.
    pub open spec fn text(self) -> Option<Seq<char>> {
        match self {
            Json::Str(s) => Some(s@),
            _ => None,
        }
    }

    /// `as_array()`: the elements of an array value.
    pub open spec fn items(self) -> Option<Seq<Json>> {
        match self {
            Json::Array(items) => Some(items@),
            _ => None,
        }
    }

    /// `as_u64()`: a number that is an integer in the range of `u64`.
    pub open spec fn unsigned(self) -> Option<u64> {
        match self {
            Json::Number(Number::UInt(n)) => Some(n),
            _ => None,
        }
    }

    /// `as_str().unwrap_or("")`: the characters of a string value, or none.
    pub open spec fn text_or_empty(self) -> Seq<char> {
        match self.text() {
            Some(s) => s,
            None => Seq::empty(),
        }
    }

    /// Answers `get(key)`.
    pub fn get(&self, key: &String) -> (r: Option<&Json>)
        ensures
            deref_opt(r) == self.lookup(key@),
    {
        match self {
            Json::Object(fields) => {
                let mut i: usize = 0;
                proof {
                    assert(fields@.skip(0) =~= fields@);
                }
                while i < fields.len()
                    invariant
                        i <= fields@.len(),
                        self.lookup(key@) == lookup_in(fields@, key@),
                        lookup_in(fields@, key@) == lookup_in(fields@.skip(i as int), key@),
                    decreases fields@.len() - i,
                {
                    proof {
                        assert(fields@.skip(i as int).drop_first() =~= fields@.skip(i + 1));
                        assert(fields@.skip(i as int)[0] == fields@[i as int]);
                    }
                    if fields[i].0 == *key {
                        return Some(&fields[i].1);
                    }
                    i = i + 1;
                }
                None
            },
            _ => None,
        }
    }

    /// Answers `get(i)` on an array.
    pub fn get_index(&self, i: usize) -> (r: Option<&Json>)
        ensures
            deref_opt(r) == self.element(i as int),
    {
        match self {
            Json::Array(items) => {
                if i < items.len() {
                    Some(&items[i])
                } else {
                    None
                }
            },
            _ => None,
        }
    }

    /// Answers `as_str()`.
    pub fn as_str(&self) -> (r: Option<&String>)
        ensures
            opt_chars(r) == self.text(),
    {
        match self {
            Json::Str(s) => Some(s),
            _ => None,
        }
    }

    /// Answers `as_array()`.
    pub fn as_array(&self) -> (r: Option<&Vec<Json>>)
        ensures
            match r {
                Some(v) => self.items() == Some(v@),
                None => self.items() is None,
            },
    {
        match self {
            Json::Array(items) => Some(items),
            _ => None,
        }
    }

    /// Answers `as_u64()`.
    pub fn as_u64(&self) -> (r: Option<u64>)
        ensures
            r == self.unsigned(),
    {
        match self {
            Json::Number(Number::UInt(n)) => Some(*n),
            _ => None,
        }
    }
}

/// An absent value read as `Null`, as indexing a `serde_json::Value` reads it.
pub open spec fn or_null(o: Option<Json>) -> Json {
    match o {
        Some(v) => v,
        None => Json::Null,
    }
}

/// Answers `value[key]`; nothing stands for `Null`.
pub fn member<'a>(value: Option<&'a Json>, key: &String) -> (r: Option<&'a Json>)
    ensures
        or_null(deref_opt(r)) == or_null(deref_opt(value)).field(key@),
{
    match value {
        Some(v) => v.get(key),
        None => None,
    }
}

/// Answers `value[i]`; nothing stands for `Null`.
pub fn nth<'a>(value: Option<&'a Json>, i: usize) -> (r: Option<&'a Json>)
    ensures
        or_null(deref_opt(r)) == or_null(deref_opt(value)).at(i as int),
{
    match value {
        Some(v) => v.get_index(i),
        None => None,
    }
}

/// Answers `value.as_str().unwrap_or("")`.
pub fn text_or_empty(value: Option<&Json>) -> (r: String)
    ensures
        r@ == or_null(deref_opt(value)).text_or_empty(),
{
    match value {
        Some(v) => match v.as_str() {
            Some(s) => s.clone(),
            None => String::new(),
        },
        None => String::new(),
    }
}

/// The key `k` as an owned string.
pub fn key(k: &str) -> (r: String)
    ensures
        r@ == k@,
{
    String::from_str(k)
}

} // verus!
