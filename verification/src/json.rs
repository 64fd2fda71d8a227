use vstd::prelude::*;

verus! {

/// A parsed JSON document, modelled to the detail the protocol reads.
/// Numbers that do not fit an `i64` are kept only as the marker `NonInt`,
/// since the protocol never interprets non-integer numbers.
pub enum Json {
    Null,
    Bool(bool),
    Int(i64),
    NonInt,
    Str(String),
    Arr(Box<JsonList>),
    Obj(Box<JsonFields>),
}

/// The elements of a JSON array.
pub enum JsonList {
    Nil,
    Cons(Json, Box<JsonList>),
}

/// The key/value entries of a JSON object, in the order they were built;
/// the value of a key is decided by its first entry.
pub enum JsonFields {
    Nil,
    Cons(String, Json, Box<JsonFields>),
}

/// The mathematical shape of a JSON document.
pub enum JsonV {
    Null,
    Bool(bool),
    Int(int),
    NonInt,
    Str(Seq<char>),
    Arr(Seq<JsonV>),
    Obj(Seq<(Seq<char>, JsonV)>),
}

impl View for Json {
    type V = JsonV;

    open spec fn view(&self) -> JsonV
        decreases self,
    {
        match self {
            Json::Null => JsonV::Null,
            Json::Bool(b) => JsonV::Bool(*b),
            Json::Int(n) => JsonV::Int(*n as int),
            Json::NonInt => JsonV::NonInt,
            Json::Str(s) => JsonV::Str(s@),
            Json::Arr(items) => JsonV::Arr(items.elems()),
            Json::Obj(fields) => JsonV::Obj(fields.entries()),
        }
    }
}

impl JsonList {
    /// The elements as a sequence of abstract JSON values.
    pub open spec fn elems(&self) -> Seq<JsonV>
        decreases self,
    {
        match self {
            JsonList::Nil => Seq::empty(),
            JsonList::Cons(head, tail) => seq![head@] + tail.elems(),
        }
    }
}

impl JsonFields {
    /// The entries as a sequence of abstract key/value pairs.
    pub open spec fn entries(&self) -> Seq<(Seq<char>, JsonV)>
        decreases self,
    {
        match self {
            JsonFields::Nil => Seq::empty(),
            JsonFields::Cons(key, value, tail) => seq![(key@, value@)] + tail.entries(),
        }
    }
}

/// The value bound to `key` in an object's entry sequence: the first entry
/// whose key matches, or `None` if no entry matches.
pub open spec fn lookup(entries: Seq<(Seq<char>, JsonV)>, key: Seq<char>) -> Option<JsonV>
    decreases entries.len(),
{
    if entries.len() == 0 {
        None
    } else if entries[0].0 == key {
        Some(entries[0].1)
    } else {
        lookup(entries.drop_first(), key)
    }
}

impl Json {
    /// A structurally identical copy of the document.
    pub fn deep_clone(&self) -> (r: Json)
        ensures
            r@ == self@,
        decreases self,
    {
        match self {
            Json::Null => Json::Null,
            Json::Bool(b) => Json::Bool(*b),
            Json::Int(n) => Json::Int(*n),
            Json::NonInt => Json::NonInt,
            Json::Str(s) => Json::Str(s.clone()),
            Json::Arr(items) => Json::Arr(Box::new(items.deep_clone())),
            Json::Obj(fields) => Json::Obj(Box::new(fields.deep_clone())),
        }
    }
}

impl JsonList {
    /// A structurally identical copy of the element list.
    pub fn deep_clone(&self) -> (r: JsonList)
        ensures
            r.elems() == self.elems(),
        decreases self,
    {
        match self {
            JsonList::Nil => JsonList::Nil,
            JsonList::Cons(head, tail) => JsonList::Cons(
                head.deep_clone(),
                Box::new(tail.deep_clone()),
            ),
        }
    }

    /// Whether the list has no elements.
    pub fn is_empty(&self) -> (r: bool)
        ensures
            r == (self.elems().len() == 0),
    {
        match self {
            JsonList::Nil => true,
            JsonList::Cons(head, tail) => {
                proof {
                    assert(self.elems() == seq![head@] + tail.elems());
                }
                false
            },
        }
    }
}

impl JsonFields {
    /// A structurally identical copy of the entry list.
    pub fn deep_clone(&self) -> (r: JsonFields)
        ensures
            r.entries() == self.entries(),
        decreases self,
    {
        match self {
            JsonFields::Nil => JsonFields::Nil,
            JsonFields::Cons(key, value, tail) => JsonFields::Cons(
                key.clone(),
                value.deep_clone(),
                Box::new(tail.deep_clone()),
            ),
        }
    }

    /// The value bound to `key`: the first entry whose key matches.
    pub fn get<'a>(&'a self, key: &String) -> (r: Option<&'a Json>)
        ensures
            match r {
                Some(v) => lookup(self.entries(), key@) == Some(v@),
                None => lookup(self.entries(), key@) is None,
            },
        decreases self,
    {
        match self {
            JsonFields::Nil => None,
            JsonFields::Cons(k, v, tail) => {
                proof {
                    assert(self.entries() == seq![(k@, v@)] + tail.entries());
                    assert(self.entries().drop_first() =~= tail.entries());
                }
                if *k == *key {
                    proof {
                        assert(self.entries()[0] == (k@, v@));
                    }
                    Some(v)
                } else {
                    tail.get(key)
                }
            },
        }
    }
}

/// What `serde_json` makes of a piece of text: the parsed document under this
/// crate's model, or `None` where the text is not valid JSON. The parse result
/// depends on the text alone.
pub uninterp spec fn json_parse(s: Seq<char>) -> Option<JsonV>;

/// Relies on `serde_json::from_str::<serde_json::Value>`: the text either
/// parses to a JSON document or yields an error carrying the parser's message.
#[verifier::external_body]
pub(crate) fn parse_json(s: &str) -> (r: Result<Json, String>)
    ensures
        r matches Ok(j) ==> json_parse(s@) == Some(j@),
        r is Err ==> json_parse(s@) is None,
{
    match serde_json::from_str::<serde_json::Value>(s) {
        Ok(v) => Ok(value_to_json(v)),
        Err(e) => Err(e.to_string()),
    }
}

/// `serde_json`'s own document type, opaque to this crate; it is only carried
/// from the parser into the conversion below.
#[verifier::external_type_specification]
#[verifier::external_body]
pub struct ExValue(serde_json::Value);

/// `serde_json`'s object type, opaque to this crate; it is only carried
/// from the parser into the conversion below.
#[verifier::external_type_specification]
#[verifier::external_body]
#[verifier::reject_recursive_types(K)]
#[verifier::reject_recursive_types(V)]
pub struct ExJsonMap<K, V>(serde_json::Map<K, V>);

/// Relies on the shape of `serde_json::Value`: rebuilds the document under
/// this crate's model, variant for variant.
#[verifier::external_body]
fn value_to_json(v: serde_json::Value) -> Json {
    match v {
        serde_json::Value::Null => Json::Null,
        serde_json::Value::Bool(b) => Json::Bool(b),
        serde_json::Value::Number(n) => n.as_i64().map_or(Json::NonInt, Json::Int),
        serde_json::Value::String(s) => Json::Str(s),
        serde_json::Value::Array(items) => Json::Arr(Box::new(values_to_list(items))),
        serde_json::Value::Object(map) => Json::Obj(Box::new(map_to_fields(map))),
    }
}

/// Relies on the shape of `serde_json::Value`: rebuilds an array's elements
/// in order.
#[verifier::external_body]
fn values_to_list(items: Vec<serde_json::Value>) -> JsonList {
    items.into_iter().rev().fold(JsonList::Nil, |tail, item| {
        JsonList::Cons(value_to_json(item), Box::new(tail))
    })
}

/// Relies on the shape of `serde_json::Map`: rebuilds an object's entries
/// in the order the map hands them out.
#[verifier::external_body]
fn map_to_fields(map: serde_json::Map<String, serde_json::Value>) -> JsonFields {
    map.into_iter().rev().fold(JsonFields::Nil, |tail, (key, item)| {
        JsonFields::Cons(key, value_to_json(item), Box::new(tail))
    })
}

} // verus!
