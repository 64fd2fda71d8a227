use vstd::prelude::*;
use vstd::string::StringExecFns;
use crate::json::{Json, JsonList, JsonV, lookup};

verus! {

/// The canonical form of an API response: every reply, whatever its wire
/// shape, is reduced to a status code, a message and a payload. A status
/// code of zero is the only success value.
pub struct Envelope {
    pub code: i64,
    pub message: String,
    pub payload: Json,
}

/// The mathematical shape of an envelope.
pub struct EnvelopeV {
    pub code: int,
    pub message: Seq<char>,
    pub payload: JsonV,
}

impl View for Envelope {
    type V = EnvelopeV;

    open spec fn view(&self) -> EnvelopeV {
        EnvelopeV { code: self.code as int, message: self.message@, payload: self.payload@ }
    }
}

/// Why a syntactically valid JSON body still failed normalization.
#[derive(Debug)]
pub enum ShapeError {
    /// The body was a result array with no elements.
    EmptyResultSet,
    /// The body matched neither accepted wire shape.
    Unrecognized,
}

/// The envelope carried by an object-shaped body `{code, message, data}`:
/// `code` must be an integer, `message` a string, and `data` present.
pub open spec fn envelope_of(j: JsonV) -> Option<EnvelopeV> {
    match j {
        JsonV::Obj(entries) => match (
            lookup(entries, "code"@),
            lookup(entries, "message"@),
            lookup(entries, "data"@),
        ) {
            (Some(JsonV::Int(c)), Some(JsonV::Str(m)), Some(d)) => Some(
                EnvelopeV { code: c, message: m, payload: d },
            ),
            _ => None,
        },
        _ => None,
    }
}

/// The envelope inside one element of an array-shaped body: the element must
/// be an object `{id, result}` with an integer `id` and an envelope-shaped
/// `result`; the envelope is the `result` member.
pub open spec fn tagged_result(j: JsonV) -> Option<JsonV> {
    match j {
        JsonV::Obj(entries) => match (lookup(entries, "id"@), lookup(entries, "result"@)) {
            (Some(JsonV::Int(_)), Some(r)) => if envelope_of(r) is Some {
                Some(r)
            } else {
                None
            },
            _ => None,
        },
        _ => None,
    }
}

/// Whether every element of an array-shaped body is a well-formed tagged
/// result; only then does the array shape parse.
pub open spec fn all_tagged(items: Seq<JsonV>) -> bool {
    forall|i: int| 0 <= i < items.len() ==> tagged_result(#[trigger] items[i]) is Some
}

/// What normalization makes of a parsed body.
pub enum NormV {
    Env(EnvelopeV),
    EmptyResultSet,
    Unrecognized,
}

/// Normalization of a parsed body. The array shape is tried first: a
/// well-formed non-empty result array yields its first element's envelope,
/// an empty result array always fails, and anything else is accepted only
/// if it is an object-shaped envelope itself.
pub open spec fn norm_spec(j: JsonV) -> NormV {
    match j {
        JsonV::Arr(items) => if items.len() == 0 {
            NormV::EmptyResultSet
        } else if all_tagged(items) {
            match tagged_result(items[0]) {
                Some(r) => match envelope_of(r) {
                    Some(e) => NormV::Env(e),
                    None => NormV::Unrecognized,
                },
                None => NormV::Unrecognized,
            }
        } else {
            NormV::Unrecognized
        },
        _ => match envelope_of(j) {
            Some(e) => NormV::Env(e),
            None => NormV::Unrecognized,
        },
    }
}

/// The envelope of an object-shaped body, as executable code.
fn extract_envelope(j: &Json) -> (r: Option<Envelope>)
    ensures
        match r {
            Some(e) => envelope_of(j@) == Some(e@),
            None => envelope_of(j@) is None,
        },
{
    match j {
        Json::Obj(fields) => {
            let code_key = String::from_str("code");
            let message_key = String::from_str("message");
            let data_key = String::from_str("data");
            match (fields.get(&code_key), fields.get(&message_key), fields.get(&data_key)) {
                (Some(Json::Int(c)), Some(Json::Str(m)), Some(d)) => Some(
                    Envelope { code: *c, message: m.clone(), payload: d.deep_clone() },
                ),
                _ => None,
            }
        },
        _ => None,
    }
}

/// The envelope inside one tagged array element, as executable code.
fn extract_tagged(item: &Json) -> (r: Option<Envelope>)
    ensures
        match r {
            Some(e) => tagged_result(item@) matches Some(rr) && envelope_of(rr) == Some(e@),
            None => tagged_result(item@) is None,
        },
{
    match item {
        Json::Obj(fields) => {
            let id_key = String::from_str("id");
            let result_key = String::from_str("result");
            match (fields.get(&id_key), fields.get(&result_key)) {
                (Some(Json::Int(_)), Some(result)) => extract_envelope(result),
                _ => None,
            }
        },
        _ => None,
    }
}

/// Whether every element of the list is a well-formed tagged result.
fn all_tagged_exec(items: &JsonList) -> (r: bool)
    ensures
        r == all_tagged(items.elems()),
    decreases items,
{
    match items {
        JsonList::Nil => {
            proof {
                assert(items.elems() == Seq::<JsonV>::empty());
            }
            true
        },
        JsonList::Cons(head, tail) => {
            proof {
                assert(items.elems() == seq![head@] + tail.elems());
            }
            let head_ok = match extract_tagged(head) {
                Some(_) => true,
                None => false,
            };
            if !head_ok {
                proof {
                    assert(items.elems()[0] == head@);
                }
                false
            } else {
                let rest = all_tagged_exec(tail);
                proof {
                    if rest {
                        assert forall|i: int| 0 <= i < items.elems().len() implies tagged_result(
                            #[trigger] items.elems()[i],
                        ) is Some by {
                            if i > 0 {
                                assert(items.elems()[i] == tail.elems()[i - 1]);
                            }
                        }
                    } else {
                        let j = choose|j: int|
                            0 <= j < tail.elems().len() && !(tagged_result(
                                #[trigger] tail.elems()[j],
                            ) is Some);
                        assert(items.elems()[j + 1] == tail.elems()[j]);
                    }
                }
                rest
            }
        },
    }
}

/// Normalizes a parsed body into the canonical envelope, accepting either
/// wire shape: a non-empty array of tagged results yields its first
/// element's envelope; an empty array always fails; any other body must be
/// an object-shaped envelope itself.
pub fn normalize(j: &Json) -> (r: Result<Envelope, ShapeError>)
    ensures
        match r {
            Ok(env) => norm_spec(j@) == NormV::Env(env@),
            Err(ShapeError::EmptyResultSet) => norm_spec(j@) is EmptyResultSet,
            Err(ShapeError::Unrecognized) => norm_spec(j@) is Unrecognized,
        },
{
    match j {
        Json::Arr(items) => {
            if items.is_empty() {
                Err(ShapeError::EmptyResultSet)
            } else if !all_tagged_exec(items) {
                Err(ShapeError::Unrecognized)
            } else {
                match &**items {
                    JsonList::Nil => Err(ShapeError::EmptyResultSet),
                    JsonList::Cons(first, tail) => {
                        proof {
                            assert(items.elems() == seq![first@] + tail.elems());
                            assert(items.elems()[0] == first@);
                        }
                        match extract_tagged(first) {
                            Some(env) => Ok(env),
                            None => Err(ShapeError::Unrecognized),
                        }
                    },
                }
            }
        },
        _ => match extract_envelope(j) {
            Some(env) => Ok(env),
            None => Err(ShapeError::Unrecognized),
        },
    }
}

/// Law: an object-shaped envelope and a single-element result array that
/// carries the same envelope under any tag normalize to the same result.
pub proof fn lemma_shape_equivalence(obj: JsonV, id: int)
    requires
        envelope_of(obj) is Some,
    ensures
        norm_spec(JsonV::Arr(seq![JsonV::Obj(seq![("id"@, JsonV::Int(id)), ("result"@, obj)])]))
            == norm_spec(obj),
{
    reveal_strlit("id");
    reveal_strlit("result");
    let entries = seq![("id"@, JsonV::Int(id)), ("result"@, obj)];
    let item = JsonV::Obj(entries);
    let items = seq![item];
    assert(lookup(entries, "id"@) == Some(JsonV::Int(id)));
    assert(("id"@).len() != ("result"@).len());
    assert(entries.drop_first() =~= seq![("result"@, obj)]);
    assert(lookup(seq![("result"@, obj)], "result"@) == Some(obj));
    assert(lookup(entries, "result"@) == Some(obj));
    assert(tagged_result(item) == Some(obj));
    assert(all_tagged(items));
}

/// Law: a result array with no elements always fails normalization with
/// the empty-result-set error, whatever surrounded it.
pub proof fn lemma_empty_array_fails(items: Seq<JsonV>)
    requires
        items.len() == 0,
    ensures
        norm_spec(JsonV::Arr(items)) is EmptyResultSet,
{
}

} // verus!
