use vstd::prelude::*;

verus! {

#[verifier::external_type_specification]
#[verifier::external_body]
pub struct ExJsonValue(serde_json::Value);

#[verifier::external_type_specification]
#[verifier::external_body]
pub struct ExJsonNumber(serde_json::Number);

/// A JSON value as read from a body. Numbers stay as `serde_json` holds them;
/// an object lists its members in the order of the map that held them, each
/// key once.
pub enum Json {
    Null,
    Bool(bool),
    Number(serde_json::Number),
    Text(String),
    Array(Vec<Json>),
    Object(Vec<(String, Json)>),
}

/// What `serde_json::from_slice` reads from `body` as a JSON value, or the
/// description of the error on which it rejects the body.
pub uninterp spec fn json_of(body: Seq<u8>) -> Result<Json, Seq<char>>;

/// Relies on the variants of `serde_json::Value`: each becomes the `Json`
/// variant of the same name, its contents moved over.
#[verifier::external_body]
fn model_of(v: serde_json::Value) -> Json {
    match v {
        serde_json::Value::Null => Json::Null,
        serde_json::Value::Bool(b) => Json::Bool(b),
        serde_json::Value::Number(n) => Json::Number(n),
        serde_json::Value::String(s) => Json::Text(s),
        serde_json::Value::Array(a) => Json::Array(a.into_iter().map(model_of).collect()),
        serde_json::Value::Object(o) => Json::Object(
            o.into_iter().map(|(k, x)| (k, model_of(x))).collect(),
        ),
    }
}

/// Relies on `serde_json::from_slice` into `serde_json::Value`, with the
/// `Display` of its error: what it reads from `body`, a function of the bytes.
#[verifier::external_body]
pub(crate) fn parse_json(body: &[u8]) -> (r: Result<Json, String>)
    ensures
        match r {
            Ok(doc) => json_of(body@) == Ok::<Json, Seq<char>>(doc),
            Err(m) => json_of(body@) == Err::<Json, Seq<char>>(m@),
        },
{
    match serde_json::from_slice::<serde_json::Value>(body) {
        Ok(v) => Ok(model_of(v)),
        Err(e) => Err(e.to_string()),
    }
}

/// The value of the first member of `fields` whose key is `key`.
pub open spec fn lookup(fields: Seq<(String, Json)>, key: Seq<char>) -> Option<Json>
    decreases fields.len(),
{
    if fields.len() == 0 {
        None
    } else if fields[0].0@ == key {
        Some(fields[0].1)
    } else {
        lookup(fields.drop_first(), key)
    }
}

/// The position of the member that `lookup` finds, if any.
pub(crate) fn find_member(fields: &Vec<(String, Json)>, key: &String) -> (r: Option<usize>)
    ensures
        match r {
            Some(i) => i < fields@.len() && lookup(fields@, key@) == Some(fields@[i as int].1),
            None => lookup(fields@, key@) is None,
        },
{
    let mut i: usize = 0;
    assert(fields@.subrange(0, fields@.len() as int) =~= fields@);
    while i < fields.len()
        invariant
            i <= fields@.len(),
            lookup(fields@, key@) == lookup(fields@.subrange(i as int, fields@.len() as int), key@),
        decreases fields@.len() - i,
    {
        let ghost rest = fields@.subrange(i as int, fields@.len() as int);
        if fields[i].0.eq(key) {
            assert(rest[0] == fields@[i as int]);
            return Some(i);
        }
        assert(rest.drop_first() =~= fields@.subrange(i + 1, fields@.len() as int));
        i += 1;
    }
    assert(fields@.subrange(i as int, fields@.len() as int).len() == 0);
    None
}

} // verus!
