//! A model of the JSON documents exchanged with the bridge.
//!
//! `Json` is the executable tree and `JsonVal` its mathematical shape. The
//! bridge's wire format never carries numbers, so the model leaves them out:
//! a payload holding one fails to parse, which the callers report as a decode
//! failure. Parsing and serialising are done by serde_json behind two trusted
//! wrappers; everything that reads or builds a tree is verified.

use vstd::prelude::*;
use vstd::string::StringExecFns;

verus! {

/// The abstract shape of a JSON document, as the specifications see it.
pub enum JsonVal {
    Null,
    Bool(bool),
    Str(Seq<char>),
    Arr(Seq<JsonVal>),
    Obj(Seq<(Seq<char>, JsonVal)>),
}

/// A JSON document as executable code holds it. Object fields keep the order
/// in which they were built.
pub enum Json {
    Null,
    Bool(bool),
    Str(String),
    Arr(Vec<Json>),
    Obj(Vec<(String, Json)>),
}

/// The shape of a document: object fields keep their order, strings become
/// their character sequences.
pub open spec fn json_view(j: Json) -> JsonVal
    decreases j,
{
    match j {
        Json::Null => JsonVal::Null,
        Json::Bool(b) => JsonVal::Bool(b),
        Json::Str(s) => JsonVal::Str(s@),
        Json::Arr(items) => JsonVal::Arr(
            Seq::new(
                items@.len(),
                |i: int|
                    if 0 <= i < items@.len() {
                        json_view(items@[i])
                    } else {
                        JsonVal::Null
                    },
            ),
        ),
        Json::Obj(fields) => JsonVal::Obj(
            Seq::new(
                fields@.len(),
                |i: int|
                    if 0 <= i < fields@.len() {
                        (fields@[i].0@, json_view(fields@[i].1))
                    } else {
                        (Seq::empty(), JsonVal::Null)
                    },
            ),
        ),
    }
}

impl View for Json {
    type V = JsonVal;

    open spec fn view(&self) -> JsonVal {
        json_view(*self)
    }
}

/// The value of the first field with the given key, if any.
pub open spec fn lookup(fields: Seq<(Seq<char>, JsonVal)>, key: Seq<char>) -> Option<JsonVal>
    decreases fields.len(),
{
    if fields.len() == 0 {
        None
    } else if fields[0].0 == key {
        Some(fields[0].1)
    } else {
        lookup(fields.skip(1), key)
    }
}

/// Field lookup on a document: `None` on anything that is not an object.
pub open spec fn obj_lookup(j: JsonVal, key: Seq<char>) -> Option<JsonVal> {
    match j {
        JsonVal::Obj(fields) => lookup(fields, key),
        _ => None,
    }
}

proof fn lemma_lookup_found(fields: Seq<(Seq<char>, JsonVal)>, key: Seq<char>, i: int)
    requires
        0 <= i < fields.len(),
        fields[i].0 == key,
        forall|k: int| 0 <= k < i ==> fields[k].0 != key,
    ensures
        lookup(fields, key) == Some(fields[i].1),
    decreases i,
{
    if i > 0 {
        assert(fields.skip(1)[i - 1] == fields[i]);
        assert(forall|k: int| 0 <= k < i - 1 ==> fields.skip(1)[k] == fields[k + 1]);
        lemma_lookup_found(fields.skip(1), key, i - 1);
    }
}

proof fn lemma_lookup_absent(fields: Seq<(Seq<char>, JsonVal)>, key: Seq<char>)
    requires
        forall|k: int| 0 <= k < fields.len() ==> fields[k].0 != key,
    ensures
        lookup(fields, key) is None,
    decreases fields.len(),
{
    if fields.len() > 0 {
        assert(forall|k: int| 0 <= k < fields.len() - 1 ==> fields.skip(1)[k] == fields[k + 1]);
        lemma_lookup_absent(fields.skip(1), key);
    }
}

impl Json {
    /// The value of the first field with the given key, by reference;
    /// `None` when this is not an object or no field has the key.
    #[verifier::loop_isolation(false)]
    pub fn get<'a>(&'a self, key: &str) -> (r: Option<&'a Json>)
        ensures
            match r {
                Some(v) => obj_lookup(self@, key@) == Some(v@),
                None => obj_lookup(self@, key@) is None,
            },
    {
        match self {
            Json::Obj(fields) => {
                let key_owned = String::from_str(key);
                let n = fields.len();
                let mut i: usize = 0;
                while i < n
                    invariant
                        i <= n,
                        forall|k: int| 0 <= k < i ==> self@->Obj_0[k].0 != key@,
                    decreases n - i,
                {
                    if fields[i].0 == key_owned {
                        proof {
                            lemma_lookup_found(self@->Obj_0, key@, i as int);
                        }
                        return Some(&fields[i].1);
                    }
                    i += 1;
                }
                proof {
                    lemma_lookup_absent(self@->Obj_0, key@);
                }
                None
            },
            _ => None,
        }
    }

    /// Like `get`, but takes the document apart and hands the value out by
    /// ownership.
    #[verifier::loop_isolation(false)]
    pub fn take_field(self, key: &str) -> (r: Option<Json>)
        ensures
            match r {
                Some(v) => obj_lookup(self@, key@) == Some(v@),
                None => obj_lookup(self@, key@) is None,
            },
    {
        let ghost whole = self@;
        match self {
            Json::Obj(mut fields) => {
                let ghost fs = whole->Obj_0;
                let key_owned = String::from_str(key);
                let n = fields.len();
                let mut i: usize = 0;
                while i < n
                    invariant
                        i <= n,
                        n == fields@.len(),
                        fs == Seq::new(fields@.len(), |k: int| (fields@[k].0@, json_view(fields@[k].1))),
                        forall|k: int| 0 <= k < i ==> fs[k].0 != key@,
                    decreases n - i,
                {
                    if fields[i].0 == key_owned {
                        proof {
                            lemma_lookup_found(fs, key@, i as int);
                        }
                        let pair = fields.remove(i);
                        return Some(pair.1);
                    }
                    i += 1;
                }
                proof {
                    lemma_lookup_absent(fs, key@);
                }
                None
            },
            _ => None,
        }
    }
}

/// A document whose objects all have strictly ascending keys (by code point),
/// at every level. Serialising such a document and parsing the bytes back
/// gives the document itself.
pub open spec fn canonical(j: JsonVal) -> bool
    decreases j,
{
    match j {
        JsonVal::Null => true,
        JsonVal::Bool(_) => true,
        JsonVal::Str(_) => true,
        JsonVal::Arr(items) => forall|i: int|
            0 <= i < items.len() ==> canonical(#[trigger] items[i]),
        JsonVal::Obj(fields) => {
            &&& forall|i: int|
                #![trigger fields[i]]
                0 <= i && i + 1 < fields.len() ==> chars_lt(fields[i].0, fields[i + 1].0)
            &&& forall|i: int| 0 <= i < fields.len() ==> canonical((#[trigger] fields[i]).1)
        },
    }
}

/// Strict lexicographic order on character sequences, by code point. On the
/// ASCII keys this library uses it agrees with the byte order in which
/// serde_json's map keeps its keys.
pub open spec fn chars_lt(a: Seq<char>, b: Seq<char>) -> bool
    decreases a.len(),
{
    if b.len() == 0 {
        false
    } else if a.len() == 0 {
        true
    } else if a[0] != b[0] {
        (a[0] as u32) < (b[0] as u32)
    } else {
        chars_lt(a.skip(1), b.skip(1))
    }
}

/// A document nested at most `d` levels deep: the values of an object's
/// fields and the elements of an array sit one level below the whole.
pub open spec fn depth_at_most(j: JsonVal, d: nat) -> bool
    decreases j,
{
    match j {
        JsonVal::Null => d >= 1,
        JsonVal::Bool(_) => d >= 1,
        JsonVal::Str(_) => d >= 1,
        JsonVal::Arr(items) => d >= 1 && forall|i: int|
            0 <= i < items.len() ==> depth_at_most(#[trigger] items[i], (d - 1) as nat),
        JsonVal::Obj(fields) => d >= 1 && forall|i: int|
            0 <= i < fields.len() ==> depth_at_most((#[trigger] fields[i]).1, (d - 1) as nat),
    }
}

/// What parsing a byte sequence yields: the number-free document it encodes,
/// or `None`. It names the composition of serde_json's parser with the
/// conversion into this module's tree, which depends on the bytes alone.
pub uninterp spec fn json_of(bytes: Seq<u8>) -> Option<JsonVal>;

/// Declares serde_json's tree type, so the two conversions below can take
/// and return it; the type stays opaque.
#[verifier::external_type_specification]
#[verifier::external_body]
pub struct ExValue(serde_json::Value);

/// Turns a serde_json tree into the library's own tree, one variant arm at a
/// time; numbers have no counterpart in the model, so a tree holding one makes
/// the conversion fail. This runs only inside the trusted body of
/// `parse_json`; nothing is claimed of it on its own.
#[verifier::external_body]
fn json_from_value(v: serde_json::Value) -> Option<Json> {
    match v {
        serde_json::Value::Null => Some(Json::Null),
        serde_json::Value::Bool(b) => Some(Json::Bool(b)),
        serde_json::Value::Number(_) => None,
        serde_json::Value::String(s) => Some(Json::Str(s)),
        serde_json::Value::Array(a) => Some(Json::Arr(
            a.into_iter().map(json_from_value).collect::<Option<Vec<Json>>>()?,
        )),
        serde_json::Value::Object(m) => Some(Json::Obj(
            m.into_iter()
                .map(|(k, inner)| Some((k, json_from_value(inner)?)))
                .collect::<Option<Vec<(String, Json)>>>()?,
        )),
    }
}

/// Relies on `serde_json::from_slice::<Value>`: parses the bytes as one JSON
/// document, rejecting trailing data. The result is converted by
/// `json_from_value` above; `json_of` names the composed outcome.
#[verifier::external_body]
pub fn parse_json(bytes: &[u8]) -> (r: Option<Json>)
    ensures
        r is Some <==> json_of(bytes@) is Some,
        r matches Some(j) ==> json_of(bytes@) == Some(j@),
{
    serde_json::from_slice::<serde_json::Value>(bytes).ok().and_then(json_from_value)
}

/// Turns the library's tree back into a serde_json tree, one variant arm at a
/// time. Object fields go through serde_json's map, which orders its keys and
/// keeps one value per key. This runs only inside the trusted body of
/// `encode_json`; nothing is claimed of it on its own.
#[verifier::external_body]
fn json_to_value(j: &Json) -> serde_json::Value {
    match j {
        Json::Null => serde_json::Value::Null,
        Json::Bool(b) => serde_json::Value::Bool(*b),
        Json::Str(s) => serde_json::Value::String(s.clone()),
        Json::Arr(items) => serde_json::Value::Array(items.iter().map(json_to_value).collect()),
        Json::Obj(fields) => serde_json::Value::Object(
            fields.iter().map(|f| (f.0.clone(), json_to_value(&f.1))).collect(),
        ),
    }
}

/// Relies on `serde_json::to_vec` on the corresponding serde_json tree.
/// Writing a number-free tree cannot fail, and objects are written with
/// their keys in ascending order, one field per key; so a canonical document
/// (keys already strictly ascending) is read back unchanged by `parse_json`.
/// The depth bound keeps the written text within the parser's nesting limit,
/// which is 128 levels.
#[verifier::external_body]
pub fn encode_json(j: &Json) -> (r: Vec<u8>)
    ensures
        canonical(j@) && depth_at_most(j@, 100) ==> json_of(r@) == Some(j@),
{
    match serde_json::to_vec(&json_to_value(j)) {
        Ok(bytes) => bytes,
        Err(_) => Vec::new(),
    }
}

} // verus!
