//! A plain JSON tree that decoding reads, the parser behind it, and field
//! lookup on objects.
use vstd::prelude::*;
use vstd::string::StringExecFns;

verus! {

/// A JSON value. Objects keep their members as a list of key and value.
pub enum Json {
    Null,
    Bool(bool),
    /// A number, as its decimal text.
    Number(String),
    Str(String),
    Array(Vec<Json>),
    Object(Vec<(String, Json)>),
}

/// What serde_json parses a byte sequence into, or `None` where it refuses it.
pub uninterp spec fn parsed_json(bytes: Seq<u8>) -> Option<Json>;

/// Converts serde_json's tree into the library's own, node for node: each
/// variant to the variant of the same name, numbers to their text.
#[verifier::external_body]
fn from_value(v: serde_json::Value) -> (r: Json) {
    match v {
        serde_json::Value::Null => Json::Null,
        serde_json::Value::Bool(b) => Json::Bool(b),
        serde_json::Value::Number(n) => Json::Number(n.to_string()),
        serde_json::Value::String(s) => Json::Str(s),
        serde_json::Value::Array(a) => Json::Array(a.into_iter().map(from_value).collect()),
        serde_json::Value::Object(m) => Json::Object(
            m.into_iter().map(|(k, x)| (k, from_value(x))).collect(),
        ),
    }
}

/// Relies on serde_json::from_slice into serde_json::Value: it parses the
/// bytes as one JSON document, and the outcome depends on the bytes alone.
#[verifier::external_body]
pub(crate) fn parse_json(bytes: &[u8]) -> (r: Option<Json>)
    ensures
        r == parsed_json(bytes@),
{
    serde_json::from_slice::<serde_json::Value>(bytes).ok().map(from_value)
}

#[verifier::external_type_specification]
#[verifier::external_body]
pub struct ExValue(serde_json::Value);

/// `i` is the first position of `key` among the object's members.
pub open spec fn key_at(obj: Seq<(String, Json)>, key: Seq<char>, i: int) -> bool {
    &&& 0 <= i < obj.len()
    &&& obj[i].0@ == key
    &&& forall|j: int| 0 <= j < i ==> obj[j].0@ != key
}

/// The value of the first member named `key`.
pub open spec fn field(obj: Seq<(String, Json)>, key: Seq<char>) -> Option<Json> {
    if exists|i: int| key_at(obj, key, i) {
        Some(obj[choose|i: int| key_at(obj, key, i)].1)
    } else {
        None
    }
}

/// The member at the first position of a key is what `field` returns.
pub proof fn lemma_key_at_field(obj: Seq<(String, Json)>, key: Seq<char>, i: int)
    requires
        key_at(obj, key, i),
    ensures
        field(obj, key) == Some(obj[i].1),
{
    let k = choose|k: int| key_at(obj, key, k);
    assert(key_at(obj, key, k));
    if k < i {
        assert(obj[k].0@ != key);
    } else if i < k {
        assert(obj[i].0@ != key);
    }
}

/// A member appended under another name leaves a lookup as it was.
pub proof fn lemma_field_push(obj: Seq<(String, Json)>, e: (String, Json), key: Seq<char>)
    requires
        e.0@ != key,
    ensures
        field(obj.push(e), key) == field(obj, key),
{
    let o2 = obj.push(e);
    if exists|i: int| key_at(obj, key, i) {
        let i = choose|i: int| key_at(obj, key, i);
        assert(key_at(o2, key, i)) by {
            assert forall|j: int| 0 <= j < i implies o2[j].0@ != key by {
                assert(o2[j] == obj[j]);
            }
            assert(o2[i] == obj[i]);
        }
        lemma_key_at_field(obj, key, i);
        lemma_key_at_field(o2, key, i);
    } else {
        if exists|i: int| key_at(o2, key, i) {
            let i = choose|i: int| key_at(o2, key, i);
            if i < obj.len() {
                assert(key_at(obj, key, i)) by {
                    assert forall|j: int| 0 <= j < i implies obj[j].0@ != key by {
                        assert(o2[j] == obj[j]);
                    }
                    assert(o2[i] == obj[i]);
                }
            } else {
                assert(o2[i] == e);
            }
        }
    }
}

/// The position of the first member named `key`.
pub fn find_field(obj: &Vec<(String, Json)>, key: &String) -> (r: Option<usize>)
    ensures
        r matches Some(i) ==> key_at(obj@, key@, i as int) && field(obj@, key@) == Some(
            obj@[i as int].1,
        ),
        r is None ==> field(obj@, key@) is None,
{
    let mut i: usize = 0;
    while i < obj.len()
        invariant
            i <= obj@.len(),
            forall|j: int| 0 <= j < i ==> obj@[j].0@ != key@,
        decreases obj@.len() - i,
    {
        if obj[i].0 == *key {
            proof {
                lemma_key_at_field(obj@, key@, i as int);
            }
            return Some(i);
        }
        i = i + 1;
    }
    proof {
        if exists|k: int| key_at(obj@, key@, k) {
            let k = choose|k: int| key_at(obj@, key@, k);
            assert(obj@[k].0@ != key@);
        }
    }
    None
}

/// Looks a member up by a literal name.
pub fn lookup<'a>(obj: &'a Vec<(String, Json)>, key: &str) -> (r: Option<&'a Json>)
    ensures
        r matches Some(j) ==> field(obj@, key@) == Some(*j),
        r is None ==> field(obj@, key@) is None,
{
    let k = String::from_str(key);
    match find_field(obj, &k) {
        Some(i) => Some(&obj[i].1),
        None => None,
    }
}

} // verus!
