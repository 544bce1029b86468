use vstd::prelude::*;

verus! {

// A deserialization boundary: backend payloads arrive as json text, the
// `serde_json` crate turns the text into a tree value, and the library reads
// the expected shapes out of that tree with verified walks. The tree value is
// opaque; `value_rep` describes what it holds.
#[verifier::external_type_specification]
#[verifier::external_body]
pub struct ExValue(serde_json::Value);

/// What a parsed json value holds. A number is kept only as what
/// `as_u64` returns for it: the payload shapes this library reads carry
/// nothing but small non-negative integers.
pub enum Jv {
    Null,
    Bool(bool),
    Num(Option<u64>),
    Str(Seq<char>),
    Arr(Seq<Jv>),
    Obj(Map<Seq<char>, Jv>),
}

/// What this `serde_json::Value` holds.
pub uninterp spec fn value_rep(v: serde_json::Value) -> Jv;

/// What `serde_json::from_str` makes of this text: the value it parses to,
/// or nothing where the text is not valid json.
pub uninterp spec fn spec_json_doc(s: Seq<char>) -> Option<Jv>;

/// Relies on serde_json::from_str for Value: what a json text parses to is
/// a function of the text alone.
#[verifier::external_body]
pub(crate) fn json_from_str(s: &str) -> (r: Option<serde_json::Value>)
    ensures
        r is Some <==> spec_json_doc(s@) is Some,
        r matches Some(v) ==> Some(value_rep(v)) == spec_json_doc(s@),
{
    serde_json::from_str::<serde_json::Value>(s).ok()
}

/// Relies on serde_json::Value::get with a string key: the field of that
/// name looked up in an object, nothing on any other value.
#[verifier::external_body]
pub(crate) fn json_get<'a>(v: &'a serde_json::Value, key: &str) -> (r: Option<&'a serde_json::Value>)
    ensures
        match value_rep(*v) {
            Jv::Obj(m) => (match r {
                Some(f) => m.contains_key(key@) && value_rep(*f) == m[key@],
                None => !m.contains_key(key@),
            }),
            _ => r is None,
        },
{
    v.get(key)
}

/// Relies on serde_json::Value::as_u64: the number held by the value, where
/// it is one that fits.
#[verifier::external_body]
pub(crate) fn json_as_u64(v: &serde_json::Value) -> (r: Option<u64>)
    ensures
        r == (match value_rep(*v) {
            Jv::Num(n) => n,
            _ => None,
        }),
{
    v.as_u64()
}

/// Relies on serde_json::Value::as_str: the text held by the value, where it
/// is a string.
#[verifier::external_body]
pub(crate) fn json_as_str(v: &serde_json::Value) -> (r: Option<String>)
    ensures
        match value_rep(*v) {
            Jv::Str(s) => r matches Some(t) && t@ == s,
            _ => r is None,
        },
{
    match v.as_str() {
        Some(t) => Some(t.to_string()),
        None => None,
    }
}

/// Relies on serde_json::Value::as_array: the elements held by the value,
/// where it is an array.
#[verifier::external_body]
pub(crate) fn json_as_array<'a>(v: &'a serde_json::Value) -> (r: Option<&'a Vec<serde_json::Value>>)
    ensures
        match value_rep(*v) {
            Jv::Arr(s) => r matches Some(a) && a@.len() == s.len() && (forall|i: int|
                0 <= i < s.len() ==> value_rep(#[trigger] a@[i]) == s[i]),
            _ => r is None,
        },
{
    v.as_array()
}

/// Relies on serde_json::Value::as_object and the map's entry iteration:
/// each field of an object handed out exactly once, under its key; nothing
/// on any other value. The order the entries come in is left open.
#[verifier::external_body]
pub(crate) fn json_object_entries(v: &serde_json::Value) -> (r: Option<Vec<(String, serde_json::Value)>>)
    ensures
        match value_rep(*v) {
            Jv::Obj(m) => (match r {
                Some(es) => {
                    &&& forall|i: int, j: int|
                        0 <= i < j < es@.len() ==> (#[trigger] es@[i]).0@ != (#[trigger] es@[j]).0@
                    &&& forall|i: int|
                        0 <= i < es@.len() ==> m.contains_key((#[trigger] es@[i]).0@) && value_rep(
                            es@[i].1,
                        ) == m[es@[i].0@]
                    &&& forall|k: Seq<char>|
                        #[trigger] m.contains_key(k) ==> exists|i: int|
                            0 <= i < es@.len() && (#[trigger] es@[i]).0@ == k
                },
                None => false,
            }),
            _ => r is None,
        },
{
    match v.as_object() {
        None => None,
        Some(m) => Some(m.iter().map(|(k, x)| (k.clone(), x.clone())).collect()),
    }
}

} // verus!
