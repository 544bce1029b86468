use vstd::prelude::*;

use crate::json::json_as_array;
use crate::json::json_as_str;
use crate::json::json_as_u64;
use crate::json::json_from_str;
use crate::json::json_get;
use crate::json::json_object_entries;
use crate::json::spec_json_doc;
use crate::json::value_rep;
use crate::json::Jv;

verus! {

/// Why a payload could not be read.
#[derive(Debug, PartialEq, Eq, Structural)]
pub enum DecodeError {
    /// The text is not valid json at all.
    Syntax,
    /// The json is valid but does not have the expected shape.
    Shape,
}

#[derive(Debug)]
/// Expected error format from backing apis
pub struct Message {
    pub http_status: u16,
    pub timestamp: String,
    pub service: String,
    pub message: String,
}

#[derive(Debug)]
/// One failed request inside the second error format.
pub struct ErrorContext {
    pub requested: String,
    pub http_status: u16,
    pub message: String,
}

#[derive(Debug)]
/// The second expected error format from backing apis. The pages are kept as
/// key and value pairs, in no promised order.
pub struct Message2 {
    pub pages: Vec<(String, String)>,
    pub objects: Vec<String>,
    pub errors: Vec<ErrorContext>,
}

/// The field under one of two key spellings: nothing when both spellings are
/// there (the reader refuses the ambiguity) or neither is.
pub open spec fn spec_aliased_field(m: Map<Seq<char>, Jv>, snake: Seq<char>, camel: Seq<char>) -> Option<Jv> {
    if m.contains_key(snake) && m.contains_key(camel) {
        None
    } else if m.contains_key(snake) {
        Some(m[snake])
    } else if m.contains_key(camel) {
        Some(m[camel])
    } else {
        None
    }
}

/// The status a json value yields: a number that fits a u16.
pub open spec fn spec_status_of(j: Jv) -> Option<u16> {
    match j {
        Jv::Num(Some(n)) => if n <= 65535 {
            Some(n as u16)
        } else {
            None
        },
        _ => None,
    }
}

/// The text under a key of an object, where the field is there and is a
/// string.
pub open spec fn spec_obj_text(m: Map<Seq<char>, Jv>, key: Seq<char>) -> Option<Seq<char>> {
    if m.contains_key(key) {
        match m[key] {
            Jv::Str(s) => Some(s),
            _ => None,
        }
    } else {
        None
    }
}

/// What a json value yields when read as a `Message`: the status under
/// either of its two key spellings, and the three texts, or nothing where
/// any of them is missing, doubled, or of the wrong kind.
pub open spec fn spec_message_of(j: Jv) -> Option<(u16, Seq<char>, Seq<char>, Seq<char>)> {
    match j {
        Jv::Obj(m) => {
            let status = match spec_aliased_field(m, "http_status"@, "httpStatus"@) {
                Some(f) => spec_status_of(f),
                None => None,
            };
            match (status, spec_obj_text(m, "timestamp"@), spec_obj_text(m, "service"@), spec_obj_text(m, "message"@)) {
                (Some(st), Some(ts), Some(svc), Some(msg)) => Some((st, ts, svc, msg)),
                _ => None,
            }
        },
        _ => None,
    }
}

/// What a json value yields when read as an `ErrorContext`.
pub open spec fn spec_error_context_of(j: Jv) -> Option<(Seq<char>, u16, Seq<char>)> {
    match j {
        Jv::Obj(m) => {
            let status = match spec_aliased_field(m, "http_status"@, "httpStatus"@) {
                Some(f) => spec_status_of(f),
                None => None,
            };
            match (spec_obj_text(m, "requested"@), status, spec_obj_text(m, "message"@)) {
                (Some(req), Some(st), Some(msg)) => Some((req, st, msg)),
                _ => None,
            }
        },
        _ => None,
    }
}

/// The field under one of two key spellings, read from a parsed json value.
fn aliased_field<'a>(v: &'a serde_json::Value, snake: &str, camel: &str) -> (r: Option<
    &'a serde_json::Value,
>)
    ensures
        match value_rep(*v) {
            Jv::Obj(m) => (match r {
                Some(f) => Some(value_rep(*f)) == spec_aliased_field(m, snake@, camel@),
                None => spec_aliased_field(m, snake@, camel@) is None,
            }),
            _ => r is None,
        },
{
    match (json_get(v, snake), json_get(v, camel)) {
        (Some(_), Some(_)) => None,
        (Some(f), None) => Some(f),
        (None, Some(f)) => Some(f),
        (None, None) => None,
    }
}

/// The status held by a json value, where it is a number that fits a u16.
fn status_of(f: &serde_json::Value) -> (r: Option<u16>)
    ensures
        r == spec_status_of(value_rep(*f)),
{
    match json_as_u64(f) {
        Some(n) => if n <= 65535 {
            Some(n as u16)
        } else {
            None
        },
        None => None,
    }
}

/// The text under a key, read from a parsed json value.
fn text_field(v: &serde_json::Value, key: &str) -> (r: Option<String>)
    ensures
        match value_rep(*v) {
            Jv::Obj(m) => (match r {
                Some(t) => spec_obj_text(m, key@) == Some(t@),
                None => spec_obj_text(m, key@) is None,
            }),
            _ => r is None,
        },
{
    match json_get(v, key) {
        Some(f) => json_as_str(f),
        None => None,
    }
}

impl Message {
    /// Reads a `Message` out of an already parsed json value: it succeeds
    /// exactly on values of the expected shape, and then recovers every
    /// field, with the status accepted under either key spelling.
    pub fn from_value(v: &serde_json::Value) -> (r: Result<Message, DecodeError>)
        ensures
            r is Ok <==> spec_message_of(value_rep(*v)) is Some,
            r matches Ok(msg) ==> Some(
                (msg.http_status, msg.timestamp@, msg.service@, msg.message@),
            ) == spec_message_of(value_rep(*v)),
            r matches Err(e) ==> e == DecodeError::Shape,
    {
        let status_field = match aliased_field(v, "http_status", "httpStatus") {
            Some(f) => f,
            None => {
                return Err(DecodeError::Shape);
            },
        };
        let http_status = match status_of(status_field) {
            Some(s) => s,
            None => {
                return Err(DecodeError::Shape);
            },
        };
        let timestamp = match text_field(v, "timestamp") {
            Some(t) => t,
            None => {
                return Err(DecodeError::Shape);
            },
        };
        let service = match text_field(v, "service") {
            Some(t) => t,
            None => {
                return Err(DecodeError::Shape);
            },
        };
        let message = match text_field(v, "message") {
            Some(t) => t,
            None => {
                return Err(DecodeError::Shape);
            },
        };
        Ok(Message { http_status, timestamp, service, message })
    }

    /// Reads a `Message` out of json text: the text must parse and have the
    /// expected shape.
    pub fn from_json_str(s: &str) -> (r: Result<Message, DecodeError>)
        ensures
            r is Ok <==> (spec_json_doc(s@) matches Some(j) && spec_message_of(j) is Some),
            r matches Ok(msg) ==> Some(
                (msg.http_status, msg.timestamp@, msg.service@, msg.message@),
            ) == spec_message_of(spec_json_doc(s@)->0),
            r matches Err(e) ==> (e == DecodeError::Syntax <==> spec_json_doc(s@) is None),
    {
        match json_from_str(s) {
            Some(v) => Message::from_value(&v),
            None => Err(DecodeError::Syntax),
        }
    }
}

/// The status field reads identically under either of its two key
/// spellings: offered to an object that carries neither spelling yet, the
/// same field value yields the same reading of the whole payload, whichever
/// spelling carries it.
pub proof fn lemma_status_spelling_interchangeable(m: Map<Seq<char>, Jv>, f: Jv)
    requires
        !m.contains_key("http_status"@),
        !m.contains_key("httpStatus"@),
    ensures
        spec_message_of(Jv::Obj(m.insert("http_status"@, f))) == spec_message_of(
            Jv::Obj(m.insert("httpStatus"@, f)),
        ),
        spec_error_context_of(Jv::Obj(m.insert("http_status"@, f))) == spec_error_context_of(
            Jv::Obj(m.insert("httpStatus"@, f)),
        ),
{
    reveal_strlit("http_status");
    reveal_strlit("httpStatus");
    reveal_strlit("timestamp");
    reveal_strlit("service");
    reveal_strlit("message");
    reveal_strlit("requested");
    assert(("http_status"@).len() == 11);
    assert(("httpStatus"@).len() == 10);
    assert(("timestamp"@).len() == 9);
    assert(("service"@).len() == 7);
    assert(("message"@).len() == 7);
    assert(("requested"@).len() == 9);
}

/// Whether a json value can serve as the pages of a `Message2`: an object
/// whose every field is a string.
pub open spec fn spec_pages_ok(j: Jv) -> bool {
    match j {
        Jv::Obj(m) => forall|k: Seq<char>| #[trigger] m.contains_key(k) ==> m[k] is Str,
        _ => false,
    }
}

/// Whether a sequence of key and value pairs carries exactly the fields of
/// a pages object: no key twice, every pair a field, every field reached.
pub open spec fn spec_pages_match(m: Map<Seq<char>, Jv>, pages: Seq<(Seq<char>, Seq<char>)>) -> bool {
    &&& forall|i: int, j: int|
        0 <= i < j < pages.len() ==> (#[trigger] pages[i]).0 != (#[trigger] pages[j]).0
    &&& forall|i: int|
        0 <= i < pages.len() ==> m.contains_key((#[trigger] pages[i]).0) && m[pages[i].0]
            == Jv::Str(pages[i].1)
    &&& forall|k: Seq<char>|
        #[trigger] m.contains_key(k) ==> exists|i: int|
            0 <= i < pages.len() && (#[trigger] pages[i]).0 == k
}

/// Whether every element of a json array is a string.
pub open spec fn spec_texts_ok(s: Seq<Jv>) -> bool {
    forall|i: int| 0 <= i < s.len() ==> (#[trigger] s[i]) is Str
}

/// Whether a sequence of texts is exactly what a json array of strings
/// holds, in order.
pub open spec fn spec_texts_match(s: Seq<Jv>, out: Seq<Seq<char>>) -> bool {
    &&& out.len() == s.len()
    &&& forall|i: int| 0 <= i < s.len() ==> #[trigger] s[i] == Jv::Str(out[i])
}

/// Whether every element of a json array reads as an `ErrorContext`.
pub open spec fn spec_error_contexts_ok(s: Seq<Jv>) -> bool {
    forall|i: int| 0 <= i < s.len() ==> spec_error_context_of(#[trigger] s[i]) is Some
}

/// Whether a sequence of field triples is exactly what a json array of
/// error contexts holds, in order.
pub open spec fn spec_error_contexts_match(s: Seq<Jv>, out: Seq<(Seq<char>, u16, Seq<char>)>) -> bool {
    &&& out.len() == s.len()
    &&& forall|i: int| 0 <= i < s.len() ==> spec_error_context_of(#[trigger] s[i]) == Some(out[i])
}

/// Whether a json value has the shape of a `Message2`: the pages, objects
/// and errors fields, each of its expected kind.
pub open spec fn spec_message2_accepted(j: Jv) -> bool {
    match j {
        Jv::Obj(m) => {
            &&& m.contains_key("pages"@) && spec_pages_ok(m["pages"@])
            &&& m.contains_key("objects"@) && (m["objects"@] matches Jv::Arr(a)
                && spec_texts_ok(a))
            &&& m.contains_key("errors"@) && (m["errors"@] matches Jv::Arr(a)
                && spec_error_contexts_ok(a))
        },
        _ => false,
    }
}

/// Whether the three field sequences recover exactly what the json value
/// holds: the pages up to order, the objects and errors in order.
pub open spec fn spec_message2_matches(
    j: Jv,
    pages: Seq<(Seq<char>, Seq<char>)>,
    objects: Seq<Seq<char>>,
    errors: Seq<(Seq<char>, u16, Seq<char>)>,
) -> bool {
    match j {
        Jv::Obj(m) => {
            &&& m.contains_key("pages"@) && (m["pages"@] matches Jv::Obj(pm) && spec_pages_match(
                pm,
                pages,
            ))
            &&& m.contains_key("objects"@) && (m["objects"@] matches Jv::Arr(a)
                && spec_texts_match(a, objects))
            &&& m.contains_key("errors"@) && (m["errors"@] matches Jv::Arr(a)
                && spec_error_contexts_match(a, errors))
        },
        _ => false,
    }
}

/// The pages of a `Message2` as the pairs of views they hold.
pub open spec fn spec_pages_view(pages: Seq<(String, String)>) -> Seq<(Seq<char>, Seq<char>)> {
    pages.map_values(|p: (String, String)| (p.0@, p.1@))
}

/// The objects of a `Message2` as the views they hold.
pub open spec fn spec_texts_view(texts: Seq<String>) -> Seq<Seq<char>> {
    texts.map_values(|t: String| t@)
}

/// The errors of a `Message2` as the field triples they hold.
pub open spec fn spec_errors_view(errors: Seq<ErrorContext>) -> Seq<(Seq<char>, u16, Seq<char>)> {
    errors.map_values(|e: ErrorContext| (e.requested@, e.http_status, e.message@))
}

/// The pages read out of a json value that must be an object of strings.
fn read_pages(v: &serde_json::Value) -> (r: Option<Vec<(String, String)>>)
    ensures
        r is Some <==> spec_pages_ok(value_rep(*v)),
        r matches Some(pages) ==> (value_rep(*v) matches Jv::Obj(pm) && spec_pages_match(
            pm,
            spec_pages_view(pages@),
        )),
{
    let entries = match json_object_entries(v) {
        Some(es) => es,
        None => {
            return None;
        },
    };
    let ghost pm = value_rep(*v)->Obj_0;
    let mut pages: Vec<(String, String)> = Vec::new();
    let mut idx: usize = 0;
    while idx < entries.len()
        invariant
            value_rep(*v) == Jv::Obj(pm),
            idx <= entries@.len(),
            forall|i: int, j: int|
                0 <= i < j < entries@.len() ==> (#[trigger] entries@[i]).0@ != (
                #[trigger] entries@[j]).0@,
            forall|i: int|
                0 <= i < entries@.len() ==> pm.contains_key((#[trigger] entries@[i]).0@)
                    && value_rep(entries@[i].1) == pm[entries@[i].0@],
            forall|k: Seq<char>|
                #[trigger] pm.contains_key(k) ==> exists|i: int|
                    0 <= i < entries@.len() && (#[trigger] entries@[i]).0@ == k,
            pages@.len() == idx,
            forall|i: int|
                0 <= i < idx ==> (#[trigger] pages@[i]).0@ == entries@[i].0@ && value_rep(
                    entries@[i].1,
                ) == Jv::Str(pages@[i].1@),
        decreases entries@.len() - idx,
    {
        let key = entries[idx].0.clone();
        let text = match json_as_str(&entries[idx].1) {
            Some(t) => t,
            None => {
                proof {
                    assert(pm.contains_key(entries@[idx as int].0@));
                    assert(!(pm[entries@[idx as int].0@] is Str));
                }
                return None;
            },
        };
        pages.push((key, text));
        idx += 1;
    }
    proof {
        let pv = spec_pages_view(pages@);
        assert forall|i: int, j: int|
            0 <= i < j < pv.len() implies (#[trigger] pv[i]).0 != (#[trigger] pv[j]).0 by {
            assert(pages@[i].0@ == entries@[i].0@);
            assert(pages@[j].0@ == entries@[j].0@);
        }
        assert forall|i: int|
            0 <= i < pv.len() implies pm.contains_key((#[trigger] pv[i]).0) && pm[pv[i].0]
                == Jv::Str(pv[i].1) by {
            assert(pages@[i].0@ == entries@[i].0@);
            assert(value_rep(entries@[i].1) == Jv::Str(pages@[i].1@));
            assert(pm.contains_key(entries@[i].0@) && value_rep(entries@[i].1) == pm[entries@[i].0@]);
        }
        assert forall|k: Seq<char>|
            #[trigger] pm.contains_key(k) implies exists|i: int|
                0 <= i < pv.len() && (#[trigger] pv[i]).0 == k by {
            let i0 = choose|i: int| 0 <= i < entries@.len() && (#[trigger] entries@[i]).0@ == k;
            assert(pages@[i0].0@ == entries@[i0].0@);
            assert(0 <= i0 < pv.len() && pv[i0].0 == k);
        }
        assert(spec_pages_match(pm, pv));
        assert forall|k: Seq<char>| #[trigger] pm.contains_key(k) implies pm[k] is Str by {
            let i0 = choose|i: int| 0 <= i < pv.len() && (#[trigger] pv[i]).0 == k;
            assert(pm[pv[i0].0] == Jv::Str(pv[i0].1));
        }
    }
    Some(pages)
}

/// The texts read out of a json value that must be an array of strings.
fn read_texts(v: &serde_json::Value) -> (r: Option<Vec<String>>)
    ensures
        r is Some <==> (value_rep(*v) matches Jv::Arr(s) && spec_texts_ok(s)),
        r matches Some(texts) ==> (value_rep(*v) matches Jv::Arr(s) && spec_texts_match(
            s,
            spec_texts_view(texts@),
        )),
{
    let arr = match json_as_array(v) {
        Some(a) => a,
        None => {
            return None;
        },
    };
    let ghost s = value_rep(*v)->Arr_0;
    let mut texts: Vec<String> = Vec::new();
    let mut idx: usize = 0;
    while idx < arr.len()
        invariant
            value_rep(*v) == Jv::Arr(s),
            arr@.len() == s.len(),
            forall|i: int| 0 <= i < s.len() ==> value_rep(#[trigger] arr@[i]) == s[i],
            idx <= arr@.len(),
            texts@.len() == idx,
            forall|i: int| 0 <= i < idx ==> s[i] == Jv::Str((#[trigger] texts@[i])@),
        decreases arr@.len() - idx,
    {
        match json_as_str(&arr[idx]) {
            Some(t) => texts.push(t),
            None => {
                proof {
                    assert(value_rep(arr@[idx as int]) == s[idx as int]);
                    assert(!(s[idx as int] is Str));
                }
                return None;
            },
        }
        idx += 1;
    }
    proof {
        let tv = spec_texts_view(texts@);
        assert forall|i: int| 0 <= i < s.len() implies #[trigger] s[i] == Jv::Str(tv[i]) by {
            assert(s[i] == Jv::Str(texts@[i]@));
        }
        assert(spec_texts_match(s, tv));
        assert(spec_texts_ok(s));
    }
    Some(texts)
}

/// The error contexts read out of a json value that must be an array of
/// values of the expected shape.
fn read_error_contexts(v: &serde_json::Value) -> (r: Option<Vec<ErrorContext>>)
    ensures
        r is Some <==> (value_rep(*v) matches Jv::Arr(s) && spec_error_contexts_ok(s)),
        r matches Some(errors) ==> (value_rep(*v) matches Jv::Arr(s) && spec_error_contexts_match(
            s,
            spec_errors_view(errors@),
        )),
{
    let arr = match json_as_array(v) {
        Some(a) => a,
        None => {
            return None;
        },
    };
    let ghost s = value_rep(*v)->Arr_0;
    let mut errors: Vec<ErrorContext> = Vec::new();
    let mut idx: usize = 0;
    while idx < arr.len()
        invariant
            value_rep(*v) == Jv::Arr(s),
            arr@.len() == s.len(),
            forall|i: int| 0 <= i < s.len() ==> value_rep(#[trigger] arr@[i]) == s[i],
            idx <= arr@.len(),
            errors@.len() == idx,
            forall|i: int|
                0 <= i < idx ==> spec_error_context_of(s[i]) == Some(
                    (
                        (#[trigger] errors@[i]).requested@,
                        errors@[i].http_status,
                        errors@[i].message@,
                    ),
                ),
        decreases arr@.len() - idx,
    {
        match ErrorContext::from_value(&arr[idx]) {
            Ok(ec) => errors.push(ec),
            Err(_) => {
                proof {
                    assert(value_rep(arr@[idx as int]) == s[idx as int]);
                    assert(spec_error_context_of(s[idx as int]) is None);
                }
                return None;
            },
        }
        idx += 1;
    }
    proof {
        let ev = spec_errors_view(errors@);
        assert forall|i: int|
            0 <= i < s.len() implies spec_error_context_of(#[trigger] s[i]) == Some(ev[i]) by {
            assert(spec_error_context_of(s[i]) == Some(
                (errors@[i].requested@, errors@[i].http_status, errors@[i].message@),
            ));
        }
        assert(spec_error_contexts_match(s, ev));
        assert(spec_error_contexts_ok(s));
    }
    Some(errors)
}

impl Message2 {
    /// Reads a `Message2` out of an already parsed json value: it succeeds
    /// exactly on values of the expected shape, and then recovers the pages
    /// up to order and the objects and errors in order.
    pub fn from_value(v: &serde_json::Value) -> (r: Result<Message2, DecodeError>)
        ensures
            r is Ok <==> spec_message2_accepted(value_rep(*v)),
            r matches Ok(m2) ==> spec_message2_matches(
                value_rep(*v),
                spec_pages_view(m2.pages@),
                spec_texts_view(m2.objects@),
                spec_errors_view(m2.errors@),
            ),
            r matches Err(e) ==> e == DecodeError::Shape,
    {
        let pages_val = match json_get(v, "pages") {
            Some(f) => f,
            None => {
                return Err(DecodeError::Shape);
            },
        };
        let pages = match read_pages(pages_val) {
            Some(p) => p,
            None => {
                return Err(DecodeError::Shape);
            },
        };
        let objects_val = match json_get(v, "objects") {
            Some(f) => f,
            None => {
                return Err(DecodeError::Shape);
            },
        };
        let objects = match read_texts(objects_val) {
            Some(o) => o,
            None => {
                return Err(DecodeError::Shape);
            },
        };
        let errors_val = match json_get(v, "errors") {
            Some(f) => f,
            None => {
                return Err(DecodeError::Shape);
            },
        };
        let errors = match read_error_contexts(errors_val) {
            Some(e) => e,
            None => {
                return Err(DecodeError::Shape);
            },
        };
        Ok(Message2 { pages, objects, errors })
    }

    /// Reads a `Message2` out of json text: the text must parse and have
    /// the expected shape.
    pub fn from_json_str(s: &str) -> (r: Result<Message2, DecodeError>)
        ensures
            r is Ok <==> (spec_json_doc(s@) matches Some(j) && spec_message2_accepted(j)),
            r matches Ok(m2) ==> spec_message2_matches(
                spec_json_doc(s@)->0,
                spec_pages_view(m2.pages@),
                spec_texts_view(m2.objects@),
                spec_errors_view(m2.errors@),
            ),
            r matches Err(e) ==> (e == DecodeError::Syntax <==> spec_json_doc(s@) is None),
    {
        match json_from_str(s) {
            Some(v) => Message2::from_value(&v),
            None => Err(DecodeError::Syntax),
        }
    }
}

impl ErrorContext {
    /// Reads an `ErrorContext` out of an already parsed json value: it
    /// succeeds exactly on values of the expected shape, and then recovers
    /// every field, with the status accepted under either key spelling.
    pub fn from_value(v: &serde_json::Value) -> (r: Result<ErrorContext, DecodeError>)
        ensures
            r is Ok <==> spec_error_context_of(value_rep(*v)) is Some,
            r matches Ok(ec) ==> Some((ec.requested@, ec.http_status, ec.message@))
                == spec_error_context_of(value_rep(*v)),
            r matches Err(e) ==> e == DecodeError::Shape,
    {
        let status_field = match aliased_field(v, "http_status", "httpStatus") {
            Some(f) => f,
            None => {
                return Err(DecodeError::Shape);
            },
        };
        let http_status = match status_of(status_field) {
            Some(s) => s,
            None => {
                return Err(DecodeError::Shape);
            },
        };
        let requested = match text_field(v, "requested") {
            Some(t) => t,
            None => {
                return Err(DecodeError::Shape);
            },
        };
        let message = match text_field(v, "message") {
            Some(t) => t,
            None => {
                return Err(DecodeError::Shape);
            },
        };
        Ok(ErrorContext { requested, http_status, message })
    }
}

} // verus!
