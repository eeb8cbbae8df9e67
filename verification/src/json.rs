//! Structured values carried over the control channel.
//!
//! The protocol treats command parameters and results as opaque structured
//! values; this module gives them a concrete shape the verifier can reason
//! about. Conversion between wire text and `JsonValue` goes through
//! serde_json behind trusted wrappers; every field access and every envelope
//! construction is verified code on `JsonValue` itself.

use vstd::prelude::*;

verus! {

/// A structured protocol value.
///
/// Numbers outside the signed 64-bit range (and non-integral numbers) do not
/// occur in the envelope fields this library reads; the parse wrapper maps
/// them to `Null`.
#[derive(Debug, PartialEq)]
pub enum JsonValue {
    Null,
    Bool(bool),
    Int(i64),
    Str(String),
    Arr(Vec<JsonValue>),
    Obj(Vec<(String, JsonValue)>),
}

/// First binding of `key` in an ordered field list.
pub open spec fn lookup_field(fields: Seq<(String, JsonValue)>, key: Seq<char>) -> Option<
    JsonValue,
>
    decreases fields.len(),
{
    if fields.len() == 0 {
        None
    } else if fields[0].0@ == key {
        Some(fields[0].1)
    } else {
        lookup_field(fields.drop_first(), key)
    }
}

/// The value bound to `key`, when `v` is an object that has it.
pub open spec fn get_key(v: JsonValue, key: Seq<char>) -> Option<JsonValue> {
    match v {
        JsonValue::Obj(fields) => lookup_field(fields@, key),
        _ => None,
    }
}

/// The character content, when `v` is a string.
pub open spec fn as_str_spec(v: JsonValue) -> Option<Seq<char>> {
    match v {
        JsonValue::Str(s) => Some(s@),
        _ => None,
    }
}

/// The boolean content, when `v` is a boolean.
pub open spec fn as_bool_spec(v: JsonValue) -> Option<bool> {
    match v {
        JsonValue::Bool(b) => Some(b),
        _ => None,
    }
}

/// The integer content, when `v` is an integer.
pub open spec fn as_int_spec(v: JsonValue) -> Option<i64> {
    match v {
        JsonValue::Int(i) => Some(i),
        _ => None,
    }
}

impl JsonValue {
    /// Borrow the value bound to `key`, if this is an object that has it.
    pub fn get<'a>(&'a self, key: &str) -> (r: Option<&'a JsonValue>)
        ensures
            match r {
                Some(x) => get_key(*self, key@) == Some(*x),
                None => get_key(*self, key@) is None,
            },
    {
        match self {
            JsonValue::Obj(fields) => {
                let n = fields.len();
                let mut i: usize = 0;
                proof {
                    assert(fields@.subrange(0, n as int) =~= fields@);
                }
                while i < n
                    invariant
                        n == fields@.len(),
                        i <= n,
                        get_key(*self, key@) == lookup_field(fields@, key@),
                        lookup_field(fields@, key@) == lookup_field(
                            fields@.subrange(i as int, n as int),
                            key@,
                        ),
                    decreases n - i,
                {
                    proof {
                        assert(fields@.subrange(i as int, n as int)[0] == fields@[i as int]);
                        assert(fields@.subrange(i as int, n as int).drop_first()
                            =~= fields@.subrange(i + 1, n as int));
                    }
                    if crate::text::str_eq(fields[i].0.as_str(), key) {
                        proof {
                            assert(fields@[i as int].0@ == key@);
                            assert(lookup_field(fields@.subrange(i as int, n as int), key@)
                                == Some(fields@[i as int].1));
                            assert(get_key(*self, key@) == Some(fields@[i as int].1));
                        }
                        return Some(&fields[i].1);
                    }
                    i += 1;
                }
                None
            },
            _ => None,
        }
    }

    /// The character content as an owned string, when this is a string.
    pub fn str_value(&self) -> (r: Option<String>)
        ensures
            match r {
                Some(s) => as_str_spec(*self) == Some(s@),
                None => as_str_spec(*self) is None,
            },
    {
        match self {
            JsonValue::Str(s) => Some(s.clone()),
            _ => None,
        }
    }

    /// The boolean content, when this is a boolean.
    pub fn bool_value(&self) -> (r: Option<bool>)
        ensures
            r == as_bool_spec(*self),
    {
        match self {
            JsonValue::Bool(b) => Some(*b),
            _ => None,
        }
    }

    /// The integer content, when this is an integer.
    pub fn int_value(&self) -> (r: Option<i64>)
        ensures
            r == as_int_spec(*self),
    {
        match self {
            JsonValue::Int(i) => Some(*i),
            _ => None,
        }
    }
}

/// Removing an entry whose key differs from `k` leaves the first binding of
/// `k` unchanged.
pub proof fn lemma_lookup_remove(fields: Seq<(String, JsonValue)>, i: int, k: Seq<char>)
    requires
        0 <= i < fields.len(),
        fields[i].0@ != k,
    ensures
        lookup_field(fields.remove(i), k) == lookup_field(fields, k),
    decreases fields.len(),
{
    fields.remove_ensures(i);
    if i == 0 {
        assert(fields.remove(0) =~= fields.drop_first());
    } else {
        assert(fields.remove(i)[0] == fields[0]);
        if fields[0].0@ == k {
        } else {
            assert(fields.remove(i).drop_first() =~= fields.drop_first().remove(i - 1));
            lemma_lookup_remove(fields.drop_first(), i - 1, k);
        }
    }
}

/// Move out the value bound to `key`, leaving the rest of the object behind:
/// every other key still looks up to what it did before.
pub fn take_key(v: &mut JsonValue, key: &str) -> (r: Option<JsonValue>)
    ensures
        r == get_key(*old(v), key@),
        r is None ==> *final(v) == *old(v),
        forall|k: Seq<char>|
            k != key@ ==> #[trigger] get_key(*final(v), k) == get_key(*old(v), k),
{
    let mut taken = JsonValue::Null;
    core::mem::swap(v, &mut taken);
    match taken {
        JsonValue::Obj(obj_fields) => {
            let mut fields = obj_fields;
            let ghost fields0 = fields;
            let ghost orig = fields@;
            proof {
                assert(*old(v) == JsonValue::Obj(fields0));
                assert(forall|k: Seq<char>|
                    #[trigger] get_key(*old(v), k) == lookup_field(orig, k));
            }
            let n = fields.len();
            let mut i: usize = 0;
            proof {
                assert(orig.subrange(0, n as int) =~= orig);
            }
            while i < n
                invariant
                    n == fields@.len(),
                    i <= n,
                    fields == fields0,
                    fields@ == orig,
                    *old(v) == JsonValue::Obj(fields0),
                    forall|k: Seq<char>|
                        #[trigger] get_key(*old(v), k) == lookup_field(orig, k),
                    lookup_field(orig, key@) == lookup_field(
                        orig.subrange(i as int, n as int),
                        key@,
                    ),
                decreases n - i,
            {
                proof {
                    assert(orig.subrange(i as int, n as int)[0] == orig[i as int]);
                    assert(orig.subrange(i as int, n as int).drop_first()
                        =~= orig.subrange(i + 1, n as int));
                }
                if crate::text::str_eq(fields[i].0.as_str(), key) {
                    proof {
                        assert(orig[i as int].0@ == key@);
                        assert(lookup_field(orig.subrange(i as int, n as int), key@)
                            == Some(orig[i as int].1));
                    }
                    let pair = fields.remove(i);
                    let ghost ff = fields;
                    *v = JsonValue::Obj(fields);
                    proof {
                        assert(pair == orig[i as int]);
                        assert(Some(pair.1) == get_key(*old(v), key@));
                        assert(ff@ == orig.remove(i as int));
                        assert(*v == JsonValue::Obj(ff));
                        assert forall|k: Seq<char>|
                            k != key@ implies #[trigger] get_key(*v, k) == get_key(
                            *old(v),
                            k,
                        ) by {
                            lemma_lookup_remove(orig, i as int, k);
                            assert(get_key(*v, k) == lookup_field(ff@, k));
                            assert(get_key(*old(v), k) == lookup_field(orig, k));
                        };
                    }
                    return Some(pair.1);
                }
                i += 1;
            }
            *v = JsonValue::Obj(fields);
            proof {
                assert(*v == *old(v));
            }
            None
        },
        other => {
            *v = other;
            None
        },
    }
}

/// What parsing a text yields: `Some` exactly on well-formed input, and a
/// single fixed value for any given text. Named rather than written out; the
/// grammar is serde_json's business, not this library's.
pub uninterp spec fn json_of(s: Seq<char>) -> Option<JsonValue>;

/// The canonical rendering of a value as wire text; a fixed function of the
/// value alone.
pub uninterp spec fn json_text_of(v: JsonValue) -> Seq<char>;

} // verus!

verus! {

/// serde_json's structured value type, declared so that the conversion
/// wrappers below may mention it. Opaque to the verifier.
#[verifier::external_type_specification]
#[verifier::external_body]
pub struct ExValue(serde_json::Value);

/// Relies on serde_json::Value's six variants: each arm moves one variant's
/// content into the library's own shape. Integer-valued numbers come through
/// `as_i64`; anything else becomes `Null`. Called only by `parse_json`.
#[verifier::external_body]
fn of_value(v: &serde_json::Value) -> JsonValue {
    match v {
        serde_json::Value::Null => JsonValue::Null,
        serde_json::Value::Bool(b) => JsonValue::Bool(*b),
        serde_json::Value::Number(n) => match n.as_i64() {
            Some(i) => JsonValue::Int(i),
            None => JsonValue::Null,
        },
        serde_json::Value::String(s) => JsonValue::Str(s.clone()),
        serde_json::Value::Array(a) => JsonValue::Arr(a.iter().map(of_value).collect()),
        serde_json::Value::Object(o) => JsonValue::Obj(
            o.iter().map(|(k, x)| (k.clone(), of_value(x))).collect(),
        ),
    }
}

/// Relies on serde_json::Value's constructors: each arm rebuilds one variant
/// from the library's own shape. Called only by `render_json`.
#[verifier::external_body]
fn to_value(v: &JsonValue) -> serde_json::Value {
    match v {
        JsonValue::Null => serde_json::Value::Null,
        JsonValue::Bool(b) => serde_json::Value::Bool(*b),
        JsonValue::Int(i) => serde_json::Value::Number(serde_json::Number::from(*i)),
        JsonValue::Str(s) => serde_json::Value::String(s.clone()),
        JsonValue::Arr(a) => serde_json::Value::Array(a.iter().map(to_value).collect()),
        JsonValue::Obj(o) => serde_json::Value::Object(
            o.iter().map(|(k, x)| (k.clone(), to_value(x))).collect(),
        ),
    }
}

/// Relies on serde_json::from_str: parsing succeeds exactly on well-formed
/// JSON text and is a deterministic function of that text; the error message
/// of a failed parse is serde_json's rendering of its error.
#[verifier::external_body]
pub(crate) fn parse_json(s: &str) -> (r: Result<JsonValue, String>)
    ensures
        match r {
            Ok(v) => json_of(s@) == Some(v),
            Err(_) => json_of(s@) is None,
        },
{
    match serde_json::from_str::<serde_json::Value>(s) {
        Ok(v) => Ok(of_value(&v)),
        Err(e) => Err(e.to_string()),
    }
}

/// Relies on serde_json::Value::to_string: the compact rendering is a
/// deterministic function of the value alone.
#[verifier::external_body]
pub(crate) fn render_json(v: &JsonValue) -> (r: String)
    ensures
        r@ == json_text_of(*v),
{
    to_value(v).to_string()
}

} // verus!
