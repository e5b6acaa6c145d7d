//! JSON documents: what a `serde_json::Value` holds, and the few operations on
//! one that the library relies on.

use crate::text::{optional_str, trimmed};
use serde_json::Value;
use vstd::prelude::*;

verus! {

/// A JSON document.
pub enum Json {
    Null,
    Bool(bool),
    /// A number in the range of `i64` or of `u64`, written as an integer.
    Integer(int),
    /// Any other number, by the bits of its IEEE 754 double.
    Real(u64),
    Text(Seq<char>),
    Array(Seq<Json>),
    Object(Map<Seq<char>, Json>),
}

impl Json {
    /// The member `key`, where this is an object that has it.
    pub open spec fn get(self, key: Seq<char>) -> Option<Json> {
        match self {
            Json::Object(members) => if members.contains_key(key) {
                Some(members[key])
            } else {
                None
            },
            _ => None,
        }
    }

    /// The text, where this is one.
    pub open spec fn as_text(self) -> Option<Seq<char>> {
        match self {
            Json::Text(text) => Some(text),
            _ => None,
        }
    }

    /// The truth value, where this is one.
    pub open spec fn as_bool(self) -> Option<bool> {
        match self {
            Json::Bool(b) => Some(b),
            _ => None,
        }
    }

    /// The integer, where this is one that fits `i64`.
    pub open spec fn as_i64(self) -> Option<i64> {
        match self {
            Json::Integer(n) => if i64::MIN <= n <= i64::MAX {
                Some(n as i64)
            } else {
                None
            },
            _ => None,
        }
    }

    /// The text of the member `key`, where there is such a member and it is text.
    pub open spec fn text_member(self, key: Seq<char>) -> Option<Seq<char>> {
        match self.get(key) {
            Some(member) => member.as_text(),
            None => None,
        }
    }

    /// The truth value of the member `key`, where there is such a member and it
    /// is one.
    pub open spec fn bool_member(self, key: Seq<char>) -> Option<bool> {
        match self.get(key) {
            Some(member) => member.as_bool(),
            None => None,
        }
    }

    /// The integer of the member `key`, where there is such a member and it is
    /// one that fits `i64`.
    pub open spec fn i64_member(self, key: Seq<char>) -> Option<i64> {
        match self.get(key) {
            Some(member) => member.as_i64(),
            None => None,
        }
    }

    /// The text of the member `key` without the blanks around it, where there is
    /// any left.
    pub open spec fn nonblank_member(self, key: Seq<char>) -> Option<Seq<char>> {
        match self.text_member(key) {
            Some(text) => if trimmed(text).len() > 0 {
                Some(trimmed(text))
            } else {
                None
            },
            None => None,
        }
    }

    /// Whether arrays and objects nest at most `depth` deep here and the binary
    /// exponent of every real number is below `top`.
    pub open spec fn is_legible(self, depth: nat, top: int) -> bool
        decreases depth,
    {
        match self {
            Json::Real(bits) => exponent_field(bits) < top,
            Json::Array(items) => depth > 0 && forall|i: int|
                0 <= i < items.len() ==> (#[trigger] items[i]).is_legible((depth - 1) as nat, top),
            Json::Object(members) => depth > 0 && forall|key: Seq<char>|
                members.contains_key(key) ==> (#[trigger] members[key]).is_legible(
                    (depth - 1) as nat,
                    top,
                ),
            _ => true,
        }
    }

    /// Whether the text of this document is sure to be read again: its nesting
    /// is within what the reader accepts, and its reals are below 2^993 in
    /// magnitude, so that the reader finds none of them out of range.
    pub open spec fn is_readable(self) -> bool {
        self.is_legible(max_depth(), 2016)
    }

    /// Whether the text of this document is sure to be read as a document whose
    /// own text is: its reals are below 2^977 in magnitude.
    pub open spec fn is_moderate(self) -> bool {
        self.is_legible(max_depth(), 2000)
    }

    /// Whether the text of this document is sure to be read as this very
    /// document: it holds no real.
    pub open spec fn is_exact(self) -> bool {
        self.is_legible(max_depth(), 0)
    }

    /// Whether the two documents are the same but for their reals: where one
    /// has a real, the other has one, too, and maybe another. Nesting beyond
    /// `depth` is not looked into and counts as a difference.
    pub open spec fn like(self, other: Json, depth: nat) -> bool
        decreases depth,
    {
        match (self, other) {
            (Json::Real(_), Json::Real(_)) => true,
            (Json::Array(items), Json::Array(others)) => depth > 0 && items.len() == others.len()
                && forall|i: int|
                0 <= i < items.len() ==> (#[trigger] items[i]).like(
                    others[i],
                    (depth - 1) as nat,
                ),
            (Json::Object(members), Json::Object(others)) => depth > 0 && members.dom()
                == others.dom() && forall|key: Seq<char>|
                members.contains_key(key) ==> (#[trigger] members[key]).like(
                    others[key],
                    (depth - 1) as nat,
                ),
            (Json::Real(_), _) => false,
            (Json::Array(_), _) => false,
            (Json::Object(_), _) => false,
            _ => self == other,
        }
    }

    /// Whether `read` is what the text of this document may be read as: the
    /// document, with other reals at most.
    pub open spec fn may_be_read_as(self, read: Json) -> bool {
        self.like(read, max_depth()) && (self.is_exact() ==> read == self)
    }
}

/// The exponent of an IEEE 754 double, as it stands in the bits.
pub open spec fn exponent_field(bits: u64) -> int {
    ((bits / 0x10_0000_0000_0000) % 0x800) as int
}

/// Whether two optional members are both missing, or both there and the same
/// but for their reals.
pub open spec fn like_members(before: Option<Json>, after: Option<Json>) -> bool {
    match (before, after) {
        (Some(b), Some(a)) => b.like(a, (max_depth() - 1) as nat),
        (None, None) => true,
        _ => false,
    }
}

/// How deep arrays and objects may nest in a text that is read as JSON.
pub open spec fn max_depth() -> nat {
    127
}

/// `serde_json::Value`, opaque: what one holds is `json`.
#[verifier::external_type_specification]
#[verifier::external_body]
pub struct ExValue(serde_json::Value);

/// `serde_json::Map`, opaque: what one holds is `members`.
#[verifier::external_type_specification]
#[verifier::external_body]
#[verifier::reject_recursive_types(K)]
#[verifier::reject_recursive_types(V)]
pub struct ExMap<K, V>(serde_json::Map<K, V>);

/// The document that `value` holds.
pub uninterp spec fn json(value: Value) -> Json;

/// The members that `map` holds.
pub uninterp spec fn members(map: serde_json::Map<String, Value>) -> Map<Seq<char>, Json>;

/// What `serde_json::from_slice` reads in `text`: the document, or else the
/// message that says why there is none.
pub uninterp spec fn json_document(text: Seq<u8>) -> Result<Json, Seq<char>>;

/// The text that `serde_json::to_vec` writes for `document`.
pub uninterp spec fn json_text(document: Json) -> Seq<u8>;

/// `serde_json::from_slice` into a `Value`. The document that comes back, or
/// the error's message, is a function of the text alone.
#[verifier::external_body]
pub(crate) fn from_slice(text: &[u8]) -> (r: Result<Value, String>)
    ensures
        match r {
            Ok(value) => json_document(text@) == Ok::<Json, Seq<char>>(json(value)),
            Err(message) => json_document(text@) == Err::<Json, Seq<char>>(message@),
        },
{
    serde_json::from_slice(text).map_err(|e| e.to_string())
}

/// `serde_json::to_vec` of a `Value`. It succeeds, since writing to a vector
/// cannot fail and every key is a string, and the text is a function of the
/// document: the members of an object come in the order of their keys. A
/// document whose nesting is within what the reader accepts and whose reals are
/// not close to the largest ones is read again from that text. Reals are
/// written with a point or an exponent and hence read as reals, but the reader
/// computes them with limited precision: one may come back as another, not far
/// from it. How far is not claimed.
#[verifier::external_body]
pub(crate) fn to_vec(value: &Value) -> (r: Result<Vec<u8>, String>)
    ensures
        r is Ok,
        r matches Ok(text) ==> text@ == json_text(json(*value)),
        r matches Ok(text) ==> (json(*value).is_readable() ==> json_document(text@) is Ok && json(
            *value,
        ).like(json_document(text@)->Ok_0, max_depth())),
        r matches Ok(text) ==> (json(*value).is_moderate() ==> json_document(
            text@,
        )->Ok_0.is_readable()),
{
    serde_json::to_vec(value).map_err(|e| e.to_string())
}

/// `Value::clone`: the clone holds the same document.
pub assume_specification[ <Value as Clone>::clone ](value: &Value) -> (r: Value)
    ensures
        json(r) == json(*value),
;

/// `Value::as_str`: the text, for a text and for nothing else.
pub assume_specification[ Value::as_str ](value: &Value) -> (r: Option<&str>)
    ensures
        match r {
            Some(text) => json(*value) == Json::Text(text@),
            None => !(json(*value) is Text),
        },
;

/// `Value::as_bool`: the truth value, for one and for nothing else.
pub assume_specification[ Value::as_bool ](value: &Value) -> (r: Option<bool>)
    ensures
        r == json(*value).as_bool(),
;

/// `Value::as_i64`: the integer, where the value is one that fits `i64`.
pub assume_specification[ Value::as_i64 ](value: &Value) -> (r: Option<i64>)
    ensures
        r == json(*value).as_i64(),
;

/// `Value::is_null`: whether the value is null.
pub assume_specification[ Value::is_null ](value: &Value) -> (r: bool)
    ensures
        r == (json(*value) is Null),
;

/// `Value::as_object_mut`: the members of an object, to be changed in place;
/// nothing for another value.
pub assume_specification[ Value::as_object_mut ](value: &mut Value) -> (r: Option<
    &mut serde_json::Map<String, Value>,
>)
    ensures
        match r {
            Some(map) => json(*old(value)) == Json::Object(members(*map)) && json(*final(value))
                == Json::Object(members(*final(map))),
            None => !(json(*old(value)) is Object) && json(*final(value)) == json(*old(value)),
        },
;

/// `Map::new`: no members.
pub assume_specification[ serde_json::Map::<String, Value>::new ]() -> (r: serde_json::Map<String, Value>)
    ensures
        (members(r) == Map::<Seq<char>, Json>::empty()),
;

/// `Map::insert`: the member is set, whether it was there or not.
pub assume_specification[ serde_json::Map::<String, Value>::insert ](
    map: &mut serde_json::Map<String, Value>,
    key: String,
    value: Value,
) -> (r: Option<Value>)
    ensures
        members(*final(map)) == members(*old(map)).insert(key@, json(value)),
        match r {
            Some(before) => members(*old(map)).contains_key(key@) && json(before) == members(
                *old(map),
            )[key@],
            None => !members(*old(map)).contains_key(key@),
        },
;

/// `Value::get` with a string key: the member of an object.
#[verifier::external_body]
pub(crate) fn get<'a>(value: &'a Value, key: &str) -> (r: Option<&'a Value>)
    ensures
        match r {
            Some(member) => json(*value).get(key@) == Some(json(*member)),
            None => json(*value).get(key@) is None,
        },
{
    value.get(key)
}

/// `Map::get_mut` with a string key: the member, to be changed in place.
#[verifier::external_body]
pub(crate) fn get_mut<'a>(map: &'a mut serde_json::Map<String, Value>, key: &str) -> (r: Option<
    &'a mut Value,
>)
    ensures
        match r {
            Some(member) => members(*old(map)).contains_key(key@) && members(*old(map))[key@]
                == json(*member) && members(*final(map)) == members(*old(map)).insert(
                key@,
                json(*final(member)),
            ),
            None => !members(*old(map)).contains_key(key@) && members(*final(map)) == members(
                *old(map),
            ),
        },
{
    map.get_mut(key)
}

/// `Value::String`: a text.
#[verifier::external_body]
pub(crate) fn text_value(text: String) -> (r: Value)
    ensures
        json(r) == Json::Text(text@),
{
    Value::String(text)
}

/// `Value::Bool`: a truth value.
#[verifier::external_body]
pub(crate) fn bool_value(b: bool) -> (r: Value)
    ensures
        json(r) == Json::Bool(b),
{
    Value::Bool(b)
}

/// `Value::from` of an `i64`: the integer.
#[verifier::external_body]
pub(crate) fn integer_value(n: i64) -> (r: Value)
    ensures
        json(r) == Json::Integer(n as int),
{
    Value::from(n)
}

/// `Value::Object`: an object with the given members.
#[verifier::external_body]
pub(crate) fn object_value(map: serde_json::Map<String, Value>) -> (r: Value)
    ensures
        json(r) == Json::Object(members(map)),
{
    Value::Object(map)
}

/// A document stays legible where a larger exponent is allowed.
pub proof fn legible_within_more(document: Json, depth: nat, top: int, more: int)
    requires
        document.is_legible(depth, top),
        top <= more,
    ensures
        document.is_legible(depth, more),
    decreases depth,
{
    match document {
        Json::Array(items) => {
            assert forall|i: int| 0 <= i < items.len() implies (#[trigger] items[i]).is_legible(
                (depth - 1) as nat,
                more,
            ) by {
                legible_within_more(items[i], (depth - 1) as nat, top, more);
            }
        },
        Json::Object(members) => {
            assert forall|key: Seq<char>| members.contains_key(key) implies (
            #[trigger] members[key]).is_legible((depth - 1) as nat, more) by {
                legible_within_more(members[key], (depth - 1) as nat, top, more);
            }
        },
        _ => {},
    }
}

/// Documents that differ in reals at most are the same where there is no real.
pub proof fn like_without_reals_is_same(document: Json, other: Json, depth: nat)
    requires
        document.is_legible(depth, 0),
        document.like(other, depth),
    ensures
        document == other,
    decreases depth,
{
    match (document, other) {
        (Json::Real(bits), _) => {},
        (Json::Array(items), Json::Array(others)) => {
            assert forall|i: int| 0 <= i < items.len() implies #[trigger] items[i] == others[i] by {
                like_without_reals_is_same(items[i], others[i], (depth - 1) as nat);
            }
            assert(items =~= others);
        },
        (Json::Object(members), Json::Object(others)) => {
            assert forall|key: Seq<char>| members.contains_key(key) implies #[trigger] members[key]
                == others[key] by {
                like_without_reals_is_same(members[key], others[key], (depth - 1) as nat);
            }
            assert(members =~= others);
        },
        _ => {},
    }
}

/// Being the same but for reals carries over from one document to the next.
pub proof fn like_is_transitive(first: Json, second: Json, third: Json, depth: nat)
    requires
        first.like(second, depth),
        second.like(third, depth),
    ensures
        first.like(third, depth),
    decreases depth,
{
    match (first, second, third) {
        (Json::Array(a), Json::Array(b), Json::Array(c)) => {
            assert forall|i: int| 0 <= i < a.len() implies (#[trigger] a[i]).like(
                c[i],
                (depth - 1) as nat,
            ) by {
                assert(b[i].like(c[i], (depth - 1) as nat));
                like_is_transitive(a[i], b[i], c[i], (depth - 1) as nat);
            }
        },
        (Json::Object(a), Json::Object(b), Json::Object(c)) => {
            assert forall|key: Seq<char>| a.contains_key(key) implies (#[trigger] a[key]).like(
                c[key],
                (depth - 1) as nat,
            ) by {
                assert(b.contains_key(key));
                assert(b[key].like(c[key], (depth - 1) as nat));
                like_is_transitive(a[key], b[key], c[key], (depth - 1) as nat);
            }
        },
        _ => {},
    }
}

/// A legible document is like itself.
pub proof fn like_itself(document: Json, depth: nat, top: int)
    requires
        document.is_legible(depth, top),
    ensures
        document.like(document, depth),
    decreases depth,
{
    match document {
        Json::Array(items) => {
            assert forall|i: int| 0 <= i < items.len() implies (#[trigger] items[i]).like(
                items[i],
                (depth - 1) as nat,
            ) by {
                like_itself(items[i], (depth - 1) as nat, top);
            }
        },
        Json::Object(members) => {
            assert forall|key: Seq<char>| members.contains_key(key) implies (
            #[trigger] members[key]).like(members[key], (depth - 1) as nat) by {
                like_itself(members[key], (depth - 1) as nat, top);
            }
        },
        _ => {},
    }
}

/// The text of the member `key`, where there is such a member and it is text.
pub fn text_member<'a>(value: &'a Value, key: &str) -> (r: Option<&'a str>)
    ensures
        optional_str(r) == json(*value).text_member(key@),
{
    match get(value, key) {
        Some(member) => member.as_str(),
        None => None,
    }
}

/// The text of the member `key` without the blanks around it, where there is
/// any left.
pub fn nonblank_member<'a>(value: &'a Value, key: &str) -> (r: Option<&'a str>)
    ensures
        optional_str(r) == json(*value).nonblank_member(key@),
{
    match text_member(value, key) {
        Some(text) => {
            let text = text.trim();
            if text.is_empty() {
                None
            } else {
                Some(text)
            }
        },
        None => None,
    }
}

/// The truth value of the member `key`, where there is such a member and it is
/// one.
pub fn bool_member(value: &Value, key: &str) -> (r: Option<bool>)
    ensures
        r == json(*value).bool_member(key@),
{
    match get(value, key) {
        Some(member) => member.as_bool(),
        None => None,
    }
}

/// The integer of the member `key`, where there is such a member and it is one
/// that fits `i64`.
pub fn i64_member(value: &Value, key: &str) -> (r: Option<i64>)
    ensures
        r == json(*value).i64_member(key@),
{
    match get(value, key) {
        Some(member) => member.as_i64(),
        None => None,
    }
}

} // verus!
