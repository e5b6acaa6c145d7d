//! Requests as they leave for an upstream: bodies, header fields, methods and
//! status codes.

use bytes::Bytes;
use http::header::InvalidHeaderValue;
use http::{HeaderMap, HeaderValue, Method, StatusCode};
use vstd::prelude::*;
use vstd::utf8::encode_utf8;

verus! {

/// `bytes::Bytes`, opaque: what one holds is `octets`.
#[verifier::external_type_specification]
#[verifier::external_body]
pub struct ExBytes(bytes::Bytes);

/// `http::HeaderMap`, opaque: what one holds is `fields`.
#[verifier::external_type_specification]
#[verifier::external_body]
#[verifier::reject_recursive_types(T)]
pub struct ExHeaderMap<T>(http::HeaderMap<T>);

/// `http::HeaderValue`, opaque: what one holds is `value_octets`.
#[verifier::external_type_specification]
#[verifier::external_body]
pub struct ExHeaderValue(http::HeaderValue);

/// `http::header::InvalidHeaderValue`, opaque.
#[verifier::external_type_specification]
#[verifier::external_body]
pub struct ExInvalidHeaderValue(http::header::InvalidHeaderValue);

/// `http::Method`, opaque: what one says is `method_name`.
#[verifier::external_type_specification]
#[verifier::external_body]
pub struct ExMethod(http::Method);

/// `http::StatusCode`, opaque: what one says is `status_number`.
#[verifier::external_type_specification]
#[verifier::external_body]
pub struct ExStatusCode(http::StatusCode);

/// The octets that `bytes` holds.
pub uninterp spec fn octets(bytes: Bytes) -> Seq<u8>;

/// The octets of a header field's value.
pub uninterp spec fn value_octets(value: HeaderValue) -> Seq<u8>;

/// The header fields that `headers` holds: to each name, in lower case, its
/// values in order.
pub uninterp spec fn fields(headers: HeaderMap<HeaderValue>) -> Map<Seq<char>, Seq<Seq<u8>>>;

/// How many names `headers` holds (`HeaderMap::keys_len`).
pub uninterp spec fn name_count(headers: HeaderMap<HeaderValue>) -> nat;

/// The name of a method, such as `GET` (`Method::as_str`).
pub uninterp spec fn method_name(method: Method) -> Seq<char>;

/// The number of a status (`StatusCode::as_u16`).
pub uninterp spec fn status_number(status: StatusCode) -> u16;

/// What `StatusCode`'s `Display` writes for the status with this number: the
/// number and the reason phrase.
pub uninterp spec fn status_label(number: u16) -> Seq<char>;

/// Whether `http::Uri` accepts `text`.
pub uninterp spec fn is_uri(text: Seq<char>) -> bool;

/// `Bytes::new`: no octets.
pub assume_specification[ Bytes::new ]() -> (r: Bytes)
    ensures
        octets(r) == Seq::<u8>::empty(),
;

/// `Bytes::from` of a vector: the vector's octets.
pub assume_specification[ <Bytes as From<Vec<u8>>>::from ](vec: Vec<u8>) -> (r: Bytes)
    ensures
        octets(r) == vec@,
;

/// `Bytes::from` of a string: the octets of its UTF-8 encoding.
pub assume_specification[ <Bytes as From<String>>::from ](s: String) -> (r: Bytes)
    ensures
        octets(r) == encode_utf8(s@),
;

/// `Bytes::clone`: the same octets.
pub assume_specification[ <Bytes as Clone>::clone ](bytes: &Bytes) -> (r: Bytes)
    ensures
        octets(r) == octets(*bytes),
;

/// `Bytes` as a slice: its octets.
pub assume_specification[ <Bytes as core::ops::Deref>::deref ](bytes: &Bytes) -> (r: &[u8])
    ensures
        r@ == octets(*bytes),
;

/// `Method::clone`: the same method.
pub assume_specification[ <Method as Clone>::clone ](method: &Method) -> (r: Method)
    ensures
        method_name(r) == method_name(*method),
;

/// `Method::GET`.
#[verifier::external_body]
pub(crate) fn get_method() -> (r: Method)
    ensures
        method_name(r) == "GET"@,
{
    Method::GET
}

/// `Method::POST`.
#[verifier::external_body]
pub(crate) fn post_method() -> (r: Method)
    ensures
        method_name(r) == "POST"@,
{
    Method::POST
}

/// `StatusCode::is_success`: the numbers from 200 to 299.
pub assume_specification[ StatusCode::is_success ](status: &StatusCode) -> (r: bool)
    ensures
        r == (200 <= status_number(*status) <= 299),
;

/// `StatusCode`'s `Display`. Only that the result is a function of the number
/// is claimed.
#[verifier::external_body]
pub(crate) fn status_text(status: StatusCode) -> (r: String)
    ensures
        r@ == status_label(status_number(status)),
{
    status.to_string()
}

/// The parser of `http::Uri`. Only that acceptance is a function of the text is
/// claimed.
#[verifier::external_body]
pub(crate) fn accepts_uri(text: &str) -> (r: bool)
    ensures
        r == is_uri(text@),
{
    text.parse::<http::Uri>().is_ok()
}

/// A character that may stand in a header field's value: a tab, or any from
/// the space up but the delete character.
pub open spec fn is_value_char(c: char) -> bool {
    c as u32 == 9 || (c as u32 >= 32 && c as u32 != 127)
}

/// A tab, or one of the characters of ASCII that can be seen.
pub open spec fn is_visible_ascii(c: char) -> bool {
    c as u32 == 9 || 32 <= c as u32 <= 126
}

/// Text that can be a header field's value.
pub open spec fn is_value_text(text: Seq<char>) -> bool {
    forall|i: int| 0 <= i < text.len() ==> is_value_char(#[trigger] text[i])
}

/// A name of a header field in lower case: letters, digits and hyphens, at most
/// 64 of them.
pub open spec fn is_field_name(name: Seq<char>) -> bool {
    &&& 1 <= name.len() <= 64
    &&& forall|i: int|
        0 <= i < name.len() ==> {
            ||| 'a' <= #[trigger] name[i] <= 'z'
            ||| '0' <= name[i] <= '9'
            ||| name[i] == '-'
        }
}

/// How many names a `HeaderMap` is sure to take in.
pub open spec fn max_names() -> nat {
    6553
}

/// `HeaderValue::from_str`: the text's octets, where every character may stand
/// in a value; an error for other text.
pub assume_specification[ HeaderValue::from_str ](src: &str) -> (r: Result<
    HeaderValue,
    InvalidHeaderValue,
>)
    ensures
        r is Ok <==> is_value_text(src@),
        r matches Ok(value) ==> value_octets(value) == encode_utf8(src@),
;

/// `HeaderValue::from_static`: the text's octets. It panics on a character that
/// is neither a tab nor visible ASCII: such text is left out.
pub assume_specification[ HeaderValue::from_static ](src: &'static str) -> (r: HeaderValue)
    requires
        forall|i: int| 0 <= i < src@.len() ==> is_visible_ascii(#[trigger] src@[i]),
    ensures
        value_octets(r) == encode_utf8(src@),
;

/// `HeaderMap::new`: no fields.
pub assume_specification[ HeaderMap::<HeaderValue>::new ]() -> (r: HeaderMap<HeaderValue>)
    ensures
        (fields(r) == Map::<Seq<char>, Seq<Seq<u8>>>::empty()),
        name_count(r) == 0,
;

/// `HeaderMap::clone`: the same fields.
#[verifier::external_body]
pub(crate) fn clone_headers(headers: &HeaderMap<HeaderValue>) -> (r: HeaderMap<HeaderValue>)
    ensures
        fields(r) == fields(*headers),
        name_count(r) == name_count(*headers),
{
    headers.clone()
}

/// `HeaderMap::insert`: the field has this one value afterwards, and the others
/// are as before. The map refuses to grow beyond a size that it cannot reach
/// from `max_names` names, and panics on a text that is no field name: both are
/// left out.
#[verifier::external_body]
pub(crate) fn insert_field(
    headers: &mut HeaderMap<HeaderValue>,
    name: &'static str,
    value: HeaderValue,
)
    requires
        is_field_name(name@),
        name_count(*old(headers)) <= max_names(),
    ensures
        fields(*final(headers)) == fields(*old(headers)).insert(name@, seq![value_octets(value)]),
        name_count(*final(headers)) <= name_count(*old(headers)) + 1,
{
    headers.insert(name, value);
}

/// `HeaderMap::remove`: the field is gone with all its values, and the others
/// are as before.
#[verifier::external_body]
pub(crate) fn remove_field(headers: &mut HeaderMap<HeaderValue>, name: &str)
    requires
        is_field_name(name@),
    ensures
        fields(*final(headers)) == fields(*old(headers)).remove(name@),
        name_count(*final(headers)) <= name_count(*old(headers)),
{
    headers.remove(name);
}

/// A request to an upstream.
pub struct OutboundRequest {
    pub method: Method,
    pub uri: String,
    pub headers: HeaderMap<HeaderValue>,
    pub body: Bytes,
}

/// What an `OutboundRequest` says.
pub struct Outbound {
    pub method: Seq<char>,
    pub uri: Seq<char>,
    pub fields: Map<Seq<char>, Seq<Seq<u8>>>,
    pub body: Seq<u8>,
}

impl View for OutboundRequest {
    type V = Outbound;

    open spec fn view(&self) -> Outbound {
        Outbound {
            method: method_name(self.method),
            uri: self.uri@,
            fields: fields(self.headers),
            body: octets(self.body),
        }
    }
}

} // verus!
