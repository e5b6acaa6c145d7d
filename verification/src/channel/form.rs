//! Requests that post a form.

use crate::channel::common::{field_names, field_value};
use crate::text::{split, split_joins, split_of_one_piece};
use crate::transport::{
    fields, insert_field, method_name, octets, post_method, Outbound, OutboundRequest,
};
use bytes::Bytes;
use http::{HeaderMap, HeaderValue};
use vstd::prelude::*;
use vstd::string::StringExecFns;
use vstd::utf8::encode_utf8;

verus! {

/// The octets that stand for themselves in a form: letters, digits and `-`,
/// `.`, `_` and `~`.
pub open spec fn is_unreserved(octet: u8) -> bool {
    ||| 0x30 <= octet <= 0x39
    ||| 0x41 <= octet <= 0x5a
    ||| 0x61 <= octet <= 0x7a
    ||| octet == 0x2d
    ||| octet == 0x2e
    ||| octet == 0x5f
    ||| octet == 0x7e
}

/// A hexadecimal digit, in upper case.
pub open spec fn hex_digit(n: u8) -> char {
    if n < 10 {
        (0x30 + n) as char
    } else {
        (0x37 + n) as char
    }
}

/// An octet as it stands in a form.
pub open spec fn encoded_octet(octet: u8) -> Seq<char> {
    if is_unreserved(octet) {
        seq![octet as char]
    } else {
        seq!['%', hex_digit(octet / 16), hex_digit(octet % 16)]
    }
}

/// The octets as they stand in a form.
pub open spec fn encoded_octets(octets: Seq<u8>) -> Seq<char>
    decreases octets.len(),
{
    if octets.len() == 0 {
        Seq::empty()
    } else {
        encoded_octets(octets.drop_last()) + encoded_octet(octets.last())
    }
}

/// The text as it stands in a form: the octets of its UTF-8 encoding.
pub open spec fn percent_encoded(text: Seq<char>) -> Seq<char> {
    encoded_octets(encode_utf8(text))
}

/// One field of a form: name, equals sign, value.
pub open spec fn encoded_field(name: Seq<char>, value: Seq<char>) -> Seq<char> {
    percent_encoded(name) + seq!['='] + percent_encoded(value)
}

/// The fields of a form with an ampersand between any two.
pub open spec fn encoded_form(form: Seq<(Seq<char>, Seq<char>)>) -> Seq<char>
    decreases form.len(),
{
    if form.len() == 0 {
        Seq::empty()
    } else {
        let last = encoded_field(form.last().0, form.last().1);
        if form.len() == 1 {
            last
        } else {
            encoded_form(form.drop_last()) + seq!['&'] + last
        }
    }
}

/// What the fields of a form say.
pub open spec fn form_fields(form: Seq<(&str, &str)>) -> Seq<(Seq<char>, Seq<char>)> {
    form.map_values(|field: (&str, &str)| (field.0@, field.1@))
}

/// The request that posts `form` to `uri` and asks for JSON.
pub open spec fn posted(uri: Seq<char>, form: Seq<(Seq<char>, Seq<char>)>) -> Outbound {
    Outbound {
        method: "POST"@,
        uri,
        fields: Map::empty().insert(
            "content-type"@,
            field_value("application/x-www-form-urlencoded"@),
        ).insert("accept"@, field_value("application/json"@)),
        body: encode_utf8(encoded_form(form)),
    }
}

/// Text as it stands in a form holds neither an ampersand nor an equals sign.
pub proof fn encoded_text_holds_no_separator(text: Seq<char>)
    ensures
        !percent_encoded(text).contains('&'),
        !percent_encoded(text).contains('='),
{
    encoded_octets_hold_no_separator(encode_utf8(text));
}

proof fn encoded_octets_hold_no_separator(octets: Seq<u8>)
    ensures
        !encoded_octets(octets).contains('&'),
        !encoded_octets(octets).contains('='),
    decreases octets.len(),
{
    if octets.len() > 0 {
        let before = encoded_octets(octets.drop_last());
        let last = encoded_octet(octets.last());
        encoded_octets_hold_no_separator(octets.drop_last());
        assert forall|i: int| 0 <= i < (before + last).len() implies (before + last)[i] != '&' && (
        before + last)[i] != '=' by {
            if i < before.len() {
                assert(before.contains(before[i]));
            } else {
                assert((before + last)[i] == last[i - before.len()]);
            }
        }
    }
}

/// A form falls apart at the ampersands into exactly its fields, whatever their
/// names and values hold.
pub proof fn forms_fall_apart_into_their_fields(form: Seq<(Seq<char>, Seq<char>)>)
    requires
        form.len() > 0,
    ensures
        split(encoded_form(form), '&') == form.map_values(
            |field: (Seq<char>, Seq<char>)| encoded_field(field.0, field.1),
        ),
    decreases form.len(),
{
    let name = percent_encoded(form.last().0);
    let value = percent_encoded(form.last().1);
    let last = encoded_field(form.last().0, form.last().1);
    encoded_text_holds_no_separator(form.last().0);
    encoded_text_holds_no_separator(form.last().1);
    assert forall|i: int| 0 <= i < last.len() implies last[i] != '&' by {
        if i < name.len() {
            assert(name.contains(name[i]));
        } else if i > name.len() {
            assert(value.contains(value[i - name.len() - 1]));
        }
    }
    split_of_one_piece(last, '&');
    let encoded = |field: (Seq<char>, Seq<char>)| encoded_field(field.0, field.1);
    if form.len() == 1 {
        assert(form.map_values(encoded) == seq![last]);
    } else {
        forms_fall_apart_into_their_fields(form.drop_last());
        split_joins(encoded_form(form.drop_last()), last, '&');
        assert(form.map_values(encoded) == form.drop_last().map_values(encoded) + seq![last]);
    }
}

/// The number that a hexadecimal digit stands for.
pub open spec fn digit_value(c: char) -> int {
    if '0' <= c <= '9' {
        c as int - '0' as int
    } else {
        c as int - 'A' as int + 10
    }
}

/// The octets that a text in a form stands for: a percent sign and two
/// hexadecimal digits are one octet, and any other character is itself.
pub open spec fn decoded_octets(text: Seq<char>) -> Seq<u8>
    decreases text.len(),
{
    if text.len() == 0 {
        Seq::empty()
    } else if text[0] == '%' && text.len() >= 3 {
        seq![(digit_value(text[1]) * 16 + digit_value(text[2])) as u8] + decoded_octets(
            text.skip(3),
        )
    } else {
        seq![text[0] as u8] + decoded_octets(text.skip(1))
    }
}

proof fn decoding_takes_octet_by_octet(octet: u8, rest: Seq<char>)
    ensures
        decoded_octets(encoded_octet(octet) + rest) == seq![octet] + decoded_octets(rest),
{
    let text = encoded_octet(octet) + rest;
    if is_unreserved(octet) {
        assert(text[0] == octet as char);
        assert(octet as char as u8 == octet);
        assert(text.skip(1) =~= rest);
    } else {
        assert(text[0] == '%');
        assert(text[1] == hex_digit(octet / 16));
        assert(text[2] == hex_digit(octet % 16));
        assert(digit_value(hex_digit(octet / 16)) == octet / 16);
        assert(digit_value(hex_digit(octet % 16)) == octet % 16);
        assert((octet / 16) * 16 + octet % 16 == octet);
        assert(text.skip(3) =~= rest);
    }
}

proof fn decoding_undoes_encoding_before(octets: Seq<u8>, rest: Seq<char>)
    ensures
        decoded_octets(encoded_octets(octets) + rest) == octets + decoded_octets(rest),
    decreases octets.len(),
{
    if octets.len() == 0 {
        assert(encoded_octets(octets) + rest =~= rest);
        assert(octets + decoded_octets(rest) =~= decoded_octets(rest));
    } else {
        let last = encoded_octet(octets.last());
        decoding_undoes_encoding_before(octets.drop_last(), last + rest);
        decoding_takes_octet_by_octet(octets.last(), rest);
        assert(encoded_octets(octets) + rest =~= encoded_octets(octets.drop_last()) + (last
            + rest));
        assert(octets.drop_last() + (seq![octets.last()] + decoded_octets(rest)) =~= octets
            + decoded_octets(rest));
    }
}

/// A text in a form decodes to the octets of the text that was encoded.
pub proof fn decoding_undoes_encoding(text: Seq<char>)
    ensures
        decoded_octets(percent_encoded(text)) == encode_utf8(text),
{
    decoding_undoes_encoding_before(encode_utf8(text), Seq::empty());
    assert(percent_encoded(text) + Seq::<char>::empty() =~= percent_encoded(text));
    assert(encode_utf8(text) + decoded_octets(Seq::empty()) =~= encode_utf8(text));
}

/// Letters, digits and `-`, `.`, `_` and `~` stand for themselves in a form, and
/// every other octet is three characters.
pub proof fn only_reserved_octets_are_escaped(octet: u8)
    ensures
        ('a' as u8 <= octet <= 'z' as u8) || ('A' as u8 <= octet <= 'Z' as u8) || ('0' as u8
            <= octet <= '9' as u8) || octet == '-' as u8 || octet == '.' as u8 || octet
            == '_' as u8 || octet == '~' as u8 <==> encoded_octet(octet).len() == 1,
        encoded_octet(octet).len() == 1 || encoded_octet(octet).len() == 3,
        encoded_octet(octet).len() == 1 ==> encoded_octet(octet)[0] == octet as char,
        encoded_octet(octet).len() == 3 ==> encoded_octet(octet)[0] == '%',
{
}

/// A form names its fields in order, each with an equals sign and its value.
pub proof fn forms_list_their_fields(form: Seq<(Seq<char>, Seq<char>)>, i: int)
    requires
        0 <= i < form.len(),
    ensures
        split(encoded_form(form), '&').len() == form.len(),
        split(encoded_form(form), '&')[i] == percent_encoded(form[i].0) + seq!['=']
            + percent_encoded(form[i].1),
{
    forms_fall_apart_into_their_fields(form);
}

/// A hexadecimal digit, in upper case.
fn hex_char(n: u8) -> (r: char)
    requires
        n < 16,
    ensures
        r == hex_digit(n),
{
    if n < 10 {
        (0x30 + n) as char
    } else {
        (0x37 + n) as char
    }
}

/// The text as it stands in a form.
pub fn percent_encode(text: &str) -> (r: String)
    ensures
        r@ == percent_encoded(text@),
{
    let octets = text.as_bytes();
    let mut encoded = String::new();
    let mut i: usize = 0;
    while i < octets.len()
        invariant
            i <= octets@.len(),
            encoded@ == encoded_octets(octets@.take(i as int)),
        decreases octets@.len() - i,
    {
        let octet: u8 = octets[i];
        assert(octets@.take(i + 1).drop_last() == octets@.take(i as int));
        assert(octets@.take(i + 1).last() == octet);
        let ghost before = encoded@;
        let unreserved = matches!(
            octet,
            0x30..=0x39 | 0x41..=0x5a | 0x61..=0x7a | 0x2d | 0x2e | 0x5f | 0x7e
        );
        if unreserved {
            encoded.push(octet as char);
        } else {
            encoded.push('%');
            encoded.push(hex_char(octet / 16));
            encoded.push(hex_char(octet % 16));
        }
        assert(encoded@ == before + encoded_octet(octet));
        i = i + 1;
    }
    assert(octets@.take(i as int) == octets@);
    encoded
}

/// The fields of a form with an ampersand between any two.
pub fn form_body(form: &[(&str, &str)]) -> (r: String)
    ensures
        r@ == encoded_form(form_fields(form@)),
{
    proof {
        reveal_strlit("=");
        assert("="@ == seq!['=']);
        reveal_strlit("&");
        assert("&"@ == seq!['&']);
    }
    let mut body = String::new();
    let mut i: usize = 0;
    while i < form.len()
        invariant
            i <= form@.len(),
            body@ == encoded_form(form_fields(form@).take(i as int)),
            "="@ == seq!['='],
            "&"@ == seq!['&'],
        decreases form@.len() - i,
    {
        let ghost seen = form_fields(form@).take(i + 1);
        assert(seen.drop_last() == form_fields(form@).take(i as int));
        assert(seen.last() == (form@[i as int].0@, form@[i as int].1@));
        let field = percent_encode(form[i].0).concat("=").concat(
            percent_encode(form[i].1).as_str(),
        );
        if i > 0 {
            body = body.concat("&").concat(field.as_str());
        } else {
            body = field;
        }
        i = i + 1;
    }
    assert(form_fields(form@).take(i as int) == form_fields(form@));
    body
}

/// The request that posts `form` to `uri` and asks for JSON.
pub fn form_request(uri: &str, form: &[(&str, &str)]) -> (r: OutboundRequest)
    ensures
        r@ == posted(uri@, form_fields(form@)),
{
    proof {
        field_names();
        reveal_strlit("application/x-www-form-urlencoded");
        reveal_strlit("application/json");
    }
    let mut headers = HeaderMap::new();
    insert_field(
        &mut headers,
        "content-type",
        HeaderValue::from_static("application/x-www-form-urlencoded"),
    );
    insert_field(&mut headers, "accept", HeaderValue::from_static("application/json"));
    OutboundRequest {
        method: post_method(),
        uri: uri.to_owned(),
        headers,
        body: Bytes::from(form_body(form)),
    }
}

/// A text is encoded so that it decodes to its octets, with nothing escaped that
/// need not be.
pub proof fn encoded_texts_decode(text: &str, encoded: String)
    requires
        call_ensures(percent_encode, (text,), encoded),
    ensures
        decoded_octets(encoded@) == encode_utf8(text@),
        encoded@ == encoded_octets(encode_utf8(text@)),
        !encoded@.contains('&'),
        !encoded@.contains('='),
{
    decoding_undoes_encoding(text@);
    encoded_text_holds_no_separator(text@);
}

/// The text of a form is its fields in order, each the encoded name, an equals
/// sign and the encoded value, with an ampersand between any two; and posting it
/// sends that text to the URL, as a form, and accepts JSON.
pub proof fn posted_forms_list_their_fields(
    uri: &str,
    form: &[(&str, &str)],
    body: String,
    request: OutboundRequest,
    i: int,
)
    requires
        call_ensures(form_body, (form,), body),
        call_ensures(form_request, (uri, form), request),
        0 <= i < form@.len(),
    ensures
        split(body@, '&').len() == form@.len(),
        split(body@, '&')[i] == percent_encoded(form@[i].0@) + seq!['='] + percent_encoded(
            form@[i].1@,
        ),
        method_name(request.method) == "POST"@,
        request.uri@ == uri@,
        octets(request.body) == encode_utf8(body@),
        fields(request.headers) == Map::<Seq<char>, Seq<Seq<u8>>>::empty().insert(
            "content-type"@,
            seq![encode_utf8("application/x-www-form-urlencoded"@)],
        ).insert("accept"@, seq![encode_utf8("application/json"@)]),
{
    forms_list_their_fields(form_fields(form@), i);
}

} // verus!
