//! What channels with an API key have in common: where the upstream is, and
//! how the key gets into the headers.

use crate::channel::error::{ChannelError, ChannelFault};
use crate::json::{json, nonblank_member, Json};
use crate::transport::{
    accepts_uri, fields, insert_field, is_field_name, is_uri, is_value_text, max_names, name_count,
};
use http::{HeaderMap, HeaderValue, Method};
use bytes::Bytes;
use serde_json::Value;
use vstd::prelude::*;
use vstd::string::{StrSliceExecFns, StringExecFns};
use vstd::utf8::encode_utf8;

verus! {

/// What a channel is told to prepare a request.
pub struct PrepareCtx<'a> {
    pub secret: &'a Value,
    pub provider_settings: &'a Value,
    pub upstream_model_id: &'a str,
    pub method: Method,
    pub path: &'a str,
    pub query: Option<&'a str>,
    pub headers: &'a HeaderMap<HeaderValue>,
    pub body: Bytes,
}

/// The values of a header field that has one value, `text`.
pub open spec fn field_value(text: Seq<char>) -> Seq<Seq<u8>> {
    seq![encode_utf8(text)]
}

/// The value of the field `authorization` that carries `token`.
pub open spec fn bearer(token: Seq<char>) -> Seq<char> {
    "Bearer "@ + token
}

/// The fault of a credential that no header field can carry.
pub open spec fn unsendable() -> ChannelFault {
    ChannelFault::InvalidCredential("credential is not a valid header value"@)
}

/// `text` without the slashes that it ends with.
pub open spec fn without_end_slashes(text: Seq<char>) -> Seq<char>
    decreases text.len(),
{
    if text.len() > 0 && text.last() == '/' {
        without_end_slashes(text.drop_last())
    } else {
        text
    }
}

/// `text` without the slashes that it begins with.
pub open spec fn without_leading_slashes(text: Seq<char>) -> Seq<char>
    decreases text.len(),
{
    if text.len() > 0 && text.first() == '/' {
        without_leading_slashes(text.drop_first())
    } else {
        text
    }
}

/// `path` below `base`, with one slash between them.
pub open spec fn joined(base: Seq<char>, path: Seq<char>) -> Seq<char> {
    without_end_slashes(base) + seq!['/'] + without_leading_slashes(path)
}

/// The URL of `path` below `base`, or the fault where that is no URL.
pub open spec fn url(base: Seq<char>, path: Seq<char>) -> Result<Seq<char>, ChannelFault> {
    if is_uri(joined(base, path)) {
        Ok(joined(base, path))
    } else {
        Err(ChannelFault::Build("invalid upstream url: "@ + joined(base, path)))
    }
}

/// Where the upstream is: the setting `base_url`, which has to be there.
pub open spec fn base_url(settings: Json) -> Result<Seq<char>, ChannelFault> {
    match settings.nonblank_member("base_url"@) {
        Some(base) => Ok(base),
        None => Err(ChannelFault::MissingSetting("base_url"@)),
    }
}

/// The API key of a credential, which has to be there.
pub open spec fn api_key(secret: Json) -> Result<Seq<char>, ChannelFault> {
    match secret.nonblank_member("api_key"@) {
        Some(key) => Ok(key),
        None => Err(ChannelFault::InvalidCredential("missing api_key"@)),
    }
}

/// What is cut off at the end is slashes, and all of them.
pub proof fn cutting_the_end_cuts_slashes(text: Seq<char>)
    ensures
        ({
            let rest = without_end_slashes(text);
            &&& rest.len() <= text.len()
            &&& rest == text.take(rest.len() as int)
            &&& forall|i: int| rest.len() <= i < text.len() ==> #[trigger] text[i] == '/'
            &&& rest.len() > 0 ==> rest.last() != '/'
        }),
    decreases text.len(),
{
    if text.len() > 0 && text.last() == '/' {
        cutting_the_end_cuts_slashes(text.drop_last());
        let rest = without_end_slashes(text);
        assert(text.drop_last().take(rest.len() as int) =~= text.take(rest.len() as int));
        assert forall|i: int| rest.len() <= i < text.len() implies #[trigger] text[i] == '/' by {
            if i < text.len() - 1 {
                assert(text.drop_last()[i] == '/');
            }
        }
    } else {
        assert(text.take(text.len() as int) =~= text);
    }
}

/// What is cut off at the beginning is slashes, and all of them.
pub proof fn cutting_the_start_cuts_slashes(text: Seq<char>)
    ensures
        ({
            let rest = without_leading_slashes(text);
            let cut = text.len() - rest.len();
            &&& cut >= 0
            &&& rest == text.skip(cut)
            &&& forall|i: int| 0 <= i < cut ==> #[trigger] text[i] == '/'
            &&& rest.len() > 0 ==> rest.first() != '/'
        }),
    decreases text.len(),
{
    if text.len() > 0 && text.first() == '/' {
        cutting_the_start_cuts_slashes(text.drop_first());
        let rest = without_leading_slashes(text);
        let cut = text.len() - rest.len();
        assert(text.drop_first().skip(cut - 1) =~= text.skip(cut));
        assert forall|i: int| 0 <= i < cut implies #[trigger] text[i] == '/' by {
            if i > 0 {
                assert(text.drop_first()[i - 1] == '/');
            }
        }
    } else {
        assert(text.skip(0) =~= text);
    }
}

/// `uri` is `path` below `base`: the one without the slashes at its end, one
/// slash, the other without the slashes at its beginning.
pub open spec fn is_below(uri: Seq<char>, base: Seq<char>, path: Seq<char>) -> bool {
    exists|host: Seq<char>, rest: Seq<char>| #[trigger]
        stripped(base, host, path, rest) && uri == host + seq!['/'] + rest
}

/// `host` and `rest` are what is left of `base` and `path` without the slashes
/// where they meet.
pub open spec fn stripped(
    base: Seq<char>,
    host: Seq<char>,
    path: Seq<char>,
    rest: Seq<char>,
) -> bool {
    &&& host.is_prefix_of(base)
    &&& forall|i: int| host.len() <= i < base.len() ==> #[trigger] base[i] == '/'
    &&& host.len() > 0 ==> host.last() != '/'
    &&& rest.is_suffix_of(path)
    &&& forall|i: int| 0 <= i < path.len() - rest.len() ==> #[trigger] path[i] == '/'
    &&& rest.len() > 0 ==> rest.first() != '/'
}

/// Exactly one slash joins a path to the URL that it stands below.
pub proof fn one_slash_joins(base: Seq<char>, path: Seq<char>)
    ensures
        is_below(joined(base, path), base, path),
{
    cutting_the_end_cuts_slashes(base);
    cutting_the_start_cuts_slashes(path);
    let host = without_end_slashes(base);
    let rest = without_leading_slashes(path);
    assert(rest =~= path.subrange(path.len() - rest.len(), path.len() as int));
    assert(stripped(base, host, path, rest));
}

/// There is one URL of a path below another.
pub proof fn below_is_unique(base: Seq<char>, path: Seq<char>, uri: Seq<char>)
    requires
        is_below(uri, base, path),
    ensures
        uri == joined(base, path),
{
    let (host, rest) = choose|host: Seq<char>, rest: Seq<char>| #[trigger]
        stripped(base, host, path, rest) && uri == host + seq!['/'] + rest;
    cutting_the_end_cuts_slashes(base);
    cutting_the_start_cuts_slashes(path);
    let h = without_end_slashes(base);
    let t = without_leading_slashes(path);
    if host.len() < h.len() {
        assert(base[h.len() - 1] == '/');
    }
    if h.len() < host.len() {
        assert(base[host.len() - 1] == host.last());
    }
    assert(host =~= h);
    if rest.len() < t.len() {
        assert(path[path.len() - t.len()] == '/');
        assert(t.first() == path[path.len() - t.len()]);
    }
    if t.len() < rest.len() {
        assert(path[path.len() - rest.len()] == '/');
        assert(rest.first() == path.subrange(path.len() - rest.len(), path.len() as int)[0]);
    }
    assert(rest =~= t);
}

/// The text or the fault that a result holds.
pub open spec fn text_result(result: Result<&str, ChannelError>) -> Result<
    Seq<char>,
    ChannelFault,
> {
    match result {
        Ok(text) => Ok(text@),
        Err(e) => Err(e@),
    }
}

/// The string or the fault that a result holds.
pub open spec fn string_result(result: Result<String, ChannelError>) -> Result<
    Seq<char>,
    ChannelFault,
> {
    match result {
        Ok(text) => Ok(text@),
        Err(e) => Err(e@),
    }
}

/// Where the upstream is.
pub fn resolve_base_url(settings: &Value) -> (r: Result<&str, ChannelError>)
    ensures
        text_result(r) == base_url(json(*settings)),
{
    match nonblank_member(settings, "base_url") {
        Some(base) => Ok(base),
        None => Err(ChannelError::MissingSetting("base_url")),
    }
}

/// The API key of a credential.
pub fn require_api_key(secret: &Value) -> (r: Result<&str, ChannelError>)
    ensures
        text_result(r) == api_key(json(*secret)),
{
    match nonblank_member(secret, "api_key") {
        Some(key) => Ok(key),
        None => Err(ChannelError::InvalidCredential("missing api_key".to_owned())),
    }
}

/// `text` without the slashes that it ends with.
fn trim_end_slashes(text: &str) -> (r: &str)
    ensures
        r@ == without_end_slashes(text@),
{
    let mut end: usize = text.unicode_len();
    assert(text@.take(end as int) == text@);
    while end > 0 && text.get_char(end - 1) == '/'
        invariant
            end <= text@.len(),
            without_end_slashes(text@) == without_end_slashes(text@.take(end as int)),
        decreases end,
    {
        assert(text@.take(end as int).drop_last() == text@.take(end - 1));
        end = end - 1;
    }
    assert(text@.subrange(0, end as int) == text@.take(end as int));
    text.substring_char(0, end)
}

/// `text` without the slashes that it begins with.
fn trim_leading_slashes(text: &str) -> (r: &str)
    ensures
        r@ == without_leading_slashes(text@),
{
    let length: usize = text.unicode_len();
    let mut start: usize = 0;
    assert(text@.skip(0) == text@);
    while start < length && text.get_char(start) == '/'
        invariant
            start <= length,
            length == text@.len(),
            without_leading_slashes(text@) == without_leading_slashes(text@.skip(start as int)),
        decreases length - start,
    {
        assert(text@.skip(start as int).drop_first() == text@.skip(start + 1));
        start = start + 1;
    }
    assert(text@.subrange(start as int, length as int) == text@.skip(start as int));
    text.substring_char(start, length)
}

/// The URL of `path` below `base`.
pub fn join_url(base: &str, path: &str) -> (r: Result<String, ChannelError>)
    ensures
        string_result(r) == url(base@, path@),
{
    proof {
        reveal_strlit("/");
        assert("/"@ == seq!['/']);
    }
    let joined_text = trim_end_slashes(base).to_owned().concat("/").concat(
        trim_leading_slashes(path),
    );
    if accepts_uri(joined_text.as_str()) {
        Ok(joined_text)
    } else {
        Err(
            ChannelError::Build(
                "invalid upstream url: ".to_owned().concat(joined_text.as_str()),
            ),
        )
    }
}

/// Sets the field `name` to `text`, where a field can carry it.
pub fn inject_header(
    headers: &mut HeaderMap<HeaderValue>,
    name: &'static str,
    text: &str,
) -> (r: Result<(), ChannelError>)
    requires
        is_field_name(name@),
        name_count(*old(headers)) <= max_names(),
    ensures
        match r {
            Ok(_) => is_value_text(text@) && fields(*final(headers)) == fields(
                *old(headers),
            ).insert(name@, field_value(text@)),
            Err(e) => !is_value_text(text@) && e@ == unsendable() && fields(*final(headers))
                == fields(*old(headers)),
        },
        name_count(*final(headers)) <= name_count(*old(headers)) + 1,
{
    match HeaderValue::from_str(text) {
        Ok(value) => {
            insert_field(headers, name, value);
            Ok(())
        },
        Err(_) => Err(
            ChannelError::InvalidCredential("credential is not a valid header value".to_owned()),
        ),
    }
}

/// Sets the field `authorization` to carry `token`.
pub fn inject_bearer(headers: &mut HeaderMap<HeaderValue>, token: &str) -> (r: Result<
    (),
    ChannelError,
>)
    requires
        name_count(*old(headers)) <= max_names(),
    ensures
        match r {
            Ok(_) => is_value_text(bearer(token@)) && fields(*final(headers)) == fields(
                *old(headers),
            ).insert("authorization"@, field_value(bearer(token@))),
            Err(e) => !is_value_text(bearer(token@)) && e@ == unsendable() && fields(
                *final(headers),
            ) == fields(*old(headers)),
        },
        name_count(*final(headers)) <= name_count(*old(headers)) + 1,
{
    proof {
        field_names();
    }
    let value = "Bearer ".to_owned().concat(token);
    inject_header(headers, "authorization", value.as_str())
}

/// The names of the fields that the library sets are field names.
pub proof fn field_names()
    ensures
        is_field_name("authorization"@),
        is_field_name("x-api-key"@),
        is_field_name("x-goog-api-key"@),
        is_field_name("anthropic-version"@),
        is_field_name("accept"@),
        is_field_name("content-type"@),
{
    reveal_strlit("authorization");
    reveal_strlit("x-api-key");
    reveal_strlit("x-goog-api-key");
    reveal_strlit("anthropic-version");
    reveal_strlit("accept");
    reveal_strlit("content-type");
}

} // verus!
