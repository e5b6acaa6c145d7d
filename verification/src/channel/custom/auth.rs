//! Authentication at a custom upstream: by the protocol that the path speaks,
//! unless the setting `api_key_header` says otherwise.

use crate::channel::common::{
    bearer, field_names, field_value, inject_bearer, inject_header, unsendable,
};
use crate::channel::error::{ChannelError, ChannelFault};
use crate::json::{get, json, Json};
use crate::text::{contains, debug_text, occurs, quoted, same, starts_with};
use crate::transport::{fields, insert_field, is_value_text, max_names, name_count, remove_field};
use http::{HeaderMap, HeaderValue};
use serde_json::Value;
use vstd::prelude::*;
use vstd::string::StringExecFns;

verus! {

/// The protocol that a path speaks.
#[derive(Clone, Copy, Debug, PartialEq, Eq, Structural)]
pub enum Proto {
    OpenAi,
    Claude,
    Gemini,
}

/// The header field that carries the API key.
#[derive(Clone, Copy, Debug, PartialEq, Eq, Structural)]
pub enum ApiKeyHeader {
    Bearer,
    XApiKey,
    XGoogApiKey,
}

/// The choice that the settings make of the header field. Nothing else than the
/// three that are known may be asked for.
pub open spec fn chosen_header(settings: Json) -> Result<Option<ApiKeyHeader>, ChannelFault> {
    match settings.get("api_key_header"@) {
        None => Ok(None),
        Some(Json::Null) => Ok(None),
        Some(Json::Text(name)) => if name == "bearer"@ {
            Ok(Some(ApiKeyHeader::Bearer))
        } else if name == "x-api-key"@ {
            Ok(Some(ApiKeyHeader::XApiKey))
        } else if name == "x-goog-api-key"@ {
            Ok(Some(ApiKeyHeader::XGoogApiKey))
        } else {
            Err(
                ChannelFault::Build(
                    "invalid custom api_key_header "@ + debug_text(name)
                        + "; expected bearer, x-api-key, or x-goog-api-key"@,
                ),
            )
        },
        Some(_) => Err(ChannelFault::Build("custom api_key_header must be a string"@)),
    }
}

/// The protocol that `path` speaks.
pub open spec fn protocol_of(path: Seq<char>) -> Proto {
    if occurs(path, "/messages"@) {
        Proto::Claude
    } else if "/v1beta"@.is_prefix_of(path) || occurs(path, ":generateContent"@) || occurs(
        path,
        ":streamGenerateContent"@,
    ) || occurs(path, ":countTokens"@) {
        Proto::Gemini
    } else {
        Proto::OpenAi
    }
}

/// The header field that carries the key.
pub open spec fn carrier(configured: Option<ApiKeyHeader>, proto: Proto) -> ApiKeyHeader {
    match configured {
        Some(header) => header,
        None => match proto {
            Proto::OpenAi => ApiKeyHeader::Bearer,
            Proto::Claude => ApiKeyHeader::XApiKey,
            Proto::Gemini => ApiKeyHeader::XGoogApiKey,
        },
    }
}

/// The name of the header field.
pub open spec fn carrier_name(header: ApiKeyHeader) -> Seq<char> {
    match header {
        ApiKeyHeader::Bearer => "authorization"@,
        ApiKeyHeader::XApiKey => "x-api-key"@,
        ApiKeyHeader::XGoogApiKey => "x-goog-api-key"@,
    }
}

/// The value of the header field that carries `key`.
pub open spec fn carried(header: ApiKeyHeader, key: Seq<char>) -> Seq<char> {
    match header {
        ApiKeyHeader::Bearer => bearer(key),
        _ => key,
    }
}

/// The fields without any that carries a credential.
pub open spec fn without_credentials(before: Map<Seq<char>, Seq<Seq<u8>>>) -> Map<
    Seq<char>,
    Seq<Seq<u8>>,
> {
    before.remove("authorization"@).remove("x-api-key"@).remove("x-goog-api-key"@)
}

/// The fields that authenticate with `key`: one carries it and no other
/// credential is left. The messages protocol has a version field beside it; an
/// explicit choice of the field owns authentication completely, so that no
/// such companion is left either.
pub open spec fn authenticated(
    before: Map<Seq<char>, Seq<Seq<u8>>>,
    key: Seq<char>,
    configured: Option<ApiKeyHeader>,
    proto: Proto,
) -> Map<Seq<char>, Seq<Seq<u8>>> {
    let header = carrier(configured, proto);
    let set = without_credentials(before).insert(
        carrier_name(header),
        field_value(carried(header, key)),
    );
    match configured {
        Some(_) => set.remove("anthropic-version"@),
        None => if proto is Claude {
            set.insert("anthropic-version"@, field_value("2023-06-01"@))
        } else {
            set
        },
    }
}

/// What a choice of the header field comes to.
pub open spec fn choice(result: Result<Option<ApiKeyHeader>, ChannelError>) -> Result<
    Option<ApiKeyHeader>,
    ChannelFault,
> {
    match result {
        Ok(header) => Ok(header),
        Err(e) => Err(e@),
    }
}

/// The choice that the settings make of the header field.
pub fn configured(settings: &Value) -> (r: Result<Option<ApiKeyHeader>, ChannelError>)
    ensures
        choice(r) == chosen_header(json(*settings)),
{
    match get(settings, "api_key_header") {
        None => Ok(None),
        Some(setting) => if setting.is_null() {
            Ok(None)
        } else {
            match setting.as_str() {
                Some(name) => if same(name, "bearer") {
                    Ok(Some(ApiKeyHeader::Bearer))
                } else if same(name, "x-api-key") {
                    Ok(Some(ApiKeyHeader::XApiKey))
                } else if same(name, "x-goog-api-key") {
                    Ok(Some(ApiKeyHeader::XGoogApiKey))
                } else {
                    let message = "invalid custom api_key_header ".to_owned().concat(
                        quoted(name).as_str(),
                    ).concat("; expected bearer, x-api-key, or x-goog-api-key");
                    Err(ChannelError::Build(message))
                },
                None => Err(
                    ChannelError::Build("custom api_key_header must be a string".to_owned()),
                ),
            }
        },
    }
}

/// The protocol that `path` speaks, for when the settings choose no field.
pub fn detect(path: &str) -> (r: Proto)
    ensures
        r == protocol_of(path@),
{
    if contains(path, "/messages") {
        Proto::Claude
    } else if starts_with(path, "/v1beta") || contains(path, ":generateContent") || contains(
        path,
        ":streamGenerateContent",
    ) || contains(path, ":countTokens") {
        Proto::Gemini
    } else {
        Proto::OpenAi
    }
}

/// Authenticates a request with `key`.
pub fn apply(
    headers: &mut HeaderMap<HeaderValue>,
    key: &str,
    configured: Option<ApiKeyHeader>,
    proto: Proto,
) -> (r: Result<(), ChannelError>)
    requires
        name_count(*old(headers)) < max_names(),
    ensures
        match r {
            Ok(_) => is_value_text(carried(carrier(configured, proto), key@)) && fields(
                *final(headers),
            ) == authenticated(fields(*old(headers)), key@, configured, proto),
            Err(e) => !is_value_text(carried(carrier(configured, proto), key@)) && e@
                == unsendable() && fields(*final(headers)) == without_credentials(
                fields(*old(headers)),
            ),
        },
        name_count(*final(headers)) <= name_count(*old(headers)) + 2,
{
    proof {
        field_names();
    }
    remove_field(headers, "authorization");
    remove_field(headers, "x-api-key");
    remove_field(headers, "x-goog-api-key");

    let header = match configured {
        Some(header) => header,
        None => match proto {
            Proto::OpenAi => ApiKeyHeader::Bearer,
            Proto::Claude => ApiKeyHeader::XApiKey,
            Proto::Gemini => ApiKeyHeader::XGoogApiKey,
        },
    };
    let injected = match header {
        ApiKeyHeader::Bearer => inject_bearer(headers, key),
        ApiKeyHeader::XApiKey => inject_header(headers, "x-api-key", key),
        ApiKeyHeader::XGoogApiKey => inject_header(headers, "x-goog-api-key", key),
    };
    match injected {
        Ok(_) => {},
        Err(e) => {
            return Err(e);
        },
    }
    match configured {
        Some(_) => {
            remove_field(headers, "anthropic-version");
        },
        None => {
            if matches!(proto, Proto::Claude) {
                proof {
                    reveal_strlit("2023-06-01");
                }
                insert_field(headers, "anthropic-version", HeaderValue::from_static("2023-06-01"));
            }
        },
    }
    Ok(())
}

} // verus!
