//! The custom channel: what it routes, how it prepares and authenticates.

use bytes::Bytes;
use custom_channel::channel::common::{
    inject_bearer, inject_header, join_url, require_api_key, resolve_base_url, PrepareCtx,
};
use custom_channel::channel::custom::auth::{apply, configured, detect, ApiKeyHeader, Proto};
use custom_channel::channel::custom::CustomChannel;
use custom_channel::channel::error::ChannelError;
use custom_channel::protocol::{
    ContentGenerationKind, Operation, OperationKey, OperationKind, Provider, RouteAction,
};
use custom_channel::transport::OutboundRequest;
use http::{HeaderMap, Method};
use serde_json::Value;

fn value(text: &str) -> Value {
    serde_json::from_str(text).unwrap()
}

fn prep<'a>(
    settings: &'a Value,
    secret: &'a Value,
    headers: &'a HeaderMap,
    method: Method,
    path: &'a str,
) -> PrepareCtx<'a> {
    PrepareCtx {
        secret,
        provider_settings: settings,
        upstream_model_id: "m",
        method,
        path,
        query: None,
        headers,
        body: Bytes::from_static(b"{}"),
    }
}

fn prepare(settings: &str, secret: &str, path: &str) -> Result<OutboundRequest, ChannelError> {
    let settings = value(settings);
    let secret = value(secret);
    let headers = HeaderMap::new();
    CustomChannel.prepare(prep(&settings, &secret, &headers, Method::POST, path))
}

fn failure<T>(result: Result<T, ChannelError>) -> ChannelError {
    match result {
        Ok(_) => panic!("expected an error"),
        Err(e) => e,
    }
}

#[test]
fn custom_protocol_driven_auth() {
    let settings = value(r#"{ "base_url": "https://up.example" }"#);
    let secret = value(r#"{ "api_key": "k" }"#);
    let h = HeaderMap::new();

    let claude = CustomChannel
        .prepare(prep(&settings, &secret, &h, Method::POST, "/v1/messages"))
        .unwrap();
    assert_eq!(claude.headers.get("x-api-key").unwrap(), "k");

    let oai = CustomChannel
        .prepare(prep(&settings, &secret, &h, Method::POST, "/v1/chat/completions"))
        .unwrap();
    assert_eq!(oai.headers.get("authorization").unwrap(), "Bearer k");

    let gemini = CustomChannel
        .prepare(prep(
            &settings,
            &secret,
            &h,
            Method::POST,
            "/v1beta/models/g:generateContent",
        ))
        .unwrap();
    assert_eq!(gemini.headers.get("x-goog-api-key").unwrap(), "k");
}

#[test]
fn custom_configures_only_supported_api_key_headers() {
    let secret = value(r#"{ "api_key": "k" }"#);
    let mut inbound = HeaderMap::new();
    inbound.insert("authorization", "Bearer client".parse().unwrap());
    inbound.insert("x-api-key", "client-x".parse().unwrap());
    inbound.insert("x-goog-api-key", "client-google".parse().unwrap());

    for (setting, expected, absent) in [
        ("bearer", "authorization", ["x-api-key", "x-goog-api-key"]),
        ("x-api-key", "x-api-key", ["authorization", "x-goog-api-key"]),
        ("x-goog-api-key", "x-goog-api-key", ["authorization", "x-api-key"]),
    ] {
        let settings = value(&format!(
            r#"{{ "base_url": "https://up.example", "api_key_header": "{setting}" }}"#
        ));
        let req = CustomChannel
            .prepare(prep(
                &settings,
                &secret,
                &inbound,
                Method::POST,
                "/v1/chat/completions",
            ))
            .unwrap();
        let expected_value = if setting == "bearer" { "Bearer k" } else { "k" };
        assert_eq!(req.headers.get(expected).unwrap(), expected_value);
        for name in absent {
            assert!(req.headers.get(name).is_none(), "{setting}: leaked {name}");
        }
    }

    let settings = value(
        r#"{ "base_url": "https://up.example", "api_key_header": "arbitrary-header" }"#,
    );
    let err = failure(CustomChannel.prepare(prep(
        &settings,
        &secret,
        &inbound,
        Method::POST,
        "/v1/chat/completions",
    )));
    assert!(matches!(err, ChannelError::Build(_)));
}

#[test]
fn custom_raw_settings_default_false_and_opt_in() {
    let channel = CustomChannel;
    assert!(!channel.preserve_raw_request_body(&value("{}")));
    assert!(!channel.prefetch_stream_before_commit(&value("{}")));
    let settings = value(
        r#"{ "preserve_raw_request_body": true, "prefetch_stream_before_commit": true }"#,
    );
    assert!(channel.preserve_raw_request_body(&settings));
    assert!(channel.prefetch_stream_before_commit(&settings));
}

#[test]
fn custom_requires_base_url() {
    let settings = value("{}");
    let secret = value(r#"{ "api_key": "k" }"#);
    let h = HeaderMap::new();
    let err = failure(CustomChannel.prepare(prep(
        &settings,
        &secret,
        &h,
        Method::POST,
        "/v1/chat/completions",
    )));
    assert!(matches!(err, ChannelError::MissingSetting("base_url")));
}

#[test]
fn a_switch_that_is_not_a_truth_value_is_off() {
    let settings = value(
        r#"{ "preserve_raw_request_body": "true", "prefetch_stream_before_commit": 1 }"#,
    );
    assert!(!CustomChannel.preserve_raw_request_body(&settings));
    assert!(!CustomChannel.prefetch_stream_before_commit(&settings));
}

#[test]
fn the_channel_says_what_it_is() {
    assert_eq!(CustomChannel.id(), "custom");
    assert_eq!(CustomChannel.provider_family(), Provider::OpenAi);
}

#[test]
fn the_routing_table_has_every_cell_once() {
    let table = CustomChannel.routing_table();
    let families = [Provider::OpenAi, Provider::Claude, Provider::Gemini];
    let formats = [
        ContentGenerationKind::OpenAiResponses,
        ContentGenerationKind::OpenAiChatCompletions,
        ContentGenerationKind::ClaudeMessages,
        ContentGenerationKind::GeminiGenerateContent,
    ];
    let mut cells = Vec::new();
    for operation in [
        Operation::ListModels,
        Operation::GetModel,
        Operation::CountTokens,
        Operation::CreateEmbedding,
        Operation::CreateImage,
        Operation::EditImage,
        Operation::CompactContent,
    ] {
        for family in families {
            cells.push(OperationKey { operation, kind: OperationKind::Provider(family) });
        }
    }
    for operation in [Operation::GenerateContent, Operation::StreamGenerateContent] {
        for format in formats {
            cells.push(OperationKey {
                operation,
                kind: OperationKind::ContentGeneration(format),
            });
        }
    }
    assert_eq!(table.len(), 29);
    assert_eq!(cells.len(), 29);
    for cell in cells {
        assert_eq!(table.iter().filter(|route| route.key == cell).count(), 1);
    }
    assert!(table.iter().all(|route| route.action == RouteAction::Passthrough));
}

#[test]
fn a_request_is_passed_on_below_the_base_url() {
    let settings = value(r#"{ "base_url": " https://up.example/proxy// " }"#);
    let secret = value(r#"{ "api_key": " k " }"#);
    let mut inbound = HeaderMap::new();
    inbound.insert("x-client", "secret".parse().unwrap());
    inbound.insert("content-type", "application/json".parse().unwrap());
    let request = CustomChannel
        .prepare(PrepareCtx {
            secret: &secret,
            provider_settings: &settings,
            upstream_model_id: "m",
            method: Method::PUT,
            path: "//v1/chat/completions",
            query: Some("client=1"),
            headers: &inbound,
            body: Bytes::from_static(b"payload"),
        })
        .unwrap();
    assert_eq!(request.method, Method::PUT);
    assert_eq!(request.uri, "https://up.example/proxy/v1/chat/completions");
    assert_eq!(request.body, Bytes::from_static(b"payload"));
    assert_eq!(request.headers.len(), 1);
    assert_eq!(request.headers.get("authorization").unwrap(), "Bearer k");
}

#[test]
fn an_access_token_goes_out_alone() {
    let request = prepare(
        r#"{ "base_url": "https://up.example", "api_key_header": "x-api-key" }"#,
        r#"{ "access_token": " tok ", "api_key": "k" }"#,
        "/v1/messages",
    )
    .unwrap();
    assert_eq!(request.uri, "https://up.example/v1/messages");
    assert_eq!(request.headers.len(), 1);
    assert_eq!(request.headers.get("authorization").unwrap(), "Bearer tok");
}

#[test]
fn an_access_token_makes_a_bad_choice_of_field_irrelevant() {
    let request = prepare(
        r#"{ "base_url": "https://up.example", "api_key_header": 7 }"#,
        r#"{ "access_token": "tok" }"#,
        "/v1/messages",
    );
    assert!(request.is_ok());
}

#[test]
fn a_blank_access_token_is_none() {
    let request = prepare(
        r#"{ "base_url": "https://up.example" }"#,
        r#"{ "access_token": "  ", "api_key": "k" }"#,
        "/v1/messages",
    )
    .unwrap();
    assert_eq!(request.headers.get("x-api-key").unwrap(), "k");
    assert_eq!(request.headers.get("anthropic-version").unwrap(), "2023-06-01");
    assert_eq!(request.headers.len(), 2);
}

#[test]
fn an_access_token_needs_a_base_url_too() {
    let err = failure(prepare("{}", r#"{ "access_token": "tok" }"#, "/v1/messages"));
    assert!(matches!(err, ChannelError::MissingSetting("base_url")));
}

#[test]
fn a_credential_without_key_is_refused() {
    let err = failure(prepare(r#"{ "base_url": "https://up.example" }"#, "{}", "/v1/messages"));
    match err {
        ChannelError::InvalidCredential(message) => assert_eq!(message, "missing api_key"),
        _ => panic!("expected an invalid credential"),
    }
}

#[test]
fn a_key_that_no_header_carries_is_refused() {
    for secret in [r#"{ "api_key": "a\nb" }"#, r#"{ "access_token": "a\u007fb" }"#] {
        let err = failure(prepare(r#"{ "base_url": "https://up.example" }"#, secret, "/v1/x"));
        match err {
            ChannelError::InvalidCredential(message) => {
                assert_eq!(message, "credential is not a valid header value")
            }
            _ => panic!("expected an invalid credential"),
        }
    }
}

#[test]
fn a_url_that_is_none_is_refused() {
    let err = failure(prepare(r#"{ "base_url": "http://up example" }"#, r#"{ "api_key": "k" }"#, "/v1"));
    match err {
        ChannelError::Build(message) => {
            assert_eq!(message, "invalid upstream url: http://up example/v1")
        }
        _ => panic!("expected a build error"),
    }
    assert_eq!(join_url("http://up.example/a/", "/b").unwrap(), "http://up.example/a/b");
    assert_eq!(join_url("http://up.example", "b").unwrap(), "http://up.example/b");
}

#[test]
fn settings_and_credentials_are_trimmed() {
    let settings = value(r#"{ "base_url": " \thttps://up.example　" }"#);
    assert_eq!(resolve_base_url(&settings).unwrap(), "https://up.example");
    assert_eq!(require_api_key(&value(r#"{ "api_key": "\n k k \n" }"#)).unwrap(), "k k");
    assert!(resolve_base_url(&value(r#"{ "base_url": " " }"#)).is_err());
    assert!(resolve_base_url(&value(r#"{ "base_url": 1 }"#)).is_err());
    assert!(require_api_key(&value("[]")).is_err());
}

#[test]
fn the_choice_of_the_field_is_read_from_the_settings() {
    assert_eq!(configured(&value("{}")).unwrap(), None);
    assert_eq!(configured(&value(r#"{ "api_key_header": null }"#)).unwrap(), None);
    for (name, header) in [
        ("bearer", ApiKeyHeader::Bearer),
        ("x-api-key", ApiKeyHeader::XApiKey),
        ("x-goog-api-key", ApiKeyHeader::XGoogApiKey),
    ] {
        let settings = value(&format!(r#"{{ "api_key_header": "{name}" }}"#));
        assert_eq!(configured(&settings).unwrap(), Some(header));
    }
    match failure(configured(&value(r#"{ "api_key_header": "a\"b" }"#))) {
        ChannelError::Build(message) => assert_eq!(
            message,
            "invalid custom api_key_header \"a\\\"b\"; expected bearer, x-api-key, or x-goog-api-key"
        ),
        _ => panic!("expected a build error"),
    }
    match failure(configured(&value(r#"{ "api_key_header": true }"#))) {
        ChannelError::Build(message) => {
            assert_eq!(message, "custom api_key_header must be a string")
        }
        _ => panic!("expected a build error"),
    }
    // The name has to be exact.
    assert!(configured(&value(r#"{ "api_key_header": "Bearer" }"#)).is_err());
}

#[test]
fn paths_tell_the_protocol() {
    assert_eq!(detect("/v1/messages"), Proto::Claude);
    assert_eq!(detect("/v1beta/x/messages/y"), Proto::Claude);
    assert_eq!(detect("/v1beta/models"), Proto::Gemini);
    assert_eq!(detect("/x/v1beta/models"), Proto::OpenAi);
    assert_eq!(detect("/v1/models/g:generateContent"), Proto::Gemini);
    assert_eq!(detect("/v1/models/g:streamGenerateContent"), Proto::Gemini);
    assert_eq!(detect("/v1/models/g:countTokens"), Proto::Gemini);
    assert_eq!(detect("/v1/chat/completions"), Proto::OpenAi);
    assert_eq!(detect(""), Proto::OpenAi);
}

#[test]
fn applying_leaves_one_credential_and_the_other_fields() {
    let mut headers = HeaderMap::new();
    headers.insert("authorization", "Bearer client".parse().unwrap());
    headers.append("x-api-key", "one".parse().unwrap());
    headers.append("x-api-key", "two".parse().unwrap());
    headers.insert("x-goog-api-key", "client-google".parse().unwrap());
    headers.insert("anthropic-version", "1999-01-01".parse().unwrap());
    headers.append("x-other", "a".parse().unwrap());
    headers.append("x-other", "b".parse().unwrap());

    let mut chosen = headers.clone();
    apply(&mut chosen, "k", Some(ApiKeyHeader::XGoogApiKey), Proto::Claude).unwrap();
    assert!(chosen.get("authorization").is_none());
    assert!(chosen.get("x-api-key").is_none());
    assert!(chosen.get("anthropic-version").is_none());
    assert_eq!(chosen.get("x-goog-api-key").unwrap(), "k");
    assert_eq!(chosen.get_all("x-other").iter().count(), 2);
    let once = chosen.clone();
    apply(&mut chosen, "k", Some(ApiKeyHeader::XGoogApiKey), Proto::Claude).unwrap();
    assert_eq!(chosen, once);

    let mut claude = headers.clone();
    apply(&mut claude, "k", None, Proto::Claude).unwrap();
    assert_eq!(claude.get_all("x-api-key").iter().count(), 1);
    assert_eq!(claude.get("x-api-key").unwrap(), "k");
    assert_eq!(claude.get("anthropic-version").unwrap(), "2023-06-01");

    let mut openai = headers.clone();
    apply(&mut openai, "k", None, Proto::OpenAi).unwrap();
    assert_eq!(openai.get("authorization").unwrap(), "Bearer k");
    assert_eq!(openai.get("anthropic-version").unwrap(), "1999-01-01");

    let mut refused = headers.clone();
    assert!(apply(&mut refused, "a\u{7}b", None, Proto::OpenAi).is_err());
    assert!(refused.get("authorization").is_none());
    assert!(refused.get("x-api-key").is_none());
    assert!(refused.get("x-goog-api-key").is_none());
}

#[test]
fn header_values_hold_the_text() {
    let mut headers = HeaderMap::new();
    inject_header(&mut headers, "x-api-key", "tab\there é").unwrap();
    assert_eq!(headers.get("x-api-key").unwrap().as_bytes(), "tab\there é".as_bytes());
    inject_bearer(&mut headers, "").unwrap();
    assert_eq!(headers.get("authorization").unwrap().as_bytes(), b"Bearer ");
    assert!(inject_header(&mut headers, "x-api-key", "\r").is_err());
    assert_eq!(headers.len(), 2);
}
