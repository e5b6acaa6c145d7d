//! The question how much of an account has been used.

use bytes::Bytes;
use custom_channel::channel::custom::usage::{
    answered, report, request, string_setting, CreditsPayload, SubscriptionPayload, UsagePayload,
    UsageReport, UsedCredits,
};
use custom_channel::channel::custom::CustomChannel;
use custom_channel::channel::error::ChannelError;
use http::header::AUTHORIZATION;
use http::{Method, StatusCode};
use serde_json::Value;

fn value(text: &str) -> Value {
    serde_json::from_str(text).unwrap()
}

fn amount(object: &Value, keys: &[&str]) -> Option<f64> {
    keys.iter().find_map(|key| object.get(*key)).and_then(Value::as_f64)
}

fn integer(object: &Value, keys: &[&str]) -> Option<i64> {
    keys.iter().find_map(|key| object.get(*key)).and_then(Value::as_i64)
}

fn text(object: &Value, key: &str) -> Option<String> {
    object.get(key).and_then(Value::as_str).map(str::to_owned)
}

fn payload(object: &Value) -> UsagePayload<f64> {
    UsagePayload {
        state: object.get("state").map(|inner| Box::new(payload(inner))),
        plan: text(object, "plan"),
        credits: object.get("credits").map(|c| CreditsPayload {
            total: amount(c, &["total"]),
            available: amount(c, &["available"]),
            used: amount(c, &["used"]),
        }),
        subscription: object.get("subscription").map(|s| SubscriptionPayload {
            plan: text(s, "plan"),
            usage: amount(s, &["usage"]),
            allowance: amount(s, &["allowance", "limit", "quota"]),
            period_start: integer(s, &["period_start", "periodStart"]),
            period_duration_secs: integer(s, &["period_duration_secs", "periodDurationSecs"]),
            reset_at: integer(s, &["reset_at", "resetAt"]),
        }),
    }
}

fn parse(status: StatusCode, body: &Bytes) -> Option<UsageReport<f64>> {
    CustomChannel.parse_usage(status, body, |raw: &Value| Some(payload(raw)))
}

fn parse_text(body: &'static str) -> Option<UsageReport<f64>> {
    parse(StatusCode::OK, &Bytes::from_static(body.as_bytes()))
}

fn used(credits: &UsedCredits<f64>) -> Option<f64> {
    match credits {
        UsedCredits::Stated(used) => Some(*used),
        UsedCredits::Difference { total, available } => Some((total - available).max(0.0)),
        UsedCredits::Unknown => None,
    }
}

#[test]
fn usage_is_disabled_by_default() {
    assert!(request(&value(r#"{"api_key":"key"}"#), &value("{}")).unwrap().is_none());
}

#[test]
fn request_uses_configured_host_path_and_authentication() {
    let request = request(
        &value(r#"{"api_key":"key"}"#),
        &value(
            r#"{
                "usage_enabled": true,
                "usage_base_url": "https://quota.example/prefix",
                "usage_path": "/account/quota",
                "api_key_header": "x-api-key"
            }"#,
        ),
    )
    .unwrap()
    .unwrap();
    assert_eq!(request.method, Method::GET);
    assert_eq!(request.uri, "https://quota.example/prefix/account/quota");
    assert_eq!(request.headers.get("x-api-key").unwrap(), "key");
    assert!(request.headers.get(AUTHORIZATION).is_none());
}

#[test]
fn oauth_access_token_uses_bearer_even_with_api_key_override() {
    let request = request(
        &value(r#"{"access_token":"oauth-token","refresh_token":"refresh"}"#),
        &value(r#"{"usage_enabled":true,"api_key_header":"x-api-key"}"#),
    )
    .unwrap()
    .unwrap();
    assert_eq!(request.headers.get(AUTHORIZATION).unwrap(), "Bearer oauth-token");
    assert!(request.headers.get("x-api-key").is_none());
}

#[test]
fn request_defaults_to_random_labs_endpoint_and_bearer_auth() {
    let request = request(
        &value(r#"{"api_key":"key"}"#),
        &value(r#"{"usage_enabled":true}"#),
    )
    .unwrap()
    .unwrap();
    assert_eq!(request.uri, "https://api.randomlabs.ai/billing/usage");
    assert_eq!(request.headers.get(AUTHORIZATION).unwrap(), "Bearer key");
}

#[test]
fn parses_credits_and_subscription_window() {
    let snapshot = parse(
        StatusCode::OK,
        &Bytes::from_static(
            br#"{"credits":{"total":1000,"available":625},"subscription":{"usage":20,"allowance":100,"plan":"pro","periodStart":1700000000,"periodDurationSecs":604800}}"#,
        ),
    )
    .unwrap();
    assert_eq!(snapshot.plan.as_deref(), Some("pro"));
    let credits = snapshot.credits.unwrap();
    assert_eq!(credits.available, Some(625.0));
    assert_eq!(used(&credits.used), Some(375.0));
    assert_eq!(credits.monthly_limit, Some(1000.0));
    assert_eq!(snapshot.windows[0].used, Some(20.0));
    assert_eq!(snapshot.windows[0].limit, Some(100.0));
    assert_eq!(snapshot.windows[0].resets_at_unix, Some(1700604800));
}

#[test]
fn rejects_non_success_and_invalid_payloads() {
    assert!(parse(StatusCode::UNAUTHORIZED, &Bytes::from_static(b"{}")).is_none());
    assert!(parse(
        StatusCode::FORBIDDEN,
        &Bytes::from_static(br#"{"cloudflare_error":true,"ray_id":"redacted"}"#),
    )
    .is_none());
    assert!(parse(StatusCode::OK, &Bytes::from_static(b"not json")).is_none());
}

#[test]
fn only_true_enables_the_question() {
    let secret = value(r#"{"api_key":"key"}"#);
    for settings in [
        r#"{"usage_enabled":false}"#,
        r#"{"usage_enabled":"true"}"#,
        r#"{"usage_enabled":1}"#,
        r#"{"usage_enabled":null}"#,
        r#"[]"#,
    ] {
        assert!(request(&secret, &value(settings)).unwrap().is_none(), "{settings}");
    }
    // No credential is looked at before that.
    assert!(request(&value("{}"), &value("{}")).unwrap().is_none());
}

#[test]
fn the_question_is_a_plain_get() {
    let question = CustomChannel
        .prepare_usage_request(
            &value(r#"{"api_key":" key "}"#),
            &value(r#"{"usage_enabled":true,"usage_base_url":" ","usage_path":7}"#),
        )
        .unwrap()
        .unwrap();
    assert_eq!(question.method, Method::GET);
    assert_eq!(question.uri, "https://api.randomlabs.ai/billing/usage");
    assert!(question.body.is_empty());
    assert_eq!(question.headers.len(), 2);
    assert_eq!(question.headers.get("accept").unwrap(), "application/json");
    assert_eq!(question.headers.get("authorization").unwrap(), "Bearer key");
}

#[test]
fn the_question_needs_a_credential() {
    match request(&value(r#"{"api_key":" "}"#), &value(r#"{"usage_enabled":true}"#)) {
        Err(ChannelError::InvalidCredential(message)) => {
            assert_eq!(message, "missing access_token or api_key")
        }
        _ => panic!("expected an invalid credential"),
    }
}

#[test]
fn faults_of_the_question_are_told_apart() {
    let key = value(r#"{"api_key":"key"}"#);
    let bad_url = value(r#"{"usage_enabled":true,"usage_base_url":"http://a b","api_key_header":"x"}"#);
    match request(&key, &bad_url) {
        Err(ChannelError::Build(message)) => {
            assert_eq!(message, "invalid upstream url: http://a b/billing/usage")
        }
        _ => panic!("expected a build error"),
    }
    let bad_header = value(r#"{"usage_enabled":true,"api_key_header":"x"}"#);
    assert!(matches!(request(&key, &bad_header), Err(ChannelError::Build(_))));
    // An access token makes the choice of the field irrelevant.
    assert!(request(&value(r#"{"access_token":"t"}"#), &bad_header).is_ok());
    let unsendable = value(r#"{"api_key":"a\nb"}"#);
    assert!(matches!(
        request(&unsendable, &value(r#"{"usage_enabled":true}"#)),
        Err(ChannelError::InvalidCredential(_))
    ));
}

#[test]
fn settings_fall_back_to_their_defaults() {
    let settings = value(r#"{"a":" x ","b":" ","c":1}"#);
    assert_eq!(string_setting(&settings, "a", "d"), "x");
    assert_eq!(string_setting(&settings, "b", "d"), "d");
    assert_eq!(string_setting(&settings, "c", "d"), "d");
    assert_eq!(string_setting(&settings, "e", " d "), " d ");
}

#[test]
fn an_answer_that_says_nothing_is_no_report() {
    assert!(parse_text("{}").is_none());
    assert!(parse_text(r#"{"state":{}}"#).is_none());
    // The wrapped answer counts, and not what stands beside it.
    assert!(parse_text(r#"{"state":{},"plan":"pro"}"#).is_none());
    assert!(report::<f64>(value(r#"{"plan":"pro"}"#), None).is_none());
}

#[test]
fn a_report_carries_the_whole_answer() {
    let body = r#"{"plan":"outer","credits":{"available":1},"state":{"plan":"inner"}}"#;
    let known = parse_text(body).unwrap();
    assert_eq!(known.plan.as_deref(), Some("inner"));
    assert!(known.credits.is_none());
    assert!(known.windows.is_empty());
    assert_eq!(known.raw, value(body));
}

#[test]
fn only_a_success_with_json_is_an_answer() {
    let body = Bytes::from_static(br#" {"a":[1,2.5]} "#);
    assert_eq!(answered(StatusCode::OK, &body), Some(value(r#"{"a":[1,2.5]}"#)));
    assert_eq!(answered(StatusCode::NO_CONTENT, &body), Some(value(r#"{"a":[1,2.5]}"#)));
    assert_eq!(answered(StatusCode::FOUND, &body), None);
    assert_eq!(answered(StatusCode::OK, &Bytes::from_static(b"{")), None);
    assert_eq!(answered(StatusCode::OK, &Bytes::new()), None);
}

#[test]
fn an_answer_that_cannot_be_decoded_is_no_report() {
    let body = Bytes::from_static(br#"{"plan":"pro"}"#);
    let none = CustomChannel.parse_usage(StatusCode::OK, &body, |_: &Value| {
        None::<UsagePayload<f64>>
    });
    assert!(none.is_none());
}

#[test]
fn a_wrapped_answer_says_the_same() {
    let plain = parse_text(r#"{"plan":"pro","credits":{"used":2.5}}"#).unwrap();
    let wrapped = parse_text(r#"{"state":{"plan":"pro","credits":{"used":2.5}}}"#).unwrap();
    assert_eq!(plain.plan, wrapped.plan);
    assert_eq!(plain.credits, wrapped.credits);
    assert_eq!(plain.credits.unwrap().used, UsedCredits::Stated(2.5));
}

#[test]
fn credits_are_what_the_answer_tells() {
    let stated = parse_text(r#"{"credits":{"total":10,"available":4,"used":1}}"#).unwrap();
    assert_eq!(stated.credits.unwrap().used, UsedCredits::Stated(1.0));
    let over = parse_text(r#"{"credits":{"total":10,"available":14}}"#).unwrap();
    let credits = over.credits.unwrap();
    assert_eq!(credits.used, UsedCredits::Difference { total: 10.0, available: 14.0 });
    assert_eq!(used(&credits.used), Some(0.0));
    let unknown = parse_text(r#"{"credits":{"total":10}}"#).unwrap();
    assert_eq!(unknown.credits.unwrap().used, UsedCredits::Unknown);
}

#[test]
fn windows_need_usage_or_allowance() {
    let none = parse_text(r#"{"subscription":{"plan":"p","periodStart":1}}"#).unwrap();
    assert!(none.windows.is_empty());
    assert_eq!(none.plan.as_deref(), Some("p"));
    let window = parse_text(r#"{"subscription":{"quota":5,"periodStart":1}}"#).unwrap();
    assert_eq!(window.windows.len(), 1);
    assert_eq!(window.windows[0].name, "subscription");
    assert_eq!(window.windows[0].used, None);
    assert_eq!(window.windows[0].limit, Some(5.0));
    assert_eq!(window.windows[0].resets_at_unix, None);
    assert_eq!(window.windows[0].window_seconds, None);
}

#[test]
fn a_stated_reset_beats_the_period() {
    let report = parse_text(
        r#"{"subscription":{"usage":1,"periodStart":10,"periodDurationSecs":5,"resetAt":99}}"#,
    )
    .unwrap();
    assert_eq!(report.windows[0].resets_at_unix, Some(99));
    assert_eq!(report.windows[0].window_seconds, Some(5));
}

#[test]
fn the_end_of_a_period_saturates() {
    let long = parse_text(
        r#"{"subscription":{"usage":1,"periodStart":9223372036854775807,"periodDurationSecs":2}}"#,
    )
    .unwrap();
    assert_eq!(long.windows[0].resets_at_unix, Some(i64::MAX));
    let early = parse_text(
        r#"{"subscription":{"usage":1,"periodStart":-9223372036854775808,"periodDurationSecs":-2}}"#,
    )
    .unwrap();
    assert_eq!(early.windows[0].resets_at_unix, Some(i64::MIN));
}

#[test]
fn an_empty_plan_is_none() {
    let empty = parse_text(r#"{"plan":"","subscription":{"plan":"pro"}}"#).unwrap();
    assert_eq!(empty.plan, None);
    let own = parse_text(r#"{"plan":"team","subscription":{"plan":"pro"}}"#).unwrap();
    assert_eq!(own.plan.as_deref(), Some("team"));
}
