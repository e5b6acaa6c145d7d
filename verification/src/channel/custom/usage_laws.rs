//! Calls about usage: what they come to, told on the settings, the credential and
//! the answer that they are given.

use crate::channel::common::{is_below, joined, one_slash_joins};
use crate::channel::custom::auth_laws::{chooses_nothing, holds, just, stated};
use crate::channel::custom::laws::authenticating_names;
use crate::channel::custom::oauth_laws::went_well;
use crate::channel::custom::usage::{
    answered, is_parsed, is_report, parse, report, request, string_setting, CreditsPayload, CreditsReport,
    SubscriptionPayload, UsagePayload, UsageReport, UsageWindow, UsedCredits,
};
use crate::channel::error::ChannelError;
use crate::json::{json, json_document, Json};
use crate::transport::{fields, is_uri, is_value_text, method_name, octets, OutboundRequest};
use bytes::Bytes;
use http::StatusCode;
use serde_json::Value;
use vstd::prelude::*;

verus! {

/// The text that the settings state under `key`, or else `default`.
pub open spec fn stated_or(settings: Json, key: Seq<char>, default: Seq<char>) -> Seq<char> {
    if stated(settings, key) is Some {
        stated(settings, key)->0
    } else {
        default
    }
}

/// A setting that is blank, no text or not there is the default.
pub proof fn settings_fall_back_to_defaults(
    settings: &Value,
    key: &str,
    default: &str,
    text: &str,
)
    requires
        call_ensures(string_setting, (settings, key, default), text),
    ensures
        text@ == stated_or(json(*settings), key@, default@),
{
}

/// The field that authenticates the question, and the text in it: an access
/// token is a bearer token; an API key goes where the setting `api_key_header`
/// says, and as a bearer token where it says nothing.
pub open spec fn question_field(secret: Json, settings: Json) -> Option<(Seq<char>, Seq<char>)> {
    let token = stated(secret, "access_token"@);
    let key = stated(secret, "api_key"@);
    if token is Some {
        Some(("authorization"@, "Bearer "@ + token->0))
    } else if chooses_nothing(settings) || holds(
        settings,
        "api_key_header"@,
        Json::Text("bearer"@),
    ) {
        Some(("authorization"@, "Bearer "@ + key->0))
    } else if holds(settings, "api_key_header"@, Json::Text("x-api-key"@)) {
        Some(("x-api-key"@, key->0))
    } else if holds(settings, "api_key_header"@, Json::Text("x-goog-api-key"@)) {
        Some(("x-goog-api-key"@, key->0))
    } else {
        None
    }
}

/// Usage is asked for exactly where the settings say true, with a plain `GET` to
/// the URL that they state or the default one, with the credential in one field
/// and JSON to be accepted. It fails exactly where there is no credential, where
/// base and path make no URL, where the setting for the field is none of those
/// known and there is no access token, and where no field can carry the
/// credential.
pub proof fn usage_is_asked_for_as_settings_say(
    secret: &Value,
    settings: &Value,
    result: Result<Option<OutboundRequest>, ChannelError>,
)
    requires
        call_ensures(request, (secret, settings), result),
    ensures
        ({
            let base = stated_or(
                json(*settings),
                "usage_base_url"@,
                "https://api.randomlabs.ai"@,
            );
            let path = stated_or(json(*settings), "usage_path"@, "/billing/usage"@);
            let known = stated(json(*secret), "access_token"@) is Some || stated(
                json(*secret),
                "api_key"@,
            ) is Some;
            let field = question_field(json(*secret), json(*settings));
            let on = holds(json(*settings), "usage_enabled"@, Json::Bool(true));
            match result {
                Ok(None) => !on,
                Ok(Some(question)) => {
                    &&& on && known && field is Some
                    &&& method_name(question.method) == "GET"@
                    &&& is_below(question.uri@, base, path)
                    &&& is_uri(question.uri@)
                    &&& octets(question.body) == Seq::<u8>::empty()
                    &&& is_value_text((field->0).1)
                    &&& fields(question.headers) == Map::<Seq<char>, Seq<Seq<u8>>>::empty().insert(
                        (field->0).0,
                        just((field->0).1),
                    ).insert("accept"@, just("application/json"@))
                },
                Err(ChannelError::MissingSetting(_)) => false,
                Err(ChannelError::InvalidCredential(message)) => on && if known {
                    field is Some && !is_value_text((field->0).1) && message@
                        == "credential is not a valid header value"@
                } else {
                    message@ == "missing access_token or api_key"@
                },
                Err(ChannelError::Build(message)) => on && known && (field is None || exists|
                    uri: Seq<char>,
                | #[trigger]
                    is_below(uri, base, path) && !is_uri(uri) && message@
                        == "invalid upstream url: "@ + uri),
            }
        }),
{
    authenticating_names();
    reveal_strlit("bearer");
    reveal_strlit("x-api-key");
    reveal_strlit("x-goog-api-key");
    assert("bearer"@.len() == 6);
    let base = stated_or(json(*settings), "usage_base_url"@, "https://api.randomlabs.ai"@);
    let path = stated_or(json(*settings), "usage_path"@, "/billing/usage"@);
    one_slash_joins(base, path);
    assert(is_below(joined(base, path), base, path));
    if let Ok(Some(question)) = result {
        let field = question_field(json(*secret), json(*settings))->0;
        assert(fields(question.headers) =~= Map::<Seq<char>, Seq<Seq<u8>>>::empty().insert(
            field.0,
            just(field.1),
        ).insert("accept"@, just("application/json"@)));
    }
}

/// An answer is the document in the body of a success.
pub proof fn answers_are_documents_of_successes(
    status: StatusCode,
    body: &Bytes,
    answer: Option<Value>,
)
    requires
        call_ensures(answered, (status, body), answer),
    ensures
        match answer {
            Some(raw) => went_well(status) && json_document(octets(*body)) == Ok::<
                Json,
                Seq<char>,
            >(json(raw)),
            None => !went_well(status) || json_document(octets(*body)) is Err,
        },
{
}

/// `known` tells the credits as the answer does: those used as it states them,
/// and else as the difference of the other two.
pub open spec fn tells_credits<A>(known: CreditsReport<A>, credits: CreditsPayload<A>) -> bool {
    &&& known.available == credits.available
    &&& known.monthly_limit == credits.total
    &&& match known.used {
        UsedCredits::Stated(used) => credits.used == Some(used),
        UsedCredits::Difference { total, available } => credits.used is None && credits.total
            == Some(total) && credits.available == Some(available),
        UsedCredits::Unknown => credits.used is None && (credits.total is None || credits.available
            is None),
    }
}

/// `window` tells the subscription as the answer does: when it is reset is what
/// the answer says, and else the end of the period, or the nearest number that
/// fits; how long it is comes with a period alone.
pub open spec fn tells_window<A>(
    window: UsageWindow<A>,
    subscription: SubscriptionPayload<A>,
) -> bool {
    let period = subscription.period_start is Some && subscription.period_duration_secs is Some;
    let end = subscription.period_start->0 + subscription.period_duration_secs->0;
    &&& window.name@ == "subscription"@
    &&& window.used == subscription.usage
    &&& window.limit == subscription.allowance
    &&& period ==> window.window_seconds == subscription.period_duration_secs
    &&& !period ==> window.window_seconds is None
    &&& subscription.reset_at is Some ==> window.resets_at_unix == subscription.reset_at
    &&& subscription.reset_at is None && !period ==> window.resets_at_unix is None
    &&& subscription.reset_at is None && period ==> window.resets_at_unix is Some && (if i64::MIN
        <= end <= i64::MAX {
        window.resets_at_unix->0 == end
    } else if end > 0 {
        window.resets_at_unix->0 == i64::MAX
    } else {
        window.resets_at_unix->0 == i64::MIN
    })
}

/// `known` tells what the answer `raw` says about usage where it reads as
/// `payload`; the answer proper may come wrapped, once.
pub open spec fn tells_usage<A>(
    raw: Json,
    payload: UsagePayload<A>,
    known: Option<UsageReport<A>>,
) -> bool {
    let answer = if payload.state is Some {
        *(payload.state->0)
    } else {
        payload
    };
    match known {
        None => answer.credits is None && answer.subscription is None && answer.plan is None,
        Some(usage) => {
            &&& answer.credits is Some || answer.subscription is Some || answer.plan is Some
            &&& json(usage.raw) == raw
            &&& usage.credits is Some <==> answer.credits is Some
            &&& usage.credits is Some ==> tells_credits(usage.credits->0, answer.credits->0)
            &&& usage.windows@.len() == if answer.subscription is Some && (
            answer.subscription->0.usage is Some || answer.subscription->0.allowance is Some) {
                1nat
            } else {
                0nat
            }
            &&& usage.windows@.len() == 1 ==> tells_window(
                usage.windows@[0],
                answer.subscription->0,
            )
            &&& tells_plan(usage.plan, answer)
        },
    }
}

/// `plan` is the plan that the answer names, else the one that the subscription
/// names; an empty name is none.
pub open spec fn tells_plan<A>(plan: Option<String>, answer: UsagePayload<A>) -> bool {
    let name: Option<Seq<char>> = if answer.plan is Some {
        Some(answer.plan->0@)
    } else if answer.subscription is Some && answer.subscription->0.plan is Some {
        Some(answer.subscription->0.plan->0@)
    } else {
        None
    };
    match plan {
        Some(text) => name == Some(text@) && text@.len() > 0,
        None => name is None || name->0.len() == 0,
    }
}

/// A report tells what the answer says, and there is none of an answer that
/// cannot be read.
pub proof fn reports_tell_what_answers_say<A: Copy>(
    raw: Value,
    parsed: Option<UsagePayload<A>>,
    known: Option<UsageReport<A>>,
)
    requires
        call_ensures(report::<A>, (raw, parsed), known),
    ensures
        match parsed {
            Some(payload) => tells_usage(json(raw), payload, known),
            None => known is None,
        },
{
    reported(json(raw), parsed, known);
}

proof fn reported<A>(
    raw: Json,
    parsed: Option<UsagePayload<A>>,
    known: Option<UsageReport<A>>,
)
    requires
        is_report(raw, parsed, known),
    ensures
        match parsed {
            Some(payload) => tells_usage(raw, payload, known),
            None => known is None,
        },
{
    if let Some(usage) = known {
        let views = usage.windows@.map_values(|w: UsageWindow<A>| w@);
        assert(views.len() == usage.windows@.len());
        if views.len() == 1 {
            assert(views[0] == usage.windows@[0]@);
        }
    }
}

/// A body is parsed to what its document says where the decoder reads it, and
/// to nothing where it is no JSON or the status no success.
pub proof fn bodies_are_parsed_to_what_they_say<
    A: Copy,
    D: Fn(&Value) -> Option<UsagePayload<A>>,
>(status: StatusCode, body: &Bytes, decode: D, known: Option<UsageReport<A>>)
    requires
        call_ensures(parse::<A, D>, (status, body, decode), known),
    ensures
        !went_well(status) || json_document(octets(*body)) is Err ==> known is None,
        went_well(status) && json_document(octets(*body)) is Ok ==> exists|
            value: Value,
            parsed: Option<UsagePayload<A>>,
        | #[trigger]
            call_ensures(decode, (&value,), parsed) && json(value) == json_document(
                octets(*body),
            )->Ok_0 && match parsed {
                Some(payload) => tells_usage(json(value), payload, known),
                None => known is None,
            },
{
    if went_well(status) && json_document(octets(*body)) is Ok {
        let document = json_document(octets(*body))->Ok_0;
        assert(is_parsed(decode, Some(document), known));
        let (value, parsed) = choose|value: Value, parsed: Option<UsagePayload<A>>| #[trigger]
            call_ensures(decode, (&value,), parsed) && json(value) == document
                && is_report(document, parsed, known);
        reported(document, parsed, known);
        assert(call_ensures(decode, (&value,), parsed));
    }
}

} // verus!
