//! The optional question how much of an account has been used. It is asked only
//! where the setting `usage_enabled` is true, so that no upstream is probed for
//! a billing endpoint unasked.

use crate::channel::common::{
    bearer, field_names, field_value, inject_bearer, join_url, unsendable, url,
};
use crate::channel::custom::auth::{
    apply, authenticated, carried, carrier, chosen_header, configured, Proto,
};
use crate::channel::custom::oauth::{access_token, access_token_of, succeeded};
use crate::channel::error::{ChannelError, ChannelFault};
use crate::json::{bool_member, from_slice, json, json_document, nonblank_member, Json};
use crate::text::optional;
use crate::transport::{
    get_method, insert_field, is_value_text, octets, Outbound, OutboundRequest,
};
use bytes::Bytes;
use http::{HeaderMap, HeaderValue, StatusCode};
use serde_json::Value;
use vstd::prelude::*;

verus! {

/// Where usage is asked for unless the settings say otherwise.
pub const DEFAULT_USAGE_BASE_URL: &'static str = "https://api.randomlabs.ai";

/// The path of the usage endpoint unless the settings say otherwise.
pub const DEFAULT_USAGE_PATH: &'static str = "/billing/usage";

/// The setting `key`, or `default` where there is none that is not blank.
pub open spec fn setting(settings: Json, key: Seq<char>, default: Seq<char>) -> Seq<char> {
    match settings.nonblank_member(key) {
        Some(text) => text,
        None => default,
    }
}

/// The fields that authenticate the question: an access token goes as a bearer
/// token whatever the settings choose; an API key goes as they choose.
pub open spec fn usage_fields(secret: Json, settings: Json) -> Result<
    Map<Seq<char>, Seq<Seq<u8>>>,
    ChannelFault,
> {
    let none = Map::<Seq<char>, Seq<Seq<u8>>>::empty();
    match access_token_of(secret) {
        Some(token) => if is_value_text(bearer(token)) {
            Ok(none.insert("authorization"@, field_value(bearer(token))))
        } else {
            Err(unsendable())
        },
        None => {
            let key = secret.nonblank_member("api_key"@)->0;
            match chosen_header(settings) {
                Ok(header) => if is_value_text(carried(carrier(header, Proto::OpenAi), key)) {
                    Ok(authenticated(none, key, header, Proto::OpenAi))
                } else {
                    Err(unsendable())
                },
                Err(e) => Err(e),
            }
        },
    }
}

/// The question, if it is to be asked.
pub open spec fn usage_request(secret: Json, settings: Json) -> Result<
    Option<Outbound>,
    ChannelFault,
> {
    if settings.bool_member("usage_enabled"@) != Some(true) {
        Ok(None)
    } else if access_token_of(secret) is None && secret.nonblank_member("api_key"@) is None {
        Err(ChannelFault::InvalidCredential("missing access_token or api_key"@))
    } else {
        let base = setting(settings, "usage_base_url"@, DEFAULT_USAGE_BASE_URL@);
        let path = setting(settings, "usage_path"@, DEFAULT_USAGE_PATH@);
        match url(base, path) {
            Ok(uri) => match usage_fields(secret, settings) {
                Ok(set) => Ok(
                    Some(
                        Outbound {
                            method: "GET"@,
                            uri,
                            fields: set.insert("accept"@, field_value("application/json"@)),
                            body: Seq::empty(),
                        },
                    ),
                ),
                Err(e) => Err(e),
            },
            Err(e) => Err(e),
        }
    }
}

/// What the question comes to.
pub open spec fn question(result: Result<Option<OutboundRequest>, ChannelError>) -> Result<
    Option<Outbound>,
    ChannelFault,
> {
    match result {
        Ok(Some(request)) => Ok(Some(request@)),
        Ok(None) => Ok(None),
        Err(e) => Err(e@),
    }
}

/// The setting `key`, or `default` where there is none that is not blank.
pub fn string_setting<'a>(settings: &'a Value, key: &str, default: &'a str) -> (r: &'a str)
    ensures
        r@ == setting(json(*settings), key@, default@),
{
    match nonblank_member(settings, key) {
        Some(text) => text,
        None => default,
    }
}

/// The question how much of the account has been used, if it is to be asked.
pub fn request(secret: &Value, settings: &Value) -> (r: Result<
    Option<OutboundRequest>,
    ChannelError,
>)
    ensures
        question(r) == usage_request(json(*secret), json(*settings)),
{
    match bool_member(settings, "usage_enabled") {
        Some(true) => {},
        _ => {
            return Ok(None);
        },
    }
    let token = access_token(secret);
    let api_key = nonblank_member(secret, "api_key");
    if token.is_none() && api_key.is_none() {
        return Err(ChannelError::InvalidCredential("missing access_token or api_key".to_owned()));
    }
    let base = string_setting(settings, "usage_base_url", DEFAULT_USAGE_BASE_URL);
    let path = string_setting(settings, "usage_path", DEFAULT_USAGE_PATH);
    let uri = match join_url(base, path) {
        Ok(uri) => uri,
        Err(e) => {
            return Err(e);
        },
    };
    let mut headers = HeaderMap::new();
    if let Some(token) = token {
        match inject_bearer(&mut headers, token) {
            Ok(_) => {},
            Err(e) => {
                return Err(e);
            },
        }
    } else if let Some(api_key) = api_key {
        let header = match configured(settings) {
            Ok(header) => header,
            Err(e) => {
                return Err(e);
            },
        };
        match apply(&mut headers, api_key, header, Proto::OpenAi) {
            Ok(_) => {},
            Err(e) => {
                return Err(e);
            },
        }
    }
    proof {
        field_names();
        reveal_strlit("application/json");
    }
    insert_field(&mut headers, "accept", HeaderValue::from_static("application/json"));
    Ok(Some(OutboundRequest { method: get_method(), uri, headers, body: Bytes::new() }))
}

/// An answer about usage, in amounts of type `A`.
pub struct UsagePayload<A> {
    /// The answer proper, where it comes wrapped.
    pub state: Option<Box<UsagePayload<A>>>,
    pub plan: Option<String>,
    pub credits: Option<CreditsPayload<A>>,
    pub subscription: Option<SubscriptionPayload<A>>,
}

/// What an answer says about credits.
pub struct CreditsPayload<A> {
    pub total: Option<A>,
    pub available: Option<A>,
    pub used: Option<A>,
}

/// What an answer says about a subscription.
pub struct SubscriptionPayload<A> {
    pub plan: Option<String>,
    pub usage: Option<A>,
    pub allowance: Option<A>,
    pub period_start: Option<i64>,
    pub period_duration_secs: Option<i64>,
    pub reset_at: Option<i64>,
}

/// How many credits have been used.
#[derive(Debug, PartialEq)]
pub enum UsedCredits<A> {
    /// As many as the answer says.
    Stated(A),
    /// What is left of `total` without `available`, and never less than none.
    Difference { total: A, available: A },
    /// The answer does not tell.
    Unknown,
}

/// What is known about credits.
#[derive(Debug, PartialEq)]
pub struct CreditsReport<A> {
    pub available: Option<A>,
    pub used: UsedCredits<A>,
    pub monthly_limit: Option<A>,
}

/// A span of time with a limit on usage.
#[derive(Debug)]
pub struct UsageWindow<A> {
    pub name: String,
    pub used: Option<A>,
    pub limit: Option<A>,
    pub resets_at_unix: Option<i64>,
    pub window_seconds: Option<i64>,
}

/// What is known about the usage of an account.
#[derive(Debug)]
pub struct UsageReport<A> {
    pub plan: Option<String>,
    pub windows: Vec<UsageWindow<A>>,
    pub credits: Option<CreditsReport<A>>,
    /// The whole answer, as it came.
    pub raw: Value,
}

/// What a `UsageWindow` says.
pub struct Window<A> {
    pub name: Seq<char>,
    pub used: Option<A>,
    pub limit: Option<A>,
    pub resets_at_unix: Option<i64>,
    pub window_seconds: Option<i64>,
}

impl<A> View for UsageWindow<A> {
    type V = Window<A>;

    open spec fn view(&self) -> Window<A> {
        Window {
            name: self.name@,
            used: self.used,
            limit: self.limit,
            resets_at_unix: self.resets_at_unix,
            window_seconds: self.window_seconds,
        }
    }
}

/// The answer proper: the wrapped one, where there is one.
pub open spec fn unwrapped<A>(payload: UsagePayload<A>) -> UsagePayload<A> {
    match payload.state {
        Some(inner) => *inner,
        None => payload,
    }
}

/// Whether an answer says anything about usage.
pub open spec fn says_something<A>(payload: UsagePayload<A>) -> bool {
    payload.credits is Some || payload.subscription is Some || payload.plan is Some
}

/// What an answer makes known about credits: the used ones are those that it
/// states, else the difference of the total and the available ones.
pub open spec fn credits_known<A>(credits: CreditsPayload<A>) -> CreditsReport<A> {
    CreditsReport {
        available: credits.available,
        used: match (credits.used, credits.total, credits.available) {
            (Some(used), _, _) => UsedCredits::Stated(used),
            (None, Some(total), Some(available)) => UsedCredits::Difference { total, available },
            _ => UsedCredits::Unknown,
        },
        monthly_limit: credits.total,
    }
}

/// `a + b`, or the nearest number to it that fits `i64`.
pub open spec fn sum(a: i64, b: i64) -> i64 {
    if a + b > i64::MAX {
        i64::MAX
    } else if a + b < i64::MIN {
        i64::MIN
    } else {
        (a + b) as i64
    }
}

/// The window of a subscription that says anything about usage: it ends when
/// the answer says that it is reset, else when the period is over.
pub open spec fn window_known<A>(subscription: SubscriptionPayload<A>) -> Option<Window<A>> {
    if subscription.usage is None && subscription.allowance is None {
        None
    } else {
        let period = match (subscription.period_start, subscription.period_duration_secs) {
            (Some(start), Some(duration)) => Some((sum(start, duration), duration)),
            _ => None,
        };
        Some(
            Window {
                name: "subscription"@,
                used: subscription.usage,
                limit: subscription.allowance,
                resets_at_unix: match (subscription.reset_at, period) {
                    (Some(reset), _) => Some(reset),
                    (None, Some((end, _))) => Some(end),
                    (None, None) => None,
                },
                window_seconds: match period {
                    Some((_, duration)) => Some(duration),
                    None => None,
                },
            },
        )
    }
}

/// The windows of an account.
pub open spec fn windows_known<A>(payload: UsagePayload<A>) -> Seq<Window<A>> {
    match payload.subscription {
        Some(subscription) => match window_known(subscription) {
            Some(window) => seq![window],
            None => seq![],
        },
        None => seq![],
    }
}

/// The plan of an account: the answer's own, else that of the subscription. An
/// empty name is none.
pub open spec fn plan_known<A>(payload: UsagePayload<A>) -> Option<Seq<char>> {
    let named = match (payload.plan, payload.subscription) {
        (Some(plan), _) => Some(plan@),
        (None, Some(subscription)) => optional(subscription.plan),
        (None, None) => None,
    };
    match named {
        Some(plan) => if plan.len() > 0 {
            Some(plan)
        } else {
            None
        },
        None => None,
    }
}

/// The document that the body of an answer holds, where the answer is a success
/// and the body is JSON.
pub open spec fn answer_document(status: StatusCode, body: Seq<u8>) -> Option<Json> {
    if succeeded(status) {
        match json_document(body) {
            Ok(document) => Some(document),
            Err(_) => None,
        }
    } else {
        None
    }
}

/// What the answer `raw` makes known where it reads as `parsed`: nothing unless
/// it can be read and says something about usage.
pub open spec fn is_report<A>(
    raw: Json,
    parsed: Option<UsagePayload<A>>,
    report: Option<UsageReport<A>>,
) -> bool {
    let answer = unwrapped(parsed->0);
    let tells = parsed is Some && says_something(answer);
    match report {
        None => !tells,
        Some(known) => {
            &&& tells
            &&& optional(known.plan) == plan_known(answer)
            &&& known.credits == match answer.credits {
                Some(credits) => Some(credits_known(credits)),
                None => None,
            }
            &&& known.windows@.map_values(|w: UsageWindow<A>| w@) == windows_known(answer)
            &&& json(known.raw) == raw
        },
    }
}

/// `report` is what an answer comes to where `decode` reads its document.
pub open spec fn is_parsed<A, D: Fn(&Value) -> Option<UsagePayload<A>>>(
    decode: D,
    document: Option<Json>,
    report: Option<UsageReport<A>>,
) -> bool {
    match document {
        Some(raw) => exists|value: Value, parsed: Option<UsagePayload<A>>| #[trigger]
            call_ensures(decode, (&value,), parsed) && json(value) == raw && is_report(
                raw,
                parsed,
                report,
            ),
        None => report is None,
    }
}

/// What an answer makes known about credits.
fn report_credits<A: Copy>(credits: CreditsPayload<A>) -> (r: CreditsReport<A>)
    ensures
        r == credits_known(credits),
{
    let used = match (credits.used, credits.total, credits.available) {
        (Some(used), _, _) => UsedCredits::Stated(used),
        (None, Some(total), Some(available)) => UsedCredits::Difference { total, available },
        _ => UsedCredits::Unknown,
    };
    CreditsReport { available: credits.available, used, monthly_limit: credits.total }
}

/// `a + b`, or the nearest number to it that fits `i64`.
fn saturating_sum(a: i64, b: i64) -> (r: i64)
    ensures
        r == sum(a, b),
{
    let exact: i128 = a as i128 + b as i128;
    if exact > i64::MAX as i128 {
        i64::MAX
    } else if exact < i64::MIN as i128 {
        i64::MIN
    } else {
        exact as i64
    }
}

/// The window of a subscription that says anything about usage.
fn report_window<A: Copy>(subscription: &SubscriptionPayload<A>) -> (r: Option<UsageWindow<A>>)
    ensures
        match r {
            Some(window) => window_known(*subscription) == Some(window@),
            None => window_known(*subscription) is None,
        },
{
    if subscription.usage.is_none() && subscription.allowance.is_none() {
        return None;
    }
    let mut window = UsageWindow {
        name: "subscription".to_owned(),
        used: subscription.usage,
        limit: subscription.allowance,
        resets_at_unix: None,
        window_seconds: None,
    };
    if let (Some(start), Some(duration)) = (
        subscription.period_start,
        subscription.period_duration_secs,
    ) {
        window.resets_at_unix = Some(saturating_sum(start, duration));
        window.window_seconds = Some(duration);
    }
    if let Some(reset) = subscription.reset_at {
        window.resets_at_unix = Some(reset);
    }
    Some(window)
}

/// The plan, where it has a name.
fn named(plan: Option<String>) -> (r: Option<String>)
    ensures
        match optional(plan) {
            Some(name) => if name.len() > 0 {
                optional(r) == Some(name)
            } else {
                r is None
            },
            None => r is None,
        },
{
    match plan {
        Some(plan) => if plan.as_str().is_empty() {
            None
        } else {
            Some(plan)
        },
        None => None,
    }
}

/// What the answer `raw` makes known about the usage of an account; `parsed` is
/// what it reads as.
pub fn report<A: Copy>(raw: Value, parsed: Option<UsagePayload<A>>) -> (r: Option<UsageReport<A>>)
    ensures
        is_report(json(raw), parsed, r),
{
    let payload = match parsed {
        Some(payload) => payload,
        None => {
            return None;
        },
    };
    let answer = match payload.state {
        Some(inner) => *inner,
        None => payload,
    };
    assert(answer == unwrapped(payload));
    if answer.credits.is_none() && answer.subscription.is_none() && answer.plan.is_none() {
        return None;
    }
    let credits = match answer.credits {
        Some(credits) => Some(report_credits(credits)),
        None => None,
    };
    let mut windows: Vec<UsageWindow<A>> = Vec::new();
    let mut plan = answer.plan;
    if let Some(subscription) = answer.subscription {
        if let Some(window) = report_window(&subscription) {
            windows.push(window);
        }
        if plan.is_none() {
            plan = subscription.plan;
        }
    }
    assert(windows@.map_values(|w: UsageWindow<A>| w@) == windows_known(unwrapped(payload)));
    Some(UsageReport { plan: named(plan), windows, credits, raw })
}

/// The document of an answer, where it is a success and its body is JSON.
pub fn answered(status: StatusCode, body: &Bytes) -> (r: Option<Value>)
    ensures
        match r {
            Some(raw) => succeeded(status) && json_document(octets(*body)) == Ok::<
                Json,
                Seq<char>,
            >(json(raw)),
            None => !succeeded(status) || json_document(octets(*body)) is Err,
        },
{
    if !status.is_success() {
        return None;
    }
    match from_slice(body) {
        Ok(raw) => Some(raw),
        Err(_) => None,
    }
}

/// What an answer makes known about the usage of an account; `decode` reads its
/// document.
pub fn parse<A: Copy, D: Fn(&Value) -> Option<UsagePayload<A>>>(
    status: StatusCode,
    body: &Bytes,
    decode: D,
) -> (r: Option<UsageReport<A>>)
    requires
        forall|value: Value| #[trigger] call_requires(decode, (&value,)),
    ensures
        is_parsed(decode, answer_document(status, octets(*body)), r),
{
    match answered(status, body) {
        Some(raw) => {
            let parsed = decode(&raw);
            report(raw, parsed)
        },
        None => None,
    }
}

} // verus!
