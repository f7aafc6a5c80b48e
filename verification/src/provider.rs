//! The provider call, on either side of the network: the request that goes
//! out, and what the reply means.
//!
//! The call itself is not made here. The caller fetches the URL that
//! [`build_request_url`] gives and hands what came back to
//! [`interpret_reply`].

use crate::config::{ApiConfig, ConfigView, ProviderKind};
use crate::goong::{goong_record, parse_goong_response};
use crate::google::{google_record, parse_google_geocoding_response};
use crate::json::{error_message, json_of, json_parse, parse_document, Json};
use crate::payload::{classify, payload_kind, PayloadKind, PayloadKindView};
use crate::record::{ExampleResult, RecordView};
use crate::text::{chars_of, decimal, push_decimal, replace_all, replaced, string_of};
use vstd::prelude::*;

verus! {

/// A latitude and a longitude, each as the decimal text that goes into the
/// request.
#[derive(Debug, PartialEq)]
pub struct Coordinates {
    pub lat: String,
    pub lng: String,
}

/// What a [`Coordinates`] holds.
pub struct CoordinatesView {
    pub lat: Seq<char>,
    pub lng: Seq<char>,
}

impl View for Coordinates {
    type V = CoordinatesView;

    open spec fn view(&self) -> CoordinatesView {
        CoordinatesView { lat: self.lat@, lng: self.lng@ }
    }
}

/// Why a provider gave no record.
#[derive(Debug, PartialEq)]
pub enum ProviderError {
    /// The provider has no template or no key.
    NotConfigured(ProviderKind),
    /// No reply came back; the text says why.
    Unreachable(String),
    /// The reply's HTTP status was not a success.
    Transport(u16),
    /// The reply's body was no JSON document; the text is the parser's.
    Malformed(String),
    /// The provider's own status was neither `OK` nor `ZERO_RESULTS`.
    UpstreamStatus(String),
}

/// What a [`ProviderError`] holds.
pub enum ProviderErrorView {
    NotConfigured(ProviderKind),
    Unreachable(Seq<char>),
    Transport(u16),
    Malformed(Seq<char>),
    UpstreamStatus(Seq<char>),
}

impl View for ProviderError {
    type V = ProviderErrorView;

    open spec fn view(&self) -> ProviderErrorView {
        match self {
            ProviderError::NotConfigured(kind) => ProviderErrorView::NotConfigured(*kind),
            ProviderError::Unreachable(why) => ProviderErrorView::Unreachable(why@),
            ProviderError::Transport(status) => ProviderErrorView::Transport(*status),
            ProviderError::Malformed(why) => ProviderErrorView::Malformed(why@),
            ProviderError::UpstreamStatus(code) => ProviderErrorView::UpstreamStatus(code@),
        }
    }
}

impl ProviderErrorView {
    /// The sentence that tells a person what went wrong.
    pub open spec fn message(self) -> Seq<char> {
        match self {
            ProviderErrorView::NotConfigured(ProviderKind::Custom) => "Custom URL not configured"@,
            ProviderErrorView::NotConfigured(_) => "API key not configured"@,
            ProviderErrorView::Unreachable(why) => why,
            ProviderErrorView::Transport(status) => "API request failed with status: "@ + decimal(
                status as nat,
            ),
            ProviderErrorView::Malformed(why) => why,
            ProviderErrorView::UpstreamStatus(code) => "API returned status: "@ + code,
        }
    }
}

impl ProviderError {
    /// The sentence that tells a person what went wrong.
    pub fn message(&self) -> (r: String)
        ensures
            r@ == self@.message(),
    {
        match self {
            ProviderError::NotConfigured(ProviderKind::Custom) => String::from_str(
                "Custom URL not configured",
            ),
            ProviderError::NotConfigured(_) => String::from_str("API key not configured"),
            ProviderError::Unreachable(why) => why.clone(),
            ProviderError::Transport(status) => {
                let mut text = String::from_str("API request failed with status: ");
                push_decimal(&mut text, *status as u64);
                text
            },
            ProviderError::Malformed(why) => why.clone(),
            ProviderError::UpstreamStatus(code) => {
                let mut text = String::from_str("API returned status: ");
                text.append(code.as_str());
                text
            },
        }
    }
}

/// The record that stands for a failed provider call: status `error`, the
/// message in the address, no optional field.
pub open spec fn failure_record(error: ProviderErrorView) -> RecordView {
    RecordView::bare("error"@, "API Error: "@ + error.message())
}

/// Turns a failed provider call into the record that the caller gets.
pub fn error_record(error: &ProviderError) -> (r: ExampleResult)
    ensures
        r@ == failure_record(error@),
{
    let mut address = String::from_str("API Error: ");
    address.append(error.message().as_str());
    ExampleResult::bare("error", address.as_str())
}

/// The URL of the custom provider: the template with `{lat}` replaced by the
/// latitude, then `{lng}` and `{long}` by the longitude.
pub open spec fn custom_url(template: Seq<char>, at: CoordinatesView) -> Seq<char> {
    replaced(replaced(replaced(template, "{lat}"@, at.lat), "{lng}"@, at.lng), "{long}"@, at.lng)
}

/// The URL of Google's reverse geocoding call.
pub open spec fn google_url(key: Seq<char>, at: CoordinatesView) -> Seq<char> {
    "https://maps.googleapis.com/maps/api/geocode/json?latlng="@ + at.lat + ","@ + at.lng
        + "&key="@ + key
}

/// The URL of Goong's reverse geocoding call.
pub open spec fn goong_url(key: Seq<char>, at: CoordinatesView) -> Seq<char> {
    "https://rsapi.goong.io/Geocode?latlng="@ + at.lat + ","@ + at.lng + "&api_key="@ + key
}

/// The request that a configuration asks for, or `NotConfigured` where the
/// chosen provider has an empty template or key.
pub open spec fn request_url(config: ConfigView, at: CoordinatesView) -> Result<
    Seq<char>,
    ProviderErrorView,
> {
    match config.provider {
        ProviderKind::Custom => if config.custom_url.len() == 0 {
            Err(ProviderErrorView::NotConfigured(ProviderKind::Custom))
        } else {
            Ok(custom_url(config.custom_url, at))
        },
        ProviderKind::Google => if config.google_api_key.len() == 0 {
            Err(ProviderErrorView::NotConfigured(ProviderKind::Google))
        } else {
            Ok(google_url(config.google_api_key, at))
        },
        ProviderKind::Goong => if config.goong_api_key.len() == 0 {
            Err(ProviderErrorView::NotConfigured(ProviderKind::Goong))
        } else {
            Ok(goong_url(config.goong_api_key, at))
        },
    }
}

/// The view of a result whose two sides have views.
pub open spec fn url_view(r: Result<String, ProviderError>) -> Result<Seq<char>, ProviderErrorView> {
    match r {
        Ok(url) => Ok(url@),
        Err(e) => Err(e@),
    }
}

/// A REST URL: `head`, latitude, comma, longitude, `key_label`, key.
fn rest_url(head: &str, at: &Coordinates, key_label: &str, key: &str) -> (r: String)
    ensures
        r@ == head@ + at.lat@ + ","@ + at.lng@ + key_label@ + key@,
{
    let mut url = String::from_str(head);
    url.append(at.lat.as_str());
    url.append(",");
    url.append(at.lng.as_str());
    url.append(key_label);
    url.append(key);
    url
}

/// Builds the URL to fetch for one request; see [`request_url`].
pub fn build_request_url(config: &ApiConfig, at: &Coordinates) -> (r: Result<String, ProviderError>)
    ensures
        url_view(r) == request_url(config@, at@),
{
    match config.provider {
        ProviderKind::Custom => {
            let template = chars_of(config.custom_url.as_str());
            if template.len() == 0 {
                return Err(ProviderError::NotConfigured(ProviderKind::Custom));
            }
            let lat = chars_of(at.lat.as_str());
            let lng = chars_of(at.lng.as_str());
            let first = replace_all(&template, &chars_of("{lat}"), &lat);
            let second = replace_all(&first, &chars_of("{lng}"), &lng);
            let third = replace_all(&second, &chars_of("{long}"), &lng);
            assert(third@.subrange(0, third.len() as int) == third@);
            Ok(string_of(&third, 0, third.len()))
        },
        ProviderKind::Google => {
            if config.google_api_key.as_str().unicode_len() == 0 {
                return Err(ProviderError::NotConfigured(ProviderKind::Google));
            }
            Ok(
                rest_url(
                    "https://maps.googleapis.com/maps/api/geocode/json?latlng=",
                    at,
                    "&key=",
                    config.google_api_key.as_str(),
                ),
            )
        },
        ProviderKind::Goong => {
            if config.goong_api_key.as_str().unicode_len() == 0 {
                return Err(ProviderError::NotConfigured(ProviderKind::Goong));
            }
            Ok(
                rest_url(
                    "https://rsapi.goong.io/Geocode?latlng=",
                    at,
                    "&api_key=",
                    config.goong_api_key.as_str(),
                ),
            )
        },
    }
}

/// What came back from the network.
#[derive(Debug, PartialEq)]
pub enum FetchOutcome {
    /// A reply, with its HTTP status and its body.
    Response { status: u16, body: String },
    /// No reply; the text says why.
    Failed { message: String },
}

/// What a [`FetchOutcome`] holds.
pub enum FetchOutcomeView {
    Response { status: u16, body: Seq<char> },
    Failed { message: Seq<char> },
}

impl View for FetchOutcome {
    type V = FetchOutcomeView;

    open spec fn view(&self) -> FetchOutcomeView {
        match self {
            FetchOutcome::Response { status, body } => FetchOutcomeView::Response {
                status: *status,
                body: body@,
            },
            FetchOutcome::Failed { message } => FetchOutcomeView::Failed { message: message@ },
        }
    }
}

/// An HTTP status that reports success.
pub open spec fn is_success(status: u16) -> bool {
    200 <= status < 300
}

/// The record that one provider's adapter makes of a payload.
pub open spec fn adapted(provider: ProviderKind, payload: Json) -> RecordView {
    match provider {
        ProviderKind::Goong => goong_record(payload),
        _ => google_record(payload),
    }
}

/// What a payload means.
///
/// A refusal by the provider is an error that carries the provider's status.
/// Every other payload goes to the provider's adapter, which gives the record
/// of the first result, or the record of a call that found nothing.
pub open spec fn payload_result(provider: ProviderKind, payload: Json) -> Result<
    RecordView,
    ProviderErrorView,
> {
    match payload_kind(payload) {
        PayloadKindView::Refused(status) => Err(ProviderErrorView::UpstreamStatus(status)),
        _ => Ok(adapted(provider, payload)),
    }
}

/// The view of a result whose two sides have views.
pub open spec fn result_view(r: Result<ExampleResult, ProviderError>) -> Result<
    RecordView,
    ProviderErrorView,
> {
    match r {
        Ok(record) => Ok(record@),
        Err(e) => Err(e@),
    }
}

/// Reads a parsed payload; see [`payload_result`].
pub fn interpret_payload(provider: ProviderKind, payload: serde_json::Value) -> (r: Result<
    ExampleResult,
    ProviderError,
>)
    ensures
        result_view(r) == payload_result(provider, json_of(payload)),
        r matches Ok(record) ==> record.status@ == "ok"@ || record.status@ == "error"@,
{
    match classify(&payload) {
        PayloadKind::Refused(status) => Err(ProviderError::UpstreamStatus(status)),
        _ => match provider {
            ProviderKind::Goong => Ok(parse_goong_response(payload)),
            _ => Ok(parse_google_geocoding_response(payload)),
        },
    }
}

/// Whatever the payload, a provider that answers gives a record whose status
/// is `ok`, or `error` where the call found nothing.
pub proof fn lemma_resolved_status(provider: ProviderKind, payload: Json)
    ensures
        payload_result(provider, payload) matches Ok(record) ==> record.status == (
        if payload_kind(payload) is Found {
            "ok"@
        } else {
            "error"@
        }),
{
}

/// What a reply means, given what the parser makes of its body: `None` where
/// the body is no JSON document, in which case `why` is the parser's message.
pub open spec fn reply_result(
    provider: ProviderKind,
    outcome: FetchOutcomeView,
    parsed: Option<Json>,
    why: Seq<char>,
) -> Result<RecordView, ProviderErrorView> {
    match outcome {
        FetchOutcomeView::Failed { message } => Err(ProviderErrorView::Unreachable(message)),
        FetchOutcomeView::Response { status, body } => if !is_success(status) {
            Err(ProviderErrorView::Transport(status))
        } else {
            match parsed {
                Some(payload) => payload_result(provider, payload),
                None => Err(ProviderErrorView::Malformed(why)),
            }
        },
    }
}

/// The body of an outcome; empty where there is none.
pub open spec fn body_of(outcome: FetchOutcomeView) -> Seq<char> {
    match outcome {
        FetchOutcomeView::Response { body, .. } => body,
        FetchOutcomeView::Failed { .. } => Seq::empty(),
    }
}

/// Reads what came back from the network; see [`reply_result`]. The body of
/// a successful reply is parsed as JSON. Where it is none, the error carries
/// the parser's message, of which nothing is known.
pub fn interpret_reply(provider: ProviderKind, outcome: &FetchOutcome) -> (r: Result<
    ExampleResult,
    ProviderError,
>)
    ensures
        exists|why: Seq<char>|
            result_view(r) == #[trigger] reply_result(
                provider,
                outcome@,
                json_parse(body_of(outcome@)),
                why,
            ),
        r matches Ok(record) ==> record.status@ == "ok"@ || record.status@ == "error"@,
{
    match outcome {
        FetchOutcome::Failed { message } => {
            let r = Err(ProviderError::Unreachable(message.clone()));
            assert(result_view(r) == reply_result(
                provider,
                outcome@,
                json_parse(body_of(outcome@)),
                Seq::empty(),
            ));
            r
        },
        FetchOutcome::Response { status, body } => {
            if !(200 <= *status && *status < 300) {
                let r = Err(ProviderError::Transport(*status));
                assert(result_view(r) == reply_result(
                    provider,
                    outcome@,
                    json_parse(body_of(outcome@)),
                    Seq::empty(),
                ));
                return r;
            }
            match parse_document(body.as_str()) {
                Ok(payload) => {
                    let r = interpret_payload(provider, payload);
                    assert(result_view(r) == reply_result(
                        provider,
                        outcome@,
                        json_parse(body_of(outcome@)),
                        Seq::empty(),
                    ));
                    r
                },
                Err(e) => {
                    let why = error_message(&e);
                    let r = Err(ProviderError::Malformed(why));
                    assert(result_view(r) == reply_result(
                        provider,
                        outcome@,
                        json_parse(body_of(outcome@)),
                        why@,
                    ));
                    r
                },
            }
        },
    }
}

/// Resolves coordinates with the configured provider: builds the request,
/// has `fetch` make the call, and reads what came back.
///
/// Where the provider is not configured, nothing is fetched. Otherwise
/// `fetch` is called once, with the URL that [`request_url`] gives, and the
/// result is what [`reply_result`] makes of its outcome.
pub fn resolve<F: Fn(&str) -> FetchOutcome>(config: &ApiConfig, at: &Coordinates, fetch: F) -> (r:
    Result<ExampleResult, ProviderError>)
    requires
        forall|url: &str| call_requires(fetch, (url,)),
    ensures
        match request_url(config@, at@) {
            Err(e) => result_view(r) == Err::<RecordView, ProviderErrorView>(e),
            Ok(url) => exists|asked: &str, outcome: FetchOutcome, why: Seq<char>|
                #![trigger call_ensures(fetch, (asked,), outcome), fetched_result(config@.provider, outcome, why)]
                asked@ == url && call_ensures(fetch, (asked,), outcome) && result_view(r)
                    == fetched_result(config@.provider, outcome, why),
        },
        r matches Ok(record) ==> record.status@ == "ok"@ || record.status@ == "error"@,
{
    let url = match build_request_url(config, at) {
        Ok(url) => url,
        Err(e) => {
            return Err(e);
        },
    };
    let asked = url.as_str();
    let outcome = fetch(asked);
    let r = interpret_reply(config.provider, &outcome);
    proof {
        let why = choose|why: Seq<char>|
            result_view(r) == #[trigger] reply_result(
                config.provider,
                outcome@,
                json_parse(body_of(outcome@)),
                why,
            );
        assert(result_view(r) == fetched_result(config@.provider, outcome, why));
    }
    r
}

/// What the outcome of a fetch means; see [`reply_result`]. Where the body
/// is no JSON document, `why` is the parser's message.
pub open spec fn fetched_result(provider: ProviderKind, outcome: FetchOutcome, why: Seq<char>) -> Result<
    RecordView,
    ProviderErrorView,
> {
    reply_result(provider, outcome@, json_parse(body_of(outcome@)), why)
}

/// The same reply gives the same record: what a reply settles to depends on
/// the parser's message only where the body is no JSON document, and every
/// record that a reply settles to has status `ok` or `error`.
pub proof fn lemma_reply_settles(
    provider: ProviderKind,
    outcome: FetchOutcomeView,
    parsed: Option<Json>,
    why: Seq<char>,
    other: Seq<char>,
)
    ensures
        !(outcome is Response && is_success(outcome->status) && parsed is None) ==> reply_result(
            provider,
            outcome,
            parsed,
            why,
        ) == reply_result(provider, outcome, parsed, other),
        settled(reply_result(provider, outcome, parsed, why)).status == "ok"@ || settled(
            reply_result(provider, outcome, parsed, why),
        ).status == "error"@,
{
    if parsed is Some {
        lemma_resolved_status(provider, parsed->0);
    }
}

/// The same payload gives the same record: two results that both are what
/// [`payload_result`] makes of one payload are equal, and so are the wire
/// forms of their records, member for member.
pub proof fn lemma_same_payload_same_record(
    provider: ProviderKind,
    payload: Json,
    first: Result<RecordView, ProviderErrorView>,
    second: Result<RecordView, ProviderErrorView>,
)
    requires
        first == payload_result(provider, payload),
        second == payload_result(provider, payload),
    ensures
        first == second,
        settled(first).wire_form() == settled(second).wire_form(),
{
}

/// The record that answers a provider call, whether it went well or not.
pub open spec fn settled(r: Result<RecordView, ProviderErrorView>) -> RecordView {
    match r {
        Ok(record) => record,
        Err(e) => failure_record(e),
    }
}

/// Turns the result of a provider call into the record that the caller gets:
/// the record itself, or the one that stands for the failure.
pub fn settle(r: Result<ExampleResult, ProviderError>) -> (record: ExampleResult)
    ensures
        record@ == settled(result_view(r)),
{
    match r {
        Ok(record) => record,
        Err(e) => error_record(&e),
    }
}

} // verus!
