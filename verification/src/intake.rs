//! The request intake: what the server decides between reading a request and
//! writing its answer.
//!
//! One request passes through these phases: received, provider call, then
//! either a direct return or a wait for confirmation, and responded. The
//! server owns the socket, the provider call and the wait; every decision in
//! between is taken here, on the application state and plain values:
//!
//! - [`AppState::receive`] reads the request and tells what to fetch;
//! - [`AppState::conclude`] reads what came back and tells whether to answer
//!   or to wait;
//! - [`AppState::finish`] ends a wait with the record that resolved it.

use crate::broker::{
    resolution_view, BrokerView, ConfirmationBroker, Decision, DecisionView, Resolution,
};
use crate::config::{config_fault, validate, ApiConfig, ConfigError, ConfigView, ProviderKind};
use crate::json::{
    child_of, decimal_of, error_message, float_text, json_of, json_parse, parse_document, Json,
};
use crate::provider::{
    body_of, build_request_url, interpret_reply, reply_result, request_url, result_view, settle,
    settled, Coordinates, CoordinatesView, FetchOutcome, ProviderError, ProviderErrorView,
};
use crate::record::{ExampleResult, RecordView};
use crate::text::same_text;
use vstd::prelude::*;

verus! {

/// The one route that is served.
pub open spec fn is_process_route(method: Seq<char>, url: Seq<char>) -> bool {
    method == "POST"@ && url == "/process"@
}

/// Whether a request goes to the one route that is served.
pub fn process_route(method: &str, url: &str) -> (r: bool)
    ensures
        r == is_process_route(method@, url@),
{
    same_text(method, "POST") && same_text(url, "/process")
}

/// Why a request body is refused.
#[derive(Debug, PartialEq)]
pub enum RequestError {
    /// The body is no JSON document; the text is the parser's.
    NotJson(String),
    /// The document has no number under `lat`.
    LatitudeMissing,
    /// The document has no number under `lng`.
    LongitudeMissing,
}

/// What a [`RequestError`] holds.
pub enum RequestErrorView {
    NotJson(Seq<char>),
    LatitudeMissing,
    LongitudeMissing,
}

impl View for RequestError {
    type V = RequestErrorView;

    open spec fn view(&self) -> RequestErrorView {
        match self {
            RequestError::NotJson(why) => RequestErrorView::NotJson(why@),
            RequestError::LatitudeMissing => RequestErrorView::LatitudeMissing,
            RequestError::LongitudeMissing => RequestErrorView::LongitudeMissing,
        }
    }
}

impl RequestErrorView {
    /// The plain-text answer to a refused body.
    pub open spec fn answer(self) -> Seq<char> {
        "Error parsing JSON: "@ + match self {
            RequestErrorView::NotJson(why) => why,
            RequestErrorView::LatitudeMissing => "field `lat` must be a number"@,
            RequestErrorView::LongitudeMissing => "field `lng` must be a number"@,
        }
    }
}

impl RequestError {
    /// The plain-text answer to a refused body.
    pub fn answer(&self) -> (r: String)
        ensures
            r@ == self@.answer(),
    {
        let mut text = String::from_str("Error parsing JSON: ");
        match self {
            RequestError::NotJson(why) => text.append(why.as_str()),
            RequestError::LatitudeMissing => text.append("field `lat` must be a number"),
            RequestError::LongitudeMissing => text.append("field `lng` must be a number"),
        }
        text
    }
}

/// The coordinates that a request document holds: the numbers under `lat`
/// and `lng`, each as its decimal text.
pub open spec fn coordinates_of(doc: Json) -> Result<CoordinatesView, RequestErrorView> {
    match (doc.field("lat"@).number(), doc.field("lng"@).number()) {
        (Some(lat), Some(lng)) => Ok(
            CoordinatesView { lat: float_text(lat), lng: float_text(lng) },
        ),
        (None, _) => Err(RequestErrorView::LatitudeMissing),
        (_, None) => Err(RequestErrorView::LongitudeMissing),
    }
}

/// The refusal of a body that is no JSON document, with the parser's message.
pub open spec fn not_json(why: Seq<char>) -> Result<CoordinatesView, RequestErrorView> {
    Err(RequestErrorView::NotJson(why))
}

/// The view of a result whose two sides have views.
pub open spec fn request_view(r: Result<Coordinates, RequestError>) -> Result<
    CoordinatesView,
    RequestErrorView,
> {
    match r {
        Ok(at) => Ok(at@),
        Err(e) => Err(e@),
    }
}

/// Reads the coordinates out of a parsed request; see [`coordinates_of`].
pub fn read_coordinates(doc: &serde_json::Value) -> (r: Result<Coordinates, RequestError>)
    ensures
        request_view(r) == coordinates_of(json_of(*doc)),
{
    let lat = match decimal_of(child_of(Some(doc), "lat")) {
        Some(text) => text,
        None => {
            return Err(RequestError::LatitudeMissing);
        },
    };
    let lng = match decimal_of(child_of(Some(doc), "lng")) {
        Some(text) => text,
        None => {
            return Err(RequestError::LongitudeMissing);
        },
    };
    Ok(Coordinates { lat, lng })
}

/// Reads a request body. A body that is a JSON document is read by
/// [`read_coordinates`]; any other body is refused as `NotJson`, with the
/// parser's message, of which nothing is known.
pub fn parse_request(body: &str) -> (r: Result<Coordinates, RequestError>)
    ensures
        match json_parse(body@) {
            Some(doc) => request_view(r) == coordinates_of(doc),
            None => r matches Err(RequestError::NotJson(_)),
        },
{
    match parse_document(body) {
        Ok(doc) => read_coordinates(&doc),
        Err(e) => Err(RequestError::NotJson(error_message(&e))),
    }
}

/// A provider call that is under way: the provider and the confirmation mode
/// as they were when the request came in, and the URL to fetch.
#[derive(Debug, PartialEq)]
pub struct ProviderCall {
    pub provider: ProviderKind,
    pub confirm: bool,
    pub url: String,
}

/// What a [`ProviderCall`] holds.
pub struct ProviderCallView {
    pub provider: ProviderKind,
    pub confirm: bool,
    pub url: Seq<char>,
}

impl View for ProviderCall {
    type V = ProviderCallView;

    open spec fn view(&self) -> ProviderCallView {
        ProviderCallView { provider: self.provider, confirm: self.confirm, url: self.url@ }
    }
}

/// How the provider phase of a request ends.
#[derive(Debug, PartialEq)]
pub struct Conclusion {
    /// The record of the call: the answer, or what the operator is shown.
    pub record: ExampleResult,
    /// Whether the provider call failed, so that the record stands for the
    /// failure.
    pub failed: bool,
    /// The ticket to wait under. `None` says: answer now.
    pub ticket: Option<u64>,
}

/// What a [`Conclusion`] holds.
pub struct ConclusionView {
    pub record: RecordView,
    pub failed: bool,
    pub ticket: Option<u64>,
}

impl View for Conclusion {
    type V = ConclusionView;

    open spec fn view(&self) -> ConclusionView {
        ConclusionView { record: self.record@, failed: self.failed, ticket: self.ticket }
    }
}

/// What to do with a request that has just come in.
#[derive(Debug, PartialEq)]
pub enum Reception {
    /// Answer now, in plain text: the route is unknown or the body refused.
    Refuse { body: String },
    /// Fetch the URL of this call and come back with what it gave.
    Fetch { call: ProviderCall },
    /// The provider is not configured: the request is concluded already.
    Concluded { conclusion: Conclusion },
}

/// What a [`Reception`] holds.
pub enum ReceptionView {
    Refuse { body: Seq<char> },
    Fetch { call: ProviderCallView },
    Concluded { conclusion: ConclusionView },
}

impl View for Reception {
    type V = ReceptionView;

    open spec fn view(&self) -> ReceptionView {
        match self {
            Reception::Refuse { body } => ReceptionView::Refuse { body: body@ },
            Reception::Fetch { call } => ReceptionView::Fetch { call: call@ },
            Reception::Concluded { conclusion } => ReceptionView::Concluded {
                conclusion: conclusion@,
            },
        }
    }
}

/// The state that requests and the operator's commands share.
pub struct AppState {
    config: ApiConfig,
    latest: Option<ExampleResult>,
    processing: bool,
    broker: ConfirmationBroker,
}

/// What an [`AppState`] holds.
pub struct AppStateView {
    pub config: ConfigView,
    /// The record of the last provider call that went well.
    pub latest: Option<RecordView>,
    /// Whether a request is between its reception and its answer.
    pub processing: bool,
    pub broker: BrokerView,
}

/// The view of a record that may be missing.
pub open spec fn record_view(r: Option<ExampleResult>) -> Option<RecordView> {
    match r {
        Some(r) => Some(r@),
        None => None,
    }
}

impl View for AppState {
    type V = AppStateView;

    closed spec fn view(&self) -> AppStateView {
        AppStateView {
            config: self.config@,
            latest: record_view(self.latest),
            processing: self.processing,
            broker: self.broker@,
        }
    }
}

impl AppStateView {
    /// The state at start, with the configuration that was loaded.
    pub open spec fn initial(config: ConfigView) -> AppStateView {
        AppStateView { config, latest: None, processing: false, broker: BrokerView::initial() }
    }

    /// The broker within is well formed.
    pub open spec fn well_formed(self) -> bool {
        self.broker.well_formed()
    }

    /// The state after a provider call ended with `result` at `now`.
    ///
    /// A record that the provider gave becomes the latest one. Where the
    /// request asks for confirmation and a ticket is to be had, the record
    /// is submitted and the request stays in process; otherwise it is
    /// answered and processing ends.
    pub open spec fn after_conclusion(
        self,
        confirm: bool,
        result: Result<RecordView, ProviderErrorView>,
        now: u64,
    ) -> AppStateView {
        let latest = match result {
            Ok(record) => Some(record),
            Err(_) => self.latest,
        };
        if confirm && self.broker.submitted() is Some {
            AppStateView {
                latest,
                processing: true,
                broker: self.broker.after_submit(settled(result), now),
                ..self
            }
        } else {
            AppStateView { latest, processing: false, ..self }
        }
    }

    /// How a provider call that ended with `result` concludes: with the
    /// record that the result settles to, and with a ticket where the request
    /// asks for confirmation and a ticket is to be had.
    pub open spec fn conclusion(
        self,
        confirm: bool,
        result: Result<RecordView, ProviderErrorView>,
    ) -> ConclusionView {
        ConclusionView {
            record: settled(result),
            failed: result is Err,
            ticket: if confirm {
                self.broker.submitted()
            } else {
                None
            },
        }
    }

    /// The state after a request to the served route was read at `now`.
    pub open spec fn after_reception(
        self,
        request: Result<CoordinatesView, RequestErrorView>,
        now: u64,
    ) -> AppStateView {
        match request {
            Err(_) => self,
            Ok(at) => match request_url(self.config, at) {
                Ok(url) => AppStateView { processing: true, ..self },
                Err(e) => self.after_conclusion(self.config.confirm_results, Err(e), now),
            },
        }
    }

    /// What to do with a request to the served route.
    pub open spec fn reception(
        self,
        request: Result<CoordinatesView, RequestErrorView>,
    ) -> ReceptionView {
        match request {
            Err(e) => ReceptionView::Refuse { body: e.answer() },
            Ok(at) => match request_url(self.config, at) {
                Ok(url) => ReceptionView::Fetch {
                    call: ProviderCallView {
                        provider: self.config.provider,
                        confirm: self.config.confirm_results,
                        url,
                    },
                },
                Err(e) => ReceptionView::Concluded {
                    conclusion: self.conclusion(self.config.confirm_results, Err(e)),
                },
            },
        }
    }
}

impl AppState {
    /// The state at start, with the configuration that was loaded.
    pub fn new(config: ApiConfig) -> (r: Self)
        ensures
            r@ == AppStateView::initial(config@),
            r@.well_formed(),
    {
        AppState { config, latest: None, processing: false, broker: ConfirmationBroker::new() }
    }

    /// Tells the verifier that this state is well formed, as every state is.
    /// There is nothing to run.
    pub fn attest(&self)
        ensures
            self@.well_formed(),
    {
        self.broker.attest();
    }

    /// The record of the last provider call that went well, if any.
    pub fn get_latest_data(&self) -> (r: Option<ExampleResult>)
        ensures
            record_view(r) == self@.latest,
    {
        match &self.latest {
            Some(record) => Some(record.clone()),
            None => None,
        }
    }

    /// The active configuration.
    pub fn get_api_config(&self) -> (r: ApiConfig)
        ensures
            r@ == self@.config,
    {
        self.config.clone()
    }

    /// Whether a request is in process.
    pub fn get_processing_state(&self) -> (r: bool)
        ensures
            r == self@.processing,
    {
        self.processing
    }

    /// Makes `new_config` the active configuration if it is valid, and
    /// refuses it otherwise, leaving the state as it was. Requests that are
    /// under way keep the configuration they started with.
    pub fn update_api_config(&mut self, new_config: ApiConfig) -> (r: Result<(), ConfigError>)
        ensures
            match config_fault(new_config@) {
                Some(fault) => r == Err::<(), ConfigError>(fault) && final(self)@ == old(self)@,
                None => r == Ok::<(), ConfigError>(()) && final(self)@ == (AppStateView {
                    config: new_config@,
                    ..old(self)@
                }),
            },
    {
        match validate(&new_config) {
            Ok(()) => {
                self.config = new_config;
                Ok(())
            },
            Err(fault) => Err(fault),
        }
    }

    /// Ends the provider phase of a request with the result of its call; see
    /// [`AppStateView::after_conclusion`] and [`AppStateView::conclusion`].
    pub fn conclude_with(
        &mut self,
        confirm: bool,
        result: Result<ExampleResult, ProviderError>,
        now: u64,
    ) -> (r: Conclusion)
        ensures
            final(self)@ == old(self)@.after_conclusion(
                confirm,
                result_view(result),
                now,
            ),
            final(self)@.well_formed(),
            r@ == old(self)@.conclusion(confirm, result_view(result)),
    {
        self.broker.attest();
        let failed = match &result {
            Ok(record) => {
                self.latest = Some(record.clone());
                false
            },
            Err(_) => true,
        };
        let record = settle(result);
        let ticket = if confirm {
            self.broker.submit(record.clone(), now)
        } else {
            None
        };
        self.processing = ticket.is_some();
        Conclusion { record, failed, ticket }
    }

    /// Reads what the provider call of a request gave and ends its provider
    /// phase. The reply is interpreted by
    /// [`interpret_reply`](crate::provider::interpret_reply); the rest is
    /// [`AppState::conclude_with`].
    pub fn conclude(&mut self, call: &ProviderCall, outcome: &FetchOutcome, now: u64) -> (r:
        Conclusion)
        ensures
            final(self)@.well_formed(),
            exists|why: Seq<char>|
                {
                    let result = #[trigger] reply_result(
                        call.provider,
                        outcome@,
                        json_parse(body_of(outcome@)),
                        why,
                    );
                    &&& final(self)@ == old(self)@.after_conclusion(call.confirm, result, now)
                    &&& r@ == old(self)@.conclusion(call.confirm, result)
                },
    {
        let result = interpret_reply(call.provider, outcome);
        self.conclude_with(call.confirm, result, now)
    }

    /// Takes in a request to the served route whose body has been read; see
    /// [`AppStateView::after_reception`] and [`AppStateView::reception`].
    pub fn accept(&mut self, request: Result<Coordinates, RequestError>, now: u64) -> (r: Reception)
        ensures
            final(self)@ == old(self)@.after_reception(request_view(request), now),
            final(self)@.well_formed(),
            r@ == old(self)@.reception(request_view(request)),
    {
        self.broker.attest();
        let at = match request {
            Ok(at) => at,
            Err(e) => {
                return Reception::Refuse { body: e.answer() };
            },
        };
        let confirm = self.config.confirm_results;
        match build_request_url(&self.config, &at) {
            Ok(url) => {
                self.processing = true;
                Reception::Fetch {
                    call: ProviderCall { provider: self.config.provider, confirm, url },
                }
            },
            Err(e) => Reception::Concluded { conclusion: self.conclude_with(confirm, Err(e), now) },
        }
    }

    /// Takes in a request. Any route but `POST /process` is answered with
    /// `Invalid route`. A body is read by [`parse_request`]; what follows is
    /// [`AppState::accept`].
    pub fn receive(&mut self, method: &str, url: &str, body: &str, now: u64) -> (r: Reception)
        ensures
            final(self)@.well_formed(),
            !is_process_route(method@, url@) ==> final(self)@ == old(self)@ && r@
                == (ReceptionView::Refuse { body: "Invalid route"@ }),
            is_process_route(method@, url@) ==> match json_parse(body@) {
                Some(doc) => final(self)@ == old(self)@.after_reception(coordinates_of(doc), now)
                    && r@ == old(self)@.reception(coordinates_of(doc)),
                None => final(self)@ == old(self)@ && exists|why: Seq<char>|
                    r@ == old(self)@.reception(#[trigger] not_json(why)),
            },
    {
        self.broker.attest();
        if !process_route(method, url) {
            return Reception::Refuse { body: String::from_str("Invalid route") };
        }
        let request = parse_request(body);
        proof {
            if json_parse(body@) is None {
                assert(request_view(request) == not_json(request->Err_0->NotJson_0@));
            }
        }
        self.accept(request, now)
    }

    /// Whether the request under `ticket` still waits for its resolution.
    pub fn is_waiting(&self, ticket: u64) -> (r: bool)
        ensures
            r == self@.broker.is_pending(ticket),
    {
        self.broker.is_pending(ticket)
    }

    /// The milliseconds that the request under `ticket` has left at `now`
    /// before its wait times out; `None` where it waits no more.
    pub fn time_left(&self, ticket: u64, now: u64) -> (r: Option<u64>)
        ensures
            r == self@.broker.time_left(ticket, now),
    {
        self.broker.time_left(ticket, now)
    }

    /// Ends a request that waited for confirmation, with the record that
    /// resolved its wait: processing ends, and the record is the answer.
    pub fn finish(&mut self, record: ExampleResult) -> (r: ExampleResult)
        ensures
            final(self)@ == (AppStateView { processing: false, ..old(self)@ }),
            r == record,
    {
        self.processing = false;
        record
    }

    /// Hands the operator's decision to the broker; see
    /// [`ConfirmationBroker::decide`]. `None` says that nothing was pending.
    pub fn decide(&mut self, decision: Decision) -> (r: Option<Resolution>)
        ensures
            final(self)@ == (AppStateView {
                broker: old(self)@.broker.after_decide(),
                ..old(self)@
            }),
            final(self)@.well_formed(),
            resolution_view(r) == old(self)@.broker.decided(decision@),
    {
        self.broker.decide(decision)
    }

    /// Hands the operator's decision on one ticket to the broker; see
    /// [`ConfirmationBroker::decide_for`]. `None` says that the request
    /// under that ticket was not waiting.
    pub fn decide_for(&mut self, ticket: u64, decision: Decision) -> (r: Option<Resolution>)
        ensures
            final(self)@ == (AppStateView {
                broker: old(self)@.broker.after_decide_for(ticket),
                ..old(self)@
            }),
            final(self)@.well_formed(),
            resolution_view(r) == old(self)@.broker.decided_for(ticket, decision@),
    {
        self.broker.decide_for(ticket, decision)
    }

    /// The operator confirms a result, as shown or as corrected.
    pub fn confirm_result(&mut self, record: ExampleResult) -> (r: Option<Resolution>)
        ensures
            final(self)@ == (AppStateView {
                broker: old(self)@.broker.after_decide(),
                ..old(self)@
            }),
            final(self)@.well_formed(),
            resolution_view(r) == old(self)@.broker.decided(DecisionView::Confirm(record@)),
    {
        self.decide(Decision::Confirm(record))
    }

    /// The operator rejects a result.
    pub fn reject_result(&mut self) -> (r: Option<Resolution>)
        ensures
            final(self)@ == (AppStateView {
                broker: old(self)@.broker.after_decide(),
                ..old(self)@
            }),
            final(self)@.well_formed(),
            resolution_view(r) == old(self)@.broker.decided(DecisionView::Reject),
    {
        self.decide(Decision::Reject)
    }

    /// Ends the wait under `ticket` if it is due at `now`; see
    /// [`ConfirmationBroker::expire`].
    pub fn expire(&mut self, ticket: u64, now: u64) -> (r: Option<Resolution>)
        ensures
            final(self)@ == (AppStateView {
                broker: old(self)@.broker.after_expire(ticket, now),
                ..old(self)@
            }),
            final(self)@.well_formed(),
            resolution_view(r) == old(self)@.broker.expired(ticket, now),
    {
        self.broker.expire(ticket, now)
    }
}

/// The body that is sent where a record cannot be serialised: a minimal
/// error record, always the same.
pub open spec fn fallback_body() -> Seq<char> {
    "{\"status\":\"error\",\"address\":\"Serialization error\"}"@
}

/// The body that is sent where a record cannot be serialised.
pub fn serialization_fallback() -> (r: String)
    ensures
        r@ == fallback_body(),
{
    String::from_str("{\"status\":\"error\",\"address\":\"Serialization error\"}")
}

} // verus!
