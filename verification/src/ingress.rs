//! The listener's side: which calls it accepts, what it makes of their
//! bodies, and what it answers.
//!
//! Every call is handled on its own: what comes out depends on the route
//! and the body of that call and on nothing else.

use crate::decode::{
    decode_started, decode_stopped, started_of, stopped_of, DecodeError,
};
use crate::event::{DomainEvent, DomainEventView};
use crate::json::{seen, Json, JsonValue};
use crate::text::same_text;
use crate::wire::{parse, parsed};
use vstd::prelude::*;
use vstd::string::StringExecFns;

verus! {

/// The method of an incoming call.
#[derive(Clone, Copy, Debug, PartialEq, Eq, Structural)]
pub enum Method {
    Get,
    Post,
    Other,
}

/// The calls that the listener accepts.
#[derive(Clone, Copy, Debug, PartialEq, Eq, Structural)]
pub enum Route {
    StartedTracking,
    StoppedTracking,
    Health,
}

/// The path under which `route` is served.
pub open spec fn path_of(route: Route) -> Seq<char> {
    match route {
        Route::StartedTracking => "/started-tracking"@,
        Route::StoppedTracking => "/stopped-tracking"@,
        Route::Health => "/health"@,
    }
}

/// The method that `route` is served for.
pub open spec fn method_of(route: Route) -> Method {
    match route {
        Route::StartedTracking => Method::Post,
        Route::StoppedTracking => Method::Post,
        Route::Health => Method::Get,
    }
}

/// The name by which the provider calls the events that it posts to `route`.
pub open spec fn kind_of(route: Route) -> Option<Seq<char>> {
    match route {
        Route::StartedTracking => Some("trackingStarted"@),
        Route::StoppedTracking => Some("trackingStopped"@),
        Route::Health => None,
    }
}

/// The route that a call with `method` to `path` reaches.
pub open spec fn route_of(method: Method, path: Seq<char>) -> Option<Route> {
    if path == path_of(Route::StartedTracking) && method == method_of(Route::StartedTracking) {
        Some(Route::StartedTracking)
    } else if path == path_of(Route::StoppedTracking) && method == method_of(
        Route::StoppedTracking,
    ) {
        Some(Route::StoppedTracking)
    } else if path == path_of(Route::Health) && method == method_of(Route::Health) {
        Some(Route::Health)
    } else {
        None
    }
}

impl Route {
    /// The path under which this route is served.
    pub fn path(self) -> (r: &'static str)
        ensures
            r@ == path_of(self),
    {
        match self {
            Route::StartedTracking => "/started-tracking",
            Route::StoppedTracking => "/stopped-tracking",
            Route::Health => "/health",
        }
    }

    /// The method that this route is served for.
    pub fn method(self) -> (r: Method)
        ensures
            r == method_of(self),
    {
        match self {
            Route::StartedTracking => Method::Post,
            Route::StoppedTracking => Method::Post,
            Route::Health => Method::Get,
        }
    }

    /// The name by which the provider calls the events posted to this
    /// route; the liveness route has none.
    pub fn event_kind(self) -> (r: Option<&'static str>)
        ensures
            r is Some <==> kind_of(self) is Some,
            r matches Some(kind) ==> kind_of(self) == Some(kind@),
    {
        match self {
            Route::StartedTracking => Some("trackingStarted"),
            Route::StoppedTracking => Some("trackingStopped"),
            Route::Health => None,
        }
    }

    /// The route that a call with `method` to `path` reaches, if any.
    pub fn find(method: Method, path: &str) -> (r: Option<Route>)
        ensures
            r == route_of(method, path@),
    {
        if same_text(path, Route::StartedTracking.path()) && method
            == Route::StartedTracking.method() {
            Some(Route::StartedTracking)
        } else if same_text(path, Route::StoppedTracking.path()) && method
            == Route::StoppedTracking.method() {
            Some(Route::StoppedTracking)
        } else if same_text(path, Route::Health.path()) && method == Route::Health.method() {
            Some(Route::Health)
        } else {
            None
        }
    }
}

/// Whether `doc` declares, in `eventType`, an event of another kind than
/// `kind`. A document that declares none differs from nothing.
pub open spec fn declares_other_kind(doc: JsonValue, kind: Seq<char>) -> bool {
    match doc.member("eventType"@) {
        None => false,
        Some(JsonValue::Null) => false,
        Some(JsonValue::Text(declared)) => declared != kind,
        Some(_) => true,
    }
}

/// Whether `doc` declares an event of another kind than `kind`.
pub fn check_declared_kind(doc: &Json, kind: &str) -> (r: bool)
    ensures
        r == declares_other_kind(doc@, kind@),
{
    match doc.member("eventType") {
        None => false,
        Some(Json::Null) => false,
        Some(Json::Text(declared)) => !same_text(declared.as_str(), kind),
        Some(_) => true,
    }
}

/// How the handling of one call ended.
#[derive(Clone, Debug, PartialEq, Eq)]
pub enum Outcome {
    /// The call asked whether the listener is there.
    Alive,
    /// The body was decoded into `event`, which is owed to the sink.
    /// `kind_mismatch` says that the document declared an event of another
    /// kind than its route carries, which is worth a warning and no more.
    Dispatched { event: DomainEvent, kind_mismatch: bool },
    /// The body was not decoded; nothing is owed to the sink.
    Rejected(DecodeError),
}

pub enum OutcomeView {
    Alive,
    Dispatched { event: DomainEventView, kind_mismatch: bool },
    Rejected(DecodeError),
}

impl View for Outcome {
    type V = OutcomeView;

    open spec fn view(&self) -> OutcomeView {
        match self {
            Outcome::Alive => OutcomeView::Alive,
            Outcome::Dispatched { event, kind_mismatch } => OutcomeView::Dispatched {
                event: event@,
                kind_mismatch: *kind_mismatch,
            },
            Outcome::Rejected(e) => OutcomeView::Rejected(*e),
        }
    }
}

/// The event that `doc` reports when it arrives on `route`.
pub open spec fn event_of(route: Route, doc: JsonValue) -> Option<DomainEventView> {
    match route {
        Route::StartedTracking => started_of(doc),
        Route::StoppedTracking => stopped_of(doc),
        Route::Health => None,
    }
}

/// How a call to `route` ends whose body reads as `doc`, where `None`
/// stands for a body that is not JSON.
pub open spec fn ingested(route: Route, doc: Option<JsonValue>) -> OutcomeView {
    if route == Route::Health {
        OutcomeView::Alive
    } else {
        match doc {
            None => OutcomeView::Rejected(DecodeError::NotJson),
            Some(d) => match event_of(route, d) {
                Some(event) => OutcomeView::Dispatched {
                    event,
                    kind_mismatch: declares_other_kind(d, kind_of(route).unwrap()),
                },
                None => OutcomeView::Rejected(DecodeError::WrongShape),
            },
        }
    }
}

/// Handles a call to `route` whose body was read as `doc`, where `None`
/// stands for a body that is not JSON.
pub fn ingest_document(route: Route, doc: Option<&Json>) -> (r: Outcome)
    ensures
        r@ == ingested(route, seen(doc)),
{
    let kind = match route.event_kind() {
        Some(kind) => kind,
        None => {
            return Outcome::Alive;
        },
    };
    let d = match doc {
        Some(d) => d,
        None => {
            return Outcome::Rejected(DecodeError::NotJson);
        },
    };
    let decoded = match route {
        Route::StartedTracking => decode_started(d),
        _ => decode_stopped(d),
    };
    match decoded {
        Ok(event) => Outcome::Dispatched { event, kind_mismatch: check_declared_kind(d, kind) },
        Err(_) => Outcome::Rejected(DecodeError::WrongShape),
    }
}

/// Handles a call to `route` with `body`.
pub fn ingest(route: Route, body: &[u8]) -> (r: Outcome)
    ensures
        r@ == ingested(route, parsed(body@)),
{
    match route {
        Route::Health => Outcome::Alive,
        _ => {
            let doc = parse(body);
            ingest_document(route, doc.as_ref())
        },
    }
}

/// What the listener answers.
#[derive(Clone, Debug, PartialEq, Eq)]
pub struct Response {
    pub status: u16,
    pub body: String,
}

pub struct ResponseView {
    pub status: u16,
    pub body: Seq<char>,
}

impl View for Response {
    type V = ResponseView;

    open spec fn view(&self) -> ResponseView {
        ResponseView { status: self.status, body: self.body@ }
    }
}

/// The answer to a call that was accepted.
pub open spec fn accepted() -> ResponseView {
    ResponseView { status: 200, body: "OK"@ }
}

/// The answer to a call whose body was refused for `error`.
pub open spec fn refused(error: DecodeError) -> ResponseView {
    ResponseView {
        status: 400,
        body: match error {
            DecodeError::NotJson => "the body is not JSON"@,
            DecodeError::WrongShape => "the body is not the event that this route takes"@,
        },
    }
}

/// The answer that `outcome` calls for.
pub open spec fn response_to(outcome: OutcomeView) -> ResponseView {
    match outcome {
        OutcomeView::Alive => accepted(),
        OutcomeView::Dispatched { .. } => accepted(),
        OutcomeView::Rejected(error) => refused(error),
    }
}

impl Outcome {
    /// The answer that this outcome calls for: success for a call that was
    /// accepted, whatever the sink makes of the event, and a client error
    /// for a body that was refused.
    pub fn response(&self) -> (r: Response)
        ensures
            r@ == response_to(self@),
    {
        match self {
            Outcome::Rejected(DecodeError::NotJson) => Response {
                status: 400,
                body: String::from_str("the body is not JSON"),
            },
            Outcome::Rejected(DecodeError::WrongShape) => Response {
                status: 400,
                body: String::from_str("the body is not the event that this route takes"),
            },
            _ => Response { status: 200, body: String::from_str("OK") },
        }
    }
}

/// A stopped tracking that left no time entry is an event like any other:
/// where the document names the user and its `data` is an object without
/// `newTimeEntry`, the call is accepted and reports a stop without a time
/// entry.
pub proof fn stop_without_time_entry_is_accepted(
    doc: JsonValue,
    user_id: Seq<char>,
    data: JsonValue,
)
    requires
        doc.member("userId"@) == Some(JsonValue::Text(user_id)),
        doc.member("data"@) == Some(data),
        data is Object,
        data.member("newTimeEntry"@) is None,
    ensures
        stopped_of(doc) == Some(DomainEventView::TrackingStopped { user_id, time_entry: None }),
        ingested(Route::StoppedTracking, Some(doc)) == (OutcomeView::Dispatched {
            event: DomainEventView::TrackingStopped { user_id, time_entry: None },
            kind_mismatch: declares_other_kind(doc, "trackingStopped"@),
        }),
        response_to(ingested(Route::StoppedTracking, Some(doc))) == accepted(),
{
}

/// A call that does not name the user is refused, on either route: the
/// answer is a client error, and the outcome holds no event that could be
/// handed to the sink.
pub proof fn call_without_user_is_refused(route: Route, doc: JsonValue)
    requires
        route != Route::Health,
        doc.member("userId"@) is None,
    ensures
        ingested(route, Some(doc)) == OutcomeView::Rejected(DecodeError::WrongShape),
        400 <= response_to(ingested(route, Some(doc))).status < 500,
{
}

/// What arrives on a route is decoded as the event of that route or not
/// at all.
pub proof fn route_decides_the_event(route: Route, doc: Option<JsonValue>)
    ensures
        ingested(route, doc) matches OutcomeView::Dispatched { event, .. } ==> (route
            == Route::StartedTracking && event is TrackingStarted) || (route
            == Route::StoppedTracking && event is TrackingStopped),
{
}

/// The liveness route answers with success whatever it is sent: its answer
/// depends on nothing that the service has or has not done.
pub proof fn liveness_is_unconditional(doc: Option<JsonValue>)
    ensures
        ingested(Route::Health, doc) == OutcomeView::Alive,
        response_to(ingested(Route::Health, doc)) == accepted(),
        accepted().status == 200,
{
}

} // verus!
