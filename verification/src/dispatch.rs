//! The top-level decision: what to do with one event.
use crate::event::{classify, http_like, lifecycle_like, shape_of, text, Request, Shape};
use crate::http::{
    accept_of, blank_response, envelope_json, handle_http_request, lemma_blank_headers,
    lemma_envelope_fields, response_to, Envelope, HttpResponse,
};
use crate::json::{field, model_of, new_fields, no_fields, object_value, Json};
use crate::lifecycle::{
    callback_for, conclude, conclusion, delivered, lemma_report_fields, report_json, respond_to,
    Callback, CallbackError, CallbackFields, Delivery, Status,
};
use crate::negotiate::negotiated;
use vstd::prelude::*;

verus! {

/// What the caller has to do with an event.
#[derive(Clone, Debug, PartialEq, Eq)]
pub enum Action {
    /// Return this response to the HTTP-style trigger.
    Respond(HttpResponse),
    /// Send this report to its URL, then return the empty object. A failed
    /// delivery fails the invocation.
    Report(Callback),
    /// Return the empty object and do nothing else.
    Nothing,
}

/// What an [`Action`] stands for, as plain values.
pub enum Decision {
    Respond(Envelope),
    Report(CallbackFields),
    Nothing,
}

impl View for Action {
    type V = Decision;

    open spec fn view(&self) -> Decision {
        match self {
            Action::Respond(response) => Decision::Respond(response@),
            Action::Report(callback) => Decision::Report(callback@),
            Action::Nothing => Decision::Nothing,
        }
    }
}

/// The value an invocation returns once its action is carried out: the
/// envelope for a response, and the empty object otherwise.
pub open spec fn result_json(decision: Decision) -> Json {
    match decision {
        Decision::Respond(envelope) => envelope_json(envelope),
        Decision::Report(_) => Json::Object(no_fields()),
        Decision::Nothing => Json::Object(no_fields()),
    }
}

/// How an invocation ends, given how the delivery of its report ended if
/// one was attempted. Only an owed report can make it fail: it does unless
/// the report was delivered.
pub open spec fn outcome(decision: Decision, delivery: Option<Delivery>) -> Result<
    Json,
    CallbackError,
> {
    match decision {
        Decision::Report(_) => match delivery {
            Some(d) => match conclusion(d) {
                Ok(_) => Ok(result_json(decision)),
                Err(e) => Err(e),
            },
            None => Err(CallbackError::NotSent),
        },
        _ => Ok(result_json(decision)),
    }
}

impl Action {
    /// The value to return from the invocation. For a report it is owed only
    /// after the report was delivered.
    pub fn result(&self) -> (v: serde_json::Value)
        ensures
            model_of(v) == result_json(self@),
    {
        match self {
            Action::Respond(response) => response.to_json(),
            Action::Report(_) => object_value(new_fields()),
            Action::Nothing => object_value(new_fields()),
        }
    }

    /// Ends the invocation: `delivery` tells how sending the report went,
    /// and is `None` when nothing was sent.
    pub fn finish(&self, delivery: Option<Delivery>) -> (r: Result<
        serde_json::Value,
        CallbackError,
    >)
        ensures
            match r {
                Ok(v) => outcome(self@, delivery) == Ok::<Json, CallbackError>(model_of(v)),
                Err(e) => outcome(self@, delivery) == Err::<Json, CallbackError>(e),
            },
    {
        match self {
            Action::Report(_) => match delivery {
                Some(d) => match conclude(d) {
                    Ok(_) => Ok(self.result()),
                    Err(e) => Err(e),
                },
                None => Err(CallbackError::NotSent),
            },
            _ => Ok(self.result()),
        }
    }
}

/// The action owed for an event: the blank response for an HTTP-style event,
/// the failure report for a lifecycle event, nothing for anything else.
pub open spec fn decision_for(event: Json) -> Decision {
    match shape_of(event) {
        Shape::HttpLike { headers, method_present } => Decision::Respond(response_to(headers)),
        Shape::LifecycleEvent(fields) => Decision::Report(callback_for(fields)),
        Shape::Unknown => Decision::Nothing,
    }
}

/// The main handler: classifies the event and decides the action. It never
/// fails; input it does not recognise is answered with [`Action::Nothing`].
pub fn function_handler(event: &serde_json::Value) -> (r: Action)
    ensures
        r@ == decision_for(model_of(*event)),
{
    match classify(event) {
        Request::HttpLike { headers, method_present } => Action::Respond(
            handle_http_request(headers),
        ),
        Request::LifecycleEvent(event) => Action::Report(respond_to(&event)),
        Request::Unknown => Action::Nothing,
    }
}

/// An event that is no JSON object is answered with nothing: no report is
/// owed, and the invocation succeeds with the empty object.
pub proof fn lemma_non_object_ignored(event: Json)
    requires
        !(event is Object),
    ensures
        decision_for(event) == Decision::Nothing,
        outcome(decision_for(event), None) == Ok::<Json, CallbackError>(
            Json::Object(no_fields()),
        ),
{
}

/// An object that is neither HTTP-style nor lifecycle-shaped is answered
/// with nothing: no report is owed, and the invocation succeeds with the
/// empty object.
pub proof fn lemma_unrecognized_ignored(event: Map<Seq<char>, Json>)
    requires
        !http_like(event),
        !lifecycle_like(event),
    ensures
        decision_for(Json::Object(event)) == Decision::Nothing,
        outcome(decision_for(Json::Object(event)), None) == Ok::<Json, CallbackError>(
            Json::Object(no_fields()),
        ),
{
}

/// An invocation fails only over a report: one that was owed and not
/// delivered. Then it always fails.
pub proof fn lemma_only_reports_fail(decision: Decision, delivery: Option<Delivery>)
    ensures
        outcome(decision, delivery) is Err <==> decision is Report && !(delivery matches Some(d)
            && delivered(d)),
{
}

/// A lifecycle-shaped object that is not HTTP-style is answered with a
/// report of failure, reason "Not implemented", sent to the event's response
/// URL and carrying the event's physical resource id when that is a string.
/// The body of the callback says so under the capitalised field names.
pub proof fn lemma_lifecycle_reports_failure(event: Map<Seq<char>, Json>)
    requires
        lifecycle_like(event),
        !http_like(event),
    ensures
        decision_for(Json::Object(event)) is Report,
        ({
            let callback = decision_for(Json::Object(event))->Report_0;
            let body = report_json(callback.report)->Object_0;
            &&& callback.url == text(field(event, "ResponseURL"@))->0
            &&& callback.report.status == Status::Failed
            &&& callback.report.reason == "Not implemented"@
            &&& callback.report.physical_resource_id == text(field(event, "PhysicalResourceId"@))
            &&& callback.report.stack_id == text(field(event, "StackId"@))->0
            &&& callback.report.request_id == text(field(event, "RequestId"@))->0
            &&& callback.report.logical_resource_id == text(field(event, "LogicalResourceId"@))->0
            &&& field(body, "Status"@) == Some(Json::Text("FAILED"@))
            &&& field(body, "Reason"@) == Some(Json::Text("Not implemented"@))
            &&& field(body, "PhysicalResourceId"@) == Some(
                match text(field(event, "PhysicalResourceId"@)) {
                    Some(id) => Json::Text(id),
                    None => Json::Null,
                },
            )
        }),
{
    lemma_report_fields(decision_for(Json::Object(event))->Report_0.report);
}

/// Every HTTP-style event is answered with status 200, whatever is
/// negotiated; the result says so under `statusCode`, is never base64, and
/// has the content type as its only header.
pub proof fn lemma_http_status_200(event: Json)
    requires
        shape_of(event) is HttpLike,
    ensures
        decision_for(event) is Respond,
        decision_for(event)->Respond_0.status_code == 200,
        result_json(decision_for(event)) is Object,
        ({
            let media = negotiated(accept_of(shape_of(event)->HttpLike_headers));
            let result = result_json(decision_for(event))->Object_0;
            &&& field(result, "statusCode"@) == Some(Json::Number(Some(200)))
            &&& field(result, "body"@) == Some(Json::Text(media.blank()))
            &&& field(result, "isBase64Encoded"@) == Some(Json::Bool(false))
            &&& field(result, "headers"@) == Some(
                Json::Object(no_fields().insert("content-type"@, Json::Text(media.name()))),
            )
        }),
{
    let media = negotiated(accept_of(shape_of(event)->HttpLike_headers));
    lemma_envelope_fields(blank_response(media));
    lemma_blank_headers(media);
}

/// The action depends on the event alone: two actions decided for the same
/// event hold the same values throughout, and so do their results.
pub proof fn lemma_same_event_same_action(event: Json, first: Action, second: Action)
    requires
        first@ == decision_for(event),
        second@ == decision_for(event),
    ensures
        first@ == second@,
        result_json(first@) == result_json(second@),
{
}

} // verus!
