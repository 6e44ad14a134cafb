//! The answer to a provisioning lifecycle event: a report that the operation
//! failed because nothing is implemented, addressed to the callback URL the
//! event names. Delivering it is the caller's part.
use crate::event::{chars_opt, LifecycleEvent, LifecycleFields};
use crate::json::{
    field, model_of, new_fields, no_fields, null_value, object_value, set_field, text_value, Json,
};
use vstd::prelude::*;

verus! {

/// Outcome of a provisioning operation.
#[derive(Clone, Copy, Debug, PartialEq, Eq, Structural)]
pub enum Status {
    Success,
    Failed,
}

impl Status {
    /// The word the provisioning system expects for this outcome.
    pub open spec fn name(self) -> Seq<char> {
        match self {
            Status::Success => "SUCCESS"@,
            Status::Failed => "FAILED"@,
        }
    }

    /// The word the provisioning system expects for this outcome.
    pub fn as_str(self) -> (r: &'static str)
        ensures
            r@ == self.name(),
    {
        match self {
            Status::Success => "SUCCESS",
            Status::Failed => "FAILED",
        }
    }
}

/// The status report that closes a lifecycle request.
#[derive(Clone, Debug, PartialEq, Eq)]
pub struct StatusReport {
    pub status: Status,
    pub reason: String,
    pub physical_resource_id: Option<String>,
    pub stack_id: String,
    pub request_id: String,
    pub logical_resource_id: String,
}

/// What a [`StatusReport`] holds, as plain values.
pub struct ReportFields {
    pub status: Status,
    pub reason: Seq<char>,
    pub physical_resource_id: Option<Seq<char>>,
    pub stack_id: Seq<char>,
    pub request_id: Seq<char>,
    pub logical_resource_id: Seq<char>,
}

impl View for StatusReport {
    type V = ReportFields;

    open spec fn view(&self) -> ReportFields {
        ReportFields {
            status: self.status,
            reason: self.reason@,
            physical_resource_id: match self.physical_resource_id {
                Some(id) => Some(id@),
                None => None,
            },
            stack_id: self.stack_id@,
            request_id: self.request_id@,
            logical_resource_id: self.logical_resource_id@,
        }
    }
}

/// The report as the JSON object that the provisioning system expects, with
/// capitalised field names. A report without physical resource id says so
/// with a null.
pub open spec fn report_json(report: ReportFields) -> Json {
    Json::Object(
        no_fields().insert("Status"@, Json::Text(report.status.name())).insert(
            "Reason"@,
            Json::Text(report.reason),
        ).insert(
            "PhysicalResourceId"@,
            match report.physical_resource_id {
                Some(id) => Json::Text(id),
                None => Json::Null,
            },
        ).insert("StackId"@, Json::Text(report.stack_id)).insert(
            "RequestId"@,
            Json::Text(report.request_id),
        ).insert("LogicalResourceId"@, Json::Text(report.logical_resource_id)),
    )
}

impl StatusReport {
    /// The report as the JSON value whose text is the body of the callback.
    pub fn to_json(&self) -> (v: serde_json::Value)
        ensures
            model_of(v) == report_json(self@),
    {
        let mut fields = new_fields();
        set_field(&mut fields, "Status".to_owned(), text_value(self.status.as_str()));
        set_field(&mut fields, "Reason".to_owned(), text_value(self.reason.as_str()));
        let physical_resource_id = match &self.physical_resource_id {
            Some(id) => text_value(id.as_str()),
            None => null_value(),
        };
        set_field(&mut fields, "PhysicalResourceId".to_owned(), physical_resource_id);
        set_field(&mut fields, "StackId".to_owned(), text_value(self.stack_id.as_str()));
        set_field(&mut fields, "RequestId".to_owned(), text_value(self.request_id.as_str()));
        set_field(
            &mut fields,
            "LogicalResourceId".to_owned(),
            text_value(self.logical_resource_id.as_str()),
        );
        object_value(fields)
    }
}

/// A report together with the URL it has to be sent to with `PUT`.
#[derive(Clone, Debug, PartialEq, Eq)]
pub struct Callback {
    pub url: String,
    pub report: StatusReport,
}

/// What a [`Callback`] holds, as plain values.
pub struct CallbackFields {
    pub url: Seq<char>,
    pub report: ReportFields,
}

impl View for Callback {
    type V = CallbackFields;

    open spec fn view(&self) -> CallbackFields {
        CallbackFields { url: self.url@, report: self.report@ }
    }
}

/// The report for a request: always a failure for the reason that nothing is
/// implemented, with the identifiers of the request copied through.
pub open spec fn not_implemented(
    request_id: Seq<char>,
    stack_id: Seq<char>,
    logical_resource_id: Seq<char>,
    physical_resource_id: Option<Seq<char>>,
) -> ReportFields {
    ReportFields {
        status: Status::Failed,
        reason: "Not implemented"@,
        physical_resource_id,
        stack_id,
        request_id,
        logical_resource_id,
    }
}

/// The callback owed for a lifecycle event: the fixed report, addressed to
/// the response URL exactly as the event gives it.
pub open spec fn callback_for(event: LifecycleFields) -> CallbackFields {
    CallbackFields {
        url: event.response_url,
        report: not_implemented(
            event.request_id,
            event.stack_id,
            event.logical_resource_id,
            event.physical_resource_id,
        ),
    }
}

/// Handles create, update and delete requests alike: builds the failure
/// report and names where it goes.
pub fn handle_cloudformation_request(
    request_id: &str,
    response_url: &str,
    stack_id: &str,
    logical_resource_id: &str,
    physical_resource_id: Option<&str>,
) -> (r: Callback)
    ensures
        r@.url == response_url@,
        r@.report == not_implemented(
            request_id@,
            stack_id@,
            logical_resource_id@,
            chars_opt(physical_resource_id),
        ),
{
    Callback {
        url: response_url.to_owned(),
        report: StatusReport {
            status: Status::Failed,
            reason: "Not implemented".to_owned(),
            physical_resource_id: match physical_resource_id {
                Some(id) => Some(id.to_owned()),
                None => None,
            },
            stack_id: stack_id.to_owned(),
            request_id: request_id.to_owned(),
            logical_resource_id: logical_resource_id.to_owned(),
        },
    }
}

/// The callback for a classified lifecycle event.
pub fn respond_to(event: &LifecycleEvent) -> (r: Callback)
    ensures
        r@ == callback_for(event@),
{
    handle_cloudformation_request(
        event.request_id.as_str(),
        event.response_url.as_str(),
        event.stack_id.as_str(),
        event.logical_resource_id.as_str(),
        match &event.physical_resource_id {
            Some(id) => Some(id.as_str()),
            None => None,
        },
    )
}

/// Each field of the body stands under its capitalised name, and the body
/// has no other fields.
pub proof fn lemma_report_fields(report: ReportFields)
    ensures
        report_json(report) is Object,
        ({
            let body = report_json(report)->Object_0;
            &&& field(body, "Status"@) == Some(Json::Text(report.status.name()))
            &&& field(body, "Reason"@) == Some(Json::Text(report.reason))
            &&& field(body, "PhysicalResourceId"@) == Some(
                match report.physical_resource_id {
                    Some(id) => Json::Text(id),
                    None => Json::Null,
                },
            )
            &&& field(body, "StackId"@) == Some(Json::Text(report.stack_id))
            &&& field(body, "RequestId"@) == Some(Json::Text(report.request_id))
            &&& field(body, "LogicalResourceId"@) == Some(Json::Text(report.logical_resource_id))
            &&& body.dom() =~= set![
                "Status"@,
                "Reason"@,
                "PhysicalResourceId"@,
                "StackId"@,
                "RequestId"@,
                "LogicalResourceId"@,
            ]
        }),
{
    reveal_strlit("Status");
    reveal_strlit("Reason");
    reveal_strlit("PhysicalResourceId");
    reveal_strlit("StackId");
    reveal_strlit("RequestId");
    reveal_strlit("LogicalResourceId");
    assert("Status"@.len() == 6);
    assert("Reason"@.len() == 6);
    assert("PhysicalResourceId"@.len() == 18);
    assert("StackId"@.len() == 7);
    assert("RequestId"@.len() == 9);
    assert("LogicalResourceId"@.len() == 17);
    assert("Status"@[0] != "Reason"@[0]);
}

/// How the delivery of a report ended.
#[derive(Clone, Copy, Debug, PartialEq, Eq, Structural)]
pub enum Delivery {
    /// The endpoint answered with this HTTP status code.
    Answered(u16),
    /// The request could not be sent, or no answer came back.
    NotSent,
}

/// Why an invocation that owed a report fails.
#[derive(Clone, Copy, Debug, PartialEq, Eq, Structural)]
pub enum CallbackError {
    /// The request could not be sent, or no answer came back.
    NotSent,
    /// The endpoint answered with this status code, which is no success.
    Rejected(u16),
}

/// A delivery succeeded when the endpoint answered with a status code from
/// 200 to 299.
pub open spec fn delivered(delivery: Delivery) -> bool {
    delivery matches Delivery::Answered(status) && 200 <= status <= 299
}

/// How the invocation ends for a delivery: with success when the report was
/// delivered, and with the failure otherwise.
pub open spec fn conclusion(delivery: Delivery) -> Result<(), CallbackError> {
    match delivery {
        Delivery::Answered(status) => if 200 <= status <= 299 {
            Ok(())
        } else {
            Err(CallbackError::Rejected(status))
        },
        Delivery::NotSent => Err(CallbackError::NotSent),
    }
}

/// Decides how the invocation ends once the report was sent. Nothing is
/// retried.
pub fn conclude(delivery: Delivery) -> (r: Result<(), CallbackError>)
    ensures
        r == conclusion(delivery),
        r is Ok <==> delivered(delivery),
{
    match delivery {
        Delivery::Answered(status) => if 200 <= status && status <= 299 {
            Ok(())
        } else {
            Err(CallbackError::Rejected(status))
        },
        Delivery::NotSent => Err(CallbackError::NotSent),
    }
}

} // verus!
