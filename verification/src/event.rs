//! Classification of a raw event by its structure.
//!
//! No field is common to every trigger, so an event is recognised by which
//! keys it has and what kind of value each holds. HTTP-style events are tried
//! first, provisioning lifecycle events second; everything else is unknown.
use crate::json::{as_fields, as_text, field, fields_of, is_object, is_text, lookup, model_of, Json};
use vstd::prelude::*;

verus! {

/// The identifying fields of a provisioning lifecycle event.
#[derive(Clone, Debug, PartialEq, Eq)]
pub struct LifecycleEvent {
    pub request_type: String,
    pub request_id: String,
    pub response_url: String,
    pub stack_id: String,
    pub resource_type: String,
    pub logical_resource_id: String,
    pub physical_resource_id: Option<String>,
}

/// What a [`LifecycleEvent`] holds, as plain sequences of characters.
pub struct LifecycleFields {
    pub request_type: Seq<char>,
    pub request_id: Seq<char>,
    pub response_url: Seq<char>,
    pub stack_id: Seq<char>,
    pub resource_type: Seq<char>,
    pub logical_resource_id: Seq<char>,
    pub physical_resource_id: Option<Seq<char>>,
}

impl View for LifecycleEvent {
    type V = LifecycleFields;

    open spec fn view(&self) -> LifecycleFields {
        LifecycleFields {
            request_type: self.request_type@,
            request_id: self.request_id@,
            response_url: self.response_url@,
            stack_id: self.stack_id@,
            resource_type: self.resource_type@,
            logical_resource_id: self.logical_resource_id@,
            physical_resource_id: match self.physical_resource_id {
                Some(id) => Some(id@),
                None => None,
            },
        }
    }
}

/// An event after classification.
#[derive(Clone, Debug, PartialEq, Eq)]
pub enum Request<'a> {
    /// A request from a load balancer, an API gateway or a function URL.
    HttpLike { headers: &'a serde_json::Map<String, serde_json::Value>, method_present: bool },
    /// A create, update or delete request of the provisioning system.
    LifecycleEvent(LifecycleEvent),
    Unknown,
}

/// The shape of an event: what a [`Request`] stands for.
pub enum Shape {
    HttpLike { headers: Map<Seq<char>, Json>, method_present: bool },
    LifecycleEvent(LifecycleFields),
    Unknown,
}

impl<'a> Request<'a> {
    /// The shape this request stands for.
    pub open spec fn shape(self) -> Shape {
        match self {
            Request::HttpLike { headers, method_present } => Shape::HttpLike {
                headers: fields_of(*headers),
                method_present,
            },
            Request::LifecycleEvent(event) => Shape::LifecycleEvent(event@),
            Request::Unknown => Shape::Unknown,
        }
    }
}

/// The model of a value that may be absent.
pub open spec fn model_opt(value: Option<&serde_json::Value>) -> Option<Json> {
    match value {
        Some(v) => Some(model_of(*v)),
        None => None,
    }
}

/// The characters of a string that may be absent.
pub open spec fn chars_opt(text: Option<&str>) -> Option<Seq<char>> {
    match text {
        Some(t) => Some(t@),
        None => None,
    }
}

/// The text of a value that is present and a string.
pub open spec fn text(value: Option<Json>) -> Option<Seq<char>> {
    match value {
        Some(Json::Text(t)) => Some(t),
        _ => None,
    }
}

/// The entries of a value that is present and an object.
pub open spec fn entries(value: Option<Json>) -> Option<Map<Seq<char>, Json>> {
    match value {
        Some(Json::Object(fields)) => Some(fields),
        _ => None,
    }
}

/// Headers count as HTTP headers when they are an object.
pub open spec fn valid_http_headers(value: Option<Json>) -> bool {
    is_object(value)
}

/// A method counts as an HTTP method when it is a string.
pub open spec fn valid_http_method(value: Option<Json>) -> bool {
    is_text(value)
}

/// A request context marks a function URL request when it is an object with
/// an `http` entry.
pub open spec fn function_url_request_context(value: Option<Json>) -> bool {
    entries(value) matches Some(fields) && fields.contains_key("http"@)
}

/// An object is HTTP-style when its headers are valid and it carries either a
/// method or the request context of a function URL.
pub open spec fn http_like(event: Map<Seq<char>, Json>) -> bool {
    &&& valid_http_headers(field(event, "headers"@))
    &&& (valid_http_method(field(event, "httpMethod"@)) || function_url_request_context(
        field(event, "requestContext"@),
    ))
}

/// An object is lifecycle-shaped when each of the six required fields is
/// present and a string.
pub open spec fn lifecycle_like(event: Map<Seq<char>, Json>) -> bool {
    &&& is_text(field(event, "RequestType"@))
    &&& is_text(field(event, "RequestId"@))
    &&& is_text(field(event, "ResponseURL"@))
    &&& is_text(field(event, "StackId"@))
    &&& is_text(field(event, "ResourceType"@))
    &&& is_text(field(event, "LogicalResourceId"@))
}

/// The fields captured from a lifecycle-shaped object. The physical resource
/// id is absent when the object has none or holds something other than a
/// string there.
pub open spec fn lifecycle_fields(event: Map<Seq<char>, Json>) -> LifecycleFields
    recommends
        lifecycle_like(event),
{
    LifecycleFields {
        request_type: text(field(event, "RequestType"@))->0,
        request_id: text(field(event, "RequestId"@))->0,
        response_url: text(field(event, "ResponseURL"@))->0,
        stack_id: text(field(event, "StackId"@))->0,
        resource_type: text(field(event, "ResourceType"@))->0,
        logical_resource_id: text(field(event, "LogicalResourceId"@))->0,
        physical_resource_id: text(field(event, "PhysicalResourceId"@)),
    }
}

/// The shape of an event. HTTP-style takes precedence over lifecycle-shaped;
/// a value that is no object has no shape.
pub open spec fn shape_of(event: Json) -> Shape {
    match event {
        Json::Object(fields) => if http_like(fields) {
            Shape::HttpLike {
                headers: entries(field(fields, "headers"@))->0,
                method_present: valid_http_method(field(fields, "httpMethod"@)),
            }
        } else if lifecycle_like(fields) {
            Shape::LifecycleEvent(lifecycle_fields(fields))
        } else {
            Shape::Unknown
        },
        _ => Shape::Unknown,
    }
}

/// Identifies the request context of a function URL request.
pub fn is_lambda_function_url_request_context(value: Option<&serde_json::Value>) -> (b: bool)
    ensures
        b == function_url_request_context(model_opt(value)),
{
    let Some(value) = value else {
        return false;
    };
    let Some(value) = as_fields(value) else {
        return false;
    };
    lookup(value, "http").is_some()
}

/// Identifies valid HTTP headers.
pub fn is_valid_http_headers(value: Option<&serde_json::Value>) -> (b: bool)
    ensures
        b == valid_http_headers(model_opt(value)),
{
    let Some(value) = value else {
        return false;
    };
    as_fields(value).is_some()
}

/// Identifies a valid HTTP method.
pub fn is_valid_http_method(value: Option<&serde_json::Value>) -> (b: bool)
    ensures
        b == valid_http_method(model_opt(value)),
{
    let Some(value) = value else {
        return false;
    };
    as_text(value).is_some()
}

/// The text of `value` when it is present and a string.
pub fn optional_text<'a>(value: Option<&'a serde_json::Value>) -> (r: Option<&'a str>)
    ensures
        chars_opt(r) == text(model_opt(value)),
{
    match value {
        Some(v) => as_text(v),
        None => None,
    }
}

/// The text stored under `key` when there is an entry and it is a string.
pub fn text_field<'a>(
    fields: &'a serde_json::Map<String, serde_json::Value>,
    key: &str,
) -> (r: Option<&'a str>)
    ensures
        chars_opt(r) == text(field(fields_of(*fields), key@)),
{
    optional_text(lookup(fields, key))
}

/// Classifies an event by its structure.
pub fn classify<'a>(event: &'a serde_json::Value) -> (r: Request<'a>)
    ensures
        r.shape() == shape_of(model_of(*event)),
{
    let Some(fields) = as_fields(event) else {
        return Request::Unknown;
    };
    let http_method = lookup(fields, "httpMethod");
    let headers = lookup(fields, "headers");
    let request_context = lookup(fields, "requestContext");
    let method_present = is_valid_http_method(http_method);
    if is_valid_http_headers(headers) && (method_present
        || is_lambda_function_url_request_context(request_context)) {
        let headers = as_fields(headers.unwrap()).unwrap();
        return Request::HttpLike { headers, method_present };
    }
    let request_type = text_field(fields, "RequestType");
    let request_id = text_field(fields, "RequestId");
    let response_url = text_field(fields, "ResponseURL");
    let stack_id = text_field(fields, "StackId");
    let resource_type = text_field(fields, "ResourceType");
    let logical_resource_id = text_field(fields, "LogicalResourceId");
    let physical_resource_id = text_field(fields, "PhysicalResourceId");
    if request_type.is_some() && request_id.is_some() && response_url.is_some()
        && stack_id.is_some() && resource_type.is_some() && logical_resource_id.is_some() {
        return Request::LifecycleEvent(
            LifecycleEvent {
                request_type: request_type.unwrap().to_owned(),
                request_id: request_id.unwrap().to_owned(),
                response_url: response_url.unwrap().to_owned(),
                stack_id: stack_id.unwrap().to_owned(),
                resource_type: resource_type.unwrap().to_owned(),
                logical_resource_id: logical_resource_id.unwrap().to_owned(),
                physical_resource_id: match physical_resource_id {
                    Some(id) => Some(id.to_owned()),
                    None => None,
                },
            },
        );
    }
    Request::Unknown
}

/// Headers that are not an object never make an event HTTP-style, whatever
/// else the event holds.
pub proof fn lemma_headers_must_be_object(event: Map<Seq<char>, Json>)
    requires
        !is_object(field(event, "headers"@)),
    ensures
        !(shape_of(Json::Object(event)) is HttpLike),
{
}

/// The captured physical resource id is the one of the event when that is a
/// string, and absent when the event has none or holds another kind of value
/// there.
pub proof fn lemma_physical_resource_id_captured(event: Map<Seq<char>, Json>)
    requires
        lifecycle_like(event),
        !http_like(event),
    ensures
        shape_of(Json::Object(event)) is LifecycleEvent,
        shape_of(Json::Object(event))->LifecycleEvent_0.physical_resource_id == match field(
            event,
            "PhysicalResourceId"@,
        ) {
            Some(Json::Text(id)) => Some(id),
            _ => None,
        },
{
}

} // verus!
