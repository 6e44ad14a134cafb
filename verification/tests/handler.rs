use blank_lambda::dispatch::{function_handler, Action};
use blank_lambda::event::{
    classify, is_lambda_function_url_request_context, is_valid_http_headers, is_valid_http_method,
    optional_text, text_field, Request,
};
use blank_lambda::http::HttpResponse;
use blank_lambda::lifecycle::{CallbackError, Delivery, Status};
use serde_json::{Number, Value};

const BLANK_HTML: &str = "<html><head></head><body></body></html>";
const TARGET_GROUP: &str =
    "arn:aws:elasticloadbalancing:us-east-1:123456789012:targetgroup/lambda-123456789/1234567890123456";

fn text(s: &str) -> Value {
    Value::String(s.to_string())
}

fn object(entries: Vec<(&str, Value)>) -> Value {
    let mut map = serde_json::Map::new();
    for (key, value) in entries {
        map.insert(key.to_string(), value);
    }
    Value::Object(map)
}

fn parse(json: &str) -> Value {
    serde_json::from_str(json).unwrap()
}

fn alb_request(accept: &str) -> Value {
    object(vec![
        ("httpMethod", text("GET")),
        ("path", text("/")),
        ("queryStringParameters", object(vec![])),
        ("multiValueQueryStringParameters", object(vec![])),
        ("headers", object(vec![("accept", text(accept))])),
        ("multiValueHeaders", object(vec![("accept", Value::Array(vec![text(accept)]))])),
        ("requestContext", object(vec![("elb", object(vec![("targetGroupArn", text(TARGET_GROUP))]))])),
        ("isBase64Encoded", Value::Bool(false)),
        ("body", Value::Null),
    ])
}

fn response_of(event: &Value) -> HttpResponse {
    match function_handler(event) {
        Action::Respond(response) => response,
        other => panic!("expected a response, got {:?}", other),
    }
}

fn lifecycle_event() -> Vec<(&'static str, Value)> {
    vec![
        ("RequestType", text("Create")),
        ("RequestId", text("req-1")),
        ("ResponseURL", text("https://callback.example.com/done?sig=abc")),
        ("StackId", text("arn:aws:cloudformation:us-east-1:123456789012:stack/s/1")),
        ("ResourceType", text("Custom::Blank")),
        ("LogicalResourceId", text("Blank")),
    ]
}

#[test]
fn test_handle_alb_json_request() {
    let response = response_of(&alb_request("application/json"));
    let status_code = response.status_code;
    let body = response.body;

    assert_eq!(status_code, 200);
    assert_eq!(body, "{}".to_string());
}

#[test]
fn test_handle_alb_html_request() {
    let response = response_of(&alb_request("text/html, application/xhtml+xml"));
    let status_code = response.status_code;
    let body = response.body;

    assert_eq!(status_code, 200);
    assert_eq!(body, "<html><head></head><body></body></html>".to_string());
}

#[test]
fn test_handle_alb_text_request() {
    let response = response_of(&alb_request("text/plain"));
    let status_code = response.status_code;
    let body = response.body;

    assert_eq!(status_code, 200);
    assert_eq!(body, "".to_string());
}

#[test]
fn test_handle_apigw_proxy_json_request() {
    let request_context = object(vec![
        ("accountId", text("123456789012")),
        ("resourceId", text("pqowifjqpwoeifj")),
        ("stage", text("prod")),
        ("domainName", text("api.example.com")),
        ("domainPrefix", text("api")),
        ("requestId", text("12345678-1234-1234-1234-123456789012")),
        ("protocol", text("https")),
        ("identity", object(vec![])),
        ("resourcePath", text("/")),
        ("path", text("/")),
        ("authorizer", object(vec![])),
        ("httpMethod", text("GET")),
        ("requestTimeEpoch", Value::Number(Number::from(1))),
        ("apiId", text("1234567890")),
    ]);
    let payload = object(vec![
        ("resource", text("/")),
        ("path", text("/")),
        ("httpMethod", text("GET")),
        ("headers", object(vec![("accept", text("application/json"))])),
        ("multiValueHeaders", object(vec![("accept", Value::Array(vec![text("application/json")]))])),
        ("queryStringParameters", object(vec![])),
        ("multiValueQueryStringParameters", object(vec![])),
        ("pathParameters", object(vec![])),
        ("stageVariables", object(vec![])),
        ("requestContext", request_context),
        ("isBase64Encoded", Value::Bool(false)),
        ("body", Value::Null),
    ]);
    let response = response_of(&payload);
    let status_code = response.status_code;
    let body = response.body;

    assert_eq!(status_code, 200);
    assert_eq!(body, "{}".to_string());
}

#[test]
fn http_response_has_the_full_envelope() {
    let response = response_of(&alb_request("application/json"));
    assert_eq!(
        response,
        HttpResponse {
            status_code: 200,
            body: "{}".to_string(),
            is_base64_encoded: false,
            headers: vec![("content-type".to_string(), "application/json".to_string())],
        }
    );
}

#[test]
fn missing_accept_defaults_to_html() {
    let event = parse(r#"{"httpMethod": "GET", "headers": {}}"#);
    let response = response_of(&event);
    assert_eq!(response.status_code, 200);
    assert_eq!(response.body, BLANK_HTML);
    assert!(!response.is_base64_encoded);
    assert_eq!(response.headers, vec![("content-type".to_string(), "text/html".to_string())]);
}

#[test]
fn accept_lookup_is_case_sensitive() {
    let event = parse(r#"{"httpMethod": "GET", "headers": {"Accept": "application/json"}}"#);
    let response = response_of(&event);
    assert_eq!(response.body, BLANK_HTML);
    assert_eq!(response.headers[0].1, "text/html");
}

#[test]
fn accept_that_is_no_string_counts_as_absent() {
    let event = parse(r#"{"httpMethod": "GET", "headers": {"accept": 7}}"#);
    let response = response_of(&event);
    assert_eq!(response.body, BLANK_HTML);
    assert_eq!(response.headers[0].1, "text/html");
}

#[test]
fn function_url_request_is_http_without_method() {
    let event = parse(
        r#"{"headers": {"accept": "text/plain"}, "requestContext": {"http": {"method": "GET"}}}"#,
    );
    let response = response_of(&event);
    assert_eq!(response.status_code, 200);
    assert_eq!(response.body, "");
    assert_eq!(response.headers, vec![("content-type".to_string(), "text/plain".to_string())]);
    match classify(&event) {
        Request::HttpLike { headers, method_present } => {
            assert!(!method_present);
            assert_eq!(text_field(headers, "accept"), Some("text/plain"));
        }
        other => panic!("expected an HTTP-style request, got {:?}", other),
    }
}

#[test]
fn method_present_is_recorded() {
    let event = alb_request("text/plain");
    match classify(&event) {
        Request::HttpLike { headers, method_present } => {
            assert!(method_present);
            assert_eq!(headers.len(), 1);
        }
        other => panic!("expected an HTTP-style request, got {:?}", other),
    }
}

#[test]
fn request_context_without_http_is_no_marker() {
    let event = parse(r#"{"headers": {}, "requestContext": {"elb": {}}}"#);
    assert_eq!(function_handler(&event), Action::Nothing);
    let event = parse(r#"{"headers": {}, "requestContext": "http"}"#);
    assert_eq!(function_handler(&event), Action::Nothing);
}

#[test]
fn method_that_is_no_string_is_no_marker() {
    let event = parse(r#"{"headers": {}, "httpMethod": 3}"#);
    assert_eq!(function_handler(&event), Action::Nothing);
}

#[test]
fn headers_alone_are_not_http() {
    let event = parse(r#"{"headers": {"accept": "application/json"}}"#);
    assert_eq!(function_handler(&event), Action::Nothing);
}

#[test]
fn headers_that_are_no_object_fail_http_classification() {
    let event = parse(r#"{"headers": "accept: application/json", "httpMethod": "GET"}"#);
    assert_eq!(classify(&event), Request::Unknown);
    assert_eq!(function_handler(&event), Action::Nothing);
    let event = parse(r#"{"headers": ["accept"], "requestContext": {"http": {}}}"#);
    assert_eq!(function_handler(&event), Action::Nothing);
}

#[test]
fn input_that_is_no_object_yields_nothing() {
    for json in ["null", "true", "12", "1.5", "\"text\"", "[]", "[{\"httpMethod\": \"GET\", \"headers\": {}}]"] {
        let event = parse(json);
        assert_eq!(function_handler(&event), Action::Nothing);
        assert_eq!(classify(&event), Request::Unknown);
    }
}

#[test]
fn unrecognized_object_yields_nothing() {
    assert_eq!(function_handler(&parse("{}")), Action::Nothing);
    assert_eq!(function_handler(&parse(r#"{"Records": [{"eventSource": "aws:sqs"}]}"#)), Action::Nothing);
}

#[test]
fn lifecycle_event_reports_failure() {
    let mut entries = lifecycle_event();
    entries.push(("PhysicalResourceId", text("phys-42")));
    let event = object(entries);
    match function_handler(&event) {
        Action::Report(callback) => {
            assert_eq!(callback.url, "https://callback.example.com/done?sig=abc");
            assert_eq!(callback.report.status, Status::Failed);
            assert_eq!(callback.report.status.as_str(), "FAILED");
            assert_eq!(callback.report.reason, "Not implemented");
            assert_eq!(callback.report.physical_resource_id, Some("phys-42".to_string()));
            assert_eq!(callback.report.stack_id, "arn:aws:cloudformation:us-east-1:123456789012:stack/s/1");
            assert_eq!(callback.report.request_id, "req-1");
            assert_eq!(callback.report.logical_resource_id, "Blank");
        }
        other => panic!("expected a report, got {:?}", other),
    }
}

#[test]
fn lifecycle_event_is_captured_whole() {
    let mut entries = lifecycle_event();
    entries.push(("PhysicalResourceId", text("phys-42")));
    let event = object(entries);
    match classify(&event) {
        Request::LifecycleEvent(captured) => {
            assert_eq!(captured.request_type, "Create");
            assert_eq!(captured.request_id, "req-1");
            assert_eq!(captured.response_url, "https://callback.example.com/done?sig=abc");
            assert_eq!(captured.stack_id, "arn:aws:cloudformation:us-east-1:123456789012:stack/s/1");
            assert_eq!(captured.resource_type, "Custom::Blank");
            assert_eq!(captured.logical_resource_id, "Blank");
            assert_eq!(captured.physical_resource_id, Some("phys-42".to_string()));
        }
        other => panic!("expected a lifecycle event, got {:?}", other),
    }
}

#[test]
fn physical_resource_id_is_absent_when_missing_or_no_string() {
    let event = object(lifecycle_event());
    match function_handler(&event) {
        Action::Report(callback) => assert_eq!(callback.report.physical_resource_id, None),
        other => panic!("expected a report, got {:?}", other),
    }
    let mut entries = lifecycle_event();
    entries.push(("PhysicalResourceId", Value::Number(Number::from(42))));
    match function_handler(&object(entries)) {
        Action::Report(callback) => assert_eq!(callback.report.physical_resource_id, None),
        other => panic!("expected a report, got {:?}", other),
    }
    let mut entries = lifecycle_event();
    entries.push(("PhysicalResourceId", Value::Null));
    match function_handler(&object(entries)) {
        Action::Report(callback) => assert_eq!(callback.report.physical_resource_id, None),
        other => panic!("expected a report, got {:?}", other),
    }
}

#[test]
fn lifecycle_event_needs_every_required_field() {
    for missing in 0..6 {
        let mut entries = lifecycle_event();
        entries.remove(missing);
        assert_eq!(function_handler(&object(entries)), Action::Nothing);
    }
}

#[test]
fn lifecycle_event_needs_every_required_field_as_string() {
    for wrong in 0..6 {
        let mut entries = lifecycle_event();
        entries[wrong].1 = Value::Number(Number::from(1));
        assert_eq!(function_handler(&object(entries)), Action::Nothing);
    }
}

#[test]
fn http_takes_precedence_over_lifecycle() {
    let mut entries = lifecycle_event();
    entries.push(("headers", object(vec![("accept", text("application/json"))])));
    entries.push(("httpMethod", text("PUT")));
    let response = response_of(&object(entries));
    assert_eq!(response.body, "{}");
}

#[test]
fn same_event_twice_gives_identical_responses() {
    let event = alb_request("text/plain;q=0.5, application/json");
    let first = function_handler(&event);
    let second = function_handler(&event);
    assert_eq!(first, second);
    assert_eq!(response_of(&event).body.as_bytes(), response_of(&event).body.as_bytes());
}

#[test]
fn status_is_200_for_every_representation() {
    for accept in ["application/json", "text/html", "text/plain", "image/png", ""] {
        assert_eq!(response_of(&alb_request(accept)).status_code, 200);
    }
}

#[test]
fn structural_predicates() {
    let headers = object(vec![]);
    let method = text("GET");
    let context = parse(r#"{"http": null}"#);
    assert!(is_valid_http_headers(Some(&headers)));
    assert!(!is_valid_http_headers(Some(&method)));
    assert!(!is_valid_http_headers(None));
    assert!(is_valid_http_method(Some(&method)));
    assert!(!is_valid_http_method(Some(&headers)));
    assert!(!is_valid_http_method(None));
    assert!(is_lambda_function_url_request_context(Some(&context)));
    assert!(!is_lambda_function_url_request_context(Some(&headers)));
    assert!(!is_lambda_function_url_request_context(Some(&method)));
    assert!(!is_lambda_function_url_request_context(None));
}

#[test]
fn optional_text_reads_strings_only() {
    let name = text("value");
    assert_eq!(optional_text(Some(&name)), Some("value"));
    assert_eq!(optional_text(Some(&Value::Null)), None);
    assert_eq!(optional_text(None), None);
    let fields = parse(r#"{"a": "x", "b": 1}"#);
    let fields = fields.as_object().unwrap();
    assert_eq!(text_field(fields, "a"), Some("x"));
    assert_eq!(text_field(fields, "b"), None);
    assert_eq!(text_field(fields, "c"), None);
    assert_eq!(text_field(fields, "A"), None);
}

#[test]
fn result_of_a_response_is_the_envelope() {
    let result = function_handler(&alb_request("text/plain")).result();
    let expected = parse(
        r#"{"statusCode": 200, "body": "", "isBase64Encoded": false, "headers": {"content-type": "text/plain"}}"#,
    );
    assert_eq!(result, expected);
    let result = function_handler(&alb_request("application/json")).result();
    assert_eq!(result["statusCode"].as_u64(), Some(200));
    assert_eq!(result["body"].as_str(), Some("{}"));
    assert_eq!(result["isBase64Encoded"].as_bool(), Some(false));
    assert_eq!(result["headers"]["content-type"].as_str(), Some("application/json"));
    assert_eq!(result.as_object().unwrap().len(), 4);
    assert_eq!(result["headers"].as_object().unwrap().len(), 1);
}

#[test]
fn result_is_the_empty_object_otherwise() {
    let empty = parse("{}");
    assert_eq!(function_handler(&parse("null")).result(), empty);
    assert_eq!(function_handler(&parse("[1, 2]")).result(), empty);
    assert_eq!(function_handler(&parse(r#"{"headers": "x", "httpMethod": "GET"}"#)).result(), empty);
    assert_eq!(function_handler(&object(lifecycle_event())).result(), empty);
}

#[test]
fn same_event_twice_gives_identical_bytes() {
    let event = alb_request("text/html");
    let first = serde_json::to_string(&function_handler(&event).result()).unwrap();
    let second = serde_json::to_string(&function_handler(&event).result()).unwrap();
    assert_eq!(first.as_bytes(), second.as_bytes());
    assert_eq!(
        first,
        r#"{"body":"<html><head></head><body></body></html>","headers":{"content-type":"text/html"},"isBase64Encoded":false,"statusCode":200}"#
    );
}

#[test]
fn callback_body_has_the_wire_shape() {
    let mut entries = lifecycle_event();
    entries.push(("PhysicalResourceId", text("phys-42")));
    let callback = match function_handler(&object(entries)) {
        Action::Report(callback) => callback,
        other => panic!("expected a report, got {:?}", other),
    };
    let body = serde_json::to_string(&callback.report.to_json()).unwrap();
    let read_back = parse(&body);
    assert_eq!(read_back["Status"].as_str(), Some("FAILED"));
    assert_eq!(read_back["Reason"].as_str(), Some("Not implemented"));
    assert_eq!(read_back["PhysicalResourceId"].as_str(), Some("phys-42"));
    assert_eq!(read_back["StackId"].as_str(), Some("arn:aws:cloudformation:us-east-1:123456789012:stack/s/1"));
    assert_eq!(read_back["RequestId"].as_str(), Some("req-1"));
    assert_eq!(read_back["LogicalResourceId"].as_str(), Some("Blank"));
    assert_eq!(read_back.as_object().unwrap().len(), 6);
}

#[test]
fn callback_body_without_physical_resource_id_holds_null() {
    let callback = match function_handler(&object(lifecycle_event())) {
        Action::Report(callback) => callback,
        other => panic!("expected a report, got {:?}", other),
    };
    let body = callback.report.to_json();
    assert_eq!(body["PhysicalResourceId"], Value::Null);
    assert!(body.as_object().unwrap().contains_key("PhysicalResourceId"));
    assert_eq!(body["Status"].as_str(), Some("FAILED"));
}

#[test]
fn later_header_of_the_same_name_stands() {
    let response = HttpResponse {
        status_code: 200,
        body: "x".to_string(),
        is_base64_encoded: true,
        headers: vec![
            ("a".to_string(), "1".to_string()),
            ("b".to_string(), "2".to_string()),
            ("a".to_string(), "3".to_string()),
        ],
    };
    let expected = parse(
        r#"{"statusCode": 200, "body": "x", "isBase64Encoded": true, "headers": {"a": "3", "b": "2"}}"#,
    );
    assert_eq!(response.to_json(), expected);
}

#[test]
fn invocation_ends_with_the_envelope_for_a_response() {
    let action = function_handler(&alb_request("application/json"));
    let expected = parse(
        r#"{"statusCode": 200, "body": "{}", "isBase64Encoded": false, "headers": {"content-type": "application/json"}}"#,
    );
    assert_eq!(action.finish(None), Ok(expected));
}

#[test]
fn invocation_ends_with_the_empty_object_for_unknown_input() {
    assert_eq!(function_handler(&parse("17")).finish(None), Ok(parse("{}")));
    assert_eq!(function_handler(&parse("{}")).finish(None), Ok(parse("{}")));
}

#[test]
fn invocation_with_report_succeeds_only_when_delivered() {
    let action = function_handler(&object(lifecycle_event()));
    assert_eq!(action.finish(Some(Delivery::Answered(200))), Ok(parse("{}")));
    assert_eq!(action.finish(Some(Delivery::Answered(299))), Ok(parse("{}")));
    assert_eq!(action.finish(Some(Delivery::Answered(403))), Err(CallbackError::Rejected(403)));
    assert_eq!(action.finish(Some(Delivery::Answered(500))), Err(CallbackError::Rejected(500)));
    assert_eq!(action.finish(Some(Delivery::NotSent)), Err(CallbackError::NotSent));
    assert_eq!(action.finish(None), Err(CallbackError::NotSent));
}
