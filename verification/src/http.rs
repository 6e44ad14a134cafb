//! The answer to an HTTP-style event: an empty document in the negotiated
//! representation.
use crate::event::{text, text_field};
use crate::json::{
    bool_value, field, fields_of, integer_value, model_of, new_fields, object_value, no_fields,
    set_field, text_value, Json,
};
use crate::negotiate::{negotiate, negotiated, MediaType};
use vstd::prelude::*;

verus! {

/// The response envelope that the HTTP-style triggers expect.
#[derive(Clone, Debug, PartialEq, Eq)]
pub struct HttpResponse {
    pub status_code: u16,
    pub body: String,
    pub is_base64_encoded: bool,
    /// Header names with their values, in the order they are sent.
    pub headers: Vec<(String, String)>,
}

/// What an [`HttpResponse`] holds, as plain values.
pub struct Envelope {
    pub status_code: int,
    pub body: Seq<char>,
    pub is_base64_encoded: bool,
    pub headers: Seq<(Seq<char>, Seq<char>)>,
}

impl View for HttpResponse {
    type V = Envelope;

    open spec fn view(&self) -> Envelope {
        Envelope {
            status_code: self.status_code as int,
            body: self.body@,
            is_base64_encoded: self.is_base64_encoded,
            headers: Seq::new(
                self.headers@.len(),
                |i: int| (self.headers@[i].0@, self.headers@[i].1@),
            ),
        }
    }
}

/// The blank response in representation `media`: status 200, the empty
/// document as body, not base64, and the content type as the only header.
pub open spec fn blank_response(media: MediaType) -> Envelope {
    Envelope {
        status_code: 200,
        body: media.blank(),
        is_base64_encoded: false,
        headers: seq![("content-type"@, media.name())],
    }
}

/// The value of the `accept` header. The name is matched exactly, and a value
/// that is no string counts as absent.
pub open spec fn accept_of(headers: Map<Seq<char>, Json>) -> Option<Seq<char>> {
    text(field(headers, "accept"@))
}

/// The response to a request with these headers.
pub open spec fn response_to(headers: Map<Seq<char>, Json>) -> Envelope {
    blank_response(negotiated(accept_of(headers)))
}

/// The JSON object with one string entry per header. Where a name occurs
/// twice, the later value stands.
pub open spec fn header_fields(headers: Seq<(Seq<char>, Seq<char>)>) -> Map<Seq<char>, Json>
    decreases headers.len(),
{
    if headers.len() == 0 {
        no_fields()
    } else {
        header_fields(headers.drop_last()).insert(headers.last().0, Json::Text(headers.last().1))
    }
}

/// The envelope as the JSON object that the HTTP-style triggers expect.
pub open spec fn envelope_json(envelope: Envelope) -> Json {
    Json::Object(
        no_fields().insert(
            "statusCode"@,
            Json::Number(Some(envelope.status_code)),
        ).insert("body"@, Json::Text(envelope.body)).insert(
            "isBase64Encoded"@,
            Json::Bool(envelope.is_base64_encoded),
        ).insert("headers"@, Json::Object(header_fields(envelope.headers))),
    )
}

impl HttpResponse {
    /// The response as the JSON value that is handed back to the trigger.
    pub fn to_json(&self) -> (v: serde_json::Value)
        ensures
            model_of(v) == envelope_json(self@),
    {
        let mut headers = new_fields();
        let n: usize = self.headers.len();
        let mut i: usize = 0;
        while i < n
            invariant
                n == self.headers@.len(),
                i <= n,
                fields_of(headers) == header_fields(self@.headers.take(i as int)),
            decreases n - i,
        {
            let name = self.headers[i].0.as_str();
            let value = self.headers[i].1.as_str();
            assert(self@.headers.take(i + 1).drop_last() =~= self@.headers.take(i as int));
            set_field(&mut headers, name.to_owned(), text_value(value));
            i += 1;
        }
        assert(self@.headers.take(n as int) =~= self@.headers);
        let mut response = new_fields();
        set_field(&mut response, "statusCode".to_owned(), integer_value(self.status_code));
        set_field(&mut response, "body".to_owned(), text_value(self.body.as_str()));
        set_field(&mut response, "isBase64Encoded".to_owned(), bool_value(self.is_base64_encoded));
        set_field(&mut response, "headers".to_owned(), object_value(headers));
        object_value(response)
    }
}

/// Each field of the envelope stands under the name the triggers expect, and
/// the envelope has no other fields.
pub proof fn lemma_envelope_fields(envelope: Envelope)
    ensures
        envelope_json(envelope) is Object,
        ({
            let fields = envelope_json(envelope)->Object_0;
            &&& field(fields, "statusCode"@) == Some(Json::Number(Some(envelope.status_code)))
            &&& field(fields, "body"@) == Some(Json::Text(envelope.body))
            &&& field(fields, "isBase64Encoded"@) == Some(Json::Bool(envelope.is_base64_encoded))
            &&& field(fields, "headers"@) == Some(Json::Object(header_fields(envelope.headers)))
            &&& fields.dom() =~= set!["statusCode"@, "body"@, "isBase64Encoded"@, "headers"@]
        }),
{
    reveal_strlit("statusCode");
    reveal_strlit("body");
    reveal_strlit("isBase64Encoded");
    reveal_strlit("headers");
    assert("statusCode"@.len() == 10);
    assert("body"@.len() == 4);
    assert("isBase64Encoded"@.len() == 15);
    assert("headers"@.len() == 7);
}

/// The headers of a blank response are the content type and nothing else.
pub proof fn lemma_blank_headers(media: MediaType)
    ensures
        header_fields(blank_response(media).headers) =~= no_fields().insert(
            "content-type"@,
            Json::Text(media.name()),
        ),
{
    let headers = blank_response(media).headers;
    assert(headers.drop_last() =~= Seq::<(Seq<char>, Seq<char>)>::empty());
    assert(header_fields(headers.drop_last()) == no_fields());
}

/// Builds the blank response in representation `media`.
pub fn blank(media: MediaType) -> (r: HttpResponse)
    ensures
        r@ == blank_response(media),
{
    let mut headers: Vec<(String, String)> = Vec::new();
    headers.push(("content-type".to_owned(), media.as_str().to_owned()));
    let r = HttpResponse {
        status_code: 200,
        body: media.body().to_owned(),
        is_base64_encoded: false,
        headers,
    };
    assert(r@.headers =~= blank_response(media).headers);
    r
}

/// Common handling for all HTTP-style requests: negotiates on the `accept`
/// header and answers with the blank document. It cannot fail.
pub fn handle_http_request(headers: &serde_json::Map<String, serde_json::Value>) -> (r:
    HttpResponse)
    ensures
        r@ == response_to(fields_of(*headers)),
        r@.status_code == 200,
{
    blank(negotiate(text_field(headers, "accept")))
}

/// Whatever is negotiated, the status code is 200 and the body is not
/// base64.
pub proof fn lemma_always_ok(headers: Map<Seq<char>, Json>)
    ensures
        response_to(headers).status_code == 200,
        !response_to(headers).is_base64_encoded,
        response_to(headers).headers.len() == 1,
{
}

/// Without a usable `accept` header the answer is the blank HTML document.
pub proof fn lemma_default_is_html(headers: Map<Seq<char>, Json>)
    requires
        accept_of(headers) is None,
    ensures
        response_to(headers) == blank_response(MediaType::Html),
{
}

} // verus!
