use vstd::prelude::*;
use vstd::slice::*;
use vstd::string::*;
use vstd::utf8::*;

use crate::client::Client;
use crate::codec::{
    decode_image, decodes_as_image, image_decode_result, is_json_document, json_parse_result,
    parse_json, utf8_error_of, utf8_text,
};

pub mod me;
pub mod users;

verus! {

/// The HTTP verbs that the API's operations use.
#[derive(Debug, Clone, Copy, PartialEq, Eq, Hash)]
pub enum Method {
    Get,
    Post,
    Put,
    Patch,
    Delete,
}

impl Method {
    pub open spec fn spec_name(&self) -> Seq<char> {
        match self {
            Method::Get => "GET"@,
            Method::Post => "POST"@,
            Method::Put => "PUT"@,
            Method::Patch => "PATCH"@,
            Method::Delete => "DELETE"@,
        }
    }

    /// The verb as it is written on the wire.
    pub fn as_str(&self) -> (r: &'static str)
        ensures
            r@ == self.spec_name(),
    {
        match self {
            Method::Get => "GET",
            Method::Post => "POST",
            Method::Put => "PUT",
            Method::Patch => "PATCH",
            Method::Delete => "DELETE",
        }
    }
}

/// One operation of the API, as a value: how it is written as a request,
/// and how the body of a successful response is read.
pub trait ApiRequest: Sized {
    type Response;
    type Error;

    /// Path and query, relative to the client's base path.
    spec fn spec_uri(&self) -> Seq<char>;

    spec fn spec_method(&self) -> Method;

    /// The media type of the body, when one is sent.
    spec fn spec_content_type(&self) -> Option<Seq<char>>;

    spec fn spec_body(&self) -> Seq<u8>;

    /// Whether `parse` reads the body into a response.
    spec fn accepts(&self, body: Seq<u8>) -> bool;

    /// What `parse` may return on the body.
    spec fn parsed(&self, body: Seq<u8>, r: Result<Self::Response, Self::Error>) -> bool;

    fn uri(&self) -> (r: String)
        ensures
            r@ == self.spec_uri(),
    ;

    fn method(&self) -> (r: Method)
        ensures
            r == self.spec_method(),
    ;

    fn content_type(&self) -> (r: Option<String>)
        ensures
            r.deep_view() == self.spec_content_type(),
    ;

    fn body(&self) -> (r: Vec<u8>)
        ensures
            r@ == self.spec_body(),
    ;

    fn parse(&self, body: &[u8]) -> (r: Result<Self::Response, Self::Error>)
        ensures
            r is Ok <==> self.accepts(body@),
            self.parsed(body@, r),
    ;
}

/// Why a response was not turned into a value.
#[derive(Debug)]
pub enum RequestError<T> {
    /// The status was outside 2xx: the status and the body as they came.
    BadStatus(u16, Vec<u8>),
    /// The status was 2xx, and the endpoint could not read the body.
    Custom(T),
}

/// Why the body of a successful response could not be read.
#[derive(Debug)]
pub enum ApiError {
    Utf8(core::str::Utf8Error),
    Serde(serde_json::Error),
    Image(image::ImageError),
}

/// A request as it goes on the wire.
#[derive(Debug)]
pub struct WireRequest {
    pub method: Method,
    /// Base path and endpoint path, with the query.
    pub uri: String,
    /// Value of the `Authorization` header, when one is sent.
    pub authorization: Option<String>,
    /// Value of the `Content-Type` header, when one is sent.
    pub content_type: Option<String>,
    pub body: Vec<u8>,
}

/// Statuses of the success range, 2xx.
pub open spec fn is_success_status(status: u16) -> bool {
    200 <= status <= 299
}

/// Whether the status lies in the success range, 2xx.
pub fn is_success(status: u16) -> (r: bool)
    ensures
        r == is_success_status(status),
{
    200 <= status && status <= 299
}

/// The body is UTF-8 text that holds one JSON document.
pub open spec fn json_accepts(body: Seq<u8>) -> bool {
    valid_utf8(body) && is_json_document(decode_utf8(body))
}

/// Reading a JSON body: the value that `serde_json` reads from its text; a
/// body that is not UTF-8 fails with the UTF-8 error, and text that is not
/// one JSON document fails with the JSON error.
pub open spec fn json_parsed(body: Seq<u8>, r: Result<serde_json::Value, ApiError>) -> bool {
    match r {
        Ok(v) => valid_utf8(body) && json_parse_result(decode_utf8(body)) == Ok::<
            serde_json::Value,
            serde_json::Error,
        >(v),
        Err(ApiError::Utf8(e)) => !valid_utf8(body) && e == utf8_error_of(body),
        Err(ApiError::Serde(e)) => valid_utf8(body) && json_parse_result(decode_utf8(body)) == Err::<
            serde_json::Value,
            serde_json::Error,
        >(e),
        Err(ApiError::Image(_)) => false,
    }
}

/// Reading an image body: the image that the `image` crate decodes from it,
/// or the error it reports.
pub open spec fn image_parsed(body: Seq<u8>, r: Result<image::DynamicImage, ApiError>) -> bool {
    match r {
        Ok(img) => image_decode_result(body) == Ok::<image::DynamicImage, image::ImageError>(img),
        Err(ApiError::Image(e)) => image_decode_result(body) == Err::<
            image::DynamicImage,
            image::ImageError,
        >(e),
        Err(_) => false,
    }
}

/// A JSON body is read one way only: two readings of it are the same.
pub proof fn lemma_json_parsed_unique(
    body: Seq<u8>,
    r1: Result<serde_json::Value, ApiError>,
    r2: Result<serde_json::Value, ApiError>,
)
    requires
        json_parsed(body, r1),
        json_parsed(body, r2),
    ensures
        r1 == r2,
{
}

/// An image body is read one way only: two readings of it are the same.
pub proof fn lemma_image_parsed_unique(
    body: Seq<u8>,
    r1: Result<image::DynamicImage, ApiError>,
    r2: Result<image::DynamicImage, ApiError>,
)
    requires
        image_parsed(body, r1),
        image_parsed(body, r2),
    ensures
        r1 == r2,
{
}

/// Reads a body as UTF-8 text that holds one JSON document.
pub fn parse_json_body(body: &[u8]) -> (r: Result<serde_json::Value, ApiError>)
    ensures
        r is Ok <==> json_accepts(body@),
        json_parsed(body@, r),
{
    match utf8_text(body) {
        Ok(text) => match parse_json(text) {
            Ok(value) => Ok(value),
            Err(e) => Err(ApiError::Serde(e)),
        },
        Err(e) => Err(ApiError::Utf8(e)),
    }
}

/// Reads a body as an image, its format guessed from its leading bytes.
pub fn parse_image_body(body: &[u8]) -> (r: Result<image::DynamicImage, ApiError>)
    ensures
        r is Ok <==> decodes_as_image(body@),
        image_parsed(body@, r),
{
    match decode_image(body) {
        Ok(img) => Ok(img),
        Err(e) => Err(ApiError::Image(e)),
    }
}

/// The media type of JSON bodies.
pub fn json_content_type() -> (r: Option<String>)
    ensures
        r.deep_view() == Some("application/json"@),
{
    Some(String::from_str("application/json"))
}

/// The body of a request that sends none.
pub fn empty_body() -> (r: Vec<u8>)
    ensures
        r@ == Seq::<u8>::empty(),
{
    Vec::new()
}

/// The UTF-8 bytes of a text body.
pub fn text_body(text: &String) -> (r: Vec<u8>)
    ensures
        r@ == encode_utf8(text@),
{
    slice_to_vec(text.as_str().as_bytes())
}

/// What a client does with the response to a request.
pub open spec fn response_outcome<Req: ApiRequest>(
    req: Req,
    status: u16,
    body: Seq<u8>,
    r: Result<Req::Response, RequestError<Req::Error>>,
) -> bool {
    if !is_success_status(status) {
        r matches Err(RequestError::BadStatus(s, b)) && s == status && b@ == body
    } else {
        match r {
            Ok(v) => req.accepts(body) && req.parsed(body, Ok(v)),
            Err(RequestError::Custom(e)) => !req.accepts(body) && req.parsed(body, Err(e)),
            Err(RequestError::BadStatus(_, _)) => false,
        }
    }
}

/// A response outside 2xx is a bad-status error that carries that status and
/// exactly the bytes of the body, whatever they hold: the body is never read.
pub proof fn lemma_bad_status_keeps_status_and_body<Req: ApiRequest>(
    req: Req,
    status: u16,
    body: Seq<u8>,
    r: Result<Req::Response, RequestError<Req::Error>>,
)
    requires
        response_outcome(req, status, body, r),
        !is_success_status(status),
    ensures
        r matches Err(RequestError::BadStatus(s, b)) && s == status && b@ == body,
{
}

/// A 2xx response whose body the endpoint cannot read is a decode error:
/// never a value, and never a bad-status error.
pub proof fn lemma_unreadable_body_is_decode_error<Req: ApiRequest>(
    req: Req,
    status: u16,
    body: Seq<u8>,
    r: Result<Req::Response, RequestError<Req::Error>>,
)
    requires
        response_outcome(req, status, body, r),
        is_success_status(status),
        !req.accepts(body),
    ensures
        r matches Err(RequestError::Custom(e)) && req.parsed(body, Err(e)),
{
}

/// The endpoint reads its body as JSON, as `parse_json_body` does.
pub open spec fn reads_json<Req: ApiRequest<Response = serde_json::Value, Error = ApiError>>(
    req: Req,
) -> bool {
    &&& forall|b: Seq<u8>| #[trigger] req.accepts(b) == json_accepts(b)
    &&& forall|b: Seq<u8>, x: Result<serde_json::Value, ApiError>|
        #[trigger] req.parsed(b, x) == json_parsed(b, x)
}

/// For an endpoint that reads JSON, a 2xx body that is not UTF-8 text
/// holding one JSON document is a decode error (of UTF-8 or of JSON), never
/// a value.
pub proof fn lemma_non_json_body_is_decode_error<
    Req: ApiRequest<Response = serde_json::Value, Error = ApiError>,
>(req: Req, status: u16, body: Seq<u8>, r: Result<serde_json::Value, RequestError<ApiError>>)
    requires
        reads_json(req),
        response_outcome(req, status, body, r),
        is_success_status(status),
        !json_accepts(body),
    ensures
        r matches Err(RequestError::Custom(e)) && (e is Utf8 || e is Serde),
{
    assert(!req.accepts(body));
    let e = r->Err_0->Custom_0;
    assert(req.parsed(body, Err(e)));
    assert(json_parsed(body, Err(e)));
}

/// A result of `parse` as the client hands it on: the value, or the error
/// as a decode error.
pub open spec fn as_outcome<T, E>(p: Result<T, E>) -> Result<T, RequestError<E>> {
    match p {
        Ok(v) => Ok(v),
        Err(e) => Err(RequestError::Custom(e)),
    }
}

/// Reading a body can come out one way only: any two results that the
/// endpoint's `parse` may give for one body are the same.
pub open spec fn parse_is_exact<Req: ApiRequest>(req: Req) -> bool {
    forall|b: Seq<u8>, r1: Result<Req::Response, Req::Error>, r2: Result<Req::Response, Req::Error>|
        #![trigger req.parsed(b, r1), req.parsed(b, r2)]
        req.parsed(b, r1) && req.parsed(b, r2) ==> r1 == r2
}

/// For an endpoint whose reading of a body comes out one way only, a 2xx
/// response gives exactly what `parse` returns on its body (`p`): its value,
/// or its error wrapped as a decode error.
pub proof fn lemma_success_is_what_parse_returns<Req: ApiRequest>(
    req: Req,
    status: u16,
    body: Seq<u8>,
    r: Result<Req::Response, RequestError<Req::Error>>,
    p: Result<Req::Response, Req::Error>,
)
    requires
        parse_is_exact(req),
        req.parsed(body, p),
        response_outcome(req, status, body, r),
        is_success_status(status),
    ensures
        r == as_outcome(p),
{
    match r {
        Ok(v) => {
            assert(req.parsed(body, Ok(v)));
        },
        Err(RequestError::Custom(e)) => {
            assert(req.parsed(body, Err(e)));
        },
        Err(RequestError::BadStatus(_, _)) => {},
    }
}

/// An endpoint that reads its body as JSON reads it one way only.
pub proof fn lemma_json_reading_is_exact<
    Req: ApiRequest<Response = serde_json::Value, Error = ApiError>,
>(req: Req)
    requires
        reads_json(req),
    ensures
        parse_is_exact(req),
{
    assert forall|b: Seq<u8>, r1: Result<serde_json::Value, ApiError>, r2: Result<serde_json::Value, ApiError>|
        req.parsed(b, r1) && req.parsed(b, r2) implies r1 == r2 by {
        lemma_json_parsed_unique(b, r1, r2);
    }
}

impl Client {
    /// The request that goes on the wire for `req`: its method, the base
    /// path followed by its path, the bearer header when the client has a
    /// token, its content type when it has one, and its body.
    pub fn build_request<Req: ApiRequest>(&self, req: &Req) -> (r: WireRequest)
        ensures
            r.method == req.spec_method(),
            r.uri@ == self.base_path@ + req.spec_uri(),
            r.authorization.deep_view() == self.authorization.spec_header(),
            r.content_type.deep_view() == req.spec_content_type(),
            r.body@ == req.spec_body(),
    {
        let path = req.uri();
        let uri = self.base_path.clone().concat(path.as_str());
        WireRequest {
            method: req.method(),
            uri,
            authorization: self.authorization.header(),
            content_type: req.content_type(),
            body: req.body(),
        }
    }

    /// The outcome of a response to `req`. A status outside 2xx is an error
    /// that carries the status and the body as they came, whatever the body
    /// holds; within 2xx the endpoint reads the body, and a body it cannot
    /// read is a decode error. Where the endpoint reads a body one way only,
    /// a 2xx outcome is exactly what its `parse` gives on the body: the
    /// value, or the error wrapped as a decode error.
    pub fn handle_response<Req: ApiRequest>(req: &Req, status: u16, body: Vec<u8>) -> (r: Result<
        Req::Response,
        RequestError<Req::Error>,
    >)
        ensures
            response_outcome(*req, status, body@, r),
            is_success_status(status) && parse_is_exact(*req) ==> forall|
                p: Result<Req::Response, Req::Error>,
            | #[trigger] req.parsed(body@, p) ==> r == as_outcome(p),
    {
        let ghost b = body@;
        let r = if !is_success(status) {
            Err(RequestError::BadStatus(status, body))
        } else {
            match req.parse(body.as_slice()) {
                Ok(v) => Ok(v),
                Err(e) => Err(RequestError::Custom(e)),
            }
        };
        proof {
            if is_success_status(status) && parse_is_exact(*req) {
                assert forall|p: Result<Req::Response, Req::Error>| #[trigger]
                    req.parsed(b, p) implies r == as_outcome(p) by {
                    lemma_success_is_what_parse_returns(*req, status, b, r, p);
                }
            }
        }
        r
    }
}

} // verus!
