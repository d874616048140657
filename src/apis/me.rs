use vstd::prelude::*;
use vstd::string::*;
use vstd::utf8::*;

use crate::apis::{
    empty_body, image_parsed, lemma_json_reading_is_exact, parse_is_exact, json_accepts, json_parsed, parse_image_body, parse_json_body,
    ApiError, ApiRequest, Method,
};
use crate::codec::{decodes_as_image, utf8_error_of, utf8_text};
use crate::models::QrCode;
use crate::text::{i64_text, signed_decimal};

verus! {

/// `GET /users/me/stamp-history`: the stamps the user used lately.
#[derive(Debug, Clone, Copy, Default)]
pub struct GetMyStampHistory {
    limit: Option<i64>,
}

impl GetMyStampHistory {
    pub closed spec fn spec_limit(&self) -> Option<i64> {
        self.limit
    }

    /// The request with no limit.
    pub fn new() -> (r: Self)
        ensures
            r.spec_limit() is None,
    {
        GetMyStampHistory { limit: None }
    }

    /// Asks for at most `limit` entries.
    pub fn limit(self, limit: i64) -> (r: Self)
        ensures
            r.spec_limit() == Some(limit),
    {
        GetMyStampHistory { limit: Some(limit) }
    }

    /// The media type of the answer.
    pub fn accept(&self) -> (r: Option<String>)
        ensures
            r.deep_view() == Some("application/json"@),
    {
        Some(String::from_str("application/json"))
    }
}

impl ApiRequest for GetMyStampHistory {
    type Response = serde_json::Value;
    type Error = ApiError;

    open spec fn spec_uri(&self) -> Seq<char> {
        match self.spec_limit() {
            Some(limit) => "/users/me/stamp-history?limit="@ + signed_decimal(limit as int),
            None => "/users/me/stamp-history"@,
        }
    }

    open spec fn spec_method(&self) -> Method {
        Method::Get
    }

    open spec fn spec_content_type(&self) -> Option<Seq<char>> {
        None
    }

    open spec fn spec_body(&self) -> Seq<u8> {
        Seq::empty()
    }

    open spec fn accepts(&self, body: Seq<u8>) -> bool {
        json_accepts(body)
    }

    open spec fn parsed(&self, body: Seq<u8>, r: Result<serde_json::Value, ApiError>) -> bool {
        json_parsed(body, r)
    }

    fn uri(&self) -> (r: String) {
        match self.limit {
            Some(limit) => String::from_str("/users/me/stamp-history?limit=").concat(
                i64_text(limit).as_str(),
            ),
            None => String::from_str("/users/me/stamp-history"),
        }
    }

    fn method(&self) -> (r: Method) {
        Method::Get
    }

    fn content_type(&self) -> (r: Option<String>) {
        None
    }

    fn body(&self) -> (r: Vec<u8>) {
        empty_body()
    }

    fn parse(&self, body: &[u8]) -> (r: Result<serde_json::Value, ApiError>) {
        parse_json_body(body)
    }
}

/// `GET /users/me/qr-code`: the sign-in QR code, as an image or, with
/// `token`, as the text it encodes.
#[derive(Debug, Clone, Copy, Default)]
pub struct GetMyQrCode {
    token: bool,
}

impl GetMyQrCode {
    pub closed spec fn spec_token(&self) -> bool {
        self.token
    }

    /// The request for the image.
    pub fn new() -> (r: Self)
        ensures
            !r.spec_token(),
    {
        GetMyQrCode { token: false }
    }

    /// Asks for the token text instead of the image when `token` holds.
    pub fn token(self, token: bool) -> (r: Self)
        ensures
            r.spec_token() == token,
    {
        GetMyQrCode { token }
    }

    /// The media type of the answer: text for the token, PNG for the image.
    pub fn accept(&self) -> (r: Option<String>)
        ensures
            r.deep_view() == Some(if self.spec_token() { "text/plain"@ } else { "image/png"@ }),
    {
        let s = if self.token {
            "text/plain"
        } else {
            "image/png"
        };
        Some(String::from_str(s))
    }
}

impl ApiRequest for GetMyQrCode {
    type Response = QrCode;
    type Error = ApiError;

    open spec fn spec_uri(&self) -> Seq<char> {
        if self.spec_token() {
            "/users/me/qr-code?token=true"@
        } else {
            "/users/me/qr-code"@
        }
    }

    open spec fn spec_method(&self) -> Method {
        Method::Get
    }

    open spec fn spec_content_type(&self) -> Option<Seq<char>> {
        None
    }

    open spec fn spec_body(&self) -> Seq<u8> {
        Seq::empty()
    }

    /// The token must be UTF-8 text; the image must decode.
    open spec fn accepts(&self, body: Seq<u8>) -> bool {
        if self.spec_token() {
            valid_utf8(body)
        } else {
            decodes_as_image(body)
        }
    }

    /// The token is the text the body encodes; the image is the one the
    /// body decodes to; a failure is the one the decoder reports.
    open spec fn parsed(&self, body: Seq<u8>, r: Result<QrCode, ApiError>) -> bool {
        match r {
            Ok(QrCode::Text(t)) => self.spec_token() && valid_utf8(body) && t@ == decode_utf8(body),
            Ok(QrCode::Image(img)) => !self.spec_token() && image_parsed(body, Ok(img)),
            Err(e) => if self.spec_token() {
                !valid_utf8(body) && e == ApiError::Utf8(utf8_error_of(body))
            } else {
                image_parsed(body, Err(e))
            },
        }
    }

    fn uri(&self) -> (r: String) {
        if self.token {
            String::from_str("/users/me/qr-code?token=true")
        } else {
            String::from_str("/users/me/qr-code")
        }
    }

    fn method(&self) -> (r: Method) {
        Method::Get
    }

    fn content_type(&self) -> (r: Option<String>) {
        None
    }

    fn body(&self) -> (r: Vec<u8>) {
        empty_body()
    }

    fn parse(&self, body: &[u8]) -> (r: Result<QrCode, ApiError>) {
        if self.token {
            match utf8_text(body) {
                Ok(text) => Ok(QrCode::Text(String::from_str(text))),
                Err(e) => Err(ApiError::Utf8(e)),
            }
        } else {
            match parse_image_body(body) {
                Ok(img) => Ok(QrCode::Image(img)),
                Err(e) => Err(e),
            }
        }
    }
}

/// `GET /users/me`: the signed-in user, with permissions.
#[derive(Debug, Clone, Copy, Default)]
pub struct GetMe;

impl GetMe {
    pub fn new() -> (r: Self) {
        GetMe
    }

    /// The media type of the answer.
    pub fn accept(&self) -> (r: Option<String>)
        ensures
            r.deep_view() == Some("application/json"@),
    {
        Some(String::from_str("application/json"))
    }
}

impl ApiRequest for GetMe {
    type Response = serde_json::Value;
    type Error = ApiError;

    open spec fn spec_uri(&self) -> Seq<char> {
        "/users/me"@
    }

    open spec fn spec_method(&self) -> Method {
        Method::Get
    }

    open spec fn spec_content_type(&self) -> Option<Seq<char>> {
        None
    }

    open spec fn spec_body(&self) -> Seq<u8> {
        Seq::empty()
    }

    open spec fn accepts(&self, body: Seq<u8>) -> bool {
        json_accepts(body)
    }

    open spec fn parsed(&self, body: Seq<u8>, r: Result<serde_json::Value, ApiError>) -> bool {
        json_parsed(body, r)
    }

    fn uri(&self) -> (r: String) {
        String::from_str("/users/me")
    }

    fn method(&self) -> (r: Method) {
        Method::Get
    }

    fn content_type(&self) -> (r: Option<String>) {
        None
    }

    fn body(&self) -> (r: Vec<u8>) {
        empty_body()
    }

    fn parse(&self, body: &[u8]) -> (r: Result<serde_json::Value, ApiError>) {
        parse_json_body(body)
    }
}

/// The stamp-history and me endpoints read a body one way only, so a 2xx
/// response to either is exactly what its `parse` gives.
pub proof fn lemma_me_endpoints_read_exactly(history: GetMyStampHistory, me: GetMe)
    ensures
        parse_is_exact(history),
        parse_is_exact(me),
{
    lemma_json_reading_is_exact(history);
    lemma_json_reading_is_exact(me);
}

/// The QR code endpoint reads a body one way too, up to which `String`
/// holds the token: two readings of one body are the same image or the same
/// error, or tokens of the same text.
pub proof fn lemma_qr_code_read_exactly(
    req: GetMyQrCode,
    body: Seq<u8>,
    r1: Result<QrCode, ApiError>,
    r2: Result<QrCode, ApiError>,
)
    requires
        req.parsed(body, r1),
        req.parsed(body, r2),
    ensures
        match (r1, r2) {
            (Ok(QrCode::Text(t1)), Ok(QrCode::Text(t2))) => t1@ == t2@,
            _ => r1 == r2,
        },
{
}

} // verus!
