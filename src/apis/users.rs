use vstd::prelude::*;
use vstd::string::*;
use vstd::utf8::*;

use crate::apis::{
    empty_body, image_parsed, lemma_image_parsed_unique, lemma_json_reading_is_exact, parse_is_exact, json_accepts, json_content_type, json_parsed, parse_image_body,
    parse_json_body, text_body, ApiError, ApiRequest, Method,
};
use crate::codec::{decodes_as_image, encode_png, png_encode_result};
use crate::id::{lemma_uuid_text_shape, uuid_text, Uuid};
use crate::models::{
    PatchUserRequest, PatchUserTagRequest, PostMessageRequest, PostUserRequest,
    PostUserTagRequest, PutUserPasswordRequest,
};
use crate::text::{bool_str, bool_text, decimal, join, join_with, u64_text};

verus! {

/// `/users/{id}` followed by `suffix`.
pub open spec fn user_path(id: Uuid, suffix: Seq<char>) -> Seq<char> {
    "/users/"@ + id.spec_text() + suffix
}

fn user_path_text(id: &Uuid, suffix: &str) -> (r: String)
    ensures
        r@ == user_path(*id, suffix@),
{
    String::from_str("/users/").concat(id.hyphenated().as_str()).concat(suffix)
}

/// `GET /users`: all users, the suspended ones too when asked, or those of
/// one name.
#[derive(Debug, Clone, Default)]
pub struct GetUsers {
    pub include_suspended: bool,
    pub name: Option<String>,
}

impl GetUsers {
    pub fn new(include_suspended: bool, name: Option<String>) -> (r: Self)
        ensures
            r.include_suspended == include_suspended,
            r.name == name,
    {
        GetUsers { include_suspended, name }
    }
}

impl ApiRequest for GetUsers {
    type Response = serde_json::Value;
    type Error = ApiError;

    open spec fn spec_uri(&self) -> Seq<char> {
        let base = "/users?include-suspended="@ + bool_text(self.include_suspended);
        match self.name {
            Some(name) => base + "&name="@ + name@,
            None => base,
        }
    }

    open spec fn spec_method(&self) -> Method {
        Method::Get
    }

    open spec fn spec_content_type(&self) -> Option<Seq<char>> {
        None
    }

    open spec fn spec_body(&self) -> Seq<u8> {
        Seq::empty()
    }

    open spec fn accepts(&self, body: Seq<u8>) -> bool {
        json_accepts(body)
    }

    open spec fn parsed(&self, body: Seq<u8>, r: Result<serde_json::Value, ApiError>) -> bool {
        json_parsed(body, r)
    }

    fn uri(&self) -> (r: String) {
        let base = String::from_str("/users?include-suspended=").concat(
            bool_str(self.include_suspended),
        );
        match &self.name {
            Some(name) => base.concat("&name=").concat(name.as_str()),
            None => base,
        }
    }

    fn method(&self) -> (r: Method) {
        Method::Get
    }

    fn content_type(&self) -> (r: Option<String>) {
        None
    }

    fn body(&self) -> (r: Vec<u8>) {
        empty_body()
    }

    fn parse(&self, body: &[u8]) -> (r: Result<serde_json::Value, ApiError>) {
        parse_json_body(body)
    }
}

/// `GET /users/{id}`: one user.
#[derive(Debug, Clone, Copy)]
pub struct GetUser {
    id: Uuid,
}

impl GetUser {
    pub closed spec fn spec_id(&self) -> Uuid {
        self.id
    }

    pub fn new(id: Uuid) -> (r: Self)
        ensures
            r.spec_id() == id,
    {
        GetUser { id }
    }
}

impl ApiRequest for GetUser {
    type Response = serde_json::Value;
    type Error = ApiError;

    open spec fn spec_uri(&self) -> Seq<char> {
        user_path(self.spec_id(), Seq::empty())
    }

    open spec fn spec_method(&self) -> Method {
        Method::Get
    }

    open spec fn spec_content_type(&self) -> Option<Seq<char>> {
        None
    }

    open spec fn spec_body(&self) -> Seq<u8> {
        Seq::empty()
    }

    open spec fn accepts(&self, body: Seq<u8>) -> bool {
        json_accepts(body)
    }

    open spec fn parsed(&self, body: Seq<u8>, r: Result<serde_json::Value, ApiError>) -> bool {
        json_parsed(body, r)
    }

    fn uri(&self) -> (r: String) {
        let r = user_path_text(&self.id, "");
        proof {
            reveal_strlit("");
        }
        assert(r@ =~= user_path(self.id, Seq::empty()));
        r
    }

    fn method(&self) -> (r: Method) {
        Method::Get
    }

    fn content_type(&self) -> (r: Option<String>) {
        None
    }

    fn body(&self) -> (r: Vec<u8>) {
        empty_body()
    }

    fn parse(&self, body: &[u8]) -> (r: Result<serde_json::Value, ApiError>) {
        parse_json_body(body)
    }
}

/// `GET /users/{id}/tags`: the tags of a user.
#[derive(Debug, Clone, Copy)]
pub struct GetUserTags {
    id: Uuid,
}

impl GetUserTags {
    pub closed spec fn spec_id(&self) -> Uuid {
        self.id
    }

    pub fn new(id: Uuid) -> (r: Self)
        ensures
            r.spec_id() == id,
    {
        GetUserTags { id }
    }
}

impl ApiRequest for GetUserTags {
    type Response = serde_json::Value;
    type Error = ApiError;

    open spec fn spec_uri(&self) -> Seq<char> {
        user_path(self.spec_id(), "/tags"@)
    }

    open spec fn spec_method(&self) -> Method {
        Method::Get
    }

    open spec fn spec_content_type(&self) -> Option<Seq<char>> {
        None
    }

    open spec fn spec_body(&self) -> Seq<u8> {
        Seq::empty()
    }

    open spec fn accepts(&self, body: Seq<u8>) -> bool {
        json_accepts(body)
    }

    open spec fn parsed(&self, body: Seq<u8>, r: Result<serde_json::Value, ApiError>) -> bool {
        json_parsed(body, r)
    }

    fn uri(&self) -> (r: String) {
        user_path_text(&self.id, "/tags")
    }

    fn method(&self) -> (r: Method) {
        Method::Get
    }

    fn content_type(&self) -> (r: Option<String>) {
        None
    }

    fn body(&self) -> (r: Vec<u8>) {
        empty_body()
    }

    fn parse(&self, body: &[u8]) -> (r: Result<serde_json::Value, ApiError>) {
        parse_json_body(body)
    }
}

/// `PATCH /users/{id}`: changes a user's profile.
#[derive(Debug, Clone)]
pub struct PatchUser {
    id: Uuid,
    request: PatchUserRequest,
}

impl PatchUser {
    pub closed spec fn spec_id(&self) -> Uuid {
        self.id
    }

    pub closed spec fn spec_request(&self) -> PatchUserRequest {
        self.request
    }

    pub fn new(id: Uuid, request: PatchUserRequest) -> (r: Self)
        ensures
            r.spec_id() == id,
            r.spec_request() == request,
    {
        PatchUser { id, request }
    }
}

impl ApiRequest for PatchUser {
    type Response = ();
    type Error = core::convert::Infallible;

    open spec fn spec_uri(&self) -> Seq<char> {
        user_path(self.spec_id(), Seq::empty())
    }

    open spec fn spec_method(&self) -> Method {
        Method::Patch
    }

    open spec fn spec_content_type(&self) -> Option<Seq<char>> {
        Some("application/json"@)
    }

    open spec fn spec_body(&self) -> Seq<u8> {
        encode_utf8(self.spec_request().spec_json())
    }

    open spec fn accepts(&self, body: Seq<u8>) -> bool {
        true
    }

    open spec fn parsed(&self, body: Seq<u8>, r: Result<(), core::convert::Infallible>) -> bool {
        r is Ok
    }

    fn uri(&self) -> (r: String) {
        let r = user_path_text(&self.id, "");
        proof {
            reveal_strlit("");
        }
        assert(r@ =~= user_path(self.id, Seq::empty()));
        r
    }

    fn method(&self) -> (r: Method) {
        Method::Patch
    }

    fn content_type(&self) -> (r: Option<String>) {
        json_content_type()
    }

    fn body(&self) -> (r: Vec<u8>) {
        text_body(&self.request.to_json())
    }

    fn parse(&self, body: &[u8]) -> (r: Result<(), core::convert::Infallible>) {
        Ok(())
    }
}

/// `POST /users/{id}/messages`: posts a direct message to a user.
#[derive(Debug, Clone)]
pub struct PostDirectMessage {
    id: Uuid,
    request: PostMessageRequest,
}

impl PostDirectMessage {
    pub closed spec fn spec_id(&self) -> Uuid {
        self.id
    }

    pub closed spec fn spec_request(&self) -> PostMessageRequest {
        self.request
    }

    pub fn new(id: Uuid, request: PostMessageRequest) -> (r: Self)
        ensures
            r.spec_id() == id,
            r.spec_request() == request,
    {
        PostDirectMessage { id, request }
    }
}

impl ApiRequest for PostDirectMessage {
    type Response = serde_json::Value;
    type Error = ApiError;

    open spec fn spec_uri(&self) -> Seq<char> {
        user_path(self.spec_id(), "/messages"@)
    }

    open spec fn spec_method(&self) -> Method {
        Method::Post
    }

    open spec fn spec_content_type(&self) -> Option<Seq<char>> {
        Some("application/json"@)
    }

    open spec fn spec_body(&self) -> Seq<u8> {
        encode_utf8(self.spec_request().spec_json())
    }

    open spec fn accepts(&self, body: Seq<u8>) -> bool {
        json_accepts(body)
    }

    open spec fn parsed(&self, body: Seq<u8>, r: Result<serde_json::Value, ApiError>) -> bool {
        json_parsed(body, r)
    }

    fn uri(&self) -> (r: String) {
        user_path_text(&self.id, "/messages")
    }

    fn method(&self) -> (r: Method) {
        Method::Post
    }

    fn content_type(&self) -> (r: Option<String>) {
        json_content_type()
    }

    fn body(&self) -> (r: Vec<u8>) {
        text_body(&self.request.to_json())
    }

    fn parse(&self, body: &[u8]) -> (r: Result<serde_json::Value, ApiError>) {
        parse_json_body(body)
    }
}

/// `key=value` when the value is present; nothing otherwise.
pub open spec fn query_item(key: Seq<char>, value: Option<Seq<char>>) -> Seq<Seq<char>> {
    match value {
        Some(v) => seq![key + "="@ + v],
        None => Seq::empty(),
    }
}

/// `path`, followed by `?` and the items joined by `&` when there are any.
pub open spec fn with_query(path: Seq<char>, items: Seq<Seq<char>>) -> Seq<char> {
    if items.len() == 0 {
        path
    } else {
        path + "?"@ + join_with(items, "&"@)
    }
}

fn push_item(items: &mut Vec<String>, key: &str, value: &str)
    ensures
        final(items)@.map_values(|p: String| p@) == old(items)@.map_values(|p: String| p@).push(
            key@ + "="@ + value@,
        ),
{
    let item = String::from_str(key).concat("=").concat(value);
    items.push(item);
    assert(final(items)@.map_values(|p: String| p@) =~= old(items)@.map_values(|p: String| p@).push(
        key@ + "="@ + value@,
    ));
}

/// `GET /users/{id}/messages`: the direct messages with a user, a page at a
/// time.
#[derive(Debug, Clone)]
pub struct GetDirectMessages {
    id: Uuid,
    limit: Option<u32>,
    offset: Option<u32>,
    since: Option<String>,
    until: Option<String>,
    inclusive: Option<bool>,
    order: Option<String>,
}

impl GetDirectMessages {
    pub closed spec fn spec_id(&self) -> Uuid {
        self.id
    }

    pub closed spec fn spec_limit(&self) -> Option<u32> {
        self.limit
    }

    pub closed spec fn spec_offset(&self) -> Option<u32> {
        self.offset
    }

    pub closed spec fn spec_since(&self) -> Option<Seq<char>> {
        self.since.deep_view()
    }

    pub closed spec fn spec_until(&self) -> Option<Seq<char>> {
        self.until.deep_view()
    }

    pub closed spec fn spec_inclusive(&self) -> Option<bool> {
        self.inclusive
    }

    pub closed spec fn spec_order(&self) -> Option<Seq<char>> {
        self.order.deep_view()
    }

    /// The query items, in the order limit, offset, since, until,
    /// inclusive, order; the absent ones left out.
    pub open spec fn query_items(&self) -> Seq<Seq<char>> {
        query_item(
            "limit"@,
            match self.spec_limit() {
                Some(n) => Some(decimal(n as nat)),
                None => None,
            },
        ) + query_item(
            "offset"@,
            match self.spec_offset() {
                Some(n) => Some(decimal(n as nat)),
                None => None,
            },
        ) + query_item("since"@, self.spec_since()) + query_item("until"@, self.spec_until())
            + query_item(
            "inclusive"@,
            match self.spec_inclusive() {
                Some(b) => Some(bool_text(b)),
                None => None,
            },
        ) + query_item("order"@, self.spec_order())
    }

    /// The request with none of the options set.
    pub fn new(id: Uuid) -> (r: Self)
        ensures
            r.spec_id() == id,
            r.spec_limit() is None,
            r.spec_offset() is None,
            r.spec_since() is None,
            r.spec_until() is None,
            r.spec_inclusive() is None,
            r.spec_order() is None,
    {
        GetDirectMessages {
            id,
            limit: None,
            offset: None,
            since: None,
            until: None,
            inclusive: None,
            order: None,
        }
    }

    /// Asks for at most `limit` messages.
    pub fn set_limit(self, limit: u32) -> (r: Self)
        ensures
            r.spec_limit() == Some(limit),
            r.spec_id() == self.spec_id(),
            r.spec_offset() == self.spec_offset(),
            r.spec_since() == self.spec_since(),
            r.spec_until() == self.spec_until(),
            r.spec_inclusive() == self.spec_inclusive(),
            r.spec_order() == self.spec_order(),
    {
        GetDirectMessages { limit: Some(limit), ..self }
    }

    /// Skips the first `offset` messages.
    pub fn set_offset(self, offset: u32) -> (r: Self)
        ensures
            r.spec_offset() == Some(offset),
            r.spec_id() == self.spec_id(),
            r.spec_limit() == self.spec_limit(),
            r.spec_since() == self.spec_since(),
            r.spec_until() == self.spec_until(),
            r.spec_inclusive() == self.spec_inclusive(),
            r.spec_order() == self.spec_order(),
    {
        GetDirectMessages { offset: Some(offset), ..self }
    }

    /// Asks for messages from the time `since` on.
    pub fn set_since(self, since: &str) -> (r: Self)
        ensures
            r.spec_since() == Some(since@),
            r.spec_id() == self.spec_id(),
            r.spec_limit() == self.spec_limit(),
            r.spec_offset() == self.spec_offset(),
            r.spec_until() == self.spec_until(),
            r.spec_inclusive() == self.spec_inclusive(),
            r.spec_order() == self.spec_order(),
    {
        GetDirectMessages { since: Some(String::from_str(since)), ..self }
    }

    /// Asks for messages up to the time `until`.
    pub fn set_until(self, until: &str) -> (r: Self)
        ensures
            r.spec_until() == Some(until@),
            r.spec_id() == self.spec_id(),
            r.spec_limit() == self.spec_limit(),
            r.spec_offset() == self.spec_offset(),
            r.spec_since() == self.spec_since(),
            r.spec_inclusive() == self.spec_inclusive(),
            r.spec_order() == self.spec_order(),
    {
        GetDirectMessages { until: Some(String::from_str(until)), ..self }
    }

    /// Whether the bounds `since` and `until` are themselves included.
    pub fn set_inclusive(self, inclusive: bool) -> (r: Self)
        ensures
            r.spec_inclusive() == Some(inclusive),
            r.spec_id() == self.spec_id(),
            r.spec_limit() == self.spec_limit(),
            r.spec_offset() == self.spec_offset(),
            r.spec_since() == self.spec_since(),
            r.spec_until() == self.spec_until(),
            r.spec_order() == self.spec_order(),
    {
        GetDirectMessages { inclusive: Some(inclusive), ..self }
    }

    /// The order of the messages, `asc` or `desc`.
    pub fn set_order(self, order: &str) -> (r: Self)
        ensures
            r.spec_order() == Some(order@),
            r.spec_id() == self.spec_id(),
            r.spec_limit() == self.spec_limit(),
            r.spec_offset() == self.spec_offset(),
            r.spec_since() == self.spec_since(),
            r.spec_until() == self.spec_until(),
            r.spec_inclusive() == self.spec_inclusive(),
    {
        GetDirectMessages { order: Some(String::from_str(order)), ..self }
    }
}

/// An absent option of the messages request adds nothing to its query: with
/// none set there is no query at all (no `?`), and with any set every item of
/// the query is a `key=value` of a set option.
pub proof fn lemma_messages_query_only_of_set_options(req: GetDirectMessages)
    ensures
        req.query_items().len() == 0 <==> (req.spec_limit() is None && req.spec_offset() is None
            && req.spec_since() is None && req.spec_until() is None && req.spec_inclusive() is None
            && req.spec_order() is None),
        req.query_items().len() == 0 ==> req.spec_uri() == user_path(req.spec_id(), "/messages"@),
        req.query_items().len() > 0 ==> req.spec_uri() == user_path(req.spec_id(), "/messages"@)
            + "?"@ + join_with(req.query_items(), "&"@),
        req.query_items().len() == 0 ==> !req.spec_uri().contains('?'),
{
    let id = req.spec_id();
    let path = user_path(id, "/messages"@);
    reveal_strlit("/users/");
    reveal_strlit("/messages");
    lemma_uuid_text_shape(id.value);
    assert forall|i: int| 0 <= i < path.len() implies path[i] != '?' by {
        if i < 7 {
            assert(path[i] == "/users/"@[i]);
        } else if i < 43 {
            assert(path[i] == uuid_text(id.value)[i - 7]);
        } else {
            assert(path[i] == "/messages"@[i - 43]);
        }
    }
}

impl ApiRequest for GetDirectMessages {
    type Response = serde_json::Value;
    type Error = ApiError;

    open spec fn spec_uri(&self) -> Seq<char> {
        with_query(user_path(self.spec_id(), "/messages"@), self.query_items())
    }

    open spec fn spec_method(&self) -> Method {
        Method::Get
    }

    open spec fn spec_content_type(&self) -> Option<Seq<char>> {
        None
    }

    open spec fn spec_body(&self) -> Seq<u8> {
        Seq::empty()
    }

    open spec fn accepts(&self, body: Seq<u8>) -> bool {
        json_accepts(body)
    }

    open spec fn parsed(&self, body: Seq<u8>, r: Result<serde_json::Value, ApiError>) -> bool {
        json_parsed(body, r)
    }

    fn uri(&self) -> (r: String) {
        let ghost view = |p: String| p@;
        let mut query: Vec<String> = Vec::new();
        let ghost expected: Seq<Seq<char>> = Seq::empty();
        assert(query@.map_values(view) =~= expected);
        if let Some(limit) = self.limit {
            push_item(&mut query, "limit", u64_text(limit as u64).as_str());
        }
        proof {
            expected = query_item(
                "limit"@,
                match self.limit {
                    Some(n) => Some(decimal(n as nat)),
                    None => None,
                },
            );
            assert(query@.map_values(view) =~= expected);
        }
        if let Some(offset) = self.offset {
            push_item(&mut query, "offset", u64_text(offset as u64).as_str());
        }
        proof {
            expected = expected + query_item(
                "offset"@,
                match self.offset {
                    Some(n) => Some(decimal(n as nat)),
                    None => None,
                },
            );
            assert(query@.map_values(view) =~= expected);
        }
        if let Some(since) = &self.since {
            push_item(&mut query, "since", since.as_str());
        }
        proof {
            expected = expected + query_item("since"@, self.since.deep_view());
            assert(query@.map_values(view) =~= expected);
        }
        if let Some(until) = &self.until {
            push_item(&mut query, "until", until.as_str());
        }
        proof {
            expected = expected + query_item("until"@, self.until.deep_view());
            assert(query@.map_values(view) =~= expected);
        }
        if let Some(inclusive) = self.inclusive {
            push_item(&mut query, "inclusive", bool_str(inclusive));
        }
        proof {
            expected = expected + query_item(
                "inclusive"@,
                match self.inclusive {
                    Some(b) => Some(bool_text(b)),
                    None => None,
                },
            );
            assert(query@.map_values(view) =~= expected);
        }
        if let Some(order) = &self.order {
            push_item(&mut query, "order", order.as_str());
        }
        proof {
            expected = expected + query_item("order"@, self.order.deep_view());
            assert(query@.map_values(view) =~= expected);
            assert(expected =~= self.query_items());
        }
        let path = user_path_text(&self.id, "/messages");
        if query.len() == 0 {
            return path;
        }
        let joined = join(&query, "&");
        path.concat("?").concat(joined.as_str())
    }

    fn method(&self) -> (r: Method) {
        Method::Get
    }

    fn content_type(&self) -> (r: Option<String>) {
        None
    }

    fn body(&self) -> (r: Vec<u8>) {
        empty_body()
    }

    fn parse(&self, body: &[u8]) -> (r: Result<serde_json::Value, ApiError>) {
        parse_json_body(body)
    }
}

/// `GET /users/{id}/stats`: message and stamp counts of a user.
#[derive(Debug, Clone, Copy)]
pub struct GetUserStats {
    id: Uuid,
}

impl GetUserStats {
    pub closed spec fn spec_id(&self) -> Uuid {
        self.id
    }

    pub fn new(id: Uuid) -> (r: Self)
        ensures
            r.spec_id() == id,
    {
        GetUserStats { id }
    }
}

impl ApiRequest for GetUserStats {
    type Response = serde_json::Value;
    type Error = ApiError;

    open spec fn spec_uri(&self) -> Seq<char> {
        user_path(self.spec_id(), "/stats"@)
    }

    open spec fn spec_method(&self) -> Method {
        Method::Get
    }

    open spec fn spec_content_type(&self) -> Option<Seq<char>> {
        None
    }

    open spec fn spec_body(&self) -> Seq<u8> {
        Seq::empty()
    }

    open spec fn accepts(&self, body: Seq<u8>) -> bool {
        json_accepts(body)
    }

    open spec fn parsed(&self, body: Seq<u8>, r: Result<serde_json::Value, ApiError>) -> bool {
        json_parsed(body, r)
    }

    fn uri(&self) -> (r: String) {
        user_path_text(&self.id, "/stats")
    }

    fn method(&self) -> (r: Method) {
        Method::Get
    }

    fn content_type(&self) -> (r: Option<String>) {
        None
    }

    fn body(&self) -> (r: Vec<u8>) {
        empty_body()
    }

    fn parse(&self, body: &[u8]) -> (r: Result<serde_json::Value, ApiError>) {
        parse_json_body(body)
    }
}

/// `GET /users/{id}/icon`: the icon of a user, decoded.
#[derive(Debug, Clone, Copy)]
pub struct GetUserIcon {
    id: Uuid,
}

impl GetUserIcon {
    pub closed spec fn spec_id(&self) -> Uuid {
        self.id
    }

    pub fn new(id: Uuid) -> (r: Self)
        ensures
            r.spec_id() == id,
    {
        GetUserIcon { id }
    }
}

impl ApiRequest for GetUserIcon {
    type Response = image::DynamicImage;
    type Error = ApiError;

    open spec fn spec_uri(&self) -> Seq<char> {
        user_path(self.spec_id(), "/icon"@)
    }

    open spec fn spec_method(&self) -> Method {
        Method::Get
    }

    open spec fn spec_content_type(&self) -> Option<Seq<char>> {
        None
    }

    open spec fn spec_body(&self) -> Seq<u8> {
        Seq::empty()
    }

    open spec fn accepts(&self, body: Seq<u8>) -> bool {
        decodes_as_image(body)
    }

    open spec fn parsed(&self, body: Seq<u8>, r: Result<image::DynamicImage, ApiError>) -> bool {
        image_parsed(body, r)
    }

    fn uri(&self) -> (r: String) {
        user_path_text(&self.id, "/icon")
    }

    fn method(&self) -> (r: Method) {
        Method::Get
    }

    fn content_type(&self) -> (r: Option<String>) {
        None
    }

    fn body(&self) -> (r: Vec<u8>) {
        empty_body()
    }

    fn parse(&self, body: &[u8]) -> (r: Result<image::DynamicImage, ApiError>) {
        parse_image_body(body)
    }
}

/// The icon request reads a body one way only.
pub proof fn lemma_icon_reading_is_exact(req: GetUserIcon)
    ensures
        parse_is_exact(req),
{
    assert forall|b: Seq<u8>, r1: Result<image::DynamicImage, ApiError>, r2: Result<image::DynamicImage, ApiError>|
        req.parsed(b, r1) && req.parsed(b, r2) implies r1 == r2 by {
        lemma_image_parsed_unique(b, r1, r2);
    }
}

/// `PUT /users/{id}/icon`: replaces the icon of a user with an image, sent
/// as PNG.
#[derive(Debug, Clone)]
pub struct PutUserIcon {
    id: Uuid,
    png: Vec<u8>,
}

impl PutUserIcon {
    pub closed spec fn spec_id(&self) -> Uuid {
        self.id
    }

    /// The PNG encoding of the image, which is the body.
    pub closed spec fn spec_png(&self) -> Seq<u8> {
        self.png@
    }

    /// The request for the image, encoded as PNG; an image that cannot be
    /// written as PNG is an error, the one the encoder reports.
    pub fn new(id: Uuid, request: image::DynamicImage) -> (r: Result<Self, ApiError>)
        ensures
            r is Ok <==> png_encode_result(request) is Ok,
            r is Ok ==> r->Ok_0.spec_id() == id && r->Ok_0.spec_png() == png_encode_result(
                request,
            )->Ok_0,
            r is Err ==> (r->Err_0 matches ApiError::Image(e) && png_encode_result(request) == Err::<
                Seq<u8>,
                image::ImageError,
            >(e)),
    {
        match encode_png(&request) {
            Ok(png) => Ok(PutUserIcon { id, png }),
            Err(e) => Err(ApiError::Image(e)),
        }
    }
}

impl ApiRequest for PutUserIcon {
    type Response = ();
    type Error = core::convert::Infallible;

    open spec fn spec_uri(&self) -> Seq<char> {
        user_path(self.spec_id(), "/icon"@)
    }

    open spec fn spec_method(&self) -> Method {
        Method::Put
    }

    open spec fn spec_content_type(&self) -> Option<Seq<char>> {
        Some("image/png"@)
    }

    open spec fn spec_body(&self) -> Seq<u8> {
        self.spec_png()
    }

    open spec fn accepts(&self, body: Seq<u8>) -> bool {
        true
    }

    open spec fn parsed(&self, body: Seq<u8>, r: Result<(), core::convert::Infallible>) -> bool {
        r is Ok
    }

    fn uri(&self) -> (r: String) {
        user_path_text(&self.id, "/icon")
    }

    fn method(&self) -> (r: Method) {
        Method::Put
    }

    fn content_type(&self) -> (r: Option<String>) {
        Some(String::from_str("image/png"))
    }

    fn body(&self) -> (r: Vec<u8>) {
        self.png.clone()
    }

    fn parse(&self, body: &[u8]) -> (r: Result<(), core::convert::Infallible>) {
        Ok(())
    }
}

/// `PUT /users/{id}/password`: sets the password of a user.
#[derive(Debug, Clone)]
pub struct PutUserPassword {
    id: Uuid,
    request: PutUserPasswordRequest,
}

impl PutUserPassword {
    pub closed spec fn spec_id(&self) -> Uuid {
        self.id
    }

    pub closed spec fn spec_request(&self) -> PutUserPasswordRequest {
        self.request
    }

    pub fn new(id: Uuid, request: PutUserPasswordRequest) -> (r: Self)
        ensures
            r.spec_id() == id,
            r.spec_request() == request,
    {
        PutUserPassword { id, request }
    }
}

impl ApiRequest for PutUserPassword {
    type Response = ();
    type Error = core::convert::Infallible;

    open spec fn spec_uri(&self) -> Seq<char> {
        user_path(self.spec_id(), "/password"@)
    }

    open spec fn spec_method(&self) -> Method {
        Method::Put
    }

    open spec fn spec_content_type(&self) -> Option<Seq<char>> {
        Some("application/json"@)
    }

    open spec fn spec_body(&self) -> Seq<u8> {
        encode_utf8(self.spec_request().spec_json())
    }

    open spec fn accepts(&self, body: Seq<u8>) -> bool {
        true
    }

    open spec fn parsed(&self, body: Seq<u8>, r: Result<(), core::convert::Infallible>) -> bool {
        r is Ok
    }

    fn uri(&self) -> (r: String) {
        user_path_text(&self.id, "/password")
    }

    fn method(&self) -> (r: Method) {
        Method::Put
    }

    fn content_type(&self) -> (r: Option<String>) {
        json_content_type()
    }

    fn body(&self) -> (r: Vec<u8>) {
        text_body(&self.request.to_json())
    }

    fn parse(&self, body: &[u8]) -> (r: Result<(), core::convert::Infallible>) {
        Ok(())
    }
}

/// `POST /users`: registers a user.
#[derive(Debug, Clone)]
pub struct PostUser {
    request: PostUserRequest,
}

impl PostUser {
    pub closed spec fn spec_request(&self) -> PostUserRequest {
        self.request
    }

    pub fn new(request: PostUserRequest) -> (r: Self)
        ensures
            r.spec_request() == request,
    {
        PostUser { request }
    }
}

impl ApiRequest for PostUser {
    type Response = serde_json::Value;
    type Error = ApiError;

    open spec fn spec_uri(&self) -> Seq<char> {
        "/users"@
    }

    open spec fn spec_method(&self) -> Method {
        Method::Post
    }

    open spec fn spec_content_type(&self) -> Option<Seq<char>> {
        Some("application/json"@)
    }

    open spec fn spec_body(&self) -> Seq<u8> {
        encode_utf8(self.spec_request().spec_json())
    }

    open spec fn accepts(&self, body: Seq<u8>) -> bool {
        json_accepts(body)
    }

    open spec fn parsed(&self, body: Seq<u8>, r: Result<serde_json::Value, ApiError>) -> bool {
        json_parsed(body, r)
    }

    fn uri(&self) -> (r: String) {
        String::from_str("/users")
    }

    fn method(&self) -> (r: Method) {
        Method::Post
    }

    fn content_type(&self) -> (r: Option<String>) {
        json_content_type()
    }

    fn body(&self) -> (r: Vec<u8>) {
        text_body(&self.request.to_json())
    }

    fn parse(&self, body: &[u8]) -> (r: Result<serde_json::Value, ApiError>) {
        parse_json_body(body)
    }
}

/// `POST /users/{id}/tags`: adds a tag to a user.
#[derive(Debug, Clone)]
pub struct PostUserTag {
    id: Uuid,
    request: PostUserTagRequest,
}

impl PostUserTag {
    pub closed spec fn spec_id(&self) -> Uuid {
        self.id
    }

    pub closed spec fn spec_request(&self) -> PostUserTagRequest {
        self.request
    }

    pub fn new(id: Uuid, request: PostUserTagRequest) -> (r: Self)
        ensures
            r.spec_id() == id,
            r.spec_request() == request,
    {
        PostUserTag { id, request }
    }
}

impl ApiRequest for PostUserTag {
    type Response = serde_json::Value;
    type Error = ApiError;

    open spec fn spec_uri(&self) -> Seq<char> {
        user_path(self.spec_id(), "/tags"@)
    }

    open spec fn spec_method(&self) -> Method {
        Method::Post
    }

    open spec fn spec_content_type(&self) -> Option<Seq<char>> {
        Some("application/json"@)
    }

    open spec fn spec_body(&self) -> Seq<u8> {
        encode_utf8(self.spec_request().spec_json())
    }

    open spec fn accepts(&self, body: Seq<u8>) -> bool {
        json_accepts(body)
    }

    open spec fn parsed(&self, body: Seq<u8>, r: Result<serde_json::Value, ApiError>) -> bool {
        json_parsed(body, r)
    }

    fn uri(&self) -> (r: String) {
        user_path_text(&self.id, "/tags")
    }

    fn method(&self) -> (r: Method) {
        Method::Post
    }

    fn content_type(&self) -> (r: Option<String>) {
        json_content_type()
    }

    fn body(&self) -> (r: Vec<u8>) {
        text_body(&self.request.to_json())
    }

    fn parse(&self, body: &[u8]) -> (r: Result<serde_json::Value, ApiError>) {
        parse_json_body(body)
    }
}

/// `PATCH /users/{user_id}/tags/{tag_id}`: locks or unlocks a tag of a user.
#[derive(Debug, Clone)]
pub struct PatchUserTag {
    user_id: Uuid,
    tag_id: Uuid,
    request: PatchUserTagRequest,
}

impl PatchUserTag {
    pub closed spec fn spec_user_id(&self) -> Uuid {
        self.user_id
    }

    pub closed spec fn spec_tag_id(&self) -> Uuid {
        self.tag_id
    }

    pub closed spec fn spec_request(&self) -> PatchUserTagRequest {
        self.request
    }

    pub fn new(user_id: Uuid, tag_id: Uuid, request: PatchUserTagRequest) -> (r: Self)
        ensures
            r.spec_user_id() == user_id,
            r.spec_tag_id() == tag_id,
            r.spec_request() == request,
    {
        PatchUserTag { user_id, tag_id, request }
    }
}

impl ApiRequest for PatchUserTag {
    type Response = ();
    type Error = core::convert::Infallible;

    open spec fn spec_uri(&self) -> Seq<char> {
        user_path(self.spec_user_id(), "/tags/"@) + self.spec_tag_id().spec_text()
    }

    open spec fn spec_method(&self) -> Method {
        Method::Patch
    }

    open spec fn spec_content_type(&self) -> Option<Seq<char>> {
        Some("application/json"@)
    }

    open spec fn spec_body(&self) -> Seq<u8> {
        encode_utf8(self.spec_request().spec_json())
    }

    open spec fn accepts(&self, body: Seq<u8>) -> bool {
        true
    }

    open spec fn parsed(&self, body: Seq<u8>, r: Result<(), core::convert::Infallible>) -> bool {
        r is Ok
    }

    fn uri(&self) -> (r: String) {
        user_path_text(&self.user_id, "/tags/").concat(self.tag_id.hyphenated().as_str())
    }

    fn method(&self) -> (r: Method) {
        Method::Patch
    }

    fn content_type(&self) -> (r: Option<String>) {
        json_content_type()
    }

    fn body(&self) -> (r: Vec<u8>) {
        text_body(&self.request.to_json())
    }

    fn parse(&self, body: &[u8]) -> (r: Result<(), core::convert::Infallible>) {
        Ok(())
    }
}

/// `DELETE /users/{user_id}/tags/{tag_id}`: removes a tag from a user.
#[derive(Debug, Clone, Copy)]
pub struct DeleteUserTag {
    user_id: Uuid,
    tag_id: Uuid,
}

impl DeleteUserTag {
    pub closed spec fn spec_user_id(&self) -> Uuid {
        self.user_id
    }

    pub closed spec fn spec_tag_id(&self) -> Uuid {
        self.tag_id
    }

    pub fn new(user_id: Uuid, tag_id: Uuid) -> (r: Self)
        ensures
            r.spec_user_id() == user_id,
            r.spec_tag_id() == tag_id,
    {
        DeleteUserTag { user_id, tag_id }
    }
}

impl ApiRequest for DeleteUserTag {
    type Response = ();
    type Error = core::convert::Infallible;

    open spec fn spec_uri(&self) -> Seq<char> {
        user_path(self.spec_user_id(), "/tags/"@) + self.spec_tag_id().spec_text()
    }

    open spec fn spec_method(&self) -> Method {
        Method::Delete
    }

    open spec fn spec_content_type(&self) -> Option<Seq<char>> {
        None
    }

    open spec fn spec_body(&self) -> Seq<u8> {
        Seq::empty()
    }

    open spec fn accepts(&self, body: Seq<u8>) -> bool {
        true
    }

    open spec fn parsed(&self, body: Seq<u8>, r: Result<(), core::convert::Infallible>) -> bool {
        r is Ok
    }

    fn uri(&self) -> (r: String) {
        user_path_text(&self.user_id, "/tags/").concat(self.tag_id.hyphenated().as_str())
    }

    fn method(&self) -> (r: Method) {
        Method::Delete
    }

    fn content_type(&self) -> (r: Option<String>) {
        None
    }

    fn body(&self) -> (r: Vec<u8>) {
        empty_body()
    }

    fn parse(&self, body: &[u8]) -> (r: Result<(), core::convert::Infallible>) {
        Ok(())
    }
}

/// `GET /users/{id}/dm-channel`: the channel of direct messages with a user.
#[derive(Debug, Clone, Copy)]
pub struct GetDirectMessageChannel {
    id: Uuid,
}

impl GetDirectMessageChannel {
    pub closed spec fn spec_id(&self) -> Uuid {
        self.id
    }

    pub fn new(id: Uuid) -> (r: Self)
        ensures
            r.spec_id() == id,
    {
        GetDirectMessageChannel { id }
    }
}

impl ApiRequest for GetDirectMessageChannel {
    type Response = serde_json::Value;
    type Error = ApiError;

    open spec fn spec_uri(&self) -> Seq<char> {
        user_path(self.spec_id(), "/dm-channel"@)
    }

    open spec fn spec_method(&self) -> Method {
        Method::Get
    }

    open spec fn spec_content_type(&self) -> Option<Seq<char>> {
        None
    }

    open spec fn spec_body(&self) -> Seq<u8> {
        Seq::empty()
    }

    open spec fn accepts(&self, body: Seq<u8>) -> bool {
        json_accepts(body)
    }

    open spec fn parsed(&self, body: Seq<u8>, r: Result<serde_json::Value, ApiError>) -> bool {
        json_parsed(body, r)
    }

    fn uri(&self) -> (r: String) {
        user_path_text(&self.id, "/dm-channel")
    }

    fn method(&self) -> (r: Method) {
        Method::Get
    }

    fn content_type(&self) -> (r: Option<String>) {
        None
    }

    fn body(&self) -> (r: Vec<u8>) {
        empty_body()
    }

    fn parse(&self, body: &[u8]) -> (r: Result<serde_json::Value, ApiError>) {
        parse_json_body(body)
    }
}

/// Each endpoint of users reads a body one way only, so a 2xx response to
/// it is exactly what its `parse` gives.
pub proof fn lemma_user_endpoints_read_exactly(
    get_users: GetUsers,
    get_user: GetUser,
    get_user_tags: GetUserTags,
    post_direct_message: PostDirectMessage,
    get_direct_messages: GetDirectMessages,
    get_user_stats: GetUserStats,
    post_user: PostUser,
    post_user_tag: PostUserTag,
    get_direct_message_channel: GetDirectMessageChannel,
    get_user_icon: GetUserIcon,
    patch_user: PatchUser,
    put_user_icon: PutUserIcon,
    put_user_password: PutUserPassword,
    patch_user_tag: PatchUserTag,
    delete_user_tag: DeleteUserTag,
)
    ensures
        parse_is_exact(get_users),
        parse_is_exact(get_user),
        parse_is_exact(get_user_tags),
        parse_is_exact(post_direct_message),
        parse_is_exact(get_direct_messages),
        parse_is_exact(get_user_stats),
        parse_is_exact(post_user),
        parse_is_exact(post_user_tag),
        parse_is_exact(get_direct_message_channel),
        parse_is_exact(get_user_icon),
        parse_is_exact(patch_user),
        parse_is_exact(put_user_icon),
        parse_is_exact(put_user_password),
        parse_is_exact(patch_user_tag),
        parse_is_exact(delete_user_tag),
{
    lemma_json_reading_is_exact(get_users);
    lemma_json_reading_is_exact(get_user);
    lemma_json_reading_is_exact(get_user_tags);
    lemma_json_reading_is_exact(post_direct_message);
    lemma_json_reading_is_exact(get_direct_messages);
    lemma_json_reading_is_exact(get_user_stats);
    lemma_json_reading_is_exact(post_user);
    lemma_json_reading_is_exact(post_user_tag);
    lemma_json_reading_is_exact(get_direct_message_channel);
    lemma_icon_reading_is_exact(get_user_icon);
    assert forall|b: Seq<u8>, r1: Result<(), core::convert::Infallible>, r2: Result<(), core::convert::Infallible>|
        patch_user.parsed(b, r1) && patch_user.parsed(b, r2) implies r1 == r2 by {
        assert(r1->Ok_0 == r2->Ok_0);
    }
    assert forall|b: Seq<u8>, r1: Result<(), core::convert::Infallible>, r2: Result<(), core::convert::Infallible>|
        put_user_icon.parsed(b, r1) && put_user_icon.parsed(b, r2) implies r1 == r2 by {
        assert(r1->Ok_0 == r2->Ok_0);
    }
    assert forall|b: Seq<u8>, r1: Result<(), core::convert::Infallible>, r2: Result<(), core::convert::Infallible>|
        put_user_password.parsed(b, r1) && put_user_password.parsed(b, r2) implies r1 == r2 by {
        assert(r1->Ok_0 == r2->Ok_0);
    }
    assert forall|b: Seq<u8>, r1: Result<(), core::convert::Infallible>, r2: Result<(), core::convert::Infallible>|
        patch_user_tag.parsed(b, r1) && patch_user_tag.parsed(b, r2) implies r1 == r2 by {
        assert(r1->Ok_0 == r2->Ok_0);
    }
    assert forall|b: Seq<u8>, r1: Result<(), core::convert::Infallible>, r2: Result<(), core::convert::Infallible>|
        delete_user_tag.parsed(b, r1) && delete_user_tag.parsed(b, r2) implies r1 == r2 by {
        assert(r1->Ok_0 == r2->Ok_0);
    }
}

} // verus!
