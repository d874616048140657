use vstd::prelude::*;
use vstd::string::*;

use crate::codec::{json_string, json_string_literal};
use crate::text::{bool_str, bool_text, decimal, u64_text};

verus! {

/// A QR code for signing in: the image, or the token it encodes.
#[derive(Debug)]
pub enum QrCode {
    Image(image::DynamicImage),
    Text(String),
}

impl QrCode {
    /// The image, when this is one.
    pub fn image(self) -> (r: Option<image::DynamicImage>)
        ensures
            r == match self {
                QrCode::Image(img) => Some(img),
                QrCode::Text(_) => None,
            },
    {
        match self {
            QrCode::Image(image) => Some(image),
            QrCode::Text(_) => None,
        }
    }

    /// The token text, when this is one.
    pub fn text(self) -> (r: Option<String>)
        ensures
            r.deep_view() == match self {
                QrCode::Text(t) => Some(t@),
                QrCode::Image(_) => None,
            },
    {
        match self {
            QrCode::Image(_) => None,
            QrCode::Text(text) => Some(text),
        }
    }
}

/// The state of an account. On the wire it is its numeric code.
#[derive(Debug, Clone, Copy, PartialEq, Eq, Hash)]
pub enum UserAccountState {
    Deactivated,
    Active,
    Suspended,
}

impl UserAccountState {
    pub open spec fn spec_code(&self) -> u8 {
        match self {
            UserAccountState::Deactivated => 0,
            UserAccountState::Active => 1,
            UserAccountState::Suspended => 2,
        }
    }

    pub open spec fn spec_from_code(code: u8) -> Option<UserAccountState> {
        if code == 0 {
            Some(UserAccountState::Deactivated)
        } else if code == 1 {
            Some(UserAccountState::Active)
        } else if code == 2 {
            Some(UserAccountState::Suspended)
        } else {
            None
        }
    }

    /// The numeric code: deactivated 0, active 1, suspended 2.
    pub fn code(&self) -> (r: u8)
        ensures
            r == self.spec_code(),
    {
        match self {
            UserAccountState::Deactivated => 0,
            UserAccountState::Active => 1,
            UserAccountState::Suspended => 2,
        }
    }

    /// The state with the numeric code, if any.
    pub fn from_code(code: u8) -> (r: Option<UserAccountState>)
        ensures
            r == Self::spec_from_code(code),
    {
        if code == 0 {
            Some(UserAccountState::Deactivated)
        } else if code == 1 {
            Some(UserAccountState::Active)
        } else if code == 2 {
            Some(UserAccountState::Suspended)
        } else {
            None
        }
    }
}

/// An account state is read back unchanged from its numeric code, and a code
/// that reads as a state is that state's code: the state travels by number.
pub proof fn lemma_account_state_code_round_trip(state: UserAccountState, code: u8)
    ensures
        UserAccountState::spec_from_code(state.spec_code()) == Some(state),
        UserAccountState::spec_from_code(code) is Some ==> UserAccountState::spec_from_code(
            code,
        )->Some_0.spec_code() == code,
        UserAccountState::spec_from_code(code) is None <==> code > 2,
{
}

/// A JSON string literal, or `null` when absent.
pub open spec fn json_opt_string(value: Option<Seq<char>>) -> Seq<char> {
    match value {
        Some(s) => json_string_literal(s),
        None => "null"@,
    }
}

/// A state's numeric code, or `null` when absent.
pub open spec fn json_opt_state(value: Option<UserAccountState>) -> Seq<char> {
    match value {
        Some(s) => decimal(s.spec_code() as nat),
        None => "null"@,
    }
}

fn opt_string_json(value: &Option<String>) -> (r: String)
    ensures
        r@ == json_opt_string(value.deep_view()),
{
    match value {
        Some(s) => json_string(s.as_str()),
        None => String::from_str("null"),
    }
}

fn opt_state_json(value: &Option<UserAccountState>) -> (r: String)
    ensures
        r@ == json_opt_state(*value),
{
    match value {
        Some(s) => u64_text(s.code() as u64),
        None => String::from_str("null"),
    }
}

/// Changes to a user's profile; absent fields are sent as `null`.
#[derive(Debug, Clone, PartialEq, Eq)]
pub struct PatchUserRequest {
    pub display_name: Option<String>,
    pub twitter_id: Option<String>,
    pub role: Option<String>,
    pub state: Option<UserAccountState>,
}

impl PatchUserRequest {
    pub open spec fn spec_json(&self) -> Seq<char> {
        "{\"displayName\":"@ + json_opt_string(self.display_name.deep_view()) + ",\"twitterId\":"@
            + json_opt_string(self.twitter_id.deep_view()) + ",\"role\":"@ + json_opt_string(
            self.role.deep_view(),
        ) + ",\"state\":"@ + json_opt_state(self.state) + "}"@
    }

    /// The JSON object sent as the body, with camelCase keys.
    pub fn to_json(&self) -> (r: String)
        ensures
            r@ == self.spec_json(),
    {
        let r = String::from_str("{\"displayName\":");
        let r = r.concat(opt_string_json(&self.display_name).as_str());
        let r = r.concat(",\"twitterId\":");
        let r = r.concat(opt_string_json(&self.twitter_id).as_str());
        let r = r.concat(",\"role\":");
        let r = r.concat(opt_string_json(&self.role).as_str());
        let r = r.concat(",\"state\":");
        let r = r.concat(opt_state_json(&self.state).as_str());
        r.concat("}")
    }
}

/// A message to post.
#[derive(Debug, Clone, PartialEq, Eq)]
pub struct PostMessageRequest {
    pub content: String,
    pub embed: bool,
}

impl PostMessageRequest {
    pub open spec fn spec_json(&self) -> Seq<char> {
        "{\"content\":"@ + json_string_literal(self.content@) + ",\"embed\":"@ + bool_text(
            self.embed,
        ) + "}"@
    }

    /// The JSON object sent as the body, with camelCase keys.
    pub fn to_json(&self) -> (r: String)
        ensures
            r@ == self.spec_json(),
    {
        let r = String::from_str("{\"content\":");
        let r = r.concat(json_string(self.content.as_str()).as_str());
        let r = r.concat(",\"embed\":");
        let r = r.concat(bool_str(self.embed));
        r.concat("}")
    }
}

/// A new password.
#[derive(Debug, Clone, PartialEq, Eq)]
pub struct PutUserPasswordRequest {
    pub password: String,
}

impl PutUserPasswordRequest {
    pub open spec fn spec_json(&self) -> Seq<char> {
        "{\"password\":"@ + json_string_literal(self.password@) + "}"@
    }

    /// The JSON object sent as the body.
    pub fn to_json(&self) -> (r: String)
        ensures
            r@ == self.spec_json(),
    {
        let r = String::from_str("{\"password\":");
        let r = r.concat(json_string(self.password.as_str()).as_str());
        r.concat("}")
    }
}

/// A user to register.
#[derive(Debug, Clone, PartialEq, Eq)]
pub struct PostUserRequest {
    pub name: String,
    pub password: String,
}

impl PostUserRequest {
    pub open spec fn spec_json(&self) -> Seq<char> {
        "{\"name\":"@ + json_string_literal(self.name@) + ",\"password\":"@ + json_string_literal(
            self.password@,
        ) + "}"@
    }

    /// The JSON object sent as the body.
    pub fn to_json(&self) -> (r: String)
        ensures
            r@ == self.spec_json(),
    {
        let r = String::from_str("{\"name\":");
        let r = r.concat(json_string(self.name.as_str()).as_str());
        let r = r.concat(",\"password\":");
        let r = r.concat(json_string(self.password.as_str()).as_str());
        r.concat("}")
    }
}

/// A tag to add to a user.
#[derive(Debug, Clone, PartialEq, Eq)]
pub struct PostUserTagRequest {
    pub tag: String,
}

impl PostUserTagRequest {
    pub open spec fn spec_json(&self) -> Seq<char> {
        "{\"tag\":"@ + json_string_literal(self.tag@) + "}"@
    }

    /// The JSON object sent as the body.
    pub fn to_json(&self) -> (r: String)
        ensures
            r@ == self.spec_json(),
    {
        let r = String::from_str("{\"tag\":");
        let r = r.concat(json_string(self.tag.as_str()).as_str());
        r.concat("}")
    }
}

/// Whether a user's tag is locked.
#[derive(Debug, Clone, Copy, PartialEq, Eq)]
pub struct PatchUserTagRequest {
    pub is_locked: bool,
}

impl PatchUserTagRequest {
    pub open spec fn spec_json(&self) -> Seq<char> {
        "{\"isLocked\":"@ + bool_text(self.is_locked) + "}"@
    }

    /// The JSON object sent as the body, with camelCase keys.
    pub fn to_json(&self) -> (r: String)
        ensures
            r@ == self.spec_json(),
    {
        let r = String::from_str("{\"isLocked\":");
        let r = r.concat(bool_str(self.is_locked));
        r.concat("}")
    }
}

} // verus!
