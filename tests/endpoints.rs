use hyper_traq::apis::me::{GetMe, GetMyQrCode, GetMyStampHistory};
use hyper_traq::apis::users::{
    DeleteUserTag, GetDirectMessageChannel, GetDirectMessages, GetUser, GetUserIcon,
    GetUserStats, GetUserTags, GetUsers, PatchUser, PatchUserTag, PostDirectMessage, PostUser,
    PostUserTag, PutUserIcon, PutUserPassword,
};
use hyper_traq::apis::{ApiRequest, Method};
use hyper_traq::models::{
    PatchUserRequest, PatchUserTagRequest, PostMessageRequest, PostUserRequest,
    PostUserTagRequest, PutUserPasswordRequest, QrCode, UserAccountState,
};
use hyper_traq::Uuid;

const USER: u128 = 0xa1a2a3a4_b1b2_c1c2_d1d2_d3d4d5d6d7d8;
const USER_TEXT: &str = "a1a2a3a4-b1b2-c1c2-d1d2-d3d4d5d6d7d8";
const TAG: u128 = 0x0000_0001_0002_0003_0004_000000000005;
const TAG_TEXT: &str = "00000001-0002-0003-0004-000000000005";

fn user() -> Uuid {
    Uuid::from_u128(USER)
}

#[test]
fn get_users_uri_without_name() {
    let req = GetUsers::new(false, None);
    assert_eq!(req.uri(), "/users?include-suspended=false");
}

#[test]
fn get_users_uri_with_name() {
    let req = GetUsers::new(true, Some("alice".to_string()));
    assert_eq!(req.uri(), "/users?include-suspended=true&name=alice");
    assert_eq!(req.method(), Method::Get);
    assert_eq!(req.content_type(), None);
    assert!(req.body().is_empty());
}

#[test]
fn qr_code_token_uri_and_text() {
    let req = GetMyQrCode::new().token(true);
    assert_eq!(req.uri(), "/users/me/qr-code?token=true");
    let parsed = req.parse(b"abc123").unwrap();
    assert_eq!(parsed.text(), Some("abc123".to_string()));
}

#[test]
fn qr_code_image_uri() {
    let req = GetMyQrCode::new();
    assert_eq!(req.uri(), "/users/me/qr-code");
    assert_eq!(req.accept(), Some("image/png".to_string()));
    assert_eq!(GetMyQrCode::new().token(true).accept(), Some("text/plain".to_string()));
}

#[test]
fn qr_code_token_rejects_invalid_utf8() {
    let req = GetMyQrCode::new().token(true);
    let r = req.parse(&[0x61, 0xff, 0x62]);
    assert!(matches!(r, Err(hyper_traq::apis::ApiError::Utf8(_))));
}

#[test]
fn qr_code_image_rejects_garbage() {
    let req = GetMyQrCode::new();
    let r = req.parse(b"abc123");
    assert!(matches!(r, Err(hyper_traq::apis::ApiError::Image(_))));
}

#[test]
fn direct_messages_limit_uri() {
    let req = GetDirectMessages::new(user()).set_limit(1);
    assert_eq!(req.uri(), format!("/users/{}/messages?limit=1", USER_TEXT));
}

#[test]
fn direct_messages_without_options_has_no_query() {
    let req = GetDirectMessages::new(user());
    assert_eq!(req.uri(), format!("/users/{}/messages", USER_TEXT));
}

#[test]
fn direct_messages_options_in_fixed_order() {
    let req = GetDirectMessages::new(user())
        .set_order("desc")
        .set_inclusive(true)
        .set_until("2020-02-01T00:00:00Z")
        .set_since("2020-01-01T00:00:00Z")
        .set_offset(20)
        .set_limit(4294967295);
    assert_eq!(
        req.uri(),
        format!(
            "/users/{}/messages?limit=4294967295&offset=20&since=2020-01-01T00:00:00Z&until=2020-02-01T00:00:00Z&inclusive=true&order=desc",
            USER_TEXT
        )
    );
}

#[test]
fn direct_messages_some_options() {
    let req = GetDirectMessages::new(user()).set_inclusive(false).set_offset(0);
    assert_eq!(
        req.uri(),
        format!("/users/{}/messages?offset=0&inclusive=false", USER_TEXT)
    );
}

#[test]
fn stamp_history_uri() {
    assert_eq!(GetMyStampHistory::new().uri(), "/users/me/stamp-history");
    assert_eq!(
        GetMyStampHistory::new().limit(50).uri(),
        "/users/me/stamp-history?limit=50"
    );
    assert_eq!(
        GetMyStampHistory::new().limit(-7).uri(),
        "/users/me/stamp-history?limit=-7"
    );
    assert_eq!(
        GetMyStampHistory::new().limit(i64::MIN).uri(),
        "/users/me/stamp-history?limit=-9223372036854775808"
    );
    assert_eq!(
        GetMyStampHistory::new().limit(i64::MAX).uri(),
        "/users/me/stamp-history?limit=9223372036854775807"
    );
}

#[test]
fn me_uri() {
    assert_eq!(GetMe::new().uri(), "/users/me");
    assert_eq!(GetMe::new().method(), Method::Get);
    assert_eq!(GetMe::new().accept(), Some("application/json".to_string()));
}

#[test]
fn user_paths() {
    let id = user();
    assert_eq!(GetUser::new(id).uri(), format!("/users/{}", USER_TEXT));
    assert_eq!(GetUserTags::new(id).uri(), format!("/users/{}/tags", USER_TEXT));
    assert_eq!(GetUserStats::new(id).uri(), format!("/users/{}/stats", USER_TEXT));
    assert_eq!(GetUserIcon::new(id).uri(), format!("/users/{}/icon", USER_TEXT));
    assert_eq!(
        GetDirectMessageChannel::new(id).uri(),
        format!("/users/{}/dm-channel", USER_TEXT)
    );
}

#[test]
fn user_tag_paths() {
    let del = DeleteUserTag::new(user(), Uuid::from_u128(TAG));
    assert_eq!(del.uri(), format!("/users/{}/tags/{}", USER_TEXT, TAG_TEXT));
    assert_eq!(del.method(), Method::Delete);
    assert!(del.body().is_empty());
    let patch = PatchUserTag::new(
        user(),
        Uuid::from_u128(TAG),
        PatchUserTagRequest { is_locked: true },
    );
    assert_eq!(patch.uri(), format!("/users/{}/tags/{}", USER_TEXT, TAG_TEXT));
    assert_eq!(patch.method(), Method::Patch);
    assert_eq!(patch.body(), b"{\"isLocked\":true}".to_vec());
}

#[test]
fn post_direct_message_body() {
    let req = PostDirectMessage::new(
        user(),
        PostMessageRequest { content: "test".to_string(), embed: false },
    );
    assert_eq!(req.uri(), format!("/users/{}/messages", USER_TEXT));
    assert_eq!(req.method(), Method::Post);
    assert_eq!(req.body(), b"{\"content\":\"test\",\"embed\":false}".to_vec());
    assert_eq!(req.content_type(), Some("application/json".to_string()));
}

#[test]
fn json_bodies_escape_strings() {
    let req = PostUserTag::new(user(), PostUserTagRequest { tag: "a\"b\\c\n".to_string() });
    assert_eq!(req.body(), b"{\"tag\":\"a\\\"b\\\\c\\n\"}".to_vec());
    let req = PostUser::new(PostUserRequest {
        name: "bob".to_string(),
        password: "p\u{e9}".to_string(),
    });
    assert_eq!(req.uri(), "/users");
    assert_eq!(req.method(), Method::Post);
    assert_eq!(req.body(), "{\"name\":\"bob\",\"password\":\"p\u{e9}\"}".as_bytes().to_vec());
    let req = PutUserPassword::new(user(), PutUserPasswordRequest { password: "x".to_string() });
    assert_eq!(req.uri(), format!("/users/{}/password", USER_TEXT));
    assert_eq!(req.method(), Method::Put);
    assert_eq!(req.body(), b"{\"password\":\"x\"}".to_vec());
}

#[test]
fn patch_user_body_writes_absent_fields_as_null() {
    let req = PatchUser::new(
        user(),
        PatchUserRequest { display_name: None, twitter_id: None, role: None, state: None },
    );
    assert_eq!(req.uri(), format!("/users/{}", USER_TEXT));
    assert_eq!(
        req.body(),
        b"{\"displayName\":null,\"twitterId\":null,\"role\":null,\"state\":null}".to_vec()
    );
    let req = PatchUser::new(
        user(),
        PatchUserRequest {
            display_name: Some("Bob".to_string()),
            twitter_id: Some("".to_string()),
            role: None,
            state: Some(UserAccountState::Suspended),
        },
    );
    assert_eq!(
        req.body(),
        b"{\"displayName\":\"Bob\",\"twitterId\":\"\",\"role\":null,\"state\":2}".to_vec()
    );
}

#[test]
fn account_state_codes_round_trip() {
    for state in [
        UserAccountState::Deactivated,
        UserAccountState::Active,
        UserAccountState::Suspended,
    ] {
        assert_eq!(UserAccountState::from_code(state.code()), Some(state));
    }
    assert_eq!(UserAccountState::Deactivated.code(), 0);
    assert_eq!(UserAccountState::Active.code(), 1);
    assert_eq!(UserAccountState::Suspended.code(), 2);
    assert_eq!(UserAccountState::from_code(3), None);
    assert_eq!(UserAccountState::from_code(255), None);
}

#[test]
fn icon_round_trip_through_png() {
    let img = image::DynamicImage::new_rgb8(3, 2);
    let put = PutUserIcon::new(user(), img).unwrap();
    assert_eq!(put.uri(), format!("/users/{}/icon", USER_TEXT));
    assert_eq!(put.method(), Method::Put);
    assert_eq!(put.content_type(), Some("image/png".to_string()));
    let body = put.body();
    assert_eq!(&body[..8], b"\x89PNG\r\n\x1a\n");
    let decoded = GetUserIcon::new(user()).parse(&body).unwrap();
    assert_eq!(decoded.width(), 3);
    assert_eq!(decoded.height(), 2);
    let qr = GetMyQrCode::new().parse(&body).unwrap();
    assert!(matches!(qr, QrCode::Image(_)));
}

#[test]
fn unsupported_icon_is_an_error() {
    let img = image::DynamicImage::new_rgb32f(1, 1);
    let r = PutUserIcon::new(user(), img);
    assert!(matches!(r, Err(hyper_traq::apis::ApiError::Image(_))));
}

#[test]
fn no_content_endpoints_accept_any_body() {
    let req = DeleteUserTag::new(user(), Uuid::from_u128(TAG));
    assert!(req.parse(b"not json at all \xff").is_ok());
}

// Query values are written as given, without percent-encoding, as the API's
// existing clients do; a name holding `&` or a space lands in the query as is.
#[test]
fn get_users_name_is_written_as_given() {
    let req = GetUsers::new(false, Some("a b&c".to_string()));
    assert_eq!(req.uri(), "/users?include-suspended=false&name=a b&c");
}

#[test]
fn json_bodies_escape_control_characters() {
    let req = PostUserTag::new(
        user(),
        PostUserTagRequest { tag: "\u{1}\u{8}\t\n\u{c}\r\u{1f}\u{7f}/\u{e9}".to_string() },
    );
    assert_eq!(
        req.body(),
        "{\"tag\":\"\\u0001\\b\\t\\n\\f\\r\\u001f\u{7f}/\u{e9}\"}".as_bytes().to_vec()
    );
}

#[test]
fn gif_icon_decodes() {
    let img = image::DynamicImage::new_rgba8(2, 5);
    let mut buf = std::io::Cursor::new(Vec::new());
    img.write_to(&mut buf, image::ImageFormat::Gif).unwrap();
    let decoded = GetUserIcon::new(user()).parse(buf.get_ref()).unwrap();
    assert_eq!(decoded.width(), 2);
    assert_eq!(decoded.height(), 5);
}

#[test]
fn formats_other_than_png_and_gif_are_unsupported() {
    let jpeg_start = b"\xff\xd8\xff\xe0\x00\x10JFIF\x00\x01\x01\x00\x00\x01\x00\x01\x00\x00";
    let r = GetUserIcon::new(user()).parse(jpeg_start);
    assert!(matches!(
        r,
        Err(hyper_traq::apis::ApiError::Image(image::ImageError::Unsupported(_)))
    ));
}
