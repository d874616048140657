use hyper_traq::apis::me::{GetMe, GetMyQrCode};
use hyper_traq::apis::users::{GetUsers, PatchUser, PostDirectMessage};
use hyper_traq::apis::{is_success, ApiError, ApiRequest, Method, RequestError};
use hyper_traq::client::DEFAULT_BASE_PATH;
use hyper_traq::models::{PatchUserRequest, PostMessageRequest};
use hyper_traq::{Authorization, Client, ClientBuilder, Uuid};

#[test]
fn bad_status_keeps_status_and_exact_body() {
    let body = b"{\"message\":\"not found\"}".to_vec();
    let r = Client::handle_response(&GetMe::new(), 404, body.clone());
    match r {
        Err(RequestError::BadStatus(status, bytes)) => {
            assert_eq!(status, 404);
            assert_eq!(bytes, body);
        }
        _ => panic!("expected a bad-status error"),
    }
}

#[test]
fn bad_status_with_non_json_body() {
    let body = vec![0xff, 0x00, 0x7b];
    for status in [100u16, 199, 300, 401, 500, 503] {
        let r = Client::handle_response(&GetUsers::new(false, None), status, body.clone());
        match r {
            Err(RequestError::BadStatus(s, bytes)) => {
                assert_eq!(s, status);
                assert_eq!(bytes, body);
            }
            _ => panic!("expected a bad-status error"),
        }
    }
}

#[test]
fn bad_status_is_not_read_even_when_no_content_expected() {
    let req = PatchUser::new(
        Uuid::from_u128(1),
        PatchUserRequest { display_name: None, twitter_id: None, role: None, state: None },
    );
    let r = Client::handle_response(&req, 403, b"forbidden".to_vec());
    assert!(matches!(r, Err(RequestError::BadStatus(403, _))));
}

#[test]
fn success_with_non_json_body_is_decode_error() {
    let r = Client::handle_response(&GetMe::new(), 200, b"<html>oops</html>".to_vec());
    assert!(matches!(r, Err(RequestError::Custom(ApiError::Serde(_)))));
    let r = Client::handle_response(&GetMe::new(), 200, Vec::new());
    assert!(matches!(r, Err(RequestError::Custom(ApiError::Serde(_)))));
}

#[test]
fn success_with_invalid_utf8_is_decode_error() {
    let r = Client::handle_response(&GetMe::new(), 200, vec![b'"', 0xc3, 0x28, b'"']);
    assert!(matches!(r, Err(RequestError::Custom(ApiError::Utf8(_)))));
}

#[test]
fn success_with_json_body_is_value() {
    let body = b"[{\"id\":\"x\",\"bot\":false}]".to_vec();
    let r = Client::handle_response(&GetUsers::new(false, None), 204, body);
    let value = r.unwrap();
    assert!(value.is_array());
    assert_eq!(value[0]["bot"], serde_json::Value::Bool(false));
}

#[test]
fn success_of_no_content_endpoint() {
    let req = PatchUser::new(
        Uuid::from_u128(1),
        PatchUserRequest { display_name: None, twitter_id: None, role: None, state: None },
    );
    assert!(Client::handle_response(&req, 204, Vec::new()).is_ok());
}

#[test]
fn success_with_qr_token_text() {
    let req = GetMyQrCode::new().token(true);
    let r = Client::handle_response(&req, 200, b"abc123".to_vec()).unwrap();
    assert_eq!(r.text(), Some("abc123".to_string()));
}

#[test]
fn success_range_bounds() {
    assert!(!is_success(199));
    assert!(is_success(200));
    assert!(is_success(250));
    assert!(is_success(299));
    assert!(!is_success(300));
    assert!(!is_success(0));
    assert!(!is_success(u16::MAX));
}

#[test]
fn wire_request_of_json_post_with_bearer() {
    let client = ClientBuilder::new()
        .base_path("https://example.com/api")
        .authorization_bearer("SECRET-REDACTED")
        .build();
    let req = PostDirectMessage::new(
        Uuid::from_u128(0x0123456789abcdef0123456789abcdef),
        PostMessageRequest { content: "hi".to_string(), embed: true },
    );
    let wire = client.build_request(&req);
    assert_eq!(wire.method, Method::Post);
    assert_eq!(wire.method.as_str(), "POST");
    assert_eq!(
        wire.uri,
        "https://example.com/api/users/01234567-89ab-cdef-0123-456789abcdef/messages"
    );
    assert_eq!(wire.authorization, Some("Bearer SECRET-REDACTED".to_string()));
    assert_eq!(wire.content_type, Some("application/json".to_string()));
    assert_eq!(wire.body, b"{\"content\":\"hi\",\"embed\":true}".to_vec());
}

#[test]
fn wire_request_without_credentials() {
    let client = Client::builder().build();
    let wire = client.build_request(&GetUsers::new(true, None));
    assert_eq!(wire.uri, format!("{}/users?include-suspended=true", DEFAULT_BASE_PATH));
    assert_eq!(wire.authorization, None);
    assert_eq!(wire.content_type, None);
    assert!(wire.body.is_empty());
    assert_eq!(wire.method.as_str(), "GET");
}

#[test]
fn builder_defaults_and_overrides() {
    let client = Client::default();
    assert_eq!(client.base_path, "https://q.trap.jp/api/v3");
    assert!(matches!(client.authorization, Authorization::Anonymous));

    let client = ClientBuilder::new().build();
    assert_eq!(client.base_path, DEFAULT_BASE_PATH);
    assert!(matches!(client.authorization, Authorization::Anonymous));

    let client = ClientBuilder::new()
        .authorization(Authorization::Bearer("t".to_string()))
        .base_path("http://localhost:3000/api/v3")
        .build();
    assert_eq!(client.base_path, "http://localhost:3000/api/v3");
    assert_eq!(client.authorization.header(), Some("Bearer t".to_string()));

    let client = ClientBuilder::new()
        .authorization_bearer("t")
        .authorization(Authorization::Anonymous)
        .build();
    assert_eq!(client.authorization.header(), None);
}

#[test]
fn method_names() {
    assert_eq!(Method::Get.as_str(), "GET");
    assert_eq!(Method::Post.as_str(), "POST");
    assert_eq!(Method::Put.as_str(), "PUT");
    assert_eq!(Method::Patch.as_str(), "PATCH");
    assert_eq!(Method::Delete.as_str(), "DELETE");
}
