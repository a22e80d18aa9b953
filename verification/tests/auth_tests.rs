use subscription_service::auth::{extract_token, resolve_identity, verify_and_get_user, IdentityReply};
use subscription_service::model::{ResponseBody, Uid, UserResponse};

fn error_body(body: &ResponseBody) -> (&str, &str) {
    match body {
        ResponseBody::Error(e) => (e.message.as_str(), e.status.as_str()),
        _ => panic!("expected an error body"),
    }
}

#[test]
fn missing_header_gives_400() {
    let resp = extract_token(None).unwrap_err();
    assert_eq!(resp.status, 400);
    let (message, status) = error_body(&resp.body);
    assert_eq!(message, "Failed to parse Authorization header");
    assert_eq!(status, "400");
}

#[test]
fn unreadable_header_gives_400() {
    let resp = extract_token(Some(vec![0x74, 0x01, 0x6b])).unwrap_err();
    assert_eq!(resp.status, 400);
    let resp2 = extract_token(Some(vec![0xff])).unwrap_err();
    assert_eq!(resp2.status, 400);
}

#[test]
fn readable_header_yields_the_token() {
    let token = extract_token(Some(b"Bearer abc-123".to_vec())).unwrap();
    assert_eq!(token, b"Bearer abc-123".to_vec());
}

#[test]
fn empty_header_is_a_readable_token() {
    let token = extract_token(Some(Vec::new())).unwrap();
    assert!(token.is_empty());
}

#[test]
fn success_reply_yields_identity() {
    let r = resolve_identity(IdentityReply::Success(UserResponse { id: Uid(7) })).unwrap();
    assert_eq!(r.id, Uid(7));
}

#[test]
fn rejection_reply_carries_upstream_detail() {
    let resp = resolve_identity(IdentityReply::Rejected { detail: "token expired".to_string() })
        .unwrap_err();
    assert_eq!(resp.status, 500);
    let (message, status) = error_body(&resp.body);
    assert_eq!(message, "token expired");
    assert_eq!(status, "400");
}

#[test]
fn unavailable_reply_gives_502() {
    let resp = resolve_identity(IdentityReply::Unavailable).unwrap_err();
    assert_eq!(resp.status, 502);
    let (message, status) = error_body(&resp.body);
    assert_eq!(message, "Identity service unavailable");
    assert_eq!(status, "502");
}

#[test]
fn verification_without_header_ignores_the_reply() {
    let resp = verify_and_get_user(None, IdentityReply::Success(UserResponse { id: Uid(7) }))
        .unwrap_err();
    assert_eq!(resp.status, 400);
}

#[test]
fn verification_with_token_follows_the_reply() {
    let ok = verify_and_get_user(
        Some(b"tok".to_vec()),
        IdentityReply::Success(UserResponse { id: Uid(9) }),
    )
    .unwrap();
    assert_eq!(ok.id, Uid(9));

    let err = verify_and_get_user(
        Some(b"tok".to_vec()),
        IdentityReply::Rejected { detail: "nope".to_string() },
    )
    .unwrap_err();
    assert_eq!(err.status, 500);
    let (message, _) = error_body(&err.body);
    assert_eq!(message, "nope");
}
