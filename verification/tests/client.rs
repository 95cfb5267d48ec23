use swampbot::client::{
    interpret_reply, link_url, status_is_service_error, status_is_success, sync_request, Method,
    SyncEndpoint, SyncOutcome, SyncReply, UnreadableRejection,
};
use swampbot::models::{RoleErrorResponse, RoleSuccessResponse};

fn endpoint() -> SyncEndpoint {
    SyncEndpoint { base: "https://app.swamphacks.com".to_string(), credential: "s3cr3t".to_string() }
}

fn roles(ids: &[&str]) -> Result<RoleSuccessResponse, String> {
    Ok(RoleSuccessResponse { roles: ids.iter().map(|id| id.to_string()).collect() })
}

fn rejection(message: &str) -> Result<RoleErrorResponse, String> {
    Ok(RoleErrorResponse { error: message.to_string() })
}

fn unread<T>(detail: &str) -> Result<T, String> {
    Err(detail.to_string())
}

#[test]
fn the_request_names_the_user_and_carries_the_credential() {
    let request = sync_request(&endpoint(), 123456789012345678);
    assert_eq!(request.method, Method::Get);
    assert_eq!(request.url, "https://app.swamphacks.com/api/discord/123456789012345678/sync");
    assert_eq!(request.authorization, Some("Bot s3cr3t".to_string()));
}

#[test]
fn the_request_goes_to_whatever_base_is_configured() {
    let local = SyncEndpoint { base: "http://localhost:3000".to_string(), credential: String::new() };
    let request = sync_request(&local, 0);
    assert_eq!(request.url, "http://localhost:3000/api/discord/0/sync");
    assert_eq!(request.authorization, Some("Bot ".to_string()));
}

#[test]
fn the_link_page_names_the_user() {
    assert_eq!(
        link_url(&endpoint(), 42),
        "https://app.swamphacks.com/hacker/link/discord?snowflake=42"
    );
}

#[test]
fn status_classes_have_sharp_edges() {
    for status in [200u16, 201, 204, 299] {
        assert!(status_is_success(status));
        assert!(!status_is_service_error(status));
    }
    for status in [500u16, 502, 503, 599] {
        assert!(status_is_service_error(status));
        assert!(!status_is_success(status));
    }
    for status in [0u16, 100, 199, 300, 304, 400, 404, 499, 600, 999, u16::MAX] {
        assert!(!status_is_success(status));
        assert!(!status_is_service_error(status));
    }
}

#[test]
fn success_with_roles_is_success() {
    let reply = SyncReply { status: 200, roles: roles(&["111", "222"]), error: unread("missing field `error`") };
    assert_eq!(
        interpret_reply(reply),
        Ok(SyncOutcome::Success { role_ids: vec!["111".to_string(), "222".to_string()] })
    );
}

#[test]
fn success_with_no_roles_is_success() {
    let reply = SyncReply { status: 200, roles: roles(&[]), error: unread("missing field `error`") };
    assert_eq!(interpret_reply(reply), Ok(SyncOutcome::Success { role_ids: Vec::new() }));
}

#[test]
fn success_with_a_body_that_holds_no_roles_is_an_other_error() {
    let reply = SyncReply {
        status: 200,
        roles: unread("missing field `roles` at line 1 column 2"),
        error: unread("missing field `error` at line 1 column 2"),
    };
    assert_eq!(
        interpret_reply(reply),
        Ok(SyncOutcome::OtherError { message: "missing field `roles` at line 1 column 2".to_string() })
    );
}

#[test]
fn a_service_error_is_one_whatever_the_body() {
    let bare = SyncReply { status: 500, roles: unread("EOF"), error: unread("EOF") };
    assert_eq!(interpret_reply(bare), Ok(SyncOutcome::ServiceError));
    let with_roles = SyncReply { status: 500, roles: roles(&["111"]), error: unread("x") };
    assert_eq!(interpret_reply(with_roles), Ok(SyncOutcome::ServiceError));
    let with_reason = SyncReply { status: 503, roles: unread("x"), error: rejection("down") };
    assert_eq!(interpret_reply(with_reason), Ok(SyncOutcome::ServiceError));
}

#[test]
fn a_rejection_carries_the_reason_of_the_service() {
    let reply = SyncReply { status: 404, roles: unread("missing field `roles`"), error: rejection("user not linked") };
    assert_eq!(interpret_reply(reply), Ok(SyncOutcome::OtherError { message: "user not linked".to_string() }));
}

#[test]
fn a_rejection_ignores_roles_in_its_body() {
    let reply = SyncReply { status: 403, roles: roles(&["111"]), error: rejection("forbidden") };
    assert_eq!(interpret_reply(reply), Ok(SyncOutcome::OtherError { message: "forbidden".to_string() }));
}

#[test]
fn a_rejection_that_cannot_be_read_is_a_failure() {
    let reply = SyncReply { status: 404, roles: unread("no roles"), error: unread("expected value at line 1 column 1") };
    assert_eq!(
        interpret_reply(reply),
        Err(UnreadableRejection { detail: "expected value at line 1 column 1".to_string() })
    );
}

#[test]
fn a_redirect_is_read_as_a_rejection() {
    let reply = SyncReply { status: 302, roles: roles(&["111"]), error: unread("no reason") };
    assert_eq!(interpret_reply(reply), Err(UnreadableRejection { detail: "no reason".to_string() }));
}
