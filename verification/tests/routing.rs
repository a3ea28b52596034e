use identity_service::model::Method;
use identity_service::route::{identity_name, route, Operation, Refusal, Route};

#[test]
fn a_request_without_method_is_refused() {
    assert_eq!(route(None, "/", true), Route::Refused(Refusal::EmptyMethod));
    assert_eq!(route(None, "/actions/create_signature", false), Route::Refused(Refusal::EmptyMethod));
    assert_eq!(Refusal::EmptyMethod.message(), "empty method");
}

#[test]
fn put_patch_and_delete_are_unknown_methods() {
    for m in [Method::Put, Method::Patch, Method::Delete] {
        for path in ["/", "/name", "/actions/create_signature", "", "/a/b/c"] {
            for has_body in [false, true] {
                assert_eq!(route(Some(m), path, has_body), Route::Refused(Refusal::UnknownMethod));
            }
        }
    }
    assert_eq!(Refusal::UnknownMethod.message(), "unknown method");
}

#[test]
fn get_shows_a_named_identity() {
    assert_eq!(route(Some(Method::Get), "/alice", false), Route::To(Operation::Show));
    assert_eq!(route(Some(Method::Get), "alice", true), Route::To(Operation::Show));
    assert_eq!(route(Some(Method::Get), "/", false), Route::To(Operation::Show));
    assert_eq!(identity_name("/alice"), "alice");
    assert_eq!(identity_name("///alice"), "alice");
    assert_eq!(identity_name("alice"), "alice");
    assert_eq!(identity_name("/"), "");
}

#[test]
fn get_with_two_segments_is_an_unknown_path() {
    assert_eq!(route(Some(Method::Get), "/a/b", false), Route::Refused(Refusal::UnknownPath));
    assert_eq!(route(Some(Method::Get), "/a/", false), Route::Refused(Refusal::UnknownPath));
    assert_eq!(
        route(Some(Method::Get), "/actions/create_signature", true),
        Route::Refused(Refusal::UnknownPath)
    );
    assert_eq!(Refusal::UnknownPath.message(), "unknown path");
}

#[test]
fn post_on_the_root_creates() {
    assert_eq!(route(Some(Method::Post), "/", false), Route::To(Operation::Create));
    assert_eq!(route(Some(Method::Post), "/", true), Route::To(Operation::Create));
    assert_eq!(route(Some(Method::Post), "", false), Route::To(Operation::Create));
    assert_eq!(route(Some(Method::Post), "//", false), Route::To(Operation::Create));
}

#[test]
fn post_on_an_action_runs_it() {
    let actions = [
        ("/actions/validate_identity_change_history", Operation::Validate),
        ("/actions/create_signature", Operation::Sign),
        ("/actions/verify_signature", Operation::Verify),
        ("/actions/compare_identity_change_history", Operation::Compare),
    ];
    for (path, op) in actions {
        assert_eq!(route(Some(Method::Post), path, true), Route::To(op));
        assert_eq!(route(Some(Method::Post), &path[1..], true), Route::To(op));
    }
}

#[test]
fn an_action_without_body_is_refused() {
    for path in [
        "/actions/validate_identity_change_history",
        "/actions/create_signature",
        "/actions/verify_signature",
        "/actions/compare_identity_change_history",
    ] {
        assert_eq!(route(Some(Method::Post), path, false), Route::Refused(Refusal::EmptyBody));
    }
    assert_eq!(Refusal::EmptyBody.message(), "empty body");
}

#[test]
fn post_elsewhere_is_an_unknown_path() {
    for path in [
        "/alice",
        "/actions",
        "/actions/",
        "/actions/unknown",
        "/actions/create_signature/",
        "/actions/create_signature/x",
        "/Actions/create_signature",
        "/actions//create_signature",
    ] {
        for has_body in [false, true] {
            assert_eq!(route(Some(Method::Post), path, has_body), Route::Refused(Refusal::UnknownPath));
        }
    }
}
