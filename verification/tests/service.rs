use identity_service::envelope::{decode_error, decode_response, write_request};
use identity_service::history::ChangeHistory;
use identity_service::model::{ErrorBody, Method, Request, Response, Status};
use identity_service::payload::{
    CompareIdentityChangeHistoryRequest, CreateResponse, CreateSignatureRequest,
    CreateSignatureResponse, ValidateIdentityChangeHistoryRequest,
    ValidateIdentityChangeHistoryResponse, VerifySignatureRequest, VerifySignatureResponse,
};
use identity_service::route::Refusal;
use identity_service::service::{
    finish, handle_request, ok_response, on_request, response_for_bad_request,
    response_with_error, Action, Outcome, Step,
};
use identity_service::wire::{read_value, Value};

fn header(id: u32, path: &str, method: Option<Method>, has_body: bool) -> Vec<u8> {
    let mut buf = Vec::new();
    write_request(&mut buf, &Request { id, path: path.to_string(), method, has_body });
    buf
}

fn failure_of(bytes: &[u8]) -> (Response, ErrorBody) {
    let (response, pos) = decode_response(bytes).unwrap();
    let error = decode_error(bytes, pos).unwrap();
    (response, error)
}

fn reply_of(step: Step) -> Vec<u8> {
    match step {
        Step::Reply(bytes) => bytes,
        Step::Perform(..) => panic!("an answer was expected"),
    }
}

fn action_of(step: Step) -> (Request, Action) {
    match step {
        Step::Perform(request, action) => (request, action),
        Step::Reply(_) => panic!("work was expected"),
    }
}

fn history(changes: &[&[u8]]) -> ChangeHistory {
    let mut h = ChangeHistory::new();
    for c in changes {
        h.push(c.to_vec());
    }
    h
}

#[test]
fn malformed_bytes_get_a_bad_request_with_a_made_up_id() {
    let inputs: [&[u8]; 6] =
        [&[], &[0xff], &[0x00], &[0xa1, 0x01], &[0xbf, 0xff], &[0xa1, 0x01, 0x07]];
    for data in inputs {
        let bytes = reply_of(on_request(data, 11, 22));
        let (response, error) = failure_of(&bytes);
        assert_eq!(
            response,
            Response { id: 11, re: 22, status: Some(Status::BadRequest), has_body: true }
        );
        assert_eq!(error.path, "");
        assert_eq!(error.method, None);
        assert_eq!(error.message, "invalid Request structure");
    }
}

#[test]
fn no_byte_string_up_to_two_bytes_breaks_the_service() {
    for a in 0..=255u8 {
        let bytes = reply_of(on_request(&[a], 1, 2));
        assert_eq!(failure_of(&bytes).0.status, Some(Status::BadRequest));
        for b in 0..=255u8 {
            let bytes = reply_of(on_request(&[a, b], 1, 2));
            let (response, error) = failure_of(&bytes);
            assert_eq!(response.status, Some(Status::BadRequest));
            assert_eq!(response.re, 2);
            assert_eq!(error.message, "invalid Request structure");
        }
    }
}

#[test]
fn refusals_name_path_method_and_reason() {
    let cases = [
        (None, "/", true, "empty method"),
        (Some(Method::Put), "/", true, "unknown method"),
        (Some(Method::Patch), "/alice", false, "unknown method"),
        (Some(Method::Delete), "/actions/create_signature", true, "unknown method"),
        (Some(Method::Get), "/a/b", false, "unknown path"),
        (Some(Method::Post), "/nowhere", true, "unknown path"),
        (Some(Method::Post), "/actions/create_signature", false, "empty body"),
        (Some(Method::Post), "/actions/verify_signature", false, "empty body"),
        (Some(Method::Post), "/actions/validate_identity_change_history", false, "empty body"),
        (Some(Method::Post), "/actions/compare_identity_change_history", false, "empty body"),
    ];
    for (method, path, has_body, message) in cases {
        let data = header(5, path, method, has_body);
        let bytes = reply_of(on_request(&data, 77, 0));
        let (response, error) = failure_of(&bytes);
        assert_eq!(
            response,
            Response { id: 77, re: 5, status: Some(Status::BadRequest), has_body: true }
        );
        assert_eq!(error.path, path);
        assert_eq!(error.method, method);
        assert_eq!(error.message, message);
    }
}

#[test]
fn get_asks_for_the_named_identity() {
    let data = header(5, "/alice", Some(Method::Get), false);
    let (request, action) = action_of(on_request(&data, 1, 2));
    assert_eq!(request.id, 5);
    assert_eq!(request.path, "/alice");
    match action {
        Action::Show { name } => assert_eq!(name, "alice"),
        _ => panic!("a lookup was expected"),
    }
}

#[test]
fn a_stored_identity_is_returned_as_it_was_stored() {
    let data = header(5, "/alice", Some(Method::Get), false);
    let (request, _) = action_of(on_request(&data, 1, 2));
    let stored = CreateResponse { identity: vec![1, 2, 3, 4], identifier: "Pabcdef".to_string() };
    let bytes = finish(&request, &Outcome::Identity(stored.clone()), 9);
    let (response, pos) = decode_response(&bytes).unwrap();
    assert_eq!(response, Response { id: 9, re: 5, status: Some(Status::Success), has_body: true });
    let body = CreateResponse::decode(&bytes, pos).unwrap();
    assert_eq!(body.identity, stored.identity);
    assert_eq!(body.identifier, stored.identifier);
}

#[test]
fn an_unregistered_name_fails() {
    let data = header(5, "/nobody", Some(Method::Get), false);
    let (request, _) = action_of(on_request(&data, 1, 2));
    let bytes = finish(&request, &Outcome::Failed("not found".to_string()), 9);
    let (response, error) = failure_of(&bytes);
    assert_eq!(
        response,
        Response { id: 9, re: 5, status: Some(Status::InternalServerError), has_body: true }
    );
    assert_eq!(error.path, "/nobody");
    assert_eq!(error.method, None);
    assert_eq!(error.message, "not found");
}

#[test]
fn post_on_the_root_asks_for_a_new_identity() {
    let data = header(5, "/", Some(Method::Post), false);
    let (_, action) = action_of(on_request(&data, 1, 2));
    assert!(matches!(action, Action::Create));
}

#[test]
fn validate_reads_its_body() {
    let mut data = header(5, "/actions/validate_identity_change_history", Some(Method::Post), true);
    ValidateIdentityChangeHistoryRequest { identity: vec![4, 5] }.encode(&mut data);
    let (request, action) = action_of(on_request(&data, 1, 2));
    match action {
        Action::Validate { identity } => assert_eq!(identity, vec![4, 5]),
        _ => panic!("a validation was expected"),
    }
    let bytes = finish(&request, &Outcome::Identifier("Pxyz".to_string()), 3);
    let (response, pos) = decode_response(&bytes).unwrap();
    assert_eq!(response.status, Some(Status::Success));
    assert_eq!(response.re, 5);
    assert_eq!(
        ValidateIdentityChangeHistoryResponse::decode(&bytes, pos).unwrap().identifier,
        "Pxyz"
    );
}

#[test]
fn create_signature_reads_its_body() {
    for name in [None, Some("other".to_string())] {
        let mut data = header(5, "/actions/create_signature", Some(Method::Post), true);
        CreateSignatureRequest { identity: vec![1], data: vec![2, 3], vault_name: name.clone() }
            .encode(&mut data);
        let (request, action) = action_of(on_request(&data, 1, 2));
        match action {
            Action::Sign { identity, data, vault_name } => {
                assert_eq!(identity, vec![1]);
                assert_eq!(data, vec![2, 3]);
                assert_eq!(vault_name, name);
            }
            _ => panic!("a signature was expected"),
        }
        let bytes = finish(&request, &Outcome::Signature(vec![7; 64]), 3);
        let (response, pos) = decode_response(&bytes).unwrap();
        assert_eq!(response.status, Some(Status::Success));
        assert_eq!(CreateSignatureResponse::decode(&bytes, pos).unwrap().signature, vec![7; 64]);
    }
}

#[test]
fn verify_signature_reads_its_body() {
    let mut data = header(5, "/actions/verify_signature", Some(Method::Post), true);
    VerifySignatureRequest { signer_identity: vec![1], data: vec![2], signature: vec![3] }
        .encode(&mut data);
    let (request, action) = action_of(on_request(&data, 1, 2));
    match action {
        Action::Verify { signer_identity, data, signature } => {
            assert_eq!(signer_identity, vec![1]);
            assert_eq!(data, vec![2]);
            assert_eq!(signature, vec![3]);
        }
        _ => panic!("a verification was expected"),
    }
    for verified in [false, true] {
        let bytes = finish(&request, &Outcome::Verified(verified), 3);
        let (response, pos) = decode_response(&bytes).unwrap();
        assert_eq!(response.status, Some(Status::Success));
        assert_eq!(VerifySignatureResponse::decode(&bytes, pos).unwrap().verified, verified);
    }
}

#[test]
fn an_empty_known_identity_is_not_imported() {
    let mut data = header(5, "/actions/compare_identity_change_history", Some(Method::Post), true);
    CompareIdentityChangeHistoryRequest { current_identity: vec![1], known_identity: vec![] }
        .encode(&mut data);
    let (_, action) = action_of(on_request(&data, 1, 2));
    match action {
        Action::Compare { current_identity, known_identity } => {
            assert_eq!(current_identity, vec![1]);
            assert_eq!(known_identity, None);
        }
        _ => panic!("a comparison was expected"),
    }
    let mut data = header(5, "/actions/compare_identity_change_history", Some(Method::Post), true);
    CompareIdentityChangeHistoryRequest { current_identity: vec![1], known_identity: vec![2] }
        .encode(&mut data);
    let (_, action) = action_of(on_request(&data, 1, 2));
    assert!(matches!(action, Action::Compare { known_identity: Some(_), .. }));
}

#[test]
fn comparisons_are_answered_by_their_number() {
    let request = Request {
        id: 5,
        path: "/actions/compare_identity_change_history".to_string(),
        method: Some(Method::Post),
        has_body: true,
    };
    let cases = [
        (history(&[b"a"]), None, 2u64),
        (history(&[]), None, 2),
        (history(&[b"a", b"b"]), Some(history(&[b"a", b"b"])), 0),
        (history(&[b"a", b"b"]), Some(history(&[b"a", b"c"])), 1),
        (history(&[b"a", b"b"]), Some(history(&[b"a"])), 2),
        (history(&[b"a"]), Some(history(&[b"a", b"b"])), 3),
    ];
    for (current, known, number) in cases {
        let bytes = finish(&request, &Outcome::Histories { current, known }, 3);
        let (response, pos) = decode_response(&bytes).unwrap();
        assert_eq!(
            response,
            Response { id: 3, re: 5, status: Some(Status::Success), has_body: true }
        );
        match read_value(&bytes, pos) {
            Some((Value::Uint(n), end)) => {
                assert_eq!(n, number);
                assert_eq!(end, bytes.len());
            }
            _ => panic!("a number was expected"),
        }
    }
}

#[test]
fn a_body_that_cannot_be_read_is_an_internal_error() {
    let cases: [(&[u8], &str); 3] = [
        (&[], "malformed record"),
        (&[0xa0], "missing field"),
        (&[0xa1, 0x01, 0x01], "unexpected type"),
    ];
    for (body, message) in cases {
        let mut data = header(5, "/actions/create_signature", Some(Method::Post), true);
        data.extend_from_slice(body);
        let bytes = reply_of(on_request(&data, 8, 2));
        let (response, error) = failure_of(&bytes);
        assert_eq!(
            response,
            Response { id: 8, re: 5, status: Some(Status::InternalServerError), has_body: true }
        );
        assert_eq!(error.path, "/actions/create_signature");
        assert_eq!(error.method, None);
        assert_eq!(error.message, message);
    }
}

#[test]
fn a_failure_carries_its_reason() {
    let request = Request {
        id: 5,
        path: "/actions/create_signature".to_string(),
        method: Some(Method::Post),
        has_body: true,
    };
    let bytes = finish(&request, &Outcome::Failed("vault 'v9' not found".to_string()), 3);
    let (response, error) = failure_of(&bytes);
    assert_eq!(response.status, Some(Status::InternalServerError));
    assert_eq!(response.re, 5);
    assert_eq!(error.message, "vault 'v9' not found");
    assert_eq!(error.path, "/actions/create_signature");
}

#[test]
fn the_parts_agree_with_the_whole() {
    let request =
        Request { id: 5, path: "/x/y".to_string(), method: Some(Method::Get), has_body: false };
    let data = header(5, "/x/y", Some(Method::Get), false);
    let whole = reply_of(on_request(&data, 4, 0));
    assert_eq!(whole, response_for_bad_request(&request, Refusal::UnknownPath, 4));
    assert_eq!(whole, reply_of(handle_request(request.clone(), &data, data.len(), 4)));
    let with = response_with_error(Some(&request), Status::NotFound, "gone", 4, 6);
    let (response, error) = failure_of(&with);
    assert_eq!(response, Response { id: 4, re: 5, status: Some(Status::NotFound), has_body: true });
    assert_eq!(error.path, "/x/y");
    assert_eq!(error.method, None);
    assert_eq!(error.message, "gone");
    let without = response_with_error(None, Status::BadRequest, "bad", 4, 6);
    let (response, error) = failure_of(&without);
    assert_eq!(response.re, 6);
    assert_eq!(error.path, "");
    assert_eq!(error.message, "bad");
    let ok = ok_response(&request, &Outcome::Verified(true), 4);
    assert_eq!(ok, finish(&request, &Outcome::Verified(true), 4));
}

#[test]
fn an_answer_has_the_expected_bytes() {
    let request =
        Request { id: 5, path: "/".to_string(), method: Some(Method::Post), has_body: false };
    let bytes = finish(&request, &Outcome::Verified(true), 1);
    assert_eq!(
        bytes,
        vec![0xa4, 0x01, 0x01, 0x02, 0x05, 0x03, 0x18, 0xc8, 0x04, 0xf5, 0xa1, 0x01, 0xf5]
    );
}
