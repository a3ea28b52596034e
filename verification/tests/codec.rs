use identity_service::envelope::{
    decode_error, decode_request, decode_response, write_error, write_request, write_response,
};
use identity_service::model::{ErrorBody, Method, Request, Response, Status};
use identity_service::payload::{
    CompareIdentityChangeHistoryRequest, CreateResponse, CreateSignatureRequest,
    CreateSignatureResponse, ValidateIdentityChangeHistoryRequest,
    ValidateIdentityChangeHistoryResponse, VerifySignatureRequest, VerifySignatureResponse,
};
use identity_service::wire::{find, read_record, read_value, DecodeError, Value};

fn request(id: u32, path: &str, method: Option<Method>, has_body: bool) -> Request {
    Request { id, path: path.to_string(), method, has_body }
}

#[test]
fn response_header_has_the_expected_bytes() {
    let mut buf = Vec::new();
    let r = Response { id: 1, re: 2, status: Some(Status::Success), has_body: true };
    write_response(&mut buf, &r);
    assert_eq!(buf, vec![0xa4, 0x01, 0x01, 0x02, 0x02, 0x03, 0x18, 0xc8, 0x04, 0xf5]);
}

#[test]
fn response_without_status_leaves_the_field_out() {
    let mut buf = Vec::new();
    let r = Response { id: 0x1234_5678, re: 300, status: None, has_body: false };
    write_response(&mut buf, &r);
    assert_eq!(
        buf,
        vec![0xa3, 0x01, 0x1a, 0x12, 0x34, 0x56, 0x78, 0x02, 0x19, 0x01, 0x2c, 0x04, 0xf4]
    );
}

#[test]
fn request_header_has_the_expected_bytes() {
    let mut buf = Vec::new();
    write_request(&mut buf, &request(7, "/a", Some(Method::Post), false));
    assert_eq!(buf, vec![0xa4, 0x01, 0x07, 0x02, 0x62, 0x2f, 0x61, 0x03, 0x01, 0x04, 0xf4]);
}

#[test]
fn request_round_trip() {
    let methods = [
        None,
        Some(Method::Get),
        Some(Method::Post),
        Some(Method::Put),
        Some(Method::Delete),
        Some(Method::Patch),
    ];
    let ids = [0u32, 23, 24, 255, 256, 65535, 65536, u32::MAX];
    for m in methods {
        for id in ids {
            for has_body in [false, true] {
                let before = request(id, "/actions/créer", m, has_body);
                let mut buf = Vec::new();
                write_request(&mut buf, &before);
                let (after, pos) = decode_request(&buf).unwrap();
                assert_eq!(pos, buf.len());
                assert_eq!(after.id, before.id);
                assert_eq!(after.path, before.path);
                assert_eq!(after.method, before.method);
                assert_eq!(after.has_body, before.has_body);
            }
        }
    }
}

#[test]
fn response_round_trip() {
    let statuses = [
        None,
        Some(Status::Success),
        Some(Status::BadRequest),
        Some(Status::NotFound),
        Some(Status::InternalServerError),
    ];
    for s in statuses {
        let before = Response { id: 70_000, re: u32::MAX, status: s, has_body: s.is_some() };
        let mut buf = Vec::new();
        write_response(&mut buf, &before);
        let (after, pos) = decode_response(&buf).unwrap();
        assert_eq!(pos, buf.len());
        assert_eq!(after, before);
    }
}

#[test]
fn error_round_trip() {
    for m in [None, Some(Method::Delete)] {
        let before =
            ErrorBody { path: "/x/y".to_string(), method: m, message: "unknown path".to_string() };
        let mut buf = vec![0xff, 0xff];
        write_error(&mut buf, &before);
        let after = decode_error(&buf, 2).unwrap();
        assert_eq!(after.path, before.path);
        assert_eq!(after.method, before.method);
        assert_eq!(after.message, before.message);
    }
}

#[test]
fn body_starts_after_the_header() {
    let mut buf = Vec::new();
    write_request(&mut buf, &request(1, "/", Some(Method::Post), true));
    let header = buf.len();
    buf.extend_from_slice(&[1, 2, 3]);
    let (_, pos) = decode_request(&buf).unwrap();
    assert_eq!(pos, header);
}

#[test]
fn empty_input_is_malformed() {
    assert_eq!(decode_request(&[]).unwrap_err(), DecodeError::Malformed);
    assert_eq!(decode_response(&[]).unwrap_err(), DecodeError::Malformed);
    assert_eq!(decode_error(&[], 0).unwrap_err(), DecodeError::Malformed);
    assert_eq!(decode_error(&[0xa0], 5).unwrap_err(), DecodeError::Malformed);
}

#[test]
fn truncated_header_is_malformed() {
    let mut buf = Vec::new();
    write_request(&mut buf, &request(7, "/abc", Some(Method::Get), false));
    for cut in 0..buf.len() {
        assert_eq!(decode_request(&buf[..cut]).unwrap_err(), DecodeError::Malformed);
    }
}

#[test]
fn indefinite_map_is_malformed() {
    assert_eq!(decode_request(&[0xbf, 0xff]).unwrap_err(), DecodeError::Malformed);
}

#[test]
fn a_key_that_is_no_number_is_malformed() {
    // {"a": 1}
    assert_eq!(decode_request(&[0xa1, 0x61, 0x61, 0x01]).unwrap_err(), DecodeError::Malformed);
}

#[test]
fn missing_field_is_reported() {
    // {1: 7}
    assert_eq!(decode_request(&[0xa1, 0x01, 0x07]).unwrap_err(), DecodeError::MissingField);
    // {}
    assert_eq!(decode_request(&[0xa0]).unwrap_err(), DecodeError::MissingField);
}

#[test]
fn wrong_type_is_reported() {
    // {1: "a"}
    assert_eq!(decode_request(&[0xa1, 0x01, 0x61, 0x61]).unwrap_err(), DecodeError::WrongType);
    // {1: 2^32}
    assert_eq!(
        decode_request(&[0xa1, 0x01, 0x1b, 0, 0, 0, 1, 0, 0, 0, 0]).unwrap_err(),
        DecodeError::WrongType
    );
    // {1: 7, 2: "/", 3: 9, 4: false}: no method has the number 9
    assert_eq!(
        decode_request(&[0xa4, 0x01, 0x07, 0x02, 0x61, 0x2f, 0x03, 0x09, 0x04, 0xf4]).unwrap_err(),
        DecodeError::WrongType
    );
}

#[test]
fn unknown_status_is_a_wrong_type() {
    // {1: 1, 2: 2, 3: 201, 4: true}
    assert_eq!(
        decode_response(&[0xa4, 0x01, 0x01, 0x02, 0x02, 0x03, 0x18, 0xc9, 0x04, 0xf5]).unwrap_err(),
        DecodeError::WrongType
    );
}

#[test]
fn null_method_is_no_method() {
    // {1: 7, 2: "/", 3: null, 4: true}
    let (r, _) =
        decode_request(&[0xa4, 0x01, 0x07, 0x02, 0x61, 0x2f, 0x03, 0xf6, 0x04, 0xf5]).unwrap();
    assert_eq!(r.method, None);
    assert!(r.has_body);
    assert_eq!(r.path, "/");
}

#[test]
fn unknown_fields_are_passed_over() {
    // {0: [1, [2, 3]], 1: 7, 2: "/", 4: false, 9: {1: 2}}
    let bytes = [
        0xa5, 0x00, 0x82, 0x01, 0x82, 0x02, 0x03, 0x01, 0x07, 0x02, 0x61, 0x2f, 0x04, 0xf4, 0x09,
        0xa1, 0x01, 0x02,
    ];
    let (r, pos) = decode_request(&bytes).unwrap();
    assert_eq!(r.id, 7);
    assert_eq!(r.method, None);
    assert_eq!(pos, bytes.len());
}

#[test]
fn the_last_entry_of_a_field_decides() {
    // {1: 7, 1: 8, 2: "/", 4: false}
    let (r, _) = decode_request(&[0xa4, 0x01, 0x07, 0x01, 0x08, 0x02, 0x61, 0x2f, 0x04, 0xf4])
        .unwrap();
    assert_eq!(r.id, 8);
}

#[test]
fn wide_forms_of_numbers_are_read() {
    // {1: 7 in two bytes, 2: "/", 4: false, with the key 4 in three bytes}
    let (r, _) =
        decode_request(&[0xa3, 0x01, 0x18, 0x07, 0x02, 0x61, 0x2f, 0x19, 0x00, 0x04, 0xf4])
            .unwrap();
    assert_eq!(r.id, 7);
    assert!(!r.has_body);
}

#[test]
fn values_are_told_apart() {
    assert!(matches!(read_value(&[0x17], 0), Some((Value::Uint(23), 1))));
    assert!(matches!(read_value(&[0x19, 0x01, 0x00], 0), Some((Value::Uint(256), 3))));
    assert!(matches!(read_value(&[0xf5], 0), Some((Value::Bool(true), 1))));
    assert!(matches!(read_value(&[0xf4], 0), Some((Value::Bool(false), 1))));
    assert!(matches!(read_value(&[0xf6], 0), Some((Value::Null, 1))));
    assert!(matches!(read_value(&[0x80], 0), Some((Value::Other, 1))));
    assert!(matches!(read_value(&[0x20], 0), Some((Value::Other, 1))));
    assert!(read_value(&[0x19, 0x01], 0).is_none());
    assert!(read_value(&[0x17], 1).is_none());
    assert!(read_value(&[0x17], usize::MAX).is_none());
    match read_value(&[0, 0x62, 0x68, 0x69, 0], 1) {
        Some((Value::Text(s), 4)) => assert_eq!(s, "hi"),
        _ => panic!("text expected"),
    }
    match read_value(&[0x43, 1, 2, 3], 0) {
        Some((Value::Bytes(b), 4)) => assert_eq!(b, vec![1, 2, 3]),
        _ => panic!("bytes expected"),
    }
    // a text string that runs past the end of the input
    assert!(read_value(&[0x63, 0x68, 0x69], 0).is_none());
}

#[test]
fn records_keep_the_order_of_the_wire() {
    let (entries, pos) = read_record(&[0xa2, 0x05, 0xf5, 0x03, 0x0a], 0).unwrap();
    assert_eq!(pos, 5);
    assert_eq!(entries.len(), 2);
    assert_eq!(entries[0].key, 5);
    assert_eq!(entries[1].key, 3);
    assert!(matches!(find(&entries, 3), Some(Value::Uint(10))));
    assert!(matches!(find(&entries, 5), Some(Value::Bool(true))));
    assert!(find(&entries, 4).is_none());
    assert!(read_record(&[0xa2, 0x05, 0xf5, 0x03], 0).is_none());
    assert!(read_record(&[0x80], 0).is_none());
}

#[test]
fn create_response_round_trip() {
    let before = CreateResponse { identity: vec![9; 300], identifier: "P123".to_string() };
    let mut buf = Vec::new();
    before.encode(&mut buf);
    assert_eq!(&buf[..6], &[0xa2, 0x01, 0x59, 0x01, 0x2c, 9]);
    let after = CreateResponse::decode(&buf, 0).unwrap();
    assert_eq!(after.identity, before.identity);
    assert_eq!(after.identifier, before.identifier);
}

#[test]
fn validate_round_trip() {
    let before = ValidateIdentityChangeHistoryRequest { identity: vec![1, 2, 3] };
    let mut buf = Vec::new();
    before.encode(&mut buf);
    assert_eq!(buf, vec![0xa1, 0x01, 0x43, 1, 2, 3]);
    assert_eq!(ValidateIdentityChangeHistoryRequest::decode(&buf, 0).unwrap().identity, vec![
        1, 2, 3
    ]);
    let reply = ValidateIdentityChangeHistoryResponse { identifier: "Pabc".to_string() };
    let mut buf = Vec::new();
    reply.encode(&mut buf);
    assert_eq!(buf, vec![0xa1, 0x01, 0x64, 0x50, 0x61, 0x62, 0x63]);
    assert_eq!(ValidateIdentityChangeHistoryResponse::decode(&buf, 0).unwrap().identifier, "Pabc");
}

#[test]
fn create_signature_round_trip() {
    for name in [None, Some("".to_string()), Some("v1".to_string())] {
        let before =
            CreateSignatureRequest { identity: vec![1], data: vec![], vault_name: name.clone() };
        let mut buf = Vec::new();
        before.encode(&mut buf);
        let after = CreateSignatureRequest::decode(&buf, 0).unwrap();
        assert_eq!(after.identity, vec![1]);
        assert_eq!(after.data, Vec::<u8>::new());
        assert_eq!(after.vault_name, name);
    }
    let reply = CreateSignatureResponse { signature: vec![5, 6] };
    let mut buf = Vec::new();
    reply.encode(&mut buf);
    assert_eq!(CreateSignatureResponse::decode(&buf, 0).unwrap().signature, vec![5, 6]);
}

#[test]
fn an_absent_vault_name_differs_from_an_empty_one() {
    let absent = CreateSignatureRequest { identity: vec![], data: vec![], vault_name: None };
    let empty =
        CreateSignatureRequest { identity: vec![], data: vec![], vault_name: Some(String::new()) };
    let mut a = Vec::new();
    let mut b = Vec::new();
    absent.encode(&mut a);
    empty.encode(&mut b);
    assert_eq!(a, vec![0xa2, 0x01, 0x40, 0x02, 0x40]);
    assert_eq!(b, vec![0xa3, 0x01, 0x40, 0x02, 0x40, 0x03, 0x60]);
}

#[test]
fn verify_signature_round_trip() {
    let before =
        VerifySignatureRequest { signer_identity: vec![1], data: vec![2, 2], signature: vec![3] };
    let mut buf = Vec::new();
    before.encode(&mut buf);
    let after = VerifySignatureRequest::decode(&buf, 0).unwrap();
    assert_eq!(after.signer_identity, vec![1]);
    assert_eq!(after.data, vec![2, 2]);
    assert_eq!(after.signature, vec![3]);
    for v in [false, true] {
        let mut buf = Vec::new();
        VerifySignatureResponse { verified: v }.encode(&mut buf);
        assert_eq!(buf, vec![0xa1, 0x01, if v { 0xf5 } else { 0xf4 }]);
        assert_eq!(VerifySignatureResponse::decode(&buf, 0).unwrap().verified, v);
    }
}

#[test]
fn compare_request_round_trip() {
    let before =
        CompareIdentityChangeHistoryRequest { current_identity: vec![1, 2], known_identity: vec![] };
    let mut buf = Vec::new();
    before.encode(&mut buf);
    let after = CompareIdentityChangeHistoryRequest::decode(&buf, 0).unwrap();
    assert_eq!(after.current_identity, vec![1, 2]);
    assert!(after.known_identity.is_empty());
}

#[test]
fn payload_errors() {
    assert_eq!(
        ValidateIdentityChangeHistoryRequest::decode(&[], 0).unwrap_err(),
        DecodeError::Malformed
    );
    assert_eq!(
        ValidateIdentityChangeHistoryRequest::decode(&[0xa0], 0).unwrap_err(),
        DecodeError::MissingField
    );
    assert_eq!(
        ValidateIdentityChangeHistoryRequest::decode(&[0xa1, 0x01, 0x01], 0).unwrap_err(),
        DecodeError::WrongType
    );
    assert_eq!(DecodeError::Malformed.message(), "malformed record");
    assert_eq!(DecodeError::MissingField.message(), "missing field");
    assert_eq!(DecodeError::WrongType.message(), "unexpected type");
}

#[test]
fn library_reads_what_the_codec_crate_writes() {
    let mut buf = Vec::new();
    let mut e = minicbor::Encoder::new(&mut buf);
    e.map(4).unwrap();
    e.u8(1).unwrap().u32(99).unwrap();
    e.u8(2).unwrap().str("/actions/verify_signature").unwrap();
    e.u8(3).unwrap().u8(1).unwrap();
    e.u8(4).unwrap().bool(true).unwrap();
    let (r, pos) = decode_request(&buf).unwrap();
    assert_eq!(pos, buf.len());
    assert_eq!(r.id, 99);
    assert_eq!(r.path, "/actions/verify_signature");
    assert_eq!(r.method, Some(Method::Post));
    assert!(r.has_body);
}

#[test]
fn numbers_of_methods_and_statuses() {
    assert_eq!(Method::Get.index(), 0);
    assert_eq!(Method::Post.index(), 1);
    assert_eq!(Method::Put.index(), 2);
    assert_eq!(Method::Delete.index(), 3);
    assert_eq!(Method::Patch.index(), 4);
    assert_eq!(Method::from_index(5), None);
    for m in [Method::Get, Method::Post, Method::Put, Method::Delete, Method::Patch] {
        assert_eq!(Method::from_index(m.index()), Some(m));
    }
    assert_eq!(Status::Success.code(), 200);
    assert_eq!(Status::BadRequest.code(), 400);
    assert_eq!(Status::NotFound.code(), 404);
    assert_eq!(Status::InternalServerError.code(), 500);
    assert_eq!(Status::from_code(0), None);
    for s in
        [Status::Success, Status::BadRequest, Status::NotFound, Status::InternalServerError]
    {
        assert_eq!(Status::from_code(s.code()), Some(s));
    }
}
