//! The envelope on the wire: request header, response header, error body.
//!
//! A request header is the record `{1: id, 2: path, 3: method, 4: has_body}`,
//! a response header `{1: id, 2: re, 3: status, 4: has_body}`, an error body
//! `{1: path, 2: method, 3: message}`. A method or status that is absent is
//! left out of the record.

use crate::cbor::{
    bool_item, map_head, put_bool, put_map, put_text, put_uint, text_item, uint_item,
};
use crate::model::{
    method_index, method_of_index, status_code, status_of_code, ErrorBody, ErrorBodyView, Method,
    Request, RequestView, Response, Status,
};
use crate::wire::{
    bool_field, optional_uint_field, read_record, record_at, take_bool, take_optional_uint,
    take_text, take_uint, text_field, uint_field, DecodeError, ValueView,
};
use vstd::prelude::*;

verus! {

/// The request header that a record holds.
pub open spec fn request_of(fields: Seq<(u64, ValueView)>) -> Result<RequestView, DecodeError> {
    match (
        uint_field(fields, 1),
        text_field(fields, 2),
        optional_uint_field(fields, 3),
        bool_field(fields, 4),
    ) {
        (Err(e), _, _, _) => Err(e),
        (Ok(id), _, _, _) if id > u32::MAX => Err(DecodeError::WrongType),
        (_, Err(e), _, _) => Err(e),
        (_, _, Err(e), _) => Err(e),
        (_, _, Ok(Some(m)), _) if method_of_index(m).is_none() => Err(DecodeError::WrongType),
        (_, _, _, Err(e)) => Err(e),
        (Ok(id), Ok(path), Ok(m), Ok(has_body)) => Ok(
            RequestView {
                id: id as u32,
                path,
                method: match m {
                    Some(i) => method_of_index(i),
                    None => None,
                },
                has_body,
            },
        ),
    }
}

/// The request header at the start of `bytes`, and the position at which the
/// body starts.
pub open spec fn request_at(bytes: Seq<u8>) -> Result<(RequestView, int), DecodeError> {
    match record_at(bytes, 0) {
        None => Err(DecodeError::Malformed),
        Some((fields, p)) => match request_of(fields) {
            Ok(request) => Ok((request, p)),
            Err(e) => Err(e),
        },
    }
}

/// The response header that a record holds.
pub open spec fn response_of(fields: Seq<(u64, ValueView)>) -> Result<Response, DecodeError> {
    match (
        uint_field(fields, 1),
        uint_field(fields, 2),
        optional_uint_field(fields, 3),
        bool_field(fields, 4),
    ) {
        (Err(e), _, _, _) => Err(e),
        (Ok(id), _, _, _) if id > u32::MAX => Err(DecodeError::WrongType),
        (_, Err(e), _, _) => Err(e),
        (_, Ok(re), _, _) if re > u32::MAX => Err(DecodeError::WrongType),
        (_, _, Err(e), _) => Err(e),
        (_, _, Ok(Some(s)), _) if status_of_code(s).is_none() => Err(DecodeError::WrongType),
        (_, _, _, Err(e)) => Err(e),
        (Ok(id), Ok(re), Ok(s), Ok(has_body)) => Ok(
            Response {
                id: id as u32,
                re: re as u32,
                status: match s {
                    Some(c) => status_of_code(c),
                    None => None,
                },
                has_body,
            },
        ),
    }
}

/// The response header at the start of `bytes`, and the position at which
/// the body starts.
pub open spec fn response_at(bytes: Seq<u8>) -> Result<(Response, int), DecodeError> {
    match record_at(bytes, 0) {
        None => Err(DecodeError::Malformed),
        Some((fields, p)) => match response_of(fields) {
            Ok(response) => Ok((response, p)),
            Err(e) => Err(e),
        },
    }
}

/// The error body that a record holds.
pub open spec fn error_of(fields: Seq<(u64, ValueView)>) -> Result<ErrorBodyView, DecodeError> {
    match (text_field(fields, 1), optional_uint_field(fields, 2), text_field(fields, 3)) {
        (Err(e), _, _) => Err(e),
        (_, Err(e), _) => Err(e),
        (_, Ok(Some(m)), _) if method_of_index(m).is_none() => Err(DecodeError::WrongType),
        (_, _, Err(e)) => Err(e),
        (Ok(path), Ok(m), Ok(message)) => Ok(
            ErrorBodyView {
                path,
                method: match m {
                    Some(i) => method_of_index(i),
                    None => None,
                },
                message,
            },
        ),
    }
}

/// The error body at `pos`.
pub open spec fn error_at(bytes: Seq<u8>, pos: int) -> Result<ErrorBodyView, DecodeError> {
    match record_at(bytes, pos) {
        None => Err(DecodeError::Malformed),
        Some((fields, _)) => error_of(fields),
    }
}

/// A method as a field of a record, under the number `key`; nothing where
/// there is no method.
pub open spec fn method_entry(key: u64, method: Option<Method>) -> Seq<u8> {
    match method {
        Some(m) => uint_item(key) + uint_item(method_index(m)),
        None => Seq::empty(),
    }
}

/// The number of entries of a record of `fixed` fields and one that may be
/// left out.
pub open spec fn entry_count(fixed: u64, present: bool) -> u64 {
    if present {
        (fixed + 1) as u64
    } else {
        fixed
    }
}

/// A request header on the wire.
pub open spec fn request_bytes(r: RequestView) -> Seq<u8> {
    map_head(entry_count(3, r.method.is_some())) + uint_item(1) + uint_item(r.id as u64)
        + uint_item(2) + text_item(r.path) + method_entry(3, r.method) + uint_item(4) + bool_item(
        r.has_body,
    )
}

/// A response header on the wire.
pub open spec fn response_bytes(r: Response) -> Seq<u8> {
    map_head(entry_count(3, r.status.is_some())) + uint_item(1) + uint_item(r.id as u64)
        + uint_item(2) + uint_item(r.re as u64) + (match r.status {
        Some(s) => uint_item(3) + uint_item(status_code(s)),
        None => Seq::empty(),
    }) + uint_item(4) + bool_item(r.has_body)
}

/// An error body on the wire.
pub open spec fn error_bytes(e: ErrorBodyView) -> Seq<u8> {
    map_head(entry_count(2, e.method.is_some())) + uint_item(1) + text_item(e.path)
        + method_entry(2, e.method) + uint_item(3) + text_item(e.message)
}

/// The method that an optional number stands for.
fn method_from(index: Option<u64>) -> (r: Result<Option<Method>, DecodeError>)
    ensures
        r == (match index {
            Some(i) => if method_of_index(i).is_none() {
                Err::<Option<Method>, DecodeError>(DecodeError::WrongType)
            } else {
                Ok(method_of_index(i))
            },
            None => Ok(None),
        }),
{
    match index {
        None => Ok(None),
        Some(i) => match Method::from_index(i) {
            Some(m) => Ok(Some(m)),
            None => Err(DecodeError::WrongType),
        },
    }
}

/// Reads the request header at the start of `data`. On success the second
/// part of the result is the position at which the body starts.
pub fn decode_request(data: &[u8]) -> (r: Result<(Request, usize), DecodeError>)
    ensures
        match r {
            Ok((request, p)) => request_at(data@) == Ok::<(RequestView, int), DecodeError>(
                (request@, p as int),
            ),
            Err(e) => request_at(data@) == Err::<(RequestView, int), DecodeError>(e),
        },
{
    let (fields, p): (Vec<crate::wire::Entry>, usize) = match read_record(data, 0) {
        Some(x) => x,
        None => {
            return Err(DecodeError::Malformed);
        },
    };
    let id: u64 = match take_uint(&fields, 1) {
        Ok(v) => v,
        Err(e) => {
            return Err(e);
        },
    };
    if id > 0xffff_ffff {
        return Err(DecodeError::WrongType);
    }
    let path: String = match take_text(&fields, 2) {
        Ok(v) => v,
        Err(e) => {
            return Err(e);
        },
    };
    let index: Option<u64> = match take_optional_uint(&fields, 3) {
        Ok(v) => v,
        Err(e) => {
            return Err(e);
        },
    };
    let method: Option<Method> = match method_from(index) {
        Ok(v) => v,
        Err(e) => {
            return Err(e);
        },
    };
    let has_body: bool = match take_bool(&fields, 4) {
        Ok(v) => v,
        Err(e) => {
            return Err(e);
        },
    };
    Ok((Request { id: id as u32, path, method, has_body }, p))
}

/// Reads the response header at the start of `data`. On success the second
/// part of the result is the position at which the body starts.
pub fn decode_response(data: &[u8]) -> (r: Result<(Response, usize), DecodeError>)
    ensures
        match r {
            Ok((response, p)) => response_at(data@) == Ok::<(Response, int), DecodeError>(
                (response, p as int),
            ),
            Err(e) => response_at(data@) == Err::<(Response, int), DecodeError>(e),
        },
{
    let (fields, p): (Vec<crate::wire::Entry>, usize) = match read_record(data, 0) {
        Some(x) => x,
        None => {
            return Err(DecodeError::Malformed);
        },
    };
    let id: u64 = match take_uint(&fields, 1) {
        Ok(v) => v,
        Err(e) => {
            return Err(e);
        },
    };
    if id > 0xffff_ffff {
        return Err(DecodeError::WrongType);
    }
    let re: u64 = match take_uint(&fields, 2) {
        Ok(v) => v,
        Err(e) => {
            return Err(e);
        },
    };
    if re > 0xffff_ffff {
        return Err(DecodeError::WrongType);
    }
    let code: Option<u64> = match take_optional_uint(&fields, 3) {
        Ok(v) => v,
        Err(e) => {
            return Err(e);
        },
    };
    let status: Option<Status> = match code {
        None => None,
        Some(c) => match Status::from_code(c) {
            Some(s) => Some(s),
            None => {
                return Err(DecodeError::WrongType);
            },
        },
    };
    let has_body: bool = match take_bool(&fields, 4) {
        Ok(v) => v,
        Err(e) => {
            return Err(e);
        },
    };
    Ok((Response { id: id as u32, re: re as u32, status, has_body }, p))
}

/// Reads the error body at `pos`.
pub fn decode_error(data: &[u8], pos: usize) -> (r: Result<ErrorBody, DecodeError>)
    ensures
        match r {
            Ok(body) => error_at(data@, pos as int) == Ok::<ErrorBodyView, DecodeError>(body@),
            Err(e) => error_at(data@, pos as int) == Err::<ErrorBodyView, DecodeError>(e),
        },
{
    let (fields, _p): (Vec<crate::wire::Entry>, usize) = match read_record(data, pos) {
        Some(x) => x,
        None => {
            return Err(DecodeError::Malformed);
        },
    };
    let path: String = match take_text(&fields, 1) {
        Ok(v) => v,
        Err(e) => {
            return Err(e);
        },
    };
    let index: Option<u64> = match take_optional_uint(&fields, 2) {
        Ok(v) => v,
        Err(e) => {
            return Err(e);
        },
    };
    let method: Option<Method> = match method_from(index) {
        Ok(v) => v,
        Err(e) => {
            return Err(e);
        },
    };
    let message: String = match take_text(&fields, 3) {
        Ok(v) => v,
        Err(e) => {
            return Err(e);
        },
    };
    Ok(ErrorBody { path, method, message })
}

/// Appends a method as a field under `key`, or nothing.
fn write_method(buf: &mut Vec<u8>, key: u64, method: Option<Method>)
    ensures
        final(buf)@ == old(buf)@ + method_entry(key, method),
{
    match method {
        Some(m) => {
            put_uint(buf, key);
            put_uint(buf, m.index());
            assert(buf@ =~= old(buf)@ + method_entry(key, method));
        },
        None => {
            assert(buf@ =~= old(buf)@ + method_entry(key, method));
        },
    }
}

/// Appends a request header to `buf`.
pub fn write_request(buf: &mut Vec<u8>, request: &Request)
    ensures
        final(buf)@ == old(buf)@ + request_bytes(request@),
{
    put_map(buf, if request.method.is_some() { 4 } else { 3 });
    put_uint(buf, 1);
    put_uint(buf, request.id as u64);
    put_uint(buf, 2);
    put_text(buf, request.path.as_str());
    write_method(buf, 3, request.method);
    put_uint(buf, 4);
    put_bool(buf, request.has_body);
    assert(buf@ =~= old(buf)@ + request_bytes(request@));
}

/// Appends a response header to `buf`.
pub fn write_response(buf: &mut Vec<u8>, response: &Response)
    ensures
        final(buf)@ == old(buf)@ + response_bytes(*response),
{
    put_map(buf, if response.status.is_some() { 4 } else { 3 });
    put_uint(buf, 1);
    put_uint(buf, response.id as u64);
    put_uint(buf, 2);
    put_uint(buf, response.re as u64);
    match response.status {
        Some(s) => {
            put_uint(buf, 3);
            put_uint(buf, s.code());
        },
        None => {},
    }
    put_uint(buf, 4);
    put_bool(buf, response.has_body);
    assert(buf@ =~= old(buf)@ + response_bytes(*response));
}

/// Appends an error body to `buf`.
pub fn write_error(buf: &mut Vec<u8>, body: &ErrorBody)
    ensures
        final(buf)@ == old(buf)@ + error_bytes(body@),
{
    put_map(buf, if body.method.is_some() { 3 } else { 2 });
    put_uint(buf, 1);
    put_text(buf, body.path.as_str());
    write_method(buf, 2, body.method);
    put_uint(buf, 3);
    put_text(buf, body.message.as_str());
    assert(buf@ =~= old(buf)@ + error_bytes(body@));
}

} // verus!
