//! The decisions of the service.
//!
//! The service answers one request at a time and keeps nothing between two
//! of them. Answering falls in two parts, with the cryptographic work in
//! between: `on_request` reads the request and either answers it at once or says
//! what is to be done; `finish` turns what came of that work into the answer.
//! The caller supplies the ids of the responses, which are drawn at random.

use crate::envelope::{
    decode_request, error_bytes, request_at, response_bytes, write_error, write_response,
};
use crate::history::{comparison_index, relation_to_known, ChangeHistory, Comparison};
use crate::cbor::{put_uint, uint_item};
use crate::model::{ErrorBody, ErrorBodyView, Request, RequestView, Response, Status};
use crate::payload::{
    compare_request_at, create_response_bytes, sign_request_at, sign_response_bytes,
    validate_request_at, validate_response_bytes, verify_request_at, verify_response_bytes,
    CompareIdentityChangeHistoryRequest, CreateResponse, CreateSignatureRequest,
    CreateSignatureResponse, ValidateIdentityChangeHistoryRequest,
    ValidateIdentityChangeHistoryResponse, VerifySignatureRequest, VerifySignatureResponse,
};
use crate::route::{
    identity_name, refusal_text, route, route_of, without_leading_slashes, Operation, Refusal,
    Route,
};
use crate::wire::{decode_error_text, DecodeError};
use vstd::prelude::*;
use vstd::slice::slice_to_vec;
use vstd::string::StringExecFns;

verus! {

/// The work that a request asks for, with its arguments.
#[derive(Clone, Debug)]
pub enum Action {
    /// Look up the identity stored under `name`; export its history.
    Show { name: String },
    /// Create an identity in the service's vault; export its history.
    Create,
    /// Import the history under the service's vault.
    Validate { identity: Vec<u8> },
    /// Import the identity, under the named vault where one is named, and
    /// sign `data`.
    Sign { identity: Vec<u8>, data: Vec<u8>, vault_name: Option<String> },
    /// Import the signer's history and verify `signature` over `data`.
    Verify { signer_identity: Vec<u8>, data: Vec<u8>, signature: Vec<u8> },
    /// Import the current history and, where there is one, the known one.
    Compare { current_identity: Vec<u8>, known_identity: Option<Vec<u8>> },
}

/// What an `Action` holds.
pub ghost enum ActionView {
    Show { name: Seq<char> },
    Create,
    Validate { identity: Seq<u8> },
    Sign { identity: Seq<u8>, data: Seq<u8>, vault_name: Option<Seq<char>> },
    Verify { signer_identity: Seq<u8>, data: Seq<u8>, signature: Seq<u8> },
    Compare { current_identity: Seq<u8>, known_identity: Option<Seq<u8>> },
}

impl View for Action {
    type V = ActionView;

    open spec fn view(&self) -> ActionView {
        match self {
            Action::Show { name } => ActionView::Show { name: name@ },
            Action::Create => ActionView::Create,
            Action::Validate { identity } => ActionView::Validate { identity: identity@ },
            Action::Sign { identity, data, vault_name } => ActionView::Sign {
                identity: identity@,
                data: data@,
                vault_name: match vault_name {
                    Some(name) => Some(name@),
                    None => None,
                },
            },
            Action::Verify { signer_identity, data, signature } => ActionView::Verify {
                signer_identity: signer_identity@,
                data: data@,
                signature: signature@,
            },
            Action::Compare { current_identity, known_identity } => ActionView::Compare {
                current_identity: current_identity@,
                known_identity: match known_identity {
                    Some(known) => Some(known@),
                    None => None,
                },
            },
        }
    }
}

/// What `on_request` decides: the answer, or the work to do for this request.
#[derive(Clone, Debug)]
pub enum Step {
    Reply(Vec<u8>),
    Perform(Request, Action),
}

/// What a `Step` holds.
pub ghost enum StepView {
    Reply(Seq<u8>),
    Perform(RequestView, ActionView),
}

impl View for Step {
    type V = StepView;

    open spec fn view(&self) -> StepView {
        match self {
            Step::Reply(bytes) => StepView::Reply(bytes@),
            Step::Perform(request, action) => StepView::Perform(request@, action@),
        }
    }
}

/// What came of the work.
#[derive(Clone, Debug)]
pub enum Outcome {
    /// The identity that was looked up or created.
    Identity(CreateResponse),
    /// The identifier of the identity whose history was imported.
    Identifier(String),
    /// The signature that was made.
    Signature(Vec<u8>),
    /// Whether the signature was found good.
    Verified(bool),
    /// The histories that were imported, to be compared.
    Histories { current: ChangeHistory, known: Option<ChangeHistory> },
    /// The work failed, for the reason given.
    Failed(String),
}

/// What an `Outcome` holds.
pub ghost enum OutcomeView {
    Identity(Seq<u8>, Seq<char>),
    Identifier(Seq<char>),
    Signature(Seq<u8>),
    Verified(bool),
    Histories { current: Seq<Seq<u8>>, known: Option<Seq<Seq<u8>>> },
    Failed(Seq<char>),
}

impl View for Outcome {
    type V = OutcomeView;

    open spec fn view(&self) -> OutcomeView {
        match self {
            Outcome::Identity(body) => OutcomeView::Identity(body.identity@, body.identifier@),
            Outcome::Identifier(identifier) => OutcomeView::Identifier(identifier@),
            Outcome::Signature(signature) => OutcomeView::Signature(signature@),
            Outcome::Verified(verified) => OutcomeView::Verified(*verified),
            Outcome::Histories { current, known } => OutcomeView::Histories {
                current: current@,
                known: match known {
                    Some(k) => Some(k@),
                    None => None,
                },
            },
            Outcome::Failed(reason) => OutcomeView::Failed(reason@),
        }
    }
}

/// A response that reports a failure: the header with the given status,
/// then the error body.
pub open spec fn failure_bytes(id: u32, re: u32, status: Status, error: ErrorBodyView) -> Seq<u8> {
    response_bytes(Response { id, re, status: Some(status), has_body: true }) + error_bytes(error)
}

/// The answer to bytes that hold no request header. No request id could be
/// read, so the answer refers to `re`, an id made up for it.
pub open spec fn unreadable_reply(id: u32, re: u32) -> Seq<u8> {
    failure_bytes(
        id,
        re,
        Status::BadRequest,
        ErrorBodyView { path: Seq::empty(), method: None, message: "invalid Request structure"@ },
    )
}

/// The answer to a request that is refused.
pub open spec fn refusal_reply(id: u32, request: RequestView, refusal: Refusal) -> Seq<u8> {
    failure_bytes(
        id,
        request.id,
        Status::BadRequest,
        ErrorBodyView {
            path: request.path,
            method: request.method,
            message: refusal_text(refusal),
        },
    )
}

/// The answer to a request whose work failed for the reason `reason`.
pub open spec fn failure_reply(id: u32, request: RequestView, reason: Seq<char>) -> Seq<u8> {
    failure_bytes(
        id,
        request.id,
        Status::InternalServerError,
        ErrorBodyView { path: request.path, method: None, message: reason },
    )
}

/// The work of an operation, with its arguments read from the body that
/// starts at `pos`.
pub open spec fn action_at(op: Operation, path: Seq<char>, bytes: Seq<u8>, pos: int) -> Result<
    ActionView,
    DecodeError,
> {
    match op {
        Operation::Show => Ok(ActionView::Show { name: without_leading_slashes(path) }),
        Operation::Create => Ok(ActionView::Create),
        Operation::Validate => match validate_request_at(bytes, pos) {
            Ok(identity) => Ok(ActionView::Validate { identity }),
            Err(e) => Err(e),
        },
        Operation::Sign => match sign_request_at(bytes, pos) {
            Ok((identity, data, vault_name)) => Ok(ActionView::Sign { identity, data, vault_name }),
            Err(e) => Err(e),
        },
        Operation::Verify => match verify_request_at(bytes, pos) {
            Ok((signer_identity, data, signature)) => Ok(
                ActionView::Verify { signer_identity, data, signature },
            ),
            Err(e) => Err(e),
        },
        Operation::Compare => match compare_request_at(bytes, pos) {
            Ok((current, known)) => Ok(
                ActionView::Compare {
                    current_identity: current,
                    known_identity: if known.len() == 0 {
                        None
                    } else {
                        Some(known)
                    },
                },
            ),
            Err(e) => Err(e),
        },
    }
}

/// What `on_request` decides on `bytes`.
///
/// Bytes that hold no request header are answered as a bad request. A
/// request that is refused is answered as a bad request that says why. A
/// request whose body cannot be read is answered as an internal error that
/// says why. Every other request is to be performed.
pub open spec fn step_of(bytes: Seq<u8>, reply_id: u32, made_up_id: u32) -> StepView {
    match request_at(bytes) {
        Err(_) => StepView::Reply(unreadable_reply(reply_id, made_up_id)),
        Ok((request, pos)) => handling_of(request, bytes, pos, reply_id),
    }
}

/// The body of the answer to a request whose work succeeded.
pub open spec fn outcome_body(outcome: OutcomeView) -> Seq<u8> {
    match outcome {
        OutcomeView::Identity(identity, identifier) => create_response_bytes(identity, identifier),
        OutcomeView::Identifier(identifier) => validate_response_bytes(identifier),
        OutcomeView::Signature(signature) => sign_response_bytes(signature),
        OutcomeView::Verified(verified) => verify_response_bytes(verified),
        OutcomeView::Histories { current, known } => uint_item(
            comparison_index(relation_to_known(current, known)),
        ),
        OutcomeView::Failed(_) => Seq::empty(),
    }
}

/// The answer to `request` once its work has ended in `outcome`: an internal
/// error where the work failed, else a success with the outcome as its body.
pub open spec fn answer_of(request: RequestView, outcome: OutcomeView, reply_id: u32) -> Seq<u8> {
    match outcome {
        OutcomeView::Failed(reason) => failure_reply(reply_id, request, reason),
        _ => response_bytes(
            Response { id: reply_id, re: request.id, status: Some(Status::Success), has_body: true },
        ) + outcome_body(outcome),
    }
}

/// Builds a response that reports a failure.
fn failure(id: u32, re: u32, status: Status, error: &ErrorBody) -> (bytes: Vec<u8>)
    ensures
        bytes@ == failure_bytes(id, re, status, error@),
{
    let mut buf: Vec<u8> = Vec::new();
    write_response(&mut buf, &Response { id, re, status: Some(status), has_body: true });
    write_error(&mut buf, error);
    assert(buf@ =~= failure_bytes(id, re, status, error@));
    buf
}

/// Reads the arguments of an operation from the body that starts at `pos`.
pub fn read_action(op: Operation, path: &str, data: &[u8], pos: usize) -> (r: Result<
    Action,
    DecodeError,
>)
    ensures
        match r {
            Ok(action) => action_at(op, path@, data@, pos as int) == Ok::<ActionView, DecodeError>(
                action@,
            ),
            Err(e) => action_at(op, path@, data@, pos as int) == Err::<ActionView, DecodeError>(e),
        },
{
    match op {
        Operation::Show => Ok(Action::Show { name: identity_name(path) }),
        Operation::Create => Ok(Action::Create),
        Operation::Validate => match ValidateIdentityChangeHistoryRequest::decode(data, pos) {
            Ok(args) => Ok(Action::Validate { identity: args.identity }),
            Err(e) => Err(e),
        },
        Operation::Sign => match CreateSignatureRequest::decode(data, pos) {
            Ok(args) => Ok(
                Action::Sign {
                    identity: args.identity,
                    data: args.data,
                    vault_name: args.vault_name,
                },
            ),
            Err(e) => Err(e),
        },
        Operation::Verify => match VerifySignatureRequest::decode(data, pos) {
            Ok(args) => Ok(
                Action::Verify {
                    signer_identity: args.signer_identity,
                    data: args.data,
                    signature: args.signature,
                },
            ),
            Err(e) => Err(e),
        },
        Operation::Compare => match CompareIdentityChangeHistoryRequest::decode(data, pos) {
            Ok(args) => {
                let known_identity: Option<Vec<u8>> = if args.known_identity.len() == 0 {
                    None
                } else {
                    Some(args.known_identity)
                };
                Ok(Action::Compare { current_identity: args.current_identity, known_identity })
            },
            Err(e) => Err(e),
        },
    }
}

/// Answers a request that is refused: a bad request whose error body names
/// the request's path and method and says why.
pub fn response_for_bad_request(request: &Request, refusal: Refusal, reply_id: u32) -> (bytes: Vec<
    u8,
>)
    ensures
        bytes@ == refusal_reply(reply_id, request@, refusal),
{
    let error = ErrorBody {
        path: request.path.clone(),
        method: request.method,
        message: refusal.message(),
    };
    failure(reply_id, request.id, Status::BadRequest, &error)
}

/// Answers with an error of the given status and words. Where there is a
/// request, the answer names its path and refers to its id; where there is
/// none, the path is empty and the answer refers to `made_up_id`.
pub fn response_with_error(
    request: Option<&Request>,
    status: Status,
    error: &str,
    reply_id: u32,
    made_up_id: u32,
) -> (bytes: Vec<u8>)
    ensures
        bytes@ == failure_bytes(
            reply_id,
            match request {
                Some(r) => r.id,
                None => made_up_id,
            },
            status,
            ErrorBodyView {
                path: match request {
                    Some(r) => r.path@,
                    None => Seq::empty(),
                },
                method: None,
                message: error@,
            },
        ),
{
    match request {
        Some(r) => {
            let body = ErrorBody {
                path: r.path.clone(),
                method: None,
                message: String::from_str(error),
            };
            failure(reply_id, r.id, status, &body)
        },
        None => {
            let body = ErrorBody {
                path: String::new(),
                method: None,
                message: String::from_str(error),
            };
            failure(reply_id, made_up_id, status, &body)
        },
    }
}

/// What is decided on a request whose header was read and whose body
/// starts at `pos`.
pub open spec fn handling_of(request: RequestView, bytes: Seq<u8>, pos: int, reply_id: u32)
    -> StepView {
    match route_of(request.method, request.path, request.has_body) {
        Route::Refused(refusal) => StepView::Reply(refusal_reply(reply_id, request, refusal)),
        Route::To(op) => match action_at(op, request.path, bytes, pos) {
            Ok(action) => StepView::Perform(request, action),
            Err(e) => StepView::Reply(failure_reply(reply_id, request, decode_error_text(e))),
        },
    }
}

/// Decides what to do with a request whose header was read from `data` and
/// whose body starts at `pos`: refuse it, or perform its operation.
pub fn handle_request(request: Request, data: &[u8], pos: usize, reply_id: u32) -> (step: Step)
    ensures
        step@ == handling_of(request@, data@, pos as int, reply_id),
{
    match route(request.method, request.path.as_str(), request.has_body) {
        Route::Refused(refusal) => Step::Reply(
            response_for_bad_request(&request, refusal, reply_id),
        ),
        Route::To(op) => match read_action(op, request.path.as_str(), data, pos) {
            Ok(action) => Step::Perform(request, action),
            Err(e) => {
                let words: String = e.message();
                Step::Reply(
                    response_with_error(
                        Some(&request),
                        Status::InternalServerError,
                        words.as_str(),
                        reply_id,
                        0,
                    ),
                )
            },
        },
    }
}

/// Reads a request and decides what to do with it.
///
/// `reply_id` becomes the id of the answer, if the request is answered at
/// once. `made_up_id` stands in for the request's id where none can be read.
pub fn on_request(data: &[u8], reply_id: u32, made_up_id: u32) -> (step: Step)
    ensures
        step@ == step_of(data@, reply_id, made_up_id),
        request_at(data@).is_err() ==> step@ == StepView::Reply(
            unreadable_reply(reply_id, made_up_id),
        ),
{
    match decode_request(data) {
        Ok((request, pos)) => handle_request(request, data, pos, reply_id),
        Err(_) => Step::Reply(
            response_with_error(
                None,
                Status::BadRequest,
                "invalid Request structure",
                reply_id,
                made_up_id,
            ),
        ),
    }
}

/// Answers a request whose work succeeded: a success with the outcome as
/// its body. Two histories are compared here, and the body is how the
/// current one relates to the known one.
pub fn ok_response(request: &Request, outcome: &Outcome, reply_id: u32) -> (bytes: Vec<u8>)
    requires
        !(outcome@ is Failed),
    ensures
        bytes@ == answer_of(request@, outcome@, reply_id),
{
    let mut buf: Vec<u8> = Vec::new();
    write_response(
        &mut buf,
        &Response { id: reply_id, re: request.id, status: Some(Status::Success), has_body: true },
    );
    match outcome {
        Outcome::Identity(body) => {
            body.encode(&mut buf);
        },
        Outcome::Identifier(identifier) => {
            let body = ValidateIdentityChangeHistoryResponse { identifier: identifier.clone() };
            body.encode(&mut buf);
        },
        Outcome::Signature(signature) => {
            let body = CreateSignatureResponse { signature: slice_to_vec(signature.as_slice()) };
            body.encode(&mut buf);
        },
        Outcome::Verified(verified) => {
            let body = VerifySignatureResponse { verified: *verified };
            body.encode(&mut buf);
        },
        Outcome::Histories { current, known } => {
            let comparison: Comparison = current.compare_with_known(known);
            put_uint(&mut buf, comparison.index());
        },
        Outcome::Failed(_) => {},
    }
    assert(buf@ =~= answer_of(request@, outcome@, reply_id));
    buf
}

/// Turns the outcome of a request's work into the answer: an internal error
/// that carries the reason where the work failed, a success otherwise.
pub fn finish(request: &Request, outcome: &Outcome, reply_id: u32) -> (bytes: Vec<u8>)
    ensures
        bytes@ == answer_of(request@, outcome@, reply_id),
        outcome@ is Failed ==> bytes@ == failure_reply(reply_id, request@, outcome@->Failed_0),
{
    match outcome {
        Outcome::Failed(reason) => response_with_error(
            Some(request),
            Status::InternalServerError,
            reason.as_str(),
            reply_id,
            0,
        ),
        _ => ok_response(request, outcome, reply_id),
    }
}

} // verus!
