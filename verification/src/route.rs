//! From method and path to the operation that a request asks for.

use crate::model::Method;
use vstd::prelude::*;
use vstd::string::StringExecFns;

verus! {

/// What the service can be asked to do.
#[derive(Clone, Copy, Debug, PartialEq, Eq, Structural)]
pub enum Operation {
    /// Show the stored identity that the path names.
    Show,
    /// Create a new identity.
    Create,
    /// Validate an exported change history.
    Validate,
    /// Sign data with an identity.
    Sign,
    /// Verify a signature against its signer's history.
    Verify,
    /// Compare a history with the known one.
    Compare,
}

/// Why a request is turned down before any work is done.
#[derive(Clone, Copy, Debug, PartialEq, Eq, Structural)]
pub enum Refusal {
    EmptyMethod,
    UnknownMethod,
    UnknownPath,
    EmptyBody,
}

/// Where a request goes.
#[derive(Clone, Copy, Debug, PartialEq, Eq, Structural)]
pub enum Route {
    To(Operation),
    Refused(Refusal),
}

/// The path without the slashes it begins with.
pub open spec fn without_leading_slashes(path: Seq<char>) -> Seq<char>
    decreases path.len(),
{
    if path.len() > 0 && path[0] == '/' {
        without_leading_slashes(path.subrange(1, path.len() as int))
    } else {
        path
    }
}

/// The action that the rest of a path names, if it names one.
pub open spec fn action_named(rest: Seq<char>) -> Option<Operation> {
    if rest == "actions/validate_identity_change_history"@ {
        Some(Operation::Validate)
    } else if rest == "actions/create_signature"@ {
        Some(Operation::Sign)
    } else if rest == "actions/verify_signature"@ {
        Some(Operation::Verify)
    } else if rest == "actions/compare_identity_change_history"@ {
        Some(Operation::Compare)
    } else {
        None
    }
}

/// Where a request with this method, path and body flag goes.
///
/// A request without a method is refused. `GET` shows the identity that the
/// path names, which must be a single segment. `POST` on the root creates an
/// identity; on one of the four actions it runs the action, which needs a
/// body. Every other path is unknown, and so is every other method.
pub open spec fn route_of(method: Option<Method>, path: Seq<char>, has_body: bool) -> Route {
    let rest = without_leading_slashes(path);
    match method {
        None => Route::Refused(Refusal::EmptyMethod),
        Some(Method::Get) => if rest.contains('/') {
            Route::Refused(Refusal::UnknownPath)
        } else {
            Route::To(Operation::Show)
        },
        Some(Method::Post) => if rest.len() == 0 {
            Route::To(Operation::Create)
        } else {
            match action_named(rest) {
                Some(op) => if has_body {
                    Route::To(op)
                } else {
                    Route::Refused(Refusal::EmptyBody)
                },
                None => Route::Refused(Refusal::UnknownPath),
            }
        },
        Some(_) => Route::Refused(Refusal::UnknownMethod),
    }
}

/// The words that tell the caller why a request was refused.
pub open spec fn refusal_text(refusal: Refusal) -> Seq<char> {
    match refusal {
        Refusal::EmptyMethod => "empty method"@,
        Refusal::UnknownMethod => "unknown method"@,
        Refusal::UnknownPath => "unknown path"@,
        Refusal::EmptyBody => "empty body"@,
    }
}

/// Calls `str::trim_start_matches` with a slash, which removes every slash
/// that the string begins with.
#[verifier::external_body]
fn trim_slashes(path: &str) -> (rest: &str)
    ensures
        rest@ == without_leading_slashes(path@),
{
    path.trim_start_matches('/')
}

/// Calls `str::contains` with a slash, which says whether one occurs.
#[verifier::external_body]
fn has_slash(text: &str) -> (r: bool)
    ensures
        r == text@.contains('/'),
{
    text.contains('/')
}

/// Is `text` the same as `word`?
fn same_text(text: &str, word: &str) -> (r: bool)
    ensures
        r == (text@ == word@),
{
    let a: String = String::from_str(text);
    let b: String = String::from_str(word);
    a == b
}

impl Refusal {
    /// The words that tell the caller why the request was refused.
    pub fn message(self) -> (text: String)
        ensures
            text@ == refusal_text(self),
    {
        match self {
            Refusal::EmptyMethod => String::from_str("empty method"),
            Refusal::UnknownMethod => String::from_str("unknown method"),
            Refusal::UnknownPath => String::from_str("unknown path"),
            Refusal::EmptyBody => String::from_str("empty body"),
        }
    }
}

/// The name that a path gives: the path without its leading slashes.
pub fn identity_name(path: &str) -> (name: String)
    ensures
        name@ == without_leading_slashes(path@),
{
    String::from_str(trim_slashes(path))
}

/// The action that the rest of a path names.
fn action_of(rest: &str) -> (r: Option<Operation>)
    ensures
        r == action_named(rest@),
{
    if same_text(rest, "actions/validate_identity_change_history") {
        Some(Operation::Validate)
    } else if same_text(rest, "actions/create_signature") {
        Some(Operation::Sign)
    } else if same_text(rest, "actions/verify_signature") {
        Some(Operation::Verify)
    } else if same_text(rest, "actions/compare_identity_change_history") {
        Some(Operation::Compare)
    } else {
        None
    }
}

/// Decides where a request goes, once, from its method, path and body flag.
pub fn route(method: Option<Method>, path: &str, has_body: bool) -> (r: Route)
    ensures
        r == route_of(method, path@, has_body),
        method.is_none() ==> r == Route::Refused(Refusal::EmptyMethod),
        method == Some(Method::Put) || method == Some(Method::Patch) || method == Some(
            Method::Delete,
        ) ==> r == Route::Refused(Refusal::UnknownMethod),
{
    let rest: &str = trim_slashes(path);
    match method {
        None => Route::Refused(Refusal::EmptyMethod),
        Some(Method::Get) => {
            if has_slash(rest) {
                Route::Refused(Refusal::UnknownPath)
            } else {
                Route::To(Operation::Show)
            }
        },
        Some(Method::Post) => {
            if rest.is_empty() {
                Route::To(Operation::Create)
            } else {
                match action_of(rest) {
                    Some(op) => {
                        if has_body {
                            Route::To(op)
                        } else {
                            Route::Refused(Refusal::EmptyBody)
                        }
                    },
                    None => Route::Refused(Refusal::UnknownPath),
                }
            }
        },
        Some(_) => Route::Refused(Refusal::UnknownMethod),
    }
}

/// A request is refused as of unknown path exactly when its method is `GET`
/// and the path holds a second segment, or its method is `POST` and the path
/// is neither the root nor one of the actions. An action without a body is
/// refused for its empty body, and for nothing else.
pub proof fn lemma_refusals(method: Option<Method>, path: Seq<char>, has_body: bool)
    ensures
        route_of(method, path, has_body) == Route::Refused(Refusal::UnknownPath) <==> (method
            == Some(Method::Get) && without_leading_slashes(path).contains('/')) || (method
            == Some(Method::Post) && without_leading_slashes(path).len() != 0 && action_named(
            without_leading_slashes(path),
        ).is_none()),
        route_of(method, path, has_body) == Route::Refused(Refusal::EmptyBody) <==> method
            == Some(Method::Post) && without_leading_slashes(path).len() != 0 && action_named(
            without_leading_slashes(path),
        ).is_some() && !has_body,
        route_of(method, path, has_body) == Route::Refused(Refusal::UnknownMethod) <==> method
            == Some(Method::Put) || method == Some(Method::Patch) || method == Some(
            Method::Delete,
        ),
        route_of(method, path, has_body) == Route::Refused(Refusal::EmptyMethod)
            <==> method.is_none(),
{
}

} // verus!
