//! The envelope of a call: request, response and error body.

use vstd::prelude::*;

verus! {

/// What a request asks to do with the resource its path names.
#[derive(Clone, Copy, Debug, PartialEq, Eq, Structural)]
pub enum Method {
    Get,
    Post,
    Put,
    Delete,
    Patch,
}

/// How a request ended.
#[derive(Clone, Copy, Debug, PartialEq, Eq, Structural)]
pub enum Status {
    Success,
    BadRequest,
    NotFound,
    InternalServerError,
}

/// The header of a request. The body, if there is one, follows the header
/// on the wire.
#[derive(Clone, Debug)]
pub struct Request {
    pub id: u32,
    pub path: String,
    pub method: Option<Method>,
    pub has_body: bool,
}

/// What a `Request` holds.
pub ghost struct RequestView {
    pub id: u32,
    pub path: Seq<char>,
    pub method: Option<Method>,
    pub has_body: bool,
}

impl View for Request {
    type V = RequestView;

    open spec fn view(&self) -> RequestView {
        RequestView { id: self.id, path: self.path@, method: self.method, has_body: self.has_body }
    }
}

/// The header of a response: its own id, the id of the request it answers,
/// and how the request ended.
#[derive(Clone, Copy, Debug, PartialEq, Eq, Structural)]
pub struct Response {
    pub id: u32,
    pub re: u32,
    pub status: Option<Status>,
    pub has_body: bool,
}

/// The body of a response that reports a failure.
#[derive(Clone, Debug)]
pub struct ErrorBody {
    pub path: String,
    pub method: Option<Method>,
    pub message: String,
}

/// What an `ErrorBody` holds.
pub ghost struct ErrorBodyView {
    pub path: Seq<char>,
    pub method: Option<Method>,
    pub message: Seq<char>,
}

impl View for ErrorBody {
    type V = ErrorBodyView;

    open spec fn view(&self) -> ErrorBodyView {
        ErrorBodyView { path: self.path@, method: self.method, message: self.message@ }
    }
}

/// The number that stands for a method on the wire.
pub open spec fn method_index(m: Method) -> u64 {
    match m {
        Method::Get => 0,
        Method::Post => 1,
        Method::Put => 2,
        Method::Delete => 3,
        Method::Patch => 4,
    }
}

/// The method that a number stands for, if any.
pub open spec fn method_of_index(i: u64) -> Option<Method> {
    if i == 0 {
        Some(Method::Get)
    } else if i == 1 {
        Some(Method::Post)
    } else if i == 2 {
        Some(Method::Put)
    } else if i == 3 {
        Some(Method::Delete)
    } else if i == 4 {
        Some(Method::Patch)
    } else {
        None
    }
}

/// The number that stands for a status on the wire.
pub open spec fn status_code(s: Status) -> u64 {
    match s {
        Status::Success => 200,
        Status::BadRequest => 400,
        Status::NotFound => 404,
        Status::InternalServerError => 500,
    }
}

/// The status that a number stands for, if any.
pub open spec fn status_of_code(c: u64) -> Option<Status> {
    if c == 200 {
        Some(Status::Success)
    } else if c == 400 {
        Some(Status::BadRequest)
    } else if c == 404 {
        Some(Status::NotFound)
    } else if c == 500 {
        Some(Status::InternalServerError)
    } else {
        None
    }
}

impl Method {
    /// The number that stands for this method on the wire.
    pub fn index(self) -> (i: u64)
        ensures
            i == method_index(self),
    {
        match self {
            Method::Get => 0,
            Method::Post => 1,
            Method::Put => 2,
            Method::Delete => 3,
            Method::Patch => 4,
        }
    }

    /// The method that `i` stands for; `None` where it stands for none.
    pub fn from_index(i: u64) -> (m: Option<Method>)
        ensures
            m == method_of_index(i),
    {
        if i == 0 {
            Some(Method::Get)
        } else if i == 1 {
            Some(Method::Post)
        } else if i == 2 {
            Some(Method::Put)
        } else if i == 3 {
            Some(Method::Delete)
        } else if i == 4 {
            Some(Method::Patch)
        } else {
            None
        }
    }
}

impl Status {
    /// The number that stands for this status on the wire.
    pub fn code(self) -> (c: u64)
        ensures
            c == status_code(self),
    {
        match self {
            Status::Success => 200,
            Status::BadRequest => 400,
            Status::NotFound => 404,
            Status::InternalServerError => 500,
        }
    }

    /// The status that `c` stands for; `None` where it stands for none.
    pub fn from_code(c: u64) -> (s: Option<Status>)
        ensures
            s == status_of_code(c),
    {
        if c == 200 {
            Some(Status::Success)
        } else if c == 400 {
            Some(Status::BadRequest)
        } else if c == 404 {
            Some(Status::NotFound)
        } else if c == 500 {
            Some(Status::InternalServerError)
        } else {
            None
        }
    }
}

/// A method's number stands for that method, and a status's for that status.
pub proof fn lemma_index_round_trip(m: Method, s: Status)
    ensures
        method_of_index(method_index(m)) == Some(m),
        status_of_code(status_code(s)) == Some(s),
{
}

} // verus!
