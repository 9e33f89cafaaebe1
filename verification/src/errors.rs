//! The errors that a request handler can answer with, and the response that
//! each of them stands for.

use vstd::prelude::*;

verus! {

/// The JSON body of an error response.
#[derive(Clone, Debug, PartialEq, Eq)]
pub struct ErrorBody {
    pub message: String,
}

/// The kind of redirect.
#[derive(Clone, Copy, Debug, PartialEq, Eq, Structural)]
pub enum RedirectMode {
    MovedPermanently,
    Found,
    SeeOther,
    TemporaryRedirect,
    PermanentRedirect,
}

impl Default for RedirectMode {
    fn default() -> (mode: Self)
        ensures
            mode == RedirectMode::Found,
    {
        RedirectMode::Found
    }
}

impl RedirectMode {
    /// The HTTP status code of this kind of redirect.
    pub open spec fn code(self) -> u16 {
        match self {
            RedirectMode::MovedPermanently => 301,
            RedirectMode::Found => 302,
            RedirectMode::SeeOther => 303,
            RedirectMode::TemporaryRedirect => 307,
            RedirectMode::PermanentRedirect => 308,
        }
    }

    /// The HTTP status code of this kind of redirect.
    pub fn status_code(&self) -> (code: u16)
        ensures
            code == self.code(),
    {
        match self {
            RedirectMode::MovedPermanently => 301,
            RedirectMode::Found => 302,
            RedirectMode::SeeOther => 303,
            RedirectMode::TemporaryRedirect => 307,
            RedirectMode::PermanentRedirect => 308,
        }
    }
}

/// An error that a handler answers with. `R` is a response that is ready to
/// send, `E` an error of any other kind.
#[derive(Debug)]
pub enum ApiError<R, E> {
    /// Send the client to the destination.
    Redirect(RedirectMode, String),
    NotModified,
    BadRequest(String),
    Unauthorized(String),
    Forbidden(String),
    NotFound,
    /// Answer with this response as it is.
    Response(R),
    /// Anything else: an internal error.
    Other(E),
}

/// The response that an error stands for.
#[derive(Debug, PartialEq, Eq)]
pub enum Reply<R, E> {
    /// A response with this status and nothing else.
    Status(u16),
    /// A response with this status and a `location` header.
    Redirect { status: u16, location: String },
    /// A response with this status and an `ErrorBody` as JSON.
    Message { status: u16, body: ErrorBody },
    /// This response as it is.
    Ready(R),
    /// The error is logged; the response has this status and nothing else.
    Internal { status: u16, error: E },
}

/// The model of a `Reply`: strings by their characters.
pub enum ReplyView<R, E> {
    Status(u16),
    Redirect { status: u16, location: Seq<char> },
    Message { status: u16, message: Seq<char> },
    Ready(R),
    Internal { status: u16, error: E },
}

impl<R, E> View for Reply<R, E> {
    type V = ReplyView<R, E>;

    open spec fn view(&self) -> ReplyView<R, E> {
        match *self {
            Reply::Status(status) => ReplyView::Status(status),
            Reply::Redirect { status, location } => ReplyView::Redirect {
                status,
                location: location@,
            },
            Reply::Message { status, body } => ReplyView::Message { status, message: body.message@ },
            Reply::Ready(response) => ReplyView::Ready(response),
            Reply::Internal { status, error } => ReplyView::Internal { status, error },
        }
    }
}

impl<R, E> ApiError<R, E> {
    /// The response that this error stands for.
    pub open spec fn reply_view(self) -> ReplyView<R, E> {
        match self {
            ApiError::Redirect(mode, destination) => ReplyView::Redirect {
                status: mode.code(),
                location: destination@,
            },
            ApiError::NotModified => ReplyView::Status(304),
            ApiError::BadRequest(message) => ReplyView::Message { status: 400, message: message@ },
            ApiError::Unauthorized(message) => ReplyView::Message { status: 401, message: message@ },
            ApiError::Forbidden(message) => ReplyView::Message { status: 403, message: message@ },
            ApiError::NotFound => ReplyView::Message { status: 404, message: "not found"@ },
            ApiError::Response(response) => ReplyView::Ready(response),
            ApiError::Other(error) => ReplyView::Internal { status: 500, error },
        }
    }

    /// Turns the error into the response it stands for.
    pub fn into_reply(self) -> (reply: Reply<R, E>)
        ensures
            reply@ == self.reply_view(),
    {
        match self {
            ApiError::Redirect(mode, destination) => Reply::Redirect {
                status: mode.status_code(),
                location: destination,
            },
            ApiError::NotModified => Reply::Status(304),
            ApiError::BadRequest(message) => Reply::Message {
                status: 400,
                body: ErrorBody { message },
            },
            ApiError::Unauthorized(message) => Reply::Message {
                status: 401,
                body: ErrorBody { message },
            },
            ApiError::Forbidden(message) => Reply::Message {
                status: 403,
                body: ErrorBody { message },
            },
            ApiError::NotFound => Reply::Message {
                status: 404,
                body: ErrorBody { message: "not found".to_owned() },
            },
            ApiError::Response(response) => Reply::Ready(response),
            ApiError::Other(error) => Reply::Internal { status: 500, error },
        }
    }
}

} // verus!
