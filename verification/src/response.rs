//! The envelope that every reply is wrapped in: a status and either
//! `data` or `error`.

use crate::validation::{FieldErrorView, ValidationErrors};
use vstd::prelude::*;

verus! {

/// The statuses that the service answers with, under the names that HTTP
/// libraries give them.
#[allow(non_camel_case_types)]
#[derive(Clone, Copy, Debug, PartialEq, Eq, Structural)]
pub enum StatusCode {
    OK,
    CREATED,
    BAD_REQUEST,
    NOT_FOUND,
    INTERNAL_SERVER_ERROR,
}

impl StatusCode {
    /// The number of the status.
    pub open spec fn code(self) -> u16 {
        match self {
            StatusCode::OK => 200,
            StatusCode::CREATED => 201,
            StatusCode::BAD_REQUEST => 400,
            StatusCode::NOT_FOUND => 404,
            StatusCode::INTERNAL_SERVER_ERROR => 500,
        }
    }

    pub fn as_u16(&self) -> (n: u16)
        ensures
            n == self.code(),
    {
        match self {
            StatusCode::OK => 200,
            StatusCode::CREATED => 201,
            StatusCode::BAD_REQUEST => 400,
            StatusCode::NOT_FOUND => 404,
            StatusCode::INTERNAL_SERVER_ERROR => 500,
        }
    }
}

/// What an error envelope carries: a plain message, or the broken rules of
/// a payload.
#[derive(Clone, Debug, PartialEq, Eq)]
pub enum ErrorBody {
    Message(String),
    Validation(ValidationErrors),
}

/// The body of a reply. One of the two keys `data` and `error` is present.
#[derive(Clone, Debug, PartialEq, Eq)]
pub enum ApiResponse<T, E> {
    Success { data: T },
    Error { error: E },
}

/// A body together with the status it is sent under.
#[derive(Clone, Debug, PartialEq, Eq)]
pub struct ApiWithStatus<T, E> {
    pub status: StatusCode,
    pub body: ApiResponse<T, E>,
}

/// A reply whose error, if it has one, is an `ErrorBody`.
pub type Reply<T> = ApiWithStatus<T, ErrorBody>;

impl<T> ApiWithStatus<T, ErrorBody> {
    /// Whether the reply is `data` under `status`.
    pub open spec fn is_data(self, status: StatusCode, data: T) -> bool {
        self == (ApiWithStatus::<T, ErrorBody> { status, body: ApiResponse::Success { data } })
    }

    /// Whether the reply is the error envelope under `status` with the
    /// plain message `text`.
    pub open spec fn is_message(self, status: StatusCode, text: Seq<char>) -> bool {
        &&& self.status == status
        &&& self.body matches ApiResponse::Error { error: ErrorBody::Message(message) }
        &&& message@ == text
    }

    /// Whether the reply is the error envelope under status 400 with the
    /// broken rules `errors`.
    pub open spec fn is_validation(self, errors: Seq<FieldErrorView>) -> bool {
        &&& self.status == StatusCode::BAD_REQUEST
        &&& self.body matches ApiResponse::Error { error: ErrorBody::Validation(e) }
        &&& e@ == errors
    }
}

impl<T> ApiResponse<T, ErrorBody> {
    /// `data` under status 200.
    pub fn success(data: T) -> (r: ApiWithStatus<T, ErrorBody>)
        ensures
            r == (ApiWithStatus::<T, ErrorBody> { status: StatusCode::OK, body: ApiResponse::Success { data } }),
    {
        ApiWithStatus { status: StatusCode::OK, body: ApiResponse::Success { data } }
    }

    /// `data` under status 201.
    pub fn created(data: T) -> (r: ApiWithStatus<T, ErrorBody>)
        ensures
            r == (ApiWithStatus::<T, ErrorBody> {
                status: StatusCode::CREATED,
                body: ApiResponse::Success { data },
            }),
    {
        ApiWithStatus { status: StatusCode::CREATED, body: ApiResponse::Success { data } }
    }

    /// `error` under `status`.
    pub fn error_json(status: StatusCode, error: ErrorBody) -> (r: ApiWithStatus<T, ErrorBody>)
        ensures
            r == (ApiWithStatus::<T, ErrorBody> { status, body: ApiResponse::Error { error } }),
    {
        ApiWithStatus { status, body: ApiResponse::Error { error } }
    }

    /// The plain message `message` under `status`.
    pub fn error_message(status: StatusCode, message: &str) -> (r: ApiWithStatus<T, ErrorBody>)
        ensures
            r.is_message(status, message@),
    {
        Self::error_json(status, ErrorBody::Message(message.to_owned()))
    }
}

} // verus!
