//! The ways in which a request can fail, and the status and message that each
//! is answered with.

use crate::models::task::ApiResponse;
use vstd::prelude::*;

verus! {

/// The status of a response.
#[derive(Debug, Clone, Copy, PartialEq, Eq, Structural)]
pub enum StatusCode {
    Okay,
    Created,
    BadRequest,
    NotFound,
    InternalServerError,
}

impl StatusCode {
    /// The number that the status goes by on the wire.
    pub open spec fn code(self) -> u16 {
        match self {
            StatusCode::Okay => 200,
            StatusCode::Created => 201,
            StatusCode::BadRequest => 400,
            StatusCode::NotFound => 404,
            StatusCode::InternalServerError => 500,
        }
    }

    /// The number that the status goes by on the wire.
    pub fn as_u16(self) -> (n: u16)
        ensures
            n == self.code(),
    {
        match self {
            StatusCode::Okay => 200,
            StatusCode::Created => 201,
            StatusCode::BadRequest => 400,
            StatusCode::NotFound => 404,
            StatusCode::InternalServerError => 500,
        }
    }
}

/// Why a request failed.
#[derive(Debug, PartialEq, Eq)]
pub enum AppError {
    /// No task has the identifier that was asked for.
    NotFound,
    /// The payload broke a rule; the text names the fields and what is wrong
    /// with each.
    ValidationError(String),
    /// Exclusive access to the store could not be had.
    MutexError,
}

/// What an `AppError` holds, as plain values.
pub enum AppErrorView {
    NotFound,
    ValidationError(Seq<char>),
    MutexError,
}

impl View for AppError {
    type V = AppErrorView;

    open spec fn view(&self) -> AppErrorView {
        match self {
            AppError::NotFound => AppErrorView::NotFound,
            AppError::ValidationError(details) => AppErrorView::ValidationError(details@),
            AppError::MutexError => AppErrorView::MutexError,
        }
    }
}

impl AppErrorView {
    /// The error in words.
    pub open spec fn text(self) -> Seq<char> {
        match self {
            AppErrorView::NotFound => "Task não encontrada"@,
            AppErrorView::ValidationError(details) => "Erro de validação: "@ + details,
            AppErrorView::MutexError => "Erro ao travar mutex"@,
        }
    }

    /// The status that the error is answered with.
    pub open spec fn status(self) -> StatusCode {
        match self {
            AppErrorView::NotFound => StatusCode::NotFound,
            AppErrorView::ValidationError(_) => StatusCode::BadRequest,
            AppErrorView::MutexError => StatusCode::InternalServerError,
        }
    }

    /// The message that the error is answered with: the details alone for a
    /// broken rule, the error in words otherwise.
    pub open spec fn message(self) -> Seq<char> {
        match self {
            AppErrorView::ValidationError(details) => details,
            _ => self.text(),
        }
    }
}

/// Whether `response` is the answer to a request that failed with `error`.
pub open spec fn fails_with<T>(response: (StatusCode, ApiResponse<T>), error: AppErrorView) -> bool {
    &&& response.0 == error.status()
    &&& response.1 matches ApiResponse::Error { message }
    &&& message@ == error.message()
}

impl AppError {
    /// The error in words.
    pub fn to_string(&self) -> (s: String)
        ensures
            s@ == self@.text(),
    {
        match self {
            AppError::NotFound => String::from_str("Task não encontrada"),
            AppError::ValidationError(details) => {
                let mut s = String::from_str("Erro de validação: ");
                s.append(details.as_str());
                s
            },
            AppError::MutexError => String::from_str("Erro ao travar mutex"),
        }
    }

    /// The status that the error is answered with.
    pub fn status(&self) -> (status: StatusCode)
        ensures
            status == self@.status(),
    {
        match self {
            AppError::NotFound => StatusCode::NotFound,
            AppError::ValidationError(_) => StatusCode::BadRequest,
            AppError::MutexError => StatusCode::InternalServerError,
        }
    }

    /// The answer to a request that failed with this error.
    pub fn into_response<T>(self) -> (response: (StatusCode, ApiResponse<T>))
        ensures
            fails_with(response, self@),
    {
        let (status, message) = match self {
            AppError::NotFound => (StatusCode::NotFound, self.to_string()),
            AppError::ValidationError(details) => (StatusCode::BadRequest, details),
            AppError::MutexError => (StatusCode::InternalServerError, self.to_string()),
        };
        (status, ApiResponse::Error { message })
    }
}

} // verus!
