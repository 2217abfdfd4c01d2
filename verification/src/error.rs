//! The application-level error taxonomy. Every failure reaches the
//! boundary as a single descriptive line; the collaborators' own error
//! values arrive here already rendered to text.

use vstd::prelude::*;
use vstd::string::StringExecFns;

verus! {

/// An application-level failure.
#[derive(Debug)]
pub enum AppError {
    PlatformNotSupported(String),
    IoError(String),
    JsonError(String),
    DatabaseError(String),
}

/// The mathematical shape of an `AppError`.
pub enum AppErrorV {
    PlatformNotSupported(Seq<char>),
    IoError(Seq<char>),
    JsonError(Seq<char>),
    DatabaseError(Seq<char>),
}

impl View for AppError {
    type V = AppErrorV;

    open spec fn view(&self) -> AppErrorV {
        match self {
            AppError::PlatformNotSupported(s) => AppErrorV::PlatformNotSupported(s@),
            AppError::IoError(s) => AppErrorV::IoError(s@),
            AppError::JsonError(s) => AppErrorV::JsonError(s@),
            AppError::DatabaseError(s) => AppErrorV::DatabaseError(s@),
        }
    }
}

/// The single descriptive line of each failure.
pub open spec fn spec_app_error_message(e: AppErrorV) -> Seq<char> {
    match e {
        AppErrorV::PlatformNotSupported(s) => "Platform not supported: "@ + s,
        AppErrorV::IoError(s) => "IO error: "@ + s,
        AppErrorV::JsonError(s) => "JSON error: "@ + s,
        AppErrorV::DatabaseError(s) => "Database error: "@ + s,
    }
}

impl AppError {
    /// Renders the failure as its descriptive line.
    pub fn message(&self) -> (r: String)
        ensures
            r@ == spec_app_error_message(self@),
    {
        match self {
            AppError::PlatformNotSupported(s) => {
                let mut m: String = "Platform not supported: ".to_owned();
                m.append(s.as_str());
                m
            },
            AppError::IoError(s) => {
                let mut m: String = "IO error: ".to_owned();
                m.append(s.as_str());
                m
            },
            AppError::JsonError(s) => {
                let mut m: String = "JSON error: ".to_owned();
                m.append(s.as_str());
                m
            },
            AppError::DatabaseError(s) => {
                let mut m: String = "Database error: ".to_owned();
                m.append(s.as_str());
                m
            },
        }
    }
}

} // verus!
