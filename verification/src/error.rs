//! What goes wrong, with the message for the operator.

use vstd::prelude::*;

verus! {

/// An error with its message.
#[derive(Debug, Clone, PartialEq, Eq)]
pub enum AppError {
    /// The configuration or the invocation is at fault.
    Config(String),
    /// The Xray server or its files are at fault.
    Xray(String),
    /// A document is not the JSON that it should be.
    Json(String),
}

/// A fault of the configuration with that message.
pub open spec fn is_config(e: AppError, m: Seq<char>) -> bool {
    e matches AppError::Config(t) && t@ == m
}

/// A fault of the server with that message.
pub open spec fn is_xray(e: AppError, m: Seq<char>) -> bool {
    e matches AppError::Xray(t) && t@ == m
}

/// A fault of a document with that message.
pub open spec fn is_json(e: AppError, m: Seq<char>) -> bool {
    e matches AppError::Json(t) && t@ == m
}

impl AppError {
    /// The message.
    pub open spec fn text(self) -> Seq<char> {
        match self {
            AppError::Config(m) => m@,
            AppError::Xray(m) => m@,
            AppError::Json(m) => m@,
        }
    }

    /// The message.
    pub fn message(&self) -> (r: &str)
        ensures
            r@ == self.text(),
    {
        match self {
            AppError::Config(m) => m.as_str(),
            AppError::Xray(m) => m.as_str(),
            AppError::Json(m) => m.as_str(),
        }
    }
}

} // verus!
