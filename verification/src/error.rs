//! The session-level error type and its rendered message.

use vstd::prelude::*;
use crate::text::push_str_chars;
use crate::text::push_chars;

verus! {

/// A classified failure surfaced to the operator. `src` names the step that
/// failed, `err_span` is the highlighted region of that source text, and
/// `msg` is the human-readable description.
pub enum AppError {
    Auth { src: Vec<char>, err_span: (usize, usize), msg: Vec<char> },
    Request { src: Vec<char>, err_span: (usize, usize), msg: Vec<char> },
    Terminal { src: Vec<char>, err_span: (usize, usize), msg: Vec<char> },
}

/// The one-line rendering of an error.
pub open spec fn message_of(e: AppError) -> Seq<char> {
    match e {
        AppError::Auth { msg, .. } => "Auth error: "@ + msg@,
        AppError::Request { msg, .. } => "Request error: "@ + msg@,
        AppError::Terminal { msg, .. } => "Terminal error: "@ + msg@,
    }
}

impl AppError {
    /// Renders the error as a one-line message.
    pub fn message(&self) -> (r: Vec<char>)
        ensures
            r@ == message_of(*self),
    {
        let mut out: Vec<char> = Vec::new();
        match self {
            AppError::Auth { msg, .. } => {
                push_str_chars(&mut out, "Auth error: ");
                push_chars(&mut out, msg);
            },
            AppError::Request { msg, .. } => {
                push_str_chars(&mut out, "Request error: ");
                push_chars(&mut out, msg);
            },
            AppError::Terminal { msg, .. } => {
                push_str_chars(&mut out, "Terminal error: ");
                push_chars(&mut out, msg);
            },
        }
        out
    }
}

} // verus!
