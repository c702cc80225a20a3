//! An interactive console core for composing and executing parameterized
//! remote procedure calls over JSON-over-HTTP.
//!
//! The crate holds the session logic: the mode state machine that routes key
//! events, the autocomplete index over the command catalog, the bounded
//! history log, the request dispatcher that builds URLs and classifies
//! outcomes, and the output viewer that highlights and scrolls JSON text.
//! Terminal drawing, networking, clipboard and file writes live outside.

pub mod text;
pub mod catalog;
pub mod error;
pub mod clock;
pub mod highlight;
pub mod keys;
pub mod state;
pub mod json;
pub mod dispatch;
pub mod input;
