//! Opaque error type with a user-defined kind.
//!
//! An [`Error`] keeps a kind that callers compare and match on, and displays the kind's
//! text, a static message, or the text of a source error.

pub mod error;
pub mod laws;

pub use error::{displays_as, BoxedError, Error, ErrorView, Source};
