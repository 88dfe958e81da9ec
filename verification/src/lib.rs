//! Diagnostics for a streaming JSON pipeline: the closed set of failure
//! kinds, the error envelope that carries them, and their renderings.
//!
//! Every stage of the pipeline reports a failure as one [`Error`]. A syntax
//! error holds an [`ErrorCode`] and the position at which it was found; a
//! failure of the byte stream is carried as an [`IoError`], unchanged. An
//! error is turned into text in two ways and no other: a short description
//! to classify it by, and a detail that spells it out.

pub mod code;
pub mod error;
pub mod io;
pub mod laws;
pub mod text;
pub mod token;

pub use code::{ErrorCode, ErrorCodeView};
pub use error::{Error, ErrorView};
pub use io::{IoError, IoErrorView};
pub use token::{Token, TokenKind};
