//! Classification of Discord REST API route strings into ratelimit buckets.
//!
//! A route such as `/channels/123/messages` is split into its `/`-separated
//! segments and matched against the table of known routes; the result is a
//! [`Path`], or a [`PathParseError`] saying why no path could be produced.

pub mod decimal;
pub mod error;
pub mod laws;
pub mod method;
pub mod path;
pub mod segments;

pub use decimal::ParseIntErrorKind;
pub use error::{PathParseError, PathParseErrorType};
pub use method::Method;
pub use path::Path;
