//! Why a route string could not be turned into a [`Path`](crate::path::Path).
use vstd::prelude::*;

use std::num::ParseIntError;

use crate::decimal::ParseIntErrorKind;

verus! {

/// The kind of failure met while parsing a route.
#[derive(Debug)]
#[non_exhaustive]
pub enum PathParseErrorType {
    /// The ID couldn't be parsed as an integer.
    IntegerParsing,
    /// When parsing into a [`Path::ChannelsIdMessagesId`](crate::path::Path::ChannelsIdMessagesId)
    /// variant, the method must also be specified via its `try_from`.
    MessageIdWithoutMethod {
        /// The ID of the channel.
        channel_id: u64,
    },
    /// A static path for the provided path string wasn't found.
    NoMatch,
}

/// A route string could not be parsed into a path.
///
/// The error carries a source, the integer parsing error of the route's ID
/// segment together with that error's kind, exactly when its kind is
/// [`PathParseErrorType::IntegerParsing`].
#[derive(Debug)]
pub struct PathParseError {
    kind: PathParseErrorType,
    source: Option<ParseIntError>,
    source_kind: Option<ParseIntErrorKind>,
}

/// The message shown for an error of the given kind.
pub open spec fn error_message(kind: PathParseErrorType) -> Seq<char> {
    match kind {
        PathParseErrorType::IntegerParsing => "An ID in a segment was invalid"@,
        PathParseErrorType::MessageIdWithoutMethod { .. } => "A message path was detected but the method wasn't given"@,
        PathParseErrorType::NoMatch => "There was no matched path"@,
    }
}

impl PathParseError {
    /// A source error is present exactly for integer parsing failures.
    #[verifier::type_invariant]
    spec fn source_matches_kind(self) -> bool {
        &&& self.source is Some <==> self.kind is IntegerParsing
        &&& self.source_kind is Some <==> self.kind is IntegerParsing
    }

    /// The kind of this error.
    pub closed spec fn spec_kind(&self) -> PathParseErrorType {
        self.kind
    }

    /// The integer parsing error behind this error, if any.
    pub closed spec fn spec_source(&self) -> Option<ParseIntError> {
        self.source
    }

    /// The kind of the integer parsing error behind this error, if any.
    pub closed spec fn spec_source_kind(&self) -> Option<ParseIntErrorKind> {
        self.source_kind
    }

    /// An error for a route whose ID segment is not a valid `u64`, with the
    /// parsing error and its kind.
    pub(crate) fn integer_parsing(source: ParseIntError, source_kind: ParseIntErrorKind) -> (e:
        PathParseError)
        ensures
            e.spec_kind() == PathParseErrorType::IntegerParsing,
            e.spec_source() == Some(source),
            e.spec_source_kind() == Some(source_kind),
    {
        PathParseError {
            kind: PathParseErrorType::IntegerParsing,
            source: Some(source),
            source_kind: Some(source_kind),
        }
    }

    /// An error for a single-message route given without a method.
    pub(crate) fn message_id_without_method(channel_id: u64) -> (e: PathParseError)
        ensures
            e.spec_kind() == (PathParseErrorType::MessageIdWithoutMethod { channel_id }),
            e.spec_source() is None,
            e.spec_source_kind() is None,
    {
        PathParseError {
            kind: PathParseErrorType::MessageIdWithoutMethod { channel_id },
            source: None,
            source_kind: None,
        }
    }

    /// An error for a route that matches no known path.
    pub(crate) fn no_match() -> (e: PathParseError)
        ensures
            e.spec_kind() == PathParseErrorType::NoMatch,
            e.spec_source() is None,
            e.spec_source_kind() is None,
    {
        PathParseError { kind: PathParseErrorType::NoMatch, source: None, source_kind: None }
    }

    /// Immutable reference to the type of error that occurred.
    #[must_use]
    pub fn kind(&self) -> (k: &PathParseErrorType)
        ensures
            *k == self.spec_kind(),
    {
        &self.kind
    }

    /// The kind of the source error, if there is any.
    pub fn source_kind(&self) -> (source_kind: Option<ParseIntErrorKind>)
        ensures
            source_kind == self.spec_source_kind(),
            source_kind is Some <==> self.spec_kind() is IntegerParsing,
    {
        proof {
            use_type_invariant(self);
        }
        self.source_kind
    }

    /// Consume the error, returning the source error if there is any.
    #[must_use]
    pub fn into_source(self) -> (source: Option<ParseIntError>)
        ensures
            source == self.spec_source(),
            source is Some <==> self.spec_kind() is IntegerParsing,
    {
        proof {
            use_type_invariant(&self);
        }
        self.source
    }

    /// Consume the error, returning the owned error type and the source error.
    #[must_use]
    pub fn into_parts(self) -> (parts: (PathParseErrorType, Option<ParseIntError>))
        ensures
            parts.0 == self.spec_kind(),
            parts.1 == self.spec_source(),
            parts.1 is Some <==> parts.0 is IntegerParsing,
    {
        proof {
            use_type_invariant(&self);
        }
        (self.kind, self.source)
    }

    /// The lower-level error that caused this one, if any.
    pub fn source(&self) -> (source: Option<&ParseIntError>)
        ensures
            source matches Some(e) ==> self.spec_source() == Some(*e),
            source is Some <==> self.spec_kind() is IntegerParsing,
    {
        proof {
            use_type_invariant(self);
        }
        match &self.source {
            Some(e) => Some(e),
            None => None,
        }
    }

    /// The human-readable description of this error.
    pub fn to_string(&self) -> (message: String)
        ensures
            message@ == error_message(self.spec_kind()),
    {
        match &self.kind {
            PathParseErrorType::IntegerParsing => "An ID in a segment was invalid".to_owned(),
            PathParseErrorType::MessageIdWithoutMethod { .. } => {
                "A message path was detected but the method wasn't given".to_owned()
            },
            PathParseErrorType::NoMatch => "There was no matched path".to_owned(),
        }
    }
}

} // verus!
