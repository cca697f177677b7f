use vstd::prelude::*;

verus! {

/// What can go wrong between reading the arguments and printing a response.
#[derive(Debug, Clone, Copy, PartialEq, Eq, Structural)]
pub enum ParseError {
    /// A body token holds no `=`.
    MalformedPair,
    /// The URL argument is not an absolute URL.
    InvalidUrl,
    /// The `Content-Type` header value is not text.
    HeaderDecodeFailure,
    /// The `Content-Type` header value is not a media type.
    InvalidContentType,
    /// The body was declared JSON but does not parse as JSON.
    InvalidJson,
}

impl ParseError {
    /// The one-line description of each error.
    pub open spec fn message_of(self) -> Seq<char> {
        match self {
            ParseError::MalformedPair => "malformed key=value pair"@,
            ParseError::InvalidUrl => "invalid URL"@,
            ParseError::HeaderDecodeFailure => "header value is not text"@,
            ParseError::InvalidContentType => "invalid content type"@,
            ParseError::InvalidJson => "body is not valid JSON"@,
        }
    }

    /// A one-line description of the error.
    pub fn message(&self) -> (r: String)
        ensures
            r@ == self.message_of(),
    {
        match self {
            ParseError::MalformedPair => String::from_str("malformed key=value pair"),
            ParseError::InvalidUrl => String::from_str("invalid URL"),
            ParseError::HeaderDecodeFailure => String::from_str("header value is not text"),
            ParseError::InvalidContentType => String::from_str("invalid content type"),
            ParseError::InvalidJson => String::from_str("body is not valid JSON"),
        }
    }
}

} // verus!
