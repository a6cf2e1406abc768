//! The error that routing and decoding report.

use vstd::prelude::*;
use vstd::string::StringExecFns;

verus! {

/// Why an activation URL could not be turned into a command.
///
/// Each variant carries the text that was at fault, so that the failure can
/// be shown to the user.
#[derive(Debug, Clone)]
pub enum ParseError {
    /// The host segment names no supported command; holds that name.
    UnsupportedHost(String),
    /// The URL or its query could not be read; holds the offending text.
    InvalidQuery(String),
}

/// Mathematical value of a [`ParseError`].
pub enum ParseErrorView {
    UnsupportedHost(Seq<char>),
    InvalidQuery(Seq<char>),
}

impl View for ParseError {
    type V = ParseErrorView;

    open spec fn view(&self) -> ParseErrorView {
        match self {
            ParseError::UnsupportedHost(host) => ParseErrorView::UnsupportedHost(host@),
            ParseError::InvalidQuery(query) => ParseErrorView::InvalidQuery(query@),
        }
    }
}

impl ParseErrorView {
    /// The text a [`ParseError`] with this value renders to.
    pub open spec fn message(self) -> Seq<char> {
        match self {
            ParseErrorView::UnsupportedHost(host) => "Unsupported host: "@ + host,
            ParseErrorView::InvalidQuery(query) => "Unsupported query arguments: "@ + query,
        }
    }
}

impl ParseError {
    /// Renders the error as a sentence for the user: a fixed prefix that
    /// tells the kind, followed by the offending text.
    pub fn message(&self) -> (text: String)
        ensures
            text@ == self@.message(),
    {
        match self {
            ParseError::UnsupportedHost(host) => {
                "Unsupported host: ".to_string().concat(host.as_str())
            },
            ParseError::InvalidQuery(query) => {
                "Unsupported query arguments: ".to_string().concat(query.as_str())
            },
        }
    }
}

} // verus!
