//! The failures that decoding a response can end in.

use vstd::prelude::*;

verus! {

/// Which kind of leaf value a text failed to convert to.
#[derive(Clone, Copy, Debug, PartialEq, Eq, Structural)]
pub enum ParseKind {
    /// A date that is not in RFC 2822 format.
    Date,
    /// A boolean that is neither `true` nor `false`.
    Bool,
    /// A word that names no variant of the expected enumeration.
    Enumeration,
    /// A header value that is not visible ASCII text.
    Text,
}

/// A failure of one request. Every failure is final: no partial entity is
/// ever returned beside it.
#[derive(Clone, Debug)]
pub enum AzureError {
    /// The named header is mandatory and the response lacks it.
    MissingHeaderError(String),
    /// A header or an XML leaf does not convert to its target type.
    ParseError(ParseKind),
    /// The body's shape is not the expected one; the text says how.
    UnexpectedXMLError(String),
    /// The service answered with a status other than the expected one:
    /// the expected code, then the actual one.
    UnexpectedStatusCode(u16, u16),
}

/// The mathematical value of an [`AzureError`].
pub enum ErrorView {
    MissingHeader(Seq<char>),
    Parse(ParseKind),
    UnexpectedXml(Seq<char>),
    UnexpectedStatus(u16, u16),
}

impl View for AzureError {
    type V = ErrorView;

    open spec fn view(&self) -> ErrorView {
        match *self {
            AzureError::MissingHeaderError(name) => ErrorView::MissingHeader(name@),
            AzureError::ParseError(kind) => ErrorView::Parse(kind),
            AzureError::UnexpectedXMLError(message) => ErrorView::UnexpectedXml(message@),
            AzureError::UnexpectedStatusCode(expected, actual) => ErrorView::UnexpectedStatus(
                expected,
                actual,
            ),
        }
    }
}

/// Holds the status that came back against the one success code of the
/// operation.
pub fn check_status(actual: u16, expected: u16) -> (r: Result<(), AzureError>)
    ensures
        r is Ok <==> actual == expected,
        r is Err ==> r->Err_0@ == ErrorView::UnexpectedStatus(expected, actual),
{
    if actual == expected {
        Ok(())
    } else {
        Err(AzureError::UnexpectedStatusCode(expected, actual))
    }
}

} // verus!
