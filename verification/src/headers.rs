//! The headers of a response: their names, and how a decoder looks one up.

use vstd::prelude::*;
use crate::errors::{AzureError, ErrorView, ParseKind};
use crate::text::text_eq;

verus! {

pub const LAST_MODIFIED: &'static str = "last-modified";

pub const ETAG: &'static str = "etag";

pub const LEASE_STATUS: &'static str = "x-ms-lease-status";

pub const LEASE_STATE: &'static str = "x-ms-lease-state";

pub const LEASE_DURATION: &'static str = "x-ms-lease-duration";

pub const LEASE_ID: &'static str = "x-ms-lease-id";

pub const LEASE_ACTION: &'static str = "x-ms-lease-action";

pub const BLOB_PUBLIC_ACCESS: &'static str = "x-ms-blob-public-access";

pub const HAS_IMMUTABILITY_POLICY: &'static str = "x-ms-has-immutability-policy";

pub const HAS_LEGAL_HOLD: &'static str = "x-ms-has-legal-hold";

pub const META_PREFIX: &'static str = "x-ms-meta-";

pub const CLIENT_REQUEST_ID: &'static str = "x-ms-client-request-id";

/// `http::HeaderMap`, the header map of a response. Nothing is known of a
/// value but what [`header_map_lines`] names.
#[verifier::external_type_specification]
#[verifier::external_body]
#[verifier::reject_recursive_types(T)]
pub struct ExHeaderMap<T>(http::HeaderMap<T>);

/// `http::header::HeaderValue`, the value of one header: opaque bytes.
#[verifier::external_type_specification]
#[verifier::external_body]
pub struct ExHeaderValue(http::header::HeaderValue);

/// One header as a decoder sees it: its name, and its value where that is
/// visible ASCII text (`None` where it is not).
pub type HeaderLine = (String, Option<String>);

/// The mathematical value of a list of header lines.
pub type HeaderSeq = Seq<(Seq<char>, Option<Seq<char>>)>;

/// What a header map holds, in the order in which the map is walked: each
/// name with its value, the value taken as text where `HeaderValue::to_str`
/// accepts it.
pub uninterp spec fn header_map_lines(map: http::HeaderMap<http::header::HeaderValue>) -> HeaderSeq;

pub open spec fn line_view(line: HeaderLine) -> (Seq<char>, Option<Seq<char>>) {
    (
        line.0@,
        match line.1 {
            Some(v) => Some(v@),
            None => None,
        },
    )
}

pub open spec fn lines_view(lines: Seq<HeaderLine>) -> HeaderSeq {
    Seq::new(lines.len(), |i: int| line_view(lines[i]))
}

/// Walks the map with `HeaderMap::iter` and copies each pair out: the name by
/// `HeaderName::as_str`, the value by `HeaderValue::to_str`. Trusted: that the
/// lines come in the map's own order, which is what `header_map_lines` names.
#[verifier::external_body]
pub(crate) fn header_lines(map: &http::HeaderMap<http::header::HeaderValue>) -> (r: Vec<HeaderLine>)
    ensures
        lines_view(r@) == header_map_lines(*map),
{
    let mut lines: Vec<HeaderLine> = Vec::new();
    for (name, value) in map.iter() {
        lines.push((name.as_str().to_owned(), value.to_str().ok().map(str::to_owned)));
    }
    lines
}

/// The position of the first line at or after `from` that bears `name`.
pub open spec fn find_from(lines: HeaderSeq, name: Seq<char>, from: int) -> Option<int>
    decreases lines.len() - from,
{
    if from < 0 || from >= lines.len() {
        None
    } else if lines[from].0 == name {
        Some(from)
    } else {
        find_from(lines, name, from + 1)
    }
}

/// The text of an optional header: `Ok(None)` where no line bears the name,
/// the first such line's text otherwise, and a parse error where that line's
/// value is no text.
pub open spec fn optional_text(lines: HeaderSeq, name: Seq<char>) -> Result<
    Option<Seq<char>>,
    ErrorView,
> {
    match find_from(lines, name, 0) {
        None => Ok(None),
        Some(i) => match lines[i].1 {
            Some(text) => Ok(Some(text)),
            None => Err(ErrorView::Parse(ParseKind::Text)),
        },
    }
}

/// The text of a mandatory header: as [`optional_text`], but a missing header
/// is an error that names it.
pub open spec fn required_text(lines: HeaderSeq, name: Seq<char>) -> Result<Seq<char>, ErrorView> {
    match optional_text(lines, name) {
        Ok(Some(text)) => Ok(text),
        Ok(None) => Err(ErrorView::MissingHeader(name)),
        Err(e) => Err(e),
    }
}

/// The index of the first line that bears `name`.
pub fn find_header(lines: &Vec<HeaderLine>, name: &str) -> (r: Option<usize>)
    ensures
        match r {
            Some(i) => find_from(lines_view(lines@), name@, 0) == Some(i as int) && i < lines.len(),
            None => find_from(lines_view(lines@), name@, 0) is None,
        },
{
    let mut i: usize = 0;
    while i < lines.len()
        invariant
            i <= lines.len(),
            find_from(lines_view(lines@), name@, 0) == find_from(lines_view(lines@), name@, i as int),
        decreases lines.len() - i,
    {
        if text_eq(lines[i].0.as_str(), name) {
            return Some(i);
        }
        i += 1;
    }
    None
}

pub fn optional_header<'a>(lines: &'a Vec<HeaderLine>, name: &str) -> (r: Result<
    Option<&'a str>,
    AzureError,
>)
    ensures
        match r {
            Ok(Some(text)) => optional_text(lines_view(lines@), name@) == Ok::<
                Option<Seq<char>>,
                ErrorView,
            >(Some(text@)),
            Ok(None) => optional_text(lines_view(lines@), name@) == Ok::<
                Option<Seq<char>>,
                ErrorView,
            >(None),
            Err(e) => optional_text(lines_view(lines@), name@) == Err::<
                Option<Seq<char>>,
                ErrorView,
            >(e@),
        },
{
    match find_header(lines, name) {
        None => Ok(None),
        Some(i) => match &lines[i].1 {
            Some(text) => Ok(Some(text.as_str())),
            None => Err(AzureError::ParseError(ParseKind::Text)),
        },
    }
}

pub fn required_header<'a>(lines: &'a Vec<HeaderLine>, name: &str) -> (r: Result<
    &'a str,
    AzureError,
>)
    ensures
        match r {
            Ok(text) => required_text(lines_view(lines@), name@) == Ok::<Seq<char>, ErrorView>(
                text@,
            ),
            Err(e) => required_text(lines_view(lines@), name@) == Err::<Seq<char>, ErrorView>(e@),
        },
{
    match optional_header(lines, name)? {
        Some(text) => Ok(text),
        None => Err(AzureError::MissingHeaderError(name.to_owned())),
    }
}

} // verus!
