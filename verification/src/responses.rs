//! What the service answers to a released lease.

use vstd::prelude::*;
use crate::container::{or_parse_error, parsed_or};
use crate::errors::{check_status, AzureError, ErrorView, ParseKind};
use crate::headers::{
    header_lines, header_map_lines, lines_view, required_header, required_text, HeaderLine,
    HeaderSeq, ETAG, LAST_MODIFIED,
};
use crate::time::{instant_of, Instant};

verus! {

/// The headers of the answer to a released lease.
#[derive(Clone, Debug)]
pub struct ReleaseBlobLeaseResponse {
    pub e_tag: String,
    pub last_modified: Instant,
}

/// The mathematical value of a [`ReleaseBlobLeaseResponse`].
pub struct ReleaseView {
    pub e_tag: Seq<char>,
    pub last_modified: Instant,
}

impl View for ReleaseBlobLeaseResponse {
    type V = ReleaseView;

    open spec fn view(&self) -> ReleaseView {
        ReleaseView { e_tag: self.e_tag@, last_modified: self.last_modified }
    }
}

/// What the headers say: the e-tag, then the date of the last modification,
/// or the first failure in that order.
pub open spec fn decoded_release(lines: HeaderSeq) -> Result<ReleaseView, ErrorView> {
    match required_text(lines, ETAG@) {
        Err(e) => Err(e),
        Ok(e_tag) => match required_text(lines, LAST_MODIFIED@) {
            Err(e) => Err(e),
            Ok(date) => match or_parse_error(instant_of(date), ParseKind::Date) {
                Err(e) => Err(e),
                Ok(last_modified) => Ok(ReleaseView { e_tag, last_modified }),
            },
        },
    }
}

/// What a whole answer says: a status other than the expected 200 is a
/// failure whatever the headers hold; with it, the headers are decoded.
pub open spec fn decoded_release_answer(status: u16, lines: HeaderSeq) -> Result<
    ReleaseView,
    ErrorView,
> {
    if status != 200 {
        Err(ErrorView::UnexpectedStatus(200, status))
    } else {
        decoded_release(lines)
    }
}

/// An executable answer stands for a mathematical one.
pub open spec fn release_decodes_to(
    r: Result<ReleaseBlobLeaseResponse, AzureError>,
    s: Result<ReleaseView, ErrorView>,
) -> bool {
    match r {
        Ok(v) => s == Ok::<ReleaseView, ErrorView>(v@),
        Err(e) => s == Err::<ReleaseView, ErrorView>(e@),
    }
}

impl ReleaseBlobLeaseResponse {
    pub fn from_header_lines(lines: &Vec<HeaderLine>) -> (r: Result<
        ReleaseBlobLeaseResponse,
        AzureError,
    >)
        ensures
            release_decodes_to(r, decoded_release(lines_view(lines@))),
    {
        let e_tag = required_header(lines, ETAG)?.to_owned();
        let date = required_header(lines, LAST_MODIFIED)?;
        let last_modified = parsed_or(Instant::parse_rfc2822(date), ParseKind::Date)?;
        Ok(ReleaseBlobLeaseResponse { e_tag, last_modified })
    }

    pub fn from_headers(headers: &http::HeaderMap<http::header::HeaderValue>) -> (r: Result<
        ReleaseBlobLeaseResponse,
        AzureError,
    >)
        ensures
            release_decodes_to(r, decoded_release(header_map_lines(*headers))),
    {
        let lines = header_lines(headers);
        ReleaseBlobLeaseResponse::from_header_lines(&lines)
    }

    /// Holds the status against 200, then decodes the headers.
    pub fn from_answer(status: u16, lines: &Vec<HeaderLine>) -> (r: Result<
        ReleaseBlobLeaseResponse,
        AzureError,
    >)
        ensures
            release_decodes_to(r, decoded_release_answer(status, lines_view(lines@))),
    {
        match check_status(status, 200) {
            Ok(_) => ReleaseBlobLeaseResponse::from_header_lines(lines),
            Err(e) => Err(e),
        }
    }
}

/// Decoding depends on nothing but what is decoded: two decodings of the
/// same headers succeed or fail together, with equal entities or equal
/// failures.
pub proof fn lemma_release_decoding_repeats(
    first: Result<ReleaseBlobLeaseResponse, AzureError>,
    second: Result<ReleaseBlobLeaseResponse, AzureError>,
    lines: HeaderSeq,
)
    requires
        release_decodes_to(first, decoded_release(lines)),
        release_decodes_to(second, decoded_release(lines)),
    ensures
        first is Ok <==> second is Ok,
        first is Ok ==> first->Ok_0@ == second->Ok_0@,
        first is Err ==> first->Err_0@ == second->Err_0@,
{
}

} // verus!
