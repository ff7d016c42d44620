//! The outgoing request that a finalized builder describes.

use vstd::prelude::*;
use crate::container::PublicAccess;
use crate::headers::{BLOB_PUBLIC_ACCESS, CLIENT_REQUEST_ID, LEASE_ID};
use crate::lease::LeaseId;

verus! {

/// The HTTP method of a request.
#[derive(Clone, Copy, Debug, PartialEq, Eq, Structural)]
pub enum Method {
    Get,
    Put,
    Delete,
    Head,
}

/// The account that requests are addressed to.
#[derive(Clone, Debug)]
pub struct Client {
    pub account: String,
}

impl Client {
    pub fn new(account: &str) -> (r: Client)
        ensures
            r.account@ == account@,
    {
        Client { account: account.to_owned() }
    }

    pub fn account(&self) -> (r: &str)
        ensures
            r@ == self.account@,
    {
        self.account.as_str()
    }
}

/// A request ready to be sent: nothing has been sent yet.
#[derive(Clone, Debug)]
pub struct Request {
    pub method: Method,
    pub uri: String,
    pub headers: Vec<(String, String)>,
    /// The one status code that means success for this operation.
    pub expected_status: u16,
}

/// The mathematical value of a list of request headers.
pub open spec fn header_pairs(headers: Seq<(String, String)>) -> Seq<(Seq<char>, Seq<char>)> {
    Seq::new(headers.len(), |i: int| (headers[i].0@, headers[i].1@))
}

/// Appends one header.
pub fn push_header(headers: &mut Vec<(String, String)>, name: &str, value: &str)
    ensures
        header_pairs(final(headers)@) == header_pairs(old(headers)@).push((name@, value@)),
{
    headers.push((name.to_owned(), value.to_owned()));
    assert(header_pairs(headers@) =~= header_pairs(old(headers)@).push((name@, value@)));
}

/// The headers after an optional client request id was added: one more
/// header where there is an id, none where there is not.
pub open spec fn with_client_request_id_header(
    headers: Seq<(Seq<char>, Seq<char>)>,
    id: Option<Seq<char>>,
) -> Seq<(Seq<char>, Seq<char>)> {
    match id {
        Some(text) => headers.push((CLIENT_REQUEST_ID@, text)),
        None => headers,
    }
}

/// The headers after the public access level was added: one more header
/// unless the container is private.
pub open spec fn with_public_access_header(
    headers: Seq<(Seq<char>, Seq<char>)>,
    access: PublicAccess,
) -> Seq<(Seq<char>, Seq<char>)> {
    if access == PublicAccess::Private {
        headers
    } else {
        headers.push((BLOB_PUBLIC_ACCESS@, access.text()))
    }
}

pub fn add_client_request_id_header(id: Option<&str>, headers: &mut Vec<(String, String)>)
    ensures
        header_pairs(final(headers)@) == with_client_request_id_header(
            header_pairs(old(headers)@),
            match id {
                Some(text) => Some(text@),
                None => None,
            },
        ),
{
    match id {
        Some(text) => push_header(headers, CLIENT_REQUEST_ID, text),
        None => {},
    }
}

pub fn add_lease_id_header(lease_id: &LeaseId, headers: &mut Vec<(String, String)>)
    ensures
        header_pairs(final(headers)@) == header_pairs(old(headers)@).push(
            (LEASE_ID@, lease_id.text@),
        ),
{
    push_header(headers, LEASE_ID, lease_id.text.as_str());
}

pub fn add_public_access_header(access: PublicAccess, headers: &mut Vec<(String, String)>)
    ensures
        header_pairs(final(headers)@) == with_public_access_header(
            header_pairs(old(headers)@),
            access,
        ),
{
    match access {
        PublicAccess::Private => {},
        _ => push_header(headers, BLOB_PUBLIC_ACCESS, access.as_str()),
    }
}

} // verus!
