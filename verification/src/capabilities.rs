//! What a request builder can be asked for, one trait per parameter: a
//! mandatory parameter is read through its `Required` trait, which a builder
//! has only once the parameter was given, and given through its `Support`
//! trait; an optional one is read through its `Option` trait.

use vstd::prelude::*;
use crate::container::PublicAccess;
use crate::headers::LEASE_ID;
use crate::lease::LeaseId;
use crate::request::{
    add_client_request_id_header, add_lease_id_header, add_public_access_header, header_pairs,
    with_client_request_id_header, with_public_access_header, Client,
};
use crate::uri::{timeout_parameter, timeout_to_uri_parameter};

verus! {

/// Whether a mandatory parameter has been supplied, as a type.
pub trait ToAssign {
    spec fn assigned() -> bool;
}

/// The parameter has been supplied.
#[derive(Clone, Copy, Debug)]
pub struct Yes;

/// The parameter has not been supplied.
#[derive(Clone, Copy, Debug)]
pub struct No;

impl ToAssign for Yes {
    open spec fn assigned() -> bool {
        true
    }
}

impl ToAssign for No {
    open spec fn assigned() -> bool {
        false
    }
}

pub trait ClientRequired<'a> {
    /// The account that the builder's client addresses.
    spec fn account_text(&self) -> Seq<char>;

    fn client(&self) -> (r: &'a Client)
        ensures
            r.account@ == self.account_text(),
    ;
}

pub trait ContainerNameRequired<'a> {
    /// The container name that the builder holds.
    spec fn container_name_text(&self) -> Seq<char>;

    fn container_name(&self) -> (r: &'a str)
        ensures
            r@ == self.container_name_text(),
    ;
}

pub trait ContainerNameSupport<'a> {
    type O;

    fn with_container_name(self, container_name: &'a str) -> Self::O;
}

pub trait BlobNameRequired<'a> {
    /// The blob name that the builder holds.
    spec fn blob_name_text(&self) -> Seq<char>;

    fn blob_name(&self) -> (r: &'a str)
        ensures
            r@ == self.blob_name_text(),
    ;
}

pub trait BlobNameSupport<'a> {
    type O;

    fn with_blob_name(self, blob_name: &'a str) -> Self::O;
}

pub trait LeaseIdRequired<'a> {
    /// The lease id that the builder holds, in its textual form.
    spec fn lease_id_text(&self) -> Seq<char>;

    fn lease_id(&self) -> (r: &'a LeaseId)
        ensures
            r.text@ == self.lease_id_text(),
    ;

    /// Writes the lease id among the headers.
    fn add_header(&self, headers: &mut Vec<(String, String)>)
        ensures
            header_pairs(final(headers)@) == header_pairs(old(headers)@).push(
                (LEASE_ID@, self.lease_id_text()),
            ),
    {
        add_lease_id_header(self.lease_id(), headers);
    }
}

pub trait LeaseIdSupport<'a> {
    type O;

    fn with_lease_id(self, lease_id: &'a LeaseId) -> Self::O;
}

pub trait TimeoutOption {
    /// The timeout in seconds, where one was set.
    spec fn timeout_value(&self) -> Option<u64>;

    fn timeout(&self) -> (r: Option<u64>)
        ensures
            r == self.timeout_value(),
    ;

    /// The query parameter of the timeout, where one was set.
    fn to_uri_parameter(&self) -> (r: Option<String>)
        ensures
            match self.timeout_value() {
                Some(t) => r is Some && r->0@ == timeout_parameter(t),
                None => r is None,
            },
    {
        match self.timeout() {
            Some(t) => Some(timeout_to_uri_parameter(t)),
            None => None,
        }
    }
}

pub trait TimeoutSupport {
    type O;

    fn with_timeout(self, timeout: u64) -> Self::O;
}

pub trait ClientRequestIdOption<'a> {
    /// The client request id, where one was set.
    spec fn client_request_id_text(&self) -> Option<Seq<char>>;

    fn client_request_id(&self) -> (r: Option<&'a str>)
        ensures
            match r {
                Some(id) => self.client_request_id_text() == Some(id@),
                None => self.client_request_id_text() is None,
            },
    ;

    /// Writes the client request id among the headers, where one was set.
    fn add_header(&self, headers: &mut Vec<(String, String)>)
        ensures
            header_pairs(final(headers)@) == with_client_request_id_header(
                header_pairs(old(headers)@),
                self.client_request_id_text(),
            ),
    {
        add_client_request_id_header(self.client_request_id(), headers);
    }
}

pub trait ClientRequestIdSupport<'a> {
    type O;

    fn with_client_request_id(self, client_request_id: &'a str) -> Self::O;
}

pub trait PublicAccessRequired {
    /// The public access level that the builder holds.
    spec fn access(&self) -> PublicAccess;

    fn public_access(&self) -> (r: PublicAccess)
        ensures
            r == self.access(),
    ;

    /// Writes the access level among the headers: nothing where the
    /// container is private, else one header that bears the level's word.
    fn add_header(&self, headers: &mut Vec<(String, String)>)
        ensures
            header_pairs(final(headers)@) == with_public_access_header(
                header_pairs(old(headers)@),
                self.access(),
            ),
    {
        add_public_access_header(self.public_access(), headers);
    }
}

/// A builder that can be given a public access level.
pub trait PublicAccessSupport {
    type O;

    fn with_public_access(self, public_access: PublicAccess) -> Self::O;
}

} // verus!
