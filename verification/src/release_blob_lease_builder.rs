//! The builder of the request that releases the lease on a blob.

use vstd::prelude::*;
use vstd::string::*;
use core::marker::PhantomData;
use crate::capabilities::{
    BlobNameRequired, BlobNameSupport, ClientRequestIdOption, ClientRequestIdSupport,
    ClientRequired, ContainerNameRequired, ContainerNameSupport, LeaseIdRequired, LeaseIdSupport,
    No, TimeoutOption, TimeoutSupport, ToAssign, Yes,
};
use crate::headers::{LEASE_ACTION, LEASE_ID};
use crate::lease::LeaseId;
use crate::request::{
    header_pairs, push_header, with_client_request_id_header, Client, Method, Request,
};
use crate::uri::{blob_uri, generate_blob_uri, timeout_parameter};

verus! {

/// The parameters that a builder holds.
pub struct BuilderView {
    pub account: Seq<char>,
    pub container_name: Option<Seq<char>>,
    pub blob_name: Option<Seq<char>>,
    pub lease_id: Option<Seq<char>>,
    pub timeout: Option<u64>,
    pub client_request_id: Option<Seq<char>>,
}

/// A mutator of an optional parameter.
pub enum OptionalField {
    Timeout(u64),
    ClientRequestId(Seq<char>),
}

/// The parameters after one optional mutator.
pub open spec fn apply_optional(v: BuilderView, field: OptionalField) -> BuilderView {
    match field {
        OptionalField::Timeout(t) => BuilderView { timeout: Some(t), ..v },
        OptionalField::ClientRequestId(id) => BuilderView { client_request_id: Some(id), ..v },
    }
}

/// The parameters after a sequence of optional mutators, applied in order.
pub open spec fn apply_optionals(v: BuilderView, fields: Seq<OptionalField>) -> BuilderView
    decreases fields.len(),
{
    if fields.len() == 0 {
        v
    } else {
        apply_optional(apply_optionals(v, fields.drop_last()), fields.last())
    }
}

/// The last timeout among the mutators, if any sets one.
pub open spec fn last_timeout(fields: Seq<OptionalField>) -> Option<u64>
    decreases fields.len(),
{
    if fields.len() == 0 {
        None
    } else {
        match fields.last() {
            OptionalField::Timeout(t) => Some(t),
            _ => last_timeout(fields.drop_last()),
        }
    }
}

/// The last client request id among the mutators, if any sets one.
pub open spec fn last_client_request_id(fields: Seq<OptionalField>) -> Option<Seq<char>>
    decreases fields.len(),
{
    if fields.len() == 0 {
        None
    } else {
        match fields.last() {
            OptionalField::ClientRequestId(id) => Some(id),
            _ => last_client_request_id(fields.drop_last()),
        }
    }
}

/// A mutator of any parameter.
pub enum Mutator {
    ContainerName(Seq<char>),
    BlobName(Seq<char>),
    LeaseId(Seq<char>),
    Optional(OptionalField),
}

/// The parameters after one mutator: the one parameter is set, the others
/// are carried forward.
pub open spec fn apply_mutator(v: BuilderView, mutator: Mutator) -> BuilderView {
    match mutator {
        Mutator::ContainerName(name) => BuilderView { container_name: Some(name), ..v },
        Mutator::BlobName(name) => BuilderView { blob_name: Some(name), ..v },
        Mutator::LeaseId(id) => BuilderView { lease_id: Some(id), ..v },
        Mutator::Optional(field) => apply_optional(v, field),
    }
}

/// The parameters after a sequence of mutators, applied in order.
pub open spec fn apply_mutators(v: BuilderView, mutators: Seq<Mutator>) -> BuilderView
    decreases mutators.len(),
{
    if mutators.len() == 0 {
        v
    } else {
        apply_mutator(apply_mutators(v, mutators.drop_last()), mutators.last())
    }
}

/// The parameters of a new builder: nothing is set.
pub open spec fn unset(account: Seq<char>) -> BuilderView {
    BuilderView {
        account,
        container_name: None,
        blob_name: None,
        lease_id: None,
        timeout: None,
        client_request_id: None,
    }
}

/// Every mandatory parameter is held.
pub open spec fn finalizable(v: BuilderView) -> bool {
    v.container_name is Some && v.blob_name is Some && v.lease_id is Some
}

/// Some mutator among these sets the container name.
pub open spec fn gives_container_name(mutators: Seq<Mutator>) -> bool
    decreases mutators.len(),
{
    mutators.len() > 0 && (mutators.last() is ContainerName || gives_container_name(
        mutators.drop_last(),
    ))
}

/// Some mutator among these sets the blob name.
pub open spec fn gives_blob_name(mutators: Seq<Mutator>) -> bool
    decreases mutators.len(),
{
    mutators.len() > 0 && (mutators.last() is BlobName || gives_blob_name(mutators.drop_last()))
}

/// Some mutator among these sets the lease id.
pub open spec fn gives_lease_id(mutators: Seq<Mutator>) -> bool
    decreases mutators.len(),
{
    mutators.len() > 0 && (mutators.last() is LeaseId || gives_lease_id(mutators.drop_last()))
}

/// A builder that started with nothing set holds every mandatory parameter
/// exactly when each of the three mandatory mutators was called at least
/// once, in whatever order and with whatever optional mutators between.
pub proof fn lemma_finalizable_iff_all_given(account: Seq<char>, mutators: Seq<Mutator>)
    ensures
        apply_mutators(unset(account), mutators).container_name is Some <==> gives_container_name(
            mutators,
        ),
        apply_mutators(unset(account), mutators).blob_name is Some <==> gives_blob_name(mutators),
        apply_mutators(unset(account), mutators).lease_id is Some <==> gives_lease_id(mutators),
        finalizable(apply_mutators(unset(account), mutators)) <==> gives_container_name(mutators)
            && gives_blob_name(mutators) && gives_lease_id(mutators),
    decreases mutators.len(),
{
    if mutators.len() > 0 {
        lemma_finalizable_iff_all_given(account, mutators.drop_last());
    }
}

/// The query of the release request: the operation's marker, then the
/// timeout where one was set.
pub open spec fn release_query(timeout: Option<u64>) -> Seq<char> {
    match timeout {
        Some(t) => "comp=lease"@ + "&"@ + timeout_parameter(t),
        None => "comp=lease"@,
    }
}

/// The address of the release request.
pub open spec fn release_uri(v: BuilderView) -> Seq<char> {
    blob_uri(v.account, v.container_name->0, v.blob_name->0, Some(release_query(v.timeout)))
}

/// The headers of the release request: the lease id, the action, and the
/// client request id where one was set.
pub open spec fn release_headers(v: BuilderView) -> Seq<(Seq<char>, Seq<char>)> {
    with_client_request_id_header(
        seq![(LEASE_ID@, v.lease_id->0), (LEASE_ACTION@, "release"@)],
        v.client_request_id,
    )
}

/// Optional mutators touch no mandatory parameter, and of each optional
/// parameter the last value given stands, whatever was called in between:
/// the request's query and headers hold one entry for each optional
/// parameter that was set, in whatever order the mutators were called.
pub proof fn lemma_optional_mutators(v: BuilderView, fields: Seq<OptionalField>)
    ensures
        apply_optionals(v, fields) == (BuilderView {
            timeout: match last_timeout(fields) {
                Some(t) => Some(t),
                None => v.timeout,
            },
            client_request_id: match last_client_request_id(fields) {
                Some(id) => Some(id),
                None => v.client_request_id,
            },
            ..v
        }),
        release_query(apply_optionals(v, fields).timeout) == release_query(
            match last_timeout(fields) {
                Some(t) => Some(t),
                None => v.timeout,
            },
        ),
    decreases fields.len(),
{
    if fields.len() > 0 {
        lemma_optional_mutators(v, fields.drop_last());
    }
}

/// Two optional mutators of different parameters give the same request in
/// either order.
pub proof fn lemma_optional_order(v: BuilderView, timeout: u64, id: Seq<char>)
    ensures
        apply_optional(apply_optional(v, OptionalField::Timeout(timeout)), OptionalField::ClientRequestId(id))
            == apply_optional(
            apply_optional(v, OptionalField::ClientRequestId(id)),
            OptionalField::Timeout(timeout),
        ),
        release_uri(apply_optional(v, OptionalField::ClientRequestId(id))) == release_uri(v),
        release_headers(apply_optional(v, OptionalField::Timeout(timeout))) == release_headers(v),
{
}

/// The request that releases the lease on a blob, under construction. The
/// three type parameters record whether the container name, the blob name
/// and the lease id were given; only with all three can it be finalized.
#[derive(Debug)]
pub struct ReleaseBlobLeaseBuilder<'a, ContainerNameSet, BlobNameSet, LeaseIdSet> where
    ContainerNameSet: ToAssign,
    BlobNameSet: ToAssign,
    LeaseIdSet: ToAssign,
 {
    client: &'a Client,
    p_container_name: PhantomData<ContainerNameSet>,
    p_blob_name: PhantomData<BlobNameSet>,
    p_lease_id: PhantomData<LeaseIdSet>,
    container_name: Option<&'a str>,
    blob_name: Option<&'a str>,
    lease_id: Option<&'a LeaseId>,
    timeout: Option<u64>,
    client_request_id: Option<&'a str>,
}

impl<'a, ContainerNameSet, BlobNameSet, LeaseIdSet> View for ReleaseBlobLeaseBuilder<
    'a,
    ContainerNameSet,
    BlobNameSet,
    LeaseIdSet,
> where ContainerNameSet: ToAssign, BlobNameSet: ToAssign, LeaseIdSet: ToAssign {
    type V = BuilderView;

    closed spec fn view(&self) -> BuilderView {
        BuilderView {
            account: self.client.account@,
            container_name: match self.container_name {
                Some(s) => Some(s@),
                None => None,
            },
            blob_name: match self.blob_name {
                Some(s) => Some(s@),
                None => None,
            },
            lease_id: match self.lease_id {
                Some(id) => Some(id.text@),
                None => None,
            },
            timeout: self.timeout,
            client_request_id: match self.client_request_id {
                Some(s) => Some(s@),
                None => None,
            },
        }
    }
}

impl<'a> ReleaseBlobLeaseBuilder<'a, No, No, No> {
    /// A builder with nothing set.
    pub fn new(client: &'a Client) -> (r: ReleaseBlobLeaseBuilder<'a, No, No, No>)
        ensures
            r@ == unset(client.account@),
    {
        ReleaseBlobLeaseBuilder {
            client,
            p_container_name: PhantomData,
            container_name: None,
            p_blob_name: PhantomData,
            blob_name: None,
            p_lease_id: PhantomData,
            lease_id: None,
            timeout: None,
            client_request_id: None,
        }
    }
}

impl<'a, BlobNameSet, LeaseIdSet> ContainerNameRequired<'a> for ReleaseBlobLeaseBuilder<
    'a,
    Yes,
    BlobNameSet,
    LeaseIdSet,
> where BlobNameSet: ToAssign, LeaseIdSet: ToAssign {
    open spec fn container_name_text(&self) -> Seq<char> {
        self@.container_name->0
    }

    fn container_name(&self) -> (r: &'a str)
        ensures
            self@.container_name == Some(r@),
    {
        proof {
            use_type_invariant(self);
        }
        self.container_name.unwrap()
    }
}

impl<'a, ContainerNameSet, LeaseIdSet> BlobNameRequired<'a> for ReleaseBlobLeaseBuilder<
    'a,
    ContainerNameSet,
    Yes,
    LeaseIdSet,
> where ContainerNameSet: ToAssign, LeaseIdSet: ToAssign {
    open spec fn blob_name_text(&self) -> Seq<char> {
        self@.blob_name->0
    }

    fn blob_name(&self) -> (r: &'a str)
        ensures
            self@.blob_name == Some(r@),
    {
        proof {
            use_type_invariant(self);
        }
        self.blob_name.unwrap()
    }
}

impl<'a, ContainerNameSet, BlobNameSet> LeaseIdRequired<'a> for ReleaseBlobLeaseBuilder<
    'a,
    ContainerNameSet,
    BlobNameSet,
    Yes,
> where ContainerNameSet: ToAssign, BlobNameSet: ToAssign {
    open spec fn lease_id_text(&self) -> Seq<char> {
        self@.lease_id->0
    }

    fn lease_id(&self) -> (r: &'a LeaseId)
        ensures
            self@.lease_id == Some(r.text@),
    {
        proof {
            use_type_invariant(self);
        }
        self.lease_id.unwrap()
    }
}

impl<'a, ContainerNameSet, BlobNameSet, LeaseIdSet> ReleaseBlobLeaseBuilder<'a, ContainerNameSet, BlobNameSet, LeaseIdSet> where
    ContainerNameSet: ToAssign,
    BlobNameSet: ToAssign,
    LeaseIdSet: ToAssign,
 {
    /// A parameter whose marker says that it was given is held.
    #[verifier::type_invariant]
    spec fn markers_hold(&self) -> bool {
        &&& ContainerNameSet::assigned() ==> self.container_name is Some
        &&& BlobNameSet::assigned() ==> self.blob_name is Some
        &&& LeaseIdSet::assigned() ==> self.lease_id is Some
    }
}

impl<'a, ContainerNameSet, BlobNameSet, LeaseIdSet> Clone for ReleaseBlobLeaseBuilder<
    'a,
    ContainerNameSet,
    BlobNameSet,
    LeaseIdSet,
> where ContainerNameSet: ToAssign, BlobNameSet: ToAssign, LeaseIdSet: ToAssign {
    fn clone(&self) -> (r: Self)
        ensures
            r@ == self@,
    {
        proof {
            use_type_invariant(self);
        }
        ReleaseBlobLeaseBuilder {
            client: self.client,
            p_container_name: PhantomData,
            p_blob_name: PhantomData,
            p_lease_id: PhantomData,
            container_name: self.container_name,
            blob_name: self.blob_name,
            lease_id: self.lease_id,
            timeout: self.timeout,
            client_request_id: self.client_request_id,
        }
    }
}

impl<'a, ContainerNameSet, BlobNameSet, LeaseIdSet> ClientRequired<'a> for ReleaseBlobLeaseBuilder<'a, ContainerNameSet, BlobNameSet, LeaseIdSet> where
    ContainerNameSet: ToAssign,
    BlobNameSet: ToAssign,
    LeaseIdSet: ToAssign,
 {
    open spec fn account_text(&self) -> Seq<char> {
        self@.account
    }

    fn client(&self) -> (r: &'a Client) {
        self.client
    }
}

impl<'a, ContainerNameSet, BlobNameSet, LeaseIdSet> TimeoutOption for ReleaseBlobLeaseBuilder<'a, ContainerNameSet, BlobNameSet, LeaseIdSet> where
    ContainerNameSet: ToAssign,
    BlobNameSet: ToAssign,
    LeaseIdSet: ToAssign,
 {
    open spec fn timeout_value(&self) -> Option<u64> {
        self@.timeout
    }

    fn timeout(&self) -> (r: Option<u64>) {
        self.timeout
    }
}

impl<'a, ContainerNameSet, BlobNameSet, LeaseIdSet> ClientRequestIdOption<'a> for ReleaseBlobLeaseBuilder<'a, ContainerNameSet, BlobNameSet, LeaseIdSet> where
    ContainerNameSet: ToAssign,
    BlobNameSet: ToAssign,
    LeaseIdSet: ToAssign,
 {
    open spec fn client_request_id_text(&self) -> Option<Seq<char>> {
        self@.client_request_id
    }

    fn client_request_id(&self) -> (r: Option<&'a str>) {
        self.client_request_id
    }
}

impl<'a, ContainerNameSet, BlobNameSet, LeaseIdSet> ContainerNameSupport<'a> for ReleaseBlobLeaseBuilder<'a, ContainerNameSet, BlobNameSet, LeaseIdSet> where
    ContainerNameSet: ToAssign,
    BlobNameSet: ToAssign,
    LeaseIdSet: ToAssign,
 {
    type O = ReleaseBlobLeaseBuilder<'a, Yes, BlobNameSet, LeaseIdSet>;

    fn with_container_name(self, container_name: &'a str) -> (r: Self::O)
        ensures
            r@ == apply_mutator(self@, Mutator::ContainerName(container_name@)),
    {
        proof {
            use_type_invariant(&self);
        }
        ReleaseBlobLeaseBuilder {
            client: self.client,
            p_container_name: PhantomData,
            p_blob_name: PhantomData,
            p_lease_id: PhantomData,
            container_name: Some(container_name),
            blob_name: self.blob_name,
            lease_id: self.lease_id,
            timeout: self.timeout,
            client_request_id: self.client_request_id,
        }
    }
}

impl<'a, ContainerNameSet, BlobNameSet, LeaseIdSet> BlobNameSupport<'a> for ReleaseBlobLeaseBuilder<'a, ContainerNameSet, BlobNameSet, LeaseIdSet> where
    ContainerNameSet: ToAssign,
    BlobNameSet: ToAssign,
    LeaseIdSet: ToAssign,
 {
    type O = ReleaseBlobLeaseBuilder<'a, ContainerNameSet, Yes, LeaseIdSet>;

    fn with_blob_name(self, blob_name: &'a str) -> (r: Self::O)
        ensures
            r@ == apply_mutator(self@, Mutator::BlobName(blob_name@)),
    {
        proof {
            use_type_invariant(&self);
        }
        ReleaseBlobLeaseBuilder {
            client: self.client,
            p_container_name: PhantomData,
            p_blob_name: PhantomData,
            p_lease_id: PhantomData,
            container_name: self.container_name,
            blob_name: Some(blob_name),
            lease_id: self.lease_id,
            timeout: self.timeout,
            client_request_id: self.client_request_id,
        }
    }
}

impl<'a, ContainerNameSet, BlobNameSet, LeaseIdSet> LeaseIdSupport<'a> for ReleaseBlobLeaseBuilder<'a, ContainerNameSet, BlobNameSet, LeaseIdSet> where
    ContainerNameSet: ToAssign,
    BlobNameSet: ToAssign,
    LeaseIdSet: ToAssign,
 {
    type O = ReleaseBlobLeaseBuilder<'a, ContainerNameSet, BlobNameSet, Yes>;

    fn with_lease_id(self, lease_id: &'a LeaseId) -> (r: Self::O)
        ensures
            r@ == apply_mutator(self@, Mutator::LeaseId(lease_id.text@)),
    {
        proof {
            use_type_invariant(&self);
        }
        ReleaseBlobLeaseBuilder {
            client: self.client,
            p_container_name: PhantomData,
            p_blob_name: PhantomData,
            p_lease_id: PhantomData,
            container_name: self.container_name,
            blob_name: self.blob_name,
            lease_id: Some(lease_id),
            timeout: self.timeout,
            client_request_id: self.client_request_id,
        }
    }
}

impl<'a, ContainerNameSet, BlobNameSet, LeaseIdSet> TimeoutSupport for ReleaseBlobLeaseBuilder<'a, ContainerNameSet, BlobNameSet, LeaseIdSet> where
    ContainerNameSet: ToAssign,
    BlobNameSet: ToAssign,
    LeaseIdSet: ToAssign,
 {
    type O = ReleaseBlobLeaseBuilder<'a, ContainerNameSet, BlobNameSet, LeaseIdSet>;

    fn with_timeout(self, timeout: u64) -> (r: Self::O)
        ensures
            r@ == apply_mutator(self@, Mutator::Optional(OptionalField::Timeout(timeout))),
    {
        proof {
            use_type_invariant(&self);
        }
        ReleaseBlobLeaseBuilder {
            client: self.client,
            p_container_name: PhantomData,
            p_blob_name: PhantomData,
            p_lease_id: PhantomData,
            container_name: self.container_name,
            blob_name: self.blob_name,
            lease_id: self.lease_id,
            timeout: Some(timeout),
            client_request_id: self.client_request_id,
        }
    }
}

impl<'a, ContainerNameSet, BlobNameSet, LeaseIdSet> ClientRequestIdSupport<'a> for ReleaseBlobLeaseBuilder<'a, ContainerNameSet, BlobNameSet, LeaseIdSet> where
    ContainerNameSet: ToAssign,
    BlobNameSet: ToAssign,
    LeaseIdSet: ToAssign,
 {
    type O = ReleaseBlobLeaseBuilder<'a, ContainerNameSet, BlobNameSet, LeaseIdSet>;

    fn with_client_request_id(self, client_request_id: &'a str) -> (r: Self::O)
        ensures
            r@ == apply_mutator(
                self@,
                Mutator::Optional(OptionalField::ClientRequestId(client_request_id@)),
            ),
    {
        proof {
            use_type_invariant(&self);
        }
        ReleaseBlobLeaseBuilder {
            client: self.client,
            p_container_name: PhantomData,
            p_blob_name: PhantomData,
            p_lease_id: PhantomData,
            container_name: self.container_name,
            blob_name: self.blob_name,
            lease_id: self.lease_id,
            timeout: self.timeout,
            client_request_id: Some(client_request_id),
        }
    }
}

impl<'a> ReleaseBlobLeaseBuilder<'a, Yes, Yes, Yes> {
    /// The request that the builder describes: a `PUT` on the blob's lease,
    /// answered with status 200 on success.
    pub fn finalize(self) -> (r: Request)
        ensures
            finalizable(self@),
            r.method == Method::Put,
            r.expected_status == 200,
            r.uri@ == release_uri(self@),
            header_pairs(r.headers@) == release_headers(self@),
    {
        proof {
            use_type_invariant(&self);
        }
        let mut uri = generate_blob_uri(&self, Some("comp=lease"));
        if let Some(parameter) = TimeoutOption::to_uri_parameter(&self) {
            uri.append("&");
            uri.append(parameter.as_str());
            assert(uri@ =~= release_uri(self@));
        }
        let mut headers: Vec<(String, String)> = Vec::new();
        assert(header_pairs(headers@) =~= Seq::<(Seq<char>, Seq<char>)>::empty());
        LeaseIdRequired::add_header(&self, &mut headers);
        push_header(&mut headers, LEASE_ACTION, "release");
        assert(header_pairs(headers@) =~= seq![
            (LEASE_ID@, self@.lease_id->0),
            (LEASE_ACTION@, "release"@),
        ]);
        ClientRequestIdOption::add_header(&self, &mut headers);
        Request { method: Method::Put, uri, headers, expected_status: 200 }
    }
}

} // verus!
