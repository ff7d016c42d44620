use azure_sdk_storage::capabilities::{
    BlobNameRequired, BlobNameSupport, ClientRequestIdOption, ClientRequestIdSupport,
    ClientRequired, ContainerNameRequired, ContainerNameSupport, LeaseIdRequired, LeaseIdSupport,
    PublicAccessRequired, PublicAccessSupport, TimeoutOption, TimeoutSupport,
};
use azure_sdk_storage::container::PublicAccess;
use azure_sdk_storage::lease::LeaseId;
use azure_sdk_storage::release_blob_lease_builder::ReleaseBlobLeaseBuilder;
use azure_sdk_storage::request::{add_public_access_header, Client, Method};
use azure_sdk_storage::uri::{generate_blob_uri, generate_container_uri};

struct Holder {
    access: PublicAccess,
}

impl PublicAccessRequired for Holder {
    fn access(&self) -> PublicAccess {
        self.access
    }

    fn public_access(&self) -> PublicAccess {
        self.access
    }
}

impl PublicAccessSupport for Holder {
    type O = Holder;

    fn with_public_access(self, public_access: PublicAccess) -> Holder {
        Holder { access: public_access }
    }
}

fn pair(name: &str, value: &str) -> (String, String) {
    (name.to_owned(), value.to_owned())
}

#[test]
fn finalize_builds_the_release_request() {
    let client = Client::new("acct");
    let id = LeaseId { text: "6f0c1a2e-0d7b-4b3c-9a51-2f6d1c1e7a10".to_owned() };
    let req = ReleaseBlobLeaseBuilder::new(&client)
        .with_container_name("cont")
        .with_blob_name("blob0.txt")
        .with_lease_id(&id)
        .finalize();
    assert_eq!(req.method, Method::Put);
    assert_eq!(req.expected_status, 200);
    assert_eq!(req.uri, "https://acct.blob.core.windows.net/cont/blob0.txt?comp=lease");
    assert_eq!(
        req.headers,
        vec![
            pair("x-ms-lease-id", "6f0c1a2e-0d7b-4b3c-9a51-2f6d1c1e7a10"),
            pair("x-ms-lease-action", "release"),
        ]
    );
}

#[test]
fn finalize_adds_one_pair_per_optional_field() {
    let client = Client::new("acct");
    let id = LeaseId { text: "id".to_owned() };
    let req = ReleaseBlobLeaseBuilder::new(&client)
        .with_timeout(30)
        .with_client_request_id("req-1")
        .with_container_name("cont")
        .with_blob_name("b")
        .with_lease_id(&id)
        .finalize();
    assert_eq!(req.uri, "https://acct.blob.core.windows.net/cont/b?comp=lease&timeout=30");
    assert_eq!(
        req.headers,
        vec![
            pair("x-ms-lease-id", "id"),
            pair("x-ms-lease-action", "release"),
            pair("x-ms-client-request-id", "req-1"),
        ]
    );
}

#[test]
fn finalize_does_not_depend_on_mutator_order() {
    let client = Client::new("acct");
    let id = LeaseId { text: "id".to_owned() };
    let a = ReleaseBlobLeaseBuilder::new(&client)
        .with_container_name("cont")
        .with_timeout(7)
        .with_blob_name("b")
        .with_client_request_id("r")
        .with_lease_id(&id)
        .finalize();
    let b = ReleaseBlobLeaseBuilder::new(&client)
        .with_lease_id(&id)
        .with_client_request_id("r")
        .with_blob_name("b")
        .with_timeout(7)
        .with_container_name("cont")
        .finalize();
    assert_eq!(a.uri, b.uri);
    assert_eq!(a.headers, b.headers);
    assert_eq!(a.uri.matches("timeout=").count(), 1);
}

#[test]
fn a_repeated_mutator_keeps_the_last_value() {
    let client = Client::new("acct");
    let id = LeaseId { text: "id".to_owned() };
    let req = ReleaseBlobLeaseBuilder::new(&client)
        .with_timeout(1)
        .with_timeout(2)
        .with_container_name("first")
        .with_container_name("second")
        .with_blob_name("b")
        .with_lease_id(&id)
        .with_client_request_id("x")
        .with_client_request_id("y")
        .finalize();
    assert_eq!(req.uri, "https://acct.blob.core.windows.net/second/b?comp=lease&timeout=2");
    assert_eq!(req.headers[2], pair("x-ms-client-request-id", "y"));
    assert_eq!(req.headers.len(), 3);
}

#[test]
fn getters_return_what_was_set() {
    let client = Client::new("acct");
    let id = LeaseId { text: "id".to_owned() };
    let b = ReleaseBlobLeaseBuilder::new(&client);
    assert_eq!(b.timeout(), None);
    assert_eq!(b.client_request_id(), None);
    assert_eq!(b.client().account(), "acct");
    let b = b.with_container_name("cont").with_blob_name("blob").with_lease_id(&id);
    assert_eq!(b.container_name(), "cont");
    assert_eq!(b.blob_name(), "blob");
    assert_eq!(b.lease_id().text, "id");
    let b = b.with_timeout(5).with_client_request_id("r");
    assert_eq!(b.timeout(), Some(5));
    assert_eq!(b.client_request_id(), Some("r"));
    assert_eq!(b.container_name(), "cont");
}

#[test]
fn finalize_percent_encodes_the_names() {
    let client = Client::new("acct");
    let id = LeaseId { text: "id".to_owned() };
    let req = ReleaseBlobLeaseBuilder::new(&client)
        .with_container_name("my cont")
        .with_blob_name("a+b/c-d")
        .with_lease_id(&id)
        .finalize();
    assert_eq!(
        req.uri,
        "https://acct.blob.core.windows.net/my%20cont/a%2Bb%2Fc%2Dd?comp=lease"
    );
}

#[test]
fn public_access_header_is_written_unless_private() {
    let mut headers = Vec::new();
    PublicAccessRequired::add_header(&Holder { access: PublicAccess::Private }, &mut headers);
    assert!(headers.is_empty());
    let holder = Holder { access: PublicAccess::Private }.with_public_access(PublicAccess::Blob);
    PublicAccessRequired::add_header(&holder, &mut headers);
    assert_eq!(headers, vec![pair("x-ms-blob-public-access", "blob")]);
    add_public_access_header(PublicAccess::Container, &mut headers);
    assert_eq!(headers[1], pair("x-ms-blob-public-access", "container"));
}

#[test]
fn container_and_blob_uris_are_laid_out() {
    let client = Client::new("acct");
    let b = ReleaseBlobLeaseBuilder::new(&client).with_container_name("my-cont");
    assert_eq!(generate_container_uri(&b, None), "https://acct.blob.core.windows.net/my%2Dcont");
    assert_eq!(
        generate_container_uri(&b, Some("restype=container")),
        "https://acct.blob.core.windows.net/my%2Dcont?restype=container"
    );
    let b = b.with_blob_name("b 1");
    assert_eq!(
        generate_blob_uri(&b, Some("comp=lease")),
        "https://acct.blob.core.windows.net/my%2Dcont/b%201?comp=lease"
    );
    assert_eq!(generate_blob_uri(&b, None), "https://acct.blob.core.windows.net/my%2Dcont/b%201");
}

#[test]
fn capability_defaults_write_parameter_and_headers() {
    let client = Client::new("acct");
    let id = LeaseId { text: "lease-1".to_owned() };
    let b = ReleaseBlobLeaseBuilder::new(&client).with_lease_id(&id);
    assert_eq!(b.to_uri_parameter(), None);
    let b = b.with_timeout(12);
    assert_eq!(b.to_uri_parameter(), Some("timeout=12".to_owned()));
    let mut headers = Vec::new();
    ClientRequestIdOption::add_header(&b, &mut headers);
    assert!(headers.is_empty());
    LeaseIdRequired::add_header(&b, &mut headers);
    assert_eq!(headers, vec![pair("x-ms-lease-id", "lease-1")]);
    let b = b.with_client_request_id("r9");
    ClientRequestIdOption::add_header(&b, &mut headers);
    assert_eq!(headers[1], pair("x-ms-client-request-id", "r9"));
}

#[test]
fn every_order_of_the_mandatory_mutators_reaches_finalize() {
    let client = Client::new("acct");
    let id = LeaseId { text: "id".to_owned() };
    let expected = "https://acct.blob.core.windows.net/c/b?comp=lease";
    let new = || ReleaseBlobLeaseBuilder::new(&client);
    let uris = vec![
        new().with_container_name("c").with_blob_name("b").with_lease_id(&id).finalize().uri,
        new().with_container_name("c").with_lease_id(&id).with_blob_name("b").finalize().uri,
        new().with_blob_name("b").with_container_name("c").with_lease_id(&id).finalize().uri,
        new().with_blob_name("b").with_lease_id(&id).with_container_name("c").finalize().uri,
        new().with_lease_id(&id).with_container_name("c").with_blob_name("b").finalize().uri,
        new().with_lease_id(&id).with_blob_name("b").with_container_name("c").finalize().uri,
    ];
    for uri in uris {
        assert_eq!(uri, expected);
    }
}

#[test]
fn a_cloned_builder_gives_the_same_request() {
    let client = Client::new("acct");
    let id = LeaseId { text: "id".to_owned() };
    let b = ReleaseBlobLeaseBuilder::new(&client)
        .with_container_name("c")
        .with_blob_name("b")
        .with_lease_id(&id)
        .with_timeout(9);
    let twin = b.clone();
    let first = b.finalize();
    let second = twin.finalize();
    assert_eq!(first.uri, second.uri);
    assert_eq!(first.headers, second.headers);
}
