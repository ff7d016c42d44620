//! Typed request builders and response decoding for Azure Blob Storage.
//!
//! A request is assembled by a builder whose type records which mandatory
//! parameters were supplied; a response is decoded from its headers or from
//! an XML element tree into an immutable entity.

pub mod text;
pub mod errors;
pub mod time;
pub mod lease;
pub mod headers;
pub mod metadata;
pub mod xml;
pub mod request;
pub mod capabilities;
pub mod uri;
pub mod container;
pub mod container_xml;
pub mod responses;
pub mod release_blob_lease_builder;
