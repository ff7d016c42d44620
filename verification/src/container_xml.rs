//! Decoding a container from the element tree of a listing.

use vstd::prelude::*;
use crate::container::{
    decodes_to, or_parse_error, parsed_or, Container, ContainerView, PublicAccess,
};
use crate::errors::{AzureError, ErrorView, ParseKind};
use crate::lease::{bool_of_text, parse_bool, LeaseDuration, LeaseState, LeaseStatus};
use crate::metadata::Metadata;
use crate::text::text_eq;
use crate::time::{instant_of, Instant};
use crate::xml::{cast_must, cast_optional, must_text, optional_text_at, XmlElement, XmlNode};

verus! {

pub const METADATA: &'static str = "Metadata";

pub const NOT_AN_ELEMENT: &'static str = "Metadata should contain an ElementNode";

pub const EMPTY_NODE: &'static str = "Metadata node should not be empty";

pub const NOT_CHARACTERS: &'static str =
    "Metadata node should contain a CharacterNode with metadata value";

pub type MetadataResult = Result<Map<Seq<char>, Seq<char>>, ErrorView>;

/// The pair that one child of a metadata node gives: the child must be an
/// element, its name is the key, and its first child must be character data,
/// which is the value.
pub open spec fn metadata_pair(node: XmlNode) -> Result<(Seq<char>, Seq<char>), ErrorView> {
    match node {
        XmlNode::Element(e) => if e.children@.len() == 0 {
            Err(ErrorView::UnexpectedXml(EMPTY_NODE@))
        } else {
            match e.children@[0] {
                XmlNode::Characters(text) => Ok((e.name@, text@)),
                _ => Err(ErrorView::UnexpectedXml(NOT_CHARACTERS@)),
            }
        },
        _ => Err(ErrorView::UnexpectedXml(NOT_AN_ELEMENT@)),
    }
}

/// The map `start` after the first `count` children of a metadata node
/// were added to it, or the first failure.
pub open spec fn node_metadata(start: MetadataResult, node: XmlElement, count: int) -> MetadataResult
    decreases count,
{
    if count <= 0 {
        start
    } else {
        match node_metadata(start, node, count - 1) {
            Err(e) => Err(e),
            Ok(m) => match metadata_pair(node.children@[count - 1]) {
                Err(e) => Err(e),
                Ok(pair) => Ok(m.insert(pair.0, pair.1)),
            },
        }
    }
}

/// The metadata under the first `count` children of `elem`: every child
/// element named `Metadata` adds its pairs, in order.
pub open spec fn element_metadata(elem: XmlElement, count: int) -> MetadataResult
    decreases count,
{
    if count <= 0 {
        Ok(Map::empty())
    } else {
        let before = element_metadata(elem, count - 1);
        match elem.children@[count - 1] {
            XmlNode::Element(child) => if child.name@ == METADATA@ {
                node_metadata(before, child, child.children@.len() as int)
            } else {
                before
            },
            _ => before,
        }
    }
}

/// A failure within a metadata node is the node's result.
pub proof fn lemma_node_error_stays(start: MetadataResult, node: XmlElement, failed: int, count: int)
    requires
        0 <= failed <= count,
        node_metadata(start, node, failed) is Err,
    ensures
        node_metadata(start, node, count) == node_metadata(start, node, failed),
    decreases count - failed,
{
    if failed < count {
        lemma_node_error_stays(start, node, failed, count - 1);
    }
}

/// A failure under an element is the element's result.
pub proof fn lemma_element_error_stays(elem: XmlElement, failed: int, count: int)
    requires
        0 <= failed <= count,
        element_metadata(elem, failed) is Err,
    ensures
        element_metadata(elem, count) == element_metadata(elem, failed),
    decreases count - failed,
{
    if failed < count {
        lemma_element_error_stays(elem, failed, count - 1);
        let before = element_metadata(elem, count - 1);
        match elem.children@[count - 1] {
            XmlNode::Element(child) => {
                lemma_node_error_stays(before, child, 0, child.children@.len() as int);
            },
            _ => {},
        }
    }
}

/// What an element tree says of a container: the entity, or the first
/// failure in the order name, last-modified, e-tag, lease state, lease
/// duration, lease status, public access, immutability policy, legal hold,
/// metadata.
pub open spec fn decoded_xml(elem: XmlElement) -> Result<ContainerView, ErrorView> {
    match must_text(elem, seq!["Name"]) {
        Err(e) => Err(e),
        Ok(name) => match must_text(elem, seq!["Properties", "Last-Modified"]) {
            Err(e) => Err(e),
            Ok(date) => match or_parse_error(instant_of(date), ParseKind::Date) {
                Err(e) => Err(e),
                Ok(last_modified) => match must_text(elem, seq!["Properties", "Etag"]) {
                    Err(e) => Err(e),
                    Ok(e_tag) => decoded_xml_lease(elem, name, last_modified, e_tag),
                },
            },
        },
    }
}

/// The part of [`decoded_xml`] from the lease state to the lease status.
pub open spec fn decoded_xml_lease(
    elem: XmlElement,
    name: Seq<char>,
    last_modified: Instant,
    e_tag: Seq<char>,
) -> Result<ContainerView, ErrorView> {
    match must_text(elem, seq!["Properties", "LeaseState"]) {
        Err(e) => Err(e),
        Ok(state) => match or_parse_error(LeaseState::of_text(state), ParseKind::Enumeration) {
            Err(e) => Err(e),
            Ok(lease_state) => match optional_text_at(elem, seq!["Properties", "LeaseDuration"]) {
                Err(e) => Err(e),
                Ok(duration) => match optional_duration(duration) {
                    Err(e) => Err(e),
                    Ok(lease_duration) => match must_text(elem, seq!["Properties", "LeaseStatus"]) {
                        Err(e) => Err(e),
                        Ok(status) => match or_parse_error(
                            LeaseStatus::of_text(status),
                            ParseKind::Enumeration,
                        ) {
                            Err(e) => Err(e),
                            Ok(lease_status) => decoded_xml_rest(
                                elem,
                                ContainerView {
                                    name,
                                    last_modified,
                                    e_tag,
                                    lease_status,
                                    lease_state,
                                    lease_duration,
                                    public_access: PublicAccess::Private,
                                    has_immutability_policy: false,
                                    has_legal_hold: false,
                                    metadata: Map::empty(),
                                },
                            ),
                        },
                    },
                },
            },
        },
    }
}

/// The part of [`decoded_xml`] from the public access on; `so_far` holds the
/// fields decoded before.
pub open spec fn decoded_xml_rest(elem: XmlElement, so_far: ContainerView) -> Result<
    ContainerView,
    ErrorView,
> {
    match optional_text_at(elem, seq!["Properties", "PublicAccess"]) {
        Err(e) => Err(e),
        Ok(access) => match optional_access(access) {
            Err(e) => Err(e),
            Ok(public_access) => match must_text(elem, seq!["Properties", "HasImmutabilityPolicy"]) {
                Err(e) => Err(e),
                Ok(policy) => match or_parse_error(bool_of_text(policy), ParseKind::Bool) {
                    Err(e) => Err(e),
                    Ok(has_immutability_policy) => match must_text(
                        elem,
                        seq!["Properties", "HasLegalHold"],
                    ) {
                        Err(e) => Err(e),
                        Ok(hold) => match or_parse_error(bool_of_text(hold), ParseKind::Bool) {
                            Err(e) => Err(e),
                            Ok(has_legal_hold) => match element_metadata(
                                elem,
                                elem.children@.len() as int,
                            ) {
                                Err(e) => Err(e),
                                Ok(metadata) => Ok(
                                    ContainerView {
                                        public_access,
                                        has_immutability_policy,
                                        has_legal_hold,
                                        metadata,
                                        ..so_far
                                    },
                                ),
                            },
                        },
                    },
                },
            },
        },
    }
}

/// The lease duration of an optional leaf.
pub open spec fn optional_duration(text: Option<Seq<char>>) -> Result<
    Option<LeaseDuration>,
    ErrorView,
> {
    match text {
        None => Ok(None),
        Some(t) => match LeaseDuration::of_text(t) {
            Some(d) => Ok(Some(d)),
            None => Err(ErrorView::Parse(ParseKind::Enumeration)),
        },
    }
}

/// The public access of an optional leaf: private where it is absent.
pub open spec fn optional_access(text: Option<Seq<char>>) -> Result<PublicAccess, ErrorView> {
    match text {
        None => Ok(PublicAccess::Private),
        Some(t) => or_parse_error(PublicAccess::of_text(t), ParseKind::Enumeration),
    }
}

/// The path of one name.
pub fn path_of(name: &'static str) -> (r: Vec<&'static str>)
    ensures
        r@ == seq![name],
{
    let mut path: Vec<&'static str> = Vec::new();
    path.push(name);
    assert(path@ =~= seq![name]);
    path
}

/// The path to a leaf under `Properties`.
pub fn property_path(leaf: &'static str) -> (r: Vec<&'static str>)
    ensures
        r@ == seq!["Properties", leaf],
{
    let mut path: Vec<&'static str> = Vec::new();
    path.push("Properties");
    path.push(leaf);
    assert(path@ =~= seq!["Properties", leaf]);
    path
}

/// Adds the pairs of one metadata node to `metadata`.
pub fn add_node_metadata(metadata: &mut Metadata, node: &XmlElement) -> (r: Result<(), AzureError>)
    requires
        old(metadata).well_formed(),
    ensures
        final(metadata).well_formed(),
        match r {
            Ok(_) => node_metadata(
                Ok(old(metadata)@),
                *node,
                node.children@.len() as int,
            ) == Ok::<Map<Seq<char>, Seq<char>>, ErrorView>(final(metadata)@),
            Err(e) => node_metadata(Ok(old(metadata)@), *node, node.children@.len() as int)
                == Err::<Map<Seq<char>, Seq<char>>, ErrorView>(e@),
        },
{
    let ghost start: MetadataResult = Ok(metadata@);
    let mut i: usize = 0;
    while i < node.children.len()
        invariant
            i <= node.children.len(),
            metadata.well_formed(),
            start == Ok::<Map<Seq<char>, Seq<char>>, ErrorView>(old(metadata)@),
            node_metadata(start, *node, i as int) == Ok::<Map<Seq<char>, Seq<char>>, ErrorView>(
                metadata@,
            ),
        decreases node.children.len() - i,
    {
        proof {
            if metadata_pair(node.children@[i as int]) is Err {
                lemma_node_error_stays(start, *node, i as int + 1, node.children@.len() as int);
            }
        }
        let entry = match &node.children[i] {
            XmlNode::Element(e) => e,
            _ => {
                return Err(AzureError::UnexpectedXMLError(NOT_AN_ELEMENT.to_owned()));
            },
        };
        if entry.children.len() == 0 {
            return Err(AzureError::UnexpectedXMLError(EMPTY_NODE.to_owned()));
        }
        let content = match &entry.children[0] {
            XmlNode::Characters(text) => text.clone(),
            _ => {
                return Err(AzureError::UnexpectedXMLError(NOT_CHARACTERS.to_owned()));
            },
        };
        metadata.insert(entry.name.clone(), content);
        i += 1;
    }
    Ok(())
}

/// The metadata under `elem`.
pub fn metadata_from_element(elem: &XmlElement) -> (r: Result<Metadata, AzureError>)
    ensures
        match r {
            Ok(m) => m.well_formed() && element_metadata(*elem, elem.children@.len() as int)
                == Ok::<Map<Seq<char>, Seq<char>>, ErrorView>(m@),
            Err(e) => element_metadata(*elem, elem.children@.len() as int) == Err::<
                Map<Seq<char>, Seq<char>>,
                ErrorView,
            >(e@),
        },
{
    let mut metadata = Metadata::new();
    let mut i: usize = 0;
    while i < elem.children.len()
        invariant
            i <= elem.children.len(),
            metadata.well_formed(),
            element_metadata(*elem, i as int) == Ok::<Map<Seq<char>, Seq<char>>, ErrorView>(
                metadata@,
            ),
        decreases elem.children.len() - i,
    {
        match &elem.children[i] {
            XmlNode::Element(child) => {
                if text_eq(child.name.as_str(), METADATA) {
                    match add_node_metadata(&mut metadata, child) {
                        Ok(_) => {},
                        Err(e) => {
                            proof {
                                lemma_element_error_stays(
                                    *elem,
                                    i as int + 1,
                                    elem.children@.len() as int,
                                );
                            }
                            return Err(e);
                        },
                    }
                }
            },
            _ => {},
        }
        i += 1;
    }
    Ok(metadata)
}

impl Container {
    /// Decodes a container from its element in a listing.
    pub fn parse(elem: &XmlElement) -> (r: Result<Container, AzureError>)
        ensures
            decodes_to(r, decoded_xml(*elem)),
    {
        let name = cast_must(elem, &path_of("Name"))?.to_owned();
        let date = cast_must(elem, &property_path("Last-Modified"))?;
        let last_modified = parsed_or(Instant::parse_rfc2822(date), ParseKind::Date)?;
        let e_tag = cast_must(elem, &property_path("Etag"))?.to_owned();
        let state = cast_must(elem, &property_path("LeaseState"))?;
        let lease_state = parsed_or(LeaseState::from_str(state), ParseKind::Enumeration)?;
        let lease_duration = match cast_optional(elem, &property_path("LeaseDuration"))? {
            Some(text) => Some(parsed_or(LeaseDuration::from_str(text), ParseKind::Enumeration)?),
            None => None,
        };
        let status = cast_must(elem, &property_path("LeaseStatus"))?;
        let lease_status = parsed_or(LeaseStatus::from_str(status), ParseKind::Enumeration)?;
        let public_access = match cast_optional(elem, &property_path("PublicAccess"))? {
            Some(text) => parsed_or(PublicAccess::from_str(text), ParseKind::Enumeration)?,
            None => PublicAccess::Private,
        };
        let policy = cast_must(elem, &property_path("HasImmutabilityPolicy"))?;
        let has_immutability_policy = parsed_or(parse_bool(policy), ParseKind::Bool)?;
        let hold = cast_must(elem, &property_path("HasLegalHold"))?;
        let has_legal_hold = parsed_or(parse_bool(hold), ParseKind::Bool)?;
        let metadata = metadata_from_element(elem)?;
        Ok(
            Container {
                name,
                last_modified,
                e_tag,
                lease_status,
                lease_state,
                lease_duration,
                public_access,
                has_immutability_policy,
                has_legal_hold,
                metadata,
            },
        )
    }
}

} // verus!
