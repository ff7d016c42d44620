use azure_sdk_storage::container::{Container, PublicAccess};
use azure_sdk_storage::errors::{AzureError, ParseKind};
use azure_sdk_storage::lease::{LeaseDuration, LeaseState, LeaseStatus};
use azure_sdk_storage::time::Instant;
use azure_sdk_storage::xml::{cast_must, cast_optional, XmlElement, XmlNode};

fn leaf(name: &str, text: &str) -> XmlNode {
    XmlNode::Element(XmlElement {
        name: name.to_owned(),
        children: vec![XmlNode::Characters(text.to_owned())],
    })
}

fn node(name: &str, children: Vec<XmlNode>) -> XmlNode {
    XmlNode::Element(XmlElement { name: name.to_owned(), children })
}

fn properties() -> Vec<XmlNode> {
    vec![
        leaf("Last-Modified", "Wed, 18 Feb 2015 23:16:09 GMT"),
        leaf("Etag", "0x8D2"),
        leaf("LeaseStatus", "unlocked"),
        leaf("LeaseState", "available"),
        leaf("HasImmutabilityPolicy", "false"),
        leaf("HasLegalHold", "false"),
    ]
}

fn container(extra: Vec<XmlNode>) -> XmlElement {
    let mut children = vec![leaf("Name", "c1"), node("Properties", properties())];
    children.extend(extra);
    XmlElement { name: "Container".to_owned(), children }
}

fn xml_message(r: Result<Container, AzureError>) -> String {
    match r {
        Err(AzureError::UnexpectedXMLError(message)) => message,
        other => panic!("expected an XML error, got {:?}", other),
    }
}

#[test]
fn parse_reads_a_container() {
    let c = Container::parse(&container(vec![])).unwrap();
    assert_eq!(c.name, "c1");
    assert_eq!(c.lease_status, LeaseStatus::Unlocked);
    assert_eq!(c.lease_state, LeaseState::Available);
    assert_eq!(c.e_tag, "0x8D2");
    assert_eq!(c.last_modified, Instant { secs: 1424301369, nanos: 0 });
    assert_eq!(c.lease_duration, None);
    assert_eq!(c.public_access, PublicAccess::Private);
    assert!(!c.has_immutability_policy);
    assert!(!c.has_legal_hold);
}

#[test]
fn parse_without_metadata_node_gives_empty_metadata() {
    let c = Container::parse(&container(vec![])).unwrap();
    assert_eq!(c.metadata.len(), 0);
    assert_eq!(c.metadata.get("foo"), None);
}

#[test]
fn parse_reads_metadata_pairs() {
    let c = Container::parse(&container(vec![node("Metadata", vec![leaf("foo", "bar")])])).unwrap();
    assert_eq!(c.metadata.len(), 1);
    assert_eq!(c.metadata.get("foo"), Some("bar"));
}

#[test]
fn parse_accepts_a_metadata_node_without_children() {
    let c = Container::parse(&container(vec![node("Metadata", vec![])])).unwrap();
    assert_eq!(c.metadata.len(), 0);
}

#[test]
fn parse_reads_optional_properties() {
    let mut props = properties();
    props.push(leaf("LeaseDuration", "fixed"));
    props.push(leaf("PublicAccess", "container"));
    let elem = XmlElement {
        name: "Container".to_owned(),
        children: vec![leaf("Name", "c2"), node("Properties", props)],
    };
    let c = Container::parse(&elem).unwrap();
    assert_eq!(c.lease_duration, Some(LeaseDuration::Fixed));
    assert_eq!(c.public_access, PublicAccess::Container);
}

#[test]
fn parse_fails_where_an_element_is_absent() {
    let elem = XmlElement {
        name: "Container".to_owned(),
        children: vec![node("Properties", properties())],
    };
    assert_eq!(xml_message(Container::parse(&elem)), "element not found");
}

#[test]
fn parse_fails_where_a_leaf_has_no_text() {
    let elem = XmlElement {
        name: "Container".to_owned(),
        children: vec![node("Name", vec![]), node("Properties", properties())],
    };
    assert_eq!(xml_message(Container::parse(&elem)), "text not found");
}

#[test]
fn parse_fails_on_an_empty_metadata_entry() {
    let elem = container(vec![node("Metadata", vec![node("foo", vec![])])]);
    assert_eq!(xml_message(Container::parse(&elem)), "Metadata node should not be empty");
}

#[test]
fn parse_fails_on_a_metadata_entry_without_text() {
    let elem = container(vec![node("Metadata", vec![node("foo", vec![node("inner", vec![])])])]);
    assert_eq!(
        xml_message(Container::parse(&elem)),
        "Metadata node should contain a CharacterNode with metadata value"
    );
}

#[test]
fn parse_fails_on_text_directly_under_metadata() {
    let elem = container(vec![node("Metadata", vec![XmlNode::Characters("stray".to_owned())])]);
    assert_eq!(xml_message(Container::parse(&elem)), "Metadata should contain an ElementNode");
}

#[test]
fn parse_rejects_malformed_leaves() {
    let mut props = properties();
    props[0] = leaf("Last-Modified", "not a date");
    let elem = XmlElement {
        name: "Container".to_owned(),
        children: vec![leaf("Name", "c"), node("Properties", props)],
    };
    assert!(matches!(Container::parse(&elem), Err(AzureError::ParseError(ParseKind::Date))));
    let mut props = properties();
    props[5] = leaf("HasLegalHold", "yes");
    let elem = XmlElement {
        name: "Container".to_owned(),
        children: vec![leaf("Name", "c"), node("Properties", props)],
    };
    assert!(matches!(Container::parse(&elem), Err(AzureError::ParseError(ParseKind::Bool))));
    let mut props = properties();
    props[2] = leaf("LeaseStatus", "ajar");
    let elem = XmlElement {
        name: "Container".to_owned(),
        children: vec![leaf("Name", "c"), node("Properties", props)],
    };
    assert!(matches!(Container::parse(&elem), Err(AzureError::ParseError(ParseKind::Enumeration))));
}

#[test]
fn parse_twice_gives_equal_entities() {
    let elem = container(vec![node("Metadata", vec![leaf("foo", "bar"), leaf("k", "v")])]);
    let a = Container::parse(&elem).unwrap();
    let b = Container::parse(&elem).unwrap();
    assert_eq!(format!("{:?}", a), format!("{:?}", b));
}

#[test]
fn cast_must_and_cast_optional_differ_on_an_absent_path() {
    let elem = container(vec![]);
    assert!(matches!(
        cast_must(&elem, &vec!["Properties", "Nowhere"]),
        Err(AzureError::UnexpectedXMLError(_))
    ));
    assert!(matches!(cast_optional(&elem, &vec!["Properties", "Nowhere"]), Ok(None)));
    assert_eq!(cast_must(&elem, &vec!["Properties", "Etag"]).unwrap(), "0x8D2");
    assert_eq!(cast_optional(&elem, &vec!["Name"]).unwrap(), Some("c1"));
}

#[test]
fn cast_must_skips_nodes_that_are_not_the_named_element() {
    let elem = XmlElement {
        name: "Root".to_owned(),
        children: vec![
            XmlNode::Other,
            XmlNode::Characters("\n".to_owned()),
            leaf("B", "wrong"),
            node("A", vec![XmlNode::Other, XmlNode::Characters("right".to_owned())]),
        ],
    };
    assert_eq!(cast_must(&elem, &vec!["A"]).unwrap(), "right");
}
