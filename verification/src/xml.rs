//! The element tree of a response body, and the navigation that decoders
//! use on it.

use vstd::prelude::*;
use crate::errors::{AzureError, ErrorView};
use crate::text::text_eq;

verus! {

pub const ELEMENT_NOT_FOUND: &'static str = "element not found";

pub const TEXT_NOT_FOUND: &'static str = "text not found";

/// One node of the tree.
#[derive(Debug)]
pub enum XmlNode {
    /// A named element with its children.
    Element(XmlElement),
    /// Character data.
    Characters(String),
    /// Anything else: a comment, a CDATA section, a processing instruction.
    Other,
}

/// A named element. Attributes and namespaces play no part in decoding and
/// are not held.
#[derive(Debug)]
pub struct XmlElement {
    pub name: String,
    pub children: Vec<XmlNode>,
}

/// The position of the first child element at or after `from` that is named
/// `name`.
pub open spec fn child_from(elem: XmlElement, name: Seq<char>, from: int) -> Option<int>
    decreases elem.children@.len() - from,
{
    if from < 0 || from >= elem.children@.len() {
        None
    } else if elem.children@[from] is Element && elem.children@[from]->Element_0.name@ == name {
        Some(from)
    } else {
        child_from(elem, name, from + 1)
    }
}

/// The first child element named `name`.
pub open spec fn child_named(elem: XmlElement, name: Seq<char>) -> Option<XmlElement> {
    match child_from(elem, name, 0) {
        Some(i) => Some(elem.children@[i]->Element_0),
        None => None,
    }
}

/// The element reached from `elem` by the names of `path` from position
/// `from` on, each step taking the first child of that name.
pub open spec fn descend(elem: XmlElement, path: Seq<&str>, from: int) -> Option<XmlElement>
    decreases path.len() - from,
{
    if from < 0 || from >= path.len() {
        Some(elem)
    } else {
        match child_named(elem, path[from]@) {
            Some(child) => descend(child, path, from + 1),
            None => None,
        }
    }
}

/// The first character data at or after `from` among the children.
pub open spec fn text_from(elem: XmlElement, from: int) -> Option<Seq<char>>
    decreases elem.children@.len() - from,
{
    if from < 0 || from >= elem.children@.len() {
        None
    } else if elem.children@[from] is Characters {
        Some(elem.children@[from]->Characters_0@)
    } else {
        text_from(elem, from + 1)
    }
}

/// The text at the end of a path that must exist.
pub open spec fn must_text(elem: XmlElement, path: Seq<&str>) -> Result<Seq<char>, ErrorView> {
    match descend(elem, path, 0) {
        None => Err(ErrorView::UnexpectedXml(ELEMENT_NOT_FOUND@)),
        Some(leaf) => match text_from(leaf, 0) {
            Some(text) => Ok(text),
            None => Err(ErrorView::UnexpectedXml(TEXT_NOT_FOUND@)),
        },
    }
}

/// The text at the end of a path that may be absent.
pub open spec fn optional_text_at(elem: XmlElement, path: Seq<&str>) -> Result<
    Option<Seq<char>>,
    ErrorView,
> {
    match descend(elem, path, 0) {
        None => Ok(None),
        Some(leaf) => match text_from(leaf, 0) {
            Some(text) => Ok(Some(text)),
            None => Err(ErrorView::UnexpectedXml(TEXT_NOT_FOUND@)),
        },
    }
}

/// The first child element of `elem` that bears `name`.
pub fn find_child<'a>(elem: &'a XmlElement, name: &str) -> (r: Option<&'a XmlElement>)
    ensures
        match r {
            Some(child) => child_named(*elem, name@) == Some(*child),
            None => child_named(*elem, name@) is None,
        },
{
    let mut i: usize = 0;
    while i < elem.children.len()
        invariant
            i <= elem.children.len(),
            child_from(*elem, name@, 0) == child_from(*elem, name@, i as int),
        decreases elem.children.len() - i,
    {
        match &elem.children[i] {
            XmlNode::Element(child) => {
                if text_eq(child.name.as_str(), name) {
                    return Some(child);
                }
            },
            _ => {},
        }
        i += 1;
    }
    None
}

/// Follows `path` down from `elem`.
pub fn traverse<'a>(elem: &'a XmlElement, path: &Vec<&str>) -> (r: Option<&'a XmlElement>)
    ensures
        match r {
            Some(leaf) => descend(*elem, path@, 0) == Some(*leaf),
            None => descend(*elem, path@, 0) is None,
        },
{
    let mut current: &XmlElement = elem;
    let mut i: usize = 0;
    while i < path.len()
        invariant
            i <= path.len(),
            descend(*elem, path@, 0) == descend(*current, path@, i as int),
        decreases path.len() - i,
    {
        match find_child(current, path[i]) {
            Some(child) => {
                current = child;
            },
            None => {
                return None;
            },
        }
        i += 1;
    }
    Some(current)
}

/// The first character data directly under `elem`.
pub fn inner_text<'a>(elem: &'a XmlElement) -> (r: Option<&'a str>)
    ensures
        match r {
            Some(text) => text_from(*elem, 0) == Some(text@),
            None => text_from(*elem, 0) is None,
        },
{
    let mut i: usize = 0;
    while i < elem.children.len()
        invariant
            i <= elem.children.len(),
            text_from(*elem, 0) == text_from(*elem, i as int),
        decreases elem.children.len() - i,
    {
        match &elem.children[i] {
            XmlNode::Characters(text) => {
                return Some(text.as_str());
            },
            _ => {},
        }
        i += 1;
    }
    None
}

/// The text of the element at `path`, which must exist.
pub fn cast_must<'a>(elem: &'a XmlElement, path: &Vec<&str>) -> (r: Result<&'a str, AzureError>)
    ensures
        match r {
            Ok(text) => must_text(*elem, path@) == Ok::<Seq<char>, ErrorView>(text@),
            Err(e) => must_text(*elem, path@) == Err::<Seq<char>, ErrorView>(e@),
        },
{
    match traverse(elem, path) {
        None => Err(AzureError::UnexpectedXMLError(ELEMENT_NOT_FOUND.to_owned())),
        Some(leaf) => match inner_text(leaf) {
            Some(text) => Ok(text),
            None => Err(AzureError::UnexpectedXMLError(TEXT_NOT_FOUND.to_owned())),
        },
    }
}

/// The text of the element at `path`, or `None` where there is none.
pub fn cast_optional<'a>(elem: &'a XmlElement, path: &Vec<&str>) -> (r: Result<
    Option<&'a str>,
    AzureError,
>)
    ensures
        match r {
            Ok(Some(text)) => optional_text_at(*elem, path@) == Ok::<Option<Seq<char>>, ErrorView>(
                Some(text@),
            ),
            Ok(None) => optional_text_at(*elem, path@) == Ok::<Option<Seq<char>>, ErrorView>(None),
            Err(e) => optional_text_at(*elem, path@) == Err::<Option<Seq<char>>, ErrorView>(e@),
        },
{
    match traverse(elem, path) {
        None => Ok(None),
        Some(leaf) => match inner_text(leaf) {
            Some(text) => Ok(Some(text)),
            None => Err(AzureError::UnexpectedXMLError(TEXT_NOT_FOUND.to_owned())),
        },
    }
}

} // verus!
