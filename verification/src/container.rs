//! The container entity and its decoding from a response's headers.

use vstd::prelude::*;
use crate::errors::{AzureError, ErrorView, ParseKind};
use crate::headers::{
    find_from, header_lines, header_map_lines, lines_view, optional_header, optional_text,
    required_header, required_text, HeaderLine, HeaderSeq, BLOB_PUBLIC_ACCESS, ETAG,
    HAS_IMMUTABILITY_POLICY, HAS_LEGAL_HOLD, LAST_MODIFIED, LEASE_DURATION, LEASE_STATE,
    LEASE_STATUS, META_PREFIX,
};
use crate::lease::{bool_of_text, parse_bool, LeaseDuration, LeaseState, LeaseStatus};
use crate::metadata::Metadata;
use crate::text::{has_prefix, strip_prefix, text_eq};
use crate::time::{instant_of, Instant};

verus! {

/// Who may read a container's data without authorization.
#[derive(Clone, Copy, Debug, PartialEq, Eq, Structural)]
pub enum PublicAccess {
    Private,
    Container,
    Blob,
}

impl PublicAccess {
    /// The access level that a word names.
    pub open spec fn of_text(s: Seq<char>) -> Option<PublicAccess> {
        if s == "none"@ {
            Some(PublicAccess::Private)
        } else if s == "container"@ {
            Some(PublicAccess::Container)
        } else if s == "blob"@ {
            Some(PublicAccess::Blob)
        } else {
            None
        }
    }

    /// The word for each access level.
    pub open spec fn text(self) -> Seq<char> {
        match self {
            PublicAccess::Private => "none"@,
            PublicAccess::Container => "container"@,
            PublicAccess::Blob => "blob"@,
        }
    }

    pub fn from_str(s: &str) -> (r: Option<PublicAccess>)
        ensures
            r == Self::of_text(s@),
    {
        if text_eq(s, "none") {
            Some(PublicAccess::Private)
        } else if text_eq(s, "container") {
            Some(PublicAccess::Container)
        } else if text_eq(s, "blob") {
            Some(PublicAccess::Blob)
        } else {
            None
        }
    }

    pub fn as_str(&self) -> (r: &'static str)
        ensures
            r@ == self.text(),
    {
        match self {
            PublicAccess::Private => "none",
            PublicAccess::Container => "container",
            PublicAccess::Blob => "blob",
        }
    }
}

/// A parsed leaf, or the parse error of the given kind where the text named
/// no value.
pub open spec fn or_parse_error<T>(value: Option<T>, kind: ParseKind) -> Result<T, ErrorView> {
    match value {
        Some(v) => Ok(v),
        None => Err(ErrorView::Parse(kind)),
    }
}

/// An executable result stands for a mathematical one.
pub open spec fn agrees<T>(r: Result<T, AzureError>, s: Result<T, ErrorView>) -> bool {
    match r {
        Ok(v) => s == Ok::<T, ErrorView>(v),
        Err(e) => s == Err::<T, ErrorView>(e@),
    }
}

pub fn parsed_or<T>(value: Option<T>, kind: ParseKind) -> (r: Result<T, AzureError>)
    ensures
        agrees(r, or_parse_error(value, kind)),
{
    match value {
        Some(v) => Ok(v),
        None => Err(AzureError::ParseError(kind)),
    }
}

/// The public access level that the headers state: private where the header
/// is absent.
pub open spec fn public_access_of(lines: HeaderSeq) -> Result<PublicAccess, ErrorView> {
    match optional_text(lines, BLOB_PUBLIC_ACCESS@) {
        Err(e) => Err(e),
        Ok(None) => Ok(PublicAccess::Private),
        Ok(Some(text)) => or_parse_error(PublicAccess::of_text(text), ParseKind::Enumeration),
    }
}

/// The lease duration that the headers state, if they state one.
pub open spec fn lease_duration_of(lines: HeaderSeq) -> Result<Option<LeaseDuration>, ErrorView> {
    match optional_text(lines, LEASE_DURATION@) {
        Err(e) => Err(e),
        Ok(None) => Ok(None),
        Ok(Some(text)) => match LeaseDuration::of_text(text) {
            Some(d) => Ok(Some(d)),
            None => Err(ErrorView::Parse(ParseKind::Enumeration)),
        },
    }
}

/// A mandatory boolean header.
pub open spec fn flag_of(lines: HeaderSeq, name: Seq<char>) -> Result<bool, ErrorView> {
    match required_text(lines, name) {
        Err(e) => Err(e),
        Ok(text) => or_parse_error(bool_of_text(text), ParseKind::Bool),
    }
}

/// The metadata that the first `count` lines carry: each line whose name
/// begins with the metadata prefix gives one pair, keyed by the rest of the
/// name; a later line replaces an earlier one with the same key. The first
/// such line whose value is no text ends the decoding with a parse error.
pub open spec fn metadata_of(lines: HeaderSeq, count: int) -> Result<
    Map<Seq<char>, Seq<char>>,
    ErrorView,
>
    decreases count,
{
    if count <= 0 {
        Ok(Map::empty())
    } else {
        let line = lines[count - 1];
        match metadata_of(lines, count - 1) {
            Err(e) => Err(e),
            Ok(m) => if has_prefix(line.0, META_PREFIX@) {
                match line.1 {
                    Some(value) => Ok(
                        m.insert(line.0.subrange(META_PREFIX@.len() as int, line.0.len() as int), value),
                    ),
                    None => Err(ErrorView::Parse(ParseKind::Text)),
                }
            } else {
                Ok(m)
            },
        }
    }
}

/// Once a line has failed, the lines after it change nothing.
pub proof fn lemma_metadata_error_stays(lines: HeaderSeq, failed: int, count: int)
    requires
        0 <= failed <= count,
        metadata_of(lines, failed) is Err,
    ensures
        metadata_of(lines, count) == metadata_of(lines, failed),
    decreases count - failed,
{
    if failed < count {
        lemma_metadata_error_stays(lines, failed, count - 1);
    }
}

/// The mathematical value of a [`Container`].
pub struct ContainerView {
    pub name: Seq<char>,
    pub last_modified: Instant,
    pub e_tag: Seq<char>,
    pub lease_status: LeaseStatus,
    pub lease_state: LeaseState,
    pub lease_duration: Option<LeaseDuration>,
    pub public_access: PublicAccess,
    pub has_immutability_policy: bool,
    pub has_legal_hold: bool,
    pub metadata: Map<Seq<char>, Seq<char>>,
}

/// What the headers of a response say of the container `name`: the entity,
/// or the first failure in the order last-modified, e-tag, lease status,
/// lease state, lease duration, public access, immutability policy, legal
/// hold, metadata.
pub open spec fn decoded_headers(name: Seq<char>, lines: HeaderSeq) -> Result<
    ContainerView,
    ErrorView,
> {
    match required_text(lines, LAST_MODIFIED@) {
        Err(e) => Err(e),
        Ok(date) => match or_parse_error(instant_of(date), ParseKind::Date) {
            Err(e) => Err(e),
            Ok(last_modified) => match required_text(lines, ETAG@) {
                Err(e) => Err(e),
                Ok(e_tag) => decoded_lease(name, lines, last_modified, e_tag),
            },
        },
    }
}

/// The part of [`decoded_headers`] from the lease status on.
pub open spec fn decoded_lease(
    name: Seq<char>,
    lines: HeaderSeq,
    last_modified: Instant,
    e_tag: Seq<char>,
) -> Result<ContainerView, ErrorView> {
    match required_text(lines, LEASE_STATUS@) {
        Err(e) => Err(e),
        Ok(status) => match or_parse_error(LeaseStatus::of_text(status), ParseKind::Enumeration) {
            Err(e) => Err(e),
            Ok(lease_status) => match required_text(lines, LEASE_STATE@) {
                Err(e) => Err(e),
                Ok(state) => match or_parse_error(
                    LeaseState::of_text(state),
                    ParseKind::Enumeration,
                ) {
                    Err(e) => Err(e),
                    Ok(lease_state) => match lease_duration_of(lines) {
                        Err(e) => Err(e),
                        Ok(lease_duration) => match public_access_of(lines) {
                            Err(e) => Err(e),
                            Ok(public_access) => match flag_of(lines, HAS_IMMUTABILITY_POLICY@) {
                                Err(e) => Err(e),
                                Ok(has_immutability_policy) => match flag_of(
                                    lines,
                                    HAS_LEGAL_HOLD@,
                                ) {
                                    Err(e) => Err(e),
                                    Ok(has_legal_hold) => match metadata_of(
                                        lines,
                                        lines.len() as int,
                                    ) {
                                        Err(e) => Err(e),
                                        Ok(metadata) => Ok(
                                            ContainerView {
                                                name,
                                                last_modified,
                                                e_tag,
                                                lease_status,
                                                lease_state,
                                                lease_duration,
                                                public_access,
                                                has_immutability_policy,
                                                has_legal_hold,
                                                metadata,
                                            },
                                        ),
                                    },
                                },
                            },
                        },
                    },
                },
            },
        },
    }
}

/// An executable decoding stands for a mathematical one, and the entity it
/// holds keeps its invariant.
pub open spec fn decodes_to(r: Result<Container, AzureError>, s: Result<ContainerView, ErrorView>) -> bool {
    match r {
        Ok(c) => s == Ok::<ContainerView, ErrorView>(c@) && c.well_formed(),
        Err(e) => s == Err::<ContainerView, ErrorView>(e@),
    }
}

/// The public access level among the header lines.
pub fn public_access_from_lines(lines: &Vec<HeaderLine>) -> (r: Result<PublicAccess, AzureError>)
    ensures
        agrees(r, public_access_of(lines_view(lines@))),
{
    match optional_header(lines, BLOB_PUBLIC_ACCESS)? {
        Some(text) => parsed_or(PublicAccess::from_str(text), ParseKind::Enumeration),
        None => Ok(PublicAccess::Private),
    }
}

/// The public access level that a response's headers state.
pub fn public_access_from_header(header_map: &http::HeaderMap<http::header::HeaderValue>) -> (r:
    Result<PublicAccess, AzureError>)
    ensures
        agrees(r, public_access_of(header_map_lines(*header_map))),
{
    let lines = header_lines(header_map);
    public_access_from_lines(&lines)
}

/// The metadata among the header lines.
pub fn metadata_from_lines(lines: &Vec<HeaderLine>) -> (r: Result<Metadata, AzureError>)
    ensures
        match r {
            Ok(m) => m.well_formed() && metadata_of(lines_view(lines@), lines.len() as int) == Ok::<
                Map<Seq<char>, Seq<char>>,
                ErrorView,
            >(m@),
            Err(e) => metadata_of(lines_view(lines@), lines.len() as int) == Err::<
                Map<Seq<char>, Seq<char>>,
                ErrorView,
            >(e@),
        },
{
    let mut metadata = Metadata::new();
    let mut i: usize = 0;
    while i < lines.len()
        invariant
            i <= lines.len(),
            metadata.well_formed(),
            metadata_of(lines_view(lines@), i as int) == Ok::<Map<Seq<char>, Seq<char>>, ErrorView>(
                metadata@,
            ),
        decreases lines.len() - i,
    {
        if let Some(key) = strip_prefix(lines[i].0.as_str(), META_PREFIX) {
            match &lines[i].1 {
                Some(value) => {
                    metadata.insert(key, value.clone());
                },
                None => {
                    proof {
                        lemma_metadata_error_stays(
                            lines_view(lines@),
                            i as int + 1,
                            lines.len() as int,
                        );
                    }
                    return Err(AzureError::ParseError(ParseKind::Text));
                },
            }
        }
        i += 1;
    }
    Ok(metadata)
}

/// A container of a storage account, as the service describes it.
#[derive(Clone, Debug)]
pub struct Container {
    pub name: String,
    pub last_modified: Instant,
    pub e_tag: String,
    pub lease_status: LeaseStatus,
    pub lease_state: LeaseState,
    pub lease_duration: Option<LeaseDuration>,
    pub public_access: PublicAccess,
    pub has_immutability_policy: bool,
    pub has_legal_hold: bool,
    pub metadata: Metadata,
}

impl View for Container {
    type V = ContainerView;

    open spec fn view(&self) -> ContainerView {
        ContainerView {
            name: self.name@,
            last_modified: self.last_modified,
            e_tag: self.e_tag@,
            lease_status: self.lease_status,
            lease_state: self.lease_state,
            lease_duration: self.lease_duration,
            public_access: self.public_access,
            has_immutability_policy: self.has_immutability_policy,
            has_legal_hold: self.has_legal_hold,
            metadata: self.metadata@,
        }
    }
}

impl Container {
    /// The invariant: no metadata name is held twice.
    pub open spec fn well_formed(&self) -> bool {
        self.metadata.well_formed()
    }

    /// A container of the given name that nothing else is known of: unlocked
    /// and available, private, with no metadata, last modified now.
    pub fn new(name: &str) -> (r: Container)
        ensures
            r.well_formed(),
            r@ == (ContainerView {
                name: name@,
                last_modified: r.last_modified,
                e_tag: Seq::<char>::empty(),
                lease_status: LeaseStatus::Unlocked,
                lease_state: LeaseState::Available,
                lease_duration: None,
                public_access: PublicAccess::Private,
                has_immutability_policy: false,
                has_legal_hold: false,
                metadata: Map::<Seq<char>, Seq<char>>::empty(),
            }),
    {
        Container {
            name: name.to_owned(),
            last_modified: Instant::now(),
            e_tag: String::new(),
            lease_status: LeaseStatus::Unlocked,
            lease_state: LeaseState::Available,
            lease_duration: None,
            public_access: PublicAccess::Private,
            has_immutability_policy: false,
            has_legal_hold: false,
            metadata: Metadata::new(),
        }
    }

    /// The container's name.
    pub fn as_ref(&self) -> (r: &str)
        ensures
            r@ == self.name@,
    {
        self.name.as_str()
    }

    /// Decodes the container `name` from the header lines of a response.
    pub fn from_header_lines(name: String, lines: &Vec<HeaderLine>) -> (r: Result<
        Container,
        AzureError,
    >)
        ensures
            decodes_to(r, decoded_headers(name@, lines_view(lines@))),
    {
        let date = required_header(lines, LAST_MODIFIED)?;
        let last_modified = parsed_or(Instant::parse_rfc2822(date), ParseKind::Date)?;
        let e_tag = required_header(lines, ETAG)?.to_owned();
        let status = required_header(lines, LEASE_STATUS)?;
        let lease_status = parsed_or(LeaseStatus::from_str(status), ParseKind::Enumeration)?;
        let state = required_header(lines, LEASE_STATE)?;
        let lease_state = parsed_or(LeaseState::from_str(state), ParseKind::Enumeration)?;
        let lease_duration = match optional_header(lines, LEASE_DURATION)? {
            Some(text) => Some(parsed_or(LeaseDuration::from_str(text), ParseKind::Enumeration)?),
            None => None,
        };
        let public_access = public_access_from_lines(lines)?;
        let policy = required_header(lines, HAS_IMMUTABILITY_POLICY)?;
        let has_immutability_policy = parsed_or(parse_bool(policy), ParseKind::Bool)?;
        let hold = required_header(lines, HAS_LEGAL_HOLD)?;
        let has_legal_hold = parsed_or(parse_bool(hold), ParseKind::Bool)?;
        let metadata = metadata_from_lines(lines)?;
        Ok(
            Container {
                name,
                last_modified,
                e_tag,
                lease_status,
                lease_state,
                lease_duration,
                public_access,
                has_immutability_policy,
                has_legal_hold,
                metadata,
            },
        )
    }

    /// Decodes the container `name` from the headers of a response.
    pub fn from_response(name: String, headers: &http::HeaderMap<http::header::HeaderValue>) -> (r:
        Result<Container, AzureError>)
        ensures
            decodes_to(r, decoded_headers(name@, header_map_lines(*headers))),
    {
        let lines = header_lines(headers);
        Container::from_header_lines(name, &lines)
    }
}

/// Decoding depends on nothing but what is decoded: two decodings of the
/// same headers, or of the same element tree, succeed or fail together, with
/// equal entities or equal failures.
pub proof fn lemma_decoding_repeats(
    first: Result<Container, AzureError>,
    second: Result<Container, AzureError>,
    source: Result<ContainerView, ErrorView>,
)
    requires
        decodes_to(first, source),
        decodes_to(second, source),
    ensures
        first is Ok <==> second is Ok,
        first is Ok ==> first->Ok_0@ == second->Ok_0@,
        first is Err ==> first->Err_0@ == second->Err_0@,
{
}

/// With every mandatory header present as text, and the date and the words
/// well-formed, the entity holds the header values verbatim: the texts as
/// they stand, the date, the words and the booleans as what they denote.
pub proof fn lemma_headers_verbatim(name: Seq<char>, lines: HeaderSeq)
    requires
        decoded_headers(name, lines) is Ok,
    ensures
        ({
            let c = decoded_headers(name, lines)->Ok_0;
            &&& c.name == name
            &&& required_text(lines, ETAG@) == Ok::<Seq<char>, ErrorView>(c.e_tag)
            &&& required_text(lines, LAST_MODIFIED@) is Ok
            &&& instant_of(required_text(lines, LAST_MODIFIED@)->Ok_0) == Some(c.last_modified)
            &&& required_text(lines, LEASE_STATUS@) is Ok
            &&& LeaseStatus::of_text(required_text(lines, LEASE_STATUS@)->Ok_0) == Some(
                c.lease_status,
            )
            &&& required_text(lines, LEASE_STATE@) is Ok
            &&& LeaseState::of_text(required_text(lines, LEASE_STATE@)->Ok_0) == Some(c.lease_state)
            &&& lease_duration_of(lines) == Ok::<Option<LeaseDuration>, ErrorView>(c.lease_duration)
            &&& public_access_of(lines) == Ok::<PublicAccess, ErrorView>(c.public_access)
            &&& flag_of(lines, HAS_IMMUTABILITY_POLICY@) == Ok::<bool, ErrorView>(
                c.has_immutability_policy,
            )
            &&& flag_of(lines, HAS_LEGAL_HOLD@) == Ok::<bool, ErrorView>(c.has_legal_hold)
            &&& metadata_of(lines, lines.len() as int) == Ok::<
                Map<Seq<char>, Seq<char>>,
                ErrorView,
            >(c.metadata)
        }),
{
}

/// No line bears the name.
pub open spec fn absent(lines: HeaderSeq, name: Seq<char>) -> bool {
    find_from(lines, name, 0) is None
}

/// The date of the last modification is present and well-formed.
pub open spec fn date_sound(lines: HeaderSeq) -> bool {
    required_text(lines, LAST_MODIFIED@) is Ok && instant_of(
        required_text(lines, LAST_MODIFIED@)->Ok_0,
    ) is Some
}

/// The lease status and the lease state are present and well-formed.
pub open spec fn lease_sound(lines: HeaderSeq) -> bool {
    &&& required_text(lines, LEASE_STATUS@) is Ok
    &&& LeaseStatus::of_text(required_text(lines, LEASE_STATUS@)->Ok_0) is Some
    &&& required_text(lines, LEASE_STATE@) is Ok
    &&& LeaseState::of_text(required_text(lines, LEASE_STATE@)->Ok_0) is Some
}

/// A mandatory header that is absent, while the others are present and
/// sound, fails the decoding with the error that names exactly that header.
pub proof fn lemma_missing_header_named(name: Seq<char>, lines: HeaderSeq)
    ensures
        absent(lines, LAST_MODIFIED@) ==> decoded_headers(name, lines) == Err::<
            ContainerView,
            ErrorView,
        >(ErrorView::MissingHeader(LAST_MODIFIED@)),
        date_sound(lines) && absent(lines, ETAG@) ==> decoded_headers(name, lines) == Err::<
            ContainerView,
            ErrorView,
        >(ErrorView::MissingHeader(ETAG@)),
        date_sound(lines) && required_text(lines, ETAG@) is Ok && absent(lines, LEASE_STATUS@)
            ==> decoded_headers(name, lines) == Err::<ContainerView, ErrorView>(
            ErrorView::MissingHeader(LEASE_STATUS@),
        ),
        date_sound(lines) && required_text(lines, ETAG@) is Ok && required_text(
            lines,
            LEASE_STATUS@,
        ) is Ok && LeaseStatus::of_text(required_text(lines, LEASE_STATUS@)->Ok_0) is Some
            && absent(lines, LEASE_STATE@) ==> decoded_headers(name, lines) == Err::<
            ContainerView,
            ErrorView,
        >(ErrorView::MissingHeader(LEASE_STATE@)),
        date_sound(lines) && required_text(lines, ETAG@) is Ok && lease_sound(lines)
            && lease_duration_of(lines) is Ok && public_access_of(lines) is Ok && absent(
            lines,
            HAS_IMMUTABILITY_POLICY@,
        ) ==> decoded_headers(name, lines) == Err::<ContainerView, ErrorView>(
            ErrorView::MissingHeader(HAS_IMMUTABILITY_POLICY@),
        ),
        date_sound(lines) && required_text(lines, ETAG@) is Ok && lease_sound(lines)
            && lease_duration_of(lines) is Ok && public_access_of(lines) is Ok && flag_of(
            lines,
            HAS_IMMUTABILITY_POLICY@,
        ) is Ok && absent(lines, HAS_LEGAL_HOLD@) ==> decoded_headers(name, lines) == Err::<
            ContainerView,
            ErrorView,
        >(ErrorView::MissingHeader(HAS_LEGAL_HOLD@)),
{
}

} // verus!
