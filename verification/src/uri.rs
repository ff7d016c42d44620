//! Resource addresses: percent-encoding of path segments and the layout of
//! container and blob URIs.

use vstd::prelude::*;
use vstd::string::*;
use vstd::utf8::encode_utf8;
use crate::capabilities::{BlobNameRequired, ClientRequired, ContainerNameRequired};

verus! {

/// The bytes that the user-info encode set of the `url` crate holds: all
/// controls and non-ASCII bytes, the space, and the listed punctuation.
pub open spec fn in_userinfo_set(b: u8) -> bool {
    b < 0x20 || b > 0x7E || b == 0x20 || b == 0x22 || b == 0x23 || b == 0x3C || b == 0x3E || b
        == 0x60 || b == 0x3F || b == 0x7B || b == 0x7D || b == 0x2F || b == 0x3A || b == 0x3B || b
        == 0x3D || b == 0x40 || b == 0x5B || b == 0x5C || b == 0x5D || b == 0x5E || b == 0x7C
}

/// The digit of a value below sixteen: decimal below ten, then `A` to `F`.
pub open spec fn digit_char(n: u8) -> char {
    if n < 10 {
        (0x30 + n) as u8 as char
    } else {
        (0x41 + n - 10) as u8 as char
    }
}

/// One byte, percent-encoded where the user-info set holds it.
pub open spec fn userinfo_encoded_byte(b: u8) -> Seq<char> {
    if in_userinfo_set(b) {
        seq!['%', digit_char(b / 16), digit_char(b % 16)]
    } else {
        seq![b as char]
    }
}

/// The bytes of a text, each encoded by [`userinfo_encoded_byte`].
pub open spec fn userinfo_encoded_bytes(bytes: Seq<u8>) -> Seq<char>
    decreases bytes.len(),
{
    if bytes.len() == 0 {
        Seq::empty()
    } else {
        userinfo_encoded_bytes(bytes.drop_last()) + userinfo_encoded_byte(bytes.last())
    }
}

/// Calls `url::percent_encoding::utf8_percent_encode` with
/// `USERINFO_ENCODE_SET` and collects what it yields. Trusted: that each byte
/// of the text's UTF-8 form comes out as itself, or as `%` and its two
/// upper-case hexadecimal digits where the set holds it.
#[verifier::external_body]
fn userinfo_encode(text: &str) -> (r: String)
    ensures
        r@ == userinfo_encoded_bytes(encode_utf8(text@)),
{
    url::percent_encoding::utf8_percent_encode(text, url::percent_encoding::USERINFO_ENCODE_SET)
        .to_string()
}

/// A character of an encoded text, with the three characters escaped that a
/// path segment of this service must not hold beyond the user-info set.
pub open spec fn escaped_char(c: char) -> Seq<char> {
    if c == '+' {
        "%2B"@
    } else if c == '-' {
        "%2D"@
    } else if c == '&' {
        "%26"@
    } else {
        seq![c]
    }
}

/// A text with each of its characters escaped by [`escaped_char`].
pub open spec fn escape_reserved(s: Seq<char>) -> Seq<char>
    decreases s.len(),
{
    if s.len() == 0 {
        Seq::empty()
    } else {
        escape_reserved(s.drop_last()) + escaped_char(s.last())
    }
}

/// The bytes that a path segment of this service has percent-encoded: those
/// of the user-info set, and `+`, `-` and `&`.
pub open spec fn in_segment_set(b: u8) -> bool {
    in_userinfo_set(b) || b == 0x2B || b == 0x2D || b == 0x26
}

/// One byte, percent-encoded where [`in_segment_set`] holds it.
pub open spec fn segment_encoded_byte(b: u8) -> Seq<char> {
    if in_segment_set(b) {
        seq!['%', digit_char(b / 16), digit_char(b % 16)]
    } else {
        seq![b as char]
    }
}

/// The bytes of a text, each encoded by [`segment_encoded_byte`].
pub open spec fn segment_encoded_bytes(bytes: Seq<u8>) -> Seq<char>
    decreases bytes.len(),
{
    if bytes.len() == 0 {
        Seq::empty()
    } else {
        segment_encoded_bytes(bytes.drop_last()) + segment_encoded_byte(bytes.last())
    }
}

/// The encoding of a path segment: each byte of its UTF-8 form, encoded by
/// [`segment_encoded_byte`].
pub open spec fn segment_encoding(s: Seq<char>) -> Seq<char> {
    segment_encoded_bytes(encode_utf8(s))
}

/// Escaping goes through a concatenation.
pub proof fn lemma_escape_concat(a: Seq<char>, b: Seq<char>)
    ensures
        escape_reserved(a + b) == escape_reserved(a) + escape_reserved(b),
    decreases b.len(),
{
    if b.len() == 0 {
        assert(a + b =~= a);
        assert(escape_reserved(a) + escape_reserved(b) =~= escape_reserved(a));
    } else {
        assert((a + b).drop_last() =~= a + b.drop_last());
        lemma_escape_concat(a, b.drop_last());
        assert(escape_reserved(a + b) =~= escape_reserved(a) + escape_reserved(b));
    }
}

/// Escaping a single character.
pub proof fn lemma_escape_single(c: char)
    ensures
        escape_reserved(seq![c]) == escaped_char(c),
{
    let one = seq![c];
    assert(one.drop_last() =~= Seq::<char>::empty());
    assert(escape_reserved(one.drop_last()) =~= Seq::<char>::empty());
    assert(escape_reserved(one) =~= escaped_char(c));
}

/// Escaping an encoded byte gives the byte's segment encoding.
pub proof fn lemma_escape_encoded_byte(b: u8)
    ensures
        escape_reserved(userinfo_encoded_byte(b)) == segment_encoded_byte(b),
{
    reveal_strlit("%2B");
    reveal_strlit("%2D");
    reveal_strlit("%26");
    let e = userinfo_encoded_byte(b);
    if in_userinfo_set(b) {
        let high = digit_char(b / 16);
        let low = digit_char(b % 16);
        lemma_escape_single('%');
        lemma_escape_single(high);
        lemma_escape_single(low);
        lemma_escape_concat(seq!['%'], seq![high]);
        lemma_escape_concat(seq!['%'] + seq![high], seq![low]);
        assert(e =~= seq!['%'] + seq![high] + seq![low]);
        assert(escape_reserved(e) =~= e);
    } else {
        lemma_escape_single(b as char);
        assert(escaped_char(b as char) =~= segment_encoded_byte(b));
    }
}

/// The encoding of a segment, said byte by byte: each byte of the text's
/// UTF-8 form stands for itself, or is written as `%` and two hexadecimal
/// digits where [`in_segment_set`] holds it.
pub proof fn lemma_segment_encoding_by_bytes(bytes: Seq<u8>)
    ensures
        escape_reserved(userinfo_encoded_bytes(bytes)) == segment_encoded_bytes(bytes),
    decreases bytes.len(),
{
    if bytes.len() > 0 {
        lemma_segment_encoding_by_bytes(bytes.drop_last());
        lemma_escape_concat(
            userinfo_encoded_bytes(bytes.drop_last()),
            userinfo_encoded_byte(bytes.last()),
        );
        lemma_escape_encoded_byte(bytes.last());
    }
}

/// Escapes `+`, `-` and `&`.
pub fn escape_reserved_chars(text: &str) -> (r: String)
    ensures
        r@ == escape_reserved(text@),
{
    let n: usize = text.unicode_len();
    let mut out = String::new();
    let mut i: usize = 0;
    while i < n
        invariant
            i <= n,
            n == text@.len(),
            out@ == escape_reserved(text@.subrange(0, i as int)),
        decreases n - i,
    {
        let c = text.get_char(i);
        proof {
            assert(text@.subrange(0, i as int + 1).drop_last() =~= text@.subrange(0, i as int));
            assert(text@.subrange(i as int, i as int + 1) =~= seq![c]);
        }
        if c == '+' {
            out.append("%2B");
        } else if c == '-' {
            out.append("%2D");
        } else if c == '&' {
            out.append("%26");
        } else {
            out.append(text.substring_char(i, i + 1));
        }
        i += 1;
    }
    assert(text@.subrange(0, n as int) =~= text@);
    out
}

/// Percent-encodes one path segment.
pub fn encode_segment(segment: &str) -> (r: String)
    ensures
        r@ == segment_encoding(segment@),
{
    let encoded = userinfo_encode(segment);
    proof {
        lemma_segment_encoding_by_bytes(encode_utf8(segment@));
    }
    escape_reserved_chars(encoded.as_str())
}

/// The address of a container, with the query `params` where there is one.
pub open spec fn container_uri(account: Seq<char>, container: Seq<char>, params: Option<Seq<char>>) -> Seq<char> {
    let base = "https://"@ + account + ".blob.core.windows.net/"@ + segment_encoding(container);
    match params {
        Some(p) => base + "?"@ + p,
        None => base,
    }
}

/// The address of a blob, with the query `params` where there is one.
pub open spec fn blob_uri(
    account: Seq<char>,
    container: Seq<char>,
    blob: Seq<char>,
    params: Option<Seq<char>>,
) -> Seq<char> {
    let base = "https://"@ + account + ".blob.core.windows.net/"@ + segment_encoding(container)
        + "/"@ + segment_encoding(blob);
    match params {
        Some(p) => base + "?"@ + p,
        None => base,
    }
}

/// The address of the container that a builder names.
pub fn generate_container_uri<'a, T>(t: &T, params: Option<&str>) -> (r: String) where
    T: ClientRequired<'a> + ContainerNameRequired<'a>,

    ensures
        r@ == container_uri(
            t.account_text(),
            t.container_name_text(),
            match params {
                Some(p) => Some(p@),
                None => None,
            },
        ),
{
    let mut uri = String::from_str("https://");
    uri.append(t.client().account());
    uri.append(".blob.core.windows.net/");
    let encoded = encode_segment(t.container_name());
    uri.append(encoded.as_str());
    match params {
        Some(p) => {
            uri.append("?");
            uri.append(p);
        },
        None => {},
    }
    uri
}

/// The address of the blob that a builder names.
pub fn generate_blob_uri<'a, T>(t: &T, params: Option<&str>) -> (r: String) where
    T: ClientRequired<'a> + ContainerNameRequired<'a> + BlobNameRequired<'a>,

    ensures
        r@ == blob_uri(
            t.account_text(),
            t.container_name_text(),
            t.blob_name_text(),
            match params {
                Some(p) => Some(p@),
                None => None,
            },
        ),
{
    let mut uri = String::from_str("https://");
    uri.append(t.client().account());
    uri.append(".blob.core.windows.net/");
    let container = encode_segment(t.container_name());
    uri.append(container.as_str());
    uri.append("/");
    let blob = encode_segment(t.blob_name());
    uri.append(blob.as_str());
    match params {
        Some(p) => {
            uri.append("?");
            uri.append(p);
        },
        None => {},
    }
    uri
}

/// The decimal digits of a number, most significant first.
pub open spec fn decimal(n: nat) -> Seq<char>
    decreases n,
{
    if n < 10 {
        seq![digit_char(n as u8)]
    } else {
        decimal(n / 10) + seq![digit_char((n % 10) as u8)]
    }
}

/// The text of one decimal digit.
fn digit_text(d: u64) -> (r: &'static str)
    requires
        d < 10,
    ensures
        r@ == seq![digit_char(d as u8)],
{
    proof {
        reveal_strlit("0");
        reveal_strlit("1");
        reveal_strlit("2");
        reveal_strlit("3");
        reveal_strlit("4");
        reveal_strlit("5");
        reveal_strlit("6");
        reveal_strlit("7");
        reveal_strlit("8");
        reveal_strlit("9");
    }
    let r = if d == 0 {
        "0"
    } else if d == 1 {
        "1"
    } else if d == 2 {
        "2"
    } else if d == 3 {
        "3"
    } else if d == 4 {
        "4"
    } else if d == 5 {
        "5"
    } else if d == 6 {
        "6"
    } else if d == 7 {
        "7"
    } else if d == 8 {
        "8"
    } else {
        "9"
    };
    assert(r@ =~= seq![digit_char(d as u8)]);
    r
}

/// Writes a number in decimal.
pub fn decimal_text(n: u64) -> (r: String)
    ensures
        r@ == decimal(n as nat),
    decreases n,
{
    if n < 10 {
        String::from_str(digit_text(n))
    } else {
        let mut head = decimal_text(n / 10);
        head.append(digit_text(n % 10));
        head
    }
}

/// The query parameter of a timeout in seconds.
pub open spec fn timeout_parameter(timeout: u64) -> Seq<char> {
    "timeout="@ + decimal(timeout as nat)
}

pub fn timeout_to_uri_parameter(timeout: u64) -> (r: String)
    ensures
        r@ == timeout_parameter(timeout),
{
    let mut out = String::from_str("timeout=");
    let digits = decimal_text(timeout);
    out.append(digits.as_str());
    out
}

} // verus!
