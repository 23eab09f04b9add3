//! What one hop's response holds, as plain values, and what is read off it.

use vstd::prelude::*;
use crate::headers::{eq_ignore_case, same_name};
use crate::text::{chars_of, push_char};

verus! {

/// The versions of HTTP that a response may speak.
#[derive(Clone, Copy, Debug, PartialEq, Eq, Structural)]
pub enum HttpVersion {
    Http09,
    Http10,
    Http11,
    H2,
    H3,
}

impl HttpVersion {
    /// The version as it stands in a status line.
    pub open spec fn text(self) -> Seq<char> {
        match self {
            HttpVersion::Http09 => "HTTP/0.9"@,
            HttpVersion::Http10 => "HTTP/1.0"@,
            HttpVersion::Http11 => "HTTP/1.1"@,
            HttpVersion::H2 => "HTTP/2.0"@,
            HttpVersion::H3 => "HTTP/3.0"@,
        }
    }

    /// The version as it stands in a status line.
    pub fn as_str(self) -> (s: &'static str)
        ensures
            s@ == self.text(),
    {
        match self {
            HttpVersion::Http09 => "HTTP/0.9",
            HttpVersion::Http10 => "HTTP/1.0",
            HttpVersion::Http11 => "HTTP/1.1",
            HttpVersion::H2 => "HTTP/2.0",
            HttpVersion::H3 => "HTTP/3.0",
        }
    }
}

/// Whether `code` is a status code: three digits, the first not zero.
pub open spec fn is_status(code: u16) -> bool {
    100 <= code <= 999
}

/// Whether `code` is in the class of success, 200 to 299.
pub open spec fn is_success(code: u16) -> bool {
    200 <= code < 300
}

/// Whether `code` is in the class of redirection, 300 to 399.
pub open spec fn is_redirection(code: u16) -> bool {
    300 <= code < 400
}

/// Whether `code` is in the class of success.
pub fn status_is_success(code: u16) -> (b: bool)
    ensures
        b == is_success(code),
{
    200 <= code && code < 300
}

/// Whether `code` is in the class of redirection.
pub fn status_is_redirection(code: u16) -> (b: bool)
    ensures
        b == is_redirection(code),
{
    300 <= code && code < 400
}

/// The words for a status code in a status line: the code in decimal, a
/// space, and the reason phrase that `StatusCode` knows for it.
pub uninterp spec fn status_text(code: u16) -> Seq<char>;

/// `StatusCode::from_u16`, then its `Display`: there is a status for the
/// codes from 100 to 999 and no others, and its words go by the name
/// `status_text`.
#[verifier::external_body]
pub(crate) fn status_words(code: u16) -> (r: Option<String>)
    ensures
        r is Some == is_status(code),
        r matches Some(t) ==> t@ == status_text(code),
{
    match reqwest::StatusCode::from_u16(code) {
        Ok(s) => Some(s.to_string()),
        Err(_) => None,
    }
}

/// Whether `b` is a visible ASCII character or a tab.
pub open spec fn is_visible_byte(b: u8) -> bool {
    (32 <= b && b < 127) || b == 9
}

/// Whether all of `value` is visible ASCII or tabs.
pub open spec fn is_visible(value: Seq<u8>) -> bool {
    forall|i: int| 0 <= i < value.len() ==> is_visible_byte(#[trigger] value[i])
}

/// The bytes of `value` as characters.
pub open spec fn as_chars(value: Seq<u8>) -> Seq<char> {
    Seq::new(value.len(), |i: int| value[i] as char)
}

/// A header value as text: its bytes as characters where all of them are
/// visible, and `None` where one is not.
pub open spec fn visible_text(value: Seq<u8>) -> Option<Seq<char>> {
    if is_visible(value) {
        Some(as_chars(value))
    } else {
        None
    }
}

/// A header value as text, where all of it is visible.
pub fn header_text(value: &Vec<u8>) -> (r: Option<String>)
    ensures
        r is Some == visible_text(value@) is Some,
        r matches Some(t) ==> visible_text(value@) == Some(t@),
{
    let mut text = String::new();
    let mut i: usize = 0;
    while i < value.len()
        invariant
            i <= value.len(),
            is_visible(value@.take(i as int)),
            text@ == as_chars(value@.take(i as int)),
        decreases value.len() - i,
    {
        let b = value[i];
        if !((32 <= b && b < 127) || b == 9) {
            return None;
        }
        push_char(&mut text, b as char);
        i = i + 1;
        assert(as_chars(value@.take(i as int)) =~= as_chars(value@.take(i - 1)).push(b as char));
    }
    assert(value@.take(value.len() as int) =~= value@);
    Some(text)
}

/// One response header: its name as the transport gives it, and the bytes
/// of its value.
#[derive(Clone, Debug, PartialEq, Eq)]
pub struct ResponseHeader {
    pub name: String,
    pub value: Vec<u8>,
}

/// The mathematical value of a `ResponseHeader`.
pub struct ResponseHeaderView {
    pub name: Seq<char>,
    pub value: Seq<u8>,
}

impl View for ResponseHeader {
    type V = ResponseHeaderView;

    open spec fn view(&self) -> ResponseHeaderView {
        ResponseHeaderView { name: self.name@, value: self.value@ }
    }
}

impl DeepView for ResponseHeader {
    type V = ResponseHeaderView;

    open spec fn deep_view(&self) -> ResponseHeaderView {
        self@
    }
}

/// The response of one hop.
#[derive(Clone, Debug, PartialEq, Eq)]
pub struct ResponseSnapshot {
    pub version: HttpVersion,
    /// The status code.
    pub status: u16,
    /// The headers, in the order in which they came.
    pub headers: Vec<ResponseHeader>,
    /// The body; empty where it was not read.
    pub body: Vec<u8>,
    /// The absolute URL that the response was read from.
    pub url: String,
}

/// The mathematical value of a `ResponseSnapshot`.
pub struct ResponseView {
    pub version: HttpVersion,
    pub status: u16,
    pub headers: Seq<ResponseHeaderView>,
    pub body: Seq<u8>,
    pub url: Seq<char>,
}

impl View for ResponseSnapshot {
    type V = ResponseView;

    open spec fn view(&self) -> ResponseView {
        ResponseView {
            version: self.version,
            status: self.status,
            headers: self.headers.deep_view(),
            body: self.body@,
            url: self.url@,
        }
    }
}

/// The index of the first header in `headers` that goes by `name`, whatever
/// the case of its letters; `None` where there is none.
pub open spec fn first_named(headers: Seq<ResponseHeaderView>, name: Seq<char>) -> Option<int>
    decreases headers.len(),
{
    if headers.len() == 0 {
        None
    } else if same_name(headers[0].name, name) {
        Some(0)
    } else {
        match first_named(headers.drop_first(), name) {
            Some(i) => Some(i + 1),
            None => None,
        }
    }
}

/// `first_named` yields the least index whose header goes by `name`, and
/// `None` exactly when no header does.
pub proof fn lemma_first_named(headers: Seq<ResponseHeaderView>, name: Seq<char>)
    ensures
        match first_named(headers, name) {
            Some(i) => 0 <= i < headers.len() && same_name(headers[i].name, name) && forall|
                j: int,
            |
                0 <= j < i ==> !same_name(#[trigger] headers[j].name, name),
            None => forall|j: int|
                0 <= j < headers.len() ==> !same_name(#[trigger] headers[j].name, name),
        },
    decreases headers.len(),
{
    if headers.len() > 0 && !same_name(headers[0].name, name) {
        let rest = headers.drop_first();
        lemma_first_named(rest, name);
        match first_named(rest, name) {
            Some(i) => {
                assert forall|j: int| 0 <= j < i + 1 implies !same_name(
                    #[trigger] headers[j].name,
                    name,
                ) by {
                    if j > 0 {
                        assert(rest[j - 1] == headers[j]);
                    }
                }
            },
            None => {
                assert forall|j: int| 0 <= j < headers.len() implies !same_name(
                    #[trigger] headers[j].name,
                    name,
                ) by {
                    if j > 0 {
                        assert(rest[j - 1] == headers[j]);
                    }
                }
            },
        }
    }
}

/// The value of the header `Location`, where the response has one and its
/// first one is visible text.
pub open spec fn location_of(headers: Seq<ResponseHeaderView>) -> Option<Seq<char>> {
    match first_named(headers, "location"@) {
        Some(i) => visible_text(headers[i].value),
        None => None,
    }
}

/// The value of the first header `Location`, where it is visible text.
pub fn find_location(headers: &Vec<ResponseHeader>) -> (r: Option<String>)
    ensures
        r is Some == location_of(headers.deep_view()) is Some,
        r matches Some(t) ==> location_of(headers.deep_view()) == Some(t@),
{
    let wanted = chars_of("location");
    let ghost all = headers.deep_view();
    let mut i: usize = 0;
    while i < headers.len()
        invariant
            i <= headers.len(),
            all == headers.deep_view(),
            wanted@ == "location"@,
            forall|j: int| 0 <= j < i ==> !same_name(#[trigger] all[j].name, "location"@),
        decreases headers.len() - i,
    {
        let have = chars_of(headers[i].name.as_str());
        if eq_ignore_case(&have, &wanted) {
            proof {
                lemma_first_named(all, "location"@);
                assert(all[i as int].name == headers@[i as int].name@);
            }
            return header_text(&headers[i].value);
        }
        assert(all[i as int].name == headers@[i as int].name@);
        i = i + 1;
    }
    proof {
        lemma_first_named(all, "location"@);
    }
    None
}

} // verus!
