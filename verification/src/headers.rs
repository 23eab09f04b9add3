//! Request headers: the grammar of names and values, the parsing of
//! `Name: Value` strings, and the ordered set that a run sends.

use std::str::FromStr;
use vstd::prelude::*;
use crate::error::{ClientError, ClientErrorView};
use crate::text::{chars_of, find_char, first_index_of, opt_view, trim, trimmed, views_of};

verus! {

/// The longest header name, in characters.
pub const MAX_HEADER_NAME_LEN: usize = 65535;

/// Whether `c` may stand in a token: a letter, a digit, or one of
/// ``!#$%&'*+-.^_`|~``.
pub open spec fn is_token_char(c: char) -> bool {
    ('a' <= c && c <= 'z') || ('A' <= c && c <= 'Z') || ('0' <= c && c <= '9') || c == '!'
        || c == '#' || c == '$' || c == '%' || c == '&' || c == '\'' || c == '*' || c == '+'
        || c == '-' || c == '.' || c == '^' || c == '_' || c == '`' || c == '|' || c == '~'
}

/// `c` in lower case where it is an ASCII capital, else `c`.
pub open spec fn lower(c: char) -> char {
    if 'A' <= c && c <= 'Z' {
        ((c as u8) + 32) as char
    } else {
        c
    }
}

/// Whether `s` is a header name: between one and `MAX_HEADER_NAME_LEN` token
/// characters.
pub open spec fn is_header_name(s: Seq<char>) -> bool {
    1 <= s.len() <= MAX_HEADER_NAME_LEN && forall|i: int| 0 <= i < s.len() ==> is_token_char(
        #[trigger] s[i],
    )
}

/// The form in which a header name is kept: its ASCII capitals in lower case.
pub open spec fn canonical_name(s: Seq<char>) -> Seq<char> {
    Seq::new(s.len(), |i: int| lower(s[i]))
}

/// Whether `c` may stand in a header value: a tab, or any character from the
/// space on but for DEL.
pub open spec fn is_value_char(c: char) -> bool {
    c == '\t' || (' ' <= c && c != '\x7f')
}

/// Whether `s` is a header value.
pub open spec fn is_header_value(s: Seq<char>) -> bool {
    forall|i: int| 0 <= i < s.len() ==> is_value_char(#[trigger] s[i])
}

/// One request header.
#[derive(Clone, Debug, PartialEq, Eq)]
pub struct Header {
    /// The name, in canonical form.
    pub name: String,
    pub value: String,
}

/// The mathematical value of a `Header`.
pub struct HeaderView {
    pub name: Seq<char>,
    pub value: Seq<char>,
}

impl View for Header {
    type V = HeaderView;

    open spec fn view(&self) -> HeaderView {
        HeaderView { name: self.name@, value: self.value@ }
    }
}

impl DeepView for Header {
    type V = HeaderView;

    open spec fn deep_view(&self) -> HeaderView {
        self@
    }
}

/// The words in which `HeaderName::from_str` refuses a string.
pub uninterp spec fn name_fault(s: Seq<char>) -> Seq<char>;

/// The words in which `HeaderValue::from_str` refuses a string.
pub uninterp spec fn value_fault(s: Seq<char>) -> Seq<char>;

/// `HeaderName::from_str`, then `HeaderName::as_str`: accepts exactly the
/// header names, and keeps each in canonical form. Where it refuses, the
/// words of its error go by the name `name_fault`.
#[verifier::external_body]
pub(crate) fn header_name(s: &str) -> (r: Result<String, String>)
    ensures
        r is Ok == is_header_name(s@),
        r matches Ok(n) ==> n@ == canonical_name(s@),
        r matches Err(words) ==> words@ == name_fault(s@),
{
    match reqwest::header::HeaderName::from_str(s) {
        Ok(n) => Ok(n.as_str().to_owned()),
        Err(e) => Err(e.to_string()),
    }
}

/// `HeaderValue::from_str`: accepts exactly the header values. Its test is
/// on bytes: each must be a tab, or at least a space and not DEL, so that
/// every character beyond ASCII passes.
/// Where it refuses, the words of its error go by the name `value_fault`.
#[verifier::external_body]
pub(crate) fn header_value_check(s: &str) -> (r: Option<String>)
    ensures
        r is None == is_header_value(s@),
        r matches Some(words) ==> words@ == value_fault(s@),
{
    match reqwest::header::HeaderValue::from_str(s) {
        Ok(_) => None,
        Err(e) => Some(e.to_string()),
    }
}

/// The header that a name and a value make: the name must be a header name
/// and is kept in canonical form, the value must be a header value. What is
/// refused is refused in the parser's words.
pub open spec fn header_of(name: Seq<char>, value: Seq<char>) -> Result<
    HeaderView,
    ClientErrorView,
> {
    if !is_header_name(name) {
        Err(ClientErrorView::InvalidHeaderName(name_fault(name)))
    } else if !is_header_value(value) {
        Err(ClientErrorView::InvalidHeaderValue(value_fault(value)))
    } else {
        Ok(HeaderView { name: canonical_name(name), value })
    }
}

/// The header that a `Name: Value` string stands for: it is split at its
/// first colon, and both sides are trimmed.
pub open spec fn parsed_header(raw: Seq<char>) -> Result<HeaderView, ClientErrorView> {
    match first_index_of(raw, ':') {
        None => Err(ClientErrorView::HeaderFormat(raw)),
        Some(i) => header_of(trimmed(raw.take(i)), trimmed(raw.skip(i + 1))),
    }
}

/// Whether a result of parsing has the mathematical value `v`.
pub open spec fn header_result_is(
    r: Result<Header, ClientError>,
    v: Result<HeaderView, ClientErrorView>,
) -> bool {
    match r {
        Ok(h) => v == Ok::<HeaderView, ClientErrorView>(h@),
        Err(e) => v == Err::<HeaderView, ClientErrorView>(e@),
    }
}

/// Makes a header of a name and a value that are already trimmed.
pub fn make_header(name: &str, value: &str) -> (r: Result<Header, ClientError>)
    ensures
        header_result_is(r, header_of(name@, value@)),
{
    match header_name(name) {
        Err(words) => Err(ClientError::InvalidHeaderName(words)),
        Ok(n) => match header_value_check(value) {
            None => Ok(Header { name: n, value: value.to_owned() }),
            Some(words) => Err(ClientError::InvalidHeaderValue(words)),
        },
    }
}

/// Parses one `Name: Value` string.
pub fn parse_header(raw: &str) -> (r: Result<Header, ClientError>)
    ensures
        header_result_is(r, parsed_header(raw@)),
{
    let chars = chars_of(raw);
    match find_char(&chars, ':') {
        None => Err(ClientError::HeaderFormat(raw.to_owned())),
        Some(i) => {
            let n = chars.len();
            let name = trim(raw.substring_char(0, i));
            let value = trim(raw.substring_char(i + 1, n));
            make_header(name.as_str(), value.as_str())
        },
    }
}

/// Whether `name` is a header name in canonical form.
pub open spec fn is_canonical_name(name: Seq<char>) -> bool {
    is_header_name(name) && canonical_name(name) == name
}

/// The canonical form of a header name is a header name in canonical form.
pub proof fn lemma_canonical_name(name: Seq<char>)
    requires
        is_header_name(name),
    ensures
        is_canonical_name(canonical_name(name)),
{
    let c = canonical_name(name);
    assert forall|i: int| 0 <= i < c.len() implies is_token_char(#[trigger] c[i]) by {
        assert(is_token_char(name[i]));
    }
    assert(canonical_name(c) =~= c);
}

/// Whether two names are the same but for the case of their ASCII letters.
pub open spec fn same_name(a: Seq<char>, b: Seq<char>) -> bool {
    canonical_name(a) == canonical_name(b)
}

/// The index of the last header in `headers` that goes by `name`, whatever
/// the case of its letters; `None` where there is none.
pub open spec fn last_named(headers: Seq<HeaderView>, name: Seq<char>) -> Option<int>
    decreases headers.len(),
{
    if headers.len() == 0 {
        None
    } else if same_name(headers.last().name, name) {
        Some(headers.len() - 1)
    } else {
        last_named(headers.drop_last(), name)
    }
}

/// `last_named` yields the greatest index whose header goes by `name`, and
/// `None` exactly when no header does.
pub proof fn lemma_last_named(headers: Seq<HeaderView>, name: Seq<char>)
    ensures
        match last_named(headers, name) {
            Some(i) => 0 <= i < headers.len() && same_name(headers[i].name, name) && forall|
                j: int,
            |
                i < j < headers.len() ==> !same_name(#[trigger] headers[j].name, name),
            None => forall|j: int|
                0 <= j < headers.len() ==> !same_name(#[trigger] headers[j].name, name),
        },
    decreases headers.len(),
{
    if headers.len() > 0 && !same_name(headers.last().name, name) {
        let front = headers.drop_last();
        lemma_last_named(front, name);
        assert forall|j: int| 0 <= j < front.len() implies front[j] == headers[j] by {}
        match last_named(front, name) {
            Some(i) => {
                assert forall|j: int| i < j < headers.len() implies !same_name(
                    #[trigger] headers[j].name,
                    name,
                ) by {
                    if j < front.len() {
                        assert(front[j] == headers[j]);
                    }
                }
            },
            None => {
                assert forall|j: int| 0 <= j < headers.len() implies !same_name(
                    #[trigger] headers[j].name,
                    name,
                ) by {
                    if j < front.len() {
                        assert(front[j] == headers[j]);
                    }
                }
            },
        }
    }
}

/// Whether the strings `a` and `b` are the same but for the case of their
/// ASCII letters.
pub fn eq_ignore_case(a: &Vec<char>, b: &Vec<char>) -> (r: bool)
    ensures
        r == same_name(a@, b@),
{
    if a.len() != b.len() {
        assert(canonical_name(a@).len() != canonical_name(b@).len());
        return false;
    }
    let mut i: usize = 0;
    while i < a.len()
        invariant
            i <= a.len(),
            a.len() == b.len(),
            forall|j: int| 0 <= j < i ==> lower(a@[j]) == lower(b@[j]),
        decreases a.len() - i,
    {
        if to_lower(a[i]) != to_lower(b[i]) {
            assert(canonical_name(a@)[i as int] != canonical_name(b@)[i as int]);
            return false;
        }
        i = i + 1;
    }
    assert(canonical_name(a@) =~= canonical_name(b@));
    true
}

/// `c` in lower case where it is an ASCII capital.
pub fn to_lower(c: char) -> (r: char)
    ensures
        r == lower(c),
{
    if 'A' <= c && c <= 'Z' {
        ((c as u8) + 32) as char
    } else {
        c
    }
}

/// The headers that a run sends, in the order in which they were given.
/// Several may share a name: all of them are sent, each in its place among
/// the others, and a lookup by name finds the last of them. A map from
/// names to values would keep neither the place of a header among those of
/// other names nor the last value for a lookup, so the set is a list.
#[derive(Clone, Debug, PartialEq, Eq)]
pub struct HeaderSet {
    pub entries: Vec<Header>,
}

impl View for HeaderSet {
    type V = Seq<HeaderView>;

    open spec fn view(&self) -> Seq<HeaderView> {
        self.entries.deep_view()
    }
}

/// Whether every header in `headers` has a canonical name and a valid value.
pub open spec fn headers_valid(headers: Seq<HeaderView>) -> bool {
    forall|i: int|
        0 <= i < headers.len() ==> is_canonical_name(#[trigger] headers[i].name)
            && is_header_value(headers[i].value)
}

/// The headers that a list of `Name: Value` strings stands for, in order;
/// the first string that fails decides the error.
pub open spec fn parsed_headers(raw: Seq<Seq<char>>) -> Result<Seq<HeaderView>, ClientErrorView>
    decreases raw.len(),
{
    if raw.len() == 0 {
        Ok(Seq::empty())
    } else {
        match parsed_headers(raw.drop_last()) {
            Err(e) => Err(e),
            Ok(hs) => match parsed_header(raw.last()) {
                Err(e) => Err(e),
                Ok(h) => Ok(hs.push(h)),
            },
        }
    }
}

/// The header set of a run: the parsed header strings, then the cookie, if
/// there is one, as the value of a last header `cookie`.
pub open spec fn built_headers(raw: Seq<Seq<char>>, cookie: Option<Seq<char>>) -> Result<
    Seq<HeaderView>,
    ClientErrorView,
> {
    match parsed_headers(raw) {
        Err(e) => Err(e),
        Ok(hs) => match cookie {
            None => Ok(hs),
            Some(c) => if is_header_value(c) {
                Ok(hs.push(HeaderView { name: "cookie"@, value: c }))
            } else {
                Err(ClientErrorView::InvalidHeaderValue(value_fault(c)))
            },
        },
    }
}

/// Whether a result of building has the mathematical value `v`.
pub open spec fn set_result_is(
    r: Result<HeaderSet, ClientError>,
    v: Result<Seq<HeaderView>, ClientErrorView>,
) -> bool {
    match r {
        Ok(h) => v == Ok::<Seq<HeaderView>, ClientErrorView>(h@),
        Err(e) => v == Err::<Seq<HeaderView>, ClientErrorView>(e@),
    }
}

impl HeaderSet {
    /// The set without headers.
    pub fn new() -> (s: HeaderSet)
        ensures
            s@ == Seq::<HeaderView>::empty(),
    {
        let s = HeaderSet { entries: Vec::new() };
        assert(s@ =~= Seq::<HeaderView>::empty());
        s
    }

    /// Adds a header behind those that are there.
    pub fn push(&mut self, header: Header)
        ensures
            final(self)@ == old(self)@.push(header@),
    {
        self.entries.push(header);
        assert(self@ =~= old(self)@.push(header@));
    }

    /// The number of headers.
    pub fn len(&self) -> (n: usize)
        ensures
            n == self@.len(),
    {
        self.entries.len()
    }

    /// Builds the set from the header strings and the cookie of a run.
    pub fn build(raw: &Vec<String>, cookie: &Option<String>) -> (r: Result<HeaderSet, ClientError>)
        ensures
            set_result_is(r, built_headers(views_of(raw@), opt_view(*cookie))),
    {
        let mut set = HeaderSet::new();
        let mut i: usize = 0;
        while i < raw.len()
            invariant
                i <= raw.len(),
                parsed_headers(views_of(raw@).take(i as int)) == Ok::<
                    Seq<HeaderView>,
                    ClientErrorView,
                >(set@),
            decreases raw.len() - i,
        {
            let ghost all = views_of(raw@);
            proof {
                assert(all.take(i + 1).drop_last() =~= all.take(i as int));
                assert(all.take(i + 1).last() == raw@[i as int]@);
            }
            match parse_header(raw[i].as_str()) {
                Err(e) => {
                    proof {
                        lemma_parsed_headers_error(all, i as int);
                    }
                    return Err(e);
                },
                Ok(h) => {
                    set.push(h);
                },
            }
            i = i + 1;
        }
        assert(views_of(raw@).take(raw.len() as int) =~= views_of(raw@));
        match cookie {
            None => Ok(set),
            Some(c) => {
                match header_value_check(c.as_str()) {
                    None => {
                        set.push(Header { name: "cookie".to_owned(), value: c.clone() });
                        Ok(set)
                    },
                    Some(words) => Err(ClientError::InvalidHeaderValue(words)),
                }
            },
        }
    }

    /// The index of the last header that goes by `name`, whatever the case
    /// of its letters.
    pub fn position(&self, name: &str) -> (r: Option<usize>)
        ensures
            match r {
                Some(i) => last_named(self@, name@) == Some(i as int) && i < self@.len(),
                None => last_named(self@, name@) is None,
            },
    {
        let wanted = chars_of(name);
        let mut i: usize = self.entries.len();
        assert(self@.take(i as int) =~= self@);
        while i > 0
            invariant
                i <= self.entries.len(),
                wanted@ == name@,
                last_named(self@, name@) == last_named(self@.take(i as int), name@),
            decreases i,
        {
            let ghost prefix = self@.take(i as int);
            assert(prefix.last() == self.entries@[i - 1]@);
            assert(prefix.drop_last() =~= self@.take(i - 1));
            let have = chars_of(self.entries[i - 1].name.as_str());
            if eq_ignore_case(&have, &wanted) {
                return Some(i - 1);
            }
            i = i - 1;
        }
        None
    }

    /// The value of the last header that goes by `name`, whatever the case
    /// of its letters.
    pub fn get(&self, name: &str) -> (r: Option<String>)
        ensures
            match r {
                Some(v) => last_named(self@, name@) is Some && v@ == self@[last_named(
                    self@,
                    name@,
                )->Some_0].value,
                None => last_named(self@, name@) is None,
            },
    {
        match self.position(name) {
            Some(i) => {
                assert(self@[i as int] == self.entries@[i as int]@);
                Some(self.entries[i].value.clone())
            },
            None => None,
        }
    }

    /// Whether a header goes by `name`, whatever the case of its letters.
    pub fn contains(&self, name: &str) -> (b: bool)
        ensures
            b == last_named(self@, name@) is Some,
    {
        self.position(name).is_some()
    }
}

/// A header that parsing gives has a canonical name and a valid value.
pub proof fn lemma_parsed_header_valid(raw: Seq<char>)
    requires
        parsed_header(raw) is Ok,
    ensures
        is_canonical_name(parsed_header(raw)->Ok_0.name),
        is_header_value(parsed_header(raw)->Ok_0.value),
{
    let i = first_index_of(raw, ':')->Some_0;
    lemma_canonical_name(trimmed(raw.take(i)));
}

/// The headers that parsing gives are valid.
pub proof fn lemma_parsed_headers_valid(raw: Seq<Seq<char>>)
    requires
        parsed_headers(raw) is Ok,
    ensures
        headers_valid(parsed_headers(raw)->Ok_0),
        parsed_headers(raw)->Ok_0.len() == raw.len(),
    decreases raw.len(),
{
    if raw.len() > 0 {
        lemma_parsed_headers_valid(raw.drop_last());
        lemma_parsed_header_valid(raw.last());
    }
}

/// The header `cookie` bears a canonical name.
pub proof fn lemma_cookie_name()
    ensures
        is_canonical_name("cookie"@),
{
    reveal_strlit("cookie");
    assert(canonical_name("cookie"@) =~= "cookie"@);
}

/// The header set that building gives is valid.
pub proof fn lemma_built_headers_valid(raw: Seq<Seq<char>>, cookie: Option<Seq<char>>)
    requires
        built_headers(raw, cookie) is Ok,
    ensures
        headers_valid(built_headers(raw, cookie)->Ok_0),
{
    lemma_parsed_headers_valid(raw);
    lemma_cookie_name();
    let hs = parsed_headers(raw)->Ok_0;
    let built = built_headers(raw, cookie)->Ok_0;
    assert forall|i: int| 0 <= i < built.len() implies is_canonical_name(
        #[trigger] built[i].name,
    ) && is_header_value(built[i].value) by {
        if i < hs.len() {
            assert(built[i] == hs[i]);
        }
    }
}

/// Where a header string fails, the whole list fails with its error.
pub proof fn lemma_parsed_headers_error(raw: Seq<Seq<char>>, i: int)
    requires
        0 <= i < raw.len(),
        parsed_headers(raw.take(i)) is Ok,
        parsed_header(raw[i]) is Err,
    ensures
        parsed_headers(raw) == Err::<Seq<HeaderView>, ClientErrorView>(parsed_header(raw[i])->Err_0),
    decreases raw.len() - i,
{
    assert(raw.take(i + 1).drop_last() =~= raw.take(i));
    assert(raw.take(i + 1).last() == raw[i]);
    lemma_parsed_headers_error_from(raw, i + 1);
}

/// Once a prefix of the list has failed, the whole list fails the same way.
pub proof fn lemma_parsed_headers_error_from(raw: Seq<Seq<char>>, n: int)
    requires
        0 <= n <= raw.len(),
        parsed_headers(raw.take(n)) is Err,
    ensures
        parsed_headers(raw) == parsed_headers(raw.take(n)),
    decreases raw.len() - n,
{
    if n == raw.len() {
        assert(raw.take(n) =~= raw);
    } else {
        assert(raw.take(n + 1).drop_last() =~= raw.take(n));
        lemma_parsed_headers_error_from(raw, n + 1);
    }
}

} // verus!
