//! URLs: the default scheme, and what the URL parser says of a URL.

use vstd::prelude::*;
use vstd::string::StringExecFns;
use crate::text::chars_of;

verus! {

/// The URL that `Url::join` gives for `location` taken against `base`, as
/// text; `None` where `base` is no absolute URL or the two do not make one.
pub uninterp spec fn joined(base: Seq<char>, location: Seq<char>) -> Option<Seq<char>>;

/// The host of the URL `url`, as `Url::host_str` gives it; `None` where
/// `url` is no absolute URL or has no host.
pub uninterp spec fn host_of(url: Seq<char>) -> Option<Seq<char>>;

/// The path of the URL `url`, as `Url::path` gives it; `None` where `url` is
/// no absolute URL.
pub uninterp spec fn path_of(url: Seq<char>) -> Option<Seq<char>>;

/// Whether `c` is an ASCII letter.
pub open spec fn is_letter(c: char) -> bool {
    ('a' <= c && c <= 'z') || ('A' <= c && c <= 'Z')
}

/// Whether `c` may stand in a scheme behind its first letter: a letter, a
/// digit, or one of `+`, `.`, `-`.
pub open spec fn is_scheme_char(c: char) -> bool {
    is_letter(c) || ('0' <= c && c <= '9') || c == '+' || c == '.' || c == '-'
}

/// Whether `url` begins with a scheme of `n` characters and `://` behind it.
pub open spec fn scheme_ends_at(url: Seq<char>, n: int) -> bool {
    &&& 1 <= n
    &&& n + 3 <= url.len()
    &&& is_letter(url[0])
    &&& forall|i: int| 1 <= i < n ==> is_scheme_char(#[trigger] url[i])
    &&& url[n] == ':'
    &&& url[n + 1] == '/'
    &&& url[n + 2] == '/'
}

/// Whether `url` names a scheme: it begins with a letter, goes on with
/// letters, digits, `+`, `.` or `-`, and then has `://`.
pub open spec fn names_scheme(url: Seq<char>) -> bool {
    exists|n: int| scheme_ends_at(url, n)
}

/// `url` as it is where it names a scheme, and with the scheme `http://`
/// put in front where it names none.
pub open spec fn normalized(url: Seq<char>) -> Seq<char> {
    if names_scheme(url) {
        url
    } else {
        "http://"@ + url
    }
}

/// Whether `c` is an ASCII letter.
fn letter(c: char) -> (b: bool)
    ensures
        b == is_letter(c),
{
    ('a' <= c && c <= 'z') || ('A' <= c && c <= 'Z')
}

/// Whether `c` may stand in a scheme behind its first letter.
fn scheme_char(c: char) -> (b: bool)
    ensures
        b == is_scheme_char(c),
{
    letter(c) || ('0' <= c && c <= '9') || c == '+' || c == '.' || c == '-'
}

/// Whether `url` names a scheme.
pub fn has_scheme(url: &Vec<char>) -> (b: bool)
    ensures
        b == names_scheme(url@),
{
    if url.len() == 0 || !letter(url[0]) {
        return false;
    }
    let mut n: usize = 1;
    while n < url.len() && scheme_char(url[n])
        invariant
            1 <= n <= url.len(),
            forall|i: int| 1 <= i < n ==> is_scheme_char(#[trigger] url@[i]),
        decreases url.len() - n,
    {
        n = n + 1;
    }
    if url.len() - n >= 3 && url[n] == ':' && url[n + 1] == '/' && url[n + 2] == '/' {
        assert(scheme_ends_at(url@, n as int));
        true
    } else {
        assert forall|m: int| !scheme_ends_at(url@, m) by {
            if scheme_ends_at(url@, m) {
                if m < n {
                    assert(is_scheme_char(url@[m]));
                } else if m > n {
                    assert(is_scheme_char(url@[n as int]));
                }
            }
        }
        false
    }
}

/// Gives a URL without a scheme the scheme `http://`.
pub fn normalize_url(url: &str) -> (r: String)
    ensures
        r@ == normalized(url@),
{
    let chars = chars_of(url);
    if has_scheme(&chars) {
        url.to_owned()
    } else {
        String::from_str("http://").concat(url)
    }
}

/// What normalizing gives names a scheme, so that normalizing twice changes
/// nothing more.
pub proof fn lemma_normalized_idempotent(url: Seq<char>)
    ensures
        names_scheme(normalized(url)),
        normalized(normalized(url)) == normalized(url),
{
    if !names_scheme(url) {
        reveal_strlit("http://");
        let whole = "http://"@ + url;
        assert(scheme_ends_at(whole, 4));
    }
}

/// `Url::parse` on `base`, then `Url::join` with `location`; the joined URL
/// is handed back as text. The result goes by the name `joined`.
#[verifier::external_body]
pub(crate) fn join_location(base: &str, location: &str) -> (r: Option<String>)
    ensures
        r is Some == joined(base@, location@) is Some,
        r matches Some(u) ==> joined(base@, location@) == Some(u@),
{
    match reqwest::Url::parse(base) {
        Ok(b) => match b.join(location) {
            Ok(u) => Some(u.as_str().to_owned()),
            Err(_) => None,
        },
        Err(_) => None,
    }
}

/// `Url::parse` on `url`, then `Url::host_str`. The result goes by the name
/// `host_of`.
#[verifier::external_body]
pub(crate) fn url_host(url: &str) -> (r: Option<String>)
    ensures
        r is Some == host_of(url@) is Some,
        r matches Some(h) ==> host_of(url@) == Some(h@),
{
    match reqwest::Url::parse(url) {
        Ok(u) => match u.host_str() {
            Some(h) => Some(h.to_owned()),
            None => None,
        },
        Err(_) => None,
    }
}

/// `Url::parse` on `url`, then `Url::path`. The result goes by the name
/// `path_of`.
#[verifier::external_body]
pub(crate) fn url_path(url: &str) -> (r: Option<String>)
    ensures
        r is Some == path_of(url@) is Some,
        r matches Some(p) ==> path_of(url@) == Some(p@),
{
    match reqwest::Url::parse(url) {
        Ok(u) => Some(u.path().to_owned()),
        Err(_) => None,
    }
}

} // verus!
