//! The text that a response is shown as: the header block of normal mode,
//! and the lines of trace mode.

use vstd::prelude::*;
use vstd::string::StringExecFns;
use crate::response::{header_text, visible_text, HttpVersion, ResponseHeader, ResponseHeaderView};

verus! {

/// The status line: the version, the words for the status, and a line end.
pub open spec fn status_line(version: HttpVersion, words: Seq<char>) -> Seq<char> {
    version.text() + " "@ + words + "\n"@
}

/// One line `name: value` for each header; `None` where a value is not
/// visible text.
pub open spec fn header_lines(headers: Seq<ResponseHeaderView>) -> Option<Seq<char>>
    decreases headers.len(),
{
    if headers.len() == 0 {
        Some(Seq::empty())
    } else {
        match header_lines(headers.drop_last()) {
            None => None,
            Some(lines) => match visible_text(headers.last().value) {
                None => None,
                Some(value) => Some(lines + headers.last().name + ": "@ + value + "\n"@),
            },
        }
    }
}

/// The header block: the status line, the header lines and an empty line;
/// `None` where a header's value is not visible text.
pub open spec fn header_block(
    version: HttpVersion,
    words: Seq<char>,
    headers: Seq<ResponseHeaderView>,
) -> Option<Seq<char>> {
    match header_lines(headers) {
        None => None,
        Some(lines) => Some(status_line(version, words) + lines + "\n"@),
    }
}

/// A response header's value as trace mode shows it: the value as text
/// where all of it is visible, and a stand-in where it is not.
pub open spec fn traced_bytes(value: Seq<u8>) -> Seq<char> {
    match visible_text(value) {
        Some(text) => text,
        None => "[non-ascii]"@,
    }
}

/// One line of trace for each response header.
pub open spec fn response_header_lines(headers: Seq<ResponseHeaderView>) -> Seq<char>
    decreases headers.len(),
{
    if headers.len() == 0 {
        Seq::empty()
    } else {
        response_header_lines(headers.drop_last()) + "< "@ + headers.last().name + ": "@
            + traced_bytes(headers.last().value) + "\n"@
    }
}

/// The trace of a response: the status line, the headers, and a line that
/// closes the block.
pub open spec fn response_trace(
    version: HttpVersion,
    words: Seq<char>,
    headers: Seq<ResponseHeaderView>,
) -> Seq<char> {
    "< "@ + version.text() + " "@ + words + "\n"@ + response_header_lines(headers) + "<\n"@
}

/// Once a front part of the headers has no header lines, the whole has none.
pub proof fn lemma_header_lines_none(headers: Seq<ResponseHeaderView>, n: int)
    requires
        0 <= n <= headers.len(),
        header_lines(headers.take(n)) is None,
    ensures
        header_lines(headers) is None,
    decreases headers.len() - n,
{
    if n == headers.len() {
        assert(headers.take(n) =~= headers);
    } else {
        assert(headers.take(n + 1).drop_last() =~= headers.take(n));
        lemma_header_lines_none(headers, n + 1);
    }
}

/// Writes the header block of a response.
pub fn render_header_block(version: HttpVersion, words: &str, headers: &Vec<ResponseHeader>) -> (r:
    Option<String>)
    ensures
        r is Some == header_block(version, words@, headers.deep_view()) is Some,
        r matches Some(t) ==> header_block(version, words@, headers.deep_view()) == Some(t@),
{
    let mut out = String::new();
    out.append(version.as_str());
    out.append(" ");
    out.append(words);
    out.append("\n");
    assert(out@ =~= status_line(version, words@));
    let ghost all = headers.deep_view();
    let mut i: usize = 0;
    while i < headers.len()
        invariant
            i <= headers.len(),
            all == headers.deep_view(),
            header_lines(all.take(i as int)) is Some,
            out@ == status_line(version, words@) + header_lines(all.take(i as int))->Some_0,
        decreases headers.len() - i,
    {
        proof {
            assert(all.take(i + 1).drop_last() =~= all.take(i as int));
            assert(all.take(i + 1).last() == headers@[i as int]@);
        }
        match header_text(&headers[i].value) {
            None => {
                proof {
                    lemma_header_lines_none(all, i + 1);
                }
                return None;
            },
            Some(value) => {
                out.append(headers[i].name.as_str());
                out.append(": ");
                out.append(value.as_str());
                out.append("\n");
            },
        }
        i = i + 1;
        assert(out@ =~= status_line(version, words@) + header_lines(all.take(i as int))->Some_0);
    }
    assert(all.take(headers.len() as int) =~= all);
    out.append("\n");
    Some(out)
}

/// Writes the trace of a response.
pub fn render_response_trace(version: HttpVersion, words: &str, headers: &Vec<ResponseHeader>) -> (r:
    String)
    ensures
        r@ == response_trace(version, words@, headers.deep_view()),
{
    let mut out = String::new();
    out.append("< ");
    out.append(version.as_str());
    out.append(" ");
    out.append(words);
    out.append("\n");
    let ghost head = out@;
    let ghost all = headers.deep_view();
    let mut i: usize = 0;
    while i < headers.len()
        invariant
            i <= headers.len(),
            all == headers.deep_view(),
            out@ == head + response_header_lines(all.take(i as int)),
        decreases headers.len() - i,
    {
        proof {
            assert(all.take(i + 1).drop_last() =~= all.take(i as int));
            assert(all.take(i + 1).last() == headers@[i as int]@);
        }
        let shown = match header_text(&headers[i].value) {
            Some(text) => text,
            None => "[non-ascii]".to_owned(),
        };
        out.append("< ");
        out.append(headers[i].name.as_str());
        out.append(": ");
        out.append(shown.as_str());
        out.append("\n");
        i = i + 1;
        assert(out@ =~= head + response_header_lines(all.take(i as int)));
    }
    assert(all.take(headers.len() as int) =~= all);
    out.append("<\n");
    assert(out@ =~= response_trace(version, words@, headers.deep_view()));
    out
}

} // verus!
