//! The request of one hop: its method, headers and body, and the lines that
//! trace mode writes before it is sent.

use vstd::prelude::*;
use vstd::string::StringExecFns;
use crate::headers::{last_named, Header, HeaderView};
use crate::session::{Session, SessionView};
use crate::text::{chars_of, copy_text, opt_view, str_eq};
use crate::url::{host_of, path_of, url_host, url_path};

verus! {

/// Where a run stands between two hops.
#[derive(Clone, Debug, PartialEq, Eq)]
pub struct HopState {
    /// The URL of the hop to come.
    pub url: String,
    /// The number of redirects followed so far.
    pub hops: u8,
    /// The method of the hop to come.
    pub method: String,
}

/// The mathematical value of a `HopState`.
pub struct HopView {
    pub url: Seq<char>,
    pub hops: u8,
    pub method: Seq<char>,
}

impl View for HopState {
    type V = HopView;

    open spec fn view(&self) -> HopView {
        HopView { url: self.url@, hops: self.hops, method: self.method@ }
    }
}

/// The request of one hop.
#[derive(Clone, Debug, PartialEq, Eq)]
pub struct RequestPlan {
    pub method: String,
    pub url: String,
    /// The headers to send, in order.
    pub headers: Vec<Header>,
    /// The body to send, if any.
    pub body: Option<String>,
    /// Whether the body of the response is to be read.
    pub read_body: bool,
    /// What goes to the diagnostic stream before the request is sent.
    pub trace: String,
}

/// The mathematical value of a `RequestPlan`.
pub struct RequestView {
    pub method: Seq<char>,
    pub url: Seq<char>,
    pub headers: Seq<HeaderView>,
    pub body: Option<Seq<char>>,
    pub read_body: bool,
    pub trace: Seq<char>,
}

impl View for RequestPlan {
    type V = RequestView;

    open spec fn view(&self) -> RequestView {
        RequestView {
            method: self.method@,
            url: self.url@,
            headers: self.headers.deep_view(),
            body: opt_view(self.body),
            read_body: self.read_body,
            trace: self.trace@,
        }
    }
}

impl DeepView for RequestPlan {
    type V = RequestView;

    open spec fn deep_view(&self) -> RequestView {
        self@
    }
}

/// The state before the first hop: the session's URL and method, and no
/// redirect followed.
pub open spec fn first_hop(s: SessionView) -> HopView {
    HopView { url: s.url, hops: 0, method: s.method }
}

/// The body that a hop with the method `method` sends: the session's body
/// with `POST`, none with any other method.
pub open spec fn request_body(s: SessionView, method: Seq<char>) -> Option<Seq<char>> {
    if method == "POST"@ {
        s.body
    } else {
        None
    }
}

/// The content type that a form-encoded body gets where the user named none.
pub open spec fn form_content_type() -> HeaderView {
    HeaderView { name: "content-type"@, value: "application/x-www-form-urlencoded"@ }
}

/// Whether a hop with the method `method` adds the form content type: it
/// sends a form-encoded body, and the session has no header `Content-Type`.
pub open spec fn adds_content_type(s: SessionView, method: Seq<char>) -> bool {
    method == "POST"@ && s.body is Some && s.form && last_named(s.headers, "content-type"@)
        is None
}

/// The headers that a hop with the method `method` sends: the session's, and
/// behind them the form content type where it is added.
pub open spec fn request_headers(s: SessionView, method: Seq<char>) -> Seq<HeaderView> {
    if adds_content_type(s, method) {
        s.headers.push(form_content_type())
    } else {
        s.headers
    }
}

/// Whether `c` is a visible ASCII character or a tab.
pub open spec fn is_visible_char(c: char) -> bool {
    (' ' <= c && c < '\x7f') || c == '\t'
}

/// A header value as trace mode shows it: the value itself where all of it
/// is visible, and a stand-in where it is not.
pub open spec fn traced_value(value: Seq<char>) -> Seq<char> {
    if forall|i: int| 0 <= i < value.len() ==> is_visible_char(#[trigger] value[i]) {
        value
    } else {
        "[non-ascii]"@
    }
}

/// One line of trace for each request header.
pub open spec fn request_header_lines(headers: Seq<HeaderView>) -> Seq<char>
    decreases headers.len(),
{
    if headers.len() == 0 {
        Seq::empty()
    } else {
        request_header_lines(headers.drop_last()) + "> "@ + headers.last().name + ": "@
            + traced_value(headers.last().value) + "\n"@
    }
}

/// The trace of a request: the request line, the host, the headers, and a
/// line that closes the block.
pub open spec fn request_trace(
    method: Seq<char>,
    host: Seq<char>,
    path: Seq<char>,
    headers: Seq<HeaderView>,
) -> Seq<char> {
    "> "@ + method + " "@ + path + " HTTP/1.1\n"@ + "> Host: "@ + host + "\n"@
        + request_header_lines(headers) + ">\n"@
}

/// What a hop writes to the diagnostic stream before it sends: in trace
/// mode the trace of its request, where the URL has a host and a path; else
/// nothing.
pub open spec fn plan_trace(trace: bool, host: Option<Seq<char>>, path: Option<Seq<char>>,
    method: Seq<char>, headers: Seq<HeaderView>) -> Seq<char> {
    if trace && host is Some && path is Some {
        request_trace(method, host->Some_0, path->Some_0, headers)
    } else {
        Seq::empty()
    }
}

/// The request of the hop that the state `st` stands before.
pub open spec fn request_for(s: SessionView, st: HopView) -> RequestView {
    let headers = request_headers(s, st.method);
    RequestView {
        method: st.method,
        url: st.url,
        headers,
        body: request_body(s, st.method),
        read_body: !s.head_only,
        trace: plan_trace(s.trace, host_of(st.url), path_of(st.url), st.method, headers),
    }
}

/// A copy of a header.
pub fn copy_header(h: &Header) -> (r: Header)
    ensures
        r@ == h@,
{
    Header { name: h.name.clone(), value: h.value.clone() }
}

/// A header value as trace mode shows it.
pub fn trace_value(value: &str) -> (r: String)
    ensures
        r@ == traced_value(value@),
{
    let chars = chars_of(value);
    let mut i: usize = 0;
    while i < chars.len()
        invariant
            i <= chars.len(),
            chars@ == value@,
            forall|j: int| 0 <= j < i ==> is_visible_char(#[trigger] chars@[j]),
        decreases chars.len() - i,
    {
        let c = chars[i];
        if !((' ' <= c && c < '\x7f') || c == '\t') {
            return "[non-ascii]".to_owned();
        }
        i = i + 1;
    }
    value.to_owned()
}

/// Writes the trace of a request.
pub fn render_request_trace(method: &str, host: &str, path: &str, headers: &Vec<Header>) -> (r:
    String)
    ensures
        r@ == request_trace(method@, host@, path@, headers.deep_view()),
{
    let mut out = String::new();
    out.append("> ");
    out.append(method);
    out.append(" ");
    out.append(path);
    out.append(" HTTP/1.1\n");
    out.append("> Host: ");
    out.append(host);
    out.append("\n");
    let ghost head = out@;
    let ghost all = headers.deep_view();
    let mut i: usize = 0;
    while i < headers.len()
        invariant
            i <= headers.len(),
            all == headers.deep_view(),
            out@ == head + request_header_lines(all.take(i as int)),
        decreases headers.len() - i,
    {
        proof {
            assert(all.take(i + 1).drop_last() =~= all.take(i as int));
            assert(all.take(i + 1).last() == headers@[i as int]@);
        }
        let shown = trace_value(headers[i].value.as_str());
        out.append("> ");
        out.append(headers[i].name.as_str());
        out.append(": ");
        out.append(shown.as_str());
        out.append("\n");
        i = i + 1;
        assert(out@ =~= head + request_header_lines(all.take(i as int)));
    }
    assert(all.take(headers.len() as int) =~= all);
    out.append(">\n");
    assert(out@ =~= request_trace(method@, host@, path@, headers.deep_view()));
    out
}

/// The headers that a hop with the method `method` sends.
pub fn headers_for(session: &Session, method: &str) -> (r: Vec<Header>)
    ensures
        r.deep_view() == request_headers(session@, method@),
{
    let mut out: Vec<Header> = Vec::new();
    let mut i: usize = 0;
    let ghost all = session.headers@;
    while i < session.headers.entries.len()
        invariant
            i <= session.headers.entries.len(),
            all == session.headers@,
            out.deep_view() == all.take(i as int),
        decreases session.headers.entries.len() - i,
    {
        let h = copy_header(&session.headers.entries[i]);
        let ghost before = out.deep_view();
        out.push(h);
        i = i + 1;
        assert(all[i - 1] == session.headers.entries@[i - 1]@);
        assert(out.deep_view() =~= before.push(h@));
        assert(out.deep_view() =~= all.take(i as int));
    }
    assert(all.take(all.len() as int) =~= all);
    if str_eq(method, "POST") && session.body.is_some() && session.form
        && !session.headers.contains("content-type") {
        out.push(
            Header {
                name: "content-type".to_owned(),
                value: "application/x-www-form-urlencoded".to_owned(),
            },
        );
        assert(out.deep_view() =~= all.push(form_content_type()));
    }
    out
}

/// Plans the request of the hop that `state` stands before.
pub fn plan_request(session: &Session, state: &HopState) -> (plan: RequestPlan)
    ensures
        plan@ == request_for(session@, state@),
{
    let headers = headers_for(session, state.method.as_str());
    let body = if str_eq(state.method.as_str(), "POST") {
        copy_text(&session.body)
    } else {
        None
    };
    let trace = if session.trace {
        match url_host(state.url.as_str()) {
            Some(host) => match url_path(state.url.as_str()) {
                Some(path) => render_request_trace(
                    state.method.as_str(),
                    host.as_str(),
                    path.as_str(),
                    &headers,
                ),
                None => String::new(),
            },
            None => String::new(),
        }
    } else {
        String::new()
    };
    RequestPlan {
        method: state.method.clone(),
        url: state.url.clone(),
        headers,
        body,
        read_body: !session.head_only,
        trace,
    }
}

impl Session {
    /// The state before the first hop.
    pub fn first_hop(&self) -> (st: HopState)
        ensures
            st@ == first_hop(self@),
    {
        HopState { url: self.url.clone(), hops: 0, method: self.method.clone() }
    }
}

} // verus!
