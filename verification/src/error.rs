//! Failures of a run: what the transport reported, how it is classified, and
//! the text that explains it to the user.

use vstd::prelude::*;
use vstd::string::StringExecFns;
use crate::text::{chars_of, contains, occurs_in, opt_view};

verus! {

/// What ends a run early.
#[derive(Clone, Debug, PartialEq, Eq)]
pub enum ClientError {
    /// A header string holds no colon; it is carried along.
    HeaderFormat(String),
    /// A header's name is no header name; the parser's words are carried
    /// along.
    InvalidHeaderName(String),
    /// A header's or the cookie's value is no header value; the parser's
    /// words are carried along.
    InvalidHeaderValue(String),
    /// A resolution triple is not of the form `host:port:ip`; it is carried
    /// along.
    ResolveFormat(String),
    /// The port of a resolution triple is no port; the parser's words are
    /// carried along.
    ResolvePort(String),
    /// The address of a resolution triple is no address; the words of
    /// whoever examined it are carried along.
    ResolveAddress(String),
    /// Both a form body and a raw body were given.
    ConflictingBody,
    /// The method is no method; the parser's words are carried along.
    InvalidMethod(String),
    /// The transport failed.
    Transport(Diagnostic),
    /// A redirect asked for one hop more than the limit allows.
    RedirectLoopExceeded,
}

/// The mathematical value of a `ClientError`.
pub enum ClientErrorView {
    HeaderFormat(Seq<char>),
    InvalidHeaderName(Seq<char>),
    InvalidHeaderValue(Seq<char>),
    ResolveFormat(Seq<char>),
    ResolvePort(Seq<char>),
    ResolveAddress(Seq<char>),
    ConflictingBody,
    InvalidMethod(Seq<char>),
    Transport(DiagnosticView),
    RedirectLoopExceeded,
}

impl View for ClientError {
    type V = ClientErrorView;

    open spec fn view(&self) -> ClientErrorView {
        match self {
            ClientError::HeaderFormat(raw) => ClientErrorView::HeaderFormat(raw@),
            ClientError::InvalidHeaderName(words) => ClientErrorView::InvalidHeaderName(words@),
            ClientError::InvalidHeaderValue(words) => ClientErrorView::InvalidHeaderValue(words@),
            ClientError::ResolveFormat(raw) => ClientErrorView::ResolveFormat(raw@),
            ClientError::ResolvePort(words) => ClientErrorView::ResolvePort(words@),
            ClientError::ResolveAddress(words) => ClientErrorView::ResolveAddress(words@),
            ClientError::ConflictingBody => ClientErrorView::ConflictingBody,
            ClientError::InvalidMethod(words) => ClientErrorView::InvalidMethod(words@),
            ClientError::Transport(d) => ClientErrorView::Transport(d@),
            ClientError::RedirectLoopExceeded => ClientErrorView::RedirectLoopExceeded,
        }
    }
}

/// The kinds of transport failure that get an explanation of their own.
#[derive(Clone, Copy, Debug, PartialEq, Eq, Structural)]
pub enum DiagnosticKind {
    Timeout,
    ConnectFailure,
    RedirectLoop,
    RequestBuildFailure,
    Other,
}

/// What the transport tells of a failed exchange, as plain values.
#[derive(Clone, Debug, PartialEq, Eq)]
pub struct TransportFailure {
    /// The exchange ran out of time.
    pub timeout: bool,
    /// The connection could not be made.
    pub connect: bool,
    /// The transport gave up on a redirect chain.
    pub redirect: bool,
    /// The request could not be built.
    pub builder: bool,
    /// The URL the failure is about, where the transport knows it.
    pub url: Option<String>,
    /// The transport's own words for the failure.
    pub detail: String,
}

/// A classified transport failure.
#[derive(Clone, Debug, PartialEq, Eq)]
pub struct Diagnostic {
    pub kind: DiagnosticKind,
    /// The offending URL, where it is known.
    pub url: Option<String>,
    /// Free text that says more of the failure.
    pub detail: String,
}

/// The mathematical value of a `Diagnostic`.
pub struct DiagnosticView {
    pub kind: DiagnosticKind,
    pub url: Option<Seq<char>>,
    pub detail: Seq<char>,
}

impl View for Diagnostic {
    type V = DiagnosticView;

    open spec fn view(&self) -> DiagnosticView {
        DiagnosticView { kind: self.kind, url: opt_view(self.url), detail: self.detail@ }
    }
}

/// The kind of a failure: the first that applies of timeout, connection,
/// redirect and request building, and `Other` where none does.
pub open spec fn kind_of(timeout: bool, connect: bool, redirect: bool, builder: bool)
    -> DiagnosticKind {
    if timeout {
        DiagnosticKind::Timeout
    } else if connect {
        DiagnosticKind::ConnectFailure
    } else if redirect {
        DiagnosticKind::RedirectLoop
    } else if builder {
        DiagnosticKind::RequestBuildFailure
    } else {
        DiagnosticKind::Other
    }
}

impl View for TransportFailure {
    type V = DiagnosticView;

    /// A failure's value is that of the diagnostic it is classified as.
    open spec fn view(&self) -> DiagnosticView {
        DiagnosticView {
            kind: kind_of(self.timeout, self.connect, self.redirect, self.builder),
            url: opt_view(self.url),
            detail: self.detail@,
        }
    }
}

/// Classifies a transport failure, keeping its URL and detail.
pub fn classify(failure: &TransportFailure) -> (d: Diagnostic)
    ensures
        d@ == failure@,
        d@.kind == kind_of(failure.timeout, failure.connect, failure.redirect, failure.builder),
{
    let kind = if failure.timeout {
        DiagnosticKind::Timeout
    } else if failure.connect {
        DiagnosticKind::ConnectFailure
    } else if failure.redirect {
        DiagnosticKind::RedirectLoop
    } else if failure.builder {
        DiagnosticKind::RequestBuildFailure
    } else {
        DiagnosticKind::Other
    };
    let url = match &failure.url {
        Some(u) => Some(u.clone()),
        None => None,
    };
    Diagnostic { kind, url, detail: failure.detail.clone() }
}

/// How an explanation names the URL: the URL itself, or a stand-in where it
/// is not known.
pub open spec fn url_words(url: Option<Seq<char>>) -> Seq<char> {
    match url {
        Some(u) => u,
        None => "the requested URL"@,
    }
}

/// The summary of a failure: one line that says what failed and names the
/// URL.
pub open spec fn summary_of(kind: DiagnosticKind, url: Seq<char>) -> Seq<char> {
    match kind {
        DiagnosticKind::Timeout => "Connection to "@ + url + " timed out."@,
        DiagnosticKind::ConnectFailure => "Failed to connect to "@ + url + "."@,
        DiagnosticKind::RedirectLoop => "Too many redirects for "@ + url + "."@,
        DiagnosticKind::RequestBuildFailure =>
            "Internal error: Failed to build the HTTP request for "@ + url + "."@,
        DiagnosticKind::Other => "An error occurred while processing the request to "@ + url
            + "."@,
    }
}

/// The hints that belong to a failure, two or three for each kind. A
/// timeout on GitHub and a connection that failed over a certificate get a
/// hint more; a request that could not be built and any other failure give
/// the transport's own words as their last hint.
pub open spec fn hints_of(kind: DiagnosticKind, url: Seq<char>, detail: Seq<char>) -> Seq<
    Seq<char>,
> {
    match kind {
        DiagnosticKind::Timeout => {
            let always = seq![
                "Check your network connection and proxy settings."@,
                "The server might be slow or overloaded. Try increasing the timeout with --connect-timeout."@,
            ];
            if occurs_in("github.com"@, url) {
                always.push(
                    "Accessing GitHub from some regions can be slow. Consider using a VPN or a proxy."@,
                )
            } else {
                always
            }
        },
        DiagnosticKind::ConnectFailure => {
            let always = seq![
                "Ensure the domain name is correct and the server is running."@,
                "A firewall, proxy, or network restrictions might be blocking the connection."@,
            ];
            if occurs_in("certificate"@, detail) {
                always.push(
                    "The server's SSL certificate appears to be invalid. You can use the -k/--insecure flag to bypass this check (at your own risk)."@,
                )
            } else {
                always
            }
        },
        DiagnosticKind::RedirectLoop => seq![
            "The server may have a misconfigured redirect loop."@,
            "Use `-v -v -v` to trace the redirect path."@,
        ],
        DiagnosticKind::RequestBuildFailure => seq![
            "Check that the URL is complete and well formed."@,
            "Details: "@ + detail,
        ],
        DiagnosticKind::Other => seq![
            "Use -v to trace the request and the response."@,
            "Details: "@ + detail,
        ],
    }
}

/// One line for each hint: a dash, the hint, and a line end.
pub open spec fn hint_lines(hints: Seq<Seq<char>>) -> Seq<char>
    decreases hints.len(),
{
    if hints.len() == 0 {
        Seq::empty()
    } else {
        hint_lines(hints.drop_last()) + "- "@ + hints.last() + "\n"@
    }
}

/// The explanation of a diagnostic: the summary line, an empty line, the
/// heading `Suggestions:`, and the hints, one to a line.
pub open spec fn explanation(d: DiagnosticView) -> Seq<char> {
    let url = url_words(d.url);
    summary_of(d.kind, url) + "\n"@ + "\nSuggestions:\n"@ + hint_lines(
        hints_of(d.kind, url, d.detail),
    )
}

/// Every failure has two or three hints.
pub proof fn lemma_two_or_three_hints(kind: DiagnosticKind, url: Seq<char>, detail: Seq<char>)
    ensures
        2 <= hints_of(kind, url, detail).len() <= 3,
{
}

/// The summary of a failure.
pub fn summary(kind: DiagnosticKind, url: &str) -> (line: String)
    ensures
        line@ == summary_of(kind, url@),
{
    let mut line = String::new();
    match kind {
        DiagnosticKind::Timeout => {
            line.append("Connection to ");
            line.append(url);
            line.append(" timed out.");
        },
        DiagnosticKind::ConnectFailure => {
            line.append("Failed to connect to ");
            line.append(url);
            line.append(".");
        },
        DiagnosticKind::RedirectLoop => {
            line.append("Too many redirects for ");
            line.append(url);
            line.append(".");
        },
        DiagnosticKind::RequestBuildFailure => {
            line.append("Internal error: Failed to build the HTTP request for ");
            line.append(url);
            line.append(".");
        },
        DiagnosticKind::Other => {
            line.append("An error occurred while processing the request to ");
            line.append(url);
            line.append(".");
        },
    }
    assert(line@ =~= summary_of(kind, url@));
    line
}

/// The hints that belong to a failure.
pub fn hints(kind: DiagnosticKind, url: &str, detail: &str) -> (list: Vec<String>)
    ensures
        list.deep_view() == hints_of(kind, url@, detail@),
{
    let mut list: Vec<String> = Vec::new();
    match kind {
        DiagnosticKind::Timeout => {
            list.push("Check your network connection and proxy settings.".to_owned());
            list.push(
                "The server might be slow or overloaded. Try increasing the timeout with --connect-timeout.".to_owned(),
            );
            if contains(&chars_of(url), &chars_of("github.com")) {
                list.push(
                    "Accessing GitHub from some regions can be slow. Consider using a VPN or a proxy.".to_owned(),
                );
            }
        },
        DiagnosticKind::ConnectFailure => {
            list.push("Ensure the domain name is correct and the server is running.".to_owned());
            list.push(
                "A firewall, proxy, or network restrictions might be blocking the connection.".to_owned(),
            );
            if contains(&chars_of(detail), &chars_of("certificate")) {
                list.push(
                    "The server's SSL certificate appears to be invalid. You can use the -k/--insecure flag to bypass this check (at your own risk).".to_owned(),
                );
            }
        },
        DiagnosticKind::RedirectLoop => {
            list.push("The server may have a misconfigured redirect loop.".to_owned());
            list.push("Use `-v -v -v` to trace the redirect path.".to_owned());
        },
        DiagnosticKind::RequestBuildFailure => {
            list.push("Check that the URL is complete and well formed.".to_owned());
            list.push("Details: ".to_owned().concat(detail));
        },
        DiagnosticKind::Other => {
            list.push("Use -v to trace the request and the response.".to_owned());
            list.push("Details: ".to_owned().concat(detail));
        },
    }
    assert(list.deep_view() =~= hints_of(kind, url@, detail@));
    list
}

/// Writes the explanation of a classified transport failure.
pub fn format_reqwest_error(d: &Diagnostic) -> (msg: String)
    ensures
        msg@ == explanation(d@),
{
    let url_str: String = match &d.url {
        Some(u) => u.clone(),
        None => String::from_str("the requested URL"),
    };
    let mut msg = summary(d.kind, url_str.as_str());
    msg.append("\n");
    msg.append("\nSuggestions:\n");
    let ghost head = msg@;
    let list = hints(d.kind, url_str.as_str(), d.detail.as_str());
    let ghost all = list.deep_view();
    let mut i: usize = 0;
    while i < list.len()
        invariant
            i <= list.len(),
            all == list.deep_view(),
            msg@ == head + hint_lines(all.take(i as int)),
        decreases list.len() - i,
    {
        proof {
            assert(all.take(i + 1).drop_last() =~= all.take(i as int));
            assert(all.take(i + 1).last() == list@[i as int]@);
        }
        msg.append("- ");
        msg.append(list[i].as_str());
        msg.append("\n");
        i = i + 1;
        assert(msg@ =~= head + hint_lines(all.take(i as int)));
    }
    assert(all.take(list.len() as int) =~= all);
    msg
}

/// The classes of failure.
#[derive(Clone, Copy, Debug, PartialEq, Eq, Structural)]
pub enum ErrorCategory {
    /// The configuration is at fault; nothing was sent.
    Configuration,
    /// The exchange with the server failed.
    Transport,
    /// A redirect chain went over the limit.
    RedirectLoopExceeded,
}

/// The class of a failure.
pub open spec fn category_of(e: ClientErrorView) -> ErrorCategory {
    match e {
        ClientErrorView::Transport(_) => ErrorCategory::Transport,
        ClientErrorView::RedirectLoopExceeded => ErrorCategory::RedirectLoopExceeded,
        _ => ErrorCategory::Configuration,
    }
}

/// The words for a failure. A transport failure is explained; a failure
/// that carries words is told in them; every other failure has a message
/// of its own.
pub open spec fn message_of(e: ClientErrorView) -> Seq<char> {
    match e {
        ClientErrorView::HeaderFormat(raw) => "Invalid header format: "@ + raw,
        ClientErrorView::InvalidHeaderName(words) => words,
        ClientErrorView::InvalidHeaderValue(words) => words,
        ClientErrorView::ResolveFormat(raw) => "Invalid resolve format: "@ + raw
            + ". Expected <host>:<port>:<ip>"@,
        ClientErrorView::ResolvePort(words) => words,
        ClientErrorView::ResolveAddress(words) => words,
        ClientErrorView::ConflictingBody => "Cannot use both --data and --data-raw at the same time"@,
        ClientErrorView::InvalidMethod(words) => words,
        ClientErrorView::Transport(d) => explanation(d),
        ClientErrorView::RedirectLoopExceeded => "Too many redirects"@,
    }
}

/// The one line that a failed run writes to the error stream.
pub open spec fn report_of(e: ClientErrorView) -> Seq<char> {
    "kurl: error: "@ + message_of(e)
}

impl ClientError {
    /// The class of the failure.
    pub fn category(&self) -> (c: ErrorCategory)
        ensures
            c == category_of(self@),
    {
        match self {
            ClientError::Transport(_) => ErrorCategory::Transport,
            ClientError::RedirectLoopExceeded => ErrorCategory::RedirectLoopExceeded,
            _ => ErrorCategory::Configuration,
        }
    }

    /// The words for the failure.
    pub fn message(&self) -> (msg: String)
        ensures
            msg@ == message_of(self@),
    {
        match self {
            ClientError::HeaderFormat(raw) => "Invalid header format: ".to_owned().concat(
                raw.as_str(),
            ),
            ClientError::InvalidHeaderName(words) => words.clone(),
            ClientError::InvalidHeaderValue(words) => words.clone(),
            ClientError::ResolveFormat(raw) => "Invalid resolve format: ".to_owned().concat(
                raw.as_str(),
            ).concat(". Expected <host>:<port>:<ip>"),
            ClientError::ResolvePort(words) => words.clone(),
            ClientError::ResolveAddress(words) => words.clone(),
            ClientError::ConflictingBody => "Cannot use both --data and --data-raw at the same time".to_owned(),
            ClientError::InvalidMethod(words) => words.clone(),
            ClientError::Transport(d) => format_reqwest_error(d),
            ClientError::RedirectLoopExceeded => "Too many redirects".to_owned(),
        }
    }

    /// The one line that a failed run writes to the error stream.
    pub fn report_line(&self) -> (line: String)
        ensures
            line@ == report_of(self@),
    {
        "kurl: error: ".to_owned().concat(self.message().as_str())
    }
}

/// The failure of a response that holds a header whose value is no visible
/// text: a transport failure of the kind `Other`, about the response's URL.
pub open spec fn unreadable_header(url: Seq<char>) -> ClientErrorView {
    ClientErrorView::Transport(
        DiagnosticView {
            kind: DiagnosticKind::Other,
            url: Some(url),
            detail: "a response header holds a value that is no visible text"@,
        },
    )
}

/// The failure of a response whose status is no status code: a transport
/// failure of the kind `Other`, about the response's URL.
pub open spec fn invalid_status(url: Seq<char>) -> ClientErrorView {
    ClientErrorView::Transport(
        DiagnosticView {
            kind: DiagnosticKind::Other,
            url: Some(url),
            detail: "the status of the response is no status code"@,
        },
    )
}

/// The failure of a response that holds a header whose value is no visible
/// text.
pub fn unreadable_header_error(url: &str) -> (e: ClientError)
    ensures
        e@ == unreadable_header(url@),
{
    ClientError::Transport(
        Diagnostic {
            kind: DiagnosticKind::Other,
            url: Some(url.to_owned()),
            detail: "a response header holds a value that is no visible text".to_owned(),
        },
    )
}

/// The failure of a response whose status is no status code.
pub fn invalid_status_error(url: &str) -> (e: ClientError)
    ensures
        e@ == invalid_status(url@),
{
    ClientError::Transport(
        Diagnostic {
            kind: DiagnosticKind::Other,
            url: Some(url.to_owned()),
            detail: "the status of the response is no status code".to_owned(),
        },
    )
}

} // verus!
