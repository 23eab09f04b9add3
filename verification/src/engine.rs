//! The redirect engine: what one hop's response makes of a run. A hop's
//! response is shown, and the run goes on to the next hop, is done, or
//! fails.

use vstd::prelude::*;
use vstd::string::StrSliceExecFns;
use vstd::string::StringExecFns;
use vstd::utf8::encode_utf8;
use crate::error::{classify, invalid_status, invalid_status_error, unreadable_header,
    unreadable_header_error, ClientError, ClientErrorView, DiagnosticView, TransportFailure};
use crate::plan::{HopState, HopView};
use crate::render::{header_block, render_header_block, render_response_trace, response_trace};
use crate::response::{find_location, is_redirection, is_status, is_success, location_of,
    status_is_redirection, status_is_success, status_text, status_words, ResponseSnapshot,
    ResponseView};
use crate::session::{Session, SessionView};
use crate::text::{append_bytes, opt_view};
use crate::url::{join_location, joined};

verus! {

/// The greatest number of redirects that a run follows.
pub const MAX_REDIRECTS: u8 = 10;

/// The line that parts the output of two hops.
pub open spec fn separator() -> Seq<char> {
    "\n----------------------------------------\n"@
}

/// What the transport hands back for a request.
#[derive(Clone, Debug, PartialEq, Eq)]
pub enum Event {
    /// A response came.
    Response(ResponseSnapshot),
    /// A response came, but its body could not be read: the response
    /// without a body, and the failure of the reading.
    Truncated(ResponseSnapshot, TransportFailure),
    /// The exchange failed.
    Failure(TransportFailure),
}

/// The mathematical value of an `Event`.
pub enum EventView {
    Response(ResponseView),
    Truncated(ResponseView, DiagnosticView),
    Failure(DiagnosticView),
}

impl View for Event {
    type V = EventView;

    open spec fn view(&self) -> EventView {
        match self {
            Event::Response(r) => EventView::Response(r@),
            Event::Truncated(r, f) => EventView::Truncated(r@, f@),
            Event::Failure(f) => EventView::Failure(f@),
        }
    }
}

impl DeepView for Event {
    type V = EventView;

    open spec fn deep_view(&self) -> EventView {
        self@
    }
}

/// How a run goes on after a hop.
#[derive(Clone, Debug, PartialEq, Eq)]
pub enum Next {
    /// Another hop follows, from this state.
    Continue(HopState),
    /// The run is complete.
    Done,
    /// The run has failed.
    Failed(ClientError),
}

/// The mathematical value of a `Next`.
pub enum NextView {
    Continue(HopView),
    Done,
    Failed(ClientErrorView),
}

impl View for Next {
    type V = NextView;

    open spec fn view(&self) -> NextView {
        match self {
            Next::Continue(st) => NextView::Continue(st@),
            Next::Done => NextView::Done,
            Next::Failed(e) => NextView::Failed(e@),
        }
    }
}

/// What a hop puts out, and how the run goes on.
#[derive(Clone, Debug, PartialEq, Eq)]
pub struct Step {
    /// Text for the diagnostic stream.
    pub diagnostic: String,
    /// Bytes for the primary output stream.
    pub primary: Vec<u8>,
    /// The new contents of the output file, where the run has one.
    pub file: Option<Vec<u8>>,
    /// A warning to log: the status is neither a success nor a redirect.
    pub warning: Option<String>,
    pub next: Next,
}

/// The mathematical value of a `Step`.
pub struct StepView {
    pub diagnostic: Seq<char>,
    pub primary: Seq<u8>,
    pub file: Option<Seq<u8>>,
    pub warning: Option<Seq<char>>,
    pub next: NextView,
}

/// The view of optional bytes.
pub open spec fn opt_bytes(b: Option<Vec<u8>>) -> Option<Seq<u8>> {
    match b {
        Some(v) => Some(v@),
        None => None,
    }
}

impl View for Step {
    type V = StepView;

    open spec fn view(&self) -> StepView {
        StepView {
            diagnostic: self.diagnostic@,
            primary: self.primary@,
            file: opt_bytes(self.file),
            warning: opt_view(self.warning),
            next: self.next@,
        }
    }
}

/// The URL that a response redirects to: its status is a redirect, it has a
/// header `Location` with a visible value, and that value makes a URL
/// against the response's own.
pub open spec fn next_url(resp: ResponseView) -> Option<Seq<char>> {
    if is_redirection(resp.status) {
        match location_of(resp.headers) {
            Some(location) => joined(resp.url, location),
            None => None,
        }
    } else {
        None
    }
}

/// The body that a hop puts out: none in a head-only run.
pub open spec fn shown_body(s: SessionView, resp: ResponseView) -> Seq<u8> {
    if s.head_only {
        Seq::empty()
    } else {
        resp.body
    }
}

/// The warning of a hop: the body was read, and the status is neither a
/// success nor a redirect.
pub open spec fn status_warning(s: SessionView, resp: ResponseView, words: Seq<char>) -> Option<
    Seq<char>,
> {
    if !s.head_only && !is_success(resp.status) && !is_redirection(resp.status) {
        Some("Request failed with status: "@ + words)
    } else {
        None
    }
}

/// How the run goes on after a hop whose response redirects to `candidate`.
pub open spec fn next_of(s: SessionView, st: HopView, candidate: Option<Seq<char>>) -> NextView {
    if !s.follow_redirects || candidate is None {
        NextView::Done
    } else if st.hops >= MAX_REDIRECTS {
        NextView::Failed(ClientErrorView::RedirectLoopExceeded)
    } else {
        NextView::Continue(
            HopView { url: candidate->Some_0, hops: (st.hops + 1) as u8, method: "GET"@ },
        )
    }
}

/// The step that puts nothing out and fails the run with `error`.
pub open spec fn failure(error: ClientErrorView) -> StepView {
    StepView {
        diagnostic: Seq::empty(),
        primary: Seq::empty(),
        file: None,
        warning: None,
        next: NextView::Failed(error),
    }
}

/// What a hop makes of its response. `words` are the words for the status,
/// `candidate` is the URL that the response redirects to.
///
/// In normal mode the header block goes to the primary stream; a header
/// whose value is not visible text fails the run as a transport failure,
/// with nothing put out. In
/// trace mode the trace of the response goes to the diagnostic stream. The
/// body goes to the file where the run has one, else to the primary stream
/// behind the header block. Where another hop follows, a separator ends the
/// primary output.
pub open spec fn outcome(
    s: SessionView,
    st: HopView,
    resp: ResponseView,
    words: Seq<char>,
    candidate: Option<Seq<char>>,
) -> StepView {
    let block = if s.trace {
        Some(Seq::<char>::empty())
    } else {
        header_block(resp.version, words, resp.headers)
    };
    match block {
        None => failure(unreadable_header(resp.url)),
        Some(b) => {
            let body = shown_body(s, resp);
            let next = next_of(s, st, candidate);
            StepView {
                diagnostic: if s.trace {
                    response_trace(resp.version, words, resp.headers)
                } else {
                    Seq::empty()
                },
                primary: encode_utf8(b) + if s.to_file {
                    Seq::<u8>::empty()
                } else {
                    body
                } + if next is Continue {
                    encode_utf8(separator())
                } else {
                    Seq::<u8>::empty()
                },
                file: if s.to_file {
                    Some(body)
                } else {
                    None
                },
                warning: status_warning(s, resp, words),
                next,
            }
        },
    }
}

/// What a hop makes of a response whose body could not be read. `words`
/// are the words for the status, `d` is the failure of the reading.
///
/// The run fails with `d`, and nothing goes to the primary stream or to the
/// file. What was received is still looked at: in normal mode a header
/// whose value is not visible text fails the run first; in trace mode the
/// trace of the response goes to the diagnostic stream.
pub open spec fn cut_short(s: SessionView, resp: ResponseView, words: Seq<char>, d: DiagnosticView)
    -> StepView {
    if !s.trace && header_block(resp.version, words, resp.headers) is None {
        failure(unreadable_header(resp.url))
    } else {
        StepView {
            diagnostic: if s.trace {
                response_trace(resp.version, words, resp.headers)
            } else {
                Seq::empty()
            },
            primary: Seq::empty(),
            file: None,
            warning: None,
            next: NextView::Failed(ClientErrorView::Transport(d)),
        }
    }
}

/// What a hop makes of the event that its request ended in: a response
/// with a status code is shown, or shown as far as it came; one without a
/// status code fails the run, and so does a failure of the transport.
pub open spec fn step_of(s: SessionView, st: HopView, event: EventView) -> StepView {
    match event {
        EventView::Response(resp) => if is_status(resp.status) {
            outcome(s, st, resp, status_text(resp.status), next_url(resp))
        } else {
            failure(invalid_status(resp.url))
        },
        EventView::Truncated(resp, d) => if is_status(resp.status) {
            cut_short(s, resp, status_text(resp.status), d)
        } else {
            failure(invalid_status(resp.url))
        },
        EventView::Failure(d) => failure(ClientErrorView::Transport(d)),
    }
}

/// A step that puts nothing out and fails the run.
pub fn failed_step(error: ClientError) -> (step: Step)
    ensures
        step@ == failure(error@),
{
    Step {
        diagnostic: String::new(),
        primary: Vec::new(),
        file: None,
        warning: None,
        next: Next::Failed(error),
    }
}

/// Shows a response and decides how the run goes on, given the words for
/// the status and the URL that the response redirects to.
pub fn decide(
    session: &Session,
    state: &HopState,
    response: &ResponseSnapshot,
    words: &str,
    candidate: Option<String>,
) -> (step: Step)
    ensures
        step@ == outcome(session@, state@, response@, words@, opt_view(candidate)),
{
    let mut primary: Vec<u8> = Vec::new();
    if !session.trace {
        match render_header_block(response.version, words, &response.headers) {
            None => {
                return failed_step(unreadable_header_error(response.url.as_str()));
            },
            Some(block) => {
                primary = block.as_str().as_bytes_vec();
            },
        }
    } else {
        assert(encode_utf8(Seq::<char>::empty()) =~= Seq::<u8>::empty()) by {
            reveal_with_fuel(encode_utf8, 1);
        }
    }
    let diagnostic = if session.trace {
        render_response_trace(response.version, words, &response.headers)
    } else {
        String::new()
    };
    let mut body: Vec<u8> = Vec::new();
    if !session.head_only {
        append_bytes(&mut body, &response.body);
    }
    assert(body@ =~= shown_body(session@, response@));
    let warning = if !session.head_only && !status_is_success(response.status)
        && !status_is_redirection(response.status) {
        Some("Request failed with status: ".to_owned().concat(words))
    } else {
        None
    };
    let file = if session.to_file {
        Some(body)
    } else {
        append_bytes(&mut primary, &body);
        None
    };
    let next = match candidate {
        Some(url) => {
            if !session.follow_redirects {
                Next::Done
            } else if state.hops >= MAX_REDIRECTS {
                Next::Failed(ClientError::RedirectLoopExceeded)
            } else {
                let sep = "\n----------------------------------------\n".as_bytes_vec();
                append_bytes(&mut primary, &sep);
                Next::Continue(HopState { url, hops: state.hops + 1, method: "GET".to_owned() })
            }
        },
        None => Next::Done,
    };
    let step = Step { diagnostic, primary, file, warning, next };
    assert(step@.primary =~= outcome(
        session@,
        state@,
        response@,
        words@,
        opt_view(candidate),
    ).primary);
    step
}

/// Shows what came of a response whose body could not be read, and fails
/// the run with the failure of the reading.
pub fn interrupt(session: &Session, response: &ResponseSnapshot, words: &str, cause: &TransportFailure)
    -> (step: Step)
    ensures
        step@ == cut_short(session@, response@, words@, cause@),
{
    if session.trace {
        Step {
            diagnostic: render_response_trace(response.version, words, &response.headers),
            primary: Vec::new(),
            file: None,
            warning: None,
            next: Next::Failed(ClientError::Transport(classify(cause))),
        }
    } else {
        match render_header_block(response.version, words, &response.headers) {
            None => failed_step(unreadable_header_error(response.url.as_str())),
            Some(_) => failed_step(ClientError::Transport(classify(cause))),
        }
    }
}

/// The URL that a response redirects to.
pub fn redirect_target(response: &ResponseSnapshot) -> (r: Option<String>)
    ensures
        opt_view(r) == next_url(response@),
{
    if status_is_redirection(response.status) {
        match find_location(&response.headers) {
            Some(location) => join_location(response.url.as_str(), location.as_str()),
            None => None,
        }
    } else {
        None
    }
}

/// Takes the event that a hop's request ended in: shows the response and
/// decides how the run goes on, or fails the run with the transport's
/// failure, classified, after showing what came of the response.
pub fn advance(session: &Session, state: &HopState, event: &Event) -> (step: Step)
    ensures
        step@ == step_of(session@, state@, event@),
{
    match event {
        Event::Failure(cause) => failed_step(ClientError::Transport(classify(cause))),
        Event::Response(response) => {
            match status_words(response.status) {
                Some(words) => {
                    let candidate = redirect_target(response);
                    decide(session, state, response, words.as_str(), candidate)
                },
                None => failed_step(invalid_status_error(response.url.as_str())),
            }
        },
        Event::Truncated(response, cause) => {
            match status_words(response.status) {
                Some(words) => interrupt(session, response, words.as_str(), cause),
                None => failed_step(invalid_status_error(response.url.as_str())),
            }
        },
    }
}

} // verus!
