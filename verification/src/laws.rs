//! What holds of every run, proved from the definitions of the engine.

use vstd::prelude::*;
use vstd::utf8::encode_utf8;
use crate::engine::{next_of, next_url, outcome, separator, shown_body, step_of, EventView, NextView,
    MAX_REDIRECTS};
use crate::error::{category_of, ClientErrorView, ErrorCategory};
use crate::headers::{built_headers, canonical_name, headers_valid, is_canonical_name,
    is_header_value, lemma_parsed_headers_error, lemma_parsed_headers_error_from, parsed_header,
    parsed_headers, HeaderView};
use crate::plan::{first_hop, request_for, HopView};
use crate::render::{header_block, header_lines, response_trace};
use crate::resolve::parsed_resolves;
use crate::response::{is_redirection, is_status, is_success, status_text, ResponseView};
use crate::run::{exit_status_of, run_config, run_from, run_of, OutcomeView};
use crate::session::{is_method_token, prepared, ConfigView, SessionView};
use crate::text::lemma_first_index_none;

verus! {

/// Whether `raw` holds no colon.
pub open spec fn lacks_colon(raw: Seq<char>) -> bool {
    forall|i: int| 0 <= i < raw.len() ==> raw[i] != ':'
}

/// A header string without a colon does not parse: it fails as a
/// configuration error that carries the string.
pub proof fn lemma_header_without_colon(raw: Seq<char>)
    requires
        lacks_colon(raw),
    ensures
        parsed_header(raw) == Err::<HeaderView, ClientErrorView>(
            ClientErrorView::HeaderFormat(raw),
        ),
        category_of(ClientErrorView::HeaderFormat(raw)) == ErrorCategory::Configuration,
{
    lemma_first_index_none(raw, ':');
}

/// Whatever fails in a list of header strings is a configuration error.
pub proof fn lemma_header_errors(raw: Seq<Seq<char>>)
    ensures
        parsed_headers(raw) matches Err(e) ==> category_of(e) == ErrorCategory::Configuration,
    decreases raw.len(),
{
    if raw.len() > 0 {
        lemma_header_errors(raw.drop_last());
    }
}

/// Whatever fails in a list of resolution triples is a configuration error.
pub proof fn lemma_resolve_errors(raw: Seq<Seq<char>>, faults: Seq<Option<Seq<char>>>)
    ensures
        parsed_resolves(raw, faults) matches Err(e) ==> category_of(e)
            == ErrorCategory::Configuration,
    decreases raw.len(),
{
    if raw.len() > 0 {
        lemma_resolve_errors(raw.drop_last(), faults);
    }
}

/// A configuration never fails to prepare but with a configuration error.
pub proof fn lemma_preparation_errors(c: ConfigView)
    ensures
        prepared(c) matches Err(e) ==> category_of(e) == ErrorCategory::Configuration,
{
    lemma_header_errors(c.headers);
    lemma_resolve_errors(c.resolve, c.address_faults);
}

/// A list of header strings with one that does not parse does not parse.
pub proof fn lemma_one_bad_header(raw: Seq<Seq<char>>, i: int)
    requires
        0 <= i < raw.len(),
        parsed_header(raw[i]) is Err,
    ensures
        parsed_headers(raw) is Err,
{
    if parsed_headers(raw.take(i)) is Ok {
        lemma_parsed_headers_error(raw, i);
    } else {
        lemma_parsed_headers_error_from(raw, i);
    }
}

/// A run whose configuration holds a header string without a colon fails
/// with a configuration error, and makes no request.
pub proof fn lemma_colonless_header_stops_run(c: ConfigView, i: int, events: Seq<EventView>)
    requires
        0 <= i < c.headers.len(),
        lacks_colon(c.headers[i]),
    ensures
        prepared(c) is Err,
        category_of(prepared(c)->Err_0) == ErrorCategory::Configuration,
        run_config(c, events).requests.len() == 0,
        run_config(c, events).outcome == OutcomeView::Failed(prepared(c)->Err_0),
        exit_status_of(run_config(c, events).outcome) == 1,
{
    lemma_header_without_colon(c.headers[i]);
    lemma_one_bad_header(c.headers, i);
    lemma_preparation_errors(c);
}

/// A run whose configuration holds both a form body and a raw body fails
/// with a configuration error, and makes no request. Where the headers and
/// the resolution triples are in order, the error is that of the two
/// bodies.
pub proof fn lemma_conflicting_bodies_stop_run(c: ConfigView, events: Seq<EventView>)
    requires
        c.form_body is Some,
        c.raw_body is Some,
    ensures
        prepared(c) is Err,
        category_of(prepared(c)->Err_0) == ErrorCategory::Configuration,
        built_headers(c.headers, c.cookie) is Ok && parsed_resolves(c.resolve, c.address_faults)
            is Ok ==> prepared(c)
            == Err::<SessionView, ClientErrorView>(ClientErrorView::ConflictingBody),
        run_config(c, events).requests.len() == 0,
        run_config(c, events).outcome == OutcomeView::Failed(prepared(c)->Err_0),
        exit_status_of(run_config(c, events).outcome) == 1,
{
    lemma_preparation_errors(c);
}

/// Whether the state `st` can come up in a run of the session `s`: no more
/// redirects were followed than the limit allows; before the first
/// redirect the method is the session's, after it the method is `GET`.
pub open spec fn hop_valid(s: SessionView, st: HopView) -> bool {
    &&& st.hops <= MAX_REDIRECTS
    &&& st.hops == 0 ==> st.method == s.method
    &&& st.hops > 0 ==> st.method == "GET"@
}

/// A run starts in a valid state, and every hop leads from a valid state
/// to a valid one, with one redirect more and the method `GET`, whatever
/// the method was before.
pub proof fn lemma_hops_stay_valid(s: SessionView, st: HopView, event: EventView)
    ensures
        hop_valid(s, first_hop(s)),
        hop_valid(s, st) ==> (step_of(s, st, event).next matches NextView::Continue(next)
            ==> hop_valid(s, next) && next.hops == st.hops + 1 && next.method == "GET"@),
{
}

/// What a valid session sends is valid: from a valid state, the method of
/// the request is a method, and every header of the request has a canonical
/// name and a valid value.
pub proof fn lemma_request_is_valid(s: SessionView, st: HopView)
    requires
        s.wf(),
        hop_valid(s, st),
    ensures
        is_method_token(request_for(s, st).method),
        headers_valid(request_for(s, st).headers),
{
    reveal_strlit("GET");
    reveal_strlit("content-type");
    reveal_strlit("application/x-www-form-urlencoded");
    assert(canonical_name("content-type"@) =~= "content-type"@);
    let sent = request_for(s, st).headers;
    assert forall|i: int| 0 <= i < sent.len() implies is_canonical_name(#[trigger] sent[i].name)
        && is_header_value(sent[i].value) by {
        if i < s.headers.len() {
            assert(sent[i] == s.headers[i]);
        }
    }
}

/// Whether two responses are the same but for their bodies.
pub open spec fn same_but_body(a: ResponseView, b: ResponseView) -> bool {
    a.version == b.version && a.status == b.status && a.headers == b.headers && a.url == b.url
}

/// A head-only run neither reads nor shows a body: no request asks for the
/// body to be read, and what a hop puts out does not depend on the body of
/// its response.
pub proof fn lemma_head_only_ignores_body(
    s: SessionView,
    st: HopView,
    a: ResponseView,
    b: ResponseView,
)
    requires
        s.head_only,
        same_but_body(a, b),
    ensures
        !request_for(s, st).read_body,
        shown_body(s, a) == Seq::<u8>::empty(),
        step_of(s, st, EventView::Response(a)) == step_of(s, st, EventView::Response(b)),
{
}

/// Whether a hop can show the response: in normal mode every header value
/// must be visible text.
pub open spec fn shows(s: SessionView, r: ResponseView) -> bool {
    s.trace || header_lines(r.headers) is Some
}

/// Whether the event is a response that redirects to a URL and can be
/// shown.
pub open spec fn redirects(s: SessionView, event: EventView) -> bool {
    event matches EventView::Response(r) && next_url(r) is Some && shows(s, r)
}

/// Whether the event is a response with a status of success that can be
/// shown.
pub open spec fn succeeds(s: SessionView, event: EventView) -> bool {
    event matches EventView::Response(r) && is_success(r.status) && shows(s, r)
}

/// Whether the event is a response that can be shown and ends the run: it
/// bears a status code, and no redirect is followed from it.
pub open spec fn halts(s: SessionView, event: EventView) -> bool {
    event matches EventView::Response(r) && is_status(r.status) && shows(s, r) && (
    !s.follow_redirects || next_url(r) is None)
}

/// The bytes of the header block of a response: none in trace mode.
pub open spec fn block_bytes(s: SessionView, r: ResponseView) -> Seq<u8> {
    if s.trace {
        Seq::empty()
    } else {
        encode_utf8(header_block(r.version, status_text(r.status), r.headers)->Some_0)
    }
}

/// The bytes of the body that go to the primary stream: none where the run
/// has an output file.
pub open spec fn body_bytes(s: SessionView, r: ResponseView) -> Seq<u8> {
    if s.to_file {
        Seq::empty()
    } else {
        shown_body(s, r)
    }
}

/// What the hop of each response puts on the primary stream of its own:
/// the header block, then the body.
pub open spec fn hop_outputs(s: SessionView, events: Seq<EventView>) -> Seq<Seq<u8>> {
    Seq::new(
        events.len(),
        |i: int| block_bytes(s, events[i]->Response_0) + body_bytes(s, events[i]->Response_0),
    )
}

/// The parts in order, with one separator between every two of them: as
/// many separators as there are parts but one.
pub open spec fn separated(parts: Seq<Seq<u8>>) -> Seq<u8>
    decreases parts.len(),
{
    if parts.len() == 0 {
        Seq::empty()
    } else if parts.len() == 1 {
        parts[0]
    } else {
        parts[0] + encode_utf8(separator()) + separated(parts.drop_first())
    }
}

/// A chain of `n` redirects and a response that ends the run, from the
/// state `st` on.
pub proof fn lemma_chain_from(s: SessionView, st: HopView, events: Seq<EventView>, n: nat)
    requires
        n > 0 ==> s.follow_redirects,
        events.len() == n + 1,
        st.hops + n <= MAX_REDIRECTS,
        forall|i: int| 0 <= i < n ==> redirects(s, #[trigger] events[i]),
        halts(s, events[n as int]),
    ensures
        run_from(s, st, events).requests.len() == n + 1,
        run_from(s, st, events).requests[0].method == st.method,
        forall|i: int|
            1 <= i <= n ==> (#[trigger] run_from(s, st, events).requests[i]).method == "GET"@,
        run_from(s, st, events).redirects == n,
        run_from(s, st, events).outcome == OutcomeView::Done,
        run_from(s, st, events).primary == separated(hop_outputs(s, events)),
        run_from(s, st, events).file == if s.to_file {
            Some(shown_body(s, events[n as int]->Response_0))
        } else {
            None
        },
    decreases n,
{
    lemma_no_text_no_bytes();
    let req = request_for(s, st);
    let step = step_of(s, st, events[0]);
    let whole = run_from(s, st, events);
    let parts = hop_outputs(s, events);
    if n == 0 {
        assert(whole.primary =~= parts[0]);
    } else {
        assert(redirects(s, events[0]));
        let next = step.next->Continue_0;
        let rest = events.drop_first();
        assert forall|i: int| 0 <= i < n - 1 implies redirects(s, #[trigger] rest[i]) by {
            assert(rest[i] == events[i + 1]);
        }
        assert(rest[n - 1] == events[n as int]);
        lemma_chain_from(s, next, rest, (n - 1) as nat);
        let tail = run_from(s, next, rest);
        assert(whole.requests == seq![req] + tail.requests);
        assert forall|i: int| 1 <= i <= n implies (#[trigger] whole.requests[i]).method == "GET"@ by {
            assert(whole.requests[i] == tail.requests[i - 1]);
        }
        assert(parts.drop_first() =~= hop_outputs(s, rest));
        assert(step.primary =~= parts[0] + encode_utf8(separator()));
        assert(whole.primary =~= separated(parts));
    }
}

/// Where redirects are followed and a chain of `n` redirects, `n` at most
/// the limit, comes before a success, the run makes `n + 1` requests, all
/// but the first with the method `GET`, and is done. Its primary output is
/// what the `n + 1` hops put out, each the header block and the body of its
/// response, with `n` separators, one between every two.
pub proof fn lemma_redirect_chain(s: SessionView, events: Seq<EventView>, n: nat)
    requires
        s.follow_redirects,
        n <= MAX_REDIRECTS,
        events.len() == n + 1,
        forall|i: int| 0 <= i < n ==> redirects(s, #[trigger] events[i]),
        succeeds(s, events[n as int]),
    ensures
        run_of(s, events).requests.len() == n + 1,
        run_of(s, events).requests[0].method == s.method,
        forall|i: int| 1 <= i <= n ==> (#[trigger] run_of(s, events).requests[i]).method == "GET"@,
        run_of(s, events).redirects == n,
        run_of(s, events).primary == separated(hop_outputs(s, events)),
        hop_outputs(s, events).len() == n + 1,
        run_of(s, events).outcome == OutcomeView::Done,
        exit_status_of(run_of(s, events).outcome) == 0,
{
    lemma_chain_from(s, first_hop(s), events, n);
}

/// Whether a run takes the events to its end without failure: all but the
/// last are redirects that it follows, within the limit, and the last ends
/// it.
pub open spec fn completes(s: SessionView, events: Seq<EventView>) -> bool {
    &&& 1 <= events.len() <= MAX_REDIRECTS + 1
    &&& events.len() > 1 ==> s.follow_redirects
    &&& forall|i: int| 0 <= i < events.len() - 1 ==> redirects(s, #[trigger] events[i])
    &&& halts(s, events.last())
}

/// In trace mode the primary stream of a run gets the bodies alone, with a
/// separator between those of two hops: the body only, in a run of one hop,
/// and nothing at all where that run is head-only.
pub proof fn lemma_trace_run_shows_bodies(s: SessionView, events: Seq<EventView>)
    requires
        s.trace,
        completes(s, events),
    ensures
        run_of(s, events).primary == separated(
            Seq::new(events.len(), |i: int| body_bytes(s, events[i]->Response_0)),
        ),
        events.len() == 1 && !s.to_file ==> run_of(s, events).primary == shown_body(
            s,
            events[0]->Response_0,
        ),
        events.len() == 1 && s.head_only ==> run_of(s, events).primary == Seq::<u8>::empty(),
{
    lemma_chain_from(s, first_hop(s), events, (events.len() - 1) as nat);
    let bodies = Seq::new(events.len(), |i: int| body_bytes(s, events[i]->Response_0));
    assert(hop_outputs(s, events) =~= bodies);
}

/// In normal mode a run writes nothing to the diagnostic stream, whatever
/// the events.
pub proof fn lemma_normal_run_is_silent(s: SessionView, st: HopView, events: Seq<EventView>)
    requires
        !s.trace,
    ensures
        run_from(s, st, events).diagnostic == Seq::<char>::empty(),
    decreases events.len(),
{
    let req = request_for(s, st);
    if events.len() == 0 {
    } else {
        let step = step_of(s, st, events[0]);
        assert(step.diagnostic == Seq::<char>::empty());
        assert(req.trace + step.diagnostic =~= Seq::<char>::empty());
        match step.next {
            NextView::Continue(next) => {
                lemma_normal_run_is_silent(s, next, events.drop_first());
                assert(run_from(s, st, events).diagnostic =~= Seq::<char>::empty());
            },
            _ => {},
        }
    }
}

/// With an output file the primary stream of a run gets the header blocks,
/// with a separator between those of two hops, and the file holds the body
/// of the last response. Without a file the same run puts each body behind
/// its header block in the primary stream, and all else is the same.
pub proof fn lemma_file_run(s: SessionView, events: Seq<EventView>)
    requires
        completes(s, events),
    ensures
        ({
            let filed = run_of(with_file(s, true), events);
            let plain = run_of(with_file(s, false), events);
            &&& filed.primary == separated(
                Seq::new(events.len(), |i: int| block_bytes(s, events[i]->Response_0)),
            )
            &&& filed.file == Some(shown_body(s, events.last()->Response_0))
            &&& plain.primary == separated(
                Seq::new(
                    events.len(),
                    |i: int|
                        block_bytes(s, events[i]->Response_0) + shown_body(
                            s,
                            events[i]->Response_0,
                        ),
                ),
            )
            &&& plain.file is None
            &&& plain.requests == filed.requests
            &&& plain.diagnostic == filed.diagnostic
            &&& plain.outcome == filed.outcome
        }),
{
    let n = (events.len() - 1) as nat;
    let f = with_file(s, true);
    let p = with_file(s, false);
    assert forall|i: int| 0 <= i < n implies redirects(f, #[trigger] events[i]) && redirects(
        p,
        events[i],
    ) by {
        assert(redirects(s, events[i]));
    }
    lemma_chain_from(f, first_hop(f), events, n);
    lemma_chain_from(p, first_hop(p), events, n);
    assert(hop_outputs(f, events) =~= Seq::new(
        events.len(),
        |i: int| block_bytes(s, events[i]->Response_0),
    ));
    assert(hop_outputs(p, events) =~= Seq::new(
        events.len(),
        |i: int| block_bytes(s, events[i]->Response_0) + shown_body(s, events[i]->Response_0),
    ));
    lemma_file_changes_the_sink_alone(s, first_hop(s), events);
}

/// Whether a run has an output file changes where the bodies go, and
/// nothing else: the requests, the diagnostic stream, the redirects and the
/// outcome are the same, whatever the events.
pub proof fn lemma_file_changes_the_sink_alone(s: SessionView, st: HopView, events: Seq<EventView>)
    ensures
        ({
            let filed = run_from(with_file(s, true), st, events);
            let plain = run_from(with_file(s, false), st, events);
            &&& plain.requests == filed.requests
            &&& plain.diagnostic == filed.diagnostic
            &&& plain.redirects == filed.redirects
            &&& plain.outcome == filed.outcome
        }),
    decreases events.len(),
{
    let f = with_file(s, true);
    let p = with_file(s, false);
    assert(request_for(f, st) == request_for(p, st));
    if events.len() > 0 {
        let a = step_of(f, st, events[0]);
        let b = step_of(p, st, events[0]);
        assert(a.next == b.next && a.diagnostic == b.diagnostic);
        match a.next {
            NextView::Continue(next) => {
                lemma_file_changes_the_sink_alone(s, next, events.drop_first());
            },
            _ => {},
        }
    }
}

/// Whether two events are the same but for the body of their response.
pub open spec fn alike(a: EventView, b: EventView) -> bool {
    match (a, b) {
        (EventView::Response(x), EventView::Response(y)) => same_but_body(x, y),
        (EventView::Truncated(x, d), EventView::Truncated(y, e)) => same_but_body(x, y) && d == e,
        (EventView::Failure(d), EventView::Failure(e)) => d == e,
        _ => false,
    }
}

/// A head-only run never reads a body and never shows one, whatever the
/// events: none of its requests asks for the body to be read, and the run
/// is the same whatever bodies the responses hold.
pub proof fn lemma_head_only_run(
    s: SessionView,
    st: HopView,
    a: Seq<EventView>,
    b: Seq<EventView>,
)
    requires
        s.head_only,
        a.len() == b.len(),
        forall|i: int| 0 <= i < a.len() ==> alike(#[trigger] a[i], b[i]),
    ensures
        forall|i: int|
            0 <= i < run_from(s, st, a).requests.len() ==> !(#[trigger] run_from(
                s,
                st,
                a,
            ).requests[i]).read_body,
        run_from(s, st, a) == run_from(s, st, b),
    decreases a.len(),
{
    if a.len() > 0 {
        assert(alike(a[0], b[0]));
        let step = step_of(s, st, a[0]);
        assert(step == step_of(s, st, b[0]));
        match step.next {
            NextView::Continue(next) => {
                let x = a.drop_first();
                let y = b.drop_first();
                assert forall|i: int| 0 <= i < x.len() implies alike(#[trigger] x[i], y[i]) by {
                    assert(alike(a[i + 1], b[i + 1]));
                }
                lemma_head_only_run(s, next, x, y);
                let whole = run_from(s, st, a);
                let tail = run_from(s, next, x);
                assert forall|i: int| 0 <= i < whole.requests.len() implies !(
                #[trigger] whole.requests[i]).read_body by {
                    if i > 0 {
                        assert(whole.requests[i] == tail.requests[i - 1]);
                    }
                }
            },
            _ => {},
        }
    }
}

/// A chain of redirects that leads over the limit, from the state `st` on.
pub proof fn lemma_overlong_from(s: SessionView, st: HopView, events: Seq<EventView>)
    requires
        s.follow_redirects,
        st.hops <= MAX_REDIRECTS,
        events.len() > MAX_REDIRECTS - st.hops,
        forall|i: int| 0 <= i <= MAX_REDIRECTS - st.hops ==> redirects(s, #[trigger] events[i]),
    ensures
        run_from(s, st, events).outcome == OutcomeView::Failed(
            ClientErrorView::RedirectLoopExceeded,
        ),
        run_from(s, st, events).requests.len() == MAX_REDIRECTS - st.hops + 1,
        run_from(s, st, events).redirects == MAX_REDIRECTS - st.hops,
    decreases MAX_REDIRECTS - st.hops,
{
    assert(redirects(s, events[0]));
    let step = step_of(s, st, events[0]);
    if st.hops < MAX_REDIRECTS {
        let next = step.next->Continue_0;
        let rest = events.drop_first();
        assert forall|i: int| 0 <= i <= MAX_REDIRECTS - next.hops implies redirects(
            s,
            #[trigger] rest[i],
        ) by {
            assert(rest[i] == events[i + 1]);
        }
        lemma_overlong_from(s, next, rest);
    }
}

/// Where redirects are followed and every one of the first eleven responses
/// redirects, the run ends in failure for too many redirects, after eleven
/// requests, with an exit status that is not zero.
pub proof fn lemma_redirect_limit(s: SessionView, events: Seq<EventView>)
    requires
        s.follow_redirects,
        events.len() > MAX_REDIRECTS,
        forall|i: int| 0 <= i <= MAX_REDIRECTS ==> redirects(s, #[trigger] events[i]),
    ensures
        run_of(s, events).outcome == OutcomeView::Failed(ClientErrorView::RedirectLoopExceeded),
        run_of(s, events).requests.len() == MAX_REDIRECTS + 1,
        exit_status_of(run_of(s, events).outcome) != 0,
{
    lemma_overlong_from(s, first_hop(s), events);
}

/// The bytes of the separator where another hop follows, else none.
pub open spec fn separator_if(next: NextView) -> Seq<u8> {
    if next is Continue {
        encode_utf8(separator())
    } else {
        Seq::empty()
    }
}

/// The empty string has no bytes.
pub proof fn lemma_no_text_no_bytes()
    ensures
        encode_utf8(Seq::<char>::empty()) == Seq::<u8>::empty(),
{
    reveal_with_fuel(encode_utf8, 1);
}

/// In trace mode what is known of request and response goes to the
/// diagnostic stream alone: the primary stream gets the body and, where
/// another hop follows, the separator. In normal mode the diagnostic stream
/// gets nothing.
pub proof fn lemma_trace_keeps_streams_apart(
    s: SessionView,
    st: HopView,
    resp: ResponseView,
    words: Seq<char>,
    candidate: Option<Seq<char>>,
)
    ensures
        s.trace ==> outcome(s, st, resp, words, candidate).diagnostic == response_trace(
            resp.version,
            words,
            resp.headers,
        ),
        s.trace && !s.to_file ==> outcome(s, st, resp, words, candidate).primary == shown_body(
            s,
            resp,
        ) + separator_if(next_of(s, st, candidate)),
        s.trace && !s.to_file && !(next_of(s, st, candidate) is Continue) ==> outcome(
            s,
            st,
            resp,
            words,
            candidate,
        ).primary == shown_body(s, resp),
        s.trace && s.head_only && !(next_of(s, st, candidate) is Continue) ==> outcome(
            s,
            st,
            resp,
            words,
            candidate,
        ).primary == Seq::<u8>::empty(),
        !s.trace ==> outcome(s, st, resp, words, candidate).diagnostic == Seq::<char>::empty(),
        !s.trace ==> request_for(s, st).trace == Seq::<char>::empty(),
{
    lemma_no_text_no_bytes();
    let o = outcome(s, st, resp, words, candidate);
    if s.trace {
        assert(o.primary =~= (if s.to_file {
            Seq::<u8>::empty()
        } else {
            shown_body(s, resp)
        }) + separator_if(next_of(s, st, candidate)));
        if !s.to_file {
            assert(o.primary =~= shown_body(s, resp) + separator_if(next_of(s, st, candidate)));
            if !(next_of(s, st, candidate) is Continue) {
                assert(o.primary =~= shown_body(s, resp));
            }
        }
        if s.head_only && !(next_of(s, st, candidate) is Continue) {
            assert(o.primary =~= Seq::<u8>::empty());
        }
    }
}

/// The session `s` with or without an output file.
pub open spec fn with_file(s: SessionView, to_file: bool) -> SessionView {
    SessionView { to_file, ..s }
}

/// With an output file the primary stream gets the header block, and the
/// separator where another hop follows, and the file gets the body: the same
/// bytes that, without a file, stand between the two in the primary stream.
pub proof fn lemma_file_takes_body(
    s: SessionView,
    st: HopView,
    resp: ResponseView,
    words: Seq<char>,
    candidate: Option<Seq<char>>,
)
    requires
        shows(s, resp),
    ensures
        ({
            let block = if s.trace {
                Seq::<u8>::empty()
            } else {
                encode_utf8(header_block(resp.version, words, resp.headers)->Some_0)
            };
            let filed = outcome(with_file(s, true), st, resp, words, candidate);
            let plain = outcome(with_file(s, false), st, resp, words, candidate);
            &&& filed.file == Some(shown_body(s, resp))
            &&& filed.primary == block + separator_if(filed.next)
            &&& plain.file is None
            &&& plain.primary == block + filed.file->Some_0 + separator_if(plain.next)
            &&& plain.next == filed.next
            &&& plain.diagnostic == filed.diagnostic
        }),
{
    lemma_no_text_no_bytes();
    let block = if s.trace {
        Seq::<u8>::empty()
    } else {
        encode_utf8(header_block(resp.version, words, resp.headers)->Some_0)
    };
    let filed = outcome(with_file(s, true), st, resp, words, candidate);
    let plain = outcome(with_file(s, false), st, resp, words, candidate);
    assert(filed.primary =~= block + separator_if(filed.next));
    assert(plain.primary =~= block + shown_body(s, resp) + separator_if(plain.next));
}

/// A status that is neither a success nor a redirect ends the run without
/// failure: the hop shows the body like any other, warns, and the run is
/// done with the exit status zero.
pub proof fn lemma_error_status_completes(s: SessionView, st: HopView, resp: ResponseView)
    requires
        is_status(resp.status),
        !is_success(resp.status),
        !is_redirection(resp.status),
        shows(s, resp),
    ensures
        ({
            let step = step_of(s, st, EventView::Response(resp));
            let run = run_from(s, st, seq![EventView::Response(resp)]);
            &&& step.next == NextView::Done
            &&& !s.head_only ==> step.warning is Some
            &&& !s.to_file && !s.trace ==> step.primary == encode_utf8(
                header_block(resp.version, status_text(resp.status), resp.headers)->Some_0,
            ) + shown_body(s, resp)
            &&& s.to_file ==> step.file == Some(shown_body(s, resp))
            &&& !s.head_only ==> shown_body(s, resp) == resp.body
            &&& run.outcome == OutcomeView::Done
            &&& exit_status_of(run.outcome) == 0
        }),
{
    let step = step_of(s, st, EventView::Response(resp));
    if !s.to_file && !s.trace {
        assert(step.primary =~= encode_utf8(
            header_block(resp.version, status_text(resp.status), resp.headers)->Some_0,
        ) + shown_body(s, resp));
    }
}

} // verus!
