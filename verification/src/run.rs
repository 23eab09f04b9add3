//! A whole run: the hops that a sequence of events takes a session
//! through, and what they put out together.

use vstd::prelude::*;
use vstd::string::StringExecFns;
use crate::engine::{advance, opt_bytes, step_of, Event, EventView, Next, NextView, Step, StepView};
use crate::error::{ClientError, ClientErrorView};
use crate::plan::{first_hop, plan_request, request_for, HopView, RequestPlan, RequestView};
use crate::session::{prepare, prepared, ConfigView, RequestConfig, Session, SessionView};
use crate::text::append_bytes;

verus! {

/// How a run ended.
#[derive(Clone, Debug, PartialEq, Eq)]
pub enum RunOutcome {
    /// The last hop's response ended the run.
    Done,
    /// The run failed.
    Failed(ClientError),
    /// The last request has no event yet.
    Pending,
}

/// The mathematical value of a `RunOutcome`.
pub enum OutcomeView {
    Done,
    Failed(ClientErrorView),
    Pending,
}

impl View for RunOutcome {
    type V = OutcomeView;

    open spec fn view(&self) -> OutcomeView {
        match self {
            RunOutcome::Done => OutcomeView::Done,
            RunOutcome::Failed(e) => OutcomeView::Failed(e@),
            RunOutcome::Pending => OutcomeView::Pending,
        }
    }
}

/// The exit status of a run that ended with `outcome`: zero where it is
/// done, one where it failed.
pub open spec fn exit_status_of(outcome: OutcomeView) -> u8 {
    match outcome {
        OutcomeView::Failed(_) => 1,
        _ => 0,
    }
}

impl RunOutcome {
    /// The exit status of the process.
    pub fn exit_status(&self) -> (code: u8)
        ensures
            code == exit_status_of(self@),
    {
        match self {
            RunOutcome::Failed(_) => 1,
            _ => 0,
        }
    }
}

/// What a run did.
#[derive(Clone, Debug, PartialEq, Eq)]
pub struct RunReport {
    /// The requests that were made, in order.
    pub requests: Vec<RequestPlan>,
    /// All that went to the diagnostic stream.
    pub diagnostic: String,
    /// All that went to the primary output stream.
    pub primary: Vec<u8>,
    /// The contents of the output file at the end, where it was written.
    pub file: Option<Vec<u8>>,
    /// The number of redirects followed; each put one separator into the
    /// primary output.
    pub redirects: usize,
    pub outcome: RunOutcome,
}

/// The mathematical value of a `RunReport`.
pub struct RunView {
    pub requests: Seq<RequestView>,
    pub diagnostic: Seq<char>,
    pub primary: Seq<u8>,
    pub file: Option<Seq<u8>>,
    pub redirects: nat,
    pub outcome: OutcomeView,
}

impl View for RunReport {
    type V = RunView;

    open spec fn view(&self) -> RunView {
        RunView {
            requests: self.requests.deep_view(),
            diagnostic: self.diagnostic@,
            primary: self.primary@,
            file: opt_bytes(self.file),
            redirects: self.redirects as nat,
            outcome: self.outcome@,
        }
    }
}

/// The file after `later` was written over `earlier`.
pub open spec fn overwritten(earlier: Option<Seq<u8>>, later: Option<Seq<u8>>) -> Option<Seq<u8>> {
    if later is Some {
        later
    } else {
        earlier
    }
}

/// A run followed by another: what both put out, in order, and the outcome
/// of the second.
pub open spec fn then_run(a: RunView, b: RunView) -> RunView {
    RunView {
        requests: a.requests + b.requests,
        diagnostic: a.diagnostic + b.diagnostic,
        primary: a.primary + b.primary,
        file: overwritten(a.file, b.file),
        redirects: a.redirects + b.redirects,
        outcome: b.outcome,
    }
}

/// The run that has done nothing yet.
pub open spec fn no_run() -> RunView {
    RunView {
        requests: Seq::empty(),
        diagnostic: Seq::empty(),
        primary: Seq::empty(),
        file: None,
        redirects: 0,
        outcome: OutcomeView::Pending,
    }
}

/// The run of one request that still waits for its event.
pub open spec fn pending_hop(req: RequestView) -> RunView {
    RunView {
        requests: seq![req],
        diagnostic: req.trace,
        primary: Seq::empty(),
        file: None,
        redirects: 0,
        outcome: OutcomeView::Pending,
    }
}

/// The run of one hop: its request, and the step that its event led to.
pub open spec fn one_hop(req: RequestView, step: StepView) -> RunView {
    RunView {
        requests: seq![req],
        diagnostic: req.trace + step.diagnostic,
        primary: step.primary,
        file: step.file,
        redirects: if step.next is Continue {
            1
        } else {
            0
        },
        outcome: match step.next {
            NextView::Continue(_) => OutcomeView::Pending,
            NextView::Done => OutcomeView::Done,
            NextView::Failed(e) => OutcomeView::Failed(e),
        },
    }
}

/// The run that the events take a session through, from the state `st` on.
/// Each hop makes its request and takes the next event; where no event is
/// left, the request stays pending.
pub open spec fn run_from(s: SessionView, st: HopView, events: Seq<EventView>) -> RunView
    decreases events.len(),
{
    let req = request_for(s, st);
    if events.len() == 0 {
        pending_hop(req)
    } else {
        let step = step_of(s, st, events[0]);
        match step.next {
            NextView::Continue(next) => then_run(
                one_hop(req, step),
                run_from(s, next, events.drop_first()),
            ),
            _ => one_hop(req, step),
        }
    }
}

/// The run that the events take a session through.
pub open spec fn run_of(s: SessionView, events: Seq<EventView>) -> RunView {
    run_from(s, first_hop(s), events)
}

/// Runs follow one another in any grouping.
pub proof fn lemma_then_run_assoc(a: RunView, b: RunView, c: RunView)
    ensures
        then_run(then_run(a, b), c) == then_run(a, then_run(b, c)),
{
    let l = then_run(then_run(a, b), c);
    let r = then_run(a, then_run(b, c));
    assert(l.requests =~= r.requests);
    assert(l.diagnostic =~= r.diagnostic);
    assert(l.primary =~= r.primary);
}

/// A run that follows the run that has done nothing is that run.
pub proof fn lemma_then_run_first(b: RunView)
    ensures
        then_run(no_run(), b) == b,
{
    let l = then_run(no_run(), b);
    assert(l.requests =~= b.requests);
    assert(l.diagnostic =~= b.diagnostic);
    assert(l.primary =~= b.primary);
}

/// Takes a session through the given events, as a transport would that
/// answered each request with the next of them.
pub fn replay(session: &Session, events: &Vec<Event>) -> (report: RunReport)
    ensures
        report@ == run_of(session@, events.deep_view()),
{
    let ghost all = events.deep_view();
    let ghost goal = run_of(session@, all);
    let mut state = session.first_hop();
    let mut requests: Vec<RequestPlan> = Vec::new();
    let mut diagnostic = String::new();
    let mut primary: Vec<u8> = Vec::new();
    let mut file: Option<Vec<u8>> = None;
    let mut redirects: usize = 0;
    let mut i: usize = 0;
    proof {
        assert(all.skip(0) =~= all);
        assert(requests.deep_view() =~= Seq::<RequestView>::empty());
        lemma_then_run_first(run_from(session@, state@, all));
    }
    loop
        invariant
            i <= events.len(),
            redirects <= i,
            all == events.deep_view(),
            goal == run_of(session@, all),
            goal == then_run(
                RunView {
                    requests: requests.deep_view(),
                    diagnostic: diagnostic@,
                    primary: primary@,
                    file: opt_bytes(file),
                    redirects: redirects as nat,
                    outcome: OutcomeView::Pending,
                },
                run_from(session@, state@, all.skip(i as int)),
            ),
        decreases events.len() - i,
    {
        let ghost done = RunView {
            requests: requests.deep_view(),
            diagnostic: diagnostic@,
            primary: primary@,
            file: opt_bytes(file),
            redirects: redirects as nat,
            outcome: OutcomeView::Pending,
        };
        let ghost rest = all.skip(i as int);
        let plan = plan_request(session, &state);
        let ghost req = plan@;
        diagnostic.append(plan.trace.as_str());
        let ghost before = requests.deep_view();
        requests.push(plan);
        assert(requests.deep_view() =~= before.push(req));
        assert(before.push(req) =~= before + seq![req]);
        if i == events.len() {
            let report = RunReport {
                requests,
                diagnostic,
                primary,
                file,
                redirects,
                outcome: RunOutcome::Pending,
            };
            proof {
                let whole = then_run(done, pending_hop(req));
                assert(rest.len() == 0);
                assert(report@.requests =~= whole.requests);
                assert(report@.diagnostic =~= whole.diagnostic);
                assert(report@.primary =~= whole.primary);
            }
            return report;
        }
        let step = advance(session, &state, &events[i]);
        let ghost sv = step@;
        proof {
            assert(rest[0] == events@[i as int]@);
            assert(rest.drop_first() =~= all.skip(i + 1));
        }
        let Step { diagnostic: shown, primary: bytes, file: written, warning: _, next } = step;
        diagnostic.append(shown.as_str());
        append_bytes(&mut primary, &bytes);
        if written.is_some() {
            file = written;
        }
        match next {
            Next::Continue(following) => {
                proof {
                    lemma_then_run_assoc(
                        done,
                        one_hop(req, sv),
                        run_from(session@, following@, all.skip(i + 1)),
                    );
                    let acc = then_run(done, one_hop(req, sv));
                    assert(acc.requests =~= requests.deep_view());
                    assert(acc.diagnostic =~= diagnostic@);
                    assert(acc.primary =~= primary@);
                }
                state = following;
                redirects = redirects + 1;
                i = i + 1;
            },
            Next::Done => {
                let report = RunReport {
                    requests,
                    diagnostic,
                    primary,
                    file,
                    redirects,
                    outcome: RunOutcome::Done,
                };
                proof {
                    let whole = then_run(done, one_hop(req, sv));
                    assert(report@.requests =~= whole.requests);
                    assert(report@.diagnostic =~= whole.diagnostic);
                    assert(report@.primary =~= whole.primary);
                }
                return report;
            },
            Next::Failed(error) => {
                let report = RunReport {
                    requests,
                    diagnostic,
                    primary,
                    file,
                    redirects,
                    outcome: RunOutcome::Failed(error),
                };
                proof {
                    let whole = then_run(done, one_hop(req, sv));
                    assert(report@.requests =~= whole.requests);
                    assert(report@.diagnostic =~= whole.diagnostic);
                    assert(report@.primary =~= whole.primary);
                }
                return report;
            },
        }
    }
}

/// The run of a configuration: where it cannot be prepared, no request is
/// made and the run has failed; else the events take the session through
/// its hops.
pub open spec fn run_config(c: ConfigView, events: Seq<EventView>) -> RunView {
    match prepared(c) {
        Err(e) => RunView {
            requests: Seq::empty(),
            diagnostic: Seq::empty(),
            primary: Seq::empty(),
            file: None,
            redirects: 0,
            outcome: OutcomeView::Failed(e),
        },
        Ok(s) => run_of(s, events),
    }
}

/// Prepares a configuration and takes it through the given events.
pub fn simulate(config: &RequestConfig, events: &Vec<Event>) -> (report: RunReport)
    ensures
        report@ == run_config(config@, events.deep_view()),
{
    match prepare(config) {
        Err(e) => {
            let report = RunReport {
                requests: Vec::new(),
                diagnostic: String::new(),
                primary: Vec::new(),
                file: None,
                redirects: 0,
                outcome: RunOutcome::Failed(e),
            };
            assert(report@.requests =~= Seq::<RequestView>::empty());
            report
        },
        Ok(session) => replay(&session, events),
    }
}

} // verus!
