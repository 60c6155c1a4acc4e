//! Running steps one after the other.

use crate::error::{connection_closed, AppError, AppErrorView, IoErrorKind, WebSocketError};
use crate::media::step::{step_views, Call, CallView, OnFailure, Step, StepView};
use vstd::prelude::*;

verus! {

/// Steps that are under way: there is always one to be performed next.
#[derive(Debug)]
pub struct Plan {
    steps: Vec<Step>,
    next: usize,
}

impl View for Plan {
    type V = Seq<StepView>;

    /// The steps that are left, the one to be performed next first.
    closed spec fn view(&self) -> Seq<StepView> {
        step_views(self.steps@).skip(self.next as int)
    }
}

/// Where a run of steps stands.
#[derive(Debug)]
pub enum Verdict {
    /// The first step of the plan is to be performed, and its result handed to the plan.
    Continue(Plan),
    /// There is nothing left to do.
    Complete,
    /// A step failed, and nothing more is done.
    Failed(AppError),
    /// A step failed without which the program cannot go on.
    Abort(String),
}

/// The contents of a [`Verdict`].
pub enum VerdictView {
    Continue(Seq<StepView>),
    Complete,
    Failed(AppErrorView),
    Abort(Seq<char>),
}

impl View for Verdict {
    type V = VerdictView;

    open spec fn view(&self) -> VerdictView {
        match self {
            Verdict::Continue(plan) => VerdictView::Continue(plan@),
            Verdict::Complete => VerdictView::Complete,
            Verdict::Failed(error) => VerdictView::Failed(error@),
            Verdict::Abort(text) => VerdictView::Abort(text@),
        }
    }
}

/// The result of a call, with the error as text.
pub open spec fn call_result(result: Result<(), String>) -> Result<(), Seq<char>> {
    match result {
        Ok(()) => Ok(()),
        Err(text) => Err(text@),
    }
}

/// Where a run of these steps starts.
pub open spec fn started(steps: Seq<StepView>) -> VerdictView {
    if steps.len() == 0 {
        VerdictView::Complete
    } else {
        VerdictView::Continue(steps)
    }
}

/// The error that the failure of a call is reported as.
pub open spec fn call_error(call: CallView, text: Seq<char>) -> AppErrorView {
    match call {
        CallView::Send { .. } => connection_closed(),
        CallView::ConnectServer { .. } => AppErrorView::Transport(text),
        _ => AppErrorView::Media(text),
    }
}

/// Whether the run goes on after this result of the step.
pub open spec fn goes_on(step: StepView, result: Result<(), Seq<char>>) -> bool {
    result is Ok || step.on_failure == OnFailure::Ignore
}

/// Where a run stands whose step failed so that it does not go on.
pub open spec fn stopped(step: StepView, text: Seq<char>) -> VerdictView {
    if step.on_failure == OnFailure::Return {
        VerdictView::Failed(call_error(step.call, text))
    } else {
        VerdictView::Abort(text)
    }
}

/// Where a run with these steps left stands after the result of the first of them.
pub open spec fn advanced(left: Seq<StepView>, result: Result<(), Seq<char>>) -> VerdictView {
    if goes_on(left[0], result) {
        started(left.drop_first())
    } else {
        stopped(left[0], result->Err_0)
    }
}

impl Plan {
    #[verifier::type_invariant]
    spec fn has_a_next_step(self) -> bool {
        self.next < self.steps@.len()
    }

    /// Starts a run of steps.
    pub fn begin(steps: Vec<Step>) -> (verdict: Verdict)
        ensures
            verdict@ == started(step_views(steps@)),
    {
        if steps.len() == 0 {
            Verdict::Complete
        } else {
            let plan = Plan { steps, next: 0 };
            assert(plan@ =~= step_views(steps@));
            Verdict::Continue(plan)
        }
    }

    /// The step to be performed next.
    pub fn current(&self) -> (step: &Step)
        ensures
            self@.len() > 0,
            step@ == self@[0],
    {
        proof {
            use_type_invariant(self);
        }
        &self.steps[self.next]
    }

    /// Takes the result of the current step.
    pub fn advance(self, result: Result<(), String>) -> (verdict: Verdict)
        ensures
            self@.len() > 0,
            verdict@ == advanced(self@, call_result(result)),
    {
        proof {
            use_type_invariant(&self);
        }
        let ghost left = self@;
        assert(left[0] == self.steps@[self.next as int]@);
        match result {
            Err(text) => match self.steps[self.next].on_failure {
                OnFailure::Abort => return Verdict::Abort(text),
                OnFailure::Return => {
                    let error = match &self.steps[self.next].call {
                        Call::Send { .. } => AppError::WebSocket(
                            WebSocketError::connection_closed(),
                        ),
                        Call::ConnectServer { .. } => AppError::Transport(text),
                        _ => AppError::Media(text),
                    };
                    return Verdict::Failed(error);
                },
                OnFailure::Ignore => {},
            },
            Ok(()) => {},
        }
        let Plan { steps, next } = self;
        if next < steps.len() - 1 {
            let plan = Plan { steps, next: next + 1 };
            assert(plan@ =~= left.drop_first());
            Verdict::Continue(plan)
        } else {
            Verdict::Complete
        }
    }
}

/// Where a run stands after results, each of them handed to the plan as long as there is one.
pub open spec fn run(verdict: VerdictView, results: Seq<Result<(), Seq<char>>>) -> VerdictView
    decreases results.len(),
{
    match verdict {
        VerdictView::Continue(left) if results.len() > 0 => run(
            advanced(left, results[0]),
            results.drop_first(),
        ),
        _ => verdict,
    }
}

/// The calls that are made in the course of a run, in order.
pub open spec fn calls_made(
    verdict: VerdictView,
    results: Seq<Result<(), Seq<char>>>,
) -> Seq<CallView>
    decreases results.len(),
{
    match verdict {
        VerdictView::Continue(left) if results.len() > 0 => seq![left[0].call] + calls_made(
            advanced(left, results[0]),
            results.drop_first(),
        ),
        _ => Seq::empty(),
    }
}

/// The calls of steps.
pub open spec fn calls(steps: Seq<StepView>) -> Seq<CallView> {
    steps.map_values(|step: StepView| step.call)
}

/// A run in which no failure matters makes the call of every step, in order, and completes.
pub proof fn law_run_makes_every_call(
    steps: Seq<StepView>,
    results: Seq<Result<(), Seq<char>>>,
)
    requires
        results.len() == steps.len(),
        forall|i: int| 0 <= i < steps.len() ==> #[trigger] goes_on(steps[i], results[i]),
    ensures
        run(started(steps), results) == VerdictView::Complete,
        calls_made(started(steps), results) == calls(steps),
    decreases steps.len(),
{
    if steps.len() == 0 {
        assert(calls(steps) =~= Seq::empty());
    } else {
        assert(goes_on(steps[0], results[0]));
        let left = steps.drop_first();
        let later = results.drop_first();
        assert forall|i: int| 0 <= i < left.len() implies #[trigger] goes_on(left[i], later[i]) by {
            assert(goes_on(steps[i + 1], results[i + 1]));
        }
        law_run_makes_every_call(left, later);
        assert(calls(steps) =~= seq![steps[0].call] + calls(left));
    }
}

/// A run stops at the first failure that matters: the calls up to and with that of the failing
/// step are made, none after it, and the run ends as the step says, whatever else is reported.
pub proof fn law_run_stops_at_failure(
    steps: Seq<StepView>,
    results: Seq<Result<(), Seq<char>>>,
    k: int,
)
    requires
        0 <= k < steps.len(),
        k < results.len(),
        forall|i: int| 0 <= i < k ==> #[trigger] goes_on(steps[i], results[i]),
        !goes_on(steps[k], results[k]),
    ensures
        run(started(steps), results) == stopped(steps[k], results[k]->Err_0),
        calls_made(started(steps), results) == calls(steps.take(k + 1)),
    decreases k,
{
    let left = steps.drop_first();
    let later = results.drop_first();
    if k == 0 {
        assert(advanced(steps, results[0]) == stopped(steps[0], results[0]->Err_0));
        reveal_with_fuel(run, 2);
        reveal_with_fuel(calls_made, 2);
        assert(calls(steps.take(1)) =~= seq![steps[0].call]);
    } else {
        assert(goes_on(steps[0], results[0]));
        assert forall|i: int| 0 <= i < k - 1 implies #[trigger] goes_on(left[i], later[i]) by {
            assert(goes_on(steps[i + 1], results[i + 1]));
        }
        assert(left[k - 1] == steps[k] && later[k - 1] == results[k]);
        law_run_stops_at_failure(left, later, k - 1);
        assert(calls(steps.take(k + 1)) =~= seq![steps[0].call] + calls(left.take(k)));
    }
}

/// What becomes of a run after the result of a step: a success leads on to the next step or, if
/// there is none, to the end; so does a failure that nobody looks at. Any other failure ends the
/// run, with the reason that was reported: by aborting, or by an error that tells whether the
/// connection or the media framework is to blame.
pub proof fn law_result_decides(left: Seq<StepView>, result: Result<(), Seq<char>>)
    requires
        left.len() > 0,
    ensures
        result is Ok || left[0].on_failure is Ignore ==> (if left.len() == 1 {
            advanced(left, result) == VerdictView::Complete
        } else {
            advanced(left, result) == VerdictView::Continue(left.subrange(1, left.len() as int))
        }),
        result is Err && left[0].on_failure is Abort ==> advanced(left, result)
            == VerdictView::Abort(result->Err_0),
        result is Err && left[0].on_failure is Return ==> advanced(left, result)
            == VerdictView::Failed(
            match left[0].call {
                CallView::Send { .. } => AppErrorView::WebSocket {
                    kind: IoErrorKind::BrokenPipe,
                    description: "Connection Closed"@,
                },
                CallView::ConnectServer { .. } => AppErrorView::Transport(result->Err_0),
                _ => AppErrorView::Media(result->Err_0),
            },
        ),
{
    assert(left.drop_first() =~= left.subrange(1, left.len() as int));
}

/// A run begins with all of its steps ahead, and without steps it is over at once.
pub proof fn law_run_begins_with_every_step(step: StepView, later: Seq<StepView>)
    ensures
        started(Seq::empty()) == VerdictView::Complete,
        started(seq![step] + later) == VerdictView::Continue(seq![step] + later),
{
}

/// A run of steps that all succeed makes every call, in order, and completes, whatever their
/// failures would have meant.
pub proof fn law_successful_run(steps: Seq<StepView>, results: Seq<Result<(), Seq<char>>>)
    requires
        results.len() == steps.len(),
        forall|i: int| 0 <= i < results.len() ==> #[trigger] results[i] is Ok,
    ensures
        run(started(steps), results) == VerdictView::Complete,
        calls_made(started(steps), results).len() == steps.len(),
        forall|i: int|
            0 <= i < steps.len() ==> #[trigger] calls_made(started(steps), results)[i]
                == steps[i].call,
{
    assert forall|i: int| 0 <= i < steps.len() implies #[trigger] goes_on(steps[i], results[i]) by {
        assert(results[i] is Ok);
    }
    law_run_makes_every_call(steps, results);
}

} // verus!
