use vstd::prelude::*;
use crate::error::{guarded, string, within, Cause, EvalError, Phase};
use crate::plan::{plan, planned, views, Options, Step};

verus! {

/// What the engine reports back after performing an action.
#[derive(Debug, PartialEq, Eq)]
pub enum Event {
    /// A step was performed: the pending exception, if the engine has one,
    /// and whether the operation produced its result.
    Settled { exception: Option<String>, produced: bool },
    /// The final value was turned into this text.
    Rendered(String),
}

/// What the engine is asked to do next.
#[derive(Debug, PartialEq, Eq)]
pub enum Action {
    /// Perform this step and report how it settled.
    Perform(Step),
    /// Turn the final value into text and report it.
    Render,
    /// The evaluation is over, with this result.
    Finish(Result<String, EvalError>),
}

/// One evaluation in progress: its steps, how many of them have succeeded,
/// and its result once it has one.
pub struct Evaluation {
    steps: Vec<Step>,
    done: usize,
    verdict: Option<Result<String, EvalError>>,
}

/// The abstract state of an evaluation.
pub struct EvaluationView {
    pub steps: Seq<Step>,
    pub done: nat,
    pub verdict: Option<Result<String, EvalError>>,
}

impl View for Evaluation {
    type V = EvaluationView;

    closed spec fn view(&self) -> EvaluationView {
        EvaluationView { steps: self.steps@, done: self.done as nat, verdict: self.verdict }
    }
}

/// The phase whose pending-exception lookup guards a step; construction steps have
/// none.
pub open spec fn guard_of(s: Step) -> Option<Phase> {
    match s {
        Step::ParseInput => Some(Phase::ParsingInput),
        Step::Compile => Some(Phase::Compiling),
        Step::Run => Some(Phase::Running),
        Step::Stringify => Some(Phase::Stringifying),
        _ => None,
    }
}

/// How a step settles: for a guarded step a pending exception wins, then a
/// missing result is an error; for a construction step only a missing
/// result is.
pub open spec fn settle(s: Step, exception: Option<String>, produced: bool) -> Result<(), EvalError> {
    match guard_of(s) {
        Some(phase) => match exception {
            Some(m) => Err(EvalError::Failed { phase, cause: Cause::Thrown(m) }),
            None => if produced {
                Ok(())
            } else {
                Err(EvalError::Failed { phase, cause: Cause::Empty })
            },
        },
        None => if produced {
            Ok(())
        } else {
            Err(EvalError::Construct)
        },
    }
}

/// The action that a state asks for.
pub open spec fn pending_of(v: EvaluationView) -> Action {
    match v.verdict {
        Some(r) => Action::Finish(r),
        None => if v.done < v.steps.len() {
            Action::Perform(v.steps[v.done as int])
        } else {
            Action::Render
        },
    }
}

/// The state after an event. An event that does not answer the pending
/// action leaves the state as it was; a finished evaluation stays finished.
pub open spec fn next(v: EvaluationView, e: Event) -> EvaluationView {
    if v.verdict is Some {
        v
    } else if v.done < v.steps.len() {
        match e {
            Event::Settled { exception, produced } => match settle(
                v.steps[v.done as int],
                exception,
                produced,
            ) {
                Ok(_) => EvaluationView { steps: v.steps, done: v.done + 1, verdict: None },
                Err(err) => EvaluationView { steps: v.steps, done: v.done, verdict: Some(Err(err)) },
            },
            Event::Rendered(_) => v,
        }
    } else {
        match e {
            Event::Rendered(t) => EvaluationView { steps: v.steps, done: v.done, verdict: Some(Ok(t)) },
            Event::Settled { .. } => v,
        }
    }
}

/// The state after a sequence of events.
pub open spec fn replay(v: EvaluationView, events: Seq<Event>) -> EvaluationView
    decreases events.len(),
{
    if events.len() == 0 {
        v
    } else {
        replay(next(v, events[0]), events.drop_first())
    }
}

fn guard(s: &Step) -> (r: Option<Phase>)
    ensures
        r == guard_of(*s),
{
    match s {
        Step::ParseInput => Some(Phase::ParsingInput),
        Step::Compile => Some(Phase::Compiling),
        Step::Run => Some(Phase::Running),
        Step::Stringify => Some(Phase::Stringifying),
        _ => None,
    }
}

fn settle_step(s: &Step, exception: Option<String>, produced: bool) -> (r: Result<(), EvalError>)
    ensures
        r == settle(*s, exception, produced),
{
    let made: Option<()> = if produced {
        Some(())
    } else {
        None
    };
    match guard(s) {
        Some(phase) => within(phase, guarded(exception, made)),
        None => string(made),
    }
}

impl Evaluation {
    /// Starts an evaluation of `options`: nothing is done yet, and every
    /// step comes from `options` alone.
    pub fn new(options: Options) -> (r: Evaluation)
        ensures
            views(r@.steps) == planned(options),
            r@.done == 0,
            r@.verdict is None,
    {
        Evaluation { steps: plan(&options), done: 0, verdict: None }
    }

    /// The action this evaluation asks for.
    pub fn pending(&self) -> (r: Action)
        ensures
            r == pending_of(self@),
    {
        match &self.verdict {
            Some(Ok(t)) => Action::Finish(Ok(t.clone())),
            Some(Err(e)) => Action::Finish(Err(e.duplicate())),
            None => if self.done < self.steps.len() {
                Action::Perform(self.steps[self.done].duplicate())
            } else {
                Action::Render
            },
        }
    }
}

/// Takes one event of an evaluation and says what to do next: the next
/// step, rendering the result, or the end with its result. Every failure
/// ends the evaluation at once.
pub fn eval(evaluation: &mut Evaluation, event: Event) -> (r: Action)
    ensures
        final(evaluation)@ == next(old(evaluation)@, event),
        r == pending_of(final(evaluation)@),
{
    if evaluation.verdict.is_none() {
        if evaluation.done < evaluation.steps.len() {
            match event {
                Event::Settled { exception, produced } => {
                    match settle_step(&evaluation.steps[evaluation.done], exception, produced) {
                        Ok(()) => {
                            evaluation.done = evaluation.done + 1;
                        },
                        Err(e) => {
                            evaluation.verdict = Some(Err(e));
                        },
                    }
                },
                Event::Rendered(_) => {},
            }
        } else {
            match event {
                Event::Rendered(t) => {
                    evaluation.verdict = Some(Ok(t));
                },
                Event::Settled { .. } => {},
            }
        }
    }
    evaluation.pending()
}

/// Once an evaluation has its result, no later event changes it.
pub proof fn lemma_finished_stays(v: EvaluationView, events: Seq<Event>)
    requires
        v.verdict is Some,
    ensures
        replay(v, events) == v,
    decreases events.len(),
{
    if events.len() > 0 {
        lemma_finished_stays(next(v, events[0]), events.drop_first());
    }
}

/// An input that fails to parse ends the evaluation with a parsing error,
/// and no step after the parse (loading, compiling or running the script)
/// is ever asked for, whatever is reported afterwards.
pub proof fn lemma_failed_parse_stops(
    v: EvaluationView,
    exception: Option<String>,
    produced: bool,
    later: Seq<Event>,
)
    requires
        v.verdict is None,
        v.done < v.steps.len(),
        v.steps[v.done as int] == Step::ParseInput,
        exception is Some || !produced,
    ensures
        ({
            let w = next(v, Event::Settled { exception, produced });
            &&& w.verdict == Some(
                Err::<String, EvalError>(
                    EvalError::Failed {
                        phase: Phase::ParsingInput,
                        cause: match exception {
                            Some(m) => Cause::Thrown(m),
                            None => Cause::Empty,
                        },
                    },
                ),
            )
            &&& w.done == v.done
            &&& replay(w, later) == w
            &&& pending_of(replay(w, later)) is Finish
        }),
{
    lemma_finished_stays(next(v, Event::Settled { exception, produced }), later);
}

/// An exception reported by a guarded step fails the evaluation under that
/// step's phase, whether or not a value came with it: an exception while
/// compiling is tagged as compiling, one while running as running, and the
/// two tags differ.
pub proof fn lemma_exception_tagged(v: EvaluationView, m: String, produced: bool)
    requires
        v.verdict is None,
        v.done < v.steps.len(),
        guard_of(v.steps[v.done as int]) is Some,
    ensures
        ({
            let step = v.steps[v.done as int];
            let w = next(v, Event::Settled { exception: Some(m), produced });
            &&& w.verdict == Some(
                Err::<String, EvalError>(
                    EvalError::Failed { phase: guard_of(step)->0, cause: Cause::Thrown(m) },
                ),
            )
            &&& step == Step::Compile ==> guard_of(step) == Some(Phase::Compiling)
            &&& step == Step::Run ==> guard_of(step) == Some(Phase::Running)
            &&& Phase::Compiling != Phase::Running
        }),
{
}

} // verus!
