//! Running a plan against the storage engine in memory: each statement that
//! the plan asks for is carried out, and the reply is handed back to the plan,
//! until the plan ends.

use crate::plan::{
    advance_spec, outcome_view, step_rank, Answer, AnswerView, CatalogError, Step, StepView,
};
use crate::store::{execute_spec, lemma_execute_keeps_invariant, store_wf, MemoryStore, EngineView};
use vstd::prelude::*;

verus! {

/// What a plan returns when it is run from `step` against `store`, and the
/// state in which it leaves the engine.
pub open spec fn run_spec(step: StepView, store: EngineView) -> (
    Result<AnswerView, CatalogError>,
    EngineView,
)
    decreases step_rank(step),
{
    match step {
        StepView::Finish(outcome) => (outcome, store),
        StepView::Run(statement, task) => run_spec(
            advance_spec(task, execute_spec(store, statement).1),
            execute_spec(store, statement).0,
        ),
    }
}

/// A run keeps the engine's invariant.
pub proof fn lemma_run_keeps_invariant(step: StepView, store: EngineView)
    requires
        store_wf(store),
    ensures
        store_wf(run_spec(step, store).1),
    decreases step_rank(step),
{
    match step {
        StepView::Finish(_) => {},
        StepView::Run(statement, task) => {
            lemma_execute_keeps_invariant(store, statement);
            lemma_run_keeps_invariant(
                advance_spec(task, execute_spec(store, statement).1),
                execute_spec(store, statement).0,
            );
        },
    }
}

/// Runs a plan from `step` to its end.
pub fn run(step: Step, store: &mut MemoryStore) -> (outcome: Result<Answer, CatalogError>)
    requires
        store_wf(old(store).deep_view()),
    ensures
        store_wf(final(store).deep_view()),
        (outcome_view(outcome), final(store).deep_view()) == run_spec(
            step.deep_view(),
            old(store).deep_view(),
        ),
{
    let ghost goal = run_spec(step.deep_view(), old(store).deep_view());
    let mut current = step;
    let mut outcome: Result<Answer, CatalogError> = Err(CatalogError::Integrity);
    loop
        invariant_except_break
            store_wf(store.deep_view()),
            run_spec(current.deep_view(), store.deep_view()) == goal,
        ensures
            store_wf(store.deep_view()),
            goal == (outcome_view(outcome), store.deep_view()),
        decreases step_rank(current.deep_view()),
    {
        match current {
            Step::Finish(last) => {
                assert(current.deep_view() == StepView::Finish(outcome_view(last)));
                outcome = last;
                break ;
            },
            Step::Run(statement, task) => {
                let reply = store.execute(&statement);
                current = task.advance(reply);
            },
        }
    }
    outcome
}

} // verus!
