//! Runs of the render task: what it answers to a whole sequence of outcomes.

use vstd::prelude::*;
use crate::decimal::{decimal, lemma_decimal_is_decimal_text};
use crate::frame::{ratio_of, tens_of};
use crate::render::{
    spec_step, Action, Outcome, RenderTask, State, Step, TaskView, TEXT_X, TEXT_Y,
};
use crate::text::{CapacityError, TEXT_CAPACITY};

verus! {

/// The task after it was told `outcomes`, one after the other, from `v`.
pub open spec fn run(v: TaskView, outcomes: Seq<Outcome>) -> TaskView
    decreases outcomes.len(),
{
    if outcomes.len() == 0 {
        v
    } else {
        spec_step(run(v, outcomes.drop_last()), outcomes.last()).0
    }
}

/// The answer of the task to outcome number `k` of `outcomes`, from `v`.
pub open spec fn response(v: TaskView, outcomes: Seq<Outcome>, k: int) -> Result<
    Action,
    CapacityError,
> {
    spec_step(run(v, outcomes.take(k)), outcomes[k]).1
}

impl RenderTask {
    /// Tells the task `outcomes`, one after the other, and returns its
    /// answers in the same order.
    pub fn replay(&mut self, outcomes: &[Outcome]) -> (answers: Vec<Result<Action, CapacityError>>)
        requires
            old(self).wf(),
        ensures
            final(self).wf(),
            final(self)@ == run(old(self)@, outcomes@),
            answers@.len() == outcomes@.len(),
            forall|k: int|
                0 <= k < outcomes@.len() ==> #[trigger] answers@[k] == response(
                    old(self)@,
                    outcomes@,
                    k,
                ),
    {
        let mut answers: Vec<Result<Action, CapacityError>> = Vec::new();
        let mut i: usize = 0;
        while i < outcomes.len()
            invariant
                i <= outcomes@.len(),
                self.wf(),
                self@ == run(old(self)@, outcomes@.take(i as int)),
                answers@.len() == i,
                forall|k: int|
                    0 <= k < i ==> #[trigger] answers@[k] == response(old(self)@, outcomes@, k),
            decreases outcomes@.len() - i,
        {
            proof {
                assert(outcomes@.take(i + 1).drop_last() =~= outcomes@.take(i as int));
            }
            let answer = self.step(outcomes[i]);
            answers.push(answer);
            i = i + 1;
        }
        assert(outcomes@.take(i as int) =~= outcomes@);
        answers
    }
}

/// No outcome before number `k` is a failure.
pub open spec fn none_failed_before(outcomes: Seq<Outcome>, k: int) -> bool {
    forall|j: int| 0 <= j < k && j < outcomes.len() ==> #[trigger] outcomes[j] == Outcome::Completed
}

/// A step keeps the task well formed.
pub proof fn lemma_step_keeps_wf(v: TaskView, outcome: Outcome)
    requires
        v.wf(),
    ensures
        spec_step(v, outcome).0.wf(),
{
    lemma_decimal_is_decimal_text(tens_of(v.index));
}

/// Every run of a well-formed task ends in a well-formed task.
pub proof fn lemma_run_keeps_wf(v: TaskView, outcomes: Seq<Outcome>)
    requires
        v.wf(),
    ensures
        run(v, outcomes).wf(),
    decreases outcomes.len(),
{
    if outcomes.len() > 0 {
        lemma_run_keeps_wf(v, outcomes.drop_last());
        lemma_step_keeps_wf(run(v, outcomes.drop_last()), outcomes.last());
    }
}

/// The counter moves, by one, exactly when a flush completes, and never in a
/// task that has ended. The bar never changes.
pub proof fn lemma_counter_moves_on_flush(v: TaskView, outcome: Outcome)
    ensures
        spec_step(v, outcome).0.bar == v.bar,
        v.state == State::Rendering(Step::Flush) && outcome == Outcome::Completed ==> spec_step(
            v,
            outcome,
        ).0.index == v.index + 1,
        !(v.state == State::Rendering(Step::Flush) && outcome == Outcome::Completed) ==> spec_step(
            v,
            outcome,
        ).0.index == v.index,
{
}

/// A failure in a task that has not ended trips the watchdog and ends the
/// task, whatever it was waiting for, and leaves the counter alone.
pub proof fn lemma_failure_trips_watchdog(v: TaskView)
    requires
        !v.faulted(),
    ensures
        spec_step(v, Outcome::Failed).1 == Ok::<Action, CapacityError>(Action::TriggerAndHalt),
        spec_step(v, Outcome::Failed).0.faulted(),
        spec_step(v, Outcome::Failed).0.index == v.index,
{
}

/// The watchdog is tripped only by a failure in a task that has not ended.
pub proof fn lemma_trigger_needs_failure(v: TaskView, outcome: Outcome)
    ensures
        spec_step(v, outcome).1 == Ok::<Action, CapacityError>(Action::TriggerAndHalt) <==> !v.faulted()
            && outcome == Outcome::Failed,
        spec_step(v, outcome).0.faulted() <==> v.faulted() || outcome == Outcome::Failed,
{
}

/// A task that has ended stays as it is and asks for nothing, whatever it is
/// told.
pub proof fn lemma_ended_task_rests(v: TaskView, outcomes: Seq<Outcome>)
    requires
        v.faulted(),
    ensures
        run(v, outcomes) == v,
        forall|k: int|
            0 <= k < outcomes.len() ==> #[trigger] response(v, outcomes, k) == Ok::<
                Action,
                CapacityError,
            >(Action::Halt),
    decreases outcomes.len(),
{
    if outcomes.len() > 0 {
        lemma_ended_task_rests(v, outcomes.drop_last());
    }
    assert forall|k: int| 0 <= k < outcomes.len() implies #[trigger] response(v, outcomes, k) == Ok::<
        Action,
        CapacityError,
    >(Action::Halt) by {
        lemma_ended_task_rests(v, outcomes.take(k));
    }
}

/// While nothing fails the task does not end.
pub proof fn lemma_no_failure_no_fault(v: TaskView, outcomes: Seq<Outcome>)
    requires
        !v.faulted(),
        none_failed_before(outcomes, outcomes.len() as int),
    ensures
        !run(v, outcomes).faulted(),
    decreases outcomes.len(),
{
    if outcomes.len() > 0 {
        lemma_no_failure_no_fault(v, outcomes.drop_last());
    }
}

/// A run is the run of its first `k` outcomes followed by the rest.
pub proof fn lemma_run_split(v: TaskView, outcomes: Seq<Outcome>, k: int)
    requires
        0 <= k <= outcomes.len(),
    ensures
        run(v, outcomes) == run(run(v, outcomes.take(k)), outcomes.skip(k)),
    decreases outcomes.len(),
{
    if k == outcomes.len() {
        assert(outcomes.take(k) =~= outcomes);
    } else {
        lemma_run_split(v, outcomes.drop_last(), k);
        assert(outcomes.drop_last().take(k) =~= outcomes.take(k));
        assert(outcomes.drop_last().skip(k) =~= outcomes.skip(k).drop_last());
    }
}

/// The first failure of a run is its end.
///
/// Let outcome number `k` be the first failure that a task which has not
/// ended is told. Then the answer to it is the one request of the whole run
/// to trip the watchdog, every later answer asks for nothing, the task has
/// ended, and the counter stands where it stood when the failure came.
pub proof fn lemma_first_failure_is_final(v: TaskView, outcomes: Seq<Outcome>, k: int)
    requires
        !v.faulted(),
        0 <= k < outcomes.len(),
        outcomes[k] == Outcome::Failed,
        none_failed_before(outcomes, k),
    ensures
        response(v, outcomes, k) == Ok::<Action, CapacityError>(Action::TriggerAndHalt),
        forall|j: int|
            0 <= j < outcomes.len() && j != k ==> #[trigger] response(v, outcomes, j) != Ok::<
                Action,
                CapacityError,
            >(Action::TriggerAndHalt),
        forall|j: int|
            k < j < outcomes.len() ==> #[trigger] response(v, outcomes, j) == Ok::<
                Action,
                CapacityError,
            >(Action::Halt),
        run(v, outcomes).faulted(),
        run(v, outcomes).index == run(v, outcomes.take(k)).index,
{
    let before = run(v, outcomes.take(k));
    lemma_no_failure_no_fault(v, outcomes.take(k));
    let after = spec_step(before, Outcome::Failed).0;
    assert(outcomes.take(k + 1).drop_last() =~= outcomes.take(k));
    lemma_run_split(v, outcomes, k + 1);
    lemma_ended_task_rests(after, outcomes.skip(k + 1));
    assert forall|j: int| 0 <= j < outcomes.len() && j != k implies #[trigger] response(
        v,
        outcomes,
        j,
    ) != Ok::<Action, CapacityError>(Action::TriggerAndHalt) by {
        if j < k {
            lemma_no_failure_no_fault(v, outcomes.take(j));
            lemma_trigger_needs_failure(run(v, outcomes.take(j)), outcomes[j]);
        } else {
            lemma_run_split(v, outcomes.take(j), k + 1);
            assert(outcomes.take(j).take(k + 1) =~= outcomes.take(k + 1));
            lemma_ended_task_rests(after, outcomes.take(j).skip(k + 1));
        }
    }
    assert forall|j: int| k < j < outcomes.len() implies #[trigger] response(v, outcomes, j) == Ok::<
        Action,
        CapacityError,
    >(Action::Halt) by {
        lemma_run_split(v, outcomes.take(j), k + 1);
        assert(outcomes.take(j).take(k + 1) =~= outcomes.take(k + 1));
        lemma_ended_task_rests(after, outcomes.take(j).skip(k + 1));
    }
}

/// A frame in which nothing fails: from between two frames, six completed
/// actions are answered with the five operations of the frame in their
/// order and the wait for the next frame, the text shows the number of
/// completed sweeps, the fill shows the progress of the frame, and the
/// counter is one further.
pub proof fn lemma_frame_in_order(v: TaskView)
    requires
        v.wf(),
        v.state == State::Idle,
        decimal(tens_of(v.index)).len() <= TEXT_CAPACITY,
    ensures
        ({
            let done = Outcome::Completed;
            let v1 = spec_step(v, done);
            let v2 = spec_step(v1.0, done);
            let v3 = spec_step(v2.0, done);
            let v4 = spec_step(v3.0, done);
            let v5 = spec_step(v4.0, done);
            let v6 = spec_step(v5.0, done);
            &&& v1.1 == Ok::<Action, CapacityError>(Action::Clear)
            &&& v2.1 == Ok::<Action, CapacityError>(Action::DrawText { x: TEXT_X, y: TEXT_Y })
            &&& v2.0.text == decimal(tens_of(v.index))
            &&& v3.1 == Ok::<Action, CapacityError>(Action::DrawShape(v.bar.outline()))
            &&& v4.1 == Ok::<Action, CapacityError>(Action::DrawShape(v.bar.fill(ratio_of(v.index))))
            &&& v5.1 == Ok::<Action, CapacityError>(Action::Flush)
            &&& v6.1 == Ok::<Action, CapacityError>(Action::AwaitReady)
            &&& v6.0 == (TaskView { index: v.index + 1, ..v })
        }),
{
    assert(v.text =~= Seq::empty());
}

} // verus!
