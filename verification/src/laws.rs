//! What holds of every startup, whatever the caller reports and in whatever
//! order.

use vstd::prelude::*;
use crate::capability::required_module;
use crate::diagnostic::failure_text;
use crate::startup::in_progress;
use crate::startup::next_action;
use crate::startup::next_stage;
use crate::startup::phase_of;
use crate::startup::ActionView;
use crate::startup::Event;
use crate::startup::Phase;
use crate::startup::Stage;

verus! {

/// The stage reached from `start` once all of `events` were reported in order.
pub open spec fn stage_after(start: Stage, events: Seq<Event>) -> Stage
    decreases events.len(),
{
    if events.len() == 0 {
        start
    } else {
        next_stage(stage_after(start, events.drop_last()), events.last())
    }
}

/// The action that answered the event at position `i`.
pub open spec fn action_at(start: Stage, events: Seq<Event>, i: int) -> ActionView {
    next_action(stage_after(start, events.take(i)), events[i])
}

/// How far along the sequence a stage lies. No event ever moves a startup to a
/// stage of lower rank.
pub open spec fn rank(stage: Stage) -> nat {
    match stage {
        Stage::Idle => 0,
        Stage::BuilderPending => 1,
        Stage::ModulePending => 2,
        Stage::ContextPending => 3,
        Stage::RunLoopPending => 4,
        Stage::Running => 5,
        Stage::Failed => 6,
    }
}

/// The place of an action in the startup sequence. `Nothing` has none.
pub open spec fn place(action: ActionView) -> nat {
    match action {
        ActionView::Nothing => 0,
        ActionView::CreateBuilder => 1,
        ActionView::RegisterModule(_) => 2,
        ActionView::GenerateContext => 3,
        ActionView::EnterRunLoop => 4,
        ActionView::Terminate(_) => 5,
    }
}

/// The moves between phases that a startup may make.
pub open spec fn phase_move_allowed(from: Phase, to: Phase) -> bool {
    ||| from == to
    ||| (from == Phase::Uninitialized && to == Phase::Building)
    ||| (from == Phase::Building && to == Phase::Configured)
    ||| (from == Phase::Configured && to == Phase::Running)
    ||| (from == Phase::Building && to == Phase::FailedStartup)
    ||| (from == Phase::Configured && to == Phase::FailedStartup)
}

/// The module has been registered by the time a startup is at `stage`.
pub open spec fn past_registration(stage: Stage) -> bool {
    stage == Stage::ModulePending || stage == Stage::ContextPending
        || stage == Stage::RunLoopPending || stage == Stage::Running
}

proof fn lemma_prefix_step(start: Stage, events: Seq<Event>, n: int)
    requires
        0 <= n < events.len(),
    ensures
        stage_after(start, events.take(n + 1)) == next_stage(
            stage_after(start, events.take(n)),
            events[n],
        ),
{
    let longer = events.take(n + 1);
    assert(longer.drop_last() =~= events.take(n));
    assert(longer.last() == events[n]);
}

proof fn lemma_rank_grows(start: Stage, events: Seq<Event>, i: int, j: int)
    requires
        0 <= i <= j <= events.len(),
    ensures
        rank(stage_after(start, events.take(i))) <= rank(stage_after(start, events.take(j))),
    decreases j - i,
{
    if i < j {
        lemma_rank_grows(start, events, i, j - 1);
        lemma_prefix_step(start, events, j - 1);
    }
}

proof fn lemma_registered_before(events: Seq<Event>, n: int)
    requires
        0 <= n <= events.len(),
        past_registration(stage_after(Stage::Idle, events.take(n))),
    ensures
        exists|j: int|
            0 <= j < n && #[trigger] action_at(Stage::Idle, events, j)
                == ActionView::RegisterModule(required_module()),
    decreases n,
{
    if n == 0 {
        assert(events.take(0).len() == 0);
    } else {
        lemma_prefix_step(Stage::Idle, events, n - 1);
        let before = stage_after(Stage::Idle, events.take(n - 1));
        if past_registration(before) {
            lemma_registered_before(events, n - 1);
        } else {
            assert(action_at(Stage::Idle, events, n - 1) == ActionView::RegisterModule(
                required_module(),
            ));
        }
    }
}

proof fn lemma_settled(start: Stage, events: Seq<Event>)
    requires
        start == Stage::Running || start == Stage::Failed,
    ensures
        stage_after(start, events) == start,
    decreases events.len(),
{
    if events.len() > 0 {
        lemma_settled(start, events.drop_last());
    }
}

/// Each single step either leaves the phase as it is or makes one of the
/// allowed moves, and never goes back to an earlier stage. An event that
/// leaves the stage as it is is answered with nothing.
pub proof fn phases_advance_in_order(stage: Stage, event: Event)
    ensures
        phase_move_allowed(phase_of(stage), phase_of(next_stage(stage, event))),
        rank(stage) <= rank(next_stage(stage, event)),
        next_stage(stage, event) == stage ==> next_action(stage, event) == ActionView::Nothing,
{
}

/// Whenever the machine asks for the run context or for the run loop, it has
/// asked for the registration of the required module at an earlier position;
/// and the run loop is asked for only after the run context.
pub proof fn registration_comes_first(events: Seq<Event>)
    ensures
        forall|i: int|
            0 <= i < events.len() && (#[trigger] action_at(Stage::Idle, events, i)
                == ActionView::GenerateContext || action_at(Stage::Idle, events, i)
                == ActionView::EnterRunLoop) ==> exists|j: int|
                0 <= j < i && #[trigger] action_at(Stage::Idle, events, j)
                    == ActionView::RegisterModule(required_module()),
        forall|i: int|
            0 <= i < events.len() && #[trigger] action_at(Stage::Idle, events, i)
                == ActionView::EnterRunLoop ==> exists|j: int|
                0 <= j < i && #[trigger] action_at(Stage::Idle, events, j)
                    == ActionView::GenerateContext,
{
    assert forall|i: int|
        0 <= i < events.len() && (#[trigger] action_at(Stage::Idle, events, i)
            == ActionView::GenerateContext || action_at(Stage::Idle, events, i)
            == ActionView::EnterRunLoop) implies exists|j: int|
        0 <= j < i && #[trigger] action_at(Stage::Idle, events, j) == ActionView::RegisterModule(
            required_module(),
        ) by {
        lemma_registered_before(events, i);
    }
    assert forall|i: int|
        0 <= i < events.len() && #[trigger] action_at(Stage::Idle, events, i)
            == ActionView::EnterRunLoop implies exists|j: int|
        0 <= j < i && #[trigger] action_at(Stage::Idle, events, j)
            == ActionView::GenerateContext by {
        lemma_context_before(events, i);
    }
}

proof fn lemma_context_before(events: Seq<Event>, n: int)
    requires
        0 <= n <= events.len(),
        stage_after(Stage::Idle, events.take(n)) == Stage::ContextPending,
    ensures
        exists|j: int|
            0 <= j < n && #[trigger] action_at(Stage::Idle, events, j)
                == ActionView::GenerateContext,
    decreases n,
{
    if n == 0 {
        assert(events.take(0).len() == 0);
    } else {
        lemma_prefix_step(Stage::Idle, events, n - 1);
        let before = stage_after(Stage::Idle, events.take(n - 1));
        if before == Stage::ContextPending {
            lemma_context_before(events, n - 1);
        } else {
            assert(action_at(Stage::Idle, events, n - 1) == ActionView::GenerateContext);
        }
    }
}

/// The actions of a startup come strictly in the order of the sequence:
/// builder, registration, run context, run loop, termination. So none is asked
/// for twice, and nothing is asked for once the process was told to terminate.
pub proof fn actions_follow_the_sequence(events: Seq<Event>)
    ensures
        forall|i: int, j: int|
            0 <= i < j < events.len() && place(#[trigger] action_at(Stage::Idle, events, i)) > 0
                && place(#[trigger] action_at(Stage::Idle, events, j)) > 0 ==> place(
                action_at(Stage::Idle, events, i),
            ) < place(action_at(Stage::Idle, events, j)),
{
    assert forall|i: int, j: int|
        0 <= i < j < events.len() && place(#[trigger] action_at(Stage::Idle, events, i)) > 0
            && place(#[trigger] action_at(Stage::Idle, events, j)) > 0 implies place(
        action_at(Stage::Idle, events, i),
    ) < place(action_at(Stage::Idle, events, j)) by {
        lemma_prefix_step(Stage::Idle, events, i);
        lemma_rank_grows(Stage::Idle, events, i + 1, j);
    }
}

/// Over a whole startup the machine asks for a registration at most once, and
/// only ever for the required module.
pub proof fn registration_is_single(events: Seq<Event>)
    ensures
        forall|i: int, j: int|
            0 <= i < events.len() && 0 <= j < events.len() && (#[trigger] action_at(
                Stage::Idle,
                events,
                i,
            )) is RegisterModule && (#[trigger] action_at(Stage::Idle, events, j))
                is RegisterModule ==> i == j,
        forall|i: int|
            0 <= i < events.len() && (#[trigger] action_at(Stage::Idle, events, i))
                is RegisterModule ==> action_at(Stage::Idle, events, i)
                == ActionView::RegisterModule(required_module()),
{
    assert forall|i: int, j: int|
        0 <= i < events.len() && 0 <= j < events.len() && (#[trigger] action_at(
            Stage::Idle,
            events,
            i,
        )) is RegisterModule && (#[trigger] action_at(Stage::Idle, events, j))
            is RegisterModule implies i == j by {
        if i < j {
            lemma_prefix_step(Stage::Idle, events, i);
            lemma_rank_grows(Stage::Idle, events, i + 1, j);
        } else if j < i {
            lemma_prefix_step(Stage::Idle, events, j);
            lemma_rank_grows(Stage::Idle, events, j + 1, i);
        }
    }
}

/// A startup that got as far as the run context, the run loop or beyond has
/// asked for exactly one registration: there is one, and no second.
pub proof fn one_registration_before_run_loop(events: Seq<Event>)
    requires
        past_registration(stage_after(Stage::Idle, events)),
    ensures
        exists|j: int|
            0 <= j < events.len() && #[trigger] action_at(Stage::Idle, events, j)
                == ActionView::RegisterModule(required_module()),
        forall|i: int, j: int|
            0 <= i < events.len() && 0 <= j < events.len() && (#[trigger] action_at(
                Stage::Idle,
                events,
                i,
            )) is RegisterModule && (#[trigger] action_at(Stage::Idle, events, j))
                is RegisterModule ==> i == j,
{
    assert(events.take(events.len() as int) =~= events);
    lemma_registered_before(events, events.len() as int);
    registration_is_single(events);
}

/// A failure reported while startup is in progress is answered with the order
/// to terminate, carrying the diagnostic made of the fixed prefix and the
/// failure's detail. From then on the startup stays failed and every further
/// event is answered with nothing.
pub proof fn failure_is_fatal(stage: Stage, detail: String, later: Seq<Event>)
    requires
        in_progress(stage),
    ensures
        next_action(stage, Event::StartupFailed(detail)) == ActionView::Terminate(
            failure_text(detail@),
        ),
        next_stage(stage, Event::StartupFailed(detail)) == Stage::Failed,
        stage_after(Stage::Failed, later) == Stage::Failed,
        forall|i: int|
            0 <= i < later.len() ==> #[trigger] action_at(Stage::Failed, later, i)
                == ActionView::Nothing,
{
    lemma_settled(Stage::Failed, later);
    assert forall|i: int| 0 <= i < later.len() implies #[trigger] action_at(
        Stage::Failed,
        later,
        i,
    ) == ActionView::Nothing by {
        lemma_settled(Stage::Failed, later.take(i));
    }
}

/// Once the run loop was entered the startup stays in it: no later event moves
/// it, and none is answered with an action, so nothing orders the process to
/// terminate.
pub proof fn running_is_final(later: Seq<Event>)
    ensures
        next_stage(Stage::RunLoopPending, Event::RunLoopEntered) == Stage::Running,
        next_action(Stage::RunLoopPending, Event::RunLoopEntered) == ActionView::Nothing,
        stage_after(Stage::Running, later) == Stage::Running,
        forall|i: int|
            0 <= i < later.len() ==> #[trigger] action_at(Stage::Running, later, i)
                == ActionView::Nothing,
{
    lemma_settled(Stage::Running, later);
    assert forall|i: int| 0 <= i < later.len() implies #[trigger] action_at(
        Stage::Running,
        later,
        i,
    ) == ActionView::Nothing by {
        lemma_settled(Stage::Running, later.take(i));
    }
}

} // verus!
