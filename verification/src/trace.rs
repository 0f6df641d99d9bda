//! Whole runs of the state machine: what a sequence of events leads to, and
//! what holds of every run.

use crate::error::ErrorView;
use crate::orchestrator::{
    begin, changes_anything, is_final, lemma_step_moves_forward, progress, step, step_spec,
    touches_network, Action, ActionView, Event, EventView, FailureView, Stage, State, StateView,
};
use crate::probe::{clean_of, succeeded, CommandOutputView};
use vstd::prelude::*;

verus! {

/// A run so far: the state it is in, and every action that it has asked for,
/// the first of which is to load the configuration.
pub struct Trace {
    pub state: StateView,
    pub actions: Seq<ActionView>,
}

/// The run that the given events make, from the start.
pub open spec fn run_spec(events: Seq<EventView>) -> Trace
    decreases events.len(),
{
    if events.len() == 0 {
        Trace { state: StateView::Start, actions: seq![ActionView::LoadConfiguration] }
    } else {
        let before = run_spec(events.drop_last());
        let next = step_spec(before.state, events.last());
        Trace { state: next.state, actions: before.actions.push(next.action) }
    }
}

/// Whether a run started with a configuration.
pub open spec fn configured(events: Seq<EventView>) -> bool {
    &&& events.len() >= 1
    &&& events[0] matches EventView::Configured { api_key: Some(_), .. }
}

/// Whether a run started with a configuration and then found the working tree
/// clean.
pub open spec fn found_clean(events: Seq<EventView>) -> bool {
    &&& configured(events)
    &&& events.len() >= 2
    &&& events[1] matches EventView::Exited(output)
    &&& clean_of(output) is Ok
}

/// What holds of every run, whatever is reported to it.
spec fn well_formed(events: Seq<EventView>) -> bool {
    let trace = run_spec(events);
    let actions = trace.actions;
    &&& actions.len() == events.len() + 1
    &&& forall|k: int|
        0 <= k < actions.len() && (touches_network(#[trigger] actions[k]) || changes_anything(
            actions[k],
        )) ==> found_clean(events)
    &&& forall|i: int, j: int|
        0 <= i < actions.len() && 0 <= j < actions.len() && #[trigger] actions[i] is Publish
            && #[trigger] actions[j] is Publish ==> i == j
    &&& match trace.state {
        StateView::Start => events.len() == 0,
        StateView::Running { step, .. } => {
            &&& configured(events)
            &&& step is VerifyClean ==> events.len() == 1
            &&& !(step is VerifyClean) ==> found_clean(events)
            &&& step is Publish ==> actions.last() is Publish
            &&& !(step is Publish) ==> forall|k: int|
                0 <= k < actions.len() ==> !(#[trigger] actions[k] is Publish)
        },
        StateView::Done => {
            &&& found_clean(events)
            &&& exists|k: int| 0 <= k < actions.len() && #[trigger] actions[k] is Publish
        },
        StateView::Failed(failure) => {
            &&& events.len() >= 1
            &&& failure.error is Configuration ==> failure.stage == Stage::Start
            &&& failure.error is UserVisibleAbort ==> failure.stage == Stage::VerifyClean
            &&& failure.stage == Stage::Start ==> !configured(events)
            &&& failure.stage == Stage::VerifyClean ==> events.len() >= 2 && !found_clean(events)
        },
    }
}

/// Every run is well formed.
proof fn lemma_well_formed(events: Seq<EventView>)
    ensures
        well_formed(events),
    decreases events.len(),
{
    if events.len() > 0 {
        let earlier = events.drop_last();
        lemma_well_formed(earlier);
        let before = run_spec(earlier);
        let actions = run_spec(events).actions;
        if run_spec(events).state is Done {
            // The request to publish that an earlier step asked for is still
            // among the actions.
            let k = if before.state is Done {
                choose|k: int|
                    0 <= k < before.actions.len() && #[trigger] before.actions[k] is Publish
            } else {
                before.actions.len() - 1
            };
            assert(actions[k] is Publish);
        }
    }
}

/// Whether an action collects the changes of the branch.
pub open spec fn collects_changes(action: ActionView) -> bool {
    action is QueryDiff || action is QueryCommits
}

/// What holds of the pushes of every run.
spec fn pushes_in_order(events: Seq<EventView>) -> bool {
    let trace = run_spec(events);
    let actions = trace.actions;
    &&& forall|i: int, j: int|
        0 <= i < actions.len() && 0 <= j < actions.len() && #[trigger] actions[i] is Push
            && #[trigger] actions[j] is Push ==> i == j
    &&& forall|i: int, j: int|
        0 <= i < actions.len() && 0 <= j < actions.len() && #[trigger] actions[i] is Push
            && collects_changes(#[trigger] actions[j]) ==> i < j
    &&& progress(trace.state) <= 3 ==> forall|k: int|
        0 <= k < actions.len() ==> !(#[trigger] actions[k] is Push) && !collects_changes(
            actions[k],
        )
    &&& progress(trace.state) == 4 ==> forall|k: int|
        0 <= k < actions.len() ==> !collects_changes(#[trigger] actions[k])
}

/// Every run has its pushes in order.
proof fn lemma_pushes_in_order(events: Seq<EventView>)
    ensures
        pushes_in_order(events),
    decreases events.len(),
{
    if events.len() > 0 {
        lemma_pushes_in_order(events.drop_last());
    }
}

/// A run pushes the branch at most once, and before it collects any of the
/// changes.
pub proof fn lemma_push_comes_once_and_first(events: Seq<EventView>)
    ensures
        forall|i: int, j: int|
            0 <= i < run_spec(events).actions.len() && 0 <= j < run_spec(events).actions.len()
                && #[trigger] run_spec(events).actions[i] is Push
                && #[trigger] run_spec(events).actions[j] is Push ==> i == j,
        forall|i: int, j: int|
            0 <= i < run_spec(events).actions.len() && 0 <= j < run_spec(events).actions.len()
                && #[trigger] run_spec(events).actions[i] is Push && collects_changes(
                #[trigger] run_spec(events).actions[j],
            ) ==> i < j,
{
    lemma_pushes_in_order(events);
}

/// Every run ends: after ten events at the latest it is done or has failed.
pub proof fn lemma_run_ends(events: Seq<EventView>)
    ensures
        events.len() >= 10 ==> is_final(run_spec(events).state),
        progress(run_spec(events).state) >= events.len() || is_final(run_spec(events).state),
    decreases events.len(),
{
    if events.len() > 0 {
        lemma_run_ends(events.drop_last());
        lemma_step_moves_forward(run_spec(events.drop_last()).state, events.last());
    }
}

/// A run that finds changes listed in the working tree ends in the stage that
/// verifies the tree, and asks for nothing that reaches out over the network
/// or changes anything. Where the status query itself succeeded, the run is
/// aborted for the uncommitted changes, and from then on asks only for the
/// exit with status 1.
pub proof fn lemma_dirty_tree_stops_the_run(events: Seq<EventView>, listing: CommandOutputView)
    requires
        configured(events),
        events.len() >= 2,
        events[1] == EventView::Exited(listing),
        listing.stdout.len() > 0,
    ensures
        run_spec(events).state matches StateView::Failed(failure) && failure.stage
            == Stage::VerifyClean,
        succeeded(listing) ==> run_spec(events).state == StateView::Failed(
            FailureView { stage: Stage::VerifyClean, error: ErrorView::UserVisibleAbort },
        ),
        forall|k: int|
            0 <= k < run_spec(events).actions.len() ==> !touches_network(
                #[trigger] run_spec(events).actions[k],
            ) && !changes_anything(run_spec(events).actions[k]),
        succeeded(listing) ==> forall|k: int|
            2 <= k < run_spec(events).actions.len() ==> #[trigger] run_spec(events).actions[k]
                == (ActionView::Exit { code: 1 }),
    decreases events.len(),
{
    lemma_well_formed(events);
    let earlier = events.drop_last();
    if events.len() == 2 {
        assert(run_spec(earlier.drop_last()).state == StateView::Start);
    } else {
        lemma_dirty_tree_stops_the_run(earlier, listing);
    }
}

/// Nothing that reaches out over the network or changes anything is asked for
/// unless the run started with a configuration and found the working tree
/// clean. So a run that fails for a missing credential or is aborted for
/// uncommitted changes has asked for nothing of the kind.
pub proof fn lemma_clean_tree_comes_first(events: Seq<EventView>, k: int)
    requires
        0 <= k < run_spec(events).actions.len(),
        touches_network(run_spec(events).actions[k]) || changes_anything(
            run_spec(events).actions[k],
        ),
    ensures
        found_clean(events),
        run_spec(events).state matches StateView::Failed(failure) ==> !(failure.error
            is Configuration) && !(failure.error is UserVisibleAbort),
{
    lemma_well_formed(events);
}

/// A run asks at most once for a pull request to be published, and a run that
/// is done has asked for it exactly once.
pub proof fn lemma_one_pull_request_per_run(events: Seq<EventView>)
    ensures
        forall|i: int, j: int|
            0 <= i < run_spec(events).actions.len() && 0 <= j < run_spec(events).actions.len()
                && #[trigger] run_spec(events).actions[i] is Publish
                && #[trigger] run_spec(events).actions[j] is Publish ==> i == j,
        run_spec(events).state is Done ==> exists|k: int|
            0 <= k < run_spec(events).actions.len() && #[trigger] run_spec(events).actions[k]
                is Publish,
{
    lemma_well_formed(events);
}

/// The views of a list of events, in order.
pub open spec fn event_views(events: Seq<Event>) -> Seq<EventView> {
    events.map_values(|event: Event| event@)
}

/// The views of a list of actions, in order.
pub open spec fn action_views(actions: Seq<Action>) -> Seq<ActionView> {
    actions.map_values(|action: Action| action@)
}

/// Runs the machine from the start over events that are known beforehand, and
/// returns the state it reaches with every action it asked for on the way.
pub fn replay(events: Vec<Event>) -> (r: (State, Vec<Action>))
    ensures
        r.0@ == run_spec(event_views(events@)).state,
        action_views(r.1@) == run_spec(event_views(events@)).actions,
{
    let ghost all = event_views(events@);
    let (first_state, first_action) = begin();
    let mut state = first_state;
    let mut actions: Vec<Action> = Vec::new();
    actions.push(first_action);
    for event in it: events
        invariant
            it.seq() == events@,
            all == event_views(events@),
            state@ == run_spec(all.take(it.index() as int)).state,
            action_views(actions@) == run_spec(all.take(it.index() as int)).actions,
    {
        assert(all.take(it.index() + 1).drop_last() =~= all.take(it.index() as int));
        let (next, action) = step(state, event);
        state = next;
        actions.push(action);
    }
    assert(all.take(all.len() as int) =~= all);
    (state, actions)
}

} // verus!
