use crate::leader::{
    add_step, control_step, lifecycle_holds, message_step, remove_step, reply_for, update_step,
    CompositionView, Control, ControlEvent, LeaderStepView, PendingChangeView,
};
use crate::router::RouterState;
use crate::messages::{
    adding_action, removing_action, updating_action, FollowerRequest, LeaderReply,
};
use crate::registry::{distinct_keys, has_key, has_name, is_first_named, is_place_of_key, EntryView};
use crate::watcher::{
    after_fetch, FetchView, IntrospectDialect, NoticeView, StepView, WatcherView, WatcherWait,
};
use vstd::prelude::*;

verus! {

/// Every request leaves the registry without a key held twice.
pub proof fn steps_keep_keys_distinct(registry: Seq<EntryView>, message: FollowerRequest)
    requires
        distinct_keys(registry),
    ensures
        distinct_keys(message_step(registry, message).0),
{
    match message {
        FollowerRequest::AddSubgraph { subgraph_entry } => {
            add_keeps_keys_distinct(registry, subgraph_entry);
        },
        FollowerRequest::UpdateSubgraph { subgraph_entry } => {
            if has_key(registry, subgraph_entry.0) {
                let at = choose|at: int| is_place_of_key(registry, subgraph_entry.0, at);
                let after = registry.update(at, subgraph_entry);
                assert forall|i: int, j: int| 0 <= i < j < after.len() implies after[i].0
                    != after[j].0 by {
                    assert(registry[i].0 != registry[j].0);
                }
            } else {
                add_keeps_keys_distinct(registry, subgraph_entry);
            }
        },
        FollowerRequest::RemoveSubgraph { subgraph_name } => {
            if has_name(registry, subgraph_name) {
                let at = choose|at: int| is_first_named(registry, subgraph_name, at);
                let after = registry.remove(at);
                assert forall|i: int, j: int| 0 <= i < j < after.len() implies after[i].0
                    != after[j].0 by {
                    let oi = if i < at { i } else { i + 1 };
                    let oj = if j < at { j } else { j + 1 };
                    assert(registry[oi].0 != registry[oj].0);
                }
            }
        },
        _ => {},
    }
}

/// An add leaves the registry without a key held twice.
pub proof fn add_keeps_keys_distinct(registry: Seq<EntryView>, entry: EntryView)
    requires
        distinct_keys(registry),
    ensures
        distinct_keys(add_step(registry, entry).0),
{
    if !has_key(registry, entry.0) {
        let after = registry.push(entry);
        assert forall|i: int, j: int| 0 <= i < j < after.len() implies after[i].0 != after[j].0 by {
            if j == registry.len() {
                assert(!is_place_of_key(registry, entry.0, i));
            } else {
                assert(registry[i].0 != registry[j].0);
            }
        }
    }
}

/// An update applied twice in a row: the second one finds the SDL in
/// place, leaves the registry as the first one made it and is acknowledged
/// without a recomposition. So the pair announces at most one new schema.
pub proof fn update_twice_is_idempotent(registry: Seq<EntryView>, entry: EntryView)
    requires
        distinct_keys(registry),
    ensures
        update_step(update_step(registry, entry).0, entry) == (
            update_step(registry, entry).0,
            LeaderStepView::Reply(LeaderReply::MessageReceived),
        ),
{
    let first = update_step(registry, entry).0;
    steps_keep_keys_distinct(registry, FollowerRequest::UpdateSubgraph { subgraph_entry: entry });
    if has_key(registry, entry.0) {
        let at = choose|at: int| is_place_of_key(registry, entry.0, at);
        if registry[at].1 != entry.1 {
            assert(first == registry.update(at, entry));
            assert(is_place_of_key(first, entry.0, at));
            let again = choose|again: int| is_place_of_key(first, entry.0, again);
            assert(again == at);
        }
    } else {
        let at = registry.len() as int;
        assert(first == registry.push(entry));
        assert(is_place_of_key(first, entry.0, at));
        let again = choose|again: int| is_place_of_key(first, entry.0, again);
        assert(again == at);
    }
}

/// Adding an entry to an empty registry and removing its name again leaves
/// the registry empty. Neither request is refused; the add is never
/// answered with a composition success, whatever the composer says, so the
/// two replies hold at most one; and where the composer reports no error,
/// neither reply is an error.
pub proof fn add_then_remove_round_trip(
    entry: EntryView,
    add_outcome: CompositionView,
    remove_outcome: CompositionView,
)
    ensures
        ({
            let added = add_step(Seq::<EntryView>::empty(), entry);
            let removed = remove_step(added.0, entry.0.0);
            let add_pending = PendingChangeView::Add { name: entry.0.0, first: true };
            let remove_pending = PendingChangeView::Remove { name: entry.0.0 };
            &&& added.1 == LeaderStepView::Compose(add_pending)
            &&& removed.1 == LeaderStepView::Compose(remove_pending)
            &&& removed.0 == Seq::<EntryView>::empty()
            &&& !(reply_for(add_pending, add_outcome) is CompositionSuccess)
            &&& add_outcome is Ok ==> !(reply_for(add_pending, add_outcome) is ErrorNotification)
            &&& remove_outcome is Ok ==> !(reply_for(remove_pending, remove_outcome)
                is ErrorNotification)
        }),
{
    let empty = Seq::<EntryView>::empty();
    assert forall|at: int| !is_place_of_key(empty, entry.0, at) by {}
    let added = empty.push(entry);
    assert(is_first_named(added, entry.0.0, 0));
    let at = choose|at: int| is_first_named(added, entry.0.0, at);
    assert(at == 0);
    assert(added.remove(0) =~= empty);
}

/// The add of the very first subgraph is never answered with a composition
/// success, whatever the composer says.
pub proof fn first_add_is_not_announced(
    registry: Seq<EntryView>,
    entry: EntryView,
    outcome: CompositionView,
)
    requires
        registry.len() == 0,
    ensures
        add_step(registry, entry).1 == LeaderStepView::Compose(
            PendingChangeView::Add { name: entry.0.0, first: true },
        ),
        !(reply_for(PendingChangeView::Add { name: entry.0.0, first: true }, outcome)
            is CompositionSuccess),
{
    assert forall|at: int| !is_place_of_key(registry, entry.0, at) by {}
}

/// Every change but the add of the very first subgraph is answered with a
/// composition success that names it, as soon as the composer brings a new
/// schema; and only an add to an empty registry counts as the first.
pub proof fn later_new_schema_is_announced(
    registry: Seq<EntryView>,
    message: FollowerRequest,
    pending: PendingChangeView,
    schema: Seq<char>,
)
    requires
        message_step(registry, message).1 == LeaderStepView::Compose(pending),
        registry.len() > 0,
    ensures
        reply_for(pending, Ok(Some(schema))) == (LeaderReply::CompositionSuccess {
            action: match pending {
                PendingChangeView::Add { name, .. } => adding_action(name),
                PendingChangeView::Update { name } => updating_action(name),
                PendingChangeView::Remove { name } => removing_action(name),
            },
        }),
{
}

/// Whatever happens to a leader, a router process is alive exactly when
/// the last composition that brought a new schema or an error succeeded
/// and no shutdown was asked for. A spawn is only reported for a runtime
/// that is installed, and before any shutdown.
pub proof fn lifecycle_is_kept(control: Control, event: ControlEvent)
    requires
        lifecycle_holds(control),
        event is RouterSpawned ==> control.router != RouterState::Uninstalled
            && !control.shutting_down,
    ensures
        lifecycle_holds(control_step(control, event)),
{
}

/// A shutdown leaves no router process alive, and nothing that happens
/// after it brings one back.
pub proof fn no_router_after_shutdown(control: Control, later: ControlEvent)
    requires
        lifecycle_holds(control),
        !(later is RouterSpawned),
    ensures
        control_step(control, ControlEvent::Shutdown).router != RouterState::Running,
        control_step(control_step(control, ControlEvent::Shutdown), later).router
            != RouterState::Running,
        control_step(control_step(control, ControlEvent::Shutdown), later).shutting_down,
{
}

/// The state of a watcher after a run of fetches that all failed.
pub open spec fn after_failures(watcher: WatcherView, errors: Seq<Seq<char>>) -> WatcherView
    decreases errors.len(),
{
    if errors.len() == 0 {
        watcher
    } else {
        after_fetch(after_failures(watcher, errors.drop_last()), Err(errors.last())).0
    }
}

/// Failures within the retries that are left only count down: the watcher
/// goes on, keeps the last SDL, and has sent nothing.
pub proof fn failures_within_budget_count_down(watcher: WatcherView, errors: Seq<Seq<char>>)
    requires
        !watcher.stopped,
        !(watcher.kind is Once),
        errors.len() <= watcher.countdown,
    ensures
        after_failures(watcher, errors) == (WatcherView {
            countdown: (watcher.countdown - errors.len()) as u64,
            ..watcher
        }),
        errors.len() > 0 ==> after_fetch(
            after_failures(watcher, errors.drop_last()),
            Err(errors.last()),
        ).1.message.is_none(),
    decreases errors.len(),
{
    if errors.len() > 0 {
        failures_within_budget_count_down(watcher, errors.drop_last());
    }
}

/// One failure more than the retries that are left detaches the subgraph:
/// that fetch, and none before it, sends the remove request, and the
/// watcher stops.
pub proof fn failure_beyond_budget_removes(watcher: WatcherView, errors: Seq<Seq<char>>)
    requires
        !watcher.stopped,
        !(watcher.kind is Once),
        errors.len() == watcher.countdown + 1,
    ensures
        after_fetch(after_failures(watcher, errors.drop_last()), Err(errors.last())) == (
            WatcherView { countdown: 0, stopped: true, ..watcher },
            StepView {
                message: Some(FollowerRequest::RemoveSubgraph { subgraph_name: watcher.key.0 }),
                notice: Some(NoticeView::RetriesExhausted),
                wait: WatcherWait::Stop,
            },
        ),
{
    failures_within_budget_count_down(watcher, errors.drop_last());
}

/// Any fetch that succeeds before the watcher stopped sets the countdown
/// back to the budget, so that from there exactly one failure more than the
/// budget detaches the subgraph.
pub proof fn success_resets_countdown(
    watcher: WatcherView,
    sdl: Seq<char>,
    answered: IntrospectDialect,
    errors: Seq<Seq<char>>,
)
    requires
        !watcher.stopped,
        !(watcher.kind is Once),
        errors.len() == watcher.retries + 1,
    ensures
        after_fetch(watcher, Ok((sdl, answered))).0.countdown == watcher.retries,
        ({
            let reset = after_fetch(watcher, Ok((sdl, answered))).0;
            let last = after_fetch(after_failures(reset, errors.drop_last()), Err(errors.last()));
            &&& last.0.stopped
            &&& last.1.message == Some(
                FollowerRequest::RemoveSubgraph { subgraph_name: watcher.key.0 },
            )
        }),
{
    let reset = after_fetch(watcher, Ok((sdl, answered))).0;
    failure_beyond_budget_removes(reset, errors);
}

/// A watcher that has stopped stays as it is and sends nothing, whatever a
/// later fetch brings.
pub proof fn stopped_watcher_stays_stopped(watcher: WatcherView, fetched: FetchView)
    requires
        watcher.stopped,
    ensures
        after_fetch(watcher, fetched) == (
            watcher,
            StepView { message: None, notice: None, wait: WatcherWait::Stop },
        ),
{
}

} // verus!
