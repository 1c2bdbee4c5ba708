//! What holds of every catalog and of every run, proved once for all of
//! them.

use crate::catalog::{
    complete, exactly_once, in_version_order, lemma_records_above_is_suffix, records_above,
};
use crate::engine::{
    action_for, consistent, issued, marker_of, next_state, run, state_at, successes, Action,
    Event, StoreState,
};
use crate::error::MigrationError;
use crate::record::Migration;
use vstd::prelude::*;

verus! {

/// A list in version order begins with version 1, goes up by one from each
/// record to the next, and so ascends strictly.
pub proof fn law_version_order_ascends(list: Seq<Migration>)
    requires
        in_version_order(list),
    ensures
        list.len() > 0 ==> list.first().version == 1,
        list.len() > 0 ==> list.last().version == list.len(),
        forall|i: int, j: int|
            0 <= i && j == i + 1 && j < list.len() ==> list[j].version == list[i].version + 1,
        forall|i: int, j: int| 0 <= i < j < list.len() ==> list[i].version < list[j].version,
        list.len() <= i64::MAX,
{
    if list.len() > 0 {
        assert(list.last().version == list.len());
    }
}

/// A list in version order has neither a gap nor a duplicate.
pub proof fn law_version_order_is_complete(list: Seq<Migration>)
    requires
        in_version_order(list),
    ensures
        complete(list),
{
    assert forall|v: int| 1 <= v <= list.len() implies #[trigger] exactly_once(list, v) by {
        assert(list[v - 1].version == v);
    }
}

/// `later` carries on from `earlier`: it holds every record of `earlier`,
/// unchanged and at its place, and may hold more after them.
pub open spec fn carries_on(later: Seq<Migration>, earlier: Seq<Migration>) -> bool {
    earlier.len() <= later.len() && later.take(earlier.len() as int) == earlier
}

/// Why a shipped record is never edited. A store that an earlier build has
/// brought up to date, and that a later build then brings up to date, has
/// received the records of the later catalog, all of them and in order, as a
/// store that began with the later build has: provided that the later
/// catalog carries on from the earlier one.
pub proof fn law_history_is_the_catalog(earlier: Seq<Migration>, later: Seq<Migration>)
    requires
        in_version_order(earlier),
        in_version_order(later),
        carries_on(later, earlier),
    ensures
        earlier + records_above(later, earlier.len() as int) == later,
{
    lemma_records_above_is_suffix(later, earlier.len() as int);
    assert(later.take(earlier.len() as int) + later.skip(earlier.len() as int) =~= later);
}

/// Whatever is reported, a run stays in a state that fits its catalog.
pub proof fn law_step_keeps_consistency(list: Seq<Migration>, state: StoreState, event: Event)
    requires
        in_version_order(list),
        consistent(list, state),
    ensures
        consistent(list, next_state(list, state, event)),
{
    law_version_order_ascends(list);
}

/// The marker never goes back, and one step takes it one version further at
/// most. A failed application leaves it where it was. It stays within the
/// versions of the catalog, unless the store came with a skewed marker.
pub proof fn law_marker_only_advances(list: Seq<Migration>, state: StoreState, event: Event)
    requires
        in_version_order(list),
        consistent(list, state),
    ensures
        match marker_of(list, state) {
            Some(before) => {
                let after = marker_of(list, next_state(list, state, event));
                after == Some(before) || after == Some(before + 1)
            },
            None => true,
        },
        event is ApplyFailed ==> marker_of(list, next_state(list, state, event)) == marker_of(
            list,
            state,
        ),
        match next_state(list, state, event) {
            StoreState::Uninitialized => true,
            StoreState::Failed(MigrationError::VersionSkew { .. }) => true,
            next => marker_of(list, next) is Some && 0 <= marker_of(list, next)->0 <= list.len(),
        },
{
    law_version_order_ascends(list);
}

/// A run that has ended, well or badly, stays as it is whatever is reported.
pub proof fn law_ended_run_stays(list: Seq<Migration>, state: StoreState, events: Seq<Event>)
    requires
        state is Current || state is Failed,
    ensures
        run(list, state, events) == state,
        forall|i: int|
            0 <= i < events.len() ==> #[trigger] issued(list, state, events)[i] == action_for(
                list,
                state,
            ),
    decreases events.len(),
{
    if events.len() > 0 {
        law_ended_run_stays(list, state, events.drop_last());
    }
    assert forall|i: int| 0 <= i < events.len() implies #[trigger] issued(list, state, events)[i]
        == action_for(list, state) by {
        law_ended_run_stays_prefix(list, state, events.take(i + 1));
    }
}

/// The first half of `law_ended_run_stays`, for its own use.
proof fn law_ended_run_stays_prefix(list: Seq<Migration>, state: StoreState, events: Seq<Event>)
    requires
        state is Current || state is Failed,
    ensures
        run(list, state, events) == state,
    decreases events.len(),
{
    if events.len() > 0 {
        law_ended_run_stays_prefix(list, state, events.drop_last());
    }
}

/// The events of a run against a store whose marker is read as `found` and
/// on which `count` applications then succeed.
pub open spec fn smooth_run(found: Option<i64>, count: nat) -> Seq<Event> {
    seq![Event::MarkerRead(found)] + successes(count)
}

/// The marker that a store is taken to have when it is read as `found`.
pub open spec fn marker_read(found: Option<i64>) -> int {
    match found {
        Some(marker) => marker as int,
        None => 0,
    }
}

/// After the marker was read and `count` applications succeeded, with at
/// least as many records due, the marker stands `count` versions further.
pub proof fn law_smooth_run_advances(list: Seq<Migration>, found: Option<i64>, count: nat)
    requires
        in_version_order(list),
        0 <= marker_read(found),
        marker_read(found) + count <= list.len(),
    ensures
        run(list, StoreState::Uninitialized, smooth_run(found, count)) == state_at(
            list.len() as int,
            marker_read(found) + count,
        ),
    decreases count,
{
    law_version_order_ascends(list);
    let events = smooth_run(found, count);
    if count == 0 {
        assert(events.drop_last() =~= Seq::<Event>::empty());
        assert(run(list, StoreState::Uninitialized, events.drop_last())
            == StoreState::Uninitialized);
    } else {
        let fewer = (count - 1) as nat;
        law_smooth_run_advances(list, found, fewer);
        assert(events.drop_last() =~= smooth_run(found, fewer));
        assert(events.last() == Event::Applied);
    }
}

/// A store that was brought to version `marker` earlier receives, against a
/// catalog of the versions 1 to n, the records `marker + 1` to n and no
/// others, oldest first, and is then current.
pub proof fn law_resumes_after_marker(list: Seq<Migration>, found: Option<i64>)
    requires
        in_version_order(list),
        0 <= marker_read(found) <= list.len(),
    ensures
        ({
            let marker = marker_read(found);
            let events = smooth_run(found, (list.len() - marker) as nat);
            &&& run(list, StoreState::Uninitialized, events) == StoreState::Current
            &&& issued(list, StoreState::Uninitialized, events) == list.skip(marker).map_values(
                |record: Migration| Action::Apply(record),
            ).push(Action::Finish)
            &&& list.skip(marker) == records_above(list, marker)
        }),
{
    law_version_order_ascends(list);
    let marker = marker_read(found);
    let count = (list.len() - marker) as nat;
    let events = smooth_run(found, count);
    law_smooth_run_advances(list, found, count);
    let actions = issued(list, StoreState::Uninitialized, events);
    let expected = list.skip(marker).map_values(|record: Migration| Action::Apply(record)).push(
        Action::Finish,
    );
    assert(actions.len() == expected.len());
    assert forall|i: int| 0 <= i < actions.len() implies actions[i] == expected[i] by {
        law_smooth_run_advances(list, found, i as nat);
        assert(events.take(i + 1) =~= smooth_run(found, i as nat));
    }
    assert(actions =~= expected);
    lemma_records_above_is_suffix(list, marker);
}

/// A store that holds nothing receives every record of the catalog, oldest
/// first, and ends with its marker at the highest version of the catalog.
pub proof fn law_fresh_store_receives_all(list: Seq<Migration>)
    requires
        in_version_order(list),
    ensures
        ({
            let events = smooth_run(None, list.len());
            let end = run(list, StoreState::Uninitialized, events);
            &&& end == StoreState::Current
            &&& marker_of(list, end) == Some(list.len() as int)
            &&& issued(list, StoreState::Uninitialized, events) == list.map_values(
                |record: Migration| Action::Apply(record),
            ).push(Action::Finish)
        }),
{
    law_resumes_after_marker(list, None);
    assert(list.skip(0) =~= list);
}

/// A store whose marker is the highest version of the catalog is current at
/// once: no record is due to it, and none is handed out whatever is reported
/// afterwards.
pub proof fn law_current_store_is_left_alone(list: Seq<Migration>, later: Seq<Event>)
    requires
        in_version_order(list),
    ensures
        ({
            let read = Event::MarkerRead(Some(list.len() as i64));
            let state = next_state(list, StoreState::Uninitialized, read);
            &&& state == StoreState::Current
            &&& action_for(list, state) == Action::Finish
            &&& records_above(list, list.len() as int) == Seq::<Migration>::empty()
            &&& run(list, state, later) == StoreState::Current
            &&& forall|i: int|
                0 <= i < later.len() ==> #[trigger] issued(list, state, later)[i] == Action::Finish
        }),
{
    law_version_order_ascends(list);
    law_ended_run_stays(list, StoreState::Current, later);
    lemma_records_above_is_suffix(list, list.len() as int);
    assert(list.skip(list.len() as int) =~= Seq::<Migration>::empty());
}

/// When the application of a record fails, the run ends in failure and names
/// that record, and the marker is the version of the last record that took
/// effect.
pub proof fn law_failure_keeps_last_version(list: Seq<Migration>, found: Option<i64>, count: nat)
    requires
        in_version_order(list),
        0 <= marker_read(found),
        marker_read(found) + count < list.len(),
    ensures
        ({
            let events = smooth_run(found, count).push(Event::ApplyFailed);
            let end = run(list, StoreState::Uninitialized, events);
            &&& end == StoreState::Failed(
                MigrationError::ApplicationFailed {
                    version: (marker_read(found) + count + 1) as i64,
                },
            )
            &&& marker_of(list, end) == Some(marker_read(found) + count)
        }),
{
    law_version_order_ascends(list);
    law_smooth_run_advances(list, found, count);
    let events = smooth_run(found, count).push(Event::ApplyFailed);
    assert(events.drop_last() =~= smooth_run(found, count));
}

/// A marker that is not among the versions of the catalog, nor zero, ends
/// the run in failure before any record is handed out.
pub proof fn law_skew_is_fatal(list: Seq<Migration>, marker: i64)
    requires
        in_version_order(list),
        marker < 0 || marker > list.len(),
    ensures
        ({
            let skew = MigrationError::VersionSkew { marker, max: list.len() as i64 };
            let end = next_state(list, StoreState::Uninitialized, Event::MarkerRead(Some(marker)));
            &&& end == StoreState::Failed(skew)
            &&& action_for(list, end) == Action::Abort(skew)
        }),
{
}

} // verus!
