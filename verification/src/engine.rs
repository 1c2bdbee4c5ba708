//! The rules by which a store is brought up to date, as a state machine.
//!
//! The machine decides and never touches a store. Whoever owns the store asks
//! for the action that is due, performs it, and reports what came of it as an
//! event; the machine answers with the next action. One run reads the marker
//! of the store once and then applies, one by one and oldest first, the
//! records above it.

use crate::catalog::{in_version_order, Catalog};
use crate::error::MigrationError;
use crate::record::Migration;
use vstd::prelude::*;

verus! {

/// Where a store stands against a catalog.
#[derive(Clone, Copy, Debug, PartialEq, Eq)]
pub enum StoreState {
    /// The marker of the store has not been read yet.
    Uninitialized,
    /// The marker is this version, which is below the highest version of the
    /// catalog: the record that follows it is due.
    PartiallyMigrated(i64),
    /// The marker is the highest version of the catalog: nothing is due.
    Current,
    /// The run has failed, and the store must not be used.
    Failed(MigrationError),
}

/// What came of the action that was due.
#[derive(Clone, Copy, Debug, PartialEq, Eq)]
pub enum Event {
    /// The marker was read: the highest version that the store has received,
    /// or nothing where the store holds no marker yet.
    MarkerRead(Option<i64>),
    /// The body of the record took effect and the marker now is its version.
    Applied,
    /// The body of the record failed, and nothing of it took effect.
    ApplyFailed,
}

/// What is due.
#[derive(Clone, Copy, Debug, PartialEq, Eq)]
pub enum Action {
    /// Read the marker of the store.
    ReadMarker,
    /// Apply the body of this record and set the marker to its version, both
    /// or neither.
    Apply(Migration),
    /// The store is up to date and may be used.
    Finish,
    /// Give up: startup cannot go on.
    Abort(MigrationError),
}

/// The state of a store whose marker is `marker`, against a catalog whose
/// highest version is `max`.
pub open spec fn state_at(max: int, marker: int) -> StoreState {
    if marker < 0 || marker > max {
        StoreState::Failed(MigrationError::VersionSkew { marker: marker as i64, max: max as i64 })
    } else if marker == max {
        StoreState::Current
    } else {
        StoreState::PartiallyMigrated(marker as i64)
    }
}

/// The state that follows `state` when `event` is reported.
///
/// An event that does not answer the action due in `state` changes nothing;
/// so `Current` and `Failed` are never left.
pub open spec fn next_state(list: Seq<Migration>, state: StoreState, event: Event) -> StoreState {
    match (state, event) {
        (StoreState::Uninitialized, Event::MarkerRead(Some(marker))) => state_at(
            list.len() as int,
            marker as int,
        ),
        (StoreState::Uninitialized, Event::MarkerRead(None)) => state_at(list.len() as int, 0),
        (StoreState::PartiallyMigrated(marker), Event::Applied) => state_at(
            list.len() as int,
            marker + 1,
        ),
        (StoreState::PartiallyMigrated(marker), Event::ApplyFailed) => StoreState::Failed(
            MigrationError::ApplicationFailed { version: (marker + 1) as i64 },
        ),
        _ => state,
    }
}

/// The action that is due in `state`.
pub open spec fn action_for(list: Seq<Migration>, state: StoreState) -> Action {
    match state {
        StoreState::Uninitialized => Action::ReadMarker,
        StoreState::PartiallyMigrated(marker) => Action::Apply(list[marker as int]),
        StoreState::Current => Action::Finish,
        StoreState::Failed(error) => Action::Abort(error),
    }
}

/// The marker of the store as far as `state` tells it: nothing before it was
/// read, and after a failure the marker that the failure left in the store.
pub open spec fn marker_of(list: Seq<Migration>, state: StoreState) -> Option<int> {
    match state {
        StoreState::Uninitialized => None,
        StoreState::PartiallyMigrated(marker) => Some(marker as int),
        StoreState::Current => Some(list.len() as int),
        StoreState::Failed(MigrationError::ApplicationFailed { version }) => Some(version - 1),
        StoreState::Failed(MigrationError::VersionSkew { marker, .. }) => Some(marker as int),
    }
}

/// `state` is a state that a run against the catalog `list` can be in.
pub open spec fn consistent(list: Seq<Migration>, state: StoreState) -> bool {
    match state {
        StoreState::Uninitialized => true,
        StoreState::PartiallyMigrated(marker) => 0 <= marker < list.len(),
        StoreState::Current => true,
        StoreState::Failed(MigrationError::ApplicationFailed { version }) => 1 <= version
            <= list.len(),
        StoreState::Failed(MigrationError::VersionSkew { marker, max }) => max == list.len() && (
        marker < 0 || marker > max),
    }
}

/// The state that a run reaches from `state` when `events` are reported one
/// after the other.
pub open spec fn run(list: Seq<Migration>, state: StoreState, events: Seq<Event>) -> StoreState
    decreases events.len(),
{
    if events.len() == 0 {
        state
    } else {
        next_state(list, run(list, state, events.drop_last()), events.last())
    }
}

/// The actions that a run hands out from `state` in answer to `events`: the
/// action at place `i` is the one that is due once the events up to and with
/// the one at place `i` have been reported.
pub open spec fn issued(list: Seq<Migration>, state: StoreState, events: Seq<Event>) -> Seq<
    Action,
> {
    Seq::new(events.len(), |i: int| action_for(list, run(list, state, events.take(i + 1))))
}

/// `count` reports of success in a row.
pub open spec fn successes(count: nat) -> Seq<Event> {
    Seq::new(count, |i: int| Event::Applied)
}

/// One run of the state machine against one catalog.
pub struct Engine {
    catalog: Catalog,
    state: StoreState,
}

impl View for Engine {
    type V = StoreState;

    /// The state that the run is in.
    closed spec fn view(&self) -> StoreState {
        self.state
    }
}

impl Engine {
    #[verifier::type_invariant]
    spec fn sound(self) -> bool {
        consistent(self.catalog@, self.state)
    }

    /// The records of the catalog that the run goes by.
    pub closed spec fn records(&self) -> Seq<Migration> {
        self.catalog@
    }

    /// A run against `catalog` that has not begun.
    pub fn new(catalog: Catalog) -> (engine: Engine)
        ensures
            engine.records() == catalog@,
            engine@ == StoreState::Uninitialized,
    {
        Engine { catalog, state: StoreState::Uninitialized }
    }

    /// The state that the run is in.
    pub fn state(&self) -> (state: StoreState)
        ensures
            state == self@,
            consistent(self.records(), state),
            in_version_order(self.records()),
    {
        proof {
            use_type_invariant(self);
            use_type_invariant(&self.catalog);
        }
        self.state
    }

    /// Whether the store may be used: only once the run has found or made it
    /// current. Until then, and after a failure, nothing may query it.
    pub fn ready(&self) -> (ready: bool)
        ensures
            ready <==> self@ is Current,
    {
        match self.state {
            StoreState::Current => true,
            _ => false,
        }
    }

    /// The marker of the store, as far as the run knows it.
    pub fn marker(&self) -> (marker: Option<i64>)
        ensures
            marker_of(self.records(), self@) == match marker {
                Some(m) => Some(m as int),
                None => None,
            },
    {
        proof {
            use_type_invariant(self);
        }
        match self.state {
            StoreState::Uninitialized => None,
            StoreState::PartiallyMigrated(marker) => Some(marker),
            StoreState::Current => Some(self.catalog.max_version()),
            StoreState::Failed(MigrationError::ApplicationFailed { version }) => Some(version - 1),
            StoreState::Failed(MigrationError::VersionSkew { marker, .. }) => Some(marker),
        }
    }

    /// The action that is due.
    pub fn action(&self) -> (action: Action)
        ensures
            action == action_for(self.records(), self@),
    {
        proof {
            use_type_invariant(self);
            use_type_invariant(&self.catalog);
        }
        match self.state {
            StoreState::Uninitialized => Action::ReadMarker,
            StoreState::PartiallyMigrated(marker) => Action::Apply(
                self.catalog.get(marker + 1).unwrap(),
            ),
            StoreState::Current => Action::Finish,
            StoreState::Failed(error) => Action::Abort(error),
        }
    }

    /// Takes in what came of the action that was due, and hands out the
    /// action that is due next.
    pub fn step(&mut self, event: Event) -> (action: Action)
        ensures
            final(self).records() == old(self).records(),
            final(self)@ == next_state(old(self).records(), old(self)@, event),
            action == action_for(final(self).records(), final(self)@),
    {
        proof {
            use_type_invariant(&*self);
        }
        let max: i64 = self.catalog.max_version();
        match (self.state, event) {
            (StoreState::Uninitialized, Event::MarkerRead(found)) => {
                let marker: i64 = match found {
                    Some(marker) => marker,
                    None => 0,
                };
                self.state = Self::classify(marker, max);
            },
            (StoreState::PartiallyMigrated(marker), Event::Applied) => {
                self.state = Self::classify(marker + 1, max);
            },
            (StoreState::PartiallyMigrated(marker), Event::ApplyFailed) => {
                self.state = StoreState::Failed(
                    MigrationError::ApplicationFailed { version: marker + 1 },
                );
            },
            _ => {},
        }
        self.action()
    }

    /// The state of a store with this marker, against a catalog whose highest
    /// version is `max`.
    fn classify(marker: i64, max: i64) -> (state: StoreState)
        ensures
            state == state_at(max as int, marker as int),
    {
        if marker < 0 || marker > max {
            StoreState::Failed(MigrationError::VersionSkew { marker, max })
        } else if marker == max {
            StoreState::Current
        } else {
            StoreState::PartiallyMigrated(marker)
        }
    }
}

} // verus!
