//! The migration record: one schema change, as plain data.

use vstd::prelude::*;

verus! {

/// Direction of a schema change.
///
/// A store only ever moves forward, so forward is the one direction there is:
/// a mistake in a shipped change is mended by a later change, never by a
/// reversal.
#[derive(Clone, Copy, Debug, PartialEq, Eq)]
pub enum MigrationKind {
    Up,
}

/// An immutable description of one schema change.
///
/// `version` places the change in the history of the schema, `description`
/// labels it for diagnostics, and `sql` is the body: the statements that make
/// the change. A body is applied to a store at most once, as a whole.
#[derive(Clone, Copy, Debug, PartialEq, Eq)]
pub struct Migration {
    pub version: i64,
    pub description: &'static str,
    pub sql: &'static str,
    pub kind: MigrationKind,
}

} // verus!
