//! The ways in which bringing a store up to date can fail. Each of them is
//! fatal to startup: none is retried, and none is passed over.

use vstd::prelude::*;

verus! {

/// What is wrong with a set of records that cannot form a catalog.
///
/// The versions 1, 2, .., n are looked for in turn, n being the number of
/// records; the defect names the first of them that is not carried by
/// exactly one record. Such a set of records is a mistake in the build, found
/// before any store is touched.
#[derive(Clone, Copy, Debug, PartialEq, Eq)]
pub enum CatalogDefect {
    /// No record carries this version.
    MissingVersion(i64),
    /// More than one record carries this version.
    DuplicateVersion(i64),
}

/// Why a store could not be brought up to date.
#[derive(Clone, Copy, Debug, PartialEq, Eq)]
pub enum MigrationError {
    /// The marker of the store is no version that this catalog could have
    /// left behind: it is above `max`, the highest version of the catalog (a
    /// newer build has worked on the store), or below zero.
    VersionSkew { marker: i64, max: i64 },
    /// The body of the record with this version failed against the store.
    /// The store is left as it was before that record was tried.
    ApplicationFailed { version: i64 },
}

} // verus!
