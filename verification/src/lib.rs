//! Forward-only schema migrations for a single local store: the catalog of
//! schema changes, and the rules by which a store is brought up to date.
//!
//! - `record`: one schema change, as plain data.
//! - `catalog`: the changes of a build, validated and put in version order.
//! - `schema`: the changes that have shipped, and the catalog they form.
//! - `engine`: the state machine that decides what a store is due.
//! - `error`: the ways in which startup can fail.
//! - `laws`: what holds of every catalog and of every run.

pub mod catalog;
pub mod engine;
pub mod error;
pub mod laws;
pub mod record;
pub mod schema;

pub use catalog::Catalog;
pub use engine::{Action, Engine, Event, StoreState};
pub use error::{CatalogDefect, MigrationError};
pub use record::{Migration, MigrationKind};
pub use schema::{catalog, migrations};
