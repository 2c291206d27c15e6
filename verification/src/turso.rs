//! The Turso engine's variant of the store: its errors and its one-version
//! schema step.
use vstd::prelude::*;

verus! {

/// A Turso error as the rules see it: a busy database, or any other failure
/// with the engine's text.
pub enum TursoError {
    Busy(String),
    Other(String),
}

pub fn is_busy(error: &TursoError) -> (r: bool)
    ensures
        r == (error is Busy),
{
    match error {
        TursoError::Busy(_) => true,
        TursoError::Other(_) => false,
    }
}

/// What the migration does at a given `PRAGMA user_version`.
#[derive(Debug, PartialEq, Eq)]
pub enum SchemaStep {
    /// Version 0: apply the first migration and set the version to 1.
    ApplyFirstMigration,
    /// Version 1: nothing to do.
    UpToDate,
    /// Any other version is refused.
    Unsupported,
}

pub fn schema_step(version: i64) -> (r: SchemaStep)
    ensures
        version == 0 ==> r == SchemaStep::ApplyFirstMigration,
        version == 1 ==> r == SchemaStep::UpToDate,
        version != 0 && version != 1 ==> r == SchemaStep::Unsupported,
{
    if version == 0 {
        SchemaStep::ApplyFirstMigration
    } else if version == 1 {
        SchemaStep::UpToDate
    } else {
        SchemaStep::Unsupported
    }
}

} // verus!
