use vstd::prelude::*;

use crate::sql::CREATE_TODOS_TABLE;

verus! {

/// The schema version that the newest migration step reaches.
pub const LATEST_VERSION: i64 = 1;

/// A change to the store's schema made by one migration step.
#[derive(Debug, Clone, Copy, PartialEq, Eq, Structural)]
pub enum SchemaChange {
    CreateTodosTable,
}

impl SchemaChange {
    /// The SQL statement that makes this change; each one can be run again
    /// against a store that already has it.
    pub fn statement(&self) -> (r: &'static str)
        ensures
            r@ == match self {
                SchemaChange::CreateTodosTable => CREATE_TODOS_TABLE@,
            },
    {
        match self {
            SchemaChange::CreateTodosTable => CREATE_TODOS_TABLE,
        }
    }
}

/// One migration step: the change it makes and the version it leaves the
/// marker at.
#[derive(Debug, Clone, Copy, PartialEq, Eq, Structural)]
pub struct MigrationStep {
    pub change: SchemaChange,
    pub version: i64,
}

/// The step that applies to a store at `version`, if any. Steps are keyed by
/// the version they start from; a new one is a new arm.
pub open spec fn step_after(version: int) -> Option<MigrationStep> {
    if version == 0 {
        Some(MigrationStep { change: SchemaChange::CreateTodosTable, version: 1 })
    } else {
        None
    }
}

/// The steps that bring a store at `version` to the latest schema, in order.
pub open spec fn pending(version: int) -> Seq<MigrationStep>
    decreases LATEST_VERSION - version,
{
    match step_after(version) {
        Some(step) => seq![step] + pending(step.version as int),
        None => Seq::empty(),
    }
}

/// The version a store at `version` has once every pending step has run.
pub open spec fn migrated_version(version: int) -> int
    decreases LATEST_VERSION - version,
{
    match step_after(version) {
        Some(step) => migrated_version(step.version as int),
        None => version,
    }
}

/// The version recorded by `marker`; a store with no marker row is pristine,
/// at version 0.
pub open spec fn start_version(marker: Option<i64>) -> int {
    match marker {
        Some(v) => v as int,
        None => 0,
    }
}

/// The step that applies to a store at `version`, if any.
pub fn next_step(version: i64) -> (r: Option<MigrationStep>)
    ensures
        r == step_after(version as int),
{
    if version == 0 {
        Some(MigrationStep { change: SchemaChange::CreateTodosTable, version: 1 })
    } else {
        None
    }
}

/// What migrating a store takes, given the marker it holds.
#[derive(Debug)]
pub struct MigrationPlan {
    /// The marker row is missing and is written at version 0 first.
    pub initialize_marker: bool,
    /// The steps to run, in order; after each, the marker is set to its version.
    pub steps: Vec<MigrationStep>,
    /// The marker's version once the plan has run.
    pub final_version: i64,
}

/// Plans the migration of a store whose marker row reads `marker` (`None`
/// when there is no row yet).
pub fn plan_migrations(marker: Option<i64>) -> (r: MigrationPlan)
    ensures
        r.initialize_marker == (marker is None),
        r.steps@ == pending(start_version(marker)),
        r.final_version == migrated_version(start_version(marker)),
        r.final_version >= start_version(marker),
{
    let start: i64 = match marker {
        Some(v) => v,
        None => 0,
    };
    let mut version: i64 = start;
    let mut steps: Vec<MigrationStep> = Vec::new();
    let mut next = next_step(version);
    while next.is_some()
        invariant
            next == step_after(version as int),
            start <= version <= LATEST_VERSION || (version == start && step_after(
                version as int,
            ) is None),
            steps@ + pending(version as int) == pending(start as int),
            migrated_version(version as int) == migrated_version(start as int),
        decreases LATEST_VERSION - version,
    {
        let step = next.unwrap();
        assert(pending(version as int) == seq![step] + pending(step.version as int));
        assert(steps@.push(step) + pending(step.version as int) =~= steps@ + (seq![step]
            + pending(step.version as int)));
        steps.push(step);
        version = step.version;
        next = next_step(version);
    }
    assert(pending(version as int) =~= Seq::<MigrationStep>::empty());
    assert(steps@ + pending(version as int) =~= steps@);
    MigrationPlan { initialize_marker: marker.is_none(), steps, final_version: version }
}

/// Migrating a store that has just been migrated plans no step and leaves
/// its marker where it is.
pub proof fn lemma_migration_is_idempotent(marker: Option<i64>)
    ensures
        pending(migrated_version(start_version(marker))) == Seq::<MigrationStep>::empty(),
        migrated_version(migrated_version(start_version(marker))) == migrated_version(
            start_version(marker),
        ),
{
    let v = start_version(marker);
    if v == 0 {
        assert(migrated_version(0) == migrated_version(1));
        assert(migrated_version(1) == 1);
    }
}

} // verus!
