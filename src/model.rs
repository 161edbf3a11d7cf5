//! A model of what a whole downgrade does to a database directory, driven by
//! the controller's own `next`, and the laws that hold of it.

use vstd::prelude::*;

use crate::marker::{decimal_text, is_digits, lemma_marker_round_trip, marker_version};
use crate::migration::{fits, next, version_state_of, ActionView, EventView, Stage, VersionState};
use crate::{CURRENT_COLUMNS, DOWNGRADE_VERSION};

verus! {

/// A database directory as a downgrade affects it: the marker's content
/// (`None` where it is missing or unreadable) and the number of column
/// families that the storage engine holds.
pub struct Disk {
    pub marker: Option<Seq<u8>>,
    pub columns: nat,
}

/// What became of one operation. A failed operation may leave part of its
/// work behind: a failed column removal leaves `columns` column families, a
/// failed marker write leaves `marker` as the marker's content. Reading the
/// marker and opening the engine change nothing either way.
pub enum Outcome {
    Succeeded,
    Failed { columns: nat, marker: Option<Seq<u8>> },
}

/// Performs an action on the directory: the event reported back and the
/// directory afterwards. Dropping a column family from an engine that has
/// none leaves it as it is.
pub open spec fn perform(action: ActionView, disk: Disk, outcome: Outcome) -> (EventView, Disk) {
    let ok = outcome is Succeeded;
    match action {
        ActionView::OpenDatabase(_) => (EventView::DatabaseOpened(ok), disk),
        ActionView::RemoveLastColumn => (
            EventView::ColumnRemoved(ok),
            match outcome {
                Outcome::Succeeded => Disk {
                    columns: if disk.columns > 0 { (disk.columns - 1) as nat } else { 0 },
                    ..disk
                },
                Outcome::Failed { columns, .. } => Disk { columns, ..disk },
            },
        ),
        ActionView::WriteVersion(contents) => (
            EventView::VersionWritten(ok),
            match outcome {
                Outcome::Succeeded => Disk { marker: Some(contents), ..disk },
                Outcome::Failed { marker, .. } => Disk { marker, ..disk },
            },
        ),
        _ => (EventView::VersionRead(disk.marker), disk),
    }
}

/// Drives the controller from `stage`, with `action` pending, until it
/// finishes or the outcomes run out. The `i`-th outcome is that of the
/// `i`-th operation performed. Gives the directory and the last action.
pub open spec fn run_from(stage: Stage, action: ActionView, disk: Disk, outcomes: Seq<Outcome>) -> (
    Disk,
    ActionView,
)
    decreases outcomes.len(),
{
    if stage == Stage::Finished || outcomes.len() == 0 {
        (disk, action)
    } else {
        let (event, after) = perform(action, disk, outcomes[0]);
        let (s, a) = next(stage, event);
        run_from(s, a, after, outcomes.drop_first())
    }
}

/// A whole downgrade of `disk`. A downgrade performs at most four
/// operations, so with four outcomes or more it has finished.
pub open spec fn run(disk: Disk, outcomes: Seq<Outcome>) -> (Disk, ActionView) {
    run_from(Stage::ReadingVersion, ActionView::ReadVersion, disk, outcomes)
}

/// The directory after a downgrade in which every operation succeeded.
pub open spec fn downgraded(disk: Disk) -> Disk {
    Disk {
        marker: Some(decimal_text(DOWNGRADE_VERSION as nat)),
        columns: if disk.columns > 0 { (disk.columns - 1) as nat } else { 0 },
    }
}

/// The version gate: a directory at the downgrade target is left alone with
/// success; one with an unknown or unreadable version is left alone with
/// `UnknownDatabaseVersion`; one at the current version, where every
/// operation succeeds, loses its last column family and gets the target
/// version's marker.
pub proof fn lemma_version_gate(disk: Disk, outcomes: Seq<Outcome>)
    requires
        outcomes.len() >= 4,
    ensures
        version_state_of(disk.marker) == VersionState::UpToDateAtTarget ==> run(disk, outcomes)
            == (disk, ActionView::Succeed),
        version_state_of(disk.marker) == VersionState::Unknown ==> run(disk, outcomes) == (
            disk,
            ActionView::FailUnknownVersion,
        ),
        version_state_of(disk.marker) == VersionState::IncompatibleVersion ==> run(disk, outcomes)
            == (disk, ActionView::FailUnknownVersion),
        version_state_of(disk.marker) == VersionState::RequiresMigration && (forall|i: int|
            0 <= i < 4 ==> #[trigger] outcomes[i] is Succeeded) ==> run(disk, outcomes) == (
            downgraded(disk),
            ActionView::Succeed,
        ),
{
    reveal_with_fuel(run_from, 5);
}

/// After a downgrade that succeeds, the marker reads back as
/// `DOWNGRADE_VERSION`. Where the downgrade wrote it, it holds exactly the
/// target version's decimal digits, with nothing around them.
pub proof fn lemma_success_leaves_target_marker(disk: Disk, outcomes: Seq<Outcome>)
    requires
        run(disk, outcomes).1 == ActionView::Succeed,
    ensures
        run(disk, outcomes).0.marker is Some,
        marker_version(run(disk, outcomes).0.marker->Some_0) == Some(DOWNGRADE_VERSION),
        run(disk, outcomes).0.marker != disk.marker ==> run(disk, outcomes).0.marker == Some(
            decimal_text(DOWNGRADE_VERSION as nat),
        ),
        marker_version(decimal_text(DOWNGRADE_VERSION as nat)) == Some(DOWNGRADE_VERSION),
        is_digits(decimal_text(DOWNGRADE_VERSION as nat)),
{
    reveal_with_fuel(run_from, 5);
    lemma_marker_round_trip(DOWNGRADE_VERSION);
}

/// Running the downgrade again after one that succeeded succeeds too and
/// changes nothing.
pub proof fn lemma_rerun_after_success(disk: Disk, first: Seq<Outcome>, second: Seq<Outcome>)
    requires
        run(disk, first).1 == ActionView::Succeed,
        second.len() >= 1,
    ensures
        run(run(disk, first).0, second) == (run(disk, first).0, ActionView::Succeed),
{
    lemma_success_leaves_target_marker(disk, first);
    lemma_marker_round_trip(DOWNGRADE_VERSION);
    reveal_with_fuel(run_from, 2);
}

/// The marker changes only in a downgrade whose column removal (its third
/// operation) succeeded; where that removal fails, the marker stays as it was.
pub proof fn lemma_marker_follows_removal(disk: Disk, outcomes: Seq<Outcome>)
    ensures
        run(disk, outcomes).0.marker != disk.marker ==> outcomes.len() >= 4 && outcomes[2] is Succeeded,
        outcomes.len() >= 3 && outcomes[2] is Failed ==> run(disk, outcomes).0.marker == disk.marker,
{
    reveal_with_fuel(run_from, 5);
}

/// The controller asks for the marker to be written only on hearing that the
/// column removal succeeded, and then only with the target version's text.
pub proof fn lemma_write_follows_removal(stage: Stage, event: EventView)
    requires
        fits(stage, event),
    ensures
        next(stage, event).1 is WriteVersion ==> stage == Stage::RemovingColumn && event
            == EventView::ColumnRemoved(true) && next(stage, event).1 == ActionView::WriteVersion(
            decimal_text(DOWNGRADE_VERSION as nat),
        ),
{
}

/// Where the marker is at the current version, the controller opens the
/// engine for the current number of column families.
pub proof fn lemma_opens_with_current_columns(marker: Seq<u8>)
    requires
        version_state_of(Some(marker)) == VersionState::RequiresMigration,
    ensures
        next(Stage::ReadingVersion, EventView::VersionRead(Some(marker))) == (
            Stage::OpeningDatabase,
            ActionView::OpenDatabase(CURRENT_COLUMNS),
        ),
{
}

} // verus!
