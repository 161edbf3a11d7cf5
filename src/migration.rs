//! The migration controller: a state machine that decides, from what the
//! caller reports, which storage or file operation comes next.
//!
//! The caller starts with the action of `start`, performs it, reports its
//! result to `step` as an `Event`, and repeats with the action that comes back
//! until that action is `Action::Finish`.

use vstd::prelude::*;

use crate::error::Error;
use crate::marker::{current_version, decimal_text, marker_version, version_text};
use crate::{CURRENT_COLUMNS, CURRENT_VERSION, DOWNGRADE_VERSION};

verus! {

/// Where a downgrade stands: which result it waits for next.
#[derive(Clone, Copy, Debug, PartialEq, Eq, Structural)]
pub enum Stage {
    ReadingVersion,
    OpeningDatabase,
    RemovingColumn,
    WritingVersion,
    Finished,
}

/// What the version marker says about a database directory.
#[derive(Clone, Copy, Debug, PartialEq, Eq, Structural)]
pub enum VersionState {
    /// The marker is missing, unreadable or not a number.
    Unknown,
    /// The marker already holds `DOWNGRADE_VERSION`: nothing is to be done.
    UpToDateAtTarget,
    /// The marker holds `CURRENT_VERSION`: the downgrade goes ahead.
    RequiresMigration,
    /// The marker holds some other version, which this tool does not handle.
    IncompatibleVersion,
}

/// The operation that the caller performs next.
#[derive(Debug)]
pub enum Action {
    /// Read the version marker file.
    ReadVersion,
    /// Open the storage engine in the database's storage subdirectory,
    /// configured for `columns` column families.
    OpenDatabase { columns: u32 },
    /// Have the opened storage engine drop its last column family.
    RemoveLastColumn,
    /// Create the database directory and its missing parents, then create or
    /// truncate the version marker file and write `contents` to it.
    WriteVersion { contents: Vec<u8> },
    /// Stop, releasing the storage engine, with this result.
    Finish(Result<(), Error>),
}

/// The result of the operation that the last action asked for.
#[derive(Debug)]
pub enum Event {
    /// The marker's content, or `None` where it is missing or unreadable.
    VersionRead(Option<Vec<u8>>),
    DatabaseOpened(Result<(), std::io::Error>),
    ColumnRemoved(Result<(), std::io::Error>),
    VersionWritten(Result<(), std::io::Error>),
}

/// An action as the contracts see it.
pub enum ActionView {
    ReadVersion,
    OpenDatabase(u32),
    RemoveLastColumn,
    WriteVersion(Seq<u8>),
    Succeed,
    FailUnknownVersion,
    FailIo,
}

/// An event as the contracts see it: each result only as success or failure.
pub enum EventView {
    VersionRead(Option<Seq<u8>>),
    DatabaseOpened(bool),
    ColumnRemoved(bool),
    VersionWritten(bool),
}

impl View for Action {
    type V = ActionView;

    open spec fn view(&self) -> ActionView {
        match self {
            Action::ReadVersion => ActionView::ReadVersion,
            Action::OpenDatabase { columns } => ActionView::OpenDatabase(*columns),
            Action::RemoveLastColumn => ActionView::RemoveLastColumn,
            Action::WriteVersion { contents } => ActionView::WriteVersion(contents@),
            Action::Finish(Ok(())) => ActionView::Succeed,
            Action::Finish(Err(Error::UnknownDatabaseVersion)) => ActionView::FailUnknownVersion,
            Action::Finish(Err(Error::Io(_))) => ActionView::FailIo,
        }
    }
}

impl View for Event {
    type V = EventView;

    open spec fn view(&self) -> EventView {
        match self {
            Event::VersionRead(m) => EventView::VersionRead(
                match m {
                    Some(c) => Some(c@),
                    None => None,
                },
            ),
            Event::DatabaseOpened(r) => EventView::DatabaseOpened(r is Ok),
            Event::ColumnRemoved(r) => EventView::ColumnRemoved(r is Ok),
            Event::VersionWritten(r) => EventView::VersionWritten(r is Ok),
        }
    }
}

/// How the marker's content, if it could be read, is classified.
pub open spec fn version_state_of(marker: Option<Seq<u8>>) -> VersionState {
    match marker {
        None => VersionState::Unknown,
        Some(s) => match marker_version(s) {
            None => VersionState::Unknown,
            Some(v) => if v == DOWNGRADE_VERSION {
                VersionState::UpToDateAtTarget
            } else if v == CURRENT_VERSION {
                VersionState::RequiresMigration
            } else {
                VersionState::IncompatibleVersion
            },
        },
    }
}

/// Whether a stage waits for this kind of event.
pub open spec fn fits(stage: Stage, event: EventView) -> bool {
    match event {
        EventView::VersionRead(_) => stage == Stage::ReadingVersion,
        EventView::DatabaseOpened(_) => stage == Stage::OpeningDatabase,
        EventView::ColumnRemoved(_) => stage == Stage::RemovingColumn,
        EventView::VersionWritten(_) => stage == Stage::WritingVersion,
    }
}

/// The stage and action that follow an event. Each operation runs only after
/// the previous one succeeded; the first failure ends the downgrade. The
/// marker is written last, after the column family is gone.
pub open spec fn next(stage: Stage, event: EventView) -> (Stage, ActionView) {
    match event {
        EventView::VersionRead(m) => match version_state_of(m) {
            VersionState::UpToDateAtTarget => (Stage::Finished, ActionView::Succeed),
            VersionState::RequiresMigration => (
                Stage::OpeningDatabase,
                ActionView::OpenDatabase(CURRENT_COLUMNS),
            ),
            _ => (Stage::Finished, ActionView::FailUnknownVersion),
        },
        EventView::DatabaseOpened(ok) => if ok {
            (Stage::RemovingColumn, ActionView::RemoveLastColumn)
        } else {
            (Stage::Finished, ActionView::FailIo)
        },
        EventView::ColumnRemoved(ok) => if ok {
            (Stage::WritingVersion, ActionView::WriteVersion(decimal_text(DOWNGRADE_VERSION as nat)))
        } else {
            (Stage::Finished, ActionView::FailIo)
        },
        EventView::VersionWritten(ok) => if ok {
            (Stage::Finished, ActionView::Succeed)
        } else {
            (Stage::Finished, ActionView::FailIo)
        },
    }
}

/// Classifies the content of a version marker, or `None` where the marker is
/// missing or unreadable.
pub fn version_state(marker: Option<&[u8]>) -> (r: VersionState)
    ensures
        r == version_state_of(
            match marker {
                Some(c) => Some(c@),
                None => None,
            },
        ),
{
    match current_version(marker) {
        Err(_) => VersionState::Unknown,
        Ok(v) => if v == DOWNGRADE_VERSION {
            VersionState::UpToDateAtTarget
        } else if v == CURRENT_VERSION {
            VersionState::RequiresMigration
        } else {
            VersionState::IncompatibleVersion
        },
    }
}

/// The first stage and action of a downgrade: read the version marker.
pub fn start() -> (r: (Stage, Action))
    ensures
        r.0 == Stage::ReadingVersion,
        r.1@ == ActionView::ReadVersion,
{
    (Stage::ReadingVersion, Action::ReadVersion)
}

/// Whether `stage` waits for `event`: only such an event can be handed to `step`.
pub fn accepts(stage: Stage, event: &Event) -> (r: bool)
    ensures
        r == fits(stage, event@),
{
    match event {
        Event::VersionRead(_) => stage == Stage::ReadingVersion,
        Event::DatabaseOpened(_) => stage == Stage::OpeningDatabase,
        Event::ColumnRemoved(_) => stage == Stage::RemovingColumn,
        Event::VersionWritten(_) => stage == Stage::WritingVersion,
    }
}

/// Takes the result of the last operation and gives the next stage and
/// action. A failed operation's error is handed on unchanged in the
/// finishing action.
pub fn step(stage: Stage, event: Event) -> (r: (Stage, Action))
    requires
        fits(stage, event@),
    ensures
        (r.0, r.1@) == next(stage, event@),
        match event {
            Event::DatabaseOpened(Err(e)) => r.1 == Action::Finish(Err(Error::Io(e))),
            Event::ColumnRemoved(Err(e)) => r.1 == Action::Finish(Err(Error::Io(e))),
            Event::VersionWritten(Err(e)) => r.1 == Action::Finish(Err(Error::Io(e))),
            _ => true,
        },
{
    match event {
        Event::VersionRead(marker) => {
            let state = match &marker {
                Some(c) => version_state(Some(c.as_slice())),
                None => version_state(None),
            };
            match state {
                VersionState::UpToDateAtTarget => (Stage::Finished, Action::Finish(Ok(()))),
                VersionState::RequiresMigration => (
                    Stage::OpeningDatabase,
                    Action::OpenDatabase { columns: CURRENT_COLUMNS },
                ),
                _ => (Stage::Finished, Action::Finish(Err(Error::UnknownDatabaseVersion))),
            }
        },
        Event::DatabaseOpened(Ok(())) => (Stage::RemovingColumn, Action::RemoveLastColumn),
        Event::ColumnRemoved(Ok(())) => (
            Stage::WritingVersion,
            Action::WriteVersion { contents: version_text(DOWNGRADE_VERSION) },
        ),
        Event::VersionWritten(Ok(())) => (Stage::Finished, Action::Finish(Ok(()))),
        Event::DatabaseOpened(Err(e)) => (Stage::Finished, Action::Finish(Err(Error::Io(e)))),
        Event::ColumnRemoved(Err(e)) => (Stage::Finished, Action::Finish(Err(Error::Io(e)))),
        Event::VersionWritten(Err(e)) => (Stage::Finished, Action::Finish(Err(Error::Io(e)))),
    }
}

} // verus!
