//! Crash-safe saving of a store: the records go to a temporary file that is
//! then renamed over the store's file, so a reader never sees half a file.
use vstd::prelude::*;

verus! {

pub const BUILD_STORE_FILE_NAME: &'static str = "builds.json";
pub const ALERT_STORE_FILE_NAME: &'static str = "alerts.json";
/// The extension the temporary file takes in place of the store file's.
pub const TEMP_EXTENSION: &'static str = "tmp";

/// The stages of a save, in order.
#[derive(Clone, Copy, Debug, PartialEq, Eq, Structural)]
pub enum SaveStage {
    CreateDirectory,
    Serialize,
    WriteTemp,
    Rename,
}

/// Why a save failed.
#[derive(Clone, Copy, Debug, PartialEq, Eq, Structural)]
pub enum PersistError {
    CreateDirectory,
    Serialize,
    WriteTemp,
    Rename,
}

/// What follows a stage of a save.
#[derive(Clone, Copy, Debug, PartialEq, Eq, Structural)]
pub enum SaveStep {
    /// Run this stage next.
    Next(SaveStage),
    /// Remove the temporary file, then report the error.
    RemoveTempThenFail(PersistError),
    /// Report the error; nothing is left to undo.
    Fail(PersistError),
    /// The store file now holds the records.
    Done,
}

/// Each stage that succeeds leads to the next, and a rename to the end; a
/// failure ends the save with its own error, and a failed rename first removes
/// the temporary file. The store file is only ever replaced by the rename.
pub open spec fn next_save_step(done: SaveStage, ok: bool) -> SaveStep {
    match done {
        SaveStage::CreateDirectory => if ok {
            SaveStep::Next(SaveStage::Serialize)
        } else {
            SaveStep::Fail(PersistError::CreateDirectory)
        },
        SaveStage::Serialize => if ok {
            SaveStep::Next(SaveStage::WriteTemp)
        } else {
            SaveStep::Fail(PersistError::Serialize)
        },
        SaveStage::WriteTemp => if ok {
            SaveStep::Next(SaveStage::Rename)
        } else {
            SaveStep::Fail(PersistError::WriteTemp)
        },
        SaveStage::Rename => if ok {
            SaveStep::Done
        } else {
            SaveStep::RemoveTempThenFail(PersistError::Rename)
        },
    }
}

/// The step after stage `done` ended, successfully or not.
pub fn after_stage(done: SaveStage, ok: bool) -> (r: SaveStep)
    ensures
        r == next_save_step(done, ok),
{
    match done {
        SaveStage::CreateDirectory => if ok {
            SaveStep::Next(SaveStage::Serialize)
        } else {
            SaveStep::Fail(PersistError::CreateDirectory)
        },
        SaveStage::Serialize => if ok {
            SaveStep::Next(SaveStage::WriteTemp)
        } else {
            SaveStep::Fail(PersistError::Serialize)
        },
        SaveStage::WriteTemp => if ok {
            SaveStep::Next(SaveStage::Rename)
        } else {
            SaveStep::Fail(PersistError::WriteTemp)
        },
        SaveStage::Rename => if ok {
            SaveStep::Done
        } else {
            SaveStep::RemoveTempThenFail(PersistError::Rename)
        },
    }
}

} // verus!
