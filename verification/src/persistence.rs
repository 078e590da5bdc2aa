//! What to do when reading or writing a stored chunk does not go well.
//!
//! The store itself is the caller's; these are the decisions. A failed
//! read is tried again a few times and then answered by generating the
//! chunk afresh, as a missing or unreadable record is at once. A failed
//! write is tried again a few times and then put off: the chunk is kept
//! and written later.

use vstd::prelude::*;

verus! {

/// How often a read or a write is tried before it is given up.
pub const MAX_ATTEMPTS: u32 = 3;

/// How an attempt to read a chunk's record ended.
#[derive(Debug, Clone, Copy, PartialEq, Eq, Structural)]
pub enum ReadOutcome {
    /// The record was read and holds a chunk.
    Found,
    /// There is no record of the chunk.
    Missing,
    /// The record was read but is no chunk.
    Corrupt,
    /// The store failed.
    Failed,
}

/// What to do after an attempt to read a chunk's record.
#[derive(Debug, Clone, Copy, PartialEq, Eq, Structural)]
pub enum LoadStep {
    /// Take the chunk from the record.
    UseStored,
    /// Read again.
    Retry,
    /// Generate the chunk, and store it.
    Generate,
}

/// What to do after an attempt to write a chunk's record.
#[derive(Debug, Clone, Copy, PartialEq, Eq, Structural)]
pub enum SaveStep {
    /// The record is written.
    Done,
    /// Write again.
    Retry,
    /// Keep the chunk marked as changed and write it with the next save.
    Postpone,
}

/// What to do after the `attempts`-th read of a record ended as
/// `outcome`.
pub open spec fn spec_after_read(outcome: ReadOutcome, attempts: u32) -> LoadStep {
    match outcome {
        ReadOutcome::Found => LoadStep::UseStored,
        ReadOutcome::Missing | ReadOutcome::Corrupt => LoadStep::Generate,
        ReadOutcome::Failed => if attempts < MAX_ATTEMPTS {
            LoadStep::Retry
        } else {
            LoadStep::Generate
        },
    }
}

/// What to do after the `attempts`-th write of a record succeeded or
/// failed.
pub open spec fn spec_after_write(written: bool, attempts: u32) -> SaveStep {
    if written {
        SaveStep::Done
    } else if attempts < MAX_ATTEMPTS {
        SaveStep::Retry
    } else {
        SaveStep::Postpone
    }
}

/// What to do after the `attempts`-th read of a record ended as
/// `outcome`.
pub fn after_read(outcome: ReadOutcome, attempts: u32) -> (step: LoadStep)
    ensures
        step == spec_after_read(outcome, attempts),
{
    match outcome {
        ReadOutcome::Found => LoadStep::UseStored,
        ReadOutcome::Missing | ReadOutcome::Corrupt => LoadStep::Generate,
        ReadOutcome::Failed => {
            if attempts < MAX_ATTEMPTS {
                LoadStep::Retry
            } else {
                LoadStep::Generate
            }
        },
    }
}

/// What to do after the `attempts`-th write of a record succeeded or
/// failed.
pub fn after_write(written: bool, attempts: u32) -> (step: SaveStep)
    ensures
        step == spec_after_write(written, attempts),
{
    if written {
        SaveStep::Done
    } else if attempts < MAX_ATTEMPTS {
        SaveStep::Retry
    } else {
        SaveStep::Postpone
    }
}

/// Reads and writes are tried at most [`MAX_ATTEMPTS`] times: from the
/// last attempt on nothing is tried again, and a chunk whose read keeps
/// failing is generated.
pub proof fn lemma_attempts_are_bounded(outcome: ReadOutcome, written: bool, attempts: u32)
    requires
        attempts >= MAX_ATTEMPTS,
    ensures
        spec_after_read(outcome, attempts) != LoadStep::Retry,
        spec_after_write(written, attempts) != SaveStep::Retry,
        outcome != ReadOutcome::Found ==> spec_after_read(outcome, attempts) == LoadStep::Generate,
{
}

} // verus!
