//! Writing the collection back: the new content is staged beside the backing
//! file and takes its place only once it is written whole, so that a failure
//! on the way leaves the old content as it was.

use crate::account::StoreError;
use vstd::prelude::*;

verus! {

/// Where a save stands.
#[derive(Debug, Clone, Copy, PartialEq, Eq, Structural)]
pub enum SaveState {
    /// The staged file is being written.
    Writing,
    /// The staged file is being flushed to the disk.
    Syncing,
    /// The staged file is being put in the place of the backing file.
    Replacing,
    /// The staged file is being removed after a failure.
    Discarding,
    /// The backing file holds the new content; the save is over.
    Saved,
    /// The backing file holds the old content; the save is over.
    Failed,
}

/// What the caller does next.
#[derive(Debug, Clone, Copy, PartialEq, Eq, Structural)]
pub enum SaveAction {
    /// Write the whole collection to the staged file.
    WriteStaged,
    /// Flush the staged file to the disk.
    SyncStaged,
    /// Put the staged file in the place of the backing file, in one move.
    ReplaceBacking,
    /// Remove the staged file.
    DiscardStaged,
    /// Stop: the state holds the outcome.
    Finish,
}

/// The state that follows `state` when the action that was asked for
/// succeeded or failed.
pub open spec fn next_save_state(state: SaveState, succeeded: bool) -> SaveState {
    match state {
        SaveState::Writing => if succeeded {
            SaveState::Syncing
        } else {
            SaveState::Discarding
        },
        SaveState::Syncing => if succeeded {
            SaveState::Replacing
        } else {
            SaveState::Discarding
        },
        SaveState::Replacing => if succeeded {
            SaveState::Saved
        } else {
            SaveState::Discarding
        },
        SaveState::Discarding => SaveState::Failed,
        SaveState::Saved => SaveState::Saved,
        SaveState::Failed => SaveState::Failed,
    }
}

/// The action that is asked for in `state`.
pub open spec fn action_in(state: SaveState) -> SaveAction {
    match state {
        SaveState::Writing => SaveAction::WriteStaged,
        SaveState::Syncing => SaveAction::SyncStaged,
        SaveState::Replacing => SaveAction::ReplaceBacking,
        SaveState::Discarding => SaveAction::DiscardStaged,
        SaveState::Saved => SaveAction::Finish,
        SaveState::Failed => SaveAction::Finish,
    }
}

/// The state after the actions asked for from `state` on came out as
/// `outcomes` tells, one after another.
pub open spec fn save_run(state: SaveState, outcomes: Seq<bool>) -> SaveState
    decreases outcomes.len(),
{
    if outcomes.len() == 0 {
        state
    } else {
        next_save_state(save_run(state, outcomes.drop_last()), outcomes.last())
    }
}

/// The state and the first action of a save.
pub fn begin_save() -> (r: (SaveState, SaveAction))
    ensures
        r.0 == SaveState::Writing,
        r.1 == action_in(r.0),
{
    (SaveState::Writing, SaveAction::WriteStaged)
}

/// The action that is asked for in `state`.
pub fn save_action(state: SaveState) -> (r: SaveAction)
    ensures
        r == action_in(state),
{
    match state {
        SaveState::Writing => SaveAction::WriteStaged,
        SaveState::Syncing => SaveAction::SyncStaged,
        SaveState::Replacing => SaveAction::ReplaceBacking,
        SaveState::Discarding => SaveAction::DiscardStaged,
        SaveState::Saved => SaveAction::Finish,
        SaveState::Failed => SaveAction::Finish,
    }
}

/// One move of a save: from a state and whether the action asked for in it
/// succeeded to the next state and the action asked for there.
pub fn save_step(state: SaveState, succeeded: bool) -> (r: (SaveState, SaveAction))
    ensures
        r.0 == next_save_state(state, succeeded),
        r.1 == action_in(r.0),
{
    let next = match state {
        SaveState::Writing => if succeeded {
            SaveState::Syncing
        } else {
            SaveState::Discarding
        },
        SaveState::Syncing => if succeeded {
            SaveState::Replacing
        } else {
            SaveState::Discarding
        },
        SaveState::Replacing => if succeeded {
            SaveState::Saved
        } else {
            SaveState::Discarding
        },
        SaveState::Discarding => SaveState::Failed,
        SaveState::Saved => SaveState::Saved,
        SaveState::Failed => SaveState::Failed,
    };
    (next, save_action(next))
}

/// What a save that is over came to; `None` while it is under way.
pub fn save_result(state: SaveState) -> (r: Option<Result<(), StoreError>>)
    ensures
        state == SaveState::Saved ==> r == Some(Ok::<(), StoreError>(())),
        state == SaveState::Failed ==> r == Some(Err::<(), StoreError>(StoreError::IoFailure)),
        state != SaveState::Saved && state != SaveState::Failed ==> r is None,
{
    match state {
        SaveState::Saved => Some(Ok(())),
        SaveState::Failed => Some(Err(StoreError::IoFailure)),
        _ => None,
    }
}

/// The backing file is replaced only after the staged file was written and
/// flushed with success: a save asks for the replacement after exactly two
/// actions, both of which succeeded, and at no other time.
pub proof fn replaces_only_what_is_whole(outcomes: Seq<bool>)
    ensures
        action_in(save_run(SaveState::Writing, outcomes)) == SaveAction::ReplaceBacking <==> (
        outcomes.len() == 2 && outcomes[0] && outcomes[1]),
    decreases outcomes.len(),
{
    save_run_shape(outcomes);
}

/// A save ends with the new content in place exactly when writing, flushing
/// and replacing all succeeded; once one of them has failed, it never
/// reaches that end.
pub proof fn saved_only_after_three_successes(outcomes: Seq<bool>)
    ensures
        save_run(SaveState::Writing, outcomes) == SaveState::Saved <==> (outcomes.len() >= 3
            && outcomes[0] && outcomes[1] && outcomes[2]),
    decreases outcomes.len(),
{
    save_run_shape(outcomes);
}

/// The successes with which `outcomes` begins, counted up to three.
pub open spec fn leading_successes(outcomes: Seq<bool>) -> nat {
    if outcomes.len() >= 1 && outcomes[0] {
        if outcomes.len() >= 2 && outcomes[1] {
            if outcomes.len() >= 3 && outcomes[2] {
                3
            } else {
                2
            }
        } else {
            1
        }
    } else {
        0
    }
}

/// The state of a save after any outcomes, told from the successes with which
/// they begin and from how many there were.
pub proof fn save_run_shape(outcomes: Seq<bool>)
    ensures
        save_run(SaveState::Writing, outcomes) == (if leading_successes(outcomes) == 3 {
            SaveState::Saved
        } else if outcomes.len() == leading_successes(outcomes) {
            if outcomes.len() == 0 {
                SaveState::Writing
            } else if outcomes.len() == 1 {
                SaveState::Syncing
            } else {
                SaveState::Replacing
            }
        } else if outcomes.len() == leading_successes(outcomes) + 1 {
            SaveState::Discarding
        } else {
            SaveState::Failed
        }),
    decreases outcomes.len(),
{
    if outcomes.len() > 0 {
        let front = outcomes.drop_last();
        save_run_shape(front);
        assert(forall|i: int| 0 <= i < front.len() ==> front[i] == outcomes[i]);
    }
}

} // verus!
