//! The decisions of moving one file, apart from the file operations
//! themselves: the caller performs each action and reports how it went.

use crate::errors::MassMoveError;
use vstd::prelude::*;
use vstd::string::StringExecFns;

verus! {

/// Where a move of one file stands.
#[derive(Clone, Copy, Debug, PartialEq, Eq, Structural)]
pub enum MoveState {
    /// Waiting to learn whether the destination exists.
    Checking,
    /// A rename was asked for.
    Renaming,
    /// The rename failed; a copy of the content was asked for.
    Copying,
    /// The copy succeeded; removing the source was asked for.
    Removing,
    /// Nothing more will be done.
    Finished,
}

/// What the caller observed after the last action.
#[derive(Clone, Copy, Debug, PartialEq, Eq, Structural)]
pub enum MoveEvent {
    /// Whether the destination path already exists.
    DestinationChecked { exists: bool },
    /// Whether the rename succeeded.
    RenameDone { ok: bool },
    /// Whether copying the content to the destination succeeded.
    CopyDone { ok: bool },
    /// Whether removing the source succeeded.
    RemoveDone { ok: bool },
}

/// What the caller is to do next.
#[derive(Clone, Copy, Debug, PartialEq, Eq, Structural)]
pub enum MoveAction {
    /// Rename the source to the destination.
    Rename,
    /// Copy the source's content to the destination.
    CopyContent,
    /// Remove the source.
    RemoveSource,
    /// Report success.
    Succeed,
    /// Report that the destination exists.
    FailExists,
    /// Report the error of the last file operation.
    FailIo,
    /// The event does not belong to this state: nothing to do.
    Ignore,
}

/// One decision: the state that follows and the action to take.
pub open spec fn move_step_spec(force: bool, state: MoveState, event: MoveEvent) -> (
    MoveState,
    MoveAction,
) {
    match (state, event) {
        (MoveState::Checking, MoveEvent::DestinationChecked { exists }) => if exists && !force {
            (MoveState::Finished, MoveAction::FailExists)
        } else {
            (MoveState::Renaming, MoveAction::Rename)
        },
        (MoveState::Renaming, MoveEvent::RenameDone { ok }) => if ok {
            (MoveState::Finished, MoveAction::Succeed)
        } else {
            (MoveState::Copying, MoveAction::CopyContent)
        },
        (MoveState::Copying, MoveEvent::CopyDone { ok }) => if ok {
            (MoveState::Removing, MoveAction::RemoveSource)
        } else {
            (MoveState::Finished, MoveAction::FailIo)
        },
        (MoveState::Removing, MoveEvent::RemoveDone { ok }) => if ok {
            (MoveState::Finished, MoveAction::Succeed)
        } else {
            (MoveState::Finished, MoveAction::FailIo)
        },
        _ => (state, MoveAction::Ignore),
    }
}

/// Decides what follows `event` in `state`: refuse an existing destination
/// unless `force`, else rename; fall back to copy and remove when the rename
/// fails; stop at the first failure of either.
pub fn move_step(force: bool, state: MoveState, event: MoveEvent) -> (r: (MoveState, MoveAction))
    ensures
        r == move_step_spec(force, state, event),
{
    match (state, event) {
        (MoveState::Checking, MoveEvent::DestinationChecked { exists }) => if exists && !force {
            (MoveState::Finished, MoveAction::FailExists)
        } else {
            (MoveState::Renaming, MoveAction::Rename)
        },
        (MoveState::Renaming, MoveEvent::RenameDone { ok }) => if ok {
            (MoveState::Finished, MoveAction::Succeed)
        } else {
            (MoveState::Copying, MoveAction::CopyContent)
        },
        (MoveState::Copying, MoveEvent::CopyDone { ok }) => if ok {
            (MoveState::Removing, MoveAction::RemoveSource)
        } else {
            (MoveState::Finished, MoveAction::FailIo)
        },
        (MoveState::Removing, MoveEvent::RemoveDone { ok }) => if ok {
            (MoveState::Finished, MoveAction::Succeed)
        } else {
            (MoveState::Finished, MoveAction::FailIo)
        },
        _ => (state, MoveAction::Ignore),
    }
}

/// The actions taken, one per event, starting from `state`.
pub open spec fn run_actions(force: bool, state: MoveState, events: Seq<MoveEvent>) -> Seq<
    MoveAction,
>
    decreases events.len(),
{
    if events.len() == 0 {
        Seq::empty()
    } else {
        let (next, action) = move_step_spec(force, state, events[0]);
        seq![action] + run_actions(force, next, events.drop_first())
    }
}

/// The action changes a file.
pub open spec fn touches_files(a: MoveAction) -> bool {
    a is Rename || a is CopyContent || a is RemoveSource
}

proof fn lemma_finished_is_inert(force: bool, events: Seq<MoveEvent>)
    ensures
        forall|i: int|
            0 <= i < events.len() ==> #[trigger] run_actions(force, MoveState::Finished, events)[i]
                is Ignore,
        run_actions(force, MoveState::Finished, events).len() == events.len(),
    decreases events.len(),
{
    if events.len() > 0 {
        lemma_finished_is_inert(force, events.drop_first());
        let rest = run_actions(force, MoveState::Finished, events.drop_first());
        assert forall|i: int|
            0 <= i < events.len() implies #[trigger] run_actions(
            force,
            MoveState::Finished,
            events,
        )[i] is Ignore by {
            if i > 0 {
                assert(run_actions(force, MoveState::Finished, events)[i] == rest[i - 1]);
            }
        }
    }
}

/// Without `force`, an existing destination ends the move at once with
/// `FailExists`: whatever is reported afterwards, no action touches a file,
/// so neither the destination nor the source changes.
pub proof fn lemma_existing_destination_untouched(events: Seq<MoveEvent>)
    requires
        events.len() > 0,
        events[0] == (MoveEvent::DestinationChecked { exists: true }),
    ensures
        run_actions(false, MoveState::Checking, events)[0] == MoveAction::FailExists,
        forall|i: int|
            0 <= i < events.len() ==> !touches_files(
                #[trigger] run_actions(false, MoveState::Checking, events)[i],
            ),
{
    let rest = events.drop_first();
    lemma_finished_is_inert(false, rest);
    let all = run_actions(false, MoveState::Checking, events);
    assert(all == seq![MoveAction::FailExists] + run_actions(false, MoveState::Finished, rest));
    assert forall|i: int| 0 <= i < events.len() implies !touches_files(#[trigger] all[i]) by {
        if i > 0 {
            assert(all[i] == run_actions(false, MoveState::Finished, rest)[i - 1]);
        }
    }
}

/// With `force`, an existing destination is overwritten: the move goes on to
/// a rename; success is reported only after that rename succeeded, or after
/// the source was removed, and removal is entered only once the content was
/// copied over the destination.
pub proof fn lemma_forced_move_replaces(state: MoveState, event: MoveEvent)
    ensures
        move_step_spec(true, MoveState::Checking, MoveEvent::DestinationChecked { exists: true })
            == (MoveState::Renaming, MoveAction::Rename),
        move_step_spec(true, state, event).1 is Succeed ==> ((state is Renaming && event == (
        MoveEvent::RenameDone { ok: true })) || (state is Removing && event == (
        MoveEvent::RemoveDone { ok: true }))),
        move_step_spec(true, state, event).0 is Removing && !(state is Removing) ==> (state is Copying && event == (
        MoveEvent::CopyDone { ok: true })),
{
}

/// The text of every `FileExistsError`.
pub open spec fn file_exists_text() -> Seq<char> {
    "The file already exists. Try --force mode to overwrite the file"@
}

/// The error for a destination that exists while overwriting was not asked for.
pub fn file_exists_error() -> (e: MassMoveError)
    ensures
        e matches MassMoveError::FileExistsError(m) && m@ == file_exists_text(),
{
    MassMoveError::FileExistsError(
        String::from_str("The file already exists. Try --force mode to overwrite the file"),
    )
}

} // verus!
