//! The decisions of one run over all files: check the patterns, list the
//! candidates, then rename and move each in turn, stopping at the first
//! failure. The caller performs each action and reports how it went.

use crate::args::CLI;
use crate::errors::MassMoveError;
use crate::fs_utils::{
    check_patterns, collect_matches, collect_outcome, move_record, path_error_text,
    pattern_captures, patterns_valid, rename_file_by_pattern, rename_outcome, render,
};
use vstd::prelude::*;

verus! {

/// Where a run stands.
#[derive(Debug)]
pub enum RunState {
    /// Nothing done yet.
    Idle,
    /// The listing of candidate files was asked for.
    Listing,
    /// A move was asked for; `next` is the index of the file after it.
    Moving { paths: Vec<String>, next: usize, source: String, destination: String },
    /// The record of a completed move was handed out.
    Reporting { paths: Vec<String>, next: usize },
    /// Nothing more will be done.
    Finished,
}

/// What the caller observed after the last action.
#[derive(Debug)]
pub enum RunEvent {
    /// The run is to start.
    Begin,
    /// The listing of the source pattern, or why it could not be made.
    Listed { listing: Result<Vec<String>, MassMoveError> },
    /// How the asked-for move went.
    Moved { result: Result<(), MassMoveError> },
    /// The record line was written.
    Reported,
}

/// What the caller is to do next.
#[derive(Debug)]
pub enum RunAction {
    /// List the files that the source pattern matches.
    List,
    /// Move `source` to `destination`.
    Move { source: String, destination: String },
    /// Write the record of a completed move.
    Report { line: String },
    /// Report that every file was moved.
    Succeed,
    /// Report `error` and stop.
    Fail { error: MassMoveError },
    /// The event does not belong to this state: nothing to do.
    Ignore,
}

/// What follows once file `i` of `paths` is the next to handle: success past
/// the last file, else a move to the new path that renaming gives it, or the
/// failure of that renaming.
pub open spec fn advance_outcome(args: CLI, paths: Vec<String>, i: int, r: (RunState, RunAction)) -> bool {
    if i >= paths.len() {
        r == (RunState::Finished, RunAction::Succeed)
    } else {
        exists|res: Result<String, MassMoveError>|
            #[trigger] rename_outcome(
                args.source_pattern@,
                paths[i]@,
                args.destination_pattern@,
                res,
            ) && match res {
                Ok(d) => r == (
                    RunState::Moving { paths, next: (i + 1) as usize, source: paths[i], destination: d },
                    RunAction::Move { source: paths[i], destination: d },
                ),
                Err(e) => r == (RunState::Finished, RunAction::Fail { error: e }),
            }
    }
}

/// What `run_step` may return for a state and an event.
pub open spec fn run_step_outcome(args: CLI, state: RunState, event: RunEvent, r: (RunState, RunAction)) -> bool {
    match (state, event) {
        (RunState::Idle, RunEvent::Begin) => if patterns_valid(
            args.source_pattern@,
            args.destination_pattern@,
        ) {
            r == (RunState::Listing, RunAction::List)
        } else {
            r.0 is Finished && (r.1 matches RunAction::Fail { error: MassMoveError::PathError(m) } && m@
                == path_error_text())
        },
        (RunState::Listing, RunEvent::Listed { listing }) => match listing {
            Err(e) => r == (RunState::Finished, RunAction::Fail { error: e }),
            Ok(l) => exists|c: Result<Vec<String>, MassMoveError>|
                #[trigger] collect_outcome(l@, c) && match c {
                    Err(e) => r == (RunState::Finished, RunAction::Fail { error: e }),
                    Ok(paths) => advance_outcome(args, paths, 0, r),
                },
        },
        (
            RunState::Moving { paths, next, source, destination },
            RunEvent::Moved { result },
        ) => match result {
            Err(e) => r == (RunState::Finished, RunAction::Fail { error: e }),
            Ok(_) => r.0 == (RunState::Reporting { paths, next }) && (r.1 matches RunAction::Report {
                line,
            } && line@ == source@ + " -> "@ + destination@),
        },
        (RunState::Reporting { paths, next }, RunEvent::Reported) => advance_outcome(
            args,
            paths,
            next as int,
            r,
        ),
        (s, _) => r.0 == s && r.1 is Ignore,
    }
}

fn advance(args: &CLI, paths: Vec<String>, i: usize) -> (r: (RunState, RunAction))
    ensures
        advance_outcome(*args, paths, i as int, r),
{
    if i >= paths.len() {
        return (RunState::Finished, RunAction::Succeed);
    }
    let res = rename_file_by_pattern(
        args.source_pattern.as_str(),
        paths[i].as_str(),
        args.destination_pattern.as_str(),
    );
    let ghost outcome = res;
    assert(rename_outcome(args.source_pattern@, paths[i as int]@, args.destination_pattern@, outcome));
    match res {
        Ok(d) => {
            let source = paths[i].clone();
            let moved = paths[i].clone();
            let destination = d.clone();
            (
                RunState::Moving { paths, next: i + 1, source, destination: d },
                RunAction::Move { source: moved, destination },
            )
        },
        Err(e) => (RunState::Finished, RunAction::Fail { error: e }),
    }
}

/// Decides what follows `event` in `state`: check both patterns before
/// anything is listed, stop with `NotFoundError` on an empty listing, move
/// each listed file to the path that renaming gives it, hand out one record
/// line per completed move, and stop at the first failure.
pub fn run_step(args: &CLI, state: RunState, event: RunEvent) -> (r: (RunState, RunAction))
    ensures
        run_step_outcome(*args, state, event, r),
{
    match state {
        RunState::Idle => match event {
            RunEvent::Begin => match check_patterns(
                args.source_pattern.as_str(),
                args.destination_pattern.as_str(),
            ) {
                Ok(()) => (RunState::Listing, RunAction::List),
                Err(e) => (RunState::Finished, RunAction::Fail { error: e }),
            },
            _ => (RunState::Idle, RunAction::Ignore),
        },
        RunState::Listing => match event {
            RunEvent::Listed { listing } => match listing {
                Err(e) => (RunState::Finished, RunAction::Fail { error: e }),
                Ok(l) => {
                    let c = collect_matches(&l);
                    let ghost collected = c;
                    assert(collect_outcome(l@, collected));
                    match c {
                        Err(e) => (RunState::Finished, RunAction::Fail { error: e }),
                        Ok(paths) => advance(args, paths, 0),
                    }
                },
            },
            _ => (RunState::Listing, RunAction::Ignore),
        },
        RunState::Moving { paths, next, source, destination } => match event {
            RunEvent::Moved { result } => match result {
                Err(e) => (RunState::Finished, RunAction::Fail { error: e }),
                Ok(()) => {
                    let line = move_record(source.as_str(), destination.as_str());
                    (RunState::Reporting { paths, next }, RunAction::Report { line })
                },
            },
            _ => (RunState::Moving { paths, next, source, destination }, RunAction::Ignore),
        },
        RunState::Reporting { paths, next } => match event {
            RunEvent::Reported => advance(args, paths, next),
            _ => (RunState::Reporting { paths, next }, RunAction::Ignore),
        },
        RunState::Finished => (RunState::Finished, RunAction::Ignore),
    }
}

/// Patterns with a marker outside the file name end the run at its first
/// step with `PathError`, before anything is listed or moved.
pub proof fn lemma_invalid_patterns_fail_first(args: CLI, r: (RunState, RunAction))
    requires
        !patterns_valid(args.source_pattern@, args.destination_pattern@),
        run_step_outcome(args, RunState::Idle, RunEvent::Begin, r),
    ensures
        r.0 is Finished,
        r.1 matches RunAction::Fail { error: MassMoveError::PathError(_) },
{
}

/// An empty listing ends the run with `NotFoundError`, so no file is moved.
pub proof fn lemma_empty_listing_not_found(args: CLI, listed: Vec<String>, r: (RunState, RunAction))
    requires
        listed@.len() == 0,
        run_step_outcome(args, RunState::Listing, RunEvent::Listed { listing: Ok(listed) }, r),
    ensures
        r.0 is Finished,
        r.1 matches RunAction::Fail { error: MassMoveError::NotFoundError(_) },
{
    let c = choose|c: Result<Vec<String>, MassMoveError>|
        #[trigger] collect_outcome(listed@, c) && match c {
            Err(e) => r == (RunState::Finished, RunAction::Fail { error: e }),
            Ok(paths) => advance_outcome(args, paths, 0, r),
        };
    assert(c is Err);
}

/// Every move the run asks for goes to the path that renaming gives its
/// source: the source's captures under the source pattern fill the
/// destination pattern.
pub proof fn lemma_move_goes_to_renamed_path(
    args: CLI,
    state: RunState,
    event: RunEvent,
    r: (RunState, RunAction),
)
    requires
        run_step_outcome(args, state, event, r),
        r.1 is Move,
    ensures
        patterns_valid(args.source_pattern@, args.destination_pattern@),
        r.1 matches RunAction::Move { source, destination } && pattern_captures(
            args.source_pattern@,
            source@,
        ) matches Some(c) && destination@ == render(args.destination_pattern@, c),
{
    let sp = args.source_pattern@;
    let dp = args.destination_pattern@;
    match (state, event) {
        (RunState::Listing, RunEvent::Listed { listing: Ok(l) }) => {
            let c = choose|c: Result<Vec<String>, MassMoveError>|
                #[trigger] collect_outcome(l@, c) && match c {
                    Err(e) => r == (RunState::Finished, RunAction::Fail { error: e }),
                    Ok(paths) => advance_outcome(args, paths, 0, r),
                };
            if let Ok(paths) = c {
                let res = choose|res: Result<String, MassMoveError>|
                    #[trigger] rename_outcome(sp, paths[0]@, dp, res) && match res {
                        Ok(d) => r == (
                            RunState::Moving { paths, next: 1usize, source: paths[0], destination: d },
                            RunAction::Move { source: paths[0], destination: d },
                        ),
                        Err(e) => r == (RunState::Finished, RunAction::Fail { error: e }),
                    };
            }
        },
        (RunState::Reporting { paths, next }, RunEvent::Reported) => {
            let i = next as int;
            let res = choose|res: Result<String, MassMoveError>|
                #[trigger] rename_outcome(sp, paths[i]@, dp, res) && match res {
                    Ok(d) => r == (
                        RunState::Moving { paths, next: (i + 1) as usize, source: paths[i], destination: d },
                        RunAction::Move { source: paths[i], destination: d },
                    ),
                    Err(e) => r == (RunState::Finished, RunAction::Fail { error: e }),
                };
        },
        _ => {},
    }
}

/// A failure always ends the run, and an ended run asks for nothing more:
/// after a `Fail` no file is moved.
pub proof fn lemma_fail_is_final(
    args: CLI,
    state: RunState,
    event: RunEvent,
    r: (RunState, RunAction),
    later: RunEvent,
    r2: (RunState, RunAction),
)
    requires
        run_step_outcome(args, state, event, r),
        r.1 is Fail,
        run_step_outcome(args, r.0, later, r2),
    ensures
        r.0 is Finished,
        r2.0 is Finished,
        r2.1 is Ignore,
{
    let sp = args.source_pattern@;
    let dp = args.destination_pattern@;
    match (state, event) {
        (RunState::Listing, RunEvent::Listed { listing: Ok(l) }) => {
            let c = choose|c: Result<Vec<String>, MassMoveError>|
                #[trigger] collect_outcome(l@, c) && match c {
                    Err(e) => r == (RunState::Finished, RunAction::Fail { error: e }),
                    Ok(paths) => advance_outcome(args, paths, 0, r),
                };
            if let Ok(paths) = c {
                if paths.len() > 0 {
                    let res = choose|res: Result<String, MassMoveError>|
                        #[trigger] rename_outcome(sp, paths[0]@, dp, res) && match res {
                            Ok(d) => r == (
                                RunState::Moving { paths, next: 1usize, source: paths[0], destination: d },
                                RunAction::Move { source: paths[0], destination: d },
                            ),
                            Err(e) => r == (RunState::Finished, RunAction::Fail { error: e }),
                        };
                }
            }
        },
        (RunState::Reporting { paths, next }, RunEvent::Reported) => {
            let i = next as int;
            if i < paths.len() {
                let res = choose|res: Result<String, MassMoveError>|
                    #[trigger] rename_outcome(sp, paths[i]@, dp, res) && match res {
                        Ok(d) => r == (
                            RunState::Moving { paths, next: (i + 1) as usize, source: paths[i], destination: d },
                            RunAction::Move { source: paths[i], destination: d },
                        ),
                        Err(e) => r == (RunState::Finished, RunAction::Fail { error: e }),
                    };
            }
        },
        _ => {},
    }
}

} // verus!
