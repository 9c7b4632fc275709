//! The restart of the daemon: kill what runs, then start it afresh.

use crate::proxy::{kill_command_of, start_command_of, CommandSpec, CommandView, Xray, XrayView};
use vstd::prelude::*;
use vstd::string::StringExecFns;

verus! {

/// What a restart is waiting for.
#[derive(Clone, Copy, Debug, PartialEq, Eq, Structural)]
pub enum RestartState {
    /// The end of the command that kills the running daemon.
    Killing,
    /// The start of the fresh daemon.
    Starting,
    /// Nothing: the daemon was started.
    Restarted,
    /// Nothing: the daemon could not be started.
    SpawnFailed,
}

/// What came of the command that a state asked for.
#[derive(Clone, Copy, Debug, PartialEq, Eq, Structural)]
pub enum CommandResult {
    /// The command was run; in what state it left does not matter.
    Completed,
    /// The command could not be run.
    Failed,
}

/// What the caller is to do for a state.
#[derive(Clone, Copy, Debug, PartialEq, Eq, Structural)]
pub enum RestartAction {
    /// Run the kill command and wait for it.
    Kill,
    /// Start the daemon, detached.
    Spawn,
    /// Report success.
    Finish,
    /// Report that the daemon could not be started.
    Abort,
}

/// The daemon of this name could not be started.
#[derive(Clone, Debug, PartialEq, Eq)]
pub struct RestartError {
    pub daemon_name: String,
}

/// The state that follows `state` when `result` arrives. However the kill
/// command fares, the daemon is started next; only a failure to start it is
/// fatal.
pub open spec fn restart_next(state: RestartState, result: CommandResult) -> RestartState {
    match (state, result) {
        (RestartState::Killing, _) => RestartState::Starting,
        (RestartState::Starting, CommandResult::Completed) => RestartState::Restarted,
        (RestartState::Starting, CommandResult::Failed) => RestartState::SpawnFailed,
        _ => state,
    }
}

/// The action that `state` asks the caller for.
pub open spec fn restart_action_of(state: RestartState) -> RestartAction {
    match state {
        RestartState::Killing => RestartAction::Kill,
        RestartState::Starting => RestartAction::Spawn,
        RestartState::Restarted => RestartAction::Finish,
        RestartState::SpawnFailed => RestartAction::Abort,
    }
}

/// The command that carries out `action` for the proxy, if it takes one.
pub open spec fn restart_command_of(x: XrayView, action: RestartAction) -> Option<CommandView> {
    match action {
        RestartAction::Kill => Some(kill_command_of(x)),
        RestartAction::Spawn => Some(start_command_of(x)),
        _ => None,
    }
}

/// What a restart has come to: nothing yet, success, or the name of the
/// daemon that could not be started.
pub open spec fn restart_outcome_of(x: XrayView, state: RestartState) -> Option<
    Result<(), Seq<char>>,
> {
    match state {
        RestartState::Restarted => Some(Ok(())),
        RestartState::SpawnFailed => Some(Err(x.daemon_name)),
        _ => None,
    }
}

/// The view of the outcome of a restart.
pub open spec fn restart_outcome_view(r: Option<Result<(), RestartError>>) -> Option<
    Result<(), Seq<char>>,
> {
    match r {
        Some(Ok(())) => Some(Ok(())),
        Some(Err(e)) => Some(Err(e.daemon_name@)),
        None => None,
    }
}

/// The view of a command, if there is one.
pub open spec fn command_view(c: Option<CommandSpec>) -> Option<CommandView> {
    match c {
        Some(c) => Some(c@),
        None => None,
    }
}

impl RestartState {
    /// The state in which every restart begins.
    pub fn start() -> (s: RestartState)
        ensures
            s == RestartState::Killing,
    {
        RestartState::Killing
    }

    /// Takes in what came of the last command and gives the state that
    /// follows.
    pub fn step(self, result: CommandResult) -> (next: RestartState)
        ensures
            next == restart_next(self, result),
    {
        match self {
            RestartState::Killing => RestartState::Starting,
            RestartState::Starting => match result {
                CommandResult::Completed => RestartState::Restarted,
                CommandResult::Failed => RestartState::SpawnFailed,
            },
            _ => self,
        }
    }

    /// The action that this state asks the caller for.
    pub fn action(self) -> (a: RestartAction)
        ensures
            a == restart_action_of(self),
    {
        match self {
            RestartState::Killing => RestartAction::Kill,
            RestartState::Starting => RestartAction::Spawn,
            RestartState::Restarted => RestartAction::Finish,
            RestartState::SpawnFailed => RestartAction::Abort,
        }
    }
}

impl Xray {
    /// The command that carries out `action`: the kill command, the start
    /// command, or none for the two actions that end a restart.
    pub fn restart_command(&self, action: RestartAction) -> (c: Option<CommandSpec>)
        ensures
            command_view(c) == restart_command_of(self@, action),
    {
        match action {
            RestartAction::Kill => Some(self.kill_command()),
            RestartAction::Spawn => Some(self.start_command()),
            _ => None,
        }
    }

    /// What a restart has come to in `state`.
    pub fn restart_outcome(&self, state: RestartState) -> (r: Option<Result<(), RestartError>>)
        ensures
            restart_outcome_view(r) == restart_outcome_of(self@, state),
    {
        match state {
            RestartState::Restarted => Some(Ok(())),
            RestartState::SpawnFailed => Some(
                Err(RestartError { daemon_name: String::from_str(self.daemon_name()) }),
            ),
            _ => None,
        }
    }
}

/// Whatever comes of the kill command, the daemon is started next; and the
/// restart ends well exactly when that start succeeds.
pub proof fn lemma_restart_tolerates_kill_failure(kill: CommandResult, spawn: CommandResult)
    ensures
        restart_action_of(RestartState::Killing) == RestartAction::Kill,
        restart_action_of(restart_next(RestartState::Killing, kill)) == RestartAction::Spawn,
        restart_next(restart_next(RestartState::Killing, kill), spawn) == (match spawn {
            CommandResult::Completed => RestartState::Restarted,
            CommandResult::Failed => RestartState::SpawnFailed,
        }),
{
}

} // verus!
