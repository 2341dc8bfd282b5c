//! The command line: what it asks for, and what the program does with it.

use vstd::prelude::*;

verus! {

/// The command line of `termpop`: an optional subcommand, and for the
/// editor an optional initial text (`--initial`) and title (`--title`).
#[derive(Debug, Clone, PartialEq)]
pub struct Cli {
    pub command: Option<Command>,
    pub initial: Option<String>,
    pub title: Option<String>,
}

/// A subcommand.
#[derive(Debug, Clone, Copy, PartialEq, Eq, Structural)]
pub enum Command {
    /// Run the daemon, or with `--install` install the launchd agent that
    /// runs it at login.
    Daemon { install: bool },
    /// Report whether the daemon runs.
    Status,
    /// Stop the daemon.
    Stop,
}

/// What the program does for a command line.
#[derive(Debug, Clone, Copy, PartialEq, Eq, Structural)]
pub enum RunMode {
    /// Ask the running daemon to open the editor (falling back to
    /// [`RunMode::OpenDirect`] where the daemon cannot be reached).
    OpenViaDaemon,
    /// Open the editor in this process.
    OpenDirect,
    /// Install the launchd agent.
    InstallAgent,
    /// Run the daemon in this process.
    RunDaemon,
    /// Ask the daemon for its status.
    QueryStatus,
    /// Ask the daemon to stop.
    StopDaemon,
}

/// What the program does for the subcommand `command`, given whether the
/// daemon's socket exists: without a subcommand it opens the editor, through
/// the daemon where one runs.
pub open spec fn run_mode_of(command: Option<Command>, daemon_running: bool) -> RunMode {
    match command {
        None => if daemon_running { RunMode::OpenViaDaemon } else { RunMode::OpenDirect },
        Some(Command::Daemon { install }) => if install {
            RunMode::InstallAgent
        } else {
            RunMode::RunDaemon
        },
        Some(Command::Status) => RunMode::QueryStatus,
        Some(Command::Stop) => RunMode::StopDaemon,
    }
}

impl Cli {
    /// What the program does for this command line (see [`run_mode_of`]).
    pub fn run_mode(&self, daemon_running: bool) -> (mode: RunMode)
        ensures
            mode == run_mode_of(self.command, daemon_running),
            self.command is None ==> (mode == RunMode::OpenViaDaemon || mode == RunMode::OpenDirect),
            self.command is None ==> (mode == RunMode::OpenViaDaemon <==> daemon_running),
            self.command == Some(Command::Daemon { install: true }) ==> mode == RunMode::InstallAgent,
            self.command == Some(Command::Daemon { install: false }) ==> mode == RunMode::RunDaemon,
            self.command == Some(Command::Status) ==> mode == RunMode::QueryStatus,
            self.command == Some(Command::Stop) ==> mode == RunMode::StopDaemon,
    {
        match self.command {
            None => if daemon_running {
                RunMode::OpenViaDaemon
            } else {
                RunMode::OpenDirect
            },
            Some(Command::Daemon { install }) => if install {
                RunMode::InstallAgent
            } else {
                RunMode::RunDaemon
            },
            Some(Command::Status) => RunMode::QueryStatus,
            Some(Command::Stop) => RunMode::StopDaemon,
        }
    }
}

} // verus!
