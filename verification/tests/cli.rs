use termpop::cli::{Cli, Command, RunMode};

fn cli(command: Option<Command>) -> Cli {
    Cli { command, initial: None, title: None }
}

#[test]
fn no_command_opens_the_editor() {
    assert_eq!(cli(None).run_mode(true), RunMode::OpenViaDaemon);
    assert_eq!(cli(None).run_mode(false), RunMode::OpenDirect);
}

#[test]
fn daemon_command() {
    assert_eq!(cli(Some(Command::Daemon { install: false })).run_mode(false), RunMode::RunDaemon);
    assert_eq!(cli(Some(Command::Daemon { install: true })).run_mode(true), RunMode::InstallAgent);
}

#[test]
fn status_and_stop() {
    assert_eq!(cli(Some(Command::Status)).run_mode(false), RunMode::QueryStatus);
    assert_eq!(cli(Some(Command::Stop)).run_mode(true), RunMode::StopDaemon);
}
