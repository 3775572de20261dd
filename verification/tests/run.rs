use spot_gitlab_driver::run::{shell, ExitStatus, RunAction, RunEvent, RunFailure, RunStage};
use spot_gitlab_driver::ssh::login;
use spot_gitlab_driver::state::State;

fn record() -> State {
    let mut state = State::new("sfr-1".to_string(), b"/k.pem".to_vec());
    state.set_address("10.0.0.7".to_string());
    state
}

fn started() -> RunStage {
    RunStage::start(Ok(record()), b"/tmp/script".to_vec())
}

fn starting() -> RunStage {
    started().next(RunEvent::Connected { reply: Ok(()) })
}

fn feeding() -> RunStage {
    starting().next(RunEvent::Started { reply: Ok(true) })
}

fn waiting() -> RunStage {
    feeding().next(RunEvent::ScriptFed { reply: Ok(()) })
}

fn exited(code: Option<i32>, success: bool) -> RunAction {
    waiting().next(RunEvent::Exited { reply: Ok(ExitStatus { code, success }) }).action()
}

fn failed(stage: RunStage) -> String {
    match stage.action() {
        RunAction::Fail { error } => error,
        other => panic!("{:?}", other),
    }
}

#[test]
fn whole_run_stage() {
    assert_eq!(started().action(), RunAction::Connect { login: login(b"/k.pem", "root", "10.0.0.7") });
    assert_eq!(starting().action(), RunAction::Start { command: shell() });
    assert_eq!(feeding().action(), RunAction::FeedScript { script_path: b"/tmp/script".to_vec() });
    assert_eq!(waiting().action(), RunAction::Wait);
    assert_eq!(exited(Some(0), true), RunAction::Exit { code: 0 });
}

#[test]
fn logins_and_shells() {
    let login = login(b"/k.pem", "root", "10.0.0.7");
    assert_eq!(login.destination, "root@10.0.0.7");
    assert_eq!(login.keyfile, b"/k.pem");
    let shell = shell();
    assert_eq!(shell.program, "bash");
    assert!(shell.args.is_empty());
    assert!(shell.piped_stdin);
}

#[test]
fn exit_codes_are_passed_on() {
    assert_eq!(exited(Some(1), false), RunAction::Exit { code: 1 });
    assert_eq!(exited(Some(137), false), RunAction::Exit { code: 137 });
    assert_eq!(exited(Some(-1), false), RunAction::Exit { code: -1 });
}

#[test]
fn a_killed_script_fails_the_build() {
    assert_eq!(exited(None, false), RunAction::FailBuild);
    assert_eq!(exited(None, true), RunAction::Finish);
}

#[test]
fn no_address_no_run() {
    let state = State::new("sfr-1".to_string(), b"/k.pem".to_vec());
    let stage = RunStage::start(Ok(state), b"/s".to_vec());
    assert_eq!(stage, RunStage::Failed { failure: RunFailure::NoAddress });
    let stage = stage.next(RunEvent::Connected { reply: Ok(()) });
    assert_eq!(failed(stage), "No instance address found during run phase");
}

#[test]
fn no_stdin() {
    let stage = starting().next(RunEvent::Started { reply: Ok(false) });
    assert_eq!(failed(stage), "Failed to get stdin for command");
}

#[test]
fn errors_from_outside_end_run() {
    let error = || "gone".to_string();
    assert_eq!(failed(RunStage::start(Err(error()), b"/s".to_vec())), "gone");
    assert_eq!(failed(started().next(RunEvent::Connected { reply: Err(error()) })), "gone");
    assert_eq!(failed(starting().next(RunEvent::Started { reply: Err(error()) })), "gone");
    assert_eq!(failed(feeding().next(RunEvent::ScriptFed { reply: Err(error()) })), "gone");
    assert_eq!(failed(waiting().next(RunEvent::Exited { reply: Err(error()) })), "gone");
}

#[test]
fn answers_out_of_turn_change_nothing_in_run() {
    assert_eq!(started().next(RunEvent::ScriptFed { reply: Ok(()) }), started());
    assert_eq!(waiting().next(RunEvent::Connected { reply: Ok(()) }), waiting());
}
