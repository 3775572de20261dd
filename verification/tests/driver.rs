use spot_gitlab_driver::cleanup::{CleanupAction, CleanupStage};
use spot_gitlab_driver::driver::{build_failure, Cmd, DriverAction, DriverStage, Outcome};
use spot_gitlab_driver::run::{RunAction, RunStage};
use spot_gitlab_driver::ssh::login;
use spot_gitlab_driver::state::State;

fn started(cmd: Cmd) -> DriverStage {
    DriverStage::start(cmd, Ok(()), Ok("1".to_string()))
}

fn run() -> Cmd {
    Cmd::Run { script_path: b"/s".to_vec(), script_name: "build_script".to_string() }
}

fn failure() -> Outcome {
    Outcome::Failed { error: "gone".to_string() }
}

#[test]
fn commands_start_their_stages() {
    assert_eq!(started(Cmd::Config).action(), DriverAction::Config);
    assert_eq!(started(Cmd::Prepare).action(), DriverAction::Prepare);
    assert_eq!(
        started(run()).action(),
        DriverAction::Run { script_path: b"/s".to_vec(), script_name: "build_script".to_string() }
    );
    assert_eq!(started(Cmd::Cleanup).action(), DriverAction::Cleanup);
}

#[test]
fn stages_that_finish() {
    for cmd in [Cmd::Config, Cmd::Prepare, run(), Cmd::Cleanup] {
        let (stage, line) = started(cmd).next(Outcome::Finished);
        assert_eq!(stage.action(), DriverAction::Finish);
        assert_eq!(line, None);
    }
}

#[test]
fn failed_stages_give_the_fleet_back() {
    for (cmd, said) in [
        (Cmd::Prepare, "Failed to prepare: gone"),
        (run(), "Failed to run script: gone"),
    ] {
        let (stage, line) = started(cmd).next(failure());
        assert_eq!(line, Some(said.to_string()));
        assert_eq!(stage.action(), DriverAction::Cleanup);
        let (stage, line) = stage.next(Outcome::Finished);
        assert_eq!(line, None);
        assert_eq!(stage.action(), DriverAction::FailBuild);
    }
    let (stage, line) = started(run()).next(failure()).0.next(failure());
    assert_eq!(line, Some("Failed to cleanup: gone".to_string()));
    assert_eq!(stage.action(), DriverAction::FailBuild);
}

#[test]
fn failed_cleanup_fails_the_build() {
    let (stage, line) = started(Cmd::Cleanup).next(failure());
    assert_eq!(line, Some("Failed to cleanup: gone".to_string()));
    assert_eq!(stage.action(), DriverAction::FailBuild);
}

#[test]
fn scripts_end_the_driver() {
    let (stage, _) = started(run()).next(Outcome::Exited { code: 3 });
    assert_eq!(stage.action(), DriverAction::Exit { code: 3 });
    let (stage, _) = started(run()).next(Outcome::BuildFailed);
    assert_eq!(stage.action(), DriverAction::FailBuild);
    // A driver that is to end does nothing else.
    assert_eq!(stage.next(failure()), (DriverStage::BuildFailed, None));
}

#[test]
fn config_ends() {
    let (stage, line) = started(Cmd::Config).next(Outcome::BuildFailed);
    assert_eq!((stage.action(), line), (DriverAction::FailBuild, None));
    let words = "called `Result::unwrap()` on an `Err` value: Limit".to_string();
    let (stage, _) = started(Cmd::Config).next(Outcome::Panicked { message: words });
    assert_eq!(
        stage.action(),
        DriverAction::Panic {
            message: "called `Result::unwrap()` on an `Err` value: Limit".to_string()
        }
    );
    assert_eq!(started(Cmd::Config).next(failure()), (DriverStage::Config, None));
}

#[test]
fn nothing_is_done_without_a_log_or_a_job() {
    let stage = DriverStage::start(Cmd::Prepare, Ok(()), Err("NotPresent".to_string()));
    assert_eq!(
        stage.action(),
        DriverAction::Panic {
            message: "CUSTOM_ENV_CI_JOB_ID env var should be set: NotPresent".to_string()
        }
    );
    let stage = DriverStage::start(Cmd::Prepare, Err("E".to_string()), Err("N".to_string()));
    assert_eq!(
        stage.action(),
        DriverAction::Panic {
            message: "called `Result::unwrap()` on an `Err` value: E".to_string()
        }
    );
}

#[test]
fn exit_codes_of_failed_builds() {
    let of = |t: &str| build_failure(&Some(t.to_string()));
    assert_eq!(build_failure(&None), 1);
    assert_eq!(of("17"), 17);
    assert_eq!(of("-3"), -3);
    assert_eq!(of("0"), 0);
    assert_eq!(of(""), 1);
    assert_eq!(of("17 "), 1);
    assert_eq!(of("4294967296"), 1);
}

#[test]
fn stages_share_one_fleet() {
    let mut noted = State::new("sfr-1".to_string(), b"/b/nix-ci-build.pem".to_vec());
    noted.set_address("10.0.0.7".to_string());
    assert_eq!(
        RunStage::start(Ok(noted.clone()), b"/s".to_vec()).action(),
        RunAction::Connect { login: login(b"/b/nix-ci-build.pem", "root", "10.0.0.7") }
    );
    assert_eq!(
        CleanupStage::start(Ok(noted)).0.action(),
        CleanupAction::CancelSpotFleetRequests {
            spot_fleet_request_ids: vec!["sfr-1".to_string()],
            terminate_instances: true,
        }
    );
}

#[test]
fn the_fleet_is_given_back_after_a_failed_prepare() {
    let noted = State::new("sfr-1".to_string(), b"/k".to_vec());
    assert_eq!(
        CleanupStage::start(Ok(noted)).0.action(),
        CleanupAction::CancelSpotFleetRequests {
            spot_fleet_request_ids: vec!["sfr-1".to_string()],
            terminate_instances: true,
        }
    );
}
