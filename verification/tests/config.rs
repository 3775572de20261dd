use spot_gitlab_driver::config::{
    deadline, job_timeout, key_path_of, parameter_name_of, ConfigAction, ConfigEvent,
    ConfigFailure, ConfigPanic, ConfigStage, Parameter,
};
use spot_gitlab_driver::fleet::{spot_fleet_request, KeyPairInfo};
use spot_gitlab_driver::state::State;

fn some(t: &str) -> Option<String> {
    Some(t.to_string())
}

fn key_pairs() -> ConfigEvent {
    ConfigEvent::KeyPairs { reply: Ok(Some(vec![KeyPairInfo { key_pair_id: some("key-1") }])) }
}

fn parameter() -> ConfigEvent {
    ConfigEvent::Parameter { reply: Ok(Some(Parameter { value: some("PEM") })) }
}

fn current_dir() -> ConfigEvent {
    ConfigEvent::CurrentDir { reply: Ok(b"/builds".to_vec()) }
}

fn message(stage: &ConfigStage) -> Option<String> {
    match stage.action() {
        ConfigAction::FailBuild { message } => message,
        other => panic!("{:?}", other),
    }
}

fn panic_message(stage: &ConfigStage) -> String {
    match stage.action() {
        ConfigAction::Panic { message } => message,
        other => panic!("{:?}", other),
    }
}

fn started() -> ConfigStage {
    ConfigStage::start(some("nix"), None)
}

#[test]
fn whole_stage_with_a_timeout() {
    let stage = ConfigStage::start(some("nix"), some("3600"));
    assert_eq!(stage.action(), ConfigAction::ReadClock);
    let stage = stage.next(ConfigEvent::Clock { reply: Ok(1_700_000_000) });
    assert_eq!(
        stage.action(),
        ConfigAction::DescribeKeyPairs { key_name: "nix-ci-build".to_string() }
    );
    let stage = stage.next(key_pairs());
    assert_eq!(
        stage.action(),
        ConfigAction::GetParameter {
            name: "/ec2/keypair/key-1".to_string(),
            with_decryption: true
        }
    );
    let stage = stage.next(parameter());
    assert_eq!(stage.action(), ConfigAction::ReadCurrentDir);
    let stage = stage.next(current_dir());
    assert_eq!(
        stage.action(),
        ConfigAction::WriteKey {
            path: b"/builds/nix-ci-build.pem".to_vec(),
            mode: 0o600,
            create_new: true,
            contents: "PEM".to_string(),
        }
    );
    let stage = stage.next(ConfigEvent::KeyWritten { reply: Ok(()) });
    assert_eq!(
        stage.action(),
        ConfigAction::RequestSpotFleet { config: spot_fleet_request("nix", Some(1_700_003_600)) }
    );
    let stage = stage.next(ConfigEvent::FleetRequested { reply: Ok(some("sfr-1")) });
    assert_eq!(
        stage.action(),
        ConfigAction::WriteState {
            state: State::new("sfr-1".to_string(), b"/builds/nix-ci-build.pem".to_vec())
        }
    );
    let stage = stage.next(ConfigEvent::StateWritten { reply: Ok(()) });
    assert_eq!(stage, ConfigStage::Done);
    assert_eq!(stage.action(), ConfigAction::Finish);
    // What is over stays over.
    assert_eq!(stage.next(key_pairs()), ConfigStage::Done);
}

#[test]
fn no_timeout_no_bound() {
    for timeout in [None, some(""), some("1h"), some("-5")] {
        let stage = ConfigStage::start(some("nix"), timeout);
        assert_eq!(
            stage,
            ConfigStage::AskKeyPairs { project_name: "nix".to_string(), valid_until: None }
        );
        let stage = stage.next(key_pairs()).next(parameter()).next(current_dir());
        let stage = stage.next(ConfigEvent::KeyWritten { reply: Ok(()) });
        assert_eq!(
            stage.action(),
            ConfigAction::RequestSpotFleet { config: spot_fleet_request("nix", None) }
        );
    }
}

#[test]
fn deadlines() {
    assert_eq!(deadline(1_700_000_000, 3600), 1_700_003_600);
    assert_eq!(deadline(0, i64::MAX as u64), i64::MAX);
    assert_eq!(deadline(1, i64::MAX as u64), i64::MAX);
    assert_eq!(deadline(u64::MAX, 0), i64::MAX);
    assert_eq!(deadline(1000, 18446744073709550615), i64::MAX);
    assert_eq!(deadline(u64::MAX, u64::MAX), i64::MAX);
    assert_eq!(deadline(0, 0), 0);
    assert_eq!(job_timeout(&some("+60")), Some(60));
    assert_eq!(job_timeout(&some("x")), None);
    assert_eq!(job_timeout(&None), None);
}

#[test]
fn the_longest_timeouts_end_with_time_itself() {
    for timeout in ["9223372036854775807", "18446744073709550615", "18446744073709551615"] {
        let stage = ConfigStage::start(some("nix"), some(timeout));
        assert_eq!(
            stage.next(ConfigEvent::Clock { reply: Ok(1000) }),
            ConfigStage::AskKeyPairs {
                project_name: "nix".to_string(),
                valid_until: Some(i64::MAX),
            }
        );
    }
}

#[test]
fn longer_timeouts_never_end_earlier() {
    let timeouts = [0, 1, 3600, i64::MAX as u64 - 1000, i64::MAX as u64, u64::MAX - 1000, u64::MAX];
    for pair in timeouts.windows(2) {
        assert!(1000 <= deadline(1000, pair[0]));
        assert!(deadline(1000, pair[0]) <= deadline(1000, pair[1]));
    }
}

#[test]
fn clock_faults() {
    let stage = ConfigStage::start(some("nix"), some("1"));
    let stage = stage.next(ConfigEvent::Clock { reply: Err("SystemTimeError(1s)".to_string()) });
    let error = "SystemTimeError(1s)".to_string();
    assert_eq!(stage, ConfigStage::Panicked { panic: ConfigPanic::Clock { error } });
    assert_eq!(
        panic_message(&stage),
        "called `Result::unwrap()` on an `Err` value: SystemTimeError(1s)"
    );
}

#[test]
fn no_project_name() {
    let stage = ConfigStage::start(None, some("3600"));
    assert_eq!(stage, ConfigStage::Failed { failure: ConfigFailure::NoProjectName });
    assert_eq!(message(&stage), some("CUSTOM_ENV_CI_PROJECT_NAME env var not set"));
}

#[test]
fn key_pair_faults() {
    let stage = started().next(ConfigEvent::KeyPairs { reply: Err("Timeout".to_string()) });
    assert_eq!(message(&stage), some("Failed to get the key pair for nix-ci-build: Timeout"));
    let stage = started().next(ConfigEvent::KeyPairs { reply: Ok(Some(vec![])) });
    assert_eq!(message(&stage), some("Failed to get the key pair ID for nix-ci-build..."));
}

#[test]
fn private_key_faults() {
    let asked = || started().next(key_pairs());
    let stage = asked().next(ConfigEvent::Parameter { reply: Err("Denied".to_string()) });
    assert_eq!(
        message(&stage),
        some("Failed to get the private key from /ec2/keypair/key-1: Denied")
    );
    let stage = asked().next(ConfigEvent::Parameter { reply: Ok(None) });
    assert_eq!(message(&stage), some("Failed to get the private key for nix-ci-build..."));
    let stage = asked().next(ConfigEvent::Parameter { reply: Ok(Some(Parameter { value: None })) });
    assert_eq!(message(&stage), some("Failed to get the private key for nix-ci-build..."));
}

#[test]
fn current_directory_fault() {
    let stage = started().next(key_pairs()).next(parameter());
    let stage = stage.next(ConfigEvent::CurrentDir { reply: Err("NotFound".to_string()) });
    assert_eq!(message(&stage), some("Failed to get current directory: NotFound"));
}

#[test]
fn key_file_fault() {
    let stage = started().next(key_pairs()).next(parameter()).next(current_dir());
    let stage = stage.next(ConfigEvent::KeyWritten { reply: Err("AlreadyExists".to_string()) });
    assert_eq!(
        message(&stage),
        some("Failed to write private key to /builds/nix-ci-build.pem: AlreadyExists")
    );
}

#[test]
fn paths_are_shown_as_the_text_that_they_are() {
    let stage = started().next(key_pairs()).next(parameter());
    let stage = stage.next(ConfigEvent::CurrentDir { reply: Ok("/bé".as_bytes().to_vec()) });
    let stage = stage.next(ConfigEvent::KeyWritten { reply: Err("E".to_string()) });
    assert_eq!(message(&stage), some("Failed to write private key to /bé/nix-ci-build.pem: E"));
}

#[test]
fn paths_that_are_not_text_are_shown_with_replacements() {
    let stage = started().next(key_pairs()).next(parameter());
    let stage = stage.next(ConfigEvent::CurrentDir { reply: Ok(b"/b\xff".to_vec()) });
    let stage = stage.next(ConfigEvent::KeyWritten { reply: Err("E".to_string()) });
    assert_eq!(
        message(&stage),
        some("Failed to write private key to /b\u{fffd}/nix-ci-build.pem: E")
    );
}

fn requesting() -> ConfigStage {
    let stage = started().next(key_pairs()).next(parameter()).next(current_dir());
    stage.next(ConfigEvent::KeyWritten { reply: Ok(()) })
}

#[test]
fn fleet_faults() {
    let stage = requesting().next(ConfigEvent::FleetRequested { reply: Ok(None) });
    assert_eq!(stage, ConfigStage::Failed { failure: ConfigFailure::NoFleetRequestId });
    assert_eq!(message(&stage), None);
    let stage = requesting().next(ConfigEvent::FleetRequested { reply: Err("Limit".to_string()) });
    assert_eq!(panic_message(&stage), "called `Result::unwrap()` on an `Err` value: Limit");
}

#[test]
fn a_fleet_that_cannot_be_noted_stops_the_driver() {
    let stage = requesting().next(ConfigEvent::FleetRequested { reply: Ok(some("sfr-1")) });
    let stage = stage.next(ConfigEvent::StateWritten { reply: Err("Full".to_string()) });
    assert_eq!(panic_message(&stage), "called `Result::unwrap()` on an `Err` value: Full");
}

#[test]
fn other_answers_change_nothing() {
    let stage = started().next(ConfigEvent::KeyWritten { reply: Ok(()) });
    assert_eq!(stage, started());
    let stage = stage.next(ConfigEvent::FleetRequested { reply: Ok(some("sfr-1")) });
    assert_eq!(stage, started());
}

#[test]
fn names() {
    assert_eq!(parameter_name_of("key-0a"), "/ec2/keypair/key-0a");
    assert_eq!(key_path_of(b"/b", "nix"), b"/b/nix-ci-build.pem");
    assert_eq!(key_path_of(b"/b", "/nix"), b"/nix-ci-build.pem");
}
