//! The config stage: fetch the key of the builder, request a spot fleet and
//! note the request for the stages that follow.
use crate::fleet::{build_name, build_name_of, key_pair_id, key_pair_id_in, spot_fleet_request};
use crate::fleet::{KeyPairInfo, SpotFleetRequestConfig};
use crate::number::{parse_u64, u64_in, IntError};
use crate::path::{display, join, joined, law_joined_path_holds_base_and_part};
use crate::path::{lemma_first_byte, shown};
use crate::state::{State, StateView};
use crate::text::{opt_text, unwrap_message};
use vstd::prelude::*;
use vstd::string::*;
use vstd::utf8::*;

verus! {

/// A parameter of the parameter store.
#[derive(Debug, PartialEq, Eq)]
pub struct Parameter {
    pub value: Option<String>,
}

/// Where the config stage stands. A stage that is named for a question waits
/// for its answer.
#[derive(Debug, PartialEq, Eq)]
pub enum ConfigStage {
    /// What time is it?
    AskClock { project_name: String, timeout_sec: u64 },
    /// Which key pair belongs to the project?
    AskKeyPairs { project_name: String, valid_until: Option<i64> },
    /// What is the private part of that key pair?
    AskPrivateKey { project_name: String, valid_until: Option<i64>, key_pair_id: String },
    /// Which directory does the driver run in?
    AskCurrentDir { project_name: String, valid_until: Option<i64>, private_key: String },
    /// The private key is to be written.
    WriteKey {
        project_name: String,
        valid_until: Option<i64>,
        private_key: String,
        current_dir: Vec<u8>,
    },
    /// The fleet is to be requested.
    RequestFleet { project_name: String, valid_until: Option<i64>, current_dir: Vec<u8> },
    /// The request is to be noted.
    WriteState { project_name: String, current_dir: Vec<u8>, spot_fleet_request_id: String },
    /// The stage is through.
    Done,
    /// The build has failed.
    Failed { failure: ConfigFailure },
    /// The driver cannot go on.
    Panicked { panic: ConfigPanic },
}

/// Why the config stage fails the build.
#[derive(Debug, PartialEq, Eq)]
pub enum ConfigFailure {
    NoProjectName,
    KeyPairs { project_name: String, error: String },
    NoKeyPairId { project_name: String },
    PrivateKey { key_pair_id: String, error: String },
    NoPrivateKey { project_name: String },
    CurrentDir { error: String },
    WriteKey { project_name: String, current_dir: Vec<u8>, error: String },
    NoFleetRequestId,
}

/// Why the config stage cannot go on.
#[derive(Debug, PartialEq, Eq)]
pub enum ConfigPanic {
    /// The clock cannot be read.
    Clock { error: String },
    /// The fleet was refused.
    RequestFleet { error: String },
    /// The request stands, but could not be noted.
    WriteState { error: String },
}

/// What happened outside.
#[derive(Debug, PartialEq, Eq)]
pub enum ConfigEvent {
    /// Seconds since the Unix epoch.
    Clock { reply: Result<u64, String> },
    KeyPairs { reply: Result<Option<Vec<KeyPairInfo>>, String> },
    Parameter { reply: Result<Option<Parameter>, String> },
    CurrentDir { reply: Result<Vec<u8>, String> },
    KeyWritten { reply: Result<(), String> },
    /// The identifier of the request.
    FleetRequested { reply: Result<Option<String>, String> },
    StateWritten { reply: Result<(), String> },
}

/// What is to be done outside.
#[derive(Debug, PartialEq, Eq)]
pub enum ConfigAction {
    ReadClock,
    DescribeKeyPairs { key_name: String },
    GetParameter { name: String, with_decryption: bool },
    ReadCurrentDir,
    /// Write a file that must not exist yet.
    WriteKey { path: Vec<u8>, mode: u32, create_new: bool, contents: String },
    RequestSpotFleet { config: SpotFleetRequestConfig },
    WriteState { state: State },
    Finish,
    /// Print the message, where there is one, and fail the build.
    FailBuild { message: Option<String> },
    Panic { message: String },
}

/// The name of the parameter that holds the private part of a key pair.
pub open spec fn parameter_name(key_pair_id: Seq<char>) -> Seq<char> {
    "/ec2/keypair/"@ + key_pair_id
}

/// Where the private key of a project is kept.
pub open spec fn key_path(current_dir: Seq<u8>, project_name: Seq<char>) -> Seq<u8> {
    joined(current_dir, encode_utf8(project_name + "-ci-build.pem"@))
}

/// The timeout that a job was given, where it is a number of seconds.
pub open spec fn job_timeout_in(job_timeout: Option<Seq<char>>) -> Option<int> {
    match job_timeout {
        Some(text) => match u64_in(text) {
            Ok(seconds) => Some(seconds),
            Err(_) => None,
        },
        None => None,
    }
}

/// `now + timeout_sec`, or the last time that there is where that lies beyond it.
pub open spec fn deadline_at(now: u64, timeout_sec: u64) -> i64 {
    if now + timeout_sec <= i64::MAX {
        (now + timeout_sec) as i64
    } else {
        i64::MAX
    }
}

/// The timeout that a job was given, where it is a number of seconds.
pub fn job_timeout(text: &Option<String>) -> (timeout_sec: Option<u64>)
    ensures
        match timeout_sec {
            Some(n) => job_timeout_in(opt_text(*text)) == Some(n as int),
            None => job_timeout_in(opt_text(*text)) is None,
        },
{
    match text {
        Some(t) => match parse_u64(t.as_str()) {
            Ok(seconds) => Some(seconds),
            Err(_) => None,
        },
        None => None,
    }
}

/// When a job that starts `now` runs out of time.
pub fn deadline(now: u64, timeout_sec: u64) -> (deadline: i64)
    ensures
        deadline == deadline_at(now, timeout_sec),
        now <= i64::MAX ==> deadline >= now,
{
    match now.checked_add(timeout_sec) {
        Some(sum) => if sum <= 0x7fff_ffff_ffff_ffff {
            sum as i64
        } else {
            i64::MAX
        },
        None => i64::MAX,
    }
}

impl ConfigStage {
    /// The stage that a job starts in.
    pub open spec fn is_start_of(
        self,
        project_name: Option<String>,
        job_timeout: Option<Seq<char>>,
    ) -> bool {
        match (project_name, job_timeout_in(job_timeout)) {
            (None, _) => self == (ConfigStage::Failed { failure: ConfigFailure::NoProjectName }),
            (Some(name), Some(timeout)) => {
                &&& self matches ConfigStage::AskClock { project_name: n, timeout_sec: t }
                &&& n == name
                &&& t == timeout
            },
            (Some(name), None) => self == (ConfigStage::AskKeyPairs {
                project_name: name,
                valid_until: None,
            }),
        }
    }

    /// The stage that follows when `event` happens. An answer to another
    /// question than the one that was asked changes nothing.
    pub open spec fn after(self, event: ConfigEvent) -> ConfigStage {
        match (self, event) {
            (
                ConfigStage::AskClock { project_name, timeout_sec },
                ConfigEvent::Clock { reply },
            ) => match reply {
                Ok(now) => ConfigStage::AskKeyPairs {
                    project_name,
                    valid_until: Some(deadline_at(now, timeout_sec)),
                },
                Err(error) => ConfigStage::Panicked { panic: ConfigPanic::Clock { error } },
            },
            (
                ConfigStage::AskKeyPairs { project_name, valid_until },
                ConfigEvent::KeyPairs { reply },
            ) => match reply {
                Ok(key_pairs) => match key_pair_id_in(key_pairs) {
                    Some(key_pair_id) => ConfigStage::AskPrivateKey {
                        project_name,
                        valid_until,
                        key_pair_id,
                    },
                    None => ConfigStage::Failed {
                        failure: ConfigFailure::NoKeyPairId { project_name },
                    },
                },
                Err(error) => ConfigStage::Failed {
                    failure: ConfigFailure::KeyPairs { project_name, error },
                },
            },
            (
                ConfigStage::AskPrivateKey { project_name, valid_until, key_pair_id },
                ConfigEvent::Parameter { reply },
            ) => match reply {
                Ok(Some(Parameter { value: Some(private_key) })) => ConfigStage::AskCurrentDir {
                    project_name,
                    valid_until,
                    private_key,
                },
                Ok(_) => ConfigStage::Failed {
                    failure: ConfigFailure::NoPrivateKey { project_name },
                },
                Err(error) => ConfigStage::Failed {
                    failure: ConfigFailure::PrivateKey { key_pair_id, error },
                },
            },
            (
                ConfigStage::AskCurrentDir { project_name, valid_until, private_key },
                ConfigEvent::CurrentDir { reply },
            ) => match reply {
                Ok(current_dir) => ConfigStage::WriteKey {
                    project_name,
                    valid_until,
                    private_key,
                    current_dir,
                },
                Err(error) => ConfigStage::Failed { failure: ConfigFailure::CurrentDir { error } },
            },
            (
                ConfigStage::WriteKey { project_name, valid_until, current_dir, .. },
                ConfigEvent::KeyWritten { reply },
            ) => match reply {
                Ok(_) => ConfigStage::RequestFleet { project_name, valid_until, current_dir },
                Err(error) => ConfigStage::Failed {
                    failure: ConfigFailure::WriteKey { project_name, current_dir, error },
                },
            },
            (
                ConfigStage::RequestFleet { project_name, current_dir, .. },
                ConfigEvent::FleetRequested { reply },
            ) => match reply {
                Ok(Some(spot_fleet_request_id)) => ConfigStage::WriteState {
                    project_name,
                    current_dir,
                    spot_fleet_request_id,
                },
                Ok(None) => ConfigStage::Failed { failure: ConfigFailure::NoFleetRequestId },
                Err(error) => ConfigStage::Panicked { panic: ConfigPanic::RequestFleet { error } },
            },
            (ConfigStage::WriteState { .. }, ConfigEvent::StateWritten { reply }) => match reply {
                Ok(_) => ConfigStage::Done,
                Err(error) => ConfigStage::Panicked { panic: ConfigPanic::WriteState { error } },
            },
            _ => self,
        }
    }

    /// Whether `action` is what this stage asks for.
    pub open spec fn asks(self, action: ConfigAction) -> bool {
        match self {
            ConfigStage::AskClock { .. } => action == ConfigAction::ReadClock,
            ConfigStage::AskKeyPairs { project_name, .. } => {
                &&& action matches ConfigAction::DescribeKeyPairs { key_name }
                &&& key_name@ == build_name(project_name@)
            },
            ConfigStage::AskPrivateKey { key_pair_id, .. } => {
                &&& action matches ConfigAction::GetParameter { name, with_decryption }
                &&& name@ == parameter_name(key_pair_id@)
                &&& with_decryption
            },
            ConfigStage::AskCurrentDir { .. } => action == ConfigAction::ReadCurrentDir,
            ConfigStage::WriteKey { project_name, private_key, current_dir, .. } => {
                &&& action matches ConfigAction::WriteKey { path, mode, create_new, contents }
                &&& path@ == key_path(current_dir@, project_name@)
                &&& mode == 0o600
                &&& create_new
                &&& contents@ == private_key@
            },
            ConfigStage::RequestFleet { project_name, valid_until, .. } => {
                &&& action matches ConfigAction::RequestSpotFleet { config }
                &&& config.is_request_of(project_name@, valid_until)
            },
            ConfigStage::WriteState { project_name, current_dir, spot_fleet_request_id } => {
                &&& action matches ConfigAction::WriteState { state }
                &&& state@ == (StateView {
                    spot_fleet_request_id: spot_fleet_request_id@,
                    private_key: key_path(current_dir@, project_name@),
                    instance_address: None,
                })
            },
            ConfigStage::Done => action == ConfigAction::Finish,
            ConfigStage::Failed { failure } => {
                &&& action matches ConfigAction::FailBuild { message }
                &&& opt_text(message) == failure.text()
            },
            ConfigStage::Panicked { panic } => {
                &&& action matches ConfigAction::Panic { message }
                &&& message@ == panic.text()
            },
        }
    }

    /// The stage that a job starts in.
    pub fn start(project_name: Option<String>, timeout: Option<String>) -> (stage: ConfigStage)
        ensures
            stage.is_start_of(project_name, opt_text(timeout)),
    {
        match project_name {
            None => ConfigStage::Failed { failure: ConfigFailure::NoProjectName },
            Some(project_name) => match job_timeout(&timeout) {
                Some(timeout_sec) => ConfigStage::AskClock { project_name, timeout_sec },
                None => ConfigStage::AskKeyPairs { project_name, valid_until: None },
            },
        }
    }

    /// The stage that follows when `event` happens.
    pub fn next(self, event: ConfigEvent) -> (stage: ConfigStage)
        ensures
            stage == self.after(event),
    {
        match (self, event) {
            (
                ConfigStage::AskClock { project_name, timeout_sec },
                ConfigEvent::Clock { reply },
            ) => match reply {
                Ok(now) => ConfigStage::AskKeyPairs {
                    project_name,
                    valid_until: Some(deadline(now, timeout_sec)),
                },
                Err(error) => ConfigStage::Panicked { panic: ConfigPanic::Clock { error } },
            },
            (
                ConfigStage::AskKeyPairs { project_name, valid_until },
                ConfigEvent::KeyPairs { reply },
            ) => match reply {
                Ok(key_pairs) => match key_pair_id(key_pairs) {
                    Some(key_pair_id) => ConfigStage::AskPrivateKey {
                        project_name,
                        valid_until,
                        key_pair_id,
                    },
                    None => ConfigStage::Failed {
                        failure: ConfigFailure::NoKeyPairId { project_name },
                    },
                },
                Err(error) => ConfigStage::Failed {
                    failure: ConfigFailure::KeyPairs { project_name, error },
                },
            },
            (
                ConfigStage::AskPrivateKey { project_name, valid_until, key_pair_id },
                ConfigEvent::Parameter { reply },
            ) => match reply {
                Ok(Some(Parameter { value: Some(private_key) })) => ConfigStage::AskCurrentDir {
                    project_name,
                    valid_until,
                    private_key,
                },
                Ok(_) => ConfigStage::Failed {
                    failure: ConfigFailure::NoPrivateKey { project_name },
                },
                Err(error) => ConfigStage::Failed {
                    failure: ConfigFailure::PrivateKey { key_pair_id, error },
                },
            },
            (
                ConfigStage::AskCurrentDir { project_name, valid_until, private_key },
                ConfigEvent::CurrentDir { reply },
            ) => match reply {
                Ok(current_dir) => ConfigStage::WriteKey {
                    project_name,
                    valid_until,
                    private_key,
                    current_dir,
                },
                Err(error) => ConfigStage::Failed { failure: ConfigFailure::CurrentDir { error } },
            },
            (
                ConfigStage::WriteKey { project_name, valid_until, current_dir, .. },
                ConfigEvent::KeyWritten { reply },
            ) => match reply {
                Ok(_) => ConfigStage::RequestFleet { project_name, valid_until, current_dir },
                Err(error) => ConfigStage::Failed {
                    failure: ConfigFailure::WriteKey { project_name, current_dir, error },
                },
            },
            (
                ConfigStage::RequestFleet { project_name, current_dir, .. },
                ConfigEvent::FleetRequested { reply },
            ) => match reply {
                Ok(Some(spot_fleet_request_id)) => ConfigStage::WriteState {
                    project_name,
                    current_dir,
                    spot_fleet_request_id,
                },
                Ok(None) => ConfigStage::Failed { failure: ConfigFailure::NoFleetRequestId },
                Err(error) => ConfigStage::Panicked { panic: ConfigPanic::RequestFleet { error } },
            },
            (ConfigStage::WriteState { .. }, ConfigEvent::StateWritten { reply }) => match reply {
                Ok(_) => ConfigStage::Done,
                Err(error) => ConfigStage::Panicked { panic: ConfigPanic::WriteState { error } },
            },
            (stage, _) => stage,
        }
    }

    /// What this stage asks for.
    pub fn action(&self) -> (action: ConfigAction)
        ensures
            self.asks(action),
    {
        match self {
            ConfigStage::AskClock { .. } => ConfigAction::ReadClock,
            ConfigStage::AskKeyPairs { project_name, .. } => ConfigAction::DescribeKeyPairs {
                key_name: build_name_of(project_name.as_str()),
            },
            ConfigStage::AskPrivateKey { key_pair_id, .. } => ConfigAction::GetParameter {
                name: parameter_name_of(key_pair_id.as_str()),
                with_decryption: true,
            },
            ConfigStage::AskCurrentDir { .. } => ConfigAction::ReadCurrentDir,
            ConfigStage::WriteKey { project_name, private_key, current_dir, .. } => {
                ConfigAction::WriteKey {
                    path: key_path_of(current_dir.as_slice(), project_name.as_str()),
                    mode: 0o600,
                    create_new: true,
                    contents: private_key.clone(),
                }
            },
            ConfigStage::RequestFleet { project_name, valid_until, .. } => {
                ConfigAction::RequestSpotFleet {
                    config: spot_fleet_request(project_name.as_str(), *valid_until),
                }
            },
            ConfigStage::WriteState { project_name, current_dir, spot_fleet_request_id } => {
                ConfigAction::WriteState {
                    state: State::new(
                        spot_fleet_request_id.clone(),
                        key_path_of(current_dir.as_slice(), project_name.as_str()),
                    ),
                }
            },
            ConfigStage::Done => ConfigAction::Finish,
            ConfigStage::Failed { failure } => ConfigAction::FailBuild {
                message: failure.message(),
            },
            ConfigStage::Panicked { panic } => ConfigAction::Panic { message: panic.message() },
        }
    }
}

/// The name of the parameter that holds the private part of a key pair.
pub fn parameter_name_of(key_pair_id: &str) -> (name: String)
    ensures
        name@ == parameter_name(key_pair_id@),
{
    "/ec2/keypair/".to_owned().concat(key_pair_id)
}

/// Where the private key of a project is kept.
pub fn key_path_of(current_dir: &[u8], project_name: &str) -> (path: Vec<u8>)
    ensures
        path@ == key_path(current_dir@, project_name@),
{
    let name = project_name.to_owned().concat("-ci-build.pem");
    join(current_dir, name.as_str().as_bytes())
}

impl ConfigFailure {
    /// What is printed. A fleet without an identifier is passed over in silence.
    pub open spec fn text(self) -> Option<Seq<char>> {
        match self {
            ConfigFailure::NoProjectName => Some("CUSTOM_ENV_CI_PROJECT_NAME env var not set"@),
            ConfigFailure::KeyPairs { project_name, error } => Some(
                "Failed to get the key pair for "@ + build_name(project_name@) + ": "@ + error@,
            ),
            ConfigFailure::NoKeyPairId { project_name } => Some(
                "Failed to get the key pair ID for "@ + build_name(project_name@) + "..."@,
            ),
            ConfigFailure::PrivateKey { key_pair_id, error } => Some(
                "Failed to get the private key from "@ + parameter_name(key_pair_id@) + ": "@
                    + error@,
            ),
            ConfigFailure::NoPrivateKey { project_name } => Some(
                "Failed to get the private key for "@ + build_name(project_name@) + "..."@,
            ),
            ConfigFailure::CurrentDir { error } => Some(
                "Failed to get current directory: "@ + error@,
            ),
            ConfigFailure::WriteKey { project_name, current_dir, error } => Some(
                "Failed to write private key to "@ + shown(key_path(current_dir@, project_name@))
                    + ": "@ + error@,
            ),
            ConfigFailure::NoFleetRequestId => None,
        }
    }

    /// What is printed.
    pub fn message(&self) -> (message: Option<String>)
        ensures
            opt_text(message) == self.text(),
    {
        match self {
            ConfigFailure::NoProjectName => Some(
                "CUSTOM_ENV_CI_PROJECT_NAME env var not set".to_owned(),
            ),
            ConfigFailure::KeyPairs { project_name, error } => Some(
                "Failed to get the key pair for ".to_owned().concat(
                    build_name_of(project_name.as_str()).as_str(),
                ).concat(": ").concat(error.as_str()),
            ),
            ConfigFailure::NoKeyPairId { project_name } => Some(
                "Failed to get the key pair ID for ".to_owned().concat(
                    build_name_of(project_name.as_str()).as_str(),
                ).concat("..."),
            ),
            ConfigFailure::PrivateKey { key_pair_id, error } => Some(
                "Failed to get the private key from ".to_owned().concat(
                    parameter_name_of(key_pair_id.as_str()).as_str(),
                ).concat(": ").concat(error.as_str()),
            ),
            ConfigFailure::NoPrivateKey { project_name } => Some(
                "Failed to get the private key for ".to_owned().concat(
                    build_name_of(project_name.as_str()).as_str(),
                ).concat("..."),
            ),
            ConfigFailure::CurrentDir { error } => Some(
                "Failed to get current directory: ".to_owned().concat(error.as_str()),
            ),
            ConfigFailure::WriteKey { project_name, current_dir, error } => {
                let path = key_path_of(current_dir.as_slice(), project_name.as_str());
                Some(
                    "Failed to write private key to ".to_owned().concat(
                        display(path.as_slice()).as_str(),
                    ).concat(": ").concat(error.as_str()),
                )
            },
            ConfigFailure::NoFleetRequestId => None,
        }
    }
}

impl ConfigPanic {
    /// The words with which the driver stops.
    pub open spec fn text(self) -> Seq<char> {
        match self {
            ConfigPanic::Clock { error } => unwrap_message(error@),
            ConfigPanic::RequestFleet { error } => unwrap_message(error@),
            ConfigPanic::WriteState { error } => unwrap_message(error@),
        }
    }

    /// The words with which the driver stops.
    pub fn message(&self) -> (message: String)
        ensures
            message@ == self.text(),
    {
        let error = match self {
            ConfigPanic::Clock { error } => error,
            ConfigPanic::RequestFleet { error } => error,
            ConfigPanic::WriteState { error } => error,
        };
        "called `Result::unwrap()` on an `Err` value: ".to_owned().concat(error.as_str())
    }
}

impl ConfigStage {
    /// The stage that a run of events leads to.
    pub open spec fn after_all(self, events: Seq<ConfigEvent>) -> ConfigStage
        decreases events.len(),
    {
        if events.len() == 0 {
            self
        } else {
            self.after_all(events.drop_last()).after(events.last())
        }
    }

    /// Whether the stage is over.
    pub open spec fn is_over(self) -> bool {
        self is Done || self is Failed || self is Panicked
    }

    /// The project that is still being worked for.
    pub open spec fn project(self) -> Option<String> {
        match self {
            ConfigStage::AskClock { project_name, .. } => Some(project_name),
            ConfigStage::AskKeyPairs { project_name, .. } => Some(project_name),
            ConfigStage::AskPrivateKey { project_name, .. } => Some(project_name),
            ConfigStage::AskCurrentDir { project_name, .. } => Some(project_name),
            ConfigStage::WriteKey { project_name, .. } => Some(project_name),
            ConfigStage::RequestFleet { project_name, .. } => Some(project_name),
            ConfigStage::WriteState { project_name, .. } => Some(project_name),
            _ => None,
        }
    }

    /// The bound on the fleet request, from when it is settled until the fleet is requested.
    pub open spec fn bound(self) -> Option<Option<i64>> {
        match self {
            ConfigStage::AskKeyPairs { valid_until, .. } => Some(valid_until),
            ConfigStage::AskPrivateKey { valid_until, .. } => Some(valid_until),
            ConfigStage::AskCurrentDir { valid_until, .. } => Some(valid_until),
            ConfigStage::WriteKey { valid_until, .. } => Some(valid_until),
            ConfigStage::RequestFleet { valid_until, .. } => Some(valid_until),
            _ => None,
        }
    }

    /// The directory of the key, from when the key is to be written.
    pub open spec fn key_dir(self) -> Option<Vec<u8>> {
        match self {
            ConfigStage::WriteKey { current_dir, .. } => Some(current_dir),
            ConfigStage::RequestFleet { current_dir, .. } => Some(current_dir),
            ConfigStage::WriteState { current_dir, .. } => Some(current_dir),
            _ => None,
        }
    }
}

impl ConfigEvent {
    /// The key lies on disk.
    pub open spec fn is_key_written(self) -> bool {
        self matches ConfigEvent::KeyWritten { reply } && reply is Ok
    }
}

/// A stage that is over stays over, whatever happens.
pub proof fn law_config_stays_over(stage: ConfigStage, events: Seq<ConfigEvent>)
    requires
        stage.is_over(),
    ensures
        stage.after_all(events) == stage,
    decreases events.len(),
{
    if events.len() > 0 {
        law_config_stays_over(stage, events.drop_last());
    }
}

/// Whatever happens, the stage works for the project that it was started for.
pub proof fn law_config_keeps_the_project(
    start: ConfigStage,
    project_name: String,
    job_timeout: Option<Seq<char>>,
    events: Seq<ConfigEvent>,
)
    requires
        start.is_start_of(Some(project_name), job_timeout),
    ensures
        start.after_all(events).is_over() || start.after_all(events).project() == Some(
            project_name,
        ),
    decreases events.len(),
{
    if events.len() > 0 {
        law_config_keeps_the_project(start, project_name, job_timeout, events.drop_last());
    }
}

/// No fleet is requested, and none is noted, before the key that opens its
/// instances was written: to the very path that the note will name.
pub proof fn law_key_is_written_before_the_fleet(
    start: ConfigStage,
    project_name: Option<String>,
    job_timeout: Option<Seq<char>>,
    events: Seq<ConfigEvent>,
)
    requires
        start.is_start_of(project_name, job_timeout),
        start.after_all(events) is RequestFleet || start.after_all(events) is WriteState,
    ensures
        exists|i: int|
            0 <= i < events.len() && (#[trigger] events[i]).is_key_written() && start.after_all(events.take(i)) is WriteKey && start.after_all(
                events.take(i),
            ).key_dir() == start.after_all(events).key_dir() && start.after_all(
                events.take(i),
            ).project() == start.after_all(events).project(),
    decreases events.len(),
{
    if events.len() > 0 {
        let before = start.after_all(events.drop_last());
        let last = events.len() - 1;
        assert(events.take(last) =~= events.drop_last());
        if before is RequestFleet || before is WriteState {
            law_key_is_written_before_the_fleet(
                start,
                project_name,
                job_timeout,
                events.drop_last(),
            );
            let i = choose|i: int|
                0 <= i < events.drop_last().len() && (
                #[trigger] events.drop_last()[i]).is_key_written() && start.after_all(
                    events.drop_last().take(i),
                ) is WriteKey && start.after_all(events.drop_last().take(i)).key_dir()
                    == before.key_dir() && start.after_all(events.drop_last().take(i)).project()
                    == before.project();
            assert(events.drop_last().take(i) =~= events.take(i));
            assert(events[i].is_key_written());
        } else {
            assert(before is WriteKey);
            assert(events[last].is_key_written());
        }
    }
}

/// Once the fleet has been given an identifier, that identifier is noted, with
/// the key and without an address. After that, only the note itself can fail.
pub proof fn law_fleet_is_noted(
    stage: ConfigStage,
    id: String,
    action: ConfigAction,
    events: Seq<ConfigEvent>,
)
    requires
        stage is RequestFleet,
        stage.after(ConfigEvent::FleetRequested { reply: Ok(Some(id)) }).asks(action),
    ensures
        action matches ConfigAction::WriteState { state } && state@ == (StateView {
            spot_fleet_request_id: id@,
            private_key: key_path(stage.key_dir()->0@, stage.project()->0@),
            instance_address: None,
        }),
        ({
            let noting = stage.after(ConfigEvent::FleetRequested { reply: Ok(Some(id)) });
            let end = noting.after_all(events);
            ||| end == noting
            ||| end is Done
            ||| end matches ConfigStage::Panicked { panic: ConfigPanic::WriteState { .. } }
        }),
    decreases events.len(),
{
    if events.len() > 0 {
        law_fleet_is_noted(stage, id, action, events.drop_last());
    }
}

/// A job without a timeout makes a request without a bound.
pub proof fn law_no_timeout_no_bound(
    start: ConfigStage,
    project_name: String,
    job_timeout: Option<Seq<char>>,
    events: Seq<ConfigEvent>,
)
    requires
        start.is_start_of(Some(project_name), job_timeout),
        job_timeout_in(job_timeout) is None,
    ensures
        start.after_all(events).bound() matches Some(bound) ==> bound is None,
        !(start.after_all(events) is AskClock),
    decreases events.len(),
{
    if events.len() > 0 {
        law_no_timeout_no_bound(start, project_name, job_timeout, events.drop_last());
    }
}

/// A job with a timeout makes a request that is bounded by the timeout, counted
/// from a time that the clock gave, and never by a time before that.
pub proof fn law_timeout_bounds_the_request(
    start: ConfigStage,
    project_name: String,
    job_timeout: Option<Seq<char>>,
    events: Seq<ConfigEvent>,
)
    requires
        start.is_start_of(Some(project_name), job_timeout),
        job_timeout_in(job_timeout) is Some,
    ensures
        start.after_all(events) is AskClock ==> start.after_all(events) == start,
        start.after_all(events).bound() matches Some(bound) ==> exists|now: u64|
            {
                &&& events.contains(#[trigger] clock_event(now))
                &&& bound == Some(deadline_at(now, job_timeout_in(job_timeout)->0 as u64))
                &&& now <= i64::MAX ==> now <= bound->0
            },
    decreases events.len(),
{
    if events.len() > 0 {
        let before = start.after_all(events.drop_last());
        law_timeout_bounds_the_request(start, project_name, job_timeout, events.drop_last());
        let end = start.after_all(events);
        if end.bound() is Some {
            if before.bound() is Some {
                let now = choose|now: u64|
                    {
                        &&& events.drop_last().contains(#[trigger] clock_event(now))
                                &&& before.bound()->0 == Some(
                            deadline_at(now, job_timeout_in(job_timeout)->0 as u64),
                        )
                    };
                let i = events.drop_last().index_of(clock_event(now));
                assert(events[i] == clock_event(now));
                assert(events.contains(clock_event(now)));
            } else {
                assert(before is AskClock);
                let now = events.last()->Clock_reply->Ok_0;
                assert(events[events.len() - 1] == clock_event(now));
                assert(events.contains(clock_event(now)));
            }
        }
    }
}

/// The clock answers.
pub open spec fn clock_event(now: u64) -> ConfigEvent {
    ConfigEvent::Clock { reply: Ok(now) }
}

/// Where times fit, a deadline is the time it was counted from plus the timeout.
pub proof fn law_deadline_is_the_sum(now: u64, timeout_sec: u64)
    requires
        now + timeout_sec <= i64::MAX,
    ensures
        deadline_at(now, timeout_sec) == now + timeout_sec,
{
}

/// A deadline never lies before the time that it was counted from. (A clock
/// beyond the last time that there is leaves no room for one.)
pub proof fn law_deadline_is_not_in_the_past(now: u64, timeout_sec: u64)
    requires
        now <= i64::MAX,
    ensures
        now <= deadline_at(now, timeout_sec),
{
}

/// A longer timeout never gives an earlier deadline, nor does a later start.
pub proof fn law_deadline_grows(now: u64, later: u64, shorter: u64, longer: u64)
    requires
        now <= later,
        shorter <= longer,
    ensures
        deadline_at(now, shorter) <= deadline_at(later, longer),
        0 <= deadline_at(now, shorter),
{
}

impl ConfigStage {
    /// Whether `event` answers what this stage asks for.
    pub open spec fn answered_by(self, event: ConfigEvent) -> bool {
        match self {
            ConfigStage::AskClock { .. } => event is Clock,
            ConfigStage::AskKeyPairs { .. } => event is KeyPairs,
            ConfigStage::AskPrivateKey { .. } => event is Parameter,
            ConfigStage::AskCurrentDir { .. } => event is CurrentDir,
            ConfigStage::WriteKey { .. } => event is KeyWritten,
            ConfigStage::RequestFleet { .. } => event is FleetRequested,
            ConfigStage::WriteState { .. } => event is StateWritten,
            _ => false,
        }
    }

    /// How many answers the stage can still wait for.
    pub open spec fn answers_left(self) -> nat {
        match self {
            ConfigStage::AskClock { .. } => 7,
            ConfigStage::AskKeyPairs { .. } => 6,
            ConfigStage::AskPrivateKey { .. } => 5,
            ConfigStage::AskCurrentDir { .. } => 4,
            ConfigStage::WriteKey { .. } => 3,
            ConfigStage::RequestFleet { .. } => 2,
            ConfigStage::WriteState { .. } => 1,
            _ => 0,
        }
    }
}

/// Every answer brings the stage closer to its end, and anything else leaves it
/// where it is.
pub proof fn law_config_moves_on(stage: ConfigStage, event: ConfigEvent)
    ensures
        stage.answers_left() == 0 <==> stage.is_over(),
        stage.answered_by(event) ==> stage.after(event).answers_left() < stage.answers_left(),
        !stage.answered_by(event) ==> stage.after(event) == stage,
{
}

/// The private key is written as the parameter store gave it: what stands in the
/// file that the stage asks for is, character for character, the value of a
/// parameter that came back before.
pub proof fn law_key_file_holds_what_the_store_gave(
    start: ConfigStage,
    project_name: Option<String>,
    job_timeout: Option<Seq<char>>,
    events: Seq<ConfigEvent>,
    path: Vec<u8>,
    mode: u32,
    create_new: bool,
    contents: String,
)
    requires
        start.is_start_of(project_name, job_timeout),
        start.after_all(events).asks(ConfigAction::WriteKey { path, mode, create_new, contents }),
    ensures
        exists|i: int, value: String|
            0 <= i < events.len() && #[trigger] events[i] == (ConfigEvent::Parameter {
                reply: Ok(Some(Parameter { value: Some(value) })),
            }) && contents@ == #[trigger] value@,
{
    lemma_held_key_was_given(start, project_name, job_timeout, events);
    let private_key = start.after_all(events)->WriteKey_private_key;
    let i = choose|i: int|
        0 <= i < events.len() && #[trigger] events[i] == (ConfigEvent::Parameter {
            reply: Ok(Some(Parameter { value: Some(private_key) })),
        });
    assert(events[i] == (ConfigEvent::Parameter {
        reply: Ok(Some(Parameter { value: Some(private_key) })),
    }) && contents@ == private_key@);
}

/// A private key that the stage holds came back from the parameter store.
proof fn lemma_held_key_was_given(
    start: ConfigStage,
    project_name: Option<String>,
    job_timeout: Option<Seq<char>>,
    events: Seq<ConfigEvent>,
)
    requires
        start.is_start_of(project_name, job_timeout),
    ensures
        start.after_all(events) matches ConfigStage::AskCurrentDir { private_key, .. } ==> exists|
            i: int,
        |
            0 <= i < events.len() && #[trigger] events[i] == (ConfigEvent::Parameter {
                reply: Ok(Some(Parameter { value: Some(private_key) })),
            }),
        start.after_all(events) matches ConfigStage::WriteKey { private_key, .. } ==> exists|
            i: int,
        |
            0 <= i < events.len() && #[trigger] events[i] == (ConfigEvent::Parameter {
                reply: Ok(Some(Parameter { value: Some(private_key) })),
            }),
    decreases events.len(),
{
    if events.len() > 0 {
        let earlier = events.drop_last();
        let before = start.after_all(earlier);
        lemma_held_key_was_given(start, project_name, job_timeout, earlier);
        if before is AskCurrentDir {
            let i = choose|i: int|
                0 <= i < earlier.len() && #[trigger] earlier[i] == (ConfigEvent::Parameter {
                    reply: Ok(
                        Some(Parameter { value: Some(before->AskCurrentDir_private_key) }),
                    ),
                });
            assert(events[i] == earlier[i]);
        } else if before is WriteKey {
            let i = choose|i: int|
                0 <= i < earlier.len() && #[trigger] earlier[i] == (ConfigEvent::Parameter {
                    reply: Ok(Some(Parameter { value: Some(before->WriteKey_private_key) })),
                });
            assert(events[i] == earlier[i]);
        } else {
            assert(events[events.len() - 1] == events.last());
        }
    }
}

/// Whatever the project and whatever the bound, with or without one, the fleet that
/// the stage asks for has exactly one instance, made from the project's template, and
/// the bound that the stage holds.
pub proof fn law_fleet_has_one_instance(
    project_name: String,
    valid_until: Option<i64>,
    current_dir: Vec<u8>,
    config: SpotFleetRequestConfig,
)
    requires
        (ConfigStage::RequestFleet { project_name, valid_until, current_dir }).asks(
            ConfigAction::RequestSpotFleet { config },
        ),
    ensures
        config.target_capacity == 1,
        config.target_capacity_unit_type is Units,
        config.terminate_instances_with_expiration,
        config.launch_template_configs@.len() == 1,
        config.launch_template_configs@[0].launch_template_name@ == project_name@ + "-ci-build"@,
        config.valid_until == valid_until,
{
}

/// A job without a project fails at once. A timeout in seconds sends the stage to the
/// clock first; without one it asks for the project's key pair, and the request will
/// have no bound.
pub proof fn law_config_first_question(
    start: ConfigStage,
    project_name: Option<String>,
    job_timeout: Option<Seq<char>>,
    action: ConfigAction,
)
    requires
        start.is_start_of(project_name, job_timeout),
        start.asks(action),
    ensures
        project_name is None ==> (action matches ConfigAction::FailBuild { message: Some(said) }
            && said@ == "CUSTOM_ENV_CI_PROJECT_NAME env var not set"@),
        project_name is Some && job_timeout is Some && u64_in(job_timeout->0) is Ok ==> action
            is ReadClock,
        project_name is Some && (job_timeout is None || u64_in(job_timeout->0) is Err) ==> start
            == (ConfigStage::AskKeyPairs { project_name: project_name->0, valid_until: None }) && (
        action matches ConfigAction::DescribeKeyPairs { key_name } && key_name@
            == project_name->0@ + "-ci-build"@),
{
}

/// The bound of the request is the time that the clock gave plus the timeout of the
/// job, or the last time that there is where that lies beyond it. A clock that cannot
/// be read stops the driver.
pub proof fn law_config_reads_the_clock(
    start: ConfigStage,
    project_name: String,
    job_timeout: Seq<char>,
    seconds: int,
    reply: Result<u64, String>,
    action: ConfigAction,
)
    requires
        start.is_start_of(Some(project_name), Some(job_timeout)),
        u64_in(job_timeout) == Ok::<int, IntError>(seconds),
        start.after(ConfigEvent::Clock { reply }).asks(action),
    ensures
        reply matches Ok(now) ==> {
            &&& start.after(ConfigEvent::Clock { reply }) matches ConfigStage::AskKeyPairs {
                project_name: name,
                valid_until: Some(bound),
            }
            &&& name == project_name
            &&& now + seconds <= 0x7fff_ffff_ffff_ffff ==> bound == now + seconds
            &&& now + seconds > 0x7fff_ffff_ffff_ffff ==> bound == 0x7fff_ffff_ffff_ffff
            &&& action matches ConfigAction::DescribeKeyPairs { key_name }
            &&& key_name@ == project_name@ + "-ci-build"@
        },
        reply matches Err(error) ==> (action matches ConfigAction::Panic { message } && message@
            == "called `Result::unwrap()` on an `Err` value: "@ + error@),
{
}

/// Where every answer is a good one, the stage asks, in this order, for the project's
/// key pair, for the private part of the first one in the reply, for the current
/// directory, for that key to be written to a new file there that its owner alone can
/// read, for the fleet, and for a record of the request and of that very file.
pub proof fn law_config_course(
    project_name: String,
    bound: Option<i64>,
    key_pairs: Vec<KeyPairInfo>,
    key_pair_id: String,
    private_key: String,
    current_dir: Vec<u8>,
    id: String,
    written: Result<(), String>,
    stages: Seq<ConfigStage>,
    asked: Seq<ConfigAction>,
)
    requires
        key_pairs@.len() > 0,
        key_pairs@[0].key_pair_id == Some(key_pair_id),
        written is Ok,
        stages.len() == 7,
        asked.len() == 7,
        stages[0] == (ConfigStage::AskKeyPairs { project_name, valid_until: bound }),
        stages[1] == stages[0].after(ConfigEvent::KeyPairs { reply: Ok(Some(key_pairs)) }),
        stages[2] == stages[1].after(
            ConfigEvent::Parameter { reply: Ok(Some(Parameter { value: Some(private_key) })) },
        ),
        stages[3] == stages[2].after(ConfigEvent::CurrentDir { reply: Ok(current_dir) }),
        stages[4] == stages[3].after(ConfigEvent::KeyWritten { reply: written }),
        stages[5] == stages[4].after(ConfigEvent::FleetRequested { reply: Ok(Some(id)) }),
        stages[6] == stages[5].after(ConfigEvent::StateWritten { reply: written }),
        forall|i: int| 0 <= i < 7 ==> (#[trigger] stages[i]).asks(asked[i]),
    ensures
        asked[0] matches ConfigAction::DescribeKeyPairs { key_name } && key_name@ == project_name@
            + "-ci-build"@,
        asked[1] matches ConfigAction::GetParameter { name, with_decryption } && name@
            == "/ec2/keypair/"@ + key_pair_id@ && with_decryption,
        asked[2] is ReadCurrentDir,
        asked[3] matches ConfigAction::WriteKey { path, mode, create_new, contents } && path@
            == joined(current_dir@, encode_utf8(project_name@ + "-ci-build.pem"@)) && mode == 384
            && create_new && contents@ == private_key@,
        asked[4] matches ConfigAction::RequestSpotFleet { config } && config.target_capacity == 1
            && config.valid_until == bound && config.launch_template_configs@.len() == 1
            && config.launch_template_configs@[0].launch_template_name@ == project_name@
            + "-ci-build"@,
        asked[5] matches ConfigAction::WriteState { state } && state.spot_fleet_request_id@ == id@
            && state.private_key@ == asked[3]->path@ && state.instance_address is None,
        asked[6] is Finish,
{
    assert(stages[0].asks(asked[0]));
    assert(stages[1].asks(asked[1]));
    assert(stages[2].asks(asked[2]));
    assert(stages[3].asks(asked[3]));
    assert(stages[4].asks(asked[4]));
    assert(stages[5].asks(asked[5]));
    assert(stages[6].asks(asked[6]));
}

/// Without a key pair the build fails, in words that name what was looked for: a reply
/// without a first key pair, or with one that has no identifier, counts as none.
pub proof fn law_config_needs_a_key_pair(
    project_name: String,
    bound: Option<i64>,
    reply: Result<Option<Vec<KeyPairInfo>>, String>,
    action: ConfigAction,
)
    requires
        (ConfigStage::AskKeyPairs { project_name, valid_until: bound }).after(
            ConfigEvent::KeyPairs { reply },
        ).asks(action),
    ensures
        reply matches Err(error) ==> (action matches ConfigAction::FailBuild {
            message: Some(said),
        } && said@ == "Failed to get the key pair for "@ + (project_name@ + "-ci-build"@) + ": "@
            + error@),
        reply matches Ok(key_pairs) ==> (key_pairs is None || key_pairs->0@.len() == 0
            || key_pairs->0@[0].key_pair_id is None) ==> (action matches ConfigAction::FailBuild {
            message: Some(said),
        } && said@ == "Failed to get the key pair ID for "@ + (project_name@ + "-ci-build"@)
            + "..."@),
{
}

/// Without a private key the build fails, in words that name where it was looked for.
pub proof fn law_config_needs_a_private_key(
    project_name: String,
    bound: Option<i64>,
    key_pair_id: String,
    reply: Result<Option<Parameter>, String>,
    action: ConfigAction,
)
    requires
        (ConfigStage::AskPrivateKey { project_name, valid_until: bound, key_pair_id }).after(
            ConfigEvent::Parameter { reply },
        ).asks(action),
    ensures
        reply matches Err(error) ==> (action matches ConfigAction::FailBuild {
            message: Some(said),
        } && said@ == "Failed to get the private key from "@ + ("/ec2/keypair/"@ + key_pair_id@)
            + ": "@ + error@),
        reply matches Ok(parameter) ==> (parameter is None || parameter->0.value is None) ==> (
        action matches ConfigAction::FailBuild { message: Some(said) } && said@
            == "Failed to get the private key for "@ + (project_name@ + "-ci-build"@) + "..."@),
{
}

/// Without a directory, or where the key cannot be written there, the build fails, in
/// words that name the file.
pub proof fn law_config_needs_a_key_file(
    project_name: String,
    bound: Option<i64>,
    private_key: String,
    current_dir: Vec<u8>,
    error: String,
    lost: ConfigAction,
    unwritten: ConfigAction,
)
    requires
        (ConfigStage::AskCurrentDir { project_name, valid_until: bound, private_key }).after(
            ConfigEvent::CurrentDir { reply: Err(error) },
        ).asks(lost),
        (ConfigStage::WriteKey {
            project_name,
            valid_until: bound,
            private_key,
            current_dir,
        }).after(ConfigEvent::KeyWritten { reply: Err(error) }).asks(unwritten),
    ensures
        lost matches ConfigAction::FailBuild { message: Some(said) } && said@
            == "Failed to get current directory: "@ + error@,
        unwritten matches ConfigAction::FailBuild { message: Some(said) } && said@
            == "Failed to write private key to "@ + shown(
            joined(current_dir@, encode_utf8(project_name@ + "-ci-build.pem"@)),
        ) + ": "@ + error@,
{
}

/// A fleet without an identifier fails the build without a word. A fleet that was
/// refused, and a request that could not be noted, stop the driver.
pub proof fn law_config_needs_a_fleet(
    project_name: String,
    bound: Option<i64>,
    current_dir: Vec<u8>,
    id: String,
    error: String,
    nameless: ConfigAction,
    refused: ConfigAction,
    unwritten: ConfigAction,
)
    requires
        (ConfigStage::RequestFleet { project_name, valid_until: bound, current_dir }).after(
            ConfigEvent::FleetRequested { reply: Ok(None) },
        ).asks(nameless),
        (ConfigStage::RequestFleet { project_name, valid_until: bound, current_dir }).after(
            ConfigEvent::FleetRequested { reply: Err(error) },
        ).asks(refused),
        (ConfigStage::WriteState { project_name, current_dir, spot_fleet_request_id: id }).after(
            ConfigEvent::StateWritten { reply: Err(error) },
        ).asks(unwritten),
    ensures
        nameless matches ConfigAction::FailBuild { message } && message is None,
        refused matches ConfigAction::Panic { message } && message@
            == "called `Result::unwrap()` on an `Err` value: "@ + error@,
        unwritten matches ConfigAction::Panic { message } && message@
            == "called `Result::unwrap()` on an `Err` value: "@ + error@,
{
}

/// An answer to another question than the one that was asked changes nothing, and
/// neither does any answer once the stage asks to end.
pub proof fn law_config_hears_only_the_answer(
    stage: ConfigStage,
    action: ConfigAction,
    event: ConfigEvent,
)
    requires
        stage.asks(action),
        match action {
            ConfigAction::ReadClock => !(event is Clock),
            ConfigAction::DescribeKeyPairs { .. } => !(event is KeyPairs),
            ConfigAction::GetParameter { .. } => !(event is Parameter),
            ConfigAction::ReadCurrentDir => !(event is CurrentDir),
            ConfigAction::WriteKey { .. } => !(event is KeyWritten),
            ConfigAction::RequestSpotFleet { .. } => !(event is FleetRequested),
            ConfigAction::WriteState { .. } => !(event is StateWritten),
            ConfigAction::Finish => true,
            ConfigAction::FailBuild { .. } => true,
            ConfigAction::Panic { .. } => true,
        },
    ensures
        stage.after(event) == stage,
{
}

/// The directory of a private key stands in front of its name, and the name is the
/// project, followed by `-ci-build.pem`. Two projects keep their keys in different files.
pub proof fn law_key_files_stay_apart(current_dir: Seq<u8>, project: Seq<char>, other: Seq<char>)
    requires
        project.len() > 0 ==> project[0] != '/',
        other.len() > 0 ==> other[0] != '/',
    ensures
        ({
            let path = key_path(current_dir, project);
            let name = encode_utf8(project + "-ci-build.pem"@);
            &&& path.len() >= current_dir.len() + name.len()
            &&& path.take(current_dir.len() as int) == current_dir
            &&& path.skip(path.len() - name.len()) == name
        }),
        key_path(current_dir, project) == key_path(current_dir, other) <==> project == other,
{
    let ending = "-ci-build.pem"@;
    reveal_strlit("-ci-build.pem");
    assert((project + ending)[0] != '/');
    assert((other + ending)[0] != '/');
    lemma_first_byte(project + ending);
    lemma_first_byte(other + ending);
    let one = encode_utf8(project + ending);
    let two = encode_utf8(other + ending);
    law_joined_path_holds_base_and_part(current_dir, one);
    law_joined_path_holds_base_and_part(current_dir, two);
    if key_path(current_dir, project) == key_path(current_dir, other) {
        assert(one.len() == two.len());
        assert(one == two);
        encode_utf8_decode_utf8(project + ending);
        encode_utf8_decode_utf8(other + ending);
        assert(project + ending == other + ending);
        assert(project.len() == other.len());
        assert((project + ending).take(project.len() as int) =~= project);
        assert((other + ending).take(other.len() as int) =~= other);
    }
}

} // verus!
