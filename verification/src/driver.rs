//! The driver: one stage of a job for each call.
use crate::cleanup::{CleanupAction, CleanupStage};
use crate::config::{ConfigAction, ConfigEvent, ConfigStage};
use crate::number::{i32_in, parse_i32};
use crate::path::copy;
use crate::prepare::{law_failed_prepare_writes_no_record, law_prepare_keeps_the_record};
use crate::prepare::{PrepareAction, PrepareEvent, PrepareStage};
use crate::run::{ExitStatus, RunAction, RunEvent, RunStage};
use crate::state::State;
use crate::text::{opt_text, texts, unwrap_message};
use vstd::prelude::*;
use vstd::string::*;

verus! {

/// The stages that the runner calls for.
#[derive(Debug, PartialEq, Eq)]
pub enum Cmd {
    Config,
    Prepare,
    Run { script_path: Vec<u8>, script_name: String },
    Cleanup,
}

/// Where the driver stands.
#[derive(Debug, PartialEq, Eq)]
pub enum DriverStage {
    Config,
    Prepare,
    Run { script_path: Vec<u8>, script_name: String },
    Cleanup,
    /// A stage failed: what it holds is to be given back.
    Rescue,
    /// The driver is through.
    Done,
    /// The build has failed.
    BuildFailed,
    /// The driver ends with the code of the script.
    Exited { code: i32 },
    /// The driver cannot go on.
    Panicked { panic: DriverPanic },
}

/// Why the driver cannot go on.
#[derive(Debug, PartialEq, Eq)]
pub enum DriverPanic {
    /// There is no log.
    Logger { error: String },
    /// The job is not known.
    NoJobId { error: String },
    /// A stage stopped with these words.
    Stage { message: String },
}

/// How a stage ended.
#[derive(Debug, PartialEq, Eq)]
pub enum Outcome {
    Finished,
    Failed { error: String },
    BuildFailed,
    Exited { code: i32 },
    Panicked { message: String },
}

/// What is to be done outside.
#[derive(Debug, PartialEq, Eq)]
pub enum DriverAction {
    Config,
    Prepare,
    Run { script_path: Vec<u8>, script_name: String },
    Cleanup,
    Finish,
    /// End with the exit code of failed builds.
    FailBuild,
    Exit { code: i32 },
    Panic { message: String },
}

/// The exit code that the runner asks of failed builds, or 1.
pub open spec fn build_failure_code(variable: Option<Seq<char>>) -> int {
    match variable {
        Some(text) => match i32_in(text) {
            Ok(code) => code,
            Err(_) => 1,
        },
        None => 1,
    }
}

/// The exit code of a failed build.
pub fn build_failure(variable: &Option<String>) -> (code: i32)
    ensures
        code == build_failure_code(opt_text(*variable)),
{
    match variable {
        Some(text) => match parse_i32(text.as_str()) {
            Ok(code) => code,
            Err(_) => 1,
        },
        None => 1,
    }
}

impl DriverPanic {
    /// The words with which the driver stops.
    pub open spec fn text(self) -> Seq<char> {
        match self {
            DriverPanic::Logger { error } => unwrap_message(error@),
            DriverPanic::NoJobId { error } => "CUSTOM_ENV_CI_JOB_ID env var should be set: "@
                + error@,
            DriverPanic::Stage { message } => message@,
        }
    }

    /// The words with which the driver stops.
    pub fn message(&self) -> (message: String)
        ensures
            message@ == self.text(),
    {
        match self {
            DriverPanic::Logger { error } => {
                "called `Result::unwrap()` on an `Err` value: ".to_owned().concat(error.as_str())
            },
            DriverPanic::NoJobId { error } => {
                "CUSTOM_ENV_CI_JOB_ID env var should be set: ".to_owned().concat(error.as_str())
            },
            DriverPanic::Stage { message } => message.clone(),
        }
    }
}

impl DriverStage {
    /// The stage that a command starts.
    pub open spec fn commanded(cmd: Cmd) -> DriverStage {
        match cmd {
            Cmd::Config => DriverStage::Config,
            Cmd::Prepare => DriverStage::Prepare,
            Cmd::Run { script_path, script_name } => DriverStage::Run { script_path, script_name },
            Cmd::Cleanup => DriverStage::Cleanup,
        }
    }

    /// The stage that the driver starts in: nothing is done without a log, nor
    /// for a job that is not known.
    pub open spec fn started(
        cmd: Cmd,
        logger: Result<(), String>,
        job_id: Result<String, String>,
    ) -> DriverStage {
        match (logger, job_id) {
            (Err(error), _) => DriverStage::Panicked { panic: DriverPanic::Logger { error } },
            (_, Err(error)) => DriverStage::Panicked { panic: DriverPanic::NoJobId { error } },
            _ => DriverStage::commanded(cmd),
        }
    }

    /// The stage that follows when the stage at work ends with `outcome`. What
    /// a stage cannot end with changes nothing.
    pub open spec fn after(self, outcome: Outcome) -> DriverStage {
        match (self, outcome) {
            (DriverStage::Config, Outcome::Finished) => DriverStage::Done,
            (DriverStage::Config, Outcome::BuildFailed) => DriverStage::BuildFailed,
            (DriverStage::Config, Outcome::Panicked { message }) => DriverStage::Panicked {
                panic: DriverPanic::Stage { message },
            },
            (DriverStage::Prepare, Outcome::Finished) => DriverStage::Done,
            (DriverStage::Prepare, Outcome::Failed { .. }) => DriverStage::Rescue,
            (DriverStage::Run { .. }, Outcome::Finished) => DriverStage::Done,
            (DriverStage::Run { .. }, Outcome::Failed { .. }) => DriverStage::Rescue,
            (DriverStage::Run { .. }, Outcome::BuildFailed) => DriverStage::BuildFailed,
            (DriverStage::Run { .. }, Outcome::Exited { code }) => DriverStage::Exited { code },
            (DriverStage::Cleanup, Outcome::Finished) => DriverStage::Done,
            (DriverStage::Cleanup, Outcome::Failed { .. }) => DriverStage::BuildFailed,
            (DriverStage::Rescue, Outcome::Finished) => DriverStage::BuildFailed,
            (DriverStage::Rescue, Outcome::Failed { .. }) => DriverStage::BuildFailed,
            _ => self,
        }
    }

    /// What is printed when the stage at work ends with `outcome`.
    pub open spec fn line_after(self, outcome: Outcome) -> Option<Seq<char>> {
        match (self, outcome) {
            (DriverStage::Prepare, Outcome::Failed { error }) => Some(
                "Failed to prepare: "@ + error@,
            ),
            (DriverStage::Run { .. }, Outcome::Failed { error }) => Some(
                "Failed to run script: "@ + error@,
            ),
            (DriverStage::Cleanup, Outcome::Failed { error }) => Some(
                "Failed to cleanup: "@ + error@,
            ),
            (DriverStage::Rescue, Outcome::Failed { error }) => Some(
                "Failed to cleanup: "@ + error@,
            ),
            _ => None,
        }
    }

    /// Whether `action` is what this stage asks for.
    pub open spec fn asks(self, action: DriverAction) -> bool {
        match self {
            DriverStage::Config => action == DriverAction::Config,
            DriverStage::Prepare => action == DriverAction::Prepare,
            DriverStage::Run { script_path, script_name } => {
                &&& action matches DriverAction::Run { script_path: path, script_name: name }
                &&& path@ == script_path@
                &&& name@ == script_name@
            },
            DriverStage::Cleanup => action == DriverAction::Cleanup,
            DriverStage::Rescue => action == DriverAction::Cleanup,
            DriverStage::Done => action == DriverAction::Finish,
            DriverStage::BuildFailed => action == DriverAction::FailBuild,
            DriverStage::Exited { code } => action == (DriverAction::Exit { code }),
            DriverStage::Panicked { panic } => {
                &&& action matches DriverAction::Panic { message }
                &&& message@ == panic.text()
            },
        }
    }

    /// The stage that the driver starts in.
    pub fn start(cmd: Cmd, logger: Result<(), String>, job_id: Result<String, String>) -> (stage:
        DriverStage)
        ensures
            stage == DriverStage::started(cmd, logger, job_id),
    {
        match (logger, job_id) {
            (Err(error), _) => DriverStage::Panicked { panic: DriverPanic::Logger { error } },
            (_, Err(error)) => DriverStage::Panicked { panic: DriverPanic::NoJobId { error } },
            _ => match cmd {
                Cmd::Config => DriverStage::Config,
                Cmd::Prepare => DriverStage::Prepare,
                Cmd::Run { script_path, script_name } => DriverStage::Run {
                    script_path,
                    script_name,
                },
                Cmd::Cleanup => DriverStage::Cleanup,
            },
        }
    }

    /// The stage that follows when the stage at work ends with `outcome`, and
    /// what is printed.
    pub fn next(self, outcome: Outcome) -> (next: (DriverStage, Option<String>))
        ensures
            next.0 == self.after(outcome),
            opt_text(next.1) == self.line_after(outcome),
    {
        match (self, outcome) {
            (DriverStage::Config, Outcome::Finished) => (DriverStage::Done, None),
            (DriverStage::Config, Outcome::BuildFailed) => (DriverStage::BuildFailed, None),
            (DriverStage::Config, Outcome::Panicked { message }) => (
                DriverStage::Panicked { panic: DriverPanic::Stage { message } },
                None,
            ),
            (DriverStage::Prepare, Outcome::Finished) => (DriverStage::Done, None),
            (DriverStage::Prepare, Outcome::Failed { error }) => (
                DriverStage::Rescue,
                Some("Failed to prepare: ".to_owned().concat(error.as_str())),
            ),
            (DriverStage::Run { .. }, Outcome::Finished) => (DriverStage::Done, None),
            (DriverStage::Run { .. }, Outcome::Failed { error }) => (
                DriverStage::Rescue,
                Some("Failed to run script: ".to_owned().concat(error.as_str())),
            ),
            (DriverStage::Run { .. }, Outcome::BuildFailed) => (DriverStage::BuildFailed, None),
            (DriverStage::Run { .. }, Outcome::Exited { code }) => (
                DriverStage::Exited { code },
                None,
            ),
            (DriverStage::Cleanup, Outcome::Finished) => (DriverStage::Done, None),
            (DriverStage::Cleanup, Outcome::Failed { error }) => (
                DriverStage::BuildFailed,
                Some("Failed to cleanup: ".to_owned().concat(error.as_str())),
            ),
            (DriverStage::Rescue, Outcome::Finished) => (DriverStage::BuildFailed, None),
            (DriverStage::Rescue, Outcome::Failed { error }) => (
                DriverStage::BuildFailed,
                Some("Failed to cleanup: ".to_owned().concat(error.as_str())),
            ),
            (stage, _) => (stage, None),
        }
    }

    /// What this stage asks for.
    pub fn action(&self) -> (action: DriverAction)
        ensures
            self.asks(action),
    {
        match self {
            DriverStage::Config => DriverAction::Config,
            DriverStage::Prepare => DriverAction::Prepare,
            DriverStage::Run { script_path, script_name } => DriverAction::Run {
                script_path: copy(script_path.as_slice()),
                script_name: script_name.clone(),
            },
            DriverStage::Cleanup => DriverAction::Cleanup,
            DriverStage::Rescue => DriverAction::Cleanup,
            DriverStage::Done => DriverAction::Finish,
            DriverStage::BuildFailed => DriverAction::FailBuild,
            DriverStage::Exited { code } => DriverAction::Exit { code: *code },
            DriverStage::Panicked { panic } => DriverAction::Panic { message: panic.message() },
        }
    }

    /// The stage that a run of outcomes leads to.
    pub open spec fn after_all(self, outcomes: Seq<Outcome>) -> DriverStage
        decreases outcomes.len(),
    {
        if outcomes.len() == 0 {
            self
        } else {
            self.after_all(outcomes.drop_last()).after(outcomes.last())
        }
    }

    /// Whether the driver is to end.
    pub open spec fn is_over(self) -> bool {
        self is Done || self is BuildFailed || self is Exited || self is Panicked
    }
}

/// A driver that is to end does nothing else, whatever happens.
pub proof fn law_driver_stays_over(stage: DriverStage, outcomes: Seq<Outcome>)
    requires
        stage.is_over(),
    ensures
        stage.after_all(outcomes) == stage,
    decreases outcomes.len(),
{
    if outcomes.len() > 0 {
        law_driver_stays_over(stage, outcomes.drop_last());
    }
}

/// When preparing or running fails, the fleet is given back before the driver
/// ends, and the build has failed whether or not that works.
pub proof fn law_failed_stage_gives_the_fleet_back(
    stage: DriverStage,
    error: String,
    outcomes: Seq<Outcome>,
)
    requires
        stage is Prepare || stage is Run,
    ensures
        ({
            let failed = stage.after(Outcome::Failed { error });
            let end = failed.after_all(outcomes);
            &&& failed.asks(DriverAction::Cleanup)
            &&& end == failed || end is BuildFailed
            &&& end is BuildFailed ==> exists|i: int|
                0 <= i < outcomes.len() && ((#[trigger] outcomes[i]) is Finished
                    || outcomes[i] is Failed)
        }),
    decreases outcomes.len(),
{
    if outcomes.len() > 0 {
        law_failed_stage_gives_the_fleet_back(stage, error, outcomes.drop_last());
        let failed = stage.after(Outcome::Failed { error });
        let before = failed.after_all(outcomes.drop_last());
        if before is BuildFailed {
            let i = choose|i: int|
                0 <= i < outcomes.drop_last().len() && ((#[trigger] outcomes.drop_last()[i])
                    is Finished || outcomes.drop_last()[i] is Failed);
            assert(outcomes[i] is Finished || outcomes[i] is Failed);
        } else if failed.after_all(outcomes) is BuildFailed {
            let last = outcomes[outcomes.len() - 1];
            assert(last is Finished || last is Failed);
        }
    }
}

/// The driver is only through if the stage that it was called for finished.
pub proof fn law_success_is_that_of_the_stage(cmd: Cmd, outcomes: Seq<Outcome>)
    requires
        DriverStage::commanded(cmd).after_all(outcomes) is Done,
    ensures
        exists|i: int|
            0 <= i < outcomes.len() && (#[trigger] outcomes[i]) is Finished
                && DriverStage::commanded(cmd).after_all(outcomes.take(i))
                == DriverStage::commanded(cmd),
    decreases outcomes.len(),
{
    let start = DriverStage::commanded(cmd);
    if outcomes.len() > 0 {
        let before = start.after_all(outcomes.drop_last());
        let last = outcomes.len() - 1;
        assert(outcomes.take(last) =~= outcomes.drop_last());
        if before is Done {
            law_success_is_that_of_the_stage(cmd, outcomes.drop_last());
            let i = choose|i: int|
                0 <= i < outcomes.drop_last().len() && (#[trigger] outcomes.drop_last()[i])
                    is Finished && start.after_all(outcomes.drop_last().take(i)) == start;
            assert(outcomes.drop_last().take(i) =~= outcomes.take(i));
            assert(outcomes[i] is Finished);
        } else {
            lemma_working_stage_is_the_first(cmd, outcomes.drop_last());
            assert(outcomes[last] is Finished);
        }
    }
}

/// While no stage has ended, the stage at work is the one that was called for,
/// or the rescue after it.
proof fn lemma_working_stage_is_the_first(cmd: Cmd, outcomes: Seq<Outcome>)
    ensures
        ({
            let stage = DriverStage::commanded(cmd).after_all(outcomes);
            stage.is_over() || stage is Rescue || stage == DriverStage::commanded(cmd)
        }),
    decreases outcomes.len(),
{
    if outcomes.len() > 0 {
        lemma_working_stage_is_the_first(cmd, outcomes.drop_last());
    }
}

/// A prepare that fails before it notes an address does not lose the fleet. It asks
/// for no record to be written, so that what config noted still stands. A cleanup
/// that starts from there cancels the very request that config made, with its
/// instances.
pub proof fn law_fleet_is_given_back_after_a_failed_prepare(
    requesting: ConfigStage,
    id: String,
    noted: State,
    prepared: Result<State, String>,
    events: Seq<PrepareEvent>,
    loaded: State,
    cancel: CleanupAction,
)
    requires
        requesting is RequestFleet,
        requesting.after(ConfigEvent::FleetRequested { reply: Ok(Some(id)) }).asks(
            ConfigAction::WriteState { state: noted },
        ),
        PrepareStage::started(prepared).fails_before_the_note(events),
        loaded@ == noted@,
        CleanupStage::started(Ok(loaded)).asks(cancel),
    ensures
        forall|k: int, action: PrepareAction|
            0 <= k <= events.len() && #[trigger] PrepareStage::started(prepared).after_all(
                events.take(k),
            ).asks(action) ==> !(action is WriteState),
        noted@.spot_fleet_request_id == id@,
        cancel matches CleanupAction::CancelSpotFleetRequests {
            spot_fleet_request_ids,
            terminate_instances,
        } && texts(spot_fleet_request_ids@) == seq![id@] && terminate_instances,
{
    assert forall|k: int, action: PrepareAction|
        0 <= k <= events.len() && #[trigger] PrepareStage::started(prepared).after_all(
            events.take(k),
        ).asks(action) implies !(action is WriteState) by {
        law_failed_prepare_writes_no_record(prepared, events, k, action);
    }
}

/// The stages of a job act on one fleet. What prepare notes is what config
/// noted, with an address. Run logs in there, with the key that config wrote,
/// and cleanup gives back the request that config made. (Each stage starts from
/// a record that holds what was noted last.)
pub proof fn law_stages_share_one_fleet(
    config: ConfigStage,
    noted: State,
    loaded: State,
    events: Seq<PrepareEvent>,
    addressed: State,
    reloaded: State,
    script_path: Vec<u8>,
    login: RunAction,
    cancel: CleanupAction,
)
    requires
        config is WriteState,
        config.asks(ConfigAction::WriteState { state: noted }),
        loaded@ == noted@,
        PrepareStage::started(Ok(loaded)).after_all(events) is WriteState,
        PrepareStage::started(Ok(loaded)).after_all(events).asks(
            PrepareAction::WriteState { state: addressed },
        ),
        reloaded@ == addressed@,
        RunStage::started(Ok(reloaded), script_path).asks(login),
        CleanupStage::started(Ok(reloaded)).asks(cancel),
    ensures
        addressed@ == noted@.at(
            PrepareStage::started(Ok(loaded)).after_all(events).address()->0@,
        ),
        login matches RunAction::Connect { login } && login.is_login(
            noted@.private_key,
            "root"@,
            PrepareStage::started(Ok(loaded)).after_all(events).address()->0@,
        ),
        cancel matches CleanupAction::CancelSpotFleetRequests {
            spot_fleet_request_ids,
            terminate_instances,
        } && texts(spot_fleet_request_ids@) == seq![noted@.spot_fleet_request_id]
            && terminate_instances,
{
    law_prepare_keeps_the_record(loaded, events);
}

/// The driver ends with the exit code of the script, whatever it is.
pub proof fn law_driver_exits_with_the_code_of_the_script(
    script_path: Vec<u8>,
    script_name: String,
    code: i32,
    action: DriverAction,
)
    requires
        (DriverStage::Run { script_path, script_name }).after(Outcome::Exited { code }).asks(
            action,
        ),
    ensures
        action == (DriverAction::Exit { code }),
{
}

/// From the end of the script to the end of the driver the code is the same: what the
/// shell left with a code is what the driver ends with, and two scripts with different
/// codes never end the driver with the same one.
pub proof fn law_code_of_the_script_reaches_the_runner(
    script_path: Vec<u8>,
    script_name: String,
    status: ExitStatus,
    ended: RunAction,
    action: DriverAction,
)
    requires
        status.code is Some,
        RunStage::AwaitExit.after(RunEvent::Exited { reply: Ok(status) }).asks(ended),
        ended is Exit,
        (DriverStage::Run { script_path, script_name }).after(
            Outcome::Exited { code: ended->code },
        ).asks(action),
    ensures
        action is Exit,
        Some(action->code) == status.code,
{
}

/// Without a log the driver stops, and so it does for a job that is not known. Otherwise
/// it does what it was called for, with the script that it was given, byte for byte.
pub proof fn law_driver_does_what_it_was_called_for(
    cmd: Cmd,
    logger: Result<(), String>,
    job_id: Result<String, String>,
    action: DriverAction,
)
    requires
        DriverStage::started(cmd, logger, job_id).asks(action),
    ensures
        logger matches Err(error) ==> (action matches DriverAction::Panic { message } && message@
            == "called `Result::unwrap()` on an `Err` value: "@ + error@),
        logger is Ok ==> (job_id matches Err(error) ==> (
        action matches DriverAction::Panic { message } && message@
            == "CUSTOM_ENV_CI_JOB_ID env var should be set: "@ + error@)),
        logger is Ok && job_id is Ok ==> (match cmd {
            Cmd::Config => action is Config,
            Cmd::Prepare => action is Prepare,
            Cmd::Run { script_path, script_name } => {
                &&& action matches DriverAction::Run { script_path: path, script_name: name }
                &&& path@ == script_path@
                &&& name@ == script_name@
            },
            Cmd::Cleanup => action is Cleanup,
        }),
{
}

/// What the end of a stage means for the driver. A stage that finished ends it well, a
/// build that failed ends it so, and a stop is passed on word for word. A prepare or a run
/// that failed leads to a cleanup, a cleanup that failed to a failed build. Only faults
/// are printed.
pub proof fn law_driver_follows_the_outcome(
    cmd: Cmd,
    logger: Result<(), String>,
    job_id: Result<String, String>,
    outcome: Outcome,
    action: DriverAction,
    line: Option<String>,
)
    requires
        logger is Ok,
        job_id is Ok,
        DriverStage::started(cmd, logger, job_id).after(outcome).asks(action),
        opt_text(line) == DriverStage::started(cmd, logger, job_id).line_after(outcome),
    ensures
        outcome is Finished ==> action is Finish && line is None,
        outcome is BuildFailed && (cmd is Config || cmd is Run) ==> action is FailBuild && line
            is None,
        cmd is Config ==> (outcome matches Outcome::Panicked { message } ==> (
        action matches DriverAction::Panic { message: said } && said@ == message@ && line
            is None)),
        cmd is Run ==> (outcome matches Outcome::Exited { code } ==> action == (
        DriverAction::Exit { code }) && line is None),
        cmd is Prepare ==> (outcome matches Outcome::Failed { error } ==> (action is Cleanup && (
        line matches Some(said) && said@ == "Failed to prepare: "@ + error@))),
        cmd is Run ==> (outcome matches Outcome::Failed { error } ==> (action is Cleanup && (
        line matches Some(said) && said@ == "Failed to run script: "@ + error@))),
        cmd is Cleanup ==> (outcome matches Outcome::Failed { error } ==> (action is FailBuild && (
        line matches Some(said) && said@ == "Failed to cleanup: "@ + error@))),
{
}

/// After the cleanup that follows a failed stage the build has failed, whether or not
/// the cleanup worked; a cleanup that did not is printed.
pub proof fn law_rescue_fails_the_build(
    cmd: Cmd,
    logger: Result<(), String>,
    job_id: Result<String, String>,
    error: String,
    fault: String,
    worked: DriverAction,
    failed: DriverAction,
    worked_line: Option<String>,
    failed_line: Option<String>,
)
    requires
        logger is Ok,
        job_id is Ok,
        cmd is Prepare || cmd is Run,
        ({
            let rescue = DriverStage::started(cmd, logger, job_id).after(
                Outcome::Failed { error },
            );
            &&& rescue.after(Outcome::Finished).asks(worked)
            &&& opt_text(worked_line) == rescue.line_after(Outcome::Finished)
            &&& rescue.after(Outcome::Failed { error: fault }).asks(failed)
            &&& opt_text(failed_line) == rescue.line_after(Outcome::Failed { error: fault })
        }),
    ensures
        worked is FailBuild,
        worked_line is None,
        failed is FailBuild,
        failed_line matches Some(said) && said@ == "Failed to cleanup: "@ + fault@,
{
}

/// What a stage cannot end with changes nothing and prints nothing, and neither does
/// anything else once the driver asks to end.
pub proof fn law_driver_hears_only_what_can_be(
    stage: DriverStage,
    action: DriverAction,
    outcome: Outcome,
)
    requires
        stage.asks(action),
        match action {
            DriverAction::Config => outcome is Failed || outcome is Exited,
            DriverAction::Prepare => outcome is BuildFailed || outcome is Exited || outcome
                is Panicked,
            DriverAction::Run { .. } => outcome is Panicked,
            DriverAction::Cleanup => outcome is BuildFailed || outcome is Exited || outcome
                is Panicked,
            DriverAction::Finish => true,
            DriverAction::FailBuild => true,
            DriverAction::Exit { .. } => true,
            DriverAction::Panic { .. } => true,
        },
    ensures
        stage.after(outcome) == stage,
        stage.line_after(outcome) is None,
{
}

/// A failed build ends with the number that the runner asks for, where it is one, and
/// with 1 otherwise.
pub proof fn law_build_failure_is_the_number_asked_for(variable: Option<String>, code: int)
    requires
        code == build_failure_code(opt_text(variable)),
    ensures
        variable is None ==> code == 1,
        variable matches Some(text) ==> (i32_in(text@) matches Ok(number) ==> code == number),
        variable matches Some(text) ==> (i32_in(text@) is Err ==> code == 1),
{
}

} // verus!
