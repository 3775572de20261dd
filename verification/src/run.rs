//! The run stage: run a script on the instance.
use crate::ssh::{login, Login, RemoteCommand};
use crate::state::State;
use crate::path::copy;
use crate::text::texts;
use vstd::prelude::*;
use vstd::string::*;

verus! {

/// Where the run stage stands.
#[derive(Debug, PartialEq, Eq)]
pub enum RunStage {
    /// The instance is to be logged in to.
    Connect { private_key: Vec<u8>, address: String, script_path: Vec<u8> },
    /// A shell is to be started.
    StartShell { script_path: Vec<u8> },
    /// The script is to be fed to the shell.
    FeedScript { script_path: Vec<u8> },
    /// The shell is at work.
    AwaitExit,
    /// The stage is through.
    Done,
    /// The script has ended with a code of its own.
    Exited { code: i32 },
    /// The script was ended from outside.
    BuildFailed,
    /// The stage has failed.
    Failed { failure: RunFailure },
}

/// Why the run stage fails.
#[derive(Debug, PartialEq, Eq)]
pub enum RunFailure {
    /// Something outside failed.
    Outside { error: String },
    NoAddress,
    NoStdin,
}

/// How a process ended.
#[derive(Debug, Clone, Copy, PartialEq, Eq, Structural)]
pub struct ExitStatus {
    /// The exit code, unless a signal ended the process.
    pub code: Option<i32>,
    pub success: bool,
}

/// What happened outside.
#[derive(Debug, PartialEq, Eq)]
pub enum RunEvent {
    Connected { reply: Result<(), String> },
    /// Whether the shell has an input to write to.
    Started { reply: Result<bool, String> },
    ScriptFed { reply: Result<(), String> },
    Exited { reply: Result<ExitStatus, String> },
}

/// What is to be done outside.
#[derive(Debug, PartialEq, Eq)]
pub enum RunAction {
    Connect { login: Login },
    Start { command: RemoteCommand },
    FeedScript { script_path: Vec<u8> },
    Wait,
    Finish,
    Exit { code: i32 },
    FailBuild,
    Fail { error: String },
}

impl RunFailure {
    /// What went wrong, in words.
    pub open spec fn text(self) -> Seq<char> {
        match self {
            RunFailure::Outside { error } => error@,
            RunFailure::NoAddress => "No instance address found during run phase"@,
            RunFailure::NoStdin => "Failed to get stdin for command"@,
        }
    }

    /// What went wrong, in words.
    pub fn message(&self) -> (message: String)
        ensures
            message@ == self.text(),
    {
        match self {
            RunFailure::Outside { error } => error.clone(),
            RunFailure::NoAddress => "No instance address found during run phase".to_owned(),
            RunFailure::NoStdin => "Failed to get stdin for command".to_owned(),
        }
    }
}

/// The stage that ends with an error from outside.
pub open spec fn run_failed(error: String) -> RunStage {
    RunStage::Failed { failure: RunFailure::Outside { error } }
}

/// How the end of the script ends the stage: a code of its own is passed on, a
/// script that was killed fails the build.
pub open spec fn exited(status: ExitStatus) -> RunStage {
    match status.code {
        Some(code) => RunStage::Exited { code },
        None => if status.success {
            RunStage::Done
        } else {
            RunStage::BuildFailed
        },
    }
}

/// The shell that scripts are fed to.
pub fn shell() -> (command: RemoteCommand)
    ensures
        command.is_command("bash"@, Seq::empty(), true),
{
    let args: Vec<String> = Vec::new();
    assert(texts(args@) =~= Seq::empty());
    RemoteCommand { program: "bash".to_owned(), args, piped_stdin: true }
}

impl RunStage {
    /// The stage that the run stage starts in, given what was loaded.
    pub open spec fn started(loaded: Result<State, String>, script_path: Vec<u8>) -> RunStage {
        match loaded {
            Ok(State { private_key, instance_address: Some(address), .. }) => RunStage::Connect {
                private_key,
                address,
                script_path,
            },
            Ok(_) => RunStage::Failed { failure: RunFailure::NoAddress },
            Err(error) => run_failed(error),
        }
    }

    /// The stage that follows when `event` happens. An answer to another
    /// question than the one that was asked changes nothing.
    pub open spec fn after(self, event: RunEvent) -> RunStage {
        match (self, event) {
            (RunStage::Connect { script_path, .. }, RunEvent::Connected { reply }) => match reply {
                Ok(_) => RunStage::StartShell { script_path },
                Err(error) => run_failed(error),
            },
            (RunStage::StartShell { script_path }, RunEvent::Started { reply }) => match reply {
                Ok(true) => RunStage::FeedScript { script_path },
                Ok(false) => RunStage::Failed { failure: RunFailure::NoStdin },
                Err(error) => run_failed(error),
            },
            (RunStage::FeedScript { .. }, RunEvent::ScriptFed { reply }) => match reply {
                Ok(_) => RunStage::AwaitExit,
                Err(error) => run_failed(error),
            },
            (RunStage::AwaitExit, RunEvent::Exited { reply }) => match reply {
                Ok(status) => exited(status),
                Err(error) => run_failed(error),
            },
            _ => self,
        }
    }

    /// Whether `action` is what this stage asks for.
    pub open spec fn asks(self, action: RunAction) -> bool {
        match self {
            RunStage::Connect { private_key, address, .. } => {
                &&& action matches RunAction::Connect { login }
                &&& login.is_login(private_key@, "root"@, address@)
            },
            RunStage::StartShell { .. } => {
                &&& action matches RunAction::Start { command }
                &&& command.is_command("bash"@, Seq::empty(), true)
            },
            RunStage::FeedScript { script_path } => {
                &&& action matches RunAction::FeedScript { script_path: path }
                &&& path@ == script_path@
            },
            RunStage::AwaitExit => action == RunAction::Wait,
            RunStage::Done => action == RunAction::Finish,
            RunStage::Exited { code } => action == (RunAction::Exit { code }),
            RunStage::BuildFailed => action == RunAction::FailBuild,
            RunStage::Failed { failure } => {
                &&& action matches RunAction::Fail { error }
                &&& error@ == failure.text()
            },
        }
    }

    /// The stage that the run stage starts in, given what was loaded.
    pub fn start(loaded: Result<State, String>, script_path: Vec<u8>) -> (stage: RunStage)
        ensures
            stage == RunStage::started(loaded, script_path),
    {
        match loaded {
            Ok(state) => match state.instance_address {
                Some(address) => RunStage::Connect {
                    private_key: state.private_key,
                    address,
                    script_path,
                },
                None => RunStage::Failed { failure: RunFailure::NoAddress },
            },
            Err(error) => RunStage::Failed { failure: RunFailure::Outside { error } },
        }
    }

    /// The stage that follows when `event` happens.
    pub fn next(self, event: RunEvent) -> (stage: RunStage)
        ensures
            stage == self.after(event),
    {
        match (self, event) {
            (RunStage::Connect { script_path, .. }, RunEvent::Connected { reply }) => match reply {
                Ok(_) => RunStage::StartShell { script_path },
                Err(error) => RunStage::Failed { failure: RunFailure::Outside { error } },
            },
            (RunStage::StartShell { script_path }, RunEvent::Started { reply }) => match reply {
                Ok(has_stdin) => if has_stdin {
                    RunStage::FeedScript { script_path }
                } else {
                    RunStage::Failed { failure: RunFailure::NoStdin }
                },
                Err(error) => RunStage::Failed { failure: RunFailure::Outside { error } },
            },
            (RunStage::FeedScript { .. }, RunEvent::ScriptFed { reply }) => match reply {
                Ok(_) => RunStage::AwaitExit,
                Err(error) => RunStage::Failed { failure: RunFailure::Outside { error } },
            },
            (RunStage::AwaitExit, RunEvent::Exited { reply }) => match reply {
                Ok(status) => match status.code {
                    Some(code) => RunStage::Exited { code },
                    None => if status.success {
                        RunStage::Done
                    } else {
                        RunStage::BuildFailed
                    },
                },
                Err(error) => RunStage::Failed { failure: RunFailure::Outside { error } },
            },
            (stage, _) => stage,
        }
    }

    /// What this stage asks for.
    pub fn action(&self) -> (action: RunAction)
        ensures
            self.asks(action),
    {
        match self {
            RunStage::Connect { private_key, address, .. } => RunAction::Connect {
                login: login(private_key.as_slice(), "root", address.as_str()),
            },
            RunStage::StartShell { .. } => RunAction::Start { command: shell() },
            RunStage::FeedScript { script_path } => RunAction::FeedScript {
                script_path: copy(script_path.as_slice()),
            },
            RunStage::AwaitExit => RunAction::Wait,
            RunStage::Done => RunAction::Finish,
            RunStage::Exited { code } => RunAction::Exit { code: *code },
            RunStage::BuildFailed => RunAction::FailBuild,
            RunStage::Failed { failure } => RunAction::Fail { error: failure.message() },
        }
    }

    /// The stage that a run of events leads to.
    pub open spec fn after_all(self, events: Seq<RunEvent>) -> RunStage
        decreases events.len(),
    {
        if events.len() == 0 {
            self
        } else {
            self.after_all(events.drop_last()).after(events.last())
        }
    }

    /// Whether the stage is over.
    pub open spec fn is_over(self) -> bool {
        self is Done || self is Exited || self is BuildFailed || self is Failed
    }

    /// The script that is to be run.
    pub open spec fn script(self) -> Option<Vec<u8>> {
        match self {
            RunStage::Connect { script_path, .. } => Some(script_path),
            RunStage::StartShell { script_path } => Some(script_path),
            RunStage::FeedScript { script_path } => Some(script_path),
            _ => None,
        }
    }
}

/// A stage that is over stays over, whatever happens.
pub proof fn law_run_stays_over(stage: RunStage, events: Seq<RunEvent>)
    requires
        stage.is_over(),
    ensures
        stage.after_all(events) == stage,
    decreases events.len(),
{
    if events.len() > 0 {
        law_run_stays_over(stage, events.drop_last());
    }
}

/// Without an address there is nothing to run on: the stage fails before
/// anything is done outside.
pub proof fn law_no_address_no_run(
    state: State,
    script_path: Vec<u8>,
    events: Seq<RunEvent>,
    action: RunAction,
)
    requires
        state.instance_address is None,
        RunStage::started(Ok(state), script_path).after_all(events).asks(action),
    ensures
        action matches RunAction::Fail { error } && error@ == RunFailure::NoAddress.text(),
{
    law_run_stays_over(RunStage::started(Ok(state), script_path), events);
}

/// The script that is fed to the shell is the one that the stage was given.
pub proof fn law_run_keeps_the_script(
    loaded: Result<State, String>,
    script_path: Vec<u8>,
    events: Seq<RunEvent>,
)
    ensures
        RunStage::started(loaded, script_path).after_all(events).script() matches Some(script)
            ==> script == script_path,
    decreases events.len(),
{
    if events.len() > 0 {
        law_run_keeps_the_script(loaded, script_path, events.drop_last());
    }
}

/// The code that a script ends with is the code that the driver ends with.
pub proof fn law_exit_code_is_passed_on(code: i32, success: bool, action: RunAction)
    requires
        RunStage::AwaitExit.after(
            RunEvent::Exited { reply: Ok(ExitStatus { code: Some(code), success }) },
        ).asks(action),
    ensures
        action == (RunAction::Exit { code }),
{
}

impl RunStage {
    /// Whether `event` answers what this stage asks for.
    pub open spec fn answered_by(self, event: RunEvent) -> bool {
        match self {
            RunStage::Connect { .. } => event is Connected,
            RunStage::StartShell { .. } => event is Started,
            RunStage::FeedScript { .. } => event is ScriptFed,
            RunStage::AwaitExit => event is Exited,
            _ => false,
        }
    }

    /// How many answers the stage can still wait for.
    pub open spec fn answers_left(self) -> nat {
        match self {
            RunStage::Connect { .. } => 4,
            RunStage::StartShell { .. } => 3,
            RunStage::FeedScript { .. } => 2,
            RunStage::AwaitExit => 1,
            _ => 0,
        }
    }
}

/// Every answer brings the stage closer to its end, and anything else leaves it
/// where it is.
pub proof fn law_run_moves_on(stage: RunStage, event: RunEvent)
    ensures
        stage.answers_left() == 0 <==> stage.is_over(),
        stage.answered_by(event) ==> stage.after(event).answers_left() < stage.answers_left(),
        !stage.answered_by(event) ==> stage.after(event) == stage,
{
}

/// Whatever has happened, the script that is fed to the shell is, byte for byte, the
/// one that the stage was started with.
pub proof fn law_script_that_is_fed_is_the_one_given(
    loaded: Result<State, String>,
    script_path: Vec<u8>,
    events: Seq<RunEvent>,
    path: Vec<u8>,
)
    requires
        RunStage::started(loaded, script_path).after_all(events).asks(
            RunAction::FeedScript { script_path: path },
        ),
    ensures
        path@ == script_path@,
{
    law_run_keeps_the_script(loaded, script_path, events);
}

/// The stage starts from a record that has an address, by logging in there as root, with
/// the key of the record. Without a record, or without an address, it fails.
pub proof fn law_run_logs_in_as_root(
    loaded: Result<State, String>,
    script_path: Vec<u8>,
    action: RunAction,
)
    requires
        RunStage::started(loaded, script_path).asks(action),
    ensures
        loaded matches Ok(state) ==> (state.instance_address matches Some(address) ==> (
        action matches RunAction::Connect { login } && login.keyfile@ == state.private_key@
            && login.destination@ == "root@"@ + address@)),
        loaded matches Ok(state) ==> (state.instance_address is None ==> (
        action matches RunAction::Fail { error: said } && said@
            == "No instance address found during run phase"@)),
        loaded matches Err(error) ==> (action matches RunAction::Fail { error: said } && said@
            == error@),
{
    reveal_strlit("root");
    reveal_strlit("@");
    reveal_strlit("root@");
    assert("root"@ + "@"@ =~= "root@"@);
}

/// Where every answer is a good one, the stage asks, in this order, for a login, for a
/// shell that takes an input, for the script to be fed to it, and for its end. A code
/// becomes the code of the stage; a shell that left none has succeeded or the build has
/// failed, as its status says.
pub proof fn law_run_course(
    state: State,
    address: String,
    script_path: Vec<u8>,
    done: Result<(), String>,
    status: ExitStatus,
    stages: Seq<RunStage>,
    asked: Seq<RunAction>,
)
    requires
        state.instance_address == Some(address),
        done is Ok,
        stages.len() == 5,
        asked.len() == 5,
        stages[0] == RunStage::started(Ok(state), script_path),
        stages[1] == stages[0].after(RunEvent::Connected { reply: done }),
        stages[2] == stages[1].after(RunEvent::Started { reply: Ok(true) }),
        stages[3] == stages[2].after(RunEvent::ScriptFed { reply: done }),
        stages[4] == stages[3].after(RunEvent::Exited { reply: Ok(status) }),
        forall|i: int| 0 <= i < 5 ==> (#[trigger] stages[i]).asks(asked[i]),
    ensures
        asked[0] matches RunAction::Connect { login } && login.keyfile@ == state.private_key@
            && login.destination@ == "root@"@ + address@,
        asked[1] matches RunAction::Start { command } && command.program@ == "bash"@
            && command.args@.len() == 0 && command.piped_stdin,
        asked[2] matches RunAction::FeedScript { script_path: path } && path@ == script_path@,
        asked[3] is Wait,
        status.code matches Some(code) ==> asked[4] == (RunAction::Exit { code }),
        status.code is None && status.success ==> asked[4] is Finish,
        status.code is None && !status.success ==> asked[4] is FailBuild,
{
    assert(stages[0].asks(asked[0]));
    assert(stages[1].asks(asked[1]));
    assert(stages[2].asks(asked[2]));
    assert(stages[3].asks(asked[3]));
    assert(stages[4].asks(asked[4]));
    law_run_logs_in_as_root(Ok(state), script_path, asked[0]);
    assert(texts(asked[1]->command.args@).len() == 0);
}

/// Two scripts that end with different codes end the stage with different codes.
pub proof fn law_exit_codes_stay_apart(
    one: ExitStatus,
    two: ExitStatus,
    exit_one: RunAction,
    exit_two: RunAction,
)
    requires
        one.code is Some,
        two.code is Some,
        one.code != two.code,
        RunStage::AwaitExit.after(RunEvent::Exited { reply: Ok(one) }).asks(exit_one),
        RunStage::AwaitExit.after(RunEvent::Exited { reply: Ok(two) }).asks(exit_two),
    ensures
        exit_one is Exit,
        exit_two is Exit,
        exit_one->code != exit_two->code,
{
}

/// A shell without an input fails the stage in words of its own. What fails outside
/// fails the stage with what went wrong there.
pub proof fn law_run_faults(
    private_key: Vec<u8>,
    address: String,
    script_path: Vec<u8>,
    error: String,
    deaf: RunAction,
    failed: RunAction,
)
    requires
        (RunStage::StartShell { script_path }).after(RunEvent::Started { reply: Ok(false) }).asks(
            deaf,
        ),
        ({
            ||| (RunStage::Connect { private_key, address, script_path }).after(
                RunEvent::Connected { reply: Err(error) },
            ).asks(failed)
            ||| (RunStage::StartShell { script_path }).after(
                RunEvent::Started { reply: Err(error) },
            ).asks(failed)
            ||| (RunStage::FeedScript { script_path }).after(
                RunEvent::ScriptFed { reply: Err(error) },
            ).asks(failed)
            ||| RunStage::AwaitExit.after(RunEvent::Exited { reply: Err(error) }).asks(failed)
        }),
    ensures
        deaf matches RunAction::Fail { error: said } && said@ == "Failed to get stdin for command"@,
        failed matches RunAction::Fail { error: said } && said@ == error@,
{
}

/// An answer to another question than the one that was asked changes nothing, and
/// neither does any answer once the stage asks to end.
pub proof fn law_run_hears_only_the_answer(stage: RunStage, action: RunAction, event: RunEvent)
    requires
        stage.asks(action),
        match action {
            RunAction::Connect { .. } => !(event is Connected),
            RunAction::Start { .. } => !(event is Started),
            RunAction::FeedScript { .. } => !(event is ScriptFed),
            RunAction::Wait => !(event is Exited),
            RunAction::Finish => true,
            RunAction::Exit { .. } => true,
            RunAction::FailBuild => true,
            RunAction::Fail { .. } => true,
        },
    ensures
        stage.after(event) == stage,
{
}

} // verus!
