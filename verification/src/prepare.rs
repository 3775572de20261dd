//! The prepare stage: wait for the instance of the fleet, open it to root and
//! note its address.
use crate::fleet::{active_instance, active_instance_in, private_ip, private_ip_in};
use crate::fleet::{ActiveInstance, Instance, Reservation};
use crate::path::copy;
use crate::ssh::{login, ConnectError, Login, RemoteCommand};
use crate::state::State;
use crate::text::{opt_text, texts};
use vstd::prelude::*;
use vstd::string::*;

verus! {

/// Where the prepare stage stands. A stage that is named for a question waits
/// for its answer.
#[derive(Debug, PartialEq, Eq)]
pub enum PrepareStage {
    /// Which instances does the fleet have?
    AskFleetInstances { state: State },
    /// There is none yet.
    AwaitInstance { state: State },
    /// Where is the instance?
    AskAddress { state: State, instance_id: String },
    /// The instance is to be logged in to.
    Connect { state: State, private_ip: String },
    /// It does not answer yet.
    AwaitConnection { state: State, private_ip: String },
    /// Root is to be let in.
    AdmitRoot { state: State, private_ip: String },
    /// The address is to be noted.
    WriteState { state: State, private_ip: String },
    /// The stage is through.
    Done,
    /// The stage has failed.
    Failed { failure: PrepareFailure },
}

/// Why the prepare stage fails.
#[derive(Debug, PartialEq, Eq)]
pub enum PrepareFailure {
    /// Something outside failed.
    Outside { error: String },
    NoPrivateIp { instance_id: String },
    RootNotAdmitted,
}

/// What happened outside.
#[derive(Debug, PartialEq, Eq)]
pub enum PrepareEvent {
    FleetInstances { reply: Result<Option<Vec<ActiveInstance>>, String> },
    /// The time to wait is over.
    Waited,
    Instances { reply: Result<Option<Vec<Reservation>>, String> },
    Connected { reply: Result<(), ConnectError> },
    /// Whether the command succeeded.
    CommandFinished { reply: Result<bool, String> },
    StateWritten { reply: Result<(), String> },
}

/// What is to be done outside.
#[derive(Debug, PartialEq, Eq)]
pub enum PrepareAction {
    DescribeSpotFleetInstances { spot_fleet_request_id: String },
    Sleep { seconds: u64 },
    DescribeInstances { filter_name: String, filter_value: String },
    Connect { login: Login },
    RunCommand { command: RemoteCommand },
    WriteState { state: State },
    Finish,
    Fail { error: String },
}

/// The arguments of the command that lets root in with the user's keys.
pub open spec fn admit_root_args() -> Seq<Seq<char>> {
    seq!["cp"@, "/home/ec2-user/.ssh/authorized_keys"@, "/root/.ssh/authorized_keys"@]
}

/// The command that lets root in with the user's keys.
pub fn admit_root() -> (command: RemoteCommand)
    ensures
        command.is_command("sudo"@, admit_root_args(), false),
{
    let mut args: Vec<String> = Vec::new();
    args.push("cp".to_owned());
    args.push("/home/ec2-user/.ssh/authorized_keys".to_owned());
    args.push("/root/.ssh/authorized_keys".to_owned());
    assert(texts(args@) =~= admit_root_args());
    RemoteCommand { program: "sudo".to_owned(), args, piped_stdin: false }
}

impl PrepareFailure {
    /// What went wrong, in words.
    pub open spec fn text(self) -> Seq<char> {
        match self {
            PrepareFailure::Outside { error } => error@,
            PrepareFailure::NoPrivateIp { instance_id } => "Failed to get private IP address for "@
                + instance_id@,
            PrepareFailure::RootNotAdmitted => "Failed to copy over authorized_keys to root"@,
        }
    }

    /// What went wrong, in words.
    pub fn message(&self) -> (message: String)
        ensures
            message@ == self.text(),
    {
        match self {
            PrepareFailure::Outside { error } => error.clone(),
            PrepareFailure::NoPrivateIp { instance_id } => {
                "Failed to get private IP address for ".to_owned().concat(instance_id.as_str())
            },
            PrepareFailure::RootNotAdmitted => {
                "Failed to copy over authorized_keys to root".to_owned()
            },
        }
    }
}

/// The stage that ends with an error from outside.
pub open spec fn prepare_failed(error: String) -> PrepareStage {
    PrepareStage::Failed { failure: PrepareFailure::Outside { error } }
}

impl PrepareStage {
    /// The stage that the prepare stage starts in, given what was loaded.
    pub open spec fn started(loaded: Result<State, String>) -> PrepareStage {
        match loaded {
            Ok(state) => PrepareStage::AskFleetInstances { state },
            Err(error) => prepare_failed(error),
        }
    }

    /// What is printed at the start.
    pub open spec fn start_line(loaded: Result<State, String>) -> Option<Seq<char>> {
        match loaded {
            Ok(state) => Some(
                "Waiting for an instance to become available at "@ + state.spot_fleet_request_id@
                    + "..."@,
            ),
            Err(_) => None,
        }
    }

    /// The stage that follows when `event` happens. An answer to another
    /// question than the one that was asked changes nothing.
    pub open spec fn after(self, event: PrepareEvent) -> PrepareStage {
        match (self, event) {
            (
                PrepareStage::AskFleetInstances { state },
                PrepareEvent::FleetInstances { reply },
            ) => match reply {
                Ok(instances) => match active_instance_in(instances) {
                    Some((instance_id, _)) => PrepareStage::AskAddress { state, instance_id },
                    None => PrepareStage::AwaitInstance { state },
                },
                Err(error) => prepare_failed(error),
            },
            (PrepareStage::AwaitInstance { state }, PrepareEvent::Waited) => {
                PrepareStage::AskFleetInstances { state }
            },
            (
                PrepareStage::AskAddress { state, instance_id },
                PrepareEvent::Instances { reply },
            ) => match reply {
                Ok(reservations) => match private_ip_in(reservations) {
                    Some(private_ip) => PrepareStage::Connect { state, private_ip },
                    None => PrepareStage::Failed {
                        failure: PrepareFailure::NoPrivateIp { instance_id },
                    },
                },
                Err(error) => prepare_failed(error),
            },
            (PrepareStage::Connect { state, private_ip }, PrepareEvent::Connected { reply }) => {
                match reply {
                    Ok(_) => PrepareStage::AdmitRoot { state, private_ip },
                    Err(ConnectError::Connect { .. }) => PrepareStage::AwaitConnection {
                        state,
                        private_ip,
                    },
                    Err(ConnectError::Other { error }) => prepare_failed(error),
                }
            },
            (PrepareStage::AwaitConnection { state, private_ip }, PrepareEvent::Waited) => {
                PrepareStage::Connect { state, private_ip }
            },
            (
                PrepareStage::AdmitRoot { state, private_ip },
                PrepareEvent::CommandFinished { reply },
            ) => match reply {
                Ok(true) => PrepareStage::WriteState { state, private_ip },
                Ok(false) => PrepareStage::Failed { failure: PrepareFailure::RootNotAdmitted },
                Err(error) => prepare_failed(error),
            },
            (PrepareStage::WriteState { .. }, PrepareEvent::StateWritten { reply }) => match reply {
                Ok(_) => PrepareStage::Done,
                Err(error) => prepare_failed(error),
            },
            _ => self,
        }
    }

    /// What is printed when `event` happens.
    pub open spec fn line_after(self, event: PrepareEvent) -> Option<Seq<char>> {
        match (self, event) {
            (
                PrepareStage::AskFleetInstances { .. },
                PrepareEvent::FleetInstances { reply: Ok(instances) },
            ) => match active_instance_in(instances) {
                Some((id, kind)) => Some(
                    "Spot fleet yielded instance "@ + id@ + " ("@ + kind@ + ")"@,
                ),
                None => None,
            },
            (
                PrepareStage::AskAddress { instance_id, .. },
                PrepareEvent::Instances { reply: Ok(reservations) },
            ) => match private_ip_in(reservations) {
                Some(private_ip) => Some(
                    "Instance "@ + instance_id@ + " has IP "@ + private_ip@,
                ),
                None => None,
            },
            _ => None,
        }
    }

    /// Whether `action` is what this stage asks for.
    pub open spec fn asks(self, action: PrepareAction) -> bool {
        match self {
            PrepareStage::AskFleetInstances { state } => {
                &&& action matches PrepareAction::DescribeSpotFleetInstances {
                    spot_fleet_request_id,
                }
                &&& spot_fleet_request_id@ == state.spot_fleet_request_id@
            },
            PrepareStage::AwaitInstance { .. } => action == (PrepareAction::Sleep { seconds: 5 }),
            PrepareStage::AskAddress { instance_id, .. } => {
                &&& action matches PrepareAction::DescribeInstances { filter_name, filter_value }
                &&& filter_name@ == "instance-id"@
                &&& filter_value@ == instance_id@
            },
            PrepareStage::Connect { state, private_ip } => {
                &&& action matches PrepareAction::Connect { login }
                &&& login.is_login(state.private_key@, "ec2-user"@, private_ip@)
            },
            PrepareStage::AwaitConnection { .. } => action == (PrepareAction::Sleep { seconds: 1 }),
            PrepareStage::AdmitRoot { .. } => {
                &&& action matches PrepareAction::RunCommand { command }
                &&& command.is_command("sudo"@, admit_root_args(), false)
            },
            PrepareStage::WriteState { state, private_ip } => {
                &&& action matches PrepareAction::WriteState { state: noted }
                &&& noted@ == state@.at(private_ip@)
            },
            PrepareStage::Done => action == PrepareAction::Finish,
            PrepareStage::Failed { failure } => {
                &&& action matches PrepareAction::Fail { error }
                &&& error@ == failure.text()
            },
        }
    }

    /// The stage that the prepare stage starts in, and what is printed.
    pub fn start(loaded: Result<State, String>) -> (started: (PrepareStage, Option<String>))
        ensures
            started.0 == PrepareStage::started(loaded),
            opt_text(started.1) == PrepareStage::start_line(loaded),
    {
        match loaded {
            Ok(state) => {
                let line = "Waiting for an instance to become available at ".to_owned().concat(
                    state.spot_fleet_request_id.as_str(),
                ).concat("...");
                (PrepareStage::AskFleetInstances { state }, Some(line))
            },
            Err(error) => (
                PrepareStage::Failed { failure: PrepareFailure::Outside { error } },
                None,
            ),
        }
    }

    /// The stage that follows when `event` happens, and what is printed.
    pub fn next(self, event: PrepareEvent) -> (next: (PrepareStage, Option<String>))
        ensures
            next.0 == self.after(event),
            opt_text(next.1) == self.line_after(event),
    {
        match (self, event) {
            (
                PrepareStage::AskFleetInstances { state },
                PrepareEvent::FleetInstances { reply },
            ) => match reply {
                Ok(instances) => match active_instance(instances) {
                    Some((instance_id, kind)) => {
                        let line = "Spot fleet yielded instance ".to_owned().concat(
                            instance_id.as_str(),
                        ).concat(" (").concat(kind.as_str()).concat(")");
                        (PrepareStage::AskAddress { state, instance_id }, Some(line))
                    },
                    None => (PrepareStage::AwaitInstance { state }, None),
                },
                Err(error) => (
                    PrepareStage::Failed { failure: PrepareFailure::Outside { error } },
                    None,
                ),
            },
            (PrepareStage::AwaitInstance { state }, PrepareEvent::Waited) => (
                PrepareStage::AskFleetInstances { state },
                None,
            ),
            (
                PrepareStage::AskAddress { state, instance_id },
                PrepareEvent::Instances { reply },
            ) => match reply {
                Ok(reservations) => match private_ip(reservations) {
                    Some(private_ip) => {
                        let line = "Instance ".to_owned().concat(instance_id.as_str()).concat(
                            " has IP ",
                        ).concat(private_ip.as_str());
                        (PrepareStage::Connect { state, private_ip }, Some(line))
                    },
                    None => (
                        PrepareStage::Failed {
                            failure: PrepareFailure::NoPrivateIp { instance_id },
                        },
                        None,
                    ),
                },
                Err(error) => (
                    PrepareStage::Failed { failure: PrepareFailure::Outside { error } },
                    None,
                ),
            },
            (PrepareStage::Connect { state, private_ip }, PrepareEvent::Connected { reply }) => {
                match reply {
                    Ok(_) => (PrepareStage::AdmitRoot { state, private_ip }, None),
                    Err(ConnectError::Connect { .. }) => (
                        PrepareStage::AwaitConnection { state, private_ip },
                        None,
                    ),
                    Err(ConnectError::Other { error }) => (
                        PrepareStage::Failed { failure: PrepareFailure::Outside { error } },
                        None,
                    ),
                }
            },
            (PrepareStage::AwaitConnection { state, private_ip }, PrepareEvent::Waited) => (
                PrepareStage::Connect { state, private_ip },
                None,
            ),
            (
                PrepareStage::AdmitRoot { state, private_ip },
                PrepareEvent::CommandFinished { reply },
            ) => match reply {
                Ok(success) => if success {
                    (PrepareStage::WriteState { state, private_ip }, None)
                } else {
                    (PrepareStage::Failed { failure: PrepareFailure::RootNotAdmitted }, None)
                },
                Err(error) => (
                    PrepareStage::Failed { failure: PrepareFailure::Outside { error } },
                    None,
                ),
            },
            (PrepareStage::WriteState { .. }, PrepareEvent::StateWritten { reply }) => match reply {
                Ok(_) => (PrepareStage::Done, None),
                Err(error) => (
                    PrepareStage::Failed { failure: PrepareFailure::Outside { error } },
                    None,
                ),
            },
            (stage, _) => (stage, None),
        }
    }

    /// What this stage asks for.
    pub fn action(&self) -> (action: PrepareAction)
        ensures
            self.asks(action),
    {
        match self {
            PrepareStage::AskFleetInstances { state } => {
                PrepareAction::DescribeSpotFleetInstances {
                    spot_fleet_request_id: state.spot_fleet_request_id.clone(),
                }
            },
            PrepareStage::AwaitInstance { .. } => PrepareAction::Sleep { seconds: 5 },
            PrepareStage::AskAddress { instance_id, .. } => PrepareAction::DescribeInstances {
                filter_name: "instance-id".to_owned(),
                filter_value: instance_id.clone(),
            },
            PrepareStage::Connect { state, private_ip } => PrepareAction::Connect {
                login: login(state.private_key.as_slice(), "ec2-user", private_ip.as_str()),
            },
            PrepareStage::AwaitConnection { .. } => PrepareAction::Sleep { seconds: 1 },
            PrepareStage::AdmitRoot { .. } => PrepareAction::RunCommand { command: admit_root() },
            PrepareStage::WriteState { state, private_ip } => {
                let mut noted = State::new(
                    state.spot_fleet_request_id.clone(),
                    copy(state.private_key.as_slice()),
                );
                noted.set_address(private_ip.clone());
                PrepareAction::WriteState { state: noted }
            },
            PrepareStage::Done => PrepareAction::Finish,
            PrepareStage::Failed { failure } => PrepareAction::Fail { error: failure.message() },
        }
    }
}

impl PrepareStage {
    /// The stage that a run of events leads to.
    pub open spec fn after_all(self, events: Seq<PrepareEvent>) -> PrepareStage
        decreases events.len(),
    {
        if events.len() == 0 {
            self
        } else {
            self.after_all(events.drop_last()).after(events.last())
        }
    }

    /// Whether the stage is over.
    pub open spec fn is_over(self) -> bool {
        self is Done || self is Failed
    }

    /// Whether the last of the events makes the stage fail, before there was an
    /// address to note. (Without events, it has failed from the start.)
    pub open spec fn fails_before_the_note(self, events: Seq<PrepareEvent>) -> bool {
        &&& self.after_all(events) is Failed
        &&& events.len() == 0 || {
            let before = self.after_all(events.drop_last());
            !before.is_over() && !(before is WriteState)
        }
    }

    /// The record that is being worked on.
    pub open spec fn record(self) -> Option<State> {
        match self {
            PrepareStage::AskFleetInstances { state } => Some(state),
            PrepareStage::AwaitInstance { state } => Some(state),
            PrepareStage::AskAddress { state, .. } => Some(state),
            PrepareStage::Connect { state, .. } => Some(state),
            PrepareStage::AwaitConnection { state, .. } => Some(state),
            PrepareStage::AdmitRoot { state, .. } => Some(state),
            PrepareStage::WriteState { state, .. } => Some(state),
            _ => None,
        }
    }

    /// The same stage, at work on another record.
    pub open spec fn with_record(self, state: State) -> PrepareStage {
        match self {
            PrepareStage::AskFleetInstances { .. } => PrepareStage::AskFleetInstances { state },
            PrepareStage::AwaitInstance { .. } => PrepareStage::AwaitInstance { state },
            PrepareStage::AskAddress { instance_id, .. } => PrepareStage::AskAddress {
                state,
                instance_id,
            },
            PrepareStage::Connect { private_ip, .. } => PrepareStage::Connect {
                state,
                private_ip,
            },
            PrepareStage::AwaitConnection { private_ip, .. } => PrepareStage::AwaitConnection {
                state,
                private_ip,
            },
            PrepareStage::AdmitRoot { private_ip, .. } => PrepareStage::AdmitRoot {
                state,
                private_ip,
            },
            PrepareStage::WriteState { private_ip, .. } => PrepareStage::WriteState {
                state,
                private_ip,
            },
            _ => self,
        }
    }

    /// The address of the instance, once it is known.
    pub open spec fn address(self) -> Option<String> {
        match self {
            PrepareStage::Connect { private_ip, .. } => Some(private_ip),
            PrepareStage::AwaitConnection { private_ip, .. } => Some(private_ip),
            PrepareStage::AdmitRoot { private_ip, .. } => Some(private_ip),
            PrepareStage::WriteState { private_ip, .. } => Some(private_ip),
            _ => None,
        }
    }
}

impl PrepareEvent {
    /// The command that lets root in succeeded.
    pub open spec fn is_root_admitted(self) -> bool {
        self matches PrepareEvent::CommandFinished { reply } && reply == Ok::<bool, String>(true)
    }

    /// The cloud named `address` as the instance's.
    pub open spec fn gives_address(self, address: String) -> bool {
        &&& self matches PrepareEvent::Instances { reply }
        &&& reply is Ok
        &&& private_ip_in(reply->Ok_0) == Some(address)
    }
}

/// A stage that is over stays over, whatever happens.
pub proof fn law_prepare_stays_over(stage: PrepareStage, events: Seq<PrepareEvent>)
    requires
        stage.is_over(),
    ensures
        stage.after_all(events) == stage,
    decreases events.len(),
{
    if events.len() > 0 {
        law_prepare_stays_over(stage, events.drop_last());
    }
}

/// Whatever happens, the stage works on the record that was loaded.
pub proof fn law_prepare_keeps_the_record(state: State, events: Seq<PrepareEvent>)
    ensures
        ({
            let stage = PrepareStage::started(Ok(state)).after_all(events);
            stage.is_over() || stage.record() == Some(state)
        }),
    decreases events.len(),
{
    if events.len() > 0 {
        law_prepare_keeps_the_record(state, events.drop_last());
    }
}

/// The record that is written is the loaded one with the address that the cloud
/// gave: an earlier address is replaced, everything else is kept.
pub proof fn law_prepare_notes_only_the_address(
    state: State,
    events: Seq<PrepareEvent>,
    noted: State,
)
    requires
        PrepareStage::started(Ok(state)).after_all(events).asks(
            PrepareAction::WriteState { state: noted },
        ),
    ensures
        exists|i: int, address: String|
            0 <= i < events.len() && #[trigger] events[i].gives_address(address) && noted@
                == state@.at(address@),
{
    law_prepare_keeps_the_record(state, events);
    law_address_comes_from_the_cloud(state, events);
    let address = PrepareStage::started(Ok(state)).after_all(events).address()->0;
    let i = choose|i: int| 0 <= i < events.len() && (#[trigger] events[i]).gives_address(address);
    assert(events[i].gives_address(address));
}

/// Once the address is to be noted, nothing is left but the note.
proof fn lemma_note_is_the_last_step(stage: PrepareStage, events: Seq<PrepareEvent>, k: int)
    requires
        0 <= k <= events.len(),
        stage.after_all(events.take(k)) is WriteState,
    ensures
        stage.after_all(events) is WriteState || stage.after_all(events).is_over(),
    decreases events.len(),
{
    if k == events.len() {
        assert(events.take(k) =~= events);
    } else {
        assert(events.drop_last().take(k) =~= events.take(k));
        lemma_note_is_the_last_step(stage, events.drop_last(), k);
    }
}

/// A stage that fails before it comes to note an address has at no time asked for
/// a record to be written: what was noted before it still stands.
pub proof fn law_failed_prepare_writes_no_record(
    loaded: Result<State, String>,
    events: Seq<PrepareEvent>,
    k: int,
    action: PrepareAction,
)
    requires
        PrepareStage::started(loaded).fails_before_the_note(events),
        0 <= k <= events.len(),
        PrepareStage::started(loaded).after_all(events.take(k)).asks(action),
    ensures
        !(action is WriteState),
{
    let start = PrepareStage::started(loaded);
    if action is WriteState {
        assert(start.after_all(events.take(k)) is WriteState);
        if k == events.len() {
            assert(events.take(k) =~= events);
        } else {
            assert(events.drop_last().take(k) =~= events.take(k));
            lemma_note_is_the_last_step(start, events.drop_last(), k);
        }
    }
}

/// What the record holds does not change the course of the stage.
pub proof fn law_record_does_not_change_the_course(
    first: State,
    second: State,
    events: Seq<PrepareEvent>,
)
    ensures
        PrepareStage::started(Ok(second)).after_all(events) == PrepareStage::started(
            Ok(first),
        ).after_all(events).with_record(second),
    decreases events.len(),
{
    if events.len() > 0 {
        law_record_does_not_change_the_course(first, second, events.drop_last());
    }
}

/// Preparing once more from the record that the first time wrote, with the same
/// answers, goes the same way and writes the same record again.
pub proof fn law_preparing_again_changes_nothing(
    first: State,
    events: Seq<PrepareEvent>,
    written: State,
    second: State,
)
    requires
        PrepareStage::started(Ok(first)).after_all(events).asks(
            PrepareAction::WriteState { state: written },
        ),
        second@ == written@,
    ensures
        forall|again: State|
            #[trigger] PrepareStage::started(Ok(second)).after_all(events).asks(
                PrepareAction::WriteState { state: again },
            ) <==> again@ == written@,
        forall|rest: Seq<PrepareEvent>|
            (#[trigger] PrepareStage::started(Ok(first)).after_all(events + rest)) is Done
                <==> PrepareStage::started(Ok(second)).after_all(events + rest) is Done,
{
    law_prepare_keeps_the_record(first, events);
    law_record_does_not_change_the_course(first, second, events);
    assert forall|rest: Seq<PrepareEvent>|
        (#[trigger] PrepareStage::started(Ok(first)).after_all(events + rest)) is Done
            <==> PrepareStage::started(Ok(second)).after_all(events + rest) is Done by {
        law_record_does_not_change_the_course(first, second, events + rest);
    }
}

/// While the fleet has no instance to show, the same question is asked again
/// after a wait.
pub proof fn law_fleet_is_asked_again(state: State, instances: Option<Vec<ActiveInstance>>)
    requires
        active_instance_in(instances) is None,
    ensures
        ({
            let asking = PrepareStage::AskFleetInstances { state };
            let waiting = asking.after(PrepareEvent::FleetInstances { reply: Ok(instances) });
            &&& waiting.asks(PrepareAction::Sleep { seconds: 5 })
            &&& waiting.after(PrepareEvent::Waited) == asking
        }),
{
}

/// An instance that cannot be reached is tried again after a wait. Any other
/// error ends the stage.
pub proof fn law_unreachable_instance_is_tried_again(
    state: State,
    private_ip: String,
    failed: ConnectError,
)
    ensures
        ({
            let connecting = PrepareStage::Connect { state, private_ip };
            let then = connecting.after(PrepareEvent::Connected { reply: Err(failed) });
            match failed {
                ConnectError::Connect { .. } => {
                    &&& then.asks(PrepareAction::Sleep { seconds: 1 })
                    &&& then.after(PrepareEvent::Waited) == connecting
                },
                ConnectError::Other { error } => then == prepare_failed(error),
            }
        }),
{
}

/// An address is only noted after root was let in at that address.
pub proof fn law_root_is_admitted_before_the_address_is_noted(
    state: State,
    events: Seq<PrepareEvent>,
)
    requires
        PrepareStage::started(Ok(state)).after_all(events) is WriteState,
    ensures
        exists|i: int|
            {
                let start = PrepareStage::started(Ok(state));
                &&& 0 <= i < events.len()
                &&& (#[trigger] events[i]).is_root_admitted()
                &&& start.after_all(events.take(i)) is AdmitRoot
                &&& start.after_all(events.take(i)).address() == start.after_all(events).address()
            },
    decreases events.len(),
{
    let start = PrepareStage::started(Ok(state));
    if events.len() > 0 {
        let before = start.after_all(events.drop_last());
        let last = events.len() - 1;
        assert(events.take(last) =~= events.drop_last());
        if before is WriteState {
            law_root_is_admitted_before_the_address_is_noted(state, events.drop_last());
            let i = choose|i: int|
                {
                    &&& 0 <= i < events.drop_last().len()
                    &&& (#[trigger] events.drop_last()[i]).is_root_admitted()
                    &&& start.after_all(events.drop_last().take(i)) is AdmitRoot
                    &&& start.after_all(events.drop_last().take(i)).address() == before.address()
                };
            assert(events.drop_last().take(i) =~= events.take(i));
            assert(events[i].is_root_admitted());
        } else {
            assert(events[last].is_root_admitted());
        }
    }
}

/// The address that is worked with is one that the cloud gave.
pub proof fn law_address_comes_from_the_cloud(state: State, events: Seq<PrepareEvent>)
    ensures
        PrepareStage::started(Ok(state)).after_all(events).address() matches Some(address)
            ==> exists|i: int|
            0 <= i < events.len() && (#[trigger] events[i]).gives_address(address),
    decreases events.len(),
{
    let start = PrepareStage::started(Ok(state));
    if events.len() > 0 {
        law_address_comes_from_the_cloud(state, events.drop_last());
        let before = start.after_all(events.drop_last());
        let end = start.after_all(events);
        if end.address() is Some {
            let address = end.address()->0;
            if before.address() is Some {
                let i = choose|i: int|
                    0 <= i < events.drop_last().len() && (
                    #[trigger] events.drop_last()[i]).gives_address(address);
                assert(events[i].gives_address(address));
            } else {
                assert(events[events.len() - 1].gives_address(address));
            }
        }
    }
}

impl PrepareStage {
    /// Whether `event` answers what this stage asks for.
    pub open spec fn answered_by(self, event: PrepareEvent) -> bool {
        match self {
            PrepareStage::AskFleetInstances { .. } => event is FleetInstances,
            PrepareStage::AwaitInstance { .. } => event is Waited,
            PrepareStage::AskAddress { .. } => event is Instances,
            PrepareStage::Connect { .. } => event is Connected,
            PrepareStage::AwaitConnection { .. } => event is Waited,
            PrepareStage::AdmitRoot { .. } => event is CommandFinished,
            PrepareStage::WriteState { .. } => event is StateWritten,
            _ => false,
        }
    }

    /// How many answers the stage can still wait for, where none of them makes it wait.
    pub open spec fn answers_left(self) -> nat {
        match self {
            PrepareStage::AwaitInstance { .. } => 6,
            PrepareStage::AskFleetInstances { .. } => 5,
            PrepareStage::AskAddress { .. } => 4,
            PrepareStage::AwaitConnection { .. } => 4,
            PrepareStage::Connect { .. } => 3,
            PrepareStage::AdmitRoot { .. } => 2,
            PrepareStage::WriteState { .. } => 1,
            _ => 0,
        }
    }
}

/// Every answer brings the stage closer to its end, but for the two that make it
/// wait: no instance yet, and an instance that cannot be reached. Anything that is
/// no answer leaves it where it is.
pub proof fn law_prepare_moves_on(stage: PrepareStage, event: PrepareEvent)
    ensures
        stage.answers_left() == 0 <==> stage.is_over(),
        stage.answered_by(event) ==> {
            let then = stage.after(event);
            ||| then.answers_left() < stage.answers_left()
            ||| stage is AskFleetInstances && then is AwaitInstance
            ||| stage is Connect && then is AwaitConnection
        },
        !stage.answered_by(event) ==> stage.after(event) == stage && stage.line_after(event) is None,
{
}

/// Whatever has happened, the stage logs in as `ec2-user`, with the key of the record,
/// at an address that the cloud gave: that of the first instance of the first
/// reservation of a reply.
pub proof fn law_prepare_logs_in_as_the_user(
    state: State,
    events: Seq<PrepareEvent>,
    login: Login,
)
    requires
        PrepareStage::started(Ok(state)).after_all(events).asks(PrepareAction::Connect { login }),
    ensures
        login.keyfile@ == state.private_key@,
        exists|i: int|
            0 <= i < events.len() && {
                &&& #[trigger] events[i] matches PrepareEvent::Instances {
                    reply: Ok(Some(reservations)),
                }
                &&& reservations@.len() > 0
                &&& reservations@[0].instances matches Some(instances)
                &&& instances@.len() > 0
                &&& instances@[0].private_ip_address matches Some(address)
                &&& login.destination@ == "ec2-user@"@ + address@
            },
{
    law_prepare_keeps_the_record(state, events);
    law_address_comes_from_the_cloud(state, events);
    let address = PrepareStage::started(Ok(state)).after_all(events).address()->0;
    let i = choose|i: int| 0 <= i < events.len() && (#[trigger] events[i]).gives_address(address);
    reveal_strlit("ec2-user");
    reveal_strlit("@");
    reveal_strlit("ec2-user@");
    assert("ec2-user"@ + "@"@ =~= "ec2-user@"@);
    assert(login.destination@ == "ec2-user@"@ + address@);
}

/// The stage starts from a record, by asking for the instances of the request that is
/// noted there. Without a record it fails with what went wrong.
pub proof fn law_prepare_first_question(
    loaded: Result<State, String>,
    action: PrepareAction,
    line: Option<String>,
)
    requires
        PrepareStage::started(loaded).asks(action),
        opt_text(line) == PrepareStage::start_line(loaded),
    ensures
        loaded matches Ok(state) ==> {
            &&& action matches PrepareAction::DescribeSpotFleetInstances { spot_fleet_request_id }
            &&& spot_fleet_request_id@ == state.spot_fleet_request_id@
            &&& line matches Some(said)
            &&& said@ == "Waiting for an instance to become available at "@
                + state.spot_fleet_request_id@ + "..."@
        },
        loaded matches Err(error) ==> {
            &&& action matches PrepareAction::Fail { error: said }
            &&& said@ == error@
            &&& line is None
        },
{
}

/// Where every answer is a good one, the stage asks, in this order, for the instances of
/// the fleet, for the address of the first of them, for a login there, for root to be let
/// in, and for a record that has the address and is otherwise the one it started from. The
/// instance and its address are printed when they are known, and nothing else is.
pub proof fn law_prepare_course(
    state: State,
    found: Vec<ActiveInstance>,
    id: String,
    kind: String,
    reservations: Vec<Reservation>,
    instances: Vec<Instance>,
    address: String,
    connected: Result<(), ConnectError>,
    written: Result<(), String>,
    stages: Seq<PrepareStage>,
    asked: Seq<PrepareAction>,
    said: Seq<Option<String>>,
)
    requires
        found@.len() > 0,
        found@[0].instance_id == Some(id),
        found@[0].instance_type == Some(kind),
        reservations@.len() > 0,
        reservations@[0].instances == Some(instances),
        instances@.len() > 0,
        instances@[0].private_ip_address == Some(address),
        connected is Ok,
        written is Ok,
        stages.len() == 6,
        asked.len() == 6,
        said.len() == 5,
        stages[0] == PrepareStage::started(Ok(state)),
        stages[1] == stages[0].after(PrepareEvent::FleetInstances { reply: Ok(Some(found)) }),
        stages[2] == stages[1].after(PrepareEvent::Instances { reply: Ok(Some(reservations)) }),
        stages[3] == stages[2].after(PrepareEvent::Connected { reply: connected }),
        stages[4] == stages[3].after(PrepareEvent::CommandFinished { reply: Ok(true) }),
        stages[5] == stages[4].after(PrepareEvent::StateWritten { reply: written }),
        forall|i: int| 0 <= i < 6 ==> (#[trigger] stages[i]).asks(asked[i]),
        opt_text(said[0]) == stages[0].line_after(
            PrepareEvent::FleetInstances { reply: Ok(Some(found)) },
        ),
        opt_text(said[1]) == stages[1].line_after(
            PrepareEvent::Instances { reply: Ok(Some(reservations)) },
        ),
        opt_text(said[2]) == stages[2].line_after(PrepareEvent::Connected { reply: connected }),
        opt_text(said[3]) == stages[3].line_after(
            PrepareEvent::CommandFinished { reply: Ok(true) },
        ),
        opt_text(said[4]) == stages[4].line_after(PrepareEvent::StateWritten { reply: written }),
    ensures
        asked[0] matches PrepareAction::DescribeSpotFleetInstances { spot_fleet_request_id }
            && spot_fleet_request_id@ == state.spot_fleet_request_id@,
        said[0] matches Some(line) && line@ == "Spot fleet yielded instance "@ + id@ + " ("@ + kind@
            + ")"@,
        asked[1] matches PrepareAction::DescribeInstances { filter_name, filter_value }
            && filter_name@ == "instance-id"@ && filter_value@ == id@,
        said[1] matches Some(line) && line@ == "Instance "@ + id@ + " has IP "@ + address@,
        asked[2] matches PrepareAction::Connect { login } && login.keyfile@ == state.private_key@
            && login.destination@ == "ec2-user@"@ + address@,
        said[2] is None,
        asked[3] matches PrepareAction::RunCommand { command } && command.program@ == "sudo"@
            && !command.piped_stdin && command.args@.len() == 3 && command.args@[0]@ == "cp"@
            && command.args@[1]@ == "/home/ec2-user/.ssh/authorized_keys"@ && command.args@[2]@
            == "/root/.ssh/authorized_keys"@,
        said[3] is None,
        asked[4] matches PrepareAction::WriteState { state: noted } && noted.spot_fleet_request_id@
            == state.spot_fleet_request_id@ && noted.private_key@ == state.private_key@
            && noted.instance_address is Some && noted.instance_address->0@ == address@,
        said[4] is None,
        asked[5] is Finish,
{
    assert(stages[0].asks(asked[0]));
    assert(stages[1].asks(asked[1]));
    assert(stages[2].asks(asked[2]));
    assert(stages[3].asks(asked[3]));
    assert(stages[4].asks(asked[4]));
    assert(stages[5].asks(asked[5]));
    reveal_strlit("ec2-user");
    reveal_strlit("@");
    reveal_strlit("ec2-user@");
    assert("ec2-user"@ + "@"@ =~= "ec2-user@"@);
    let args = asked[3]->command.args@;
    assert(texts(args).len() == 3);
    assert(texts(args)[0] == args[0]@);
    assert(texts(args)[1] == args[1]@);
    assert(texts(args)[2] == args[2]@);
}

/// A fleet without a first instance, or with one that has no identifier or no type yet,
/// is asked again after five seconds: the stage is then where it was, whatever the
/// record holds.
pub proof fn law_prepare_waits_for_an_instance(
    state: State,
    found: Option<Vec<ActiveInstance>>,
    action: PrepareAction,
)
    requires
        found is None || found->0@.len() == 0 || found->0@[0].instance_id is None
            || found->0@[0].instance_type is None,
        PrepareStage::started(Ok(state)).after(
            PrepareEvent::FleetInstances { reply: Ok(found) },
        ).asks(action),
    ensures
        action == (PrepareAction::Sleep { seconds: 5 }),
        PrepareStage::started(Ok(state)).line_after(
            PrepareEvent::FleetInstances { reply: Ok(found) },
        ) is None,
        PrepareStage::started(Ok(state)).after(
            PrepareEvent::FleetInstances { reply: Ok(found) },
        ).after(PrepareEvent::Waited) == PrepareStage::started(Ok(state)),
{
}

/// An instance that cannot be reached is tried again after one second: the stage is
/// then where it was. Any other fault in logging in ends the stage with that fault.
pub proof fn law_prepare_waits_for_the_login(
    state: State,
    private_ip: String,
    error: String,
    unreachable: PrepareAction,
    failed: PrepareAction,
)
    requires
        (PrepareStage::Connect { state, private_ip }).after(
            PrepareEvent::Connected { reply: Err(ConnectError::Connect { error }) },
        ).asks(unreachable),
        (PrepareStage::Connect { state, private_ip }).after(
            PrepareEvent::Connected { reply: Err(ConnectError::Other { error }) },
        ).asks(failed),
    ensures
        unreachable == (PrepareAction::Sleep { seconds: 1 }),
        (PrepareStage::Connect { state, private_ip }).after(
            PrepareEvent::Connected { reply: Err(ConnectError::Connect { error }) },
        ).after(PrepareEvent::Waited) == (PrepareStage::Connect { state, private_ip }),
        failed matches PrepareAction::Fail { error: said } && said@ == error@,
{
}

/// An instance without an address, and a root that was not let in, fail the stage in
/// words of their own. What fails outside fails the stage with what went wrong there.
pub proof fn law_prepare_faults(
    state: State,
    id: String,
    private_ip: String,
    reservations: Option<Vec<Reservation>>,
    error: String,
    homeless: PrepareAction,
    refused: PrepareAction,
    failed: PrepareAction,
)
    requires
        reservations is None || reservations->0@.len() == 0 || reservations->0@[0].instances is None
            || reservations->0@[0].instances->0@.len() == 0
            || reservations->0@[0].instances->0@[0].private_ip_address is None,
        (PrepareStage::AskAddress { state, instance_id: id }).after(
            PrepareEvent::Instances { reply: Ok(reservations) },
        ).asks(homeless),
        (PrepareStage::AdmitRoot { state, private_ip }).after(
            PrepareEvent::CommandFinished { reply: Ok(false) },
        ).asks(refused),
        ({
            ||| (PrepareStage::AskFleetInstances { state }).after(
                PrepareEvent::FleetInstances { reply: Err(error) },
            ).asks(failed)
            ||| (PrepareStage::AskAddress { state, instance_id: id }).after(
                PrepareEvent::Instances { reply: Err(error) },
            ).asks(failed)
            ||| (PrepareStage::AdmitRoot { state, private_ip }).after(
                PrepareEvent::CommandFinished { reply: Err(error) },
            ).asks(failed)
            ||| (PrepareStage::WriteState { state, private_ip }).after(
                PrepareEvent::StateWritten { reply: Err(error) },
            ).asks(failed)
        }),
    ensures
        homeless matches PrepareAction::Fail { error: said } && said@
            == "Failed to get private IP address for "@ + id@,
        refused matches PrepareAction::Fail { error: said } && said@
            == "Failed to copy over authorized_keys to root"@,
        failed matches PrepareAction::Fail { error: said } && said@ == error@,
{
}

/// An answer to another question than the one that was asked changes nothing, and
/// neither does any answer once the stage asks to end.
pub proof fn law_prepare_hears_only_the_answer(
    stage: PrepareStage,
    action: PrepareAction,
    event: PrepareEvent,
)
    requires
        stage.asks(action),
        match action {
            PrepareAction::DescribeSpotFleetInstances { .. } => !(event is FleetInstances),
            PrepareAction::Sleep { .. } => !(event is Waited),
            PrepareAction::DescribeInstances { .. } => !(event is Instances),
            PrepareAction::Connect { .. } => !(event is Connected),
            PrepareAction::RunCommand { .. } => !(event is CommandFinished),
            PrepareAction::WriteState { .. } => !(event is StateWritten),
            PrepareAction::Finish => true,
            PrepareAction::Fail { .. } => true,
        },
    ensures
        stage.after(event) == stage,
        stage.line_after(event) is None,
{
}

/// Something is printed only when an instance or an address comes to be known.
pub proof fn law_prepare_prints_only_what_it_found(
    stage: PrepareStage,
    event: PrepareEvent,
    action: PrepareAction,
)
    requires
        stage.after(event).asks(action),
        stage.line_after(event) is Some,
    ensures
        event is FleetInstances && action is DescribeInstances || event is Instances && action
            is Connect,
{
}

} // verus!
