//! The cleanup stage: give the fleet back and forget the job.
use crate::fleet::{cancels, is_cancelled, law_cancelled_request_is_named, CancelledRequest};
use crate::state::State;
use crate::text::{opt_text, texts};
use vstd::prelude::*;
use vstd::string::*;

verus! {

/// Where the cleanup stage stands.
#[derive(Debug, PartialEq, Eq)]
pub enum CleanupStage {
    /// The request is to be cancelled.
    Cancel { spot_fleet_request_id: String },
    /// The record is to be removed.
    RemoveState,
    /// The stage is through.
    Done,
    /// The stage has failed.
    Failed { failure: CleanupFailure },
}

/// Why the cleanup stage fails.
#[derive(Debug, PartialEq, Eq)]
pub enum CleanupFailure {
    /// Something outside failed.
    Outside { error: String },
    /// The cloud does not say that the request was cancelled.
    NotCancelled { spot_fleet_request_id: String, response: String },
}

/// What came back from a cancellation.
#[derive(Debug, PartialEq, Eq)]
pub struct CancelResponse {
    pub successful_fleet_requests: Vec<CancelledRequest>,
    /// The whole response, in words.
    pub text: String,
}

/// What happened outside.
#[derive(Debug, PartialEq, Eq)]
pub enum CleanupEvent {
    Cancelled { reply: Result<CancelResponse, String> },
    StateRemoved { reply: Result<(), String> },
}

/// What is to be done outside.
#[derive(Debug, PartialEq, Eq)]
pub enum CleanupAction {
    CancelSpotFleetRequests { spot_fleet_request_ids: Vec<String>, terminate_instances: bool },
    RemoveState,
    Finish,
    Fail { error: String },
}

impl CleanupFailure {
    /// What went wrong, in words.
    pub open spec fn text(self) -> Seq<char> {
        match self {
            CleanupFailure::Outside { error } => error@,
            CleanupFailure::NotCancelled { spot_fleet_request_id, response } => {
                "Failed to cancel spot fleet request "@ + spot_fleet_request_id@ + ": "@ + response@
            },
        }
    }

    /// What went wrong, in words.
    pub fn message(&self) -> (message: String)
        ensures
            message@ == self.text(),
    {
        match self {
            CleanupFailure::Outside { error } => error.clone(),
            CleanupFailure::NotCancelled { spot_fleet_request_id, response } => {
                "Failed to cancel spot fleet request ".to_owned().concat(
                    spot_fleet_request_id.as_str(),
                ).concat(": ").concat(response.as_str())
            },
        }
    }
}

/// The stage that ends with an error from outside.
pub open spec fn cleanup_failed(error: String) -> CleanupStage {
    CleanupStage::Failed { failure: CleanupFailure::Outside { error } }
}

impl CleanupStage {
    /// The stage that the cleanup stage starts in, given what was loaded.
    pub open spec fn started(loaded: Result<State, String>) -> CleanupStage {
        match loaded {
            Ok(state) => CleanupStage::Cancel {
                spot_fleet_request_id: state.spot_fleet_request_id,
            },
            Err(error) => cleanup_failed(error),
        }
    }

    /// What is printed at the start.
    pub open spec fn start_line(loaded: Result<State, String>) -> Option<Seq<char>> {
        match loaded {
            Ok(state) => Some(
                "Cleaning up spot fleet request "@ + state.spot_fleet_request_id@ + "..."@,
            ),
            Err(_) => None,
        }
    }

    /// The stage that follows when `event` happens. An answer to another
    /// question than the one that was asked changes nothing.
    pub open spec fn after(self, event: CleanupEvent) -> CleanupStage {
        match (self, event) {
            (
                CleanupStage::Cancel { spot_fleet_request_id },
                CleanupEvent::Cancelled { reply },
            ) => match reply {
                Ok(response) => if cancels(
                    response.successful_fleet_requests@,
                    spot_fleet_request_id@,
                ) {
                    CleanupStage::RemoveState
                } else {
                    CleanupStage::Failed {
                        failure: CleanupFailure::NotCancelled {
                            spot_fleet_request_id,
                            response: response.text,
                        },
                    }
                },
                Err(error) => cleanup_failed(error),
            },
            (CleanupStage::RemoveState, CleanupEvent::StateRemoved { reply }) => match reply {
                Ok(_) => CleanupStage::Done,
                Err(error) => cleanup_failed(error),
            },
            _ => self,
        }
    }

    /// What is printed when `event` happens.
    pub open spec fn line_after(self, event: CleanupEvent) -> Option<Seq<char>> {
        match (self, self.after(event)) {
            (CleanupStage::Cancel { spot_fleet_request_id }, CleanupStage::RemoveState) => Some(
                "Spot fleet request "@ + spot_fleet_request_id@ + " cancelled"@,
            ),
            _ => None,
        }
    }

    /// Whether `action` is what this stage asks for.
    pub open spec fn asks(self, action: CleanupAction) -> bool {
        match self {
            CleanupStage::Cancel { spot_fleet_request_id } => {
                &&& action matches CleanupAction::CancelSpotFleetRequests {
                    spot_fleet_request_ids,
                    terminate_instances,
                }
                &&& texts(spot_fleet_request_ids@) == seq![spot_fleet_request_id@]
                &&& terminate_instances
            },
            CleanupStage::RemoveState => action == CleanupAction::RemoveState,
            CleanupStage::Done => action == CleanupAction::Finish,
            CleanupStage::Failed { failure } => {
                &&& action matches CleanupAction::Fail { error }
                &&& error@ == failure.text()
            },
        }
    }

    /// The stage that the cleanup stage starts in, and what is printed.
    pub fn start(loaded: Result<State, String>) -> (started: (CleanupStage, Option<String>))
        ensures
            started.0 == CleanupStage::started(loaded),
            opt_text(started.1) == CleanupStage::start_line(loaded),
    {
        match loaded {
            Ok(state) => {
                let spot_fleet_request_id = state.spot_fleet_request_id;
                let line = "Cleaning up spot fleet request ".to_owned().concat(
                    spot_fleet_request_id.as_str(),
                ).concat("...");
                (CleanupStage::Cancel { spot_fleet_request_id }, Some(line))
            },
            Err(error) => (
                CleanupStage::Failed { failure: CleanupFailure::Outside { error } },
                None,
            ),
        }
    }

    /// The stage that follows when `event` happens, and what is printed.
    pub fn next(self, event: CleanupEvent) -> (next: (CleanupStage, Option<String>))
        ensures
            next.0 == self.after(event),
            opt_text(next.1) == self.line_after(event),
    {
        match (self, event) {
            (
                CleanupStage::Cancel { spot_fleet_request_id },
                CleanupEvent::Cancelled { reply },
            ) => match reply {
                Ok(response) => if is_cancelled(
                    &response.successful_fleet_requests,
                    &spot_fleet_request_id,
                ) {
                    let line = "Spot fleet request ".to_owned().concat(
                        spot_fleet_request_id.as_str(),
                    ).concat(" cancelled");
                    (CleanupStage::RemoveState, Some(line))
                } else {
                    (
                        CleanupStage::Failed {
                            failure: CleanupFailure::NotCancelled {
                                spot_fleet_request_id,
                                response: response.text,
                            },
                        },
                        None,
                    )
                },
                Err(error) => (
                    CleanupStage::Failed { failure: CleanupFailure::Outside { error } },
                    None,
                ),
            },
            (CleanupStage::RemoveState, CleanupEvent::StateRemoved { reply }) => match reply {
                Ok(_) => (CleanupStage::Done, None),
                Err(error) => (
                    CleanupStage::Failed { failure: CleanupFailure::Outside { error } },
                    None,
                ),
            },
            (stage, _) => (stage, None),
        }
    }

    /// What this stage asks for.
    pub fn action(&self) -> (action: CleanupAction)
        ensures
            self.asks(action),
    {
        match self {
            CleanupStage::Cancel { spot_fleet_request_id } => {
                let mut ids: Vec<String> = Vec::new();
                ids.push(spot_fleet_request_id.clone());
                assert(texts(ids@) =~= seq![spot_fleet_request_id@]);
                CleanupAction::CancelSpotFleetRequests {
                    spot_fleet_request_ids: ids,
                    terminate_instances: true,
                }
            },
            CleanupStage::RemoveState => CleanupAction::RemoveState,
            CleanupStage::Done => CleanupAction::Finish,
            CleanupStage::Failed { failure } => CleanupAction::Fail { error: failure.message() },
        }
    }

    /// The stage that a run of events leads to.
    pub open spec fn after_all(self, events: Seq<CleanupEvent>) -> CleanupStage
        decreases events.len(),
    {
        if events.len() == 0 {
            self
        } else {
            self.after_all(events.drop_last()).after(events.last())
        }
    }

    /// Whether the stage is over.
    pub open spec fn is_over(self) -> bool {
        self is Done || self is Failed
    }
}

impl CleanupEvent {
    /// The cloud says that the request `id` was cancelled.
    pub open spec fn confirms(self, id: Seq<char>) -> bool {
        &&& self matches CleanupEvent::Cancelled { reply }
        &&& reply is Ok
        &&& cancels(reply->Ok_0.successful_fleet_requests@, id)
    }
}

/// A stage that is over stays over, whatever happens.
pub proof fn law_cleanup_stays_over(stage: CleanupStage, events: Seq<CleanupEvent>)
    requires
        stage.is_over(),
    ensures
        stage.after_all(events) == stage,
    decreases events.len(),
{
    if events.len() > 0 {
        law_cleanup_stays_over(stage, events.drop_last());
    }
}

/// The record of a job is only removed, and the stage only succeeds, after the
/// cloud said that the request of this job was cancelled.
pub proof fn law_record_outlives_the_fleet(state: State, events: Seq<CleanupEvent>)
    requires
        CleanupStage::started(Ok(state)).after_all(events) is RemoveState
            || CleanupStage::started(Ok(state)).after_all(events) is Done,
    ensures
        exists|i: int|
            0 <= i < events.len() && (#[trigger] events[i]).confirms(
                state.spot_fleet_request_id@,
            ),
    decreases events.len(),
{
    let start = CleanupStage::started(Ok(state));
    if events.len() > 0 {
        let before = start.after_all(events.drop_last());
        if before is RemoveState || before is Done {
            law_record_outlives_the_fleet(state, events.drop_last());
            let i = choose|i: int|
                0 <= i < events.drop_last().len() && (#[trigger] events.drop_last()[i]).confirms(
                    state.spot_fleet_request_id@,
                );
            assert(events[i].confirms(state.spot_fleet_request_id@));
        } else {
            law_cleanup_keeps_the_request(state, events.drop_last());
            assert(events[events.len() - 1].confirms(state.spot_fleet_request_id@));
        }
    }
}

/// Without a record, as after a cleanup that succeeded, the stage fails with the
/// error of the load, and nothing is cancelled or removed.
pub proof fn law_no_record_no_cancellation(
    error: String,
    events: Seq<CleanupEvent>,
    action: CleanupAction,
)
    requires
        CleanupStage::started(Err(error)).after_all(events).asks(action),
    ensures
        action matches CleanupAction::Fail { error: said } && said@ == error@,
{
    law_cleanup_stays_over(CleanupStage::started(Err(error)), events);
}

/// The request that is cancelled is the one of the record, and no other.
pub proof fn law_cleanup_keeps_the_request(state: State, events: Seq<CleanupEvent>)
    ensures
        CleanupStage::started(Ok(state)).after_all(events) matches CleanupStage::Cancel {
            spot_fleet_request_id,
        } ==> spot_fleet_request_id == state.spot_fleet_request_id,
    decreases events.len(),
{
    if events.len() > 0 {
        law_cleanup_keeps_the_request(state, events.drop_last());
    }
}

impl CleanupStage {
    /// Whether `event` answers what this stage asks for.
    pub open spec fn answered_by(self, event: CleanupEvent) -> bool {
        match self {
            CleanupStage::Cancel { .. } => event is Cancelled,
            CleanupStage::RemoveState => event is StateRemoved,
            _ => false,
        }
    }

    /// How many answers the stage can still wait for.
    pub open spec fn answers_left(self) -> nat {
        match self {
            CleanupStage::Cancel { .. } => 2,
            CleanupStage::RemoveState => 1,
            _ => 0,
        }
    }
}

/// Every answer brings the stage closer to its end, and anything else leaves it
/// where it is.
pub proof fn law_cleanup_moves_on(stage: CleanupStage, event: CleanupEvent)
    ensures
        stage.answers_left() == 0 <==> stage.is_over(),
        stage.answered_by(event) ==> stage.after(event).answers_left() < stage.answers_left(),
        !stage.answered_by(event) ==> stage.after(event) == stage,
{
}

/// The stage starts from a record, by giving back the one request that is noted there,
/// with its instances. Without a record it fails with what went wrong.
pub proof fn law_cleanup_cancels_the_noted_request(
    loaded: Result<State, String>,
    action: CleanupAction,
    line: Option<String>,
)
    requires
        CleanupStage::started(loaded).asks(action),
        opt_text(line) == CleanupStage::start_line(loaded),
    ensures
        loaded matches Ok(state) ==> {
            &&& action matches CleanupAction::CancelSpotFleetRequests {
                spot_fleet_request_ids,
                terminate_instances,
            }
            &&& spot_fleet_request_ids@.len() == 1
            &&& spot_fleet_request_ids@[0]@ == state.spot_fleet_request_id@
            &&& terminate_instances
            &&& line matches Some(said)
            &&& said@ == "Cleaning up spot fleet request "@ + state.spot_fleet_request_id@ + "..."@
        },
        loaded matches Err(error) ==> {
            &&& action matches CleanupAction::Fail { error: said }
            &&& said@ == error@
            &&& line is None
        },
{
    if loaded is Ok {
        let ids = action->spot_fleet_request_ids@;
        assert(texts(ids).len() == 1);
        assert(texts(ids)[0] == ids[0]@);
    }
}

/// The record goes exactly if one of the requests that were cancelled bears, letter for
/// letter, the identifier of the noted one. Otherwise the stage fails, in words that name
/// the request and hold the whole response. An error is passed on as it is.
pub proof fn law_record_goes_with_the_request(
    state: State,
    reply: Result<CancelResponse, String>,
    action: CleanupAction,
    line: Option<String>,
)
    requires
        CleanupStage::started(Ok(state)).after(CleanupEvent::Cancelled { reply }).asks(action),
        opt_text(line) == CleanupStage::started(Ok(state)).line_after(
            CleanupEvent::Cancelled { reply },
        ),
    ensures
        reply matches Ok(response) ==> (if exists|i: int|
            0 <= i < response.successful_fleet_requests@.len() && (
            #[trigger] response.successful_fleet_requests@[i]).spot_fleet_request_id is Some
                && response.successful_fleet_requests@[i].spot_fleet_request_id->0@
                == state.spot_fleet_request_id@ {
            &&& action is RemoveState
            &&& line matches Some(said)
            &&& said@ == "Spot fleet request "@ + state.spot_fleet_request_id@ + " cancelled"@
        } else {
            &&& action matches CleanupAction::Fail { error: said }
            &&& said@ == "Failed to cancel spot fleet request "@ + state.spot_fleet_request_id@
                + ": "@ + response.text@
            &&& line is None
        }),
        reply matches Err(error) ==> {
            &&& action matches CleanupAction::Fail { error: said }
            &&& said@ == error@
            &&& line is None
        },
{
    if reply is Ok {
        law_cancelled_request_is_named(
            reply->Ok_0.successful_fleet_requests@,
            state.spot_fleet_request_id@,
        );
    }
}

/// The stage is through when the record was removed, and fails with what went wrong
/// where it was not. Neither is printed.
pub proof fn law_cleanup_ends_with_the_record(
    reply: Result<(), String>,
    action: CleanupAction,
    line: Option<String>,
)
    requires
        CleanupStage::RemoveState.after(CleanupEvent::StateRemoved { reply }).asks(action),
        opt_text(line) == CleanupStage::RemoveState.line_after(
            CleanupEvent::StateRemoved { reply },
        ),
    ensures
        reply is Ok ==> action is Finish,
        reply matches Err(error) ==> (action matches CleanupAction::Fail { error: said } && said@
            == error@),
        line is None,
{
}

/// An answer to another question than the one that was asked changes nothing, and
/// neither does any answer once the stage asks to end.
pub proof fn law_cleanup_hears_only_the_answer(
    stage: CleanupStage,
    action: CleanupAction,
    event: CleanupEvent,
)
    requires
        stage.asks(action),
        match action {
            CleanupAction::CancelSpotFleetRequests { .. } => !(event is Cancelled),
            CleanupAction::RemoveState => !(event is StateRemoved),
            CleanupAction::Finish => true,
            CleanupAction::Fail { .. } => true,
        },
    ensures
        stage.after(event) == stage,
        stage.line_after(event) is None,
{
}

} // verus!
