use spot_gitlab_driver::cleanup::{CancelResponse, CleanupAction, CleanupEvent, CleanupStage};
use spot_gitlab_driver::fleet::CancelledRequest;
use spot_gitlab_driver::state::State;

fn record() -> State {
    State::new("sfr-1".to_string(), b"/k.pem".to_vec())
}

fn started() -> CleanupStage {
    CleanupStage::start(Ok(record())).0
}

fn cancelled(ids: &[&str]) -> CleanupEvent {
    CleanupEvent::Cancelled {
        reply: Ok(CancelResponse {
            successful_fleet_requests: ids
                .iter()
                .map(|id| CancelledRequest { spot_fleet_request_id: Some(id.to_string()) })
                .collect(),
            text: "Response".to_string(),
        }),
    }
}

fn failed(stage: CleanupStage) -> String {
    match stage.action() {
        CleanupAction::Fail { error } => error,
        other => panic!("{:?}", other),
    }
}

#[test]
fn whole_cleanup_stage() {
    let (stage, line) = CleanupStage::start(Ok(record()));
    assert_eq!(line, Some("Cleaning up spot fleet request sfr-1...".to_string()));
    assert_eq!(
        stage.action(),
        CleanupAction::CancelSpotFleetRequests {
            spot_fleet_request_ids: vec!["sfr-1".to_string()],
            terminate_instances: true,
        }
    );
    let (stage, line) = stage.next(cancelled(&["sfr-0", "sfr-1"]));
    assert_eq!(line, Some("Spot fleet request sfr-1 cancelled".to_string()));
    assert_eq!(stage.action(), CleanupAction::RemoveState);
    let (stage, line) = stage.next(CleanupEvent::StateRemoved { reply: Ok(()) });
    assert_eq!(line, None);
    assert_eq!(stage.action(), CleanupAction::Finish);
    assert_eq!(stage.next(cancelled(&[])), (CleanupStage::Done, None));
}

#[test]
fn the_record_outlives_the_fleet() {
    let (stage, line) = started().next(cancelled(&["sfr-2"]));
    assert_eq!(line, None);
    assert_eq!(failed(stage), "Failed to cancel spot fleet request sfr-1: Response");
    let removed = CleanupEvent::StateRemoved { reply: Ok(()) };
    assert_eq!(started().next(removed), (started(), None));
}

#[test]
fn errors_from_outside_end_cleanup() {
    let error = || "gone".to_string();
    let (stage, line) = CleanupStage::start(Err(error()));
    assert_eq!(line, None);
    assert_eq!(failed(stage), "gone");
    assert_eq!(failed(started().next(CleanupEvent::Cancelled { reply: Err(error()) }).0), "gone");
    let removing = started().next(cancelled(&["sfr-1"])).0;
    assert_eq!(failed(removing.next(CleanupEvent::StateRemoved { reply: Err(error()) }).0), "gone");
}

#[test]
fn without_a_record_nothing_is_cancelled() {
    let (stage, _) = CleanupStage::start(Err("No such file".to_string()));
    let (stage, line) = stage.next(cancelled(&["sfr-1"]));
    assert_eq!(line, None);
    assert_eq!(failed(stage), "No such file");
}
