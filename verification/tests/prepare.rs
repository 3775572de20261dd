use spot_gitlab_driver::fleet::{ActiveInstance, Instance, Reservation};
use spot_gitlab_driver::prepare::{
    admit_root, PrepareAction, PrepareEvent, PrepareFailure, PrepareStage,
};
use spot_gitlab_driver::ssh::{login, ConnectError};
use spot_gitlab_driver::state::State;

fn some(t: &str) -> Option<String> {
    Some(t.to_string())
}

fn record() -> State {
    State::new("sfr-1".to_string(), b"/k.pem".to_vec())
}

fn instances() -> PrepareEvent {
    PrepareEvent::FleetInstances {
        reply: Ok(Some(vec![ActiveInstance {
            instance_id: some("i-1"),
            instance_type: some("c5.large"),
        }])),
    }
}

fn addresses() -> PrepareEvent {
    PrepareEvent::Instances {
        reply: Ok(Some(vec![Reservation {
            instances: Some(vec![Instance { private_ip_address: some("10.0.0.7") }]),
        }])),
    }
}

fn started() -> PrepareStage {
    PrepareStage::start(Ok(record())).0
}

fn connecting() -> PrepareStage {
    started().next(instances()).0.next(addresses()).0
}

fn admitting() -> PrepareStage {
    connecting().next(PrepareEvent::Connected { reply: Ok(()) }).0
}

fn failed(stage: PrepareStage) -> String {
    match stage.action() {
        PrepareAction::Fail { error } => error,
        other => panic!("{:?}", other),
    }
}

#[test]
fn whole_prepare_stage() {
    let (stage, line) = PrepareStage::start(Ok(record()));
    assert_eq!(line, some("Waiting for an instance to become available at sfr-1..."));
    assert_eq!(
        stage.action(),
        PrepareAction::DescribeSpotFleetInstances { spot_fleet_request_id: "sfr-1".to_string() }
    );
    let (stage, line) = stage.next(instances());
    assert_eq!(line, some("Spot fleet yielded instance i-1 (c5.large)"));
    assert_eq!(
        stage.action(),
        PrepareAction::DescribeInstances {
            filter_name: "instance-id".to_string(),
            filter_value: "i-1".to_string()
        }
    );
    let (stage, line) = stage.next(addresses());
    assert_eq!(line, some("Instance i-1 has IP 10.0.0.7"));
    assert_eq!(
        stage.action(),
        PrepareAction::Connect { login: login(b"/k.pem", "ec2-user", "10.0.0.7") }
    );
    let (stage, line) = stage.next(PrepareEvent::Connected { reply: Ok(()) });
    assert_eq!(line, None);
    assert_eq!(stage.action(), PrepareAction::RunCommand { command: admit_root() });
    let (stage, _) = stage.next(PrepareEvent::CommandFinished { reply: Ok(true) });
    assert_eq!(
        stage.action(),
        PrepareAction::WriteState {
            state: State {
                spot_fleet_request_id: "sfr-1".to_string(),
                private_key: b"/k.pem".to_vec(),
                instance_address: some("10.0.0.7"),
            }
        }
    );
    let (stage, _) = stage.next(PrepareEvent::StateWritten { reply: Ok(()) });
    assert_eq!(stage, PrepareStage::Done);
    assert_eq!(stage.action(), PrepareAction::Finish);
    assert_eq!(stage.next(PrepareEvent::Waited), (PrepareStage::Done, None));
}

#[test]
fn root_is_let_in_by_a_copy_of_the_keys() {
    let command = admit_root();
    assert_eq!(command.program, "sudo");
    assert_eq!(
        command.args,
        vec!["cp", "/home/ec2-user/.ssh/authorized_keys", "/root/.ssh/authorized_keys"]
    );
    assert!(!command.piped_stdin);
}

#[test]
fn the_fleet_is_asked_again() {
    for reply in [None, Some(vec![])] {
        let (stage, line) = started().next(PrepareEvent::FleetInstances { reply: Ok(reply) });
        assert_eq!(line, None);
        assert_eq!(stage.action(), PrepareAction::Sleep { seconds: 5 });
        assert_eq!(stage.next(PrepareEvent::Waited), (started(), None));
    }
}

#[test]
fn an_unreachable_instance_is_tried_again() {
    let refused = ConnectError::Connect { error: "refused".to_string() };
    let (stage, _) = connecting().next(PrepareEvent::Connected { reply: Err(refused) });
    assert_eq!(stage.action(), PrepareAction::Sleep { seconds: 1 });
    assert_eq!(stage.next(PrepareEvent::Waited).0, connecting());
}

#[test]
fn other_connection_errors_end_the_stage() {
    let other = ConnectError::Other { error: "bad key".to_string() };
    let (stage, _) = connecting().next(PrepareEvent::Connected { reply: Err(other) });
    assert_eq!(failed(stage), "bad key");
}

#[test]
fn errors_from_outside_end_prepare() {
    let error = || "gone".to_string();
    let (stage, line) = PrepareStage::start(Err(error()));
    assert_eq!(line, None);
    assert_eq!(failed(stage), "gone");
    assert_eq!(failed(started().next(PrepareEvent::FleetInstances { reply: Err(error()) }).0), "gone");
    let asking = started().next(instances()).0;
    assert_eq!(failed(asking.next(PrepareEvent::Instances { reply: Err(error()) }).0), "gone");
    let end = admitting().next(PrepareEvent::CommandFinished { reply: Err(error()) }).0;
    assert_eq!(failed(end), "gone");
    let noting = admitting().next(PrepareEvent::CommandFinished { reply: Ok(true) }).0;
    assert_eq!(failed(noting.next(PrepareEvent::StateWritten { reply: Err(error()) }).0), "gone");
}

#[test]
fn no_private_ip() {
    let (stage, line) = started().next(instances()).0.next(PrepareEvent::Instances { reply: Ok(None) });
    assert_eq!(line, None);
    assert_eq!(failed(stage), "Failed to get private IP address for i-1");
}

#[test]
fn root_not_admitted() {
    let (stage, _) = admitting().next(PrepareEvent::CommandFinished { reply: Ok(false) });
    assert_eq!(stage, PrepareStage::Failed { failure: PrepareFailure::RootNotAdmitted });
    assert_eq!(failed(stage), "Failed to copy over authorized_keys to root");
}

#[test]
fn answers_out_of_turn_change_nothing_in_prepare() {
    assert_eq!(started().next(addresses()), (started(), None));
    assert_eq!(started().next(PrepareEvent::Waited), (started(), None));
    assert_eq!(connecting().next(instances()), (connecting(), None));
}

#[test]
fn preparing_again_writes_the_same_record() {
    let write = |loaded: State| {
        let stage = PrepareStage::start(Ok(loaded)).0.next(instances()).0.next(addresses()).0;
        let stage = stage.next(PrepareEvent::Connected { reply: Ok(()) }).0;
        match stage.next(PrepareEvent::CommandFinished { reply: Ok(true) }).0.action() {
            PrepareAction::WriteState { state } => state,
            other => panic!("{:?}", other),
        }
    };
    let first = write(record());
    assert_eq!(write(first.clone()), first);
    // An earlier address is replaced.
    let mut moved = record();
    moved.set_address("10.9.9.9".to_string());
    assert_eq!(write(moved), first);
}

#[test]
fn a_failed_prepare_writes_no_record() {
    let events = || {
        vec![
            instances(),
            addresses(),
            PrepareEvent::Connected { reply: Ok(()) },
            PrepareEvent::CommandFinished { reply: Ok(false) },
        ]
    };
    let mut stage = started();
    for event in events() {
        assert!(!matches!(stage.action(), PrepareAction::WriteState { .. }));
        stage = stage.next(event).0;
    }
    assert_eq!(failed(stage), "Failed to copy over authorized_keys to root");
}
