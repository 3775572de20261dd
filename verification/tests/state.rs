use spot_gitlab_driver::state::State;

#[test]
fn a_new_record_has_no_address() {
    let state = State::new("sfr-1".to_string(), b"/d/p-ci-build.pem".to_vec());
    assert_eq!(state.spot_fleet_request_id, "sfr-1");
    assert_eq!(state.private_key, b"/d/p-ci-build.pem");
    assert_eq!(state.instance_address, None);
}

#[test]
fn an_address_changes_nothing_else() {
    let mut state = State::new("sfr-1".to_string(), b"/k".to_vec());
    state.set_address("10.0.0.7".to_string());
    assert_eq!(
        state,
        State {
            spot_fleet_request_id: "sfr-1".to_string(),
            private_key: b"/k".to_vec(),
            instance_address: Some("10.0.0.7".to_string()),
        }
    );
}

#[test]
fn location_is_below_the_current_directory() {
    assert_eq!(
        State::location(b"/var/lib/runner", "1234"),
        b"/var/lib/runner/.spot-gitlab-driver/1234.state"
    );
}

#[test]
fn the_directory_of_a_record_is_where_it_lies() {
    let (dir, file) = State::write_target(b"/var/lib/runner", "1234");
    assert_eq!(dir, b"/var/lib/runner/.spot-gitlab-driver");
    assert_eq!(file, b"/var/lib/runner/.spot-gitlab-driver/1234.state");
    let (dir, file) = State::write_target(b"/r", "/x/y");
    assert_eq!(dir, b"/x");
    assert_eq!(file, b"/x/y.state");
    let (dir, _) = State::write_target(b"/r", "a/b");
    assert_eq!(dir, b"/r/.spot-gitlab-driver/a");
}

#[test]
fn jobs_have_records_of_their_own() {
    assert_ne!(State::location(b"/r", "1"), State::location(b"/r", "2"));
    // Only a job that spells out the path of another shares its record.
    assert_eq!(
        State::location(b"/r", "1"),
        State::location(b"/r", "/r/.spot-gitlab-driver/1")
    );
}
