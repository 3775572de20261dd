use spot_gitlab_driver::fleet::{
    active_instance, build_name_of, first, is_cancelled, key_pair_id, private_ip,
    spot_fleet_request, ActiveInstance, AllocationStrategy, CancelledRequest, Instance,
    KeyPairInfo, Reservation, TargetCapacityUnitType,
};

fn text(t: &str) -> Option<String> {
    Some(t.to_string())
}

#[test]
fn request_of_a_project() {
    let config = spot_fleet_request("nix", Some(1_700_000_000));
    assert_eq!(config.allocation_strategy, AllocationStrategy::PriceCapacityOptimized);
    assert_eq!(
        config.iam_fleet_role,
        "arn:aws:iam::822646120884:role/aws-ec2-spot-fleet-tagging-role"
    );
    assert!(config.terminate_instances_with_expiration);
    assert_eq!(config.target_capacity_unit_type, TargetCapacityUnitType::Units);
    assert_eq!(config.target_capacity, 1);
    assert_eq!(config.launch_template_configs.len(), 1);
    let template = &config.launch_template_configs[0];
    assert_eq!(template.launch_template_name, "nix-ci-build");
    assert_eq!(template.version, "$Latest");
    assert_eq!(
        template.subnet_ids,
        vec!["subnet-0bd69be8de06cd8b9", "subnet-0512f60bbf2682eb5", "subnet-06ec89ad3fa53365f"]
    );
    assert_eq!(config.valid_until, Some(1_700_000_000));
    assert_eq!(spot_fleet_request("nix", None).valid_until, None);
    assert_eq!(build_name_of("nix"), "nix-ci-build");
}

#[test]
fn first_items() {
    assert_eq!(first::<u8>(None), None);
    assert_eq!(first::<u8>(Some(vec![])), None);
    assert_eq!(first(Some(vec![3u8, 4])), Some(3));
}

#[test]
fn first_key_pair() {
    let named = |id: &str| KeyPairInfo { key_pair_id: text(id) };
    assert_eq!(key_pair_id(None), None);
    assert_eq!(key_pair_id(Some(vec![])), None);
    assert_eq!(key_pair_id(Some(vec![named("key-1"), named("key-2")])), text("key-1"));
    assert_eq!(key_pair_id(Some(vec![KeyPairInfo { key_pair_id: None }, named("key-2")])), None);
}

#[test]
fn first_active_instance() {
    let full = || ActiveInstance { instance_id: text("i-1"), instance_type: text("c5.large") };
    let bare = || ActiveInstance { instance_id: text("i-2"), instance_type: None };
    assert_eq!(active_instance(None), None);
    assert_eq!(active_instance(Some(vec![])), None);
    assert_eq!(
        active_instance(Some(vec![full(), bare()])),
        Some(("i-1".to_string(), "c5.large".to_string()))
    );
    assert_eq!(active_instance(Some(vec![bare(), full()])), None);
    let nameless = ActiveInstance { instance_id: None, instance_type: text("c5.large") };
    assert_eq!(active_instance(Some(vec![nameless])), None);
}

#[test]
fn first_private_ip() {
    let at = |ip: Option<String>| Instance { private_ip_address: ip };
    assert_eq!(private_ip(None), None);
    assert_eq!(private_ip(Some(vec![])), None);
    assert_eq!(private_ip(Some(vec![Reservation { instances: None }])), None);
    assert_eq!(private_ip(Some(vec![Reservation { instances: Some(vec![]) }])), None);
    assert_eq!(private_ip(Some(vec![Reservation { instances: Some(vec![at(None)]) }])), None);
    assert_eq!(
        private_ip(Some(vec![
            Reservation { instances: Some(vec![at(text("10.0.0.7")), at(text("10.0.0.8"))]) },
            Reservation { instances: Some(vec![at(text("10.0.0.9"))]) },
        ])),
        text("10.0.0.7")
    );
}

#[test]
fn cancelled_requests() {
    let of = |id: Option<String>| CancelledRequest { spot_fleet_request_id: id };
    let ours = "sfr-1".to_string();
    assert!(!is_cancelled(&vec![], &ours));
    assert!(!is_cancelled(&vec![of(None), of(text("sfr-2"))], &ours));
    assert!(is_cancelled(&vec![of(None), of(text("sfr-2")), of(text("sfr-1"))], &ours));
}
