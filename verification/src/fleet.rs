//! The spot fleet request of a job, and what the cloud's replies say.
use crate::text::{opt_text, texts};
use vstd::prelude::*;
use vstd::string::*;

verus! {

/// How a fleet picks the pools that it draws instances from.
#[derive(Debug, Clone, Copy, PartialEq, Eq, Structural)]
pub enum AllocationStrategy {
    PriceCapacityOptimized,
}

/// What the capacity of a fleet is counted in.
#[derive(Debug, Clone, Copy, PartialEq, Eq, Structural)]
pub enum TargetCapacityUnitType {
    Units,
}

/// A launch template, and the subnets that an instance of it may start in.
#[derive(Debug, PartialEq, Eq)]
pub struct LaunchTemplateConfig {
    pub launch_template_name: String,
    pub version: String,
    /// One override for each subnet.
    pub subnet_ids: Vec<String>,
}

/// A request for a spot fleet.
#[derive(Debug, PartialEq, Eq)]
pub struct SpotFleetRequestConfig {
    pub allocation_strategy: AllocationStrategy,
    pub iam_fleet_role: String,
    pub terminate_instances_with_expiration: bool,
    pub target_capacity_unit_type: TargetCapacityUnitType,
    pub target_capacity: i32,
    pub launch_template_configs: Vec<LaunchTemplateConfig>,
    /// Seconds since the Unix epoch after which the request no longer holds.
    pub valid_until: Option<i64>,
}

/// The name that the key pair and the launch template of a project share.
pub open spec fn build_name(project_name: Seq<char>) -> Seq<char> {
    project_name + "-ci-build"@
}

/// The subnets that builders may start in.
pub open spec fn builder_subnets() -> Seq<Seq<char>> {
    seq![
        "subnet-0bd69be8de06cd8b9"@,
        "subnet-0512f60bbf2682eb5"@,
        "subnet-06ec89ad3fa53365f"@,
    ]
}

impl LaunchTemplateConfig {
    /// The latest version of the template of a project, in any of the builders' subnets.
    pub open spec fn is_template_of(self, project_name: Seq<char>) -> bool {
        &&& self.launch_template_name@ == build_name(project_name)
        &&& self.version@ == "$Latest"@
        &&& texts(self.subnet_ids@) == builder_subnets()
    }
}

impl SpotFleetRequestConfig {
    /// One instance of the template of a project, which ends with the request.
    pub open spec fn is_request_of(self, project_name: Seq<char>, valid_until: Option<i64>) -> bool {
        &&& self.allocation_strategy == AllocationStrategy::PriceCapacityOptimized
        &&& self.iam_fleet_role@
            == "arn:aws:iam::822646120884:role/aws-ec2-spot-fleet-tagging-role"@
        &&& self.terminate_instances_with_expiration
        &&& self.target_capacity_unit_type == TargetCapacityUnitType::Units
        &&& self.target_capacity == 1
        &&& self.launch_template_configs@.len() == 1
        &&& self.launch_template_configs@[0].is_template_of(project_name)
        &&& self.valid_until == valid_until
    }
}

/// The name of the key pair and of the launch template of a project.
pub fn build_name_of(project_name: &str) -> (name: String)
    ensures
        name@ == build_name(project_name@),
{
    project_name.to_owned().concat("-ci-build")
}

/// The request for the builder of a project.
pub fn spot_fleet_request(project_name: &str, valid_until: Option<i64>) -> (config:
    SpotFleetRequestConfig)
    ensures
        config.is_request_of(project_name@, valid_until),
{
    let mut subnet_ids: Vec<String> = Vec::new();
    // gitlab-task-ap-northeast-1a
    subnet_ids.push("subnet-0bd69be8de06cd8b9".to_owned());
    // gitlab-task-ap-northeast-1c
    subnet_ids.push("subnet-0512f60bbf2682eb5".to_owned());
    // gitlab-task-ap-northeast-1d
    subnet_ids.push("subnet-06ec89ad3fa53365f".to_owned());
    assert(texts(subnet_ids@) =~= builder_subnets());
    let mut launch_template_configs: Vec<LaunchTemplateConfig> = Vec::new();
    launch_template_configs.push(
        LaunchTemplateConfig {
            launch_template_name: build_name_of(project_name),
            version: "$Latest".to_owned(),
            subnet_ids,
        },
    );
    SpotFleetRequestConfig {
        allocation_strategy: AllocationStrategy::PriceCapacityOptimized,
        iam_fleet_role: "arn:aws:iam::822646120884:role/aws-ec2-spot-fleet-tagging-role".to_owned(),
        terminate_instances_with_expiration: true,
        target_capacity_unit_type: TargetCapacityUnitType::Units,
        target_capacity: 1,
        launch_template_configs,
        valid_until,
    }
}

/// One key pair of a reply.
#[derive(Debug, PartialEq, Eq)]
pub struct KeyPairInfo {
    pub key_pair_id: Option<String>,
}

/// One running instance of a fleet.
#[derive(Debug, PartialEq, Eq)]
pub struct ActiveInstance {
    pub instance_id: Option<String>,
    pub instance_type: Option<String>,
}

/// One instance of a reservation.
#[derive(Debug, PartialEq, Eq)]
pub struct Instance {
    pub private_ip_address: Option<String>,
}

/// One reservation of a reply.
#[derive(Debug, PartialEq, Eq)]
pub struct Reservation {
    pub instances: Option<Vec<Instance>>,
}

/// One fleet request that a cancellation reached.
#[derive(Debug, PartialEq, Eq)]
pub struct CancelledRequest {
    pub spot_fleet_request_id: Option<String>,
}

/// The first item of a list that a reply may hold.
pub open spec fn first_of<T>(list: Option<Vec<T>>) -> Option<T> {
    match list {
        Some(items) => if items@.len() > 0 {
            Some(items@[0])
        } else {
            None
        },
        None => None,
    }
}

/// The first item of a list that a reply may hold.
pub fn first<T>(list: Option<Vec<T>>) -> (item: Option<T>)
    ensures
        item == first_of(list),
{
    match list {
        Some(items) => {
            let mut items = items;
            if items.len() > 0 {
                Some(items.remove(0))
            } else {
                None
            }
        },
        None => None,
    }
}

/// The identifier of the first key pair of a reply.
pub open spec fn key_pair_id_in(key_pairs: Option<Vec<KeyPairInfo>>) -> Option<String> {
    match first_of(key_pairs) {
        Some(key_pair) => key_pair.key_pair_id,
        None => None,
    }
}

/// The identifier of the first key pair of a reply.
pub fn key_pair_id(key_pairs: Option<Vec<KeyPairInfo>>) -> (id: Option<String>)
    ensures
        id == key_pair_id_in(key_pairs),
{
    match first(key_pairs) {
        Some(key_pair) => key_pair.key_pair_id,
        None => None,
    }
}

/// Identifier and type of the first instance of a fleet, where the reply has both.
pub open spec fn active_instance_in(instances: Option<Vec<ActiveInstance>>) -> Option<
    (String, String),
> {
    match first_of(instances) {
        Some(ActiveInstance { instance_id: Some(id), instance_type: Some(kind) }) => Some(
            (id, kind),
        ),
        _ => None,
    }
}

/// Identifier and type of the first instance of a fleet, where the reply has both.
pub fn active_instance(instances: Option<Vec<ActiveInstance>>) -> (found: Option<(String, String)>)
    ensures
        found == active_instance_in(instances),
{
    match first(instances) {
        Some(instance) => match (instance.instance_id, instance.instance_type) {
            (Some(id), Some(kind)) => Some((id, kind)),
            _ => None,
        },
        None => None,
    }
}

/// The private address of the first instance of the first reservation.
pub open spec fn private_ip_in(reservations: Option<Vec<Reservation>>) -> Option<String> {
    match first_of(reservations) {
        Some(reservation) => match first_of(reservation.instances) {
            Some(instance) => instance.private_ip_address,
            None => None,
        },
        None => None,
    }
}

/// The private address of the first instance of the first reservation.
pub fn private_ip(reservations: Option<Vec<Reservation>>) -> (address: Option<String>)
    ensures
        address == private_ip_in(reservations),
{
    match first(reservations) {
        Some(reservation) => match first(reservation.instances) {
            Some(instance) => instance.private_ip_address,
            None => None,
        },
        None => None,
    }
}

/// Whether the request `id` is among those that a cancellation reached.
pub open spec fn cancels(successful: Seq<CancelledRequest>, id: Seq<char>) -> bool {
    exists|i: int|
        0 <= i < successful.len() && opt_text((#[trigger] successful[i]).spot_fleet_request_id)
            == Some(id)
}

/// Whether the request `id` is among those that a cancellation reached.
pub fn is_cancelled(successful: &Vec<CancelledRequest>, id: &String) -> (found: bool)
    ensures
        found == cancels(successful@, id@),
{
    let mut at: usize = 0;
    while at < successful.len()
        invariant
            at <= successful.len(),
            forall|i: int|
                0 <= i < at ==> opt_text((#[trigger] successful@[i]).spot_fleet_request_id) != Some(
                    id@,
                ),
        decreases successful.len() - at,
    {
        match &successful[at].spot_fleet_request_id {
            Some(cancelled) => {
                if cancelled.eq(id) {
                    assert(opt_text(successful@[at as int].spot_fleet_request_id) == Some(id@));
                    return true;
                }
            },
            None => {},
        }
        at = at + 1;
    }
    false
}

/// The name of a project's key pair and launch template is the project, followed by
/// `-ci-build`; two projects never share one.
pub proof fn law_projects_have_names_of_their_own(project: Seq<char>, other: Seq<char>)
    ensures
        build_name(project).take(project.len() as int) == project,
        build_name(project).skip(project.len() as int) == "-ci-build"@,
        build_name(project) == build_name(other) <==> project == other,
{
    assert(build_name(project).take(project.len() as int) =~= project);
    assert(build_name(project).skip(project.len() as int) =~= "-ci-build"@);
    if build_name(project) == build_name(other) {
        assert(project.len() == other.len());
        assert(build_name(other).take(other.len() as int) =~= other);
    }
}

/// Whatever the project and whatever the bound, with or without one, exactly one
/// instance is requested, of the latest version of the project's template, in any of
/// the three subnets, and it ends with the request.
pub proof fn law_request_is_for_one_builder(
    config: SpotFleetRequestConfig,
    project: Seq<char>,
    valid_until: Option<i64>,
)
    requires
        config.is_request_of(project, valid_until),
    ensures
        config.allocation_strategy is PriceCapacityOptimized,
        config.iam_fleet_role@
            == "arn:aws:iam::822646120884:role/aws-ec2-spot-fleet-tagging-role"@,
        config.terminate_instances_with_expiration,
        config.target_capacity_unit_type is Units,
        config.target_capacity == 1,
        config.launch_template_configs@.len() == 1,
        config.launch_template_configs@[0].launch_template_name@ == project + "-ci-build"@,
        config.launch_template_configs@[0].version@ == "$Latest"@,
        config.launch_template_configs@[0].subnet_ids@.len() == 3,
        config.launch_template_configs@[0].subnet_ids@[0]@ == "subnet-0bd69be8de06cd8b9"@,
        config.launch_template_configs@[0].subnet_ids@[1]@ == "subnet-0512f60bbf2682eb5"@,
        config.launch_template_configs@[0].subnet_ids@[2]@ == "subnet-06ec89ad3fa53365f"@,
        config.valid_until == valid_until,
{
    let subnets = config.launch_template_configs@[0].subnet_ids@;
    assert(texts(subnets).len() == 3);
    assert(texts(subnets)[0] == subnets[0]@);
    assert(texts(subnets)[1] == subnets[1]@);
    assert(texts(subnets)[2] == subnets[2]@);
}

/// The bound of a request changes the bound and nothing else.
pub proof fn law_bound_changes_only_the_bound(
    one: SpotFleetRequestConfig,
    two: SpotFleetRequestConfig,
    project: Seq<char>,
    bound: Option<i64>,
    other_bound: Option<i64>,
)
    requires
        one.is_request_of(project, bound),
        two.is_request_of(project, other_bound),
    ensures
        one.valid_until == two.valid_until <==> bound == other_bound,
        one.allocation_strategy == two.allocation_strategy,
        one.iam_fleet_role@ == two.iam_fleet_role@,
        one.terminate_instances_with_expiration == two.terminate_instances_with_expiration,
        one.target_capacity_unit_type == two.target_capacity_unit_type,
        one.target_capacity == two.target_capacity == 1,
        one.launch_template_configs@.len() == two.launch_template_configs@.len() == 1,
        one.launch_template_configs@[0].launch_template_name@
            == two.launch_template_configs@[0].launch_template_name@,
        one.launch_template_configs@[0].version@ == two.launch_template_configs@[0].version@,
        one.launch_template_configs@[0].subnet_ids@.len()
            == two.launch_template_configs@[0].subnet_ids@.len(),
        forall|i: int|
            0 <= i < one.launch_template_configs@[0].subnet_ids@.len() ==> (
            #[trigger] one.launch_template_configs@[0].subnet_ids@[i])@
                == two.launch_template_configs@[0].subnet_ids@[i]@,
{
    law_request_is_for_one_builder(one, project, bound);
    law_request_is_for_one_builder(two, project, other_bound);
}

/// Of a list that a reply may hold, what counts is what stands first: of a list that
/// is missing or empty, nothing.
pub proof fn law_first_item_counts<T>(list: Option<Vec<T>>)
    ensures
        list is None ==> first_of(list) is None,
        list matches Some(items) ==> (if items@.len() == 0 {
            first_of(list) is None
        } else {
            first_of(list) == Some(items@[0])
        }),
{
}

/// The key pair that counts is the first of the reply, and no other stands in for it.
pub proof fn law_first_key_pair_counts(key_pairs: Vec<KeyPairInfo>)
    ensures
        key_pair_id_in(None) is None,
        key_pairs@.len() == 0 ==> key_pair_id_in(Some(key_pairs)) is None,
        key_pairs@.len() > 0 ==> key_pair_id_in(Some(key_pairs)) == key_pairs@[0].key_pair_id,
{
}

/// The instance that counts is the first of the reply, where it has an identifier and
/// a type. No other stands in for it.
pub proof fn law_first_instance_counts(instances: Vec<ActiveInstance>)
    ensures
        active_instance_in(None) is None,
        instances@.len() == 0 ==> active_instance_in(Some(instances)) is None,
        instances@.len() > 0 ==> (match (
            instances@[0].instance_id,
            instances@[0].instance_type,
        ) {
            (Some(id), Some(kind)) => active_instance_in(Some(instances)) == Some((id, kind)),
            _ => active_instance_in(Some(instances)) is None,
        }),
{
}

/// The address that counts is that of the first instance of the first reservation.
pub proof fn law_first_address_counts(reservations: Vec<Reservation>)
    ensures
        private_ip_in(None) is None,
        reservations@.len() == 0 ==> private_ip_in(Some(reservations)) is None,
        reservations@.len() > 0 ==> (match reservations@[0].instances {
            Some(instances) => if instances@.len() > 0 {
                private_ip_in(Some(reservations)) == instances@[0].private_ip_address
            } else {
                private_ip_in(Some(reservations)) is None
            },
            None => private_ip_in(Some(reservations)) is None,
        }),
{
}

/// A request is cancelled exactly if one of the cancelled ones bears its identifier,
/// letter for letter.
pub proof fn law_cancelled_request_is_named(successful: Seq<CancelledRequest>, id: Seq<char>)
    ensures
        cancels(successful, id) <==> exists|i: int|
            0 <= i < successful.len() && (#[trigger] successful[i]).spot_fleet_request_id
                is Some && successful[i].spot_fleet_request_id->0@ == id,
{
    if cancels(successful, id) {
        let i = choose|i: int|
            0 <= i < successful.len() && opt_text((#[trigger] successful[i]).spot_fleet_request_id)
                == Some(id);
        assert(successful[i].spot_fleet_request_id is Some);
    }
    if exists|i: int|
        0 <= i < successful.len() && (#[trigger] successful[i]).spot_fleet_request_id is Some
            && successful[i].spot_fleet_request_id->0@ == id {
        let i = choose|i: int|
            0 <= i < successful.len() && (#[trigger] successful[i]).spot_fleet_request_id is Some
                && successful[i].spot_fleet_request_id->0@ == id;
        assert(opt_text(successful[i].spot_fleet_request_id) == Some(id));
    }
}

} // verus!
