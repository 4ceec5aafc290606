//! The parts of Kubernetes objects that the viewer reads, as plain values.
//!
//! Each type holds the fields of the Kubernetes API object of the same name
//! that the rows and the describe views show. A map of the API (labels,
//! annotations, resource quantities) is a `Pairs`: its entries in the
//! order of their keys, each key once, as the API's sorted maps hold them.
//! A point in time is a `Time`.

use vstd::prelude::*;

verus! {

/// A point in time in UTC: the whole seconds since the Unix epoch and the
/// nanoseconds past them, as chrono's `timestamp` and
/// `timestamp_subsec_nanos` give them (a leap second shows as nanoseconds
/// from 1_000_000_000 on).
#[derive(Clone, Copy, Debug, PartialEq, Eq, Structural)]
pub struct Time {
    pub secs: i64,
    pub nanos: u32,
}

/// Whether string `a` comes before string `b`: compared character by
/// character, the smaller character first, and a prefix before the longer
/// string (the order of `String`, as the API's sorted maps keep their keys).
pub open spec fn key_less(a: Seq<char>, b: Seq<char>) -> bool
    decreases a.len(),
{
    if a.len() == 0 {
        b.len() > 0
    } else if b.len() == 0 {
        false
    } else if a[0] != b[0] {
        (a[0] as u32) < (b[0] as u32)
    } else {
        key_less(a.drop_first(), b.drop_first())
    }
}

/// No string comes before itself.
pub proof fn lemma_key_less_irreflexive(a: Seq<char>)
    ensures
        !key_less(a, a),
    decreases a.len(),
{
    if a.len() > 0 {
        lemma_key_less_irreflexive(a.drop_first());
    }
}

/// The keys are in strictly increasing order, as a sorted map walks them,
/// so that no key occurs twice.
pub open spec fn keys_ascending(m: Seq<(String, String)>) -> bool {
    forall|i: int, j: int| 0 <= i < j < m.len() ==> key_less(#[trigger] m[i].0@, #[trigger] m[j].0@)
}

/// A map from strings to strings: its entries in the order of their keys,
/// each key once.
pub struct Pairs {
    entries: Vec<(String, String)>,
}

impl View for Pairs {
    type V = Seq<(String, String)>;

    closed spec fn view(&self) -> Seq<(String, String)> {
        self.entries@
    }
}

impl Pairs {
    #[verifier::type_invariant]
    spec fn sorted(self) -> bool {
        keys_ascending(self.entries@)
    }

    /// The map with these entries, whose keys are in increasing order.
    pub fn new(entries: Vec<(String, String)>) -> (r: Pairs)
        requires
            keys_ascending(entries@),
        ensures
            r@ == entries@,
    {
        Pairs { entries }
    }

    /// The entries, in the order of their keys.
    pub fn entries(&self) -> (r: &Vec<(String, String)>)
        ensures
            r@ == self@,
            keys_ascending(self@),
    {
        proof {
            use_type_invariant(self);
        }
        &self.entries
    }
}

/// An owner of an object.
pub struct OwnerReference {
    pub kind: String,
    pub name: String,
}

/// The metadata of an object.
pub struct ObjectMeta {
    pub name: Option<String>,
    pub namespace: Option<String>,
    pub creation_timestamp: Option<Time>,
    pub labels: Option<Pairs>,
    pub annotations: Option<Pairs>,
    pub owner_references: Option<Vec<OwnerReference>>,
}

/// A value that is either a number or a name (a port, a count or a
/// percentage).
pub enum IntOrString {
    Int(i32),
    String(String),
}

/// A port that a container exposes.
pub struct ContainerPort {
    pub container_port: i32,
    pub protocol: Option<String>,
    pub name: Option<String>,
}

/// A reference to a key of a secret or a config map.
pub struct KeySelector {
    pub name: Option<String>,
    pub key: String,
}

/// Where the value of an environment variable comes from.
pub struct EnvVarSource {
    /// The path of the object field, for a field reference.
    pub field_ref: Option<String>,
    pub secret_key_ref: Option<KeySelector>,
    pub config_map_key_ref: Option<KeySelector>,
}

/// An environment variable of a container.
pub struct EnvVar {
    pub name: String,
    pub value: Option<String>,
    pub value_from: Option<EnvVarSource>,
}

/// The resources that a container requests and is limited to.
pub struct ResourceRequirements {
    pub requests: Option<Pairs>,
    pub limits: Option<Pairs>,
}

/// The HTTP request of a probe.
pub struct HttpGetAction {
    pub port: IntOrString,
    pub scheme: Option<String>,
    pub path: Option<String>,
}

/// The command of a probe.
pub struct ExecAction {
    pub command: Option<Vec<String>>,
}

/// The TCP connection of a probe.
pub struct TcpSocketAction {
    pub port: IntOrString,
}

/// A liveness or readiness probe.
pub struct Probe {
    pub http_get: Option<HttpGetAction>,
    pub exec_action: Option<ExecAction>,
    pub tcp_socket: Option<TcpSocketAction>,
    pub initial_delay_seconds: Option<i32>,
    pub timeout_seconds: Option<i32>,
    pub period_seconds: Option<i32>,
    pub success_threshold: Option<i32>,
    pub failure_threshold: Option<i32>,
}

/// A volume mounted into a container.
pub struct VolumeMount {
    pub mount_path: String,
    pub read_only: Option<bool>,
}

/// A container of a pod.
pub struct Container {
    pub name: String,
    pub image: Option<String>,
    pub ports: Option<Vec<ContainerPort>>,
    pub args: Option<Vec<String>>,
    pub env: Option<Vec<EnvVar>>,
    pub resources: Option<ResourceRequirements>,
    pub liveness_probe: Option<Probe>,
    pub readiness_probe: Option<Probe>,
    pub volume_mounts: Option<Vec<VolumeMount>>,
}

/// A secret that a volume holds.
pub struct SecretVolumeSource {
    pub secret_name: Option<String>,
}

/// A config map that a volume holds.
pub struct ConfigMapVolumeSource {
    pub name: Option<String>,
}

/// A volume of a pod.
pub struct Volume {
    pub name: String,
    pub secret: Option<SecretVolumeSource>,
    pub config_map: Option<ConfigMapVolumeSource>,
    /// Whether the volume is an empty directory.
    pub empty_dir: bool,
}

/// A toleration of a pod.
pub struct Toleration {
    pub key: Option<String>,
    pub operator: Option<String>,
    pub effect: Option<String>,
    pub value: Option<String>,
}

/// The specification of a pod.
pub struct PodSpec {
    pub containers: Vec<Container>,
    pub volumes: Option<Vec<Volume>>,
    pub node_selector: Option<Pairs>,
    pub tolerations: Option<Vec<Toleration>>,
    pub service_account_name: Option<String>,
    pub node_name: Option<String>,
}

/// The pod template of a controller.
pub struct PodTemplateSpec {
    pub metadata: Option<ObjectMeta>,
    pub spec: Option<PodSpec>,
}

/// A running container.
pub struct ContainerStateRunning {
    pub started_at: Option<Time>,
}

/// A waiting container.
pub struct ContainerStateWaiting {
    pub reason: Option<String>,
}

/// A terminated container.
pub struct ContainerStateTerminated {
    pub exit_code: i32,
    pub reason: Option<String>,
}

/// The state of a container.
pub struct ContainerState {
    pub running: Option<ContainerStateRunning>,
    pub waiting: Option<ContainerStateWaiting>,
    pub terminated: Option<ContainerStateTerminated>,
}

/// The status of a container.
pub struct ContainerStatus {
    pub name: String,
    pub ready: bool,
    pub restart_count: i32,
    pub image: String,
    pub state: Option<ContainerState>,
}

/// A condition of a pod.
pub struct PodCondition {
    pub type_: String,
    pub status: String,
}

/// The status of a pod.
pub struct PodStatus {
    pub phase: Option<String>,
    pub pod_ip: Option<String>,
    pub host_ip: Option<String>,
    pub container_statuses: Option<Vec<ContainerStatus>>,
    pub conditions: Option<Vec<PodCondition>>,
}

/// A pod.
pub struct Pod {
    pub metadata: ObjectMeta,
    pub spec: Option<PodSpec>,
    pub status: Option<PodStatus>,
}

/// The rolling update of a deployment.
pub struct RollingUpdateDeployment {
    pub max_unavailable: Option<IntOrString>,
    pub max_surge: Option<IntOrString>,
}

/// The update strategy of a deployment.
pub struct DeploymentStrategy {
    pub type_: Option<String>,
    pub rolling_update: Option<RollingUpdateDeployment>,
}

/// The specification of a deployment.
pub struct DeploymentSpec {
    /// The `match_labels` of the selector.
    pub selector_match_labels: Option<Pairs>,
    pub replicas: Option<i32>,
    pub strategy: Option<DeploymentStrategy>,
    pub min_ready_seconds: Option<i32>,
    pub template: PodTemplateSpec,
}

/// A condition of a deployment.
pub struct DeploymentCondition {
    pub type_: String,
    pub status: String,
    pub reason: Option<String>,
}

/// The status of a deployment.
pub struct DeploymentStatus {
    pub updated_replicas: Option<i32>,
    pub replicas: Option<i32>,
    pub available_replicas: Option<i32>,
    pub unavailable_replicas: Option<i32>,
    pub conditions: Option<Vec<DeploymentCondition>>,
}

/// A deployment.
pub struct Deployment {
    pub metadata: ObjectMeta,
    pub spec: Option<DeploymentSpec>,
    pub status: Option<DeploymentStatus>,
}

/// A port of a service.
pub struct ServicePort {
    pub port: i32,
    pub protocol: Option<String>,
    pub name: Option<String>,
    pub target_port: Option<IntOrString>,
    pub node_port: Option<i32>,
}

/// The specification of a service.
pub struct ServiceSpec {
    pub type_: Option<String>,
    pub cluster_ip: Option<String>,
    pub selector: Option<Pairs>,
    pub ports: Option<Vec<ServicePort>>,
    pub external_ips: Option<Vec<String>>,
    pub ip_families: Option<Vec<String>>,
    pub ip_family_policy: Option<String>,
}

/// An ingress point of a load balancer.
pub struct LoadBalancerIngress {
    pub ip: Option<String>,
    pub hostname: Option<String>,
}

/// The load balancer of a service.
pub struct LoadBalancerStatus {
    pub ingress: Option<Vec<LoadBalancerIngress>>,
}

/// The status of a service.
pub struct ServiceStatus {
    pub load_balancer: Option<LoadBalancerStatus>,
}

/// A service.
pub struct Service {
    pub metadata: ObjectMeta,
    pub spec: Option<ServiceSpec>,
    pub status: Option<ServiceStatus>,
}

/// The specification of a replica set.
pub struct ReplicaSetSpec {
    pub replicas: Option<i32>,
    pub template: Option<PodTemplateSpec>,
}

/// The status of a replica set.
pub struct ReplicaSetStatus {
    pub replicas: i32,
    pub ready_replicas: Option<i32>,
    pub available_replicas: Option<i32>,
}

/// A replica set.
pub struct ReplicaSet {
    pub metadata: ObjectMeta,
    pub spec: Option<ReplicaSetSpec>,
    pub status: Option<ReplicaSetStatus>,
}

/// The specification of a daemon set.
pub struct DaemonSetSpec {
    pub template: PodTemplateSpec,
}

/// The status of a daemon set.
pub struct DaemonSetStatus {
    pub desired_number_scheduled: i32,
    pub current_number_scheduled: i32,
    pub number_ready: i32,
    pub number_available: Option<i32>,
    pub number_unavailable: Option<i32>,
}

/// A daemon set.
pub struct DaemonSet {
    pub metadata: ObjectMeta,
    pub spec: Option<DaemonSetSpec>,
    pub status: Option<DaemonSetStatus>,
}

/// The specification of a job.
pub struct JobSpec {
    pub completions: Option<i32>,
    pub parallelism: Option<i32>,
    pub backoff_limit: Option<i32>,
}

/// A condition of a job.
pub struct JobCondition {
    pub type_: String,
    pub status: String,
    pub message: Option<String>,
}

/// The status of a job.
pub struct JobStatus {
    pub active: Option<i32>,
    pub succeeded: Option<i32>,
    pub failed: Option<i32>,
    pub start_time: Option<Time>,
    pub completion_time: Option<Time>,
    pub conditions: Option<Vec<JobCondition>>,
}

/// A job.
pub struct Job {
    pub metadata: ObjectMeta,
    pub spec: Option<JobSpec>,
    pub status: Option<JobStatus>,
}

/// A reference to the claim bound to a persistent volume.
pub struct ObjectReference {
    pub namespace: Option<String>,
    pub name: Option<String>,
}

/// A host path volume source.
pub struct HostPathVolumeSource {
    pub path: String,
}

/// An NFS volume source.
pub struct NfsVolumeSource {
    pub server: String,
    pub path: String,
}

/// An AWS EBS volume source.
pub struct AwsElasticBlockStoreVolumeSource {
    pub volume_id: String,
}

/// A CSI volume source.
pub struct CsiPersistentVolumeSource {
    pub driver: String,
    pub volume_handle: String,
}

/// The specification of a persistent volume.
pub struct PersistentVolumeSpec {
    pub capacity: Option<Pairs>,
    pub access_modes: Option<Vec<String>>,
    pub persistent_volume_reclaim_policy: Option<String>,
    pub storage_class_name: Option<String>,
    pub volume_mode: Option<String>,
    pub claim_ref: Option<ObjectReference>,
    pub host_path: Option<HostPathVolumeSource>,
    pub nfs: Option<NfsVolumeSource>,
    pub aws_elastic_block_store: Option<AwsElasticBlockStoreVolumeSource>,
    pub csi: Option<CsiPersistentVolumeSource>,
}

/// The status of a persistent volume.
pub struct PersistentVolumeStatus {
    pub phase: Option<String>,
    pub reason: Option<String>,
    pub message: Option<String>,
    pub last_phase_transition_time: Option<Time>,
}

/// A persistent volume.
pub struct PersistentVolume {
    pub metadata: ObjectMeta,
    pub spec: Option<PersistentVolumeSpec>,
    pub status: Option<PersistentVolumeStatus>,
}

/// The resources that a claim requests.
pub struct VolumeResourceRequirements {
    pub requests: Option<Pairs>,
}

/// The specification of a persistent volume claim.
pub struct PersistentVolumeClaimSpec {
    pub volume_name: Option<String>,
    pub storage_class_name: Option<String>,
    pub access_modes: Option<Vec<String>>,
    pub resources: Option<VolumeResourceRequirements>,
}

/// A condition of a persistent volume claim.
pub struct PersistentVolumeClaimCondition {
    pub type_: String,
    pub status: String,
}

/// The status of a persistent volume claim.
pub struct PersistentVolumeClaimStatus {
    pub phase: Option<String>,
    pub capacity: Option<Pairs>,
    pub access_modes: Option<Vec<String>>,
    pub conditions: Option<Vec<PersistentVolumeClaimCondition>>,
}

/// A persistent volume claim.
pub struct PersistentVolumeClaim {
    pub metadata: ObjectMeta,
    pub spec: Option<PersistentVolumeClaimSpec>,
    pub status: Option<PersistentVolumeClaimStatus>,
}

} // verus!
