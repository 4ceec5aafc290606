//! What every describe view has in common: an object that was fetched is
//! shown from its identity section down to the key help, and one that was
//! not is shown as the single line that says why.

use crate::controllers::{describe_daemonset_text, describe_job_text, describe_replicaset_text};
use crate::deployments::{describe_deployment_text, fetch_error_text};
use crate::clock::rfc2822_text;
use crate::describe::identity_lines;
use crate::model::{
    DaemonSet, Deployment, DeploymentSpec, IntOrString, Job, ObjectMeta, PersistentVolume,
    PersistentVolumeClaim, PersistentVolumeSpec, Pod, ReplicaSet, Service, Time,
};
use crate::pods::describe_pod_text;
use crate::services::describe_service_text;
use crate::storage::{describe_pv_text, describe_pvc_text};
use crate::text::{bottom_lines, field_text, int_text};
use vstd::prelude::*;

verus! {

/// The view opens with the identity section of the object and closes with
/// the key help.
pub open spec fn framed(v: Seq<Seq<char>>, meta: ObjectMeta) -> bool {
    let head = identity_lines(meta);
    let tail = bottom_lines();
    &&& head.len() + tail.len() <= v.len()
    &&& v.take(head.len() as int) == head
    &&& v.skip(v.len() - tail.len()) == tail
}

/// The view of a fetch result: framed when the object came, otherwise the
/// one error line for that kind of object.
pub open spec fn view_of<T>(
    v: Seq<Seq<char>>,
    fetched: Result<T, String>,
    meta: spec_fn(T) -> ObjectMeta,
    kind: Seq<char>,
    name: Seq<char>,
) -> bool {
    match fetched {
        Ok(o) => framed(v, meta(o)),
        Err(e) => v == seq![fetch_error_text(kind, name, e@)],
    }
}

proof fn lemma_framed(head: Seq<Seq<char>>, mid: Seq<Seq<char>>, meta: ObjectMeta)
    requires
        head == identity_lines(meta),
    ensures
        framed(head + mid + bottom_lines(), meta),
{
    let v = head + mid + bottom_lines();
    assert(v.take(head.len() as int) =~= head);
    assert(v.skip(v.len() - bottom_lines().len()) =~= bottom_lines());
}

/// Every describe view of a deployment is framed, or the error line.
pub proof fn lemma_deployment_view(fetched: Result<Deployment, String>, name: Seq<char>, ns: Option<&str>)
    ensures
        view_of(
            describe_deployment_text(fetched, name, ns),
            fetched,
            |d: Deployment| d.metadata,
            "Deployment"@,
            name,
        ),
{
    if let Ok(d) = fetched {
        let v = describe_deployment_text(fetched, name, ns);
        let head = identity_lines(d.metadata);
        let mid = v.subrange(head.len() as int, v.len() - bottom_lines().len());
        assert(v =~= head + mid + bottom_lines());
        lemma_framed(head, mid, d.metadata);
    }
}

/// Every describe view of a pod is framed, or the error line.
pub proof fn lemma_pod_view(fetched: Result<Pod, String>, name: Seq<char>, ns: Option<&str>)
    ensures
        view_of(describe_pod_text(fetched, name, ns), fetched, |p: Pod| p.metadata, "Pod"@, name),
{
    if let Ok(p) = fetched {
        let v = describe_pod_text(fetched, name, ns);
        let head = identity_lines(p.metadata);
        let mid = v.subrange(head.len() as int, v.len() - bottom_lines().len());
        assert(v =~= head + mid + bottom_lines());
        lemma_framed(head, mid, p.metadata);
    }
}

/// Every describe view of a service is framed, or the error line.
pub proof fn lemma_service_view(fetched: Result<Service, String>, name: Seq<char>, ns: Option<&str>)
    ensures
        view_of(
            describe_service_text(fetched, name, ns),
            fetched,
            |s: Service| s.metadata,
            "Service"@,
            name,
        ),
{
    if let Ok(s) = fetched {
        let v = describe_service_text(fetched, name, ns);
        let head = identity_lines(s.metadata);
        let mid = v.subrange(head.len() as int, v.len() - bottom_lines().len());
        assert(v =~= head + mid + bottom_lines());
        lemma_framed(head, mid, s.metadata);
    }
}

/// Every describe view of a replica set is framed, or the error line.
pub proof fn lemma_replicaset_view(fetched: Result<ReplicaSet, String>, name: Seq<char>, ns: Option<&str>)
    ensures
        view_of(
            describe_replicaset_text(fetched, name, ns),
            fetched,
            |r: ReplicaSet| r.metadata,
            "ReplicaSet"@,
            name,
        ),
{
    if let Ok(r) = fetched {
        let v = describe_replicaset_text(fetched, name, ns);
        let head = identity_lines(r.metadata);
        let mid = v.subrange(head.len() as int, v.len() - bottom_lines().len());
        assert(v =~= head + mid + bottom_lines());
        lemma_framed(head, mid, r.metadata);
    }
}

/// Every describe view of a daemon set is framed, or the error line.
pub proof fn lemma_daemonset_view(fetched: Result<DaemonSet, String>, name: Seq<char>, ns: Option<&str>)
    ensures
        view_of(
            describe_daemonset_text(fetched, name, ns),
            fetched,
            |d: DaemonSet| d.metadata,
            "DaemonSet"@,
            name,
        ),
{
    if let Ok(d) = fetched {
        let v = describe_daemonset_text(fetched, name, ns);
        let head = identity_lines(d.metadata);
        let mid = v.subrange(head.len() as int, v.len() - bottom_lines().len());
        assert(v =~= head + mid + bottom_lines());
        lemma_framed(head, mid, d.metadata);
    }
}

/// Every describe view of a job is framed, or the error line.
pub proof fn lemma_job_view(fetched: Result<Job, String>, name: Seq<char>, ns: Option<&str>)
    ensures
        view_of(describe_job_text(fetched, name, ns), fetched, |j: Job| j.metadata, "Job"@, name),
{
    if let Ok(j) = fetched {
        let v = describe_job_text(fetched, name, ns);
        let head = identity_lines(j.metadata);
        let mid = v.subrange(head.len() as int, v.len() - bottom_lines().len());
        assert(v =~= head + mid + bottom_lines());
        lemma_framed(head, mid, j.metadata);
    }
}

/// Every describe view of a persistent volume is framed, or the error
/// line.
pub proof fn lemma_pv_view(fetched: Result<PersistentVolume, String>, name: Seq<char>)
    ensures
        view_of(
            describe_pv_text(fetched, name),
            fetched,
            |pv: PersistentVolume| pv.metadata,
            "PersistentVolume"@,
            name,
        ),
{
    if let Ok(pv) = fetched {
        let v = describe_pv_text(fetched, name);
        let head = identity_lines(pv.metadata);
        let mid = v.subrange(head.len() as int, v.len() - bottom_lines().len());
        assert(v =~= head + mid + bottom_lines());
        lemma_framed(head, mid, pv.metadata);
    }
}

/// Every describe view of a persistent volume claim is framed, or the
/// error line.
pub proof fn lemma_pvc_view(
    fetched: Result<PersistentVolumeClaim, String>,
    name: Seq<char>,
    ns: Option<&str>,
)
    ensures
        view_of(
            describe_pvc_text(fetched, name, ns),
            fetched,
            |c: PersistentVolumeClaim| c.metadata,
            "PVC"@,
            name,
        ),
{
    if let Ok(c) = fetched {
        let v = describe_pvc_text(fetched, name, ns);
        let head = identity_lines(c.metadata);
        let mid = v.subrange(head.len() as int, v.len() - bottom_lines().len());
        assert(v =~= head + mid + bottom_lines());
        lemma_framed(head, mid, c.metadata);
    }
}

/// The value, or `<none>` when there is none.
pub open spec fn shown_or_none(v: Option<String>) -> Seq<char> {
    match v {
        Some(s) => s@,
        None => "<none>"@,
    }
}

/// The count, or `default` when there is none.
pub open spec fn count_or(v: Option<i32>, default: int) -> int {
    match v {
        Some(n) => n as int,
        None => default,
    }
}

/// The view of a fetched pod shows, right after the node and service
/// account lines, a status section whose Phase, Pod IP and Host IP lines
/// show the status's phase, its pod IP and its host IP (each `<none>` when
/// absent): the Pod IP line shows the pod IP whatever the host IP is.
pub proof fn lemma_pod_status_lines(p: Pod, name: Seq<char>, ns: Option<&str>)
    ensures
        ({
            let v = describe_pod_text(Ok(p), name, ns);
            let k: int = identity_lines(p.metadata).len() as int + 4;
            let (phase, pod_ip, host_ip) = match p.status {
                Some(s) => (s.phase, s.pod_ip, s.host_ip),
                None => (None, None, None),
            };
            &&& k + 3 <= v.len()
            &&& v[k] == field_text("Phase"@, shown_or_none(phase))
            &&& v[k + 1] == field_text("Pod IP"@, shown_or_none(pod_ip))
            &&& v[k + 2] == field_text("Host IP"@, shown_or_none(host_ip))
        }),
{
}

/// The Replicas line of a fetched deployment's view, right below its
/// selector, shows the desired count (1 by default) and the status's
/// updated, total, available and unavailable counts (0 when absent), each
/// taken from its own field.
pub proof fn lemma_deployment_replicas_line(
    d: Deployment,
    spec: DeploymentSpec,
    name: Seq<char>,
    ns: Option<&str>,
)
    requires
        d.spec == Some(spec),
    ensures
        ({
            let v = describe_deployment_text(Ok(d), name, ns);
            let selector = match spec.selector_match_labels {
                Some(m) => if m@.len() > 0 {
                    m@.len() as int
                } else {
                    1
                },
                None => 1int,
            };
            let k: int = identity_lines(d.metadata).len() as int + 2 + selector;
            let (updated, total, available, unavailable) = match d.status {
                Some(s) => (
                    count_or(s.updated_replicas, 0),
                    count_or(s.replicas, 0),
                    count_or(s.available_replicas, 0),
                    count_or(s.unavailable_replicas, 0),
                ),
                None => (0, 0, 0, 0),
            };
            &&& k < v.len()
            &&& v[k] == field_text(
                "Replicas"@,
                int_text(count_or(spec.replicas, 1)) + " desired | "@ + int_text(updated)
                    + " updated | "@ + int_text(total) + " total | "@ + int_text(available)
                    + " available | "@ + int_text(unavailable) + " unavailable"@,
            )
        }),
{
}

/// The spec section of a fetched job's view shows its completions (1 by
/// default), parallelism (1 by default) and backoff limit (6 by default),
/// each from its own field.
pub proof fn lemma_job_spec_lines(j: Job, name: Seq<char>, ns: Option<&str>)
    ensures
        ({
            let v = describe_job_text(Ok(j), name, ns);
            let k: int = identity_lines(j.metadata).len() as int + 2;
            let (completions, parallelism, backoff) = match j.spec {
                Some(s) => (s.completions, s.parallelism, s.backoff_limit),
                None => (None, None, None),
            };
            &&& k + 3 <= v.len()
            &&& v[k] == field_text("Completions"@, int_text(count_or(completions, 1)))
            &&& v[k + 1] == field_text("Parallelism"@, int_text(count_or(parallelism, 1)))
            &&& v[k + 2] == field_text("BackoffLimit"@, int_text(count_or(backoff, 6)))
        }),
{
}

/// The Source line of a fetched persistent volume's view, the last line of
/// its spec section, names the first source that the spec has, in the order
/// host path, NFS, AWS EBS, CSI, and says `<unknown>` only when it has none
/// of them.
pub proof fn lemma_pv_source_line(pv: PersistentVolume, s: PersistentVolumeSpec, name: Seq<char>)
    requires
        pv.spec == Some(s),
    ensures
        ({
            let v = describe_pv_text(Ok(pv), name);
            let k: int = identity_lines(pv.metadata).len() as int + 7 + if s.claim_ref is Some {
                1int
            } else {
                0
            };
            &&& k < v.len()
            &&& s.host_path matches Some(h) ==> v[k] == field_text("Source"@, "HostPath: "@ + h.path@)
            &&& s.host_path is None ==> (s.nfs matches Some(n) ==> v[k] == field_text(
                "Source"@,
                "NFS: "@ + n.server@ + ":"@ + n.path@,
            ))
            &&& s.host_path is None && s.nfs is None ==> (s.aws_elastic_block_store matches Some(a)
                ==> v[k] == field_text("Source"@, "AWS EBS: "@ + a.volume_id@))
            &&& s.host_path is None && s.nfs is None && s.aws_elastic_block_store is None ==> (
            s.csi matches Some(c) ==> v[k] == field_text(
                "Source"@,
                "CSI: "@ + c.driver@ + " ("@ + c.volume_handle@ + ")"@,
            ))
            &&& s.host_path is None && s.nfs is None && s.aws_elastic_block_store is None
                && s.csi is None ==> v[k] == field_text("Source"@, "<unknown>"@)
        }),
{
}

/// A point in time as the views show it, or `<none>`.
pub open spec fn shown_time(t: Option<Time>) -> Seq<char> {
    match t {
        Some(x) => rfc2822_text(x.secs, x.nanos),
        None => "<none>"@,
    }
}

/// The view of a fetched pod shows, right after its identity section, the
/// node it runs on and its service account (each `<none>` when absent).
pub proof fn lemma_pod_node_lines(p: Pod, name: Seq<char>, ns: Option<&str>)
    ensures
        ({
            let v = describe_pod_text(Ok(p), name, ns);
            let k: int = identity_lines(p.metadata).len() as int;
            let (node, account) = match p.spec {
                Some(s) => (s.node_name, s.service_account_name),
                None => (None, None),
            };
            &&& k + 2 <= v.len()
            &&& v[k] == field_text("Node"@, shown_or_none(node))
            &&& v[k + 1] == field_text("ServiceAccount"@, shown_or_none(account))
        }),
{
}

/// The replicas section of a fetched replica set's view shows the desired
/// count (0 by default) and the status's current, ready and available
/// counts (0 when absent), each from its own field.
pub proof fn lemma_replicaset_count_lines(rs: ReplicaSet, name: Seq<char>, ns: Option<&str>)
    ensures
        ({
            let v = describe_replicaset_text(Ok(rs), name, ns);
            let k: int = identity_lines(rs.metadata).len() as int + 2;
            let desired = match rs.spec {
                Some(s) => count_or(s.replicas, 0),
                None => 0,
            };
            let (current, ready, available) = match rs.status {
                Some(s) => (
                    s.replicas as int,
                    count_or(s.ready_replicas, 0),
                    count_or(s.available_replicas, 0),
                ),
                None => (0, 0, 0),
            };
            &&& k + 4 <= v.len()
            &&& v[k] == field_text("Desired"@, int_text(desired))
            &&& v[k + 1] == field_text("Current"@, int_text(current))
            &&& v[k + 2] == field_text("Ready"@, int_text(ready))
            &&& v[k + 3] == field_text("Available"@, int_text(available))
        }),
{
}

/// The status section of a fetched daemon set's view shows the desired,
/// current, ready, available and unavailable counts of its status (0 when
/// absent), each from its own field.
pub proof fn lemma_daemonset_status_lines(ds: DaemonSet, name: Seq<char>, ns: Option<&str>)
    ensures
        ({
            let v = describe_daemonset_text(Ok(ds), name, ns);
            let k: int = identity_lines(ds.metadata).len() as int + 2;
            let (desired, current, ready, available, unavailable) = match ds.status {
                Some(s) => (
                    s.desired_number_scheduled as int,
                    s.current_number_scheduled as int,
                    s.number_ready as int,
                    count_or(s.number_available, 0),
                    count_or(s.number_unavailable, 0),
                ),
                None => (0, 0, 0, 0, 0),
            };
            &&& k + 5 <= v.len()
            &&& v[k] == field_text("Desired"@, int_text(desired))
            &&& v[k + 1] == field_text("Current"@, int_text(current))
            &&& v[k + 2] == field_text("Ready"@, int_text(ready))
            &&& v[k + 3] == field_text("Available"@, int_text(available))
            &&& v[k + 4] == field_text("Unavailable"@, int_text(unavailable))
        }),
{
}

/// The status section of a fetched job's view shows its active, succeeded
/// and failed counts (0 by default) and its start and completion times
/// (`<none>` when absent), each from its own field.
pub proof fn lemma_job_status_lines(j: Job, name: Seq<char>, ns: Option<&str>)
    ensures
        ({
            let v = describe_job_text(Ok(j), name, ns);
            let k: int = identity_lines(j.metadata).len() as int + 7;
            let (active, succeeded, failed, start, end) = match j.status {
                Some(s) => (s.active, s.succeeded, s.failed, s.start_time, s.completion_time),
                None => (None, None, None, None, None),
            };
            &&& k + 5 <= v.len()
            &&& v[k] == field_text("Active"@, int_text(count_or(active, 0)))
            &&& v[k + 1] == field_text("Succeeded"@, int_text(count_or(succeeded, 0)))
            &&& v[k + 2] == field_text("Failed"@, int_text(count_or(failed, 0)))
            &&& v[k + 3] == field_text("Start time"@, shown_time(start))
            &&& v[k + 4] == field_text("End time"@, shown_time(end))
        }),
{
}

/// The view of a fetched persistent volume shows its reclaim policy,
/// storage class and volume mode (each `<none>` when absent), and after its
/// spec section a status section with the phase, then a second one with
/// the phase, reason, message and last phase transition (each `<none>`
/// when absent), each from its own field.
pub proof fn lemma_pv_field_lines(pv: PersistentVolume, name: Seq<char>)
    ensures
        ({
            let v = describe_pv_text(Ok(pv), name);
            let id: int = identity_lines(pv.metadata).len() as int;
            let (policy, class, mode, spec_len) = match pv.spec {
                Some(s) => (
                    s.persistent_volume_reclaim_policy,
                    s.storage_class_name,
                    s.volume_mode,
                    8int + if s.claim_ref is Some {
                        1int
                    } else {
                        0
                    },
                ),
                None => (None, None, None, 7int),
            };
            let (phase, reason, message, transition) = match pv.status {
                Some(s) => (s.phase, s.reason, s.message, s.last_phase_transition_time),
                None => (None, None, None, None),
            };
            let k = id + spec_len;
            &&& k + 9 <= v.len()
            &&& v[id + 4] == field_text("Reclaim Policy"@, shown_or_none(policy))
            &&& v[id + 5] == field_text("Storage Class"@, shown_or_none(class))
            &&& v[id + 6] == field_text("Volume Mode"@, shown_or_none(mode))
            &&& v[k + 2] == field_text("Phase"@, shown_or_none(phase))
            &&& v[k + 5] == field_text("Phase"@, shown_or_none(phase))
            &&& v[k + 6] == field_text("Reason"@, shown_or_none(reason))
            &&& v[k + 7] == field_text("Message"@, shown_or_none(message))
            &&& v[k + 8] == field_text("Last Transition"@, shown_time(transition))
        }),
{
}

/// The identity section that opens every view shows the object's name, its
/// namespace and its creation time (each `<none>` when absent), each from
/// its own field.
pub proof fn lemma_identity_lines(meta: ObjectMeta)
    ensures
        ({
            let v = identity_lines(meta);
            &&& v.len() >= 6
            &&& v[2] == field_text("Name"@, shown_or_none(meta.name))
            &&& v[3] == field_text("Namespace"@, shown_or_none(meta.namespace))
            &&& v[4] == field_text("Created"@, shown_time(meta.creation_timestamp))
        }),
{
}

/// The spec section of a fetched service's view shows its type and its
/// cluster IP (each `<none>` when absent), or one `<none>` line when the
/// service has no spec.
pub proof fn lemma_service_spec_lines(svc: Service, name: Seq<char>, ns: Option<&str>)
    ensures
        ({
            let v = describe_service_text(Ok(svc), name, ns);
            let k: int = identity_lines(svc.metadata).len() as int + 2;
            &&& k + 1 <= v.len()
            &&& match svc.spec {
                Some(spec) => k + 2 <= v.len() && v[k] == field_text(
                    "Type"@,
                    shown_or_none(spec.type_),
                ) && v[k + 1] == field_text("ClusterIP"@, shown_or_none(spec.cluster_ip)),
                None => v[k] == field_text("Spec"@, "<none>"@),
            }
        }),
{
}

/// The view of a fetched persistent volume claim shows the volume and the
/// storage class of its spec, and the phase of its status (each `<none>`
/// when absent), each from its own field.
pub proof fn lemma_pvc_field_lines(c: PersistentVolumeClaim, name: Seq<char>, ns: Option<&str>)
    ensures
        ({
            let v = describe_pvc_text(Ok(c), name, ns);
            let k: int = identity_lines(c.metadata).len() as int + 2;
            let (volume, class) = match c.spec {
                Some(s) => (s.volume_name, s.storage_class_name),
                None => (None, None),
            };
            let phase = match c.status {
                Some(s) => s.phase,
                None => None,
            };
            &&& k + 7 <= v.len()
            &&& v[k] == field_text("Volume"@, shown_or_none(volume))
            &&& v[k + 1] == field_text("StorageClass"@, shown_or_none(class))
            &&& v[k + 6] == field_text("Phase"@, shown_or_none(phase))
        }),
{
}

/// A number or a name as the views show it, or `25%` when there is none.
pub open spec fn shown_int_or_string(v: Option<IntOrString>) -> Seq<char> {
    match v {
        Some(IntOrString::Int(n)) => int_text(n as int),
        Some(IntOrString::String(s)) => s@,
        None => "25%"@,
    }
}

/// Below the Replicas line of a fetched deployment's view come, when it has
/// a strategy, its type (`<none>` when absent) and, for a rolling update,
/// its maximum unavailable and maximum surge (25% by default), and then the
/// minimum ready seconds (0 by default), each from its own field.
pub proof fn lemma_deployment_strategy_lines(
    d: Deployment,
    spec: DeploymentSpec,
    name: Seq<char>,
    ns: Option<&str>,
)
    requires
        d.spec == Some(spec),
    ensures
        ({
            let v = describe_deployment_text(Ok(d), name, ns);
            let selector = match spec.selector_match_labels {
                Some(m) => if m@.len() > 0 {
                    m@.len() as int
                } else {
                    1
                },
                None => 1int,
            };
            let k: int = identity_lines(d.metadata).len() as int + 3 + selector;
            let strategy_count: int = match spec.strategy {
                Some(st) => if st.rolling_update is Some {
                    2
                } else {
                    1
                },
                None => 0,
            };
            &&& k + strategy_count < v.len()
            &&& spec.strategy matches Some(st) ==> v[k] == field_text(
                "StrategyType"@,
                shown_or_none(st.type_),
            )
            &&& spec.strategy matches Some(st) ==> (st.rolling_update matches Some(ru) ==> v[k + 1]
                == field_text(
                "RollingUpdateStrategy"@,
                shown_int_or_string(ru.max_unavailable) + " max unavailable, "@
                    + shown_int_or_string(ru.max_surge) + " max surge"@,
            ))
            &&& v[k + strategy_count] == field_text(
                "MinReadySeconds"@,
                int_text(count_or(spec.min_ready_seconds, 0)),
            )
        }),
{
}

} // verus!
