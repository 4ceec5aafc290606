//! The describe view of a pod.

use crate::containers::{
    format_pod_container_limits, format_pod_container_ports, pod_container_limits_text,
    pod_container_ports_text,
};
use crate::deployments::{fetch_error_lines, fetch_error_text, hint_line, hint_text};
use crate::describe::{
    identity_lines, meta_ok, opt_str, opt_text, or_str, or_text, section_identity, time_ok,
    time_text,
};
use crate::clock::rfc2822;
use crate::model::{Container, ContainerState, ContainerStatus, Pod, PodSpec, PodStatus};
use crate::text::{
    append_padded, bool_string, bool_text, bottom_lines, bottom_section, field, field_text,
    int_string, int_text, padded, push_line, section, section_lines, string_of,
};
use vstd::prelude::*;
use vstd::string::*;

verus! {

broadcast use vstd::string::group_string_axioms;

/// A text field of a pod's status, `<none>` when there is no status or no
/// value: 0 is the phase, 1 the pod address, 2 the host address.
pub open spec fn pod_status_field(status: Option<PodStatus>, which: nat) -> Seq<char> {
    match status {
        Some(s) => opt_text(
            if which == 0 {
                s.phase
            } else if which == 1 {
                s.pod_ip
            } else {
                s.host_ip
            },
        ),
        None => "<none>"@,
    }
}

fn pod_status_field_str(status: &Option<PodStatus>, which: usize) -> (r: &str)
    requires
        which < 3,
    ensures
        r@ == pod_status_field(*status, which as nat),
{
    match status {
        Some(s) => opt_str(
            if which == 0 {
                &s.phase
            } else if which == 1 {
                &s.pod_ip
            } else {
                &s.host_ip
            },
        ),
        None => "<none>",
    }
}

/// The status section of a pod: phase, pod address and host address.
pub open spec fn pod_status_text(status: Option<PodStatus>) -> Seq<Seq<char>> {
    section_lines("Status"@, true) + seq![
        field_text("Phase"@, pod_status_field(status, 0)),
        field_text("Pod IP"@, pod_status_field(status, 1)),
        field_text("Host IP"@, pod_status_field(status, 2)),
    ]
}

/// Appends the status section of a pod.
pub fn pod_section_status(lines: &mut Vec<String>, status: &Option<PodStatus>)
    ensures
        final(lines).deep_view() == old(lines).deep_view() + pod_status_text(*status),
{
    section(lines, "Status", true);
    field(lines, "Phase", pod_status_field_str(status, 0));
    field(lines, "Pod IP", pod_status_field_str(status, 1));
    field(lines, "Host IP", pod_status_field_str(status, 2));
    proof {
        assert(lines.deep_view() =~= old(lines).deep_view() + pod_status_text(*status));
    }
}

/// A container as the pod view shows it: name, image, ports and limits.
pub open spec fn pod_container_text(c: Container) -> Seq<Seq<char>> {
    seq![
        "  Container: "@ + c.name@,
        field_text("    Image"@, opt_text(c.image)),
        field_text("    Ports"@, pod_container_ports_text(c)),
        field_text("    Limits"@, pod_container_limits_text(c)),
    ]
}

/// Containers as the pod view shows them, one after the other.
pub open spec fn pod_containers_text(cs: Seq<Container>) -> Seq<Seq<char>>
    decreases cs.len(),
{
    if cs.len() == 0 {
        Seq::empty()
    } else {
        pod_containers_text(cs.drop_last()) + pod_container_text(cs.last())
    }
}

/// The containers section of a pod.
pub open spec fn pod_containers_section_text(spec: Option<PodSpec>) -> Seq<Seq<char>> {
    section_lines("Containers"@, true) + match spec {
        Some(s) => pod_containers_text(s.containers@),
        None => Seq::empty(),
    }
}

fn pod_container_lines(lines: &mut Vec<String>, c: &Container)
    ensures
        final(lines).deep_view() == old(lines).deep_view() + pod_container_text(*c),
{
    let mut head = string_of("  Container: ");
    head.append(c.name.as_str());
    push_line(lines, head);
    field(lines, "    Image", opt_str(&c.image));
    let ports = format_pod_container_ports(c);
    field(lines, "    Ports", ports.as_str());
    let limits = format_pod_container_limits(c);
    field(lines, "    Limits", limits.as_str());
    proof {
        assert(lines.deep_view() =~= old(lines).deep_view() + pod_container_text(*c));
    }
}

/// Appends the containers section of a pod.
pub fn pod_section_containers(lines: &mut Vec<String>, spec: &Option<PodSpec>)
    ensures
        final(lines).deep_view() == old(lines).deep_view() + pod_containers_section_text(*spec),
{
    section(lines, "Containers", true);
    let ghost start = lines.deep_view();
    if let Some(s) = spec {
        let cs = &s.containers;
        let n = cs.len();
        let mut i: usize = 0;
        proof {
            assert(cs@.take(0) =~= Seq::<Container>::empty());
            assert(lines.deep_view() =~= start + pod_containers_text(cs@.take(0)));
        }
        while i < n
            invariant
                n == cs@.len(),
                i <= n,
                lines.deep_view() == start + pod_containers_text(cs@.take(i as int)),
            decreases n - i,
        {
            pod_container_lines(lines, &cs[i]);
            proof {
                assert(cs@.take(i + 1).drop_last() =~= cs@.take(i as int));
                assert(lines.deep_view() =~= start + pod_containers_text(cs@.take(i + 1)));
            }
            i += 1;
        }
        proof {
            assert(cs@.take(n as int) =~= cs@);
        }
    }
    proof {
        assert(lines.deep_view() =~= old(lines).deep_view() + pod_containers_section_text(*spec));
    }
}

/// Whether RFC 2822 text can show the start time of a running container.
pub open spec fn state_ok(state: ContainerState) -> bool {
    match state.running {
        Some(r) => time_ok(r.started_at),
        None => true,
    }
}

/// The state of a container: running since when, waiting and why,
/// terminated with which exit code and why, or `<unknown>`.
pub open spec fn container_state_text(state: ContainerState) -> Seq<char> {
    match state.running {
        Some(r) => "Running since "@ + match r.started_at {
            Some(t) => crate::clock::rfc2822_text(t.secs, t.nanos),
            None => "?"@,
        },
        None => match state.waiting {
            Some(w) => "Waiting — "@ + or_text(w.reason, "?"@),
            None => match state.terminated {
                Some(t) => "Terminated — exit "@ + int_text(t.exit_code as int) + " ("@ + or_text(
                    t.reason,
                    "?"@,
                ) + ")"@,
                None => "<unknown>"@,
            },
        },
    }
}

/// The state of a container as text.
pub fn format_container_state(state: &ContainerState) -> (r: String)
    requires
        state_ok(*state),
    ensures
        r@ == container_state_text(*state),
{
    if let Some(run) = &state.running {
        let mut r = string_of("Running since ");
        match run.started_at {
            Some(t) => {
                let s = rfc2822(t);
                r.append(s.as_str());
            },
            None => {
                r.append("?");
            },
        }
        return r;
    }
    if let Some(w) = &state.waiting {
        let mut r = string_of("Waiting — ");
        r.append(or_str(&w.reason, "?"));
        return r;
    }
    if let Some(t) = &state.terminated {
        let mut r = string_of("Terminated — exit ");
        r.append(int_string(t.exit_code as i64).as_str());
        r.append(" (");
        r.append(or_str(&t.reason, "?"));
        r.append(")");
        return r;
    }
    string_of("<unknown>")
}

/// Whether RFC 2822 text can show the times in a container status.
pub open spec fn container_status_ok(cs: ContainerStatus) -> bool {
    match cs.state {
        Some(st) => state_ok(st),
        None => true,
    }
}

/// A container status: name, readiness, restart count, image and, when
/// known, the state.
pub open spec fn container_status_text(cs: ContainerStatus) -> Seq<Seq<char>> {
    seq![
        "  Container: "@ + cs.name@,
        field_text("    Ready"@, bool_text(cs.ready)),
        field_text("    Restart count"@, int_text(cs.restart_count as int)),
        field_text("    Image"@, cs.image@),
    ] + match cs.state {
        Some(st) => seq![field_text("    State"@, container_state_text(st))],
        None => Seq::empty(),
    }
}

/// Appends a container status.
pub fn pod_container_status_lines(lines: &mut Vec<String>, cs: &ContainerStatus)
    requires
        container_status_ok(*cs),
    ensures
        final(lines).deep_view() == old(lines).deep_view() + container_status_text(*cs),
{
    let mut head = string_of("  Container: ");
    head.append(cs.name.as_str());
    push_line(lines, head);
    let ready = bool_string(cs.ready);
    field(lines, "    Ready", ready.as_str());
    let restarts = int_string(cs.restart_count as i64);
    field(lines, "    Restart count", restarts.as_str());
    field(lines, "    Image", cs.image.as_str());
    if let Some(st) = &cs.state {
        let t = format_container_state(st);
        field(lines, "    State", t.as_str());
    }
    proof {
        assert(lines.deep_view() =~= old(lines).deep_view() + container_status_text(*cs));
    }
}

/// Container statuses, one after the other.
pub open spec fn container_statuses_text(css: Seq<ContainerStatus>) -> Seq<Seq<char>>
    decreases css.len(),
{
    if css.len() == 0 {
        Seq::empty()
    } else {
        container_statuses_text(css.drop_last()) + container_status_text(css.last())
    }
}

/// Whether RFC 2822 text can show the times in a pod's status.
pub open spec fn pod_status_ok(status: Option<PodStatus>) -> bool {
    match status {
        Some(s) => match s.container_statuses {
            Some(css) => forall|i: int| 0 <= i < css@.len() ==> container_status_ok(#[trigger] css@[i]),
            None => true,
        },
        None => true,
    }
}

/// The container statuses section of a pod.
pub open spec fn container_statuses_section_text(status: Option<PodStatus>) -> Seq<Seq<char>> {
    section_lines("Container Statuses"@, true) + match status {
        Some(s) => match s.container_statuses {
            Some(css) => container_statuses_text(css@),
            None => Seq::empty(),
        },
        None => Seq::empty(),
    }
}

/// Appends the container statuses section of a pod.
pub fn pod_section_container_statuses(lines: &mut Vec<String>, status: &Option<PodStatus>)
    requires
        pod_status_ok(*status),
    ensures
        final(lines).deep_view() == old(lines).deep_view() + container_statuses_section_text(*status),
{
    section(lines, "Container Statuses", true);
    let ghost start = lines.deep_view();
    if let Some(s) = status {
        if let Some(css) = &s.container_statuses {
            let n = css.len();
            let mut i: usize = 0;
            proof {
                assert(css@.take(0) =~= Seq::<ContainerStatus>::empty());
                assert(lines.deep_view() =~= start + container_statuses_text(css@.take(0)));
            }
            while i < n
                invariant
                    n == css@.len(),
                    i <= n,
                    forall|k: int| 0 <= k < css@.len() ==> container_status_ok(#[trigger] css@[k]),
                    lines.deep_view() == start + container_statuses_text(css@.take(i as int)),
                decreases n - i,
            {
                pod_container_status_lines(lines, &css[i]);
                proof {
                    assert(css@.take(i + 1).drop_last() =~= css@.take(i as int));
                    assert(lines.deep_view() =~= start + container_statuses_text(css@.take(i + 1)));
                }
                i += 1;
            }
            proof {
                assert(css@.take(n as int) =~= css@);
            }
        }
    }
    proof {
        assert(lines.deep_view() =~= old(lines).deep_view() + container_statuses_section_text(*status));
    }
}

/// A row of the pod conditions table: the type padded to 24 characters,
/// then the status.
pub open spec fn pod_condition_row_text(a: Seq<char>, b: Seq<char>) -> Seq<char> {
    "  "@ + padded(a, 24) + "  "@ + b
}

fn pod_condition_row(a: &str, b: &str) -> (r: String)
    ensures
        r@ == pod_condition_row_text(a@, b@),
{
    let mut r = string_of("  ");
    append_padded(&mut r, a, 24);
    r.append("  ");
    r.append(b);
    r
}

/// The conditions section of a pod: a table of type and status when the
/// status lists conditions.
pub open spec fn pod_conditions_text(status: Option<PodStatus>) -> Seq<Seq<char>> {
    section_lines("Conditions"@, true) + match status {
        Some(s) => match s.conditions {
            Some(cs) => seq![
                pod_condition_row_text("Type"@, "Status"@),
                pod_condition_row_text("────"@, "──────"@),
            ] + Seq::new(
                cs@.len(),
                |i: int| pod_condition_row_text(cs@[i].type_@, cs@[i].status@),
            ),
            None => Seq::empty(),
        },
        None => Seq::empty(),
    }
}

/// Appends the conditions section of a pod.
pub fn pod_section_conditions(lines: &mut Vec<String>, status: &Option<PodStatus>)
    ensures
        final(lines).deep_view() == old(lines).deep_view() + pod_conditions_text(*status),
{
    section(lines, "Conditions", true);
    let conds = match status {
        Some(s) => match &s.conditions {
            Some(c) => c,
            None => {
                proof {
                    assert(lines.deep_view() =~= old(lines).deep_view() + pod_conditions_text(*status));
                }
                return;
            },
        },
        None => {
            proof {
                assert(lines.deep_view() =~= old(lines).deep_view() + pod_conditions_text(*status));
            }
            return;
        },
    };
    push_line(lines, pod_condition_row("Type", "Status"));
    push_line(lines, pod_condition_row("────", "──────"));
    let ghost start = lines.deep_view();
    let n = conds.len();
    let mut i: usize = 0;
    while i < n
        invariant
            n == conds@.len(),
            i <= n,
            lines.deep_view() == start + Seq::new(
                i as nat,
                |j: int| pod_condition_row_text(conds@[j].type_@, conds@[j].status@),
            ),
        decreases n - i,
    {
        let row = pod_condition_row(conds[i].type_.as_str(), conds[i].status.as_str());
        push_line(lines, row);
        proof {
            assert(lines.deep_view() =~= start + Seq::new(
                (i + 1) as nat,
                |j: int| pod_condition_row_text(conds@[j].type_@, conds@[j].status@),
            ));
        }
        i += 1;
    }
    proof {
        assert(lines.deep_view() =~= old(lines).deep_view() + pod_conditions_text(*status));
    }
}

/// A text field of a pod's spec, `<none>` when there is no spec or no
/// value: 0 is the node name, 1 the service account.
pub open spec fn pod_spec_field(spec: Option<PodSpec>, which: nat) -> Seq<char> {
    match spec {
        Some(s) => opt_text(
            if which == 0 {
                s.node_name
            } else {
                s.service_account_name
            },
        ),
        None => "<none>"@,
    }
}

fn pod_spec_field_str(spec: &Option<PodSpec>, which: usize) -> (r: &str)
    ensures
        r@ == pod_spec_field(*spec, which as nat),
{
    match spec {
        Some(s) => opt_str(
            if which == 0 {
                &s.node_name
            } else {
                &s.service_account_name
            },
        ),
        None => "<none>",
    }
}

/// What the describe view of a pod can show: a fetch error, or a pod whose
/// creation time and container start times RFC 2822 text can show.
pub open spec fn pod_ok(fetched: Result<Pod, String>) -> bool {
    match fetched {
        Ok(p) => meta_ok(p.metadata) && pod_status_ok(p.status),
        Err(_) => true,
    }
}

/// The describe view of a pod: the error when it could not be fetched;
/// otherwise its identity, node, service account, status, containers,
/// container statuses, conditions, two `kubectl` hints and the key help.
pub open spec fn describe_pod_text(fetched: Result<Pod, String>, name: Seq<char>, ns: Option<&str>) -> Seq<Seq<char>> {
    match fetched {
        Err(e) => seq![fetch_error_text("Pod"@, name, e@)],
        Ok(p) => identity_lines(p.metadata) + seq![
            field_text("Node"@, pod_spec_field(p.spec, 0)),
            field_text("ServiceAccount"@, pod_spec_field(p.spec, 1)),
        ] + pod_status_text(p.status) + pod_containers_section_text(p.spec)
            + container_statuses_section_text(p.status) + pod_conditions_text(p.status)
            + section_lines("Hints"@, true) + seq![
            hint_text("  kubectl describe pod/"@, name, ns, ""@),
            hint_text("  kubectl logs "@, name, ns, ""@),
        ] + bottom_lines(),
    }
}

/// The describe view of a pod, from the result of fetching it.
pub fn describe_pod(fetched: &Result<Pod, String>, name: &str, ns: Option<&str>) -> (r: Vec<String>)
    requires
        pod_ok(*fetched),
    ensures
        r.deep_view() == describe_pod_text(*fetched, name@, ns),
{
    let p = match fetched {
        Ok(p) => p,
        Err(e) => {
            return fetch_error_lines("Pod", name, e.as_str());
        },
    };
    let mut lines: Vec<String> = Vec::new();
    section_identity(&mut lines, &p.metadata);
    field(&mut lines, "Node", pod_spec_field_str(&p.spec, 0));
    field(&mut lines, "ServiceAccount", pod_spec_field_str(&p.spec, 1));
    pod_section_status(&mut lines, &p.status);
    pod_section_containers(&mut lines, &p.spec);
    pod_section_container_statuses(&mut lines, &p.status);
    pod_section_conditions(&mut lines, &p.status);
    section(&mut lines, "Hints", true);
    push_line(&mut lines, hint_line("  kubectl describe pod/", name, ns, ""));
    push_line(&mut lines, hint_line("  kubectl logs ", name, ns, ""));
    bottom_section(&mut lines);
    proof {
        assert(lines.deep_view() =~= describe_pod_text(*fetched, name@, ns));
    }
    lines
}

} // verus!
