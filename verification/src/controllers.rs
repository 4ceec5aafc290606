//! The describe views of replica sets, daemon sets and jobs.

use crate::deployments::{
    condition_row, condition_row_text, fetch_error_lines, fetch_error_text, hint_line,
    hint_text, template_labels, template_labels_lines,
};
use crate::describe::{
    count_string, count_text, identity_lines, meta_ok, multiline_labels, multiline_lines,
    opt_str, opt_text, or_str, or_text, pairs_texts, section_identity, time_ok, time_string,
    time_text,
};
use crate::model::{
    Container, DaemonSet, DaemonSetStatus, Job, JobSpec, JobStatus, Pairs, ReplicaSet,
    ReplicaSetSpec, ReplicaSetStatus, Time,
};
use crate::text::{
    bottom_lines, bottom_section, field, field_text, int_string, int_text, push_line, section,
    section_lines, string_of,
};
use vstd::prelude::*;
use vstd::string::*;

verus! {

broadcast use vstd::string::group_string_axioms;

/// A container as a controller's template shows it: name and image.
pub open spec fn image_container_text(c: Container) -> Seq<Seq<char>> {
    seq!["  Container: "@ + c.name@, field_text("    Image"@, opt_text(c.image))]
}

/// Containers with their images, one after the other.
pub open spec fn image_containers_text(cs: Seq<Container>) -> Seq<Seq<char>>
    decreases cs.len(),
{
    if cs.len() == 0 {
        Seq::empty()
    } else {
        image_containers_text(cs.drop_last()) + image_container_text(cs.last())
    }
}

/// Appends containers with their images.
pub fn image_containers_lines(lines: &mut Vec<String>, cs: &Vec<Container>)
    ensures
        final(lines).deep_view() == old(lines).deep_view() + image_containers_text(cs@),
{
    let n = cs.len();
    let mut i: usize = 0;
    proof {
        assert(cs@.take(0) =~= Seq::<Container>::empty());
        assert(lines.deep_view() =~= old(lines).deep_view() + image_containers_text(cs@.take(0)));
    }
    while i < n
        invariant
            n == cs@.len(),
            i <= n,
            lines.deep_view() == old(lines).deep_view() + image_containers_text(cs@.take(i as int)),
        decreases n - i,
    {
        let mut head = string_of("  Container: ");
        head.append(cs[i].name.as_str());
        push_line(lines, head);
        field(lines, "    Image", opt_str(&cs[i].image));
        proof {
            assert(cs@.take(i + 1).drop_last() =~= cs@.take(i as int));
            assert(lines.deep_view() =~= old(lines).deep_view() + image_containers_text(cs@.take(i + 1)));
        }
        i += 1;
    }
    proof {
        assert(cs@.take(n as int) =~= cs@);
    }
}

/// A count of a replica set's status, 0 when there is no status or no
/// count: 0 is the current replicas, 1 the ready ones, 2 the available
/// ones.
pub open spec fn rs_status_count(status: Option<ReplicaSetStatus>, which: nat) -> i32 {
    match status {
        Some(s) => if which == 0 {
            s.replicas
        } else {
            match (if which == 1 {
                s.ready_replicas
            } else {
                s.available_replicas
            }) {
                Some(n) => n,
                None => 0,
            }
        },
        None => 0,
    }
}

fn rs_status_count_exec(status: &Option<ReplicaSetStatus>, which: usize) -> (r: i32)
    ensures
        r == rs_status_count(*status, which as nat),
{
    match status {
        Some(s) => if which == 0 {
            s.replicas
        } else {
            match (if which == 1 {
                s.ready_replicas
            } else {
                s.available_replicas
            }) {
                Some(n) => n,
                None => 0,
            }
        },
        None => 0,
    }
}

/// The desired replicas of a replica set, 0 when unknown.
pub open spec fn rs_desired(spec: Option<ReplicaSetSpec>) -> Option<i32> {
    match spec {
        Some(s) => s.replicas,
        None => None,
    }
}

/// The pod template section of a replica set: the template's labels and
/// its containers with their images.
pub open spec fn rs_template_text(spec: Option<ReplicaSetSpec>) -> Seq<Seq<char>> {
    section_lines("Pod Template"@, true) + match spec {
        Some(s) => multiline_lines(
            "  Labels"@,
            pairs_texts(
                match s.template {
                    Some(t) => template_labels(t),
                    None => None,
                },
            ),
        ) + match s.template {
            Some(t) => match t.spec {
                Some(ps) => image_containers_text(ps.containers@),
                None => Seq::empty(),
            },
            None => Seq::empty(),
        },
        None => Seq::empty(),
    }
}

fn rs_section_template(lines: &mut Vec<String>, spec: &Option<ReplicaSetSpec>)
    ensures
        final(lines).deep_view() == old(lines).deep_view() + rs_template_text(*spec),
{
    section(lines, "Pod Template", true);
    if let Some(s) = spec {
        match &s.template {
            Some(t) => template_labels_lines(lines, "  Labels", t),
            None => {
                let none: Option<Pairs> = None;
                multiline_labels(lines, "  Labels", &none);
            },
        }
        if let Some(t) = &s.template {
            if let Some(ps) = &t.spec {
                image_containers_lines(lines, &ps.containers);
            }
        }
    }
    proof {
        assert(lines.deep_view() =~= old(lines).deep_view() + rs_template_text(*spec));
    }
}

/// What the describe view of a replica set can show.
pub open spec fn replicaset_ok(fetched: Result<ReplicaSet, String>) -> bool {
    match fetched {
        Ok(r) => meta_ok(r.metadata),
        Err(_) => true,
    }
}

/// The describe view of a replica set: the error when it could not be
/// fetched; otherwise its identity, replica counts (desired, current, ready
/// and available, 0 when unknown), pod template, a `kubectl` hint and the
/// key help.
pub open spec fn describe_replicaset_text(
    fetched: Result<ReplicaSet, String>,
    name: Seq<char>,
    ns: Option<&str>,
) -> Seq<Seq<char>> {
    match fetched {
        Err(e) => seq![fetch_error_text("ReplicaSet"@, name, e@)],
        Ok(rs) => identity_lines(rs.metadata) + section_lines("Replicas"@, true) + seq![
            field_text("Desired"@, count_text(rs_desired(rs.spec), 0)),
            field_text("Current"@, int_text(rs_status_count(rs.status, 0) as int)),
            field_text("Ready"@, int_text(rs_status_count(rs.status, 1) as int)),
            field_text("Available"@, int_text(rs_status_count(rs.status, 2) as int)),
        ] + rs_template_text(rs.spec) + section_lines("Hints"@, true) + seq![
            hint_text("  kubectl describe replicaset/"@, name, ns, ""@),
        ] + bottom_lines(),
    }
}

/// The describe view of a replica set, from the result of fetching it.
pub fn describe_replicaset(fetched: &Result<ReplicaSet, String>, name: &str, ns: Option<&str>) -> (r: Vec<String>)
    requires
        replicaset_ok(*fetched),
    ensures
        r.deep_view() == describe_replicaset_text(*fetched, name@, ns),
{
    let rs = match fetched {
        Ok(r) => r,
        Err(e) => {
            return fetch_error_lines("ReplicaSet", name, e.as_str());
        },
    };
    let mut lines: Vec<String> = Vec::new();
    section_identity(&mut lines, &rs.metadata);
    section(&mut lines, "Replicas", true);
    let desired = match &rs.spec {
        Some(s) => s.replicas,
        None => None,
    };
    field(&mut lines, "Desired", count_string(desired, 0).as_str());
    field(&mut lines, "Current", int_string(rs_status_count_exec(&rs.status, 0) as i64).as_str());
    field(&mut lines, "Ready", int_string(rs_status_count_exec(&rs.status, 1) as i64).as_str());
    field(&mut lines, "Available", int_string(rs_status_count_exec(&rs.status, 2) as i64).as_str());
    rs_section_template(&mut lines, &rs.spec);
    section(&mut lines, "Hints", true);
    push_line(&mut lines, hint_line("  kubectl describe replicaset/", name, ns, ""));
    bottom_section(&mut lines);
    proof {
        assert(lines.deep_view() =~= describe_replicaset_text(*fetched, name@, ns));
    }
    lines
}

/// A count of a daemon set's status, 0 when there is no status or no
/// count: desired, current, ready, available and unavailable, in that
/// order.
pub open spec fn ds_status_count(status: Option<DaemonSetStatus>, which: nat) -> i32 {
    match status {
        Some(s) => if which == 0 {
            s.desired_number_scheduled
        } else if which == 1 {
            s.current_number_scheduled
        } else if which == 2 {
            s.number_ready
        } else {
            match (if which == 3 {
                s.number_available
            } else {
                s.number_unavailable
            }) {
                Some(n) => n,
                None => 0,
            }
        },
        None => 0,
    }
}

fn ds_status_count_exec(status: &Option<DaemonSetStatus>, which: usize) -> (r: i32)
    ensures
        r == ds_status_count(*status, which as nat),
{
    match status {
        Some(s) => if which == 0 {
            s.desired_number_scheduled
        } else if which == 1 {
            s.current_number_scheduled
        } else if which == 2 {
            s.number_ready
        } else {
            match (if which == 3 {
                s.number_available
            } else {
                s.number_unavailable
            }) {
                Some(n) => n,
                None => 0,
            }
        },
        None => 0,
    }
}

/// The pod template section of a daemon set: the containers with their
/// images and the node selector, when the template has a pod spec.
pub open spec fn ds_template_text(ds: DaemonSet) -> Seq<Seq<char>> {
    section_lines("Pod Template"@, true) + match ds.spec {
        Some(s) => match s.template.spec {
            Some(ps) => image_containers_text(ps.containers@) + multiline_lines(
                "  Node Selector"@,
                pairs_texts(ps.node_selector),
            ),
            None => Seq::empty(),
        },
        None => Seq::empty(),
    }
}

fn ds_section_template(lines: &mut Vec<String>, ds: &DaemonSet)
    ensures
        final(lines).deep_view() == old(lines).deep_view() + ds_template_text(*ds),
{
    section(lines, "Pod Template", true);
    if let Some(s) = &ds.spec {
        if let Some(ps) = &s.template.spec {
            image_containers_lines(lines, &ps.containers);
            multiline_labels(lines, "  Node Selector", &ps.node_selector);
        }
    }
    proof {
        assert(lines.deep_view() =~= old(lines).deep_view() + ds_template_text(*ds));
    }
}

/// What the describe view of a daemon set can show.
pub open spec fn daemonset_ok(fetched: Result<DaemonSet, String>) -> bool {
    match fetched {
        Ok(d) => meta_ok(d.metadata),
        Err(_) => true,
    }
}

/// The describe view of a daemon set: the error when it could not be
/// fetched; otherwise its identity, scheduling counts (0 when unknown), pod
/// template, a `kubectl` hint and the key help.
pub open spec fn describe_daemonset_text(
    fetched: Result<DaemonSet, String>,
    name: Seq<char>,
    ns: Option<&str>,
) -> Seq<Seq<char>> {
    match fetched {
        Err(e) => seq![fetch_error_text("DaemonSet"@, name, e@)],
        Ok(ds) => identity_lines(ds.metadata) + section_lines("Status"@, true) + seq![
            field_text("Desired"@, int_text(ds_status_count(ds.status, 0) as int)),
            field_text("Current"@, int_text(ds_status_count(ds.status, 1) as int)),
            field_text("Ready"@, int_text(ds_status_count(ds.status, 2) as int)),
            field_text("Available"@, int_text(ds_status_count(ds.status, 3) as int)),
            field_text("Unavailable"@, int_text(ds_status_count(ds.status, 4) as int)),
        ] + ds_template_text(ds) + section_lines("Hints"@, true) + seq![
            hint_text("  kubectl describe daemonset/"@, name, ns, ""@),
        ] + bottom_lines(),
    }
}

/// The describe view of a daemon set, from the result of fetching it.
pub fn describe_daemonset(fetched: &Result<DaemonSet, String>, name: &str, ns: Option<&str>) -> (r: Vec<String>)
    requires
        daemonset_ok(*fetched),
    ensures
        r.deep_view() == describe_daemonset_text(*fetched, name@, ns),
{
    let ds = match fetched {
        Ok(d) => d,
        Err(e) => {
            return fetch_error_lines("DaemonSet", name, e.as_str());
        },
    };
    let mut lines: Vec<String> = Vec::new();
    section_identity(&mut lines, &ds.metadata);
    section(&mut lines, "Status", true);
    field(&mut lines, "Desired", int_string(ds_status_count_exec(&ds.status, 0) as i64).as_str());
    field(&mut lines, "Current", int_string(ds_status_count_exec(&ds.status, 1) as i64).as_str());
    field(&mut lines, "Ready", int_string(ds_status_count_exec(&ds.status, 2) as i64).as_str());
    field(&mut lines, "Available", int_string(ds_status_count_exec(&ds.status, 3) as i64).as_str());
    field(&mut lines, "Unavailable", int_string(ds_status_count_exec(&ds.status, 4) as i64).as_str());
    ds_section_template(&mut lines, ds);
    section(&mut lines, "Hints", true);
    push_line(&mut lines, hint_line("  kubectl describe daemonset/", name, ns, ""));
    bottom_section(&mut lines);
    proof {
        assert(lines.deep_view() =~= describe_daemonset_text(*fetched, name@, ns));
    }
    lines
}

/// A count of a job's spec, with the API's default when unknown:
/// completions (1), parallelism (1) and backoff limit (6).
pub open spec fn job_spec_count(spec: Option<JobSpec>, which: nat) -> Option<i32> {
    match spec {
        Some(s) => if which == 0 {
            s.completions
        } else if which == 1 {
            s.parallelism
        } else {
            s.backoff_limit
        },
        None => None,
    }
}

fn job_spec_count_exec(spec: &Option<JobSpec>, which: usize) -> (r: Option<i32>)
    ensures
        r == job_spec_count(*spec, which as nat),
{
    match spec {
        Some(s) => if which == 0 {
            s.completions
        } else if which == 1 {
            s.parallelism
        } else {
            s.backoff_limit
        },
        None => None,
    }
}

/// A count of a job's status: active, succeeded and failed pods.
pub open spec fn job_status_count(status: Option<JobStatus>, which: nat) -> Option<i32> {
    match status {
        Some(s) => if which == 0 {
            s.active
        } else if which == 1 {
            s.succeeded
        } else {
            s.failed
        },
        None => None,
    }
}

fn job_status_count_exec(status: &Option<JobStatus>, which: usize) -> (r: Option<i32>)
    ensures
        r == job_status_count(*status, which as nat),
{
    match status {
        Some(s) => if which == 0 {
            s.active
        } else if which == 1 {
            s.succeeded
        } else {
            s.failed
        },
        None => None,
    }
}

/// A time of a job's status: when it started (0) or completed (1).
pub open spec fn job_time(status: Option<JobStatus>, which: nat) -> Option<Time> {
    match status {
        Some(s) => if which == 0 {
            s.start_time
        } else {
            s.completion_time
        },
        None => None,
    }
}

fn job_time_exec(status: &Option<JobStatus>, which: usize) -> (r: Option<Time>)
    ensures
        r == job_time(*status, which as nat),
{
    match status {
        Some(s) => if which == 0 {
            s.start_time
        } else {
            s.completion_time
        },
        None => None,
    }
}

/// The conditions section of a job: a table of type, status and message
/// when the status lists conditions.
pub open spec fn job_conditions_text(status: Option<JobStatus>) -> Seq<Seq<char>> {
    section_lines("Conditions"@, true) + match status {
        Some(s) => match s.conditions {
            Some(cs) => seq![
                condition_row_text("Type"@, "Status"@, "Message"@),
                condition_row_text("────"@, "──────"@, "───────"@),
            ] + Seq::new(
                cs@.len(),
                |i: int| condition_row_text(cs@[i].type_@, cs@[i].status@, or_text(cs@[i].message, ""@)),
            ),
            None => Seq::empty(),
        },
        None => Seq::empty(),
    }
}

fn job_section_conditions(lines: &mut Vec<String>, status: &Option<JobStatus>)
    ensures
        final(lines).deep_view() == old(lines).deep_view() + job_conditions_text(*status),
{
    section(lines, "Conditions", true);
    if let Some(s) = status {
        if let Some(conds) = &s.conditions {
            push_line(lines, condition_row("Type", "Status", "Message"));
            push_line(lines, condition_row("────", "──────", "───────"));
            let ghost start = lines.deep_view();
            let n = conds.len();
            let mut i: usize = 0;
            while i < n
                invariant
                    n == conds@.len(),
                    i <= n,
                    lines.deep_view() == start + Seq::new(
                        i as nat,
                        |j: int| condition_row_text(conds@[j].type_@, conds@[j].status@, or_text(conds@[j].message, ""@)),
                    ),
                decreases n - i,
            {
                let row = condition_row(conds[i].type_.as_str(), conds[i].status.as_str(), or_str(&conds[i].message, ""));
                push_line(lines, row);
                proof {
                    assert(lines.deep_view() =~= start + Seq::new(
                        (i + 1) as nat,
                        |j: int| condition_row_text(conds@[j].type_@, conds@[j].status@, or_text(conds@[j].message, ""@)),
                    ));
                }
                i += 1;
            }
        }
    }
    proof {
        assert(lines.deep_view() =~= old(lines).deep_view() + job_conditions_text(*status));
    }
}

/// What the describe view of a job can show: a fetch error, or a job whose
/// creation, start and completion times RFC 2822 text can show.
pub open spec fn job_ok(fetched: Result<Job, String>) -> bool {
    match fetched {
        Ok(j) => meta_ok(j.metadata) && time_ok(job_time(j.status, 0)) && time_ok(job_time(j.status, 1)),
        Err(_) => true,
    }
}

/// The describe view of a job: the error when it could not be fetched;
/// otherwise its identity, spec counts, status counts and times,
/// conditions, a `kubectl` hint and the key help.
pub open spec fn describe_job_text(fetched: Result<Job, String>, name: Seq<char>, ns: Option<&str>) -> Seq<Seq<char>> {
    match fetched {
        Err(e) => seq![fetch_error_text("Job"@, name, e@)],
        Ok(j) => identity_lines(j.metadata) + section_lines("Spec"@, true) + seq![
            field_text("Completions"@, count_text(job_spec_count(j.spec, 0), 1)),
            field_text("Parallelism"@, count_text(job_spec_count(j.spec, 1), 1)),
            field_text("BackoffLimit"@, count_text(job_spec_count(j.spec, 2), 6)),
        ] + section_lines("Status"@, true) + seq![
            field_text("Active"@, count_text(job_status_count(j.status, 0), 0)),
            field_text("Succeeded"@, count_text(job_status_count(j.status, 1), 0)),
            field_text("Failed"@, count_text(job_status_count(j.status, 2), 0)),
            field_text("Start time"@, time_text(job_time(j.status, 0))),
            field_text("End time"@, time_text(job_time(j.status, 1))),
        ] + job_conditions_text(j.status) + section_lines("Hints"@, true) + seq![
            hint_text("  kubectl describe job/"@, name, ns, ""@),
        ] + bottom_lines(),
    }
}

/// The describe view of a job, from the result of fetching it.
pub fn describe_job(fetched: &Result<Job, String>, name: &str, ns: Option<&str>) -> (r: Vec<String>)
    requires
        job_ok(*fetched),
    ensures
        r.deep_view() == describe_job_text(*fetched, name@, ns),
{
    let j = match fetched {
        Ok(j) => j,
        Err(e) => {
            return fetch_error_lines("Job", name, e.as_str());
        },
    };
    let mut lines: Vec<String> = Vec::new();
    section_identity(&mut lines, &j.metadata);
    section(&mut lines, "Spec", true);
    field(&mut lines, "Completions", count_string(job_spec_count_exec(&j.spec, 0), 1).as_str());
    field(&mut lines, "Parallelism", count_string(job_spec_count_exec(&j.spec, 1), 1).as_str());
    field(&mut lines, "BackoffLimit", count_string(job_spec_count_exec(&j.spec, 2), 6).as_str());
    section(&mut lines, "Status", true);
    field(&mut lines, "Active", count_string(job_status_count_exec(&j.status, 0), 0).as_str());
    field(&mut lines, "Succeeded", count_string(job_status_count_exec(&j.status, 1), 0).as_str());
    field(&mut lines, "Failed", count_string(job_status_count_exec(&j.status, 2), 0).as_str());
    field(&mut lines, "Start time", time_string(job_time_exec(&j.status, 0)).as_str());
    field(&mut lines, "End time", time_string(job_time_exec(&j.status, 1)).as_str());
    job_section_conditions(&mut lines, &j.status);
    section(&mut lines, "Hints", true);
    push_line(&mut lines, hint_line("  kubectl describe job/", name, ns, ""));
    bottom_section(&mut lines);
    proof {
        assert(lines.deep_view() =~= describe_job_text(*fetched, name@, ns));
    }
    lines
}

} // verus!
