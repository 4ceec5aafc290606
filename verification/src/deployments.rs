//! The describe view of a deployment.

use crate::containers::{
    deployment_container_lines, deployment_container_text, deployment_volume_lines,
    tolerations_lines, tolerations_texts, volumes_text,
};
use crate::describe::{
    count_string, count_text, identity_lines, int_or_str, int_or_string_text, meta_ok,
    multiline_labels, multiline_lines, or_str, or_text, pairs_texts, section_identity,
};
use crate::model::{
    Container, Deployment, DeploymentSpec, DeploymentStatus, Pairs, PodSpec, PodTemplateSpec,
};
use crate::text::{
    bottom_lines, bottom_section, field, field_text, padded, push_line, section,
    section_lines, string_of, append_padded,
};
use vstd::prelude::*;
use vstd::string::*;

verus! {

broadcast use vstd::string::group_string_axioms;

/// The namespace that a hint names: the one given, or `default`.
pub open spec fn hint_ns_text(ns: Option<&str>) -> Seq<char> {
    match ns {
        Some(n) => n@,
        None => "default"@,
    }
}

/// The namespace that a hint names.
pub fn hint_ns<'a>(ns: Option<&'a str>) -> (r: &'a str)
    ensures
        r@ == hint_ns_text(ns),
{
    match ns {
        Some(n) => n,
        None => "default",
    }
}

/// The line that a view shows when the object could not be fetched.
pub open spec fn fetch_error_text(kind: Seq<char>, name: Seq<char>, err: Seq<char>) -> Seq<char> {
    "  Error fetching "@ + kind + " '"@ + name + "': "@ + err
}

/// The line that a view shows when the object could not be fetched.
pub fn fetch_error_lines(kind: &str, name: &str, err: &str) -> (r: Vec<String>)
    ensures
        r.deep_view() == seq![fetch_error_text(kind@, name@, err@)],
{
    let mut line = string_of("  Error fetching ");
    line.append(kind);
    line.append(" '");
    line.append(name);
    line.append("': ");
    line.append(err);
    let mut r: Vec<String> = Vec::new();
    push_line(&mut r, line);
    proof {
        assert(r.deep_view() =~= seq![fetch_error_text(kind@, name@, err@)]);
    }
    r
}

/// A line that starts with `prefix`, then the object's name, `-n` and the
/// namespace, then `suffix`: a `kubectl` command for the object.
pub open spec fn hint_text(prefix: Seq<char>, name: Seq<char>, ns: Option<&str>, suffix: Seq<char>) -> Seq<char> {
    prefix + name + " -n "@ + hint_ns_text(ns) + suffix
}

/// A `kubectl` command for the object.
pub fn hint_line(prefix: &str, name: &str, ns: Option<&str>, suffix: &str) -> (r: String)
    ensures
        r@ == hint_text(prefix@, name@, ns, suffix@),
{
    let mut r = string_of(prefix);
    r.append(name);
    r.append(" -n ");
    r.append(hint_ns(ns));
    r.append(suffix);
    r
}

/// A count of a deployment's status, or 0 when there is no status or no
/// count.
pub open spec fn status_count(status: Option<DeploymentStatus>, which: nat) -> i32 {
    match status {
        Some(s) => {
            let v = if which == 0 {
                s.updated_replicas
            } else if which == 1 {
                s.replicas
            } else if which == 2 {
                s.available_replicas
            } else {
                s.unavailable_replicas
            };
            match v {
                Some(n) => n,
                None => 0,
            }
        },
        None => 0,
    }
}

/// The replica counts of a deployment: desired (1 by default), updated,
/// total, available and unavailable (0 by default).
pub open spec fn replicas_text(spec: DeploymentSpec, status: Option<DeploymentStatus>) -> Seq<char> {
    count_text(spec.replicas, 1) + " desired | "@ + int_text_of(status_count(status, 0))
        + " updated | "@ + int_text_of(status_count(status, 1)) + " total | "@ + int_text_of(
        status_count(status, 2),
    ) + " available | "@ + int_text_of(status_count(status, 3)) + " unavailable"@
}

/// The decimal text of a count.
pub open spec fn int_text_of(n: i32) -> Seq<char> {
    crate::text::int_text(n as int)
}

fn status_count_exec(status: &Option<DeploymentStatus>, which: usize) -> (r: i32)
    requires
        which < 4,
    ensures
        r == status_count(*status, which as nat),
{
    match status {
        Some(s) => {
            let v = if which == 0 {
                s.updated_replicas
            } else if which == 1 {
                s.replicas
            } else if which == 2 {
                s.available_replicas
            } else {
                s.unavailable_replicas
            };
            match v {
                Some(n) => n,
                None => 0,
            }
        },
        None => 0,
    }
}

fn replicas_string(spec: &DeploymentSpec, status: &Option<DeploymentStatus>) -> (r: String)
    ensures
        r@ == replicas_text(*spec, *status),
{
    let mut r = count_string(spec.replicas, 1);
    r.append(" desired | ");
    r.append(count_string(Some(status_count_exec(status, 0)), 0).as_str());
    r.append(" updated | ");
    r.append(count_string(Some(status_count_exec(status, 1)), 0).as_str());
    r.append(" total | ");
    r.append(count_string(Some(status_count_exec(status, 2)), 0).as_str());
    r.append(" available | ");
    r.append(count_string(Some(status_count_exec(status, 3)), 0).as_str());
    r.append(" unavailable");
    r
}

/// The strategy lines of a deployment: its type, and for a rolling update
/// the most pods unavailable and above the desired count (25% each by
/// default).
pub open spec fn strategy_lines(spec: DeploymentSpec) -> Seq<Seq<char>> {
    match spec.strategy {
        Some(st) => seq![field_text("StrategyType"@, or_text(st.type_, "<none>"@))] + match st.rolling_update {
            Some(ru) => seq![
                field_text(
                    "RollingUpdateStrategy"@,
                    opt_int_or_string_text(ru.max_unavailable) + " max unavailable, "@
                        + opt_int_or_string_text(ru.max_surge) + " max surge"@,
                ),
            ],
            None => Seq::empty(),
        },
        None => Seq::empty(),
    }
}

/// A number or a name, or `25%` when there is none.
pub open spec fn opt_int_or_string_text(v: Option<crate::model::IntOrString>) -> Seq<char> {
    match v {
        Some(x) => int_or_string_text(x),
        None => "25%"@,
    }
}

fn opt_int_or_string(v: &Option<crate::model::IntOrString>) -> (r: String)
    ensures
        r@ == opt_int_or_string_text(*v),
{
    match v {
        Some(x) => int_or_str(x),
        None => string_of("25%"),
    }
}

/// The spec section of a deployment: selector, replicas, strategy and
/// minimum ready seconds.
pub open spec fn deployment_spec_text(spec: DeploymentSpec, status: Option<DeploymentStatus>) -> Seq<Seq<char>> {
    section_lines("Spec"@, true) + multiline_lines("Selector"@, pairs_texts(spec.selector_match_labels))
        + seq![field_text("Replicas"@, replicas_text(spec, status))] + strategy_lines(spec)
        + seq![field_text("MinReadySeconds"@, count_text(spec.min_ready_seconds, 0))]
}

/// Appends the spec section of a deployment.
pub fn deployment_section_spec(
    lines: &mut Vec<String>,
    spec: &DeploymentSpec,
    status: &Option<DeploymentStatus>,
)
    ensures
        final(lines).deep_view() == old(lines).deep_view() + deployment_spec_text(*spec, *status),
{
    section(lines, "Spec", true);
    multiline_labels(lines, "Selector", &spec.selector_match_labels);
    let replicas = replicas_string(spec, status);
    field(lines, "Replicas", replicas.as_str());
    let ghost before_strategy = lines.deep_view();
    if let Some(strategy) = &spec.strategy {
        field(lines, "StrategyType", or_str(&strategy.type_, "<none>"));
        if let Some(ru) = &strategy.rolling_update {
            let mut t = opt_int_or_string(&ru.max_unavailable);
            t.append(" max unavailable, ");
            t.append(opt_int_or_string(&ru.max_surge).as_str());
            t.append(" max surge");
            field(lines, "RollingUpdateStrategy", t.as_str());
        }
    }
    proof {
        assert(lines.deep_view() =~= before_strategy + strategy_lines(*spec));
    }
    let min_ready = count_string(spec.min_ready_seconds, 0);
    field(lines, "MinReadySeconds", min_ready.as_str());
    proof {
        assert(lines.deep_view() =~= old(lines).deep_view() + deployment_spec_text(*spec, *status));
    }
}

/// The labels of a pod template, none when it has no metadata.
pub open spec fn template_labels(t: PodTemplateSpec) -> Option<Pairs> {
    match t.metadata {
        Some(m) => m.labels,
        None => None,
    }
}

/// Appends the labels of a pod template under one label.
pub fn template_labels_lines(lines: &mut Vec<String>, label: &str, t: &PodTemplateSpec)
    ensures
        final(lines).deep_view() == old(lines).deep_view() + multiline_lines(
            label@,
            pairs_texts(template_labels(*t)),
        ),
{
    match &t.metadata {
        Some(m) => multiline_labels(lines, label, &m.labels),
        None => {
            let none: Option<Pairs> = None;
            multiline_labels(lines, label, &none);
        },
    }
}

/// Containers as the deployment view shows them, one after the other.
pub open spec fn deployment_containers_text(cs: Seq<Container>) -> Seq<Seq<char>>
    decreases cs.len(),
{
    if cs.len() == 0 {
        Seq::empty()
    } else {
        deployment_containers_text(cs.drop_last()) + deployment_container_text(cs.last())
    }
}

fn deployment_containers_lines(lines: &mut Vec<String>, cs: &Vec<Container>)
    ensures
        final(lines).deep_view() == old(lines).deep_view() + deployment_containers_text(cs@),
{
    let n = cs.len();
    let mut i: usize = 0;
    proof {
        assert(cs@.take(0) =~= Seq::<Container>::empty());
        assert(lines.deep_view() =~= old(lines).deep_view() + deployment_containers_text(cs@.take(0)));
    }
    while i < n
        invariant
            n == cs@.len(),
            i <= n,
            lines.deep_view() == old(lines).deep_view() + deployment_containers_text(cs@.take(i as int)),
        decreases n - i,
    {
        deployment_container_lines(lines, &cs[i]);
        proof {
            assert(cs@.take(i + 1).drop_last() =~= cs@.take(i as int));
            assert(lines.deep_view() =~= old(lines).deep_view() + deployment_containers_text(cs@.take(i + 1)));
        }
        i += 1;
    }
    proof {
        assert(cs@.take(n as int) =~= cs@);
    }
}

/// The part of a pod template section that its pod spec gives: the service
/// account, the containers, the volumes, the node selector and the
/// tolerations.
pub open spec fn pod_spec_text(ps: PodSpec) -> Seq<Seq<char>> {
    seq![field_text("  ServiceAccount"@, or_text(ps.service_account_name, "<none>"@))]
        + deployment_containers_text(ps.containers@) + match ps.volumes {
        Some(vols) => seq!["  Volumes:"@] + volumes_text(vols@),
        None => Seq::empty(),
    } + multiline_lines("  Node-Selectors"@, pairs_texts(ps.node_selector)) + multiline_lines(
        "  Tolerations"@,
        tolerations_texts(ps.tolerations),
    )
}

/// The pod template section of a deployment: the template's labels, and
/// when it has a pod spec, its service account, containers, volumes, node
/// selector and tolerations.
pub open spec fn deployment_pod_template_text(spec: DeploymentSpec) -> Seq<Seq<char>> {
    section_lines("Pod Template"@, true) + multiline_lines(
        "  Labels"@,
        pairs_texts(template_labels(spec.template)),
    ) + match spec.template.spec {
        Some(ps) => pod_spec_text(ps),
        None => Seq::empty(),
    }
}

fn pod_spec_lines(lines: &mut Vec<String>, ps: &PodSpec)
    ensures
        final(lines).deep_view() == old(lines).deep_view() + pod_spec_text(*ps),
{
    field(lines, "  ServiceAccount", or_str(&ps.service_account_name, "<none>"));
    deployment_containers_lines(lines, &ps.containers);
    let ghost after_containers = lines.deep_view();
    if let Some(vols) = &ps.volumes {
        deployment_volume_lines(lines, vols);
    }
    let ghost after_volumes = lines.deep_view();
    proof {
        assert(after_volumes =~= after_containers + match ps.volumes {
            Some(vols) => seq!["  Volumes:"@] + volumes_text(vols@),
            None => Seq::empty(),
        });
    }
    multiline_labels(lines, "  Node-Selectors", &ps.node_selector);
    tolerations_lines(lines, "  Tolerations", &ps.tolerations);
    proof {
        assert(lines.deep_view() =~= old(lines).deep_view() + pod_spec_text(*ps));
    }
}

/// Appends the pod template section of a deployment.
pub fn deployment_section_pod_template(lines: &mut Vec<String>, spec: &DeploymentSpec)
    ensures
        final(lines).deep_view() == old(lines).deep_view() + deployment_pod_template_text(*spec),
{
    section(lines, "Pod Template", true);
    template_labels_lines(lines, "  Labels", &spec.template);
    let ghost after_labels = lines.deep_view();
    match &spec.template.spec {
        Some(ps) => pod_spec_lines(lines, ps),
        None => {},
    }
    proof {
        assert(lines.deep_view() =~= after_labels + match spec.template.spec {
            Some(ps) => pod_spec_text(ps),
            None => Seq::empty(),
        });
        assert(lines.deep_view() =~= old(lines).deep_view() + deployment_pod_template_text(*spec));
    }
}

/// A row of a condition table: type, status and the third column, padded
/// to 20 and 8 characters.
pub open spec fn condition_row_text(a: Seq<char>, b: Seq<char>, c: Seq<char>) -> Seq<char> {
    "  "@ + padded(a, 20) + "  "@ + padded(b, 8) + "  "@ + c
}

/// A row of a condition table.
pub fn condition_row(a: &str, b: &str, c: &str) -> (r: String)
    ensures
        r@ == condition_row_text(a@, b@, c@),
{
    let mut r = string_of("  ");
    append_padded(&mut r, a, 20);
    r.append("  ");
    append_padded(&mut r, b, 8);
    r.append("  ");
    r.append(c);
    r
}

/// The conditions section of a deployment: a table of type, status and
/// reason when the status lists conditions, nothing below the heading
/// otherwise.
pub open spec fn deployment_conditions_text(status: Option<DeploymentStatus>) -> Seq<Seq<char>> {
    section_lines("Conditions"@, true) + match status {
        Some(s) => match s.conditions {
            Some(cs) => seq![
                condition_row_text("Type"@, "Status"@, "Reason"@),
                condition_row_text("────"@, "──────"@, "──────"@),
            ] + Seq::new(
                cs@.len(),
                |i: int| condition_row_text(cs@[i].type_@, cs@[i].status@, or_text(cs@[i].reason, ""@)),
            ),
            None => Seq::empty(),
        },
        None => Seq::empty(),
    }
}

/// Appends the conditions section of a deployment.
pub fn deployment_section_conditions(lines: &mut Vec<String>, status: &Option<DeploymentStatus>)
    ensures
        final(lines).deep_view() == old(lines).deep_view() + deployment_conditions_text(*status),
{
    section(lines, "Conditions", true);
    let conds = match status {
        Some(s) => match &s.conditions {
            Some(c) => c,
            None => {
                proof {
                    assert(lines.deep_view() =~= old(lines).deep_view() + deployment_conditions_text(*status));
                }
                return;
            },
        },
        None => {
            proof {
                assert(lines.deep_view() =~= old(lines).deep_view() + deployment_conditions_text(*status));
            }
            return;
        },
    };
    push_line(lines, condition_row("Type", "Status", "Reason"));
    push_line(lines, condition_row("────", "──────", "──────"));
    let ghost start = lines.deep_view();
    let n = conds.len();
    let mut i: usize = 0;
    while i < n
        invariant
            n == conds@.len(),
            i <= n,
            lines.deep_view() == start + Seq::new(
                i as nat,
                |j: int| condition_row_text(conds@[j].type_@, conds@[j].status@, or_text(conds@[j].reason, ""@)),
            ),
        decreases n - i,
    {
        let row = condition_row(conds[i].type_.as_str(), conds[i].status.as_str(), or_str(&conds[i].reason, ""));
        push_line(lines, row);
        proof {
            assert(lines.deep_view() =~= start + Seq::new(
                (i + 1) as nat,
                |j: int| condition_row_text(conds@[j].type_@, conds@[j].status@, or_text(conds@[j].reason, ""@)),
            ));
        }
        i += 1;
    }
    proof {
        assert(lines.deep_view() =~= old(lines).deep_view() + deployment_conditions_text(*status));
    }
}

/// What the describe view of a deployment can show: a fetch error, or a
/// deployment whose creation time RFC 2822 text can show.
pub open spec fn deployment_ok(fetched: Result<Deployment, String>) -> bool {
    match fetched {
        Ok(d) => meta_ok(d.metadata),
        Err(_) => true,
    }
}

/// The describe view of a deployment: the error when it could not be
/// fetched; otherwise its identity, spec and pod template (when it has a
/// spec), conditions, two `kubectl` hints and the key help.
pub open spec fn describe_deployment_text(
    fetched: Result<Deployment, String>,
    name: Seq<char>,
    ns: Option<&str>,
) -> Seq<Seq<char>> {
    match fetched {
        Err(e) => seq![fetch_error_text("Deployment"@, name, e@)],
        Ok(d) => identity_lines(d.metadata) + match d.spec {
            Some(spec) => deployment_spec_text(spec, d.status) + deployment_pod_template_text(spec),
            None => Seq::empty(),
        } + deployment_conditions_text(d.status) + section_lines("Hints"@, true) + seq![
            hint_text("  kubectl describe deployment/"@, name, ns, ""@),
            hint_text("  kubectl get deployment/"@, name, ns, " -o yaml"@),
        ] + bottom_lines(),
    }
}

/// The describe view of a deployment, from the result of fetching it.
pub fn describe_deployment(fetched: &Result<Deployment, String>, name: &str, ns: Option<&str>) -> (r: Vec<String>)
    requires
        deployment_ok(*fetched),
    ensures
        r.deep_view() == describe_deployment_text(*fetched, name@, ns),
{
    let d = match fetched {
        Ok(d) => d,
        Err(e) => {
            return fetch_error_lines("Deployment", name, e.as_str());
        },
    };
    let mut lines: Vec<String> = Vec::new();
    section_identity(&mut lines, &d.metadata);
    let ghost after_identity = lines.deep_view();
    if let Some(spec) = &d.spec {
        deployment_section_spec(&mut lines, spec, &d.status);
        deployment_section_pod_template(&mut lines, spec);
    }
    proof {
        assert(lines.deep_view() =~= after_identity + match d.spec {
            Some(spec) => deployment_spec_text(spec, d.status) + deployment_pod_template_text(spec),
            None => Seq::empty(),
        });
    }
    deployment_section_conditions(&mut lines, &d.status);
    section(&mut lines, "Hints", true);
    push_line(&mut lines, hint_line("  kubectl describe deployment/", name, ns, ""));
    push_line(&mut lines, hint_line("  kubectl get deployment/", name, ns, " -o yaml"));
    bottom_section(&mut lines);
    proof {
        assert(lines.deep_view() =~= describe_deployment_text(*fetched, name@, ns));
    }
    lines
}

} // verus!
