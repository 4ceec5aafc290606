//! The text of containers, their probes and environment, and of the volumes
//! and tolerations of a pod.

use crate::describe::{
    count_string, count_text, int_or_str, int_or_string_text, multiline_lines, opt_str,
    opt_text, or_str, or_text, push_multiline,
};
use crate::model::{
    Container, ContainerPort, EnvVar, IntOrString, Pairs, Probe, Toleration, Volume,
    VolumeMount,
};
use crate::text::{
    debug_string, debug_text, field, field_text, int_string, int_text, join, join_text,
    lowercase, lowercase_text, push_line, string_of,
};
use vstd::prelude::*;
use vstd::string::*;

verus! {

broadcast use vstd::string::group_string_axioms;

/// A port of a container, with its name when it has one.
pub open spec fn named_port_text(p: ContainerPort) -> Seq<char> {
    let base = int_text(p.container_port as int) + "/"@ + or_text(p.protocol, "TCP"@);
    match p.name {
        Some(n) => base + " ("@ + n@ + ")"@,
        None => base,
    }
}

/// The ports of a container, joined with commas, or `<none>`.
pub open spec fn container_ports_text(c: Container) -> Seq<char> {
    match c.ports {
        Some(ps) => join_text(Seq::new(ps@.len(), |i: int| named_port_text(ps@[i])), ", "@),
        None => "<none>"@,
    }
}

fn named_port_string(p: &ContainerPort) -> (r: String)
    ensures
        r@ == named_port_text(*p),
{
    let mut r = int_string(p.container_port as i64);
    r.append("/");
    r.append(or_str(&p.protocol, "TCP"));
    match &p.name {
        Some(n) => {
            r.append(" (");
            r.append(n.as_str());
            r.append(")");
        },
        None => {},
    }
    r
}

/// The ports of a container, joined with commas, or `<none>`.
pub fn format_container_ports(c: &Container) -> (r: String)
    ensures
        r@ == container_ports_text(*c),
{
    match &c.ports {
        Some(ps) => {
            let mut texts: Vec<String> = Vec::new();
            let n = ps.len();
            let mut i: usize = 0;
            while i < n
                invariant
                    n == ps@.len(),
                    i <= n,
                    texts.deep_view() == Seq::new(i as nat, |j: int| named_port_text(ps@[j])),
                decreases n - i,
            {
                let t = named_port_string(&ps[i]);
                push_line(&mut texts, t);
                proof {
                    assert(texts.deep_view() =~= Seq::new(
                        (i + 1) as nat,
                        |j: int| named_port_text(ps@[j]),
                    ));
                }
                i += 1;
            }
            join(&texts, ", ")
        },
        None => string_of("<none>"),
    }
}

/// A port of a container as the pod view shows it, without its name.
pub open spec fn bare_port_text(p: ContainerPort) -> Seq<char> {
    int_text(p.container_port as int) + "/"@ + or_text(p.protocol, "TCP"@)
}

/// The ports of a container as the pod view shows them, or `<none>`.
pub open spec fn pod_container_ports_text(c: Container) -> Seq<char> {
    match c.ports {
        Some(ps) => join_text(Seq::new(ps@.len(), |i: int| bare_port_text(ps@[i])), ", "@),
        None => "<none>"@,
    }
}

/// The ports of a container as the pod view shows them, or `<none>`.
pub fn format_pod_container_ports(c: &Container) -> (r: String)
    ensures
        r@ == pod_container_ports_text(*c),
{
    match &c.ports {
        Some(ps) => {
            let mut texts: Vec<String> = Vec::new();
            let n = ps.len();
            let mut i: usize = 0;
            while i < n
                invariant
                    n == ps@.len(),
                    i <= n,
                    texts.deep_view() == Seq::new(i as nat, |j: int| bare_port_text(ps@[j])),
                decreases n - i,
            {
                let mut t = int_string(ps[i].container_port as i64);
                t.append("/");
                t.append(or_str(&ps[i].protocol, "TCP"));
                push_line(&mut texts, t);
                proof {
                    assert(texts.deep_view() =~= Seq::new(
                        (i + 1) as nat,
                        |j: int| bare_port_text(ps@[j]),
                    ));
                }
                i += 1;
            }
            join(&texts, ", ")
        },
        None => string_of("<none>"),
    }
}

/// Entries of a map as `key<sep>value`.
pub open spec fn map_entry_texts(m: Seq<(String, String)>, sep: Seq<char>) -> Seq<Seq<char>> {
    Seq::new(m.len(), |i: int| m[i].0@ + sep + m[i].1@)
}

fn map_entries(m: &Pairs, sep: &str) -> (r: Vec<String>)
    ensures
        r.deep_view() == map_entry_texts(m@, sep@),
{
    let mut texts: Vec<String> = Vec::new();
    let m = m.entries();
    let n = m.len();
    let mut i: usize = 0;
    while i < n
        invariant
            n == m@.len(),
            i <= n,
            texts.deep_view() == map_entry_texts(m@.take(i as int), sep@),
        decreases n - i,
    {
        let mut t = m[i].0.clone();
        t.append(sep);
        t.append(m[i].1.as_str());
        push_line(&mut texts, t);
        proof {
            assert(texts.deep_view() =~= map_entry_texts(m@.take(i + 1), sep@));
        }
        i += 1;
    }
    proof {
        assert(m@.take(n as int) =~= m@);
    }
    texts
}

/// The limits of a container as `name=quantity` joined with commas, or
/// `<none>`.
pub open spec fn pod_container_limits_text(c: Container) -> Seq<char> {
    match c.resources {
        Some(r) => match r.limits {
            Some(l) => join_text(map_entry_texts(l@, "="@), ", "@),
            None => "<none>"@,
        },
        None => "<none>"@,
    }
}

/// The limits of a container as the pod view shows them.
pub fn format_pod_container_limits(c: &Container) -> (r: String)
    ensures
        r@ == pod_container_limits_text(*c),
{
    match &c.resources {
        Some(res) => match &res.limits {
            Some(l) => {
                let texts = map_entries(l, "=");
                join(&texts, ", ")
            },
            None => string_of("<none>"),
        },
        None => string_of("<none>"),
    }
}

/// Resource quantities as `name: quantity`, two spaces apart.
pub open spec fn resource_map_text(m: Seq<(String, String)>) -> Seq<char> {
    join_text(map_entry_texts(m, ": "@), "  "@)
}

/// Resource quantities as `name: quantity`, two spaces apart.
pub fn format_resource_map(m: &Pairs) -> (r: String)
    ensures
        r@ == resource_map_text(m@),
{
    let texts = map_entries(m, ": ");
    join(&texts, "  ")
}

/// The arguments of a container, none when it has none.
pub open spec fn args_texts(args: Option<Vec<String>>) -> Seq<Seq<char>> {
    match args {
        Some(a) => a.deep_view(),
        None => Seq::empty(),
    }
}

/// The arguments of a container.
pub fn container_args(c: &Container) -> (r: Vec<String>)
    ensures
        r.deep_view() == args_texts(c.args),
{
    let mut out: Vec<String> = Vec::new();
    match &c.args {
        Some(a) => {
            let n = a.len();
            let mut i: usize = 0;
            while i < n
                invariant
                    n == a@.len(),
                    i <= n,
                    out.deep_view() == a.deep_view().take(i as int),
                decreases n - i,
            {
                push_line(&mut out, a[i].clone());
                proof {
                    assert(out.deep_view() =~= a.deep_view().take(i + 1));
                }
                i += 1;
            }
            proof {
                assert(a.deep_view().take(n as int) =~= a.deep_view());
            }
        },
        None => {
            proof {
                assert(out.deep_view() =~= Seq::<Seq<char>>::empty());
            }
        },
    }
    out
}

/// Where the value of an environment variable comes from, as text: the
/// value itself, the path of a field reference in brackets, the secret or
/// config map key it is read from, or `<none>`.
pub open spec fn env_value_text(ev: EnvVar) -> Seq<char> {
    match ev.value {
        Some(v) => v@,
        None => match ev.value_from {
            Some(vf) => match vf.field_ref {
                Some(path) => "("@ + path@ + ")"@,
                None => match vf.secret_key_ref {
                    Some(sr) => "secret:"@ + or_text(sr.name, "?"@) + "/"@ + sr.key@,
                    None => match vf.config_map_key_ref {
                        Some(cr) => "configmap:"@ + or_text(cr.name, "?"@) + "/"@ + cr.key@,
                        None => "<none>"@,
                    },
                },
            },
            None => "<none>"@,
        },
    }
}

/// Where the value of an environment variable comes from, as text.
pub fn env_var_value(ev: &EnvVar) -> (r: String)
    ensures
        r@ == env_value_text(*ev),
{
    if let Some(v) = &ev.value {
        return v.clone();
    }
    if let Some(vf) = &ev.value_from {
        if let Some(path) = &vf.field_ref {
            let mut r = string_of("(");
            r.append(path.as_str());
            r.append(")");
            return r;
        }
        if let Some(sr) = &vf.secret_key_ref {
            let mut r = string_of("secret:");
            r.append(or_str(&sr.name, "?"));
            r.append("/");
            r.append(sr.key.as_str());
            return r;
        }
        if let Some(cr) = &vf.config_map_key_ref {
            let mut r = string_of("configmap:");
            r.append(or_str(&cr.name, "?"));
            r.append("/");
            r.append(cr.key.as_str());
            return r;
        }
    }
    string_of("<none>")
}

/// An environment variable as `name: value`.
pub open spec fn env_entry_text(ev: EnvVar) -> Seq<char> {
    ev.name@ + ": "@ + env_value_text(ev)
}

/// The environment of a container, none when it has none.
pub open spec fn env_texts(env: Option<Vec<EnvVar>>) -> Seq<Seq<char>> {
    match env {
        Some(e) => Seq::new(e@.len(), |i: int| env_entry_text(e@[i])),
        None => Seq::empty(),
    }
}

/// The environment of a container as `name: value` entries.
pub fn container_env_entries(c: &Container) -> (r: Vec<String>)
    ensures
        r.deep_view() == env_texts(c.env),
{
    let mut out: Vec<String> = Vec::new();
    match &c.env {
        Some(e) => {
            let n = e.len();
            let mut i: usize = 0;
            while i < n
                invariant
                    n == e@.len(),
                    i <= n,
                    out.deep_view() == Seq::new(i as nat, |j: int| env_entry_text(e@[j])),
                decreases n - i,
            {
                let mut t = e[i].name.clone();
                t.append(": ");
                let v = env_var_value(&e[i]);
                t.append(v.as_str());
                push_line(&mut out, t);
                proof {
                    assert(out.deep_view() =~= Seq::new(
                        (i + 1) as nat,
                        |j: int| env_entry_text(e@[j]),
                    ));
                }
                i += 1;
            }
        },
        None => {
            proof {
                assert(out.deep_view() =~= Seq::<Seq<char>>::empty());
            }
        },
    }
    out
}

/// A mount of a container: its path, and ` (ro)` when it is read only.
pub open spec fn mount_text(m: VolumeMount) -> Seq<char> {
    let ro = match m.read_only {
        Some(b) => b,
        None => false,
    };
    if ro {
        m.mount_path@ + " (ro)"@
    } else {
        m.mount_path@ + ""@
    }
}

/// The mounts of a container joined with commas, or `<none>` when it has
/// none.
pub open spec fn mounts_text(c: Container) -> Seq<char> {
    let ms = match c.volume_mounts {
        Some(v) => v@,
        None => Seq::empty(),
    };
    if ms.len() == 0 {
        "<none>"@
    } else {
        join_text(Seq::new(ms.len(), |i: int| mount_text(ms[i])), ", "@)
    }
}

/// The mounts of a container joined with commas, or `<none>`.
pub fn container_mounts(c: &Container) -> (r: String)
    ensures
        r@ == mounts_text(*c),
{
    let mut texts: Vec<String> = Vec::new();
    let ghost ms = match &c.volume_mounts {
        Some(v) => v@,
        None => Seq::empty(),
    };
    if let Some(v) = &c.volume_mounts {
        let n = v.len();
        let mut i: usize = 0;
        while i < n
            invariant
                n == v@.len(),
                ms == v@,
                i <= n,
                texts.deep_view() == Seq::new(i as nat, |j: int| mount_text(v@[j])),
            decreases n - i,
        {
            let mut t = v[i].mount_path.clone();
            let ro = match v[i].read_only {
                Some(b) => b,
                None => false,
            };
            t.append(if ro {
                " (ro)"
            } else {
                ""
            });
            push_line(&mut texts, t);
            proof {
                assert(texts.deep_view() =~= Seq::new((i + 1) as nat, |j: int| mount_text(v@[j])));
            }
            i += 1;
        }
    }
    proof {
        assert(texts.deep_view() =~= Seq::new(ms.len(), |i: int| mount_text(ms[i])));
    }
    if texts.len() == 0 {
        string_of("<none>")
    } else {
        join(&texts, ", ")
    }
}

/// The `Debug` text of a number or a name: `Int(n)` or `String("name")`.
pub open spec fn int_or_string_debug_text(v: IntOrString) -> Seq<char> {
    match v {
        IntOrString::Int(n) => "Int("@ + int_text(n as int) + ")"@,
        IntOrString::String(s) => "String("@ + debug_text(s@) + ")"@,
    }
}

fn int_or_string_debug(v: &IntOrString) -> (r: String)
    ensures
        r@ == int_or_string_debug_text(*v),
{
    match v {
        IntOrString::Int(n) => {
            let mut r = string_of("Int(");
            let t = int_string(*n as i64);
            r.append(t.as_str());
            r.append(")");
            r
        },
        IntOrString::String(s) => {
            let mut r = string_of("String(");
            let t = debug_string(s.as_str());
            r.append(t.as_str());
            r.append(")");
            r
        },
    }
}

/// What a probe does: an HTTP request, a command, a TCP connection, or
/// `unknown`.
pub open spec fn probe_action_text(p: Probe) -> Seq<char> {
    match p.http_get {
        Some(h) => "http-get "@ + lowercase_text(or_text(h.scheme, "HTTP"@)) + ":"@
            + int_or_string_text(h.port) + or_text(h.path, "/"@),
        None => match p.exec_action {
            Some(e) => "exec "@ + match e.command {
                Some(c) => join_text(c.deep_view(), " "@),
                None => Seq::empty(),
            },
            None => match p.tcp_socket {
                Some(t) => "tcp-socket :"@ + int_or_string_debug_text(t.port),
                None => "unknown"@,
            },
        },
    }
}

/// A probe: what it does, then its delay, timeout and period in seconds
/// and its success and failure thresholds, with the API's defaults (0, 1,
/// 10, 1 and 3) for the missing ones.
pub open spec fn probe_text(p: Probe) -> Seq<char> {
    probe_action_text(p) + " delay="@ + count_text(p.initial_delay_seconds, 0) + "s timeout="@
        + count_text(p.timeout_seconds, 1) + "s period="@ + count_text(p.period_seconds, 10)
        + "s #success="@ + count_text(p.success_threshold, 1) + " #failure="@ + count_text(
        p.failure_threshold,
        3,
    )
}

fn probe_action(p: &Probe) -> (r: String)
    ensures
        r@ == probe_action_text(*p),
{
    if let Some(h) = &p.http_get {
        let port = int_or_str(&h.port);
        let mut r = string_of("http-get ");
        let scheme = lowercase(or_str(&h.scheme, "HTTP"));
        r.append(scheme.as_str());
        r.append(":");
        r.append(port.as_str());
        r.append(or_str(&h.path, "/"));
        r
    } else if let Some(e) = &p.exec_action {
        let mut r = string_of("exec ");
        match &e.command {
            Some(c) => {
                let j = join(c, " ");
                r.append(j.as_str());
            },
            None => {
                proof {
                    assert(r@ =~= r@ + Seq::<char>::empty());
                }
            },
        }
        r
    } else if let Some(t) = &p.tcp_socket {
        let mut r = string_of("tcp-socket :");
        let d = int_or_string_debug(&t.port);
        r.append(d.as_str());
        r
    } else {
        string_of("unknown")
    }
}

/// A probe as text.
pub fn probe_str(p: &Probe) -> (r: String)
    ensures
        r@ == probe_text(*p),
{
    let mut r = probe_action(p);
    r.append(" delay=");
    r.append(count_string(p.initial_delay_seconds, 0).as_str());
    r.append("s timeout=");
    r.append(count_string(p.timeout_seconds, 1).as_str());
    r.append("s period=");
    r.append(count_string(p.period_seconds, 10).as_str());
    r.append("s #success=");
    r.append(count_string(p.success_threshold, 1).as_str());
    r.append(" #failure=");
    r.append(count_string(p.failure_threshold, 3).as_str());
    r
}

/// A toleration: `key=value: effect` when it has a value, otherwise
/// `key:effect (operator)`, with `*` for a missing key and `Equal` for a
/// missing operator.
pub open spec fn toleration_text(t: Toleration) -> Seq<char> {
    let key = or_text(t.key, "*"@);
    let op = or_text(t.operator, "Equal"@);
    let effect = or_text(t.effect, ""@);
    match t.value {
        Some(v) => key + "="@ + v@ + ": "@ + effect,
        None => key + ":"@ + effect + " ("@ + op + ")"@,
    }
}

/// A toleration as text.
pub fn toleration_str(t: &Toleration) -> (r: String)
    ensures
        r@ == toleration_text(*t),
{
    let key = or_str(&t.key, "*");
    let op = or_str(&t.operator, "Equal");
    let effect = or_str(&t.effect, "");
    let mut r = string_of(key);
    match &t.value {
        Some(v) => {
            r.append("=");
            r.append(v.as_str());
            r.append(": ");
            r.append(effect);
        },
        None => {
            r.append(":");
            r.append(effect);
            r.append(" (");
            r.append(op);
            r.append(")");
        },
    }
    r
}

/// The tolerations of a pod, none when it has none.
pub open spec fn tolerations_texts(ts: Option<Vec<Toleration>>) -> Seq<Seq<char>> {
    match ts {
        Some(v) => Seq::new(v@.len(), |i: int| toleration_text(v@[i])),
        None => Seq::empty(),
    }
}

/// Appends the tolerations of a pod under one label, `<none>` when it has
/// none.
pub fn tolerations_lines(lines: &mut Vec<String>, label: &str, ts: &Option<Vec<Toleration>>)
    ensures
        final(lines).deep_view() == old(lines).deep_view() + multiline_lines(
            label@,
            tolerations_texts(*ts),
        ),
{
    let mut texts: Vec<String> = Vec::new();
    if let Some(v) = ts {
        let n = v.len();
        let mut i: usize = 0;
        while i < n
            invariant
                n == v@.len(),
                i <= n,
                texts.deep_view() == Seq::new(i as nat, |j: int| toleration_text(v@[j])),
            decreases n - i,
        {
            let t = toleration_str(&v[i]);
            push_line(&mut texts, t);
            proof {
                assert(texts.deep_view() =~= Seq::new(
                    (i + 1) as nat,
                    |j: int| toleration_text(v@[j]),
                ));
            }
            i += 1;
        }
    }
    proof {
        assert(texts.deep_view() =~= tolerations_texts(*ts));
    }
    push_multiline(lines, label, &texts);
}

/// A line of the view when `o` is present, none otherwise.
pub open spec fn optional_line(present: bool, line: Seq<char>) -> Seq<Seq<char>> {
    if present {
        seq![line]
    } else {
        Seq::empty()
    }
}

/// The requests of a container, when it has them.
pub open spec fn requests_lines(c: Container) -> Seq<Seq<char>> {
    match c.resources {
        Some(r) => match r.requests {
            Some(m) => seq![field_text("    Requests"@, resource_map_text(m@))],
            None => Seq::empty(),
        },
        None => Seq::empty(),
    }
}

/// The limits of a container, when it has them.
pub open spec fn limits_lines(c: Container) -> Seq<Seq<char>> {
    match c.resources {
        Some(r) => match r.limits {
            Some(m) => seq![field_text("    Limits"@, resource_map_text(m@))],
            None => Seq::empty(),
        },
        None => Seq::empty(),
    }
}

/// A probe of a container under a label, when it has one.
pub open spec fn probe_lines(label: Seq<char>, p: Option<Probe>) -> Seq<Seq<char>> {
    match p {
        Some(pr) => seq![field_text(label, probe_text(pr))],
        None => Seq::empty(),
    }
}

/// The first lines of a container as the deployment view shows it: name,
/// image, ports, arguments and environment.
pub open spec fn container_head_text(c: Container) -> Seq<Seq<char>> {
    seq![
        "  Container: "@ + c.name@,
        field_text("    Image"@, opt_text(c.image)),
        field_text("    Ports"@, container_ports_text(c)),
    ] + multiline_lines("    Args"@, args_texts(c.args)) + multiline_lines(
        "    Env"@,
        env_texts(c.env),
    )
}

/// A container as the deployment view shows it: name, image, ports,
/// arguments, environment, requests, limits, probes and mounts.
pub open spec fn deployment_container_text(c: Container) -> Seq<Seq<char>> {
    container_head_text(c) + (requests_lines(c) + limits_lines(c)) + (probe_lines(
        "    Liveness"@,
        c.liveness_probe,
    ) + probe_lines("    Readiness"@, c.readiness_probe)) + seq![
        field_text("    Mounts"@, mounts_text(c)),
    ]
}

fn container_head_lines(lines: &mut Vec<String>, c: &Container)
    ensures
        final(lines).deep_view() == old(lines).deep_view() + container_head_text(*c),
{
    let mut head = string_of("  Container: ");
    head.append(c.name.as_str());
    push_line(lines, head);
    field(lines, "    Image", opt_str(&c.image));
    let ports = format_container_ports(c);
    field(lines, "    Ports", ports.as_str());
    let args = container_args(c);
    push_multiline(lines, "    Args", &args);
    let env = container_env_entries(c);
    push_multiline(lines, "    Env", &env);
    proof {
        assert(lines.deep_view() =~= old(lines).deep_view() + container_head_text(*c));
    }
}

fn container_resource_lines(lines: &mut Vec<String>, c: &Container)
    ensures
        final(lines).deep_view() == old(lines).deep_view() + (requests_lines(*c) + limits_lines(
            *c,
        )),
{
    if let Some(r) = &c.resources {
        if let Some(m) = &r.requests {
            let t = format_resource_map(m);
            field(lines, "    Requests", t.as_str());
        }
    }
    let ghost after_requests = lines.deep_view();
    proof {
        assert(after_requests =~= old(lines).deep_view() + requests_lines(*c));
    }
    if let Some(r) = &c.resources {
        if let Some(m) = &r.limits {
            let t = format_resource_map(m);
            field(lines, "    Limits", t.as_str());
        }
    }
    proof {
        assert(lines.deep_view() =~= after_requests + limits_lines(*c));
        assert(lines.deep_view() =~= old(lines).deep_view() + (requests_lines(*c) + limits_lines(
            *c,
        )));
    }
}

fn container_probe_lines(lines: &mut Vec<String>, c: &Container)
    ensures
        final(lines).deep_view() == old(lines).deep_view() + (probe_lines(
            "    Liveness"@,
            c.liveness_probe,
        ) + probe_lines("    Readiness"@, c.readiness_probe)),
{
    if let Some(p) = &c.liveness_probe {
        let t = probe_str(p);
        field(lines, "    Liveness", t.as_str());
    }
    let ghost after_liveness = lines.deep_view();
    proof {
        assert(after_liveness =~= old(lines).deep_view() + probe_lines(
            "    Liveness"@,
            c.liveness_probe,
        ));
    }
    if let Some(p) = &c.readiness_probe {
        let t = probe_str(p);
        field(lines, "    Readiness", t.as_str());
    }
    proof {
        assert(lines.deep_view() =~= after_liveness + probe_lines(
            "    Readiness"@,
            c.readiness_probe,
        ));
        assert(lines.deep_view() =~= old(lines).deep_view() + (probe_lines(
            "    Liveness"@,
            c.liveness_probe,
        ) + probe_lines("    Readiness"@, c.readiness_probe)));
    }
}

/// Appends a container as the deployment view shows it.
pub fn deployment_container_lines(lines: &mut Vec<String>, c: &Container)
    ensures
        final(lines).deep_view() == old(lines).deep_view() + deployment_container_text(*c),
{
    container_head_lines(lines, c);
    container_resource_lines(lines, c);
    container_probe_lines(lines, c);
    let mounts = container_mounts(c);
    field(lines, "    Mounts", mounts.as_str());
    proof {
        assert(lines.deep_view() =~= old(lines).deep_view() + deployment_container_text(*c));
    }
}

/// The `Name` line of a volume: shown only when the name is not empty.
pub open spec fn volume_name_lines(name: Seq<char>) -> Seq<Seq<char>> {
    if name.len() == 0 {
        Seq::empty()
    } else {
        seq![field_text("      Name"@, name)]
    }
}

/// A volume of a pod: its name, its kind (secret, config map, empty
/// directory or other) and, for a secret or a config map, the name of what
/// it holds (`<none>` when it names none, no line when that name is empty).
pub open spec fn volume_text(v: Volume) -> Seq<Seq<char>> {
    let head = "    "@ + v.name@;
    match v.secret {
        Some(sec) => seq![head, field_text("      Type"@, "Secret"@)] + volume_name_lines(
            opt_text(sec.secret_name),
        ),
        None => match v.config_map {
            Some(cm) => seq![head, field_text("      Type"@, "ConfigMap"@)] + volume_name_lines(
                opt_text(cm.name),
            ),
            None => if v.empty_dir {
                seq![head, field_text("      Type"@, "EmptyDir"@)]
            } else {
                seq![head, field_text("      Type"@, "other"@)]
            },
        },
    }
}

fn volume_name_line(lines: &mut Vec<String>, name: &str)
    ensures
        final(lines).deep_view() == old(lines).deep_view() + volume_name_lines(name@),
{
    if name.unicode_len() != 0 {
        field(lines, "      Name", name);
        proof {
            assert(lines.deep_view() =~= old(lines).deep_view() + volume_name_lines(name@));
        }
    } else {
        proof {
            assert(lines.deep_view() =~= old(lines).deep_view() + volume_name_lines(name@));
        }
    }
}

/// The volumes of a pod, one after the other.
pub open spec fn volumes_text(vs: Seq<Volume>) -> Seq<Seq<char>>
    decreases vs.len(),
{
    if vs.len() == 0 {
        Seq::empty()
    } else {
        volumes_text(vs.drop_last()) + volume_text(vs.last())
    }
}

fn volume_lines(lines: &mut Vec<String>, v: &Volume)
    ensures
        final(lines).deep_view() == old(lines).deep_view() + volume_text(*v),
{
    let mut head = string_of("    ");
    head.append(v.name.as_str());
    push_line(lines, head);
    if let Some(sec) = &v.secret {
        field(lines, "      Type", "Secret");
        volume_name_line(lines, opt_str(&sec.secret_name));
    } else if let Some(cm) = &v.config_map {
        field(lines, "      Type", "ConfigMap");
        volume_name_line(lines, opt_str(&cm.name));
    } else if v.empty_dir {
        field(lines, "      Type", "EmptyDir");
    } else {
        field(lines, "      Type", "other");
    }
    proof {
        assert(lines.deep_view() =~= old(lines).deep_view() + volume_text(*v));
    }
}

/// Appends the volumes of a pod.
pub fn deployment_volume_lines(lines: &mut Vec<String>, vols: &Vec<Volume>)
    ensures
        final(lines).deep_view() == old(lines).deep_view() + seq!["  Volumes:"@] + volumes_text(
            vols@,
        ),
{
    push_line(lines, string_of("  Volumes:"));
    let ghost start = lines.deep_view();
    let n = vols.len();
    let mut i: usize = 0;
    proof {
        assert(vols@.take(0) =~= Seq::<Volume>::empty());
        assert(start =~= start + volumes_text(vols@.take(0)));
    }
    while i < n
        invariant
            n == vols@.len(),
            i <= n,
            lines.deep_view() == start + volumes_text(vols@.take(i as int)),
        decreases n - i,
    {
        volume_lines(lines, &vols[i]);
        proof {
            assert(vols@.take(i + 1).drop_last() =~= vols@.take(i as int));
            assert(lines.deep_view() =~= start + volumes_text(vols@.take(i + 1)));
        }
        i += 1;
    }
    proof {
        assert(vols@.take(n as int) =~= vols@);
    }
}

} // verus!
