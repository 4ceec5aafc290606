//! The describe view of a service.

use crate::deployments::{fetch_error_lines, fetch_error_text, hint_line, hint_text};
use crate::describe::{
    identity_lines, meta_ok, multiline_labels, multiline_lines, or_str, or_text, pairs_texts,
    push_multiline, section_identity,
};
use crate::model::{LoadBalancerIngress, Service, ServicePort, ServiceSpec, ServiceStatus};
use crate::text::{
    bottom_lines, bottom_section, field, field_text, int_string, int_text, join, join_text,
    push_line, section, section_lines, string_of,
};
use vstd::prelude::*;
use vstd::string::*;

verus! {

broadcast use vstd::string::group_string_axioms;

/// The port that traffic to a service port goes to: the target port, or
/// the port itself.
pub open spec fn target_text(p: ServicePort) -> Seq<char> {
    match p.target_port {
        Some(t) => crate::describe::int_or_string_text(t),
        None => int_text(p.port as int),
    }
}

/// A port of a service: `port/protocol name -> target`, and the node port
/// when there is one.
pub open spec fn service_port_text(p: ServicePort) -> Seq<char> {
    int_text(p.port as int) + "/"@ + or_text(p.protocol, "TCP"@) + " "@ + or_text(p.name, ""@)
        + " -> "@ + target_text(p) + match p.node_port {
        Some(n) => " NodePort="@ + int_text(n as int),
        None => ""@,
    }
}

fn service_port_string(p: &ServicePort) -> (r: String)
    ensures
        r@ == service_port_text(*p),
{
    let target = match &p.target_port {
        Some(t) => crate::describe::int_or_str(t),
        None => int_string(p.port as i64),
    };
    let mut r = int_string(p.port as i64);
    r.append("/");
    r.append(or_str(&p.protocol, "TCP"));
    r.append(" ");
    r.append(or_str(&p.name, ""));
    r.append(" -> ");
    r.append(target.as_str());
    match p.node_port {
        Some(n) => {
            r.append(" NodePort=");
            r.append(int_string(n as i64).as_str());
        },
        None => {
            r.append("");
        },
    }
    r
}

/// The ports of a service, none when it has none.
pub open spec fn service_ports_texts(spec: ServiceSpec) -> Seq<Seq<char>> {
    match spec.ports {
        Some(ps) => Seq::new(ps@.len(), |i: int| service_port_text(ps@[i])),
        None => Seq::empty(),
    }
}

/// Appends the ports of a service, `<none>` when it has none.
pub fn service_section_ports(lines: &mut Vec<String>, spec: &ServiceSpec)
    ensures
        final(lines).deep_view() == old(lines).deep_view() + multiline_lines(
            "Ports"@,
            service_ports_texts(*spec),
        ),
{
    let mut texts: Vec<String> = Vec::new();
    if let Some(ps) = &spec.ports {
        let n = ps.len();
        let mut i: usize = 0;
        while i < n
            invariant
                n == ps@.len(),
                i <= n,
                texts.deep_view() == Seq::new(i as nat, |j: int| service_port_text(ps@[j])),
            decreases n - i,
        {
            let t = service_port_string(&ps[i]);
            push_line(&mut texts, t);
            proof {
                assert(texts.deep_view() =~= Seq::new(
                    (i + 1) as nat,
                    |j: int| service_port_text(ps@[j]),
                ));
            }
            i += 1;
        }
    }
    proof {
        assert(texts.deep_view() =~= service_ports_texts(*spec));
    }
    push_multiline(lines, "Ports", &texts);
}

/// The addresses of load balancer ingress points: each one's IP, or its
/// host name when it has no IP; points with neither are left out.
pub open spec fn ingress_addresses(ing: Seq<LoadBalancerIngress>) -> Seq<Seq<char>>
    decreases ing.len(),
{
    if ing.len() == 0 {
        Seq::empty()
    } else {
        let rest = ingress_addresses(ing.drop_last());
        match ing.last().ip {
            Some(ip) => rest.push(ip@),
            None => match ing.last().hostname {
                Some(h) => rest.push(h@),
                None => rest,
            },
        }
    }
}

/// The load balancer line of a service, when its status lists ingress
/// points with an address.
pub open spec fn load_balancer_lines(status: Option<ServiceStatus>) -> Seq<Seq<char>> {
    match status {
        Some(s) => match s.load_balancer {
            Some(lb) => match lb.ingress {
                Some(ing) => {
                    let ips = ingress_addresses(ing@);
                    if ips.len() > 0 {
                        seq![field_text("LoadBalancer"@, join_text(ips, ", "@))]
                    } else {
                        Seq::empty()
                    }
                },
                None => Seq::empty(),
            },
            None => Seq::empty(),
        },
        None => Seq::empty(),
    }
}

fn ingress_address_list(ing: &Vec<LoadBalancerIngress>) -> (r: Vec<String>)
    ensures
        r.deep_view() == ingress_addresses(ing@),
{
    let mut out: Vec<String> = Vec::new();
    let n = ing.len();
    let mut i: usize = 0;
    proof {
        assert(ing@.take(0) =~= Seq::<LoadBalancerIngress>::empty());
    }
    while i < n
        invariant
            n == ing@.len(),
            i <= n,
            out.deep_view() == ingress_addresses(ing@.take(i as int)),
        decreases n - i,
    {
        proof {
            assert(ing@.take(i + 1).drop_last() =~= ing@.take(i as int));
            assert(ing@.take(i + 1).last() == ing@[i as int]);
        }
        match &ing[i].ip {
            Some(ip) => push_line(&mut out, ip.clone()),
            None => match &ing[i].hostname {
                Some(h) => push_line(&mut out, h.clone()),
                None => {},
            },
        }
        i += 1;
    }
    proof {
        assert(ing@.take(n as int) =~= ing@);
    }
    out
}

/// The network lines of a service: external addresses, load balancer
/// addresses, IP families and IP family policy.
pub open spec fn service_network_text(spec: ServiceSpec, status: Option<ServiceStatus>) -> Seq<Seq<char>> {
    seq![
        field_text(
            "External IPs"@,
            match spec.external_ips {
                Some(v) => join_text(v.deep_view(), ", "@),
                None => "<none>"@,
            },
        ),
    ] + load_balancer_lines(status) + match spec.ip_families {
        Some(f) => seq![field_text("IP Families"@, join_text(f.deep_view(), ", "@))],
        None => Seq::empty(),
    } + match spec.ip_family_policy {
        Some(p) => seq![field_text("IP Policy"@, p@)],
        None => Seq::empty(),
    }
}

/// Appends the network lines of a service.
pub fn service_section_network(
    lines: &mut Vec<String>,
    spec: &ServiceSpec,
    status: &Option<ServiceStatus>,
)
    ensures
        final(lines).deep_view() == old(lines).deep_view() + service_network_text(*spec, *status),
{
    let external_ips = match &spec.external_ips {
        Some(v) => join(v, ", "),
        None => string_of("<none>"),
    };
    field(lines, "External IPs", external_ips.as_str());
    let ghost after_external = lines.deep_view();
    if let Some(s) = status {
        if let Some(lb) = &s.load_balancer {
            if let Some(ing) = &lb.ingress {
                let ips = ingress_address_list(ing);
                if ips.len() > 0 {
                    let t = join(&ips, ", ");
                    field(lines, "LoadBalancer", t.as_str());
                }
            }
        }
    }
    let ghost after_lb = lines.deep_view();
    proof {
        assert(after_lb =~= after_external + load_balancer_lines(*status));
    }
    if let Some(f) = &spec.ip_families {
        let t = join(f, ", ");
        field(lines, "IP Families", t.as_str());
    }
    if let Some(p) = &spec.ip_family_policy {
        field(lines, "IP Policy", p.as_str());
    }
    proof {
        assert(lines.deep_view() =~= old(lines).deep_view() + service_network_text(*spec, *status));
    }
}

/// The spec section of a service: `<none>` when it has no spec; otherwise
/// its type, cluster address, selector, ports and network lines.
pub open spec fn service_spec_text(svc: Service) -> Seq<Seq<char>> {
    section_lines("Spec"@, true) + match svc.spec {
        None => seq![field_text("Spec"@, "<none>"@)],
        Some(spec) => seq![
            field_text("Type"@, or_text(spec.type_, "<none>"@)),
            field_text("ClusterIP"@, or_text(spec.cluster_ip, "<none>"@)),
        ] + multiline_lines("Selector"@, pairs_texts(spec.selector)) + multiline_lines(
            "Ports"@,
            service_ports_texts(spec),
        ) + service_network_text(spec, svc.status),
    }
}

/// Appends the spec section of a service.
pub fn service_section_spec(lines: &mut Vec<String>, svc: &Service)
    ensures
        final(lines).deep_view() == old(lines).deep_view() + service_spec_text(*svc),
{
    section(lines, "Spec", true);
    let spec = match &svc.spec {
        Some(s) => s,
        None => {
            field(lines, "Spec", "<none>");
            proof {
                assert(lines.deep_view() =~= old(lines).deep_view() + service_spec_text(*svc));
            }
            return;
        },
    };
    field(lines, "Type", or_str(&spec.type_, "<none>"));
    field(lines, "ClusterIP", or_str(&spec.cluster_ip, "<none>"));
    multiline_labels(lines, "Selector", &spec.selector);
    service_section_ports(lines, spec);
    service_section_network(lines, spec, &svc.status);
    proof {
        assert(lines.deep_view() =~= old(lines).deep_view() + service_spec_text(*svc));
    }
}

/// What the describe view of a service can show: a fetch error, or a
/// service whose creation time RFC 2822 text can show.
pub open spec fn service_ok(fetched: Result<Service, String>) -> bool {
    match fetched {
        Ok(s) => meta_ok(s.metadata),
        Err(_) => true,
    }
}

/// The describe view of a service: the error when it could not be fetched;
/// otherwise its identity, spec, two `kubectl` hints and the key help.
pub open spec fn describe_service_text(
    fetched: Result<Service, String>,
    name: Seq<char>,
    ns: Option<&str>,
) -> Seq<Seq<char>> {
    match fetched {
        Err(e) => seq![fetch_error_text("Service"@, name, e@)],
        Ok(svc) => identity_lines(svc.metadata) + service_spec_text(svc) + section_lines(
            "Hints"@,
            true,
        ) + seq![
            hint_text("  kubectl describe service/"@, name, ns, ""@),
            hint_text("  kubectl get endpoints/"@, name, ns, ""@),
        ] + bottom_lines(),
    }
}

/// The describe view of a service, from the result of fetching it.
pub fn describe_service(fetched: &Result<Service, String>, name: &str, ns: Option<&str>) -> (r: Vec<String>)
    requires
        service_ok(*fetched),
    ensures
        r.deep_view() == describe_service_text(*fetched, name@, ns),
{
    let svc = match fetched {
        Ok(s) => s,
        Err(e) => {
            return fetch_error_lines("Service", name, e.as_str());
        },
    };
    let mut lines: Vec<String> = Vec::new();
    section_identity(&mut lines, &svc.metadata);
    service_section_spec(&mut lines, svc);
    section(&mut lines, "Hints", true);
    push_line(&mut lines, hint_line("  kubectl describe service/", name, ns, ""));
    push_line(&mut lines, hint_line("  kubectl get endpoints/", name, ns, ""));
    bottom_section(&mut lines);
    proof {
        assert(lines.deep_view() =~= describe_service_text(*fetched, name@, ns));
    }
    lines
}

} // verus!
