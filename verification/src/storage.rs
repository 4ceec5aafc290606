//! The describe views of persistent volumes and persistent volume claims.

use crate::deployments::{fetch_error_lines, fetch_error_text, hint_line, hint_text};
use crate::describe::{
    identity_lines, meta_ok, opt_str, opt_text, or_str, or_text, section_identity, time_ok,
    time_string, time_text,
};
use crate::model::{
    Pairs, PersistentVolume, PersistentVolumeClaim, PersistentVolumeClaimSpec,
    PersistentVolumeClaimStatus, PersistentVolumeSpec, PersistentVolumeStatus, Time,
};
use crate::text::{
    bottom_lines, bottom_section, field, field_text, join, join_text, push_line, section,
    section_lines, string_of,
};
use vstd::prelude::*;
use vstd::string::*;

verus! {

broadcast use vstd::string::group_string_axioms;

/// The value of the first entry with the given key, if any.
pub open spec fn pair_lookup(m: Seq<(String, String)>, key: Seq<char>) -> Option<Seq<char>>
    decreases m.len(),
{
    if m.len() == 0 {
        None
    } else if m[0].0@ == key {
        Some(m[0].1@)
    } else {
        pair_lookup(m.drop_first(), key)
    }
}

/// The value of the first entry with the given key, if any.
pub fn lookup(m: &Pairs, key: &str) -> (r: Option<String>)
    ensures
        match r {
            Some(v) => pair_lookup(m@, key@) == Some(v@),
            None => pair_lookup(m@, key@) is None,
        },
{
    let k = string_of(key);
    let es = m.entries();
    let n = es.len();
    let mut i: usize = 0;
    proof {
        assert(m@.skip(0) =~= m@);
    }
    while i < n
        invariant
            n == m@.len(),
            es@ == m@,
            i <= n,
            k@ == key@,
            pair_lookup(m@, key@) == pair_lookup(m@.skip(i as int), key@),
        decreases n - i,
    {
        proof {
            assert(m@.skip(i as int)[0] == m@[i as int]);
            assert(m@.skip(i as int).drop_first() =~= m@.skip(i + 1));
        }
        if es[i].0 == k {
            return Some(es[i].1.clone());
        }
        i += 1;
    }
    None
}

/// The stored amount in a quantity map, or `<none>`.
pub open spec fn storage_text(m: Option<Pairs>) -> Seq<char> {
    match m {
        Some(map) => match pair_lookup(map@, "storage"@) {
            Some(v) => v,
            None => "<none>"@,
        },
        None => "<none>"@,
    }
}

fn storage_string(m: &Option<Pairs>) -> (r: String)
    ensures
        r@ == storage_text(*m),
{
    match m {
        Some(map) => match lookup(map, "storage") {
            Some(v) => v,
            None => string_of("<none>"),
        },
        None => string_of("<none>"),
    }
}

/// Access modes joined with commas, or `<none>`.
pub open spec fn modes_text(m: Option<Vec<String>>) -> Seq<char> {
    match m {
        Some(v) => join_text(v.deep_view(), ", "@),
        None => "<none>"@,
    }
}

fn modes_string(m: &Option<Vec<String>>) -> (r: String)
    ensures
        r@ == modes_text(*m),
{
    match m {
        Some(v) => join(v, ", "),
        None => string_of("<none>"),
    }
}

/// The source of a persistent volume: a host path, an NFS export, an AWS
/// EBS volume, a CSI volume, or `<unknown>`.
pub open spec fn pv_source_text(s: PersistentVolumeSpec) -> Seq<char> {
    match s.host_path {
        Some(h) => "HostPath: "@ + h.path@,
        None => match s.nfs {
            Some(nfs) => "NFS: "@ + nfs.server@ + ":"@ + nfs.path@,
            None => match s.aws_elastic_block_store {
                Some(aws) => "AWS EBS: "@ + aws.volume_id@,
                None => match s.csi {
                    Some(csi) => "CSI: "@ + csi.driver@ + " ("@ + csi.volume_handle@ + ")"@,
                    None => "<unknown>"@,
                },
            },
        },
    }
}

fn pv_source(s: &PersistentVolumeSpec) -> (r: String)
    ensures
        r@ == pv_source_text(*s),
{
    if let Some(h) = &s.host_path {
        let mut r = string_of("HostPath: ");
        r.append(h.path.as_str());
        r
    } else if let Some(nfs) = &s.nfs {
        let mut r = string_of("NFS: ");
        r.append(nfs.server.as_str());
        r.append(":");
        r.append(nfs.path.as_str());
        r
    } else if let Some(aws) = &s.aws_elastic_block_store {
        let mut r = string_of("AWS EBS: ");
        r.append(aws.volume_id.as_str());
        r
    } else if let Some(csi) = &s.csi {
        let mut r = string_of("CSI: ");
        r.append(csi.driver.as_str());
        r.append(" (");
        r.append(csi.volume_handle.as_str());
        r.append(")");
        r
    } else {
        string_of("<unknown>")
    }
}

/// A text field of a volume's spec, `<none>` when there is no spec or no
/// value: 0 the reclaim policy, 1 the storage class, 2 the volume mode.
pub open spec fn pv_spec_field(spec: Option<PersistentVolumeSpec>, which: nat) -> Seq<char> {
    match spec {
        Some(s) => opt_text(
            if which == 0 {
                s.persistent_volume_reclaim_policy
            } else if which == 1 {
                s.storage_class_name
            } else {
                s.volume_mode
            },
        ),
        None => "<none>"@,
    }
}

fn pv_spec_field_str(spec: &Option<PersistentVolumeSpec>, which: usize) -> (r: &str)
    ensures
        r@ == pv_spec_field(*spec, which as nat),
{
    match spec {
        Some(s) => opt_str(
            if which == 0 {
                &s.persistent_volume_reclaim_policy
            } else if which == 1 {
                &s.storage_class_name
            } else {
                &s.volume_mode
            },
        ),
        None => "<none>",
    }
}

/// The spec section of a persistent volume: capacity, access modes,
/// reclaim policy, storage class, volume mode, the bound claim when there
/// is one, and the source when there is a spec.
pub open spec fn pv_spec_text(spec: Option<PersistentVolumeSpec>) -> Seq<Seq<char>> {
    section_lines("Spec"@, true) + seq![
        field_text(
            "Capacity"@,
            match spec {
                Some(s) => storage_text(s.capacity),
                None => "<none>"@,
            },
        ),
        field_text(
            "Access Modes"@,
            match spec {
                Some(s) => modes_text(s.access_modes),
                None => "<none>"@,
            },
        ),
        field_text("Reclaim Policy"@, pv_spec_field(spec, 0)),
        field_text("Storage Class"@, pv_spec_field(spec, 1)),
        field_text("Volume Mode"@, pv_spec_field(spec, 2)),
    ] + match spec {
        Some(s) => match s.claim_ref {
            Some(c) => seq![field_text("Claim"@, or_text(c.namespace, "?"@) + "/"@ + or_text(c.name, "?"@))],
            None => Seq::empty(),
        },
        None => Seq::empty(),
    } + match spec {
        Some(s) => seq![field_text("Source"@, pv_source_text(s))],
        None => Seq::empty(),
    }
}

fn pv_section_spec(lines: &mut Vec<String>, spec: &Option<PersistentVolumeSpec>)
    ensures
        final(lines).deep_view() == old(lines).deep_view() + pv_spec_text(*spec),
{
    section(lines, "Spec", true);
    let capacity = match spec {
        Some(s) => storage_string(&s.capacity),
        None => string_of("<none>"),
    };
    field(lines, "Capacity", capacity.as_str());
    let modes = match spec {
        Some(s) => modes_string(&s.access_modes),
        None => string_of("<none>"),
    };
    field(lines, "Access Modes", modes.as_str());
    field(lines, "Reclaim Policy", pv_spec_field_str(spec, 0));
    field(lines, "Storage Class", pv_spec_field_str(spec, 1));
    field(lines, "Volume Mode", pv_spec_field_str(spec, 2));
    if let Some(s) = spec {
        if let Some(c) = &s.claim_ref {
            let mut t = string_of(or_str(&c.namespace, "?"));
            t.append("/");
            t.append(or_str(&c.name, "?"));
            field(lines, "Claim", t.as_str());
        }
    }
    if let Some(s) = spec {
        let src = pv_source(s);
        field(lines, "Source", src.as_str());
    }
    proof {
        assert(lines.deep_view() =~= old(lines).deep_view() + pv_spec_text(*spec));
    }
}

/// A text field of a volume's status, `<none>` when unknown: 0 the phase,
/// 1 the reason, 2 the message.
pub open spec fn pv_status_field(status: Option<PersistentVolumeStatus>, which: nat) -> Seq<char> {
    match status {
        Some(s) => opt_text(
            if which == 0 {
                s.phase
            } else if which == 1 {
                s.reason
            } else {
                s.message
            },
        ),
        None => "<none>"@,
    }
}

fn pv_status_field_str(status: &Option<PersistentVolumeStatus>, which: usize) -> (r: &str)
    ensures
        r@ == pv_status_field(*status, which as nat),
{
    match status {
        Some(s) => opt_str(
            if which == 0 {
                &s.phase
            } else if which == 1 {
                &s.reason
            } else {
                &s.message
            },
        ),
        None => "<none>",
    }
}

/// When a volume last changed phase.
pub open spec fn pv_transition(status: Option<PersistentVolumeStatus>) -> Option<Time> {
    match status {
        Some(s) => s.last_phase_transition_time,
        None => None,
    }
}

/// What the describe view of a persistent volume can show.
pub open spec fn pv_ok(fetched: Result<PersistentVolume, String>) -> bool {
    match fetched {
        Ok(pv) => meta_ok(pv.metadata) && time_ok(pv_transition(pv.status)),
        Err(_) => true,
    }
}

/// The describe view of a persistent volume: the error when it could not
/// be fetched; otherwise its identity, spec, a status section with the
/// phase, a second status section with phase, reason, message and last
/// transition, two `kubectl` hints and the key help.
pub open spec fn describe_pv_text(fetched: Result<PersistentVolume, String>, name: Seq<char>) -> Seq<Seq<char>> {
    match fetched {
        Err(e) => seq![fetch_error_text("PersistentVolume"@, name, e@)],
        Ok(pv) => identity_lines(pv.metadata) + pv_spec_text(pv.spec) + section_lines("Status"@, true)
            + seq![field_text("Phase"@, pv_status_field(pv.status, 0))] + section_lines("Status"@, true)
            + seq![
            field_text("Phase"@, pv_status_field(pv.status, 0)),
            field_text("Reason"@, pv_status_field(pv.status, 1)),
            field_text("Message"@, pv_status_field(pv.status, 2)),
            field_text("Last Transition"@, time_text(pv_transition(pv.status))),
        ] + section_lines("Hints"@, true) + seq![
            "  kubectl describe pv/"@ + name,
            "  kubectl get pv/"@ + name + " -o yaml"@,
        ] + bottom_lines(),
    }
}

/// The describe view of a persistent volume, from the result of fetching
/// it.
pub fn describe_pv(fetched: &Result<PersistentVolume, String>, name: &str) -> (r: Vec<String>)
    requires
        pv_ok(*fetched),
    ensures
        r.deep_view() == describe_pv_text(*fetched, name@),
{
    let pv = match fetched {
        Ok(pv) => pv,
        Err(e) => {
            return fetch_error_lines("PersistentVolume", name, e.as_str());
        },
    };
    let mut lines: Vec<String> = Vec::new();
    section_identity(&mut lines, &pv.metadata);
    pv_section_spec(&mut lines, &pv.spec);
    section(&mut lines, "Status", true);
    field(&mut lines, "Phase", pv_status_field_str(&pv.status, 0));
    section(&mut lines, "Status", true);
    field(&mut lines, "Phase", pv_status_field_str(&pv.status, 0));
    field(&mut lines, "Reason", pv_status_field_str(&pv.status, 1));
    field(&mut lines, "Message", pv_status_field_str(&pv.status, 2));
    let transition = match &pv.status {
        Some(s) => s.last_phase_transition_time,
        None => None,
    };
    field(&mut lines, "Last Transition", time_string(transition).as_str());
    section(&mut lines, "Hints", true);
    let mut h1 = string_of("  kubectl describe pv/");
    h1.append(name);
    push_line(&mut lines, h1);
    let mut h2 = string_of("  kubectl get pv/");
    h2.append(name);
    h2.append(" -o yaml");
    push_line(&mut lines, h2);
    bottom_section(&mut lines);
    proof {
        assert(lines.deep_view() =~= describe_pv_text(*fetched, name@));
    }
    lines
}

/// The spec section of a claim: the bound volume, storage class, access
/// modes and requested storage.
pub open spec fn pvc_spec_text(spec: Option<PersistentVolumeClaimSpec>) -> Seq<Seq<char>> {
    section_lines("Spec"@, true) + match spec {
        Some(s) => seq![
            field_text("Volume"@, opt_text(s.volume_name)),
            field_text("StorageClass"@, opt_text(s.storage_class_name)),
            field_text("AccessModes"@, modes_text(s.access_modes)),
            field_text(
                "Requested Storage"@,
                match s.resources {
                    Some(r) => storage_text(r.requests),
                    None => "<none>"@,
                },
            ),
        ],
        None => seq![
            field_text("Volume"@, "<none>"@),
            field_text("StorageClass"@, "<none>"@),
            field_text("AccessModes"@, "<none>"@),
            field_text("Requested Storage"@, "<none>"@),
        ],
    }
}

fn pvc_section_spec(lines: &mut Vec<String>, spec: &Option<PersistentVolumeClaimSpec>)
    ensures
        final(lines).deep_view() == old(lines).deep_view() + pvc_spec_text(*spec),
{
    section(lines, "Spec", true);
    match spec {
        Some(s) => {
            field(lines, "Volume", opt_str(&s.volume_name));
            field(lines, "StorageClass", opt_str(&s.storage_class_name));
            let modes = modes_string(&s.access_modes);
            field(lines, "AccessModes", modes.as_str());
            let req = match &s.resources {
                Some(r) => storage_string(&r.requests),
                None => string_of("<none>"),
            };
            field(lines, "Requested Storage", req.as_str());
        },
        None => {
            field(lines, "Volume", "<none>");
            field(lines, "StorageClass", "<none>");
            field(lines, "AccessModes", "<none>");
            field(lines, "Requested Storage", "<none>");
        },
    }
    proof {
        assert(lines.deep_view() =~= old(lines).deep_view() + pvc_spec_text(*spec));
    }
}

/// The conditions of a claim as `type=status` joined with commas, or
/// `<none>`.
pub open spec fn pvc_conditions_text(status: Option<PersistentVolumeClaimStatus>) -> Seq<char> {
    match status {
        Some(s) => match s.conditions {
            Some(cs) => join_text(
                Seq::new(cs@.len(), |i: int| cs@[i].type_@ + "="@ + cs@[i].status@),
                ", "@,
            ),
            None => "<none>"@,
        },
        None => "<none>"@,
    }
}

fn pvc_conditions_string(status: &Option<PersistentVolumeClaimStatus>) -> (r: String)
    ensures
        r@ == pvc_conditions_text(*status),
{
    match status {
        Some(s) => match &s.conditions {
            Some(cs) => {
                let mut texts: Vec<String> = Vec::new();
                let n = cs.len();
                let mut i: usize = 0;
                while i < n
                    invariant
                        n == cs@.len(),
                        i <= n,
                        texts.deep_view() == Seq::new(
                            i as nat,
                            |j: int| cs@[j].type_@ + "="@ + cs@[j].status@,
                        ),
                    decreases n - i,
                {
                    let mut t = cs[i].type_.clone();
                    t.append("=");
                    t.append(cs[i].status.as_str());
                    push_line(&mut texts, t);
                    proof {
                        assert(texts.deep_view() =~= Seq::new(
                            (i + 1) as nat,
                            |j: int| cs@[j].type_@ + "="@ + cs@[j].status@,
                        ));
                    }
                    i += 1;
                }
                join(&texts, ", ")
            },
            None => string_of("<none>"),
        },
        None => string_of("<none>"),
    }
}

/// The status section of a claim: phase, capacity, access modes and
/// conditions.
pub open spec fn pvc_status_text(status: Option<PersistentVolumeClaimStatus>) -> Seq<Seq<char>> {
    section_lines("Status"@, true) + match status {
        Some(s) => seq![
            field_text("Phase"@, opt_text(s.phase)),
            field_text("Capacity"@, storage_text(s.capacity)),
            field_text("AccessModes"@, modes_text(s.access_modes)),
            field_text("Conditions"@, pvc_conditions_text(status)),
        ],
        None => seq![
            field_text("Phase"@, "<none>"@),
            field_text("Capacity"@, "<none>"@),
            field_text("AccessModes"@, "<none>"@),
            field_text("Conditions"@, "<none>"@),
        ],
    }
}

fn pvc_section_status(lines: &mut Vec<String>, status: &Option<PersistentVolumeClaimStatus>)
    ensures
        final(lines).deep_view() == old(lines).deep_view() + pvc_status_text(*status),
{
    section(lines, "Status", true);
    let conds = pvc_conditions_string(status);
    match status {
        Some(s) => {
            field(lines, "Phase", opt_str(&s.phase));
            let cap = storage_string(&s.capacity);
            field(lines, "Capacity", cap.as_str());
            let modes = modes_string(&s.access_modes);
            field(lines, "AccessModes", modes.as_str());
            field(lines, "Conditions", conds.as_str());
        },
        None => {
            field(lines, "Phase", "<none>");
            field(lines, "Capacity", "<none>");
            field(lines, "AccessModes", "<none>");
            field(lines, "Conditions", conds.as_str());
        },
    }
    proof {
        assert(lines.deep_view() =~= old(lines).deep_view() + pvc_status_text(*status));
    }
}

/// What the describe view of a claim can show.
pub open spec fn pvc_ok(fetched: Result<PersistentVolumeClaim, String>) -> bool {
    match fetched {
        Ok(c) => meta_ok(c.metadata),
        Err(_) => true,
    }
}

/// The describe view of a persistent volume claim: the error when it could
/// not be fetched; otherwise its identity, spec, status, a `kubectl` hint
/// and the key help.
pub open spec fn describe_pvc_text(
    fetched: Result<PersistentVolumeClaim, String>,
    name: Seq<char>,
    ns: Option<&str>,
) -> Seq<Seq<char>> {
    match fetched {
        Err(e) => seq![fetch_error_text("PVC"@, name, e@)],
        Ok(c) => identity_lines(c.metadata) + pvc_spec_text(c.spec) + pvc_status_text(c.status)
            + section_lines("Hints"@, true) + seq![hint_text("  kubectl describe pvc/"@, name, ns, ""@)]
            + bottom_lines(),
    }
}

/// The describe view of a persistent volume claim, from the result of
/// fetching it.
pub fn describe_pvc(fetched: &Result<PersistentVolumeClaim, String>, name: &str, ns: Option<&str>) -> (r: Vec<String>)
    requires
        pvc_ok(*fetched),
    ensures
        r.deep_view() == describe_pvc_text(*fetched, name@, ns),
{
    let c = match fetched {
        Ok(c) => c,
        Err(e) => {
            return fetch_error_lines("PVC", name, e.as_str());
        },
    };
    let mut lines: Vec<String> = Vec::new();
    section_identity(&mut lines, &c.metadata);
    pvc_section_spec(&mut lines, &c.spec);
    pvc_section_status(&mut lines, &c.status);
    section(&mut lines, "Hints", true);
    push_line(&mut lines, hint_line("  kubectl describe pvc/", name, ns, ""));
    bottom_section(&mut lines);
    proof {
        assert(lines.deep_view() =~= describe_pvc_text(*fetched, name@, ns));
    }
    lines
}

} // verus!
