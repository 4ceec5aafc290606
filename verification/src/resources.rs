//! The rows of the resource tables.

use crate::clock::{now, NANOS_PER_SEC};
use crate::model::{ContainerStatus, ObjectMeta, Pod, PodStatus, Time};
use crate::text::{int_string, int_text, push_line, string_of, append_nat, nat_text};
use vstd::prelude::*;
use vstd::string::*;

verus! {

broadcast use vstd::string::group_string_axioms;

/// A row of a resource table: the name of the object, its namespace (empty
/// for objects outside namespaces) and the other columns.
pub struct ResourceRow {
    pub name: String,
    pub namespace: String,
    pub data: Vec<String>,
}

/// An object that a resource table can show as a row.
pub trait IntoResourceRow: Sized {
    /// Whether the object can be turned into a row.
    spec fn convertible(&self) -> bool;

    /// The row of the object.
    fn into_resource_row(self) -> ResourceRow
        requires
            self.convertible(),
    ;
}

/// `a / b` rounded towards zero, as integer division in Rust rounds.
pub open spec fn trunc_div(a: int, b: int) -> int {
    if a >= 0 {
        a / b
    } else {
        -((-a) / b)
    }
}

/// The duration from `created` to `now` as chrono's
/// `signed_duration_since` reckons it: whole seconds and the nanoseconds
/// past them (below a second's worth). A leap second (nanoseconds from a
/// second's worth on) counts within the second it extends, unless the
/// other point in time is earlier in its day.
pub open spec fn duration_since(now: Time, created: Time) -> (int, int) {
    let tn = now.secs % 86400;
    let tc = created.secs % 86400;
    let leap: int = if tn > tc && created.nanos >= NANOS_PER_SEC {
        1
    } else if tn < tc && now.nanos >= NANOS_PER_SEC {
        -1
    } else {
        0
    };
    let frac = now.nanos - created.nanos;
    (now.secs - created.secs + leap + frac / (NANOS_PER_SEC as int), frac % (NANOS_PER_SEC as int))
}

/// The whole seconds from `created` to `now`, rounded towards zero (as
/// chrono's `TimeDelta::num_seconds` rounds).
pub open spec fn elapsed_seconds(created: Time, now: Time) -> int {
    let (secs, nanos) = duration_since(now, created);
    if secs < 0 && nanos > 0 {
        secs + 1
    } else {
        secs
    }
}

/// The age of an object: whole days when there is at least one, otherwise
/// whole hours when there is at least one, otherwise whole minutes; `-`
/// when the creation time is unknown.
pub open spec fn age_text(created: Option<Time>, now: Time) -> Seq<char> {
    match created {
        None => "-"@,
        Some(c) => {
            let e = elapsed_seconds(c, now);
            if trunc_div(e, 86400) > 0 {
                int_text(trunc_div(e, 86400)) + "d"@
            } else if trunc_div(e, 3600) > 0 {
                int_text(trunc_div(e, 3600)) + "h"@
            } else {
                int_text(trunc_div(e, 60)) + "m"@
            }
        },
    }
}

/// A multiple of a day's seconds that lifts every `i64` above zero.
const DAY_LIFT: i128 = 9223372036854806400;

/// The second of its day of a point in time (0 to 86399).
fn day_second(s: i64) -> (r: i128)
    ensures
        r == s % 86400,
{
    let u: i128 = s as i128 + DAY_LIFT;
    let r: i128 = u % 86400;
    proof {
        vstd::arithmetic::div_mod::lemma_mod_multiples_vanish(106751991167301, s as int, 86400);
        assert(DAY_LIFT == 86400 * 106751991167301);
    }
    r
}

/// The whole seconds from `created` to `now`.
fn elapsed(created: Time, now: Time) -> (r: i128)
    ensures
        r == elapsed_seconds(created, now),
{
    let tn = day_second(now.secs);
    let tc = day_second(created.secs);
    let leap: i128 = if tn > tc && created.nanos >= NANOS_PER_SEC {
        1
    } else if tn < tc && now.nanos >= NANOS_PER_SEC {
        -1
    } else {
        0
    };
    let frac: i128 = now.nanos as i128 - created.nanos as i128;
    let lifted: i128 = frac + 5_000_000_000;
    let q: i128 = lifted / 1_000_000_000 - 5;
    let rem: i128 = lifted % 1_000_000_000;
    proof {
        vstd::arithmetic::div_mod::lemma_fundamental_div_mod(lifted as int, 1_000_000_000);
        vstd::arithmetic::div_mod::lemma_fundamental_div_mod_converse(
            frac as int,
            1_000_000_000,
            q as int,
            rem as int,
        );
    }
    let secs: i128 = now.secs as i128 - created.secs as i128 + leap + q;
    if secs < 0 && rem > 0 {
        secs + 1
    } else {
        secs
    }
}

/// The age of an object at the given time.
pub fn age_at(created: Option<Time>, now: Time) -> (r: String)
    ensures
        r@ == age_text(created, now),
{
    let c = match created {
        None => {
            return string_of("-");
        },
        Some(c) => c,
    };
    let e: i128 = elapsed(c, now);
    if e >= 86400 {
        let days: u128 = (e as u128) / 86400;
        proof {
            assert(trunc_div(e as int, 86400) == days);
        }
        let mut r = String::new();
        append_nat(&mut r, days as u64);
        r.append("d");
        proof {
            assert(int_text(days as int) == nat_text(days as nat));
        }
        r
    } else if e >= 3600 {
        let hours: u128 = (e as u128) / 3600;
        proof {
            assert(trunc_div(e as int, 86400) <= 0);
            assert(trunc_div(e as int, 3600) == hours);
        }
        let mut r = String::new();
        append_nat(&mut r, hours as u64);
        r.append("h");
        r
    } else {
        let minutes: i64 = if e >= 0 {
            ((e as u128) / 60) as i64
        } else {
            -((((-e) as u128) / 60) as i64)
        };
        proof {
            assert(trunc_div(e as int, 86400) <= 0);
            assert(trunc_div(e as int, 3600) <= 0);
            assert(trunc_div(e as int, 60) == minutes);
        }
        let mut r = int_string(minutes);
        r.append("m");
        r
    }
}

/// The age of an object now.
pub fn get_age(meta: &ObjectMeta) -> (r: String)
    ensures
        exists|t: Time| t.nanos < NANOS_PER_SEC && r@ == age_text(meta.creation_timestamp, t),
{
    let t = now();
    age_at(meta.creation_timestamp, t)
}

/// How many of the containers are ready.
pub open spec fn ready_count(cs: Seq<ContainerStatus>) -> nat
    decreases cs.len(),
{
    if cs.len() == 0 {
        0
    } else {
        ready_count(cs.drop_last()) + if cs.last().ready {
            1nat
        } else {
            0nat
        }
    }
}

/// The sum of the containers' restart counts.
pub open spec fn restart_sum(cs: Seq<ContainerStatus>) -> int
    decreases cs.len(),
{
    if cs.len() == 0 {
        0
    } else {
        restart_sum(cs.drop_last()) + cs.last().restart_count
    }
}

/// Whether every partial sum of the restart counts fits an `i32`, as the
/// sum of `i32` values requires.
pub open spec fn restarts_fit(cs: Seq<ContainerStatus>) -> bool {
    forall|k: int|
        0 <= k <= cs.len() ==> i32::MIN <= #[trigger] restart_sum(cs.take(k)) <= i32::MAX
}

/// The number of ready containers is the number of statuses whose ready
/// flag is set, whatever their restart counts.
proof fn lemma_ready_count_is_filter(cs: Seq<ContainerStatus>, ready: spec_fn(ContainerStatus) -> bool)
    requires
        forall|c: ContainerStatus| #[trigger] ready(c) == c.ready,
    ensures
        ready_count(cs) == cs.filter(ready).len(),
    decreases cs.len(),
{
    reveal(Seq::filter);
    if cs.len() > 0 {
        lemma_ready_count_is_filter(cs.drop_last(), ready);
    }
}

/// The READY column of a pod's row is the number of its container statuses
/// whose ready flag is set, a slash, and the number of its container
/// statuses (`0/0` when none are listed). So a status that is not ready
/// leaves the count of ready ones as it is, and one that is ready adds one,
/// whatever the restart counts.
pub proof fn lemma_ready_column(pod: Pod)
    ensures
        match statuses_of(pod.status) {
            Some(cs) => ready_text(pod) == nat_text(
                cs@.filter(|c: ContainerStatus| c.ready).len(),
            ) + "/"@ + nat_text(cs@.len()),
            None => ready_text(pod) == "0/0"@,
        },
{
    if let Some(cs) = statuses_of(pod.status) {
        lemma_ready_count_is_filter(cs@, |c: ContainerStatus| c.ready);
    }
}

/// Adding a container status changes the count of ready containers by one
/// when it is ready and not at all when it is not.
pub proof fn lemma_ready_count_push(cs: Seq<ContainerStatus>, c: ContainerStatus)
    ensures
        c.ready ==> ready_count(cs.push(c)) == ready_count(cs) + 1,
        !c.ready ==> ready_count(cs.push(c)) == ready_count(cs),
        ready_count(cs) <= cs.len(),
{
    assert(cs.push(c).drop_last() =~= cs);
    let pred = |x: ContainerStatus| x.ready;
    lemma_ready_count_is_filter(cs, pred);
    cs.lemma_filter_len(pred);
}

/// Adding a container status adds its restart count to the RESTARTS
/// column's sum, and a pod without listed statuses shows no restarts.
pub proof fn lemma_restart_sum_push(cs: Seq<ContainerStatus>, c: ContainerStatus)
    ensures
        restart_sum(cs.push(c)) == restart_sum(cs) + c.restart_count,
        restart_sum(Seq::<ContainerStatus>::empty()) == 0,
{
    assert(cs.push(c).drop_last() =~= cs);
}

/// The STATUS column of a pod's row is the phase of its status, and
/// `Unknown` when there is no status or no phase; the RESTARTS column of a
/// pod without listed statuses is `0`.
pub proof fn lemma_phase_and_restarts_columns(pod: Pod)
    ensures
        phase_text(pod) == match pod.status {
            Some(s) => match s.phase {
                Some(p) => p@,
                None => "Unknown"@,
            },
            None => "Unknown"@,
        },
        statuses_of(pod.status) is None ==> restarts_text(pod) == "0"@,
        statuses_of(pod.status) matches Some(cs) ==> restarts_text(pod) == int_text(
            restart_sum(cs@),
        ),
{
}

/// The container statuses of a pod status, if listed.
pub open spec fn statuses_of(status: Option<PodStatus>) -> Option<Vec<ContainerStatus>> {
    match status {
        Some(s) => s.container_statuses,
        None => None,
    }
}

/// The readiness column of a pod: ready containers over all containers,
/// `0/0` when the statuses are not listed.
pub open spec fn ready_text(pod: Pod) -> Seq<char> {
    match statuses_of(pod.status) {
        Some(cs) => nat_text(ready_count(cs@)) + "/"@ + nat_text(cs@.len()),
        None => "0/0"@,
    }
}

/// The phase column of a pod: its phase, or `Unknown`.
pub open spec fn phase_text(pod: Pod) -> Seq<char> {
    match pod.status {
        Some(s) => match s.phase {
            Some(p) => p@,
            None => "Unknown"@,
        },
        None => "Unknown"@,
    }
}

/// The restarts column of a pod: the sum of its containers' restart
/// counts, `0` when the statuses are not listed.
pub open spec fn restarts_text(pod: Pod) -> Seq<char> {
    match statuses_of(pod.status) {
        Some(cs) => int_text(restart_sum(cs@)),
        None => "0"@,
    }
}

/// Whether a pod can be turned into a row: its restart counts add up
/// within an `i32`.
pub open spec fn pod_row_ok(pod: Pod) -> bool {
    match statuses_of(pod.status) {
        Some(cs) => restarts_fit(cs@),
        None => true,
    }
}

/// The text of a string or the empty text.
pub open spec fn or_empty(s: Option<String>) -> Seq<char> {
    match s {
        Some(v) => v@,
        None => Seq::empty(),
    }
}

fn or_empty_string(s: Option<String>) -> (r: String)
    ensures
        r@ == or_empty(s),
{
    match s {
        Some(v) => v,
        None => String::new(),
    }
}

fn ready_string(pod: &Pod) -> (r: String)
    ensures
        r@ == ready_text(*pod),
{
    let cs = match &pod.status {
        Some(s) => match &s.container_statuses {
            Some(cs) => cs,
            None => {
                return string_of("0/0");
            },
        },
        None => {
            return string_of("0/0");
        },
    };
    let n = cs.len();
    let mut ready: usize = 0;
    let mut i: usize = 0;
    proof {
        assert(cs@.take(0) =~= Seq::<ContainerStatus>::empty());
    }
    while i < n
        invariant
            n == cs@.len(),
            i <= n,
            ready <= i,
            ready == ready_count(cs@.take(i as int)),
        decreases n - i,
    {
        proof {
            assert(cs@.take(i + 1).drop_last() =~= cs@.take(i as int));
            assert(cs@.take(i + 1).last() == cs@[i as int]);
        }
        if cs[i].ready {
            ready += 1;
        }
        i += 1;
    }
    proof {
        assert(cs@.take(n as int) =~= cs@);
    }
    let mut r = String::new();
    append_nat(&mut r, ready as u64);
    r.append("/");
    append_nat(&mut r, n as u64);
    r
}

fn restarts_string(pod: &Pod) -> (r: String)
    requires
        pod_row_ok(*pod),
    ensures
        r@ == restarts_text(*pod),
{
    let cs = match &pod.status {
        Some(s) => match &s.container_statuses {
            Some(cs) => cs,
            None => {
                return string_of("0");
            },
        },
        None => {
            return string_of("0");
        },
    };
    let n = cs.len();
    let mut sum: i32 = 0;
    let mut i: usize = 0;
    proof {
        assert(cs@.take(0) =~= Seq::<ContainerStatus>::empty());
    }
    while i < n
        invariant
            n == cs@.len(),
            i <= n,
            restarts_fit(cs@),
            sum == restart_sum(cs@.take(i as int)),
        decreases n - i,
    {
        proof {
            assert(cs@.take(i + 1).drop_last() =~= cs@.take(i as int));
            assert(cs@.take(i + 1).last() == cs@[i as int]);
            assert(i32::MIN <= restart_sum(cs@.take(i + 1)) <= i32::MAX);
        }
        sum = sum + cs[i].restart_count;
        i += 1;
    }
    proof {
        assert(cs@.take(n as int) =~= cs@);
    }
    int_string(sum as i64)
}

/// The row of a pod at the given time: name, namespace, readiness, phase,
/// restarts and age.
pub fn pod_row(pod: Pod, now: Time) -> (r: ResourceRow)
    requires
        pod_row_ok(pod),
    ensures
        r.name@ == or_empty(pod.metadata.name),
        r.namespace@ == or_empty(pod.metadata.namespace),
        r.data.deep_view() == seq![
            ready_text(pod),
            phase_text(pod),
            restarts_text(pod),
            age_text(pod.metadata.creation_timestamp, now),
        ],
{
    let ready = ready_string(&pod);
    let phase = match &pod.status {
        Some(s) => match &s.phase {
            Some(p) => p.clone(),
            None => string_of("Unknown"),
        },
        None => string_of("Unknown"),
    };
    let restarts = restarts_string(&pod);
    let age = age_at(pod.metadata.creation_timestamp, now);
    let mut data: Vec<String> = Vec::new();
    push_line(&mut data, ready);
    push_line(&mut data, phase);
    push_line(&mut data, restarts);
    push_line(&mut data, age);
    let ghost p = pod;
    let name = or_empty_string(pod.metadata.name);
    let namespace = or_empty_string(pod.metadata.namespace);
    proof {
        assert(data.deep_view() =~= seq![
            ready_text(p),
            phase_text(p),
            restarts_text(p),
            age_text(p.metadata.creation_timestamp, now),
        ]);
    }
    ResourceRow { name, namespace, data }
}

impl IntoResourceRow for Pod {
    open spec fn convertible(&self) -> bool {
        pod_row_ok(*self)
    }

    /// The row of the pod, with its age at the time now.
    fn into_resource_row(self) -> (r: ResourceRow)
        ensures
            r.name@ == or_empty(self.metadata.name),
            r.namespace@ == or_empty(self.metadata.namespace),
            exists|t: Time|
                t.nanos < NANOS_PER_SEC && r.data.deep_view() == seq![
                    ready_text(self),
                    phase_text(self),
                    restarts_text(self),
                    age_text(self.metadata.creation_timestamp, t),
                ],
    {
        let t = now();
        pod_row(self, t)
    }
}

} // verus!
