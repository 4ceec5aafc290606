use k7s::model::{ContainerStatus, ObjectMeta, Pod, PodStatus, Time};
use k7s::resources::{age_at, get_age, pod_row, IntoResourceRow};

fn at(secs: i64, nanos: u32) -> Time {
    Time { secs, nanos }
}

fn meta(name: Option<&str>, ns: Option<&str>, created: Option<i64>) -> ObjectMeta {
    ObjectMeta {
        name: name.map(|s| s.to_string()),
        namespace: ns.map(|s| s.to_string()),
        creation_timestamp: created.map(|c| at(c, 0)),
        labels: None,
        annotations: None,
        owner_references: None,
    }
}

fn cs(ready: bool, restarts: i32) -> ContainerStatus {
    ContainerStatus {
        name: "c".to_string(),
        ready,
        restart_count: restarts,
        image: "img".to_string(),
        state: None,
    }
}

fn pod(statuses: Option<Vec<ContainerStatus>>, phase: Option<&str>, created: Option<i64>) -> Pod {
    Pod {
        metadata: meta(Some("web-0"), Some("prod"), created),
        spec: None,
        status: Some(PodStatus {
            phase: phase.map(|s| s.to_string()),
            pod_ip: None,
            host_ip: None,
            container_statuses: statuses,
            conditions: None,
        }),
    }
}

#[test]
fn age_shows_days_then_hours_then_minutes() {
    assert_eq!(age_at(None, at(1000, 0)), "-");
    assert_eq!(age_at(Some(at(0, 0)), at(90_000, 0)), "1d");
    assert_eq!(age_at(Some(at(0, 0)), at(86_400 * 12 + 5, 0)), "12d");
    assert_eq!(age_at(Some(at(0, 0)), at(86_399, 0)), "23h");
    assert_eq!(age_at(Some(at(0, 0)), at(7_200, 0)), "2h");
    assert_eq!(age_at(Some(at(0, 0)), at(3_599, 0)), "59m");
    assert_eq!(age_at(Some(at(0, 0)), at(59, 999)), "0m");
    assert_eq!(age_at(Some(at(1_000, 0)), at(1_000, 0)), "0m");
}

#[test]
fn age_of_an_object_from_the_future_rounds_towards_zero() {
    assert_eq!(age_at(Some(at(100, 0)), at(0, 0)), "-1m");
    assert_eq!(age_at(Some(at(120, 0)), at(0, 0)), "-2m");
    assert_eq!(age_at(Some(at(120, 0)), at(0, 500)), "-1m");
    assert_eq!(age_at(Some(at(60, 0)), at(0, 1)), "0m");
    assert_eq!(age_at(Some(at(100_000, 0)), at(0, 0)), "-1666m");
}

#[test]
fn get_age_without_creation_time_is_a_dash() {
    assert_eq!(get_age(&meta(None, None, None)), "-");
}

#[test]
fn pod_row_counts_ready_containers_and_restarts() {
    let p = pod(Some(vec![cs(true, 1), cs(false, 3), cs(true, 0)]), Some("Running"), Some(0));
    let r = pod_row(p, at(7_200, 0));
    assert_eq!(r.name, "web-0");
    assert_eq!(r.namespace, "prod");
    assert_eq!(r.data, vec!["2/3", "Running", "4", "2h"]);
}

#[test]
fn pod_row_without_statuses() {
    let p = pod(None, None, None);
    let r = pod_row(p, at(0, 0));
    assert_eq!(r.data, vec!["0/0", "Unknown", "0", "-"]);
    let bare = Pod { metadata: meta(None, None, None), spec: None, status: None };
    let r = pod_row(bare, at(0, 0));
    assert_eq!(r.name, "");
    assert_eq!(r.namespace, "");
    assert_eq!(r.data, vec!["0/0", "Unknown", "0", "-"]);
}

#[test]
fn pod_row_with_negative_restart_sum() {
    let p = pod(Some(vec![cs(false, -5), cs(false, 2)]), Some("Pending"), Some(0));
    let r = pod_row(p, at(172_800, 0));
    assert_eq!(r.data, vec!["0/2", "Pending", "-3", "2d"]);
}

#[test]
fn into_resource_row_uses_the_clock_only_for_the_age() {
    let p = pod(Some(vec![cs(true, 2)]), Some("Running"), None);
    let r = p.into_resource_row();
    assert_eq!(r.name, "web-0");
    assert_eq!(r.data, vec!["1/1", "Running", "2", "-"]);
}

/// The age as chrono reckons it from two points in time, written as the
/// pod table writes it.
fn chrono_age(created: (i64, u32), now: (i64, u32)) -> String {
    let c = chrono::DateTime::from_timestamp(created.0, created.1).unwrap();
    let n = chrono::DateTime::from_timestamp(now.0, now.1).unwrap();
    let d = n.signed_duration_since(c);
    if d.num_days() > 0 {
        format!("{}d", d.num_days())
    } else if d.num_hours() > 0 {
        format!("{}h", d.num_hours())
    } else {
        format!("{}m", d.num_minutes())
    }
}

#[test]
fn age_counts_nanoseconds_and_leap_seconds_as_chrono_does() {
    assert_eq!(age_at(Some(at(0, 500_000_000)), at(60, 0)), "0m");
    assert_eq!(age_at(Some(at(59, 1_500_000_000)), at(120, 0)), "1m");
    let points: Vec<(i64, u32)> = vec![
        (0, 0),
        (59, 1_500_000_000),
        (59, 999_999_999),
        (60, 0),
        (60, 1),
        (119, 1_000_000_000),
        (3_599, 1_999_999_999),
        (3_600, 0),
        (86_399, 1_200_000_000),
        (86_400, 0),
        (86_460, 700_000_000),
        (-1, 0),
        (-61, 1_000_000_000),
        (-86_400, 1),
        (1_700_000_000, 123),
        (1_700_086_379, 1_000_000_001),
    ];
    for &c in &points {
        for &n in &points {
            assert_eq!(age_at(Some(at(c.0, c.1)), at(n.0, n.1)), chrono_age(c, n), "created {:?}, now {:?}", c, n);
        }
    }
}
