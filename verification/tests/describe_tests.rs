use k7s::containers::{
    deployment_volume_lines, env_var_value, format_container_ports, probe_str, toleration_str,
};
use k7s::controllers::{describe_daemonset, describe_job, describe_replicaset};
use k7s::deployments::describe_deployment;
use k7s::describe::{annotations_lines, multiline_labels, section_identity, time_string};
use k7s::model::{
    ConfigMapVolumeSource, Container, ContainerPort, ContainerState, ContainerStateRunning,
    ContainerStateTerminated, ContainerStateWaiting, ContainerStatus, DaemonSet, DaemonSetSpec,
    DaemonSetStatus, Deployment, DeploymentCondition, SecretVolumeSource, DeploymentSpec, DeploymentStatus,
    DeploymentStrategy, EnvVar, EnvVarSource, ExecAction, HttpGetAction, IntOrString, Job,
    JobCondition, JobStatus, KeySelector, LoadBalancerIngress, LoadBalancerStatus,
    NfsVolumeSource, ObjectMeta, ObjectReference, OwnerReference, Pairs, PersistentVolume,
    PersistentVolumeClaim, PersistentVolumeClaimCondition, PersistentVolumeClaimSpec,
    PersistentVolumeClaimStatus, PersistentVolumeSpec, PersistentVolumeStatus, Pod,
    PodCondition, PodSpec, PodStatus, PodTemplateSpec, Probe, ReplicaSet, ReplicaSetSpec,
    ReplicaSetStatus, ResourceRequirements, RollingUpdateDeployment, Service, ServicePort,
    ServiceSpec, ServiceStatus, TcpSocketAction, Time, Toleration, Volume, VolumeMount,
    VolumeResourceRequirements,
};
use k7s::pods::{describe_pod, format_container_state};
use k7s::services::describe_service;
use k7s::storage::{describe_pv, describe_pvc};

fn f(label: &str, value: &str) -> String {
    format!("  {:<28}  {}", label, value)
}

fn heading(title: &str) -> String {
    format!("━━━ {} {}", title, "━".repeat(54usize.saturating_sub(title.len())))
}

fn sect(out: &mut Vec<String>, title: &str) {
    out.push(String::new());
    out.push(heading(title));
}

fn bottom(out: &mut Vec<String>) {
    out.push(String::new());
    out.push(String::new());
    out.push(String::new());
    out.push(format!("─── Navigational Tips {}", "─".repeat(37)));
    out.push("  Esc / q — close   ↑ ↓ PgDn PgUp Home End — navigate".to_string());
}

fn s(v: &str) -> String {
    v.to_string()
}

fn pairs(v: &[(&str, &str)]) -> Pairs {
    assert!(v.windows(2).all(|w| w[0].0 < w[1].0), "keys in increasing order");
    Pairs::new(v.iter().map(|(k, x)| (s(k), s(x))).collect())
}

fn meta(name: &str, ns: Option<&str>) -> ObjectMeta {
    ObjectMeta {
        name: Some(s(name)),
        namespace: ns.map(s),
        creation_timestamp: None,
        labels: None,
        annotations: None,
        owner_references: None,
    }
}

fn identity(out: &mut Vec<String>, name: &str, ns: &str) {
    sect(out, "Identity");
    out.push(f("Name", name));
    out.push(f("Namespace", ns));
    out.push(f("Created", "<none>"));
    out.push(f("Labels", "<none>"));
    out.push(f("Annotations", "<none>"));
    out.push(f("Owned by", "<none>"));
}

fn container(name: &str) -> Container {
    Container {
        name: s(name),
        image: Some(s("nginx:1.27")),
        ports: None,
        args: None,
        env: None,
        resources: None,
        liveness_probe: None,
        readiness_probe: None,
        volume_mounts: None,
    }
}

fn probe() -> Probe {
    Probe {
        http_get: None,
        exec_action: None,
        tcp_socket: None,
        initial_delay_seconds: None,
        timeout_seconds: None,
        period_seconds: None,
        success_threshold: None,
        failure_threshold: None,
    }
}

#[test]
fn identity_section_lists_labels_annotations_and_owners() {
    let m = ObjectMeta {
        name: Some(s("web")),
        namespace: None,
        creation_timestamp: Some(Time { secs: 0, nanos: 0 }),
        labels: Some(pairs(&[("app", "web"), ("tier", "front")])),
        annotations: Some(pairs(&[
            ("config", "{\"a\": 1}"),
            ("list", " [1] "),
            ("long", &"z".repeat(130)),
            ("note", "hello"),
        ])),
        owner_references: Some(vec![
            OwnerReference { kind: s("ReplicaSet"), name: s("web-1") },
            OwnerReference { kind: s("Node"), name: s("n1") },
        ]),
    };
    let mut lines = Vec::new();
    section_identity(&mut lines, &m);
    let mut want = Vec::new();
    sect(&mut want, "Identity");
    want.push(f("Name", "web"));
    want.push(f("Namespace", "<none>"));
    want.push(f("Created", "Thu, 1 Jan 1970 00:00:00 +0000"));
    want.push(f("Labels", "app  =  web"));
    want.push(f("", "tier  =  front"));
    want.push(f("Annotations", &format!("long: {}…", "z".repeat(120))));
    want.push(f("", "note: hello"));
    want.push(f("Owned by", "ReplicaSet/web-1, Node/n1"));
    assert_eq!(lines, want);
}

#[test]
fn only_json_annotations_show_none() {
    let mut lines = Vec::new();
    annotations_lines(&mut lines, "Annotations", &Some(pairs(&[("a", "{}")])));
    assert_eq!(lines, vec![f("Annotations", "<none>")]);
    let mut empty = Vec::new();
    multiline_labels(&mut empty, "Labels", &Some(pairs(&[])));
    assert_eq!(empty, vec![f("Labels", "<none>")]);
}

#[test]
fn container_ports_name_the_protocol() {
    let mut c = container("web");
    assert_eq!(format_container_ports(&c), "<none>");
    c.ports = Some(vec![
        ContainerPort { container_port: 80, protocol: None, name: Some(s("http")) },
        ContainerPort { container_port: 53, protocol: Some(s("UDP")), name: None },
    ]);
    assert_eq!(format_container_ports(&c), "80/TCP (http), 53/UDP");
    c.ports = Some(vec![]);
    assert_eq!(format_container_ports(&c), "");
}

#[test]
fn env_values_come_from_the_first_source_present() {
    let mut ev = EnvVar { name: s("A"), value: Some(s("1")), value_from: None };
    assert_eq!(env_var_value(&ev), "1");
    ev.value = None;
    assert_eq!(env_var_value(&ev), "<none>");
    ev.value_from = Some(EnvVarSource {
        field_ref: None,
        secret_key_ref: Some(KeySelector { name: None, key: s("pw") }),
        config_map_key_ref: Some(KeySelector { name: Some(s("cm")), key: s("k") }),
    });
    assert_eq!(env_var_value(&ev), "secret:?/pw");
    ev.value_from = Some(EnvVarSource {
        field_ref: Some(s("metadata.name")),
        secret_key_ref: None,
        config_map_key_ref: None,
    });
    assert_eq!(env_var_value(&ev), "(metadata.name)");
    ev.value_from = Some(EnvVarSource {
        field_ref: None,
        secret_key_ref: None,
        config_map_key_ref: Some(KeySelector { name: Some(s("cm")), key: s("k") }),
    });
    assert_eq!(env_var_value(&ev), "configmap:cm/k");
}

#[test]
fn probes_show_their_action_and_timings() {
    let mut p = probe();
    assert_eq!(probe_str(&p), "unknown delay=0s timeout=1s period=10s #success=1 #failure=3");
    p.http_get = Some(HttpGetAction { port: IntOrString::Int(8080), scheme: Some(s("HTTPS")), path: None });
    p.initial_delay_seconds = Some(5);
    assert_eq!(probe_str(&p), "http-get https:8080/ delay=5s timeout=1s period=10s #success=1 #failure=3");
    p.http_get = Some(HttpGetAction { port: IntOrString::String(s("web")), scheme: None, path: Some(s("/healthz")) });
    assert_eq!(probe_str(&p), "http-get http:web/healthz delay=5s timeout=1s period=10s #success=1 #failure=3");
    p.http_get = None;
    p.exec_action = Some(ExecAction { command: Some(vec![s("cat"), s("/tmp/ok")]) });
    assert_eq!(probe_str(&p), "exec cat /tmp/ok delay=5s timeout=1s period=10s #success=1 #failure=3");
    p.exec_action = None;
    p.tcp_socket = Some(TcpSocketAction { port: IntOrString::String(s("db")) });
    p.failure_threshold = Some(7);
    assert_eq!(probe_str(&p), "tcp-socket :String(\"db\") delay=5s timeout=1s period=10s #success=1 #failure=7");
    p.tcp_socket = Some(TcpSocketAction { port: IntOrString::Int(5432) });
    assert_eq!(probe_str(&p), "tcp-socket :Int(5432) delay=5s timeout=1s period=10s #success=1 #failure=7");
}

#[test]
fn probe_names_are_lower_cased_and_quoted_by_std() {
    let mut p = probe();
    p.http_get = Some(HttpGetAction { port: IntOrString::Int(80), scheme: Some(s("HtTp")), path: Some(s("/")) });
    assert_eq!(probe_str(&p), "http-get http:80/ delay=0s timeout=1s period=10s #success=1 #failure=3");
    p.http_get = None;
    p.tcp_socket = Some(TcpSocketAction { port: IntOrString::String(s("a\"b")) });
    assert_eq!(probe_str(&p), "tcp-socket :String(\"a\\\"b\") delay=0s timeout=1s period=10s #success=1 #failure=3");
}

#[test]
fn tolerations_with_and_without_value() {
    let t = Toleration { key: Some(s("k")), operator: None, effect: Some(s("NoSchedule")), value: Some(s("v")) };
    assert_eq!(toleration_str(&t), "k=v: NoSchedule");
    let t = Toleration { key: None, operator: Some(s("Exists")), effect: None, value: None };
    assert_eq!(toleration_str(&t), "*: (Exists)");
}

#[test]
fn container_states() {
    let st = ContainerState {
        running: Some(ContainerStateRunning { started_at: Some(Time { secs: 86_400, nanos: 0 }) }),
        waiting: None,
        terminated: None,
    };
    assert_eq!(format_container_state(&st), "Running since Fri, 2 Jan 1970 00:00:00 +0000");
    let st = ContainerState {
        running: None,
        waiting: Some(ContainerStateWaiting { reason: Some(s("CrashLoopBackOff")) }),
        terminated: None,
    };
    assert_eq!(format_container_state(&st), "Waiting — CrashLoopBackOff");
    let st = ContainerState {
        running: None,
        waiting: None,
        terminated: Some(ContainerStateTerminated { exit_code: 137, reason: None }),
    };
    assert_eq!(format_container_state(&st), "Terminated — exit 137 (?)");
    let st = ContainerState { running: None, waiting: None, terminated: None };
    assert_eq!(format_container_state(&st), "<unknown>");
}

#[test]
fn describe_reports_fetch_errors() {
    let r: Result<Pod, String> = Err(s("pods \"x\" not found"));
    assert_eq!(describe_pod(&r, "x", Some("default")), vec!["  Error fetching Pod 'x': pods \"x\" not found"]);
    let r: Result<PersistentVolumeClaim, String> = Err(s("boom"));
    assert_eq!(describe_pvc(&r, "c", None), vec!["  Error fetching PVC 'c': boom"]);
    let r: Result<PersistentVolume, String> = Err(s("boom"));
    assert_eq!(describe_pv(&r, "v"), vec!["  Error fetching PersistentVolume 'v': boom"]);
}

#[test]
fn describe_pod_lists_every_section() {
    let mut c = container("web");
    c.ports = Some(vec![ContainerPort { container_port: 80, protocol: None, name: Some(s("http")) }]);
    c.resources = Some(ResourceRequirements { requests: None, limits: Some(pairs(&[("cpu", "500m"), ("memory", "64Mi")])) });
    let p = Pod {
        metadata: meta("web-0", Some("prod")),
        spec: Some(PodSpec {
            containers: vec![c],
            volumes: None,
            node_selector: None,
            tolerations: None,
            service_account_name: Some(s("default")),
            node_name: Some(s("node-1")),
        }),
        status: Some(PodStatus {
            phase: Some(s("Running")),
            pod_ip: Some(s("10.0.0.5")),
            host_ip: None,
            container_statuses: Some(vec![ContainerStatus {
                name: s("web"),
                ready: true,
                restart_count: 2,
                image: s("nginx:1.27"),
                state: Some(ContainerState {
                    running: None,
                    waiting: Some(ContainerStateWaiting { reason: None }),
                    terminated: None,
                }),
            }]),
            conditions: Some(vec![PodCondition { type_: s("Ready"), status: s("True") }]),
        }),
    };
    let lines = describe_pod(&Ok(p), "web-0", Some("prod"));
    let mut want = Vec::new();
    identity(&mut want, "web-0", "prod");
    want.push(f("Node", "node-1"));
    want.push(f("ServiceAccount", "default"));
    sect(&mut want, "Status");
    want.push(f("Phase", "Running"));
    want.push(f("Pod IP", "10.0.0.5"));
    want.push(f("Host IP", "<none>"));
    sect(&mut want, "Containers");
    want.push(s("  Container: web"));
    want.push(f("    Image", "nginx:1.27"));
    want.push(f("    Ports", "80/TCP"));
    want.push(f("    Limits", "cpu=500m, memory=64Mi"));
    sect(&mut want, "Container Statuses");
    want.push(s("  Container: web"));
    want.push(f("    Ready", "true"));
    want.push(f("    Restart count", "2"));
    want.push(f("    Image", "nginx:1.27"));
    want.push(f("    State", "Waiting — ?"));
    sect(&mut want, "Conditions");
    want.push(format!("  {:<24}  {}", "Type", "Status"));
    want.push(format!("  {:<24}  {}", "────", "──────"));
    want.push(format!("  {:<24}  {}", "Ready", "True"));
    sect(&mut want, "Hints");
    want.push(s("  kubectl describe pod/web-0 -n prod"));
    want.push(s("  kubectl logs web-0 -n prod"));
    bottom(&mut want);
    assert_eq!(lines, want);
}

#[test]
fn describe_deployment_lists_spec_template_and_conditions() {
    let mut c = container("api");
    c.args = Some(vec![s("--port=80"), s("--verbose")]);
    c.env = Some(vec![EnvVar { name: s("MODE"), value: Some(s("prod")), value_from: None }]);
    c.resources = Some(ResourceRequirements { requests: Some(pairs(&[("cpu", "100m"), ("memory", "32Mi")])), limits: None });
    let mut rp = probe();
    rp.exec_action = Some(ExecAction { command: None });
    c.readiness_probe = Some(rp);
    c.volume_mounts = Some(vec![
        VolumeMount { mount_path: s("/data"), read_only: None },
        VolumeMount { mount_path: s("/etc/cfg"), read_only: Some(true) },
    ]);
    let d = Deployment {
        metadata: meta("api", Some("prod")),
        spec: Some(DeploymentSpec {
            selector_match_labels: Some(pairs(&[("app", "api")])),
            replicas: Some(3),
            strategy: Some(DeploymentStrategy {
                type_: Some(s("RollingUpdate")),
                rolling_update: Some(RollingUpdateDeployment { max_unavailable: Some(IntOrString::Int(1)), max_surge: None }),
            }),
            min_ready_seconds: None,
            template: PodTemplateSpec {
                metadata: Some(ObjectMeta { labels: Some(pairs(&[("app", "api")])), ..meta("", None) }),
                spec: Some(PodSpec {
                    containers: vec![c],
                    volumes: Some(vec![
                        Volume { name: s("cfg"), secret: None, config_map: Some(ConfigMapVolumeSource { name: Some(s("api-cfg")) }), empty_dir: false },
                        Volume { name: s("tmp"), secret: None, config_map: None, empty_dir: true },
                    ]),
                    node_selector: None,
                    tolerations: Some(vec![]),
                    service_account_name: None,
                    node_name: None,
                }),
            },
        }),
        status: Some(DeploymentStatus {
            updated_replicas: Some(3),
            replicas: Some(3),
            available_replicas: Some(2),
            unavailable_replicas: None,
            conditions: Some(vec![DeploymentCondition { type_: s("Available"), status: s("True"), reason: None }]),
        }),
    };
    let lines = describe_deployment(&Ok(d), "api", None);
    let mut want = Vec::new();
    identity(&mut want, "api", "prod");
    sect(&mut want, "Spec");
    want.push(f("Selector", "app  =  api"));
    want.push(f("Replicas", "3 desired | 3 updated | 3 total | 2 available | 0 unavailable"));
    want.push(f("StrategyType", "RollingUpdate"));
    want.push(f("RollingUpdateStrategy", "1 max unavailable, 25% max surge"));
    want.push(f("MinReadySeconds", "0"));
    sect(&mut want, "Pod Template");
    want.push(f("  Labels", "app  =  api"));
    want.push(f("  ServiceAccount", "<none>"));
    want.push(s("  Container: api"));
    want.push(f("    Image", "nginx:1.27"));
    want.push(f("    Ports", "<none>"));
    want.push(f("    Args", "--port=80"));
    want.push(f("", "--verbose"));
    want.push(f("    Env", "MODE: prod"));
    want.push(f("    Requests", "cpu: 100m  memory: 32Mi"));
    want.push(f("    Readiness", "exec  delay=0s timeout=1s period=10s #success=1 #failure=3"));
    want.push(f("    Mounts", "/data, /etc/cfg (ro)"));
    want.push(s("  Volumes:"));
    want.push(s("    cfg"));
    want.push(f("      Type", "ConfigMap"));
    want.push(f("      Name", "api-cfg"));
    want.push(s("    tmp"));
    want.push(f("      Type", "EmptyDir"));
    want.push(f("  Node-Selectors", "<none>"));
    want.push(f("  Tolerations", "<none>"));
    sect(&mut want, "Conditions");
    want.push(format!("  {:<20}  {:<8}  {}", "Type", "Status", "Reason"));
    want.push(format!("  {:<20}  {:<8}  {}", "────", "──────", "──────"));
    want.push(format!("  {:<20}  {:<8}  {}", "Available", "True", ""));
    sect(&mut want, "Hints");
    want.push(s("  kubectl describe deployment/api -n default"));
    want.push(s("  kubectl get deployment/api -n default -o yaml"));
    bottom(&mut want);
    assert_eq!(lines, want);
}

#[test]
fn describe_service_lists_ports_and_addresses() {
    let svc = Service {
        metadata: meta("web", Some("prod")),
        spec: Some(ServiceSpec {
            type_: Some(s("LoadBalancer")),
            cluster_ip: Some(s("10.96.0.10")),
            selector: None,
            ports: Some(vec![
                ServicePort { port: 80, protocol: None, name: Some(s("http")), target_port: Some(IntOrString::Int(8080)), node_port: Some(30080) },
                ServicePort { port: 443, protocol: Some(s("TCP")), name: None, target_port: None, node_port: None },
            ]),
            external_ips: None,
            ip_families: Some(vec![s("IPv4")]),
            ip_family_policy: Some(s("SingleStack")),
        }),
        status: Some(ServiceStatus {
            load_balancer: Some(LoadBalancerStatus {
                ingress: Some(vec![
                    LoadBalancerIngress { ip: None, hostname: Some(s("lb.example.com")) },
                    LoadBalancerIngress { ip: None, hostname: None },
                    LoadBalancerIngress { ip: Some(s("1.2.3.4")), hostname: Some(s("x")) },
                ]),
            }),
        }),
    };
    let lines = describe_service(&Ok(svc), "web", Some("prod"));
    let mut want = Vec::new();
    identity(&mut want, "web", "prod");
    sect(&mut want, "Spec");
    want.push(f("Type", "LoadBalancer"));
    want.push(f("ClusterIP", "10.96.0.10"));
    want.push(f("Selector", "<none>"));
    want.push(f("Ports", "80/TCP http -> 8080 NodePort=30080"));
    want.push(f("", "443/TCP  -> 443"));
    want.push(f("External IPs", "<none>"));
    want.push(f("LoadBalancer", "lb.example.com, 1.2.3.4"));
    want.push(f("IP Families", "IPv4"));
    want.push(f("IP Policy", "SingleStack"));
    sect(&mut want, "Hints");
    want.push(s("  kubectl describe service/web -n prod"));
    want.push(s("  kubectl get endpoints/web -n prod"));
    bottom(&mut want);
    assert_eq!(lines, want);
}

#[test]
fn describe_service_without_spec() {
    let svc = Service { metadata: meta("web", None), spec: None, status: None };
    let lines = describe_service(&Ok(svc), "web", None);
    assert_eq!(lines[9], heading("Spec"));
    assert_eq!(lines[10], f("Spec", "<none>"));
    assert_eq!(lines[13], "  kubectl describe service/web -n default");
}

#[test]
fn describe_replicaset_and_daemonset() {
    let rs = ReplicaSet {
        metadata: meta("web-1", Some("prod")),
        spec: Some(ReplicaSetSpec {
            replicas: Some(2),
            template: Some(PodTemplateSpec { metadata: None, spec: Some(PodSpec {
                containers: vec![container("web")],
                volumes: None,
                node_selector: None,
                tolerations: None,
                service_account_name: None,
                node_name: None,
            }) }),
        }),
        status: Some(ReplicaSetStatus { replicas: 2, ready_replicas: Some(1), available_replicas: None }),
    };
    let lines = describe_replicaset(&Ok(rs), "web-1", Some("prod"));
    let mut want = Vec::new();
    identity(&mut want, "web-1", "prod");
    sect(&mut want, "Replicas");
    want.push(f("Desired", "2"));
    want.push(f("Current", "2"));
    want.push(f("Ready", "1"));
    want.push(f("Available", "0"));
    sect(&mut want, "Pod Template");
    want.push(f("  Labels", "<none>"));
    want.push(s("  Container: web"));
    want.push(f("    Image", "nginx:1.27"));
    sect(&mut want, "Hints");
    want.push(s("  kubectl describe replicaset/web-1 -n prod"));
    bottom(&mut want);
    assert_eq!(lines, want);

    let ds = DaemonSet {
        metadata: meta("agent", Some("kube-system")),
        spec: Some(DaemonSetSpec { template: PodTemplateSpec { metadata: None, spec: Some(PodSpec {
            containers: vec![container("agent")],
            volumes: None,
            node_selector: Some(pairs(&[("os", "linux")])),
            tolerations: None,
            service_account_name: None,
            node_name: None,
        }) } }),
        status: Some(DaemonSetStatus {
            desired_number_scheduled: 3,
            current_number_scheduled: 3,
            number_ready: 2,
            number_available: Some(2),
            number_unavailable: Some(1),
        }),
    };
    let lines = describe_daemonset(&Ok(ds), "agent", Some("kube-system"));
    let mut want = Vec::new();
    identity(&mut want, "agent", "kube-system");
    sect(&mut want, "Status");
    want.push(f("Desired", "3"));
    want.push(f("Current", "3"));
    want.push(f("Ready", "2"));
    want.push(f("Available", "2"));
    want.push(f("Unavailable", "1"));
    sect(&mut want, "Pod Template");
    want.push(s("  Container: agent"));
    want.push(f("    Image", "nginx:1.27"));
    want.push(f("  Node Selector", "os  =  linux"));
    sect(&mut want, "Hints");
    want.push(s("  kubectl describe daemonset/agent -n kube-system"));
    bottom(&mut want);
    assert_eq!(lines, want);
}

#[test]
fn describe_job_uses_the_api_defaults() {
    let j = Job {
        metadata: meta("backup", Some("ops")),
        spec: None,
        status: Some(JobStatus {
            active: None,
            succeeded: Some(1),
            failed: None,
            start_time: Some(Time { secs: 0, nanos: 0 }),
            completion_time: None,
            conditions: Some(vec![JobCondition { type_: s("Complete"), status: s("True"), message: Some(s("done")) }]),
        }),
    };
    let lines = describe_job(&Ok(j), "backup", Some("ops"));
    let mut want = Vec::new();
    identity(&mut want, "backup", "ops");
    sect(&mut want, "Spec");
    want.push(f("Completions", "1"));
    want.push(f("Parallelism", "1"));
    want.push(f("BackoffLimit", "6"));
    sect(&mut want, "Status");
    want.push(f("Active", "0"));
    want.push(f("Succeeded", "1"));
    want.push(f("Failed", "0"));
    want.push(f("Start time", "Thu, 1 Jan 1970 00:00:00 +0000"));
    want.push(f("End time", "<none>"));
    sect(&mut want, "Conditions");
    want.push(format!("  {:<20}  {:<8}  {}", "Type", "Status", "Message"));
    want.push(format!("  {:<20}  {:<8}  {}", "────", "──────", "───────"));
    want.push(format!("  {:<20}  {:<8}  {}", "Complete", "True", "done"));
    sect(&mut want, "Hints");
    want.push(s("  kubectl describe job/backup -n ops"));
    bottom(&mut want);
    assert_eq!(lines, want);
}

#[test]
fn describe_pv_and_pvc() {
    let pv = PersistentVolume {
        metadata: meta("pv-1", None),
        spec: Some(PersistentVolumeSpec {
            capacity: Some(pairs(&[("storage", "10Gi")])),
            access_modes: Some(vec![s("ReadWriteOnce"), s("ReadOnlyMany")]),
            persistent_volume_reclaim_policy: Some(s("Retain")),
            storage_class_name: None,
            volume_mode: Some(s("Filesystem")),
            claim_ref: Some(ObjectReference { namespace: None, name: Some(s("data")) }),
            host_path: None,
            nfs: Some(NfsVolumeSource { server: s("nas"), path: s("/exports") }),
            aws_elastic_block_store: None,
            csi: None,
        }),
        status: Some(PersistentVolumeStatus { phase: Some(s("Bound")), reason: None, message: None, last_phase_transition_time: None }),
    };
    let lines = describe_pv(&Ok(pv), "pv-1");
    let mut want = Vec::new();
    identity(&mut want, "pv-1", "<none>");
    sect(&mut want, "Spec");
    want.push(f("Capacity", "10Gi"));
    want.push(f("Access Modes", "ReadWriteOnce, ReadOnlyMany"));
    want.push(f("Reclaim Policy", "Retain"));
    want.push(f("Storage Class", "<none>"));
    want.push(f("Volume Mode", "Filesystem"));
    want.push(f("Claim", "?/data"));
    want.push(f("Source", "NFS: nas:/exports"));
    sect(&mut want, "Status");
    want.push(f("Phase", "Bound"));
    sect(&mut want, "Status");
    want.push(f("Phase", "Bound"));
    want.push(f("Reason", "<none>"));
    want.push(f("Message", "<none>"));
    want.push(f("Last Transition", "<none>"));
    sect(&mut want, "Hints");
    want.push(s("  kubectl describe pv/pv-1"));
    want.push(s("  kubectl get pv/pv-1 -o yaml"));
    bottom(&mut want);
    assert_eq!(lines, want);

    let pvc = PersistentVolumeClaim {
        metadata: meta("data", Some("prod")),
        spec: Some(PersistentVolumeClaimSpec {
            volume_name: Some(s("pv-1")),
            storage_class_name: None,
            access_modes: None,
            resources: Some(VolumeResourceRequirements { requests: Some(pairs(&[("cpu", "1"), ("storage", "5Gi")])) }),
        }),
        status: Some(PersistentVolumeClaimStatus {
            phase: Some(s("Bound")),
            capacity: Some(pairs(&[])),
            access_modes: Some(vec![s("ReadWriteOnce")]),
            conditions: Some(vec![
                PersistentVolumeClaimCondition { type_: s("Resizing"), status: s("False") },
                PersistentVolumeClaimCondition { type_: s("Ready"), status: s("True") },
            ]),
        }),
    };
    let lines = describe_pvc(&Ok(pvc), "data", Some("prod"));
    let mut want = Vec::new();
    identity(&mut want, "data", "prod");
    sect(&mut want, "Spec");
    want.push(f("Volume", "pv-1"));
    want.push(f("StorageClass", "<none>"));
    want.push(f("AccessModes", "<none>"));
    want.push(f("Requested Storage", "5Gi"));
    sect(&mut want, "Status");
    want.push(f("Phase", "Bound"));
    want.push(f("Capacity", "<none>"));
    want.push(f("AccessModes", "ReadWriteOnce"));
    want.push(f("Conditions", "Resizing=False, Ready=True"));
    sect(&mut want, "Hints");
    want.push(s("  kubectl describe pvc/data -n prod"));
    bottom(&mut want);
    assert_eq!(lines, want);
}

#[test]
fn every_view_opens_with_identity_and_closes_with_key_help() {
    let mut head = Vec::new();
    identity(&mut head, "o", "ns");
    let mut tail = Vec::new();
    bottom(&mut tail);
    let views = vec![
        describe_pod(&Ok(Pod { metadata: meta("o", Some("ns")), spec: None, status: None }), "o", Some("ns")),
        describe_deployment(&Ok(Deployment { metadata: meta("o", Some("ns")), spec: None, status: None }), "o", Some("ns")),
        describe_service(&Ok(Service { metadata: meta("o", Some("ns")), spec: None, status: None }), "o", Some("ns")),
        describe_replicaset(&Ok(ReplicaSet { metadata: meta("o", Some("ns")), spec: None, status: None }), "o", Some("ns")),
        describe_daemonset(&Ok(DaemonSet { metadata: meta("o", Some("ns")), spec: None, status: None }), "o", Some("ns")),
        describe_job(&Ok(Job { metadata: meta("o", Some("ns")), spec: None, status: None }), "o", Some("ns")),
        describe_pv(&Ok(PersistentVolume { metadata: meta("o", Some("ns")), spec: None, status: None }), "o"),
        describe_pvc(&Ok(PersistentVolumeClaim { metadata: meta("o", Some("ns")), spec: None, status: None }), "o", Some("ns")),
    ];
    for v in views {
        assert!(v.len() >= head.len() + tail.len());
        assert_eq!(v[..head.len()], head[..]);
        assert_eq!(v[v.len() - tail.len()..], tail[..]);
    }
    let e: Result<Job, String> = Err(s("denied"));
    assert_eq!(describe_job(&e, "o", Some("ns")), vec!["  Error fetching Job 'o': denied"]);
}

#[test]
fn volume_names_that_are_empty_get_no_line() {
    let vols = vec![
        Volume { name: s("a"), secret: Some(SecretVolumeSource { secret_name: Some(s("")) }), config_map: None, empty_dir: false },
        Volume { name: s("b"), secret: None, config_map: Some(ConfigMapVolumeSource { name: Some(s("")) }), empty_dir: false },
        Volume { name: s("c"), secret: Some(SecretVolumeSource { secret_name: None }), config_map: None, empty_dir: false },
        Volume { name: s("d"), secret: Some(SecretVolumeSource { secret_name: Some(s("tls")) }), config_map: None, empty_dir: false },
    ];
    let mut lines = Vec::new();
    deployment_volume_lines(&mut lines, &vols);
    assert_eq!(
        lines,
        vec![
            s("  Volumes:"),
            s("    a"),
            f("      Type", "Secret"),
            s("    b"),
            f("      Type", "ConfigMap"),
            s("    c"),
            f("      Type", "Secret"),
            f("      Name", "<none>"),
            s("    d"),
            f("      Type", "Secret"),
            f("      Name", "tls"),
        ]
    );
}

#[test]
fn times_keep_their_leap_second() {
    assert_eq!(time_string(None), "<none>");
    assert_eq!(time_string(Some(Time { secs: 59, nanos: 0 })), "Thu, 1 Jan 1970 00:00:59 +0000");
    assert_eq!(time_string(Some(Time { secs: 59, nanos: 1_500_000_000 })), "Thu, 1 Jan 1970 00:00:60 +0000");
}
