use k7s::ticks::{millis_to_nanos, poll_wait, refresh_due, PULLING_DURATION_MS, TICKS_DELAY_MS};
use k7s::app::{pane_config, pane_configs, App, DetailModal, Pane};
use k7s::resources::ResourceRow;

fn modal(lines: usize, scroll: usize, height: usize) -> DetailModal {
    DetailModal {
        title: "t".to_string(),
        lines: (0..lines).map(|i| format!("line {}", i)).collect(),
        scroll,
        visible_height: height,
    }
}

fn row(name: &str, ns: &str) -> ResourceRow {
    ResourceRow { name: name.to_string(), namespace: ns.to_string(), data: vec![] }
}

#[test]
fn all_lists_the_panes_in_tab_order() {
    assert_eq!(
        Pane::all(),
        &[Pane::Pods, Pane::Services, Pane::Deployments, Pane::ReplicaSets, Pane::DaemonSets, Pane::Jobs]
    );
    for (i, p) in Pane::all().iter().enumerate() {
        assert_eq!(p.index(), i);
    }
}

#[test]
fn scroll_down_stops_at_the_last_page() {
    let mut m = modal(10, 0, 4);
    for _ in 0..20 {
        m.scroll_down();
    }
    assert_eq!(m.scroll, 6);
    let mut short = modal(3, 0, 4);
    short.scroll_down();
    assert_eq!(short.scroll, 0);
}

#[test]
fn scroll_up_stops_at_the_top() {
    let mut m = modal(10, 2, 4);
    m.scroll_up();
    assert_eq!(m.scroll, 1);
    m.scroll_up();
    m.scroll_up();
    assert_eq!(m.scroll, 0);
}

#[test]
fn page_down_moves_a_page_less_one_line() {
    let mut m = modal(100, 0, 10);
    m.page_down();
    assert_eq!(m.scroll, 9);
    m.page_down();
    assert_eq!(m.scroll, 18);
    let mut end = modal(20, 8, 10);
    end.page_down();
    assert_eq!(end.scroll, 10);
    let mut tiny = modal(20, 0, 0);
    tiny.page_down();
    assert_eq!(tiny.scroll, 1);
}

#[test]
fn page_up_moves_back_and_stops_at_the_top() {
    let mut m = modal(100, 20, 10);
    m.page_up();
    assert_eq!(m.scroll, 11);
    m.page_up();
    m.page_up();
    assert_eq!(m.scroll, 0);
    let mut one = modal(100, 5, 1);
    one.page_up();
    assert_eq!(one.scroll, 4);
}

#[test]
fn top_and_bottom() {
    let mut m = modal(30, 7, 10);
    m.scroll_to_bottom();
    assert_eq!(m.scroll, 20);
    m.scroll_down();
    assert_eq!(m.scroll, 20);
    m.scroll_to_top();
    assert_eq!(m.scroll, 0);
    let mut short = modal(5, 3, 10);
    short.scroll_to_bottom();
    assert_eq!(short.scroll, 0);
}

#[test]
fn down_then_up_returns() {
    let mut m = modal(30, 4, 10);
    m.scroll_down();
    m.scroll_up();
    assert_eq!(m.scroll, 4);
    m.page_down();
    m.page_up();
    assert_eq!(m.scroll, 4);
}

#[test]
fn fit_to_height_pulls_the_offset_back() {
    let mut m = modal(30, 25, 0);
    m.fit_to_height(10);
    assert_eq!(m.visible_height, 10);
    assert_eq!(m.scroll, 20);
    let mut n = modal(30, 5, 0);
    n.fit_to_height(10);
    assert_eq!(n.scroll, 5);
}

#[test]
fn visible_lines_is_the_window() {
    let m = modal(10, 3, 4);
    assert_eq!(m.visible_lines(), vec!["line 3", "line 4", "line 5", "line 6"]);
    let end = modal(10, 8, 4);
    assert_eq!(end.visible_lines(), vec!["line 8", "line 9"]);
    let past = modal(3, 7, 4);
    assert!(past.visible_lines().is_empty());
}

#[test]
fn new_app_starts_on_pods_and_all_namespaces() {
    let app = App::new();
    assert_eq!(app.active_pane, Pane::Pods);
    assert_eq!(app.rows.len(), 6);
    assert!(app.rows.iter().all(|r| r.is_empty()));
    assert_eq!(app.states, vec![Some(0); 6]);
    assert_eq!(app.namespaces, vec!["ALL".to_string()]);
    assert_eq!(app.selected_ns_index, 0);
    assert_eq!(app.server_version, "...");
    assert!(app.detail.is_none());
    assert_eq!(app.get_current_ns(), None);
    assert_eq!(app.active_rows_len(), 0);
    assert_eq!(app.selected_row_info(), None);
}

#[test]
fn current_namespace_follows_the_selection() {
    let mut app = App::new();
    app.namespaces = vec!["ALL".to_string(), "default".to_string(), "kube-system".to_string()];
    app.selected_ns_index = 2;
    assert_eq!(app.get_current_ns(), Some("kube-system".to_string()));
}

#[test]
fn selected_row_info_reads_the_active_table() {
    let mut app = App::new();
    app.rows[0] = vec![row("web-1", "default"), row("web-2", "prod")];
    assert_eq!(app.active_rows_len(), 2);
    assert_eq!(
        app.selected_row_info(),
        Some((Pane::Pods, "web-1".to_string(), "default".to_string()))
    );
    app.states[0] = Some(1);
    assert_eq!(
        app.selected_row_info(),
        Some((Pane::Pods, "web-2".to_string(), "prod".to_string()))
    );
    app.states[0] = Some(2);
    assert_eq!(app.selected_row_info(), None);
    app.states[0] = None;
    assert_eq!(app.selected_row_info(), None);
    app.active_pane = Pane::Jobs;
    assert_eq!(app.active_rows_len(), 0);
}

#[test]
fn namespace_labels_number_the_namespaces() {
    let mut app = App::new();
    app.namespaces = vec!["ALL".to_string(), "default".to_string()];
    assert_eq!(app.namespace_labels(), vec!["[0] ALL  ", "[1] default  "]);
}

#[test]
fn pane_configs_name_titles_and_columns() {
    let cfgs = pane_configs();
    assert_eq!(cfgs.len(), 6);
    assert_eq!(cfgs[0].title, "Pods");
    assert_eq!(cfgs[0].headers, vec!["NAME", "READY", "STATUS", "RESTARTS", "AGE"]);
    assert_eq!(cfgs[0].constraints, vec![35, 15, 20, 15, 15]);
    assert_eq!(cfgs[1].title, "Services");
    assert_eq!(cfgs[1].headers, vec!["NAME", "TYPE", "CLUSTER-IP", "EXTERNAL-IP", "PORT(S)", "AGE"]);
    assert_eq!(cfgs[1].constraints, vec![20, 15, 15, 15, 25, 10]);
    assert_eq!(cfgs[5].title, "Jobs");
    assert_eq!(cfgs[5].headers, vec!["NAME", "COMPLETIONS", "ACTIVE", "FAILED", "AGE"]);
    for (i, c) in cfgs.iter().enumerate() {
        assert_eq!(c.pane, Pane::all()[i]);
        assert_eq!(c.constraints.iter().map(|&w| w as u32).sum::<u32>(), 100);
    }
    assert_eq!(pane_config(Pane::DaemonSets).title, "DaemonSets");
    assert_eq!(pane_config(Pane::ReplicaSets).headers[1], "DESIRED");
}

#[test]
fn the_loop_waits_what_is_left_of_the_period_and_refreshes_when_due() {
    let period = millis_to_nanos(PULLING_DURATION_MS);
    assert_eq!(period, 250_000_000);
    assert_eq!(poll_wait(period, 0), 250_000_000);
    assert_eq!(poll_wait(period, 100_000_001), 149_999_999);
    assert_eq!(poll_wait(period, 250_000_000), 0);
    assert_eq!(poll_wait(period, 900_000_000), 0);
    let delay = millis_to_nanos(TICKS_DELAY_MS);
    assert!(!refresh_due(999_999_999, delay));
    assert!(refresh_due(1_000_000_000, delay));
}
