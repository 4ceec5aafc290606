use k7s::app::{App, DetailModal, Pane};
use k7s::controls::{
    clamp_selection, handle_key, handle_modal_key, handle_table_navigation, handle_enter,
    set_namespaces,
    set_rows, show_detail, Action, Key,
};
use k7s::resources::ResourceRow;

fn row(name: &str, ns: &str) -> ResourceRow {
    ResourceRow { name: name.to_string(), namespace: ns.to_string(), data: vec![] }
}

fn app_with_pods(n: usize) -> App {
    let mut app = App::new();
    set_rows(&mut app, Pane::Pods, (0..n).map(|i| row(&format!("pod-{}", i), "default")).collect());
    app
}

#[test]
fn tab_visits_every_pane_and_comes_back() {
    let mut app = App::new();
    let mut seen = vec![app.active_pane];
    for _ in 0..6 {
        handle_table_navigation(&mut app, Key::Tab);
        seen.push(app.active_pane);
    }
    assert_eq!(
        seen,
        vec![
            Pane::Pods,
            Pane::Services,
            Pane::Deployments,
            Pane::ReplicaSets,
            Pane::DaemonSets,
            Pane::Jobs,
            Pane::Pods
        ]
    );
}

#[test]
fn back_tab_goes_the_other_way_and_undoes_tab() {
    let mut app = App::new();
    handle_table_navigation(&mut app, Key::BackTab);
    assert_eq!(app.active_pane, Pane::Jobs);
    handle_table_navigation(&mut app, Key::Tab);
    assert_eq!(app.active_pane, Pane::Pods);
    handle_table_navigation(&mut app, Key::Tab);
    handle_table_navigation(&mut app, Key::Tab);
    handle_table_navigation(&mut app, Key::BackTab);
    assert_eq!(app.active_pane, Pane::Services);
}

#[test]
fn down_and_up_move_the_selection_within_the_table() {
    let mut app = app_with_pods(3);
    handle_table_navigation(&mut app, Key::Down);
    assert_eq!(app.states[0], Some(1));
    handle_table_navigation(&mut app, Key::Down);
    handle_table_navigation(&mut app, Key::Down);
    handle_table_navigation(&mut app, Key::Down);
    assert_eq!(app.states[0], Some(2));
    handle_table_navigation(&mut app, Key::Up);
    assert_eq!(app.states[0], Some(1));
    handle_table_navigation(&mut app, Key::Up);
    handle_table_navigation(&mut app, Key::Up);
    assert_eq!(app.states[0], Some(0));
    assert_eq!(app.states[1], Some(0));
}

#[test]
fn down_in_an_empty_table_stays_on_the_first_row() {
    let mut app = App::new();
    handle_table_navigation(&mut app, Key::Down);
    assert_eq!(app.states[0], Some(0));
    app.states[0] = None;
    handle_table_navigation(&mut app, Key::Down);
    assert_eq!(app.states[0], Some(0));
    app.states[0] = None;
    handle_table_navigation(&mut app, Key::Up);
    assert_eq!(app.states[0], Some(0));
}

#[test]
fn digits_select_listed_namespaces_only() {
    let mut app = App::new();
    set_namespaces(&mut app, vec!["default".to_string(), "kube-system".to_string()]);
    assert_eq!(app.namespaces, vec!["ALL", "default", "kube-system"]);
    handle_table_navigation(&mut app, Key::Char('2'));
    assert_eq!(app.selected_ns_index, 2);
    assert_eq!(app.get_current_ns(), Some("kube-system".to_string()));
    handle_table_navigation(&mut app, Key::Char('7'));
    assert_eq!(app.selected_ns_index, 2);
    handle_table_navigation(&mut app, Key::Char('x'));
    assert_eq!(app.selected_ns_index, 2);
    handle_table_navigation(&mut app, Key::Char('0'));
    assert_eq!(app.get_current_ns(), None);
}

#[test]
fn q_quits_and_other_keys_continue() {
    let mut app = App::new();
    assert!(matches!(handle_key(&mut app, Key::Char('q')), Action::Quit));
    assert!(matches!(handle_key(&mut app, Key::Tab), Action::Continue));
    assert_eq!(app.active_pane, Pane::Services);
    assert!(matches!(handle_key(&mut app, Key::Enter), Action::Continue));
    assert!(app.detail.is_none());
}

#[test]
fn enter_opens_a_loading_view_of_the_selected_row() {
    let mut app = app_with_pods(2);
    handle_key(&mut app, Key::Down);
    match handle_key(&mut app, Key::Enter) {
        Action::Describe { pane, name, namespace } => {
            assert_eq!(pane, Pane::Pods);
            assert_eq!(name, "pod-1");
            assert_eq!(namespace, Some("default".to_string()));
        },
        other => panic!("unexpected action {:?}", other),
    }
    let d = app.detail.as_ref().unwrap();
    assert_eq!(d.title, " ✦ Pods — pod-1 ");
    assert_eq!(d.lines, vec!["  Loading..."]);
    assert_eq!(d.scroll, 0);
    show_detail(&mut app, Pane::Pods, "pod-1", vec!["a".to_string(), "b".to_string()]);
    let d = app.detail.as_ref().unwrap();
    assert_eq!(d.title, " ✦ Pods — pod-1 ");
    assert_eq!(d.lines, vec!["a", "b"]);
}

#[test]
fn a_row_without_namespace_is_described_without_one() {
    let mut app = App::new();
    set_rows(&mut app, Pane::Pods, vec![row("pv-1", "")]);
    let r = handle_enter(&mut app);
    assert_eq!(r, Some((Pane::Pods, "pv-1".to_string(), None)));
}

#[test]
fn the_detail_view_takes_every_key() {
    let mut app = app_with_pods(3);
    app.detail = Some(DetailModal {
        title: "t".to_string(),
        lines: (0..30).map(|i| i.to_string()).collect(),
        scroll: 0,
        visible_height: 10,
    });
    assert!(matches!(handle_key(&mut app, Key::Down), Action::Continue));
    assert_eq!(app.states[0], Some(0));
    assert_eq!(app.detail.as_ref().unwrap().scroll, 1);
    assert!(matches!(handle_key(&mut app, Key::Tab), Action::Continue));
    assert_eq!(app.active_pane, Pane::Pods);
    handle_key(&mut app, Key::PageDown);
    assert_eq!(app.detail.as_ref().unwrap().scroll, 10);
    handle_key(&mut app, Key::End);
    assert_eq!(app.detail.as_ref().unwrap().scroll, 20);
    handle_key(&mut app, Key::PageUp);
    assert_eq!(app.detail.as_ref().unwrap().scroll, 11);
    handle_key(&mut app, Key::Home);
    assert_eq!(app.detail.as_ref().unwrap().scroll, 0);
    handle_key(&mut app, Key::Up);
    assert_eq!(app.detail.as_ref().unwrap().scroll, 0);
    assert!(matches!(handle_key(&mut app, Key::Char('q')), Action::Continue));
    assert!(app.detail.is_none());
}

#[test]
fn esc_and_enter_close_the_detail_view() {
    let mut app = App::new();
    assert!(!handle_modal_key(&mut app, Key::Esc));
    for key in [Key::Esc, Key::Enter, Key::Char('q')] {
        app.detail = Some(DetailModal { title: String::new(), lines: vec![], scroll: 0, visible_height: 0 });
        assert!(handle_modal_key(&mut app, key));
        assert!(app.detail.is_none());
    }
    app.detail = Some(DetailModal { title: String::new(), lines: vec![], scroll: 0, visible_height: 0 });
    assert!(handle_modal_key(&mut app, Key::Char('x')));
    assert!(app.detail.is_some());
}

#[test]
fn selections_stay_below_the_largest_index_in_every_pane() {
    let mut app = app_with_pods(2);
    let keys = [Key::Down, Key::Down, Key::Down, Key::Tab, Key::Down, Key::Up, Key::BackTab, Key::Up, Key::Down];
    for k in keys {
        handle_table_navigation(&mut app, k);
        assert!(app.states.iter().all(|s| *s != Some(usize::MAX)));
    }
    assert_eq!(app.active_pane, Pane::Pods);
    assert_eq!(app.states[0], Some(1));
    assert_eq!(app.states[1], Some(0));
}

#[test]
fn drawing_brings_the_selection_onto_the_rows() {
    let mut app = app_with_pods(5);
    for _ in 0..4 {
        handle_table_navigation(&mut app, Key::Down);
    }
    assert_eq!(app.states[0], Some(4));
    set_rows(&mut app, Pane::Pods, vec![row("a", "ns"), row("b", "ns")]);
    clamp_selection(&mut app, Pane::Pods);
    assert_eq!(app.states[0], Some(1));
    handle_table_navigation(&mut app, Key::Up);
    assert_eq!(app.states[0], Some(0));
    set_rows(&mut app, Pane::Pods, vec![]);
    clamp_selection(&mut app, Pane::Pods);
    assert_eq!(app.states[0], None);
    assert_eq!(handle_enter(&mut app), None);
    clamp_selection(&mut app, Pane::Services);
    assert_eq!(app.states[1], None);
}

#[test]
fn only_down_and_page_down_ask_for_room_to_add() {
    let mut app = app_with_pods(2);
    app.states[0] = Some(usize::MAX);
    handle_table_navigation(&mut app, Key::Tab);
    assert_eq!(app.active_pane, Pane::Services);
    handle_table_navigation(&mut app, Key::BackTab);
    assert_eq!(app.active_pane, Pane::Pods);
    handle_table_navigation(&mut app, Key::Up);
    assert_eq!(app.states[0], Some(usize::MAX - 1));
    app.detail = Some(DetailModal { title: "t".to_string(), lines: vec![], scroll: usize::MAX, visible_height: 3 });
    assert!(matches!(handle_key(&mut app, Key::Esc), Action::Continue));
    assert!(app.detail.is_none());
}
