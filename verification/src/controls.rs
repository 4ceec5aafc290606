//! What each key does, and the changes that the refresh and the describe
//! views make to the viewer's state.

use crate::app::{
    max_scroll, page_step, pane_at, pane_config, pane_count, pane_index, pane_title, App,
    DetailModal, Pane,
};
use crate::resources::ResourceRow;
use crate::text::{push_line, string_of};
use vstd::prelude::*;
use vstd::string::*;

verus! {

broadcast use vstd::string::group_string_axioms;

/// A key press, as far as the viewer tells keys apart.
#[derive(Clone, Copy, Debug, PartialEq, Eq, Structural)]
pub enum Key {
    Char(char),
    Enter,
    Esc,
    Up,
    Down,
    PageUp,
    PageDown,
    Home,
    End,
    Tab,
    BackTab,
    Other,
}

/// The pane after `p` in the cycle (the first after the last).
pub open spec fn next_pane(p: Pane) -> Pane {
    pane_at(pane_index(p) + 1int)
}

/// The pane before `p` in the cycle (the last before the first).
pub open spec fn prev_pane(p: Pane) -> Pane {
    pane_at(pane_index(p) + pane_count() - 1int)
}

/// The selected row after moving down: the next row, but not past the
/// last row; the first row when nothing was selected.
pub open spec fn selection_down(sel: Option<usize>, len: nat) -> nat {
    match sel {
        None => 0,
        Some(i) => {
            let last = if len > 0 {
                (len - 1) as nat
            } else {
                0
            };
            if i + 1 < last {
                (i + 1) as nat
            } else {
                last
            }
        },
    }
}

/// The selected row after moving up: the previous row, but not above the
/// first; the first row when nothing was selected.
pub open spec fn selection_up(sel: Option<usize>) -> nat {
    match sel {
        None => 0,
        Some(i) => if i > 0 {
            (i - 1) as nat
        } else {
            0
        },
    }
}

/// The number that a digit key stands for, if it is a digit.
pub open spec fn digit_value(c: char) -> Option<nat> {
    if '0' <= c && c <= '9' {
        Some((c as u32 - '0' as u32) as nat)
    } else {
        None
    }
}

/// Everything but the pane, the selections and the namespace choice is as
/// in `b`.
pub open spec fn same_data(a: App, b: App) -> bool {
    &&& a.rows == b.rows
    &&& a.namespaces == b.namespaces
    &&& a.server_version == b.server_version
    &&& a.detail == b.detail
}

/// What a key does to the tables: Tab and Shift+Tab move to the next and
/// the previous pane; Down and Up move the active table's selection; a
/// digit selects that namespace when there is one; other keys do nothing.
pub open spec fn navigated(old: App, key: Key, new: App) -> bool {
    &&& same_data(new, old)
    &&& match key {
        Key::Tab => new.active_pane == next_pane(old.active_pane) && new.states == old.states
            && new.selected_ns_index == old.selected_ns_index,
        Key::BackTab => new.active_pane == prev_pane(old.active_pane) && new.states
            == old.states && new.selected_ns_index == old.selected_ns_index,
        Key::Down => new.active_pane == old.active_pane && new.states@ == old.states@.update(
            pane_index(old.active_pane) as int,
            Some(selection_down(old.active_selection(), old.active_rows().len()) as usize),
        ) && new.selected_ns_index == old.selected_ns_index,
        Key::Up => new.active_pane == old.active_pane && new.states@ == old.states@.update(
            pane_index(old.active_pane) as int,
            Some(selection_up(old.active_selection()) as usize),
        ) && new.selected_ns_index == old.selected_ns_index,
        Key::Char(c) => new.active_pane == old.active_pane && new.states == old.states && match digit_value(c) {
            Some(d) => if d < old.namespaces@.len() {
                new.selected_ns_index == d
            } else {
                new.selected_ns_index == old.selected_ns_index
            },
            None => new.selected_ns_index == old.selected_ns_index,
        },
        _ => new.active_pane == old.active_pane && new.states == old.states
            && new.selected_ns_index == old.selected_ns_index,
    }
}

/// Moving down in the active table can be done: the selection is not the
/// largest index there is. Only Down asks for it.
pub open spec fn can_navigate(app: App) -> bool {
    app.active_selection() != Some(usize::MAX)
}

/// Handles a key while no detail view is open: moves between panes, moves
/// the selection of the active table, or selects a namespace.
pub fn handle_table_navigation(app: &mut App, key: Key)
    requires
        old(app).wf(),
        key is Down ==> can_navigate(*old(app)),
    ensures
        final(app).wf(),
        navigated(*old(app), key, *final(app)),
{
    match key {
        Key::Tab => {
            let all = Pane::all();
            let idx = app.active_pane.index();
            app.active_pane = all[(idx + 1) % all.len()];
        },
        Key::BackTab => {
            let all = Pane::all();
            let idx = app.active_pane.index();
            app.active_pane = all[(idx + all.len() - 1) % all.len()];
        },
        Key::Down => {
            let len = app.active_rows_len();
            let p = app.active_pane.index();
            let i = match app.states[p] {
                Some(i) => {
                    let last = len.saturating_sub(1);
                    if i + 1 < last {
                        i + 1
                    } else {
                        last
                    }
                },
                None => 0,
            };
            app.states.set(p, Some(i));
        },
        Key::Up => {
            let p = app.active_pane.index();
            let i = match app.states[p] {
                Some(i) => i.saturating_sub(1),
                None => 0,
            };
            app.states.set(p, Some(i));
        },
        Key::Char(c) => {
            if '0' <= c && c <= '9' {
                let idx = (c as u32 - '0' as u32) as usize;
                if idx < app.namespaces.len() {
                    app.selected_ns_index = idx;
                }
            }
        },
        _ => {},
    }
}

/// What a key does to an open detail view: Esc, `q` and Enter close it;
/// Down, Up, PageDown, PageUp, End and Home move its window; other keys
/// leave it as it is.
pub open spec fn modal_result(d: DetailModal, key: Key, new: Option<DetailModal>) -> bool {
    match key {
        Key::Esc | Key::Enter => new is None,
        Key::Char(c) => if c == 'q' {
            new is None
        } else {
            new == Some(d)
        },
        _ => new matches Some(n) && n.same_text(&d) && n.scroll as nat == match key {
            Key::Down => crate::app::scrolled_down(d.scroll as nat, d.lines@.len(), d.visible_height as nat),
            Key::Up => crate::app::scrolled_up(d.scroll as nat),
            Key::PageDown => crate::app::paged_down(d.scroll as nat, d.lines@.len(), d.visible_height as nat),
            Key::PageUp => crate::app::paged_up(d.scroll as nat, d.visible_height as nat),
            Key::End => max_scroll(d.lines@.len(), d.visible_height as nat),
            Key::Home => 0,
            _ => d.scroll as nat,
        },
    }
}

/// A page down in the open detail view cannot overflow. Only PageDown asks
/// for it.
pub open spec fn modal_ok(app: App) -> bool {
    match app.detail {
        Some(d) => d.scroll + page_step(d.visible_height as nat) <= usize::MAX,
        None => true,
    }
}

/// Handles a key when a detail view is open, and says whether it was
/// open. The detail view takes every key: nothing else changes.
pub fn handle_modal_key(app: &mut App, key: Key) -> (r: bool)
    requires
        key is PageDown ==> modal_ok(*old(app)),
    ensures
        r == (old(app).detail is Some),
        final(app).active_pane == old(app).active_pane,
        final(app).rows == old(app).rows,
        final(app).namespaces == old(app).namespaces,
        final(app).states == old(app).states,
        final(app).selected_ns_index == old(app).selected_ns_index,
        final(app).server_version == old(app).server_version,
        match old(app).detail {
            Some(d) => modal_result(d, key, final(app).detail),
            None => final(app).detail is None,
        },
{
    let close = match &app.detail {
        None => {
            return false;
        },
        Some(_) => match key {
            Key::Esc | Key::Enter => true,
            Key::Char(c) => c == 'q',
            _ => false,
        },
    };
    if close {
        app.detail = None;
        return true;
    }
    match &mut app.detail {
        Some(d) => match key {
            Key::Down => d.scroll_down(),
            Key::Up => d.scroll_up(),
            Key::PageDown => d.page_down(),
            Key::PageUp => d.page_up(),
            Key::End => d.scroll_to_bottom(),
            Key::Home => d.scroll_to_top(),
            _ => {},
        },
        None => {},
    }
    true
}

/// What the program does after a key.
#[derive(Debug)]
pub enum Action {
    /// Draw again and wait for the next key.
    Continue,
    /// Leave the viewer.
    Quit,
    /// Fetch the description of this object and show it with
    /// `show_detail`: the pane it was selected in, its name, and its
    /// namespace when it has one.
    Describe { pane: Pane, name: String, namespace: Option<String> },
}

/// The title of the detail view of an object.
pub open spec fn detail_title_text(pane: Pane, name: Seq<char>) -> Seq<char> {
    " ✦ "@ + pane_title(pane) + " — "@ + name + " "@
}

fn detail_title(pane: Pane, name: &str) -> (r: String)
    ensures
        r@ == detail_title_text(pane, name@),
{
    let cfg = pane_config(pane);
    let mut t = string_of(" ✦ ");
    t.append(cfg.title);
    t.append(" — ");
    t.append(name);
    t.append(" ");
    t
}

/// The detail view that is shown while a description is fetched.
pub open spec fn loading_view(d: DetailModal, pane: Pane, name: Seq<char>) -> bool {
    &&& d.title@ == detail_title_text(pane, name)
    &&& d.lines.deep_view() == seq!["  Loading..."@]
    &&& d.scroll == 0
    &&& d.visible_height == 0
}

/// What opening the detail view of the selected row does: the tables stay
/// as they are; when a row is selected, the result names the active pane,
/// the row's name and its namespace (none for an empty one), and a view
/// that says it is loading is open; otherwise the result is none and the
/// detail view is as it was.
pub open spec fn opened_detail(
    old: App,
    new: App,
    r: Option<(Pane, String, Option<String>)>,
) -> bool {
    &&& new.active_pane == old.active_pane
    &&& new.rows == old.rows
    &&& new.namespaces == old.namespaces
    &&& new.states == old.states
    &&& new.selected_ns_index == old.selected_ns_index
    &&& new.server_version == old.server_version
    &&& match old.active_selection() {
        Some(idx) => if idx < old.active_rows().len() {
            let row = old.active_rows()[idx as int];
            &&& r matches Some(t)
            &&& t.0 == old.active_pane
            &&& t.1@ == row.name@
            &&& if row.namespace@.len() == 0 {
                t.2 is None
            } else {
                t.2 matches Some(n) && n@ == row.namespace@
            }
            &&& new.detail matches Some(d) && loading_view(d, t.0, t.1@)
        } else {
            r is None && new.detail == old.detail
        },
        None => r is None && new.detail == old.detail,
    }
}

/// Starts showing the selected row in a detail view: when a row is
/// selected, opens a view that says it is loading and returns the pane, the
/// name, and the namespace (none for an empty one) to describe; otherwise
/// changes nothing and returns none.
pub fn handle_enter(app: &mut App) -> (r: Option<(Pane, String, Option<String>)>)
    ensures
        opened_detail(*old(app), *final(app), r),
{
    let (pane, name, row_ns) = match app.selected_row_info() {
        Some(info) => info,
        None => {
            return None;
        },
    };
    let ns = if row_ns.as_str().is_empty() {
        None
    } else {
        Some(row_ns)
    };
    let title = detail_title(pane, name.as_str());
    let mut lines: Vec<String> = Vec::new();
    push_line(&mut lines, string_of("  Loading..."));
    proof {
        assert(lines.deep_view() =~= seq!["  Loading..."@]);
    }
    app.detail = Some(DetailModal { title, lines, scroll: 0, visible_height: 0 });
    Some((pane, name, ns))
}

/// Shows the fetched description of an object in the detail view, at the
/// top.
pub fn show_detail(app: &mut App, pane: Pane, name: &str, lines: Vec<String>)
    ensures
        final(app).active_pane == old(app).active_pane,
        final(app).rows == old(app).rows,
        final(app).namespaces == old(app).namespaces,
        final(app).states == old(app).states,
        final(app).selected_ns_index == old(app).selected_ns_index,
        final(app).server_version == old(app).server_version,
        final(app).detail matches Some(d) && d.title@ == detail_title_text(pane, name@) && d.lines
            == lines && d.scroll == 0 && d.visible_height == 0,
{
    let title = detail_title(pane, name);
    app.detail = Some(DetailModal { title, lines, scroll: 0, visible_height: 0 });
}

/// The program's answer to a key: an open detail view takes the key; `q`
/// quits; Enter opens the detail view of the selected row; every other key
/// moves in the tables.
pub fn handle_key(app: &mut App, key: Key) -> (r: Action)
    requires
        old(app).wf(),
        key is Down && old(app).detail is None ==> can_navigate(*old(app)),
        key is PageDown ==> modal_ok(*old(app)),
    ensures
        final(app).wf(),
        old(app).detail matches Some(d) ==> r is Continue && final(app).rows == old(app).rows
            && final(app).states == old(app).states && final(app).active_pane == old(app).active_pane
            && final(app).selected_ns_index == old(app).selected_ns_index && final(app).namespaces
            == old(app).namespaces && final(app).server_version == old(app).server_version
            && modal_result(d, key, final(app).detail),
        old(app).detail is None ==> match key {
            Key::Char(c) => if c == 'q' {
                r is Quit && *final(app) == *old(app)
            } else {
                r is Continue && navigated(*old(app), key, *final(app))
            },
            Key::Enter => match r {
                Action::Describe { pane, name, namespace } => opened_detail(
                    *old(app),
                    *final(app),
                    Some((pane, name, namespace)),
                ),
                Action::Continue => opened_detail(*old(app), *final(app), None),
                Action::Quit => false,
            },
            _ => r is Continue && navigated(*old(app), key, *final(app)),
        },
{
    if handle_modal_key(app, key) {
        return Action::Continue;
    }
    match key {
        Key::Char(c) => {
            if c == 'q' {
                return Action::Quit;
            }
            handle_table_navigation(app, key);
            Action::Continue
        },
        Key::Enter => match handle_enter(app) {
            Some((pane, name, namespace)) => Action::Describe { pane, name, namespace },
            None => Action::Continue,
        },
        _ => {
            handle_table_navigation(app, key);
            Action::Continue
        },
    }
}

/// The selection of a table of `len` rows once the table is drawn: a
/// selection past the last row moves to the last row, and an empty table
/// has none (what the table widget does to its state when it draws into a
/// non-empty area).
pub open spec fn clamped_selection(sel: Option<usize>, len: nat) -> Option<usize> {
    if len == 0 {
        None
    } else {
        match sel {
            Some(s) => if s >= len {
                Some((len - 1) as usize)
            } else {
                Some(s)
            },
            None => None,
        }
    }
}

/// Brings the selection of a pane's table onto its rows, as drawing the
/// table does.
pub fn clamp_selection(app: &mut App, pane: Pane)
    requires
        old(app).wf(),
    ensures
        final(app).wf(),
        final(app).states@ == old(app).states@.update(
            pane_index(pane) as int,
            clamped_selection(
                old(app).states@[pane_index(pane) as int],
                old(app).rows@[pane_index(pane) as int]@.len(),
            ),
        ),
        final(app).active_pane == old(app).active_pane,
        final(app).rows == old(app).rows,
        final(app).namespaces == old(app).namespaces,
        final(app).selected_ns_index == old(app).selected_ns_index,
        final(app).server_version == old(app).server_version,
        final(app).detail == old(app).detail,
{
    let p = pane.index();
    let len = app.rows[p].len();
    let sel = if len == 0 {
        None
    } else {
        match app.states[p] {
            Some(s) => if s >= len {
                Some(len - 1)
            } else {
                Some(s)
            },
            None => None,
        }
    };
    app.states.set(p, sel);
}

/// Takes the namespaces that the cluster lists: the namespace list becomes
/// `ALL` followed by them.
pub fn set_namespaces(app: &mut App, names: Vec<String>)
    ensures
        final(app).namespaces.deep_view() == seq!["ALL"@] + names.deep_view(),
        final(app).active_pane == old(app).active_pane,
        final(app).rows == old(app).rows,
        final(app).states == old(app).states,
        final(app).selected_ns_index == old(app).selected_ns_index,
        final(app).server_version == old(app).server_version,
        final(app).detail == old(app).detail,
{
    let mut all: Vec<String> = Vec::new();
    push_line(&mut all, string_of("ALL"));
    let n = names.len();
    let mut i: usize = 0;
    while i < n
        invariant
            n == names@.len(),
            i <= n,
            all.deep_view() == seq!["ALL"@] + names.deep_view().take(i as int),
        decreases n - i,
    {
        push_line(&mut all, names[i].clone());
        proof {
            assert(all.deep_view() =~= seq!["ALL"@] + names.deep_view().take(i + 1));
        }
        i += 1;
    }
    proof {
        assert(names.deep_view().take(n as int) =~= names.deep_view());
    }
    app.namespaces = all;
}

/// Takes the rows that the cluster lists for a pane.
pub fn set_rows(app: &mut App, pane: Pane, rows: Vec<ResourceRow>)
    requires
        old(app).wf(),
    ensures
        final(app).wf(),
        final(app).rows@ == old(app).rows@.update(pane_index(pane) as int, rows),
        final(app).active_pane == old(app).active_pane,
        final(app).namespaces == old(app).namespaces,
        final(app).states == old(app).states,
        final(app).selected_ns_index == old(app).selected_ns_index,
        final(app).server_version == old(app).server_version,
        final(app).detail == old(app).detail,
{
    let p = pane.index();
    app.rows.set(p, rows);
}

} // verus!

verus! {

/// Tab and Shift+Tab undo each other.
pub proof fn lemma_tab_back_tab(p: Pane)
    ensures
        prev_pane(next_pane(p)) == p,
        next_pane(prev_pane(p)) == p,
{
}

/// Pressing Tab once per pane comes back to the pane one started from, and
/// visits every pane on the way.
pub proof fn lemma_tab_cycle(p: Pane)
    ensures
        next_pane(next_pane(next_pane(next_pane(next_pane(next_pane(p)))))) == p,
        forall|q: Pane|
            #![trigger pane_index(q)]
            q == p || q == next_pane(p) || q == next_pane(next_pane(p)) || q == next_pane(
                next_pane(next_pane(p)),
            ) || q == next_pane(next_pane(next_pane(next_pane(p)))) || q == next_pane(
                next_pane(next_pane(next_pane(next_pane(p)))),
            ),
{
}

/// Moving down never selects past the last row of the table.
pub proof fn lemma_selection_down_in_table(sel: Option<usize>, len: nat)
    ensures
        len > 0 ==> selection_down(sel, len) < len,
        len == 0 ==> selection_down(sel, len) == 0,
{
}

/// No table's selection is the largest index there is, so that moving down
/// can always be asked for.
pub open spec fn selections_in_range(app: App) -> bool {
    forall|i: int| 0 <= i < app.states@.len() ==> #[trigger] app.states@[i] != Some(usize::MAX)
}

/// No key that moves in the tables takes a selection out of range (the
/// active table holding at most `usize::MAX` rows, as a `Vec` does):
/// whatever pane becomes active, moving down in it can be asked for again.
pub proof fn lemma_navigation_keeps_selections(old: App, key: Key, new: App)
    requires
        old.wf(),
        selections_in_range(old),
        old.active_rows().len() <= usize::MAX,
        navigated(old, key, new),
    ensures
        selections_in_range(new),
        new.wf() ==> can_navigate(new),
{
    assert forall|i: int| 0 <= i < new.states@.len() implies #[trigger] new.states@[i] != Some(
        usize::MAX,
    ) by {
        if i != pane_index(old.active_pane) as int {
            assert(new.states@[i] == old.states@[i]);
        }
    }
    if new.wf() {
        assert(new.states@[pane_index(new.active_pane) as int] != Some(usize::MAX));
    }
}

/// Once a table is drawn its selection is none or one of its rows, and it
/// is never the largest index there is.
pub proof fn lemma_clamp_in_table(sel: Option<usize>, len: nat)
    requires
        len <= usize::MAX,
    ensures
        clamped_selection(sel, len) matches Some(s) ==> s < len,
        clamped_selection(sel, len) != Some(usize::MAX),
        len == 0 ==> clamped_selection(sel, len) is None,
        sel matches Some(s) && s < len ==> clamped_selection(sel, len) == sel,
{
}

/// Moving down and then up returns to the same row, unless the row was the
/// last one.
pub proof fn lemma_down_then_up(i: usize, len: nat)
    requires
        i + 1 < len <= usize::MAX,
    ensures
        selection_up(Some(selection_down(Some(i), len) as usize)) == i,
{
}

/// The chosen namespace stays one of the listed namespaces whatever key
/// moves in the tables.
pub proof fn lemma_namespace_choice_valid(old: App, key: Key, new: App)
    requires
        navigated(old, key, new),
        old.selected_ns_index < old.namespaces@.len(),
    ensures
        new.selected_ns_index < new.namespaces@.len(),
{
}

/// A digit key selects the namespace at that position of the list when
/// there is one; the view starts on all namespaces (`ALL`).
pub proof fn lemma_digit_selects_namespace(old: App, c: char, new: App)
    requires
        navigated(old, Key::Char(c), new),
        '0' <= c <= '9',
        (c as u32 - '0' as u32) < old.namespaces@.len(),
    ensures
        new.selected_ns_index == c as u32 - '0' as u32,
        new.namespaces == old.namespaces,
{
}

} // verus!
