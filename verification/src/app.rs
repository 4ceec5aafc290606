use crate::resources::ResourceRow;
use crate::text::{append_nat, nat_text, push_line, string_of};
use vstd::prelude::*;
use vstd::string::*;

verus! {

broadcast use vstd::string::group_string_axioms;

/// The resource kinds that the viewer shows, one table pane each.
#[derive(Clone, Copy, Debug, PartialEq, Eq, PartialOrd, Ord, Structural)]
pub enum Pane {
    Pods,
    Services,
    Deployments,
    ReplicaSets,
    DaemonSets,
    Jobs,
}

/// Position of a pane in the order in which the viewer cycles through them.
pub open spec fn pane_index(p: Pane) -> nat {
    match p {
        Pane::Pods => 0,
        Pane::Services => 1,
        Pane::Deployments => 2,
        Pane::ReplicaSets => 3,
        Pane::DaemonSets => 4,
        Pane::Jobs => 5,
    }
}

/// The number of panes.
pub open spec fn pane_count() -> nat {
    6
}

/// The pane at a position of the cycle (positions are taken modulo the count).
pub open spec fn pane_at(i: int) -> Pane {
    let k = i % (pane_count() as int);
    if k == 0 {
        Pane::Pods
    } else if k == 1 {
        Pane::Services
    } else if k == 2 {
        Pane::Deployments
    } else if k == 3 {
        Pane::ReplicaSets
    } else if k == 4 {
        Pane::DaemonSets
    } else {
        Pane::Jobs
    }
}

impl Pane {
    /// The position of the pane in the cycle.
    pub fn index(self) -> (r: usize)
        ensures
            r == pane_index(self),
    {
        match self {
            Pane::Pods => 0,
            Pane::Services => 1,
            Pane::Deployments => 2,
            Pane::ReplicaSets => 3,
            Pane::DaemonSets => 4,
            Pane::Jobs => 5,
        }
    }

    /// All panes, in the order in which Tab visits them.
    pub fn all() -> (r: &'static [Pane])
        ensures
            r@.len() == pane_count(),
            forall|i: int| 0 <= i < pane_count() ==> #[trigger] r@[i] == pane_at(i),
    {
        &[
            Pane::Pods,
            Pane::Services,
            Pane::Deployments,
            Pane::ReplicaSets,
            Pane::DaemonSets,
            Pane::Jobs,
        ]
    }
}


/// The largest scroll offset of a text of `len` lines seen through a window
/// of `height` lines: the offset at which the last line is at the bottom.
pub open spec fn max_scroll(len: nat, height: nat) -> nat {
    if len > height {
        (len - height) as nat
    } else {
        0
    }
}

/// How far one page moves: one line less than the window, and at least one.
pub open spec fn page_step(height: nat) -> nat {
    if height > 1 {
        (height - 1) as nat
    } else {
        1
    }
}

/// The offset after moving one line down: it stops at the last page.
pub open spec fn scrolled_down(scroll: nat, len: nat, height: nat) -> nat {
    if scroll < max_scroll(len, height) {
        scroll + 1
    } else {
        scroll
    }
}

/// The offset after moving one line up: it stops at the top.
pub open spec fn scrolled_up(scroll: nat) -> nat {
    if scroll > 0 {
        (scroll - 1) as nat
    } else {
        0
    }
}

/// The offset after moving one page down: it stops at the last page.
pub open spec fn paged_down(scroll: nat, len: nat, height: nat) -> nat {
    let target = scroll + page_step(height);
    if target < max_scroll(len, height) {
        target
    } else {
        max_scroll(len, height)
    }
}

/// The offset after moving one page up: it stops at the top.
pub open spec fn paged_up(scroll: nat, height: nat) -> nat {
    if scroll > page_step(height) {
        (scroll - page_step(height)) as nat
    } else {
        0
    }
}

/// The detail view of one resource: its text and the window onto it.
pub struct DetailModal {
    pub title: String,
    pub lines: Vec<String>,
    pub scroll: usize,
    pub visible_height: usize,
}

impl DetailModal {
    /// The largest offset for this text and window height.
    pub open spec fn max_offset(&self) -> nat {
        max_scroll(self.lines@.len(), self.visible_height as nat)
    }

    /// Everything but the offset is as in `other`.
    pub open spec fn same_text(&self, other: &DetailModal) -> bool {
        &&& self.title == other.title
        &&& self.lines == other.lines
        &&& self.visible_height == other.visible_height
    }

    /// Moves the window one line down, unless the last line is already shown.
    pub fn scroll_down(&mut self)
        ensures
            final(self).same_text(old(self)),
            final(self).scroll == scrolled_down(
                old(self).scroll as nat,
                old(self).lines@.len(),
                old(self).visible_height as nat,
            ),
    {
        let max = self.lines.len().saturating_sub(self.visible_height);
        if self.scroll < max {
            self.scroll += 1;
        }
    }

    /// Moves the window one line up, unless it is at the top.
    pub fn scroll_up(&mut self)
        ensures
            final(self).same_text(old(self)),
            final(self).scroll == scrolled_up(old(self).scroll as nat),
    {
        self.scroll = self.scroll.saturating_sub(1);
    }

    /// Moves the window one page down, stopping at the last page.
    pub fn page_down(&mut self)
        requires
            old(self).scroll + page_step(old(self).visible_height as nat) <= usize::MAX,
        ensures
            final(self).same_text(old(self)),
            final(self).scroll == paged_down(
                old(self).scroll as nat,
                old(self).lines@.len(),
                old(self).visible_height as nat,
            ),
    {
        let max = self.lines.len().saturating_sub(self.visible_height);
        let step = self.visible_height.saturating_sub(1).max(1);
        self.scroll = (self.scroll + step).min(max);
    }

    /// Moves the window one page up, stopping at the top.
    pub fn page_up(&mut self)
        ensures
            final(self).same_text(old(self)),
            final(self).scroll == paged_up(old(self).scroll as nat, old(self).visible_height as nat),
    {
        let step = self.visible_height.saturating_sub(1).max(1);
        self.scroll = self.scroll.saturating_sub(step);
    }

    /// Moves the window to the first line.
    pub fn scroll_to_top(&mut self)
        ensures
            final(self).same_text(old(self)),
            final(self).scroll == 0,
    {
        self.scroll = 0;
    }

    /// Moves the window to the last page.
    pub fn scroll_to_bottom(&mut self)
        ensures
            final(self).same_text(old(self)),
            final(self).scroll == old(self).max_offset(),
    {
        self.scroll = self.lines.len().saturating_sub(self.visible_height);
    }

    /// Takes the height of the window that the view is drawn in, and pulls
    /// the offset back onto the last page when the text no longer reaches
    /// below the window.
    pub fn fit_to_height(&mut self, height: usize)
        ensures
            final(self).title == old(self).title,
            final(self).lines == old(self).lines,
            final(self).visible_height == height,
            final(self).scroll == (if old(self).scroll > max_scroll(old(self).lines@.len(), height as nat) {
                max_scroll(old(self).lines@.len(), height as nat)
            } else {
                old(self).scroll as nat
            }),
    {
        self.visible_height = height;
        let max_scroll = self.lines.len().saturating_sub(height);
        if self.scroll > max_scroll {
            self.scroll = max_scroll;
        }
    }

    /// The lines that the window shows: from the offset on, at most as many
    /// as the window is high.
    pub fn visible_lines(&self) -> (r: Vec<String>)
        ensures
            r.deep_view() == self.lines.deep_view().subrange(
                window_start(self.lines@.len(), self.scroll as nat),
                window_end(self.lines@.len(), self.scroll as nat, self.visible_height as nat),
            ),
    {
        let len = self.lines.len();
        let start = if self.scroll < len { self.scroll } else { len };
        let end = if self.visible_height < len - start { start + self.visible_height } else { len };
        let mut r: Vec<String> = Vec::new();
        let mut i = start;
        while i < end
            invariant
                len == self.lines@.len(),
                start <= i <= end <= len,
                start == window_start(len as nat, self.scroll as nat),
                end == window_end(len as nat, self.scroll as nat, self.visible_height as nat),
                r.deep_view() == self.lines.deep_view().subrange(start as int, i as int),
            decreases end - i,
        {
            let ghost before = r.deep_view();
            let line = self.lines[i].clone();
            r.push(line);
            proof {
                assert(r.deep_view() =~= before.push(self.lines@[i as int]@));
                assert(r.deep_view() =~= self.lines.deep_view().subrange(start as int, i + 1));
            }
            i += 1;
        }
        r
    }
}

/// First line that a window at offset `scroll` shows.
pub open spec fn window_start(len: nat, scroll: nat) -> int {
    if scroll < len {
        scroll as int
    } else {
        len as int
    }
}

/// One past the last line that a window at offset `scroll` and of the given
/// height shows.
pub open spec fn window_end(len: nat, scroll: nat, height: nat) -> int {
    let start = window_start(len, scroll);
    if start + height < len {
        start + height
    } else {
        len as int
    }
}

} // verus!

verus! {

/// The title of a pane.
pub open spec fn pane_title(p: Pane) -> Seq<char> {
    match p {
        Pane::Pods => "Pods"@,
        Pane::Services => "Services"@,
        Pane::Deployments => "Deployments"@,
        Pane::ReplicaSets => "ReplicaSets"@,
        Pane::DaemonSets => "DaemonSets"@,
        Pane::Jobs => "Jobs"@,
    }
}

/// The column headers of a pane's table.
pub open spec fn pane_headers(p: Pane) -> Seq<Seq<char>> {
    match p {
        Pane::Pods => seq!["NAME"@, "READY"@, "STATUS"@, "RESTARTS"@, "AGE"@],
        Pane::Services => seq!["NAME"@, "TYPE"@, "CLUSTER-IP"@, "EXTERNAL-IP"@, "PORT(S)"@, "AGE"@],
        Pane::Deployments => seq!["NAME"@, "READY"@, "UP-TO-DATE"@, "AVAILABLE"@, "AGE"@],
        Pane::ReplicaSets => seq!["NAME"@, "DESIRED"@, "CURRENT"@, "READY"@, "AGE"@],
        Pane::DaemonSets => seq!["NAME"@, "DESIRED"@, "CURRENT"@, "READY"@, "AGE"@],
        Pane::Jobs => seq!["NAME"@, "COMPLETIONS"@, "ACTIVE"@, "FAILED"@, "AGE"@],
    }
}

/// The widths of a pane's columns, in percent of the table's width.
pub open spec fn pane_widths(p: Pane) -> Seq<u16> {
    match p {
        Pane::Services => seq![20, 15, 15, 15, 25, 10],
        _ => seq![35, 15, 20, 15, 15],
    }
}

/// How a pane's table is drawn: its title, its column headers and the
/// widths of its columns in percent.
pub struct PaneConfig {
    pub pane: Pane,
    pub title: &'static str,
    pub headers: Vec<&'static str>,
    pub constraints: Vec<u16>,
}

impl PaneConfig {
    /// This is the configuration of the given pane.
    pub open spec fn describes(&self, p: Pane) -> bool {
        &&& self.pane == p
        &&& self.title@ == pane_title(p)
        &&& self.headers@.len() == pane_headers(p).len()
        &&& forall|i: int| 0 <= i < self.headers@.len() ==> #[trigger] self.headers@[i]@ == pane_headers(p)[i]
        &&& self.constraints@ == pane_widths(p)
    }
}

fn headers_of(names: &[&'static str]) -> (r: Vec<&'static str>)
    ensures
        r@ == names@,
{
    let mut r: Vec<&'static str> = Vec::new();
    let mut i: usize = 0;
    while i < names.len()
        invariant
            i <= names@.len(),
            r@ == names@.take(i as int),
        decreases names@.len() - i,
    {
        r.push(names[i]);
        proof {
            assert(r@ =~= names@.take(i + 1));
        }
        i += 1;
    }
    proof {
        assert(names@.take(names@.len() as int) =~= names@);
    }
    r
}

/// The configuration of a pane's table.
pub fn pane_config(p: Pane) -> (r: PaneConfig)
    ensures
        r.describes(p),
{
    proof {
        reveal_strlit("NAME");
        reveal_strlit("AGE");
    }
    match p {
        Pane::Pods => PaneConfig {
            pane: p,
            title: "Pods",
            headers: headers_of(&["NAME", "READY", "STATUS", "RESTARTS", "AGE"]),
            constraints: vec![35, 15, 20, 15, 15],
        },
        Pane::Services => PaneConfig {
            pane: p,
            title: "Services",
            headers: headers_of(&["NAME", "TYPE", "CLUSTER-IP", "EXTERNAL-IP", "PORT(S)", "AGE"]),
            constraints: vec![20, 15, 15, 15, 25, 10],
        },
        Pane::Deployments => PaneConfig {
            pane: p,
            title: "Deployments",
            headers: headers_of(&["NAME", "READY", "UP-TO-DATE", "AVAILABLE", "AGE"]),
            constraints: vec![35, 15, 20, 15, 15],
        },
        Pane::ReplicaSets => PaneConfig {
            pane: p,
            title: "ReplicaSets",
            headers: headers_of(&["NAME", "DESIRED", "CURRENT", "READY", "AGE"]),
            constraints: vec![35, 15, 20, 15, 15],
        },
        Pane::DaemonSets => PaneConfig {
            pane: p,
            title: "DaemonSets",
            headers: headers_of(&["NAME", "DESIRED", "CURRENT", "READY", "AGE"]),
            constraints: vec![35, 15, 20, 15, 15],
        },
        Pane::Jobs => PaneConfig {
            pane: p,
            title: "Jobs",
            headers: headers_of(&["NAME", "COMPLETIONS", "ACTIVE", "FAILED", "AGE"]),
            constraints: vec![35, 15, 20, 15, 15],
        },
    }
}

/// The configurations of all panes' tables, in the order of the cycle.
pub fn pane_configs() -> (r: Vec<PaneConfig>)
    ensures
        r@.len() == pane_count(),
        forall|i: int| 0 <= i < pane_count() ==> #[trigger] r@[i].describes(pane_at(i)),
{
    let all = Pane::all();
    let mut r: Vec<PaneConfig> = Vec::new();
    let mut i: usize = 0;
    while i < all.len()
        invariant
            all@.len() == pane_count(),
            forall|k: int| 0 <= k < pane_count() ==> #[trigger] all@[k] == pane_at(k),
            i <= all@.len(),
            r@.len() == i,
            forall|k: int| 0 <= k < i ==> #[trigger] r@[k].describes(pane_at(k)),
        decreases all@.len() - i,
    {
        let c = pane_config(all[i]);
        r.push(c);
        i += 1;
    }
    r
}

} // verus!

verus! {

/// The state of the viewer.
///
/// `rows` and `states` hold one entry per pane, at the pane's position in
/// the cycle: the rows of its table and the selected row of its table.
pub struct App {
    pub active_pane: Pane,
    pub rows: Vec<Vec<ResourceRow>>,
    pub namespaces: Vec<String>,
    pub states: Vec<Option<usize>>,
    pub selected_ns_index: usize,
    pub server_version: String,
    pub detail: Option<DetailModal>,
}

impl App {
    /// Every pane has its rows and its selection.
    pub open spec fn wf(&self) -> bool {
        &&& self.rows@.len() == pane_count()
        &&& self.states@.len() == pane_count()
    }

    /// The viewer at start: the pod pane active, every table empty with its
    /// first row selected, the namespaces only `ALL` and that one selected,
    /// the server version not yet known (`...`), no detail view.
    pub fn new() -> (r: Self)
        ensures
            r.wf(),
            r.active_pane == Pane::Pods,
            forall|i: int| 0 <= i < pane_count() ==> (#[trigger] r.rows@[i])@.len() == 0,
            forall|i: int| 0 <= i < pane_count() ==> #[trigger] r.states@[i] == Some(0usize),
            r.namespaces.deep_view() == seq!["ALL"@],
            r.selected_ns_index == 0,
            r.server_version@ == "..."@,
            r.detail is None,
    {
        let mut states: Vec<Option<usize>> = Vec::new();
        let mut rows: Vec<Vec<ResourceRow>> = Vec::new();
        let all = Pane::all();
        let mut i: usize = 0;
        while i < all.len()
            invariant
                all@.len() == pane_count(),
                i <= all@.len(),
                states@.len() == i,
                rows@.len() == i,
                forall|k: int| 0 <= k < i ==> (#[trigger] rows@[k])@.len() == 0,
                forall|k: int| 0 <= k < i ==> #[trigger] states@[k] == Some(0usize),
            decreases all@.len() - i,
        {
            states.push(Some(0));
            rows.push(Vec::new());
            i += 1;
        }
        let mut namespaces: Vec<String> = Vec::new();
        push_line(&mut namespaces, string_of("ALL"));
        proof {
            assert(namespaces.deep_view() =~= seq!["ALL"@]);
        }
        App {
            active_pane: Pane::Pods,
            rows,
            namespaces,
            states,
            selected_ns_index: 0,
            server_version: string_of("..."),
            detail: None,
        }
    }

    /// The namespace that the tables are filtered by: none for `ALL` (the
    /// first entry), otherwise the selected namespace.
    pub fn get_current_ns(&self) -> (r: Option<String>)
        requires
            self.selected_ns_index == 0 || self.selected_ns_index < self.namespaces@.len(),
        ensures
            r is None <==> self.selected_ns_index == 0,
            r matches Some(n) ==> n@ == self.namespaces@[self.selected_ns_index as int]@,
    {
        if self.selected_ns_index == 0 {
            None
        } else {
            Some(self.namespaces[self.selected_ns_index].clone())
        }
    }

    /// The rows of the active pane (none when the pane has no rows entry).
    pub open spec fn active_rows(&self) -> Seq<ResourceRow> {
        let i = pane_index(self.active_pane) as int;
        if i < self.rows@.len() {
            self.rows@[i]@
        } else {
            Seq::empty()
        }
    }

    /// The number of rows in the active pane's table.
    pub fn active_rows_len(&self) -> (r: usize)
        ensures
            r == self.active_rows().len(),
    {
        let i = self.active_pane.index();
        if i < self.rows.len() {
            self.rows[i].len()
        } else {
            0
        }
    }

    /// The selected row of the active pane, if any.
    pub open spec fn active_selection(&self) -> Option<usize> {
        let i = pane_index(self.active_pane) as int;
        if i < self.states@.len() {
            self.states@[i]
        } else {
            None
        }
    }

    /// The active pane and the name and namespace of the selected row of
    /// its table; none when no row is selected or the selection is past
    /// the last row.
    pub fn selected_row_info(&self) -> (r: Option<(Pane, String, String)>)
        ensures
            match self.active_selection() {
                Some(idx) => if idx < self.active_rows().len() {
                    r matches Some(t) && t.0 == self.active_pane && t.1@
                        == self.active_rows()[idx as int].name@ && t.2@
                        == self.active_rows()[idx as int].namespace@
                } else {
                    r is None
                },
                None => r is None,
            },
    {
        let pane = self.active_pane;
        let p = pane.index();
        if p >= self.states.len() {
            return None;
        }
        let idx = match self.states[p] {
            Some(i) => i,
            None => {
                return None;
            },
        };
        if p >= self.rows.len() {
            return None;
        }
        if idx >= self.rows[p].len() {
            return None;
        }
        let row = &self.rows[p][idx];
        let name = row.name.clone();
        let ns = row.namespace.clone();
        Some((pane, name, ns))
    }

    /// The labels of the namespace list: `[i] name` followed by two spaces,
    /// for each namespace `i`.
    pub fn namespace_labels(&self) -> (r: Vec<String>)
        ensures
            r.deep_view() == Seq::new(
                self.namespaces@.len(),
                |i: int| namespace_label_text(i as nat, self.namespaces@[i]@),
            ),
    {
        let mut r: Vec<String> = Vec::new();
        let n = self.namespaces.len();
        let mut i: usize = 0;
        while i < n
            invariant
                n == self.namespaces@.len(),
                i <= n,
                r.deep_view() == Seq::new(
                    i as nat,
                    |j: int| namespace_label_text(j as nat, self.namespaces@[j]@),
                ),
            decreases n - i,
        {
            let mut t = string_of("[");
            append_nat(&mut t, i as u64);
            t.append("] ");
            t.append(self.namespaces[i].as_str());
            t.append("  ");
            push_line(&mut r, t);
            proof {
                assert(r.deep_view() =~= Seq::new(
                    (i + 1) as nat,
                    |j: int| namespace_label_text(j as nat, self.namespaces@[j]@),
                ));
            }
            i += 1;
        }
        r
    }
}

/// The label of the namespace at position `i` of the list.
pub open spec fn namespace_label_text(i: nat, name: Seq<char>) -> Seq<char> {
    "["@ + nat_text(i) + "] "@ + name + "  "@
}

} // verus!

verus! {

/// Each pane stands at its own position of the cycle.
pub proof fn lemma_pane_position(p: Pane)
    ensures
        pane_at(pane_index(p) as int) == p,
        pane_index(p) < pane_count(),
{
}

/// Moving one line down and then one line up returns to the same offset,
/// unless the window was already on the last page.
pub proof fn lemma_scroll_down_then_up(scroll: nat, len: nat, height: nat)
    requires
        scroll < max_scroll(len, height),
    ensures
        scrolled_up(scrolled_down(scroll, len, height)) == scroll,
{
}

/// No movement of the window takes an offset that is at most the largest
/// one past it.
pub proof fn lemma_scroll_stays_in_range(scroll: nat, len: nat, height: nat)
    requires
        scroll <= max_scroll(len, height),
    ensures
        scrolled_down(scroll, len, height) <= max_scroll(len, height),
        scrolled_up(scroll) <= max_scroll(len, height),
        paged_down(scroll, len, height) <= max_scroll(len, height),
        paged_up(scroll, height) <= max_scroll(len, height),
{
}

/// A page down followed by a page up returns to the same offset, unless the
/// page down stopped at the last page.
pub proof fn lemma_page_down_then_up(scroll: nat, len: nat, height: nat)
    requires
        scroll + page_step(height) <= max_scroll(len, height),
    ensures
        paged_up(paged_down(scroll, len, height), height) == scroll,
{
}

/// At the last page, moving down changes nothing; at the top, moving up
/// changes nothing.
pub proof fn lemma_scroll_ends(len: nat, height: nat)
    ensures
        scrolled_down(max_scroll(len, height), len, height) == max_scroll(len, height),
        paged_down(max_scroll(len, height), len, height) == max_scroll(len, height),
        scrolled_up(0) == 0,
        paged_up(0, height) == 0,
{
}

/// The window never shows more lines than it is high, nor lines past the
/// end; at an offset up to the largest one, a text at least as long as the
/// window fills it.
pub proof fn lemma_window_size(len: nat, scroll: nat, height: nat)
    ensures
        0 <= window_start(len, scroll) <= window_end(len, scroll, height) <= len,
        window_end(len, scroll, height) - window_start(len, scroll) <= height,
        scroll <= max_scroll(len, height) && height <= len ==> window_end(len, scroll, height)
            - window_start(len, scroll) == height,
{
}

} // verus!
