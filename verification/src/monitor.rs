//! Subscribe mode: the events it reports, how one round of workspace
//! updates is turned into events, and their human-readable lines.

use vstd::prelude::*;
use crate::seqs::{
    first_index, lemma_select_all, lemma_select_indices, lemma_select_none, select_indices,
};
use crate::state::{
    AppData, MonitorConfig, Workspace, WorkspaceSnapshot, contains_handle, find_toplevel,
    toplevel_index,
};
use crate::types::Error;
use crate::text::{clone_opt_string, push_joined, push_str, seq_join, string_from_chars};
use crate::toplevels::{ToplevelJson, ToplevelJsonView, spec_toplevel_json, toplevel_to_json};
use crate::workspaces::{WorkspaceJson, WorkspaceJsonView, spec_workspace_json, workspace_to_json};

verus! {

/// A single event emitted in monitor/subscribe mode.
#[derive(Debug, Clone, PartialEq, Eq)]
pub enum MonitorEvent {
    /// A workspace was created or became visible for the first time.
    WorkspaceAdded { workspace: WorkspaceJson },
    /// A workspace's state changed (name, tiling, active, pinned, …).
    WorkspaceUpdated { workspace: WorkspaceJson },
    /// A workspace was removed.
    WorkspaceRemoved { name: String, id: Option<String> },
    /// A new window appeared.
    WindowOpened { window: ToplevelJson },
    /// A window's state changed (title, state flags, workspace, …).
    WindowUpdated { window: ToplevelJson },
    /// A window was closed.
    WindowClosed { title: String, app_id: String, identifier: String },
}

/// An event as plain values.
pub enum MonitorEventView {
    WorkspaceAdded { workspace: WorkspaceJsonView },
    WorkspaceUpdated { workspace: WorkspaceJsonView },
    WorkspaceRemoved { name: Seq<char>, id: Option<Seq<char>> },
    WindowOpened { window: ToplevelJsonView },
    WindowUpdated { window: ToplevelJsonView },
    WindowClosed { title: Seq<char>, app_id: Seq<char>, identifier: Seq<char> },
}

impl View for MonitorEvent {
    type V = MonitorEventView;

    open spec fn view(&self) -> MonitorEventView {
        match self {
            MonitorEvent::WorkspaceAdded { workspace } => MonitorEventView::WorkspaceAdded {
                workspace: workspace@,
            },
            MonitorEvent::WorkspaceUpdated { workspace } => MonitorEventView::WorkspaceUpdated {
                workspace: workspace@,
            },
            MonitorEvent::WorkspaceRemoved { name, id } => MonitorEventView::WorkspaceRemoved {
                name: name@,
                id: id.deep_view(),
            },
            MonitorEvent::WindowOpened { window } => MonitorEventView::WindowOpened {
                window: window@,
            },
            MonitorEvent::WindowUpdated { window } => MonitorEventView::WindowUpdated {
                window: window@,
            },
            MonitorEvent::WindowClosed { title, app_id, identifier } =>
                MonitorEventView::WindowClosed {
                title: title@,
                app_id: app_id@,
                identifier: identifier@,
            },
        }
    }
}

impl DeepView for MonitorEvent {
    type V = MonitorEventView;

    open spec fn deep_view(&self) -> MonitorEventView {
        self@
    }
}

/// The error a subscription surfaces after the event handler of a library
/// caller answered one event: the handler's error when it refused the
/// event, else the one already pending.
pub fn after_handler(pending: Option<Error>, answer: Result<(), Error>) -> (r: Option<Error>)
    ensures
        r == match answer {
            Err(e) => Some(e),
            Ok(_) => pending,
        },
{
    match answer {
        Err(e) => Some(e),
        Ok(_) => pending,
    }
}

// ── One round of workspace updates ──────────────────────────────────────────

/// Handles of a workspace list, each kept once, in first-seen order.
pub open spec fn distinct_handles(wss: Seq<Workspace>) -> Seq<u32>
    decreases wss.len(),
{
    if wss.len() == 0 {
        Seq::empty()
    } else {
        let r = distinct_handles(wss.drop_last());
        if r.contains(wss.last().handle) {
            r
        } else {
            r.push(wss.last().handle)
        }
    }
}

/// Handles of a workspace list, as a set.
pub open spec fn handle_set(wss: Seq<Workspace>) -> Set<u32> {
    Set::new(|h: u32| exists|i: int| 0 <= i < wss.len() && #[trigger] wss[i].handle == h)
}

/// Positions of the workspaces that are new relative to `known`.
pub open spec fn added_index(wss: Seq<Workspace>, known: Seq<u32>) -> Seq<usize> {
    select_indices(wss.len() as int, |i: int| !known.contains(wss[i].handle))
}

/// Position of the snapshot kept for handle `h`: the first one with it.
pub open spec fn snapshot_index(snaps: Seq<WorkspaceSnapshot>, h: u32) -> Option<int> {
    first_index(snaps, |s: WorkspaceSnapshot| s.handle == h)
}

/// The report `j` of workspace `h` differs from the one last kept for it,
/// or none was kept.
pub open spec fn report_changed(snaps: Seq<WorkspaceSnapshot>, h: u32, j: WorkspaceJsonView) -> bool {
    match snapshot_index(snaps, h) {
        Some(i) => snaps[i].json@ != j,
        None => true,
    }
}

/// Positions of the workspaces that were already known and whose report
/// changed since it was last kept.
pub open spec fn updated_index(
    st: AppData,
    known: Seq<u32>,
    snaps: Seq<WorkspaceSnapshot>,
) -> Seq<usize> {
    let wss = st.workspace_state@;
    select_indices(
        wss.len() as int,
        |i: int|
            known.contains(wss[i].handle) && report_changed(
                snaps,
                wss[i].handle,
                spec_workspace_json(wss[i], st),
            ),
    )
}

/// Positions in `known` of the handles that are gone.
pub open spec fn removed_index(wss: Seq<Workspace>, known: Seq<u32>) -> Seq<usize> {
    select_indices(known.len() as int, |k: int| !handle_set(wss).contains(known[k]))
}

/// The name and id last seen for handle `h`, or `<unknown>` and no id.
pub open spec fn snapshot_of(snaps: Seq<WorkspaceSnapshot>, h: u32) -> (Seq<char>, Option<Seq<char>>) {
    match snapshot_index(snaps, h) {
        Some(i) => (snaps[i].name@, snaps[i].id.deep_view()),
        None => ("<unknown>"@, None),
    }
}

/// The events of one round: added workspaces, then known workspaces whose
/// report changed (both in listing order), then one removal per known
/// handle that is gone.
pub open spec fn round_events(
    st: AppData,
    known: Seq<u32>,
    snaps: Seq<WorkspaceSnapshot>,
) -> Seq<MonitorEventView> {
    let wss = st.workspace_state@;
    added_index(wss, known).map_values(
        |i: usize|
            MonitorEventView::WorkspaceAdded { workspace: spec_workspace_json(wss[i as int], st) },
    ) + updated_index(st, known, snaps).map_values(
        |i: usize|
            MonitorEventView::WorkspaceUpdated {
                workspace: spec_workspace_json(wss[i as int], st),
            },
    ) + removed_index(wss, known).map_values(
        |k: usize|
            MonitorEventView::WorkspaceRemoved {
                name: snapshot_of(snaps, known[k as int]).0,
                id: snapshot_of(snaps, known[k as int]).1,
            },
    )
}

/// A snapshot as plain values.
pub open spec fn snapshot_view(s: WorkspaceSnapshot) -> (
    u32,
    Seq<char>,
    Option<Seq<char>>,
    WorkspaceJsonView,
) {
    (s.handle, s.name@, s.id.deep_view(), s.json@)
}

/// The snapshots taken of a state's workspaces: one per workspace, in order.
pub open spec fn snapshots_of(st: AppData) -> Seq<
    (u32, Seq<char>, Option<Seq<char>>, WorkspaceJsonView),
> {
    st.workspace_state@.map_values(
        |w: Workspace| (w.handle, w.name@, w.id.deep_view(), spec_workspace_json(w, st)),
    )
}

fn distinct_handles_exec(wss: &Vec<Workspace>) -> (r: Vec<u32>)
    ensures
        r@ == distinct_handles(wss@),
{
    let mut r: Vec<u32> = Vec::new();
    let mut i: usize = 0;
    while i < wss.len()
        invariant
            i <= wss.len(),
            r@ == distinct_handles(wss@.take(i as int)),
        decreases wss.len() - i,
    {
        assert(wss@.take(i + 1).drop_last() =~= wss@.take(i as int));
        if !contains_handle(&r, wss[i].handle) {
            r.push(wss[i].handle);
        }
        i = i + 1;
    }
    assert(wss@.take(wss.len() as int) =~= wss@);
    r
}

proof fn lemma_distinct_handles_contains(wss: Seq<Workspace>, h: u32)
    ensures
        distinct_handles(wss).contains(h) <==> handle_set(wss).contains(h),
    decreases wss.len(),
{
    if wss.len() > 0 {
        let t = wss.drop_last();
        let last = wss.last().handle;
        lemma_distinct_handles_contains(t, h);
        assert(handle_set(wss).contains(h) == (handle_set(t).contains(h) || h == last)) by {
            if handle_set(t).contains(h) {
                let i = choose|i: int| 0 <= i < t.len() && t[i].handle == h;
                assert(wss[i].handle == h);
            }
            if h == last {
                assert(wss[wss.len() - 1].handle == h);
            }
            if handle_set(wss).contains(h) {
                let i = choose|i: int| 0 <= i < wss.len() && wss[i].handle == h;
                if i < wss.len() - 1 {
                    assert(t[i].handle == h);
                }
            }
        }
        let r = distinct_handles(t);
        lemma_distinct_handles_contains(t, last);
        if !r.contains(last) {
            let r2 = r.push(last);
            assert(distinct_handles(wss) == r2);
            assert(r2.contains(h) == (r.contains(h) || h == last)) by {
                if r.contains(h) {
                    let k = choose|k: int| 0 <= k < r.len() && r[k] == h;
                    assert(r2[k] == h);
                }
                if h == last {
                    assert(r2[r.len() as int] == h);
                }
                if r2.contains(h) {
                    let k = choose|k: int| 0 <= k < r2.len() && r2[k] == h;
                    if k < r.len() {
                        assert(r[k] == h);
                    }
                }
            }
        } else {
            assert(handle_set(t).contains(last));
        }
    } else {
        assert(!handle_set(wss).contains(h));
    }
}

fn find_snapshot(snaps: &Vec<WorkspaceSnapshot>, h: u32) -> (r: Option<usize>)
    ensures
        r matches Some(i) ==> i < snaps.len() && snapshot_index(snaps@, h) == Some(i as int),
        r is None ==> snapshot_index(snaps@, h) is None,
{
    let ghost p = |s: WorkspaceSnapshot| s.handle == h;
    let mut i: usize = 0;
    while i < snaps.len()
        invariant
            i <= snaps.len(),
            p == (|s: WorkspaceSnapshot| s.handle == h),
            first_index(snaps@.take(i as int), p) is None,
        decreases snaps.len() - i,
    {
        proof {
            crate::seqs::lemma_first_index_step(snaps@, i as int, p);
        }
        if snaps[i].handle == h {
            proof {
                crate::seqs::lemma_first_index_prefix(snaps@, i as int + 1, p);
            }
            return Some(i);
        }
        i = i + 1;
    }
    assert(snaps@.take(snaps.len() as int) =~= snaps@);
    None
}

fn snapshot_lookup(snaps: &Vec<WorkspaceSnapshot>, h: u32) -> (r: (String, Option<String>))
    ensures
        (r.0@, r.1.deep_view()) == snapshot_of(snaps@, h),
{
    match find_snapshot(snaps, h) {
        Some(i) => (snaps[i].name.clone(), clone_opt_string(&snaps[i].id)),
        None => (crate::text::to_owned_string("<unknown>"), None),
    }
}

fn opt_string_eq(a: &Option<String>, b: &Option<String>) -> (r: bool)
    ensures
        r == (a.deep_view() == b.deep_view()),
{
    match (a, b) {
        (Some(x), Some(y)) => *x == *y,
        (None, None) => true,
        _ => false,
    }
}

fn u32s_eq(a: &Vec<u32>, b: &Vec<u32>) -> (r: bool)
    ensures
        r == (a@ == b@),
{
    if a.len() != b.len() {
        return false;
    }
    let mut i: usize = 0;
    while i < a.len()
        invariant
            i <= a.len(),
            a.len() == b.len(),
            forall|k: int| 0 <= k < i ==> a@[k] == b@[k],
        decreases a.len() - i,
    {
        if a[i] != b[i] {
            return false;
        }
        i = i + 1;
    }
    assert(a@ =~= b@);
    true
}

fn workspace_json_eq(a: &WorkspaceJson, b: &WorkspaceJson) -> (r: bool)
    ensures
        r == (a@ == b@),
{
    a.name == b.name && opt_string_eq(&a.id, &b.id) && u32s_eq(&a.coordinates, &b.coordinates)
        && a.active == b.active && a.urgent == b.urgent && a.hidden == b.hidden && a.pinned
        == b.pinned && opt_string_eq(&a.tiling, &b.tiling) && opt_string_eq(&a.output, &b.output)
        && a.group_id == b.group_id
}

fn report_changed_exec(snaps: &Vec<WorkspaceSnapshot>, h: u32, j: &WorkspaceJson) -> (r: bool)
    ensures
        r == report_changed(snaps@, h, j@),
{
    match find_snapshot(snaps, h) {
        Some(i) => !workspace_json_eq(&snaps[i].json, j),
        None => true,
    }
}

/// The events of one round of workspace updates, given the handles and
/// snapshots of the previous round.
pub fn workspace_round_events(
    state: &AppData,
    known: &Vec<u32>,
    snaps: &Vec<WorkspaceSnapshot>,
) -> (r: Vec<MonitorEvent>)
    ensures
        r.deep_view() == round_events(*state, known@, snaps@),
{
    let wss = &state.workspace_state;
    let ghost pa = |i: int| !known@.contains(wss@[i].handle);
    let ghost pu = |i: int|
        known@.contains(wss@[i].handle) && report_changed(
            snaps@,
            wss@[i].handle,
            spec_workspace_json(wss@[i], *state),
        );
    let ghost fa = |i: usize|
        MonitorEventView::WorkspaceAdded { workspace: spec_workspace_json(wss@[i as int], *state) };
    let ghost fu = |i: usize|
        MonitorEventView::WorkspaceUpdated { workspace: spec_workspace_json(wss@[i as int], *state) };
    let mut added: Vec<MonitorEvent> = Vec::new();
    let mut updated: Vec<MonitorEvent> = Vec::new();
    let mut i: usize = 0;
    while i < wss.len()
        invariant
            i <= wss.len(),
            wss == &state.workspace_state,
            pa == (|i: int| !known@.contains(wss@[i].handle)),
            pu == (|i: int|
                known@.contains(wss@[i].handle) && report_changed(
                    snaps@,
                    wss@[i].handle,
                    spec_workspace_json(wss@[i], *state),
                )),
            fa == (|i: usize|
                MonitorEventView::WorkspaceAdded {
                    workspace: spec_workspace_json(wss@[i as int], *state),
                }),
            fu == (|i: usize|
                MonitorEventView::WorkspaceUpdated {
                    workspace: spec_workspace_json(wss@[i as int], *state),
                }),
            added.deep_view() =~= select_indices(i as int, pa).map_values(fa),
            updated.deep_view() =~= select_indices(i as int, pu).map_values(fu),
        decreases wss.len() - i,
    {
        let json = workspace_to_json(&wss[i], state);
        if contains_handle(known, wss[i].handle) {
            if report_changed_exec(snaps, wss[i].handle, &json) {
                let ghost before = updated.deep_view();
                let ev = MonitorEvent::WorkspaceUpdated { workspace: json };
                let ghost evv = ev@;
                updated.push(ev);
                assert(updated.deep_view() =~= before.push(evv));
            }
        } else {
            let ghost before = added.deep_view();
            let ev = MonitorEvent::WorkspaceAdded { workspace: json };
            let ghost evv = ev@;
            added.push(ev);
            assert(added.deep_view() =~= before.push(evv));
        }
        i = i + 1;
    }
    let current = distinct_handles_exec(wss);
    let ghost pr = |k: int| !handle_set(wss@).contains(known@[k]);
    let ghost fr = |k: usize|
        MonitorEventView::WorkspaceRemoved {
            name: snapshot_of(snaps@, known@[k as int]).0,
            id: snapshot_of(snaps@, known@[k as int]).1,
        };
    let mut removed: Vec<MonitorEvent> = Vec::new();
    let mut k: usize = 0;
    while k < known.len()
        invariant
            k <= known.len(),
            wss == &state.workspace_state,
            current@ == distinct_handles(wss@),
            pr == (|k: int| !handle_set(wss@).contains(known@[k])),
            fr == (|k: usize|
                MonitorEventView::WorkspaceRemoved {
                    name: snapshot_of(snaps@, known@[k as int]).0,
                    id: snapshot_of(snaps@, known@[k as int]).1,
                }),
            removed.deep_view() =~= select_indices(k as int, pr).map_values(fr),
        decreases known.len() - k,
    {
        proof {
            lemma_distinct_handles_contains(wss@, known@[k as int]);
        }
        if !contains_handle(&current, known[k]) {
            let (name, id) = snapshot_lookup(snaps, known[k]);
            let ghost before = removed.deep_view();
            let ev = MonitorEvent::WorkspaceRemoved { name, id };
            let ghost evv = ev@;
            removed.push(ev);
            assert(removed.deep_view() =~= before.push(evv));
        }
        k = k + 1;
    }
    let ghost av = added.deep_view();
    let ghost uv = updated.deep_view();
    let ghost rv = removed.deep_view();
    let mut events = added;
    events.append(&mut updated);
    events.append(&mut removed);
    assert(events.deep_view() =~= av + uv + rv);
    events
}

/// Snapshots of a state's workspaces, one per workspace, in order.
pub fn take_snapshots(state: &AppData) -> (r: Vec<WorkspaceSnapshot>)
    ensures
        r@.map_values(|s: WorkspaceSnapshot| snapshot_view(s)) == snapshots_of(*state),
{
    let wss = &state.workspace_state;
    let ghost f = |w: Workspace| (w.handle, w.name@, w.id.deep_view(), spec_workspace_json(w, *state));
    let mut r: Vec<WorkspaceSnapshot> = Vec::new();
    let mut i: usize = 0;
    while i < wss.len()
        invariant
            i <= wss.len(),
            wss == &state.workspace_state,
            f == (|w: Workspace| (w.handle, w.name@, w.id.deep_view(), spec_workspace_json(w, *state))),
            r@.map_values(|s: WorkspaceSnapshot| snapshot_view(s)) =~= wss@.take(i as int).map_values(f),
        decreases wss.len() - i,
    {
        let snap = WorkspaceSnapshot {
            handle: wss[i].handle,
            name: wss[i].name.clone(),
            id: clone_opt_string(&wss[i].id),
            json: workspace_to_json(&wss[i], state),
        };
        let ghost before = r@;
        let ghost sv = snapshot_view(snap);
        assert(sv == f(wss@[i as int]));
        r.push(snap);
        assert(r@ == before.push(snap));
        assert(r@.map_values(|s: WorkspaceSnapshot| snapshot_view(s)) =~= before.map_values(
            |s: WorkspaceSnapshot| snapshot_view(s),
        ).push(sv));
        assert(wss@.take(i + 1) =~= wss@.take(i as int).push(wss@[i as int]));
        i = i + 1;
    }
    assert(wss@.take(wss.len() as int) =~= wss@);
    r
}

} // verus!

verus! {

// ── The workspace and toplevel handlers ─────────────────────────────────────

/// The workspace handles known before a round: none outside subscribe mode.
pub open spec fn known_of(st: AppData) -> Seq<u32> {
    match st.monitor {
        Some(m) => m.known_workspaces@,
        None => Seq::empty(),
    }
}

/// The snapshots kept before a round: none outside subscribe mode.
pub open spec fn snapshots_kept(st: AppData) -> Seq<WorkspaceSnapshot> {
    match st.monitor {
        Some(m) => m.workspace_snapshots@,
        None => Seq::empty(),
    }
}

/// Whether events are reported at all: in subscribe mode, or when the
/// caller has an event handler.
pub open spec fn reports_events(st: AppData, has_event_handler: bool) -> bool {
    st.monitor is Some || has_event_handler
}

/// Where the events of subscribe mode go before a round: the CLI format,
/// or `None` for an event handler or outside subscribe mode.
pub open spec fn format_of(st: AppData) -> Option<crate::types::OutputFormat> {
    match st.monitor {
        Some(m) => m.format,
        None => None,
    }
}

impl AppData {
    /// The compositor finished a round of workspace updates.
    ///
    /// Marks the workspaces as received. When events are reported, returns
    /// the round's events: one `WorkspaceAdded` per workspace whose handle
    /// was not known, one `WorkspaceUpdated` per known workspace whose
    /// report differs from the one kept in the previous round, then one
    /// `WorkspaceRemoved` per known handle that is gone, carrying the name
    /// and id it last had. The current handles and snapshots then replace
    /// the known ones, in subscribe mode through the CLI as with an event
    /// handler.
    pub fn done(&mut self, has_event_handler: bool) -> (events: Vec<MonitorEvent>)
        ensures
            final(self).workspaces_done,
            events.deep_view() == (if reports_events(*old(self), has_event_handler) {
                round_events(*old(self), known_of(*old(self)), snapshots_kept(*old(self)))
            } else {
                Seq::empty()
            }),
            if reports_events(*old(self), has_event_handler) {
                final(self).monitor matches Some(m2) && m2.format == format_of(*old(self))
                    && m2.known_workspaces@ == distinct_handles(old(self).workspace_state@)
                    && m2.workspace_snapshots@.map_values(|s: WorkspaceSnapshot| snapshot_view(s))
                    == snapshots_of(*old(self))
            } else {
                final(self).monitor == old(self).monitor
            },
            final(self).output_state == old(self).output_state,
            final(self).seat_state == old(self).seat_state,
            final(self).workspace_state == old(self).workspace_state,
            final(self).workspace_groups == old(self).workspace_groups,
            final(self).toplevel_info_state == old(self).toplevel_info_state,
            final(self).toplevel_manager_state == old(self).toplevel_manager_state,
            final(self).toplevels_done == old(self).toplevels_done,
            final(self).capture_result == old(self).capture_result,
            final(self).capture_formats == old(self).capture_formats,
    {
        if self.monitor.is_none() && !has_event_handler {
            self.workspaces_done = true;
            return Vec::new();
        }
        let events = match &self.monitor {
            Some(m) => workspace_round_events(self, &m.known_workspaces, &m.workspace_snapshots),
            None => {
                let known: Vec<u32> = Vec::new();
                let snaps: Vec<WorkspaceSnapshot> = Vec::new();
                let r = workspace_round_events(self, &known, &snaps);
                assert(known@ =~= known_of(*self));
                assert(snaps@ =~= snapshots_kept(*self));
                r
            },
        };
        let format = match &self.monitor {
            Some(m) => m.format,
            None => None,
        };
        let current = distinct_handles_exec(&self.workspace_state);
        let snaps = take_snapshots(self);
        self.workspaces_done = true;
        self.monitor = Some(
            MonitorConfig { format, known_workspaces: current, workspace_snapshots: snaps },
        );
        events
    }

    /// A window appeared: reported as `WindowOpened` when events are
    /// reported and the window is known.
    pub fn new_toplevel(&self, handle: u32, has_event_handler: bool) -> (r: Option<MonitorEvent>)
        ensures
            r.deep_view() == (if reports_events(*self, has_event_handler) {
                match toplevel_index(self.toplevel_info_state@, handle) {
                    Some(i) => Some(MonitorEventView::WindowOpened {
                        window: spec_toplevel_json(self.toplevel_info_state@[i], *self),
                    }),
                    None => None,
                }
            } else {
                None
            }),
    {
        if self.monitor.is_some() || has_event_handler {
            match find_toplevel(&self.toplevel_info_state, handle) {
                Some(i) => Some(MonitorEvent::WindowOpened {
                    window: toplevel_to_json(&self.toplevel_info_state[i], self),
                }),
                None => None,
            }
        } else {
            None
        }
    }

    /// A window changed: reported as `WindowUpdated` when events are
    /// reported and the window is known.
    pub fn update_toplevel(&self, handle: u32, has_event_handler: bool) -> (r: Option<MonitorEvent>)
        ensures
            r.deep_view() == (if reports_events(*self, has_event_handler) {
                match toplevel_index(self.toplevel_info_state@, handle) {
                    Some(i) => Some(MonitorEventView::WindowUpdated {
                        window: spec_toplevel_json(self.toplevel_info_state@[i], *self),
                    }),
                    None => None,
                }
            } else {
                None
            }),
    {
        if self.monitor.is_some() || has_event_handler {
            match find_toplevel(&self.toplevel_info_state, handle) {
                Some(i) => Some(MonitorEvent::WindowUpdated {
                    window: toplevel_to_json(&self.toplevel_info_state[i], self),
                }),
                None => None,
            }
        } else {
            None
        }
    }

    /// A window closed: reported as `WindowClosed` with its last title, app
    /// id and identifier when events are reported and the window is known.
    pub fn toplevel_closed(&self, handle: u32, has_event_handler: bool) -> (r: Option<MonitorEvent>)
        ensures
            r.deep_view() == (if reports_events(*self, has_event_handler) {
                match toplevel_index(self.toplevel_info_state@, handle) {
                    Some(i) => Some(MonitorEventView::WindowClosed {
                        title: self.toplevel_info_state@[i].title@,
                        app_id: self.toplevel_info_state@[i].app_id@,
                        identifier: self.toplevel_info_state@[i].identifier@,
                    }),
                    None => None,
                }
            } else {
                None
            }),
    {
        if self.monitor.is_some() || has_event_handler {
            match find_toplevel(&self.toplevel_info_state, handle) {
                Some(i) => {
                    let t = &self.toplevel_info_state[i];
                    Some(MonitorEvent::WindowClosed {
                        title: t.title.clone(),
                        app_id: t.app_id.clone(),
                        identifier: t.identifier.clone(),
                    })
                },
                None => None,
            }
        } else {
            None
        }
    }
}

} // verus!

verus! {

// ── Laws of the round ───────────────────────────────────────────────────────

proof fn lemma_distinct_handles_no_duplicates(wss: Seq<Workspace>)
    ensures
        distinct_handles(wss).no_duplicates(),
    decreases wss.len(),
{
    if wss.len() > 0 {
        lemma_distinct_handles_no_duplicates(wss.drop_last());
    }
}

/// Every workspace of a round is classified once: reported as added when
/// its handle was not known, as updated when it was and its report changed
/// since it was last kept, and not at all when it was known and its report
/// is the same; a known handle is reported removed exactly when no
/// workspace has it any more.
pub proof fn law_round_classifies(st: AppData, known: Seq<u32>, snaps: Seq<WorkspaceSnapshot>)
    requires
        st.workspace_state@.len() <= usize::MAX,
        known.len() <= usize::MAX,
    ensures
        forall|i: int|
            0 <= i < st.workspace_state@.len() ==> (#[trigger] added_index(
                st.workspace_state@,
                known,
            ).contains(i as usize) <==> !known.contains(st.workspace_state@[i].handle)),
        forall|i: int|
            0 <= i < st.workspace_state@.len() ==> (#[trigger] updated_index(
                st,
                known,
                snaps,
            ).contains(i as usize) <==> known.contains(st.workspace_state@[i].handle)
                && report_changed(
                snaps,
                st.workspace_state@[i].handle,
                spec_workspace_json(st.workspace_state@[i], st),
            )),
        forall|k: int|
            0 <= k < known.len() ==> (#[trigger] removed_index(
                st.workspace_state@,
                known,
            ).contains(k as usize) <==> !handle_set(st.workspace_state@).contains(known[k])),
        added_index(st.workspace_state@, known).no_duplicates(),
        updated_index(st, known, snaps).no_duplicates(),
        removed_index(st.workspace_state@, known).no_duplicates(),
{
    let wss = st.workspace_state@;
    let pa = |i: int| !known.contains(wss[i].handle);
    let pu = |i: int|
        known.contains(wss[i].handle) && report_changed(
            snaps,
            wss[i].handle,
            spec_workspace_json(wss[i], st),
        );
    let pr = |k: int| !handle_set(wss).contains(known[k]);
    lemma_select_indices(wss.len() as int, pa);
    lemma_select_indices(wss.len() as int, pu);
    lemma_select_indices(known.len() as int, pr);
    let a = added_index(wss, known);
    let u = updated_index(st, known, snaps);
    let r = removed_index(wss, known);
    assert(u == select_indices(wss.len() as int, pu));
    assert forall|i: int| 0 <= i < wss.len() implies (#[trigger] a.contains(i as usize)
        <==> !known.contains(wss[i].handle)) by {
        if a.contains(i as usize) {
            let k = choose|k: int| 0 <= k < a.len() && a[k] == i as usize;
            assert(pa(a[k] as int));
        } else {
            if pa(i) {
            }
        }
    }
    assert forall|i: int| 0 <= i < wss.len() implies (#[trigger] u.contains(i as usize)
        <==> pu(i)) by {
        if u.contains(i as usize) {
            let k = choose|k: int| 0 <= k < u.len() && u[k] == i as usize;
            assert(pu(u[k] as int));
        } else {
            if pu(i) {
            }
        }
    }
    assert forall|k: int| 0 <= k < known.len() implies (#[trigger] r.contains(k as usize)
        <==> !handle_set(wss).contains(known[k])) by {
        if r.contains(k as usize) {
            let j = choose|j: int| 0 <= j < r.len() && r[j] == k as usize;
            assert(pr(r[j] as int));
        } else {
            if pr(k) {
            }
        }
    }
}

/// After a round in subscribe mode the known handles are exactly the
/// handles of the current workspaces, each once.
pub proof fn law_known_after_round(wss: Seq<Workspace>)
    ensures
        distinct_handles(wss).to_set() == handle_set(wss),
        distinct_handles(wss).no_duplicates(),
{
    lemma_distinct_handles_no_duplicates(wss);
    assert forall|h: u32| distinct_handles(wss).to_set().contains(h) <==> handle_set(wss).contains(h) by {
        lemma_distinct_handles_contains(wss, h);
    }
    assert(distinct_handles(wss).to_set() =~= handle_set(wss));
}

/// No two workspaces of the list share a handle.
pub open spec fn handles_distinct(wss: Seq<Workspace>) -> bool {
    forall|i: int, j: int|
        0 <= i < wss.len() && 0 <= j < wss.len() && i != j ==> #[trigger] wss[i].handle
            != #[trigger] wss[j].handle
}

/// The snapshot kept for a workspace that is the first with its handle is
/// the one taken of that workspace.
proof fn lemma_snapshot_index_of_taken(st: AppData, snaps: Seq<WorkspaceSnapshot>, i: int)
    requires
        snaps.map_values(|s: WorkspaceSnapshot| snapshot_view(s)) == snapshots_of(st),
        0 <= i < st.workspace_state@.len(),
        forall|k: int|
            0 <= k < i ==> #[trigger] st.workspace_state@[k].handle != st.workspace_state@[i].handle,
    ensures
        snapshot_index(snaps, st.workspace_state@[i].handle) == Some(i),
        snapshot_view(snaps[i]) == (
            st.workspace_state@[i].handle,
            st.workspace_state@[i].name@,
            st.workspace_state@[i].id.deep_view(),
            spec_workspace_json(st.workspace_state@[i], st),
        ),
{
    let wss = st.workspace_state@;
    let h = wss[i].handle;
    let p = |s: WorkspaceSnapshot| s.handle == h;
    assert(snaps.len() == wss.len()) by {
        assert(snaps.map_values(|s: WorkspaceSnapshot| snapshot_view(s)).len() == snapshots_of(st).len());
    }
    assert forall|k: int| 0 <= k < snaps.len() implies #[trigger] snapshot_view(snaps[k]) == (
        wss[k].handle,
        wss[k].name@,
        wss[k].id.deep_view(),
        spec_workspace_json(wss[k], st),
    ) by {
        assert(snaps.map_values(|s: WorkspaceSnapshot| snapshot_view(s))[k] == snapshots_of(st)[k]);
    }
    crate::seqs::lemma_first_index(snaps, p);
    assert(snapshot_view(snaps[i]) == (wss[i].handle, wss[i].name@, wss[i].id.deep_view(), spec_workspace_json(wss[i], st)));
    assert(p(snaps[i]));
    let j = first_index(snaps, p)->0;
    assert(snapshot_view(snaps[j]) == (wss[j].handle, wss[j].name@, wss[j].id.deep_view(), spec_workspace_json(wss[j], st)));
    if j < i {
        assert(wss[j].handle != wss[i].handle);
    }
}

/// A round over the same state as the one the known handles and snapshots
/// were taken of reports nothing: no workspace is added, updated or
/// removed when nothing changed.
pub proof fn law_unchanged_round(st: AppData, snaps: Seq<WorkspaceSnapshot>)
    requires
        st.workspace_state@.len() <= usize::MAX,
        snaps.map_values(|s: WorkspaceSnapshot| snapshot_view(s)) == snapshots_of(st),
        handles_distinct(st.workspace_state@),
    ensures
        round_events(st, distinct_handles(st.workspace_state@), snaps) == Seq::<MonitorEventView>::empty(),
{
    let wss = st.workspace_state@;
    let known = distinct_handles(wss);
    assert forall|i: int| 0 <= i < wss.len() implies known.contains(wss[i].handle) by {
        lemma_distinct_handles_contains(wss, wss[i].handle);
        assert(handle_set(wss).contains(wss[i].handle));
    }
    let pa = |i: int| !known.contains(wss[i].handle);
    let pu = |i: int|
        known.contains(wss[i].handle) && report_changed(
            snaps,
            wss[i].handle,
            spec_workspace_json(wss[i], st),
        );
    let pr = |k: int| !handle_set(wss).contains(known[k]);
    lemma_select_none(wss.len() as int, pa);
    assert forall|i: int| 0 <= i < wss.len() implies !#[trigger] pu(i) by {
        assert forall|k: int| 0 <= k < i implies #[trigger] wss[k].handle != wss[i].handle by {
            assert(wss[k].handle != wss[i].handle);
        }
        lemma_snapshot_index_of_taken(st, snaps, i);
    }
    lemma_select_none(wss.len() as int, pu);
    assert forall|k: int| 0 <= k < known.len() implies !#[trigger] pr(k) by {
        lemma_distinct_handles_contains(wss, known[k]);
    }
    lemma_select_none(known.len() as int, pr);
    assert(added_index(wss, known) == Seq::<usize>::empty());
    assert(updated_index(st, known, snaps) == Seq::<usize>::empty());
    assert(removed_index(wss, known) == Seq::<usize>::empty());
    assert(round_events(st, known, snaps) =~= Seq::<MonitorEventView>::empty());
}

} // verus!

verus! {

// ── Starting subscribe mode ─────────────────────────────────────────────────

impl AppData {
    /// The compositor finished sending the windows.
    pub fn info_done(&mut self)
        ensures
            final(self).toplevels_done,
            final(self).workspaces_done == old(self).workspaces_done,
            final(self).monitor == old(self).monitor,
            final(self).output_state == old(self).output_state,
            final(self).seat_state == old(self).seat_state,
            final(self).workspace_state == old(self).workspace_state,
            final(self).workspace_groups == old(self).workspace_groups,
            final(self).toplevel_info_state == old(self).toplevel_info_state,
            final(self).toplevel_manager_state == old(self).toplevel_manager_state,
            final(self).capture_result == old(self).capture_result,
            final(self).capture_formats == old(self).capture_formats,
    {
        self.toplevels_done = true;
    }

    /// The initial snapshots of workspaces and windows have both arrived.
    pub fn sync_complete(&self) -> (r: bool)
        ensures
            r == (self.workspaces_done && self.toplevels_done),
    {
        self.workspaces_done && self.toplevels_done
    }

    /// Enters subscribe mode after the initial sync, printing events in
    /// `format` through the CLI: the current workspaces become the known
    /// ones, with their names, ids and reports, so that the next round
    /// reports changes only.
    pub fn start_monitor(&mut self, format: crate::types::OutputFormat)
        ensures
            final(self).monitor matches Some(m) && m.format == Some(format)
                && m.known_workspaces@ == distinct_handles(old(self).workspace_state@)
                && m.workspace_snapshots@.map_values(|s: WorkspaceSnapshot| snapshot_view(s))
                == snapshots_of(*old(self)),
            final(self).output_state == old(self).output_state,
            final(self).seat_state == old(self).seat_state,
            final(self).workspace_state == old(self).workspace_state,
            final(self).workspace_groups == old(self).workspace_groups,
            final(self).toplevel_info_state == old(self).toplevel_info_state,
            final(self).toplevel_manager_state == old(self).toplevel_manager_state,
            final(self).workspaces_done == old(self).workspaces_done,
            final(self).toplevels_done == old(self).toplevels_done,
            final(self).capture_result == old(self).capture_result,
            final(self).capture_formats == old(self).capture_formats,
    {
        self.track_workspaces(Some(format));
    }

    /// Enters subscribe mode after the initial sync, for a library caller
    /// whose event handler receives the events: as `start_monitor`, with
    /// nothing printed.
    pub fn start_subscription(&mut self)
        ensures
            final(self).monitor matches Some(m) && m.format is None
                && m.known_workspaces@ == distinct_handles(old(self).workspace_state@)
                && m.workspace_snapshots@.map_values(|s: WorkspaceSnapshot| snapshot_view(s))
                == snapshots_of(*old(self)),
            final(self).output_state == old(self).output_state,
            final(self).seat_state == old(self).seat_state,
            final(self).workspace_state == old(self).workspace_state,
            final(self).workspace_groups == old(self).workspace_groups,
            final(self).toplevel_info_state == old(self).toplevel_info_state,
            final(self).toplevel_manager_state == old(self).toplevel_manager_state,
            final(self).workspaces_done == old(self).workspaces_done,
            final(self).toplevels_done == old(self).toplevels_done,
            final(self).capture_result == old(self).capture_result,
            final(self).capture_formats == old(self).capture_formats,
    {
        self.track_workspaces(None);
    }

    fn track_workspaces(&mut self, format: Option<crate::types::OutputFormat>)
        ensures
            final(self).monitor matches Some(m) && m.format == format
                && m.known_workspaces@ == distinct_handles(old(self).workspace_state@)
                && m.workspace_snapshots@.map_values(|s: WorkspaceSnapshot| snapshot_view(s))
                == snapshots_of(*old(self)),
            final(self).output_state == old(self).output_state,
            final(self).seat_state == old(self).seat_state,
            final(self).workspace_state == old(self).workspace_state,
            final(self).workspace_groups == old(self).workspace_groups,
            final(self).toplevel_info_state == old(self).toplevel_info_state,
            final(self).toplevel_manager_state == old(self).toplevel_manager_state,
            final(self).workspaces_done == old(self).workspaces_done,
            final(self).toplevels_done == old(self).toplevels_done,
            final(self).capture_result == old(self).capture_result,
            final(self).capture_formats == old(self).capture_formats,
    {
        let known = distinct_handles_exec(&self.workspace_state);
        let snaps = take_snapshots(self);
        self.monitor = Some(
            MonitorConfig { format, known_workspaces: known, workspace_snapshots: snaps },
        );
    }
}

} // verus!

verus! {

/// A workspace that disappears is reported under the name and id it had
/// when the snapshots were taken: those of its first entry in the list the
/// snapshots were taken of.
pub proof fn law_removed_keeps_last_name(prev: AppData, snaps: Seq<WorkspaceSnapshot>, i: int)
    requires
        snaps.map_values(|s: WorkspaceSnapshot| snapshot_view(s)) == snapshots_of(prev),
        0 <= i < prev.workspace_state@.len(),
        forall|k: int|
            0 <= k < i ==> #[trigger] prev.workspace_state@[k].handle != prev.workspace_state@[i].handle,
    ensures
        snapshot_of(snaps, prev.workspace_state@[i].handle) == (
            prev.workspace_state@[i].name@,
            prev.workspace_state@[i].id.deep_view(),
        ),
{
    lemma_snapshot_index_of_taken(prev, snaps, i);
}

} // verus!
