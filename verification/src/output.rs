//! Outputs (monitors): their JSON model and the output → workspace → window
//! tree.

use vstd::prelude::*;
use crate::seqs::{filter_some, first_index, lemma_filter_some_step, select_indices};
use crate::sort::{ExecKey, SortKey, sort_indices, stable_sort_indices};
use crate::state::{
    AppData, Mode, Output, OutputInfo, ToplevelInfo, Transform, Workspace, contains_handle,
    find_workspace, workspace_index,
};
use crate::text::{clone_opt_string, copy_u32s, to_owned_string};
use crate::toplevels::{ToplevelJson, ToplevelJsonView, spec_toplevel_json, toplevel_to_json};
use crate::workspaces::{opt_tiling_label, opt_tiling_name};

verus! {

/// The current mode of an output.
#[derive(Debug, Clone, Copy, PartialEq, Eq, Structural)]
pub struct ModeJson {
    pub width: i32,
    pub height: i32,
    pub refresh: i32,
}

/// An output as the query commands report it.
#[derive(Debug, Clone, PartialEq, Eq)]
pub struct OutputJson {
    pub name: Option<String>,
    pub description: Option<String>,
    pub make: String,
    pub model: String,
    pub width: i32,
    pub height: i32,
    pub refresh: i32,
    pub x: i32,
    pub y: i32,
    pub scale: i32,
    pub transform: String,
    pub current_mode: Option<ModeJson>,
}

/// An output report as plain values.
pub struct OutputJsonView {
    pub name: Option<Seq<char>>,
    pub description: Option<Seq<char>>,
    pub make: Seq<char>,
    pub model: Seq<char>,
    pub width: i32,
    pub height: i32,
    pub refresh: i32,
    pub x: i32,
    pub y: i32,
    pub scale: i32,
    pub transform: Seq<char>,
    pub current_mode: Option<ModeJson>,
}

impl View for OutputJson {
    type V = OutputJsonView;

    open spec fn view(&self) -> OutputJsonView {
        OutputJsonView {
            name: self.name.deep_view(),
            description: self.description.deep_view(),
            make: self.make@,
            model: self.model@,
            width: self.width,
            height: self.height,
            refresh: self.refresh,
            x: self.x,
            y: self.y,
            scale: self.scale,
            transform: self.transform@,
            current_mode: self.current_mode,
        }
    }
}

impl DeepView for OutputJson {
    type V = OutputJsonView;

    open spec fn deep_view(&self) -> OutputJsonView {
        self@
    }
}

/// How a transform is reported.
pub open spec fn transform_label(t: Transform) -> Seq<char> {
    match t {
        Transform::Normal => "normal"@,
        Transform::Rotate90 => "90"@,
        Transform::Rotate180 => "180"@,
        Transform::Rotate270 => "270"@,
        Transform::Flipped => "flipped"@,
        Transform::Flipped90 => "flipped-90"@,
        Transform::Flipped180 => "flipped-180"@,
        Transform::Flipped270 => "flipped-270"@,
        Transform::Unknown => "unknown"@,
    }
}

fn transform_name(t: Transform) -> (r: String)
    ensures
        r@ == transform_label(t),
{
    match t {
        Transform::Normal => to_owned_string("normal"),
        Transform::Rotate90 => to_owned_string("90"),
        Transform::Rotate180 => to_owned_string("180"),
        Transform::Rotate270 => to_owned_string("270"),
        Transform::Flipped => to_owned_string("flipped"),
        Transform::Flipped90 => to_owned_string("flipped-90"),
        Transform::Flipped180 => to_owned_string("flipped-180"),
        Transform::Flipped270 => to_owned_string("flipped-270"),
        Transform::Unknown => to_owned_string("unknown"),
    }
}

/// The first mode marked current.
pub open spec fn current_mode_of(modes: Seq<Mode>) -> Option<Mode> {
    match first_index(modes, |m: Mode| m.current) {
        Some(i) => Some(modes[i]),
        None => None,
    }
}

pub fn find_current_mode(modes: &Vec<Mode>) -> (r: Option<Mode>)
    ensures
        r == current_mode_of(modes@),
{
    let ghost p = |m: Mode| m.current;
    let mut i: usize = 0;
    while i < modes.len()
        invariant
            i <= modes.len(),
            p == (|m: Mode| m.current),
            first_index(modes@.take(i as int), p) is None,
        decreases modes.len() - i,
    {
        proof {
            crate::seqs::lemma_first_index_step(modes@, i as int, p);
        }
        if modes[i].current {
            proof {
                crate::seqs::lemma_first_index_prefix(modes@, i as int + 1, p);
            }
            return Some(modes[i]);
        }
        i = i + 1;
    }
    assert(modes@.take(modes.len() as int) =~= modes@);
    None
}

/// The report of one output: the current mode gives width, height and
/// refresh, all zero when no mode is current.
pub open spec fn spec_output_json(info: OutputInfo) -> OutputJsonView {
    let cm = current_mode_of(info.modes@);
    OutputJsonView {
        name: info.name.deep_view(),
        description: info.description.deep_view(),
        make: info.make@,
        model: info.model@,
        width: match cm {
            Some(m) => m.width,
            None => 0,
        },
        height: match cm {
            Some(m) => m.height,
            None => 0,
        },
        refresh: match cm {
            Some(m) => m.refresh_rate,
            None => 0,
        },
        x: info.x,
        y: info.y,
        scale: info.scale_factor,
        transform: transform_label(info.transform),
        current_mode: match cm {
            Some(m) => Some(ModeJson { width: m.width, height: m.height, refresh: m.refresh_rate }),
            None => None,
        },
    }
}

pub fn output_info_to_json(info: &OutputInfo) -> (r: OutputJson)
    ensures
        r@ == spec_output_json(*info),
{
    let current_mode = match find_current_mode(&info.modes) {
        Some(m) => Some(ModeJson { width: m.width, height: m.height, refresh: m.refresh_rate }),
        None => None,
    };
    let (width, height, refresh) = match current_mode {
        Some(m) => (m.width, m.height, m.refresh),
        None => (0, 0, 0),
    };
    OutputJson {
        name: clone_opt_string(&info.name),
        description: clone_opt_string(&info.description),
        make: info.make.clone(),
        model: info.model.clone(),
        width,
        height,
        refresh,
        x: info.x,
        y: info.y,
        scale: info.scale_factor,
        transform: transform_name(info.transform),
        current_mode,
    }
}


// ── get-tree ─────────────────────────────────────────────────────────────────

/// A workspace in the tree, with the windows on it.
#[derive(Debug, Clone, PartialEq, Eq)]
pub struct TreeWorkspace {
    pub name: String,
    pub id: Option<String>,
    pub active: bool,
    pub pinned: bool,
    pub tiling: Option<String>,
    pub windows: Vec<ToplevelJson>,
}

pub struct TreeWorkspaceView {
    pub name: Seq<char>,
    pub id: Option<Seq<char>>,
    pub active: bool,
    pub pinned: bool,
    pub tiling: Option<Seq<char>>,
    pub windows: Seq<ToplevelJsonView>,
}

impl View for TreeWorkspace {
    type V = TreeWorkspaceView;

    open spec fn view(&self) -> TreeWorkspaceView {
        TreeWorkspaceView {
            name: self.name@,
            id: self.id.deep_view(),
            active: self.active,
            pinned: self.pinned,
            tiling: self.tiling.deep_view(),
            windows: self.windows.deep_view(),
        }
    }
}

impl DeepView for TreeWorkspace {
    type V = TreeWorkspaceView;

    open spec fn deep_view(&self) -> TreeWorkspaceView {
        self@
    }
}

/// An output in the tree, with its workspaces and the windows on it that
/// are on none of them.
#[derive(Debug, Clone, PartialEq, Eq)]
pub struct TreeOutput {
    pub name: Option<String>,
    pub description: Option<String>,
    pub width: i32,
    pub height: i32,
    pub x: i32,
    pub y: i32,
    pub workspaces: Vec<TreeWorkspace>,
    /// Windows not associated with any workspace on this output
    pub floating: Vec<ToplevelJson>,
}

pub struct TreeOutputView {
    pub name: Option<Seq<char>>,
    pub description: Option<Seq<char>>,
    pub width: i32,
    pub height: i32,
    pub x: i32,
    pub y: i32,
    pub workspaces: Seq<TreeWorkspaceView>,
    pub floating: Seq<ToplevelJsonView>,
}

impl View for TreeOutput {
    type V = TreeOutputView;

    open spec fn view(&self) -> TreeOutputView {
        TreeOutputView {
            name: self.name.deep_view(),
            description: self.description.deep_view(),
            width: self.width,
            height: self.height,
            x: self.x,
            y: self.y,
            workspaces: self.workspaces.deep_view(),
            floating: self.floating.deep_view(),
        }
    }
}

impl DeepView for TreeOutput {
    type V = TreeOutputView;

    open spec fn deep_view(&self) -> TreeOutputView {
        self@
    }
}

/// Positions of the windows that are on workspace `h`.
pub open spec fn windows_on_index(st: AppData, h: u32) -> Seq<usize> {
    select_indices(
        st.toplevel_info_state@.len() as int,
        |t: int| st.toplevel_info_state@[t].workspace@.contains(h),
    )
}

/// Reports of the windows at the given positions.
pub open spec fn window_reports(st: AppData, idx: Seq<usize>) -> Seq<ToplevelJsonView> {
    idx.map_values(|t: usize| spec_toplevel_json(st.toplevel_info_state@[t as int], st))
}

/// A workspace node of the tree.
pub open spec fn spec_tree_workspace(st: AppData, w: Workspace) -> TreeWorkspaceView {
    TreeWorkspaceView {
        name: w.name@,
        id: w.id.deep_view(),
        active: w.active,
        pinned: w.pinned,
        tiling: opt_tiling_label(w.tiling),
        windows: window_reports(st, windows_on_index(st, w.handle)),
    }
}

/// Positions of the workspaces that group `g` holds, in listing order.
pub open spec fn group_members(st: AppData, g: int) -> Seq<usize> {
    select_indices(
        st.workspace_state@.len() as int,
        |w: int| st.workspace_groups@[g].workspaces@.contains(st.workspace_state@[w].handle),
    )
}

/// Ordering key of a workspace inside its group: its coordinates.
pub open spec fn coordinate_key(st: AppData, members: Seq<usize>) -> spec_fn(usize) -> SortKey {
    |k: usize| SortKey { group: Seq::empty(), coords: st.workspace_state@[members[k as int] as int].coordinates@ }
}

/// The members of group `g`, stably sorted by coordinates.
pub open spec fn members_sorted(st: AppData, g: int) -> Seq<usize> {
    let m = group_members(st, g);
    sort_indices(m.len() as int, coordinate_key(st, m)).map_values(|k: usize| m[k as int])
}

/// The workspace nodes of group `g`.
pub open spec fn group_tree(st: AppData, g: int) -> Seq<TreeWorkspaceView> {
    members_sorted(st, g).map_values(|w: usize| spec_tree_workspace(st, st.workspace_state@[w as int]))
}

/// Positions of the groups shown on output `h`.
pub open spec fn groups_on_output(st: AppData, h: u32) -> Seq<usize> {
    select_indices(
        st.workspace_groups@.len() as int,
        |g: int| st.workspace_groups@[g].outputs@.contains(h),
    )
}

/// Workspace nodes of the given groups, group after group.
pub open spec fn workspaces_of_groups(st: AppData, gs: Seq<usize>) -> Seq<TreeWorkspaceView>
    decreases gs.len(),
{
    if gs.len() == 0 {
        Seq::empty()
    } else {
        workspaces_of_groups(st, gs.drop_last()) + group_tree(st, gs.last() as int)
    }
}

/// Group `g` is shown on output `h` and holds workspace handle `w`.
pub open spec fn group_on_output_holds(st: AppData, g: int, h: u32, w: u32) -> bool {
    st.workspace_groups@[g].outputs@.contains(h) && st.workspace_groups@[g].workspaces@.contains(w)
}

/// Workspace handle `w` names a listed workspace of a group shown on
/// output `h`.
pub open spec fn output_workspace(st: AppData, h: u32, w: u32) -> bool {
    &&& workspace_index(st.workspace_state@, w) is Some
    &&& exists|g: int|
        0 <= g < st.workspace_groups@.len() && #[trigger] group_on_output_holds(st, g, h, w)
}

/// A window is on some workspace of output `h`.
pub open spec fn on_output_workspace(st: AppData, h: u32, t: ToplevelInfo) -> bool {
    exists|k: int| 0 <= k < t.workspace@.len() && #[trigger] output_workspace(st, h, t.workspace@[k])
}

/// Positions of the windows on output `h` that are on no workspace of that
/// output.
pub open spec fn floating_index(st: AppData, h: u32) -> Seq<usize> {
    select_indices(
        st.toplevel_info_state@.len() as int,
        |t: int|
            st.toplevel_info_state@[t].output@.contains(h) && !on_output_workspace(
                st,
                h,
                st.toplevel_info_state@[t],
            ),
    )
}

/// The node of one output.
pub open spec fn spec_tree_output(st: AppData, h: u32, info: OutputInfo) -> TreeOutputView {
    let cm = current_mode_of(info.modes@);
    TreeOutputView {
        name: info.name.deep_view(),
        description: info.description.deep_view(),
        width: match cm {
            Some(m) => m.width,
            None => 0,
        },
        height: match cm {
            Some(m) => m.height,
            None => 0,
        },
        x: info.x,
        y: info.y,
        workspaces: workspaces_of_groups(st, groups_on_output(st, h)),
        floating: window_reports(st, floating_index(st, h)),
    }
}

/// The node of an output entry, when its info is known.
pub open spec fn output_node(st: AppData, o: Output) -> Option<TreeOutputView> {
    match o.info {
        Some(info) => Some(spec_tree_output(st, o.handle, info)),
        None => None,
    }
}

/// The output → workspace → window tree: one node per output whose info is
/// known, in output order.
pub open spec fn spec_tree(st: AppData) -> Seq<TreeOutputView> {
    filter_some(st.output_state@.map_values(|o: Output| output_node(st, o)))
}

fn window_reports_exec(state: &AppData, idx: &Vec<usize>) -> (r: Vec<ToplevelJson>)
    requires
        forall|k: int| 0 <= k < idx.len() ==> #[trigger] idx@[k] < state.toplevel_info_state.len(),
    ensures
        r.deep_view() == window_reports(*state, idx@),
{
    let mut r: Vec<ToplevelJson> = Vec::new();
    let mut k: usize = 0;
    while k < idx.len()
        invariant
            k <= idx.len(),
            r@.len() == k,
            forall|j: int| 0 <= j < idx.len() ==> #[trigger] idx@[j] < state.toplevel_info_state.len(),
            r.deep_view() =~= window_reports(*state, idx@.take(k as int)),
        decreases idx.len() - k,
    {
        let ghost before = r.deep_view();
        let j = toplevel_to_json(&state.toplevel_info_state[idx[k]], state);
        let ghost jv = j@;
        r.push(j);
        assert(r.deep_view() =~= before.push(jv));
        assert(idx@.take(k + 1) =~= idx@.take(k as int).push(idx@[k as int]));
        k = k + 1;
    }
    assert(idx@.take(idx.len() as int) =~= idx@);
    r
}

fn windows_on_exec(state: &AppData, h: u32) -> (r: Vec<usize>)
    ensures
        r@ == windows_on_index(*state, h),
        forall|k: int| 0 <= k < r@.len() ==> #[trigger] r@[k] < state.toplevel_info_state.len(),
{
    let ghost p = |t: int| state.toplevel_info_state@[t].workspace@.contains(h);
    let mut r: Vec<usize> = Vec::new();
    let mut i: usize = 0;
    while i < state.toplevel_info_state.len()
        invariant
            i <= state.toplevel_info_state.len(),
            p == (|t: int| state.toplevel_info_state@[t].workspace@.contains(h)),
            r@ == select_indices(i as int, p),
            forall|k: int| 0 <= k < r@.len() ==> #[trigger] r@[k] < i,
        decreases state.toplevel_info_state.len() - i,
    {
        if contains_handle(&state.toplevel_info_state[i].workspace, h) {
            r.push(i);
        }
        i = i + 1;
    }
    r
}

fn tree_workspace(state: &AppData, w: &Workspace) -> (r: TreeWorkspace)
    ensures
        r@ == spec_tree_workspace(*state, *w),
{
    let idx = windows_on_exec(state, w.handle);
    let windows = window_reports_exec(state, &idx);
    TreeWorkspace {
        name: w.name.clone(),
        id: clone_opt_string(&w.id),
        active: w.active,
        pinned: w.pinned,
        tiling: opt_tiling_name(w.tiling),
        windows,
    }
}

fn group_members_exec(state: &AppData, g: usize) -> (r: Vec<usize>)
    requires
        g < state.workspace_groups.len(),
    ensures
        r@ == group_members(*state, g as int),
        forall|k: int| 0 <= k < r@.len() ==> #[trigger] r@[k] < state.workspace_state.len(),
{
    let ghost p = |w: int|
        state.workspace_groups@[g as int].workspaces@.contains(state.workspace_state@[w].handle);
    let mut r: Vec<usize> = Vec::new();
    let mut i: usize = 0;
    while i < state.workspace_state.len()
        invariant
            i <= state.workspace_state.len(),
            g < state.workspace_groups.len(),
            p == (|w: int|
                state.workspace_groups@[g as int].workspaces@.contains(
                    state.workspace_state@[w].handle,
                )),
            r@ == select_indices(i as int, p),
            forall|k: int| 0 <= k < r@.len() ==> #[trigger] r@[k] < i,
        decreases state.workspace_state.len() - i,
    {
        if contains_handle(&state.workspace_groups[g].workspaces, state.workspace_state[i].handle) {
            r.push(i);
        }
        i = i + 1;
    }
    r
}

fn group_tree_exec(state: &AppData, g: usize) -> (r: Vec<TreeWorkspace>)
    requires
        g < state.workspace_groups.len(),
    ensures
        r.deep_view() == group_tree(*state, g as int),
{
    let members = group_members_exec(state, g);
    let mut keys: Vec<ExecKey> = Vec::new();
    let mut i: usize = 0;
    while i < members.len()
        invariant
            i <= members.len(),
            keys@.len() == i,
            forall|k: int| 0 <= k < members@.len() ==> #[trigger] members@[k] < state.workspace_state.len(),
            forall|k: int|
                0 <= k < i ==> #[trigger] crate::sort::key_view(keys@[k]) == (coordinate_key(
                    *state,
                    members@,
                ))(k as usize),
        decreases members.len() - i,
    {
        let key = ExecKey {
            group: Vec::new(),
            coords: copy_u32s(&state.workspace_state[members[i]].coordinates),
        };
        keys.push(key);
        assert(crate::sort::key_view(keys@[i as int]).group =~= Seq::<u32>::empty());
        i = i + 1;
    }
    let order = stable_sort_indices(&keys);
    proof {
        let kf1 = |i: usize| crate::sort::key_view(keys@[i as int]);
        let kf2 = coordinate_key(*state, members@);
        assert forall|n: int| 0 <= n <= keys.len() implies sort_indices(n, kf1) == sort_indices(n, kf2) by {
            crate::sort::lemma_sort_indices_same_keys(n, kf1, kf2, keys.len() as int);
        }
    }
    let ghost sorted = members_sorted(*state, g as int);
    let mut r: Vec<TreeWorkspace> = Vec::new();
    let mut k: usize = 0;
    while k < order.len()
        invariant
            k <= order.len(),
            order.len() == members.len(),
            forall|j: int| 0 <= j < order@.len() ==> #[trigger] order@[j] < members.len(),
            forall|j: int| 0 <= j < members@.len() ==> #[trigger] members@[j] < state.workspace_state.len(),
            sorted == order@.map_values(|j: usize| members@[j as int]),
            sorted == members_sorted(*state, g as int),
            r@.len() == k,
            r.deep_view() =~= sorted.take(k as int).map_values(
                |w: usize| spec_tree_workspace(*state, state.workspace_state@[w as int]),
            ),
        decreases order.len() - k,
    {
        let ghost before = r.deep_view();
        let w = members[order[k]];
        let node = tree_workspace(state, &state.workspace_state[w]);
        let ghost nv = node@;
        r.push(node);
        assert(r.deep_view() =~= before.push(nv));
        assert(sorted.take(k + 1) =~= sorted.take(k as int).push(sorted[k as int]));
        k = k + 1;
    }
    assert(sorted.take(order.len() as int) =~= sorted);
    r
}

fn groups_on_output_exec(state: &AppData, h: u32) -> (r: Vec<usize>)
    ensures
        r@ == groups_on_output(*state, h),
        forall|k: int| 0 <= k < r@.len() ==> #[trigger] r@[k] < state.workspace_groups.len(),
{
    let ghost p = |g: int| state.workspace_groups@[g].outputs@.contains(h);
    let mut r: Vec<usize> = Vec::new();
    let mut i: usize = 0;
    while i < state.workspace_groups.len()
        invariant
            i <= state.workspace_groups.len(),
            p == (|g: int| state.workspace_groups@[g].outputs@.contains(h)),
            r@ == select_indices(i as int, p),
            forall|k: int| 0 <= k < r@.len() ==> #[trigger] r@[k] < i,
        decreases state.workspace_groups.len() - i,
    {
        if contains_handle(&state.workspace_groups[i].outputs, h) {
            r.push(i);
        }
        i = i + 1;
    }
    r
}

fn output_workspace_exec(state: &AppData, h: u32, w: u32) -> (r: bool)
    ensures
        r == output_workspace(*state, h, w),
{
    if find_workspace(&state.workspace_state, w).is_none() {
        return false;
    }
    let mut g: usize = 0;
    while g < state.workspace_groups.len()
        invariant
            g <= state.workspace_groups.len(),
            workspace_index(state.workspace_state@, w) is Some,
            forall|j: int| 0 <= j < g ==> !#[trigger] group_on_output_holds(*state, j, h, w),
        decreases state.workspace_groups.len() - g,
    {
        if contains_handle(&state.workspace_groups[g].outputs, h) && contains_handle(
            &state.workspace_groups[g].workspaces,
            w,
        ) {
            assert(group_on_output_holds(*state, g as int, h, w));
            return true;
        }
        g = g + 1;
    }
    false
}

fn on_output_workspace_exec(state: &AppData, h: u32, t: &ToplevelInfo) -> (r: bool)
    ensures
        r == on_output_workspace(*state, h, *t),
{
    let mut k: usize = 0;
    while k < t.workspace.len()
        invariant
            k <= t.workspace.len(),
            forall|j: int| 0 <= j < k ==> !#[trigger] output_workspace(*state, h, t.workspace@[j]),
        decreases t.workspace.len() - k,
    {
        if output_workspace_exec(state, h, t.workspace[k]) {
            return true;
        }
        k = k + 1;
    }
    false
}

fn floating_exec(state: &AppData, h: u32) -> (r: Vec<usize>)
    ensures
        r@ == floating_index(*state, h),
        forall|k: int| 0 <= k < r@.len() ==> #[trigger] r@[k] < state.toplevel_info_state.len(),
{
    let ghost p = |t: int|
        state.toplevel_info_state@[t].output@.contains(h) && !on_output_workspace(
            *state,
            h,
            state.toplevel_info_state@[t],
        );
    let mut r: Vec<usize> = Vec::new();
    let mut i: usize = 0;
    while i < state.toplevel_info_state.len()
        invariant
            i <= state.toplevel_info_state.len(),
            p == (|t: int|
                state.toplevel_info_state@[t].output@.contains(h) && !on_output_workspace(
                    *state,
                    h,
                    state.toplevel_info_state@[t],
                )),
            r@ == select_indices(i as int, p),
            forall|k: int| 0 <= k < r@.len() ==> #[trigger] r@[k] < i,
        decreases state.toplevel_info_state.len() - i,
    {
        let t = &state.toplevel_info_state[i];
        if contains_handle(&t.output, h) && !on_output_workspace_exec(state, h, t) {
            r.push(i);
        }
        i = i + 1;
    }
    r
}

fn tree_output(state: &AppData, h: u32, info: &OutputInfo) -> (r: TreeOutput)
    ensures
        r@ == spec_tree_output(*state, h, *info),
{
    let groups = groups_on_output_exec(state, h);
    let mut tree_workspaces: Vec<TreeWorkspace> = Vec::new();
    let mut k: usize = 0;
    while k < groups.len()
        invariant
            k <= groups.len(),
            forall|j: int| 0 <= j < groups@.len() ==> #[trigger] groups@[j] < state.workspace_groups.len(),
            tree_workspaces.deep_view() =~= workspaces_of_groups(*state, groups@.take(k as int)),
        decreases groups.len() - k,
    {
        let part = group_tree_exec(state, groups[k]);
        let ghost before = tree_workspaces.deep_view();
        let mut part = part;
        let ghost pv = part.deep_view();
        tree_workspaces.append(&mut part);
        assert(tree_workspaces.deep_view() =~= before + pv);
        assert(groups@.take(k + 1).drop_last() =~= groups@.take(k as int));
        k = k + 1;
    }
    assert(groups@.take(groups.len() as int) =~= groups@);
    let fidx = floating_exec(state, h);
    let floating = window_reports_exec(state, &fidx);
    let (w, hh) = match find_current_mode(&info.modes) {
        Some(m) => (m.width, m.height),
        None => (0, 0),
    };
    TreeOutput {
        name: clone_opt_string(&info.name),
        description: clone_opt_string(&info.description),
        width: w,
        height: hh,
        x: info.x,
        y: info.y,
        workspaces: tree_workspaces,
        floating,
    }
}

/// Build the output→workspace→window tree without printing.
pub fn build_tree(state: &AppData) -> (r: Vec<TreeOutput>)
    ensures
        r.deep_view() == spec_tree(*state),
{
    let ghost nodes = state.output_state@.map_values(|o: Output| output_node(*state, o));
    let mut tree: Vec<TreeOutput> = Vec::new();
    let mut i: usize = 0;
    while i < state.output_state.len()
        invariant
            i <= state.output_state.len(),
            nodes == state.output_state@.map_values(|o: Output| output_node(*state, o)),
            tree.deep_view() =~= filter_some(nodes.take(i as int)),
        decreases state.output_state.len() - i,
    {
        proof {
            lemma_filter_some_step(nodes, i as int);
        }
        let o = &state.output_state[i];
        match &o.info {
            Some(info) => {
                let ghost before = tree.deep_view();
                let node = tree_output(state, o.handle, info);
                let ghost nv = node@;
                tree.push(node);
                assert(tree.deep_view() =~= before.push(nv));
            },
            None => {},
        }
        i = i + 1;
    }
    assert(nodes.take(state.output_state.len() as int) =~= nodes);
    tree
}

} // verus!

verus! {

/// Within a group, the tree lists every workspace of the group once, in
/// non-decreasing order of coordinates (compared lexicographically).
pub proof fn law_group_workspaces_sorted(st: AppData, g: int)
    requires
        st.workspace_state@.len() <= usize::MAX,
    ensures
        members_sorted(st, g).len() == group_members(st, g).len(),
        forall|k: int|
            0 <= k < group_members(st, g).len() ==> members_sorted(st, g).contains(
                #[trigger] group_members(st, g)[k],
            ),
        forall|k: int, l: int|
            0 <= k < l < members_sorted(st, g).len() ==> !crate::sort::lex_lt(
                st.workspace_state@[(#[trigger] members_sorted(st, g)[l]) as int].coordinates@,
                st.workspace_state@[(#[trigger] members_sorted(st, g)[k]) as int].coordinates@,
            ),
{
    let m = group_members(st, g);
    crate::seqs::lemma_select_indices(
        st.workspace_state@.len() as int,
        |w: int| st.workspace_groups@[g].workspaces@.contains(st.workspace_state@[w].handle),
    );
    let key = coordinate_key(st, m);
    crate::sort::lemma_sort_indices_sorted_permutation(m.len() as int, key);
    let idx = sort_indices(m.len() as int, key);
    let ms = members_sorted(st, g);
    assert(ms == idx.map_values(|k: usize| m[k as int]));
    assert forall|k: int| 0 <= k < m.len() implies ms.contains(#[trigger] m[k]) by {
        assert(idx.contains(k as usize));
        let j = choose|j: int| 0 <= j < idx.len() && idx[j] == k as usize;
        assert(ms[j] == m[k]);
    }
    assert forall|k: int, l: int| 0 <= k < l < ms.len() implies !crate::sort::lex_lt(
        st.workspace_state@[(#[trigger] ms[l]) as int].coordinates@,
        st.workspace_state@[(#[trigger] ms[k]) as int].coordinates@,
    ) by {
        assert(crate::sort::key_le(key(idx[k]), key(idx[l])));
        crate::sort::lemma_lex_irreflexive(Seq::<u32>::empty());
    }
}

} // verus!

verus! {

/// The mode an output reports as current: the first mode marked current,
/// or none when no mode is.
proof fn lemma_current_mode(modes: Seq<Mode>)
    ensures
        current_mode_of(modes) matches Some(m) ==> exists|i: int|
            0 <= i < modes.len() && modes[i] == m && m.current && forall|j: int|
                0 <= j < i ==> !(#[trigger] modes[j]).current,
        current_mode_of(modes) is None ==> forall|i: int| 0 <= i < modes.len() ==> !(#[trigger] modes[i]).current,
{
    crate::seqs::lemma_first_index(modes, |m: Mode| m.current);
}

/// An output report carries the output's own name, description, make,
/// model, position and scale; its size and refresh rate are those of the
/// first mode marked current, and zero when no mode is.
pub proof fn law_output_report(info: OutputInfo)
    ensures
        spec_output_json(info).name == info.name.deep_view(),
        spec_output_json(info).description == info.description.deep_view(),
        spec_output_json(info).make == info.make@,
        spec_output_json(info).model == info.model@,
        spec_output_json(info).x == info.x,
        spec_output_json(info).y == info.y,
        spec_output_json(info).scale == info.scale_factor,
        spec_output_json(info).transform == match info.transform {
            Transform::Normal => "normal"@,
            Transform::Rotate90 => "90"@,
            Transform::Rotate180 => "180"@,
            Transform::Rotate270 => "270"@,
            Transform::Flipped => "flipped"@,
            Transform::Flipped90 => "flipped-90"@,
            Transform::Flipped180 => "flipped-180"@,
            Transform::Flipped270 => "flipped-270"@,
            Transform::Unknown => "unknown"@,
        },
        forall|i: int|
            0 <= i < info.modes@.len() && (#[trigger] info.modes@[i]).current && (forall|j: int|
                0 <= j < i ==> !(#[trigger] info.modes@[j]).current) ==> spec_output_json(info).width
                == info.modes@[i].width && spec_output_json(info).height == info.modes@[i].height
                && spec_output_json(info).refresh == info.modes@[i].refresh_rate
                && spec_output_json(info).current_mode == Some(
                ModeJson {
                    width: info.modes@[i].width,
                    height: info.modes@[i].height,
                    refresh: info.modes@[i].refresh_rate,
                },
            ),
        (forall|i: int| 0 <= i < info.modes@.len() ==> !(#[trigger] info.modes@[i]).current) ==> (
        spec_output_json(info).width == 0 && spec_output_json(info).height == 0
            && spec_output_json(info).refresh == 0 && spec_output_json(info).current_mode is None),
{
    lemma_current_mode(info.modes@);
}

proof fn lemma_filter_some_members<T>(s: Seq<Option<T>>)
    ensures
        forall|k: int|
            0 <= k < filter_some(s).len() ==> exists|i: int|
                0 <= i < s.len() && s[i] == Some(#[trigger] filter_some(s)[k]),
    decreases s.len(),
{
    if s.len() > 0 {
        let t = s.drop_last();
        lemma_filter_some_members(t);
        assert forall|k: int| 0 <= k < filter_some(s).len() implies exists|i: int|
            0 <= i < s.len() && s[i] == Some(#[trigger] filter_some(s)[k]) by {
            if k < filter_some(t).len() {
                assert(filter_some(s)[k] == filter_some(t)[k]);
                let i = choose|i: int| 0 <= i < t.len() && t[i] == Some(filter_some(t)[k]);
                assert(s[i] == t[i]);
            } else {
                assert(s[s.len() - 1] == Some(filter_some(s)[k]));
            }
        }
    }
}

/// Every node of the tree is the node of one output whose info is known:
/// it carries that output's name, description and position; and every
/// output whose info is known has a node placed where the output is.
pub proof fn law_tree_positions(st: AppData)
    ensures
        forall|k: int|
            0 <= k < spec_tree(st).len() ==> exists|i: int|
                0 <= i < st.output_state@.len() && (#[trigger] st.output_state@[i]).info is Some
                    && (#[trigger] spec_tree(st)[k]).x == st.output_state@[i].info->0.x
                    && spec_tree(st)[k].y == st.output_state@[i].info->0.y
                    && spec_tree(st)[k].name == st.output_state@[i].info->0.name.deep_view()
                    && spec_tree(st)[k].description
                    == st.output_state@[i].info->0.description.deep_view(),
        forall|i: int|
            0 <= i < st.output_state@.len() && (#[trigger] st.output_state@[i]).info is Some ==> {
                let info = st.output_state@[i].info->0;
                &&& output_node(st, st.output_state@[i]) is Some
                &&& output_node(st, st.output_state@[i])->0.x == info.x
                &&& output_node(st, st.output_state@[i])->0.y == info.y
                &&& output_node(st, st.output_state@[i])->0.name == info.name.deep_view()
                &&& output_node(st, st.output_state@[i])->0.description == info.description.deep_view()
            },
{
    let s = st.output_state@.map_values(|o: Output| output_node(st, o));
    lemma_filter_some_members(s);
    assert forall|k: int| 0 <= k < spec_tree(st).len() implies exists|i: int|
        0 <= i < st.output_state@.len() && (#[trigger] st.output_state@[i]).info is Some
            && (#[trigger] spec_tree(st)[k]).x == st.output_state@[i].info->0.x
            && spec_tree(st)[k].y == st.output_state@[i].info->0.y
            && spec_tree(st)[k].name == st.output_state@[i].info->0.name.deep_view()
            && spec_tree(st)[k].description
            == st.output_state@[i].info->0.description.deep_view() by {
        assert(spec_tree(st)[k] == filter_some(s)[k]);
        let i = choose|i: int| 0 <= i < s.len() && s[i] == Some(filter_some(s)[k]);
        assert(s[i] == output_node(st, st.output_state@[i]));
    }
}

} // verus!
