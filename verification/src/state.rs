//! The compositor state as plain values: workspaces, workspace groups,
//! outputs and toplevels as last reported by the compositor, identified by
//! their protocol object ids, together with the flags and capture signals
//! that the event handlers keep.

use vstd::prelude::*;
use crate::seqs::first_index;
use crate::capture::Formats;
use crate::types::OutputFormat;
use crate::workspaces::WorkspaceJson;

verus! {

/// Tiling state of a workspace as reported by the compositor; `Unknown`
/// carries a value this library does not know.
#[derive(Debug, Clone, Copy, PartialEq, Eq, Structural)]
pub enum TilingState {
    TilingEnabled,
    FloatingOnly,
    Unknown(u32),
}

/// One workspace.
#[derive(Debug, Clone, PartialEq, Eq)]
pub struct Workspace {
    /// Protocol id of the workspace handle.
    pub handle: u32,
    /// Whether the COSMIC workspace extension handle is bound.
    pub has_cosmic_handle: bool,
    pub name: String,
    pub coordinates: Vec<u32>,
    pub active: bool,
    pub urgent: bool,
    pub hidden: bool,
    pub pinned: bool,
    pub tiling: Option<TilingState>,
    pub id: Option<String>,
}

/// One workspace group: the outputs it is shown on and its workspaces.
#[derive(Debug, Clone, PartialEq, Eq)]
pub struct WorkspaceGroup {
    /// Display form of the group handle's object id.
    pub handle_id: String,
    /// Protocol ids of the outputs, in the compositor's order.
    pub outputs: Vec<u32>,
    /// Protocol ids of the member workspaces.
    pub workspaces: Vec<u32>,
}

/// Output transform.
#[derive(Debug, Clone, Copy, PartialEq, Eq, Structural)]
pub enum Transform {
    Normal,
    Rotate90,
    Rotate180,
    Rotate270,
    Flipped,
    Flipped90,
    Flipped180,
    Flipped270,
    Unknown,
}

/// One output mode.
#[derive(Debug, Clone, Copy, PartialEq, Eq, Structural)]
pub struct Mode {
    pub width: i32,
    pub height: i32,
    /// Refresh rate in mHz.
    pub refresh_rate: i32,
    pub current: bool,
}

/// What the compositor reported about one output.
#[derive(Debug, Clone, PartialEq, Eq)]
pub struct OutputInfo {
    pub name: Option<String>,
    pub description: Option<String>,
    pub make: String,
    pub model: String,
    pub x: i32,
    pub y: i32,
    pub scale_factor: i32,
    pub transform: Transform,
    pub modes: Vec<Mode>,
}

/// One output and its info, if the compositor has sent it.
#[derive(Debug, Clone, PartialEq, Eq)]
pub struct Output {
    /// Protocol id of the output.
    pub handle: u32,
    pub info: Option<OutputInfo>,
}

/// State flags of a window.
#[derive(Debug, Clone, Copy, PartialEq, Eq, Structural)]
pub enum ToplevelState {
    Maximized,
    Minimized,
    Activated,
    Fullscreen,
    Sticky,
    Unknown(u32),
}

/// One window (toplevel).
#[derive(Debug, Clone, PartialEq, Eq)]
pub struct ToplevelInfo {
    /// Protocol id of the foreign toplevel handle.
    pub handle: u32,
    pub title: String,
    pub app_id: String,
    pub identifier: String,
    pub state: Vec<ToplevelState>,
    /// Protocol ids of the outputs the window is on.
    pub output: Vec<u32>,
    /// Protocol ids of the workspaces the window is on.
    pub workspace: Vec<u32>,
    /// Whether the COSMIC toplevel extension handle is bound.
    pub has_cosmic_handle: bool,
}

/// A workspace as last seen: its name and id, kept so that its removal can
/// be reported after the compositor has dropped it, and its report, kept so
/// that an update is reported only when the report changed.
#[derive(Debug, Clone, PartialEq, Eq)]
pub struct WorkspaceSnapshot {
    pub handle: u32,
    pub name: String,
    pub id: Option<String>,
    pub json: WorkspaceJson,
}

/// State of subscribe mode: where events go and the workspaces seen in the
/// previous round.
#[derive(Debug, Clone, PartialEq, Eq)]
pub struct MonitorConfig {
    /// How events are printed through the CLI; `None` when they go to the
    /// event handler of a library caller instead.
    pub format: Option<OutputFormat>,
    /// Protocol ids of the workspaces known after the last round.
    pub known_workspaces: Vec<u32>,
    /// Name, id and report of each known workspace, one entry per handle.
    pub workspace_snapshots: Vec<WorkspaceSnapshot>,
}

/// Outcome of a capture frame.
#[derive(Debug, Clone, PartialEq, Eq)]
pub enum CaptureResult {
    /// Frame is ready; its data was written into the shared buffer.
    Ready,
    Failed(String),
    Stopped,
}

/// The compositor state as last received, with the signals that the event
/// handlers set.
#[derive(Debug, Clone, PartialEq, Eq)]
pub struct AppData {
    /// Outputs in the order the output state lists them.
    pub output_state: Vec<Output>,
    /// Protocol ids of the seats, in the order the seat state lists them.
    pub seat_state: Vec<u32>,
    /// Workspaces in the order the workspace state lists them.
    pub workspace_state: Vec<Workspace>,
    /// Workspace groups in the order the workspace state lists them.
    pub workspace_groups: Vec<WorkspaceGroup>,
    /// Toplevels in the order the toplevel info state lists them.
    pub toplevel_info_state: Vec<ToplevelInfo>,
    /// Whether the toplevel management protocol is bound.
    pub toplevel_manager_state: bool,
    /// Set when running in subscribe mode, through the CLI or with the
    /// event handler of a library caller.
    pub monitor: Option<MonitorConfig>,
    pub workspaces_done: bool,
    pub toplevels_done: bool,
    pub capture_result: Option<CaptureResult>,
    pub capture_formats: Option<Formats>,
}

impl MonitorConfig {
    /// Subscribe mode through the CLI, printing in `format`, with no
    /// workspace known yet.
    pub fn new(format: OutputFormat) -> (r: Self)
        ensures
            r.format == Some(format),
            r.known_workspaces@.len() == 0,
            r.workspace_snapshots@.len() == 0,
    {
        MonitorConfig { format: Some(format), known_workspaces: Vec::new(), workspace_snapshots: Vec::new() }
    }
}

impl AppData {
    /// A state holding the given compositor objects, outside subscribe
    /// mode, with no round finished and no capture under way.
    pub fn new(
        output_state: Vec<Output>,
        seat_state: Vec<u32>,
        workspace_state: Vec<Workspace>,
        workspace_groups: Vec<WorkspaceGroup>,
        toplevel_info_state: Vec<ToplevelInfo>,
        toplevel_manager_state: bool,
    ) -> (r: Self)
        ensures
            r.output_state == output_state,
            r.seat_state == seat_state,
            r.workspace_state == workspace_state,
            r.workspace_groups == workspace_groups,
            r.toplevel_info_state == toplevel_info_state,
            r.toplevel_manager_state == toplevel_manager_state,
            r.monitor is None,
            !r.workspaces_done,
            !r.toplevels_done,
            r.capture_result is None,
            r.capture_formats is None,
    {
        AppData {
            output_state,
            seat_state,
            workspace_state,
            workspace_groups,
            toplevel_info_state,
            toplevel_manager_state,
            monitor: None,
            workspaces_done: false,
            toplevels_done: false,
            capture_result: None,
            capture_formats: None,
        }
    }
}

/// `x` occurs in `v`.
pub fn contains_handle(v: &Vec<u32>, x: u32) -> (r: bool)
    ensures
        r == v@.contains(x),
{
    let mut i: usize = 0;
    while i < v.len()
        invariant
            i <= v.len(),
            forall|k: int| 0 <= k < i ==> v@[k] != x,
        decreases v.len() - i,
    {
        if v[i] == x {
            assert(v@[i as int] == x);
            return true;
        }
        i = i + 1;
    }
    false
}

/// Index of the first output whose handle is `h`.
pub open spec fn output_index(outputs: Seq<Output>, h: u32) -> Option<int> {
    first_index(outputs, |o: Output| o.handle == h)
}

/// The info of the output whose handle is `h`, if known.
pub open spec fn output_info_of(outputs: Seq<Output>, h: u32) -> Option<OutputInfo> {
    match output_index(outputs, h) {
        Some(i) => outputs[i].info,
        None => None,
    }
}

/// The name of the output whose handle is `h`, if known.
pub open spec fn output_name_of(outputs: Seq<Output>, h: u32) -> Option<Seq<char>> {
    match output_info_of(outputs, h) {
        Some(info) => info.name.deep_view(),
        None => None,
    }
}

pub fn find_output(outputs: &Vec<Output>, h: u32) -> (r: Option<usize>)
    ensures
        r matches Some(i) ==> i < outputs.len() && outputs@[i as int].handle == h,
        r matches Some(i) ==> output_index(outputs@, h) == Some(i as int),
        r is None ==> output_index(outputs@, h) is None,
{
    let ghost p = |o: Output| o.handle == h;
    let mut i: usize = 0;
    while i < outputs.len()
        invariant
            i <= outputs.len(),
            p == (|o: Output| o.handle == h),
            first_index(outputs@.take(i as int), p) is None,
        decreases outputs.len() - i,
    {
        proof {
            crate::seqs::lemma_first_index_step(outputs@, i as int, p);
        }
        if outputs[i].handle == h {
            proof {
                crate::seqs::lemma_first_index_prefix(outputs@, i as int + 1, p);
            }
            return Some(i);
        }
        i = i + 1;
    }
    assert(outputs@.take(outputs.len() as int) =~= outputs@);
    None
}

/// Index of the first workspace whose handle is `h`.
pub open spec fn workspace_index(workspaces: Seq<Workspace>, h: u32) -> Option<int> {
    first_index(workspaces, |w: Workspace| w.handle == h)
}

pub fn find_workspace(workspaces: &Vec<Workspace>, h: u32) -> (r: Option<usize>)
    ensures
        r matches Some(i) ==> i < workspaces.len() && workspaces@[i as int].handle == h,
        r matches Some(i) ==> workspace_index(workspaces@, h) == Some(i as int),
        r is None ==> workspace_index(workspaces@, h) is None,
{
    let ghost p = |w: Workspace| w.handle == h;
    let mut i: usize = 0;
    while i < workspaces.len()
        invariant
            i <= workspaces.len(),
            p == (|w: Workspace| w.handle == h),
            first_index(workspaces@.take(i as int), p) is None,
        decreases workspaces.len() - i,
    {
        proof {
            crate::seqs::lemma_first_index_step(workspaces@, i as int, p);
        }
        if workspaces[i].handle == h {
            proof {
                crate::seqs::lemma_first_index_prefix(workspaces@, i as int + 1, p);
            }
            return Some(i);
        }
        i = i + 1;
    }
    assert(workspaces@.take(workspaces.len() as int) =~= workspaces@);
    None
}

/// Index of the first group that holds the workspace `h`.
pub open spec fn group_index(groups: Seq<WorkspaceGroup>, h: u32) -> Option<int> {
    first_index(groups, |g: WorkspaceGroup| g.workspaces@.contains(h))
}

pub fn find_group_of(groups: &Vec<WorkspaceGroup>, h: u32) -> (r: Option<usize>)
    ensures
        r matches Some(i) ==> i < groups.len() && groups@[i as int].workspaces@.contains(h),
        r matches Some(i) ==> group_index(groups@, h) == Some(i as int),
        r is None ==> group_index(groups@, h) is None,
{
    let ghost p = |g: WorkspaceGroup| g.workspaces@.contains(h);
    let mut i: usize = 0;
    while i < groups.len()
        invariant
            i <= groups.len(),
            p == (|g: WorkspaceGroup| g.workspaces@.contains(h)),
            first_index(groups@.take(i as int), p) is None,
        decreases groups.len() - i,
    {
        proof {
            crate::seqs::lemma_first_index_step(groups@, i as int, p);
        }
        if contains_handle(&groups[i].workspaces, h) {
            proof {
                crate::seqs::lemma_first_index_prefix(groups@, i as int + 1, p);
            }
            return Some(i);
        }
        i = i + 1;
    }
    assert(groups@.take(groups.len() as int) =~= groups@);
    None
}

/// Index of the first toplevel whose handle is `h`.
pub open spec fn toplevel_index(toplevels: Seq<ToplevelInfo>, h: u32) -> Option<int> {
    first_index(toplevels, |t: ToplevelInfo| t.handle == h)
}

pub fn find_toplevel(toplevels: &Vec<ToplevelInfo>, h: u32) -> (r: Option<usize>)
    ensures
        r matches Some(i) ==> i < toplevels.len() && toplevels@[i as int].handle == h,
        r matches Some(i) ==> toplevel_index(toplevels@, h) == Some(i as int),
        r is None ==> toplevel_index(toplevels@, h) is None,
{
    let ghost p = |t: ToplevelInfo| t.handle == h;
    let mut i: usize = 0;
    while i < toplevels.len()
        invariant
            i <= toplevels.len(),
            p == (|t: ToplevelInfo| t.handle == h),
            first_index(toplevels@.take(i as int), p) is None,
        decreases toplevels.len() - i,
    {
        proof {
            crate::seqs::lemma_first_index_step(toplevels@, i as int, p);
        }
        if toplevels[i].handle == h {
            proof {
                crate::seqs::lemma_first_index_prefix(toplevels@, i as int + 1, p);
            }
            return Some(i);
        }
        i = i + 1;
    }
    assert(toplevels@.take(toplevels.len() as int) =~= toplevels@);
    None
}

} // verus!

verus! {

/// The name of the output whose handle is `h`, if known.
pub fn output_name(outputs: &Vec<Output>, h: u32) -> (r: Option<String>)
    ensures
        r.deep_view() == output_name_of(outputs@, h),
{
    match find_output(outputs, h) {
        Some(i) => match &outputs[i].info {
            Some(info) => crate::text::clone_opt_string(&info.name),
            None => None,
        },
        None => None,
    }
}

/// The name of the workspace whose handle is `h`, if known.
pub open spec fn workspace_name_of(workspaces: Seq<Workspace>, h: u32) -> Option<Seq<char>> {
    match workspace_index(workspaces, h) {
        Some(i) => Some(workspaces[i].name@),
        None => None,
    }
}

pub fn workspace_name(workspaces: &Vec<Workspace>, h: u32) -> (r: Option<String>)
    ensures
        r.deep_view() == workspace_name_of(workspaces@, h),
{
    match find_workspace(workspaces, h) {
        Some(i) => Some(workspaces[i].name.clone()),
        None => None,
    }
}

} // verus!

verus! {

/// Reports of all windows, in the order the compositor lists them.
pub open spec fn spec_toplevel_listing(st: AppData) -> Seq<crate::toplevels::ToplevelJsonView> {
    st.toplevel_info_state@.map_values(
        |t: ToplevelInfo| crate::toplevels::spec_toplevel_json(t, st),
    )
}

/// Reports of all outputs whose info is known, in output order.
pub open spec fn spec_output_listing(st: AppData) -> Seq<crate::output::OutputJsonView> {
    crate::seqs::filter_some(
        st.output_state@.map_values(
            |o: Output|
                match o.info {
                    Some(info) => Some(crate::output::spec_output_json(info)),
                    None => None,
                },
        ),
    )
}

impl AppData {
    /// All workspaces across all outputs, sorted by group then coordinates.
    pub fn workspaces(&self) -> (r: Vec<crate::workspaces::WorkspaceJson>)
        ensures
            r.deep_view() == crate::workspaces::spec_workspace_listing(*self),
    {
        crate::workspaces::workspace_listing(self)
    }

    /// All open windows (toplevels).
    pub fn toplevels(&self) -> (r: Vec<crate::toplevels::ToplevelJson>)
        ensures
            r.deep_view() == spec_toplevel_listing(*self),
    {
        let mut r: Vec<crate::toplevels::ToplevelJson> = Vec::new();
        let mut i: usize = 0;
        while i < self.toplevel_info_state.len()
            invariant
                i <= self.toplevel_info_state.len(),
                r@.len() == i,
                r.deep_view() =~= spec_toplevel_listing(*self).take(i as int),
            decreases self.toplevel_info_state.len() - i,
        {
            let ghost before = r.deep_view();
            let j = crate::toplevels::toplevel_to_json(&self.toplevel_info_state[i], self);
            let ghost jv = j@;
            r.push(j);
            assert(r.deep_view() =~= before.push(jv));
            i = i + 1;
        }
        r
    }

    /// All connected outputs (monitors).
    pub fn outputs(&self) -> (r: Vec<crate::output::OutputJson>)
        ensures
            r.deep_view() == spec_output_listing(*self),
    {
        let ghost nodes = self.output_state@.map_values(
            |o: Output|
                match o.info {
                    Some(info) => Some(crate::output::spec_output_json(info)),
                    None => None,
                },
        );
        let mut r: Vec<crate::output::OutputJson> = Vec::new();
        let mut i: usize = 0;
        while i < self.output_state.len()
            invariant
                i <= self.output_state.len(),
                nodes == self.output_state@.map_values(
                    |o: Output|
                        match o.info {
                            Some(info) => Some(crate::output::spec_output_json(info)),
                            None => None,
                        },
                ),
                r.deep_view() =~= crate::seqs::filter_some(nodes.take(i as int)),
            decreases self.output_state.len() - i,
        {
            proof {
                crate::seqs::lemma_filter_some_step(nodes, i as int);
            }
            match &self.output_state[i].info {
                Some(info) => {
                    let ghost before = r.deep_view();
                    let j = crate::output::output_info_to_json(info);
                    let ghost jv = j@;
                    r.push(j);
                    assert(r.deep_view() =~= before.push(jv));
                },
                None => {},
            }
            i = i + 1;
        }
        assert(nodes.take(self.output_state.len() as int) =~= nodes);
        r
    }

    /// The full output → workspace → window tree.
    pub fn tree(&self) -> (r: Vec<crate::output::TreeOutput>)
        ensures
            r.deep_view() == crate::output::spec_tree(*self),
    {
        crate::output::build_tree(self)
    }
}

} // verus!
