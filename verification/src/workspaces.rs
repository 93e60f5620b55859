//! Workspaces: their JSON model, the order they are listed in, how a
//! selector picks one, and the requests that workspace commands send.

use vstd::prelude::*;
use crate::seqs::{
    first_index, lemma_first_index_prefix, lemma_first_index_step, lemma_select_indices,
    lemma_select_indices_bounded, select_indices,
};
use crate::sort::{ExecKey, SortKey, key_le, key_view, sort_indices, stable_sort_indices};
use crate::state::{
    AppData, TilingState, Workspace, WorkspaceGroup, contains_handle, find_group_of, group_index, output_name,
    output_name_of,
};
use crate::text::{
    chars_of, contains_lowercase, lowercase_chars, push_joined, push_str, seq_join,
    spec_contains, spec_to_lowercase, string_from_chars, to_owned_string, clone_opt_string,
    copy_u32s, char_codes, codes, eq_ignore_ascii_case, spec_eq_ignore_ascii_case, decimal,
    push_decimal,
};
use crate::types::{Error, ErrorView, not_found_error, protocol_error, result_view};

verus! {

// ── JSON model ───────────────────────────────────────────────────────────────

/// Tiling argument of the workspace commands.
#[derive(Debug, Clone, Copy, PartialEq, Eq, Structural)]
pub enum TilingArg {
    Enabled,
    Disabled,
}

/// A workspace as the query commands report it.
#[derive(Debug, Clone, PartialEq, Eq)]
pub struct WorkspaceJson {
    pub name: String,
    pub id: Option<String>,
    pub coordinates: Vec<u32>,
    pub active: bool,
    pub urgent: bool,
    pub hidden: bool,
    pub pinned: bool,
    pub tiling: Option<String>,
    pub output: Option<String>,
    pub group_id: String,
}

/// A workspace report as plain values.
pub struct WorkspaceJsonView {
    pub name: Seq<char>,
    pub id: Option<Seq<char>>,
    pub coordinates: Seq<u32>,
    pub active: bool,
    pub urgent: bool,
    pub hidden: bool,
    pub pinned: bool,
    pub tiling: Option<Seq<char>>,
    pub output: Option<Seq<char>>,
    pub group_id: Seq<char>,
}

impl View for WorkspaceJson {
    type V = WorkspaceJsonView;

    open spec fn view(&self) -> WorkspaceJsonView {
        WorkspaceJsonView {
            name: self.name@,
            id: self.id.deep_view(),
            coordinates: self.coordinates@,
            active: self.active,
            urgent: self.urgent,
            hidden: self.hidden,
            pinned: self.pinned,
            tiling: self.tiling.deep_view(),
            output: self.output.deep_view(),
            group_id: self.group_id@,
        }
    }
}

impl DeepView for WorkspaceJson {
    type V = WorkspaceJsonView;

    open spec fn deep_view(&self) -> WorkspaceJsonView {
        self@
    }
}

/// How a tiling state is reported.
pub open spec fn tiling_label(t: TilingState) -> Seq<char> {
    match t {
        TilingState::TilingEnabled => "enabled"@,
        TilingState::FloatingOnly => "disabled"@,
        TilingState::Unknown(_) => "unknown"@,
    }
}

pub open spec fn opt_tiling_label(t: Option<TilingState>) -> Option<Seq<char>> {
    match t {
        Some(t) => Some(tiling_label(t)),
        None => None,
    }
}

/// The label of a tiling state.
pub fn tiling_name(t: TilingState) -> (r: String)
    ensures
        r@ == tiling_label(t),
{
    match t {
        TilingState::TilingEnabled => to_owned_string("enabled"),
        TilingState::FloatingOnly => to_owned_string("disabled"),
        TilingState::Unknown(_) => to_owned_string("unknown"),
    }
}

pub fn opt_tiling_name(t: Option<TilingState>) -> (r: Option<String>)
    ensures
        r.deep_view() == opt_tiling_label(t),
{
    match t {
        Some(t) => Some(tiling_name(t)),
        None => None,
    }
}

/// The output a workspace is shown on: the first output of the first group
/// that holds it.
pub open spec fn workspace_output(ws: Workspace, st: AppData) -> Option<Seq<char>> {
    match group_index(st.workspace_groups@, ws.handle) {
        Some(g) => {
            let outs = st.workspace_groups@[g].outputs@;
            if outs.len() > 0 {
                output_name_of(st.output_state@, outs[0])
            } else {
                None
            }
        },
        None => None,
    }
}

/// The id of the group that holds a workspace, empty when none does.
pub open spec fn workspace_group_id(ws: Workspace, st: AppData) -> Seq<char> {
    match group_index(st.workspace_groups@, ws.handle) {
        Some(g) => st.workspace_groups@[g].handle_id@,
        None => Seq::empty(),
    }
}

/// The report of one workspace.
pub open spec fn spec_workspace_json(ws: Workspace, st: AppData) -> WorkspaceJsonView {
    WorkspaceJsonView {
        name: ws.name@,
        id: ws.id.deep_view(),
        coordinates: ws.coordinates@,
        active: ws.active,
        urgent: ws.urgent,
        hidden: ws.hidden,
        pinned: ws.pinned,
        tiling: opt_tiling_label(ws.tiling),
        output: workspace_output(ws, st),
        group_id: workspace_group_id(ws, st),
    }
}

pub fn workspace_to_json(ws: &Workspace, state: &AppData) -> (r: WorkspaceJson)
    ensures
        r@ == spec_workspace_json(*ws, *state),
{
    let tiling = opt_tiling_name(ws.tiling);
    // Find the output this workspace is on via its workspace group
    let g = find_group_of(&state.workspace_groups, ws.handle);
    let output = match g {
        Some(gi) => {
            let group = &state.workspace_groups[gi];
            if group.outputs.len() > 0 {
                output_name(&state.output_state, group.outputs[0])
            } else {
                None
            }
        },
        None => None,
    };
    let group_id = match g {
        Some(gi) => state.workspace_groups[gi].handle_id.clone(),
        None => String::new(),
    };
    WorkspaceJson {
        name: ws.name.clone(),
        id: clone_opt_string(&ws.id),
        coordinates: copy_u32s(&ws.coordinates),
        active: ws.active,
        urgent: ws.urgent,
        hidden: ws.hidden,
        pinned: ws.pinned,
        tiling,
        output,
        group_id,
    }
}

/// A copy of a workspace report.
pub fn clone_workspace_json(j: &WorkspaceJson) -> (r: WorkspaceJson)
    ensures
        r@ == j@,
{
    WorkspaceJson {
        name: j.name.clone(),
        id: clone_opt_string(&j.id),
        coordinates: copy_u32s(&j.coordinates),
        active: j.active,
        urgent: j.urgent,
        hidden: j.hidden,
        pinned: j.pinned,
        tiling: clone_opt_string(&j.tiling),
        output: clone_opt_string(&j.output),
        group_id: j.group_id.clone(),
    }
}

/// Reports of all workspaces, in the order the compositor lists them.
pub open spec fn all_workspace_json(st: AppData) -> Seq<WorkspaceJsonView> {
    st.workspace_state@.map_values(|w: Workspace| spec_workspace_json(w, st))
}

/// Listing key of a report: group id, then coordinates.
pub open spec fn listing_key(js: Seq<WorkspaceJsonView>) -> spec_fn(usize) -> SortKey {
    |i: usize| SortKey { group: codes(js[i as int].group_id), coords: js[i as int].coordinates }
}

/// All workspace reports, stably sorted by group id then coordinates.
pub open spec fn spec_workspace_listing(st: AppData) -> Seq<WorkspaceJsonView> {
    let js = all_workspace_json(st);
    sort_indices(js.len() as int, listing_key(js)).map_values(|i: usize| js[i as int])
}

/// All workspaces across all outputs, sorted by group then coordinates.
pub fn workspace_listing(state: &AppData) -> (r: Vec<WorkspaceJson>)
    ensures
        r.deep_view() == spec_workspace_listing(*state),
{
    let ghost js = all_workspace_json(*state);
    let mut all: Vec<WorkspaceJson> = Vec::new();
    let mut keys: Vec<ExecKey> = Vec::new();
    let mut i: usize = 0;
    while i < state.workspace_state.len()
        invariant
            i <= state.workspace_state.len(),
            js == all_workspace_json(*state),
            all@.len() == i,
            keys@.len() == i,
            forall|k: int| 0 <= k < i ==> #[trigger] all@[k]@ == js[k],
            forall|k: int|
                0 <= k < i ==> #[trigger] key_view(keys@[k]) == (listing_key(js))(k as usize),
        decreases state.workspace_state.len() - i,
    {
        let j = workspace_to_json(&state.workspace_state[i], state);
        let key = ExecKey { group: char_codes(j.group_id.as_str()), coords: copy_u32s(&j.coordinates) };
        all.push(j);
        keys.push(key);
        i = i + 1;
    }
    let order = stable_sort_indices(&keys);
    proof {
        let kf1 = |i: usize| key_view(keys@[i as int]);
        crate::sort::lemma_sort_indices_same_keys(keys.len() as int, kf1, listing_key(js), keys.len() as int);
    }
    let ghost listing = spec_workspace_listing(*state);
    let mut r: Vec<WorkspaceJson> = Vec::new();
    let mut k: usize = 0;
    while k < order.len()
        invariant
            k <= order.len(),
            order.len() == all.len(),
            all@.len() == js.len(),
            forall|j: int| 0 <= j < order@.len() ==> #[trigger] order@[j] < all.len(),
            forall|j: int| 0 <= j < all@.len() ==> #[trigger] all@[j]@ == js[j],
            listing == order@.map_values(|i: usize| js[i as int]),
            r@.len() == k,
            r.deep_view() =~= listing.take(k as int),
        decreases order.len() - k,
    {
        let ghost before = r.deep_view();
        let c = clone_workspace_json(&all[order[k]]);
        let ghost cv = c@;
        r.push(c);
        assert(r.deep_view() =~= before.push(cv));
        k = k + 1;
    }
    assert(listing.take(order.len() as int) =~= listing);
    r
}

// ── Selector resolution ─────────────────────────────────────────────────────

/// The position holds a workspace named `sel`.
pub open spec fn named(wss: Seq<Workspace>, sel: Seq<char>) -> spec_fn(int) -> bool {
    |i: int| wss[i].name@ == sel
}

/// Positions of the workspaces whose name equals the selector.
pub open spec fn exact_name_matches(wss: Seq<Workspace>, sel: Seq<char>) -> Seq<usize> {
    select_indices(wss.len() as int, named(wss, sel))
}

/// Positions of the workspaces whose id equals the selector.
pub open spec fn exact_id_matches(wss: Seq<Workspace>, sel: Seq<char>) -> Seq<usize> {
    select_indices(wss.len() as int, |i: int| wss[i].id.deep_view() == Some(sel))
}

/// Positions of the workspaces whose lowercase name contains the lowercase
/// selector.
pub open spec fn name_substring_matches(wss: Seq<Workspace>, sel: Seq<char>) -> Seq<usize> {
    select_indices(
        wss.len() as int,
        |i: int| spec_contains(spec_to_lowercase(wss[i].name@), spec_to_lowercase(sel)),
    )
}

/// Names of the workspaces at the given positions.
pub open spec fn names_at(wss: Seq<Workspace>, idx: Seq<usize>) -> Seq<Seq<char>> {
    idx.map_values(|i: usize| wss[i as int].name@)
}

/// How a selector picks a workspace: an exact name first (an error when
/// several share it), then an exact id, then a case-insensitive substring of
/// the name (an error when several contain it).
pub open spec fn spec_resolve_workspace(wss: Seq<Workspace>, sel: Seq<char>) -> Result<
    usize,
    ErrorView,
> {
    let exact = exact_name_matches(wss, sel);
    let by_id = exact_id_matches(wss, sel);
    let partial = name_substring_matches(wss, sel);
    if exact.len() == 1 {
        Ok(exact[0])
    } else if exact.len() > 1 {
        Err(ErrorView::AmbiguousMatch("multiple workspaces named '"@ + sel + "'"@))
    } else if by_id.len() == 1 {
        Ok(by_id[0])
    } else if partial.len() == 1 {
        Ok(partial[0])
    } else if partial.len() > 1 {
        Err(
            ErrorView::AmbiguousMatch(
                "selector '"@ + sel + "' matches multiple workspaces: "@ + seq_join(
                    names_at(wss, partial),
                    ", "@,
                ),
            ),
        )
    } else {
        Err(ErrorView::NotFound("no workspace matching '"@ + sel + "'"@))
    }
}

fn collect_exact_name(wss: &Vec<Workspace>, sel: &String) -> (r: Vec<usize>)
    ensures
        r@ == exact_name_matches(wss@, sel@),
{
    let ghost p = named(wss@, sel@);
    let mut r: Vec<usize> = Vec::new();
    let mut i: usize = 0;
    while i < wss.len()
        invariant
            i <= wss.len(),
            p == named(wss@, sel@),
            r@ == select_indices(i as int, p),
        decreases wss.len() - i,
    {
        if wss[i].name == *sel {
            r.push(i);
        }
        i = i + 1;
    }
    r
}

fn id_equals(id: &Option<String>, sel: &String) -> (r: bool)
    ensures
        r == (id.deep_view() == Some(sel@)),
{
    match id {
        Some(s) => *s == *sel,
        None => false,
    }
}

fn collect_exact_id(wss: &Vec<Workspace>, sel: &String) -> (r: Vec<usize>)
    ensures
        r@ == exact_id_matches(wss@, sel@),
{
    let ghost p = |i: int| wss@[i].id.deep_view() == Some(sel@);
    let mut r: Vec<usize> = Vec::new();
    let mut i: usize = 0;
    while i < wss.len()
        invariant
            i <= wss.len(),
            p == (|i: int| wss@[i].id.deep_view() == Some(sel@)),
            r@ == select_indices(i as int, p),
        decreases wss.len() - i,
    {
        if id_equals(&wss[i].id, sel) {
            r.push(i);
        }
        i = i + 1;
    }
    r
}

fn collect_name_substring(wss: &Vec<Workspace>, sel: &str) -> (r: Vec<usize>)
    ensures
        r@ == name_substring_matches(wss@, sel@),
{
    let lower = lowercase_chars(sel);
    let ghost p = |i: int| spec_contains(spec_to_lowercase(wss@[i].name@), spec_to_lowercase(sel@));
    let mut r: Vec<usize> = Vec::new();
    let mut i: usize = 0;
    while i < wss.len()
        invariant
            i <= wss.len(),
            lower@ == spec_to_lowercase(sel@),
            p == (|i: int|
                spec_contains(spec_to_lowercase(wss@[i].name@), spec_to_lowercase(sel@))),
            r@ == select_indices(i as int, p),
        decreases wss.len() - i,
    {
        if contains_lowercase(wss[i].name.as_str(), &lower) {
            r.push(i);
        }
        i = i + 1;
    }
    r
}

fn names_of(wss: &Vec<Workspace>, idx: &Vec<usize>) -> (r: Vec<String>)
    requires
        forall|k: int| 0 <= k < idx.len() ==> #[trigger] idx@[k] < wss.len(),
    ensures
        r.deep_view() == names_at(wss@, idx@),
{
    let mut r: Vec<String> = Vec::new();
    let mut k: usize = 0;
    while k < idx.len()
        invariant
            k <= idx.len(),
            r@.len() == k,
            forall|j: int| 0 <= j < idx.len() ==> #[trigger] idx@[j] < wss.len(),
            r.deep_view() =~= names_at(wss@, idx@.take(k as int)),
        decreases idx.len() - k,
    {
        let ghost before = r.deep_view();
        let name = wss[idx[k]].name.clone();
        let ghost nv = name@;
        r.push(name);
        assert(r.deep_view() =~= before.push(nv));
        assert(idx@.take(k + 1) =~= idx@.take(k as int).push(idx@[k as int]));
        k = k + 1;
        assert(r.deep_view() =~= names_at(wss@, idx@.take(k as int)));
    }
    assert(idx@.take(idx.len() as int) =~= idx@);
    r
}

/// Find a workspace by name or id.
fn resolve_workspace(wss: &Vec<Workspace>, selector: &str) -> (r: Result<usize, Error>)
    ensures
        result_view(r) == spec_resolve_workspace(wss@, selector@),
{
    let sel = to_owned_string(selector);
    // 1. Exact match on name
    let exact = collect_exact_name(wss, &sel);
    if exact.len() == 1 {
        return Ok(exact[0]);
    }
    if exact.len() > 1 {
        let mut m: Vec<char> = Vec::new();
        push_str(&mut m, "multiple workspaces named '");
        push_str(&mut m, selector);
        push_str(&mut m, "'");
        return Err(Error::AmbiguousMatch(string_from_chars(&m)));
    }
    // 2. Exact match on id
    let by_id = collect_exact_id(wss, &sel);
    if by_id.len() == 1 {
        return Ok(by_id[0]);
    }
    // 3. Case-insensitive substring match on name
    let partial = collect_name_substring(wss, selector);
    if partial.len() == 1 {
        return Ok(partial[0]);
    }
    if partial.len() > 1 {
        proof {
            lemma_select_indices(
                wss.len() as int,
                |i: int| spec_contains(spec_to_lowercase(wss@[i].name@), spec_to_lowercase(selector@)),
            );
        }
        let names = names_of(wss, &partial);
        let mut m: Vec<char> = Vec::new();
        push_str(&mut m, "selector '");
        push_str(&mut m, selector);
        push_str(&mut m, "' matches multiple workspaces: ");
        push_joined(&mut m, &names, ", ");
        return Err(Error::AmbiguousMatch(string_from_chars(&m)));
    }
    let mut m: Vec<char> = Vec::new();
    push_str(&mut m, "no workspace matching '");
    push_str(&mut m, selector);
    push_str(&mut m, "'");
    Err(Error::NotFound(string_from_chars(&m)))
}

/// Find a workspace by name or id; the result is its position in
/// `state.workspace_state`.
pub fn resolve_workspace_pub(state: &AppData, selector: &str) -> (r: Result<usize, Error>)
    ensures
        result_view(r) == spec_resolve_workspace(state.workspace_state@, selector@),
{
    resolve_workspace(&state.workspace_state, selector)
}

} // verus!

verus! {

// ── Workspace requests ──────────────────────────────────────────────────────

/// A request sent to the compositor for one workspace, which is named by
/// the protocol id of its handle. `Activate` goes through the workspace
/// handle itself; the others go through its COSMIC extension handle.
#[derive(Debug, Clone, PartialEq, Eq)]
pub enum WorkspaceRequest {
    Activate { workspace: u32 },
    Rename { workspace: u32, name: String },
    SetTiling { workspace: u32, tiling: TilingState },
    Pin { workspace: u32 },
    Unpin { workspace: u32 },
    MoveBefore { workspace: u32, other: u32 },
    MoveAfter { workspace: u32, other: u32 },
}

/// A workspace request as plain values.
pub enum WorkspaceRequestView {
    Activate { workspace: u32 },
    Rename { workspace: u32, name: Seq<char> },
    SetTiling { workspace: u32, tiling: TilingState },
    Pin { workspace: u32 },
    Unpin { workspace: u32 },
    MoveBefore { workspace: u32, other: u32 },
    MoveAfter { workspace: u32, other: u32 },
}

impl View for WorkspaceRequest {
    type V = WorkspaceRequestView;

    open spec fn view(&self) -> WorkspaceRequestView {
        match self {
            WorkspaceRequest::Activate { workspace } => WorkspaceRequestView::Activate {
                workspace: *workspace,
            },
            WorkspaceRequest::Rename { workspace, name } => WorkspaceRequestView::Rename {
                workspace: *workspace,
                name: name@,
            },
            WorkspaceRequest::SetTiling { workspace, tiling } => WorkspaceRequestView::SetTiling {
                workspace: *workspace,
                tiling: *tiling,
            },
            WorkspaceRequest::Pin { workspace } => WorkspaceRequestView::Pin {
                workspace: *workspace,
            },
            WorkspaceRequest::Unpin { workspace } => WorkspaceRequestView::Unpin {
                workspace: *workspace,
            },
            WorkspaceRequest::MoveBefore { workspace, other } => WorkspaceRequestView::MoveBefore {
                workspace: *workspace,
                other: *other,
            },
            WorkspaceRequest::MoveAfter { workspace, other } => WorkspaceRequestView::MoveAfter {
                workspace: *workspace,
                other: *other,
            },
        }
    }
}

impl DeepView for WorkspaceRequest {
    type V = WorkspaceRequestView;

    open spec fn deep_view(&self) -> WorkspaceRequestView {
        self@
    }
}

/// A request result as plain values.
pub open spec fn request_result(r: Result<WorkspaceRequest, Error>) -> Result<
    WorkspaceRequestView,
    ErrorView,
> {
    match r {
        Ok(q) => Ok(q@),
        Err(e) => Err(e@),
    }
}

/// The error of a request that needs the COSMIC workspace extension on a
/// workspace that lacks it.
pub open spec fn workspace_ext_missing() -> ErrorView {
    ErrorView::ProtocolNotAvailable("zcosmic-workspace-v2 not available"@)
}

/// The protocol tiling state a tiling argument stands for.
pub open spec fn spec_tiling_of(arg: TilingArg) -> TilingState {
    match arg {
        TilingArg::Enabled => TilingState::TilingEnabled,
        TilingArg::Disabled => TilingState::FloatingOnly,
    }
}

/// The protocol tiling state for a tiling argument.
pub fn tiling_arg_to_protocol(arg: &TilingArg) -> (r: TilingState)
    ensures
        r == spec_tiling_of(*arg),
{
    match arg {
        TilingArg::Enabled => TilingState::TilingEnabled,
        TilingArg::Disabled => TilingState::FloatingOnly,
    }
}

/// Position of the first active workspace, or `NotFound`.
pub open spec fn spec_resolve_active(wss: Seq<Workspace>) -> Result<usize, ErrorView> {
    match first_index(wss, |w: Workspace| w.active) {
        Some(i) => Ok(i as usize),
        None => Err(ErrorView::NotFound("no active workspace found"@)),
    }
}

/// Find the currently active workspace; the result is its position in
/// `state.workspace_state`.
pub fn resolve_active_workspace(state: &AppData) -> (r: Result<usize, Error>)
    ensures
        result_view(r) == spec_resolve_active(state.workspace_state@),
        r matches Ok(i) ==> i < state.workspace_state.len(),
{
    let wss = &state.workspace_state;
    let ghost p = |w: Workspace| w.active;
    let mut i: usize = 0;
    while i < wss.len()
        invariant
            i <= wss.len(),
            wss == &state.workspace_state,
            p == (|w: Workspace| w.active),
            first_index(wss@.take(i as int), p) is None,
        decreases wss.len() - i,
    {
        proof {
            lemma_first_index_step(wss@, i as int, p);
        }
        if wss[i].active {
            proof {
                lemma_first_index_prefix(wss@, i as int + 1, p);
            }
            return Ok(i);
        }
        i = i + 1;
    }
    assert(wss@.take(wss.len() as int) =~= wss@);
    Err(not_found_error("no active workspace found"))
}

/// A resolved position is a position of the list.
pub proof fn lemma_resolve_workspace_bounds(wss: Seq<Workspace>, sel: Seq<char>)
    requires
        wss.len() <= usize::MAX,
    ensures
        spec_resolve_workspace(wss, sel) matches Ok(i) ==> i < wss.len(),
{
    lemma_select_indices_bounded(wss.len() as int);
}

/// The handle of the workspace picked by `sel`, or the resolution error;
/// with `needs_ext`, an error when that workspace lacks the COSMIC
/// extension handle.
pub open spec fn spec_resolved_handle(wss: Seq<Workspace>, sel: Seq<char>, needs_ext: bool) -> Result<
    u32,
    ErrorView,
> {
    match spec_resolve_workspace(wss, sel) {
        Err(e) => Err(e),
        Ok(i) => if needs_ext && !wss[i as int].has_cosmic_handle {
            Err(workspace_ext_missing())
        } else {
            Ok(wss[i as int].handle)
        },
    }
}

/// What `workspace activate` asks for.
pub open spec fn spec_activate(wss: Seq<Workspace>, sel: Seq<char>) -> Result<WorkspaceRequestView, ErrorView> {
    match spec_resolved_handle(wss, sel, false) {
        Ok(h) => Ok(WorkspaceRequestView::Activate { workspace: h }),
        Err(e) => Err(e),
    }
}

/// What `workspace rename` asks for.
pub open spec fn spec_rename(wss: Seq<Workspace>, sel: Seq<char>, name: Seq<char>) -> Result<
    WorkspaceRequestView,
    ErrorView,
> {
    match spec_resolved_handle(wss, sel, true) {
        Ok(h) => Ok(WorkspaceRequestView::Rename { workspace: h, name }),
        Err(e) => Err(e),
    }
}

/// What `workspace pin` asks for.
pub open spec fn spec_pin(wss: Seq<Workspace>, sel: Seq<char>) -> Result<WorkspaceRequestView, ErrorView> {
    match spec_resolved_handle(wss, sel, true) {
        Ok(h) => Ok(WorkspaceRequestView::Pin { workspace: h }),
        Err(e) => Err(e),
    }
}

/// What `workspace unpin` asks for.
pub open spec fn spec_unpin(wss: Seq<Workspace>, sel: Seq<char>) -> Result<WorkspaceRequestView, ErrorView> {
    match spec_resolved_handle(wss, sel, true) {
        Ok(h) => Ok(WorkspaceRequestView::Unpin { workspace: h }),
        Err(e) => Err(e),
    }
}

/// Resolves `selector` and checks the extension handle when `needs_ext`;
/// the result is the workspace's handle.
fn resolved_handle(state: &AppData, selector: &str, needs_ext: bool) -> (r: Result<u32, Error>)
    ensures
        result_view(r) == spec_resolved_handle(state.workspace_state@, selector@, needs_ext),
{
    let n: usize = state.workspace_state.len();
    proof {
        lemma_resolve_workspace_bounds(state.workspace_state@, selector@);
    }
    match resolve_workspace_pub(state, selector) {
        Err(e) => Err(e),
        Ok(i) => {
            if needs_ext && !state.workspace_state[i].has_cosmic_handle {
                Err(protocol_error("zcosmic-workspace-v2 not available"))
            } else {
                Ok(state.workspace_state[i].handle)
            }
        },
    }
}

/// Switch to the workspace picked by `selector`.
pub fn workspace_activate(state: &AppData, selector: &str) -> (r: Result<WorkspaceRequest, Error>)
    ensures
        request_result(r) == spec_activate(state.workspace_state@, selector@),
{
    match resolved_handle(state, selector, false) {
        Err(e) => Err(e),
        Ok(h) => Ok(WorkspaceRequest::Activate { workspace: h }),
    }
}

/// Rename the workspace picked by `selector`.
pub fn workspace_rename(state: &AppData, selector: &str, new_name: &str) -> (r: Result<
    WorkspaceRequest,
    Error,
>)
    ensures
        request_result(r) == spec_rename(state.workspace_state@, selector@, new_name@),
{
    match resolved_handle(state, selector, true) {
        Err(e) => Err(e),
        Ok(h) => Ok(WorkspaceRequest::Rename { workspace: h, name: to_owned_string(new_name) }),
    }
}

/// Pin the workspace picked by `selector`.
pub fn workspace_pin(state: &AppData, selector: &str) -> (r: Result<WorkspaceRequest, Error>)
    ensures
        request_result(r) == spec_pin(state.workspace_state@, selector@),
{
    match resolved_handle(state, selector, true) {
        Err(e) => Err(e),
        Ok(h) => Ok(WorkspaceRequest::Pin { workspace: h }),
    }
}

/// Unpin the workspace picked by `selector`.
pub fn workspace_unpin(state: &AppData, selector: &str) -> (r: Result<WorkspaceRequest, Error>)
    ensures
        request_result(r) == spec_unpin(state.workspace_state@, selector@),
{
    match resolved_handle(state, selector, true) {
        Err(e) => Err(e),
        Ok(h) => Ok(WorkspaceRequest::Unpin { workspace: h }),
    }
}

/// What a move request gives: both workspaces are resolved first (the
/// moved one, then the reference one), then the moved one's extension
/// handle is checked.
pub open spec fn spec_move(
    wss: Seq<Workspace>,
    workspace: Seq<char>,
    other: Seq<char>,
    before: bool,
) -> Result<WorkspaceRequestView, ErrorView> {
    match spec_resolve_workspace(wss, workspace) {
        Err(e) => Err(e),
        Ok(i) => match spec_resolve_workspace(wss, other) {
            Err(e) => Err(e),
            Ok(j) => if !wss[i as int].has_cosmic_handle {
                Err(workspace_ext_missing())
            } else if before {
                Ok(
                    WorkspaceRequestView::MoveBefore {
                        workspace: wss[i as int].handle,
                        other: wss[j as int].handle,
                    },
                )
            } else {
                Ok(
                    WorkspaceRequestView::MoveAfter {
                        workspace: wss[i as int].handle,
                        other: wss[j as int].handle,
                    },
                )
            },
        },
    }
}

fn move_request(state: &AppData, workspace: &str, other: &str, before: bool) -> (r: Result<
    WorkspaceRequest,
    Error,
>)
    ensures
        request_result(r) == spec_move(state.workspace_state@, workspace@, other@, before),
{
    let n: usize = state.workspace_state.len();
    proof {
        lemma_resolve_workspace_bounds(state.workspace_state@, workspace@);
        lemma_resolve_workspace_bounds(state.workspace_state@, other@);
    }
    let i = match resolve_workspace_pub(state, workspace) {
        Err(e) => return Err(e),
        Ok(i) => i,
    };
    let j = match resolve_workspace_pub(state, other) {
        Err(e) => return Err(e),
        Ok(j) => j,
    };
    if !state.workspace_state[i].has_cosmic_handle {
        return Err(protocol_error("zcosmic-workspace-v2 not available"));
    }
    let h: u32 = state.workspace_state[i].handle;
    let o: u32 = state.workspace_state[j].handle;
    if before {
        Ok(WorkspaceRequest::MoveBefore { workspace: h, other: o })
    } else {
        Ok(WorkspaceRequest::MoveAfter { workspace: h, other: o })
    }
}

/// Move a workspace to be before another workspace.
pub fn workspace_move_before(state: &AppData, workspace: &str, before: &str) -> (r: Result<
    WorkspaceRequest,
    Error,
>)
    ensures
        request_result(r) == spec_move(state.workspace_state@, workspace@, before@, true),
{
    move_request(state, workspace, before, true)
}

/// Move a workspace to be after another workspace.
pub fn workspace_move_after(state: &AppData, workspace: &str, after: &str) -> (r: Result<
    WorkspaceRequest,
    Error,
>)
    ensures
        request_result(r) == spec_move(state.workspace_state@, workspace@, after@, false),
{
    move_request(state, workspace, after, false)
}

/// The workspace a tiling command targets: the active one when the
/// selector is `active` in any ASCII case, else the one it picks.
pub open spec fn spec_tiling_target(wss: Seq<Workspace>, sel: Seq<char>) -> Result<usize, ErrorView> {
    if spec_eq_ignore_ascii_case(sel, "active"@) {
        spec_resolve_active(wss)
    } else {
        spec_resolve_workspace(wss, sel)
    }
}

/// What setting the tiling of one workspace gives.
pub open spec fn spec_set_tiling(wss: Seq<Workspace>, sel: Seq<char>, tiling: TilingState) -> Result<
    WorkspaceRequestView,
    ErrorView,
> {
    match spec_tiling_target(wss, sel) {
        Err(e) => Err(e),
        Ok(i) => if !wss[i as int].has_cosmic_handle {
            Err(workspace_ext_missing())
        } else {
            Ok(WorkspaceRequestView::SetTiling { workspace: wss[i as int].handle, tiling })
        },
    }
}

/// Enable or disable tiling on the workspace picked by `selector`, or on
/// the active workspace when the selector is `active`.
pub fn workspace_set_tiling(state: &AppData, selector: &str, enabled: bool) -> (r: Result<
    WorkspaceRequest,
    Error,
>)
    ensures
        request_result(r) == spec_set_tiling(
            state.workspace_state@,
            selector@,
            if enabled {
                TilingState::TilingEnabled
            } else {
                TilingState::FloatingOnly
            },
        ),
{
    let n: usize = state.workspace_state.len();
    proof {
        reveal_strlit("active");
        lemma_resolve_workspace_bounds(state.workspace_state@, selector@);
    }
    let target = if eq_ignore_ascii_case(selector, "active") {
        resolve_active_workspace(state)
    } else {
        resolve_workspace_pub(state, selector)
    };
    let i = match target {
        Err(e) => return Err(e),
        Ok(i) => i,
    };
    if !state.workspace_state[i].has_cosmic_handle {
        return Err(protocol_error("zcosmic-workspace-v2 not available"));
    }
    let tiling = if enabled {
        TilingState::TilingEnabled
    } else {
        TilingState::FloatingOnly
    };
    Ok(WorkspaceRequest::SetTiling { workspace: state.workspace_state[i].handle, tiling })
}

} // verus!

verus! {

// ── Tiling default and the workspace command ────────────────────────────────

/// Some window is on the workspace with handle `h`.
pub open spec fn occupied(st: AppData, h: u32) -> bool {
    exists|t: int|
        0 <= t < st.toplevel_info_state@.len() && (#[trigger] st.toplevel_info_state@[t]).workspace@.contains(h)
}

/// Positions of the workspaces that no window is on and that carry the
/// COSMIC extension handle.
pub open spec fn empty_workspace_index(st: AppData) -> Seq<usize> {
    select_indices(
        st.workspace_state@.len() as int,
        |i: int|
            !occupied(st, st.workspace_state@[i].handle) && st.workspace_state@[i].has_cosmic_handle,
    )
}

/// The tiling requests of the tiling default: one per empty workspace with
/// the extension handle, in listing order.
pub open spec fn spec_tiling_default(st: AppData, tiling: TilingState) -> Seq<WorkspaceRequestView> {
    empty_workspace_index(st).map_values(
        |i: usize|
            WorkspaceRequestView::SetTiling { workspace: st.workspace_state@[i as int].handle, tiling },
    )
}

fn is_occupied(state: &AppData, h: u32) -> (r: bool)
    ensures
        r == occupied(*state, h),
{
    let tls = &state.toplevel_info_state;
    let mut t: usize = 0;
    while t < tls.len()
        invariant
            t <= tls.len(),
            tls == &state.toplevel_info_state,
            forall|k: int| 0 <= k < t ==> !(#[trigger] tls@[k]).workspace@.contains(h),
        decreases tls.len() - t,
    {
        if contains_handle(&tls[t].workspace, h) {
            return true;
        }
        t = t + 1;
    }
    false
}

/// Set the tiling state on every workspace that has never had a window:
/// one request per workspace that no window is on and that carries the
/// COSMIC extension handle.
pub fn workspace_set_tiling_default(state: &AppData, enabled: bool) -> (r: Vec<WorkspaceRequest>)
    ensures
        r.deep_view() == spec_tiling_default(
            *state,
            if enabled {
                TilingState::TilingEnabled
            } else {
                TilingState::FloatingOnly
            },
        ),
{
    let tiling = if enabled {
        TilingState::TilingEnabled
    } else {
        TilingState::FloatingOnly
    };
    tiling_default_requests(state, tiling)
}

fn tiling_default_requests(state: &AppData, tiling: TilingState) -> (r: Vec<WorkspaceRequest>)
    ensures
        r.deep_view() == spec_tiling_default(*state, tiling),
{
    let wss = &state.workspace_state;
    let ghost p = |i: int|
        !occupied(*state, state.workspace_state@[i].handle) && state.workspace_state@[i].has_cosmic_handle;
    let ghost f = |i: usize|
        WorkspaceRequestView::SetTiling { workspace: state.workspace_state@[i as int].handle, tiling };
    let mut r: Vec<WorkspaceRequest> = Vec::new();
    let mut i: usize = 0;
    while i < wss.len()
        invariant
            i <= wss.len(),
            wss == &state.workspace_state,
            p == (|i: int|
                !occupied(*state, state.workspace_state@[i].handle)
                    && state.workspace_state@[i].has_cosmic_handle),
            f == (|i: usize|
                WorkspaceRequestView::SetTiling {
                    workspace: state.workspace_state@[i as int].handle,
                    tiling,
                }),
            r.deep_view() =~= select_indices(i as int, p).map_values(f),
        decreases wss.len() - i,
    {
        if !is_occupied(state, wss[i].handle) && wss[i].has_cosmic_handle {
            let ghost before = r.deep_view();
            let q = WorkspaceRequest::SetTiling { workspace: wss[i].handle, tiling };
            let ghost qv = q@;
            r.push(q);
            assert(r.deep_view() =~= before.push(qv));
        }
        i = i + 1;
    }
    r
}

/// A workspace subcommand of the command line.
#[derive(Debug, Clone, PartialEq, Eq)]
#[allow(inconsistent_fields)]
pub enum WorkspaceCommand {
    /// Switch to a workspace (by name or id).
    Activate { workspace: String },
    /// Rename a workspace.
    Rename { workspace: String, new_name: String },
    /// Get the tiling state of a workspace (or the active workspace if omitted).
    GetTiling { workspace: Option<String> },
    /// Enable or disable tiling on a workspace, or on the active one with
    /// the selector `active`.
    SetTiling { workspace: String, state: TilingArg },
    /// Set the tiling default for all workspaces that have never had any windows.
    SetTilingDefault { state: TilingArg },
    /// Pin a workspace (make it persistent across outputs).
    Pin { workspace: String },
    /// Unpin a workspace.
    Unpin { workspace: String },
    /// Move a workspace to be before another workspace.
    MoveBefore { workspace: String, before: String },
    /// Move a workspace to be after another workspace.
    MoveAfter { workspace: String, after: String },
}

/// A workspace subcommand as plain values.
#[allow(inconsistent_fields)]
pub enum WorkspaceCommandView {
    Activate { workspace: Seq<char> },
    Rename { workspace: Seq<char>, new_name: Seq<char> },
    GetTiling { workspace: Option<Seq<char>> },
    SetTiling { workspace: Seq<char>, state: TilingArg },
    SetTilingDefault { state: TilingArg },
    Pin { workspace: Seq<char> },
    Unpin { workspace: Seq<char> },
    MoveBefore { workspace: Seq<char>, before: Seq<char> },
    MoveAfter { workspace: Seq<char>, after: Seq<char> },
}

impl View for WorkspaceCommand {
    type V = WorkspaceCommandView;

    open spec fn view(&self) -> WorkspaceCommandView {
        match self {
            WorkspaceCommand::Activate { workspace } => WorkspaceCommandView::Activate {
                workspace: workspace@,
            },
            WorkspaceCommand::Rename { workspace, new_name } => WorkspaceCommandView::Rename {
                workspace: workspace@,
                new_name: new_name@,
            },
            WorkspaceCommand::GetTiling { workspace } => WorkspaceCommandView::GetTiling {
                workspace: workspace.deep_view(),
            },
            WorkspaceCommand::SetTiling { workspace, state } => WorkspaceCommandView::SetTiling {
                workspace: workspace@,
                state: *state,
            },
            WorkspaceCommand::SetTilingDefault { state } => WorkspaceCommandView::SetTilingDefault {
                state: *state,
            },
            WorkspaceCommand::Pin { workspace } => WorkspaceCommandView::Pin {
                workspace: workspace@,
            },
            WorkspaceCommand::Unpin { workspace } => WorkspaceCommandView::Unpin {
                workspace: workspace@,
            },
            WorkspaceCommand::MoveBefore { workspace, before } => WorkspaceCommandView::MoveBefore {
                workspace: workspace@,
                before: before@,
            },
            WorkspaceCommand::MoveAfter { workspace, after } => WorkspaceCommandView::MoveAfter {
                workspace: workspace@,
                after: after@,
            },
        }
    }
}

/// What a workspace command does: the requests to send, whether to commit
/// them afterwards, and the lines to print on standard output and on
/// standard error.
#[derive(Debug, Clone, PartialEq, Eq)]
pub struct WorkspaceOutcome {
    pub requests: Vec<WorkspaceRequest>,
    pub commit: bool,
    pub stdout: Option<String>,
    pub stderr: Option<String>,
}

/// A workspace command outcome as plain values.
pub struct WorkspaceOutcomeView {
    pub requests: Seq<WorkspaceRequestView>,
    pub commit: bool,
    pub stdout: Option<Seq<char>>,
    pub stderr: Option<Seq<char>>,
}

impl View for WorkspaceOutcome {
    type V = WorkspaceOutcomeView;

    open spec fn view(&self) -> WorkspaceOutcomeView {
        WorkspaceOutcomeView {
            requests: self.requests.deep_view(),
            commit: self.commit,
            stdout: self.stdout.deep_view(),
            stderr: self.stderr.deep_view(),
        }
    }
}

/// One request, committed, printing nothing.
pub open spec fn single(q: WorkspaceRequestView) -> WorkspaceOutcomeView {
    WorkspaceOutcomeView { requests: seq![q], commit: true, stdout: None, stderr: None }
}

/// The outcome of a command that sends one request.
pub open spec fn single_result(r: Result<WorkspaceRequestView, ErrorView>) -> Result<
    WorkspaceOutcomeView,
    ErrorView,
> {
    match r {
        Ok(q) => Ok(single(q)),
        Err(e) => Err(e),
    }
}

/// The line `get-tiling` prints for a workspace.
pub open spec fn tiling_line(ws: Workspace) -> Seq<char> {
    ws.name@ + ": tiling="@ + match ws.tiling {
        Some(t) => tiling_label(t),
        None => "unknown"@,
    }
}

/// The line `set-tiling-default` prints.
pub open spec fn tiling_default_line(changed: nat) -> Seq<char> {
    "set tiling default on "@ + decimal(changed) + " empty workspace(s)"@
}

/// What a workspace command does on the given state.
pub open spec fn spec_cmd_workspace(st: AppData, cmd: WorkspaceCommandView) -> Result<
    WorkspaceOutcomeView,
    ErrorView,
> {
    let wss = st.workspace_state@;
    match cmd {
        WorkspaceCommandView::Activate { workspace } => single_result(spec_activate(wss, workspace)),
        WorkspaceCommandView::Rename { workspace, new_name } => single_result(
            spec_rename(wss, workspace, new_name),
        ),
        WorkspaceCommandView::GetTiling { workspace } => {
            let target = match workspace {
                Some(sel) => spec_resolve_workspace(wss, sel),
                None => spec_resolve_active(wss),
            };
            match target {
                Err(e) => Err(e),
                Ok(i) => Ok(
                    WorkspaceOutcomeView {
                        requests: Seq::empty(),
                        commit: false,
                        stdout: Some(tiling_line(wss[i as int])),
                        stderr: None,
                    },
                ),
            }
        },
        WorkspaceCommandView::SetTiling { workspace, state } => single_result(
            spec_set_tiling(wss, workspace, spec_tiling_of(state)),
        ),
        WorkspaceCommandView::SetTilingDefault { state } => {
            let qs = spec_tiling_default(st, spec_tiling_of(state));
            Ok(
                WorkspaceOutcomeView {
                    requests: qs,
                    commit: qs.len() > 0,
                    stdout: None,
                    stderr: Some(tiling_default_line(qs.len())),
                },
            )
        },
        WorkspaceCommandView::Pin { workspace } => single_result(spec_pin(wss, workspace)),
        WorkspaceCommandView::Unpin { workspace } => single_result(spec_unpin(wss, workspace)),
        WorkspaceCommandView::MoveBefore { workspace, before } => single_result(
            spec_move(wss, workspace, before, true),
        ),
        WorkspaceCommandView::MoveAfter { workspace, after } => single_result(
            spec_move(wss, workspace, after, false),
        ),
    }
}

/// A command outcome as plain values.
pub open spec fn outcome_result(r: Result<WorkspaceOutcome, Error>) -> Result<
    WorkspaceOutcomeView,
    ErrorView,
> {
    match r {
        Ok(o) => Ok(o@),
        Err(e) => Err(e@),
    }
}

fn single_outcome(r: Result<WorkspaceRequest, Error>) -> (o: Result<WorkspaceOutcome, Error>)
    ensures
        outcome_result(o) == single_result(request_result(r)),
{
    match r {
        Err(e) => Err(e),
        Ok(q) => {
            let ghost qv = q@;
            let mut requests: Vec<WorkspaceRequest> = Vec::new();
            requests.push(q);
            assert(requests.deep_view() =~= seq![qv]);
            Ok(WorkspaceOutcome { requests, commit: true, stdout: None, stderr: None })
        },
    }
}

fn get_tiling_line(ws: &Workspace) -> (r: String)
    ensures
        r@ == tiling_line(*ws),
{
    let mut v: Vec<char> = Vec::new();
    push_str(&mut v, ws.name.as_str());
    push_str(&mut v, ": tiling=");
    match ws.tiling {
        Some(t) => {
            let label = tiling_name(t);
            push_str(&mut v, label.as_str());
        },
        None => push_str(&mut v, "unknown"),
    }
    assert(v@ =~= tiling_line(*ws));
    string_from_chars(&v)
}

/// Run a workspace subcommand against the collected state: resolve its
/// selectors and decide the requests to send, whether to commit them, and
/// what to print.
pub fn cmd_workspace(state: &AppData, cmd: WorkspaceCommand) -> (r: Result<WorkspaceOutcome, Error>)
    ensures
        outcome_result(r) == spec_cmd_workspace(*state, cmd@),
{
    match cmd {
        WorkspaceCommand::Activate { workspace } => single_outcome(
            workspace_activate(state, workspace.as_str()),
        ),
        WorkspaceCommand::Rename { workspace, new_name } => single_outcome(
            workspace_rename(state, workspace.as_str(), new_name.as_str()),
        ),
        WorkspaceCommand::GetTiling { workspace } => {
            let n: usize = state.workspace_state.len();
            let target = match &workspace {
                Some(sel) => {
                    proof {
                        lemma_resolve_workspace_bounds(state.workspace_state@, sel@);
                    }
                    resolve_workspace_pub(state, sel.as_str())
                },
                None => resolve_active_workspace(state),
            };
            match target {
                Err(e) => Err(e),
                Ok(i) => {
                    let line = get_tiling_line(&state.workspace_state[i]);
                    let requests: Vec<WorkspaceRequest> = Vec::new();
                    assert(requests.deep_view() =~= Seq::<WorkspaceRequestView>::empty());
                    Ok(
                        WorkspaceOutcome {
                            requests,
                            commit: false,
                            stdout: Some(line),
                            stderr: None,
                        },
                    )
                },
            }
        },
        WorkspaceCommand::SetTiling { workspace, state: arg } => {
            let enabled = match arg {
                TilingArg::Enabled => true,
                TilingArg::Disabled => false,
            };
            single_outcome(workspace_set_tiling(state, workspace.as_str(), enabled))
        },
        WorkspaceCommand::SetTilingDefault { state: arg } => {
            let tiling = tiling_arg_to_protocol(&arg);
            let requests = tiling_default_requests(state, tiling);
            let changed: usize = requests.len();
            let mut v: Vec<char> = Vec::new();
            push_str(&mut v, "set tiling default on ");
            push_decimal(&mut v, changed as u64);
            push_str(&mut v, " empty workspace(s)");
            assert(v@ =~= tiling_default_line(changed as nat));
            let line = string_from_chars(&v);
            Ok(
                WorkspaceOutcome {
                    requests,
                    commit: changed > 0,
                    stdout: None,
                    stderr: Some(line),
                },
            )
        },
        WorkspaceCommand::Pin { workspace } => single_outcome(
            workspace_pin(state, workspace.as_str()),
        ),
        WorkspaceCommand::Unpin { workspace } => single_outcome(
            workspace_unpin(state, workspace.as_str()),
        ),
        WorkspaceCommand::MoveBefore { workspace, before } => single_outcome(
            workspace_move_before(state, workspace.as_str(), before.as_str()),
        ),
        WorkspaceCommand::MoveAfter { workspace, after } => single_outcome(
            workspace_move_after(state, workspace.as_str(), after.as_str()),
        ),
    }
}

} // verus!

verus! {

// ── Laws ────────────────────────────────────────────────────────────────────

/// The listing key of a workspace report: its group id, then coordinates.
pub open spec fn report_key(j: WorkspaceJsonView) -> SortKey {
    SortKey { group: codes(j.group_id), coords: j.coordinates }
}

/// The workspace listing reports every workspace exactly once (it is a
/// reordering of the compositor's list), ordered by group id and then by
/// coordinates, both compared lexicographically.
pub proof fn law_workspace_listing_sorted(st: AppData)
    requires
        st.workspace_state@.len() <= usize::MAX,
    ensures
        spec_workspace_listing(st).len() == st.workspace_state@.len(),
        forall|i: int|
            0 <= i < st.workspace_state@.len() ==> spec_workspace_listing(st).contains(
                #[trigger] spec_workspace_json(st.workspace_state@[i], st),
            ),
        forall|k: int, l: int|
            0 <= k < l < spec_workspace_listing(st).len() ==> key_le(
                report_key(#[trigger] spec_workspace_listing(st)[k]),
                report_key(#[trigger] spec_workspace_listing(st)[l]),
            ),
{
    let js = all_workspace_json(st);
    let key = listing_key(js);
    let n = js.len() as int;
    crate::sort::lemma_sort_indices_sorted_permutation(n, key);
    let idx = sort_indices(n, key);
    let listing = spec_workspace_listing(st);
    assert(listing == idx.map_values(|i: usize| js[i as int]));
    assert forall|i: int| 0 <= i < st.workspace_state@.len() implies listing.contains(
        #[trigger] spec_workspace_json(st.workspace_state@[i], st),
    ) by {
        assert(idx.contains(i as usize));
        let k = choose|k: int| 0 <= k < idx.len() && idx[k] == i as usize;
        assert(listing[k] == js[i]);
    }
    assert forall|k: int, l: int| 0 <= k < l < listing.len() implies key_le(
        report_key(#[trigger] listing[k]),
        report_key(#[trigger] listing[l]),
    ) by {
        assert(key_le(key(idx[k]), key(idx[l])));
    }
}

/// A selector resolves to a workspace whose name equals it, whose id equals
/// it, or whose lowercase name contains its lowercase form. When exactly one
/// workspace is named by it, that one is picked. The answer is `NotFound`
/// exactly when no name contains it (case-insensitively) and it is not the
/// id of exactly one workspace. It is an ambiguity when several workspaces
/// bear the name, or when, with no name or unique id matching, several
/// names contain it.
pub proof fn law_resolve_workspace(wss: Seq<Workspace>, sel: Seq<char>)
    requires
        wss.len() <= usize::MAX,
    ensures
        spec_resolve_workspace(wss, sel) matches Ok(i) ==> i < wss.len() && (wss[i as int].name@
            == sel || wss[i as int].id.deep_view() == Some(sel) || spec_contains(
            spec_to_lowercase(wss[i as int].name@),
            spec_to_lowercase(sel),
        )),
        forall|i: int|
            0 <= i < wss.len() && #[trigger] wss[i].name@ == sel && (forall|j: int|
                0 <= j < wss.len() && j != i ==> wss[j].name@ != sel) ==> spec_resolve_workspace(
                wss,
                sel,
            ) == Ok::<usize, ErrorView>(i as usize),
        (spec_resolve_workspace(wss, sel) matches Err(ErrorView::NotFound(_))) <==> (
        name_substring_matches(wss, sel).len() == 0 && exact_id_matches(wss, sel).len() != 1),
        exact_name_matches(wss, sel).len() > 1 ==> spec_resolve_workspace(wss, sel) matches Err(
            ErrorView::AmbiguousMatch(_),
        ),
        exact_name_matches(wss, sel).len() == 0 && exact_id_matches(wss, sel).len() != 1
            && name_substring_matches(wss, sel).len() > 1 ==> spec_resolve_workspace(
            wss,
            sel,
        ) matches Err(ErrorView::AmbiguousMatch(_)),
{
    let pe = named(wss, sel);
    let pi = |i: int| wss[i].id.deep_view() == Some(sel);
    let ps = |i: int| spec_contains(spec_to_lowercase(wss[i].name@), spec_to_lowercase(sel));
    lemma_select_indices(wss.len() as int, pe);
    lemma_select_indices(wss.len() as int, pi);
    lemma_select_indices(wss.len() as int, ps);
    let exact = exact_name_matches(wss, sel);
    let by_id = exact_id_matches(wss, sel);
    let partial = name_substring_matches(wss, sel);
    assert(exact == select_indices(wss.len() as int, pe));
    assert(by_id == select_indices(wss.len() as int, pi));
    assert(partial == select_indices(wss.len() as int, ps));
    if exact.len() > 0 {
        assert(pe(exact[0] as int));
    }
    if by_id.len() > 0 {
        assert(pi(by_id[0] as int));
    }
    if partial.len() > 0 {
        assert(ps(partial[0] as int));
    }
    // An exact name is also a case-insensitive substring.
    if exact.len() > 0 {
        let i = exact[0] as int;
        let lw = spec_to_lowercase(wss[i].name@);
        assert(lw.subrange(0, 0 + spec_to_lowercase(sel).len() as int) =~= lw);
        assert(ps(i));
        assert(partial.contains(i as usize));
    }
    assert forall|i: int|
        0 <= i < wss.len() && #[trigger] wss[i].name@ == sel && (forall|j: int|
            0 <= j < wss.len() && j != i ==> wss[j].name@ != sel) implies spec_resolve_workspace(
        wss,
        sel,
    ) == Ok::<usize, ErrorView>(i as usize) by {
        assert(pe(i));
        assert(exact.contains(i as usize));
        let k = choose|k: int| 0 <= k < exact.len() && exact[k] == i as usize;
        if exact.len() > 1 {
            let other = if k == 0 { 1int } else { 0int };
            assert(pe(exact[other] as int));
            assert(exact[other] != exact[k]) by {
                if other < k {
                } else {
                }
            }
        }
        assert(exact.len() == 1);
        assert(exact[0] == i as usize);
    }
}

/// The tiling default targets exactly the workspaces that no window is on
/// and that carry the COSMIC extension handle, each once.
pub proof fn law_tiling_default_targets(st: AppData)
    requires
        st.workspace_state@.len() <= usize::MAX,
    ensures
        forall|i: int|
            0 <= i < st.workspace_state@.len() ==> (#[trigger] empty_workspace_index(st).contains(
                i as usize,
            ) <==> (!occupied(st, st.workspace_state@[i].handle)
                && st.workspace_state@[i].has_cosmic_handle)),
        forall|k: int|
            0 <= k < empty_workspace_index(st).len() ==> #[trigger] empty_workspace_index(st)[k]
                < st.workspace_state@.len(),
        empty_workspace_index(st).no_duplicates(),
        spec_tiling_default(st, TilingState::TilingEnabled).len() == empty_workspace_index(st).len(),
{
    let p = |i: int|
        !occupied(st, st.workspace_state@[i].handle) && st.workspace_state@[i].has_cosmic_handle;
    lemma_select_indices(st.workspace_state@.len() as int, p);
    let e = empty_workspace_index(st);
    assert(e == select_indices(st.workspace_state@.len() as int, p));
    assert forall|i: int| 0 <= i < st.workspace_state@.len() implies (#[trigger] e.contains(
        i as usize,
    ) <==> p(i)) by {
        if e.contains(i as usize) {
            let k = choose|k: int| 0 <= k < e.len() && e[k] == i as usize;
            assert(p(e[k] as int));
        }
    }
}

} // verus!

verus! {

/// The positions in the compositor's list of the listed workspaces, in
/// listing order.
pub open spec fn listing_order(st: AppData) -> Seq<usize> {
    let js = all_workspace_json(st);
    sort_indices(js.len() as int, listing_key(js))
}

/// The listing is stable: workspaces with the same group id and coordinates
/// keep the order in which the compositor lists them.
pub proof fn law_workspace_listing_stable(st: AppData)
    requires
        st.workspace_state@.len() <= usize::MAX,
    ensures
        spec_workspace_listing(st) == listing_order(st).map_values(
            |i: usize| spec_workspace_json(st.workspace_state@[i as int], st),
        ),
        forall|k: int, l: int|
            0 <= k < l < listing_order(st).len() && report_key(spec_workspace_listing(st)[k])
                == report_key(spec_workspace_listing(st)[l]) ==> #[trigger] listing_order(st)[k]
                < #[trigger] listing_order(st)[l],
{
    let js = all_workspace_json(st);
    let key = listing_key(js);
    let n = js.len() as int;
    crate::sort::lemma_sort_indices_stable(n, key);
    crate::sort::lemma_sort_indices_len(n, key);
    let order = listing_order(st);
    assert(spec_workspace_listing(st) =~= order.map_values(
        |i: usize| spec_workspace_json(st.workspace_state@[i as int], st),
    ));
    assert forall|k: int, l: int|
        0 <= k < l < order.len() && report_key(spec_workspace_listing(st)[k]) == report_key(
            spec_workspace_listing(st)[l],
        ) implies #[trigger] order[k] < #[trigger] order[l] by {
        assert(key(order[k]) == report_key(spec_workspace_listing(st)[k]));
        assert(key(order[l]) == report_key(spec_workspace_listing(st)[l]));
        crate::sort::lemma_key_le_total_preorder(key(order[l]), key(order[k]), key(order[k]));
    }
}

} // verus!

verus! {

/// A workspace report carries the workspace's own name, id, coordinates and
/// flags: active, urgent, hidden and pinned are each reported as the
/// workspace has them.
pub proof fn law_workspace_report_flags(ws: Workspace, st: AppData)
    ensures
        spec_workspace_json(ws, st).name == ws.name@,
        spec_workspace_json(ws, st).id == ws.id.deep_view(),
        spec_workspace_json(ws, st).coordinates == ws.coordinates@,
        spec_workspace_json(ws, st).active == ws.active,
        spec_workspace_json(ws, st).urgent == ws.urgent,
        spec_workspace_json(ws, st).hidden == ws.hidden,
        spec_workspace_json(ws, st).pinned == ws.pinned,
        ws.tiling is None ==> spec_workspace_json(ws, st).tiling is None,
        ws.tiling == Some(TilingState::TilingEnabled) ==> spec_workspace_json(ws, st).tiling == Some(
            "enabled"@,
        ),
        ws.tiling == Some(TilingState::FloatingOnly) ==> spec_workspace_json(ws, st).tiling == Some(
            "disabled"@,
        ),
        ws.tiling matches Some(TilingState::Unknown(_)) ==> spec_workspace_json(ws, st).tiling
            == Some("unknown"@),
        forall|g: int|
            0 <= g < st.workspace_groups@.len() && (#[trigger] st.workspace_groups@[g]).workspaces@.contains(
                ws.handle,
            ) && (forall|j: int|
                0 <= j < g ==> !(#[trigger] st.workspace_groups@[j]).workspaces@.contains(ws.handle))
                ==> spec_workspace_json(ws, st).group_id == st.workspace_groups@[g].handle_id@
                && spec_workspace_json(ws, st).output == (if st.workspace_groups@[g].outputs@.len() > 0 {
                output_name_of(st.output_state@, st.workspace_groups@[g].outputs@[0])
            } else {
                None
            }),
        (forall|g: int|
            0 <= g < st.workspace_groups@.len() ==> !(#[trigger] st.workspace_groups@[g]).workspaces@.contains(
                ws.handle,
            )) ==> spec_workspace_json(ws, st).group_id == Seq::<char>::empty()
            && spec_workspace_json(ws, st).output is None,
{
    crate::seqs::lemma_first_index(st.workspace_groups@, |g: WorkspaceGroup| g.workspaces@.contains(ws.handle));
}

} // verus!
