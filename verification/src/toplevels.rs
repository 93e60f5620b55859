//! Windows (toplevels): their JSON model, how a selector picks one, and the
//! requests that window commands send.

use vstd::prelude::*;
use crate::seqs::{lemma_select_indices, lemma_select_indices_bounded, select_indices};
use crate::seqs::{filter_some, lemma_filter_some_step};
use crate::state::{
    AppData, ToplevelInfo, ToplevelState, find_group_of, group_index, output_name, output_name_of,
    workspace_name, workspace_name_of,
};
use crate::text::{
    contains_lowercase, decimal, lowercase_chars, push_decimal, push_joined, push_str, seq_join,
    spec_contains, spec_to_lowercase, string_from_chars,
};
use crate::types::{Error, ErrorView, other_error, protocol_error, result_view};
use crate::workspaces::{resolve_workspace_pub, spec_resolve_workspace};

verus! {

// ── JSON model ───────────────────────────────────────────────────────────────

/// A window as the query commands report it.
#[derive(Debug, Clone, PartialEq, Eq)]
pub struct ToplevelJson {
    pub title: String,
    pub app_id: String,
    pub identifier: String,
    pub state: Vec<String>,
    pub outputs: Vec<String>,
    pub workspaces: Vec<String>,
}

/// A window report as plain values.
pub struct ToplevelJsonView {
    pub title: Seq<char>,
    pub app_id: Seq<char>,
    pub identifier: Seq<char>,
    pub state: Seq<Seq<char>>,
    pub outputs: Seq<Seq<char>>,
    pub workspaces: Seq<Seq<char>>,
}

impl View for ToplevelJson {
    type V = ToplevelJsonView;

    open spec fn view(&self) -> ToplevelJsonView {
        ToplevelJsonView {
            title: self.title@,
            app_id: self.app_id@,
            identifier: self.identifier@,
            state: self.state.deep_view(),
            outputs: self.outputs.deep_view(),
            workspaces: self.workspaces.deep_view(),
        }
    }
}

impl DeepView for ToplevelJson {
    type V = ToplevelJsonView;

    open spec fn deep_view(&self) -> ToplevelJsonView {
        self@
    }
}

/// How a window state flag is reported.
pub open spec fn state_label(s: ToplevelState) -> Seq<char> {
    match s {
        ToplevelState::Maximized => "maximized"@,
        ToplevelState::Minimized => "minimized"@,
        ToplevelState::Activated => "activated"@,
        ToplevelState::Fullscreen => "fullscreen"@,
        ToplevelState::Sticky => "sticky"@,
        ToplevelState::Unknown(_) => "unknown"@,
    }
}

fn state_name(s: ToplevelState) -> (r: String)
    ensures
        r@ == state_label(s),
{
    match s {
        ToplevelState::Maximized => crate::text::to_owned_string("maximized"),
        ToplevelState::Minimized => crate::text::to_owned_string("minimized"),
        ToplevelState::Activated => crate::text::to_owned_string("activated"),
        ToplevelState::Fullscreen => crate::text::to_owned_string("fullscreen"),
        ToplevelState::Sticky => crate::text::to_owned_string("sticky"),
        ToplevelState::Unknown(_) => crate::text::to_owned_string("unknown"),
    }
}

/// The report of one window: its state labels, the names of its outputs
/// and of its workspaces that are known, in the window's order.
pub open spec fn spec_toplevel_json(t: ToplevelInfo, st: AppData) -> ToplevelJsonView {
    ToplevelJsonView {
        title: t.title@,
        app_id: t.app_id@,
        identifier: t.identifier@,
        state: t.state@.map_values(|s: ToplevelState| state_label(s)),
        outputs: filter_some(t.output@.map_values(|h: u32| output_name_of(st.output_state@, h))),
        workspaces: filter_some(
            t.workspace@.map_values(|h: u32| workspace_name_of(st.workspace_state@, h)),
        ),
    }
}

pub fn toplevel_to_json(t: &ToplevelInfo, state: &AppData) -> (r: ToplevelJson)
    ensures
        r@ == spec_toplevel_json(*t, *state),
{
    let mut tl_states: Vec<String> = Vec::new();
    let mut i: usize = 0;
    while i < t.state.len()
        invariant
            i <= t.state.len(),
            tl_states@.len() == i,
            tl_states.deep_view() =~= t.state@.take(i as int).map_values(
                |s: ToplevelState| state_label(s),
            ),
        decreases t.state.len() - i,
    {
        let ghost before = tl_states.deep_view();
        let name = state_name(t.state[i]);
        let ghost nv = name@;
        tl_states.push(name);
        assert(tl_states.deep_view() =~= before.push(nv));
        i = i + 1;
        assert(t.state@.take(i as int) =~= t.state@.take(i - 1).push(t.state@[i - 1]));
    }
    assert(t.state@.take(t.state.len() as int) =~= t.state@);

    let ghost out_names = t.output@.map_values(|h: u32| output_name_of(state.output_state@, h));
    let mut outputs: Vec<String> = Vec::new();
    let mut i: usize = 0;
    while i < t.output.len()
        invariant
            i <= t.output.len(),
            out_names == t.output@.map_values(|h: u32| output_name_of(state.output_state@, h)),
            outputs.deep_view() =~= filter_some(out_names.take(i as int)),
        decreases t.output.len() - i,
    {
        proof {
            lemma_filter_some_step(out_names, i as int);
        }
        let ghost before = outputs.deep_view();
        match output_name(&state.output_state, t.output[i]) {
            Some(n) => {
                let ghost nv = n@;
                outputs.push(n);
                assert(outputs.deep_view() =~= before.push(nv));
            },
            None => {},
        }
        i = i + 1;
    }
    assert(out_names.take(t.output.len() as int) =~= out_names);

    let ghost ws_names = t.workspace@.map_values(
        |h: u32| workspace_name_of(state.workspace_state@, h),
    );
    let mut workspaces: Vec<String> = Vec::new();
    let mut i: usize = 0;
    while i < t.workspace.len()
        invariant
            i <= t.workspace.len(),
            ws_names == t.workspace@.map_values(
                |h: u32| workspace_name_of(state.workspace_state@, h),
            ),
            workspaces.deep_view() =~= filter_some(ws_names.take(i as int)),
        decreases t.workspace.len() - i,
    {
        proof {
            lemma_filter_some_step(ws_names, i as int);
        }
        let ghost before = workspaces.deep_view();
        match workspace_name(&state.workspace_state, t.workspace[i]) {
            Some(n) => {
                let ghost nv = n@;
                workspaces.push(n);
                assert(workspaces.deep_view() =~= before.push(nv));
            },
            None => {},
        }
        i = i + 1;
    }
    assert(ws_names.take(t.workspace.len() as int) =~= ws_names);

    ToplevelJson {
        title: t.title.clone(),
        app_id: t.app_id.clone(),
        identifier: t.identifier.clone(),
        state: tl_states,
        outputs,
        workspaces,
    }
}

// ── Selector resolution ─────────────────────────────────────────────────────

/// The window attribute a selector is compared with.
#[derive(Clone, Copy, PartialEq, Eq, Structural)]
pub enum MatchField {
    Identifier,
    Title,
    AppId,
}

pub open spec fn field_of(t: ToplevelInfo, f: MatchField) -> Seq<char> {
    match f {
        MatchField::Identifier => t.identifier@,
        MatchField::Title => t.title@,
        MatchField::AppId => t.app_id@,
    }
}

fn field_ref(t: &ToplevelInfo, f: MatchField) -> (r: &String)
    ensures
        r@ == field_of(*t, f),
{
    match f {
        MatchField::Identifier => &t.identifier,
        MatchField::Title => &t.title,
        MatchField::AppId => &t.app_id,
    }
}

/// A window matches a selector on field `f`: exactly, or as a
/// case-insensitive substring.
pub open spec fn field_matches(t: ToplevelInfo, sel: Seq<char>, f: MatchField, exact: bool) -> bool {
    if exact {
        field_of(t, f) == sel
    } else {
        spec_contains(spec_to_lowercase(field_of(t, f)), spec_to_lowercase(sel))
    }
}

/// Positions of the windows that match on field `f`.
pub open spec fn window_matches(
    tls: Seq<ToplevelInfo>,
    sel: Seq<char>,
    f: MatchField,
    exact: bool,
) -> Seq<usize> {
    select_indices(tls.len() as int, |i: int| field_matches(tls[i], sel, f, exact))
}

/// Titles of the windows at the given positions.
pub open spec fn titles_at(tls: Seq<ToplevelInfo>, idx: Seq<usize>) -> Seq<Seq<char>> {
    idx.map_values(|i: usize| tls[i as int].title@)
}

/// What one matching step decides: a unique match, an ambiguity, or
/// nothing (go on to the next step).
pub open spec fn step_outcome(
    tls: Seq<ToplevelInfo>,
    sel: Seq<char>,
    matched: Seq<usize>,
    label: Seq<char>,
) -> Option<Result<usize, ErrorView>> {
    if matched.len() == 1 {
        Some(Ok(matched[0]))
    } else if matched.len() > 1 {
        Some(
            Err(
                ErrorView::AmbiguousMatch(
                    "selector '"@ + sel + "' matches "@ + decimal(matched.len()) + " windows by "@
                        + label + " (titles: "@ + seq_join(titles_at(tls, matched), ", "@)
                        + ")"@,
                ),
            ),
        )
    } else {
        None
    }
}

/// How a selector picks a window: exact identifier, exact title, exact
/// app id, then case-insensitive substring of the title, then of the app
/// id. The first step with any match decides: one match is the result,
/// several are an ambiguity.
pub open spec fn spec_resolve_toplevel(tls: Seq<ToplevelInfo>, sel: Seq<char>) -> Result<
    usize,
    ErrorView,
> {
    let s1 = step_outcome(tls, sel, window_matches(tls, sel, MatchField::Identifier, true), "identifier"@);
    let s2 = step_outcome(tls, sel, window_matches(tls, sel, MatchField::Title, true), "title"@);
    let s3 = step_outcome(tls, sel, window_matches(tls, sel, MatchField::AppId, true), "app_id"@);
    let s4 = step_outcome(tls, sel, window_matches(tls, sel, MatchField::Title, false), "title substring"@);
    let s5 = step_outcome(tls, sel, window_matches(tls, sel, MatchField::AppId, false), "app_id substring"@);
    if s1 is Some {
        s1->0
    } else if s2 is Some {
        s2->0
    } else if s3 is Some {
        s3->0
    } else if s4 is Some {
        s4->0
    } else if s5 is Some {
        s5->0
    } else {
        Err(ErrorView::NotFound("no window matching '"@ + sel + "'"@))
    }
}

fn collect_window_matches(
    tls: &Vec<ToplevelInfo>,
    sel: &str,
    lower: &Vec<char>,
    f: MatchField,
    exact: bool,
) -> (r: Vec<usize>)
    requires
        lower@ == spec_to_lowercase(sel@),
    ensures
        r@ == window_matches(tls@, sel@, f, exact),
{
    let sel_string = crate::text::to_owned_string(sel);
    let ghost p = |i: int| field_matches(tls@[i], sel@, f, exact);
    let mut r: Vec<usize> = Vec::new();
    let mut i: usize = 0;
    while i < tls.len()
        invariant
            i <= tls.len(),
            lower@ == spec_to_lowercase(sel@),
            sel_string@ == sel@,
            p == (|i: int| field_matches(tls@[i], sel@, f, exact)),
            r@ == select_indices(i as int, p),
        decreases tls.len() - i,
    {
        let field = field_ref(&tls[i], f);
        let hit = if exact {
            *field == sel_string
        } else {
            contains_lowercase(field.as_str(), lower)
        };
        if hit {
            r.push(i);
        }
        i = i + 1;
    }
    r
}

fn titles_of(tls: &Vec<ToplevelInfo>, idx: &Vec<usize>) -> (r: Vec<String>)
    requires
        forall|k: int| 0 <= k < idx.len() ==> #[trigger] idx@[k] < tls.len(),
    ensures
        r.deep_view() == titles_at(tls@, idx@),
{
    let mut r: Vec<String> = Vec::new();
    let mut k: usize = 0;
    while k < idx.len()
        invariant
            k <= idx.len(),
            r@.len() == k,
            forall|j: int| 0 <= j < idx.len() ==> #[trigger] idx@[j] < tls.len(),
            r.deep_view() =~= titles_at(tls@, idx@.take(k as int)),
        decreases idx.len() - k,
    {
        let ghost before = r.deep_view();
        let title = tls[idx[k]].title.clone();
        let ghost tv = title@;
        r.push(title);
        assert(r.deep_view() =~= before.push(tv));
        assert(idx@.take(k + 1) =~= idx@.take(k as int).push(idx@[k as int]));
        k = k + 1;
        assert(r.deep_view() =~= titles_at(tls@, idx@.take(k as int)));
    }
    assert(idx@.take(idx.len() as int) =~= idx@);
    r
}

fn match_step(
    tls: &Vec<ToplevelInfo>,
    sel: &str,
    lower: &Vec<char>,
    f: MatchField,
    exact: bool,
    label: &str,
) -> (r: Option<Result<usize, Error>>)
    requires
        lower@ == spec_to_lowercase(sel@),
    ensures
        (match r {
            Some(x) => Some(result_view(x)),
            None => None,
        }) == step_outcome(tls@, sel@, window_matches(tls@, sel@, f, exact), label@),
{
    let matched = collect_window_matches(tls, sel, lower, f, exact);
    if matched.len() == 1 {
        return Some(Ok(matched[0]));
    }
    if matched.len() > 1 {
        proof {
            lemma_select_indices(tls.len() as int, |i: int| field_matches(tls@[i], sel@, f, exact));
        }
        let titles = titles_of(tls, &matched);
        let mut m: Vec<char> = Vec::new();
        push_str(&mut m, "selector '");
        push_str(&mut m, sel);
        push_str(&mut m, "' matches ");
        push_decimal(&mut m, matched.len() as u64);
        push_str(&mut m, " windows by ");
        push_str(&mut m, label);
        push_str(&mut m, " (titles: ");
        push_joined(&mut m, &titles, ", ");
        push_str(&mut m, ")");
        return Some(Err(Error::AmbiguousMatch(string_from_chars(&m))));
    }
    None
}

/// Matching priority:
///   1. Exact identifier match
///   2. Exact title match
///   3. Exact app_id match
///   4. Case-insensitive substring match on title
///   5. Case-insensitive substring match on app_id
fn resolve_toplevel(tls: &Vec<ToplevelInfo>, selector: &str) -> (r: Result<usize, Error>)
    ensures
        result_view(r) == spec_resolve_toplevel(tls@, selector@),
{
    let lower = lowercase_chars(selector);
    if let Some(r) = match_step(tls, selector, &lower, MatchField::Identifier, true, "identifier") {
        return r;
    }
    if let Some(r) = match_step(tls, selector, &lower, MatchField::Title, true, "title") {
        return r;
    }
    if let Some(r) = match_step(tls, selector, &lower, MatchField::AppId, true, "app_id") {
        return r;
    }
    if let Some(r) = match_step(tls, selector, &lower, MatchField::Title, false, "title substring") {
        return r;
    }
    if let Some(r) = match_step(tls, selector, &lower, MatchField::AppId, false, "app_id substring") {
        return r;
    }
    let mut m: Vec<char> = Vec::new();
    push_str(&mut m, "no window matching '");
    push_str(&mut m, selector);
    push_str(&mut m, "'");
    Err(Error::NotFound(string_from_chars(&m)))
}

/// Resolve a window selector; the result is the window's position in
/// `state.toplevel_info_state`.
pub fn resolve_toplevel_pub(state: &AppData, selector: &str) -> (r: Result<usize, Error>)
    ensures
        result_view(r) == spec_resolve_toplevel(state.toplevel_info_state@, selector@),
{
    resolve_toplevel(&state.toplevel_info_state, selector)
}

} // verus!

verus! {

// ── Window requests ─────────────────────────────────────────────────────────

/// What a window request asks the toplevel manager to do.
#[derive(Debug, Clone, Copy, PartialEq, Eq, Structural)]
pub enum WindowAction {
    /// Activate the window on the given seat.
    Activate { seat: u32 },
    Close,
    SetMaximized,
    UnsetMaximized,
    SetMinimized,
    UnsetMinimized,
    /// Fullscreen on no particular output.
    SetFullscreen,
    UnsetFullscreen,
    SetSticky,
    UnsetSticky,
    /// Move the window to the workspace, shown on the given output.
    MoveToWorkspace { workspace: u32, output: u32 },
}

/// A request to the toplevel manager for the window whose foreign
/// toplevel handle has the protocol id `window`; it is sent through that
/// window's COSMIC extension handle.
#[derive(Debug, Clone, Copy, PartialEq, Eq, Structural)]
pub struct WindowRequest {
    pub window: u32,
    pub action: WindowAction,
}

/// A window subcommand of the command line.
#[derive(Debug, Clone, PartialEq, Eq)]
#[allow(inconsistent_fields)]
pub enum WindowCommand {
    /// Activate (focus) a window.
    Activate { selector: String },
    /// Close a window.
    Close { selector: String },
    /// Maximize a window.
    Maximize { selector: String },
    /// Unmaximize a window.
    Unmaximize { selector: String },
    /// Minimize a window.
    Minimize { selector: String },
    /// Unminimize a window.
    Unminimize { selector: String },
    /// Fullscreen a window.
    Fullscreen { selector: String },
    /// Exit fullscreen on a window.
    Unfullscreen { selector: String },
    /// Make a window sticky (visible on all workspaces).
    SetSticky { selector: String },
    /// Remove sticky from a window.
    UnsetSticky { selector: String },
    /// Move a window to a workspace.
    MoveToWorkspace { selector: String, workspace: String },
}

/// The error when the toplevel management protocol is not bound.
pub open spec fn manager_missing() -> ErrorView {
    ErrorView::ProtocolNotAvailable("zcosmic-toplevel-management-v1 not available"@)
}

/// The error when a window lacks its COSMIC extension handle.
pub open spec fn toplevel_ext_missing() -> ErrorView {
    ErrorView::ProtocolNotAvailable("zcosmic-toplevel-info-v1 not available"@)
}

/// The first seat, or the error when there is none.
pub open spec fn spec_first_seat(st: AppData) -> Result<u32, ErrorView> {
    if st.seat_state@.len() > 0 {
        Ok(st.seat_state@[0])
    } else {
        Err(ErrorView::Other("no seat available"@))
    }
}

/// The output of the first group that holds workspace `h`: its first output.
pub open spec fn spec_target_output(st: AppData, h: u32) -> Result<u32, ErrorView> {
    match group_index(st.workspace_groups@, h) {
        Some(g) => if st.workspace_groups@[g].outputs@.len() > 0 {
            Ok(st.workspace_groups@[g].outputs@[0])
        } else {
            Err(ErrorView::Other("target workspace has no associated output"@))
        },
        None => Err(ErrorView::Other("target workspace has no associated output"@)),
    }
}

/// The window picked by `sel` with its extension handle: the resolution
/// error, the missing-extension error, or the window's position.
pub open spec fn spec_picked(tls: Seq<ToplevelInfo>, sel: Seq<char>) -> Result<usize, ErrorView> {
    match spec_resolve_toplevel(tls, sel) {
        Err(e) => Err(e),
        Ok(i) => if !tls[i as int].has_cosmic_handle {
            Err(toplevel_ext_missing())
        } else {
            Ok(i)
        },
    }
}

/// A simple window request: the manager is checked, then the window is
/// resolved, then its extension handle is checked.
pub open spec fn spec_window_simple(st: AppData, sel: Seq<char>, action: WindowAction) -> Result<
    WindowRequest,
    ErrorView,
> {
    if !st.toplevel_manager_state {
        Err(manager_missing())
    } else {
        match spec_picked(st.toplevel_info_state@, sel) {
            Err(e) => Err(e),
            Ok(i) => Ok(WindowRequest { window: st.toplevel_info_state@[i as int].handle, action }),
        }
    }
}

/// Activation: manager, window, extension handle, then the first seat.
pub open spec fn spec_window_activate(st: AppData, sel: Seq<char>) -> Result<WindowRequest, ErrorView> {
    if !st.toplevel_manager_state {
        Err(manager_missing())
    } else {
        match spec_picked(st.toplevel_info_state@, sel) {
            Err(e) => Err(e),
            Ok(i) => match spec_first_seat(st) {
                Err(e) => Err(e),
                Ok(seat) => Ok(
                    WindowRequest {
                        window: st.toplevel_info_state@[i as int].handle,
                        action: WindowAction::Activate { seat },
                    },
                ),
            },
        }
    }
}

/// Activation as the command line orders it: manager, window, the first
/// seat, then the extension handle.
pub open spec fn spec_cli_activate(st: AppData, sel: Seq<char>) -> Result<WindowRequest, ErrorView> {
    if !st.toplevel_manager_state {
        Err(manager_missing())
    } else {
        match spec_resolve_toplevel(st.toplevel_info_state@, sel) {
            Err(e) => Err(e),
            Ok(i) => match spec_first_seat(st) {
                Err(e) => Err(e),
                Ok(seat) => if !st.toplevel_info_state@[i as int].has_cosmic_handle {
                    Err(toplevel_ext_missing())
                } else {
                    Ok(
                        WindowRequest {
                            window: st.toplevel_info_state@[i as int].handle,
                            action: WindowAction::Activate { seat },
                        },
                    )
                },
            },
        }
    }
}

/// Moving a window: manager, window, its extension handle, the target
/// workspace, then the target's output.
pub open spec fn spec_window_move(st: AppData, sel: Seq<char>, ws_sel: Seq<char>) -> Result<
    WindowRequest,
    ErrorView,
> {
    if !st.toplevel_manager_state {
        Err(manager_missing())
    } else {
        match spec_picked(st.toplevel_info_state@, sel) {
            Err(e) => Err(e),
            Ok(i) => match spec_resolve_workspace(st.workspace_state@, ws_sel) {
                Err(e) => Err(e),
                Ok(w) => {
                    let h = st.workspace_state@[w as int].handle;
                    match spec_target_output(st, h) {
                        Err(e) => Err(e),
                        Ok(o) => Ok(
                            WindowRequest {
                                window: st.toplevel_info_state@[i as int].handle,
                                action: WindowAction::MoveToWorkspace { workspace: h, output: o },
                            },
                        ),
                    }
                },
            },
        }
    }
}

/// A resolved position is a position of the list.
pub proof fn lemma_resolve_toplevel_bounds(tls: Seq<ToplevelInfo>, sel: Seq<char>)
    requires
        tls.len() <= usize::MAX,
    ensures
        spec_resolve_toplevel(tls, sel) matches Ok(i) ==> i < tls.len(),
{
    lemma_select_indices_bounded(tls.len() as int);
}

fn toplevel_manager(state: &AppData) -> (r: Result<(), Error>)
    ensures
        r is Ok <==> state.toplevel_manager_state,
        r matches Err(e) ==> e@ == manager_missing(),
{
    if state.toplevel_manager_state {
        Ok(())
    } else {
        Err(protocol_error("zcosmic-toplevel-management-v1 not available"))
    }
}

fn cosmic_handle(t: &ToplevelInfo) -> (r: Result<u32, Error>)
    ensures
        t.has_cosmic_handle ==> r == Ok::<u32, Error>(t.handle),
        !t.has_cosmic_handle ==> (r matches Err(e) && e@ == toplevel_ext_missing()),
{
    if t.has_cosmic_handle {
        Ok(t.handle)
    } else {
        Err(protocol_error("zcosmic-toplevel-info-v1 not available"))
    }
}

fn first_seat(state: &AppData) -> (r: Result<u32, Error>)
    ensures
        result_view(r) == spec_first_seat(*state),
{
    if state.seat_state.len() > 0 {
        Ok(state.seat_state[0])
    } else {
        Err(other_error("no seat available"))
    }
}

fn target_output(state: &AppData, h: u32) -> (r: Result<u32, Error>)
    ensures
        result_view(r) == spec_target_output(*state, h),
{
    match find_group_of(&state.workspace_groups, h) {
        Some(g) => {
            if state.workspace_groups[g].outputs.len() > 0 {
                Ok(state.workspace_groups[g].outputs[0])
            } else {
                Err(other_error("target workspace has no associated output"))
            }
        },
        None => Err(other_error("target workspace has no associated output")),
    }
}

fn picked(state: &AppData, selector: &str) -> (r: Result<usize, Error>)
    ensures
        result_view(r) == spec_picked(state.toplevel_info_state@, selector@),
        r matches Ok(i) ==> i < state.toplevel_info_state.len(),
{
    let n: usize = state.toplevel_info_state.len();
    proof {
        lemma_resolve_toplevel_bounds(state.toplevel_info_state@, selector@);
    }
    let i = match resolve_toplevel_pub(state, selector) {
        Err(e) => return Err(e),
        Ok(i) => i,
    };
    match cosmic_handle(&state.toplevel_info_state[i]) {
        Err(e) => Err(e),
        Ok(_) => Ok(i),
    }
}

fn window_simple(state: &AppData, selector: &str, action: WindowAction) -> (r: Result<
    WindowRequest,
    Error,
>)
    ensures
        result_view(r) == spec_window_simple(*state, selector@, action),
{
    if let Err(e) = toplevel_manager(state) {
        return Err(e);
    }
    let i = match picked(state, selector) {
        Err(e) => return Err(e),
        Ok(i) => i,
    };
    Ok(WindowRequest { window: state.toplevel_info_state[i].handle, action })
}

/// Activate (focus) the window picked by `selector` on the first seat.
pub fn window_activate(state: &AppData, selector: &str) -> (r: Result<WindowRequest, Error>)
    ensures
        result_view(r) == spec_window_activate(*state, selector@),
{
    if let Err(e) = toplevel_manager(state) {
        return Err(e);
    }
    let i = match picked(state, selector) {
        Err(e) => return Err(e),
        Ok(i) => i,
    };
    let seat = match first_seat(state) {
        Err(e) => return Err(e),
        Ok(s) => s,
    };
    Ok(
        WindowRequest {
            window: state.toplevel_info_state[i].handle,
            action: WindowAction::Activate { seat },
        },
    )
}

/// Close the window picked by `selector`.
pub fn window_close(state: &AppData, selector: &str) -> (r: Result<WindowRequest, Error>)
    ensures
        result_view(r) == spec_window_simple(*state, selector@, WindowAction::Close),
{
    window_simple(state, selector, WindowAction::Close)
}

/// Maximize the window picked by `selector`.
pub fn window_maximize(state: &AppData, selector: &str) -> (r: Result<WindowRequest, Error>)
    ensures
        result_view(r) == spec_window_simple(*state, selector@, WindowAction::SetMaximized),
{
    window_simple(state, selector, WindowAction::SetMaximized)
}

/// Unmaximize the window picked by `selector`.
pub fn window_unmaximize(state: &AppData, selector: &str) -> (r: Result<WindowRequest, Error>)
    ensures
        result_view(r) == spec_window_simple(*state, selector@, WindowAction::UnsetMaximized),
{
    window_simple(state, selector, WindowAction::UnsetMaximized)
}

/// Minimize the window picked by `selector`.
pub fn window_minimize(state: &AppData, selector: &str) -> (r: Result<WindowRequest, Error>)
    ensures
        result_view(r) == spec_window_simple(*state, selector@, WindowAction::SetMinimized),
{
    window_simple(state, selector, WindowAction::SetMinimized)
}

/// Unminimize the window picked by `selector`.
pub fn window_unminimize(state: &AppData, selector: &str) -> (r: Result<WindowRequest, Error>)
    ensures
        result_view(r) == spec_window_simple(*state, selector@, WindowAction::UnsetMinimized),
{
    window_simple(state, selector, WindowAction::UnsetMinimized)
}

/// Fullscreen the window picked by `selector`.
pub fn window_fullscreen(state: &AppData, selector: &str) -> (r: Result<WindowRequest, Error>)
    ensures
        result_view(r) == spec_window_simple(*state, selector@, WindowAction::SetFullscreen),
{
    window_simple(state, selector, WindowAction::SetFullscreen)
}

/// Exit fullscreen on the window picked by `selector`.
pub fn window_unfullscreen(state: &AppData, selector: &str) -> (r: Result<WindowRequest, Error>)
    ensures
        result_view(r) == spec_window_simple(*state, selector@, WindowAction::UnsetFullscreen),
{
    window_simple(state, selector, WindowAction::UnsetFullscreen)
}

/// Make the window picked by `selector` sticky.
pub fn window_set_sticky(state: &AppData, selector: &str) -> (r: Result<WindowRequest, Error>)
    ensures
        result_view(r) == spec_window_simple(*state, selector@, WindowAction::SetSticky),
{
    window_simple(state, selector, WindowAction::SetSticky)
}

/// Remove sticky from the window picked by `selector`.
pub fn window_unset_sticky(state: &AppData, selector: &str) -> (r: Result<WindowRequest, Error>)
    ensures
        result_view(r) == spec_window_simple(*state, selector@, WindowAction::UnsetSticky),
{
    window_simple(state, selector, WindowAction::UnsetSticky)
}

/// Move the window picked by `window_selector` to the workspace picked by
/// `workspace_selector`, on the output of that workspace's group.
pub fn window_move_to_workspace(
    state: &AppData,
    window_selector: &str,
    workspace_selector: &str,
) -> (r: Result<WindowRequest, Error>)
    ensures
        result_view(r) == spec_window_move(*state, window_selector@, workspace_selector@),
{
    if let Err(e) = toplevel_manager(state) {
        return Err(e);
    }
    let i = match picked(state, window_selector) {
        Err(e) => return Err(e),
        Ok(i) => i,
    };
    let n: usize = state.workspace_state.len();
    proof {
        crate::workspaces::lemma_resolve_workspace_bounds(state.workspace_state@, workspace_selector@);
    }
    let w = match resolve_workspace_pub(state, workspace_selector) {
        Err(e) => return Err(e),
        Ok(w) => w,
    };
    let h: u32 = state.workspace_state[w].handle;
    let o = match target_output(state, h) {
        Err(e) => return Err(e),
        Ok(o) => o,
    };
    Ok(
        WindowRequest {
            window: state.toplevel_info_state[i].handle,
            action: WindowAction::MoveToWorkspace { workspace: h, output: o },
        },
    )
}

/// What a window subcommand asks for on the given state.
pub open spec fn spec_cmd_window(st: AppData, cmd: WindowCommand) -> Result<WindowRequest, ErrorView> {
    match cmd {
        WindowCommand::Activate { selector } => spec_cli_activate(st, selector@),
        WindowCommand::Close { selector } => spec_window_simple(st, selector@, WindowAction::Close),
        WindowCommand::Maximize { selector } => spec_window_simple(
            st,
            selector@,
            WindowAction::SetMaximized,
        ),
        WindowCommand::Unmaximize { selector } => spec_window_simple(
            st,
            selector@,
            WindowAction::UnsetMaximized,
        ),
        WindowCommand::Minimize { selector } => spec_window_simple(
            st,
            selector@,
            WindowAction::SetMinimized,
        ),
        WindowCommand::Unminimize { selector } => spec_window_simple(
            st,
            selector@,
            WindowAction::UnsetMinimized,
        ),
        WindowCommand::Fullscreen { selector } => spec_window_simple(
            st,
            selector@,
            WindowAction::SetFullscreen,
        ),
        WindowCommand::Unfullscreen { selector } => spec_window_simple(
            st,
            selector@,
            WindowAction::UnsetFullscreen,
        ),
        WindowCommand::SetSticky { selector } => spec_window_simple(
            st,
            selector@,
            WindowAction::SetSticky,
        ),
        WindowCommand::UnsetSticky { selector } => spec_window_simple(
            st,
            selector@,
            WindowAction::UnsetSticky,
        ),
        WindowCommand::MoveToWorkspace { selector, workspace } => spec_window_move(
            st,
            selector@,
            workspace@,
        ),
    }
}

/// Run a window subcommand against the collected state: check the toplevel
/// manager, resolve the window (and for a move, the workspace), and decide
/// the one request to send.
pub fn cmd_window(state: &AppData, cmd: WindowCommand) -> (r: Result<WindowRequest, Error>)
    ensures
        result_view(r) == spec_cmd_window(*state, cmd),
{
    match cmd {
        WindowCommand::Activate { selector } => {
            if let Err(e) = toplevel_manager(state) {
                return Err(e);
            }
            let n: usize = state.toplevel_info_state.len();
            proof {
                lemma_resolve_toplevel_bounds(state.toplevel_info_state@, selector@);
            }
            let i = match resolve_toplevel_pub(state, selector.as_str()) {
                Err(e) => return Err(e),
                Ok(i) => i,
            };
            let seat = match first_seat(state) {
                Err(e) => return Err(e),
                Ok(s) => s,
            };
            match cosmic_handle(&state.toplevel_info_state[i]) {
                Err(e) => Err(e),
                Ok(_) => Ok(
                    WindowRequest {
                        window: state.toplevel_info_state[i].handle,
                        action: WindowAction::Activate { seat },
                    },
                ),
            }
        },
        WindowCommand::Close { selector } => window_close(state, selector.as_str()),
        WindowCommand::Maximize { selector } => window_maximize(state, selector.as_str()),
        WindowCommand::Unmaximize { selector } => window_unmaximize(state, selector.as_str()),
        WindowCommand::Minimize { selector } => window_minimize(state, selector.as_str()),
        WindowCommand::Unminimize { selector } => window_unminimize(state, selector.as_str()),
        WindowCommand::Fullscreen { selector } => window_fullscreen(state, selector.as_str()),
        WindowCommand::Unfullscreen { selector } => window_unfullscreen(state, selector.as_str()),
        WindowCommand::SetSticky { selector } => window_set_sticky(state, selector.as_str()),
        WindowCommand::UnsetSticky { selector } => window_unset_sticky(state, selector.as_str()),
        WindowCommand::MoveToWorkspace { selector, workspace } => window_move_to_workspace(
            state,
            selector.as_str(),
            workspace.as_str(),
        ),
    }
}

} // verus!

verus! {

/// A selector resolves to a window that it names exactly (identifier,
/// title or app id) or whose lowercase title or app id contains its
/// lowercase form. A window whose identifier alone equals the selector is
/// picked. The answer is `NotFound` exactly when no identifier equals the
/// selector and no title or app id contains it, case-insensitively.
pub proof fn law_resolve_toplevel(tls: Seq<ToplevelInfo>, sel: Seq<char>)
    requires
        tls.len() <= usize::MAX,
    ensures
        spec_resolve_toplevel(tls, sel) matches Ok(i) ==> i < tls.len() && (field_matches(
            tls[i as int],
            sel,
            MatchField::Identifier,
            true,
        ) || field_matches(tls[i as int], sel, MatchField::Title, true) || field_matches(
            tls[i as int],
            sel,
            MatchField::AppId,
            true,
        ) || field_matches(tls[i as int], sel, MatchField::Title, false) || field_matches(
            tls[i as int],
            sel,
            MatchField::AppId,
            false,
        )),
        forall|i: int|
            0 <= i < tls.len() && #[trigger] tls[i].identifier@ == sel && (forall|j: int|
                0 <= j < tls.len() && j != i ==> tls[j].identifier@ != sel) ==> spec_resolve_toplevel(
                tls,
                sel,
            ) == Ok::<usize, ErrorView>(i as usize),
        (spec_resolve_toplevel(tls, sel) matches Err(ErrorView::NotFound(_))) <==> (window_matches(
            tls,
            sel,
            MatchField::Identifier,
            true,
        ).len() == 0 && window_matches(tls, sel, MatchField::Title, false).len() == 0
            && window_matches(tls, sel, MatchField::AppId, false).len() == 0),
{
    lemma_window_matches(tls, sel, MatchField::Identifier, true);
    lemma_window_matches(tls, sel, MatchField::Title, true);
    lemma_window_matches(tls, sel, MatchField::AppId, true);
    lemma_window_matches(tls, sel, MatchField::Title, false);
    lemma_window_matches(tls, sel, MatchField::AppId, false);
    let m1 = window_matches(tls, sel, MatchField::Identifier, true);
    let m2 = window_matches(tls, sel, MatchField::Title, true);
    let m3 = window_matches(tls, sel, MatchField::AppId, true);
    let m4 = window_matches(tls, sel, MatchField::Title, false);
    let m5 = window_matches(tls, sel, MatchField::AppId, false);
    // An exact title or app id is also a case-insensitive substring.
    if m2.len() > 0 {
        lemma_exact_is_substring(tls[m2[0] as int], sel, MatchField::Title);
        assert(m4.contains(m2[0]));
    }
    if m3.len() > 0 {
        lemma_exact_is_substring(tls[m3[0] as int], sel, MatchField::AppId);
        assert(m5.contains(m3[0]));
    }
    assert forall|i: int|
        0 <= i < tls.len() && #[trigger] tls[i].identifier@ == sel && (forall|j: int|
            0 <= j < tls.len() && j != i ==> tls[j].identifier@ != sel) implies spec_resolve_toplevel(
        tls,
        sel,
    ) == Ok::<usize, ErrorView>(i as usize) by {
        assert(field_matches(tls[i], sel, MatchField::Identifier, true));
        assert(m1.contains(i as usize));
        let k = choose|k: int| 0 <= k < m1.len() && m1[k] == i as usize;
        if m1.len() > 1 {
            let other = if k == 0 { 1int } else { 0int };
            assert(field_matches(tls[m1[other] as int], sel, MatchField::Identifier, true));
        }
        assert(m1.len() == 1);
    }
}

proof fn lemma_exact_is_substring(t: ToplevelInfo, sel: Seq<char>, f: MatchField)
    requires
        field_matches(t, sel, f, true),
    ensures
        field_matches(t, sel, f, false),
{
    let l = spec_to_lowercase(field_of(t, f));
    assert(l.subrange(0, 0 + spec_to_lowercase(sel).len() as int) =~= l);
}

/// The matches on one field are exactly the positions that match, in order.
proof fn lemma_window_matches(tls: Seq<ToplevelInfo>, sel: Seq<char>, f: MatchField, exact: bool)
    requires
        tls.len() <= usize::MAX,
    ensures
        forall|k: int|
            0 <= k < window_matches(tls, sel, f, exact).len() ==> #[trigger] window_matches(
                tls,
                sel,
                f,
                exact,
            )[k] < tls.len() && field_matches(
                tls[window_matches(tls, sel, f, exact)[k] as int],
                sel,
                f,
                exact,
            ),
        forall|i: int|
            0 <= i < tls.len() && #[trigger] field_matches(tls[i], sel, f, exact)
                ==> window_matches(tls, sel, f, exact).contains(i as usize),
        forall|k: int, l: int|
            0 <= k < l < window_matches(tls, sel, f, exact).len() ==> window_matches(
                tls,
                sel,
                f,
                exact,
            )[k] < window_matches(tls, sel, f, exact)[l],
{
    let p = |i: int| field_matches(tls[i], sel, f, exact);
    lemma_select_indices(tls.len() as int, p);
    assert(window_matches(tls, sel, f, exact) == select_indices(tls.len() as int, p));
    assert forall|i: int| 0 <= i < tls.len() && #[trigger] field_matches(tls[i], sel, f, exact)
        implies window_matches(tls, sel, f, exact).contains(i as usize) by {
        assert(p(i));
    }
}

} // verus!

verus! {

/// Each window state flag is reported under its protocol name.
pub proof fn law_state_labels()
    ensures
        state_label(ToplevelState::Maximized) == "maximized"@,
        state_label(ToplevelState::Minimized) == "minimized"@,
        state_label(ToplevelState::Activated) == "activated"@,
        state_label(ToplevelState::Fullscreen) == "fullscreen"@,
        state_label(ToplevelState::Sticky) == "sticky"@,
        forall|v: u32| state_label(ToplevelState::Unknown(v)) == "unknown"@,
{
}

/// A window report carries the window's own title, app id and identifier,
/// and one label per state flag, in the window's order, each the name of
/// that flag.
pub proof fn law_window_report(t: ToplevelInfo, st: AppData)
    ensures
        spec_toplevel_json(t, st).title == t.title@,
        spec_toplevel_json(t, st).app_id == t.app_id@,
        spec_toplevel_json(t, st).identifier == t.identifier@,
        spec_toplevel_json(t, st).state.len() == t.state@.len(),
        forall|k: int|
            0 <= k < t.state@.len() ==> #[trigger] spec_toplevel_json(t, st).state[k] == match t.state@[k] {
                ToplevelState::Maximized => "maximized"@,
                ToplevelState::Minimized => "minimized"@,
                ToplevelState::Activated => "activated"@,
                ToplevelState::Fullscreen => "fullscreen"@,
                ToplevelState::Sticky => "sticky"@,
                ToplevelState::Unknown(_) => "unknown"@,
            },
{
}

} // verus!
