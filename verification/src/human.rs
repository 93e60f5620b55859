//! The human-readable renderings of the query commands and of subscribe
//! mode: one line per workspace, window or output, the indented tree, and
//! one line per monitor event.

use vstd::prelude::*;
use crate::monitor::{MonitorEvent, MonitorEventView};
use crate::output::{OutputJson, OutputJsonView, TreeOutput, TreeOutputView, TreeWorkspace, TreeWorkspaceView};
use crate::text::{
    decimal, digit, push_decimal, push_joined, push_signed_decimal, push_str, seq_join,
    signed_decimal, string_from_chars,
};
use crate::toplevels::{ToplevelJson, ToplevelJsonView};
use crate::workspaces::{WorkspaceJson, WorkspaceJsonView, spec_workspace_listing};
use crate::output::spec_tree;
use crate::state::{AppData, spec_output_listing, spec_toplevel_listing};
use crate::types::{OutputFormat, Report};

verus! {

// ── Pieces of a line ────────────────────────────────────────────────────────

/// `s` when the flag is set, else nothing.
pub open spec fn flag(b: bool, s: Seq<char>) -> Seq<char> {
    if b {
        s
    } else {
        Seq::empty()
    }
}

/// ` [tiling: t]` for a known tiling state, else nothing.
pub open spec fn tiling_suffix(t: Option<Seq<char>>) -> Seq<char> {
    match t {
        Some(t) => " [tiling: "@ + t + "]"@,
        None => Seq::empty(),
    }
}

/// ` on o` for a known output, else nothing.
pub open spec fn on_suffix(o: Option<Seq<char>>) -> Seq<char> {
    match o {
        Some(o) => " on "@ + o,
        None => Seq::empty(),
    }
}

/// ` [a, b]` for a non-empty list of state flags, else nothing.
pub open spec fn state_suffix(s: Seq<Seq<char>>) -> Seq<char> {
    if s.len() == 0 {
        Seq::empty()
    } else {
        " ["@ + seq_join(s, ", "@) + "]"@
    }
}

/// A window as `"title" (app_id)`.
pub open spec fn window_label(title: Seq<char>, app_id: Seq<char>) -> Seq<char> {
    "\""@ + title + "\" ("@ + app_id + ")"@
}

/// The value of an option, or the default.
pub open spec fn or_default(o: Option<Seq<char>>, d: Seq<char>) -> Seq<char> {
    match o {
        Some(s) => s,
        None => d,
    }
}

/// Three decimal digits of `n < 1000`, with leading zeros.
pub open spec fn three_digits(n: nat) -> Seq<char> {
    seq![digit(n / 100), digit((n / 10) % 10), digit(n % 10)]
}

/// A refresh rate in mHz as Hz with three decimals.
pub open spec fn refresh_text(mhz: int) -> Seq<char> {
    let a = if mhz < 0 {
        -mhz
    } else {
        mhz
    };
    flag(mhz < 0, "-"@) + decimal((a / 1000) as nat) + "."@ + three_digits((a % 1000) as nat)
}

fn push_flag(v: &mut Vec<char>, b: bool, s: &str)
    ensures
        final(v)@ == old(v)@ + flag(b, s@),
{
    if b {
        push_str(v, s);
    } else {
        assert(old(v)@ + flag(b, s@) =~= old(v)@);
    }
}

fn push_tiling(v: &mut Vec<char>, t: &Option<String>)
    ensures
        final(v)@ == old(v)@ + tiling_suffix(t.deep_view()),
{
    match t {
        Some(t) => {
            let ghost start = v@;
            push_str(v, " [tiling: ");
            push_str(v, t.as_str());
            push_str(v, "]");
            assert(v@ =~= start + tiling_suffix(Some(t@)));
        },
        None => {
            assert(v@ + tiling_suffix(None) =~= v@);
        },
    }
}

fn push_on(v: &mut Vec<char>, o: &Option<String>)
    ensures
        final(v)@ == old(v)@ + on_suffix(o.deep_view()),
{
    match o {
        Some(o) => {
            let ghost start = v@;
            push_str(v, " on ");
            push_str(v, o.as_str());
            assert(v@ =~= start + on_suffix(Some(o@)));
        },
        None => {
            assert(v@ + on_suffix(None) =~= v@);
        },
    }
}

fn push_states(v: &mut Vec<char>, s: &Vec<String>)
    ensures
        final(v)@ == old(v)@ + state_suffix(s.deep_view()),
{
    if s.len() == 0 {
        assert(v@ + state_suffix(s.deep_view()) =~= v@);
    } else {
        let ghost start = v@;
        push_str(v, " [");
        push_joined(v, s, ", ");
        push_str(v, "]");
        assert(v@ =~= start + state_suffix(s.deep_view()));
    }
}

fn push_window_label(v: &mut Vec<char>, title: &String, app_id: &String)
    ensures
        final(v)@ == old(v)@ + window_label(title@, app_id@),
{
    let ghost start = v@;
    push_str(v, "\"");
    push_str(v, title.as_str());
    push_str(v, "\" (");
    push_str(v, app_id.as_str());
    push_str(v, ")");
    assert(v@ =~= start + window_label(title@, app_id@));
}

fn push_or_default(v: &mut Vec<char>, o: &Option<String>, d: &str)
    ensures
        final(v)@ == old(v)@ + or_default(o.deep_view(), d@),
{
    match o {
        Some(s) => push_str(v, s.as_str()),
        None => push_str(v, d),
    }
}

fn push_int(v: &mut Vec<char>, n: i32)
    ensures
        final(v)@ == old(v)@ + signed_decimal(n as int),
{
    push_signed_decimal(v, n as i64);
}

fn digit_of(d: u32) -> (c: char)
    requires
        d < 10,
    ensures
        c == digit(d as nat),
{
    let mut v: Vec<char> = Vec::new();
    push_decimal(&mut v, d as u64);
    assert(decimal(d as nat) == seq![digit(d as nat)]);
    v[0]
}

fn push_refresh(v: &mut Vec<char>, mhz: i32)
    ensures
        final(v)@ == old(v)@ + refresh_text(mhz as int),
{
    let ghost start = v@;
    let a: u32 = if mhz < 0 {
        if mhz == i32::MIN {
            2147483648u32
        } else {
            (-mhz) as u32
        }
    } else {
        mhz as u32
    };
    assert(a == (if mhz < 0 { -(mhz as int) } else { mhz as int }));
    push_flag(v, mhz < 0, "-");
    push_decimal(v, (a / 1000) as u64);
    push_str(v, ".");
    let f: u32 = a % 1000;
    v.push(digit_of(f / 100));
    v.push(digit_of((f / 10) % 10));
    v.push(digit_of(f % 10));
    proof {
        reveal_strlit("-");
        reveal_strlit(".");
    }
    assert(v@ =~= start + refresh_text(mhz as int));
}

// ── One line per item ───────────────────────────────────────────────────────

/// A workspace line: name, ` *` when active, ` [pinned]` when pinned, its
/// tiling state and its output.
pub open spec fn spec_workspace_line(j: WorkspaceJsonView) -> Seq<char> {
    j.name + flag(j.active, " *"@) + flag(j.pinned, " [pinned]"@) + tiling_suffix(j.tiling)
        + on_suffix(j.output)
}

/// The human line of a workspace.
pub fn workspace_line(j: &WorkspaceJson) -> (r: String)
    ensures
        r@ == spec_workspace_line(j@),
{
    let mut v: Vec<char> = Vec::new();
    push_str(&mut v, j.name.as_str());
    push_flag(&mut v, j.active, " *");
    push_flag(&mut v, j.pinned, " [pinned]");
    push_tiling(&mut v, &j.tiling);
    push_on(&mut v, &j.output);
    assert(v@ =~= spec_workspace_line(j@));
    string_from_chars(&v)
}

/// A window line: `"title" (app_id)`, its state flags and its workspaces.
pub open spec fn spec_toplevel_line(t: ToplevelJsonView) -> Seq<char> {
    window_label(t.title, t.app_id) + state_suffix(t.state) + if t.workspaces.len() == 0 {
        Seq::empty()
    } else {
        " on "@ + seq_join(t.workspaces, ", "@)
    }
}

/// The human line of a window.
pub fn toplevel_line(t: &ToplevelJson) -> (r: String)
    ensures
        r@ == spec_toplevel_line(t@),
{
    let mut v: Vec<char> = Vec::new();
    push_window_label(&mut v, &t.title, &t.app_id);
    push_states(&mut v, &t.state);
    if t.workspaces.len() > 0 {
        push_str(&mut v, " on ");
        push_joined(&mut v, &t.workspaces, ", ");
    }
    assert(v@ =~= spec_toplevel_line(t@));
    string_from_chars(&v)
}

/// An output line: name (or `unknown`), quoted description, size, refresh
/// rate in Hz with three decimals, and position.
pub open spec fn spec_output_line(o: OutputJsonView) -> Seq<char> {
    or_default(o.name, "unknown"@) + " \""@ + or_default(o.description, ""@) + "\" "@
        + signed_decimal(o.width as int) + "x"@ + signed_decimal(o.height as int) + "@"@
        + refresh_text(o.refresh as int) + "Hz at ("@ + signed_decimal(o.x as int) + ", "@
        + signed_decimal(o.y as int) + ")"@
}

/// The human line of an output.
pub fn output_line(o: &OutputJson) -> (r: String)
    ensures
        r@ == spec_output_line(o@),
{
    let mut v: Vec<char> = Vec::new();
    push_or_default(&mut v, &o.name, "unknown");
    push_str(&mut v, " \"");
    push_or_default(&mut v, &o.description, "");
    push_str(&mut v, "\" ");
    push_int(&mut v, o.width);
    push_str(&mut v, "x");
    push_int(&mut v, o.height);
    push_str(&mut v, "@");
    push_refresh(&mut v, o.refresh);
    push_str(&mut v, "Hz at (");
    push_int(&mut v, o.x);
    push_str(&mut v, ", ");
    push_int(&mut v, o.y);
    push_str(&mut v, ")");
    assert(v@ =~= spec_output_line(o@));
    string_from_chars(&v)
}

} // verus!

verus! {

// ── The tree ────────────────────────────────────────────────────────────────

/// The concatenation of groups of lines, in order.
pub open spec fn concat_lines(groups: Seq<Seq<Seq<char>>>) -> Seq<Seq<char>>
    decreases groups.len(),
{
    if groups.len() == 0 {
        Seq::empty()
    } else {
        concat_lines(groups.drop_last()) + groups.last()
    }
}

/// A window under a workspace or under `Floating/sticky:`.
pub open spec fn tree_window_line(w: ToplevelJsonView) -> Seq<char> {
    "    - "@ + window_label(w.title, w.app_id)
}

/// A workspace and its windows: ` *` marks the active workspace and
/// ` [pinned]` a pinned one, then its tiling state.
pub open spec fn tree_workspace_lines(ws: TreeWorkspaceView) -> Seq<Seq<char>> {
    seq![
        "  Workspace: "@ + ws.name + flag(ws.active, " *"@) + flag(ws.pinned, " [pinned]"@)
            + tiling_suffix(ws.tiling),
    ]
        + ws.windows.map_values(|w: ToplevelJsonView| tree_window_line(w))
}

/// The heading line of an output.
pub open spec fn tree_output_heading(o: TreeOutputView) -> Seq<char> {
    "Output: "@ + or_default(o.name, "unknown"@) + " \""@ + or_default(o.description, ""@) + "\" "@
        + signed_decimal(o.width as int) + "x"@ + signed_decimal(o.height as int) + " at ("@
        + signed_decimal(o.x as int) + ", "@ + signed_decimal(o.y as int) + ")"@
}

/// An output, its workspaces with their windows, then its floating windows
/// under a `Floating/sticky:` heading when it has any.
pub open spec fn tree_output_lines(o: TreeOutputView) -> Seq<Seq<char>> {
    seq![tree_output_heading(o)] + concat_lines(
        o.workspaces.map_values(|ws: TreeWorkspaceView| tree_workspace_lines(ws)),
    ) + if o.floating.len() == 0 {
        Seq::empty()
    } else {
        seq!["  Floating/sticky:"@] + o.floating.map_values(|w: ToplevelJsonView| tree_window_line(w))
    }
}

/// The lines of the whole tree.
pub open spec fn spec_tree_lines(tree: Seq<TreeOutputView>) -> Seq<Seq<char>> {
    concat_lines(tree.map_values(|o: TreeOutputView| tree_output_lines(o)))
}

proof fn lemma_concat_lines_push(groups: Seq<Seq<Seq<char>>>, g: Seq<Seq<char>>)
    ensures
        concat_lines(groups.push(g)) == concat_lines(groups) + g,
{
    assert(groups.push(g).drop_last() =~= groups);
}

fn tree_window(w: &ToplevelJson) -> (r: String)
    ensures
        r@ == tree_window_line(w@),
{
    let mut v: Vec<char> = Vec::new();
    push_str(&mut v, "    - ");
    push_window_label(&mut v, &w.title, &w.app_id);
    assert(v@ =~= tree_window_line(w@));
    string_from_chars(&v)
}

fn push_window_lines(lines: &mut Vec<String>, ws: &Vec<ToplevelJson>)
    ensures
        final(lines).deep_view() == old(lines).deep_view() + ws.deep_view().map_values(
            |w: ToplevelJsonView| tree_window_line(w),
        ),
{
    let ghost start = lines.deep_view();
    let ghost f = |w: ToplevelJsonView| tree_window_line(w);
    let mut i: usize = 0;
    while i < ws.len()
        invariant
            i <= ws.len(),
            f == (|w: ToplevelJsonView| tree_window_line(w)),
            lines.deep_view() =~= start + ws.deep_view().take(i as int).map_values(f),
        decreases ws.len() - i,
    {
        let ghost before = lines.deep_view();
        let l = tree_window(&ws[i]);
        let ghost lv = l@;
        lines.push(l);
        assert(lines.deep_view() =~= before.push(lv));
        assert(ws.deep_view().take(i + 1) =~= ws.deep_view().take(i as int).push(ws@[i as int]@));
        i = i + 1;
    }
    assert(ws.deep_view().take(ws.len() as int) =~= ws.deep_view());
}

fn push_workspace_lines(lines: &mut Vec<String>, ws: &TreeWorkspace)
    ensures
        final(lines).deep_view() == old(lines).deep_view() + tree_workspace_lines(ws@),
{
    let ghost start = lines.deep_view();
    let mut v: Vec<char> = Vec::new();
    push_str(&mut v, "  Workspace: ");
    push_str(&mut v, ws.name.as_str());
    push_flag(&mut v, ws.active, " *");
    push_flag(&mut v, ws.pinned, " [pinned]");
    push_tiling(&mut v, &ws.tiling);
    let head = string_from_chars(&v);
    let ghost hv = head@;
    lines.push(head);
    assert(lines.deep_view() =~= start.push(hv));
    push_window_lines(lines, &ws.windows);
    assert(lines.deep_view() =~= start + tree_workspace_lines(ws@));
}

fn push_output_lines(lines: &mut Vec<String>, o: &TreeOutput)
    ensures
        final(lines).deep_view() == old(lines).deep_view() + tree_output_lines(o@),
{
    let ghost start = lines.deep_view();
    let mut v: Vec<char> = Vec::new();
    push_str(&mut v, "Output: ");
    push_or_default(&mut v, &o.name, "unknown");
    push_str(&mut v, " \"");
    push_or_default(&mut v, &o.description, "");
    push_str(&mut v, "\" ");
    push_int(&mut v, o.width);
    push_str(&mut v, "x");
    push_int(&mut v, o.height);
    push_str(&mut v, " at (");
    push_int(&mut v, o.x);
    push_str(&mut v, ", ");
    push_int(&mut v, o.y);
    push_str(&mut v, ")");
    assert(v@ =~= tree_output_heading(o@));
    let head = string_from_chars(&v);
    let ghost hv = head@;
    lines.push(head);
    assert(lines.deep_view() =~= start.push(hv));
    let ghost groups = o.workspaces.deep_view().map_values(
        |ws: TreeWorkspaceView| tree_workspace_lines(ws),
    );
    let mut i: usize = 0;
    while i < o.workspaces.len()
        invariant
            i <= o.workspaces.len(),
            groups == o.workspaces.deep_view().map_values(
                |ws: TreeWorkspaceView| tree_workspace_lines(ws),
            ),
            lines.deep_view() =~= start.push(hv) + concat_lines(groups.take(i as int)),
        decreases o.workspaces.len() - i,
    {
        push_workspace_lines(lines, &o.workspaces[i]);
        proof {
            assert(groups.take(i + 1) =~= groups.take(i as int).push(groups[i as int]));
            lemma_concat_lines_push(groups.take(i as int), groups[i as int]);
        }
        i = i + 1;
    }
    assert(groups.take(o.workspaces.len() as int) =~= groups);
    if o.floating.len() > 0 {
        let ghost mid = lines.deep_view();
        lines.push(crate::text::to_owned_string("  Floating/sticky:"));
        push_window_lines(lines, &o.floating);
        assert(lines.deep_view() =~= mid + (seq!["  Floating/sticky:"@] + o.floating.deep_view().map_values(
            |w: ToplevelJsonView| tree_window_line(w),
        )));
    }
    assert(lines.deep_view() =~= start + tree_output_lines(o@));
}

/// The human lines of the output → workspace → window tree.
pub fn tree_lines(tree: &Vec<TreeOutput>) -> (r: Vec<String>)
    ensures
        r.deep_view() == spec_tree_lines(tree.deep_view()),
{
    let ghost groups = tree.deep_view().map_values(|o: TreeOutputView| tree_output_lines(o));
    let mut lines: Vec<String> = Vec::new();
    let mut i: usize = 0;
    while i < tree.len()
        invariant
            i <= tree.len(),
            groups == tree.deep_view().map_values(|o: TreeOutputView| tree_output_lines(o)),
            lines.deep_view() =~= concat_lines(groups.take(i as int)),
        decreases tree.len() - i,
    {
        push_output_lines(&mut lines, &tree[i]);
        proof {
            assert(groups.take(i + 1) =~= groups.take(i as int).push(groups[i as int]));
            lemma_concat_lines_push(groups.take(i as int), groups[i as int]);
        }
        i = i + 1;
    }
    assert(groups.take(tree.len() as int) =~= groups);
    lines
}

} // verus!

verus! {

// ── Monitor events ──────────────────────────────────────────────────────────

/// The human line of a monitor event.
pub open spec fn spec_event_line(e: MonitorEventView) -> Seq<char> {
    match e {
        MonitorEventView::WorkspaceAdded { workspace } => "workspace-added   "@ + workspace.name
            + flag(workspace.active, " *"@) + tiling_suffix(workspace.tiling) + on_suffix(
            workspace.output,
        ),
        MonitorEventView::WorkspaceUpdated { workspace } => "workspace-updated "@ + workspace.name
            + flag(workspace.active, " *"@) + flag(workspace.pinned, " [pinned]"@) + tiling_suffix(
            workspace.tiling,
        ) + on_suffix(workspace.output),
        MonitorEventView::WorkspaceRemoved { name, id } => "workspace-removed "@ + name,
        MonitorEventView::WindowOpened { window } => "window-opened     "@ + window_label(
            window.title,
            window.app_id,
        ) + state_suffix(window.state),
        MonitorEventView::WindowUpdated { window } => "window-updated    "@ + window_label(
            window.title,
            window.app_id,
        ) + state_suffix(window.state),
        MonitorEventView::WindowClosed { title, app_id, identifier } => "window-closed     "@
            + window_label(title, app_id),
    }
}

/// The human line that subscribe mode prints for an event.
pub fn event_line(event: &MonitorEvent) -> (r: String)
    ensures
        r@ == spec_event_line(event@),
{
    let mut v: Vec<char> = Vec::new();
    match event {
        MonitorEvent::WorkspaceAdded { workspace } => {
            push_str(&mut v, "workspace-added   ");
            push_str(&mut v, workspace.name.as_str());
            push_flag(&mut v, workspace.active, " *");
            push_tiling(&mut v, &workspace.tiling);
            push_on(&mut v, &workspace.output);
        },
        MonitorEvent::WorkspaceUpdated { workspace } => {
            push_str(&mut v, "workspace-updated ");
            push_str(&mut v, workspace.name.as_str());
            push_flag(&mut v, workspace.active, " *");
            push_flag(&mut v, workspace.pinned, " [pinned]");
            push_tiling(&mut v, &workspace.tiling);
            push_on(&mut v, &workspace.output);
        },
        MonitorEvent::WorkspaceRemoved { name, .. } => {
            push_str(&mut v, "workspace-removed ");
            push_str(&mut v, name.as_str());
        },
        MonitorEvent::WindowOpened { window } => {
            push_str(&mut v, "window-opened     ");
            push_window_label(&mut v, &window.title, &window.app_id);
            push_states(&mut v, &window.state);
        },
        MonitorEvent::WindowUpdated { window } => {
            push_str(&mut v, "window-updated    ");
            push_window_label(&mut v, &window.title, &window.app_id);
            push_states(&mut v, &window.state);
        },
        MonitorEvent::WindowClosed { title, app_id, .. } => {
            push_str(&mut v, "window-closed     ");
            push_window_label(&mut v, title, app_id);
        },
    }
    assert(v@ =~= spec_event_line(event@));
    string_from_chars(&v)
}

} // verus!

verus! {

// ── The query commands ──────────────────────────────────────────────────────

/// The report of a query in the given format: for human output, the line
/// of each item; for JSON, the items themselves.
pub open spec fn report_matches<T: DeepView, V>(
    r: crate::types::Report<T>,
    format: OutputFormat,
    items: Seq<V>,
    line: spec_fn(V) -> Seq<char>,
) -> bool where T: DeepView<V = V> {
    match format {
        OutputFormat::Human => r matches crate::types::Report::Lines(ls) && ls.deep_view()
            == items.map_values(line),
        OutputFormat::Json => r matches crate::types::Report::Json(v) && v.deep_view() == items,
        OutputFormat::PrettyJson => r matches crate::types::Report::PrettyJson(v) && v.deep_view()
            == items,
    }
}

/// `get-workspaces`: the sorted workspace listing.
pub fn cmd_get_workspaces(state: &AppData, format: OutputFormat) -> (r: Report<WorkspaceJson>)
    ensures
        report_matches(
            r,
            format,
            spec_workspace_listing(*state),
            |j: WorkspaceJsonView| spec_workspace_line(j),
        ),
{
    let items = state.workspaces();
    match format {
        OutputFormat::Json => Report::Json(items),
        OutputFormat::PrettyJson => Report::PrettyJson(items),
        OutputFormat::Human => {
            let ghost f = |j: WorkspaceJsonView| spec_workspace_line(j);
            let mut lines: Vec<String> = Vec::new();
            let mut i: usize = 0;
            while i < items.len()
                invariant
                    i <= items.len(),
                    f == (|j: WorkspaceJsonView| spec_workspace_line(j)),
                    lines.deep_view() =~= items.deep_view().take(i as int).map_values(f),
                decreases items.len() - i,
            {
                let ghost before = lines.deep_view();
                let l = workspace_line(&items[i]);
                let ghost lv = l@;
                lines.push(l);
                assert(lines.deep_view() =~= before.push(lv));
                assert(items.deep_view().take(i + 1) =~= items.deep_view().take(i as int).push(
                    items@[i as int]@,
                ));
                i = i + 1;
            }
            assert(items.deep_view().take(items.len() as int) =~= items.deep_view());
            Report::Lines(lines)
        },
    }
}

/// `get-toplevels`: every window, in the compositor's order.
pub fn cmd_get_toplevels(state: &AppData, format: OutputFormat) -> (r: Report<ToplevelJson>)
    ensures
        report_matches(
            r,
            format,
            spec_toplevel_listing(*state),
            |t: ToplevelJsonView| spec_toplevel_line(t),
        ),
{
    let items = state.toplevels();
    match format {
        OutputFormat::Json => Report::Json(items),
        OutputFormat::PrettyJson => Report::PrettyJson(items),
        OutputFormat::Human => {
            let ghost f = |t: ToplevelJsonView| spec_toplevel_line(t);
            let mut lines: Vec<String> = Vec::new();
            let mut i: usize = 0;
            while i < items.len()
                invariant
                    i <= items.len(),
                    f == (|t: ToplevelJsonView| spec_toplevel_line(t)),
                    lines.deep_view() =~= items.deep_view().take(i as int).map_values(f),
                decreases items.len() - i,
            {
                let ghost before = lines.deep_view();
                let l = toplevel_line(&items[i]);
                let ghost lv = l@;
                lines.push(l);
                assert(lines.deep_view() =~= before.push(lv));
                assert(items.deep_view().take(i + 1) =~= items.deep_view().take(i as int).push(
                    items@[i as int]@,
                ));
                i = i + 1;
            }
            assert(items.deep_view().take(items.len() as int) =~= items.deep_view());
            Report::Lines(lines)
        },
    }
}

/// `get-outputs`: every output whose info is known, in output order.
pub fn cmd_get_outputs(state: &AppData, format: OutputFormat) -> (r: Report<OutputJson>)
    ensures
        report_matches(r, format, spec_output_listing(*state), |o: OutputJsonView| spec_output_line(o)),
{
    let items = state.outputs();
    match format {
        OutputFormat::Json => Report::Json(items),
        OutputFormat::PrettyJson => Report::PrettyJson(items),
        OutputFormat::Human => {
            let ghost f = |o: OutputJsonView| spec_output_line(o);
            let mut lines: Vec<String> = Vec::new();
            let mut i: usize = 0;
            while i < items.len()
                invariant
                    i <= items.len(),
                    f == (|o: OutputJsonView| spec_output_line(o)),
                    lines.deep_view() =~= items.deep_view().take(i as int).map_values(f),
                decreases items.len() - i,
            {
                let ghost before = lines.deep_view();
                let l = output_line(&items[i]);
                let ghost lv = l@;
                lines.push(l);
                assert(lines.deep_view() =~= before.push(lv));
                assert(items.deep_view().take(i + 1) =~= items.deep_view().take(i as int).push(
                    items@[i as int]@,
                ));
                i = i + 1;
            }
            assert(items.deep_view().take(items.len() as int) =~= items.deep_view());
            Report::Lines(lines)
        },
    }
}

/// `get-tree`: the tree, as indented lines or as JSON.
pub fn cmd_get_tree(state: &AppData, format: OutputFormat) -> (r: Report<TreeOutput>)
    ensures
        match format {
            OutputFormat::Human => r matches Report::Lines(ls) && ls.deep_view() == spec_tree_lines(
                spec_tree(*state),
            ),
            OutputFormat::Json => r matches Report::Json(v) && v.deep_view() == spec_tree(*state),
            OutputFormat::PrettyJson => r matches Report::PrettyJson(v) && v.deep_view() == spec_tree(
                *state,
            ),
        },
{
    let tree = state.tree();
    match format {
        OutputFormat::Json => Report::Json(tree),
        OutputFormat::PrettyJson => Report::PrettyJson(tree),
        OutputFormat::Human => Report::Lines(tree_lines(&tree)),
    }
}

} // verus!
