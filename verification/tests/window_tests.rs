use cosmicmsg::human::{cmd_get_outputs, cmd_get_toplevels, cmd_get_tree};
use cosmicmsg::state::{
    AppData, Mode, Output, OutputInfo, TilingState, ToplevelInfo, ToplevelState, Transform,
    Workspace, WorkspaceGroup,
};
use cosmicmsg::toplevels::{
    WindowAction, WindowCommand, WindowRequest, cmd_window, resolve_toplevel_pub, toplevel_to_json,
    window_activate, window_close, window_fullscreen, window_maximize, window_minimize,
    window_move_to_workspace, window_set_sticky, window_unfullscreen, window_unmaximize,
    window_unminimize, window_unset_sticky,
};
use cosmicmsg::types::Report;
use cosmicmsg::{Error, OutputFormat};

fn s(x: &str) -> String {
    x.to_string()
}

fn ws(handle: u32, name: &str, coords: Vec<u32>, active: bool, pinned: bool, cosmic: bool) -> Workspace {
    Workspace {
        handle,
        has_cosmic_handle: cosmic,
        name: s(name),
        coordinates: coords,
        active,
        urgent: false,
        hidden: false,
        pinned,
        tiling: None,
        id: None,
    }
}

fn output(handle: u32, name: &str, desc: &str, w: i32, h: i32, refresh: i32, x: i32, y: i32) -> Output {
    Output {
        handle,
        info: Some(OutputInfo {
            name: Some(s(name)),
            description: Some(s(desc)),
            make: s("make"),
            model: s("model"),
            x,
            y,
            scale_factor: 1,
            transform: Transform::Normal,
            modes: vec![Mode { width: w, height: h, refresh_rate: refresh, current: true }],
        }),
    }
}

fn tl(handle: u32, title: &str, app: &str, id: &str, state: Vec<ToplevelState>, outs: Vec<u32>, wss: Vec<u32>) -> ToplevelInfo {
    ToplevelInfo {
        handle,
        title: s(title),
        app_id: s(app),
        identifier: s(id),
        state,
        output: outs,
        workspace: wss,
        has_cosmic_handle: true,
    }
}

/// Workspaces listed out of order: "3", "work", "1", "2".
fn fixture() -> AppData {
    let mut w10 = ws(10, "1", vec![0], true, false, true);
    w10.tiling = Some(TilingState::TilingEnabled);
    w10.id = Some(s("ws-1"));
    let w11 = ws(11, "2", vec![1], false, false, true);
    let w12 = ws(12, "3", vec![2], false, true, true);
    let mut w13 = ws(13, "work", vec![0], false, false, false);
    w13.tiling = Some(TilingState::FloatingOnly);
    AppData::new(
        vec![
            output(1, "DP-1", "Dell U2722D", 2560, 1440, 59951, 0, 0),
            output(2, "HDMI-A-1", "LG TV", 1920, 1080, 60000, 2560, 0),
        ],
        vec![7],
        vec![w12, w13, w10, w11],
        vec![
            WorkspaceGroup { handle_id: s("g1"), outputs: vec![1], workspaces: vec![10, 11, 12] },
            WorkspaceGroup { handle_id: s("g2"), outputs: vec![2], workspaces: vec![13] },
        ],
        vec![
            tl(100, "kitty", "kitty", "a", vec![ToplevelState::Activated], vec![1], vec![10]),
            tl(101, "Firefox", "firefox", "b", vec![], vec![1], vec![11]),
            tl(102, "zed", "dev.zed.Zed", "c", vec![ToplevelState::Maximized], vec![1], vec![11]),
        ],
        true,
    )
}

fn named(names: &[&str]) -> AppData {
    let wss = names.iter().enumerate().map(|(i, n)| ws(50 + i as u32, n, vec![i as u32], false, false, true)).collect();
    AppData::new(vec![], vec![], wss, vec![], vec![], true)
}

fn with_floating() -> AppData {
    let mut st = fixture();
    st.toplevel_info_state.push(tl(103, "popup", "pop", "d", vec![ToplevelState::Sticky], vec![2], vec![]));
    st
}

fn req(window: u32, action: WindowAction) -> WindowRequest {
    WindowRequest { window, action }
}

#[test]
fn window_report_names_outputs_and_workspaces() {
    let st = fixture();
    let j = toplevel_to_json(&st.toplevel_info_state[2], &st);
    assert_eq!(j.title, "zed");
    assert_eq!(j.state, vec![s("maximized")]);
    assert_eq!(j.outputs, vec![s("DP-1")]);
    assert_eq!(j.workspaces, vec![s("2")]);
}

#[test]
fn window_report_skips_unknown_handles() {
    let mut st = fixture();
    st.toplevel_info_state[0].workspace = vec![99, 10];
    st.toplevel_info_state[0].output = vec![42];
    let j = toplevel_to_json(&st.toplevel_info_state[0], &st);
    assert_eq!(j.workspaces, vec![s("1")]);
    assert!(j.outputs.is_empty());
}

#[test]
fn human_window_lines() {
    let st = with_floating();
    match cmd_get_toplevels(&st, OutputFormat::Human) {
        Report::Lines(lines) => assert_eq!(
            lines,
            vec![
                s("\"kitty\" (kitty) [activated] on 1"),
                s("\"Firefox\" (firefox) on 2"),
                s("\"zed\" (dev.zed.Zed) [maximized] on 2"),
                s("\"popup\" (pop) [sticky]"),
            ]
        ),
        other => panic!("unexpected report {other:?}"),
    }
}

#[test]
fn human_output_lines() {
    let st = fixture();
    match cmd_get_outputs(&st, OutputFormat::Human) {
        Report::Lines(lines) => assert_eq!(
            lines,
            vec![
                s("DP-1 \"Dell U2722D\" 2560x1440@59.951Hz at (0, 0)"),
                s("HDMI-A-1 \"LG TV\" 1920x1080@60.000Hz at (2560, 0)"),
            ]
        ),
        other => panic!("unexpected report {other:?}"),
    }
}

#[test]
fn output_without_info_is_skipped() {
    let mut st = fixture();
    st.output_state.insert(0, Output { handle: 9, info: None });
    assert_eq!(st.outputs().len(), 2);
    assert_eq!(st.tree().len(), 2);
}

#[test]
fn output_without_current_mode_reports_zero() {
    let mut st = fixture();
    if let Some(info) = st.output_state[0].info.as_mut() {
        info.modes[0].current = false;
        info.name = None;
        info.description = None;
    }
    let o = &st.outputs()[0];
    assert_eq!((o.width, o.height, o.refresh), (0, 0, 0));
    assert_eq!(o.current_mode, None);
    match cmd_get_outputs(&st, OutputFormat::Human) {
        Report::Lines(lines) => assert_eq!(lines[0], "unknown \"\" 0x0@0.000Hz at (0, 0)"),
        other => panic!("unexpected report {other:?}"),
    }
}

#[test]
fn refresh_rate_keeps_three_decimals() {
    let mut st = fixture();
    if let Some(info) = st.output_state[0].info.as_mut() {
        info.modes[0].refresh_rate = 144005;
    }
    match cmd_get_outputs(&st, OutputFormat::Human) {
        Report::Lines(lines) => assert_eq!(lines[0], "DP-1 \"Dell U2722D\" 2560x1440@144.005Hz at (0, 0)"),
        other => panic!("unexpected report {other:?}"),
    }
}

#[test]
fn human_tree_lines() {
    let st = with_floating();
    match cmd_get_tree(&st, OutputFormat::Human) {
        Report::Lines(lines) => assert_eq!(
            lines,
            vec![
                s("Output: DP-1 \"Dell U2722D\" 2560x1440 at (0, 0)"),
                s("  Workspace: 1 * [tiling: enabled]"),
                s("    - \"kitty\" (kitty)"),
                s("  Workspace: 2"),
                s("    - \"Firefox\" (firefox)"),
                s("    - \"zed\" (dev.zed.Zed)"),
                s("  Workspace: 3 [pinned]"),
                s("Output: HDMI-A-1 \"LG TV\" 1920x1080 at (2560, 0)"),
                s("  Workspace: work [tiling: disabled]"),
                s("  Floating/sticky:"),
                s("    - \"popup\" (pop)"),
            ]
        ),
        other => panic!("unexpected report {other:?}"),
    }
}

#[test]
fn tree_json_structure() {
    let st = with_floating();
    let tree = st.tree();
    assert_eq!(tree.len(), 2);
    let names: Vec<String> = tree[0].workspaces.iter().map(|w| w.name.clone()).collect();
    assert_eq!(names, vec![s("1"), s("2"), s("3")]);
    assert_eq!(tree[0].workspaces[1].windows.len(), 2);
    assert!(tree[0].floating.is_empty());
    assert_eq!(tree[1].floating.len(), 1);
    assert_eq!(tree[1].floating[0].title, "popup");
}

#[test]
fn resolve_window_priority() {
    let st = fixture();
    // Exact identifier.
    assert_eq!(resolve_toplevel_pub(&st, "b").unwrap(), 1);
    // Exact title.
    assert_eq!(resolve_toplevel_pub(&st, "zed").unwrap(), 2);
    // Exact app id.
    assert_eq!(resolve_toplevel_pub(&st, "firefox").unwrap(), 1);
    // Case-insensitive title substring.
    assert_eq!(resolve_toplevel_pub(&st, "KIT").unwrap(), 0);
    // App id substring.
    assert_eq!(resolve_toplevel_pub(&st, "dev.zed").unwrap(), 2);
}

#[test]
fn resolve_window_ambiguous() {
    let mut st = fixture();
    st.toplevel_info_state[1].title = s("kitty 2");
    let e = resolve_toplevel_pub(&st, "kit").unwrap_err();
    assert_eq!(
        e,
        Error::AmbiguousMatch(s("selector 'kit' matches 2 windows by title substring (titles: kitty, kitty 2)"))
    );
}

#[test]
fn resolve_window_not_found() {
    let st = fixture();
    assert_eq!(resolve_toplevel_pub(&st, "nothing").unwrap_err(), Error::NotFound(s("no window matching 'nothing'")));
}

#[test]
fn simple_window_requests() {
    let st = fixture();
    assert_eq!(window_close(&st, "zed").unwrap(), req(102, WindowAction::Close));
    assert_eq!(window_maximize(&st, "zed").unwrap(), req(102, WindowAction::SetMaximized));
    assert_eq!(window_unmaximize(&st, "zed").unwrap(), req(102, WindowAction::UnsetMaximized));
    assert_eq!(window_minimize(&st, "zed").unwrap(), req(102, WindowAction::SetMinimized));
    assert_eq!(window_unminimize(&st, "zed").unwrap(), req(102, WindowAction::UnsetMinimized));
    assert_eq!(window_fullscreen(&st, "zed").unwrap(), req(102, WindowAction::SetFullscreen));
    assert_eq!(window_unfullscreen(&st, "zed").unwrap(), req(102, WindowAction::UnsetFullscreen));
    assert_eq!(window_set_sticky(&st, "zed").unwrap(), req(102, WindowAction::SetSticky));
    assert_eq!(window_unset_sticky(&st, "zed").unwrap(), req(102, WindowAction::UnsetSticky));
}

#[test]
fn window_requests_need_the_manager() {
    let mut st = fixture();
    st.toplevel_manager_state = false;
    assert_eq!(
        window_close(&st, "nothing").unwrap_err(),
        Error::ProtocolNotAvailable(s("zcosmic-toplevel-management-v1 not available"))
    );
}

#[test]
fn window_requests_need_the_extension_handle() {
    let mut st = fixture();
    st.toplevel_info_state[0].has_cosmic_handle = false;
    assert_eq!(
        window_close(&st, "kitty").unwrap_err(),
        Error::ProtocolNotAvailable(s("zcosmic-toplevel-info-v1 not available"))
    );
}

#[test]
fn activate_uses_first_seat() {
    let mut st = fixture();
    st.seat_state = vec![7, 8];
    assert_eq!(window_activate(&st, "kitty").unwrap(), req(100, WindowAction::Activate { seat: 7 }));
    st.seat_state.clear();
    assert_eq!(window_activate(&st, "kitty").unwrap_err(), Error::Other(s("no seat available")));
}

#[test]
fn activate_checks_differ_in_order() {
    let mut st = fixture();
    st.seat_state.clear();
    st.toplevel_info_state[0].has_cosmic_handle = false;
    // The library call checks the extension handle before the seat ...
    assert_eq!(
        window_activate(&st, "kitty").unwrap_err(),
        Error::ProtocolNotAvailable(s("zcosmic-toplevel-info-v1 not available"))
    );
    // ... the command line checks the seat first.
    assert_eq!(
        cmd_window(&st, WindowCommand::Activate { selector: s("kitty") }).unwrap_err(),
        Error::Other(s("no seat available"))
    );
}

#[test]
fn move_window_to_workspace_output() {
    let st = fixture();
    assert_eq!(
        window_move_to_workspace(&st, "kitty", "work").unwrap(),
        req(100, WindowAction::MoveToWorkspace { workspace: 13, output: 2 })
    );
    assert_eq!(
        cmd_window(&st, WindowCommand::MoveToWorkspace { selector: s("zed"), workspace: s("3") }).unwrap(),
        req(102, WindowAction::MoveToWorkspace { workspace: 12, output: 1 })
    );
}

#[test]
fn move_window_without_output_fails() {
    let mut st = fixture();
    st.workspace_groups[1].outputs.clear();
    assert_eq!(
        window_move_to_workspace(&st, "kitty", "work").unwrap_err(),
        Error::Other(s("target workspace has no associated output"))
    );
    st.workspace_groups.remove(1);
    assert_eq!(
        window_move_to_workspace(&st, "kitty", "work").unwrap_err(),
        Error::Other(s("target workspace has no associated output"))
    );
}

#[test]
fn cmd_window_simple_commands() {
    let st = fixture();
    assert_eq!(cmd_window(&st, WindowCommand::Close { selector: s("b") }).unwrap(), req(101, WindowAction::Close));
    assert_eq!(
        cmd_window(&st, WindowCommand::Activate { selector: s("zed") }).unwrap(),
        req(102, WindowAction::Activate { seat: 7 })
    );
    assert_eq!(
        cmd_window(&st, WindowCommand::Fullscreen { selector: s("zzz") }).unwrap_err(),
        Error::NotFound(s("no window matching 'zzz'"))
    );
}

#[test]
fn tree_floating_is_per_output() {
    let mut st = fixture();
    // Spans both outputs but sits on workspace "1", which is shown on DP-1 only.
    st.toplevel_info_state.push(tl(104, "spanning", "span", "e", vec![], vec![1, 2], vec![10]));
    // On HDMI-A-1 and on "work", which is shown there.
    st.toplevel_info_state.push(tl(105, "notes", "notes", "f", vec![], vec![2], vec![13]));
    let tree = st.tree();
    assert!(tree[0].floating.is_empty());
    let floating: Vec<String> = tree[1].floating.iter().map(|w| w.title.clone()).collect();
    assert_eq!(floating, vec![s("spanning")]);
    assert_eq!(tree[1].workspaces[0].windows.len(), 1);
    assert_eq!(tree[1].workspaces[0].windows[0].title, "notes");
}
