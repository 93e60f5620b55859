use cosmicmsg::human::cmd_get_workspaces;
use cosmicmsg::state::{
    AppData, Mode, Output, OutputInfo, TilingState, ToplevelInfo, ToplevelState, Transform,
    Workspace, WorkspaceGroup,
};
use cosmicmsg::types::Report;
use cosmicmsg::workspaces::{
    TilingArg, WorkspaceCommand, WorkspaceRequest, cmd_workspace, resolve_active_workspace,
    resolve_workspace_pub, tiling_arg_to_protocol, workspace_activate, workspace_move_after,
    workspace_move_before, workspace_pin, workspace_rename, workspace_set_tiling,
    workspace_set_tiling_default, workspace_to_json, workspace_unpin,
};
use cosmicmsg::{Error, OutputFormat};

fn s(x: &str) -> String {
    x.to_string()
}

fn ws(handle: u32, name: &str, coords: Vec<u32>, active: bool, pinned: bool, cosmic: bool) -> Workspace {
    Workspace {
        handle,
        has_cosmic_handle: cosmic,
        name: s(name),
        coordinates: coords,
        active,
        urgent: false,
        hidden: false,
        pinned,
        tiling: None,
        id: None,
    }
}

fn output(handle: u32, name: &str, desc: &str, w: i32, h: i32, refresh: i32, x: i32, y: i32) -> Output {
    Output {
        handle,
        info: Some(OutputInfo {
            name: Some(s(name)),
            description: Some(s(desc)),
            make: s("make"),
            model: s("model"),
            x,
            y,
            scale_factor: 1,
            transform: Transform::Normal,
            modes: vec![Mode { width: w, height: h, refresh_rate: refresh, current: true }],
        }),
    }
}

fn tl(handle: u32, title: &str, app: &str, id: &str, state: Vec<ToplevelState>, outs: Vec<u32>, wss: Vec<u32>) -> ToplevelInfo {
    ToplevelInfo {
        handle,
        title: s(title),
        app_id: s(app),
        identifier: s(id),
        state,
        output: outs,
        workspace: wss,
        has_cosmic_handle: true,
    }
}

/// Workspaces listed out of order: "3", "work", "1", "2".
fn fixture() -> AppData {
    let mut w10 = ws(10, "1", vec![0], true, false, true);
    w10.tiling = Some(TilingState::TilingEnabled);
    w10.id = Some(s("ws-1"));
    let w11 = ws(11, "2", vec![1], false, false, true);
    let w12 = ws(12, "3", vec![2], false, true, true);
    let mut w13 = ws(13, "work", vec![0], false, false, false);
    w13.tiling = Some(TilingState::FloatingOnly);
    AppData::new(
        vec![
            output(1, "DP-1", "Dell U2722D", 2560, 1440, 59951, 0, 0),
            output(2, "HDMI-A-1", "LG TV", 1920, 1080, 60000, 2560, 0),
        ],
        vec![7],
        vec![w12, w13, w10, w11],
        vec![
            WorkspaceGroup { handle_id: s("g1"), outputs: vec![1], workspaces: vec![10, 11, 12] },
            WorkspaceGroup { handle_id: s("g2"), outputs: vec![2], workspaces: vec![13] },
        ],
        vec![
            tl(100, "kitty", "kitty", "a", vec![ToplevelState::Activated], vec![1], vec![10]),
            tl(101, "Firefox", "firefox", "b", vec![], vec![1], vec![11]),
            tl(102, "zed", "dev.zed.Zed", "c", vec![ToplevelState::Maximized], vec![1], vec![11]),
        ],
        true,
    )
}

fn named(names: &[&str]) -> AppData {
    let wss = names.iter().enumerate().map(|(i, n)| ws(50 + i as u32, n, vec![i as u32], false, false, true)).collect();
    AppData::new(vec![], vec![], wss, vec![], vec![], true)
}

#[test]
fn listing_sorts_by_group_then_coordinates() {
    let st = fixture();
    let names: Vec<String> = st.workspaces().into_iter().map(|w| w.name).collect();
    assert_eq!(names, vec![s("1"), s("2"), s("3"), s("work")]);
}

#[test]
fn workspace_report_fields() {
    let st = fixture();
    let j = workspace_to_json(&st.workspace_state[2], &st);
    assert_eq!(j.name, "1");
    assert_eq!(j.id, Some(s("ws-1")));
    assert_eq!(j.coordinates, vec![0]);
    assert!(j.active);
    assert_eq!(j.tiling, Some(s("enabled")));
    assert_eq!(j.output, Some(s("DP-1")));
    assert_eq!(j.group_id, "g1");
    let w = workspace_to_json(&st.workspace_state[1], &st);
    assert_eq!(w.tiling, Some(s("disabled")));
    assert_eq!(w.output, Some(s("HDMI-A-1")));
}

#[test]
fn workspace_without_group_has_no_output() {
    let st = named(&["lonely"]);
    let j = workspace_to_json(&st.workspace_state[0], &st);
    assert_eq!(j.output, None);
    assert_eq!(j.group_id, "");
}

#[test]
fn human_workspace_lines() {
    let st = fixture();
    match cmd_get_workspaces(&st, OutputFormat::Human) {
        Report::Lines(lines) => assert_eq!(
            lines,
            vec![
                s("1 * [tiling: enabled] on DP-1"),
                s("2 on DP-1"),
                s("3 [pinned] on DP-1"),
                s("work [tiling: disabled] on HDMI-A-1"),
            ]
        ),
        other => panic!("unexpected report {other:?}"),
    }
}

#[test]
fn json_workspace_report_is_the_listing() {
    let st = fixture();
    match cmd_get_workspaces(&st, OutputFormat::PrettyJson) {
        Report::PrettyJson(items) => assert_eq!(items, st.workspaces()),
        other => panic!("unexpected report {other:?}"),
    }
}

#[test]
fn resolve_exact_name_first() {
    let st = fixture();
    assert_eq!(resolve_workspace_pub(&st, "1").unwrap(), 2);
}

#[test]
fn resolve_by_id() {
    let st = fixture();
    assert_eq!(resolve_workspace_pub(&st, "ws-1").unwrap(), 2);
}

#[test]
fn resolve_case_insensitive_substring() {
    let st = fixture();
    assert_eq!(resolve_workspace_pub(&st, "WOR").unwrap(), 1);
}

#[test]
fn resolve_unique_exact_beats_substrings() {
    let st = named(&["dev", "devtools"]);
    assert_eq!(resolve_workspace_pub(&st, "dev").unwrap(), 0);
}

#[test]
fn resolve_ambiguous_substring() {
    let st = named(&["dev", "devtools"]);
    let e = resolve_workspace_pub(&st, "de").unwrap_err();
    assert_eq!(e, Error::AmbiguousMatch(s("selector 'de' matches multiple workspaces: dev, devtools")));
    assert_eq!(e.message(), "ambiguous match: selector 'de' matches multiple workspaces: dev, devtools");
}

#[test]
fn resolve_duplicate_names_are_ambiguous() {
    let st = named(&["dup", "dup"]);
    assert_eq!(
        resolve_workspace_pub(&st, "dup").unwrap_err(),
        Error::AmbiguousMatch(s("multiple workspaces named 'dup'"))
    );
}

#[test]
fn resolve_not_found() {
    let st = fixture();
    let e = resolve_workspace_pub(&st, "zzz").unwrap_err();
    assert_eq!(e, Error::NotFound(s("no workspace matching 'zzz'")));
    assert_eq!(e.message(), "not found: no workspace matching 'zzz'");
}

#[test]
fn active_workspace() {
    let st = fixture();
    assert_eq!(resolve_active_workspace(&st).unwrap(), 2);
    let none = named(&["a"]);
    assert_eq!(resolve_active_workspace(&none).unwrap_err(), Error::NotFound(s("no active workspace found")));
}

#[test]
fn activate_request() {
    let st = fixture();
    assert_eq!(workspace_activate(&st, "2").unwrap(), WorkspaceRequest::Activate { workspace: 11 });
    // Activation goes through the workspace handle itself.
    assert_eq!(workspace_activate(&st, "work").unwrap(), WorkspaceRequest::Activate { workspace: 13 });
}

#[test]
fn rename_needs_extension() {
    let st = fixture();
    assert_eq!(
        workspace_rename(&st, "1", "dev").unwrap(),
        WorkspaceRequest::Rename { workspace: 10, name: s("dev") }
    );
    assert_eq!(
        workspace_rename(&st, "work", "x").unwrap_err(),
        Error::ProtocolNotAvailable(s("zcosmic-workspace-v2 not available"))
    );
}

#[test]
fn pin_and_unpin() {
    let st = fixture();
    assert_eq!(workspace_pin(&st, "3").unwrap(), WorkspaceRequest::Pin { workspace: 12 });
    assert_eq!(workspace_unpin(&st, "3").unwrap(), WorkspaceRequest::Unpin { workspace: 12 });
    assert_eq!(
        workspace_pin(&st, "nope").unwrap_err(),
        Error::NotFound(s("no workspace matching 'nope'"))
    );
}

#[test]
fn set_tiling_on_active() {
    let st = fixture();
    assert_eq!(
        workspace_set_tiling(&st, "ACTIVE", false).unwrap(),
        WorkspaceRequest::SetTiling { workspace: 10, tiling: TilingState::FloatingOnly }
    );
    assert_eq!(
        workspace_set_tiling(&st, "2", true).unwrap(),
        WorkspaceRequest::SetTiling { workspace: 11, tiling: TilingState::TilingEnabled }
    );
}

#[test]
fn move_requests_resolve_both_first() {
    let st = fixture();
    assert_eq!(
        workspace_move_before(&st, "3", "1").unwrap(),
        WorkspaceRequest::MoveBefore { workspace: 12, other: 10 }
    );
    assert_eq!(
        workspace_move_after(&st, "1", "3").unwrap(),
        WorkspaceRequest::MoveAfter { workspace: 10, other: 12 }
    );
    // The reference workspace is resolved before the extension is checked.
    assert_eq!(
        workspace_move_after(&st, "work", "zzz").unwrap_err(),
        Error::NotFound(s("no workspace matching 'zzz'"))
    );
    assert_eq!(
        workspace_move_after(&st, "work", "1").unwrap_err(),
        Error::ProtocolNotAvailable(s("zcosmic-workspace-v2 not available"))
    );
}

#[test]
fn tiling_default_targets_empty_workspaces_with_extension() {
    let st = fixture();
    // 10 and 11 hold windows; 13 lacks the extension handle.
    assert_eq!(
        workspace_set_tiling_default(&st, true),
        vec![WorkspaceRequest::SetTiling { workspace: 12, tiling: TilingState::TilingEnabled }]
    );
}

#[test]
fn tiling_argument_maps_to_protocol() {
    assert_eq!(tiling_arg_to_protocol(&TilingArg::Enabled), TilingState::TilingEnabled);
    assert_eq!(tiling_arg_to_protocol(&TilingArg::Disabled), TilingState::FloatingOnly);
}

#[test]
fn get_tiling_lines() {
    let st = fixture();
    let o = cmd_workspace(&st, WorkspaceCommand::GetTiling { workspace: None }).unwrap();
    assert_eq!(o.stdout, Some(s("1: tiling=enabled")));
    assert!(o.requests.is_empty());
    assert!(!o.commit);
    let o = cmd_workspace(&st, WorkspaceCommand::GetTiling { workspace: Some(s("2")) }).unwrap();
    assert_eq!(o.stdout, Some(s("2: tiling=unknown")));
}

#[test]
fn set_tiling_default_command_reports_count() {
    let st = fixture();
    let o = cmd_workspace(&st, WorkspaceCommand::SetTilingDefault { state: TilingArg::Disabled }).unwrap();
    assert_eq!(o.requests, vec![WorkspaceRequest::SetTiling { workspace: 12, tiling: TilingState::FloatingOnly }]);
    assert!(o.commit);
    assert_eq!(o.stderr, Some(s("set tiling default on 1 empty workspace(s)")));
    let busy = named(&[]);
    let o = cmd_workspace(&busy, WorkspaceCommand::SetTilingDefault { state: TilingArg::Enabled }).unwrap();
    assert!(o.requests.is_empty());
    assert!(!o.commit);
    assert_eq!(o.stderr, Some(s("set tiling default on 0 empty workspace(s)")));
}

#[test]
fn command_sends_one_committed_request() {
    let st = fixture();
    let o = cmd_workspace(&st, WorkspaceCommand::MoveBefore { workspace: s("3"), before: s("1") }).unwrap();
    assert_eq!(o.requests, vec![WorkspaceRequest::MoveBefore { workspace: 12, other: 10 }]);
    assert!(o.commit);
    assert_eq!(o.stdout, None);
    let e = cmd_workspace(&st, WorkspaceCommand::Pin { workspace: s("work") }).unwrap_err();
    assert_eq!(e, Error::ProtocolNotAvailable(s("zcosmic-workspace-v2 not available")));
    let o = cmd_workspace(&st, WorkspaceCommand::SetTiling { workspace: s("active"), state: TilingArg::Enabled }).unwrap();
    assert_eq!(o.requests, vec![WorkspaceRequest::SetTiling { workspace: 10, tiling: TilingState::TilingEnabled }]);
}

#[test]
fn listing_keeps_compositor_order_for_equal_keys() {
    let mut st = named(&["b", "a", "c"]);
    for w in st.workspace_state.iter_mut() {
        w.coordinates = vec![4];
    }
    let names: Vec<String> = st.workspaces().into_iter().map(|w| w.name).collect();
    assert_eq!(names, vec![s("b"), s("a"), s("c")]);
}

#[test]
fn listing_orders_coordinates_lexicographically() {
    let mut st = named(&["x", "y", "z"]);
    st.workspace_state[0].coordinates = vec![1, 0];
    st.workspace_state[1].coordinates = vec![0, 5];
    st.workspace_state[2].coordinates = vec![1];
    let names: Vec<String> = st.workspaces().into_iter().map(|w| w.name).collect();
    assert_eq!(names, vec![s("y"), s("z"), s("x")]);
}
