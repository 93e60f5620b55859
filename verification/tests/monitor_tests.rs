use cosmicmsg::human::event_line;
use cosmicmsg::monitor::{MonitorEvent, after_handler};
use cosmicmsg::Error;
use cosmicmsg::state::{
    AppData, Mode, MonitorConfig, Output, OutputInfo, TilingState, ToplevelInfo, ToplevelState,
    Transform, Workspace, WorkspaceGroup,
};
use cosmicmsg::toplevels::ToplevelJson;
use cosmicmsg::workspaces::WorkspaceJson;
use cosmicmsg::OutputFormat;

fn s(x: &str) -> String {
    x.to_string()
}

fn ws(handle: u32, name: &str, coords: Vec<u32>, active: bool, pinned: bool, cosmic: bool) -> Workspace {
    Workspace {
        handle,
        has_cosmic_handle: cosmic,
        name: s(name),
        coordinates: coords,
        active,
        urgent: false,
        hidden: false,
        pinned,
        tiling: None,
        id: None,
    }
}

fn output(handle: u32, name: &str, desc: &str, w: i32, h: i32, refresh: i32, x: i32, y: i32) -> Output {
    Output {
        handle,
        info: Some(OutputInfo {
            name: Some(s(name)),
            description: Some(s(desc)),
            make: s("make"),
            model: s("model"),
            x,
            y,
            scale_factor: 1,
            transform: Transform::Normal,
            modes: vec![Mode { width: w, height: h, refresh_rate: refresh, current: true }],
        }),
    }
}

fn tl(handle: u32, title: &str, app: &str, id: &str, state: Vec<ToplevelState>, outs: Vec<u32>, wss: Vec<u32>) -> ToplevelInfo {
    ToplevelInfo {
        handle,
        title: s(title),
        app_id: s(app),
        identifier: s(id),
        state,
        output: outs,
        workspace: wss,
        has_cosmic_handle: true,
    }
}

/// Workspaces listed out of order: "3", "work", "1", "2".
fn fixture() -> AppData {
    let mut w10 = ws(10, "1", vec![0], true, false, true);
    w10.tiling = Some(TilingState::TilingEnabled);
    w10.id = Some(s("ws-1"));
    let w11 = ws(11, "2", vec![1], false, false, true);
    let w12 = ws(12, "3", vec![2], false, true, true);
    let mut w13 = ws(13, "work", vec![0], false, false, false);
    w13.tiling = Some(TilingState::FloatingOnly);
    AppData::new(
        vec![
            output(1, "DP-1", "Dell U2722D", 2560, 1440, 59951, 0, 0),
            output(2, "HDMI-A-1", "LG TV", 1920, 1080, 60000, 2560, 0),
        ],
        vec![7],
        vec![w12, w13, w10, w11],
        vec![
            WorkspaceGroup { handle_id: s("g1"), outputs: vec![1], workspaces: vec![10, 11, 12] },
            WorkspaceGroup { handle_id: s("g2"), outputs: vec![2], workspaces: vec![13] },
        ],
        vec![
            tl(100, "kitty", "kitty", "a", vec![ToplevelState::Activated], vec![1], vec![10]),
            tl(101, "Firefox", "firefox", "b", vec![], vec![1], vec![11]),
            tl(102, "zed", "dev.zed.Zed", "c", vec![ToplevelState::Maximized], vec![1], vec![11]),
        ],
        true,
    )
}

fn named(names: &[&str]) -> AppData {
    let wss = names.iter().enumerate().map(|(i, n)| ws(50 + i as u32, n, vec![i as u32], false, false, true)).collect();
    AppData::new(vec![], vec![], wss, vec![], vec![], true)
}

fn kinds(events: &[MonitorEvent]) -> Vec<String> {
    events
        .iter()
        .map(|e| match e {
            MonitorEvent::WorkspaceAdded { workspace } => format!("added {}", workspace.name),
            MonitorEvent::WorkspaceUpdated { workspace } => format!("updated {}", workspace.name),
            MonitorEvent::WorkspaceRemoved { name, .. } => format!("removed {name}"),
            MonitorEvent::WindowOpened { window } => format!("opened {}", window.title),
            MonitorEvent::WindowUpdated { window } => format!("updated {}", window.title),
            MonitorEvent::WindowClosed { title, .. } => format!("closed {title}"),
        })
        .collect()
}

fn window(title: &str, app: &str, state: Vec<String>) -> ToplevelJson {
    ToplevelJson {
        title: s(title),
        app_id: s(app),
        identifier: s("x"),
        state,
        outputs: vec![],
        workspaces: vec![],
    }
}

fn report(name: &str, active: bool, pinned: bool, tiling: Option<&str>, output: Option<&str>) -> WorkspaceJson {
    WorkspaceJson {
        name: s(name),
        id: None,
        coordinates: vec![],
        active,
        urgent: false,
        hidden: false,
        pinned,
        tiling: tiling.map(s),
        output: output.map(s),
        group_id: s("g"),
    }
}

#[test]
fn done_outside_subscribe_mode_reports_nothing() {
    let mut st = fixture();
    let events = st.done(false);
    assert!(st.workspaces_done);
    assert!(events.is_empty());
    assert!(st.monitor.is_none());
}

#[test]
fn done_with_handler_and_nothing_known_reports_every_workspace_as_added() {
    let mut st = fixture();
    let events = st.done(true);
    assert_eq!(kinds(&events), vec![s("added 3"), s("added work"), s("added 1"), s("added 2")]);
    let m = st.monitor.as_ref().unwrap();
    assert_eq!(m.format, None);
    assert_eq!(m.known_workspaces, vec![12, 13, 10, 11]);
    // The workspaces are now known: an unchanged round reports nothing.
    assert!(st.done(true).is_empty());
}

#[test]
fn first_round_after_start_reports_nothing_when_unchanged() {
    let mut st = fixture();
    st.start_monitor(OutputFormat::Human);
    let events = st.done(false);
    assert!(events.is_empty());
}

#[test]
fn only_changed_workspaces_are_updated() {
    let mut st = fixture();
    st.start_monitor(OutputFormat::Human);
    st.workspace_state[3].pinned = true;
    st.workspace_state[2].active = false;
    let events = st.done(false);
    assert_eq!(kinds(&events), vec![s("updated 1"), s("updated 2")]);
    match &events[1] {
        MonitorEvent::WorkspaceUpdated { workspace } => assert!(workspace.pinned),
        other => panic!("unexpected event {other:?}"),
    }
    // The change was kept: the next round over the same state reports nothing.
    assert!(st.done(false).is_empty());
    // Moving a workspace to another output changes its report.
    st.workspace_groups[0].workspaces.retain(|h| *h != 11);
    st.workspace_groups[1].workspaces.push(11);
    let moved = st.done(false);
    assert_eq!(kinds(&moved), vec![s("updated 2")]);
    match &moved[0] {
        MonitorEvent::WorkspaceUpdated { workspace } => {
            assert_eq!(workspace.output, Some(s("HDMI-A-1")));
            assert_eq!(workspace.group_id, "g2");
        },
        other => panic!("unexpected event {other:?}"),
    }
}

#[test]
fn round_reports_added_updated_then_removed() {
    let mut st = fixture();
    st.start_monitor(OutputFormat::Json);
    // Workspace "3" (12) disappears, a new one (14) appears, "2" becomes active.
    st.workspace_state.remove(0);
    st.workspace_state.push(ws(14, "5", vec![3], false, false, true));
    st.workspace_groups[0].workspaces.push(14);
    st.workspace_state[2].active = true;
    let events = st.done(false);
    assert_eq!(kinds(&events), vec![s("added 5"), s("updated 2"), s("removed 3")]);
    match &events[2] {
        MonitorEvent::WorkspaceRemoved { name, id } => {
            assert_eq!(name, "3");
            assert_eq!(id, &None);
        },
        other => panic!("unexpected event {other:?}"),
    }
    let m = st.monitor.as_ref().unwrap();
    assert_eq!(m.known_workspaces, vec![13, 10, 11, 14]);
    assert_eq!(m.workspace_snapshots.len(), 4);
    assert_eq!(m.workspace_snapshots[3].json.name, "5");
    assert_eq!(m.format, Some(OutputFormat::Json));
    // The next round over the same workspaces reports nothing.
    let again = st.done(false);
    assert!(again.is_empty());
}

#[test]
fn library_subscription_diffs_like_the_cli() {
    let mut st = fixture();
    st.start_subscription();
    assert_eq!(st.monitor.as_ref().unwrap().format, None);
    // "work" (13) stays unchanged, "2" (11) is renamed, "3" (12) disappears.
    st.workspace_state[3].name = s("two");
    st.workspace_state.remove(0);
    let events = st.done(true);
    assert_eq!(kinds(&events), vec![s("updated two"), s("removed 3")]);
    let m = st.monitor.as_ref().unwrap();
    assert_eq!(m.known_workspaces, vec![13, 10, 11]);
    // A removal is reported under the name it last had.
    st.workspace_state.pop();
    let events = st.done(true);
    assert_eq!(kinds(&events), vec![s("removed two")]);
}

#[test]
fn removed_workspace_keeps_its_last_name_and_id() {
    let mut st = fixture();
    st.start_monitor(OutputFormat::Human);
    st.workspace_state[2].name = s("renamed");
    let _ = st.done(false);
    st.workspace_state.remove(2);
    let events = st.done(false);
    match events.last().unwrap() {
        MonitorEvent::WorkspaceRemoved { name, id } => {
            assert_eq!(name, "renamed");
            assert_eq!(id, &Some(s("ws-1")));
        },
        other => panic!("unexpected event {other:?}"),
    }
}

#[test]
fn unknown_removed_workspace_is_reported_as_unknown() {
    let mut st = fixture();
    st.monitor = Some(MonitorConfig {
        format: Some(OutputFormat::Human),
        known_workspaces: vec![77],
        workspace_snapshots: vec![],
    });
    let events = st.done(false);
    match events.last().unwrap() {
        MonitorEvent::WorkspaceRemoved { name, id } => {
            assert_eq!(name, "<unknown>");
            assert_eq!(id, &None);
        },
        other => panic!("unexpected event {other:?}"),
    }
}

#[test]
fn known_workspace_without_snapshot_is_updated() {
    let mut st = fixture();
    st.monitor = Some(MonitorConfig {
        format: Some(OutputFormat::Human),
        known_workspaces: vec![11],
        workspace_snapshots: vec![],
    });
    let events = st.done(false);
    assert_eq!(kinds(&events), vec![s("added 3"), s("added work"), s("added 1"), s("updated 2")]);
}

#[test]
fn handler_errors_are_kept_until_surfaced() {
    assert_eq!(after_handler(None, Ok(())), None);
    assert_eq!(after_handler(None, Err(Error::Other(s("stop")))), Some(Error::Other(s("stop"))));
    assert_eq!(after_handler(Some(Error::Other(s("a"))), Ok(())), Some(Error::Other(s("a"))));
    assert_eq!(
        after_handler(Some(Error::Other(s("a"))), Err(Error::Other(s("b")))),
        Some(Error::Other(s("b")))
    );
}

#[test]
fn monitor_config_starts_empty() {
    let m = MonitorConfig::new(OutputFormat::PrettyJson);
    assert_eq!(m.format, Some(OutputFormat::PrettyJson));
    assert!(m.known_workspaces.is_empty());
    assert!(m.workspace_snapshots.is_empty());
}

#[test]
fn window_events() {
    let mut st = fixture();
    assert_eq!(st.new_toplevel(100, false), None);
    let opened = st.new_toplevel(100, true).unwrap();
    assert_eq!(kinds(&[opened]), vec![s("opened kitty")]);
    st.start_monitor(OutputFormat::Human);
    let updated = st.update_toplevel(102, false).unwrap();
    match updated {
        MonitorEvent::WindowUpdated { window } => assert_eq!(window.state, vec![s("maximized")]),
        other => panic!("unexpected event {other:?}"),
    }
    let closed = st.toplevel_closed(101, false).unwrap();
    assert_eq!(
        closed,
        MonitorEvent::WindowClosed { title: s("Firefox"), app_id: s("firefox"), identifier: s("b") }
    );
    assert_eq!(st.toplevel_closed(999, false), None);
}

#[test]
fn sync_needs_both_snapshots() {
    let mut st = fixture();
    assert!(!st.sync_complete());
    let _ = st.done(false);
    assert!(!st.sync_complete());
    st.info_done();
    assert!(st.toplevels_done);
    assert!(st.sync_complete());
}

#[test]
fn event_lines_match_the_readme() {
    assert_eq!(
        event_line(&MonitorEvent::WorkspaceUpdated {
            workspace: report("1", true, false, Some("enabled"), Some("DP-1"))
        }),
        "workspace-updated 1 * [tiling: enabled] on DP-1"
    );
    assert_eq!(
        event_line(&MonitorEvent::WindowOpened { window: window("Firefox", "firefox", vec![]) }),
        "window-opened     \"Firefox\" (firefox)"
    );
    assert_eq!(
        event_line(&MonitorEvent::WindowUpdated {
            window: window("Firefox — GitHub", "firefox", vec![s("activated")])
        }),
        "window-updated    \"Firefox — GitHub\" (firefox) [activated]"
    );
    assert_eq!(
        event_line(&MonitorEvent::WindowClosed {
            title: s("Firefox — GitHub"),
            app_id: s("firefox"),
            identifier: s("x")
        }),
        "window-closed     \"Firefox — GitHub\" (firefox)"
    );
    assert_eq!(
        event_line(&MonitorEvent::WorkspaceAdded { workspace: report("5", false, false, None, Some("DP-1")) }),
        "workspace-added   5 on DP-1"
    );
    assert_eq!(
        event_line(&MonitorEvent::WorkspaceRemoved { name: s("5"), id: None }),
        "workspace-removed 5"
    );
}

#[test]
fn added_event_line_omits_pinned() {
    assert_eq!(
        event_line(&MonitorEvent::WorkspaceAdded { workspace: report("7", true, true, Some("disabled"), None) }),
        "workspace-added   7 * [tiling: disabled]"
    );
    assert_eq!(
        event_line(&MonitorEvent::WorkspaceUpdated { workspace: report("7", false, true, None, None) }),
        "workspace-updated 7 [pinned]"
    );
    assert_eq!(
        event_line(&MonitorEvent::WindowOpened {
            window: window("a", "b", vec![s("maximized"), s("activated")])
        }),
        "window-opened     \"a\" (b) [maximized, activated]"
    );
}
