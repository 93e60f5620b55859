use cosmicmsg::cli::{CaptureCommand, CaptureTarget, Cli, Command, capture_target, exit_code};
use cosmicmsg::input::{KeyAction, MouseButton};
use cosmicmsg::mcp::{
    ResourceKind, click_code_reply, click_reply, key_reply, keysym_reply, parse_action,
    parse_button, resource_catalog, resource_kind, tool_output, touch_end_reply, typed_reply,
};
use cosmicmsg::state::{AppData, Mode, Output, OutputInfo, ToplevelInfo, Transform, Workspace};
use cosmicmsg::{Error, OutputFormat};

fn s(x: &str) -> String {
    x.to_string()
}

fn output(handle: u32, name: Option<&str>) -> Output {
    Output {
        handle,
        info: Some(OutputInfo {
            name: name.map(s),
            description: None,
            make: s(""),
            model: s(""),
            x: 0,
            y: 0,
            scale_factor: 1,
            transform: Transform::Normal,
            modes: vec![Mode { width: 1, height: 1, refresh_rate: 60000, current: true }],
        }),
    }
}

fn state() -> AppData {
    let w = Workspace {
        handle: 10,
        has_cosmic_handle: true,
        name: s("main"),
        coordinates: vec![0],
        active: true,
        urgent: false,
        hidden: false,
        pinned: false,
        tiling: None,
        id: None,
    };
    let t = ToplevelInfo {
        handle: 100,
        title: s("Terminal"),
        app_id: s("term"),
        identifier: s("t1"),
        state: vec![],
        output: vec![2],
        workspace: vec![10],
        has_cosmic_handle: true,
    };
    AppData::new(
        vec![Output { handle: 1, info: None }, output(2, Some("DP-1")), output(3, Some("HDMI-A-1"))],
        vec![],
        vec![w],
        vec![],
        vec![t],
        true,
    )
}

fn out_cmd(name: Option<&str>) -> CaptureCommand {
    CaptureCommand::Output { output: name.map(s), file: None, cursor: false, scale: None }
}

#[test]
fn json_flag_wins() {
    let cli = |json, pretty| Cli { json, pretty, command: Command::GetTree };
    assert_eq!(cli(true, false).format(), OutputFormat::Json);
    assert_eq!(cli(true, true).format(), OutputFormat::Json);
    assert_eq!(cli(false, true).format(), OutputFormat::PrettyJson);
    assert_eq!(cli(false, false).format(), OutputFormat::Human);
}

#[test]
fn exit_codes_follow_the_error_kind() {
    assert_eq!(exit_code(&Error::Connect(s("x"))), 1);
    assert_eq!(exit_code(&Error::ProtocolNotAvailable(s("x"))), 2);
    assert_eq!(exit_code(&Error::NotFound(s("x"))), 3);
    assert_eq!(exit_code(&Error::AmbiguousMatch(s("x"))), 4);
    assert_eq!(exit_code(&Error::Other(s("x"))), 5);
}

#[test]
fn error_messages() {
    assert_eq!(Error::Connect(s("no socket")).message(), "failed to connect to Wayland display: no socket");
    assert_eq!(Error::ProtocolNotAvailable(s("p")).message(), "protocol not available: p");
    assert_eq!(Error::Other(s("plain")).message(), "plain");
}

#[test]
fn capture_output_by_name_or_first() {
    let st = state();
    assert_eq!(capture_target(&st, &out_cmd(Some("HDMI-A-1"))), Ok(CaptureTarget::Output(3)));
    // The first output, even without info.
    assert_eq!(capture_target(&st, &out_cmd(None)), Ok(CaptureTarget::Output(1)));
    assert_eq!(capture_target(&st, &out_cmd(Some("eDP-1"))), Err(Error::NotFound(s("output 'eDP-1'"))));
    let empty = AppData::new(vec![], vec![], vec![], vec![], vec![], false);
    assert_eq!(capture_target(&empty, &out_cmd(None)), Err(Error::NotFound(s("no outputs available"))));
}

#[test]
fn capture_window_and_workspace_targets() {
    let st = state();
    let w = CaptureCommand::Window { selector: s("term"), file: None, cursor: true, scale: Some(s("50%")) };
    assert_eq!(capture_target(&st, &w), Ok(CaptureTarget::Toplevel(100)));
    let ws = CaptureCommand::Workspace { workspace: s("MAI"), file: Some(s("a.png")), cursor: false, scale: None };
    assert_eq!(capture_target(&st, &ws), Ok(CaptureTarget::Workspace(10)));
    let missing = CaptureCommand::Window { selector: s("zzz"), file: None, cursor: false, scale: None };
    assert_eq!(capture_target(&st, &missing), Err(Error::NotFound(s("no window matching 'zzz'"))));
}

#[test]
fn tool_output_messages() {
    let st = state();
    assert_eq!(tool_output(&st, Some("DP-1")), Ok(2));
    assert_eq!(tool_output(&st, Some("X")), Err(s("output 'X' not found")));
    let empty = AppData::new(vec![], vec![], vec![], vec![], vec![], false);
    assert_eq!(tool_output(&empty, None), Err(s("no outputs available")));
}

#[test]
fn button_names() {
    assert_eq!(parse_button("left"), Ok(MouseButton::Left));
    assert_eq!(parse_button("Right"), Ok(MouseButton::Right));
    assert_eq!(parse_button("middle"), Ok(MouseButton::Middle));
    assert_eq!(parse_button("LEFT"), Err(s("unknown button 'LEFT'; use left, right, or middle")));
}

#[test]
fn action_names() {
    assert_eq!(parse_action("tap"), Ok(KeyAction::Tap));
    assert_eq!(parse_action("press"), Ok(KeyAction::Press));
    assert_eq!(parse_action("release"), Ok(KeyAction::Release));
    assert_eq!(parse_action("Tap"), Err(s("unknown action 'Tap'; use tap, press, or release")));
}

#[test]
fn resources() {
    assert_eq!(resource_kind("cosmic://workspaces"), Ok(ResourceKind::Workspaces));
    assert_eq!(resource_kind("cosmic://toplevels"), Ok(ResourceKind::Toplevels));
    assert_eq!(resource_kind("cosmic://outputs"), Ok(ResourceKind::Outputs));
    assert_eq!(resource_kind("cosmic://tree"), Ok(ResourceKind::Tree));
    assert_eq!(resource_kind("cosmic://nope"), Err(s("unknown resource: cosmic://nope")));
    let catalog = resource_catalog();
    let uris: Vec<String> = catalog.iter().map(|r| r.uri.clone()).collect();
    assert_eq!(uris, vec![s("cosmic://workspaces"), s("cosmic://toplevels"), s("cosmic://outputs"), s("cosmic://tree")]);
    assert!(catalog.iter().all(|r| r.mime_type == "application/json"));
    assert_eq!(catalog[3].description, "Full compositor tree: outputs → workspaces → windows");
}

#[test]
fn tool_replies() {
    assert_eq!(click_reply("tap", "left"), "tap left clicked");
    assert_eq!(click_code_reply(0x113, "press"), "button 0x113 press");
    assert_eq!(click_code_reply(0, "tap"), "button 0x0 tap");
    assert_eq!(key_reply(-5, "release"), "keycode -5 release");
    assert_eq!(keysym_reply(0xff0d, "tap"), "keysym 0xff0d tap");
    assert_eq!(typed_reply("git status"), "typed: git status");
    assert_eq!(touch_end_reply(3, false), "touch up slot 3");
    assert_eq!(touch_end_reply(0, true), "touch cancel slot 0");
}
