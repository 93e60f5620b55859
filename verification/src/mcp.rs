//! The MCP server's own logic: parsing tool parameters, the resources it
//! serves, the output a capture tool picks, and the replies of the input
//! tools.

use vstd::prelude::*;
use crate::cli::{capture_output_handle, spec_capture_output};
use crate::input::{KeyAction, MouseButton};
use crate::state::AppData;
use crate::text::{
    decimal, hex, push_decimal, push_hex, push_signed_decimal, push_str, signed_decimal,
    string_from_chars, to_owned_string,
};

verus! {

/// How a button name parses: `left`, `right` and `middle`, lower case or
/// capitalized.
pub open spec fn spec_parse_button(s: Seq<char>) -> Result<MouseButton, Seq<char>> {
    if s == "left"@ || s == "Left"@ {
        Ok(MouseButton::Left)
    } else if s == "right"@ || s == "Right"@ {
        Ok(MouseButton::Right)
    } else if s == "middle"@ || s == "Middle"@ {
        Ok(MouseButton::Middle)
    } else {
        Err("unknown button '"@ + s + "'; use left, right, or middle"@)
    }
}

fn is(s: &str, lit: &str) -> (r: bool)
    ensures
        r == (s@ == lit@),
{
    to_owned_string(s) == to_owned_string(lit)
}

/// Parse a button name of a tool call; the error is the invalid-parameter
/// message.
pub fn parse_button(s: &str) -> (r: Result<MouseButton, String>)
    ensures
        match (r, spec_parse_button(s@)) {
            (Ok(b), Ok(c)) => b == c,
            (Err(m), Err(n)) => m@ == n,
            _ => false,
        },
{
    if is(s, "left") || is(s, "Left") {
        Ok(MouseButton::Left)
    } else if is(s, "right") || is(s, "Right") {
        Ok(MouseButton::Right)
    } else if is(s, "middle") || is(s, "Middle") {
        Ok(MouseButton::Middle)
    } else {
        let mut m: Vec<char> = Vec::new();
        push_str(&mut m, "unknown button '");
        push_str(&mut m, s);
        push_str(&mut m, "'; use left, right, or middle");
        assert(m@ =~= "unknown button '"@ + s@ + "'; use left, right, or middle"@);
        Err(string_from_chars(&m))
    }
}

/// How an action name parses: `tap`, `press` or `release`.
pub open spec fn spec_parse_action(s: Seq<char>) -> Result<KeyAction, Seq<char>> {
    if s == "tap"@ {
        Ok(KeyAction::Tap)
    } else if s == "press"@ {
        Ok(KeyAction::Press)
    } else if s == "release"@ {
        Ok(KeyAction::Release)
    } else {
        Err("unknown action '"@ + s + "'; use tap, press, or release"@)
    }
}

/// Parse an action name of a tool call; the error is the invalid-parameter
/// message.
pub fn parse_action(s: &str) -> (r: Result<KeyAction, String>)
    ensures
        match (r, spec_parse_action(s@)) {
            (Ok(a), Ok(b)) => a == b,
            (Err(m), Err(n)) => m@ == n,
            _ => false,
        },
{
    if is(s, "tap") {
        Ok(KeyAction::Tap)
    } else if is(s, "press") {
        Ok(KeyAction::Press)
    } else if is(s, "release") {
        Ok(KeyAction::Release)
    } else {
        let mut m: Vec<char> = Vec::new();
        push_str(&mut m, "unknown action '");
        push_str(&mut m, s);
        push_str(&mut m, "'; use tap, press, or release");
        assert(m@ =~= "unknown action '"@ + s@ + "'; use tap, press, or release"@);
        Err(string_from_chars(&m))
    }
}

// ── Resources ───────────────────────────────────────────────────────────────

/// A resource the server serves: the JSON of one query.
#[derive(Debug, Clone, Copy, PartialEq, Eq, Structural)]
pub enum ResourceKind {
    Workspaces,
    Toplevels,
    Outputs,
    Tree,
}

/// The resource a URI names, or the error for any other URI.
pub open spec fn spec_resource_kind(uri: Seq<char>) -> Result<ResourceKind, Seq<char>> {
    if uri == "cosmic://workspaces"@ {
        Ok(ResourceKind::Workspaces)
    } else if uri == "cosmic://toplevels"@ {
        Ok(ResourceKind::Toplevels)
    } else if uri == "cosmic://outputs"@ {
        Ok(ResourceKind::Outputs)
    } else if uri == "cosmic://tree"@ {
        Ok(ResourceKind::Tree)
    } else {
        Err("unknown resource: "@ + uri)
    }
}

/// The resource a URI names.
pub fn resource_kind(uri: &str) -> (r: Result<ResourceKind, String>)
    ensures
        match (r, spec_resource_kind(uri@)) {
            (Ok(a), Ok(b)) => a == b,
            (Err(m), Err(n)) => m@ == n,
            _ => false,
        },
{
    if is(uri, "cosmic://workspaces") {
        Ok(ResourceKind::Workspaces)
    } else if is(uri, "cosmic://toplevels") {
        Ok(ResourceKind::Toplevels)
    } else if is(uri, "cosmic://outputs") {
        Ok(ResourceKind::Outputs)
    } else if is(uri, "cosmic://tree") {
        Ok(ResourceKind::Tree)
    } else {
        let mut m: Vec<char> = Vec::new();
        push_str(&mut m, "unknown resource: ");
        push_str(&mut m, uri);
        assert(m@ =~= "unknown resource: "@ + uri@);
        Err(string_from_chars(&m))
    }
}

/// A resource as the server lists it.
#[derive(Debug, Clone, PartialEq, Eq)]
pub struct ResourceInfo {
    pub uri: String,
    pub name: String,
    pub description: String,
    pub mime_type: String,
}

/// The listed resources as (URI, name, description, MIME type).
pub open spec fn spec_resource_catalog() -> Seq<(Seq<char>, Seq<char>, Seq<char>, Seq<char>)> {
    seq![
        (
            "cosmic://workspaces"@,
            "workspaces"@,
            "All COSMIC workspaces with their current state"@,
            "application/json"@,
        ),
        (
            "cosmic://toplevels"@,
            "toplevels"@,
            "All open windows (toplevels) with their current state"@,
            "application/json"@,
        ),
        (
            "cosmic://outputs"@,
            "outputs"@,
            "All connected monitors with resolution and position"@,
            "application/json"@,
        ),
        (
            "cosmic://tree"@,
            "tree"@,
            "Full compositor tree: outputs → workspaces → windows"@,
            "application/json"@,
        ),
    ]
}

fn resource(uri: &str, name: &str, description: &str) -> (r: ResourceInfo)
    ensures
        (r.uri@, r.name@, r.description@, r.mime_type@) == (uri@, name@, description@, "application/json"@),
{
    ResourceInfo {
        uri: to_owned_string(uri),
        name: to_owned_string(name),
        description: to_owned_string(description),
        mime_type: to_owned_string("application/json"),
    }
}

/// The resources the server lists, in order.
pub fn resource_catalog() -> (r: Vec<ResourceInfo>)
    ensures
        r@.map_values(
            |i: ResourceInfo| (i.uri@, i.name@, i.description@, i.mime_type@),
        ) == spec_resource_catalog(),
{
    let mut r: Vec<ResourceInfo> = Vec::new();
    r.push(resource("cosmic://workspaces", "workspaces", "All COSMIC workspaces with their current state"));
    r.push(
        resource("cosmic://toplevels", "toplevels", "All open windows (toplevels) with their current state"),
    );
    r.push(resource("cosmic://outputs", "outputs", "All connected monitors with resolution and position"));
    r.push(resource("cosmic://tree", "tree", "Full compositor tree: outputs → workspaces → windows"));
    assert(r@.map_values(|i: ResourceInfo| (i.uri@, i.name@, i.description@, i.mime_type@))
        =~= spec_resource_catalog());
    r
}

// ── Capture tools ───────────────────────────────────────────────────────────

/// The output a capture tool picks, or its error message.
pub open spec fn spec_tool_output(st: AppData, name: Option<Seq<char>>) -> Result<u32, Seq<char>> {
    match spec_capture_output(st.output_state@, name) {
        Some(h) => Ok(h),
        None => match name {
            Some(n) => Err("output '"@ + n + "' not found"@),
            None => Err("no outputs available"@),
        },
    }
}

/// The output the output capture tool picks: the named one or the first.
pub fn tool_output(state: &AppData, name: Option<&str>) -> (r: Result<u32, String>)
    ensures
        match (r, spec_tool_output(*state, match name {
            Some(n) => Some(n@),
            None => None,
        })) {
            (Ok(a), Ok(b)) => a == b,
            (Err(m), Err(n)) => m@ == n,
            _ => false,
        },
{
    match capture_output_handle(state, name) {
        Some(h) => Ok(h),
        None => match name {
            Some(n) => {
                let mut m: Vec<char> = Vec::new();
                push_str(&mut m, "output '");
                push_str(&mut m, n);
                push_str(&mut m, "' not found");
                assert(m@ =~= "output '"@ + n@ + "' not found"@);
                Err(string_from_chars(&m))
            },
            None => Err(to_owned_string("no outputs available")),
        },
    }
}

// ── Replies of the input tools ──────────────────────────────────────────────

/// `"{action} {button} clicked"`, with both names as the caller gave them.
pub fn click_reply(action: &str, button: &str) -> (r: String)
    ensures
        r@ == action@ + " "@ + button@ + " clicked"@,
{
    let mut m: Vec<char> = Vec::new();
    push_str(&mut m, action);
    push_str(&mut m, " ");
    push_str(&mut m, button);
    push_str(&mut m, " clicked");
    assert(m@ =~= action@ + " "@ + button@ + " clicked"@);
    string_from_chars(&m)
}

/// `"button 0x{code:x} {action}"`.
pub fn click_code_reply(code: u32, action: &str) -> (r: String)
    ensures
        r@ == "button 0x"@ + hex(code as nat) + " "@ + action@,
{
    let mut m: Vec<char> = Vec::new();
    push_str(&mut m, "button 0x");
    push_hex(&mut m, code);
    push_str(&mut m, " ");
    push_str(&mut m, action);
    assert(m@ =~= "button 0x"@ + hex(code as nat) + " "@ + action@);
    string_from_chars(&m)
}

/// `"keycode {keycode} {action}"`.
pub fn key_reply(keycode: i32, action: &str) -> (r: String)
    ensures
        r@ == "keycode "@ + signed_decimal(keycode as int) + " "@ + action@,
{
    let mut m: Vec<char> = Vec::new();
    push_str(&mut m, "keycode ");
    push_signed_decimal(&mut m, keycode as i64);
    push_str(&mut m, " ");
    push_str(&mut m, action);
    assert(m@ =~= "keycode "@ + signed_decimal(keycode as int) + " "@ + action@);
    string_from_chars(&m)
}

/// `"keysym 0x{keysym:x} {action}"`.
pub fn keysym_reply(keysym: u32, action: &str) -> (r: String)
    ensures
        r@ == "keysym 0x"@ + hex(keysym as nat) + " "@ + action@,
{
    let mut m: Vec<char> = Vec::new();
    push_str(&mut m, "keysym 0x");
    push_hex(&mut m, keysym);
    push_str(&mut m, " ");
    push_str(&mut m, action);
    assert(m@ =~= "keysym 0x"@ + hex(keysym as nat) + " "@ + action@);
    string_from_chars(&m)
}

/// `"typed: {text}"`.
pub fn typed_reply(text: &str) -> (r: String)
    ensures
        r@ == "typed: "@ + text@,
{
    let mut m: Vec<char> = Vec::new();
    push_str(&mut m, "typed: ");
    push_str(&mut m, text);
    assert(m@ =~= "typed: "@ + text@);
    string_from_chars(&m)
}

/// `"touch up slot {slot}"`, or `"touch cancel slot {slot}"` when cancelled.
pub fn touch_end_reply(slot: u32, cancelled: bool) -> (r: String)
    ensures
        r@ == (if cancelled {
            "touch cancel slot "@
        } else {
            "touch up slot "@
        }) + decimal(slot as nat),
{
    let mut m: Vec<char> = Vec::new();
    if cancelled {
        push_str(&mut m, "touch cancel slot ");
    } else {
        push_str(&mut m, "touch up slot ");
    }
    push_decimal(&mut m, slot as u64);
    string_from_chars(&m)
}

} // verus!
