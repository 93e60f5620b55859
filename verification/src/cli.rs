//! The command line: its commands, the output format its flags select,
//! the exit code of each error, and which object a capture command targets.

use vstd::prelude::*;
use crate::input::InputCommand;
use crate::seqs::first_index;
use crate::state::{AppData, Output, output_name_of};
use crate::text::{push_str, string_from_chars, to_owned_string};
use crate::toplevels::{WindowCommand, lemma_resolve_toplevel_bounds, resolve_toplevel_pub, spec_resolve_toplevel};
use crate::types::{Error, ErrorView, OutputFormat, not_found_error, result_view};
use crate::workspaces::{
    WorkspaceCommand, lemma_resolve_workspace_bounds, resolve_workspace_pub, spec_resolve_workspace,
};

verus! {

/// Query and control the COSMIC desktop.
#[derive(Debug, Clone, PartialEq, Eq)]
pub struct Cli {
    /// Output raw JSON (machine-readable, compact)
    pub json: bool,
    /// Output pretty-printed JSON
    pub pretty: bool,
    pub command: Command,
}

/// A command of the command line.
#[derive(Debug, Clone, PartialEq, Eq)]
pub enum Command {
    /// List all connected outputs
    GetOutputs,
    /// List all workspaces with their state
    GetWorkspaces,
    /// List all open windows (toplevels) with their state
    GetToplevels,
    /// Show a tree of outputs → workspaces → windows
    GetTree,
    /// Subscribe to compositor events and print them as they arrive.
    Subscribe,
    /// Screen/window/workspace capture
    Capture(CaptureCommand),
    /// Workspace management commands
    Workspace(WorkspaceCommand),
    /// Window management commands
    Window(WindowCommand),
    /// Start an MCP server over stdio
    Serve,
    /// Remote input via the XDG Remote Desktop portal
    Input(InputCommand),
}

/// A capture subcommand.
#[derive(Debug, Clone, PartialEq, Eq)]
pub enum CaptureCommand {
    /// Capture an output (monitor) to a PNG file or stdout
    Output {
        /// Output name (e.g. DP-1). Defaults to the first output.
        output: Option<String>,
        /// Write PNG to this file path instead of stdout
        file: Option<String>,
        /// Paint the cursor onto the captured image
        cursor: bool,
        /// Scale factor: 0.0–1.0 or percentage (e.g. 0.5 or 50%)
        scale: Option<String>,
    },
    /// Capture a window to a PNG file or stdout
    Window {
        /// Window title, app-id, or identifier (substring match)
        selector: String,
        file: Option<String>,
        cursor: bool,
        scale: Option<String>,
    },
    /// Capture a workspace to a PNG file or stdout
    Workspace {
        /// Workspace name or id
        workspace: String,
        file: Option<String>,
        cursor: bool,
        scale: Option<String>,
    },
}

/// The output format the flags select: JSON wins over pretty JSON, and
/// human text is the default.
pub open spec fn spec_output_format(json: bool, pretty: bool) -> OutputFormat {
    if json {
        OutputFormat::Json
    } else if pretty {
        OutputFormat::PrettyJson
    } else {
        OutputFormat::Human
    }
}

impl Cli {
    /// The output format the flags select.
    pub fn format(&self) -> (r: OutputFormat)
        ensures
            r == spec_output_format(self.json, self.pretty),
    {
        if self.json {
            OutputFormat::Json
        } else if self.pretty {
            OutputFormat::PrettyJson
        } else {
            OutputFormat::Human
        }
    }
}

/// The process exit code of an error.
pub open spec fn spec_exit_code(e: ErrorView) -> i32 {
    match e {
        ErrorView::Connect(_) => 1,
        ErrorView::ProtocolNotAvailable(_) => 2,
        ErrorView::NotFound(_) => 3,
        ErrorView::AmbiguousMatch(_) => 4,
        ErrorView::Other(_) => 5,
    }
}

/// The process exit code of an error: one per kind, from 1 to 5.
pub fn exit_code(e: &Error) -> (r: i32)
    ensures
        r == spec_exit_code(e@),
        1 <= r <= 5,
{
    match e {
        Error::Connect(_) => 1,
        Error::ProtocolNotAvailable(_) => 2,
        Error::NotFound(_) => 3,
        Error::AmbiguousMatch(_) => 4,
        Error::Other(_) => 5,
    }
}

// ── Capture targets ─────────────────────────────────────────────────────────

/// What a capture command captures, by protocol id.
#[derive(Debug, Clone, Copy, PartialEq, Eq, Structural)]
pub enum CaptureTarget {
    Output(u32),
    Toplevel(u32),
    Workspace(u32),
}

/// The output is named `name`.
pub open spec fn output_named(outputs: Seq<Output>, name: Seq<char>) -> spec_fn(Output) -> bool {
    |o: Output| output_name_of(outputs, o.handle) == Some(name)
}

/// Position of the first output whose name is `name`.
pub open spec fn named_output_index(outputs: Seq<Output>, name: Seq<char>) -> Option<int> {
    first_index(outputs, output_named(outputs, name))
}

/// The output a capture picks: the first one named `name`, or the first one
/// when no name is given.
pub open spec fn spec_capture_output(outputs: Seq<Output>, name: Option<Seq<char>>) -> Option<u32> {
    match name {
        Some(n) => match named_output_index(outputs, n) {
            Some(i) => Some(outputs[i].handle),
            None => None,
        },
        None => if outputs.len() > 0 {
            Some(outputs[0].handle)
        } else {
            None
        },
    }
}

fn name_matches(state: &AppData, i: usize, name: &str) -> (r: bool)
    requires
        i < state.output_state.len(),
    ensures
        r == (output_name_of(state.output_state@, state.output_state@[i as int].handle) == Some(name@)),
{
    match crate::state::output_name(&state.output_state, state.output_state[i].handle) {
        Some(n) => n == to_owned_string(name),
        None => false,
    }
}

/// The handle of the output a capture picks, if there is one.
pub fn capture_output_handle(state: &AppData, name: Option<&str>) -> (r: Option<u32>)
    ensures
        r == spec_capture_output(state.output_state@, match name {
            Some(n) => Some(n@),
            None => None,
        }),
{
    match name {
        None => {
            if state.output_state.len() > 0 {
                Some(state.output_state[0].handle)
            } else {
                None
            }
        },
        Some(n) => {
            let outs = &state.output_state;
            let ghost p = output_named(outs@, n@);
            let mut i: usize = 0;
            while i < outs.len()
                invariant
                    i <= outs.len(),
                    outs == &state.output_state,
                    p == output_named(outs@, n@),
                    name == Some(n),
                    first_index(outs@.take(i as int), p) is None,
                decreases outs.len() - i,
            {
                proof {
                    crate::seqs::lemma_first_index_step(outs@, i as int, p);
                }
                if name_matches(state, i, n) {
                    proof {
                        assert(p(outs@[i as int]));
                        crate::seqs::lemma_first_index_prefix(outs@, i as int + 1, p);
                        assert(named_output_index(outs@, n@) == Some(i as int));
                    }
                    return Some(outs[i].handle);
                }
                i = i + 1;
            }
            assert(outs@.take(outs.len() as int) =~= outs@);
            None
        },
    }
}

/// The target of a capture command: the named or first output, or the
/// window or workspace its selector picks.
pub open spec fn spec_capture_target(st: AppData, cmd: CaptureCommand) -> Result<CaptureTarget, ErrorView> {
    match cmd {
        CaptureCommand::Output { output, .. } => match spec_capture_output(
            st.output_state@,
            output.deep_view(),
        ) {
            Some(h) => Ok(CaptureTarget::Output(h)),
            None => match output {
                Some(name) => Err(ErrorView::NotFound("output '"@ + name@ + "'"@)),
                None => Err(ErrorView::NotFound("no outputs available"@)),
            },
        },
        CaptureCommand::Window { selector, .. } => match spec_resolve_toplevel(
            st.toplevel_info_state@,
            selector@,
        ) {
            Ok(i) => Ok(CaptureTarget::Toplevel(st.toplevel_info_state@[i as int].handle)),
            Err(e) => Err(e),
        },
        CaptureCommand::Workspace { workspace, .. } => match spec_resolve_workspace(
            st.workspace_state@,
            workspace@,
        ) {
            Ok(i) => Ok(CaptureTarget::Workspace(st.workspace_state@[i as int].handle)),
            Err(e) => Err(e),
        },
    }
}

/// Decide what a capture command captures.
pub fn capture_target(state: &AppData, cmd: &CaptureCommand) -> (r: Result<CaptureTarget, Error>)
    ensures
        result_view(r) == spec_capture_target(*state, *cmd),
{
    match cmd {
        CaptureCommand::Output { output, .. } => {
            let name: Option<&str> = match output {
                Some(s) => Some(s.as_str()),
                None => None,
            };
            match capture_output_handle(state, name) {
                Some(h) => Ok(CaptureTarget::Output(h)),
                None => match output {
                    Some(n) => {
                        let mut m: Vec<char> = Vec::new();
                        push_str(&mut m, "output '");
                        push_str(&mut m, n.as_str());
                        push_str(&mut m, "'");
                        assert(m@ =~= "output '"@ + n@ + "'"@);
                        Err(Error::NotFound(string_from_chars(&m)))
                    },
                    None => Err(not_found_error("no outputs available")),
                },
            }
        },
        CaptureCommand::Window { selector, .. } => {
            let n: usize = state.toplevel_info_state.len();
            proof {
                lemma_resolve_toplevel_bounds(state.toplevel_info_state@, selector@);
            }
            match resolve_toplevel_pub(state, selector.as_str()) {
                Ok(i) => Ok(CaptureTarget::Toplevel(state.toplevel_info_state[i].handle)),
                Err(e) => Err(e),
            }
        },
        CaptureCommand::Workspace { workspace, .. } => {
            let n: usize = state.workspace_state.len();
            proof {
                lemma_resolve_workspace_bounds(state.workspace_state@, workspace@);
            }
            match resolve_workspace_pub(state, workspace.as_str()) {
                Ok(i) => Ok(CaptureTarget::Workspace(state.workspace_state[i].handle)),
                Err(e) => Err(e),
            }
        },
    }
}

} // verus!
