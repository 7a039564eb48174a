//! The capability-gated tool dispatch engine.
//!
//! A caller builds a [`ToolInvocation`] for every action it wants to perform,
//! tags it with the active [`BindrMode`](crate::events::BindrMode), and
//! submits it to [`ToolDispatcher::review`].  The dispatcher looks the mode
//! up in the capability registry and either refuses the action or allows
//! it, together with a flag saying whether a human must confirm it before
//! it runs.

pub mod capabilities;
pub mod dispatcher;

use vstd::prelude::*;

use crate::events::BindrMode;

pub use capabilities::ModeCapabilities;
pub use capabilities::ToolKind;
pub use dispatcher::ToolDispatcher;

verus! {

/// One concrete, parameterized request to perform a tool action in one mode.
#[derive(Debug, Clone)]
pub struct ToolInvocation {
    /// The tool to run, with its parameters.
    pub tool: BindrTool,
    /// The workflow mode that was active when the request was made.
    pub mode: BindrMode,
    /// A human-readable summary, shown when the user is asked to approve.
    pub description: String,
}

impl ToolInvocation {
    /// Packages a tool request with the mode it was made in and a
    /// human-readable summary.
    pub fn new(tool: BindrTool, mode: BindrMode, description: String) -> (r: Self)
        ensures
            r.tool == tool,
            r.mode == mode,
            r.description == description,
    {
        ToolInvocation { tool, mode, description }
    }
}

/// The dispatcher's verdict on an accepted invocation.
#[derive(Debug, Clone)]
pub struct ToolRequestOutcome {
    /// The original invocation, passed through unchanged.
    pub invocation: ToolInvocation,
    /// Whether a human must confirm the action before it executes.
    pub requires_approval: bool,
}

/// Why the dispatcher refused to produce an outcome.
#[derive(Debug, Clone, PartialEq, Eq, Structural)]
pub enum DispatchError {
    /// The requested tool kind is not in the mode's allowed set.  This is an
    /// expected, user-facing outcome: the caller should present it as a
    /// policy rejection, not as a crash.
    PermissionDenied {
        /// The kind of tool that was requested.
        kind: ToolKind,
        /// The mode the request was made in.
        mode: BindrMode,
    },
    /// No capabilities are registered for a mode.  The registry is an
    /// exhaustive match over [`BindrMode`](crate::events::BindrMode), so a
    /// correct build never produces this; it is kept so that callers can
    /// represent the failure class distinctly from a permission issue.
    ConfigurationError {
        /// The mode that had no registry entry.
        mode: BindrMode,
    },
}

/// The eight concrete tool payloads a caller can request.
#[derive(Debug, Clone)]
pub enum BindrTool {
    /// Read a file's contents.
    ReadFile(ReadFileOptions),
    /// Write a file.
    WriteFile(WriteFileOptions),
    /// List a directory.
    ListDirectory(ListDirectoryOptions),
    /// Show a file's pending diff.
    DiffFile(DiffFileOptions),
    /// Apply a patch to a file.
    ApplyPatch(ApplyPatchOptions),
    /// Run a shell command.
    RunCommand(CommandOptions),
    /// Enumerate the available models.
    ListModels,
    /// Select the active model.
    SelectModel(ModelSelection),
}

impl BindrTool {
    /// The kind of this tool payload.  The mapping is total: every variant
    /// has exactly one kind.
    pub open spec fn kind_spec(&self) -> ToolKind {
        match self {
            BindrTool::ReadFile(_) => ToolKind::ReadFile,
            BindrTool::WriteFile(_) => ToolKind::WriteFile,
            BindrTool::ListDirectory(_) => ToolKind::ListDirectory,
            BindrTool::DiffFile(_) => ToolKind::DiffFile,
            BindrTool::ApplyPatch(_) => ToolKind::ApplyPatch,
            BindrTool::RunCommand(_) => ToolKind::RunCommand,
            BindrTool::ListModels => ToolKind::ListModels,
            BindrTool::SelectModel(_) => ToolKind::SelectModel,
        }
    }

    /// The kind of this tool payload.
    pub fn kind(&self) -> (k: ToolKind)
        ensures
            k == self.kind_spec(),
    {
        match self {
            BindrTool::ReadFile(_) => ToolKind::ReadFile,
            BindrTool::WriteFile(_) => ToolKind::WriteFile,
            BindrTool::ListDirectory(_) => ToolKind::ListDirectory,
            BindrTool::DiffFile(_) => ToolKind::DiffFile,
            BindrTool::ApplyPatch(_) => ToolKind::ApplyPatch,
            BindrTool::RunCommand(_) => ToolKind::RunCommand,
            BindrTool::ListModels => ToolKind::ListModels,
            BindrTool::SelectModel(_) => ToolKind::SelectModel,
        }
    }
}

/// Parameters for reading a file.
#[derive(Debug, Clone)]
pub struct ReadFileOptions {
    /// Path of the file to read.
    pub path: String,
    /// Upper bound on the number of bytes to read, if any.
    pub max_bytes: Option<usize>,
}

/// Parameters for writing a file.
#[derive(Debug, Clone)]
pub struct WriteFileOptions {
    /// Path of the file to write.
    pub path: String,
    /// The contents to write.
    pub contents: String,
    /// Whether to create the file when it does not exist.
    pub create_if_missing: bool,
}

/// Parameters for listing a directory.
#[derive(Debug, Clone)]
pub struct ListDirectoryOptions {
    /// Path of the directory to list.
    pub path: String,
    /// Whether to descend into subdirectories.
    pub recursive: bool,
    /// Whether to include hidden entries.
    pub include_hidden: bool,
    /// Upper bound on the number of entries, if any.
    pub max_entries: Option<usize>,
}

/// Parameters for showing a file's diff.
#[derive(Debug, Clone)]
pub struct DiffFileOptions {
    /// Path of the file to diff.
    pub path: String,
    /// How many lines of context to show around each change.
    pub context_lines: usize,
}

/// Parameters for applying a patch.
#[derive(Debug, Clone)]
pub struct ApplyPatchOptions {
    /// Path of the file to patch.
    pub path: String,
    /// The patch text.
    pub patch: String,
}

/// Parameters for running a shell command.
#[derive(Debug, Clone)]
pub struct CommandOptions {
    /// The program to run.
    pub command: String,
    /// Its arguments.
    pub args: Vec<String>,
    /// The working directory to run it in.
    pub working_dir: String,
    /// Whether the command may access the network.
    pub allow_network: bool,
}

/// Parameters for selecting the active model.
#[derive(Debug, Clone)]
pub struct ModelSelection {
    /// The provider the model belongs to.
    pub provider_id: String,
    /// The model's identifier at that provider.
    pub model_id: String,
}

} // verus!
