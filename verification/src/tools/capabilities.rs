//! The capability registry: the single source of truth for which tool kinds
//! each workflow mode permits, and which of those may run without human
//! confirmation.
//!
//! The policy is a pair of total functions over modes and tool kinds
//! ([`mode_allows`], [`mode_auto_approves`]), written as exhaustive matches
//! so that adding a mode without deciding its policy is a compile error
//! rather than a runtime gap.

use vstd::prelude::*;

use crate::events::BindrMode;

verus! {

/// The category of action a tool invocation performs.
#[derive(Debug, Clone, PartialEq, Eq, Hash, Structural)]
pub enum ToolKind {
    /// Read a file's contents.
    ReadFile,
    /// List a directory.
    ListDirectory,
    /// Show a file's pending diff.
    DiffFile,
    /// Write a file.
    WriteFile,
    /// Apply a patch to a file.
    ApplyPatch,
    /// Run a shell command.
    RunCommand,
    /// Enumerate the available models.
    ListModels,
    /// Select the active model.
    SelectModel,
}

/// The capabilities one workflow mode grants.
#[derive(Debug, Clone)]
pub struct ModeCapabilities {
    /// The tool kinds permitted in the mode.
    pub allowed_tools: Vec<ToolKind>,
    /// The subset of `allowed_tools` that executes without confirmation.
    pub auto_approve: Vec<ToolKind>,
    /// An optional provider hint for the mode.
    pub default_provider: Option<String>,
    /// An optional model hint for the mode.
    pub default_model: Option<String>,
}

/// Whether `kind` is permitted in `mode`.
///
/// This is the authoritative policy table.  Mutating tools (`WriteFile`,
/// `ApplyPatch`, `RunCommand`) are only ever permitted where the workflow
/// stage calls for them: `ApplyPatch` and `RunCommand` in `Execute`,
/// `WriteFile` in `Document`.  Read-only introspection and model selection
/// are permitted everywhere.
pub open spec fn mode_allows(mode: BindrMode, kind: ToolKind) -> bool {
    match mode {
        BindrMode::Brainstorm | BindrMode::Plan => match kind {
            ToolKind::ReadFile
            | ToolKind::ListDirectory
            | ToolKind::ListModels
            | ToolKind::SelectModel => true,
            _ => false,
        },
        BindrMode::Execute => match kind {
            ToolKind::ReadFile
            | ToolKind::ListDirectory
            | ToolKind::DiffFile
            | ToolKind::ApplyPatch
            | ToolKind::RunCommand
            | ToolKind::ListModels
            | ToolKind::SelectModel => true,
            _ => false,
        },
        BindrMode::Document => match kind {
            ToolKind::ReadFile
            | ToolKind::ListDirectory
            | ToolKind::WriteFile
            | ToolKind::DiffFile
            | ToolKind::ListModels
            | ToolKind::SelectModel => true,
            _ => false,
        },
    }
}

/// Whether `kind` executes in `mode` without human confirmation.
///
/// Only side-effect-free introspection is ever auto-approved: `ReadFile`,
/// `ListDirectory` and `ListModels` wherever they are permitted, plus
/// `DiffFile` in `Execute`.  Mutating tools always require confirmation, and
/// `SelectModel` always requires confirmation because changing the active
/// model has downstream cost implications.
pub open spec fn mode_auto_approves(mode: BindrMode, kind: ToolKind) -> bool {
    match mode {
        BindrMode::Brainstorm | BindrMode::Plan | BindrMode::Document => match kind {
            ToolKind::ReadFile | ToolKind::ListDirectory | ToolKind::ListModels => true,
            _ => false,
        },
        BindrMode::Execute => match kind {
            ToolKind::ReadFile
            | ToolKind::ListDirectory
            | ToolKind::DiffFile
            | ToolKind::ListModels => true,
            _ => false,
        },
    }
}

/// The permitted tool kinds of `mode`, in registry order.
pub open spec fn allowed_tools_seq(mode: BindrMode) -> Seq<ToolKind> {
    match mode {
        BindrMode::Brainstorm | BindrMode::Plan => seq![
            ToolKind::ReadFile,
            ToolKind::ListDirectory,
            ToolKind::ListModels,
            ToolKind::SelectModel,
        ],
        BindrMode::Execute => seq![
            ToolKind::ReadFile,
            ToolKind::ListDirectory,
            ToolKind::DiffFile,
            ToolKind::ApplyPatch,
            ToolKind::RunCommand,
            ToolKind::ListModels,
            ToolKind::SelectModel,
        ],
        BindrMode::Document => seq![
            ToolKind::ReadFile,
            ToolKind::ListDirectory,
            ToolKind::WriteFile,
            ToolKind::DiffFile,
            ToolKind::ListModels,
            ToolKind::SelectModel,
        ],
    }
}

/// The auto-approved tool kinds of `mode`, in registry order.
pub open spec fn auto_approve_seq(mode: BindrMode) -> Seq<ToolKind> {
    match mode {
        BindrMode::Brainstorm | BindrMode::Plan | BindrMode::Document => seq![
            ToolKind::ReadFile,
            ToolKind::ListDirectory,
            ToolKind::ListModels,
        ],
        BindrMode::Execute => seq![
            ToolKind::ReadFile,
            ToolKind::ListDirectory,
            ToolKind::DiffFile,
            ToolKind::ListModels,
        ],
    }
}

/// The registry's list form agrees with the policy table: a kind is in
/// `allowed_tools_seq(mode)` exactly when `mode_allows(mode, kind)`, and in
/// `auto_approve_seq(mode)` exactly when `mode_auto_approves(mode, kind)`.
pub proof fn lemma_registry_matches_policy(mode: BindrMode, kind: ToolKind)
    ensures
        allowed_tools_seq(mode).contains(kind) == mode_allows(mode, kind),
        auto_approve_seq(mode).contains(kind) == mode_auto_approves(mode, kind),
{
    if mode_allows(mode, kind) {
        assert(allowed_tools_seq(mode).contains(kind)) by {
            lemma_policy_index(mode, kind);
        }
    } else {
        assert(!allowed_tools_seq(mode).contains(kind)) by {
            assert forall|i: int| 0 <= i < allowed_tools_seq(mode).len() implies
                allowed_tools_seq(mode)[i] != kind by {}
        }
    }
    if mode_auto_approves(mode, kind) {
        assert(auto_approve_seq(mode).contains(kind)) by {
            lemma_policy_index(mode, kind);
        }
    } else {
        assert(!auto_approve_seq(mode).contains(kind)) by {
            assert forall|i: int| 0 <= i < auto_approve_seq(mode).len() implies
                auto_approve_seq(mode)[i] != kind by {}
        }
    }
}

/// Helper: a permitted kind occurs at some index of the registry lists.
proof fn lemma_policy_index(mode: BindrMode, kind: ToolKind)
    ensures
        mode_allows(mode, kind) ==> exists|i: int|
            0 <= i < allowed_tools_seq(mode).len() && allowed_tools_seq(mode)[i] == kind,
        mode_auto_approves(mode, kind) ==> exists|i: int|
            0 <= i < auto_approve_seq(mode).len() && auto_approve_seq(mode)[i] == kind,
{
    if mode_allows(mode, kind) {
        let s = allowed_tools_seq(mode);
        match kind {
            ToolKind::ReadFile => assert(s[0] == kind),
            ToolKind::ListDirectory => assert(s[1] == kind),
            ToolKind::DiffFile => {
                if mode is Execute {
                    assert(s[2] == kind);
                } else {
                    assert(s[3] == kind);
                }
            },
            ToolKind::WriteFile => assert(s[2] == kind),
            ToolKind::ApplyPatch => assert(s[3] == kind),
            ToolKind::RunCommand => assert(s[4] == kind),
            ToolKind::ListModels => assert(s[s.len() - 2] == kind),
            ToolKind::SelectModel => assert(s[s.len() - 1] == kind),
        }
    }
    if mode_auto_approves(mode, kind) {
        let s = auto_approve_seq(mode);
        match kind {
            ToolKind::ReadFile => assert(s[0] == kind),
            ToolKind::ListDirectory => assert(s[1] == kind),
            ToolKind::DiffFile => assert(s[2] == kind),
            ToolKind::ListModels => assert(s[s.len() - 1] == kind),
            _ => assert(false),
        }
    }
}

/// Auto-approval implies permission: for every mode and every tool kind,
/// a kind that executes without confirmation is also a permitted kind, in
/// the policy table and in the registry lists alike.
pub proof fn lemma_auto_approve_subset_of_allowed(mode: BindrMode, kind: ToolKind)
    ensures
        mode_auto_approves(mode, kind) ==> mode_allows(mode, kind),
        auto_approve_seq(mode).contains(kind) ==> allowed_tools_seq(mode).contains(kind),
{
    lemma_registry_matches_policy(mode, kind);
}

/// Mutating tools are never auto-approved: in no mode do `WriteFile`,
/// `ApplyPatch` or `RunCommand` execute without human confirmation.
pub proof fn lemma_mutating_tools_never_auto_approved(mode: BindrMode)
    ensures
        !mode_auto_approves(mode, ToolKind::WriteFile),
        !mode_auto_approves(mode, ToolKind::ApplyPatch),
        !mode_auto_approves(mode, ToolKind::RunCommand),
        !auto_approve_seq(mode).contains(ToolKind::WriteFile),
        !auto_approve_seq(mode).contains(ToolKind::ApplyPatch),
        !auto_approve_seq(mode).contains(ToolKind::RunCommand),
{
    lemma_registry_matches_policy(mode, ToolKind::WriteFile);
    lemma_registry_matches_policy(mode, ToolKind::ApplyPatch);
    lemma_registry_matches_policy(mode, ToolKind::RunCommand);
}

} // verus!
