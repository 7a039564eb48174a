//! The tool dispatcher: validates and routes tool invocations according to
//! the active mode's capabilities.
//!
//! [`ToolDispatcher::review`] is a pure function of the mode, the invocation
//! and the (immutable) capability registry: its result is pinned, clause for
//! clause, to the spec-level [`review_spec`], so identical inputs always
//! yield the identical verdict.

use vstd::prelude::*;

use crate::events::BindrMode;

use super::capabilities::allowed_tools_seq;
use super::capabilities::auto_approve_seq;
use super::capabilities::lemma_registry_matches_policy;
use super::capabilities::mode_allows;
use super::capabilities::mode_auto_approves;
use super::capabilities::ModeCapabilities;
use super::capabilities::ToolKind;
use super::DispatchError;
use super::ToolInvocation;
use super::ToolRequestOutcome;

verus! {

/// The verdict `review` owes for a given mode and invocation: rejection with
/// `PermissionDenied` when the invocation's kind is not permitted in the
/// mode, otherwise acceptance with `requires_approval` set exactly when the
/// kind is not auto-approved.
pub open spec fn review_spec(mode: BindrMode, invocation: ToolInvocation) -> Result<
    ToolRequestOutcome,
    DispatchError,
> {
    let kind = invocation.tool.kind_spec();
    if mode_allows(mode, kind) {
        Ok(ToolRequestOutcome { invocation, requires_approval: !mode_auto_approves(mode, kind) })
    } else {
        Err(DispatchError::PermissionDenied { kind, mode })
    }
}

/// Validates and routes tool invocations according to the active mode's
/// capabilities.
pub struct ToolDispatcher;

impl ToolDispatcher {
    /// Classifies `invocation` for `mode`: either a policy rejection, or an
    /// outcome carrying the invocation and its approval requirement.  The
    /// result is a function of the inputs alone; the dispatcher has no state
    /// and performs no side effects.
    pub fn review(mode: BindrMode, invocation: ToolInvocation) -> (r: Result<
        ToolRequestOutcome,
        DispatchError,
    >)
        ensures
            r == review_spec(mode, invocation),
    {
        let capabilities = Self::capabilities_for(mode);
        let kind = invocation.tool.kind();

        proof {
            lemma_registry_matches_policy(mode, kind);
        }
        if !contains_kind(&capabilities.allowed_tools, &kind) {
            return Err(DispatchError::PermissionDenied { kind, mode });
        }

        let requires_approval = !contains_kind(&capabilities.auto_approve, &kind);

        Ok(ToolRequestOutcome { invocation, requires_approval })
    }

    /// The registry entry of `mode`.  The lookup is total: every mode has an
    /// entry, by an exhaustive match with no fallback arm, so a missing
    /// policy is a compile error rather than a runtime gap.
    pub fn capabilities_for(mode: BindrMode) -> (caps: ModeCapabilities)
        ensures
            caps.allowed_tools@ == allowed_tools_seq(mode),
            caps.auto_approve@ == auto_approve_seq(mode),
            caps.default_provider is None,
            caps.default_model is None,
    {
        match mode {
            BindrMode::Brainstorm | BindrMode::Plan => ModeCapabilities {
                allowed_tools: vec![
                    ToolKind::ReadFile,
                    ToolKind::ListDirectory,
                    ToolKind::ListModels,
                    ToolKind::SelectModel,
                ],
                auto_approve: vec![
                    ToolKind::ReadFile,
                    ToolKind::ListDirectory,
                    ToolKind::ListModels,
                ],
                default_provider: None,
                default_model: None,
            },
            BindrMode::Execute => ModeCapabilities {
                allowed_tools: vec![
                    ToolKind::ReadFile,
                    ToolKind::ListDirectory,
                    ToolKind::DiffFile,
                    ToolKind::ApplyPatch,
                    ToolKind::RunCommand,
                    ToolKind::ListModels,
                    ToolKind::SelectModel,
                ],
                auto_approve: vec![
                    ToolKind::ReadFile,
                    ToolKind::ListDirectory,
                    ToolKind::DiffFile,
                    ToolKind::ListModels,
                ],
                default_provider: None,
                default_model: None,
            },
            BindrMode::Document => ModeCapabilities {
                allowed_tools: vec![
                    ToolKind::ReadFile,
                    ToolKind::ListDirectory,
                    ToolKind::WriteFile,
                    ToolKind::DiffFile,
                    ToolKind::ListModels,
                    ToolKind::SelectModel,
                ],
                auto_approve: vec![
                    ToolKind::ReadFile,
                    ToolKind::ListDirectory,
                    ToolKind::ListModels,
                ],
                default_provider: None,
                default_model: None,
            },
        }
    }
}

/// Rejection is mandatory: a tool kind absent from a mode's allowed set
/// can never produce an accepted outcome for that mode.
pub proof fn lemma_rejection_is_mandatory(mode: BindrMode, invocation: ToolInvocation)
    ensures
        !mode_allows(mode, invocation.tool.kind_spec()) ==> review_spec(mode, invocation) == Err::<
            ToolRequestOutcome,
            DispatchError,
        >(
            DispatchError::PermissionDenied { kind: invocation.tool.kind_spec(), mode },
        ),
{
}

/// Whether `kind` occurs in `list`.
fn contains_kind(list: &Vec<ToolKind>, kind: &ToolKind) -> (r: bool)
    ensures
        r == list@.contains(*kind),
{
    let mut i: usize = 0;
    while i < list.len()
        invariant
            i <= list@.len(),
            forall|j: int| 0 <= j < i ==> list@[j] != *kind,
        decreases list@.len() - i,
    {
        if list[i] == *kind {
            return true;
        }
        i += 1;
    }
    false
}

} // verus!
