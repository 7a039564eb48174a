use bindr::events::BindrMode;
use bindr::tools::BindrTool;
use bindr::tools::CommandOptions;
use bindr::tools::DiffFileOptions;
use bindr::tools::DispatchError;
use bindr::tools::ListDirectoryOptions;
use bindr::tools::ModelSelection;
use bindr::tools::ReadFileOptions;
use bindr::tools::ApplyPatchOptions;
use bindr::tools::ToolDispatcher;
use bindr::tools::ToolInvocation;
use bindr::tools::ToolKind;
use bindr::tools::WriteFileOptions;

fn all_modes() -> Vec<BindrMode> {
    vec![BindrMode::Brainstorm, BindrMode::Plan, BindrMode::Execute, BindrMode::Document]
}

fn tool_of_kind(kind: &ToolKind) -> BindrTool {
    match kind {
        ToolKind::ReadFile => BindrTool::ReadFile(ReadFileOptions {
            path: String::from("notes.md"),
            max_bytes: None,
        }),
        ToolKind::WriteFile => BindrTool::WriteFile(WriteFileOptions {
            path: String::from("notes.md"),
            contents: String::from("text"),
            create_if_missing: true,
        }),
        ToolKind::ListDirectory => BindrTool::ListDirectory(ListDirectoryOptions {
            path: String::from("."),
            recursive: false,
            include_hidden: false,
            max_entries: Some(100),
        }),
        ToolKind::DiffFile => BindrTool::DiffFile(DiffFileOptions {
            path: String::from("notes.md"),
            context_lines: 3,
        }),
        ToolKind::ApplyPatch => BindrTool::ApplyPatch(ApplyPatchOptions {
            path: String::from("notes.md"),
            patch: String::from("@@ -1 +1 @@"),
        }),
        ToolKind::RunCommand => BindrTool::RunCommand(CommandOptions {
            command: String::from("ls"),
            args: vec![],
            working_dir: String::from("."),
            allow_network: false,
        }),
        ToolKind::ListModels => BindrTool::ListModels,
        ToolKind::SelectModel => BindrTool::SelectModel(ModelSelection {
            provider_id: String::from("openai"),
            model_id: String::from("gpt-4o-mini"),
        }),
    }
}

fn all_kinds() -> Vec<ToolKind> {
    vec![
        ToolKind::ReadFile,
        ToolKind::ListDirectory,
        ToolKind::DiffFile,
        ToolKind::WriteFile,
        ToolKind::ApplyPatch,
        ToolKind::RunCommand,
        ToolKind::ListModels,
        ToolKind::SelectModel,
    ]
}

#[test]
fn auto_approve_is_subset_of_allowed_in_every_mode() {
    for mode in all_modes() {
        let caps = ToolDispatcher::capabilities_for(mode);
        for kind in &caps.auto_approve {
            assert!(
                caps.allowed_tools.contains(kind),
                "{:?} auto-approved but not allowed in {:?}",
                kind,
                mode
            );
        }
    }
}

#[test]
fn mutating_tools_are_never_auto_approved() {
    for mode in all_modes() {
        let caps = ToolDispatcher::capabilities_for(mode);
        assert!(!caps.auto_approve.contains(&ToolKind::WriteFile));
        assert!(!caps.auto_approve.contains(&ToolKind::ApplyPatch));
        assert!(!caps.auto_approve.contains(&ToolKind::RunCommand));
    }
}

#[test]
fn review_is_deterministic_over_all_combinations() {
    for mode in all_modes() {
        for kind in all_kinds() {
            let first = ToolDispatcher::review(
                mode,
                ToolInvocation::new(tool_of_kind(&kind), mode, String::from("probe")),
            );
            let second = ToolDispatcher::review(
                mode,
                ToolInvocation::new(tool_of_kind(&kind), mode, String::from("probe")),
            );
            match (&first, &second) {
                (Ok(a), Ok(b)) => {
                    assert_eq!(a.requires_approval, b.requires_approval);
                    assert_eq!(a.invocation.description, b.invocation.description);
                }
                (Err(a), Err(b)) => assert_eq!(a, b),
                _ => panic!("verdict changed between identical calls for {:?}/{:?}", mode, kind),
            }
        }
    }
}

#[test]
fn run_command_is_denied_while_brainstorming() {
    let invocation = ToolInvocation::new(
        tool_of_kind(&ToolKind::RunCommand),
        BindrMode::Brainstorm,
        String::from("run ls"),
    );
    let verdict = ToolDispatcher::review(BindrMode::Brainstorm, invocation);
    assert_eq!(
        verdict.unwrap_err(),
        DispatchError::PermissionDenied { kind: ToolKind::RunCommand, mode: BindrMode::Brainstorm }
    );
}

#[test]
fn read_file_is_auto_approved_while_executing() {
    let invocation = ToolInvocation::new(
        tool_of_kind(&ToolKind::ReadFile),
        BindrMode::Execute,
        String::from("read notes"),
    );
    let outcome = ToolDispatcher::review(BindrMode::Execute, invocation).unwrap();
    assert!(!outcome.requires_approval);
}

#[test]
fn apply_patch_needs_approval_while_executing() {
    let invocation = ToolInvocation::new(
        tool_of_kind(&ToolKind::ApplyPatch),
        BindrMode::Execute,
        String::from("patch notes"),
    );
    let outcome = ToolDispatcher::review(BindrMode::Execute, invocation).unwrap();
    assert!(outcome.requires_approval);
}

#[test]
fn write_file_needs_approval_while_documenting() {
    let invocation = ToolInvocation::new(
        tool_of_kind(&ToolKind::WriteFile),
        BindrMode::Document,
        String::from("write docs"),
    );
    let outcome = ToolDispatcher::review(BindrMode::Document, invocation).unwrap();
    assert!(outcome.requires_approval);
}

#[test]
fn run_command_is_denied_while_planning() {
    let invocation = ToolInvocation::new(
        tool_of_kind(&ToolKind::RunCommand),
        BindrMode::Plan,
        String::from("run ls"),
    );
    let verdict = ToolDispatcher::review(BindrMode::Plan, invocation);
    assert_eq!(
        verdict.unwrap_err(),
        DispatchError::PermissionDenied { kind: ToolKind::RunCommand, mode: BindrMode::Plan }
    );
}

#[test]
fn every_mode_has_a_registry_entry() {
    for mode in all_modes() {
        let caps = ToolDispatcher::capabilities_for(mode);
        assert!(!caps.allowed_tools.is_empty(), "empty policy for {:?}", mode);
        assert!(!caps.auto_approve.is_empty(), "empty auto-approve for {:?}", mode);
    }
}

#[test]
fn registry_matches_the_documented_policy_table() {
    let brainstorm = ToolDispatcher::capabilities_for(BindrMode::Brainstorm);
    assert_eq!(
        brainstorm.allowed_tools,
        vec![
            ToolKind::ReadFile,
            ToolKind::ListDirectory,
            ToolKind::ListModels,
            ToolKind::SelectModel
        ]
    );
    assert_eq!(
        brainstorm.auto_approve,
        vec![ToolKind::ReadFile, ToolKind::ListDirectory, ToolKind::ListModels]
    );
    let plan = ToolDispatcher::capabilities_for(BindrMode::Plan);
    assert_eq!(plan.allowed_tools, brainstorm.allowed_tools);
    assert_eq!(plan.auto_approve, brainstorm.auto_approve);
    let execute = ToolDispatcher::capabilities_for(BindrMode::Execute);
    assert_eq!(
        execute.allowed_tools,
        vec![
            ToolKind::ReadFile,
            ToolKind::ListDirectory,
            ToolKind::DiffFile,
            ToolKind::ApplyPatch,
            ToolKind::RunCommand,
            ToolKind::ListModels,
            ToolKind::SelectModel
        ]
    );
    assert_eq!(
        execute.auto_approve,
        vec![ToolKind::ReadFile, ToolKind::ListDirectory, ToolKind::DiffFile, ToolKind::ListModels]
    );
    let document = ToolDispatcher::capabilities_for(BindrMode::Document);
    assert_eq!(
        document.allowed_tools,
        vec![
            ToolKind::ReadFile,
            ToolKind::ListDirectory,
            ToolKind::WriteFile,
            ToolKind::DiffFile,
            ToolKind::ListModels,
            ToolKind::SelectModel
        ]
    );
    assert_eq!(
        document.auto_approve,
        vec![ToolKind::ReadFile, ToolKind::ListDirectory, ToolKind::ListModels]
    );
}

#[test]
fn every_tool_payload_maps_to_its_kind() {
    for kind in all_kinds() {
        assert_eq!(tool_of_kind(&kind).kind(), kind);
    }
}

#[test]
fn selecting_a_model_always_needs_approval() {
    for mode in all_modes() {
        let invocation = ToolInvocation::new(
            tool_of_kind(&ToolKind::SelectModel),
            mode,
            String::from("pick a model"),
        );
        let outcome = ToolDispatcher::review(mode, invocation).unwrap();
        assert!(outcome.requires_approval, "SelectModel auto-approved in {:?}", mode);
    }
}

#[test]
fn the_outcome_carries_the_invocation_through() {
    let invocation = ToolInvocation::new(
        tool_of_kind(&ToolKind::ListModels),
        BindrMode::Plan,
        String::from("list the models"),
    );
    let outcome = ToolDispatcher::review(BindrMode::Plan, invocation).unwrap();
    assert_eq!(outcome.invocation.description, "list the models");
    assert_eq!(outcome.invocation.mode, BindrMode::Plan);
    assert_eq!(outcome.invocation.tool.kind(), ToolKind::ListModels);
}
