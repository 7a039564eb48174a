use bindr::agent::get_brainstorm_context;
use bindr::agent::get_mode_context;
use bindr::agent::get_system_prompt;
use bindr::agent::get_system_prompt_for_mode;
use bindr::agent::get_transition_suggestion;
use bindr::agent::should_suggest_transition;
use bindr::events::BindrMode;
use bindr::events::ConversationEntry;
use bindr::events::ConversationRole;

#[test]
fn brainstorming_suggests_planning_after_three_entries() {
    assert_eq!(should_suggest_transition(BindrMode::Brainstorm, 0), None);
    assert_eq!(should_suggest_transition(BindrMode::Brainstorm, 2), None);
    assert_eq!(
        should_suggest_transition(BindrMode::Brainstorm, 3),
        Some(BindrMode::Plan)
    );
    assert_eq!(
        should_suggest_transition(BindrMode::Brainstorm, 10),
        Some(BindrMode::Plan)
    );
}

#[test]
fn planning_suggests_execution_after_two_entries() {
    assert_eq!(should_suggest_transition(BindrMode::Plan, 1), None);
    assert_eq!(should_suggest_transition(BindrMode::Plan, 2), Some(BindrMode::Execute));
}

#[test]
fn executing_suggests_documentation_after_one_entry() {
    assert_eq!(should_suggest_transition(BindrMode::Execute, 0), None);
    assert_eq!(should_suggest_transition(BindrMode::Execute, 1), Some(BindrMode::Document));
}

#[test]
fn documentation_is_terminal() {
    for len in [0, 1, 5, 100] {
        assert_eq!(should_suggest_transition(BindrMode::Document, len), None);
    }
}

#[test]
fn suggestions_come_with_their_messages() {
    assert_eq!(
        get_transition_suggestion(BindrMode::Brainstorm, 3),
        Some(String::from(
            "Ready to create a detailed plan? Press 'P' to switch to Planning mode."
        ))
    );
    assert_eq!(
        get_transition_suggestion(BindrMode::Plan, 2),
        Some(String::from(
            "Ready to start implementation? Press 'E' to switch to Execution mode."
        ))
    );
    assert_eq!(
        get_transition_suggestion(BindrMode::Execute, 1),
        Some(String::from(
            "Ready to document your work? Press 'D' to switch to Documentation mode."
        ))
    );
    assert_eq!(get_transition_suggestion(BindrMode::Brainstorm, 1), None);
    assert_eq!(get_transition_suggestion(BindrMode::Document, 9), None);
}


fn entry(role: ConversationRole, content: &str) -> ConversationEntry {
    ConversationEntry {
        mode: BindrMode::Brainstorm,
        role,
        content: content.into(),
        timestamp: String::from("2026-01-01T00:00:00Z"),
    }
}

#[test]
fn the_summary_joins_only_the_assistants_entries() {
    let history = vec![
        entry(ConversationRole::User, "how about a parser"),
        entry(ConversationRole::Assistant, "A parser sounds good."),
        entry(ConversationRole::System, "noise"),
        entry(ConversationRole::Assistant, "Start with the grammar."),
    ];
    assert_eq!(
        get_brainstorm_context(&history),
        Some(String::from("A parser sounds good. Start with the grammar."))
    );
    assert_eq!(
        get_mode_context(&history),
        "Brainstorming: A parser sounds good. Start with the grammar."
    );
}

#[test]
fn no_assistant_entries_means_no_summary() {
    let history = vec![entry(ConversationRole::User, "hello")];
    assert_eq!(get_brainstorm_context(&history), None);
    assert_eq!(get_mode_context(&history), "");
}

#[test]
fn long_summaries_are_shortened_with_an_ellipsis() {
    let long = "x".repeat(600);
    let history = vec![entry(ConversationRole::Assistant, &long)];
    let summary = get_brainstorm_context(&history).expect("a summary");
    assert_eq!(summary.chars().count(), 503);
    assert!(summary.ends_with("..."));
    assert!(summary.starts_with("xxx"));
}

#[test]
fn the_system_prompt_appends_context_when_there_is_any() {
    let empty: Vec<ConversationEntry> = vec![];
    let bare = get_system_prompt(BindrMode::Plan, &empty);
    assert!(bare.starts_with("You are a detailed project planning assistant for Bindr."));
    assert!(!bare.contains("Context from previous work:"));
    let history = vec![entry(ConversationRole::Assistant, "Build a CLI.")];
    let with_context = get_system_prompt(BindrMode::Plan, &history);
    assert!(with_context.contains("\n\nContext from previous work:\nBrainstorming: Build a CLI."));
}

#[test]
fn each_mode_has_a_terse_prompt() {
    assert!(get_system_prompt_for_mode(BindrMode::Brainstorm)
        .starts_with("You are a creative brainstorming assistant."));
    assert!(get_system_prompt_for_mode(BindrMode::Document)
        .starts_with("You are a documentation specialist."));
}
