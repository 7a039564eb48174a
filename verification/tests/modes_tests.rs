use bindr::events::BindrMode;
use bindr::events::ConversationRole;
use bindr::prompts::mode_prompt;
use bindr::text::to_lower;
use bindr::text::trim;

#[test]
fn modes_advance_in_order_and_stop() {
    assert_eq!(BindrMode::Brainstorm.next_mode(), Some(BindrMode::Plan));
    assert_eq!(BindrMode::Plan.next_mode(), Some(BindrMode::Execute));
    assert_eq!(BindrMode::Execute.next_mode(), Some(BindrMode::Document));
    assert_eq!(BindrMode::Document.next_mode(), None);
}

#[test]
fn every_mode_has_a_name_and_a_description() {
    let modes = [BindrMode::Brainstorm, BindrMode::Plan, BindrMode::Execute, BindrMode::Document];
    let names: Vec<&str> = modes.iter().map(|m| m.display_name()).collect();
    assert_eq!(names, vec!["Brainstorm", "Plan", "Execute", "Document"]);
    assert_eq!(BindrMode::Brainstorm.description(), "Explore ideas and define your project");
    assert_eq!(BindrMode::Document.description(), "Document what was built and create changelog");
}

#[test]
fn roles_have_their_wire_names() {
    assert_eq!(ConversationRole::User.as_str(), "user");
    assert_eq!(ConversationRole::Assistant.as_str(), "assistant");
    assert_eq!(ConversationRole::System.as_str(), "system");
}

#[test]
fn each_mode_prompt_names_its_own_mode() {
    assert!(mode_prompt(BindrMode::Brainstorm).starts_with("You are in **Brainstorm mode**"));
    assert!(mode_prompt(BindrMode::Plan).starts_with("You are in **Plan mode**"));
    assert!(mode_prompt(BindrMode::Execute).starts_with("You are in **Execute mode**"));
    assert!(mode_prompt(BindrMode::Document).starts_with("You are in **Document mode**"));
}

#[test]
fn the_brainstorm_prompt_forbids_mutation() {
    let prompt = mode_prompt(BindrMode::Brainstorm);
    assert!(prompt.contains("Do **not** create, modify, or delete files."));
    assert!(prompt.contains("Do **not** run shell commands or alter project state."));
}

#[test]
fn lowercasing_folds_ascii_capitals_only() {
    assert_eq!(to_lower("AbC dEf"), "abc def");
    assert_eq!(to_lower(""), "");
    assert_eq!(to_lower("a1!Z"), "a1!z");
}

#[test]
fn trimming_strips_ascii_whitespace_at_both_ends() {
    assert_eq!(trim("  hi there \t\n"), "hi there");
    assert_eq!(trim("\r\n \t"), "");
    assert_eq!(trim("solid"), "solid");
}
