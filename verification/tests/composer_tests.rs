use bindr::commands::SlashCommand;
use bindr::composer::ComposerKey;
use bindr::composer::ConversationComposer;
use bindr::composer::ConversationResult;
use bindr::composer::KeyInput;
use bindr::events::BindrMode;

fn press(code: ComposerKey) -> KeyInput {
    KeyInput { code, shift: false, pressed: true }
}

fn type_text(composer: &mut ConversationComposer, text: &str) {
    for c in text.chars() {
        let result = composer.handle_key(press(ComposerKey::Character(c)));
        assert_eq!(result, ConversationResult::NoAction);
    }
}

fn fresh() -> ConversationComposer {
    ConversationComposer::new(String::from("Say something"), BindrMode::Brainstorm)
}

#[test]
fn typing_builds_up_content() {
    let mut composer = fresh();
    type_text(&mut composer, "hello");
    assert_eq!(composer.get_content(), "hello");
    assert_eq!(composer.state.cursor_position, 5);
}

#[test]
fn enter_submits_a_message_and_clears_the_box() {
    let mut composer = fresh();
    type_text(&mut composer, "ship it");
    let result = composer.handle_key(press(ComposerKey::Enter));
    assert_eq!(result, ConversationResult::Submitted(String::from("ship it")));
    assert_eq!(composer.get_content(), "");
    assert_eq!(composer.state.cursor_position, 0);
}

#[test]
fn enter_on_blank_content_does_nothing() {
    let mut composer = fresh();
    type_text(&mut composer, "   ");
    let result = composer.handle_key(press(ComposerKey::Enter));
    assert_eq!(result, ConversationResult::NoAction);
    assert_eq!(composer.get_content(), "   ");
}

#[test]
fn shift_enter_inserts_a_newline() {
    let mut composer = fresh();
    type_text(&mut composer, "ab");
    let result = composer.handle_key(KeyInput {
        code: ComposerKey::Enter,
        shift: true,
        pressed: true,
    });
    assert_eq!(result, ConversationResult::NoAction);
    assert_eq!(composer.get_content(), "ab\n");
}

#[test]
fn releases_are_ignored() {
    let mut composer = fresh();
    let result = composer.handle_key(KeyInput {
        code: ComposerKey::Character('x'),
        shift: false,
        pressed: false,
    });
    assert_eq!(result, ConversationResult::NoAction);
    assert_eq!(composer.get_content(), "");
}

#[test]
fn a_leading_slash_opens_the_palette_with_all_commands() {
    let mut composer = fresh();
    type_text(&mut composer, "/");
    assert!(composer.show_command_palette);
    assert_eq!(composer.filtered_commands.len(), 5);
    assert_eq!(composer.selected_command, Some(0));
}

#[test]
fn the_palette_filters_by_prefix() {
    let mut composer = fresh();
    type_text(&mut composer, "/mo");
    assert!(composer.show_command_palette);
    let keywords: Vec<&str> = composer.filtered_commands.iter().map(|e| e.keyword).collect();
    assert_eq!(keywords, vec!["mode", "model"]);
}

#[test]
fn arrows_move_and_wrap_the_selection() {
    let mut composer = fresh();
    type_text(&mut composer, "/");
    assert_eq!(composer.selected_command, Some(0));
    composer.handle_key(press(ComposerKey::Down));
    assert_eq!(composer.selected_command, Some(1));
    composer.handle_key(press(ComposerKey::Up));
    composer.handle_key(press(ComposerKey::Up));
    assert_eq!(composer.selected_command, Some(4));
    composer.handle_key(press(ComposerKey::Down));
    assert_eq!(composer.selected_command, Some(0));
}

#[test]
fn tab_completes_the_selected_command() {
    let mut composer = fresh();
    type_text(&mut composer, "/mo");
    composer.handle_key(press(ComposerKey::Down));
    let result = composer.handle_key(press(ComposerKey::Tab));
    assert_eq!(result, ConversationResult::NoAction);
    assert_eq!(composer.get_content(), "/model ");
    assert!(!composer.show_command_palette);
    assert_eq!(composer.state.cursor_position, 7);
}

#[test]
fn escape_closes_the_palette_without_touching_the_text() {
    let mut composer = fresh();
    type_text(&mut composer, "/he");
    assert!(composer.show_command_palette);
    let result = composer.handle_key(press(ComposerKey::Escape));
    assert_eq!(result, ConversationResult::NoAction);
    assert!(!composer.show_command_palette);
    assert_eq!(composer.get_content(), "/he");
}

#[test]
fn a_space_after_the_keyword_closes_the_palette() {
    let mut composer = fresh();
    type_text(&mut composer, "/mode");
    assert!(composer.show_command_palette);
    type_text(&mut composer, " ");
    assert!(!composer.show_command_palette);
}

#[test]
fn enter_submits_a_parsed_slash_command() {
    let mut composer = fresh();
    type_text(&mut composer, "/mode b");
    let result = composer.handle_key(press(ComposerKey::Enter));
    match result {
        ConversationResult::Command(parsed) => {
            assert_eq!(parsed.command, SlashCommand::Mode);
            assert_eq!(parsed.argument(), Some("b"));
            assert_eq!(parsed.mode_target(), Some(BindrMode::Brainstorm));
        }
        other => panic!("expected a command, got {:?}", other),
    }
    assert_eq!(composer.get_content(), "");
}

#[test]
fn enter_with_the_palette_open_completes_instead_of_submitting() {
    let mut composer = fresh();
    type_text(&mut composer, "/h");
    let result = composer.handle_key(press(ComposerKey::Enter));
    assert_eq!(result, ConversationResult::NoAction);
    assert_eq!(composer.get_content(), "/home ");
}

#[test]
fn backspace_erases_before_the_cursor() {
    let mut composer = fresh();
    type_text(&mut composer, "abc");
    composer.handle_key(press(ComposerKey::Backspace));
    assert_eq!(composer.get_content(), "ab");
    composer.handle_key(press(ComposerKey::Home));
    composer.handle_key(press(ComposerKey::Backspace));
    assert_eq!(composer.get_content(), "ab");
}

#[test]
fn delete_erases_at_the_cursor() {
    let mut composer = fresh();
    type_text(&mut composer, "abc");
    composer.handle_key(press(ComposerKey::Delete));
    assert_eq!(composer.get_content(), "abc");
    composer.handle_key(press(ComposerKey::Home));
    composer.handle_key(press(ComposerKey::Delete));
    assert_eq!(composer.get_content(), "bc");
}

#[test]
fn arrows_and_home_and_end_move_the_cursor() {
    let mut composer = fresh();
    type_text(&mut composer, "abcd");
    composer.handle_key(press(ComposerKey::Left));
    composer.handle_key(press(ComposerKey::Left));
    assert_eq!(composer.state.cursor_position, 2);
    let result = composer.handle_key(press(ComposerKey::Character('X')));
    assert_eq!(result, ConversationResult::NoAction);
    assert_eq!(composer.get_content(), "abXcd");
    composer.handle_key(press(ComposerKey::End));
    assert_eq!(composer.state.cursor_position, 5);
    composer.handle_key(press(ComposerKey::Right));
    assert_eq!(composer.state.cursor_position, 5);
    composer.handle_key(press(ComposerKey::Home));
    assert_eq!(composer.state.cursor_position, 0);
    composer.handle_key(press(ComposerKey::Left));
    assert_eq!(composer.state.cursor_position, 0);
}

#[test]
fn erasing_back_to_a_slash_keeps_the_palette_filtered() {
    let mut composer = fresh();
    type_text(&mut composer, "/mod");
    assert!(composer.show_command_palette);
    composer.handle_key(press(ComposerKey::Backspace));
    assert!(composer.show_command_palette);
    let keywords: Vec<&str> = composer.filtered_commands.iter().map(|e| e.keyword).collect();
    assert_eq!(keywords, vec!["mode", "model"]);
}

#[test]
fn focus_mode_and_clear_are_plain_state_changes() {
    let mut composer = fresh();
    composer.set_focus(true);
    assert!(composer.has_focus);
    composer.update_mode(BindrMode::Execute);
    assert_eq!(composer.current_mode, BindrMode::Execute);
    assert!(composer.get_mode_title().contains("Execute"));
    type_text(&mut composer, "draft");
    composer.clear();
    assert_eq!(composer.get_content(), "");
    assert_eq!(composer.state.cursor_position, 0);
}
