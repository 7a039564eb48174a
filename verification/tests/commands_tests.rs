use bindr::commands::built_in_slash_commands;
use bindr::commands::command_entries;
use bindr::commands::get_help_text;
use bindr::commands::parse_slash_command;
use bindr::commands::ParsedCommand;
use bindr::commands::SlashCommand;
use bindr::events::BindrMode;

#[test]
fn plain_text_is_not_a_command() {
    assert_eq!(parse_slash_command("hello there"), None);
    assert_eq!(parse_slash_command(""), None);
    assert_eq!(parse_slash_command("mode b"), None);
}

#[test]
fn a_bare_slash_is_not_a_command() {
    assert_eq!(parse_slash_command("/"), None);
    assert_eq!(parse_slash_command("/   "), None);
}

#[test]
fn unknown_keywords_are_rejected() {
    assert_eq!(parse_slash_command("/frobnicate"), None);
    assert_eq!(parse_slash_command("/MODE b"), None);
}

#[test]
fn the_five_keywords_parse_exactly() {
    for (keyword, command) in [
        ("mode", SlashCommand::Mode),
        ("model", SlashCommand::Model),
        ("home", SlashCommand::Home),
        ("bye", SlashCommand::Bye),
        ("help", SlashCommand::Help),
    ] {
        let parsed = parse_slash_command(&format!("/{}", keyword)).unwrap();
        assert_eq!(parsed, ParsedCommand { command, argument: None });
    }
}

#[test]
fn aliases_are_case_insensitive() {
    for (alias, command) in [
        ("q", SlashCommand::Bye),
        ("QUIT", SlashCommand::Bye),
        ("exit", SlashCommand::Bye),
        ("h", SlashCommand::Home),
        ("m", SlashCommand::Mode),
        ("Switch", SlashCommand::Mode),
        ("models", SlashCommand::Model),
    ] {
        let parsed = parse_slash_command(&format!("/{}", alias)).unwrap();
        assert_eq!(parsed.command, command, "alias {}", alias);
    }
}

#[test]
fn arguments_are_joined_with_single_spaces() {
    let parsed = parse_slash_command("/mode   b   now ").unwrap();
    assert_eq!(parsed.command, SlashCommand::Mode);
    assert_eq!(parsed.argument, Some(String::from("b now")));
    assert_eq!(parsed.argument(), Some("b now"));
}

#[test]
fn mode_targets_cover_all_spellings() {
    for (arg, mode) in [
        ("b", BindrMode::Brainstorm),
        ("brainstorm", BindrMode::Brainstorm),
        ("p", BindrMode::Plan),
        ("plan", BindrMode::Plan),
        ("e", BindrMode::Execute),
        ("execute", BindrMode::Execute),
        ("build", BindrMode::Execute),
        ("d", BindrMode::Document),
        ("doc", BindrMode::Document),
        ("document", BindrMode::Document),
        ("  PLAN  ", BindrMode::Plan),
    ] {
        let parsed = ParsedCommand { command: SlashCommand::Mode, argument: Some(arg.into()) };
        assert_eq!(parsed.mode_target(), Some(mode), "argument {:?}", arg);
    }
}

#[test]
fn mode_target_is_none_without_a_recognized_argument() {
    let no_argument = ParsedCommand { command: SlashCommand::Mode, argument: None };
    assert_eq!(no_argument.mode_target(), None);
    let unknown = ParsedCommand {
        command: SlashCommand::Mode,
        argument: Some(String::from("sideways")),
    };
    assert_eq!(unknown.mode_target(), None);
    let other_command = ParsedCommand {
        command: SlashCommand::Help,
        argument: Some(String::from("b")),
    };
    assert_eq!(other_command.mode_target(), None);
}

#[test]
fn entries_pair_keywords_with_descriptions() {
    let entries = command_entries();
    assert_eq!(entries.len(), 5);
    assert_eq!(entries[0].command, SlashCommand::Mode);
    assert_eq!(entries[0].keyword, "mode");
    assert_eq!(
        entries[0].description,
        "switch to a different mode (brainstorm, plan, execute, document)"
    );
    assert_eq!(entries[4].command, SlashCommand::Help);
    assert_eq!(entries[4].keyword, "help");
    let listed = built_in_slash_commands();
    assert_eq!(
        listed,
        vec![
            ("mode", SlashCommand::Mode),
            ("model", SlashCommand::Model),
            ("home", SlashCommand::Home),
            ("bye", SlashCommand::Bye),
            ("help", SlashCommand::Help),
        ]
    );
}

#[test]
fn every_command_survives_streaming() {
    for entry in command_entries() {
        assert!(entry.command.available_during_streaming());
    }
}

#[test]
fn help_text_lists_every_command_and_the_hints() {
    let help = get_help_text();
    assert!(help.starts_with("Available commands:\n\n"));
    for entry in command_entries() {
        assert!(help.contains(&format!("/{} - {}\n", entry.keyword, entry.description)));
    }
    assert!(help.contains("aliases like /q for /bye"));
    assert!(help.contains("/mode <b|p|e|d>"));
    let expected = format!(
        "Available commands:\n\n{}{}{}",
        command_entries()
            .iter()
            .map(|e| format!("/{} - {}\n", e.keyword, e.description))
            .collect::<String>(),
        "\nYou can also use aliases like /q for /bye, /h for /home, /m for /mode, /models for /model",
        "\nUse /mode <b|p|e|d> to jump directly to Brainstorm, Plan, Execute, or Document mode.",
    );
    assert_eq!(help, expected);
}

#[test]
fn command_strings_round_trip_through_the_parser() {
    for (keyword, command) in built_in_slash_commands() {
        assert_eq!(command.command(), keyword);
        let parsed = parse_slash_command(&format!("/{}", keyword)).unwrap();
        assert_eq!(parsed.command, command);
    }
}
