//! Slash commands: messages that start with `/` and drive the application
//! rather than the conversation, and the parser that recognizes them.

use vstd::prelude::*;

use crate::events::BindrMode;
use crate::text::join_spaces;
use crate::text::join_words;
use crate::text::lower_seq;
use crate::text::split_words;
use crate::text::str_eq;
use crate::text::to_lower;
use crate::text::trim;
use crate::text::trim_spec;
use crate::text::views_of;
use crate::text::words;

verus! {

/// Commands that can be invoked by starting a message with a leading slash.
#[derive(Debug, Clone, Copy, PartialEq, Eq, Hash, Structural)]
pub enum SlashCommand {
    /// Switch to a different mode (brainstorm, plan, execute, document).
    Mode,
    /// Switch to a different model.
    Model,
    /// Return to the home screen.
    Home,
    /// Exit the application.
    Bye,
    /// Show help.
    Help,
}

/// Every command, in the order they are listed to the user.
pub open spec fn all_commands() -> Seq<SlashCommand> {
    seq![
        SlashCommand::Mode,
        SlashCommand::Model,
        SlashCommand::Home,
        SlashCommand::Bye,
        SlashCommand::Help,
    ]
}

impl SlashCommand {
    /// The command string without the leading `/`.
    pub open spec fn command_spec(self) -> Seq<char> {
        match self {
            SlashCommand::Mode => "mode"@,
            SlashCommand::Model => "model"@,
            SlashCommand::Home => "home"@,
            SlashCommand::Bye => "bye"@,
            SlashCommand::Help => "help"@,
        }
    }

    /// The command string without the leading `/`.
    pub fn command(self) -> (r: &'static str)
        ensures
            r@ == self.command_spec(),
    {
        match self {
            SlashCommand::Mode => "mode",
            SlashCommand::Model => "model",
            SlashCommand::Home => "home",
            SlashCommand::Bye => "bye",
            SlashCommand::Help => "help",
        }
    }

    /// The user-visible description shown in help.
    pub open spec fn description_spec(self) -> Seq<char> {
        match self {
            SlashCommand::Mode => "switch to a different mode (brainstorm, plan, execute, document)"@,
            SlashCommand::Model => "switch to a different model"@,
            SlashCommand::Home => "return to the home screen"@,
            SlashCommand::Bye => "exit the application"@,
            SlashCommand::Help => "show available commands"@,
        }
    }

    /// The user-visible description shown in help.
    pub fn description(self) -> (r: &'static str)
        ensures
            r@ == self.description_spec(),
    {
        match self {
            SlashCommand::Mode => "switch to a different mode (brainstorm, plan, execute, document)",
            SlashCommand::Model => "switch to a different model",
            SlashCommand::Home => "return to the home screen",
            SlashCommand::Bye => "exit the application",
            SlashCommand::Help => "show available commands",
        }
    }

    /// Whether this command can be run while a response is still streaming.
    /// Every built-in command can be.
    pub fn available_during_streaming(self) -> (r: bool)
        ensures
            r,
    {
        match self {
            SlashCommand::Mode
            | SlashCommand::Model
            | SlashCommand::Home
            | SlashCommand::Bye
            | SlashCommand::Help => true,
        }
    }
}

/// A parsed slash command together with everything that followed it.
#[derive(Debug, Clone, PartialEq, Eq)]
pub struct ParsedCommand {
    /// The recognized command.
    pub command: SlashCommand,
    /// The rest of the input, joined with single spaces, if any.
    pub argument: Option<String>,
}

/// One row of the command palette.
#[derive(Debug, Clone, Copy)]
pub struct CommandEntry {
    /// The command.
    pub command: SlashCommand,
    /// Its keyword, without the leading `/`.
    pub keyword: &'static str,
    /// Its user-visible description.
    pub description: &'static str,
}

/// Whether `e` is the palette row of the command `c`.
pub open spec fn entry_of(e: CommandEntry, c: SlashCommand) -> bool {
    &&& e.command == c
    &&& e.keyword@ == c.command_spec()
    &&& e.description@ == c.description_spec()
}

/// One palette row per command, in listing order.
pub fn command_entries() -> (r: Vec<CommandEntry>)
    ensures
        r@.len() == all_commands().len(),
        forall|i: int| 0 <= i < r@.len() ==> entry_of(#[trigger] r@[i], all_commands()[i]),
{
    let mut entries: Vec<CommandEntry> = Vec::new();
    entries.push(CommandEntry {
        command: SlashCommand::Mode,
        keyword: SlashCommand::Mode.command(),
        description: SlashCommand::Mode.description(),
    });
    entries.push(CommandEntry {
        command: SlashCommand::Model,
        keyword: SlashCommand::Model.command(),
        description: SlashCommand::Model.description(),
    });
    entries.push(CommandEntry {
        command: SlashCommand::Home,
        keyword: SlashCommand::Home.command(),
        description: SlashCommand::Home.description(),
    });
    entries.push(CommandEntry {
        command: SlashCommand::Bye,
        keyword: SlashCommand::Bye.command(),
        description: SlashCommand::Bye.description(),
    });
    entries.push(CommandEntry {
        command: SlashCommand::Help,
        keyword: SlashCommand::Help.command(),
        description: SlashCommand::Help.description(),
    });
    entries
}

/// Every built-in command paired with its command string, in listing order.
pub fn built_in_slash_commands() -> (r: Vec<(&'static str, SlashCommand)>)
    ensures
        r@.len() == all_commands().len(),
        forall|i: int| 0 <= i < r@.len() ==> (#[trigger] r@[i]).1 == all_commands()[i] && r@[i].0@
            == all_commands()[i].command_spec(),
{
    let mut cs: Vec<(&'static str, SlashCommand)> = Vec::new();
    cs.push((SlashCommand::Mode.command(), SlashCommand::Mode));
    cs.push((SlashCommand::Model.command(), SlashCommand::Model));
    cs.push((SlashCommand::Home.command(), SlashCommand::Home));
    cs.push((SlashCommand::Bye.command(), SlashCommand::Bye));
    cs.push((SlashCommand::Help.command(), SlashCommand::Help));
    cs
}

impl ParsedCommand {
    /// The argument, if one was given.
    pub fn argument(&self) -> (r: Option<&str>)
        ensures
            r is Some <==> self.argument is Some,
            r matches Some(s) ==> self.argument matches Some(a) && s@ == a@,
    {
        match &self.argument {
            Some(s) => Some(s.as_str()),
            None => None,
        }
    }

    /// The workflow mode a `/mode` argument names: for any other command, or
    /// for an absent or unrecognized argument, there is none; otherwise the
    /// mode named by the argument once trimmed and folded to lower case.
    pub fn mode_target(&self) -> (r: Option<BindrMode>)
        ensures
            self.command != SlashCommand::Mode ==> r is None,
            self.command == SlashCommand::Mode && self.argument is None ==> r is None,
            self.command == SlashCommand::Mode ==> (self.argument matches Some(a) ==> r
                == mode_keyword(lower_seq(trim_spec(a@)))),
    {
        if !matches!(self.command, SlashCommand::Mode) {
            return None;
        }
        match &self.argument {
            None => None,
            Some(a) => {
                let arg = to_lower(trim(a.as_str()));
                mode_keyword_lookup(arg.as_str())
            },
        }
    }
}

/// The workflow mode named by a (trimmed, lower-case) `/mode` argument.
pub open spec fn mode_keyword(t: Seq<char>) -> Option<BindrMode> {
    if t == "b"@ || t == "brainstorm"@ {
        Some(BindrMode::Brainstorm)
    } else if t == "p"@ || t == "plan"@ {
        Some(BindrMode::Plan)
    } else if t == "e"@ || t == "execute"@ || t == "build"@ {
        Some(BindrMode::Execute)
    } else if t == "d"@ || t == "doc"@ || t == "document"@ {
        Some(BindrMode::Document)
    } else {
        None
    }
}

/// The workflow mode named by a (trimmed, lower-case) `/mode` argument.
fn mode_keyword_lookup(t: &str) -> (r: Option<BindrMode>)
    ensures
        r == mode_keyword(t@),
{
    if str_eq(t, "b") || str_eq(t, "brainstorm") {
        Some(BindrMode::Brainstorm)
    } else if str_eq(t, "p") || str_eq(t, "plan") {
        Some(BindrMode::Plan)
    } else if str_eq(t, "e") || str_eq(t, "execute") || str_eq(t, "build") {
        Some(BindrMode::Execute)
    } else if str_eq(t, "d") || str_eq(t, "doc") || str_eq(t, "document") {
        Some(BindrMode::Document)
    } else {
        None
    }
}

/// The command a head token names: one of the five command keywords matched
/// exactly, or one of the aliases matched after folding to lower case.
pub open spec fn keyword_command(t: Seq<char>) -> Option<SlashCommand> {
    if t == "mode"@ {
        Some(SlashCommand::Mode)
    } else if t == "model"@ {
        Some(SlashCommand::Model)
    } else if t == "home"@ {
        Some(SlashCommand::Home)
    } else if t == "bye"@ {
        Some(SlashCommand::Bye)
    } else if t == "help"@ {
        Some(SlashCommand::Help)
    } else {
        let l = lower_seq(t);
        if l == "q"@ || l == "quit"@ || l == "exit"@ {
            Some(SlashCommand::Bye)
        } else if l == "h"@ || l == "home"@ {
            Some(SlashCommand::Home)
        } else if l == "m"@ || l == "switch"@ {
            Some(SlashCommand::Mode)
        } else if l == "models"@ {
            Some(SlashCommand::Model)
        } else {
            None
        }
    }
}

/// The command a head token names.
fn keyword_lookup(t: &str) -> (r: Option<SlashCommand>)
    ensures
        r == keyword_command(t@),
{
    if str_eq(t, "mode") {
        Some(SlashCommand::Mode)
    } else if str_eq(t, "model") {
        Some(SlashCommand::Model)
    } else if str_eq(t, "home") {
        Some(SlashCommand::Home)
    } else if str_eq(t, "bye") {
        Some(SlashCommand::Bye)
    } else if str_eq(t, "help") {
        Some(SlashCommand::Help)
    } else {
        let lowered = to_lower(t);
        let l = lowered.as_str();
        if str_eq(l, "q") || str_eq(l, "quit") || str_eq(l, "exit") {
            Some(SlashCommand::Bye)
        } else if str_eq(l, "h") || str_eq(l, "home") {
            Some(SlashCommand::Home)
        } else if str_eq(l, "m") || str_eq(l, "switch") {
            Some(SlashCommand::Mode)
        } else if str_eq(l, "models") {
            Some(SlashCommand::Model)
        } else {
            None
        }
    }
}

/// What `parse_slash_command` owes: nothing unless the input starts with a
/// slash and its first word names a command; otherwise that command and the
/// remaining words joined with single spaces.
pub open spec fn parse_result(s: Seq<char>) -> Option<(SlashCommand, Option<Seq<char>>)> {
    if s.len() == 0 || s[0] != '/' {
        None
    } else {
        let ws = words(s.skip(1));
        if ws.len() == 0 {
            None
        } else {
            match keyword_command(ws[0]) {
                None => None,
                Some(c) => Some(
                    (c, if ws.len() == 1 {
                        None
                    } else {
                        Some(join_spaces(ws.skip(1)))
                    }),
                ),
            }
        }
    }
}

/// Parses a slash command from user input.
pub fn parse_slash_command(input: &str) -> (r: Option<ParsedCommand>)
    ensures
        r is Some <==> parse_result(input@) is Some,
        r matches Some(pc) ==> parse_result(input@) matches Some(p) && pc.command == p.0 && (
        p.1 is None ==> pc.argument is None) && (p.1 matches Some(v) ==> pc.argument matches Some(a)
            && a@ == v),
{
    let n = input.unicode_len();
    if n == 0 || input.get_char(0) != '/' {
        return None;
    }
    let rest = input.substring_char(1, n);
    proof {
        assert(rest@ =~= input@.skip(1));
    }
    let ws = split_words(rest);
    if ws.len() == 0 {
        return None;
    }
    let command = match keyword_lookup(ws[0].as_str()) {
        None => {
            proof {
                assert(views_of(ws@)[0] == ws@[0]@);
            }
            return None;
        },
        Some(c) => c,
    };
    proof {
        assert(views_of(ws@)[0] == ws@[0]@);
    }
    let argument = if ws.len() == 1 {
        None
    } else {
        Some(join_words(&ws, 1))
    };
    Some(ParsedCommand { command, argument })
}

/// One line of the help text.
pub open spec fn help_line(c: SlashCommand) -> Seq<char> {
    "/"@ + c.command_spec() + " - "@ + c.description_spec() + "\n"@
}

/// The help lines of `cs`, concatenated in order.
pub open spec fn help_lines(cs: Seq<SlashCommand>) -> Seq<char>
    decreases cs.len(),
{
    if cs.len() == 0 {
        Seq::empty()
    } else {
        help_line(cs[0]) + help_lines(cs.skip(1))
    }
}

/// Concatenating the help lines of one more command appends its line.
proof fn lemma_help_lines_push(cs: Seq<SlashCommand>, c: SlashCommand)
    ensures
        help_lines(cs.push(c)) == help_lines(cs) + help_line(c),
    decreases cs.len(),
{
    if cs.len() == 0 {
        assert(cs.push(c)[0] == c);
        assert(cs.push(c).skip(1) =~= Seq::<SlashCommand>::empty());
        assert(help_lines(Seq::<SlashCommand>::empty()) == Seq::<char>::empty());
        assert(help_lines(cs.push(c)) =~= help_line(c));
        assert(help_lines(cs) + help_line(c) =~= help_line(c));
    } else {
        lemma_help_lines_push(cs.skip(1), c);
        assert(cs.push(c).skip(1) =~= cs.skip(1).push(c));
        assert(cs.push(c)[0] == cs[0]);
        assert(help_line(cs[0]) + (help_lines(cs.skip(1)) + help_line(c)) =~= (help_line(cs[0])
            + help_lines(cs.skip(1))) + help_line(c));
    }
}

/// The complete help text: a header, one line per command, and the alias
/// and `/mode` hints.
pub open spec fn help_text() -> Seq<char> {
    "Available commands:\n\n"@ + help_lines(all_commands())
        + "\nYou can also use aliases like /q for /bye, /h for /home, /m for /mode, /models for /model"@
        + "\nUse /mode <b|p|e|d> to jump directly to Brainstorm, Plan, Execute, or Document mode."@
}

/// The help text for all available commands.
pub fn get_help_text() -> (r: String)
    ensures
        r@ == help_text(),
{
    let mut help = String::new();
    help.append("Available commands:\n\n");
    let entries = built_in_slash_commands();
    let mut i: usize = 0;
    while i < entries.len()
        invariant
            i <= entries@.len(),
            entries@.len() == all_commands().len(),
            forall|k: int| 0 <= k < entries@.len() ==> (#[trigger] entries@[k]).1
                == all_commands()[k] && entries@[k].0@ == all_commands()[k].command_spec(),
            help@ == "Available commands:\n\n"@ + help_lines(all_commands().take(i as int)),
        decreases entries@.len() - i,
    {
        let (command_str, command) = entries[i];
        help.append("/");
        help.append(command_str);
        help.append(" - ");
        help.append(command.description());
        help.append("\n");
        proof {
            lemma_help_lines_push(all_commands().take(i as int), all_commands()[i as int]);
            assert(all_commands().take(i + 1 as int) =~= all_commands().take(i as int).push(
                all_commands()[i as int],
            ));
            assert(help@ =~= "Available commands:\n\n"@ + help_lines(
                all_commands().take(i + 1 as int),
            ));
        }
        i += 1;
    }
    help.append(
        "\nYou can also use aliases like /q for /bye, /h for /home, /m for /mode, /models for /model",
    );
    help.append(
        "\nUse /mode <b|p|e|d> to jump directly to Brainstorm, Plan, Execute, or Document mode.",
    );
    proof {
        assert(all_commands().take(all_commands().len() as int) =~= all_commands());
        assert(help@ =~= help_text());
    }
    help
}

} // verus!
