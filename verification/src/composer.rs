//! The conversation composer: the state machine behind the input box where
//! the user types messages and slash commands.
//!
//! The composer holds the text being edited (with a character-based cursor),
//! and a command palette that opens when the input starts with `/`, filters
//! the built-in commands by prefix, and completes the selected one.

use vstd::prelude::*;

use crate::commands::all_commands;
use crate::commands::command_entries;
use crate::commands::entry_of;
use crate::commands::parse_result;
use crate::commands::parse_slash_command;
use crate::commands::CommandEntry;
use crate::commands::ParsedCommand;
use crate::events::BindrMode;
use crate::text::is_space;
use crate::text::is_space_char;
use crate::text::lower_seq;
use crate::text::skip_leading;
use crate::text::skip_run;
use crate::text::to_lower;
use crate::text::trim_spec;

verus! {

/// What one key press did to the composer.
#[derive(Debug, PartialEq)]
pub enum ConversationResult {
    /// The user submitted this message text.
    Submitted(String),
    /// The user submitted this slash command.
    Command(ParsedCommand),
    /// The key was consumed (or ignored) without submitting anything.
    NoAction,
}

/// The text being edited, with a cursor counted in characters.
#[derive(Debug, Clone)]
pub struct TextAreaState {
    /// The text.
    pub content: String,
    /// The cursor position, in characters from the start.
    pub cursor_position: usize,
    /// The vertical scroll offset of the widget.
    pub scroll_offset: usize,
}

impl TextAreaState {
    /// The cursor never points past the end of the text.
    pub open spec fn wf(self) -> bool {
        self.cursor_position <= self.content@.len()
    }
}

impl Default for TextAreaState {
    /// An empty text area with the cursor at the start.
    fn default() -> (r: Self)
        ensures
            r.content@ == Seq::<char>::empty(),
            r.cursor_position == 0,
            r.scroll_offset == 0,
            r.wf(),
    {
        TextAreaState { content: String::new(), cursor_position: 0, scroll_offset: 0 }
    }
}

/// The keys the composer reacts to.  The caller translates whatever input
/// events its terminal library produces into these.
#[derive(Debug, Clone, Copy, PartialEq, Eq, Structural)]
pub enum ComposerKey {
    /// The enter key.
    Enter,
    /// The up arrow.
    Up,
    /// The down arrow.
    Down,
    /// The escape key.
    Escape,
    /// The tab key.
    Tab,
    /// A printable character.
    Character(char),
    /// The backspace key.
    Backspace,
    /// The delete key.
    Delete,
    /// The left arrow.
    Left,
    /// The right arrow.
    Right,
    /// The home key.
    Home,
    /// The end key.
    End,
    /// Any other key; the composer ignores it.
    Other,
}

/// One key event, as the composer sees it.
#[derive(Debug, Clone, Copy, PartialEq, Eq, Structural)]
pub struct KeyInput {
    /// Which key.
    pub code: ComposerKey,
    /// Whether shift was held.
    pub shift: bool,
    /// Whether this is a press (as opposed to a release or repeat event the
    /// composer ignores).
    pub pressed: bool,
}

/// The palette query: the input with its leading slashes removed, folded to
/// lower case.
pub open spec fn palette_query(content: Seq<char>) -> Seq<char> {
    lower_seq(content.skip(skip_run(content, '/', 0)))
}

/// Whether the palette row `e` matches the query `q`: every row matches the
/// empty query, otherwise `q` must be a prefix of the row's keyword.
pub open spec fn palette_matches(e: CommandEntry, q: Seq<char>) -> bool {
    q.len() == 0 || q.is_prefix_of(e.keyword@)
}

/// The palette rows of `entries` that match the query `q`, in order.
pub open spec fn filtered_spec(entries: Seq<CommandEntry>, q: Seq<char>) -> Seq<CommandEntry> {
    entries.filter(|e: CommandEntry| palette_matches(e, q))
}

/// Filtering one more row appends it exactly when it matches.
proof fn lemma_filtered_push(entries: Seq<CommandEntry>, q: Seq<char>, e: CommandEntry)
    ensures
        palette_matches(e, q) ==> filtered_spec(entries.push(e), q) == filtered_spec(entries, q)
            + seq![e],
        !palette_matches(e, q) ==> filtered_spec(entries.push(e), q) == filtered_spec(entries, q),
{
    reveal(Seq::filter);
    assert(entries.push(e).drop_last() =~= entries);
    assert(entries.push(e).last() == e);
    if !palette_matches(e, q) {
        assert(filtered_spec(entries.push(e), q) =~= filtered_spec(entries, q));
    }
}

/// The wrapped position the palette selection moves to: one past either end
/// comes out at the other end.
pub open spec fn wrap_selection(cur: int, delta: int, len: int) -> int {
    let next = cur + delta;
    if next < 0 {
        len - 1
    } else if next >= len {
        0
    } else {
        next
    }
}

/// The conversation composer for user input.
#[derive(Clone)]
pub struct ConversationComposer {
    /// The text being edited.
    pub state: TextAreaState,
    /// The hint shown while the text is empty.
    pub placeholder: String,
    /// Whether the composer has keyboard focus.
    pub has_focus: bool,
    /// The active workflow mode, shown in the composer's title.
    pub current_mode: BindrMode,
    /// Every built-in command, one palette row each.
    pub command_entries: Vec<CommandEntry>,
    /// The palette rows matching the current query.
    pub filtered_commands: Vec<CommandEntry>,
    /// Whether the command palette is shown.
    pub show_command_palette: bool,
    /// The index of the selected palette row, if any.
    pub selected_command: Option<usize>,
}

impl ConversationComposer {
    /// The composer's internal consistency: the cursor is in bounds, the
    /// entry table lists every built-in command, and the selection stays
    /// within (or, transiently, just at) the filtered rows.
    pub open spec fn wf(self) -> bool {
        &&& self.state.wf()
        &&& self.command_entries@.len() == all_commands().len()
        &&& forall|i: int| 0 <= i < self.command_entries@.len() ==> entry_of(
            #[trigger] self.command_entries@[i],
            all_commands()[i],
        )
        &&& self.filtered_commands@.len() <= self.command_entries@.len()
        &&& self.selected_command matches Some(i) ==> i <= self.filtered_commands@.len()
    }

    /// A fresh composer: empty text, no focus, palette hidden.
    pub fn new(placeholder: String, current_mode: BindrMode) -> (r: Self)
        ensures
            r.wf(),
            r.state.content@ == Seq::<char>::empty(),
            r.state.cursor_position == 0,
            r.placeholder == placeholder,
            !r.has_focus,
            r.current_mode == current_mode,
            r.filtered_commands@ == Seq::<CommandEntry>::empty(),
            !r.show_command_palette,
            r.selected_command is None,
    {
        ConversationComposer {
            state: TextAreaState::default(),
            placeholder,
            has_focus: false,
            current_mode,
            command_entries: command_entries(),
            filtered_commands: Vec::new(),
            show_command_palette: false,
            selected_command: None,
        }
    }

    /// Inserts `c` at the cursor and moves the cursor past it.
    pub fn insert_char(state: &mut TextAreaState, c: char)
        requires
            old(state).wf(),
            old(state).content@.len() < usize::MAX,
        ensures
            final(state).content@ == old(state).content@.insert(
                old(state).cursor_position as int,
                c,
            ),
            final(state).cursor_position == old(state).cursor_position + 1,
            final(state).scroll_offset == old(state).scroll_offset,
            final(state).wf(),
    {
        let n = state.content.unicode_len();
        let cur = state.cursor_position;
        let mut rebuilt = state.content.substring_char(0, cur).to_owned();
        crate::text::push_char(&mut rebuilt, c);
        rebuilt.append(state.content.substring_char(cur, n));
        proof {
            assert(rebuilt@ =~= state.content@.insert(cur as int, c));
        }
        state.content = rebuilt;
        state.cursor_position = cur + 1;
    }

    /// Removes the character before the cursor, when there is one, and says
    /// whether it did.
    pub fn backspace(state: &mut TextAreaState) -> (r: bool)
        requires
            old(state).wf(),
        ensures
            r == (old(state).cursor_position > 0),
            !r ==> *final(state) == *old(state),
            r ==> final(state).content@ == old(state).content@.remove(
                old(state).cursor_position - 1,
            ),
            r ==> final(state).cursor_position == old(state).cursor_position - 1,
            final(state).scroll_offset == old(state).scroll_offset,
            final(state).wf(),
    {
        if state.cursor_position > 0 {
            let n = state.content.unicode_len();
            let cur = state.cursor_position;
            let mut rebuilt = state.content.substring_char(0, cur - 1).to_owned();
            rebuilt.append(state.content.substring_char(cur, n));
            proof {
                assert(rebuilt@ =~= state.content@.remove(cur - 1));
            }
            state.content = rebuilt;
            state.cursor_position = cur - 1;
            true
        } else {
            false
        }
    }

    /// Removes the character at the cursor, when there is one, and says
    /// whether it did.
    pub fn delete(state: &mut TextAreaState) -> (r: bool)
        requires
            old(state).wf(),
        ensures
            r == (old(state).cursor_position < old(state).content@.len()),
            !r ==> *final(state) == *old(state),
            r ==> final(state).content@ == old(state).content@.remove(
                old(state).cursor_position as int,
            ),
            final(state).cursor_position == old(state).cursor_position,
            final(state).scroll_offset == old(state).scroll_offset,
            final(state).wf(),
    {
        let n = state.content.unicode_len();
        let cur = state.cursor_position;
        if cur < n {
            let mut rebuilt = state.content.substring_char(0, cur).to_owned();
            rebuilt.append(state.content.substring_char(cur + 1, n));
            proof {
                assert(rebuilt@ =~= state.content@.remove(cur as int));
            }
            state.content = rebuilt;
            true
        } else {
            false
        }
    }

    /// Gives or takes keyboard focus.
    pub fn set_focus(&mut self, has_focus: bool)
        ensures
            *final(self) == (ConversationComposer { has_focus, ..*old(self) }),
    {
        self.has_focus = has_focus;
    }

    /// Records a workflow mode change.
    pub fn update_mode(&mut self, mode: BindrMode)
        ensures
            *final(self) == (ConversationComposer { current_mode: mode, ..*old(self) }),
    {
        self.current_mode = mode;
    }

    /// The current text, as its own `String`.
    pub fn get_content(&self) -> (r: String)
        ensures
            r@ == self.state.content@,
    {
        self.state.content.clone()
    }

    /// Empties the text and puts the cursor back at the start.
    pub fn clear(&mut self)
        ensures
            final(self).state.content@ == Seq::<char>::empty(),
            final(self).state.cursor_position == 0,
            final(self).state.scroll_offset == old(self).state.scroll_offset,
            *final(self) == (ConversationComposer { state: final(self).state, ..*old(self) }),
    {
        self.state.content = String::new();
        self.state.cursor_position = 0;
    }

    /// The mode-specific title shown above the input box.
    pub open spec fn mode_title_spec(mode: BindrMode) -> Seq<char> {
        match mode {
            BindrMode::Brainstorm => "💡 Brainstorm - Share your ideas"@,
            BindrMode::Plan => "📋 Plan - Describe your project"@,
            BindrMode::Execute => "⚡ Execute - What should I build?"@,
            BindrMode::Document => "📝 Document - What should I document?"@,
        }
    }

    /// The mode-specific title shown above the input box.
    pub fn get_mode_title(&self) -> (r: String)
        ensures
            r@ == Self::mode_title_spec(self.current_mode),
    {
        let title = match self.current_mode {
            BindrMode::Brainstorm => "💡 Brainstorm - Share your ideas",
            BindrMode::Plan => "📋 Plan - Describe your project",
            BindrMode::Execute => "⚡ Execute - What should I build?",
            BindrMode::Document => "📝 Document - What should I document?",
        };
        String::from_str(title)
    }
}

impl ConversationComposer {
    /// The palette row index the selection falls back to: the selected one,
    /// or the first.
    pub open spec fn sel_index(sel: Option<usize>) -> usize {
        match sel {
            Some(i) => i,
            None => 0,
        }
    }

    /// The palette contents and selection after a refresh against `content`:
    /// the matching rows, with the previous selection clamped into them, or
    /// no selection when nothing matches.
    pub open spec fn refreshed(
        entries: Seq<CommandEntry>,
        content: Seq<char>,
        sel: Option<usize>,
    ) -> (Seq<CommandEntry>, Option<usize>) {
        let f = filtered_spec(entries, palette_query(content));
        if f.len() == 0 {
            (f, None::<usize>)
        } else {
            let idx = Self::sel_index(sel) as int;
            let clamped = if idx < f.len() {
                idx
            } else {
                f.len() - 1
            };
            (f, Some(clamped as usize))
        }
    }

    /// The palette is hidden and empty in `n`.
    pub open spec fn palette_closed(n: Self) -> bool {
        &&& !n.show_command_palette
        &&& n.filtered_commands@.len() == 0
        &&& n.selected_command is None
    }

    /// Everything but the text and the palette is the same in `n` as in `o`.
    pub open spec fn same_env(o: Self, n: Self) -> bool {
        &&& n.placeholder == o.placeholder
        &&& n.has_focus == o.has_focus
        &&& n.current_mode == o.current_mode
        &&& n.command_entries == o.command_entries
    }

    /// The text is the same in `n` as in `o`.
    pub open spec fn same_text(o: Self, n: Self) -> bool {
        n.state == o.state
    }

    /// The palette is the same in `n` as in `o`.
    pub open spec fn same_palette(o: Self, n: Self) -> bool {
        &&& n.filtered_commands == o.filtered_commands
        &&& n.show_command_palette == o.show_command_palette
        &&& n.selected_command == o.selected_command
    }

    /// `n` is `o` after a palette refresh (visibility untouched).
    pub open spec fn palette_refreshed(o: Self, n: Self, content: Seq<char>) -> bool {
        &&& (n.filtered_commands@, n.selected_command) == Self::refreshed(
            o.command_entries@,
            content,
            o.selected_command,
        )
        &&& n.show_command_palette == o.show_command_palette
    }

    /// `n` is `o` after the palette opened: visible, refreshed against
    /// `content`, with the first row selected.
    pub open spec fn palette_opened(o: Self, n: Self, content: Seq<char>) -> bool {
        &&& n.show_command_palette
        &&& n.filtered_commands@ == filtered_spec(o.command_entries@, palette_query(content))
        &&& n.selected_command == Some(0usize)
    }

    /// `n` is `o` after the selection moved by `delta`, wrapping.
    pub open spec fn selection_moved(o: Self, n: Self, delta: int) -> bool {
        &&& Self::same_text(o, n)
        &&& n.filtered_commands == o.filtered_commands
        &&& n.show_command_palette == o.show_command_palette
        &&& (if o.filtered_commands@.len() == 0 {
            n.selected_command is None
        } else {
            n.selected_command matches Some(i) && i as int == wrap_selection(
                Self::sel_index(o.selected_command) as int,
                delta,
                o.filtered_commands@.len() as int,
            )
        })
    }

    /// `n` is `o` after the palette row `i` was applied: the text is the
    /// row's command with a trailing space, the cursor sits at its end, and
    /// the palette was closed and re-filtered against the new text.
    pub open spec fn entry_applied(o: Self, n: Self, i: int) -> bool {
        &&& n.state.content@ == "/"@ + o.filtered_commands@[i].keyword@ + " "@
        &&& n.state.cursor_position == n.state.content@.len()
        &&& n.state.scroll_offset == o.state.scroll_offset
        &&& !n.show_command_palette
        &&& (n.filtered_commands@, n.selected_command) == Self::refreshed(
            o.command_entries@,
            n.state.content@,
            None::<usize>,
        )
    }

    /// `n` is `o` after an attempt to apply the selected palette row:
    /// applied when a row is selected and in range, untouched otherwise.
    pub open spec fn apply_attempted(o: Self, n: Self) -> bool {
        match o.selected_command {
            None => n == o,
            Some(i) => if i < o.filtered_commands@.len() {
                Self::entry_applied(o, n, i as int)
            } else {
                n == o
            },
        }
    }

    /// Shows the palette, filters it against the current text, and selects
    /// the first row.
    fn open_command_palette(&mut self)
        requires
            old(self).wf(),
        ensures
            final(self).wf(),
            Self::same_env(*old(self), *final(self)),
            Self::same_text(*old(self), *final(self)),
            Self::palette_opened(*old(self), *final(self), old(self).state.content@),
    {
        self.show_command_palette = true;
        self.refresh_command_palette();
        self.selected_command = Some(0);
    }

    /// Hides and empties the palette.
    fn close_command_palette(&mut self)
        ensures
            Self::same_env(*old(self), *final(self)),
            Self::same_text(*old(self), *final(self)),
            Self::palette_closed(*final(self)),
            final(self).state == old(self).state,
    {
        self.show_command_palette = false;
        self.filtered_commands = Vec::new();
        self.selected_command = None;
    }

    /// Refilters the palette rows against the current text and clamps the
    /// selection into them.
    fn refresh_command_palette(&mut self)
        requires
            old(self).wf(),
        ensures
            final(self).wf(),
            Self::same_env(*old(self), *final(self)),
            Self::same_text(*old(self), *final(self)),
            Self::palette_refreshed(*old(self), *final(self), old(self).state.content@),
    {
        let ghost q = palette_query(self.state.content@);
        let query = to_lower(skip_leading(self.state.content.as_str(), '/'));
        let query_empty = query.as_str().unicode_len() == 0;
        let mut filtered: Vec<CommandEntry> = Vec::new();
        let mut i: usize = 0;
        while i < self.command_entries.len()
            invariant
                i <= self.command_entries@.len(),
                query@ == q,
                filtered@ == filtered_spec(self.command_entries@.take(i as int), q),
                query_empty == (q.len() == 0),
            decreases self.command_entries@.len() - i,
        {
            let entry = self.command_entries[i];
            proof {
                lemma_filtered_push(self.command_entries@.take(i as int), q, entry);
                assert(self.command_entries@.take(i + 1 as int) =~= self.command_entries@.take(
                    i as int,
                ).push(entry));
            }
            if query_empty || crate::text::is_prefix(query.as_str(), entry.keyword) {
                filtered.push(entry);
            }
            i += 1;
        }
        proof {
            assert(self.command_entries@.take(self.command_entries@.len() as int)
                =~= self.command_entries@);
            self.command_entries@.lemma_filter_len(|e: CommandEntry| palette_matches(e, q));
        }
        if filtered.len() == 0 {
            self.selected_command = None;
        } else {
            let index = match self.selected_command {
                Some(sel) => sel,
                None => 0,
            };
            let clamped = if index < filtered.len() {
                index
            } else {
                filtered.len() - 1
            };
            self.selected_command = Some(clamped);
        }
        self.filtered_commands = filtered;
    }

    /// Moves the palette selection by `delta`, wrapping at the ends; with no
    /// rows there is nothing to select.
    fn move_command_selection(&mut self, delta: isize)
        requires
            old(self).wf(),
        ensures
            final(self).wf(),
            Self::same_env(*old(self), *final(self)),
            Self::selection_moved(*old(self), *final(self), delta as int),
    {
        let len = self.filtered_commands.len();
        if len == 0 {
            self.selected_command = None;
            return;
        }
        let current: usize = match self.selected_command {
            Some(sel) => sel,
            None => 0,
        };
        let next: i128 = current as i128 + delta as i128;
        let sel: usize = if next < 0 {
            len - 1
        } else if next >= len as i128 {
            0
        } else {
            next as usize
        };
        self.selected_command = Some(sel);
    }

    /// Completes the selected palette row into the text (as `/keyword `) and
    /// closes the palette; reports whether a row was applied.
    fn apply_selected_command(&mut self) -> (r: bool)
        requires
            old(self).wf(),
        ensures
            final(self).wf(),
            Self::same_env(*old(self), *final(self)),
            Self::apply_attempted(*old(self), *final(self)),
            r == (old(self).selected_command matches Some(i) && i
                < old(self).filtered_commands@.len()),
    {
        let index = match self.selected_command {
            None => {
                return false;
            },
            Some(sel) => sel,
        };
        if index >= self.filtered_commands.len() {
            return false;
        }
        let entry = self.filtered_commands[index];
        let mut content = String::from_str("/");
        content.append(entry.keyword);
        content.append(" ");
        self.state.cursor_position = content.unicode_len();
        self.state.content = content;
        self.close_command_palette();
        self.refresh_command_palette();
        true
    }
}


impl ConversationComposer {
    /// Routes one key event: edits the text, drives the command palette,
    /// and reports a submission when enter completes a non-blank message.
    pub fn handle_key(&mut self, input: KeyInput) -> (r: ConversationResult)
        requires
            old(self).wf(),
            old(self).state.content@.len() < usize::MAX,
        ensures
            final(self).wf(),
            Self::same_env(*old(self), *final(self)),
            !input.pressed ==> *final(self) == *old(self) && r == ConversationResult::NoAction,
            input.pressed && input.code == ComposerKey::Enter && input.shift ==> r
                == ConversationResult::NoAction && Self::same_palette(*old(self), *final(self))
                && final(self).state.content@ == old(self).state.content@.insert(
                old(self).state.cursor_position as int,
                '\n',
            ) && final(self).state.cursor_position == old(self).state.cursor_position + 1
                && final(self).state.scroll_offset == old(self).state.scroll_offset,
            input.pressed && input.code == ComposerKey::Enter && !input.shift && old(self).show_command_palette ==> r == ConversationResult::NoAction && Self::apply_attempted(
                *old(self),
                *final(self),
            ),
            input.pressed && input.code == ComposerKey::Enter && !input.shift && !old(self).show_command_palette && trim_spec(old(self).state.content@).len() == 0 ==> r
                == ConversationResult::NoAction && *final(self) == *old(self),
            input.pressed && input.code == ComposerKey::Enter && !input.shift && !old(self).show_command_palette && trim_spec(old(self).state.content@).len() > 0 ==> final(self).state.content@ == Seq::<char>::empty() && final(self).state.cursor_position == 0
                && final(self).state.scroll_offset == old(self).state.scroll_offset
                && Self::palette_closed(*final(self)) && (parse_result(old(self).state.content@)
                is None ==> (r matches ConversationResult::Submitted(s) && s@ == old(self).state.content@)) && (parse_result(old(self).state.content@) matches Some(p) ==> (
            r matches ConversationResult::Command(pc) && pc.command == p.0 && (p.1 is None
                ==> pc.argument is None) && (p.1 matches Some(v) ==> pc.argument matches Some(a)
                && a@ == v))),
            input.pressed && input.code == ComposerKey::Up ==> r == ConversationResult::NoAction
                && (if old(self).show_command_palette {
                Self::selection_moved(*old(self), *final(self), -1)
            } else {
                *final(self) == *old(self)
            }),
            input.pressed && input.code == ComposerKey::Down ==> r == ConversationResult::NoAction
                && (if old(self).show_command_palette {
                Self::selection_moved(*old(self), *final(self), 1)
            } else {
                *final(self) == *old(self)
            }),
            input.pressed && input.code == ComposerKey::Escape ==> r
                == ConversationResult::NoAction && (if old(self).show_command_palette {
                Self::same_text(*old(self), *final(self)) && Self::palette_closed(*final(self))
            } else {
                *final(self) == *old(self)
            }),
            input.pressed && input.code == ComposerKey::Tab ==> r == ConversationResult::NoAction
                && (if old(self).show_command_palette {
                Self::apply_attempted(*old(self), *final(self))
            } else {
                *final(self) == *old(self)
            }),
            input.pressed ==> (input.code matches ComposerKey::Character(c) ==> r
                == ConversationResult::NoAction && final(self).state.content@ == old(self).state.content@.insert(old(self).state.cursor_position as int, c) && final(self).state.cursor_position == old(self).state.cursor_position + 1 && final(self).state.scroll_offset == old(self).state.scroll_offset && Self::palette_after_char(
                *old(self),
                *final(self),
                c,
                final(self).state.content@,
            )),
            input.pressed && input.code == ComposerKey::Backspace ==> r
                == ConversationResult::NoAction && (if old(self).state.cursor_position == 0 {
                *final(self) == *old(self)
            } else {
                final(self).state.content@ == old(self).state.content@.remove(
                    old(self).state.cursor_position - 1,
                ) && final(self).state.cursor_position == old(self).state.cursor_position - 1
                    && final(self).state.scroll_offset == old(self).state.scroll_offset
                    && Self::palette_after_erase(*old(self), *final(self), final(self).state.content@)
            }),
            input.pressed && input.code == ComposerKey::Delete ==> r
                == ConversationResult::NoAction && (if old(self).state.cursor_position >= old(self).state.content@.len() {
                *final(self) == *old(self)
            } else {
                final(self).state.content@ == old(self).state.content@.remove(
                    old(self).state.cursor_position as int,
                ) && final(self).state.cursor_position == old(self).state.cursor_position && final(self).state.scroll_offset == old(self).state.scroll_offset
                    && Self::palette_after_erase(*old(self), *final(self), final(self).state.content@)
            }),
            input.pressed && input.code == ComposerKey::Left ==> r == ConversationResult::NoAction
                && Self::cursor_moved_to(
                *old(self),
                *final(self),
                if old(self).state.cursor_position > 0 {
                    old(self).state.cursor_position - 1
                } else {
                    0
                },
            ),
            input.pressed && input.code == ComposerKey::Right ==> r == ConversationResult::NoAction
                && Self::cursor_moved_to(
                *old(self),
                *final(self),
                if old(self).state.cursor_position < old(self).state.content@.len() {
                    old(self).state.cursor_position + 1
                } else {
                    old(self).state.cursor_position as int
                },
            ),
            input.pressed && input.code == ComposerKey::Home ==> r == ConversationResult::NoAction
                && Self::cursor_moved_to(*old(self), *final(self), 0),
            input.pressed && input.code == ComposerKey::End ==> r == ConversationResult::NoAction
                && Self::cursor_moved_to(
                *old(self),
                *final(self),
                old(self).state.content@.len() as int,
            ),
            input.pressed && input.code == ComposerKey::Other ==> r
                == ConversationResult::NoAction && *final(self) == *old(self),
    {
        if !input.pressed {
            return ConversationResult::NoAction;
        }

        match input.code {
            ComposerKey::Enter => {
                if input.shift {
                    Self::insert_char(&mut self.state, '\n');
                    ConversationResult::NoAction
                } else if self.show_command_palette {
                    self.apply_selected_command();
                    ConversationResult::NoAction
                } else {
                    let blank = {
                        let trimmed = crate::text::trim(self.state.content.as_str());
                        trimmed.unicode_len() == 0
                    };
                    if blank {
                        ConversationResult::NoAction
                    } else {
                        let content = self.get_content();
                        self.clear();
                        self.close_command_palette();
                        match parse_slash_command(content.as_str()) {
                            Some(command) => ConversationResult::Command(command),
                            None => ConversationResult::Submitted(content),
                        }
                    }
                }
            },
            ComposerKey::Up => {
                if self.show_command_palette {
                    self.move_command_selection(-1);
                }
                ConversationResult::NoAction
            },
            ComposerKey::Down => {
                if self.show_command_palette {
                    self.move_command_selection(1);
                }
                ConversationResult::NoAction
            },
            ComposerKey::Escape => {
                if self.show_command_palette {
                    self.close_command_palette();
                }
                ConversationResult::NoAction
            },
            ComposerKey::Tab => {
                if self.show_command_palette {
                    self.apply_selected_command();
                }
                ConversationResult::NoAction
            },
            ComposerKey::Character(c) => {
                if c == '/' && self.state.content.unicode_len() == 0 {
                    Self::insert_char(&mut self.state, c);
                    self.open_command_palette();
                    return ConversationResult::NoAction;
                }

                Self::insert_char(&mut self.state, c);

                if self.show_command_palette {
                    let starts_slash = self.state.content.unicode_len() > 0
                        && self.state.content.as_str().get_char(0) == '/';
                    if starts_slash {
                        if is_space_char(c) {
                            self.close_command_palette();
                        } else {
                            self.refresh_command_palette();
                        }
                    } else {
                        self.close_command_palette();
                    }
                } else if crate::text::str_eq(self.state.content.as_str(), "/") {
                    self.open_command_palette();
                }
                ConversationResult::NoAction
            },
            ComposerKey::Backspace => {
                if Self::backspace(&mut self.state) {
                    if self.show_command_palette {
                        let starts_slash = self.state.content.unicode_len() > 0
                            && self.state.content.as_str().get_char(0) == '/';
                        if starts_slash {
                            self.refresh_command_palette();
                        } else {
                            self.close_command_palette();
                        }
                    }
                }
                ConversationResult::NoAction
            },
            ComposerKey::Delete => {
                if Self::delete(&mut self.state) {
                    if self.show_command_palette {
                        let starts_slash = self.state.content.unicode_len() > 0
                            && self.state.content.as_str().get_char(0) == '/';
                        if starts_slash {
                            self.refresh_command_palette();
                        } else {
                            self.close_command_palette();
                        }
                    }
                }
                ConversationResult::NoAction
            },
            ComposerKey::Left => {
                if self.state.cursor_position > 0 {
                    self.state.cursor_position = self.state.cursor_position - 1;
                }
                ConversationResult::NoAction
            },
            ComposerKey::Right => {
                let n = self.state.content.unicode_len();
                if self.state.cursor_position < n {
                    self.state.cursor_position = self.state.cursor_position + 1;
                }
                ConversationResult::NoAction
            },
            ComposerKey::Home => {
                self.state.cursor_position = 0;
                ConversationResult::NoAction
            },
            ComposerKey::End => {
                self.state.cursor_position = self.state.content.unicode_len();
                ConversationResult::NoAction
            },
            ComposerKey::Other => ConversationResult::NoAction,
        }
    }

    /// How the palette reacts to a typed character, given the text after
    /// the insertion: opened on a first `/`, refreshed or closed while
    /// shown, opened when the text becomes exactly `/`, untouched otherwise.
    pub open spec fn palette_after_char(o: Self, n: Self, c: char, newc: Seq<char>) -> bool {
        if o.state.content@.len() == 0 && c == '/' {
            Self::palette_opened(o, n, newc)
        } else if o.show_command_palette {
            if newc.len() > 0 && newc[0] == '/' {
                if is_space(c) {
                    Self::palette_closed(n)
                } else {
                    Self::palette_refreshed(o, n, newc)
                }
            } else {
                Self::palette_closed(n)
            }
        } else if newc == "/"@ {
            Self::palette_opened(o, n, newc)
        } else {
            Self::same_palette(o, n)
        }
    }

    /// How the palette reacts to an erased character, given the text after
    /// the erasure: refreshed while shown and the text still starts with
    /// `/`, closed while shown otherwise, untouched when hidden.
    pub open spec fn palette_after_erase(o: Self, n: Self, newc: Seq<char>) -> bool {
        if o.show_command_palette {
            if newc.len() > 0 && newc[0] == '/' {
                Self::palette_refreshed(o, n, newc)
            } else {
                Self::palette_closed(n)
            }
        } else {
            Self::same_palette(o, n)
        }
    }

    /// Only the cursor changed, to `pos`.
    pub open spec fn cursor_moved_to(o: Self, n: Self, pos: int) -> bool {
        &&& n.state.content == o.state.content
        &&& n.state.cursor_position == pos
        &&& n.state.scroll_offset == o.state.scroll_offset
        &&& Self::same_palette(o, n)
    }
}


} // verus!
