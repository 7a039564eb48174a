//! The state machine behind streaming model output: it buffers text
//! deltas, cuts them into complete lines for display, and keeps the
//! trailing partial line until the stream ends.
//!
//! Lines come out as plain strings; styling them for a terminal is the
//! rendering layer's business.

use vstd::prelude::*;

use crate::llm::LlmEvent;
use crate::text::trim;
use crate::text::trim_spec;
use crate::text::views_of;

verus! {

/// The first position at or after `i` that holds a newline, or the end of
/// `s`.
pub open spec fn nl_pos(s: Seq<char>, i: int) -> int
    decreases s.len() - i when 0 <= i <= s.len()
{
    if i >= s.len() {
        i
    } else if s[i] == '\n' {
        i
    } else {
        nl_pos(s, i + 1)
    }
}

/// `nl_pos` stays between its start and the end of the sequence, passes
/// only other characters, and stops on a newline or at the end.
pub proof fn lemma_nl_pos(s: Seq<char>, i: int)
    requires
        0 <= i <= s.len(),
    ensures
        i <= nl_pos(s, i) <= s.len(),
        forall|j: int| i <= j < nl_pos(s, i) ==> s[j] != '\n',
        nl_pos(s, i) < s.len() ==> s[nl_pos(s, i)] == '\n',
    decreases s.len() - i,
{
    if i < s.len() && s[i] != '\n' {
        lemma_nl_pos(s, i + 1);
    }
}

/// The complete (newline-terminated) lines at the front of `s`, without
/// their newlines.
pub open spec fn complete_lines(s: Seq<char>) -> Seq<Seq<char>>
    decreases s.len() via complete_lines_decreases
{
    let p = nl_pos(s, 0);
    if p >= s.len() {
        Seq::empty()
    } else {
        seq![s.take(p)] + complete_lines(s.skip(p + 1))
    }
}

#[via_fn]
proof fn complete_lines_decreases(s: Seq<char>) {
    lemma_nl_pos(s, 0);
}

/// What remains of `s` after its last newline: the trailing partial line.
pub open spec fn line_rest(s: Seq<char>) -> Seq<char>
    decreases s.len() via line_rest_decreases
{
    let p = nl_pos(s, 0);
    if p >= s.len() {
        s
    } else {
        line_rest(s.skip(p + 1))
    }
}

#[via_fn]
proof fn line_rest_decreases(s: Seq<char>) {
    lemma_nl_pos(s, 0);
}

/// The position of the first newline of `s`, when it has one.
fn find_newline(s: &str) -> (r: Option<usize>)
    ensures
        r matches Some(p) ==> p as int == nl_pos(s@, 0) && p < s@.len(),
        r is None ==> nl_pos(s@, 0) == s@.len(),
{
    let n = s.unicode_len();
    let mut i: usize = 0;
    while i < n && s.get_char(i) != '\n'
        invariant
            i <= n,
            n == s@.len(),
            nl_pos(s@, 0) == nl_pos(s@, i as int),
        decreases n - i,
    {
        proof {
            assert(nl_pos(s@, i as int) == nl_pos(s@, i + 1 as int));
        }
        i += 1;
    }
    if i < n {
        proof {
            assert(nl_pos(s@, i as int) == i as int);
        }
        Some(i)
    } else {
        None
    }
}

/// State for managing streaming text output.
#[derive(Debug, Clone)]
pub struct StreamState {
    /// Everything received so far.
    pub text_buffer: String,
    /// Complete lines ready to be displayed.
    pub queued_lines: Vec<String>,
    /// Whether any content arrived at all.
    pub has_content: bool,
    /// The line still being built.
    pub current_line: String,
}

/// `n` is `o` after the delta `d` was pushed: the delta lands in the text
/// buffer, its complete lines join the queue, and its tail becomes the
/// partial line.
pub open spec fn pushed(o: StreamState, n: StreamState, d: Seq<char>) -> bool {
    &&& n.has_content == (o.has_content || d.len() > 0)
    &&& n.text_buffer@ == o.text_buffer@ + d
    &&& views_of(n.queued_lines@) == views_of(o.queued_lines@) + complete_lines(
        o.current_line@ + d,
    )
    &&& n.current_line@ == line_rest(o.current_line@ + d)
}

impl StreamState {
    /// An empty stream: nothing buffered, nothing queued.
    pub fn new() -> (r: Self)
        ensures
            r.text_buffer@ == Seq::<char>::empty(),
            r.queued_lines@ == Seq::<String>::empty(),
            !r.has_content,
            r.current_line@ == Seq::<char>::empty(),
    {
        StreamState {
            text_buffer: String::new(),
            queued_lines: Vec::new(),
            has_content: false,
            current_line: String::new(),
        }
    }

    /// Processes a text delta: appends it, and moves every line the delta
    /// completed into the queue.
    pub fn push_delta(&mut self, delta: &str)
        ensures
            pushed(*old(self), *final(self), delta@),
    {
        let ghost combined = old(self).current_line@ + delta@;
        let ghost q0 = views_of(old(self).queued_lines@);
        if !delta.is_empty() {
            self.has_content = true;
        }
        self.text_buffer.append(delta);
        self.current_line.append(delta);

        let mut found = find_newline(self.current_line.as_str());
        while found.is_some()
            invariant
                found matches Some(p) ==> p as int == nl_pos(self.current_line@, 0) && (p as int)
                    < self.current_line@.len(),
                found is None ==> nl_pos(self.current_line@, 0) == self.current_line@.len(),
                q0 + complete_lines(combined) == views_of(self.queued_lines@) + complete_lines(
                    self.current_line@,
                ),
                line_rest(combined) == line_rest(self.current_line@),
                self.text_buffer@ == old(self).text_buffer@ + delta@,
                self.has_content == (old(self).has_content || delta@.len() > 0),
            decreases self.current_line@.len(),
        {
            let p = found.unwrap();
            let n = self.current_line.unicode_len();
            let line = self.current_line.substring_char(0, p).to_owned();
            let rest = self.current_line.substring_char(p + 1, n).to_owned();
            proof {
                let cur = self.current_line@;
                assert(complete_lines(cur) == seq![cur.take(p as int)] + complete_lines(
                    cur.skip(p + 1),
                ));
                assert(line_rest(cur) == line_rest(cur.skip(p + 1)));
                assert(line@ == cur.take(p as int));
                assert(views_of(self.queued_lines@.push(line)) =~= views_of(
                    self.queued_lines@,
                ).push(line@));
                assert(views_of(self.queued_lines@).push(cur.take(p as int)) + complete_lines(
                    cur.skip(p + 1),
                ) =~= views_of(self.queued_lines@) + complete_lines(cur));
            }
            self.queued_lines.push(line);
            self.current_line = rest;
            found = find_newline(self.current_line.as_str());
        }
        proof {
            assert(complete_lines(self.current_line@) =~= Seq::<Seq<char>>::empty());
            assert(line_rest(self.current_line@) == self.current_line@);
            assert(views_of(self.queued_lines@) =~= q0 + complete_lines(combined));
        }
    }

    /// Hands out the next queued line, front first.
    pub fn pop_line(&mut self) -> (r: Option<String>)
        ensures
            old(self).queued_lines@.len() == 0 ==> r is None && *final(self) == *old(self),
            old(self).queued_lines@.len() > 0 ==> r == Some(old(self).queued_lines@[0]) && final(self).queued_lines@ == old(self).queued_lines@.remove(0),
            final(self).text_buffer == old(self).text_buffer,
            final(self).current_line == old(self).current_line,
            final(self).has_content == old(self).has_content,
    {
        if self.queued_lines.len() == 0 {
            None
        } else {
            Some(self.queued_lines.remove(0))
        }
    }

    /// Hands out every queued line, in order, leaving the queue empty.
    pub fn drain_lines(&mut self) -> (r: Vec<String>)
        ensures
            r@ == old(self).queued_lines@,
            final(self).queued_lines@ == Seq::<String>::empty(),
            final(self).text_buffer == old(self).text_buffer,
            final(self).current_line == old(self).current_line,
            final(self).has_content == old(self).has_content,
    {
        let mut out: Vec<String> = Vec::new();
        core::mem::swap(&mut out, &mut self.queued_lines);
        proof {
            assert(final(self).queued_lines@ =~= Seq::<String>::empty());
        }
        out
    }

    /// Whether lines are ready to display.
    pub fn has_lines(&self) -> (r: bool)
        ensures
            r == (self.queued_lines@.len() > 0),
    {
        self.queued_lines.len() > 0
    }

    /// The partial line still being built.
    pub fn get_current_line(&self) -> (r: &str)
        ensures
            r@ == self.current_line@,
    {
        self.current_line.as_str()
    }

    /// Whether any content arrived at all.
    pub fn has_content(&self) -> (r: bool)
        ensures
            r == self.has_content,
    {
        self.has_content
    }

    /// Empties the queue and, when the partial line is not blank, appends
    /// it as a final line.
    pub fn finalize(&mut self) -> (r: Vec<String>)
        ensures
            trim_spec(old(self).current_line@).len() == 0 ==> views_of(r@) == views_of(
                old(self).queued_lines@,
            ),
            trim_spec(old(self).current_line@).len() > 0 ==> views_of(r@) == views_of(
                old(self).queued_lines@,
            ).push(old(self).current_line@),
            final(self).queued_lines@ == Seq::<String>::empty(),
            final(self).text_buffer == old(self).text_buffer,
            final(self).current_line == old(self).current_line,
            final(self).has_content == old(self).has_content,
    {
        let mut lines = self.drain_lines();
        let blank = {
            let trimmed = trim(self.current_line.as_str());
            trimmed.unicode_len() == 0
        };
        if !blank {
            let ghost before = lines@;
            lines.push(self.current_line.clone());
            proof {
                assert(views_of(lines@) =~= views_of(before).push(old(self).current_line@));
            }
        }
        lines
    }

    /// Clears all state.
    pub fn clear(&mut self)
        ensures
            final(self).text_buffer@ == Seq::<char>::empty(),
            final(self).queued_lines@ == Seq::<String>::empty(),
            !final(self).has_content,
            final(self).current_line@ == Seq::<char>::empty(),
    {
        self.text_buffer = String::new();
        self.queued_lines = Vec::new();
        self.current_line = String::new();
        self.has_content = false;
    }
}

/// Controller for managing a streaming model response.
#[derive(Debug, Clone)]
pub struct StreamController {
    /// The line-cutting state.
    pub state: StreamState,
    /// Whether a stream is in flight.
    pub is_streaming: bool,
    /// Whether the stream has ended.
    pub is_complete: bool,
}

/// `n.state` is `o.state` after `d` was pushed and the queue was drained
/// into `r`.
pub open spec fn drained_after_push(
    o: StreamController,
    n: StreamController,
    d: Seq<char>,
    r: Seq<Seq<char>>,
) -> bool {
    &&& r == views_of(o.state.queued_lines@) + complete_lines(o.state.current_line@ + d)
    &&& n.state.queued_lines@.len() == 0
    &&& n.state.current_line@ == line_rest(o.state.current_line@ + d)
    &&& n.state.text_buffer@ == o.state.text_buffer@ + d
    &&& n.state.has_content == (o.state.has_content || d.len() > 0)
    &&& n.is_streaming == o.is_streaming
    &&& n.is_complete == o.is_complete
}

impl StreamController {
    /// A controller with no stream yet.
    pub fn new() -> (r: Self)
        ensures
            !r.is_streaming,
            !r.is_complete,
            !r.state.has_content,
            r.state.queued_lines@ == Seq::<String>::empty(),
            r.state.current_line@ == Seq::<char>::empty(),
            r.state.text_buffer@ == Seq::<char>::empty(),
    {
        StreamController { state: StreamState::new(), is_streaming: false, is_complete: false }
    }

    /// Marks a stream as started.
    pub fn start_streaming(&mut self)
        ensures
            final(self).is_streaming,
            !final(self).is_complete,
            final(self).state == old(self).state,
    {
        self.is_streaming = true;
        self.is_complete = false;
    }

    /// Feeds one model event through the line cutter and returns the lines
    /// it made ready: the completed lines for text and reasoning deltas
    /// (reasoning is prefixed), everything left over when the stream ends,
    /// and a single error line on failure.
    pub fn process_event(&mut self, event: LlmEvent) -> (r: Vec<String>)
        ensures
            event matches LlmEvent::TextDelta(d) ==> drained_after_push(
                *old(self),
                *final(self),
                d@,
                views_of(r@),
            ),
            event matches LlmEvent::ResponseComplete(d) ==> drained_after_push(
                *old(self),
                *final(self),
                d@,
                views_of(r@),
            ),
            event matches LlmEvent::ReasoningDelta(d) ==> drained_after_push(
                *old(self),
                *final(self),
                "\u{1f4ad} "@ + d@,
                views_of(r@),
            ),
            event is StreamComplete ==> final(self).is_complete && !final(self).is_streaming && (
            trim_spec(old(self).state.current_line@).len() == 0 ==> views_of(r@) == views_of(
                old(self).state.queued_lines@,
            )) && (trim_spec(old(self).state.current_line@).len() > 0 ==> views_of(r@) == views_of(
                old(self).state.queued_lines@,
            ).push(old(self).state.current_line@)) && final(self).state.queued_lines@
                == Seq::<String>::empty() && final(self).state.current_line == old(self).state.current_line,
            event matches LlmEvent::Error(e) ==> final(self).is_complete && !final(self).is_streaming && final(self).state == old(self).state && views_of(r@) == seq![
                "\u{274c} Error: "@ + e@,
            ],
    {
        match event {
            LlmEvent::TextDelta(delta) => {
                self.state.push_delta(delta.as_str());
                self.state.drain_lines()
            },
            LlmEvent::ResponseComplete(content) => {
                self.state.push_delta(content.as_str());
                self.state.drain_lines()
            },
            LlmEvent::ReasoningDelta(delta) => {
                let mut prefixed = String::from_str("\u{1f4ad} ");
                prefixed.append(delta.as_str());
                self.state.push_delta(prefixed.as_str());
                self.state.drain_lines()
            },
            LlmEvent::StreamComplete => {
                self.is_complete = true;
                self.is_streaming = false;
                self.state.finalize()
            },
            LlmEvent::Error(error) => {
                self.is_complete = true;
                self.is_streaming = false;
                let mut line = String::from_str("\u{274c} Error: ");
                line.append(error.as_str());
                let mut out: Vec<String> = Vec::new();
                out.push(line);
                proof {
                    assert(views_of(out@) =~= seq!["\u{274c} Error: "@ + error@]);
                }
                out
            },
        }
    }

    /// The partial line to display at the cursor, when there is one.
    pub fn get_current_line(&self) -> (r: Option<String>)
        ensures
            r is Some <==> self.state.current_line@.len() > 0,
            r matches Some(s) ==> s@ == self.state.current_line@,
    {
        if self.state.current_line.as_str().unicode_len() == 0 {
            None
        } else {
            Some(self.state.current_line.clone())
        }
    }

    /// Whether a stream is in flight.
    pub fn is_streaming(&self) -> (r: bool)
        ensures
            r == self.is_streaming,
    {
        self.is_streaming
    }

    /// Whether the stream has ended.
    pub fn is_complete(&self) -> (r: bool)
        ensures
            r == self.is_complete,
    {
        self.is_complete
    }

    /// Whether any content arrived at all.
    pub fn has_content(&self) -> (r: bool)
        ensures
            r == self.state.has_content,
    {
        self.state.has_content()
    }

    /// Puts the controller back in its starting state.
    pub fn reset(&mut self)
        ensures
            !final(self).is_streaming,
            !final(self).is_complete,
            !final(self).state.has_content,
            final(self).state.queued_lines@ == Seq::<String>::empty(),
            final(self).state.current_line@ == Seq::<char>::empty(),
            final(self).state.text_buffer@ == Seq::<char>::empty(),
    {
        self.state.clear();
        self.is_streaming = false;
        self.is_complete = false;
    }
}

} // verus!
