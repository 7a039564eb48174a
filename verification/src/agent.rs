//! The agent's conversational decisions: when to suggest moving the
//! project to its next workflow mode, and what system prompt and context
//! summary to send with each request.  The surrounding conversation loop
//! owns the history and the network; it hands plain values in and performs
//! mode switches only on the user's request.

use vstd::prelude::*;

use crate::events::BindrMode;
use crate::events::ConversationEntry;
use crate::text::join_spaces;
use crate::text::join_words;
use crate::text::views_of;

verus! {

/// The mode worth suggesting next, if any: planning after three
/// conversation entries of brainstorming, execution after two of planning,
/// documentation after one of execution.  Documentation is terminal.
pub open spec fn suggested_transition(mode: BindrMode, conversation_len: nat) -> Option<
    BindrMode,
> {
    match mode {
        BindrMode::Brainstorm => if conversation_len >= 3 {
            Some(BindrMode::Plan)
        } else {
            None
        },
        BindrMode::Plan => if conversation_len >= 2 {
            Some(BindrMode::Execute)
        } else {
            None
        },
        BindrMode::Execute => if conversation_len >= 1 {
            Some(BindrMode::Document)
        } else {
            None
        },
        BindrMode::Document => None,
    }
}

/// Whether to suggest a mode transition, given the current mode and how
/// many entries the conversation holds.
pub fn should_suggest_transition(mode: BindrMode, conversation_len: usize) -> (r: Option<
    BindrMode,
>)
    ensures
        r == suggested_transition(mode, conversation_len as nat),
{
    match mode {
        BindrMode::Brainstorm => {
            if conversation_len >= 3 {
                Some(BindrMode::Plan)
            } else {
                None
            }
        },
        BindrMode::Plan => {
            if conversation_len >= 2 {
                Some(BindrMode::Execute)
            } else {
                None
            }
        },
        BindrMode::Execute => {
            if conversation_len >= 1 {
                Some(BindrMode::Document)
            } else {
                None
            }
        },
        BindrMode::Document => None,
    }
}

/// The message shown with a transition suggestion to each mode.
pub open spec fn transition_message(target: BindrMode) -> Option<Seq<char>> {
    match target {
        BindrMode::Plan => Some(
            "Ready to create a detailed plan? Press 'P' to switch to Planning mode."@,
        ),
        BindrMode::Execute => Some(
            "Ready to start implementation? Press 'E' to switch to Execution mode."@,
        ),
        BindrMode::Document => Some(
            "Ready to document your work? Press 'D' to switch to Documentation mode."@,
        ),
        BindrMode::Brainstorm => None,
    }
}

/// The suggestion message owed for a conversation state: the message of
/// the suggested mode, or nothing while no transition is suggested.
pub open spec fn suggestion_spec(mode: BindrMode, conversation_len: nat) -> Option<Seq<char>> {
    match suggested_transition(mode, conversation_len) {
        Some(target) => transition_message(target),
        None => None,
    }
}

/// The transition suggestion to show the user, if any.
pub fn get_transition_suggestion(mode: BindrMode, conversation_len: usize) -> (r: Option<String>)
    ensures
        r is Some <==> suggestion_spec(mode, conversation_len as nat) is Some,
        r matches Some(s) ==> suggestion_spec(mode, conversation_len as nat) matches Some(v) && s@
            == v,
{
    match should_suggest_transition(mode, conversation_len) {
        Some(BindrMode::Plan) => Some(
            String::from_str(
                "Ready to create a detailed plan? Press 'P' to switch to Planning mode.",
            ),
        ),
        Some(BindrMode::Execute) => Some(
            String::from_str(
                "Ready to start implementation? Press 'E' to switch to Execution mode.",
            ),
        ),
        Some(BindrMode::Document) => Some(
            String::from_str(
                "Ready to document your work? Press 'D' to switch to Documentation mode.",
            ),
        ),
        _ => None,
    }
}

/// The contents of the assistant's entries in `h`, scanning from `i`.
pub open spec fn assistant_contents_from(h: Seq<ConversationEntry>, i: int) -> Seq<Seq<char>>
    decreases h.len() - i when 0 <= i <= h.len()
{
    if i >= h.len() {
        Seq::empty()
    } else if h[i].role is Assistant {
        seq![h[i].content@] + assistant_contents_from(h, i + 1)
    } else {
        assistant_contents_from(h, i + 1)
    }
}

/// The contents of the assistant's entries in `h`, in order.
pub open spec fn assistant_contents(h: Seq<ConversationEntry>) -> Seq<Seq<char>> {
    assistant_contents_from(h, 0)
}

/// The brainstorming summary owed for a history: nothing while the
/// assistant has said nothing; otherwise the assistant's entries joined
/// with single spaces, shortened to 500 characters and an ellipsis when
/// they run long.
pub open spec fn brainstorm_summary(h: Seq<ConversationEntry>) -> Option<Seq<char>> {
    let contents = assistant_contents(h);
    if contents.len() == 0 {
        None
    } else {
        let joined = join_spaces(contents);
        if joined.len() > 500 {
            Some(joined.take(500) + "..."@)
        } else {
            Some(joined)
        }
    }
}

/// A summary of the brainstorming so far, if there is anything to
/// summarize.
pub fn get_brainstorm_context(history: &Vec<ConversationEntry>) -> (r: Option<String>)
    ensures
        r is Some <==> brainstorm_summary(history@) is Some,
        r matches Some(s) ==> brainstorm_summary(history@) matches Some(v) && s@ == v,
{
    let ghost h = history@;
    let mut contents: Vec<String> = Vec::new();
    let mut i: usize = 0;
    while i < history.len()
        invariant
            i <= h.len(),
            h == history@,
            assistant_contents(h) == views_of(contents@) + assistant_contents_from(h, i as int),
        decreases h.len() - i,
    {
        if matches!(history[i].role, crate::events::ConversationRole::Assistant) {
            let ghost before = contents@;
            contents.push(history[i].content.clone());
            proof {
                assert(views_of(contents@) =~= views_of(before).push(h[i as int].content@));
                assert(views_of(before).push(h[i as int].content@) + assistant_contents_from(
                    h,
                    i + 1,
                ) =~= views_of(before) + assistant_contents_from(h, i as int));
            }
        }
        i += 1;
    }
    proof {
        assert(assistant_contents_from(h, i as int) =~= Seq::<Seq<char>>::empty());
        assert(views_of(contents@) =~= assistant_contents(h));
    }
    if contents.len() == 0 {
        return None;
    }
    let summary = join_words(&contents, 0);
    proof {
        assert(views_of(contents@).skip(0) =~= views_of(contents@));
    }
    if summary.as_str().unicode_len() > 500 {
        let mut shortened = summary.as_str().substring_char(0, 500).to_owned();
        shortened.append("...");
        Some(shortened)
    } else {
        Some(summary)
    }
}

/// The context block owed for a history: empty while there is nothing to
/// summarize, otherwise the brainstorming summary under its heading.
/// Planning and execution are not summarized yet.
pub open spec fn mode_context_spec(h: Seq<ConversationEntry>) -> Seq<char> {
    match brainstorm_summary(h) {
        None => Seq::empty(),
        Some(b) => "Brainstorming: "@ + b,
    }
}

/// The context gathered from previous modes, for the system prompt.
pub fn get_mode_context(history: &Vec<ConversationEntry>) -> (r: String)
    ensures
        r@ == mode_context_spec(history@),
{
    match get_brainstorm_context(history) {
        None => String::new(),
        Some(brainstorm) => {
            let mut out = String::from_str("Brainstorming: ");
            out.append(brainstorm.as_str());
            out
        },
    }
}

/// The conversational system prompt of each mode.
pub open spec fn base_prompt_spec(mode: BindrMode) -> Seq<char> {
    match mode {
        BindrMode::Brainstorm => "You are a creative brainstorming assistant for Bindr. Help users explore ideas, think outside the box, and generate innovative concepts. Be concise, creative, and encouraging. Ask probing questions to help users refine their ideas. When the user seems ready to move forward with a concept, suggest creating a project and moving to planning mode."@,
        BindrMode::Plan => "You are a detailed project planning assistant for Bindr. Create comprehensive, structured plans with clear steps, architecture decisions, and implementation roadmaps. Be thorough, organized, and practical. Focus on actionable items and realistic timelines. Generate a detailed plan that can be used for implementation. When the plan is complete, suggest moving to execution mode."@,
        BindrMode::Execute => "You are a code implementation assistant for Bindr. Generate clean, well-documented code based on project plans. Follow best practices, include error handling, and write tests when appropriate. Be precise and efficient in your implementations. Focus on creating working, production-ready code. When implementation is complete, suggest moving to documentation mode."@,
        BindrMode::Document => "You are a documentation specialist for Bindr. Create clear, comprehensive documentation that explains what was built, how it works, and how to use it. Be thorough but concise, and focus on practical information for developers and users. Generate documentation that makes the project accessible and maintainable."@,
    }
}

/// The full system prompt owed for a mode and history: the mode's base
/// prompt, and the context block under its heading when there is one.
pub open spec fn system_prompt_spec(mode: BindrMode, h: Seq<ConversationEntry>) -> Seq<char> {
    let context = mode_context_spec(h);
    if context.len() == 0 {
        base_prompt_spec(mode)
    } else {
        base_prompt_spec(mode) + "\n\nContext from previous work:\n"@ + context
    }
}

/// The system prompt for the current mode, with context from previous
/// work when there is any.
pub fn get_system_prompt(mode: BindrMode, history: &Vec<ConversationEntry>) -> (r: String)
    ensures
        r@ == system_prompt_spec(mode, history@),
{
    let base = match mode {
        BindrMode::Brainstorm => "You are a creative brainstorming assistant for Bindr. Help users explore ideas, think outside the box, and generate innovative concepts. Be concise, creative, and encouraging. Ask probing questions to help users refine their ideas. When the user seems ready to move forward with a concept, suggest creating a project and moving to planning mode.",
        BindrMode::Plan => "You are a detailed project planning assistant for Bindr. Create comprehensive, structured plans with clear steps, architecture decisions, and implementation roadmaps. Be thorough, organized, and practical. Focus on actionable items and realistic timelines. Generate a detailed plan that can be used for implementation. When the plan is complete, suggest moving to execution mode.",
        BindrMode::Execute => "You are a code implementation assistant for Bindr. Generate clean, well-documented code based on project plans. Follow best practices, include error handling, and write tests when appropriate. Be precise and efficient in your implementations. Focus on creating working, production-ready code. When implementation is complete, suggest moving to documentation mode.",
        BindrMode::Document => "You are a documentation specialist for Bindr. Create clear, comprehensive documentation that explains what was built, how it works, and how to use it. Be thorough but concise, and focus on practical information for developers and users. Generate documentation that makes the project accessible and maintainable.",
    };
    let context = get_mode_context(history);
    if context.as_str().unicode_len() == 0 {
        String::from_str(base)
    } else {
        let mut out = String::from_str(base);
        out.append("\n\nContext from previous work:\n");
        out.append(context.as_str());
        out
    }
}

/// The terse system prompt of each mode, used when starting a fresh
/// conversation in that mode.
pub open spec fn mode_system_prompt_spec(mode: BindrMode) -> Seq<char> {
    match mode {
        BindrMode::Brainstorm => "You are a creative brainstorming assistant. Help users explore ideas, think outside the box, and generate innovative concepts. Be enthusiastic, creative, and encouraging. Ask probing questions to help users refine their ideas."@,
        BindrMode::Plan => "You are a detailed project planning assistant. Create comprehensive, structured plans with clear steps, architecture decisions, and implementation roadmaps. Be thorough, organized, and practical. Focus on actionable items and realistic timelines."@,
        BindrMode::Execute => "You are a code implementation assistant. Generate clean, well-documented code based on project plans. Follow best practices, include error handling, and write tests when appropriate. Be precise and efficient in your implementations."@,
        BindrMode::Document => "You are a documentation specialist. Create clear, comprehensive documentation that explains what was built, how it works, and how to use it. Be thorough but concise, and focus on practical information for developers and users."@,
    }
}

/// The terse system prompt for a specific mode.
pub fn get_system_prompt_for_mode(mode: BindrMode) -> (r: String)
    ensures
        r@ == mode_system_prompt_spec(mode),
{
    let prompt = match mode {
        BindrMode::Brainstorm => "You are a creative brainstorming assistant. Help users explore ideas, think outside the box, and generate innovative concepts. Be enthusiastic, creative, and encouraging. Ask probing questions to help users refine their ideas.",
        BindrMode::Plan => "You are a detailed project planning assistant. Create comprehensive, structured plans with clear steps, architecture decisions, and implementation roadmaps. Be thorough, organized, and practical. Focus on actionable items and realistic timelines.",
        BindrMode::Execute => "You are a code implementation assistant. Generate clean, well-documented code based on project plans. Follow best practices, include error handling, and write tests when appropriate. Be precise and efficient in your implementations.",
        BindrMode::Document => "You are a documentation specialist. Create clear, comprehensive documentation that explains what was built, how it works, and how to use it. Be thorough but concise, and focus on practical information for developers and users.",
    };
    String::from_str(prompt)
}

} // verus!
