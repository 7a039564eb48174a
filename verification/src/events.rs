//! Workflow modes and the events exchanged between the engine's components.

use vstd::prelude::*;

verus! {

/// The four sequential workflow modes a project moves through.
#[derive(Debug, Clone, Copy, PartialEq, Eq, Hash, Structural)]
pub enum BindrMode {
    /// Brainstorming: exploring ideas.
    Brainstorm,
    /// Planning: creating the project structure.
    Plan,
    /// Execution: implementing code.
    Execute,
    /// Documentation: summarizing results.
    Document,
}

impl BindrMode {
    /// The name of the mode as shown in the interface.
    pub open spec fn display_name_spec(self) -> Seq<char> {
        match self {
            BindrMode::Brainstorm => "Brainstorm"@,
            BindrMode::Plan => "Plan"@,
            BindrMode::Execute => "Execute"@,
            BindrMode::Document => "Document"@,
        }
    }

    /// The name of the mode as shown in the interface.
    pub fn display_name(&self) -> (r: &'static str)
        ensures
            r@ == self.display_name_spec(),
    {
        match self {
            BindrMode::Brainstorm => "Brainstorm",
            BindrMode::Plan => "Plan",
            BindrMode::Execute => "Execute",
            BindrMode::Document => "Document",
        }
    }

    /// The one-line summary of what the mode is for.
    pub open spec fn description_spec(self) -> Seq<char> {
        match self {
            BindrMode::Brainstorm => "Explore ideas and define your project"@,
            BindrMode::Plan => "Structure your project and create roadmap"@,
            BindrMode::Execute => "Implement your project based on the plan"@,
            BindrMode::Document => "Document what was built and create changelog"@,
        }
    }

    /// The one-line summary of what the mode is for.
    pub fn description(&self) -> (r: &'static str)
        ensures
            r@ == self.description_spec(),
    {
        match self {
            BindrMode::Brainstorm => "Explore ideas and define your project",
            BindrMode::Plan => "Structure your project and create roadmap",
            BindrMode::Execute => "Implement your project based on the plan",
            BindrMode::Document => "Document what was built and create changelog",
        }
    }

    /// The mode that follows this one in the workflow, if any.
    pub open spec fn next_mode_spec(self) -> Option<BindrMode> {
        match self {
            BindrMode::Brainstorm => Some(BindrMode::Plan),
            BindrMode::Plan => Some(BindrMode::Execute),
            BindrMode::Execute => Some(BindrMode::Document),
            BindrMode::Document => None,
        }
    }

    /// The mode that follows this one in the workflow, if any.
    pub fn next_mode(&self) -> (r: Option<BindrMode>)
        ensures
            r == self.next_mode_spec(),
    {
        match self {
            BindrMode::Brainstorm => Some(BindrMode::Plan),
            BindrMode::Plan => Some(BindrMode::Execute),
            BindrMode::Execute => Some(BindrMode::Document),
            BindrMode::Document => None,
        }
    }
}

/// Events produced while a language-model response streams in.
#[derive(Debug, Clone)]
pub enum LlmStreamEvent {
    /// Text delta from the streaming response.
    TextDelta(String),
    /// Complete response item.
    ResponseComplete(String),
    /// Reasoning content.
    ReasoningDelta(String),
    /// Stream completed.
    StreamComplete,
    /// Error occurred.
    Error(String),
}

/// The speaker of a conversation entry.
#[derive(Debug, Clone, PartialEq, Eq, Structural)]
pub enum ConversationRole {
    /// The human user.
    User,
    /// The language model.
    Assistant,
    /// The surrounding system.
    System,
}

impl ConversationRole {
    /// The wire name of the role.
    pub open spec fn as_str_spec(self) -> Seq<char> {
        match self {
            ConversationRole::User => "user"@,
            ConversationRole::Assistant => "assistant"@,
            ConversationRole::System => "system"@,
        }
    }

    /// The wire name of the role.
    pub fn as_str(&self) -> (r: &'static str)
        ensures
            r@ == self.as_str_spec(),
    {
        match self {
            ConversationRole::User => "user",
            ConversationRole::Assistant => "assistant",
            ConversationRole::System => "system",
        }
    }
}

/// One entry of a project's conversation history.
#[derive(Debug, Clone)]
pub struct ConversationEntry {
    /// The mode the entry was made in.
    pub mode: BindrMode,
    /// Who spoke.
    pub role: ConversationRole,
    /// What was said.
    pub content: String,
    /// When, as an RFC 3339 timestamp the caller formatted.
    pub timestamp: String,
}

/// A project's state, as saved and restored between sittings.
#[derive(Debug, Clone)]
pub struct ProjectState {
    /// The project's name.
    pub name: String,
    /// Where the project lives on disk.
    pub path: String,
    /// The mode the project is in.
    pub current_mode: BindrMode,
    /// When the project was created.
    pub created_at: String,
    /// When the project last changed.
    pub last_modified: String,
    /// The project's notes file.
    pub bindr_md_content: String,
    /// Everything said so far.
    pub conversation_history: Vec<ConversationEntry>,
    /// How many conversation entries there are.
    pub conversation_count: usize,
    /// When something last happened.
    pub last_activity: String,
}

/// What a session needs to be resumed.
#[derive(Debug, Clone)]
pub struct SessionInfo {
    /// The project the session belongs to.
    pub project_name: String,
    /// The mode the session is in.
    pub current_mode: BindrMode,
    /// The session's identifier.
    pub session_id: String,
    /// When the session was created.
    pub created_at: String,
    /// When something last happened.
    pub last_activity: String,
}

} // verus!
