//! Workflow-phase engine for a project assistant.
//!
//! A project moves through four sequential modes (brainstorm, plan, execute,
//! document).  Each mode grants a different, strictly limited set of tool
//! capabilities over the user's filesystem and shell.  The heart of the crate
//! is the capability-gated tool dispatch engine in [`tools`]: it decides, for
//! any requested action, whether that action is permitted in the current mode
//! and whether it needs explicit human approval before execution.
//!
//! Around that core sit the mode model ([`events`], [`prompts`], [`agent`]),
//! the slash-command parser ([`commands`]), the input composer ([`composer`]),
//! the streaming line cutter ([`streaming`]) and the provider configuration
//! model ([`config`]).

pub mod agent;
pub mod commands;
pub mod composer;
pub mod config;
pub mod events;
pub mod llm;
pub mod prompts;
pub mod streaming;
pub mod text;
pub mod tools;
