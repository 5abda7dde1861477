//! The decision core of an autonomous coding agent.
//!
//! The agent drives a language model through a loop of actions that run inside
//! a container. Everything in this crate is a computation on plain values:
//! prompts, histories, archive layouts and the state machine that decides what
//! to ask for next. Talking to the model and to the container is left to the
//! program that links the crate.

pub mod actions;
pub mod container;
pub mod devcontainer;
pub mod interaction_loop;
pub mod llm;
pub mod text;
