//! The interaction loop: what the agent remembers and what it does next.

pub mod history;
pub mod prompts;
pub mod resources;
pub mod run;
