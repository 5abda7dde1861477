//! What the agent does to the text that the model hands back.

pub mod git;
pub mod markdown;
