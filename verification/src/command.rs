use crate::git_entity::GitEntity;
use vstd::prelude::*;

verus! {

/// A system/user prompt pair, produced fresh for every invocation.
#[derive(Debug, Clone)]
pub struct AIPrompt {
    pub system_prompt: String,
    pub user_prompt: String,
}

/// The command being run: generate a commit message for the staged changes,
/// explain a change entity, or run the configuration wizard.
pub enum CommandType {
    Generate,
    Explain { git_entity: GitEntity },
    Configure,
}

} // verus!
