use crate::command::AIPrompt;
use crate::git_entity::{Diff, GitEntity};
use crate::llm::AIPromptError;
use vstd::prelude::*;
use vstd::string::*;

verus! {

/// The fixed system prompt for explanations.
pub open spec fn explain_system_text() -> Seq<char> {
    "You are a helpful assistant that explains Git changes in a concise way.\nFocus only on the most significant changes and their direct impact.\nWhen answering specific questions, address them directly and precisely.\nKeep explanations brief but informative and don't ask for further explanations.\nUse markdown for clarity.\n"@
}

/// The user prompt for explaining one commit: its message and its diff,
/// asking for core changes and direct impact.
pub open spec fn explain_commit_user_text(message: Seq<char>, diff: Seq<char>) -> Seq<char> {
    "Context - Commit:\n\nMessage: "@ + message + "\nChanges:\n```diff\n"@ + diff + "\n```\n"@
        + "\n\nProvide a short explanation covering:\n1. Core changes made\n2. Direct impact\n"@
}

/// The user prompt for explaining uncommitted changes: the diff alone,
/// asking for key changes and notable concerns. The framing differs on
/// purpose from the one used for settled history.
pub open spec fn explain_working_tree_user_text(diff: Seq<char>) -> Seq<char> {
    "Context - Changes:\n\n```diff\n"@ + diff + "\n```\n"@
        + "\n\nProvide:\n1. Key changes\n2. Notable concerns (if any)\n"@
}

/// The user prompt for explaining a commit range: the diff alone, asking
/// for core changes and direct impact.
pub open spec fn explain_range_user_text(diff: Seq<char>) -> Seq<char> {
    "Context - Changes:\n\n```diff\n"@ + diff + "\n```\n"@
        + "\n\nProvide:\n1. Core changes made\n2. Direct impact\n"@
}

/// Explains a change entity in natural language.
pub struct ExplainCommand {
    pub git_entity: GitEntity,
}

impl ExplainCommand {
    /// Assembles the explanation prompt. Every entity shape is accepted; the
    /// system prompt is fixed, and the user prompt varies by shape.
    pub fn get_ai_prompt(&self) -> (r: Result<AIPrompt, AIPromptError>)
        ensures
            match r {
                Ok(p) => p.system_prompt@ == explain_system_text() && p.user_prompt@ == (
                match self.git_entity {
                    GitEntity::Commit(ref c) => explain_commit_user_text(c.message@, c.diff@),
                    GitEntity::Diff(Diff::WorkingTree { ref diff, .. }) =>
                        explain_working_tree_user_text(diff@),
                    GitEntity::Diff(Diff::CommitsRange { ref diff, .. }) => explain_range_user_text(
                        diff@,
                    ),
                }),
                Err(_) => false,
            },
    {
        let system_prompt =
            "You are a helpful assistant that explains Git changes in a concise way.\nFocus only on the most significant changes and their direct impact.\nWhen answering specific questions, address them directly and precisely.\nKeep explanations brief but informative and don't ask for further explanations.\nUse markdown for clarity.\n".to_owned();
        let user_prompt = match &self.git_entity {
            GitEntity::Commit(commit) => {
                let mut p = "Context - Commit:\n\nMessage: ".to_owned();
                p.append(commit.message.as_str());
                p.append("\nChanges:\n```diff\n");
                p.append(commit.diff.as_str());
                p.append("\n```\n");
                p.append(
                    "\n\nProvide a short explanation covering:\n1. Core changes made\n2. Direct impact\n",
                );
                proof {
                    assert(p@ =~= explain_commit_user_text(commit.message@, commit.diff@));
                }
                p
            },
            GitEntity::Diff(Diff::WorkingTree { diff, .. }) => {
                let mut p = "Context - Changes:\n\n```diff\n".to_owned();
                p.append(diff.as_str());
                p.append("\n```\n");
                p.append("\n\nProvide:\n1. Key changes\n2. Notable concerns (if any)\n");
                proof {
                    assert(p@ =~= explain_working_tree_user_text(diff@));
                }
                p
            },
            GitEntity::Diff(Diff::CommitsRange { diff, .. }) => {
                let mut p = "Context - Changes:\n\n```diff\n".to_owned();
                p.append(diff.as_str());
                p.append("\n```\n");
                p.append("\n\nProvide:\n1. Core changes made\n2. Direct impact\n");
                proof {
                    assert(p@ =~= explain_range_user_text(diff@));
                }
                p
            },
        };
        Ok(AIPrompt { system_prompt, user_prompt })
    }
}

} // verus!
