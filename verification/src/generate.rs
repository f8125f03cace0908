use crate::command::AIPrompt;
use crate::git_entity::{Diff, GitEntity};
use crate::llm::AIPromptError;
use vstd::prelude::*;
use vstd::string::*;

verus! {

/// The fixed taxonomy of commit-type labels embedded in the generation
/// prompt, with one-line descriptions; the model is told to choose one.
pub open spec fn commit_types_text() -> Seq<char> {
    "{\n    \"docs\": \"Documentation only changes\",\n    \"style\": \"Changes that do not affect the meaning of the code\",\n    \"refactor\": \"A code change that neither fixes a bug nor adds a feature\",\n    \"perf\": \"A code change that improves performance\",\n    \"test\": \"Adding missing tests or correcting existing tests\",\n    \"build\": \"Changes that affect the build system or external dependencies\",\n    \"ci\": \"Changes to our CI configuration files and scripts\",\n    \"chore\": \"Other changes that don't modify src or test files\",\n    \"revert\": \"Reverts a previous commit\",\n    \"feat\": \"A new feature\",\n    \"fix\": \"A bug fix\"\n}\n"@
}

/// Renders the commit-type taxonomy.
pub fn default_commit_types() -> (r: String)
    ensures
        r@ == commit_types_text(),
{
    "{\n    \"docs\": \"Documentation only changes\",\n    \"style\": \"Changes that do not affect the meaning of the code\",\n    \"refactor\": \"A code change that neither fixes a bug nor adds a feature\",\n    \"perf\": \"A code change that improves performance\",\n    \"test\": \"Adding missing tests or correcting existing tests\",\n    \"build\": \"Changes that affect the build system or external dependencies\",\n    \"ci\": \"Changes to our CI configuration files and scripts\",\n    \"chore\": \"Other changes that don't modify src or test files\",\n    \"revert\": \"Reverts a previous commit\",\n    \"feat\": \"A new feature\",\n    \"fix\": \"A bug fix\"\n}\n".to_owned()
}

/// The fixed system prompt for commit-message generation.
pub open spec fn generate_system_text() -> Seq<char> {
    "You are a commit message generator that follows these rules:\n1. Write in present tense\n2. Be concise and direct\n3. Output only the commit message without any explanations\n4. Follow the format: <type>(<optional scope>): <commit message>\n"@
}

/// The user prompt for commit-message generation: fixed instructions, the
/// commit-type taxonomy, and the diff text embedded verbatim.
pub open spec fn generate_user_text(diff: Seq<char>) -> Seq<char> {
    "Generate a concise git commit message written in present tense for the following code diff with the given specifications below:\n\nThe output response must be in format:\n<type>(<optional scope>): <commit message>\nChoose a type from the type-to-description JSON below that best describes the git diff:\n"@
        + commit_types_text()
        + "\nFocus on being accurate and concise.\nCommit message must be a maximum of 72 characters.\nExclude anything unnecessary such as translation. Your entire response will be passed directly into git commit.\n\nCode diff:\n```diff\n"@
        + diff + "\n```\n"@
}

/// Generates a commit message for a working-tree diff.
pub struct GenerateCommand {
    pub git_entity: GitEntity,
}

impl GenerateCommand {
    /// Assembles the generation prompt. Generation is defined only for a
    /// working-tree diff: a commit or a commit range is refused, since a
    /// commit message needs a single coherent uncommitted change set.
    pub fn get_ai_prompt(&self) -> (r: Result<AIPrompt, AIPromptError>)
        ensures
            match self.git_entity {
                GitEntity::Diff(Diff::WorkingTree { ref diff, .. }) => match r {
                    Ok(p) => p.system_prompt@ == generate_system_text() && p.user_prompt@
                        == generate_user_text(diff@),
                    Err(_) => false,
                },
                _ => match r {
                    Ok(_) => false,
                    Err(e) => e.0@ == "`draft` is only supported for working tree diffs"@,
                },
            },
    {
        let diff = match &self.git_entity {
            GitEntity::Diff(Diff::WorkingTree { diff, .. }) => diff,
            _ => {
                return Err(
                    AIPromptError("`draft` is only supported for working tree diffs".to_owned()),
                );
            },
        };
        let system_prompt =
            "You are a commit message generator that follows these rules:\n1. Write in present tense\n2. Be concise and direct\n3. Output only the commit message without any explanations\n4. Follow the format: <type>(<optional scope>): <commit message>\n".to_owned();
        let mut user_prompt =
            "Generate a concise git commit message written in present tense for the following code diff with the given specifications below:\n\nThe output response must be in format:\n<type>(<optional scope>): <commit message>\nChoose a type from the type-to-description JSON below that best describes the git diff:\n".to_owned();
        let commit_types = default_commit_types();
        user_prompt.append(commit_types.as_str());
        user_prompt.append(
            "\nFocus on being accurate and concise.\nCommit message must be a maximum of 72 characters.\nExclude anything unnecessary such as translation. Your entire response will be passed directly into git commit.\n\nCode diff:\n```diff\n",
        );
        user_prompt.append(diff.as_str());
        user_prompt.append("\n```\n");
        proof {
            assert(user_prompt@ =~= generate_user_text(diff@));
        }
        Ok(AIPrompt { system_prompt, user_prompt })
    }
}

} // verus!
