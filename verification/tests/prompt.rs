use gitai::explain::ExplainCommand;
use gitai::generate::{default_commit_types, GenerateCommand};
use gitai::git::Commit;
use gitai::git_entity::{Diff, GitEntity};
use gitai::llm::AIPromptError;

fn working_tree(diff: &str, staged: bool) -> GitEntity {
    GitEntity::Diff(Diff::WorkingTree { diff: diff.to_string(), staged })
}

fn commits_range(diff: &str) -> GitEntity {
    GitEntity::Diff(Diff::CommitsRange {
        diff: diff.to_string(),
        from: "a".to_string(),
        to: "b".to_string(),
    })
}

fn commit(message: &str, diff: &str) -> GitEntity {
    GitEntity::Commit(Commit {
        full_hash: "0123abcd".to_string(),
        message: message.to_string(),
        diff: diff.to_string(),
        author_name: "Ada".to_string(),
        author_email: "ada@example.com".to_string(),
        date: "1700000000".to_string(),
    })
}

#[test]
fn generate_succeeds_for_staged_working_tree() {
    let diff = "+added line\n-removed line";
    let cmd = GenerateCommand { git_entity: working_tree(diff, true) };
    let prompt = cmd.get_ai_prompt().unwrap();
    assert!(prompt.user_prompt.contains(diff));
    assert!(prompt.user_prompt.contains(&default_commit_types()));
    assert!(prompt.user_prompt.contains("\"feat\": \"A new feature\""));
    assert!(prompt.user_prompt.contains("maximum of 72 characters"));
    assert_eq!(
        prompt.system_prompt,
        "You are a commit message generator that follows these rules:\n1. Write in present tense\n2. Be concise and direct\n3. Output only the commit message without any explanations\n4. Follow the format: <type>(<optional scope>): <commit message>\n"
    );
}

#[test]
fn generate_embeds_diff_verbatim_between_markers() {
    let diff = "diff --git a/x b/x\n+1\n";
    let cmd = GenerateCommand { git_entity: working_tree(diff, true) };
    let prompt = cmd.get_ai_prompt().unwrap();
    let marker = format!("```diff\n{}\n```\n", diff);
    assert!(prompt.user_prompt.ends_with(&marker));
}

#[test]
fn generate_fails_for_commit_entity() {
    let cmd = GenerateCommand { git_entity: commit("feat: x", "+x") };
    assert_eq!(
        cmd.get_ai_prompt().unwrap_err(),
        AIPromptError("`draft` is only supported for working tree diffs".to_string())
    );
}

#[test]
fn generate_fails_for_commits_range() {
    let cmd = GenerateCommand { git_entity: commits_range("+y") };
    assert_eq!(
        cmd.get_ai_prompt().unwrap_err(),
        AIPromptError("`draft` is only supported for working tree diffs".to_string())
    );
}

#[test]
fn explain_commit_includes_message_and_diff() {
    let cmd = ExplainCommand { git_entity: commit("fix: solve it", "+patch") };
    let prompt = cmd.get_ai_prompt().unwrap();
    assert!(prompt.user_prompt.starts_with("Context - Commit:\n\nMessage: fix: solve it\n"));
    assert!(prompt.user_prompt.contains("```diff\n+patch\n```\n"));
    assert!(prompt.user_prompt.contains("Provide a short explanation covering:"));
    assert!(prompt.user_prompt.contains("1. Core changes made"));
    assert!(prompt.system_prompt.starts_with(
        "You are a helpful assistant that explains Git changes in a concise way.\n"
    ));
}

#[test]
fn explain_working_tree_asks_for_concerns() {
    let cmd = ExplainCommand { git_entity: working_tree("+wip", false) };
    let prompt = cmd.get_ai_prompt().unwrap();
    assert!(prompt.user_prompt.starts_with("Context - Changes:\n\n```diff\n+wip\n```\n"));
    assert!(prompt.user_prompt.contains("2. Notable concerns (if any)"));
}

#[test]
fn explain_range_asks_for_impact() {
    let cmd = ExplainCommand { git_entity: commits_range("+r") };
    let prompt = cmd.get_ai_prompt().unwrap();
    assert!(prompt.user_prompt.starts_with("Context - Changes:\n\n```diff\n+r\n```\n"));
    assert!(prompt.user_prompt.contains("2. Direct impact"));
}

#[test]
fn explain_framing_differs_between_working_tree_and_range() {
    let wt = ExplainCommand { git_entity: working_tree("+same", false) }.get_ai_prompt().unwrap();
    let range = ExplainCommand { git_entity: commits_range("+same") }.get_ai_prompt().unwrap();
    assert_ne!(wt.user_prompt, range.user_prompt);
    assert_eq!(wt.system_prompt, range.system_prompt);
}
