use gitai::error::GitAIError;
use gitai::git_entity::GitEntity;

#[test]
fn resolve_without_flag_or_reference_is_invalid_arguments() {
    match GitEntity::resolve(false, false, None) {
        Err(GitAIError::InvalidArguments(m)) => {
            assert_eq!(m, "expected a reference or --diff");
        },
        _ => panic!("expected an invalid-arguments failure"),
    }
}

#[test]
fn resolve_with_diff_flag_is_never_a_commit() {
    // The diff flag wins over any reference: whatever the repository holds,
    // the result is a working-tree diff or a diff failure, never a commit.
    let reference = gitai::commit_reference::CommitReference::Single("abc123".to_string());
    match GitEntity::resolve(true, false, Some(reference)) {
        Ok(GitEntity::Commit(_)) => panic!("the diff flag must win over the reference"),
        Ok(GitEntity::Diff(_)) => {},
        Err(GitAIError::GitDiffError(_)) => {},
        Err(e) => panic!("unexpected failure kind: {}", e.message()),
    }
}

#[test]
fn invalid_arguments_message_renders() {
    let e = GitAIError::InvalidArguments("expected a reference or --diff".to_string());
    assert_eq!(e.message(), "Invalid arguments: expected a reference or --diff");
    let c = GitAIError::ConfigError("broken".to_string());
    assert_eq!(c.message(), "Configuration error: broken");
    let g = GitAIError::GitCommitError("not found".to_string());
    assert_eq!(g.message(), "not found");
}
