use vstd::prelude::*;
use vstd::string::*;

verus! {

#[verifier::external_type_specification]
#[verifier::external_body]
pub struct ExRepository(git2::Repository);

#[verifier::external_type_specification]
#[verifier::external_body]
pub struct ExGit2Error(git2::Error);

/// An immutable snapshot of one commit: full hash, summary message, the
/// unified diff against its first parent (or against an empty tree for a
/// root commit), author, and the commit timestamp in seconds.
#[derive(Debug, Clone)]
pub struct Commit {
    pub full_hash: String,
    pub message: String,
    pub diff: String,
    pub author_name: String,
    pub author_email: String,
    pub date: String,
}

/// A narrow facade over one repository handle, acquired once per invocation
/// and dropped at its end. Every operation reads the repository as it is on
/// disk, so nothing can be promised of the texts that come back; callers
/// state what holds of their results whatever the repository holds.
pub struct GitHelper {
    repo: git2::Repository,
}

/// Relies on git2::Repository::discover: opens the repository that contains
/// the current directory, or fails with the native error.
#[verifier::external_body]
fn repo_discover() -> Result<git2::Repository, git2::Error> {
    git2::Repository::discover(".")
}

/// Relies on git2::Error::message: the native error text, owned.
#[verifier::external_body]
fn git_error_message(e: &git2::Error) -> String {
    e.message().to_owned()
}

/// Relies on git2 to render the diff of HEAD's tree against the index, with
/// zero context lines: Repository::head, Reference::peel_to_tree,
/// DiffOptions::context_lines, Repository::diff_tree_to_index, Diff::print.
#[verifier::external_body]
fn staged_diff_text(repo: &git2::Repository) -> Result<String, git2::Error> {
    let tree = repo.head()?.peel_to_tree()?;
    let mut opts = git2::DiffOptions::new();
    opts.context_lines(0);
    let diff = repo.diff_tree_to_index(Some(&tree), None, Some(&mut opts))?;
    let mut text = String::new();
    diff.print(git2::DiffFormat::Patch, |_, _, line| {
        text.push_str(&String::from_utf8_lossy(line.content()));
        true
    })?;
    Ok(text)
}

/// Relies on git2 to render the diff of HEAD's tree against the working
/// tree, with zero context lines: Repository::head, Reference::peel_to_tree,
/// DiffOptions::context_lines, Repository::diff_tree_to_workdir, Diff::print.
#[verifier::external_body]
fn workdir_diff_text(repo: &git2::Repository) -> Result<String, git2::Error> {
    let tree = repo.head()?.peel_to_tree()?;
    let mut opts = git2::DiffOptions::new();
    opts.context_lines(0);
    let diff = repo.diff_tree_to_workdir(Some(&tree), Some(&mut opts))?;
    let mut text = String::new();
    diff.print(git2::DiffFormat::Patch, |_, _, line| {
        text.push_str(&String::from_utf8_lossy(line.content()));
        true
    })?;
    Ok(text)
}

/// Relies on git2 to render the direct diff between two revisions' trees,
/// with zero context lines: Repository::revparse_single,
/// Object::peel_to_tree, DiffOptions::context_lines,
/// Repository::diff_tree_to_tree, Diff::print.
#[verifier::external_body]
fn tree_to_tree_diff_text(repo: &git2::Repository, from: &str, to: &str) -> Result<
    String,
    git2::Error,
> {
    let from_tree = repo.revparse_single(from)?.peel_to_tree()?;
    let to_tree = repo.revparse_single(to)?.peel_to_tree()?;
    let mut opts = git2::DiffOptions::new();
    opts.context_lines(0);
    let diff = repo.diff_tree_to_tree(Some(&from_tree), Some(&to_tree), Some(&mut opts))?;
    let mut text = String::new();
    diff.print(git2::DiffFormat::Patch, |_, _, line| {
        text.push_str(&String::from_utf8_lossy(line.content()));
        true
    })?;
    Ok(text)
}

/// Relies on git2 to render the diff from the merge base of two revisions to
/// the second one, with zero context lines: Repository::revparse_single,
/// Object::peel_to_commit, Repository::merge_base, Repository::find_commit,
/// Commit::tree, Repository::diff_tree_to_tree, Diff::print.
#[verifier::external_body]
fn merge_base_diff_text(repo: &git2::Repository, from: &str, to: &str) -> Result<
    String,
    git2::Error,
> {
    let from_commit = repo.revparse_single(from)?.peel_to_commit()?;
    let to_commit = repo.revparse_single(to)?.peel_to_commit()?;
    let base = repo.find_commit(repo.merge_base(from_commit.id(), to_commit.id())?)?;
    let mut opts = git2::DiffOptions::new();
    opts.context_lines(0);
    let diff = repo.diff_tree_to_tree(Some(&base.tree()?), Some(&to_commit.tree()?), Some(&mut opts))?;
    let mut text = String::new();
    diff.print(git2::DiffFormat::Patch, |_, _, line| {
        text.push_str(&String::from_utf8_lossy(line.content()));
        true
    })?;
    Ok(text)
}

/// Relies on git2 to render a revision's commit diff against its first
/// parent, or against the empty tree for a root commit:
/// Repository::revparse_single, Object::peel_to_commit, Commit::parent,
/// Commit::tree, Repository::diff_tree_to_tree, Diff::print.
#[verifier::external_body]
fn commit_reference_diff_text(repo: &git2::Repository, reference: &str) -> Result<
    String,
    git2::Error,
> {
    let commit = repo.revparse_single(reference)?.peel_to_commit()?;
    let parent_tree = match commit.parent(0) {
        Ok(p) => Some(p.tree()?),
        Err(_) => None,
    };
    let diff = repo.diff_tree_to_tree(parent_tree.as_ref(), Some(&commit.tree()?), None)?;
    let mut text = String::new();
    diff.print(git2::DiffFormat::Patch, |_, _, line| {
        text.push_str(&String::from_utf8_lossy(line.content()));
        true
    })?;
    Ok(text)
}

/// Relies on git2 to resolve a revision and read its commit's accessors (id,
/// summary, author name and email, time): the hash, summary message, author
/// and timestamp, each as owned text, empty for anything unreadable.
#[verifier::external_body]
fn commit_snapshot_fields(repo: &git2::Repository, reference: &str) -> Result<
    (String, String, String, String, String),
    git2::Error,
> {
    let commit = repo.revparse_single(reference)?.peel_to_commit()?;
    let author = commit.author();
    Ok((
        commit.id().to_string(),
        commit.summary().ok().flatten().unwrap_or("").to_owned(),
        author.name().unwrap_or("").to_owned(),
        author.email().unwrap_or("").to_owned(),
        commit.time().seconds().to_string(),
    ))
}

/// Relies on git2::Repository::revparse_single: whether a revision
/// expression names an object of this repository.
#[verifier::external_body]
fn revparse_is_ok(repo: &git2::Repository, reference: &str) -> bool {
    repo.revparse_single(reference).is_ok()
}

impl GitHelper {
    /// Opens the repository containing the current directory; a failure
    /// carries the native error text.
    pub fn new() -> Result<GitHelper, String> {
        match repo_discover() {
            Ok(repo) => Ok(GitHelper { repo }),
            Err(e) => Err(git_error_message(&e)),
        }
    }

    /// The diff of HEAD's tree against the index (staged) or the working
    /// tree (unstaged), rendered with zero context lines; a failure carries
    /// the native error text.
    pub fn get_diff(&self, staged: bool) -> Result<String, String> {
        let result = if staged {
            staged_diff_text(&self.repo)
        } else {
            workdir_diff_text(&self.repo)
        };
        match result {
            Ok(text) => Ok(text),
            Err(e) => Err(git_error_message(&e)),
        }
    }

    /// The direct two-endpoint diff between the trees the two revisions
    /// name, rendered with zero context lines; a failure carries the native
    /// error text.
    pub fn get_range_diff(&self, from: &str, to: &str) -> Result<String, String> {
        match tree_to_tree_diff_text(&self.repo, from, to) {
            Ok(text) => Ok(text),
            Err(e) => Err(git_error_message(&e)),
        }
    }

    /// The diff from the merge base of the two revisions to the second one,
    /// which realizes three-dot semantics; a failure carries the native
    /// error text.
    pub fn get_merge_base_diff(&self, from: &str, to: &str) -> Result<String, String> {
        match merge_base_diff_text(&self.repo, from, to) {
            Ok(text) => Ok(text),
            Err(e) => Err(git_error_message(&e)),
        }
    }

    /// Whether the repository can resolve the given revision expression.
    pub fn is_valid_hash(&self, hash: &str) -> bool {
        revparse_is_ok(&self.repo, hash)
    }

    /// Resolves a revision expression to a commit snapshot, with every field
    /// captured eagerly; a failure carries the native error text.
    pub fn get_commit_from_hash(&self, reference: &str) -> Result<Commit, String> {
        let fields = match commit_snapshot_fields(&self.repo, reference) {
            Ok(f) => f,
            Err(e) => {
                return Err(git_error_message(&e));
            },
        };
        let diff = match commit_reference_diff_text(&self.repo, reference) {
            Ok(text) => text,
            Err(e) => {
                return Err(git_error_message(&e));
            },
        };
        let (full_hash, message, author_name, author_email, date) = fields;
        Ok(Commit { full_hash, message, diff, author_name, author_email, date })
    }
}

} // verus!
