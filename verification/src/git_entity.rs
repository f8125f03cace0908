use crate::commit_reference::CommitReference;
use crate::error::GitAIError;
use crate::git::{Commit, GitHelper};
use vstd::prelude::*;
use vstd::string::*;

verus! {

/// A diff entity: the working tree against HEAD (staged or not), or the
/// rendered diff of a commit range. A range diff carries its endpoints; the
/// two-dot and three-dot construction paths share this shape, since what
/// differs downstream is only the prompt text, not the data.
///
/// A diff entity always carries its fully rendered diff text: nothing is
/// recomputed after construction.
#[derive(Debug, Clone)]
pub enum Diff {
    WorkingTree { diff: String, staged: bool },
    CommitsRange { diff: String, from: String, to: String },
}

/// The change entity a reference resolves to: one commit, or a diff.
#[derive(Debug, Clone)]
pub enum GitEntity {
    Commit(Commit),
    Diff(Diff),
}

/// The message carries some native gateway text behind the given diagnostic
/// prefix: gateway errors are propagated unchanged, only wrapped.
pub open spec fn wraps_native(m: Seq<char>, prefix: Seq<char>) -> bool {
    exists|native: Seq<char>| m == #[trigger] (prefix + native)
}

impl GitEntity {
    /// Resolves explicit flags and an optional parsed reference to exactly
    /// one change entity, opening the repository once and releasing it on
    /// every exit path. Precedence when more than one input is supplied: the
    /// diff flag wins over any reference; then a single reference resolves
    /// to a commit; then a two-dot range to its direct diff; then a
    /// three-dot range to its merge-base diff; with neither flag nor
    /// reference the arguments are refused. In particular, with the diff
    /// flag set the result is never a commit entity. A gateway failure is
    /// surfaced with its native text behind a prefix naming what was being
    /// resolved.
    pub fn resolve(diff: bool, staged: bool, reference: Option<CommitReference>) -> (r: Result<
        GitEntity,
        GitAIError,
    >)
        ensures
            diff ==> (match r {
                Ok(e) => (e matches GitEntity::Diff(Diff::WorkingTree { staged: s, .. }) && s
                    == staged),
                Err(e) => (e matches GitAIError::GitDiffError(m) && (wraps_native(
                    m@,
                    "could not open repository: "@,
                ) || wraps_native(m@, "could not diff the working tree: "@))),
            }),
            !(diff && r matches Ok(GitEntity::Commit(_))),
            (!diff) ==> (match reference {
                Some(CommitReference::Single(ref name)) => match r {
                    Ok(e) => e matches GitEntity::Commit(_),
                    Err(e) => (e matches GitAIError::GitCommitError(m) && (wraps_native(
                        m@,
                        "could not open repository: "@,
                    ) || wraps_native(m@, "could not resolve '"@ + name@ + "': "@))),
                },
                Some(CommitReference::Range { ref from, ref to }) => match r {
                    Ok(e) => (e matches GitEntity::Diff(
                        Diff::CommitsRange { from: f, to: t, .. },
                    ) && f@ == from@ && t@ == to@),
                    Err(e) => (e matches GitAIError::GitDiffError(m) && (wraps_native(
                        m@,
                        "could not open repository: "@,
                    ) || wraps_native(m@, "could not diff '"@ + from@ + ".."@ + to@ + "': "@))),
                },
                Some(CommitReference::TripleDots { ref from, ref to }) => match r {
                    Ok(e) => (e matches GitEntity::Diff(
                        Diff::CommitsRange { from: f, to: t, .. },
                    ) && f@ == from@ && t@ == to@),
                    Err(e) => (e matches GitAIError::GitDiffError(m) && (wraps_native(
                        m@,
                        "could not open repository: "@,
                    ) || wraps_native(m@, "could not diff '"@ + from@ + "..."@ + to@ + "': "@))),
                },
                None => (r matches Err(GitAIError::InvalidArguments(m)) && m@
                    == "expected a reference or --diff"@),
            }),
    {
        if diff {
            let git = match GitHelper::new() {
                Ok(g) => g,
                Err(native) => {
                    let ghost nv = native@;
                    let m = open_failure_message(native);
                    proof {
                        assert(m@ == "could not open repository: "@ + nv);
                        assert(wraps_native(m@, "could not open repository: "@));
                    }
                    return Err(GitAIError::GitDiffError(m));
                },
            };
            match git.get_diff(staged) {
                Ok(text) => Ok(GitEntity::Diff(Diff::WorkingTree { diff: text, staged })),
                Err(native) => {
                    let ghost nv = native@;
                    let mut m = "could not diff the working tree: ".to_owned();
                    m.append(native.as_str());
                    proof {
                        assert(m@ == "could not diff the working tree: "@ + nv);
                        assert(wraps_native(m@, "could not diff the working tree: "@));
                    }
                    Err(GitAIError::GitDiffError(m))
                },
            }
        } else {
            match reference {
                Some(CommitReference::Single(name)) => {
                    let git = match GitHelper::new() {
                        Ok(g) => g,
                        Err(native) => {
                            let ghost nv = native@;
                            let m = open_failure_message(native);
                            proof {
                                assert(m@ == "could not open repository: "@ + nv);
                                assert(wraps_native(m@, "could not open repository: "@));
                            }
                            return Err(GitAIError::GitCommitError(m));
                        },
                    };
                    match git.get_commit_from_hash(name.as_str()) {
                        Ok(commit) => Ok(GitEntity::Commit(commit)),
                        Err(native) => {
                            let ghost nv = native@;
                            let mut m = "could not resolve '".to_owned();
                            m.append(name.as_str());
                            m.append("': ");
                            m.append(native.as_str());
                            proof {
                                assert(m@ == ("could not resolve '"@ + name@ + "': "@) + nv);
                                assert(wraps_native(m@, "could not resolve '"@ + name@ + "': "@));
                            }
                            Err(GitAIError::GitCommitError(m))
                        },
                    }
                },
                Some(CommitReference::Range { from, to }) => {
                    let git = match GitHelper::new() {
                        Ok(g) => g,
                        Err(native) => {
                            let ghost nv = native@;
                            let m = open_failure_message(native);
                            proof {
                                assert(m@ == "could not open repository: "@ + nv);
                                assert(wraps_native(m@, "could not open repository: "@));
                            }
                            return Err(GitAIError::GitDiffError(m));
                        },
                    };
                    match git.get_range_diff(from.as_str(), to.as_str()) {
                        Ok(text) => Ok(
                            GitEntity::Diff(Diff::CommitsRange { diff: text, from, to }),
                        ),
                        Err(native) => {
                            let ghost nv = native@;
                            let m = range_failure_message(
                                from.as_str(),
                                "..",
                                to.as_str(),
                                native,
                            );
                            proof {
                                assert(m@ == ("could not diff '"@ + from@ + ".."@ + to@ + "': "@)
                                    + nv);
                                assert(wraps_native(
                                    m@,
                                    "could not diff '"@ + from@ + ".."@ + to@ + "': "@,
                                ));
                            }
                            Err(GitAIError::GitDiffError(m))
                        },
                    }
                },
                Some(CommitReference::TripleDots { from, to }) => {
                    let git = match GitHelper::new() {
                        Ok(g) => g,
                        Err(native) => {
                            let ghost nv = native@;
                            let m = open_failure_message(native);
                            proof {
                                assert(m@ == "could not open repository: "@ + nv);
                                assert(wraps_native(m@, "could not open repository: "@));
                            }
                            return Err(GitAIError::GitDiffError(m));
                        },
                    };
                    match git.get_merge_base_diff(from.as_str(), to.as_str()) {
                        Ok(text) => Ok(
                            GitEntity::Diff(Diff::CommitsRange { diff: text, from, to }),
                        ),
                        Err(native) => {
                            let ghost nv = native@;
                            let m = range_failure_message(
                                from.as_str(),
                                "...",
                                to.as_str(),
                                native,
                            );
                            proof {
                                assert(m@ == ("could not diff '"@ + from@ + "..."@ + to@ + "': "@)
                                    + nv);
                                assert(wraps_native(
                                    m@,
                                    "could not diff '"@ + from@ + "..."@ + to@ + "': "@,
                                ));
                            }
                            Err(GitAIError::GitDiffError(m))
                        },
                    }
                },
                None => Err(
                    GitAIError::InvalidArguments("expected a reference or --diff".to_owned()),
                ),
            }
        }
    }
}

/// A repository that could not be opened, with the native error text.
fn open_failure_message(native: String) -> (r: String)
    ensures
        r@ == "could not open repository: "@ + native@,
{
    let mut m = "could not open repository: ".to_owned();
    m.append(native.as_str());
    m
}

/// A range whose diff could not be computed, with the native error text.
fn range_failure_message(from: &str, sep: &str, to: &str, native: String) -> (r: String)
    ensures
        r@ == "could not diff '"@ + from@ + sep@ + to@ + "': "@ + native@,
{
    let mut m = "could not diff '".to_owned();
    m.append(from);
    m.append(sep);
    m.append(to);
    m.append("': ");
    m.append(native.as_str());
    m
}

} // verus!
