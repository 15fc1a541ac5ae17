use vstd::prelude::*;

verus! {

/// A request to create a playbook from a repository.
#[derive(Debug, Clone, PartialEq, Eq)]
pub struct CreatePlaybookRequest {
    /// The repository to clone, e.g. `https://github.com/acme/app.git`.
    pub repo: String,
    /// The branch to clone, e.g. `main`.
    pub branch: Option<String>,
    /// The tag to clone, e.g. `v1.0`.
    pub tag: Option<String>,
    /// A commit hash, or a named reference such as `refs/pull/493/head`.
    pub rev: Option<String>,
}

} // verus!
