//! The parameters that a request carries.
use vstd::prelude::*;

verus! {

/// A source identity to rebuild: repository, sub-path inside it, and commit.
#[derive(Clone, Debug)]
pub struct VerifyParams {
    pub repo: String,
    pub path: String,
    pub commit: String,
}

/// The address of a deployed program to dump.
#[derive(Clone, Debug)]
pub struct ProgramHashParams {
    pub program_id: String,
}

/// A request for the build recipe; it carries nothing.
#[derive(Clone, Debug)]
pub struct DockerfileParams {}

/// The address of an account (such as a program buffer) to dump.
#[derive(Clone, Debug)]
pub struct BufferHashParams {
    pub program_id: String,
}

/// The identity as plain sequences: the key under which its digest is cached.
pub open spec fn identity_key(p: VerifyParams) -> (Seq<char>, Seq<char>, Seq<char>) {
    (p.repo@, p.path@, p.commit@)
}

impl VerifyParams {
    pub fn new(repo: String, path: String, commit: String) -> (r: VerifyParams)
        ensures
            r.repo@ == repo@,
            r.path@ == path@,
            r.commit@ == commit@,
    {
        VerifyParams { repo, path, commit }
    }

    /// A copy with the same three fields.
    pub fn duplicate(&self) -> (r: VerifyParams)
        ensures
            identity_key(r) == identity_key(*self),
    {
        VerifyParams { repo: self.repo.clone(), path: self.path.clone(), commit: self.commit.clone() }
    }

    /// Whether two identities are the same, field by field, with no normalisation.
    pub fn same_identity(&self, other: &VerifyParams) -> (r: bool)
        ensures
            r == (identity_key(*self) == identity_key(*other)),
    {
        self.repo == other.repo && self.path == other.path && self.commit == other.commit
    }
}

} // verus!
