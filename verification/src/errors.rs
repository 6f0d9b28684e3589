//! The error taxonomy of the workflow engine and its adapters.

use vstd::prelude::*;

verus! {

/// Every failure a command can surface. Each adapter failure is mapped to
/// exactly one of these variants before it reaches the workflow engine.
#[derive(Clone, Copy, Debug, PartialEq, Eq, Structural)]
pub enum Error {
    /// No secret token is configured.
    MissingCredential,
    /// No local repository was found.
    NotARepository,
    /// The repository has no usable primary remote.
    NoRemoteConfigured,
    /// The remote URL has neither the HTTPS nor the SSH shape.
    UnparsableRemoteURL,
    /// There is no currently checked-out branch.
    DetachedOrMissingHead,
    /// Branch creation failed because the name is taken.
    BranchAlreadyExists,
    /// The new branch could not be checked out.
    CheckoutFailed,
    /// The tracker rejected the configured token.
    AuthenticationFailed,
    /// A tracker call failed in transit.
    NetworkError,
    /// The tracker knows no issue with the given number.
    IssueNotFound,
    /// The tracker reports no open issues to start on.
    NoOpenIssues,
    /// A selection was requested over an empty list.
    NoChoicesAvailable,
    /// The current branch does not follow the issue-branch convention.
    NotAnIssueBranch,
    /// The review request's target branch does not exist.
    TargetBranchMissing,
    /// A review request for this branch pair is already open.
    DuplicateRequest,
    /// The interactive input adapter could not supply a value.
    PromptFailed,
}

} // verus!
