//! Errors of the library.
use vstd::prelude::*;

verus! {

/// Declares `git2::Error`, the git engine's failure, so that it can be carried.
#[verifier::external_type_specification]
#[verifier::external_body]
pub struct ExGitError(git2::Error);

/// Declares `url::ParseError`, the reason a string is not a URL.
#[verifier::external_type_specification]
#[verifier::external_body]
pub struct ExUrlParseError(url::ParseError);

/// Declares `sled::Error`, the key-value store's failure.
#[verifier::external_type_specification]
#[verifier::external_body]
pub struct ExStoreError(sled::Error);

/// Declares `std::io::Error`, a filesystem failure.
#[verifier::external_type_specification]
#[verifier::external_body]
pub struct ExIoError(std::io::Error);

/// Every failure the library reports.
#[derive(Debug)]
pub enum FError {
    /// A filesystem operation failed.
    IOError(std::io::Error),
    /// The upstream URL has no domain, so no mirror path can be derived from it;
    /// holds the URL.
    NoDirInvalidUpstreamUrl(String),
    /// The address is not an email address; holds the address.
    NotAnEmail(String),
    /// The upstream string is not a URL.
    NotAUrl(url::ParseError),
    /// The git engine failed; its message is passed through.
    GitError(git2::Error),
    /// A remote of that name exists with another URL.
    RemoteNameExists,
    /// Another operation holds the repository's lock; holds the local name.
    RepoLocked(String),
    /// No readable lock record exists for the local name it holds.
    NotRegistered(String),
    /// The lock record of the local name it holds changed while the lock was
    /// held, so it was not released.
    LockLost(String),
    /// The key-value store failed.
    StoreError(sled::Error),
}

impl From<git2::Error> for FError {
    fn from(e: git2::Error) -> (r: FError)
        ensures
            r == FError::GitError(e),
    {
        FError::GitError(e)
    }
}

impl vstd::std_specs::convert::FromSpecImpl<git2::Error> for FError {
    open spec fn obeys_from_spec() -> bool {
        true
    }

    open spec fn from_spec(e: git2::Error) -> FError {
        FError::GitError(e)
    }
}

impl From<std::io::Error> for FError {
    fn from(e: std::io::Error) -> (r: FError)
        ensures
            r == FError::IOError(e),
    {
        FError::IOError(e)
    }
}

impl vstd::std_specs::convert::FromSpecImpl<std::io::Error> for FError {
    open spec fn obeys_from_spec() -> bool {
        true
    }

    open spec fn from_spec(e: std::io::Error) -> FError {
        FError::IOError(e)
    }
}

impl From<url::ParseError> for FError {
    fn from(e: url::ParseError) -> (r: FError)
        ensures
            r == FError::NotAUrl(e),
    {
        FError::NotAUrl(e)
    }
}

impl vstd::std_specs::convert::FromSpecImpl<url::ParseError> for FError {
    open spec fn obeys_from_spec() -> bool {
        true
    }

    open spec fn from_spec(e: url::ParseError) -> FError {
        FError::NotAUrl(e)
    }
}

/// Result of the library's fallible operations.
pub type FResult<V> = Result<V, FError>;

} // verus!
