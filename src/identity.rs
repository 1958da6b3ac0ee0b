//! Patches and the identity that commits them.
use vstd::prelude::*;

use crate::error::{FError, FResult};

verus! {

/// What `validator::validate_email` answers for an address.
pub uninterp spec fn is_email(s: Seq<char>) -> bool;

/// Relies on `validator::validate_email`: the answer depends on the address
/// alone, and an address without `@` (the empty one among them) is refused.
#[verifier::external_body]
pub(crate) fn validate_email(s: &str) -> (r: bool)
    ensures
        r == is_email(s@),
        r ==> s@.contains('@'),
{
    validator::validate_email(s)
}

/// A change to exchange: commit message, author and diff text.
#[derive(Debug, Clone)]
pub struct Patch {
    /// The commit message.
    pub message: String,
    /// The author's address.
    pub author_email: String,
    /// The author's name.
    pub author_name: String,
    /// The diff text.
    pub patch: String,
}

/// The identity of the federation service, which commits third-party patches.
#[derive(Debug, Clone)]
pub struct InterfaceAdmin {
    /// The service's address.
    pub email: String,
    /// The service's name.
    pub name: String,
}

/// `r` is the error `NotAnEmail` holding `email`.
pub open spec fn is_not_an_email(r: FError, email: Seq<char>) -> bool {
    match r {
        FError::NotAnEmail(e) => e@ == email,
        _ => false,
    }
}

impl InterfaceAdmin {
    /// An admin identity; fails with `NotAnEmail` where `email` is not an address.
    pub fn new(email: String, name: String) -> (r: FResult<Self>)
        ensures
            r is Ok <==> is_email(email@),
            r is Ok ==> r->Ok_0.email@ == email@ && r->Ok_0.name@ == name@,
            r is Err ==> is_not_an_email(r->Err_0, email@),
    {
        if !validate_email(email.as_str()) {
            return Err(FError::NotAnEmail(email));
        }
        Ok(InterfaceAdmin { email, name })
    }
}

impl Patch {
    /// A patch; fails with `NotAnEmail` where `author_email` is not an address.
    pub fn new(message: String, author_name: String, author_email: String, patch: String) -> (r:
        FResult<Self>)
        ensures
            r is Ok <==> is_email(author_email@),
            r is Ok ==> r->Ok_0.message@ == message@ && r->Ok_0.author_name@ == author_name@
                && r->Ok_0.author_email@ == author_email@ && r->Ok_0.patch@ == patch@,
            r is Err ==> is_not_an_email(r->Err_0, author_email@),
    {
        if !validate_email(author_email.as_str()) {
            return Err(FError::NotAnEmail(author_email));
        }
        Ok(Patch { message, author_email, author_name, patch })
    }
}

} // verus!
