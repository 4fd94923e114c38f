//! Access tokens.

use crate::call::Call;
use crate::error::TokenError;
use crate::procedure::Resource;
use vstd::multiset::Multiset;
use vstd::prelude::*;

verus! {

/// The effective level of privileges held by a token.
#[derive(Debug, Clone, Copy, PartialEq, Eq, Structural)]
pub enum PrivilegeLevel {
    /// The token isn't privileged, or may be privileged in an unusual way for which there
    /// is no telling whether the privilege can or should be reduced.
    NotPrivileged,
    /// The token is an elevated token produced via runas/UAC.
    Elevated,
    /// The token isn't an elevated token but it does have high integrity privileges, such
    /// as those produced by sshing in to a Windows 10 system.
    HighIntegrityAdmin,
}

/// A set of credentials and privileges, by the value of its handle.
///
/// A process typically inherits the token of its parent process for its primary token, and
/// a thread can take on an impersonation token so as to run with a different identity for
/// a while. A token is closed once, by whoever holds it last.
#[derive(Debug, PartialEq, Eq)]
pub struct Token {
    pub token: usize,
}

impl Token {
    /// The call that gives the token back to the system.
    pub open spec fn closing(self) -> Call<Seq<u8>> {
        Call::CloseHandle { handle: self.token }
    }

    /// The call that gives the token back to the system.
    pub fn close(self) -> (call: Call<Vec<u8>>)
        ensures
            call@ == self.closing(),
    {
        Call::CloseHandle { handle: self.token }
    }
}

/// A token that an operation ends with passes to the caller.
pub open spec fn token_handed_over(outcome: Result<Token, TokenError>) -> Multiset<Resource> {
    match outcome {
        Ok(token) => Multiset::singleton(Resource::Handle(token.token)),
        Err(_) => Multiset::empty(),
    }
}

} // verus!
