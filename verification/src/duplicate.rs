//! Duplicating a token.

use crate::call::{check, failure, Call, Reply};
use crate::error::{Context, TokenError};
use crate::procedure::{fresh, Procedure, Progress, Resource};
use crate::token::{token_handed_over, Token};
use crate::win32::{
    DUPLICATE_TOKEN_ACCESS, SECURITY_IMPERSONATION, TOKEN_IMPERSONATION, TOKEN_PRIMARY,
};
use vstd::multiset::Multiset;
use vstd::prelude::*;

verus! {

/// Makes a second token out of `token`, of the `TOKEN_TYPE` `kind`.
#[derive(Debug, Clone, Copy, PartialEq, Eq)]
pub struct Duplicate {
    pub token: usize,
    pub kind: u32,
}

impl Token {
    /// Duplicates this token as one that is suitable for use in impersonation related
    /// calls, which includes the check for membership.
    pub fn duplicate_as_impersonation_token(&self) -> (procedure: Duplicate)
        ensures
            procedure == (Duplicate { token: self.token, kind: TOKEN_IMPERSONATION }),
            fresh(procedure),
    {
        self.duplicate(TOKEN_IMPERSONATION)
    }

    /// Duplicates this token as one that a process can be started with.
    pub fn duplicate_as_primary_token(&self) -> (procedure: Duplicate)
        ensures
            procedure == (Duplicate { token: self.token, kind: TOKEN_PRIMARY }),
            fresh(procedure),
    {
        self.duplicate(TOKEN_PRIMARY)
    }

    pub fn duplicate(&self, kind: u32) -> (procedure: Duplicate)
        ensures
            procedure == (Duplicate { token: self.token, kind }),
            fresh(procedure),
    {
        Duplicate { token: self.token, kind }
    }
}

impl Procedure for Duplicate {
    type Output = Token;

    open spec fn well_formed(self) -> bool {
        true
    }

    open spec fn pending(self) -> Call<Seq<u8>> {
        Call::DuplicateTokenEx {
            token: self.token,
            access: DUPLICATE_TOKEN_ACCESS,
            impersonation: SECURITY_IMPERSONATION,
            kind: self.kind,
        }
    }

    open spec fn after(self, reply: Reply) -> Progress<Self, Token> {
        Progress::Finished(
            match failure(self.pending(), reply) {
                Some(error) => Err(error),
                None => Ok(Token { token: reply->Opened_handle }),
            },
        )
    }

    open spec fn calls_left(self) -> nat {
        1
    }

    open spec fn held(self) -> Multiset<Resource> {
        Multiset::empty()
    }

    open spec fn handed_over(outcome: Result<Token, TokenError>) -> Multiset<Resource> {
        token_handed_over(outcome)
    }

    open spec fn decided(self) -> Option<Result<Token, TokenError>> {
        None
    }

    open spec fn relabels(self) -> Option<usize> {
        None
    }

    fn call(&self) -> (call: Call<Vec<u8>>) {
        Call::DuplicateTokenEx {
            token: self.token,
            access: DUPLICATE_TOKEN_ACCESS,
            impersonation: SECURITY_IMPERSONATION,
            kind: self.kind,
        }
    }

    fn resume(self, reply: Reply) -> (progress: Progress<Self, Token>) {
        let (res, handle, last_error) = reply.into_opened();
        match check(Context::DuplicateToken, res, last_error) {
            Err(error) => Progress::Finished(Err(error)),
            Ok(()) => Progress::Finished(Ok(Token { token: handle })),
        }
    }

    proof fn under_way(self) {
    }

    proof fn step(self, reply: Reply) {
    }
}

} // verus!
