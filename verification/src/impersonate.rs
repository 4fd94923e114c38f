//! Taking on a token.

use crate::call::{check, failure, Call, Reply};
use crate::error::{Context, TokenError};
use crate::procedure::{fresh, Procedure, Progress, Resource};
use crate::token::Token;
use vstd::multiset::Multiset;
use vstd::prelude::*;

verus! {

/// Applies `token` to the current thread.
#[derive(Debug, Clone, Copy, PartialEq, Eq)]
pub struct Impersonate {
    pub token: usize,
}

impl Token {
    /// Applies the token to the current thread only, which may not behave as one expects.
    pub fn impersonate(&self) -> (procedure: Impersonate)
        ensures
            procedure == (Impersonate { token: self.token }),
            fresh(procedure),
    {
        Impersonate { token: self.token }
    }
}

impl Procedure for Impersonate {
    type Output = ();

    open spec fn well_formed(self) -> bool {
        true
    }

    open spec fn pending(self) -> Call<Seq<u8>> {
        Call::ImpersonateLoggedOnUser { token: self.token }
    }

    open spec fn after(self, reply: Reply) -> Progress<Self, ()> {
        Progress::Finished(
            match failure(self.pending(), reply) {
                Some(error) => Err(error),
                None => Ok(()),
            },
        )
    }

    open spec fn calls_left(self) -> nat {
        1
    }

    open spec fn held(self) -> Multiset<Resource> {
        Multiset::empty()
    }

    open spec fn handed_over(outcome: Result<(), TokenError>) -> Multiset<Resource> {
        Multiset::empty()
    }

    open spec fn decided(self) -> Option<Result<(), TokenError>> {
        None
    }

    open spec fn relabels(self) -> Option<usize> {
        None
    }

    fn call(&self) -> (call: Call<Vec<u8>>) {
        Call::ImpersonateLoggedOnUser { token: self.token }
    }

    fn resume(self, reply: Reply) -> (progress: Progress<Self, ()>) {
        let (res, last_error) = reply.into_status();
        Progress::Finished(check(Context::Impersonate, res, last_error))
    }

    proof fn under_way(self) {
    }

    proof fn step(self, reply: Reply) {
    }
}

} // verus!
