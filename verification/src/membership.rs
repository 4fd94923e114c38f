//! Asking whether a token belongs to a group.

use crate::call::{check, failure, Call, Reply};
use crate::error::{Context, TokenError};
use crate::procedure::{fresh, Procedure, Progress, Resource};
use crate::token::Token;
use crate::win32::WIN_BUILTIN_ADMINISTRATORS_SID;
use vstd::multiset::Multiset;
use vstd::prelude::*;

verus! {

/// Asks whether the group `sid` is enabled on `token`.
#[derive(Debug, PartialEq, Eq)]
pub struct MembershipCheck {
    pub token: usize,
    pub sid: Vec<u8>,
}

/// Asks whether the builtin administrators group is enabled on a token.
#[derive(Debug, PartialEq, Eq)]
pub enum AdministratorsCheck {
    MakeSid { token: usize },
    Check { check: MembershipCheck },
}

impl Token {
    /// Asks whether `sid` is an enabled group on this token. The token must be an
    /// impersonation token, which `duplicate_as_impersonation_token` obtains.
    pub fn check_membership(&self, sid: Vec<u8>) -> (procedure: MembershipCheck)
        ensures
            procedure == (MembershipCheck { token: self.token, sid }),
            fresh(procedure),
    {
        MembershipCheck { token: self.token, sid }
    }

    /// Asks whether the token is a member of the builtin administrators group.
    pub fn check_administrators_membership(&self) -> (procedure: AdministratorsCheck)
        ensures
            procedure == (AdministratorsCheck::MakeSid { token: self.token }),
            fresh(procedure),
    {
        AdministratorsCheck::MakeSid { token: self.token }
    }
}

impl Procedure for MembershipCheck {
    type Output = bool;

    open spec fn well_formed(self) -> bool {
        true
    }

    open spec fn pending(self) -> Call<Seq<u8>> {
        Call::CheckTokenMembership { token: self.token, sid: self.sid@ }
    }

    open spec fn after(self, reply: Reply) -> Progress<Self, bool> {
        Progress::Finished(
            match failure(self.pending(), reply) {
                Some(error) => Err(error),
                None => Ok(reply->Membership_is_member == 1),
            },
        )
    }

    open spec fn calls_left(self) -> nat {
        1
    }

    open spec fn held(self) -> Multiset<Resource> {
        Multiset::empty()
    }

    open spec fn handed_over(outcome: Result<bool, TokenError>) -> Multiset<Resource> {
        Multiset::empty()
    }

    open spec fn decided(self) -> Option<Result<bool, TokenError>> {
        None
    }

    open spec fn relabels(self) -> Option<usize> {
        None
    }

    fn call(&self) -> (call: Call<Vec<u8>>) {
        let sid: Vec<u8> = self.sid.clone();
        assert(sid@ =~= self.sid@);
        Call::CheckTokenMembership { token: self.token, sid }
    }

    fn resume(self, reply: Reply) -> (progress: Progress<Self, bool>) {
        let (res, is_member, last_error) = reply.into_membership();
        match check(Context::CheckTokenMembership, res, last_error) {
            Err(error) => Progress::Finished(Err(error)),
            Ok(()) => Progress::Finished(Ok(is_member == 1)),
        }
    }

    proof fn under_way(self) {
    }

    proof fn step(self, reply: Reply) {
    }
}

impl Procedure for AdministratorsCheck {
    type Output = bool;

    open spec fn well_formed(self) -> bool {
        true
    }

    open spec fn pending(self) -> Call<Seq<u8>> {
        match self {
            AdministratorsCheck::MakeSid { .. } => Call::CreateWellKnownSid {
                kind: WIN_BUILTIN_ADMINISTRATORS_SID,
            },
            AdministratorsCheck::Check { check } => check.pending(),
        }
    }

    open spec fn after(self, reply: Reply) -> Progress<Self, bool> {
        match self {
            AdministratorsCheck::MakeSid { token } => match reply->Sid_sid {
                Err(code) => Progress::Finished(Err(TokenError::WellKnownSid { code })),
                Ok(sid) => Progress::Pending(
                    AdministratorsCheck::Check { check: MembershipCheck { token, sid } },
                ),
            },
            AdministratorsCheck::Check { check } => match check.after(reply) {
                Progress::Pending(check) => Progress::Pending(
                    AdministratorsCheck::Check { check },
                ),
                Progress::Finished(outcome) => Progress::Finished(outcome),
            },
        }
    }

    open spec fn calls_left(self) -> nat {
        match self {
            AdministratorsCheck::MakeSid { .. } => 2,
            AdministratorsCheck::Check { check } => check.calls_left(),
        }
    }

    open spec fn held(self) -> Multiset<Resource> {
        Multiset::empty()
    }

    open spec fn handed_over(outcome: Result<bool, TokenError>) -> Multiset<Resource> {
        Multiset::empty()
    }

    open spec fn decided(self) -> Option<Result<bool, TokenError>> {
        None
    }

    open spec fn relabels(self) -> Option<usize> {
        None
    }

    fn call(&self) -> (call: Call<Vec<u8>>) {
        match self {
            AdministratorsCheck::MakeSid { .. } => Call::CreateWellKnownSid {
                kind: WIN_BUILTIN_ADMINISTRATORS_SID,
            },
            AdministratorsCheck::Check { check } => check.call(),
        }
    }

    fn resume(self, reply: Reply) -> (progress: Progress<Self, bool>) {
        match self {
            AdministratorsCheck::MakeSid { token } => match reply.into_sid() {
                Err(code) => Progress::Finished(Err(TokenError::WellKnownSid { code })),
                Ok(sid) => {
                    let token = Token { token };
                    Progress::Pending(
                        AdministratorsCheck::Check { check: token.check_membership(sid) },
                    )
                },
            },
            AdministratorsCheck::Check { check } => match check.resume(reply) {
                Progress::Pending(check) => Progress::Pending(
                    AdministratorsCheck::Check { check },
                ),
                Progress::Finished(outcome) => Progress::Finished(outcome),
            },
        }
    }

    proof fn under_way(self) {
    }

    proof fn step(self, reply: Reply) {
    }
}

} // verus!
