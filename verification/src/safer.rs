//! Building a token with fewer privileges out of another.

use crate::call::{check, failure, Call, Reply};
use crate::error::{Context, TokenError};
use crate::label::{label_bytes, label_width};
use crate::procedure::{acquired, fresh, released, Procedure, Progress, Resource};
use crate::token::{token_handed_over, Token};
use crate::win32::{
    SAFER_LEVELID_NORMALUSER, SAFER_LEVEL_OPEN, SAFER_SCOPEID_USER, SE_GROUP_INTEGRITY,
    TOKEN_INTEGRITY_LEVEL, WIN_MEDIUM_LABEL_SID,
};
use vstd::multiset::Multiset;
use vstd::prelude::*;

verus! {

/// Puts the label of medium integrity on a token.
#[derive(Debug, PartialEq, Eq)]
pub enum SetMediumIntegrity {
    MakeSid { token: usize },
    MeasureSid { token: usize, sid: Vec<u8> },
    SetLabel { token: usize, sid: Vec<u8>, length: u32 },
}

/// Computes the token of a normal user from another token, and lowers its integrity.
#[derive(Debug, PartialEq, Eq)]
pub enum SaferToken {
    CreateLevel { token: usize },
    ComputeToken { token: usize, level: usize },
    SetLabel { level: usize, computed: usize, set_label: SetMediumIntegrity },
    CloseToken { level: usize, computed: usize, error: TokenError },
    CloseLevel { level: usize, outcome: Result<Token, TokenError> },
}

impl Token {
    /// Builds a medium integrity level normal user access token from the current token.
    ///
    /// This is most suitable where the token has the privilege level of a high integrity
    /// administrator and one wants to proceed with a normal privilege token.
    pub fn as_medium_integrity_safer_token(&self) -> (procedure: SaferToken)
        ensures
            procedure == (SaferToken::CreateLevel { token: self.token }),
            fresh(procedure),
    {
        SaferToken::CreateLevel { token: self.token }
    }

    /// Puts the label of medium integrity on this token.
    pub fn set_medium_integrity(&self) -> (procedure: SetMediumIntegrity)
        ensures
            procedure == (SetMediumIntegrity::MakeSid { token: self.token }),
            fresh(procedure),
    {
        SetMediumIntegrity::MakeSid { token: self.token }
    }
}

impl Procedure for SetMediumIntegrity {
    type Output = ();

    open spec fn well_formed(self) -> bool {
        true
    }

    open spec fn pending(self) -> Call<Seq<u8>> {
        match self {
            SetMediumIntegrity::MakeSid { .. } => Call::CreateWellKnownSid {
                kind: WIN_MEDIUM_LABEL_SID,
            },
            SetMediumIntegrity::MeasureSid { sid, .. } => Call::GetLengthSid { sid: sid@ },
            SetMediumIntegrity::SetLabel { token, sid, length } => Call::SetTokenInformation {
                token,
                class: TOKEN_INTEGRITY_LEVEL,
                attributes: SE_GROUP_INTEGRITY,
                sid: sid@,
                length,
            },
        }
    }

    /// The length that is handed over counts the label and the SID.
    open spec fn after(self, reply: Reply) -> Progress<Self, ()> {
        match self {
            SetMediumIntegrity::MakeSid { token } => match reply->Sid_sid {
                Err(code) => Progress::Finished(Err(TokenError::WellKnownSid { code })),
                Ok(sid) => Progress::Pending(SetMediumIntegrity::MeasureSid { token, sid }),
            },
            SetMediumIntegrity::MeasureSid { token, sid } => Progress::Pending(
                SetMediumIntegrity::SetLabel {
                    token,
                    sid,
                    length: (label_width() + reply->Length_length) as u32,
                },
            ),
            SetMediumIntegrity::SetLabel { .. } => Progress::Finished(
                match failure(self.pending(), reply) {
                    Some(error) => Err(error),
                    None => Ok(()),
                },
            ),
        }
    }

    open spec fn calls_left(self) -> nat {
        match self {
            SetMediumIntegrity::MakeSid { .. } => 3,
            SetMediumIntegrity::MeasureSid { .. } => 2,
            SetMediumIntegrity::SetLabel { .. } => 1,
        }
    }

    open spec fn held(self) -> Multiset<Resource> {
        Multiset::empty()
    }

    open spec fn handed_over(outcome: Result<(), TokenError>) -> Multiset<Resource> {
        Multiset::empty()
    }

    open spec fn decided(self) -> Option<Result<(), TokenError>> {
        None
    }

    open spec fn relabels(self) -> Option<usize> {
        match self {
            SetMediumIntegrity::MakeSid { token } => Some(token),
            SetMediumIntegrity::MeasureSid { token, .. } => Some(token),
            SetMediumIntegrity::SetLabel { token, .. } => Some(token),
        }
    }

    fn call(&self) -> (call: Call<Vec<u8>>) {
        match self {
            SetMediumIntegrity::MakeSid { .. } => Call::CreateWellKnownSid {
                kind: WIN_MEDIUM_LABEL_SID,
            },
            SetMediumIntegrity::MeasureSid { sid, .. } => {
                let copy: Vec<u8> = sid.clone();
                assert(copy@ =~= sid@);
                Call::GetLengthSid { sid: copy }
            },
            SetMediumIntegrity::SetLabel { token, sid, length } => {
                let copy: Vec<u8> = sid.clone();
                assert(copy@ =~= sid@);
                Call::SetTokenInformation {
                    token: *token,
                    class: TOKEN_INTEGRITY_LEVEL,
                    attributes: SE_GROUP_INTEGRITY,
                    sid: copy,
                    length: *length,
                }
            },
        }
    }

    fn resume(self, reply: Reply) -> (progress: Progress<Self, ()>) {
        match self {
            SetMediumIntegrity::MakeSid { token } => match reply.into_sid() {
                Err(code) => Progress::Finished(Err(TokenError::WellKnownSid { code })),
                Ok(sid) => Progress::Pending(SetMediumIntegrity::MeasureSid { token, sid }),
            },
            SetMediumIntegrity::MeasureSid { token, sid } => {
                let length: u32 = label_bytes() as u32 + reply.into_length();
                Progress::Pending(SetMediumIntegrity::SetLabel { token, sid, length })
            },
            SetMediumIntegrity::SetLabel { .. } => {
                let (res, last_error) = reply.into_status();
                Progress::Finished(check(Context::SetMediumIntegrity, res, last_error))
            },
        }
    }

    proof fn under_way(self) {
    }

    proof fn step(self, reply: Reply) {
    }
}

impl Procedure for SaferToken {
    type Output = Token;

    /// The label goes on the token that was computed.
    open spec fn well_formed(self) -> bool {
        self matches SaferToken::SetLabel { computed, set_label, .. } ==> set_label.relabels()
            == Some(computed)
    }

    open spec fn pending(self) -> Call<Seq<u8>> {
        match self {
            SaferToken::CreateLevel { .. } => Call::SaferCreateLevel {
                scope: SAFER_SCOPEID_USER,
                level_id: SAFER_LEVELID_NORMALUSER,
                flags: SAFER_LEVEL_OPEN,
            },
            SaferToken::ComputeToken { token, level } => Call::SaferComputeTokenFromLevel {
                level,
                token,
                flags: 0,
            },
            SaferToken::SetLabel { set_label, .. } => set_label.pending(),
            SaferToken::CloseToken { computed, .. } => Call::CloseHandle { handle: computed },
            SaferToken::CloseLevel { level, .. } => Call::SaferCloseLevel { level },
        }
    }

    open spec fn after(self, reply: Reply) -> Progress<Self, Token> {
        match self {
            SaferToken::CreateLevel { token } => match failure(self.pending(), reply) {
                Some(error) => Progress::Finished(Err(error)),
                None => Progress::Pending(
                    SaferToken::ComputeToken { token, level: reply->Opened_handle },
                ),
            },
            SaferToken::ComputeToken { level, .. } => Progress::Pending(
                match failure(self.pending(), reply) {
                    Some(error) => SaferToken::CloseLevel { level, outcome: Err(error) },
                    None => SaferToken::SetLabel {
                        level,
                        computed: reply->Opened_handle,
                        set_label: SetMediumIntegrity::MakeSid { token: reply->Opened_handle },
                    },
                },
            ),
            SaferToken::SetLabel { level, computed, set_label } => Progress::Pending(
                match set_label.after(reply) {
                    Progress::Pending(set_label) => SaferToken::SetLabel {
                        level,
                        computed,
                        set_label,
                    },
                    Progress::Finished(Err(error)) => SaferToken::CloseToken {
                        level,
                        computed,
                        error,
                    },
                    Progress::Finished(Ok(())) => SaferToken::CloseLevel {
                        level,
                        outcome: Ok(Token { token: computed }),
                    },
                },
            ),
            SaferToken::CloseToken { level, error, .. } => Progress::Pending(
                SaferToken::CloseLevel { level, outcome: Err(error) },
            ),
            SaferToken::CloseLevel { outcome, .. } => Progress::Finished(outcome),
        }
    }

    open spec fn calls_left(self) -> nat {
        match self {
            SaferToken::CreateLevel { .. } => 7,
            SaferToken::ComputeToken { .. } => 6,
            SaferToken::SetLabel { set_label, .. } => set_label.calls_left() + 2,
            SaferToken::CloseToken { .. } => 2,
            SaferToken::CloseLevel { .. } => 1,
        }
    }

    open spec fn held(self) -> Multiset<Resource> {
        match self {
            SaferToken::CreateLevel { .. } => Multiset::empty(),
            SaferToken::ComputeToken { level, .. } => Multiset::singleton(Resource::Level(level)),
            SaferToken::SetLabel { level, computed, set_label } => set_label.held().insert(
                Resource::Level(level),
            ).insert(Resource::Handle(computed)),
            SaferToken::CloseToken { level, computed, .. } => Multiset::singleton(
                Resource::Level(level),
            ).insert(Resource::Handle(computed)),
            SaferToken::CloseLevel { level, outcome } => token_handed_over(outcome).insert(
                Resource::Level(level),
            ),
        }
    }

    open spec fn handed_over(outcome: Result<Token, TokenError>) -> Multiset<Resource> {
        token_handed_over(outcome)
    }

    open spec fn decided(self) -> Option<Result<Token, TokenError>> {
        match self {
            SaferToken::CloseToken { error, .. } => Some(Err(error)),
            SaferToken::CloseLevel { outcome, .. } => Some(outcome),
            _ => None,
        }
    }

    open spec fn relabels(self) -> Option<usize> {
        None
    }

    fn call(&self) -> (call: Call<Vec<u8>>) {
        match self {
            SaferToken::CreateLevel { .. } => Call::SaferCreateLevel {
                scope: SAFER_SCOPEID_USER,
                level_id: SAFER_LEVELID_NORMALUSER,
                flags: SAFER_LEVEL_OPEN,
            },
            SaferToken::ComputeToken { token, level } => Call::SaferComputeTokenFromLevel {
                level: *level,
                token: *token,
                flags: 0,
            },
            SaferToken::SetLabel { set_label, .. } => set_label.call(),
            SaferToken::CloseToken { computed, .. } => Call::CloseHandle { handle: *computed },
            SaferToken::CloseLevel { level, .. } => Call::SaferCloseLevel { level: *level },
        }
    }

    fn resume(self, reply: Reply) -> (progress: Progress<Self, Token>) {
        match self {
            SaferToken::CreateLevel { token } => {
                let (res, level, last_error) = reply.into_opened();
                match check(Context::SaferCreateLevel, res, last_error) {
                    Err(error) => Progress::Finished(Err(error)),
                    Ok(()) => Progress::Pending(SaferToken::ComputeToken { token, level }),
                }
            },
            SaferToken::ComputeToken { level, .. } => {
                let (res, computed, last_error) = reply.into_opened();
                match check(Context::SaferComputeTokenFromLevel, res, last_error) {
                    Err(error) => Progress::Pending(
                        SaferToken::CloseLevel { level, outcome: Err(error) },
                    ),
                    Ok(()) => {
                        let token = Token { token: computed };
                        Progress::Pending(
                            SaferToken::SetLabel {
                                level,
                                computed,
                                set_label: token.set_medium_integrity(),
                            },
                        )
                    },
                }
            },
            SaferToken::SetLabel { level, computed, set_label } => match set_label.resume(reply) {
                Progress::Pending(set_label) => Progress::Pending(
                    SaferToken::SetLabel { level, computed, set_label },
                ),
                Progress::Finished(Err(error)) => Progress::Pending(
                    SaferToken::CloseToken { level, computed, error },
                ),
                Progress::Finished(Ok(())) => Progress::Pending(
                    SaferToken::CloseLevel { level, outcome: Ok(Token { token: computed }) },
                ),
            },
            SaferToken::CloseToken { level, error, .. } => Progress::Pending(
                SaferToken::CloseLevel { level, outcome: Err(error) },
            ),
            SaferToken::CloseLevel { outcome, .. } => Progress::Finished(outcome),
        }
    }

    proof fn under_way(self) {
    }

    proof fn step(self, reply: Reply) {
        if let SaferToken::SetLabel { set_label, .. } = self {
            set_label.step(reply);
        }
        match self.after(reply) {
            Progress::Pending(next) => {
                assert(next.held().add(released(self.pending())) =~= self.held().add(
                    acquired(self.pending(), reply),
                ));
            },
            Progress::Finished(outcome) => {
                assert(Self::handed_over(outcome).add(released(self.pending()))
                    =~= self.held().add(acquired(self.pending(), reply)));
            },
        }
    }
}

} // verus!
