//! Asking for the integrity level of a token.

use crate::call::{failure, Call, Reply};
use crate::error::{Context, TokenError};
use crate::label::TokenIntegrityLevel;
use crate::procedure::{fresh, Procedure, Progress, Resource};
use crate::token::Token;
use crate::win32::{ERROR_INSUFFICIENT_BUFFER, TOKEN_INTEGRITY_LEVEL, WIN_HIGH_LABEL_SID};
use vstd::multiset::Multiset;
use vstd::prelude::*;

verus! {

/// Asks for the mandatory label of a token: first for its size, then for the label.
#[derive(Debug, Clone, Copy, PartialEq, Eq)]
pub enum IntegrityQuery {
    Size { token: usize },
    Data { token: usize, size: u32 },
}

/// Asks whether a label is the one of high integrity, and keeps its storage until the
/// answer is there.
#[derive(Debug, PartialEq, Eq)]
pub struct HighCheck {
    pub label: TokenIntegrityLevel,
}

impl Token {
    /// Retrieves the integrity level label of the token.
    pub fn integrity_level(&self) -> (procedure: IntegrityQuery)
        ensures
            procedure == (IntegrityQuery::Size { token: self.token }),
            fresh(procedure),
    {
        IntegrityQuery::Size { token: self.token }
    }
}

impl TokenIntegrityLevel {
    /// Asks whether this is a high integrity level label.
    pub fn is_high(self) -> (procedure: HighCheck)
        requires
            self.well_formed(),
        ensures
            procedure == (HighCheck { label: self }),
            fresh(procedure),
    {
        HighCheck { label: self }
    }
}

impl Procedure for IntegrityQuery {
    type Output = TokenIntegrityLevel;

    open spec fn well_formed(self) -> bool {
        true
    }

    /// The storage for the label is zeroed out, and as large as the system asked for.
    open spec fn pending(self) -> Call<Seq<u8>> {
        match self {
            IntegrityQuery::Size { token } => Call::GetTokenInformationSize {
                token,
                class: TOKEN_INTEGRITY_LEVEL,
            },
            IntegrityQuery::Data { token, size } => Call::GetTokenInformation {
                token,
                class: TOKEN_INTEGRITY_LEVEL,
                buffer: Seq::new(size as nat, |i: int| 0u8),
            },
        }
    }

    open spec fn after(self, reply: Reply) -> Progress<Self, TokenIntegrityLevel> {
        match failure(self.pending(), reply) {
            Some(error) => Progress::Finished(Err(error)),
            None => match self {
                IntegrityQuery::Size { token } => Progress::Pending(
                    IntegrityQuery::Data { token, size: reply->Size_size },
                ),
                IntegrityQuery::Data { .. } => Progress::Finished(
                    Ok(TokenIntegrityLevel { data: reply->Information_data }),
                ),
            },
        }
    }

    open spec fn calls_left(self) -> nat {
        match self {
            IntegrityQuery::Size { .. } => 2,
            IntegrityQuery::Data { .. } => 1,
        }
    }

    open spec fn held(self) -> Multiset<Resource> {
        Multiset::empty()
    }

    open spec fn handed_over(outcome: Result<TokenIntegrityLevel, TokenError>) -> Multiset<
        Resource,
    > {
        Multiset::empty()
    }

    open spec fn decided(self) -> Option<Result<TokenIntegrityLevel, TokenError>> {
        None
    }

    open spec fn relabels(self) -> Option<usize> {
        None
    }

    fn call(&self) -> (call: Call<Vec<u8>>) {
        match *self {
            IntegrityQuery::Size { token } => Call::GetTokenInformationSize {
                token,
                class: TOKEN_INTEGRITY_LEVEL,
            },
            IntegrityQuery::Data { token, size } => {
                let buffer: Vec<u8> = vec![0u8; size as usize];
                assert(buffer@ =~= Seq::new(size as nat, |i: int| 0u8));
                Call::GetTokenInformation { token, class: TOKEN_INTEGRITY_LEVEL, buffer }
            },
        }
    }

    fn resume(self, reply: Reply) -> (progress: Progress<Self, TokenIntegrityLevel>)
        ensures
            progress matches Progress::Finished(Ok(label)) ==> label.well_formed(),
    {
        match self {
            IntegrityQuery::Size { token } => {
                let (size, last_error) = reply.into_size();
                // The call should have failed and told that it needs more space.
                if last_error != ERROR_INSUFFICIENT_BUFFER {
                    return Progress::Finished(
                        Err(
                            TokenError::Win32 {
                                context: Context::IntegrityLevelSize,
                                code: last_error,
                            },
                        ),
                    );
                }
                Progress::Pending(IntegrityQuery::Data { token, size })
            },
            IntegrityQuery::Data { .. } => {
                let (res, data, last_error) = reply.into_information();
                if res == 0 {
                    return Progress::Finished(
                        Err(
                            TokenError::Win32 {
                                context: Context::IntegrityLevel,
                                code: last_error,
                            },
                        ),
                    );
                }
                Progress::Finished(Ok(TokenIntegrityLevel { data }))
            },
        }
    }

    proof fn under_way(self) {
    }

    proof fn step(self, reply: Reply) {
    }
}

impl Procedure for HighCheck {
    type Output = bool;

    open spec fn well_formed(self) -> bool {
        self.label.well_formed()
    }

    open spec fn pending(self) -> Call<Seq<u8>> {
        Call::IsWellKnownSid {
            address: self.label.sid_address() as usize,
            kind: WIN_HIGH_LABEL_SID,
        }
    }

    open spec fn after(self, reply: Reply) -> Progress<Self, bool> {
        Progress::Finished(Ok(reply->Match_matches))
    }

    open spec fn calls_left(self) -> nat {
        1
    }

    open spec fn held(self) -> Multiset<Resource> {
        Multiset::empty()
    }

    open spec fn handed_over(outcome: Result<bool, TokenError>) -> Multiset<Resource> {
        Multiset::empty()
    }

    open spec fn decided(self) -> Option<Result<bool, TokenError>> {
        None
    }

    open spec fn relabels(self) -> Option<usize> {
        None
    }

    fn call(&self) -> (call: Call<Vec<u8>>) {
        Call::IsWellKnownSid { address: self.label.sid(), kind: WIN_HIGH_LABEL_SID }
    }

    fn resume(self, reply: Reply) -> (progress: Progress<Self, bool>) {
        Progress::Finished(Ok(reply.into_match()))
    }

    proof fn under_way(self) {
    }

    proof fn step(self, reply: Reply) {
    }
}

} // verus!
