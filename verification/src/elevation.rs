//! Asking how a token came to be elevated.

use crate::bytes::{le_value, lemma_le_value_fits, read_le};
use crate::call::{check, failure, Call, Reply};
use crate::error::{Context, TokenError};
use crate::procedure::{fresh, Procedure, Progress, Resource};
use crate::token::Token;
use crate::win32::TOKEN_ELEVATION_TYPE;
use vstd::multiset::Multiset;
use vstd::prelude::*;

verus! {

/// Asks for the elevation type of `token`.
#[derive(Debug, Clone, Copy, PartialEq, Eq)]
pub struct ElevationQuery {
    pub token: usize,
}

impl Token {
    /// Asks for a number that says what degree of elevation is applied to the token: the
    /// default, full or limited elevation type.
    pub fn elevation_type(&self) -> (procedure: ElevationQuery)
        ensures
            procedure == (ElevationQuery { token: self.token }),
            fresh(procedure),
    {
        ElevationQuery { token: self.token }
    }
}

impl Procedure for ElevationQuery {
    type Output = u32;

    open spec fn well_formed(self) -> bool {
        true
    }

    /// The number takes four bytes.
    open spec fn pending(self) -> Call<Seq<u8>> {
        Call::GetTokenInformation {
            token: self.token,
            class: TOKEN_ELEVATION_TYPE,
            buffer: seq![0u8, 0u8, 0u8, 0u8],
        }
    }

    open spec fn after(self, reply: Reply) -> Progress<Self, u32> {
        Progress::Finished(
            match failure(self.pending(), reply) {
                Some(error) => Err(error),
                None => Ok(le_value(reply->Information_data@) as u32),
            },
        )
    }

    open spec fn calls_left(self) -> nat {
        1
    }

    open spec fn held(self) -> Multiset<Resource> {
        Multiset::empty()
    }

    open spec fn handed_over(outcome: Result<u32, TokenError>) -> Multiset<Resource> {
        Multiset::empty()
    }

    open spec fn decided(self) -> Option<Result<u32, TokenError>> {
        None
    }

    open spec fn relabels(self) -> Option<usize> {
        None
    }

    fn call(&self) -> (call: Call<Vec<u8>>) {
        let buffer: Vec<u8> = vec![0u8, 0u8, 0u8, 0u8];
        assert(buffer@ =~= seq![0u8, 0u8, 0u8, 0u8]);
        Call::GetTokenInformation { token: self.token, class: TOKEN_ELEVATION_TYPE, buffer }
    }

    fn resume(self, reply: Reply) -> (progress: Progress<Self, u32>) {
        let (res, data, last_error) = reply.into_information();
        match check(Context::ElevationType, res, last_error) {
            Err(error) => Progress::Finished(Err(error)),
            Ok(()) => {
                proof {
                    lemma_le_value_fits(data@);
                    assert(data@.subrange(0, 4) =~= data@);
                }
                Progress::Finished(Ok(read_le(&data, 0, 4) as u32))
            },
        }
    }

    proof fn under_way(self) {
    }

    proof fn step(self, reply: Reply) {
    }
}

} // verus!
