//! Determining how privileged a token is.

use crate::call::{Call, Reply};
use crate::duplicate::Duplicate;
use crate::elevation::ElevationQuery;
use crate::error::TokenError;
use crate::integrity::{HighCheck, IntegrityQuery};
use crate::membership::AdministratorsCheck;
use crate::procedure::{acquired, fresh, released, Procedure, Progress, Resource};
use crate::token::{PrivilegeLevel, Token};
use crate::win32::{TOKEN_ELEVATION_TYPE_FULL, TOKEN_IMPERSONATION};
use vstd::multiset::Multiset;
use vstd::prelude::*;

verus! {

/// Determines the effective privilege level of `token`, asking no more than it takes.
#[derive(Debug, PartialEq, Eq)]
pub enum PrivilegeQuery {
    Elevation { token: usize, elevation: ElevationQuery },
    Label { token: usize, integrity: IntegrityQuery },
    High { token: usize, high: HighCheck },
    Duplicate { duplicate: Duplicate },
    Administrators { impersonation: usize, administrators: AdministratorsCheck },
    CloseToken { impersonation: usize, outcome: Result<PrivilegeLevel, TokenError> },
}

impl Token {
    /// The query for the privilege level of the token, before its first call.
    pub open spec fn privilege_query(self) -> PrivilegeQuery {
        PrivilegeQuery::Elevation {
            token: self.token,
            elevation: ElevationQuery { token: self.token },
        }
    }

    /// Determines the effective privilege level of the token.
    pub fn privilege_level(&self) -> (procedure: PrivilegeQuery)
        ensures
            procedure == self.privilege_query(),
            fresh(procedure),
    {
        PrivilegeQuery::Elevation { token: self.token, elevation: self.elevation_type() }
    }
}

/// The privilege level of a token with high integrity.
pub open spec fn level_of_member(is_administrator: bool) -> PrivilegeLevel {
    if is_administrator {
        PrivilegeLevel::HighIntegrityAdmin
    } else {
        PrivilegeLevel::NotPrivileged
    }
}

impl Procedure for PrivilegeQuery {
    type Output = PrivilegeLevel;

    open spec fn well_formed(self) -> bool {
        self matches PrivilegeQuery::High { high, .. } ==> high.well_formed()
    }

    open spec fn pending(self) -> Call<Seq<u8>> {
        match self {
            PrivilegeQuery::Elevation { elevation, .. } => elevation.pending(),
            PrivilegeQuery::Label { integrity, .. } => integrity.pending(),
            PrivilegeQuery::High { high, .. } => high.pending(),
            PrivilegeQuery::Duplicate { duplicate } => duplicate.pending(),
            PrivilegeQuery::Administrators { administrators, .. } => administrators.pending(),
            PrivilegeQuery::CloseToken { impersonation, .. } => Call::CloseHandle {
                handle: impersonation,
            },
        }
    }

    open spec fn after(self, reply: Reply) -> Progress<Self, PrivilegeLevel> {
        match self {
            PrivilegeQuery::Elevation { token, elevation } => match elevation.after(reply) {
                Progress::Pending(elevation) => Progress::Pending(
                    PrivilegeQuery::Elevation { token, elevation },
                ),
                Progress::Finished(Err(error)) => Progress::Finished(Err(error)),
                Progress::Finished(Ok(kind)) => if kind == TOKEN_ELEVATION_TYPE_FULL {
                    Progress::Finished(Ok(PrivilegeLevel::Elevated))
                } else {
                    Progress::Pending(
                        PrivilegeQuery::Label { token, integrity: IntegrityQuery::Size { token } },
                    )
                },
            },
            PrivilegeQuery::Label { token, integrity } => match integrity.after(reply) {
                Progress::Pending(integrity) => Progress::Pending(
                    PrivilegeQuery::Label { token, integrity },
                ),
                Progress::Finished(Err(error)) => Progress::Finished(Err(error)),
                Progress::Finished(Ok(label)) => Progress::Pending(
                    PrivilegeQuery::High { token, high: HighCheck { label } },
                ),
            },
            PrivilegeQuery::High { token, high } => match high.after(reply) {
                Progress::Pending(high) => Progress::Pending(
                    PrivilegeQuery::High { token, high },
                ),
                Progress::Finished(Err(error)) => Progress::Finished(Err(error)),
                Progress::Finished(Ok(is_high)) => if is_high {
                    Progress::Pending(
                        PrivilegeQuery::Duplicate {
                            duplicate: Duplicate { token, kind: TOKEN_IMPERSONATION },
                        },
                    )
                } else {
                    Progress::Finished(Ok(PrivilegeLevel::NotPrivileged))
                },
            },
            PrivilegeQuery::Duplicate { duplicate } => match duplicate.after(reply) {
                Progress::Pending(duplicate) => Progress::Pending(
                    PrivilegeQuery::Duplicate { duplicate },
                ),
                Progress::Finished(Err(error)) => Progress::Finished(Err(error)),
                Progress::Finished(Ok(imp)) => Progress::Pending(
                    PrivilegeQuery::Administrators {
                        impersonation: imp.token,
                        administrators: AdministratorsCheck::MakeSid { token: imp.token },
                    },
                ),
            },
            PrivilegeQuery::Administrators {
                impersonation,
                administrators,
            } => match administrators.after(reply) {
                Progress::Pending(administrators) => Progress::Pending(
                    PrivilegeQuery::Administrators { impersonation, administrators },
                ),
                Progress::Finished(Err(error)) => Progress::Pending(
                    PrivilegeQuery::CloseToken { impersonation, outcome: Err(error) },
                ),
                Progress::Finished(Ok(is_administrator)) => Progress::Pending(
                    PrivilegeQuery::CloseToken {
                        impersonation,
                        outcome: Ok(level_of_member(is_administrator)),
                    },
                ),
            },
            PrivilegeQuery::CloseToken { outcome, .. } => Progress::Finished(outcome),
        }
    }

    open spec fn calls_left(self) -> nat {
        match self {
            PrivilegeQuery::Elevation { elevation, .. } => elevation.calls_left() + 7,
            PrivilegeQuery::Label { integrity, .. } => integrity.calls_left() + 5,
            PrivilegeQuery::High { high, .. } => high.calls_left() + 4,
            PrivilegeQuery::Duplicate { duplicate } => duplicate.calls_left() + 3,
            PrivilegeQuery::Administrators { administrators, .. } => 1
                + administrators.calls_left(),
            PrivilegeQuery::CloseToken { .. } => 1,
        }
    }

    open spec fn held(self) -> Multiset<Resource> {
        match self {
            PrivilegeQuery::Administrators { impersonation, administrators } =>
                administrators.held().insert(Resource::Handle(impersonation)),
            PrivilegeQuery::CloseToken { impersonation, .. } => Multiset::singleton(
                Resource::Handle(impersonation),
            ),
            _ => Multiset::empty(),
        }
    }

    open spec fn handed_over(outcome: Result<PrivilegeLevel, TokenError>) -> Multiset<Resource> {
        Multiset::empty()
    }

    open spec fn decided(self) -> Option<Result<PrivilegeLevel, TokenError>> {
        match self {
            PrivilegeQuery::CloseToken { outcome, .. } => Some(outcome),
            _ => None,
        }
    }

    open spec fn relabels(self) -> Option<usize> {
        None
    }

    fn call(&self) -> (call: Call<Vec<u8>>) {
        match self {
            PrivilegeQuery::Elevation { elevation, .. } => elevation.call(),
            PrivilegeQuery::Label { integrity, .. } => integrity.call(),
            PrivilegeQuery::High { high, .. } => high.call(),
            PrivilegeQuery::Duplicate { duplicate } => duplicate.call(),
            PrivilegeQuery::Administrators { administrators, .. } => administrators.call(),
            PrivilegeQuery::CloseToken { impersonation, .. } => Call::CloseHandle {
                handle: *impersonation,
            },
        }
    }

    fn resume(self, reply: Reply) -> (progress: Progress<Self, PrivilegeLevel>) {
        match self {
            PrivilegeQuery::Elevation { token, elevation } => match elevation.resume(reply) {
                Progress::Pending(elevation) => Progress::Pending(
                    PrivilegeQuery::Elevation { token, elevation },
                ),
                Progress::Finished(Err(error)) => Progress::Finished(Err(error)),
                Progress::Finished(Ok(kind)) => {
                    if kind == TOKEN_ELEVATION_TYPE_FULL {
                        return Progress::Finished(Ok(PrivilegeLevel::Elevated));
                    }
                    let this = Token { token };
                    Progress::Pending(
                        PrivilegeQuery::Label { token, integrity: this.integrity_level() },
                    )
                },
            },
            PrivilegeQuery::Label { token, integrity } => match integrity.resume(reply) {
                Progress::Pending(integrity) => Progress::Pending(
                    PrivilegeQuery::Label { token, integrity },
                ),
                Progress::Finished(Err(error)) => Progress::Finished(Err(error)),
                Progress::Finished(Ok(label)) => Progress::Pending(
                    PrivilegeQuery::High { token, high: label.is_high() },
                ),
            },
            PrivilegeQuery::High { token, high } => match high.resume(reply) {
                Progress::Pending(high) => Progress::Pending(
                    PrivilegeQuery::High { token, high },
                ),
                Progress::Finished(Err(error)) => Progress::Finished(Err(error)),
                Progress::Finished(Ok(is_high)) => {
                    if !is_high {
                        return Progress::Finished(Ok(PrivilegeLevel::NotPrivileged));
                    }
                    let this = Token { token };
                    Progress::Pending(
                        PrivilegeQuery::Duplicate {
                            duplicate: this.duplicate_as_impersonation_token(),
                        },
                    )
                },
            },
            PrivilegeQuery::Duplicate { duplicate } => match duplicate.resume(reply) {
                Progress::Pending(duplicate) => Progress::Pending(
                    PrivilegeQuery::Duplicate { duplicate },
                ),
                Progress::Finished(Err(error)) => Progress::Finished(Err(error)),
                Progress::Finished(Ok(imp)) => Progress::Pending(
                    PrivilegeQuery::Administrators {
                        impersonation: imp.token,
                        administrators: imp.check_administrators_membership(),
                    },
                ),
            },
            PrivilegeQuery::Administrators {
                impersonation,
                administrators,
            } => match administrators.resume(reply) {
                Progress::Pending(administrators) => Progress::Pending(
                    PrivilegeQuery::Administrators { impersonation, administrators },
                ),
                Progress::Finished(Err(error)) => Progress::Pending(
                    PrivilegeQuery::CloseToken { impersonation, outcome: Err(error) },
                ),
                Progress::Finished(Ok(is_administrator)) => {
                    let level = if is_administrator {
                        PrivilegeLevel::HighIntegrityAdmin
                    } else {
                        PrivilegeLevel::NotPrivileged
                    };
                    Progress::Pending(
                        PrivilegeQuery::CloseToken { impersonation, outcome: Ok(level) },
                    )
                },
            },
            PrivilegeQuery::CloseToken { outcome, .. } => Progress::Finished(outcome),
        }
    }

    proof fn under_way(self) {
    }

    proof fn step(self, reply: Reply) {
        match self {
            PrivilegeQuery::Elevation { elevation, .. } => elevation.step(reply),
            PrivilegeQuery::Label { integrity, .. } => integrity.step(reply),
            PrivilegeQuery::High { high, .. } => high.step(reply),
            PrivilegeQuery::Duplicate { duplicate } => duplicate.step(reply),
            PrivilegeQuery::Administrators { administrators, .. } => administrators.step(reply),
            PrivilegeQuery::CloseToken { .. } => {},
        }
        match self.after(reply) {
            Progress::Pending(next) => {
                assert(next.held().add(released(self.pending())) =~= self.held().add(
                    acquired(self.pending(), reply),
                ));
            },
            Progress::Finished(outcome) => {
                assert(Self::handed_over(outcome).add(released(self.pending()))
                    =~= self.held().add(acquired(self.pending(), reply)));
            },
        }
    }
}

} // verus!
