//! Operations as procedures that name the next call and are resumed with its reply.

use crate::call::{answers, failure, Call, Reply};
use crate::error::TokenError;
use crate::win32::INVALID_HANDLE_VALUE;
use vstd::multiset::Multiset;
use vstd::prelude::*;

verus! {

/// How far a procedure has come.
#[derive(Debug, PartialEq, Eq)]
pub enum Progress<P, T> {
    /// A call is to be made.
    Pending(P),
    /// No call is left to make.
    Finished(Result<T, TokenError>),
}

/// Something of the system's that has to be given back.
pub ghost enum Resource {
    Handle(usize),
    Level(usize),
}

/// What `call` put in the caller's hands, going by `reply`.
pub open spec fn acquired(call: Call<Seq<u8>>, reply: Reply) -> Multiset<Resource> {
    match (call, reply) {
        (Call::OpenProcessToken { .. }, Reply::Opened { handle, .. })
        | (Call::SaferComputeTokenFromLevel { .. }, Reply::Opened { handle, .. })
        | (Call::DuplicateTokenEx { .. }, Reply::Opened { handle, .. })
        | (Call::OpenProcess { .. }, Reply::Process { handle, .. }) => if failure(
            call,
            reply,
        ) is None {
            Multiset::singleton(Resource::Handle(handle))
        } else {
            Multiset::empty()
        },
        (Call::SaferCreateLevel { .. }, Reply::Opened { handle, .. }) => if failure(
            call,
            reply,
        ) is None {
            Multiset::singleton(Resource::Level(handle))
        } else {
            Multiset::empty()
        },
        _ => Multiset::empty(),
    }
}

/// What `call` gives back to the system.
pub open spec fn released(call: Call<Seq<u8>>) -> Multiset<Resource> {
    match call {
        Call::CloseHandle { handle } => Multiset::singleton(Resource::Handle(handle)),
        Call::SaferCloseLevel { level } => Multiset::singleton(Resource::Level(level)),
        _ => Multiset::empty(),
    }
}

/// `call` does nothing but give something back.
pub open spec fn is_release(call: Call<Seq<u8>>) -> bool {
    call is CloseHandle || call is SaferCloseLevel
}

/// The call that gives back what `call` put in the caller's hands; none where it put nothing
/// there.
pub fn undo(call: &Call<Vec<u8>>, reply: &Reply) -> (undone: Option<Call<Vec<u8>>>)
    ensures
        match undone {
            Some(release) => is_release(release@) && released(release@) == acquired(call@, *reply),
            None => acquired(call@, *reply) == Multiset::<Resource>::empty(),
        },
{
    match (call, reply) {
        (Call::OpenProcessToken { .. }, Reply::Opened { res: 1, handle, .. })
        | (Call::SaferComputeTokenFromLevel { .. }, Reply::Opened { res: 1, handle, .. })
        | (Call::DuplicateTokenEx { .. }, Reply::Opened { res: 1, handle, .. }) => Some(
            Call::CloseHandle { handle: *handle },
        ),
        (Call::OpenProcess { .. }, Reply::Process { handle, .. }) => {
            if *handle == INVALID_HANDLE_VALUE {
                None
            } else {
                Some(Call::CloseHandle { handle: *handle })
            }
        },
        (Call::SaferCreateLevel { .. }, Reply::Opened { res: 1, handle, .. }) => Some(
            Call::SaferCloseLevel { level: *handle },
        ),
        _ => None,
    }
}

/// An operation on tokens that is carried out call by call.
pub trait Procedure: Sized {
    type Output;

    /// What holds between any two calls.
    spec fn well_formed(self) -> bool;

    /// The call that is to be made now.
    spec fn pending(self) -> Call<Seq<u8>>;

    /// Where `reply` to that call leads.
    spec fn after(self, reply: Reply) -> Progress<Self, Self::Output>;

    /// The most calls that are left to make, this one counted.
    spec fn calls_left(self) -> nat;

    /// What the procedure holds and has still to give back or hand over.
    spec fn held(self) -> Multiset<Resource>;

    /// What passes to the caller along with `outcome`.
    spec fn handed_over(outcome: Result<Self::Output, TokenError>) -> Multiset<Resource>;

    /// How the procedure will end, once nothing but giving back is left.
    spec fn decided(self) -> Option<Result<Self::Output, TokenError>>;

    /// The token whose label the procedure was asked to set, where that is what it is for.
    spec fn relabels(self) -> Option<usize>;

    /// The call that is to be made now.
    fn call(&self) -> (call: Call<Vec<u8>>)
        requires
            self.well_formed(),
        ensures
            call@ == self.pending(),
    ;

    /// Takes up the reply to that call.
    fn resume(self, reply: Reply) -> (progress: Progress<Self, Self::Output>)
        requires
            self.well_formed(),
            answers(self.pending(), reply),
        ensures
            progress == self.after(reply),
            progress matches Progress::Pending(next) ==> next.well_formed(),
    ;

    /// A procedure that is under way has a call left to make.
    proof fn under_way(self)
        requires
            self.well_formed(),
        ensures
            0 < self.calls_left(),
    ;

    /// Every step keeps the procedure well formed and comes nearer to the end. It changes
    /// what is held by just what the call brought and gave back. A label is set on nothing
    /// but what is held, or what the procedure was asked to relabel. Once the outcome is
    /// decided, only giving back is left and the outcome stays; before that, a failed call
    /// decides for its error, and one that did not fail decides for no error.
    proof fn step(self, reply: Reply)
        requires
            self.well_formed(),
            answers(self.pending(), reply),
        ensures
            self.after(reply) matches Progress::Pending(next) ==> {
                &&& next.well_formed()
                &&& next.calls_left() < self.calls_left()
                &&& next.relabels() == self.relabels()
                &&& next.held().add(released(self.pending())) == self.held().add(
                    acquired(self.pending(), reply),
                )
            },
            self.after(reply) matches Progress::Finished(outcome) ==> Self::handed_over(
                outcome,
            ).add(released(self.pending())) == self.held().add(acquired(self.pending(), reply)),
            self.pending() matches Call::SetTokenInformation { token, .. } ==> self.relabels()
                == Some(token) || self.held().count(Resource::Handle(token)) > 0,
            is_release(self.pending()) <==> self.decided() is Some,
            self.decided() matches Some(outcome) ==> match self.after(reply) {
                Progress::Pending(next) => next.decided() == Some(outcome),
                Progress::Finished(ended) => ended == outcome,
            },
            self.decided() is None ==> match failure(self.pending(), reply) {
                Some(error) => match self.after(reply) {
                    Progress::Pending(next) => next.decided() == Some(
                        Err::<Self::Output, TokenError>(error),
                    ),
                    Progress::Finished(ended) => ended == Err::<Self::Output, TokenError>(error),
                },
                None => match self.after(reply) {
                    Progress::Pending(next) => !(next.decided() matches Some(Err(_))),
                    Progress::Finished(ended) => ended is Ok,
                },
            },
    ;
}

/// `p` is at its beginning: it holds nothing yet, and nothing is decided.
pub open spec fn fresh<P: Procedure>(p: P) -> bool {
    &&& p.well_formed()
    &&& p.held() == Multiset::<Resource>::empty()
    &&& p.decided() is None
}

} // verus!
