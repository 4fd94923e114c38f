//! Opening the token of a process.

use crate::call::{check, failure, Call, Process, Reply};
use crate::duplicate::Duplicate;
use crate::error::{Context, TokenError};
use crate::procedure::{acquired, fresh, released, Procedure, Progress, Resource};
use crate::token::{token_handed_over, Token};
use crate::win32::{
    CURRENT_PROCESS_TOKEN_ACCESS, INVALID_HANDLE_VALUE, NULL, PROCESS_QUERY_INFORMATION,
    TOKEN_DUPLICATE, TOKEN_PRIMARY,
};
use vstd::multiset::Multiset;
use vstd::prelude::*;

verus! {

/// Opens the token of the current process.
#[derive(Debug, Clone, Copy, PartialEq, Eq)]
pub struct CurrentProcess;

/// Opens the token of the shell process and duplicates it.
#[derive(Debug, PartialEq, Eq)]
pub enum ShellProcess {
    FindWindow,
    FindProcess { window: usize },
    OpenProcess { pid: u32 },
    OpenToken { process: usize },
    Duplicate { process: usize, token: usize, duplicate: Duplicate },
    CloseToken { process: usize, token: usize, outcome: Result<Token, TokenError> },
    CloseProcess { process: usize, outcome: Result<Token, TokenError> },
}

impl Token {
    /// Obtains a handle to the primary token for this process.
    pub fn with_current_process() -> (procedure: CurrentProcess)
        ensures
            procedure == CurrentProcess,
            fresh(procedure),
    {
        CurrentProcess
    }

    /// Obtains the token from the shell process as a primary token. This fails if there is
    /// no shell accessible to the process, for example if the process was spawned by an ssh
    /// session.
    ///
    /// A token cannot be de-elevated directly, so a token that is not elevated has to come
    /// from a well known source: this one.
    pub fn with_shell_process() -> (procedure: ShellProcess)
        ensures
            procedure == ShellProcess::FindWindow,
            fresh(procedure),
    {
        ShellProcess::FindWindow
    }
}

impl Procedure for CurrentProcess {
    type Output = Token;

    open spec fn well_formed(self) -> bool {
        true
    }

    open spec fn pending(self) -> Call<Seq<u8>> {
        Call::OpenProcessToken { process: Process::Current, access: CURRENT_PROCESS_TOKEN_ACCESS }
    }

    open spec fn after(self, reply: Reply) -> Progress<Self, Token> {
        Progress::Finished(
            match failure(self.pending(), reply) {
                Some(error) => Err(error),
                None => Ok(Token { token: reply->Opened_handle }),
            },
        )
    }

    open spec fn calls_left(self) -> nat {
        1
    }

    open spec fn held(self) -> Multiset<Resource> {
        Multiset::empty()
    }

    open spec fn handed_over(outcome: Result<Token, TokenError>) -> Multiset<Resource> {
        token_handed_over(outcome)
    }

    open spec fn decided(self) -> Option<Result<Token, TokenError>> {
        None
    }

    open spec fn relabels(self) -> Option<usize> {
        None
    }

    fn call(&self) -> (call: Call<Vec<u8>>) {
        Call::OpenProcessToken { process: Process::Current, access: CURRENT_PROCESS_TOKEN_ACCESS }
    }

    fn resume(self, reply: Reply) -> (progress: Progress<Self, Token>) {
        let (res, handle, last_error) = reply.into_opened();
        match check(Context::OpenCurrentProcessToken, res, last_error) {
            Err(error) => Progress::Finished(Err(error)),
            Ok(()) => Progress::Finished(Ok(Token { token: handle })),
        }
    }

    proof fn under_way(self) {
    }

    proof fn step(self, reply: Reply) {
    }
}

impl Procedure for ShellProcess {
    type Output = Token;

    open spec fn well_formed(self) -> bool {
        true
    }

    open spec fn pending(self) -> Call<Seq<u8>> {
        match self {
            ShellProcess::FindWindow => Call::GetShellWindow,
            ShellProcess::FindProcess { window } => Call::GetWindowThreadProcessId { window },
            ShellProcess::OpenProcess { pid } => Call::OpenProcess {
                access: PROCESS_QUERY_INFORMATION,
                inherit: false,
                pid,
            },
            ShellProcess::OpenToken { process } => Call::OpenProcessToken {
                process: Process::Handle(process),
                access: TOKEN_DUPLICATE,
            },
            ShellProcess::Duplicate { duplicate, .. } => duplicate.pending(),
            ShellProcess::CloseToken { token, .. } => Call::CloseHandle { handle: token },
            ShellProcess::CloseProcess { process, .. } => Call::CloseHandle { handle: process },
        }
    }

    open spec fn after(self, reply: Reply) -> Progress<Self, Token> {
        match self {
            ShellProcess::FindWindow => match failure(self.pending(), reply) {
                Some(error) => Progress::Finished(Err(error)),
                None => Progress::Pending(
                    ShellProcess::FindProcess { window: reply->Window_window },
                ),
            },
            ShellProcess::FindProcess { .. } => Progress::Pending(
                ShellProcess::OpenProcess { pid: reply->ProcessId_pid },
            ),
            ShellProcess::OpenProcess { .. } => match failure(self.pending(), reply) {
                Some(error) => Progress::Finished(Err(error)),
                None => Progress::Pending(
                    ShellProcess::OpenToken { process: reply->Process_handle },
                ),
            },
            ShellProcess::OpenToken { process } => match failure(self.pending(), reply) {
                Some(error) => Progress::Pending(
                    ShellProcess::CloseProcess { process, outcome: Err(error) },
                ),
                None => Progress::Pending(
                    ShellProcess::Duplicate {
                        process,
                        token: reply->Opened_handle,
                        duplicate: Duplicate { token: reply->Opened_handle, kind: TOKEN_PRIMARY },
                    },
                ),
            },
            ShellProcess::Duplicate { process, token, duplicate } => Progress::Pending(
                match duplicate.after(reply) {
                    Progress::Pending(duplicate) => ShellProcess::Duplicate {
                        process,
                        token,
                        duplicate,
                    },
                    Progress::Finished(outcome) => ShellProcess::CloseToken {
                        process,
                        token,
                        outcome,
                    },
                },
            ),
            ShellProcess::CloseToken { process, outcome, .. } => Progress::Pending(
                ShellProcess::CloseProcess { process, outcome },
            ),
            ShellProcess::CloseProcess { outcome, .. } => Progress::Finished(outcome),
        }
    }

    open spec fn calls_left(self) -> nat {
        match self {
            ShellProcess::FindWindow => 7,
            ShellProcess::FindProcess { .. } => 6,
            ShellProcess::OpenProcess { .. } => 5,
            ShellProcess::OpenToken { .. } => 4,
            ShellProcess::Duplicate { duplicate, .. } => duplicate.calls_left() + 2,
            ShellProcess::CloseToken { .. } => 2,
            ShellProcess::CloseProcess { .. } => 1,
        }
    }

    open spec fn held(self) -> Multiset<Resource> {
        match self {
            ShellProcess::FindWindow => Multiset::empty(),
            ShellProcess::FindProcess { .. } => Multiset::empty(),
            ShellProcess::OpenProcess { .. } => Multiset::empty(),
            ShellProcess::OpenToken { process } => Multiset::singleton(Resource::Handle(process)),
            ShellProcess::Duplicate { process, token, duplicate } => duplicate.held().insert(
                Resource::Handle(process),
            ).insert(Resource::Handle(token)),
            ShellProcess::CloseToken { process, token, outcome } => token_handed_over(
                outcome,
            ).insert(Resource::Handle(process)).insert(Resource::Handle(token)),
            ShellProcess::CloseProcess { process, outcome } => token_handed_over(outcome).insert(
                Resource::Handle(process),
            ),
        }
    }

    open spec fn handed_over(outcome: Result<Token, TokenError>) -> Multiset<Resource> {
        token_handed_over(outcome)
    }

    open spec fn decided(self) -> Option<Result<Token, TokenError>> {
        match self {
            ShellProcess::CloseToken { outcome, .. } => Some(outcome),
            ShellProcess::CloseProcess { outcome, .. } => Some(outcome),
            _ => None,
        }
    }

    open spec fn relabels(self) -> Option<usize> {
        None
    }

    fn call(&self) -> (call: Call<Vec<u8>>) {
        match self {
            ShellProcess::FindWindow => Call::GetShellWindow,
            ShellProcess::FindProcess { window } => Call::GetWindowThreadProcessId {
                window: *window,
            },
            ShellProcess::OpenProcess { pid } => Call::OpenProcess {
                access: PROCESS_QUERY_INFORMATION,
                inherit: false,
                pid: *pid,
            },
            ShellProcess::OpenToken { process } => Call::OpenProcessToken {
                process: Process::Handle(*process),
                access: TOKEN_DUPLICATE,
            },
            ShellProcess::Duplicate { duplicate, .. } => duplicate.call(),
            ShellProcess::CloseToken { token, .. } => Call::CloseHandle { handle: *token },
            ShellProcess::CloseProcess { process, .. } => Call::CloseHandle { handle: *process },
        }
    }

    fn resume(self, reply: Reply) -> (progress: Progress<Self, Token>) {
        match self {
            ShellProcess::FindWindow => {
                let window: usize = reply.into_window();
                if window == NULL {
                    return Progress::Finished(Err(TokenError::NoShellWindow));
                }
                Progress::Pending(ShellProcess::FindProcess { window })
            },
            ShellProcess::FindProcess { .. } => {
                Progress::Pending(ShellProcess::OpenProcess { pid: reply.into_process_id() })
            },
            ShellProcess::OpenProcess { .. } => {
                let (process, last_error) = reply.into_process();
                if process == INVALID_HANDLE_VALUE {
                    return Progress::Finished(
                        Err(
                            TokenError::Win32 {
                                context: Context::OpenShellProcess,
                                code: last_error,
                            },
                        ),
                    );
                }
                Progress::Pending(ShellProcess::OpenToken { process })
            },
            ShellProcess::OpenToken { process } => {
                let (res, handle, last_error) = reply.into_opened();
                match check(Context::OpenShellProcessToken, res, last_error) {
                    Err(error) => Progress::Pending(
                        ShellProcess::CloseProcess { process, outcome: Err(error) },
                    ),
                    Ok(()) => {
                        let token = Token { token: handle };
                        // And now that it is there, make a primary token from it!
                        Progress::Pending(
                            ShellProcess::Duplicate {
                                process,
                                token: handle,
                                duplicate: token.duplicate_as_primary_token(),
                            },
                        )
                    },
                }
            },
            ShellProcess::Duplicate { process, token, duplicate } => match duplicate.resume(reply) {
                Progress::Pending(duplicate) => Progress::Pending(
                    ShellProcess::Duplicate { process, token, duplicate },
                ),
                Progress::Finished(outcome) => Progress::Pending(
                    ShellProcess::CloseToken { process, token, outcome },
                ),
            },
            ShellProcess::CloseToken { process, outcome, .. } => {
                Progress::Pending(ShellProcess::CloseProcess { process, outcome })
            },
            ShellProcess::CloseProcess { outcome, .. } => Progress::Finished(outcome),
        }
    }

    proof fn under_way(self) {
    }

    proof fn step(self, reply: Reply) {
        if let ShellProcess::Duplicate { duplicate, .. } = self {
            duplicate.step(reply);
        }
        match self.after(reply) {
            Progress::Pending(next) => {
                assert(next.held().add(released(self.pending())) =~= self.held().add(
                    acquired(self.pending(), reply),
                ));
            },
            Progress::Finished(outcome) => {
                assert(Self::handed_over(outcome).add(released(self.pending()))
                    =~= self.held().add(acquired(self.pending(), reply)));
            },
        }
    }
}

} // verus!
