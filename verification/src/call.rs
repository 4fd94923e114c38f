//! The calls that token operations make to the system, and what comes back from them.

use crate::error::{Context, TokenError};
use crate::label::{label_bytes, label_width};
use crate::win32::{ERROR_INSUFFICIENT_BUFFER, INVALID_HANDLE_VALUE, NULL, TOKEN_INTEGRITY_LEVEL};
use vstd::pervasive::unreached;
use vstd::prelude::*;

verus! {

/// The process whose token is opened.
#[derive(Debug, Clone, Copy, PartialEq, Eq, Structural)]
pub enum Process {
    /// What `GetCurrentProcess` names.
    Current,
    Handle(usize),
}

/// One call to the system, named after the Win32 function and with the arguments that the
/// operation chooses. Handles and addresses are numbers. `B` is how bytes are held: in a
/// vector where the call is made, in a sequence where it is spoken of.
#[derive(Debug, PartialEq, Eq)]
pub enum Call<B> {
    OpenProcessToken { process: Process, access: u32 },
    GetShellWindow,
    GetWindowThreadProcessId { window: usize },
    OpenProcess { access: u32, inherit: bool, pid: u32 },
    SaferCreateLevel { scope: u32, level_id: u32, flags: u32 },
    SaferComputeTokenFromLevel { level: usize, token: usize, flags: u32 },
    /// Makes the SID of a `WELL_KNOWN_SID_TYPE`.
    CreateWellKnownSid { kind: u32 },
    GetLengthSid { sid: B },
    /// Asks whether the SID at an address is the one of a `WELL_KNOWN_SID_TYPE`.
    IsWellKnownSid { address: usize, kind: u32 },
    /// Hands over a label made of `attributes` and the address of `sid`, as `length` bytes.
    SetTokenInformation { token: usize, class: u32, attributes: u32, sid: B, length: u32 },
    DuplicateTokenEx { token: usize, access: u32, impersonation: u32, kind: u32 },
    CheckTokenMembership { token: usize, sid: B },
    /// `GetTokenInformation` without a buffer, for the size that one would need.
    GetTokenInformationSize { token: usize, class: u32 },
    /// `GetTokenInformation` into `buffer`, which comes back in the reply.
    GetTokenInformation { token: usize, class: u32, buffer: B },
    ImpersonateLoggedOnUser { token: usize },
    CloseHandle { handle: usize },
    SaferCloseLevel { level: usize },
}

impl View for Call<Vec<u8>> {
    type V = Call<Seq<u8>>;

    open spec fn view(&self) -> Call<Seq<u8>> {
        match *self {
            Call::OpenProcessToken { process, access } => Call::OpenProcessToken {
                process,
                access,
            },
            Call::GetShellWindow => Call::GetShellWindow,
            Call::GetWindowThreadProcessId { window } => Call::GetWindowThreadProcessId { window },
            Call::OpenProcess { access, inherit, pid } => Call::OpenProcess {
                access,
                inherit,
                pid,
            },
            Call::SaferCreateLevel { scope, level_id, flags } => Call::SaferCreateLevel {
                scope,
                level_id,
                flags,
            },
            Call::SaferComputeTokenFromLevel { level, token, flags } =>
                Call::SaferComputeTokenFromLevel { level, token, flags },
            Call::CreateWellKnownSid { kind } => Call::CreateWellKnownSid { kind },
            Call::GetLengthSid { sid } => Call::GetLengthSid { sid: sid@ },
            Call::IsWellKnownSid { address, kind } => Call::IsWellKnownSid { address, kind },
            Call::SetTokenInformation { token, class, attributes, sid, length } =>
                Call::SetTokenInformation { token, class, attributes, sid: sid@, length },
            Call::DuplicateTokenEx { token, access, impersonation, kind } =>
                Call::DuplicateTokenEx { token, access, impersonation, kind },
            Call::CheckTokenMembership { token, sid } => Call::CheckTokenMembership {
                token,
                sid: sid@,
            },
            Call::GetTokenInformationSize { token, class } => Call::GetTokenInformationSize {
                token,
                class,
            },
            Call::GetTokenInformation { token, class, buffer } => Call::GetTokenInformation {
                token,
                class,
                buffer: buffer@,
            },
            Call::ImpersonateLoggedOnUser { token } => Call::ImpersonateLoggedOnUser { token },
            Call::CloseHandle { handle } => Call::CloseHandle { handle },
            Call::SaferCloseLevel { level } => Call::SaferCloseLevel { level },
        }
    }
}

/// What a call brought back. `res` is the `BOOL` that the function returned, and
/// `last_error` the last error of the thread right after it.
#[derive(Debug, PartialEq, Eq)]
pub enum Reply {
    Status { res: i32, last_error: u32 },
    Opened { res: i32, handle: usize, last_error: u32 },
    Window { window: usize },
    ProcessId { pid: u32 },
    Process { handle: usize, last_error: u32 },
    /// The bytes of a SID, or the code of the error.
    Sid { sid: Result<Vec<u8>, u32> },
    Length { length: u32 },
    Match { matches: bool },
    Membership { res: i32, is_member: i32, last_error: u32 },
    Size { size: u32, last_error: u32 },
    Information { res: i32, data: Vec<u8>, last_error: u32 },
    Closed,
}

impl Reply {
    pub(crate) fn into_status(self) -> (parts: (i32, u32))
        requires
            self is Status,
        ensures
            self == (Reply::Status { res: parts.0, last_error: parts.1 }),
    {
        match self {
            Reply::Status { res, last_error } => (res, last_error),
            _ => unreached(),
        }
    }

    pub(crate) fn into_opened(self) -> (parts: (i32, usize, u32))
        requires
            self is Opened,
        ensures
            self == (Reply::Opened { res: parts.0, handle: parts.1, last_error: parts.2 }),
    {
        match self {
            Reply::Opened { res, handle, last_error } => (res, handle, last_error),
            _ => unreached(),
        }
    }

    pub(crate) fn into_window(self) -> (window: usize)
        requires
            self is Window,
        ensures
            self == (Reply::Window { window }),
    {
        match self {
            Reply::Window { window } => window,
            _ => unreached(),
        }
    }

    pub(crate) fn into_process_id(self) -> (pid: u32)
        requires
            self is ProcessId,
        ensures
            self == (Reply::ProcessId { pid }),
    {
        match self {
            Reply::ProcessId { pid } => pid,
            _ => unreached(),
        }
    }

    pub(crate) fn into_process(self) -> (parts: (usize, u32))
        requires
            self is Process,
        ensures
            self == (Reply::Process { handle: parts.0, last_error: parts.1 }),
    {
        match self {
            Reply::Process { handle, last_error } => (handle, last_error),
            _ => unreached(),
        }
    }

    pub(crate) fn into_sid(self) -> (sid: Result<Vec<u8>, u32>)
        requires
            self is Sid,
        ensures
            self == (Reply::Sid { sid }),
    {
        match self {
            Reply::Sid { sid } => sid,
            _ => unreached(),
        }
    }

    pub(crate) fn into_length(self) -> (length: u32)
        requires
            self is Length,
        ensures
            self == (Reply::Length { length }),
    {
        match self {
            Reply::Length { length } => length,
            _ => unreached(),
        }
    }

    pub(crate) fn into_match(self) -> (matches: bool)
        requires
            self is Match,
        ensures
            self == (Reply::Match { matches }),
    {
        match self {
            Reply::Match { matches } => matches,
            _ => unreached(),
        }
    }

    pub(crate) fn into_membership(self) -> (parts: (i32, i32, u32))
        requires
            self is Membership,
        ensures
            self == (Reply::Membership { res: parts.0, is_member: parts.1, last_error: parts.2 }),
    {
        match self {
            Reply::Membership { res, is_member, last_error } => (res, is_member, last_error),
            _ => unreached(),
        }
    }

    pub(crate) fn into_size(self) -> (parts: (u32, u32))
        requires
            self is Size,
        ensures
            self == (Reply::Size { size: parts.0, last_error: parts.1 }),
    {
        match self {
            Reply::Size { size, last_error } => (size, last_error),
            _ => unreached(),
        }
    }

    pub(crate) fn into_information(self) -> (parts: (i32, Vec<u8>, u32))
        requires
            self is Information,
        ensures
            self == (Reply::Information { res: parts.0, data: parts.1, last_error: parts.2 }),
    {
        match self {
            Reply::Information { res, data, last_error } => (res, data, last_error),
            _ => unreached(),
        }
    }
}

/// `reply` is one that `call` can bring back.
///
/// A buffer keeps its length. A mandatory label that was written into one is there whole.
/// The length of a SID leaves room for the label in front of it.
pub open spec fn answers(call: Call<Seq<u8>>, reply: Reply) -> bool {
    match call {
        Call::OpenProcessToken { .. }
        | Call::SaferCreateLevel { .. }
        | Call::SaferComputeTokenFromLevel { .. }
        | Call::DuplicateTokenEx { .. } => reply is Opened,
        Call::GetShellWindow => reply is Window,
        Call::GetWindowThreadProcessId { .. } => reply is ProcessId,
        Call::OpenProcess { .. } => reply is Process,
        Call::CreateWellKnownSid { .. } => reply is Sid,
        Call::GetLengthSid { .. } => reply matches Reply::Length { length } && label_width()
            + length <= u32::MAX,
        Call::IsWellKnownSid { .. } => reply is Match,
        Call::SetTokenInformation { .. } | Call::ImpersonateLoggedOnUser { .. } =>
            reply is Status,
        Call::CheckTokenMembership { .. } => reply is Membership,
        Call::GetTokenInformationSize { .. } => reply is Size,
        Call::GetTokenInformation { class, buffer, .. } => reply matches Reply::Information {
            res,
            data,
            ..
        } && data@.len() == buffer.len() && (class == TOKEN_INTEGRITY_LEVEL && res != 0
            ==> data@.len() >= label_width()),
        Call::CloseHandle { .. } | Call::SaferCloseLevel { .. } => reply is Closed,
    }
}

/// The error that `reply` reports of `call`; none where the call did what it was for.
pub open spec fn failure(call: Call<Seq<u8>>, reply: Reply) -> Option<TokenError> {
    match (call, reply) {
        (Call::OpenProcessToken { process, .. }, Reply::Opened { res, last_error, .. }) => {
            let context = match process {
                Process::Current => Context::OpenCurrentProcessToken,
                Process::Handle(_) => Context::OpenShellProcessToken,
            };
            unless_true(context, res, last_error)
        },
        (Call::GetShellWindow, Reply::Window { window }) => if window == NULL {
            Some(TokenError::NoShellWindow)
        } else {
            None
        },
        (Call::OpenProcess { .. }, Reply::Process { handle, last_error }) => if handle
            == INVALID_HANDLE_VALUE {
            Some(TokenError::Win32 { context: Context::OpenShellProcess, code: last_error })
        } else {
            None
        },
        (Call::SaferCreateLevel { .. }, Reply::Opened { res, last_error, .. }) => unless_true(
            Context::SaferCreateLevel,
            res,
            last_error,
        ),
        (Call::SaferComputeTokenFromLevel { .. }, Reply::Opened { res, last_error, .. }) =>
            unless_true(Context::SaferComputeTokenFromLevel, res, last_error),
        (Call::CreateWellKnownSid { .. }, Reply::Sid { sid: Err(code) }) => Some(
            TokenError::WellKnownSid { code },
        ),
        (Call::SetTokenInformation { .. }, Reply::Status { res, last_error }) => unless_true(
            Context::SetMediumIntegrity,
            res,
            last_error,
        ),
        (Call::DuplicateTokenEx { .. }, Reply::Opened { res, last_error, .. }) => unless_true(
            Context::DuplicateToken,
            res,
            last_error,
        ),
        (Call::CheckTokenMembership { .. }, Reply::Membership { res, last_error, .. }) =>
            unless_true(Context::CheckTokenMembership, res, last_error),
        // Asking for a size is meant to fail, for want of a buffer and nothing else.
        (Call::GetTokenInformationSize { .. }, Reply::Size { last_error, .. }) => if last_error
            != ERROR_INSUFFICIENT_BUFFER {
            Some(TokenError::Win32 { context: Context::IntegrityLevelSize, code: last_error })
        } else {
            None
        },
        (
            Call::GetTokenInformation { class, .. },
            Reply::Information { res, last_error, .. },
        ) => if class == TOKEN_INTEGRITY_LEVEL {
            // Here any result but zero counts as success.
            if res == 0 {
                Some(TokenError::Win32 { context: Context::IntegrityLevel, code: last_error })
            } else {
                None
            }
        } else {
            unless_true(Context::ElevationType, res, last_error)
        },
        (Call::ImpersonateLoggedOnUser { .. }, Reply::Status { res, last_error }) => unless_true(
            Context::Impersonate,
            res,
            last_error,
        ),
        _ => None,
    }
}

/// The error of a call that succeeded only if it returned one.
pub open spec fn unless_true(context: Context, res: i32, last_error: u32) -> Option<TokenError> {
    if res != 1 {
        Some(TokenError::Win32 { context, code: last_error })
    } else {
        None
    }
}

/// Passes a result of one, and turns any other into the error of `context`.
pub fn check(context: Context, res: i32, last_error: u32) -> (checked: Result<(), TokenError>)
    ensures
        checked == match unless_true(context, res, last_error) {
            Some(error) => Err::<(), TokenError>(error),
            None => Ok(()),
        },
{
    if res != 1 {
        Err(TokenError::Win32 { context, code: last_error })
    } else {
        Ok(())
    }
}

/// Tells whether `reply` is one that `call` can bring back.
pub fn accepts(call: &Call<Vec<u8>>, reply: &Reply) -> (accepted: bool)
    ensures
        accepted == answers(call@, *reply),
{
    match (call, reply) {
        (Call::OpenProcessToken { .. }, Reply::Opened { .. }) => true,
        (Call::SaferCreateLevel { .. }, Reply::Opened { .. }) => true,
        (Call::SaferComputeTokenFromLevel { .. }, Reply::Opened { .. }) => true,
        (Call::DuplicateTokenEx { .. }, Reply::Opened { .. }) => true,
        (Call::GetShellWindow, Reply::Window { .. }) => true,
        (Call::GetWindowThreadProcessId { .. }, Reply::ProcessId { .. }) => true,
        (Call::OpenProcess { .. }, Reply::Process { .. }) => true,
        (Call::CreateWellKnownSid { .. }, Reply::Sid { .. }) => true,
        (Call::GetLengthSid { .. }, Reply::Length { length }) => *length <= u32::MAX
            - label_bytes() as u32,
        (Call::IsWellKnownSid { .. }, Reply::Match { .. }) => true,
        (Call::SetTokenInformation { .. }, Reply::Status { .. }) => true,
        (Call::ImpersonateLoggedOnUser { .. }, Reply::Status { .. }) => true,
        (Call::CheckTokenMembership { .. }, Reply::Membership { .. }) => true,
        (Call::GetTokenInformationSize { .. }, Reply::Size { .. }) => true,
        (
            Call::GetTokenInformation { class, buffer, .. },
            Reply::Information { res, data, .. },
        ) => data.len() == buffer.len() && (*class != TOKEN_INTEGRITY_LEVEL || *res == 0
            || data.len() >= label_bytes()),
        (Call::CloseHandle { .. }, Reply::Closed) => true,
        (Call::SaferCloseLevel { .. }, Reply::Closed) => true,
        _ => false,
    }
}

} // verus!
