//! How a token operation fails.

use vstd::prelude::*;

verus! {

/// The call of an operation that failed.
#[derive(Debug, Clone, Copy, PartialEq, Eq, Structural)]
pub enum Context {
    OpenCurrentProcessToken,
    OpenShellProcess,
    OpenShellProcessToken,
    SaferCreateLevel,
    SaferComputeTokenFromLevel,
    SetMediumIntegrity,
    DuplicateToken,
    CheckTokenMembership,
    IntegrityLevelSize,
    IntegrityLevel,
    ElevationType,
    Impersonate,
}

impl Context {
    /// The words that go in front of the system's own message.
    pub open spec fn words(self) -> Seq<char> {
        match self {
            Context::OpenCurrentProcessToken => "OpenProcessToken(GetCurrentProcess))"@,
            Context::OpenShellProcess => "OpenProcess(shell_pid)"@,
            Context::OpenShellProcessToken => "OpenProcessToken(shell process)"@,
            Context::SaferCreateLevel => "SaferCreateLevel"@,
            Context::SaferComputeTokenFromLevel => "SaferComputeTokenFromLevel"@,
            Context::SetMediumIntegrity => "SetTokenInformation(TokenIntegrityLevel Medium)"@,
            Context::DuplicateToken => "DuplicateTokenEx"@,
            Context::CheckTokenMembership => "CheckTokenMembership"@,
            Context::IntegrityLevelSize =>
                "GetTokenInformation TokenIntegrityLevel unexpected failure"@,
            Context::IntegrityLevel => "GetTokenInformation TokenIntegrityLevel"@,
            Context::ElevationType => "GetTokenInformation TOKEN_ELEVATION_TYPE"@,
            Context::Impersonate => "ImpersonateLoggedOnUser"@,
        }
    }

    pub fn text(self) -> (text: &'static str)
        ensures
            text@ == self.words(),
    {
        match self {
            Context::OpenCurrentProcessToken => "OpenProcessToken(GetCurrentProcess))",
            Context::OpenShellProcess => "OpenProcess(shell_pid)",
            Context::OpenShellProcessToken => "OpenProcessToken(shell process)",
            Context::SaferCreateLevel => "SaferCreateLevel",
            Context::SaferComputeTokenFromLevel => "SaferComputeTokenFromLevel",
            Context::SetMediumIntegrity => "SetTokenInformation(TokenIntegrityLevel Medium)",
            Context::DuplicateToken => "DuplicateTokenEx",
            Context::CheckTokenMembership => "CheckTokenMembership",
            Context::IntegrityLevelSize =>
                "GetTokenInformation TokenIntegrityLevel unexpected failure",
            Context::IntegrityLevel => "GetTokenInformation TokenIntegrityLevel",
            Context::ElevationType => "GetTokenInformation TOKEN_ELEVATION_TYPE",
            Context::Impersonate => "ImpersonateLoggedOnUser",
        }
    }
}

/// The kind of an error, as far as the system's code does not say it.
#[derive(Debug, Clone, Copy, PartialEq, Eq, Structural)]
pub enum ErrorKind {
    /// What was looked for is not there.
    NotFound,
    /// Whatever the code of the system stands for.
    System(u32),
}

/// Why an operation ended without a result.
#[derive(Debug, Clone, Copy, PartialEq, Eq, Structural)]
pub enum TokenError {
    /// No shell runs on this desktop: what was looked for was not found.
    NoShellWindow,
    /// A call failed, and `code` was the last error of the thread right after it.
    Win32 { context: Context, code: u32 },
    /// A well known SID could not be made; the error is handed on as it came.
    WellKnownSid { code: u32 },
}

impl TokenError {
    /// The words of the error itself, where it has any beside the system's message.
    pub open spec fn words(self) -> Option<Seq<char>> {
        match self {
            TokenError::NoShellWindow => Some("there is no shell window"@),
            TokenError::Win32 { context, .. } => Some(context.words()),
            TokenError::WellKnownSid { .. } => None,
        }
    }

    pub fn text(&self) -> (text: Option<&'static str>)
        ensures
            text is Some <==> self.words() is Some,
            text matches Some(s) ==> Some(s@) == self.words(),
    {
        match self {
            TokenError::NoShellWindow => Some("there is no shell window"),
            TokenError::Win32 { context, .. } => Some(context.text()),
            TokenError::WellKnownSid { .. } => None,
        }
    }

    /// The kind of I/O error that this is.
    pub fn kind(&self) -> (kind: ErrorKind)
        ensures
            kind == match *self {
                TokenError::NoShellWindow => ErrorKind::NotFound,
                TokenError::Win32 { code, .. } => ErrorKind::System(code),
                TokenError::WellKnownSid { code } => ErrorKind::System(code),
            },
    {
        match self {
            TokenError::NoShellWindow => ErrorKind::NotFound,
            TokenError::Win32 { code, .. } => ErrorKind::System(*code),
            TokenError::WellKnownSid { code } => ErrorKind::System(*code),
        }
    }
}

} // verus!
