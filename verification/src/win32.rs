//! The Win32 constants that token operations pass to the system or compare its answers with.

use vstd::prelude::*;

verus! {

/// The value of a `HANDLE` that refers to nothing.
pub const INVALID_HANDLE_VALUE: usize = usize::MAX;

/// The value of a null pointer, and of a window handle that names no window.
pub const NULL: usize = 0;

/// `GetLastError` when a buffer was too small for what was asked.
pub const ERROR_INSUFFICIENT_BUFFER: u32 = 122;

pub const TOKEN_ASSIGN_PRIMARY: u32 = 0x0001;

pub const TOKEN_DUPLICATE: u32 = 0x0002;

pub const TOKEN_IMPERSONATE: u32 = 0x0004;

pub const TOKEN_QUERY: u32 = 0x0008;

pub const TOKEN_ADJUST_DEFAULT: u32 = 0x0080;

pub const TOKEN_ADJUST_SESSIONID: u32 = 0x0100;

pub const PROCESS_QUERY_INFORMATION: u32 = 0x0400;

/// The access asked for when the token of the current process is opened.
pub const CURRENT_PROCESS_TOKEN_ACCESS: u32 = TOKEN_QUERY | TOKEN_DUPLICATE | TOKEN_IMPERSONATE;

/// The access asked for on a duplicated token.
pub const DUPLICATE_TOKEN_ACCESS: u32 = TOKEN_ADJUST_SESSIONID | TOKEN_ADJUST_DEFAULT
    | TOKEN_ASSIGN_PRIMARY | TOKEN_IMPERSONATE | TOKEN_DUPLICATE | TOKEN_QUERY;

/// `SECURITY_IMPERSONATION_LEVEL`: the server may act as the client on its own machine.
pub const SECURITY_IMPERSONATION: u32 = 2;

/// `TOKEN_TYPE` of a token that a process can be started with.
pub const TOKEN_PRIMARY: u32 = 1;

/// `TOKEN_TYPE` of a token that a thread can take on.
pub const TOKEN_IMPERSONATION: u32 = 2;

/// `TOKEN_INFORMATION_CLASS` of the elevation type.
pub const TOKEN_ELEVATION_TYPE: u32 = 18;

/// `TOKEN_INFORMATION_CLASS` of the mandatory label.
pub const TOKEN_INTEGRITY_LEVEL: u32 = 25;

/// The token is not part of a split pair.
pub const TOKEN_ELEVATION_TYPE_DEFAULT: u32 = 1;

/// The token is the elevated half of a split pair.
pub const TOKEN_ELEVATION_TYPE_FULL: u32 = 2;

/// The token is the limited half of a split pair.
pub const TOKEN_ELEVATION_TYPE_LIMITED: u32 = 3;

/// The attribute that marks a label as an integrity label.
pub const SE_GROUP_INTEGRITY: u32 = 0x0020;

/// `WELL_KNOWN_SID_TYPE` of the builtin administrators group.
pub const WIN_BUILTIN_ADMINISTRATORS_SID: u32 = 26;

/// `WELL_KNOWN_SID_TYPE` of the medium integrity label.
pub const WIN_MEDIUM_LABEL_SID: u32 = 67;

/// `WELL_KNOWN_SID_TYPE` of the high integrity label.
pub const WIN_HIGH_LABEL_SID: u32 = 68;

pub const SAFER_SCOPEID_USER: u32 = 2;

pub const SAFER_LEVELID_NORMALUSER: u32 = 0x20000;

pub const SAFER_LEVEL_OPEN: u32 = 1;

} // verus!
