//! What each operation asks of the system and what it ends with, told by the fields of the
//! replies.

use crate::bytes::{le_value, lemma_le_value_fits};
use crate::call::{answers, Call, Process, Reply};
use crate::duplicate::Duplicate;
use crate::elevation::ElevationQuery;
use crate::error::{Context, TokenError};
use crate::impersonate::Impersonate;
use crate::integrity::{HighCheck, IntegrityQuery};
use crate::label::TokenIntegrityLevel;
use crate::membership::{AdministratorsCheck, MembershipCheck};
use crate::open::{CurrentProcess, ShellProcess};
use crate::privilege::PrivilegeQuery;
use crate::procedure::{Procedure, Progress};
use crate::run::{
    advance, conforms, history, lemma_first_stages, lemma_stages, lemma_stages_conform, run, stage,
};
use crate::safer::{SaferToken, SetMediumIntegrity};
use crate::token::{PrivilegeLevel, Token};
use crate::win32::{
    CURRENT_PROCESS_TOKEN_ACCESS, DUPLICATE_TOKEN_ACCESS, ERROR_INSUFFICIENT_BUFFER,
    INVALID_HANDLE_VALUE, NULL, PROCESS_QUERY_INFORMATION, SAFER_LEVELID_NORMALUSER,
    SAFER_LEVEL_OPEN, SAFER_SCOPEID_USER, SECURITY_IMPERSONATION, SE_GROUP_INTEGRITY,
    TOKEN_DUPLICATE, TOKEN_ELEVATION_TYPE, TOKEN_ELEVATION_TYPE_FULL, TOKEN_IMPERSONATION,
    TOKEN_INTEGRITY_LEVEL, TOKEN_PRIMARY, WIN_BUILTIN_ADMINISTRATORS_SID, WIN_HIGH_LABEL_SID,
    WIN_MEDIUM_LABEL_SID,
};
use vstd::prelude::*;

verus! {

/// `p` can be given `replies`, one after the other. It makes the calls `asked` for them, in
/// this order and no others, and is then finished, with `outcome`.
pub open spec fn goes<P: Procedure>(
    p: P,
    asked: Seq<Call<Seq<u8>>>,
    replies: Seq<Reply>,
    outcome: Result<P::Output, TokenError>,
) -> bool {
    &&& p.well_formed()
    &&& conforms(Progress::Pending(p), replies)
    &&& run(Progress::Pending(p), replies) == Progress::<P, P::Output>::Finished(outcome)
    &&& asked.len() == replies.len()
    &&& history(Progress::Pending(p), replies).len() == replies.len()
    &&& forall|i: int|
        0 <= i < replies.len() ==> (#[trigger] history(Progress::Pending(p), replies)[i]).call
            == asked[i]
}

/// A procedure that has come to `progress` asks `call`, to which `reply` is an answer.
spec fn asks<P: Procedure>(
    progress: Progress<P, P::Output>,
    call: Call<Seq<u8>>,
    reply: Reply,
) -> bool {
    progress matches Progress::Pending(q) && q.pending() == call && answers(call, reply)
}

/// The same as `goes` for up to eight replies, stage by stage.
spec fn steps<P: Procedure>(
    p: P,
    asked: Seq<Call<Seq<u8>>>,
    replies: Seq<Reply>,
    outcome: Result<P::Output, TokenError>,
) -> bool {
    let s0 = Progress::<P, P::Output>::Pending(p);
    let s1 = advance(s0, replies[0]);
    let s2 = advance(s1, replies[1]);
    let s3 = advance(s2, replies[2]);
    let s4 = advance(s3, replies[3]);
    let s5 = advance(s4, replies[4]);
    let s6 = advance(s5, replies[5]);
    let s7 = advance(s6, replies[6]);
    let s8 = advance(s7, replies[7]);
    let n = replies.len();
    &&& p.well_formed()
    &&& asked.len() == n
    &&& 0 < n <= 8
    &&& asks(s0, asked[0], replies[0])
    &&& n > 1 ==> asks(s1, asked[1], replies[1])
    &&& n > 2 ==> asks(s2, asked[2], replies[2])
    &&& n > 3 ==> asks(s3, asked[3], replies[3])
    &&& n > 4 ==> asks(s4, asked[4], replies[4])
    &&& n > 5 ==> asks(s5, asked[5], replies[5])
    &&& n > 6 ==> asks(s6, asked[6], replies[6])
    &&& n > 7 ==> asks(s7, asked[7], replies[7])
    &&& n == 1 ==> s1 == Progress::<P, P::Output>::Finished(outcome)
    &&& n == 2 ==> s2 == Progress::<P, P::Output>::Finished(outcome)
    &&& n == 3 ==> s3 == Progress::<P, P::Output>::Finished(outcome)
    &&& n == 4 ==> s4 == Progress::<P, P::Output>::Finished(outcome)
    &&& n == 5 ==> s5 == Progress::<P, P::Output>::Finished(outcome)
    &&& n == 6 ==> s6 == Progress::<P, P::Output>::Finished(outcome)
    &&& n == 7 ==> s7 == Progress::<P, P::Output>::Finished(outcome)
    &&& n == 8 ==> s8 == Progress::<P, P::Output>::Finished(outcome)
}

/// What a procedure asks and ends with can be read off its stages.
proof fn lemma_steps<P: Procedure>(p: P)
    ensures
        forall|
            asked: Seq<Call<Seq<u8>>>,
            replies: Seq<Reply>,
            outcome: Result<P::Output, TokenError>,
        |
            steps(p, asked, replies, outcome) ==> #[trigger] goes(p, asked, replies, outcome),
{
    assert forall|
        asked: Seq<Call<Seq<u8>>>,
        replies: Seq<Reply>,
        outcome: Result<P::Output, TokenError>,
    |
        steps(p, asked, replies, outcome) implies #[trigger] goes(
        p,
        asked,
        replies,
        outcome,
    ) by {
        let start = Progress::<P, P::Output>::Pending(p);
        lemma_first_stages(start, replies);
        assert forall|k: nat| k < replies.len() implies asks(
            #[trigger] stage(start, replies, k),
            asked[k as int],
            replies[k as int],
        ) by {
            assert(k == 0 || k == 1 || k == 2 || k == 3 || k == 4 || k == 5 || k == 6 || k == 7);
        }
        lemma_stages_conform(start, replies);
        lemma_stages(start, replies);
        assert forall|i: int| 0 <= i < replies.len() implies (#[trigger] history(
            start,
            replies,
        )[i]).call == asked[i] by {
            assert(asks(stage(start, replies, i as nat), asked[i], replies[i]));
        }
    }
}

/// The number in the four bytes from `k` on, least significant byte first.
pub open spec fn four_bytes(data: Seq<u8>, k: int) -> int {
    data[k] + 0x100 * data[k + 1] + 0x1_0000 * data[k + 2] + 0x100_0000 * data[k + 3]
}

/// The pointer at the start of `data`, of as many bytes as pointers have.
pub open spec fn first_pointer(data: Seq<u8>) -> int {
    if usize::BITS == 32 {
        four_bytes(data, 0)
    } else {
        four_bytes(data, 0) + 0x1_0000_0000 * four_bytes(data, 4)
    }
}

/// Four bytes, and eight, hold the sum of their digits.
pub proof fn lemma_digits(bytes: Seq<u8>)
    ensures
        bytes.len() == 4 ==> le_value(bytes) == four_bytes(bytes, 0),
        bytes.len() == 8 ==> le_value(bytes) == four_bytes(bytes, 0) + 0x1_0000_0000 * four_bytes(
            bytes,
            4,
        ),
{
    reveal_with_fuel(le_value, 9);
}

/// A label begins with a pointer, and its storage is at least two pointers long.
proof fn lemma_label_address(label: TokenIntegrityLevel)
    requires
        label.data@.len() >= usize::BITS / 4,
    ensures
        label.well_formed(),
        label.sid_address() == first_pointer(label.data@),
        label.sid_address() <= usize::MAX,
{
    let pointer = label.data@.subrange(0, (usize::BITS / 8) as int);
    lemma_digits(pointer);
    lemma_le_value_fits(pointer);
}

/// The error of a call that failed.
pub open spec fn win32<T>(context: Context, code: u32) -> Result<T, TokenError> {
    Err(TokenError::Win32 { context, code })
}

/// Opening the token of the current process is one call. It ends with the handle that came
/// back if the result was one, and with the last error if not. The last error of a call that
/// succeeded does not matter.
pub proof fn law_current_process_outcome(
    p: CurrentProcess,
    res: i32,
    handle: usize,
    last_error: u32,
)
    requires
        call_ensures(Token::with_current_process, (), p),
    ensures
        goes(
            p,
            seq![
                Call::OpenProcessToken {
                    process: Process::Current,
                    access: CURRENT_PROCESS_TOKEN_ACCESS,
                },
            ],
            seq![Reply::Opened { res, handle, last_error }],
            if res == 1 {
                Ok(Token { token: handle })
            } else {
                win32(Context::OpenCurrentProcessToken, last_error)
            },
        ),
{
    lemma_steps(p);
}

/// Opening the token of the shell fails without a window, without a process handle, and where
/// opening or duplicating the token gives anything but one; it ends with the last error of the
/// call that failed. In every other run it ends with the duplicate, whatever last errors the
/// calls that succeeded left. What was opened on the way is closed, the token first.
pub proof fn law_shell_process_outcome(
    p: ShellProcess,
    window: usize,
    pid: u32,
    process: usize,
    process_error: u32,
    res: i32,
    token: usize,
    token_error: u32,
    copied: i32,
    copy: usize,
    copy_error: u32,
)
    requires
        call_ensures(Token::with_shell_process, (), p),
    ensures
        window == NULL ==> goes(
            p,
            seq![Call::GetShellWindow],
            seq![Reply::Window { window }],
            Err(TokenError::NoShellWindow),
        ),
        window != NULL && process == INVALID_HANDLE_VALUE ==> goes(
            p,
            seq![
                Call::GetShellWindow,
                Call::GetWindowThreadProcessId { window },
                Call::OpenProcess { access: PROCESS_QUERY_INFORMATION, inherit: false, pid },
            ],
            seq![
                Reply::Window { window },
                Reply::ProcessId { pid },
                Reply::Process { handle: process, last_error: process_error },
            ],
            win32(Context::OpenShellProcess, process_error),
        ),
        window != NULL && process != INVALID_HANDLE_VALUE && res != 1 ==> goes(
            p,
            seq![
                Call::GetShellWindow,
                Call::GetWindowThreadProcessId { window },
                Call::OpenProcess { access: PROCESS_QUERY_INFORMATION, inherit: false, pid },
                Call::OpenProcessToken {
                    process: Process::Handle(process),
                    access: TOKEN_DUPLICATE,
                },
                Call::CloseHandle { handle: process },
            ],
            seq![
                Reply::Window { window },
                Reply::ProcessId { pid },
                Reply::Process { handle: process, last_error: process_error },
                Reply::Opened { res, handle: token, last_error: token_error },
                Reply::Closed,
            ],
            win32(Context::OpenShellProcessToken, token_error),
        ),
        window != NULL && process != INVALID_HANDLE_VALUE && res == 1 ==> goes(
            p,
            seq![
                Call::GetShellWindow,
                Call::GetWindowThreadProcessId { window },
                Call::OpenProcess { access: PROCESS_QUERY_INFORMATION, inherit: false, pid },
                Call::OpenProcessToken {
                    process: Process::Handle(process),
                    access: TOKEN_DUPLICATE,
                },
                Call::DuplicateTokenEx {
                    token,
                    access: DUPLICATE_TOKEN_ACCESS,
                    impersonation: SECURITY_IMPERSONATION,
                    kind: TOKEN_PRIMARY,
                },
                Call::CloseHandle { handle: token },
                Call::CloseHandle { handle: process },
            ],
            seq![
                Reply::Window { window },
                Reply::ProcessId { pid },
                Reply::Process { handle: process, last_error: process_error },
                Reply::Opened { res, handle: token, last_error: token_error },
                Reply::Opened { res: copied, handle: copy, last_error: copy_error },
                Reply::Closed,
                Reply::Closed,
            ],
            if copied == 1 {
                Ok(Token { token: copy })
            } else {
                win32(Context::DuplicateToken, copy_error)
            },
        ),
{
    lemma_steps(p);
}

/// Duplicating a token is one call, on that token and for the kind that was asked for. It ends
/// with the new handle if the result was one, and with the last error if not.
pub proof fn law_duplicate_outcome(
    token: Token,
    kind: u32,
    p: Duplicate,
    res: i32,
    handle: usize,
    last_error: u32,
)
    requires
        call_ensures(Token::duplicate, (&token, kind), p),
    ensures
        goes(
            p,
            seq![
                Call::DuplicateTokenEx {
                    token: token.token,
                    access: DUPLICATE_TOKEN_ACCESS,
                    impersonation: SECURITY_IMPERSONATION,
                    kind,
                },
            ],
            seq![Reply::Opened { res, handle, last_error }],
            if res == 1 {
                Ok(Token { token: handle })
            } else {
                win32(Context::DuplicateToken, last_error)
            },
        ),
{
    lemma_steps(p);
}

/// Duplicating a token as a primary token is one call, on that token. It ends with the new
/// handle if the result was one, and with the last error if not.
pub proof fn law_duplicate_as_primary_token_outcome(
    token: Token,
    p: Duplicate,
    res: i32,
    handle: usize,
    last_error: u32,
)
    requires
        call_ensures(Token::duplicate_as_primary_token, (&token,), p),
    ensures
        goes(
            p,
            seq![
                Call::DuplicateTokenEx {
                    token: token.token,
                    access: DUPLICATE_TOKEN_ACCESS,
                    impersonation: SECURITY_IMPERSONATION,
                    kind: TOKEN_PRIMARY,
                },
            ],
            seq![Reply::Opened { res, handle, last_error }],
            if res == 1 {
                Ok(Token { token: handle })
            } else {
                win32(Context::DuplicateToken, last_error)
            },
        ),
{
    lemma_steps(p);
}

/// Duplicating a token as an impersonation token is one call, on that token. It ends with the
/// new handle if the result was one, and with the last error if not.
pub proof fn law_duplicate_as_impersonation_token_outcome(
    token: Token,
    p: Duplicate,
    res: i32,
    handle: usize,
    last_error: u32,
)
    requires
        call_ensures(Token::duplicate_as_impersonation_token, (&token,), p),
    ensures
        goes(
            p,
            seq![
                Call::DuplicateTokenEx {
                    token: token.token,
                    access: DUPLICATE_TOKEN_ACCESS,
                    impersonation: SECURITY_IMPERSONATION,
                    kind: TOKEN_IMPERSONATION,
                },
            ],
            seq![Reply::Opened { res, handle, last_error }],
            if res == 1 {
                Ok(Token { token: handle })
            } else {
                win32(Context::DuplicateToken, last_error)
            },
        ),
{
    lemma_steps(p);
}

/// Taking on a token is one call, on exactly that token. It ends well if and only if the
/// result was one, and else with the last error.
pub proof fn law_impersonate_outcome(
    token: Token,
    p: Impersonate,
    res: i32,
    last_error: u32,
)
    requires
        call_ensures(Token::impersonate, (&token,), p),
    ensures
        goes(
            p,
            seq![Call::ImpersonateLoggedOnUser { token: token.token }],
            seq![Reply::Status { res, last_error }],
            if res == 1 {
                Ok(())
            } else {
                win32(Context::Impersonate, last_error)
            },
        ),
{
    lemma_steps(p);
}

/// Asking for the elevation type is one call, for four bytes. It ends with the number in them
/// if the result was one, and with the last error if not.
pub proof fn law_elevation_type_outcome(
    token: Token,
    p: ElevationQuery,
    res: i32,
    data: Vec<u8>,
    last_error: u32,
)
    requires
        call_ensures(Token::elevation_type, (&token,), p),
        data@.len() == 4,
    ensures
        goes(
            p,
            seq![
                Call::GetTokenInformation {
                    token: token.token,
                    class: TOKEN_ELEVATION_TYPE,
                    buffer: seq![0u8, 0u8, 0u8, 0u8],
                },
            ],
            seq![Reply::Information { res, data, last_error }],
            if res == 1 {
                Ok(four_bytes(data@, 0) as u32)
            } else {
                win32(Context::ElevationType, last_error)
            },
        ),
{
    lemma_digits(data@);
    lemma_steps(p);
}

/// Asking for the label of a token is a call for its size and one for the label. The first has
/// to leave the error of a buffer that is too small. The second fails if and only if its
/// result is zero, whatever last error it leaves; any other result ends with the bytes that
/// came back.
pub proof fn law_integrity_level_outcome(
    token: Token,
    p: IntegrityQuery,
    size: u32,
    size_error: u32,
    res: i32,
    data: Vec<u8>,
    last_error: u32,
)
    requires
        call_ensures(Token::integrity_level, (&token,), p),
        data@.len() == size,
        res != 0 ==> size >= usize::BITS / 4,
    ensures
        size_error != ERROR_INSUFFICIENT_BUFFER ==> goes(
            p,
            seq![
                Call::GetTokenInformationSize {
                    token: token.token,
                    class: TOKEN_INTEGRITY_LEVEL,
                },
            ],
            seq![Reply::Size { size, last_error: size_error }],
            win32(Context::IntegrityLevelSize, size_error),
        ),
        size_error == ERROR_INSUFFICIENT_BUFFER ==> goes(
            p,
            seq![
                Call::GetTokenInformationSize {
                    token: token.token,
                    class: TOKEN_INTEGRITY_LEVEL,
                },
                Call::GetTokenInformation {
                    token: token.token,
                    class: TOKEN_INTEGRITY_LEVEL,
                    buffer: Seq::new(size as nat, |i: int| 0u8),
                },
            ],
            seq![
                Reply::Size { size, last_error: size_error },
                Reply::Information { res, data, last_error },
            ],
            if res != 0 {
                Ok(TokenIntegrityLevel { data })
            } else {
                win32(Context::IntegrityLevel, last_error)
            },
        ),
{
    lemma_steps(p);
}

/// A label is high if and only if the system says so of the SID at the address that the label
/// begins with.
pub proof fn law_is_high_outcome(
    label: TokenIntegrityLevel,
    p: HighCheck,
    matches: bool,
)
    requires
        call_ensures(TokenIntegrityLevel::is_high, (label,), p),
        label.data@.len() >= usize::BITS / 4,
    ensures
        goes(
            p,
            seq![
                Call::IsWellKnownSid {
                    address: first_pointer(label.data@) as usize,
                    kind: WIN_HIGH_LABEL_SID,
                },
            ],
            seq![Reply::Match { matches }],
            Ok(matches),
        ),
{
    lemma_label_address(label);
    lemma_steps(p);
}

/// Asking for membership in a group is one call, on exactly that token and that group. It ends
/// with whether the answer was one if the result was one, and with the last error if not.
pub proof fn law_check_membership_outcome(
    token: Token,
    group: Vec<u8>,
    p: MembershipCheck,
    res: i32,
    is_member: i32,
    last_error: u32,
)
    requires
        call_ensures(Token::check_membership, (&token, group), p),
    ensures
        goes(
            p,
            seq![Call::CheckTokenMembership { token: token.token, sid: group@ }],
            seq![Reply::Membership { res, is_member, last_error }],
            if res == 1 {
                Ok(is_member == 1)
            } else {
                win32(Context::CheckTokenMembership, last_error)
            },
        ),
{
    lemma_steps(p);
}

/// Asking for membership in the administrators group makes the SID of the group and asks with
/// it. An error in making it is handed on.
pub proof fn law_administrators_membership_outcome(
    token: Token,
    p: AdministratorsCheck,
    code: u32,
    group: Vec<u8>,
    res: i32,
    is_member: i32,
    last_error: u32,
)
    requires
        call_ensures(Token::check_administrators_membership, (&token,), p),
    ensures
        goes(
            p,
            seq![Call::CreateWellKnownSid { kind: WIN_BUILTIN_ADMINISTRATORS_SID }],
            seq![Reply::Sid { sid: Err(code) }],
            Err(TokenError::WellKnownSid { code }),
        ),
        goes(
            p,
            seq![
                Call::CreateWellKnownSid { kind: WIN_BUILTIN_ADMINISTRATORS_SID },
                Call::CheckTokenMembership { token: token.token, sid: group@ },
            ],
            seq![
                Reply::Sid { sid: Ok(group) },
                Reply::Membership { res, is_member, last_error },
            ],
            if res == 1 {
                Ok(is_member == 1)
            } else {
                win32(Context::CheckTokenMembership, last_error)
            },
        ),
{
    lemma_steps(p);
}

/// Setting the label of medium integrity makes its SID, measures it and sets it, on exactly
/// that token. It ends well if and only if the SID was made and the result of setting was one,
/// whatever last error that call left. The length that is handed over is that of two pointers
/// and the SID.
pub proof fn law_set_medium_integrity_outcome(
    token: Token,
    p: SetMediumIntegrity,
    code: u32,
    sid: Vec<u8>,
    length: u32,
    res: i32,
    last_error: u32,
)
    requires
        call_ensures(Token::set_medium_integrity, (&token,), p),
        usize::BITS / 4 + length <= u32::MAX,
    ensures
        goes(
            p,
            seq![Call::CreateWellKnownSid { kind: WIN_MEDIUM_LABEL_SID }],
            seq![Reply::Sid { sid: Err(code) }],
            Err(TokenError::WellKnownSid { code }),
        ),
        goes(
            p,
            seq![
                Call::CreateWellKnownSid { kind: WIN_MEDIUM_LABEL_SID },
                Call::GetLengthSid { sid: sid@ },
                Call::SetTokenInformation {
                    token: token.token,
                    class: TOKEN_INTEGRITY_LEVEL,
                    attributes: SE_GROUP_INTEGRITY,
                    sid: sid@,
                    length: (usize::BITS / 4 + length) as u32,
                },
            ],
            seq![
                Reply::Sid { sid: Ok(sid) },
                Reply::Length { length },
                Reply::Status { res, last_error },
            ],
            if res == 1 {
                Ok(())
            } else {
                win32(Context::SetMediumIntegrity, last_error)
            },
        ),
{
    lemma_steps(p);
}

/// Building a safer token fails where creating the level, computing the token or setting the
/// label gives anything but one, and where the SID of the label cannot be made; it ends with
/// the error of the call that failed. In every other run it ends with the token that was
/// computed, whatever last errors the calls that succeeded left. The level is closed, and the
/// token as well where its label could not be set.
pub proof fn law_safer_token_outcome(
    token: Token,
    p: SaferToken,
    created: i32,
    level: usize,
    level_error: u32,
    computed: i32,
    handle: usize,
    token_error: u32,
    code: u32,
    sid: Vec<u8>,
    length: u32,
    res: i32,
    last_error: u32,
)
    requires
        call_ensures(Token::as_medium_integrity_safer_token, (&token,), p),
        usize::BITS / 4 + length <= u32::MAX,
    ensures
        created != 1 ==> goes(
            p,
            seq![
                Call::SaferCreateLevel {
                    scope: SAFER_SCOPEID_USER,
                    level_id: SAFER_LEVELID_NORMALUSER,
                    flags: SAFER_LEVEL_OPEN,
                },
            ],
            seq![
                Reply::Opened { res: created, handle: level, last_error: level_error },
            ],
            win32(Context::SaferCreateLevel, level_error),
        ),
        created == 1 && computed != 1 ==> goes(
            p,
            seq![
                Call::SaferCreateLevel {
                    scope: SAFER_SCOPEID_USER,
                    level_id: SAFER_LEVELID_NORMALUSER,
                    flags: SAFER_LEVEL_OPEN,
                },
                Call::SaferComputeTokenFromLevel { level, token: token.token, flags: 0 },
                Call::SaferCloseLevel { level },
            ],
            seq![
                Reply::Opened { res: created, handle: level, last_error: level_error },
                Reply::Opened { res: computed, handle, last_error: token_error },
                Reply::Closed,
            ],
            win32(Context::SaferComputeTokenFromLevel, token_error),
        ),
        created == 1 && computed == 1 ==> goes(
            p,
            seq![
                Call::SaferCreateLevel {
                    scope: SAFER_SCOPEID_USER,
                    level_id: SAFER_LEVELID_NORMALUSER,
                    flags: SAFER_LEVEL_OPEN,
                },
                Call::SaferComputeTokenFromLevel { level, token: token.token, flags: 0 },
                Call::CreateWellKnownSid { kind: WIN_MEDIUM_LABEL_SID },
                Call::CloseHandle { handle },
                Call::SaferCloseLevel { level },
            ],
            seq![
                Reply::Opened { res: created, handle: level, last_error: level_error },
                Reply::Opened { res: computed, handle, last_error: token_error },
                Reply::Sid { sid: Err(code) },
                Reply::Closed,
                Reply::Closed,
            ],
            Err(TokenError::WellKnownSid { code }),
        ),
        created == 1 && computed == 1 && res != 1 ==> goes(
            p,
            seq![
                Call::SaferCreateLevel {
                    scope: SAFER_SCOPEID_USER,
                    level_id: SAFER_LEVELID_NORMALUSER,
                    flags: SAFER_LEVEL_OPEN,
                },
                Call::SaferComputeTokenFromLevel { level, token: token.token, flags: 0 },
                Call::CreateWellKnownSid { kind: WIN_MEDIUM_LABEL_SID },
                Call::GetLengthSid { sid: sid@ },
                Call::SetTokenInformation {
                    token: handle,
                    class: TOKEN_INTEGRITY_LEVEL,
                    attributes: SE_GROUP_INTEGRITY,
                    sid: sid@,
                    length: (usize::BITS / 4 + length) as u32,
                },
                Call::CloseHandle { handle },
                Call::SaferCloseLevel { level },
            ],
            seq![
                Reply::Opened { res: created, handle: level, last_error: level_error },
                Reply::Opened { res: computed, handle, last_error: token_error },
                Reply::Sid { sid: Ok(sid) },
                Reply::Length { length },
                Reply::Status { res, last_error },
                Reply::Closed,
                Reply::Closed,
            ],
            win32(Context::SetMediumIntegrity, last_error),
        ),
        created == 1 && computed == 1 && res == 1 ==> goes(
            p,
            seq![
                Call::SaferCreateLevel {
                    scope: SAFER_SCOPEID_USER,
                    level_id: SAFER_LEVELID_NORMALUSER,
                    flags: SAFER_LEVEL_OPEN,
                },
                Call::SaferComputeTokenFromLevel { level, token: token.token, flags: 0 },
                Call::CreateWellKnownSid { kind: WIN_MEDIUM_LABEL_SID },
                Call::GetLengthSid { sid: sid@ },
                Call::SetTokenInformation {
                    token: handle,
                    class: TOKEN_INTEGRITY_LEVEL,
                    attributes: SE_GROUP_INTEGRITY,
                    sid: sid@,
                    length: (usize::BITS / 4 + length) as u32,
                },
                Call::SaferCloseLevel { level },
            ],
            seq![
                Reply::Opened { res: created, handle: level, last_error: level_error },
                Reply::Opened { res: computed, handle, last_error: token_error },
                Reply::Sid { sid: Ok(sid) },
                Reply::Length { length },
                Reply::Status { res, last_error },
                Reply::Closed,
            ],
            Ok(Token { token: handle }),
        ),
{
    lemma_steps(p);
}

/// The privilege level starts from the elevation type. Where asking for it gives anything but
/// one, that call's last error is the end of it; full elevation is the level elevated, and no
/// more is asked.
pub proof fn law_privilege_level_of_elevation(
    token: Token,
    p: PrivilegeQuery,
    elevation_res: i32,
    elevation: Vec<u8>,
    elevation_error: u32,
)
    requires
        call_ensures(Token::privilege_level, (&token,), p),
        elevation@.len() == 4,
    ensures
        elevation_res != 1 ==> goes(
            p,
            seq![
                Call::GetTokenInformation {
                    token: token.token,
                    class: TOKEN_ELEVATION_TYPE,
                    buffer: seq![0u8, 0u8, 0u8, 0u8],
                },
            ],
            seq![
                Reply::Information {
                    res: elevation_res,
                    data: elevation,
                    last_error: elevation_error,
                },
            ],
            win32(Context::ElevationType, elevation_error),
        ),
        elevation_res == 1 && four_bytes(elevation@, 0) == TOKEN_ELEVATION_TYPE_FULL ==> goes(
            p,
            seq![
                Call::GetTokenInformation {
                    token: token.token,
                    class: TOKEN_ELEVATION_TYPE,
                    buffer: seq![0u8, 0u8, 0u8, 0u8],
                },
            ],
            seq![
                Reply::Information {
                    res: elevation_res,
                    data: elevation,
                    last_error: elevation_error,
                },
            ],
            Ok(PrivilegeLevel::Elevated),
        ),
{
    lemma_digits(elevation@);
    lemma_le_value_fits(elevation@);
    lemma_steps(p);
}

/// Without full elevation the label is asked for: first its size, which has to leave the error
/// of a buffer that is too small, then the label, which fails if and only if the result is
/// zero, whatever last error it leaves. A label that is not high is the level not privileged.
pub proof fn law_privilege_level_of_label(
    token: Token,
    p: PrivilegeQuery,
    elevation_res: i32,
    elevation: Vec<u8>,
    elevation_error: u32,
    size: u32,
    size_error: u32,
    label_res: i32,
    label: Vec<u8>,
    label_error: u32,
    high: bool,
)
    requires
        call_ensures(Token::privilege_level, (&token,), p),
        elevation@.len() == 4,
        elevation_res == 1 && four_bytes(elevation@, 0) != TOKEN_ELEVATION_TYPE_FULL,
        label@.len() == size,
        label_res != 0 ==> size >= usize::BITS / 4,
    ensures
        size_error != ERROR_INSUFFICIENT_BUFFER ==> goes(
            p,
            seq![
                Call::GetTokenInformation {
                    token: token.token,
                    class: TOKEN_ELEVATION_TYPE,
                    buffer: seq![0u8, 0u8, 0u8, 0u8],
                },
                Call::GetTokenInformationSize {
                    token: token.token,
                    class: TOKEN_INTEGRITY_LEVEL,
                },
            ],
            seq![
                Reply::Information {
                    res: elevation_res,
                    data: elevation,
                    last_error: elevation_error,
                },
                Reply::Size { size, last_error: size_error },
            ],
            win32(Context::IntegrityLevelSize, size_error),
        ),
        size_error == ERROR_INSUFFICIENT_BUFFER && label_res == 0 ==> goes(
            p,
            seq![
                Call::GetTokenInformation {
                    token: token.token,
                    class: TOKEN_ELEVATION_TYPE,
                    buffer: seq![0u8, 0u8, 0u8, 0u8],
                },
                Call::GetTokenInformationSize {
                    token: token.token,
                    class: TOKEN_INTEGRITY_LEVEL,
                },
                Call::GetTokenInformation {
                    token: token.token,
                    class: TOKEN_INTEGRITY_LEVEL,
                    buffer: Seq::new(size as nat, |i: int| 0u8),
                },
            ],
            seq![
                Reply::Information {
                    res: elevation_res,
                    data: elevation,
                    last_error: elevation_error,
                },
                Reply::Size { size, last_error: size_error },
                Reply::Information { res: label_res, data: label, last_error: label_error },
            ],
            win32(Context::IntegrityLevel, label_error),
        ),
        size_error == ERROR_INSUFFICIENT_BUFFER && label_res != 0 && !high ==> goes(
            p,
            seq![
                Call::GetTokenInformation {
                    token: token.token,
                    class: TOKEN_ELEVATION_TYPE,
                    buffer: seq![0u8, 0u8, 0u8, 0u8],
                },
                Call::GetTokenInformationSize {
                    token: token.token,
                    class: TOKEN_INTEGRITY_LEVEL,
                },
                Call::GetTokenInformation {
                    token: token.token,
                    class: TOKEN_INTEGRITY_LEVEL,
                    buffer: Seq::new(size as nat, |i: int| 0u8),
                },
                Call::IsWellKnownSid {
                    address: first_pointer(label@) as usize,
                    kind: WIN_HIGH_LABEL_SID,
                },
            ],
            seq![
                Reply::Information {
                    res: elevation_res,
                    data: elevation,
                    last_error: elevation_error,
                },
                Reply::Size { size, last_error: size_error },
                Reply::Information { res: label_res, data: label, last_error: label_error },
                Reply::Match { matches: high },
            ],
            Ok(PrivilegeLevel::NotPrivileged),
        ),
{
    lemma_digits(elevation@);
    lemma_le_value_fits(elevation@);
    if label_res != 0 {
        lemma_label_address(TokenIntegrityLevel { data: label });
    }
    lemma_steps(p);
}

/// With a high label and without full elevation, the level hangs on membership in the
/// administrators group, which is asked of an impersonation token that is made for it and
/// closed again. The level is that of a high integrity administrator if and only if the answer
/// is one; a call that fails ends with its error. Last errors of calls that succeeded do not
/// matter.
pub proof fn law_privilege_level_of_member(
    token: Token,
    p: PrivilegeQuery,
    elevation_res: i32,
    elevation: Vec<u8>,
    elevation_error: u32,
    size: u32,
    size_error: u32,
    label_res: i32,
    label: Vec<u8>,
    label_error: u32,
    copied: i32,
    copy: usize,
    copy_error: u32,
    code: u32,
    group: Vec<u8>,
    res: i32,
    is_member: i32,
    last_error: u32,
)
    requires
        call_ensures(Token::privilege_level, (&token,), p),
        elevation@.len() == 4,
        elevation_res == 1 && four_bytes(elevation@, 0) != TOKEN_ELEVATION_TYPE_FULL,
        size_error == ERROR_INSUFFICIENT_BUFFER,
        label_res != 0,
        label@.len() == size,
        size >= usize::BITS / 4,
    ensures
        copied != 1 ==> goes(
            p,
            seq![
                Call::GetTokenInformation {
                    token: token.token,
                    class: TOKEN_ELEVATION_TYPE,
                    buffer: seq![0u8, 0u8, 0u8, 0u8],
                },
                Call::GetTokenInformationSize {
                    token: token.token,
                    class: TOKEN_INTEGRITY_LEVEL,
                },
                Call::GetTokenInformation {
                    token: token.token,
                    class: TOKEN_INTEGRITY_LEVEL,
                    buffer: Seq::new(size as nat, |i: int| 0u8),
                },
                Call::IsWellKnownSid {
                    address: first_pointer(label@) as usize,
                    kind: WIN_HIGH_LABEL_SID,
                },
                Call::DuplicateTokenEx {
                    token: token.token,
                    access: DUPLICATE_TOKEN_ACCESS,
                    impersonation: SECURITY_IMPERSONATION,
                    kind: TOKEN_IMPERSONATION,
                },
            ],
            seq![
                Reply::Information {
                    res: elevation_res,
                    data: elevation,
                    last_error: elevation_error,
                },
                Reply::Size { size, last_error: size_error },
                Reply::Information { res: label_res, data: label, last_error: label_error },
                Reply::Match { matches: true },
                Reply::Opened { res: copied, handle: copy, last_error: copy_error },
            ],
            win32(Context::DuplicateToken, copy_error),
        ),
        copied == 1 ==> goes(
            p,
            seq![
                Call::GetTokenInformation {
                    token: token.token,
                    class: TOKEN_ELEVATION_TYPE,
                    buffer: seq![0u8, 0u8, 0u8, 0u8],
                },
                Call::GetTokenInformationSize {
                    token: token.token,
                    class: TOKEN_INTEGRITY_LEVEL,
                },
                Call::GetTokenInformation {
                    token: token.token,
                    class: TOKEN_INTEGRITY_LEVEL,
                    buffer: Seq::new(size as nat, |i: int| 0u8),
                },
                Call::IsWellKnownSid {
                    address: first_pointer(label@) as usize,
                    kind: WIN_HIGH_LABEL_SID,
                },
                Call::DuplicateTokenEx {
                    token: token.token,
                    access: DUPLICATE_TOKEN_ACCESS,
                    impersonation: SECURITY_IMPERSONATION,
                    kind: TOKEN_IMPERSONATION,
                },
                Call::CreateWellKnownSid { kind: WIN_BUILTIN_ADMINISTRATORS_SID },
                Call::CloseHandle { handle: copy },
            ],
            seq![
                Reply::Information {
                    res: elevation_res,
                    data: elevation,
                    last_error: elevation_error,
                },
                Reply::Size { size, last_error: size_error },
                Reply::Information { res: label_res, data: label, last_error: label_error },
                Reply::Match { matches: true },
                Reply::Opened { res: copied, handle: copy, last_error: copy_error },
                Reply::Sid { sid: Err(code) },
                Reply::Closed,
            ],
            Err(TokenError::WellKnownSid { code }),
        ),
        copied == 1 ==> goes(
            p,
            seq![
                Call::GetTokenInformation {
                    token: token.token,
                    class: TOKEN_ELEVATION_TYPE,
                    buffer: seq![0u8, 0u8, 0u8, 0u8],
                },
                Call::GetTokenInformationSize {
                    token: token.token,
                    class: TOKEN_INTEGRITY_LEVEL,
                },
                Call::GetTokenInformation {
                    token: token.token,
                    class: TOKEN_INTEGRITY_LEVEL,
                    buffer: Seq::new(size as nat, |i: int| 0u8),
                },
                Call::IsWellKnownSid {
                    address: first_pointer(label@) as usize,
                    kind: WIN_HIGH_LABEL_SID,
                },
                Call::DuplicateTokenEx {
                    token: token.token,
                    access: DUPLICATE_TOKEN_ACCESS,
                    impersonation: SECURITY_IMPERSONATION,
                    kind: TOKEN_IMPERSONATION,
                },
                Call::CreateWellKnownSid { kind: WIN_BUILTIN_ADMINISTRATORS_SID },
                Call::CheckTokenMembership { token: copy, sid: group@ },
                Call::CloseHandle { handle: copy },
            ],
            seq![
                Reply::Information {
                    res: elevation_res,
                    data: elevation,
                    last_error: elevation_error,
                },
                Reply::Size { size, last_error: size_error },
                Reply::Information { res: label_res, data: label, last_error: label_error },
                Reply::Match { matches: true },
                Reply::Opened { res: copied, handle: copy, last_error: copy_error },
                Reply::Sid { sid: Ok(group) },
                Reply::Membership { res, is_member, last_error },
                Reply::Closed,
            ],
            if res != 1 {
                win32(Context::CheckTokenMembership, last_error)
            } else if is_member == 1 {
                Ok(PrivilegeLevel::HighIntegrityAdmin)
            } else {
                Ok(PrivilegeLevel::NotPrivileged)
            },
        ),
{
    lemma_digits(elevation@);
    lemma_le_value_fits(elevation@);
    lemma_label_address(TokenIntegrityLevel { data: label });
    lemma_steps(p);
}

} // verus!
