//! What holds of the parts that operations are made of.

use crate::bytes::{le_value, pointer_bytes, read_le};
use crate::call::{accepts, check, failure, Call, Process, Reply};
use crate::error::{Context, ErrorKind, TokenError};
use crate::label::{label_bytes, TokenIntegrityLevel, TokenMandatoryLabel};
use crate::outcomes::{first_pointer, four_bytes, lemma_digits};
use crate::procedure::{acquired, undo, Procedure, Progress, Resource};
use crate::run::{history, lemma_history_parts, run};
use crate::token::Token;
use crate::win32::{
    CURRENT_PROCESS_TOKEN_ACCESS, DUPLICATE_TOKEN_ACCESS, ERROR_INSUFFICIENT_BUFFER,
    INVALID_HANDLE_VALUE, NULL, PROCESS_QUERY_INFORMATION, SAFER_LEVELID_NORMALUSER,
    SAFER_LEVEL_OPEN, SAFER_SCOPEID_USER, SECURITY_IMPERSONATION, SE_GROUP_INTEGRITY,
    TOKEN_ADJUST_DEFAULT, TOKEN_ADJUST_SESSIONID, TOKEN_ASSIGN_PRIMARY, TOKEN_DUPLICATE,
    TOKEN_ELEVATION_TYPE, TOKEN_ELEVATION_TYPE_DEFAULT, TOKEN_ELEVATION_TYPE_FULL,
    TOKEN_ELEVATION_TYPE_LIMITED, TOKEN_IMPERSONATE, TOKEN_IMPERSONATION, TOKEN_INTEGRITY_LEVEL,
    TOKEN_PRIMARY, TOKEN_QUERY, WIN_BUILTIN_ADMINISTRATORS_SID, WIN_HIGH_LABEL_SID,
    WIN_MEDIUM_LABEL_SID,
};
use vstd::arithmetic::div_mod::lemma_div_denominator;
use vstd::arithmetic::power::{lemma_pow0, lemma_pow1, lemma_pow_adds, lemma_pow_positive, pow};
use vstd::multiset::Multiset;
use vstd::prelude::*;

verus! {

/// A procedure makes the calls of its run: the call that it names is the next one there, and
/// resuming it with a reply is what the run does with that reply.
pub proof fn law_procedure_follows_its_run<P: Procedure>(
    p: P,
    call: Call<Vec<u8>>,
    reply: Reply,
    progress: Progress<P, P::Output>,
)
    requires
        call_ensures(P::call, (&p,), call),
        call_ensures(P::resume, (p, reply), progress),
    ensures
        history(Progress::Pending(p), seq![reply])[0].call == call@,
        run(Progress::Pending(p), seq![reply]) == progress,
{
    lemma_history_parts(p, seq![reply]);
    assert(seq![reply].drop_first().len() == 0);
}

/// Speaking of a call keeps every one of its arguments.
pub proof fn law_calls_keep_their_arguments(
    a: usize,
    b: usize,
    m: u32,
    n: u32,
    k: u32,
    flag: bool,
    process: Process,
    bytes: Vec<u8>,
)
    ensures
        (Call::<Vec<u8>>::OpenProcessToken { process, access: m })@ == (Call::<
            Seq<u8>,
        >::OpenProcessToken { process, access: m }),
        Call::<Vec<u8>>::GetShellWindow@ == Call::<Seq<u8>>::GetShellWindow,
        (Call::<Vec<u8>>::GetWindowThreadProcessId { window: a })@ == (Call::<
            Seq<u8>,
        >::GetWindowThreadProcessId { window: a }),
        (Call::<Vec<u8>>::OpenProcess { access: m, inherit: flag, pid: n })@ == (Call::<
            Seq<u8>,
        >::OpenProcess { access: m, inherit: flag, pid: n }),
        (Call::<Vec<u8>>::SaferCreateLevel { scope: m, level_id: n, flags: k })@ == (Call::<
            Seq<u8>,
        >::SaferCreateLevel { scope: m, level_id: n, flags: k }),
        (Call::<Vec<u8>>::SaferComputeTokenFromLevel { level: a, token: b, flags: m })@ == (Call::<
            Seq<u8>,
        >::SaferComputeTokenFromLevel { level: a, token: b, flags: m }),
        (Call::<Vec<u8>>::CreateWellKnownSid { kind: m })@ == (Call::<
            Seq<u8>,
        >::CreateWellKnownSid { kind: m }),
        (Call::GetLengthSid { sid: bytes })@ == (Call::GetLengthSid { sid: bytes@ }),
        (Call::<Vec<u8>>::IsWellKnownSid { address: a, kind: m })@ == (Call::<
            Seq<u8>,
        >::IsWellKnownSid { address: a, kind: m }),
        (Call::SetTokenInformation {
            token: a,
            class: m,
            attributes: n,
            sid: bytes,
            length: k,
        })@ == (Call::SetTokenInformation {
            token: a,
            class: m,
            attributes: n,
            sid: bytes@,
            length: k,
        }),
        (Call::<Vec<u8>>::DuplicateTokenEx {
            token: a,
            access: m,
            impersonation: n,
            kind: k,
        })@ == (Call::<Seq<u8>>::DuplicateTokenEx {
            token: a,
            access: m,
            impersonation: n,
            kind: k,
        }),
        (Call::CheckTokenMembership { token: a, sid: bytes })@ == (Call::CheckTokenMembership {
            token: a,
            sid: bytes@,
        }),
        (Call::<Vec<u8>>::GetTokenInformationSize { token: a, class: m })@ == (Call::<
            Seq<u8>,
        >::GetTokenInformationSize { token: a, class: m }),
        (Call::GetTokenInformation { token: a, class: m, buffer: bytes })@ == (
        Call::GetTokenInformation { token: a, class: m, buffer: bytes@ }),
        (Call::<Vec<u8>>::ImpersonateLoggedOnUser { token: a })@ == (Call::<
            Seq<u8>,
        >::ImpersonateLoggedOnUser { token: a }),
        (Call::<Vec<u8>>::CloseHandle { handle: a })@ == (Call::<Seq<u8>>::CloseHandle {
            handle: a,
        }),
        (Call::<Vec<u8>>::SaferCloseLevel { level: a })@ == (Call::<Seq<u8>>::SaferCloseLevel {
            level: a,
        }),
{
}

/// Which replies are taken hangs on the kind of the call and of the reply alone, but for two:
/// a buffer has to come back with its length, and with a whole label where a label was asked
/// for and got; and the length of a SID has to leave room for a label of two pointers.
pub proof fn law_replies_that_are_taken(call: Call<Vec<u8>>, reply: Reply, accepted: bool)
    requires
        call_ensures(accepts, (&call, &reply), accepted),
    ensures
        call is OpenProcessToken || call is SaferCreateLevel || call is SaferComputeTokenFromLevel
            || call is DuplicateTokenEx ==> accepted == reply is Opened,
        call is GetShellWindow ==> accepted == reply is Window,
        call is GetWindowThreadProcessId ==> accepted == reply is ProcessId,
        call is OpenProcess ==> accepted == reply is Process,
        call is CreateWellKnownSid ==> accepted == reply is Sid,
        call is IsWellKnownSid ==> accepted == reply is Match,
        call is SetTokenInformation || call is ImpersonateLoggedOnUser ==> accepted
            == reply is Status,
        call is CheckTokenMembership ==> accepted == reply is Membership,
        call is GetTokenInformationSize ==> accepted == reply is Size,
        call is CloseHandle || call is SaferCloseLevel ==> accepted == reply is Closed,
        call is GetLengthSid && !(reply is Length) ==> !accepted,
        call is GetLengthSid ==> (reply matches Reply::Length { length } ==> (accepted
            <==> usize::BITS / 4 + length <= u32::MAX)),
        call is GetTokenInformation && !(reply is Information) ==> !accepted,
        call matches Call::GetTokenInformation { class, buffer, .. } ==> (
        reply matches Reply::Information { res, data, .. } ==> (accepted <==> data@.len()
            == buffer@.len() && (class == TOKEN_INTEGRITY_LEVEL && res != 0 ==> data@.len()
            >= usize::BITS / 4))),
{
}

/// A call that opens something fails if and only if its result is not one, whatever last
/// error it leaves, and puts its handle in the caller's hands if and only if it is one.
pub proof fn law_opened_if_the_result_is_one(
    call: Call<Seq<u8>>,
    res: i32,
    handle: usize,
    last_error: u32,
)
    requires
        call is OpenProcessToken || call is SaferCreateLevel || call is SaferComputeTokenFromLevel
            || call is DuplicateTokenEx,
    ensures
        failure(call, Reply::Opened { res, handle, last_error }) is None <==> res == 1,
        acquired(call, Reply::Opened { res, handle, last_error }) == if res != 1 {
            Multiset::empty()
        } else if call is SaferCreateLevel {
            Multiset::singleton(Resource::Level(handle))
        } else {
            Multiset::singleton(Resource::Handle(handle))
        },
{
}

/// Opening a process fails if and only if what came back is no handle, and puts the handle in
/// the caller's hands if and only if it is one.
pub proof fn law_process_opened_if_there_is_a_handle(
    access: u32,
    inherit: bool,
    pid: u32,
    handle: usize,
    last_error: u32,
)
    ensures
        failure(
            Call::OpenProcess { access, inherit, pid },
            Reply::Process { handle, last_error },
        ) is None <==> handle != usize::MAX,
        acquired(
            Call::OpenProcess { access, inherit, pid },
            Reply::Process { handle, last_error },
        ) == if handle != usize::MAX {
            Multiset::singleton(Resource::Handle(handle))
        } else {
            Multiset::empty()
        },
{
}

/// The call that undoes another closes exactly what that one opened. There is one for each
/// call that opened something, whatever last error it left, and none for any other.
pub proof fn law_undo_closes_what_was_opened(
    call: Call<Vec<u8>>,
    reply: Reply,
    undone: Option<Call<Vec<u8>>>,
)
    requires
        call_ensures(undo, (&call, &reply), undone),
    ensures
        call is OpenProcessToken || call is SaferComputeTokenFromLevel || call is DuplicateTokenEx
            ==> (reply matches Reply::Opened { res, handle, .. } ==> match undone {
            Some(release) => res == 1 && release == (Call::<Vec<u8>>::CloseHandle { handle }),
            None => res != 1,
        }),
        call is SaferCreateLevel ==> (reply matches Reply::Opened { res, handle, .. }
            ==> match undone {
            Some(release) => res == 1 && release == (Call::<Vec<u8>>::SaferCloseLevel {
                level: handle,
            }),
            None => res != 1,
        }),
        call is OpenProcess ==> (reply matches Reply::Process { handle, .. } ==> match undone {
            Some(release) => handle != usize::MAX && release == (Call::<Vec<u8>>::CloseHandle {
                handle,
            }),
            None => handle == usize::MAX,
        }),
        !(reply is Opened) && !(reply is Process) ==> undone is None,
        !(call is OpenProcessToken) && !(call is SaferComputeTokenFromLevel) && !(
        call is DuplicateTokenEx) && !(call is SaferCreateLevel) && !(call is OpenProcess)
            ==> undone is None,
{
    let opened = acquired(call@, reply);
    if let Some(release) = undone {
        let closed = match release@ {
            Call::CloseHandle { handle } => Resource::Handle(handle),
            Call::SaferCloseLevel { level } => Resource::Level(level),
            _ => Resource::Handle(0),
        };
        assert(Multiset::singleton(closed).count(closed) == 1);
        assert(opened.count(closed) == 1);
    } else {
        match reply {
            Reply::Opened { handle, .. } => {
                assert(opened.count(Resource::Handle(handle)) == 0);
                assert(opened.count(Resource::Level(handle)) == 0);
            },
            Reply::Process { handle, .. } => {
                assert(opened.count(Resource::Handle(handle)) == 0);
            },
            _ => {},
        }
    }
}

/// A result passes if and only if it is one, and any other becomes an error with the last
/// error in it.
pub proof fn law_only_one_passes(
    context: Context,
    res: i32,
    last_error: u32,
    checked: Result<(), TokenError>,
)
    requires
        call_ensures(check, (context, res, last_error), checked),
    ensures
        checked is Ok <==> res == 1,
        checked matches Err(error) ==> error == (TokenError::Win32 { context, code: last_error }),
{
}

/// Closing a token closes exactly its handle.
pub proof fn law_close_closes_the_handle(token: Token, call: Call<Vec<u8>>)
    requires
        call_ensures(Token::close, (token,), call),
    ensures
        call == (Call::<Vec<u8>>::CloseHandle { handle: token.token }),
{
}

/// The kind of an error keeps the code of the system, whatever it is.
pub proof fn law_kind_keeps_the_code(context: Context, code: u32, kind: ErrorKind)
    ensures
        call_ensures(TokenError::kind, (&TokenError::Win32 { context, code },), kind) ==> kind
            == ErrorKind::System(code),
        call_ensures(TokenError::kind, (&TokenError::WellKnownSid { code },), kind) ==> kind
            == ErrorKind::System(code),
        call_ensures(TokenError::kind, (&TokenError::NoShellWindow,), kind) ==> kind
            == ErrorKind::NotFound,
{
}

/// The words of an error are those of the call that failed, whatever code it left. An error
/// in making a SID has no words of its own.
pub proof fn law_words_are_those_of_the_call(
    context: Context,
    code: u32,
    words: &'static str,
    text: Option<&'static str>,
)
    requires
        call_ensures(Context::text, (context,), words),
    ensures
        call_ensures(TokenError::text, (&TokenError::Win32 { context, code },), text)
            ==> text is Some && text->0@ == words@,
        call_ensures(TokenError::text, (&TokenError::WellKnownSid { code },), text)
            ==> text is None,
{
}

/// Each byte is a digit of the number that the bytes hold: dividing by the power of 256 in
/// its place leaves it as the remainder.
pub proof fn law_bytes_are_digits(bytes: Seq<u8>, i: nat)
    requires
        i < bytes.len(),
    ensures
        (le_value(bytes) as int / pow(256, i)) % 256 == bytes[i as int],
    decreases i,
{
    let rest = bytes.drop_first();
    let value = le_value(bytes) as int;
    assert(value == bytes[0] + 256 * le_value(rest));
    if i == 0 {
        lemma_pow0(256);
    } else {
        let below = (i - 1) as nat;
        law_bytes_are_digits(rest, below);
        lemma_pow1(256);
        lemma_pow_adds(256, 1, below);
        lemma_pow_positive(256, below);
        lemma_div_denominator(value, 256, pow(256, below));
        assert(value / 256 == le_value(rest) as int);
        assert(rest[below as int] == bytes[i as int]);
    }
}

/// A number can be read wherever its bytes are, up to eight of them. It is below the power of
/// 256 in the place behind its last byte, and each of its bytes is a digit of it.
pub proof fn law_read_number(data: Vec<u8>, offset: usize, width: usize, value: u64, i: nat)
    requires
        width <= 8,
        offset + width <= data@.len(),
        call_ensures(read_le, (&data, offset, width), value),
    ensures
        call_requires(read_le, (&data, offset, width)),
        value < pow(256, width as nat),
        i < width ==> (value as int / pow(256, i)) % 256 == data@[offset + i],
{
    let bytes = data@.subrange(offset as int, offset + width);
    crate::bytes::lemma_le_value_bound(bytes);
    if i < width {
        law_bytes_are_digits(bytes, i);
    }
}

/// A pointer has as many bytes as its bits fill, and a label takes two pointers.
pub proof fn law_widths(pointer: usize, label: usize)
    requires
        call_ensures(pointer_bytes, (), pointer),
        call_ensures(label_bytes, (), label),
    ensures
        8 * pointer == usize::BITS,
        label == 2 * pointer,
{
}

/// A label can be read from any storage of at least two pointers. Its SID is at the address
/// in the first pointer, and its attributes are the four bytes behind that.
pub proof fn law_label_layout(
    storage: TokenIntegrityLevel,
    label: TokenMandatoryLabel,
    sid: usize,
)
    requires
        storage.data@.len() >= usize::BITS / 4,
        call_ensures(TokenIntegrityLevel::as_label, (&storage,), label),
        call_ensures(TokenIntegrityLevel::sid, (&storage,), sid),
    ensures
        call_requires(TokenIntegrityLevel::as_label, (&storage,)),
        call_requires(TokenIntegrityLevel::sid, (&storage,)),
        call_requires(TokenIntegrityLevel::is_high, (storage,)),
        label.sid == first_pointer(storage.data@),
        sid == first_pointer(storage.data@),
        label.attributes == four_bytes(storage.data@, (usize::BITS / 8) as int),
{
    let width: int = (usize::BITS / 8) as int;
    lemma_digits(storage.data@.subrange(0, width));
    lemma_digits(storage.data@.subrange(width, width + 4));
}

/// The numbers of the Win32 interface, which are part of it.
pub proof fn law_win32_numbers()
    ensures
        INVALID_HANDLE_VALUE == usize::MAX,
        NULL == 0,
        ERROR_INSUFFICIENT_BUFFER == 122,
        TOKEN_ASSIGN_PRIMARY == 1,
        TOKEN_DUPLICATE == 2,
        TOKEN_IMPERSONATE == 4,
        TOKEN_QUERY == 8,
        TOKEN_ADJUST_DEFAULT == 0x80,
        TOKEN_ADJUST_SESSIONID == 0x100,
        PROCESS_QUERY_INFORMATION == 0x400,
        CURRENT_PROCESS_TOKEN_ACCESS == 0xe,
        DUPLICATE_TOKEN_ACCESS == 0x18f,
        SECURITY_IMPERSONATION == 2,
        TOKEN_PRIMARY == 1,
        TOKEN_IMPERSONATION == 2,
        TOKEN_ELEVATION_TYPE == 18,
        TOKEN_INTEGRITY_LEVEL == 25,
        TOKEN_ELEVATION_TYPE_DEFAULT == 1,
        TOKEN_ELEVATION_TYPE_FULL == 2,
        TOKEN_ELEVATION_TYPE_LIMITED == 3,
        SE_GROUP_INTEGRITY == 0x20,
        WIN_BUILTIN_ADMINISTRATORS_SID == 26,
        WIN_MEDIUM_LABEL_SID == 67,
        WIN_HIGH_LABEL_SID == 68,
        SAFER_SCOPEID_USER == 2,
        SAFER_LEVELID_NORMALUSER == 0x20000,
        SAFER_LEVEL_OPEN == 1,
{
    assert(0x8u32 | 0x2u32 | 0x4u32 == 0xeu32) by (bit_vector);
    assert(0x100u32 | 0x80u32 | 0x1u32 | 0x4u32 | 0x2u32 | 0x8u32 == 0x18fu32) by (bit_vector);
}

} // verus!
