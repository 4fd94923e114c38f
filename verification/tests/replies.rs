use access_token::bytes::{pointer_bytes, read_le};
use access_token::call::{accepts, check, Call, Process, Reply};
use access_token::elevation::ElevationQuery;
use access_token::error::{Context, ErrorKind, TokenError};
use access_token::label::{label_bytes, TokenIntegrityLevel};
use access_token::procedure::{undo, Procedure, Progress};
use access_token::token::{PrivilegeLevel, Token};

fn opened(handle: usize) -> Reply {
    Reply::Opened { res: 1, handle, last_error: 0 }
}

fn refused(code: u32) -> Reply {
    Reply::Opened { res: 0, handle: usize::MAX, last_error: code }
}

fn pending<P: Procedure, T>(progress: Progress<P, T>) -> P {
    match progress {
        Progress::Pending(procedure) => procedure,
        Progress::Finished(_) => panic!("finished too early"),
    }
}

fn ended<P: Procedure>(progress: Progress<P, P::Output>) -> Result<P::Output, TokenError> {
    match progress {
        Progress::Pending(_) => panic!("not finished"),
        Progress::Finished(outcome) => outcome,
    }
}

/// Checks that `procedure` asks for `call`, and hands it `reply`.
fn exchange<P: Procedure>(
    procedure: P,
    call: Call<Vec<u8>>,
    reply: Reply,
) -> Progress<P, P::Output> {
    assert_eq!(procedure.call(), call);
    assert!(accepts(&call, &reply));
    procedure.resume(reply)
}

fn win32<T>(context: Context, code: u32) -> Result<T, TokenError> {
    Err(TokenError::Win32 { context, code })
}

/// A label whose pointer is `address`, in storage of `size` bytes.
fn label_data(address: usize, attributes: u32, size: usize) -> Vec<u8> {
    let mut data = vec![0u8; size];
    let width = pointer_bytes();
    data[..width].copy_from_slice(&address.to_le_bytes());
    data[width..width + 4].copy_from_slice(&attributes.to_le_bytes());
    data
}

fn elevation_call(token: usize) -> Call<Vec<u8>> {
    Call::GetTokenInformation { token, class: 18, buffer: vec![0, 0, 0, 0] }
}

fn elevation(kind: u8) -> Reply {
    Reply::Information { res: 1, data: vec![kind, 0, 0, 0], last_error: 0 }
}

#[test]
fn numbers_are_read_least_significant_byte_first() {
    let data = vec![0x11, 0x22, 0x33, 0x44, 0x55, 0x66, 0x77, 0x88, 0x99];
    assert_eq!(read_le(&data, 0, 0), 0);
    assert_eq!(read_le(&data, 0, 4), 0x4433_2211);
    assert_eq!(read_le(&data, 1, 8), 0x9988_7766_5544_3322);
    assert_eq!(read_le(&vec![0xff; 8], 0, 8), u64::MAX);
    assert_eq!(pointer_bytes(), std::mem::size_of::<usize>());
}

#[test]
fn a_label_is_a_pointer_and_attributes() {
    assert_eq!(label_bytes(), 2 * std::mem::size_of::<usize>());
    let level = TokenIntegrityLevel { data: label_data(0x1234_5678, 0x20, label_bytes() + 12) };
    assert_eq!(level.as_label().sid, 0x1234_5678);
    assert_eq!(level.as_label().attributes, 0x20);
    assert_eq!(level.sid(), 0x1234_5678);
    let check = level.is_high();
    assert_eq!(check.call(), Call::IsWellKnownSid { address: 0x1234_5678, kind: 68 });
    assert_eq!(ended(check.resume(Reply::Match { matches: true })), Ok(true));
}

#[test]
fn only_one_is_true() {
    assert_eq!(check(Context::DuplicateToken, 1, 5), Ok(()));
    assert_eq!(check(Context::DuplicateToken, 0, 5), win32(Context::DuplicateToken, 5));
    assert_eq!(check(Context::DuplicateToken, 2, 5), win32(Context::DuplicateToken, 5));
    assert_eq!(check(Context::DuplicateToken, -1, 5), win32(Context::DuplicateToken, 5));
}

#[test]
fn contexts_have_words() {
    let words = [
        (Context::OpenCurrentProcessToken, "OpenProcessToken(GetCurrentProcess))"),
        (Context::OpenShellProcess, "OpenProcess(shell_pid)"),
        (Context::OpenShellProcessToken, "OpenProcessToken(shell process)"),
        (Context::SaferCreateLevel, "SaferCreateLevel"),
        (Context::SaferComputeTokenFromLevel, "SaferComputeTokenFromLevel"),
        (Context::SetMediumIntegrity, "SetTokenInformation(TokenIntegrityLevel Medium)"),
        (Context::DuplicateToken, "DuplicateTokenEx"),
        (Context::CheckTokenMembership, "CheckTokenMembership"),
        (
            Context::IntegrityLevelSize,
            "GetTokenInformation TokenIntegrityLevel unexpected failure",
        ),
        (Context::IntegrityLevel, "GetTokenInformation TokenIntegrityLevel"),
        (Context::ElevationType, "GetTokenInformation TOKEN_ELEVATION_TYPE"),
        (Context::Impersonate, "ImpersonateLoggedOnUser"),
    ];
    for (context, text) in words {
        assert_eq!(context.text(), text);
        let error = TokenError::Win32 { context, code: 5 };
        assert_eq!((error.text(), error.kind()), (Some(text), ErrorKind::System(5)));
    }
    let none = TokenError::NoShellWindow;
    assert_eq!(none.text(), Some("there is no shell window"));
    assert_eq!(none.kind(), ErrorKind::NotFound);
    let sid = TokenError::WellKnownSid { code: 87 };
    assert_eq!((sid.text(), sid.kind()), (None, ErrorKind::System(87)));
}

#[test]
fn replies_have_to_fit_their_calls() {
    assert!(accepts(&Call::GetShellWindow, &Reply::Window { window: 0 }));
    assert!(!accepts(&Call::GetShellWindow, &Reply::Closed));
    let length = Call::GetLengthSid { sid: vec![1] };
    assert!(accepts(&length, &Reply::Length { length: 12 }));
    let most = u32::MAX - label_bytes() as u32;
    assert!(accepts(&length, &Reply::Length { length: most }));
    assert!(!accepts(&length, &Reply::Length { length: most + 1 }));
    let label = |n: usize| Call::GetTokenInformation { token: 1, class: 25, buffer: vec![0; n] };
    let data = |res: i32, n: usize| Reply::Information { res, data: vec![0; n], last_error: 0 };
    assert!(accepts(&label(label_bytes()), &data(1, label_bytes())));
    assert!(!accepts(&label(label_bytes()), &data(1, label_bytes() + 1)));
    assert!(!accepts(&label(4), &data(1, 4)));
    assert!(accepts(&label(4), &data(0, 4)));
    assert!(accepts(&elevation_call(1), &elevation(1)));
    assert!(!accepts(&elevation_call(1), &data(1, 3)));
}

#[test]
fn current_process_token() {
    let call = || Call::OpenProcessToken { process: Process::Current, access: 0xe };
    let open = || Token::with_current_process();
    assert_eq!(ended(exchange(open(), call(), opened(9))), Ok(Token { token: 9 }));
    assert_eq!(
        ended(exchange(open(), call(), refused(5))),
        win32(Context::OpenCurrentProcessToken, 5)
    );
    assert_eq!(
        ended(exchange(open(), call(), Reply::Opened { res: 2, handle: 9, last_error: 6 })),
        win32(Context::OpenCurrentProcessToken, 6)
    );
    assert_eq!(Token { token: 9 }.close(), Call::CloseHandle { handle: 9 });
}

#[test]
fn shell_process_token() {
    let p = Token::with_shell_process();
    let p = pending(exchange(p, Call::GetShellWindow, Reply::Window { window: 40 }));
    let call = Call::GetWindowThreadProcessId { window: 40 };
    let p = pending(exchange(p, call, Reply::ProcessId { pid: 41 }));
    let call = Call::OpenProcess { access: 0x400, inherit: false, pid: 41 };
    let p = pending(exchange(p, call, Reply::Process { handle: 42, last_error: 0 }));
    let call = Call::OpenProcessToken { process: Process::Handle(42), access: 2 };
    let p = pending(exchange(p, call, opened(43)));
    let call = Call::DuplicateTokenEx { token: 43, access: 0x18f, impersonation: 2, kind: 1 };
    let p = pending(exchange(p, call, opened(44)));
    let p = pending(exchange(p, Call::CloseHandle { handle: 43 }, Reply::Closed));
    let outcome = ended(exchange(p, Call::CloseHandle { handle: 42 }, Reply::Closed));
    assert_eq!(outcome, Ok(Token { token: 44 }));
}

#[test]
fn shell_process_failures() {
    let start = || Token::with_shell_process();
    assert_eq!(
        ended(start().resume(Reply::Window { window: 0 })),
        Err(TokenError::NoShellWindow)
    );

    let with_pid = || {
        let p = pending(start().resume(Reply::Window { window: 40 }));
        pending(p.resume(Reply::ProcessId { pid: 41 }))
    };
    assert_eq!(
        ended(with_pid().resume(Reply::Process { handle: usize::MAX, last_error: 5 })),
        win32(Context::OpenShellProcess, 5)
    );

    // A null handle passes for a process, and is refused one call later.
    let p = pending(with_pid().resume(Reply::Process { handle: 0, last_error: 5 }));
    let call = Call::OpenProcessToken { process: Process::Handle(0), access: 2 };
    let p = pending(exchange(p, call, refused(6)));
    assert_eq!(
        ended(exchange(p, Call::CloseHandle { handle: 0 }, Reply::Closed)),
        win32(Context::OpenShellProcessToken, 6)
    );

    // The error is that of the failed duplication, though two calls follow it.
    let p = pending(with_pid().resume(Reply::Process { handle: 42, last_error: 0 }));
    let p = pending(p.resume(opened(43)));
    let p = pending(p.resume(refused(8)));
    let p = pending(exchange(p, Call::CloseHandle { handle: 43 }, Reply::Closed));
    assert_eq!(
        ended(exchange(p, Call::CloseHandle { handle: 42 }, Reply::Closed)),
        win32(Context::DuplicateToken, 8)
    );
}

#[test]
fn duplicates_by_kind() {
    let token = Token { token: 7 };
    let call = |kind: u32| Call::DuplicateTokenEx {
        token: 7,
        access: 0x18f,
        impersonation: 2,
        kind,
    };
    let p = token.duplicate_as_primary_token();
    assert_eq!(ended(exchange(p, call(1), opened(9))), Ok(Token { token: 9 }));
    let p = token.duplicate_as_impersonation_token();
    assert_eq!(ended(exchange(p, call(2), opened(9))), Ok(Token { token: 9 }));
    let p = token.duplicate(2);
    assert_eq!(ended(exchange(p, call(2), refused(5))), win32(Context::DuplicateToken, 5));
}

#[test]
fn safer_token() {
    let sid = vec![1u8, 1, 0, 0, 0, 0, 0, 16, 0, 32, 0, 0];
    let p = Token { token: 7 }.as_medium_integrity_safer_token();
    let call = Call::SaferCreateLevel { scope: 2, level_id: 0x20000, flags: 1 };
    let p = pending(exchange(p, call, opened(50)));
    let call = Call::SaferComputeTokenFromLevel { level: 50, token: 7, flags: 0 };
    let p = pending(exchange(p, call, opened(51)));
    let call = Call::CreateWellKnownSid { kind: 67 };
    let p = pending(exchange(p, call, Reply::Sid { sid: Ok(sid.clone()) }));
    let call = Call::GetLengthSid { sid: sid.clone() };
    let p = pending(exchange(p, call, Reply::Length { length: 12 }));
    let call = Call::SetTokenInformation {
        token: 51,
        class: 25,
        attributes: 0x20,
        sid,
        length: 12 + label_bytes() as u32,
    };
    let p = pending(exchange(p, call, Reply::Status { res: 1, last_error: 0 }));
    let outcome = ended(exchange(p, Call::SaferCloseLevel { level: 50 }, Reply::Closed));
    assert_eq!(outcome, Ok(Token { token: 51 }));
}

#[test]
fn safer_token_failures() {
    let start = || Token { token: 7 }.as_medium_integrity_safer_token();
    assert_eq!(ended(start().resume(refused(5))), win32(Context::SaferCreateLevel, 5));

    let with_level = || pending(start().resume(opened(50)));
    let p = pending(with_level().resume(refused(6)));
    assert_eq!(
        ended(exchange(p, Call::SaferCloseLevel { level: 50 }, Reply::Closed)),
        win32(Context::SaferComputeTokenFromLevel, 6)
    );

    // The computed token is closed where its label cannot be set.
    let with_token = || pending(with_level().resume(opened(51)));
    let p = pending(with_token().resume(Reply::Sid { sid: Err(87) }));
    let p = pending(exchange(p, Call::CloseHandle { handle: 51 }, Reply::Closed));
    assert_eq!(
        ended(exchange(p, Call::SaferCloseLevel { level: 50 }, Reply::Closed)),
        Err(TokenError::WellKnownSid { code: 87 })
    );

    let p = pending(with_token().resume(Reply::Sid { sid: Ok(vec![1]) }));
    let p = pending(p.resume(Reply::Length { length: 1 }));
    let p = pending(p.resume(Reply::Status { res: 0, last_error: 5 }));
    let p = pending(exchange(p, Call::CloseHandle { handle: 51 }, Reply::Closed));
    assert_eq!(
        ended(exchange(p, Call::SaferCloseLevel { level: 50 }, Reply::Closed)),
        win32(Context::SetMediumIntegrity, 5)
    );
}

#[test]
fn medium_integrity_is_set_on_the_token_itself() {
    let p = Token { token: 7 }.set_medium_integrity();
    let p = pending(p.resume(Reply::Sid { sid: Ok(vec![1, 2]) }));
    let p = pending(p.resume(Reply::Length { length: 2 }));
    let call = Call::SetTokenInformation {
        token: 7,
        class: 25,
        attributes: 0x20,
        sid: vec![1, 2],
        length: 2 + label_bytes() as u32,
    };
    assert_eq!(ended(exchange(p, call, Reply::Status { res: 1, last_error: 0 })), Ok(()));
}

#[test]
fn membership() {
    let token = Token { token: 7 };
    let call = || Call::CheckTokenMembership { token: 7, sid: vec![1, 2] };
    let reply = |res: i32, is_member: i32| Reply::Membership { res, is_member, last_error: 5 };
    let ask = || token.check_membership(vec![1, 2]);
    assert_eq!(ended(exchange(ask(), call(), reply(1, 1))), Ok(true));
    assert_eq!(ended(exchange(ask(), call(), reply(1, 0))), Ok(false));
    assert_eq!(ended(exchange(ask(), call(), reply(1, 2))), Ok(false));
    assert_eq!(
        ended(exchange(ask(), call(), reply(0, 1))),
        win32(Context::CheckTokenMembership, 5)
    );

    let p = token.check_administrators_membership();
    let admins = Call::CreateWellKnownSid { kind: 26 };
    let p = pending(exchange(p, admins, Reply::Sid { sid: Ok(vec![1, 2]) }));
    assert_eq!(ended(exchange(p, call(), reply(1, 1))), Ok(true));
    let p = token.check_administrators_membership();
    assert_eq!(
        ended(p.resume(Reply::Sid { sid: Err(8) })),
        Err(TokenError::WellKnownSid { code: 8 })
    );
}

#[test]
fn integrity_level_is_asked_for_twice() {
    let token = Token { token: 7 };
    let size_call = || Call::GetTokenInformationSize { token: 7, class: 25 };
    let size = label_bytes() + 12;
    let p = token.integrity_level();
    let reply = Reply::Size { size: size as u32, last_error: 122 };
    let p = pending(exchange(p, size_call(), reply));
    let call = || Call::GetTokenInformation { token: 7, class: 25, buffer: vec![0; size] };
    let data = label_data(99, 0x20, size);
    let reply = Reply::Information { res: 1, data: data.clone(), last_error: 0 };
    assert_eq!(ended(exchange(p, call(), reply)), Ok(TokenIntegrityLevel { data: data.clone() }));

    // Any result but zero counts as success here.
    let reply = Reply::Information { res: 2, data: data.clone(), last_error: 0 };
    assert_eq!(ended(exchange(p, call(), reply)), Ok(TokenIntegrityLevel { data }));
    let reply = Reply::Information { res: 0, data: vec![0; size], last_error: 24 };
    assert_eq!(ended(exchange(p, call(), reply)), win32(Context::IntegrityLevel, 24));

    let p = token.integrity_level();
    let reply = Reply::Size { size: 28, last_error: 0 };
    assert_eq!(ended(exchange(p, size_call(), reply)), win32(Context::IntegrityLevelSize, 0));
}

#[test]
fn elevation_types() {
    let ask = |reply: Reply| {
        ended(exchange(ElevationQuery { token: 7 }, elevation_call(7), reply))
    };
    assert_eq!(ask(elevation(1)), Ok(1));
    assert_eq!(ask(elevation(3)), Ok(3));
    let large = Reply::Information { res: 1, data: vec![1, 2, 3, 4], last_error: 0 };
    assert_eq!(ask(large), Ok(0x0403_0201));
    let failed = Reply::Information { res: 0, data: vec![2, 0, 0, 0], last_error: 6 };
    assert_eq!(ask(failed), win32(Context::ElevationType, 6));
}

#[test]
fn impersonation() {
    let ask = |res: i32| {
        let p = Token { token: 7 }.impersonate();
        let call = Call::ImpersonateLoggedOnUser { token: 7 };
        ended(exchange(p, call, Reply::Status { res, last_error: 5 }))
    };
    assert_eq!(ask(1), Ok(()));
    assert_eq!(ask(0), win32(Context::Impersonate, 5));
    assert_eq!(ask(3), win32(Context::Impersonate, 5));
}

#[test]
fn privilege_level_of_an_elevated_token() {
    let p = Token { token: 7 }.privilege_level();
    let outcome = ended(exchange(p, elevation_call(7), elevation(2)));
    assert_eq!(outcome, Ok(PrivilegeLevel::Elevated));
}

#[test]
fn privilege_level_of_a_high_integrity_token() {
    let size = label_bytes() + 12;
    for (is_member, level) in
        [(1, PrivilegeLevel::HighIntegrityAdmin), (0, PrivilegeLevel::NotPrivileged)]
    {
        let p = Token { token: 7 }.privilege_level();
        let p = pending(exchange(p, elevation_call(7), elevation(1)));
        let call = Call::GetTokenInformationSize { token: 7, class: 25 };
        let p = pending(exchange(p, call, Reply::Size { size: size as u32, last_error: 122 }));
        let call = Call::GetTokenInformation { token: 7, class: 25, buffer: vec![0; size] };
        let data = label_data(0xabcd, 0x20, size);
        let reply = Reply::Information { res: 1, data, last_error: 0 };
        let p = pending(exchange(p, call, reply));
        let call = Call::IsWellKnownSid { address: 0xabcd, kind: 68 };
        let p = pending(exchange(p, call, Reply::Match { matches: true }));
        let call = Call::DuplicateTokenEx { token: 7, access: 0x18f, impersonation: 2, kind: 2 };
        let p = pending(exchange(p, call, opened(60)));
        let call = Call::CreateWellKnownSid { kind: 26 };
        let p = pending(exchange(p, call, Reply::Sid { sid: Ok(vec![1, 2]) }));
        let call = Call::CheckTokenMembership { token: 60, sid: vec![1, 2] };
        let reply = Reply::Membership { res: 1, is_member, last_error: 0 };
        let p = pending(exchange(p, call, reply));
        let outcome = ended(exchange(p, Call::CloseHandle { handle: 60 }, Reply::Closed));
        assert_eq!(outcome, Ok(level));
    }
}

#[test]
fn privilege_level_failures() {
    let size = label_bytes() + 12;
    let start = || Token { token: 7 }.privilege_level();
    let failed = Reply::Information { res: 0, data: vec![0; 4], last_error: 6 };
    assert_eq!(ended(start().resume(failed)), win32(Context::ElevationType, 6));

    let limited = || pending(start().resume(elevation(3)));
    let reply = Reply::Size { size: 0, last_error: 6 };
    assert_eq!(ended(limited().resume(reply)), win32(Context::IntegrityLevelSize, 6));

    let sized = || {
        pending(limited().resume(Reply::Size { size: size as u32, last_error: 122 }))
    };
    let reply = Reply::Information { res: 0, data: vec![0; size], last_error: 5 };
    assert_eq!(ended(sized().resume(reply)), win32(Context::IntegrityLevel, 5));

    let labelled = || {
        let data = label_data(0xabcd, 0x20, size);
        pending(sized().resume(Reply::Information { res: 1, data, last_error: 0 }))
    };
    assert_eq!(
        ended(labelled().resume(Reply::Match { matches: false })),
        Ok(PrivilegeLevel::NotPrivileged)
    );

    let high = || pending(labelled().resume(Reply::Match { matches: true }));
    assert_eq!(ended(high().resume(refused(5))), win32(Context::DuplicateToken, 5));

    let duplicated = || pending(high().resume(opened(60)));
    let p = pending(duplicated().resume(Reply::Sid { sid: Err(87) }));
    assert_eq!(
        ended(exchange(p, Call::CloseHandle { handle: 60 }, Reply::Closed)),
        Err(TokenError::WellKnownSid { code: 87 })
    );

    let p = pending(duplicated().resume(Reply::Sid { sid: Ok(vec![1]) }));
    let p = pending(p.resume(Reply::Membership { res: 0, is_member: 1, last_error: 1309 }));
    assert_eq!(
        ended(exchange(p, Call::CloseHandle { handle: 60 }, Reply::Closed)),
        win32(Context::CheckTokenMembership, 1309)
    );
}

#[test]
fn what_was_acquired_can_be_given_back() {
    let open = Call::OpenProcessToken { process: Process::Current, access: 0xe };
    assert_eq!(undo(&open, &opened(9)), Some(Call::CloseHandle { handle: 9 }));
    assert_eq!(undo(&open, &refused(5)), None);
    assert_eq!(undo(&open, &Reply::Opened { res: 2, handle: 9, last_error: 0 }), None);
    let copy = Call::DuplicateTokenEx { token: 7, access: 0, impersonation: 2, kind: 1 };
    assert_eq!(undo(&copy, &opened(9)), Some(Call::CloseHandle { handle: 9 }));
    let compute = Call::SaferComputeTokenFromLevel { level: 50, token: 7, flags: 0 };
    assert_eq!(undo(&compute, &opened(9)), Some(Call::CloseHandle { handle: 9 }));
    let level = Call::SaferCreateLevel { scope: 2, level_id: 0x20000, flags: 1 };
    assert_eq!(undo(&level, &opened(9)), Some(Call::SaferCloseLevel { level: 9 }));
    let process = Call::OpenProcess { access: 0x400, inherit: false, pid: 41 };
    let reply = |handle: usize| Reply::Process { handle, last_error: 0 };
    assert_eq!(undo(&process, &reply(42)), Some(Call::CloseHandle { handle: 42 }));
    assert_eq!(undo(&process, &reply(0)), Some(Call::CloseHandle { handle: 0 }));
    assert_eq!(undo(&process, &reply(usize::MAX)), None);
    assert_eq!(undo(&Call::CloseHandle { handle: 9 }, &Reply::Closed), None);
    assert_eq!(undo(&Call::GetShellWindow, &Reply::Window { window: 40 }), None);
}
