use access_token::bytes::pointer_bytes;
use access_token::call::{accepts, Call, Process, Reply};
use access_token::error::{ErrorKind, TokenError};
use access_token::label::label_bytes;
use access_token::procedure::{Procedure, Progress};
use access_token::token::{PrivilegeLevel, Token};
use std::collections::BTreeMap;

const MEDIUM: u32 = 67;
const HIGH: u32 = 68;

#[derive(Clone, Copy)]
struct TokenObject {
    elevation: u32,
    label: u32,
    administrator: bool,
    kind: u32,
}

/// A small Windows: a desktop with or without a shell, and a table of open handles.
struct Desktop {
    own: TokenObject,
    shell: Option<TokenObject>,
    processes: Vec<usize>,
    tokens: BTreeMap<usize, TokenObject>,
    levels: Vec<usize>,
    next: usize,
    /// The call that fails, counted from zero.
    broken: Option<usize>,
    made: usize,
}

const SHELL_WINDOW: usize = 0x10010;
const SHELL_PID: u32 = 4242;

fn sid_of(kind: u32) -> Vec<u8> {
    vec![1, 1, kind as u8]
}

impl Desktop {
    fn new(own: TokenObject, shell: Option<TokenObject>) -> Self {
        Desktop {
            own,
            shell,
            processes: Vec::new(),
            tokens: BTreeMap::new(),
            levels: Vec::new(),
            next: 0x100,
            broken: None,
            made: 0,
        }
    }

    fn handle(&mut self) -> usize {
        self.next += 4;
        self.next
    }

    fn opened(&mut self, object: Option<TokenObject>) -> Reply {
        match object {
            Some(object) => {
                let handle = self.handle();
                self.tokens.insert(handle, object);
                Reply::Opened { res: 1, handle, last_error: 0 }
            }
            None => Reply::Opened { res: 0, handle: usize::MAX, last_error: 5 },
        }
    }

    fn perform(&mut self, call: &Call<Vec<u8>>) -> Reply {
        let broken = self.broken == Some(self.made);
        self.made += 1;
        match call {
            Call::OpenProcessToken { process: Process::Current, .. } => {
                let own = self.own;
                self.opened(if broken { None } else { Some(own) })
            }
            Call::OpenProcessToken { process: Process::Handle(process), .. } => {
                assert!(self.processes.contains(process));
                let shell = self.shell;
                self.opened(if broken { None } else { shell })
            }
            Call::GetShellWindow => {
                let there = self.shell.is_some() && !broken;
                Reply::Window { window: if there { SHELL_WINDOW } else { 0 } }
            }
            Call::GetWindowThreadProcessId { window } => {
                assert_eq!(*window, SHELL_WINDOW);
                Reply::ProcessId { pid: SHELL_PID }
            }
            Call::OpenProcess { pid, .. } => {
                assert_eq!(*pid, SHELL_PID);
                if broken {
                    return Reply::Process { handle: usize::MAX, last_error: 5 };
                }
                let handle = self.handle();
                self.processes.push(handle);
                Reply::Process { handle, last_error: 0 }
            }
            Call::SaferCreateLevel { .. } => {
                if broken {
                    return Reply::Opened { res: 0, handle: 0, last_error: 5 };
                }
                let handle = self.handle();
                self.levels.push(handle);
                Reply::Opened { res: 1, handle, last_error: 0 }
            }
            Call::SaferComputeTokenFromLevel { level, token, .. } => {
                assert!(self.levels.contains(level));
                let computed =
                    TokenObject { elevation: 1, administrator: false, ..self.tokens[token] };
                self.opened(if broken { None } else { Some(computed) })
            }
            Call::CreateWellKnownSid { kind } => {
                Reply::Sid { sid: if broken { Err(87) } else { Ok(sid_of(*kind)) } }
            }
            Call::GetLengthSid { sid } => Reply::Length { length: sid.len() as u32 },
            Call::IsWellKnownSid { address, kind } => {
                Reply::Match { matches: *address == 0x7000 + *kind as usize }
            }
            Call::SetTokenInformation { token, sid, length, .. } => {
                assert_eq!(*length as usize, label_bytes() + sid.len());
                if broken {
                    return Reply::Status { res: 0, last_error: 5 };
                }
                self.tokens.get_mut(token).unwrap().label = sid[2] as u32;
                Reply::Status { res: 1, last_error: 0 }
            }
            Call::DuplicateTokenEx { token, kind, .. } => {
                let object = TokenObject { kind: *kind, ..self.tokens[token] };
                self.opened(if broken { None } else { Some(object) })
            }
            Call::CheckTokenMembership { token, sid } => {
                let object = self.tokens[token];
                assert_eq!(*sid, sid_of(26));
                // Windows wants an impersonation token here.
                let res = (object.kind == 2 && !broken) as i32;
                Reply::Membership {
                    res,
                    is_member: object.administrator as i32,
                    last_error: 1309,
                }
            }
            Call::GetTokenInformationSize { token, .. } => {
                assert!(self.tokens.contains_key(token));
                let size = label_bytes() as u32 + 12;
                Reply::Size { size, last_error: if broken { 6 } else { 122 } }
            }
            Call::GetTokenInformation { token, class, buffer } => {
                assert!(buffer.iter().all(|byte| *byte == 0));
                let mut data = buffer.clone();
                let object = self.tokens[token];
                if broken {
                    return Reply::Information { res: 0, data, last_error: 6 };
                }
                if *class == 18 {
                    data.copy_from_slice(&object.elevation.to_le_bytes());
                } else {
                    let address = 0x7000 + object.label as usize;
                    data[..pointer_bytes()].copy_from_slice(&address.to_le_bytes());
                }
                Reply::Information { res: 1, data, last_error: 0 }
            }
            Call::ImpersonateLoggedOnUser { token } => {
                let res = (self.tokens.contains_key(token) && !broken) as i32;
                Reply::Status { res, last_error: 5 }
            }
            Call::CloseHandle { handle } => {
                let known = self.processes.len() + self.tokens.len();
                self.processes.retain(|process| process != handle);
                self.tokens.remove(handle);
                assert_eq!(self.processes.len() + self.tokens.len() + 1, known);
                Reply::Closed
            }
            Call::SaferCloseLevel { level } => {
                let known = self.levels.len();
                self.levels.retain(|other| other != level);
                assert_eq!(self.levels.len() + 1, known);
                Reply::Closed
            }
        }
    }

    fn carry_out<P: Procedure>(&mut self, procedure: P) -> Result<P::Output, TokenError> {
        let mut progress = Progress::Pending(procedure);
        loop {
            match progress {
                Progress::Pending(procedure) => {
                    let call = procedure.call();
                    let reply = self.perform(&call);
                    assert!(accepts(&call, &reply));
                    progress = procedure.resume(reply);
                }
                Progress::Finished(outcome) => return outcome,
            }
        }
    }

    fn open_handles(&self) -> usize {
        self.processes.len() + self.tokens.len() + self.levels.len()
    }
}

const PLAIN: TokenObject =
    TokenObject { elevation: 1, label: MEDIUM, administrator: false, kind: 1 };
const ELEVATED: TokenObject =
    TokenObject { elevation: 2, label: HIGH, administrator: true, kind: 1 };
const HIGH_ADMIN: TokenObject =
    TokenObject { elevation: 1, label: HIGH, administrator: true, kind: 1 };

#[test]
fn get_own_token() {
    for own in [PLAIN, ELEVATED, HIGH_ADMIN] {
        let mut desktop = Desktop::new(own, None);
        let token = desktop.carry_out(Token::with_current_process()).unwrap();
        let level = desktop.carry_out(token.privilege_level()).unwrap();
        println!("priv level is {:?}", level);

        // Verify that we can build a medium token from this,
        // and that the medium token doesn't show as privileged
        let medium = desktop.carry_out(token.as_medium_integrity_safer_token()).unwrap();
        let level = desktop.carry_out(medium.privilege_level()).unwrap();
        assert_eq!(level, PrivilegeLevel::NotPrivileged);

        desktop.perform(&medium.close());
        desktop.perform(&token.close());
        assert_eq!(desktop.open_handles(), 0);
    }
}

#[test]
fn get_shell_token() {
    for shell in [Some(PLAIN), None] {
        let mut desktop = Desktop::new(ELEVATED, shell);
        // We should either successfully obtain the shell token (if we're
        // connected to a desktop with a shell), or get a NotFound error.
        // We treat any other error as a test failure.
        match desktop.carry_out(Token::with_shell_process()) {
            Ok(token) => {
                println!("got shell token!");
                assert!(shell.is_some());
                assert_eq!(desktop.tokens[&token.token].kind, 1);
                assert_eq!(desktop.open_handles(), 1);
            }
            Err(err) => match err.kind() {
                ErrorKind::NotFound => {
                    println!("There is no shell");
                    assert!(shell.is_none());
                    assert_eq!(desktop.open_handles(), 0);
                }
                _ => panic!("failed to get shell token: {:?}", err),
            },
        }
    }
}

#[test]
fn levels_follow_the_facts() {
    for elevation in 0..5u32 {
        for label in [MEDIUM, HIGH] {
            for administrator in [false, true] {
                let own = TokenObject { elevation, label, administrator, kind: 1 };
                let mut desktop = Desktop::new(own, None);
                let token = desktop.carry_out(Token::with_current_process()).unwrap();
                let expected = if elevation == 2 {
                    PrivilegeLevel::Elevated
                } else if label == HIGH && administrator {
                    PrivilegeLevel::HighIntegrityAdmin
                } else {
                    PrivilegeLevel::NotPrivileged
                };
                assert_eq!(desktop.carry_out(token.privilege_level()), Ok(expected));
                assert_eq!(desktop.open_handles(), 1);
            }
        }
    }
}

/// Carries an operation out with each of its calls failing in turn, and checks that nothing
/// but the first token stays open. Returns the number of runs that failed.
fn break_each_call<P: Procedure>(calls: usize, start: impl Fn(&Token) -> P) -> usize {
    let mut failures = 0;
    for k in 0..calls {
        let mut desktop = Desktop::new(HIGH_ADMIN, Some(PLAIN));
        let token = desktop.carry_out(Token::with_current_process()).unwrap();
        desktop.made = 0;
        desktop.broken = Some(k);
        if desktop.carry_out(start(&token)).is_err() {
            failures += 1;
            assert_eq!(desktop.open_handles(), 1);
            assert!(desktop.tokens.contains_key(&token.token));
        }
    }
    failures
}

#[test]
fn failed_calls_leave_nothing_open() {
    // Comparing a SID does not fail, nor does closing.
    assert_eq!(break_each_call(8, |token| token.privilege_level()), 6);
    // Asking for the process of a window does not fail, nor does closing.
    assert_eq!(break_each_call(7, |_| Token::with_shell_process()), 4);
    // Measuring a SID does not fail, nor does closing.
    assert_eq!(break_each_call(6, |token| token.as_medium_integrity_safer_token()), 4);
    assert_eq!(break_each_call(1, |token| token.impersonate()), 1);
    assert_eq!(break_each_call(1, |token| token.duplicate_as_primary_token()), 1);
}

#[test]
fn the_given_token_keeps_its_label() {
    let mut desktop = Desktop::new(HIGH_ADMIN, None);
    let token = desktop.carry_out(Token::with_current_process()).unwrap();
    let medium = desktop.carry_out(token.as_medium_integrity_safer_token()).unwrap();
    assert_eq!(desktop.tokens[&token.token].label, HIGH);
    assert_eq!(desktop.tokens[&medium.token].label, MEDIUM);
    assert_eq!(
        desktop.carry_out(token.privilege_level()),
        Ok(PrivilegeLevel::HighIntegrityAdmin)
    );
}

#[test]
fn membership_cannot_be_asked_of_a_primary_token() {
    let mut desktop = Desktop::new(HIGH_ADMIN, None);
    let token = desktop.carry_out(Token::with_current_process()).unwrap();
    assert!(desktop.carry_out(token.check_administrators_membership()).is_err());
    let copy = desktop.carry_out(token.duplicate_as_impersonation_token()).unwrap();
    assert_eq!(desktop.carry_out(copy.check_administrators_membership()), Ok(true));
}

#[test]
fn a_safer_token_is_not_of_high_integrity() {
    let mut desktop = Desktop::new(HIGH_ADMIN, None);
    let token = desktop.carry_out(Token::with_current_process()).unwrap();
    let label = desktop.carry_out(token.integrity_level()).unwrap();
    assert_eq!(desktop.carry_out(label.is_high()), Ok(true));
    let medium = desktop.carry_out(token.as_medium_integrity_safer_token()).unwrap();
    let label = desktop.carry_out(medium.integrity_level()).unwrap();
    assert_eq!(desktop.carry_out(label.is_high()), Ok(false));
}

#[test]
fn a_duplicate_is_separate() {
    let mut desktop = Desktop::new(HIGH_ADMIN, None);
    let token = desktop.carry_out(Token::with_current_process()).unwrap();
    for kind in [1, 2] {
        let copy = desktop.carry_out(token.duplicate(kind)).unwrap();
        assert_eq!(desktop.carry_out(copy.set_medium_integrity()), Ok(()));
        assert_eq!(desktop.tokens[&copy.token].label, MEDIUM);
        assert_eq!(desktop.tokens[&token.token].label, HIGH);
        desktop.perform(&copy.close());
        assert_eq!(
            desktop.carry_out(token.privilege_level()),
            Ok(PrivilegeLevel::HighIntegrityAdmin)
        );
    }
    let copy = desktop.carry_out(token.duplicate(1)).unwrap();
    desktop.perform(&token.close());
    assert_eq!(
        desktop.carry_out(copy.privilege_level()),
        Ok(PrivilegeLevel::HighIntegrityAdmin)
    );
}

#[test]
fn two_handles_to_the_token_of_one_process_are_separate() {
    let mut desktop = Desktop::new(HIGH_ADMIN, None);
    let first = desktop.carry_out(Token::with_current_process()).unwrap();
    let second = desktop.carry_out(Token::with_current_process()).unwrap();
    assert_ne!(first.token, second.token);
    desktop.perform(&first.close());
    assert_eq!(
        desktop.carry_out(second.privilege_level()),
        Ok(PrivilegeLevel::HighIntegrityAdmin)
    );
}

#[test]
fn setting_medium_integrity_twice_is_setting_it_once() {
    let mut desktop = Desktop::new(HIGH_ADMIN, None);
    let token = desktop.carry_out(Token::with_current_process()).unwrap();
    for _ in 0..2 {
        assert_eq!(desktop.carry_out(token.set_medium_integrity()), Ok(()));
        assert_eq!(desktop.tokens[&token.token].label, MEDIUM);
        assert_eq!(desktop.open_handles(), 1);
    }
}
