//! What holds of the operations on tokens as wholes.

use crate::bytes::{le_value, lemma_le_value_fits, pointer_width};
use crate::call::{Call, Process, Reply};
use crate::duplicate::Duplicate;
use crate::error::TokenError;
use crate::integrity::{HighCheck, IntegrityQuery};
use crate::label::{label_width, TokenIntegrityLevel};
use crate::open::{CurrentProcess, ShellProcess};
use crate::privilege::PrivilegeQuery;
use crate::procedure::{acquired, is_release, Procedure, Progress, Resource};
use crate::run::{
    acquired_within, conforms, history, law_every_run_ends, law_failed_call_decides,
    law_open_handle_is_left_alone, lemma_first_stages, lemma_history_len, lemma_history_parts,
    lemma_stages, run, touched, Exchange,
};
use crate::safer::{SaferToken, SetMediumIntegrity};
use crate::token::{PrivilegeLevel, Token};
use crate::win32::{
    CURRENT_PROCESS_TOKEN_ACCESS, DUPLICATE_TOKEN_ACCESS, NULL, PROCESS_QUERY_INFORMATION,
    SAFER_LEVELID_NORMALUSER, SAFER_LEVEL_OPEN, SAFER_SCOPEID_USER, SECURITY_IMPERSONATION,
    SE_GROUP_INTEGRITY, TOKEN_DUPLICATE, TOKEN_ELEVATION_TYPE, TOKEN_ELEVATION_TYPE_FULL,
    TOKEN_IMPERSONATE, TOKEN_IMPERSONATION, TOKEN_INTEGRITY_LEVEL, TOKEN_PRIMARY, TOKEN_QUERY,
    WIN_BUILTIN_ADMINISTRATORS_SID, WIN_HIGH_LABEL_SID, WIN_MEDIUM_LABEL_SID,
};
use vstd::prelude::*;

verus! {

/// What the system knows of a token, as far as its privilege level goes.
pub ghost struct TokenFacts {
    /// The elevation type.
    pub elevation: u32,
    /// The integrity label is the one of high integrity.
    pub high: bool,
    /// The builtin administrators group is enabled.
    pub administrator: bool,
}

/// The privilege level of a token.
pub open spec fn level_of(facts: TokenFacts) -> PrivilegeLevel {
    if facts.elevation == TOKEN_ELEVATION_TYPE_FULL {
        PrivilegeLevel::Elevated
    } else if facts.high && facts.administrator {
        PrivilegeLevel::HighIntegrityAdmin
    } else {
        PrivilegeLevel::NotPrivileged
    }
}

/// Where the reply tells one of the facts, it tells the truth.
pub open spec fn truthful(exchange: Exchange, facts: TokenFacts) -> bool {
    match (exchange.call, exchange.reply) {
        (Call::GetTokenInformation { class, .. }, Reply::Information { data, .. }) => class
            == TOKEN_ELEVATION_TYPE && exchange.failed() is None ==> le_value(data@)
            == facts.elevation,
        (Call::IsWellKnownSid { .. }, Reply::Match { matches }) => matches == facts.high,
        (Call::CheckTokenMembership { .. }, Reply::Membership { is_member, .. }) =>
            exchange.failed() is None ==> (is_member == 1) == facts.administrator,
        _ => true,
    }
}

/// What a query has found out so far agrees with the facts.
spec fn agrees(p: PrivilegeQuery, facts: TokenFacts) -> bool {
    match p {
        PrivilegeQuery::Elevation { .. } => true,
        PrivilegeQuery::Label { .. } => facts.elevation != TOKEN_ELEVATION_TYPE_FULL,
        PrivilegeQuery::High { .. } => facts.elevation != TOKEN_ELEVATION_TYPE_FULL,
        PrivilegeQuery::Duplicate { .. } => facts.elevation != TOKEN_ELEVATION_TYPE_FULL
            && facts.high,
        PrivilegeQuery::Administrators { .. } => facts.elevation != TOKEN_ELEVATION_TYPE_FULL
            && facts.high,
        PrivilegeQuery::CloseToken { outcome, .. } => outcome matches Ok(level) ==> level
            == level_of(facts),
    }
}

proof fn lemma_level_is_true(p: PrivilegeQuery, replies: Seq<Reply>, facts: TokenFacts)
    requires
        p.well_formed(),
        agrees(p, facts),
        conforms(Progress::Pending(p), replies),
        forall|i: int|
            0 <= i < replies.len() ==> truthful(
                #[trigger] history(Progress::Pending(p), replies)[i],
                facts,
            ),
    ensures
        run(Progress::Pending(p), replies) matches Progress::Finished(Ok(level)) ==> level
            == level_of(facts),
    decreases replies.len(),
{
    if replies.len() > 0 {
        let first = replies.first();
        let rest = replies.drop_first();
        let h = history(Progress::Pending(p), replies);
        lemma_history_parts(p, replies);
        lemma_history_len(Progress::Pending(p), replies);
        assert(truthful(h[0], facts));
        p.step(first);
        match p.after(first) {
            Progress::Pending(next) => {
                lemma_history_len(Progress::Pending(next), rest);
                assert forall|i: int| 0 <= i < rest.len() implies truthful(
                    #[trigger] history(Progress::Pending(next), rest)[i],
                    facts,
                ) by {
                    assert(h[i + 1] == history(Progress::Pending(next), rest)[i]);
                }
                lemma_level_is_true(next, rest, facts);
            },
            Progress::Finished(_) => {
                assert(rest.len() == 0);
            },
        }
    }
}

/// The privilege level that is found is the one that the facts about the token call for, if
/// the system tells the truth; and it is found, unless a call fails.
pub proof fn law_privilege_level(token: Token, replies: Seq<Reply>, facts: TokenFacts)
    requires
        conforms(Progress::Pending(token.privilege_query()), replies),
        forall|i: int|
            0 <= i < replies.len() ==> truthful(
                #[trigger] history(Progress::Pending(token.privilege_query()), replies)[i],
                facts,
            ),
        run(Progress::Pending(token.privilege_query()), replies) is Finished,
    ensures
        run(Progress::Pending(token.privilege_query()), replies) == Progress::<
            PrivilegeQuery,
            PrivilegeLevel,
        >::Finished(Ok(level_of(facts))) || exists|i: int|
            0 <= i < replies.len() && (#[trigger] history(
                Progress::Pending(token.privilege_query()),
                replies,
            )[i]).failed() is Some,
{
    let p = token.privilege_query();
    lemma_level_is_true(p, replies, facts);
    law_failed_call_decides(p, replies);
}

/// A token that is neither the elevated half of a pair nor of high integrity, such as one
/// that was given the label of medium integrity, never shows as privileged, be it a member
/// of what groups it may.
pub proof fn law_medium_integrity_is_not_privileged(
    token: Token,
    replies: Seq<Reply>,
    facts: TokenFacts,
    level: PrivilegeLevel,
)
    requires
        facts.elevation != TOKEN_ELEVATION_TYPE_FULL,
        !facts.high,
        conforms(Progress::Pending(token.privilege_query()), replies),
        forall|i: int|
            0 <= i < replies.len() ==> truthful(
                #[trigger] history(Progress::Pending(token.privilege_query()), replies)[i],
                facts,
            ),
        run(Progress::Pending(token.privilege_query()), replies) == Progress::<
            PrivilegeQuery,
            PrivilegeLevel,
        >::Finished(Ok(level)),
    ensures
        level == PrivilegeLevel::NotPrivileged,
{
    lemma_level_is_true(token.privilege_query(), replies, facts);
}

/// The call that a query for a privilege level makes when `i` calls have succeeded and the
/// answer is still open.
pub open spec fn privilege_call(token: Token, replies: Seq<Reply>, i: int) -> Call<Seq<u8>> {
    if i == 0 {
        Call::GetTokenInformation {
            token: token.token,
            class: TOKEN_ELEVATION_TYPE,
            buffer: seq![0u8, 0u8, 0u8, 0u8],
        }
    } else if i == 1 {
        Call::GetTokenInformationSize { token: token.token, class: TOKEN_INTEGRITY_LEVEL }
    } else if i == 2 {
        Call::GetTokenInformation {
            token: token.token,
            class: TOKEN_INTEGRITY_LEVEL,
            buffer: Seq::new(replies[1]->Size_size as nat, |k: int| 0u8),
        }
    } else if i == 3 {
        Call::IsWellKnownSid {
            address: le_value(
                replies[2]->Information_data@.subrange(0, pointer_width() as int),
            ) as usize,
            kind: WIN_HIGH_LABEL_SID,
        }
    } else if i == 4 {
        Call::DuplicateTokenEx {
            token: token.token,
            access: DUPLICATE_TOKEN_ACCESS,
            impersonation: SECURITY_IMPERSONATION,
            kind: TOKEN_IMPERSONATION,
        }
    } else if i == 5 {
        Call::CreateWellKnownSid { kind: WIN_BUILTIN_ADMINISTRATORS_SID }
    } else if i == 6 {
        Call::CheckTokenMembership {
            token: replies[4]->Opened_handle,
            sid: replies[5]->Sid_sid->Ok_0@,
        }
    } else {
        Call::CloseHandle { handle: replies[4]->Opened_handle }
    }
}

/// A query for a privilege level asks the token itself for its elevation type and its label,
/// and whether the SID in that very label is the one of high integrity. Whether the builtin
/// administrators are enabled it asks of a duplicate of the token that is made for
/// impersonation, and that duplicate is closed.
pub proof fn law_privilege_level_asks(token: Token, replies: Seq<Reply>, i: int)
    requires
        conforms(Progress::Pending(token.privilege_query()), replies),
        0 <= i < replies.len(),
        forall|j: int|
            0 <= j < i ==> (#[trigger] history(
                Progress::Pending(token.privilege_query()),
                replies,
            )[j]).failed() is None,
    ensures
        i < 8,
        history(Progress::Pending(token.privilege_query()), replies)[i].call == privilege_call(
            token,
            replies,
            i,
        ),
{
    let p = token.privilege_query();
    lemma_stages(Progress::Pending(p), replies);
    law_every_run_ends(p, replies);
    lemma_first_stages(Progress::Pending(p), replies);
}

/// The call that building a shell token makes when `i` calls have succeeded.
pub open spec fn shell_call(replies: Seq<Reply>, i: int) -> Call<Seq<u8>> {
    if i == 0 {
        Call::GetShellWindow
    } else if i == 1 {
        Call::GetWindowThreadProcessId { window: replies[0]->Window_window }
    } else if i == 2 {
        Call::OpenProcess {
            access: PROCESS_QUERY_INFORMATION,
            inherit: false,
            pid: replies[1]->ProcessId_pid,
        }
    } else if i == 3 {
        Call::OpenProcessToken {
            process: Process::Handle(replies[2]->Process_handle),
            access: TOKEN_DUPLICATE,
        }
    } else if i == 4 {
        Call::DuplicateTokenEx {
            token: replies[3]->Opened_handle,
            access: DUPLICATE_TOKEN_ACCESS,
            impersonation: SECURITY_IMPERSONATION,
            kind: TOKEN_PRIMARY,
        }
    } else if i == 5 {
        Call::CloseHandle { handle: replies[3]->Opened_handle }
    } else {
        Call::CloseHandle { handle: replies[2]->Process_handle }
    }
}

/// Where no call fails, the shell token is built from the process that owns the shell
/// window, by way of its token, which is closed again, as the process is.
pub proof fn law_shell_process_asks(replies: Seq<Reply>, i: int)
    requires
        conforms(Progress::Pending(ShellProcess::FindWindow), replies),
        0 <= i < replies.len(),
        forall|j: int|
            0 <= j < i ==> (#[trigger] history(
                Progress::Pending(ShellProcess::FindWindow),
                replies,
            )[j]).failed() is None,
    ensures
        i < 7,
        history(Progress::Pending(ShellProcess::FindWindow), replies)[i].call == shell_call(
            replies,
            i,
        ),
{
    let p = ShellProcess::FindWindow;
    lemma_stages(Progress::Pending(p), replies);
    law_every_run_ends(p, replies);
    lemma_first_stages(Progress::Pending(p), replies);
}

/// The call that building a safer token makes when `i` calls have succeeded.
pub open spec fn safer_call(token: Token, replies: Seq<Reply>, i: int) -> Call<Seq<u8>> {
    if i == 0 {
        Call::SaferCreateLevel {
            scope: SAFER_SCOPEID_USER,
            level_id: SAFER_LEVELID_NORMALUSER,
            flags: SAFER_LEVEL_OPEN,
        }
    } else if i == 1 {
        Call::SaferComputeTokenFromLevel {
            level: replies[0]->Opened_handle,
            token: token.token,
            flags: 0,
        }
    } else if i == 2 {
        Call::CreateWellKnownSid { kind: WIN_MEDIUM_LABEL_SID }
    } else if i == 3 {
        Call::GetLengthSid { sid: replies[2]->Sid_sid->Ok_0@ }
    } else if i == 4 {
        Call::SetTokenInformation {
            token: replies[1]->Opened_handle,
            class: TOKEN_INTEGRITY_LEVEL,
            attributes: SE_GROUP_INTEGRITY,
            sid: replies[2]->Sid_sid->Ok_0@,
            length: (label_width() + replies[3]->Length_length) as u32,
        }
    } else {
        Call::SaferCloseLevel { level: replies[0]->Opened_handle }
    }
}

/// Where no call fails, the safer token is computed for the level of a normal user from the
/// token that was given, and the label of medium integrity is put on what was computed, not
/// on what was given. The level is closed again.
pub proof fn law_safer_token_asks(token: Token, replies: Seq<Reply>, i: int)
    requires
        conforms(Progress::Pending(SaferToken::CreateLevel { token: token.token }), replies),
        0 <= i < replies.len(),
        forall|j: int|
            0 <= j < i ==> (#[trigger] history(
                Progress::Pending(SaferToken::CreateLevel { token: token.token }),
                replies,
            )[j]).failed() is None,
    ensures
        i < 6,
        history(
            Progress::Pending(SaferToken::CreateLevel { token: token.token }),
            replies,
        )[i].call == safer_call(token, replies, i),
{
    let p = SaferToken::CreateLevel { token: token.token };
    lemma_stages(Progress::Pending(p), replies);
    law_every_run_ends(p, replies);
    lemma_first_stages(Progress::Pending(p), replies);
}

/// The shell token that is obtained is the primary duplicate of the shell's own token.
pub proof fn law_shell_token(replies: Seq<Reply>, token: Token)
    requires
        conforms(Progress::Pending(ShellProcess::FindWindow), replies),
        run(Progress::Pending(ShellProcess::FindWindow), replies) == Progress::<
            ShellProcess,
            Token,
        >::Finished(Ok(token)),
    ensures
        replies.len() == 7,
        token.token == replies[4]->Opened_handle,
        forall|i: int|
            0 <= i < replies.len() ==> (#[trigger] history(
                Progress::Pending(ShellProcess::FindWindow),
                replies,
            )[i]).call == shell_call(replies, i),
{
    let p = ShellProcess::FindWindow;
    lemma_stages(Progress::Pending(p), replies);
    law_every_run_ends(p, replies);
    lemma_first_stages(Progress::Pending(p), replies);
    law_failed_call_decides(p, replies);
    assert forall|i: int| 0 <= i < replies.len() implies (#[trigger] history(
        Progress::Pending(p),
        replies,
    )[i]).call == shell_call(replies, i) by {
        law_shell_process_asks(replies, i);
    }
}

/// There is no shell to take a token from exactly when there is no shell window; nothing
/// else is then asked.
pub proof fn law_no_shell(replies: Seq<Reply>)
    requires
        conforms(Progress::Pending(ShellProcess::FindWindow), replies),
    ensures
        run(Progress::Pending(ShellProcess::FindWindow), replies) == Progress::<
            ShellProcess,
            Token,
        >::Finished(Err(TokenError::NoShellWindow)) <==> replies.len() > 0
            && replies[0]->Window_window == NULL,
        replies.len() > 0 && replies[0]->Window_window == NULL ==> replies.len() == 1,
{
    let p = ShellProcess::FindWindow;
    lemma_stages(Progress::Pending(p), replies);
    law_every_run_ends(p, replies);
    lemma_first_stages(Progress::Pending(p), replies);
}

/// The safer token that is obtained is the one that was computed, and the label of medium
/// integrity was put on it with success.
pub proof fn law_safer_token(token: Token, replies: Seq<Reply>, safer: Token)
    requires
        conforms(Progress::Pending(SaferToken::CreateLevel { token: token.token }), replies),
        run(Progress::Pending(SaferToken::CreateLevel { token: token.token }), replies)
            == Progress::<SaferToken, Token>::Finished(Ok(safer)),
    ensures
        replies.len() == 6,
        safer.token == replies[1]->Opened_handle,
        replies[4]->Status_res == 1,
        forall|i: int|
            0 <= i < replies.len() ==> (#[trigger] history(
                Progress::Pending(SaferToken::CreateLevel { token: token.token }),
                replies,
            )[i]).call == safer_call(token, replies, i),
{
    let p = SaferToken::CreateLevel { token: token.token };
    lemma_stages(Progress::Pending(p), replies);
    law_every_run_ends(p, replies);
    lemma_first_stages(Progress::Pending(p), replies);
    law_failed_call_decides(p, replies);
    assert forall|i: int| 0 <= i < replies.len() implies (#[trigger] history(
        Progress::Pending(p),
        replies,
    )[i]).call == safer_call(token, replies, i) by {
        law_safer_token_asks(token, replies, i);
    }
}

/// An elevated token is known by its elevation type alone. A token whose label is not high
/// is known by that, and its membership is not asked for. Only a member of the builtin
/// administrators with high integrity is found to be one.
pub proof fn law_privilege_level_replies(token: Token, replies: Seq<Reply>, level: PrivilegeLevel)
    requires
        conforms(Progress::Pending(token.privilege_query()), replies),
        run(Progress::Pending(token.privilege_query()), replies) == Progress::<
            PrivilegeQuery,
            PrivilegeLevel,
        >::Finished(Ok(level)),
    ensures
        replies.len() == 1 || replies.len() == 4 || replies.len() == 8,
        replies.len() == 1 <==> level == PrivilegeLevel::Elevated,
        replies.len() == 1 <==> le_value(replies[0]->Information_data@)
            == TOKEN_ELEVATION_TYPE_FULL,
        replies.len() == 4 ==> level == PrivilegeLevel::NotPrivileged
            && !replies[3]->Match_matches,
        replies.len() == 8 ==> replies[3]->Match_matches,
        replies.len() == 8 ==> level == if replies[6]->Membership_is_member == 1 {
            PrivilegeLevel::HighIntegrityAdmin
        } else {
            PrivilegeLevel::NotPrivileged
        },
{
    let p = token.privilege_query();
    lemma_le_value_fits(replies[0]->Information_data@);
    lemma_stages(Progress::Pending(p), replies);
    law_every_run_ends(p, replies);
    lemma_first_stages(Progress::Pending(p), replies);
}

/// The run put the label of medium integrity on `token`, and the system said that it did: the
/// SID of that label was made in the run itself.
pub open spec fn labelled_medium(history: Seq<Exchange>, token: Token) -> bool {
    exists|i: int, j: int|
        #![trigger history[i], history[j]]
        {
            &&& 0 <= i < j < history.len()
            &&& history[i].call == (Call::<Seq<u8>>::CreateWellKnownSid {
                kind: WIN_MEDIUM_LABEL_SID,
            })
            &&& history[i].reply matches Reply::Sid { sid: Ok(made) }
            &&& history[j].call matches Call::SetTokenInformation {
                token: labelled,
                class,
                attributes,
                sid,
                ..
            }
            &&& labelled == token.token
            &&& class == TOKEN_INTEGRITY_LEVEL
            &&& attributes == SE_GROUP_INTEGRITY
            &&& sid == made@
            &&& history[j].failed() is None
        }
}

/// The safer token that is obtained has been given the label of medium integrity.
pub proof fn law_safer_token_is_labelled(token: Token, made: Seq<Reply>, safer: Token)
    requires
        conforms(Progress::Pending(SaferToken::CreateLevel { token: token.token }), made),
        run(Progress::Pending(SaferToken::CreateLevel { token: token.token }), made)
            == Progress::<SaferToken, Token>::Finished(Ok(safer)),
    ensures
        labelled_medium(
            history(Progress::Pending(SaferToken::CreateLevel { token: token.token }), made),
            safer,
        ),
{
    let p = SaferToken::CreateLevel { token: token.token };
    let h = history(Progress::Pending(p), made);
    law_safer_token(token, made, safer);
    law_failed_call_decides(p, made);
    lemma_history_len(Progress::Pending(p), made);
    law_safer_token_asks(token, made, 2);
    law_safer_token_asks(token, made, 4);
    assert(h[2].failed() is None);
    assert(h[2].reply == made[2]);
    lemma_stages(Progress::Pending(p), made);
    lemma_first_stages(Progress::Pending(p), made);
    assert(h[4].failed() is None);
}

/// Whatever the token was that a safer token is built from, the safer token never shows as a
/// high integrity administrator, and shows as not privileged unless it is the elevated half
/// of a pair; given that the system keeps the label of medium integrity that was put on it.
pub proof fn law_safer_token_is_not_privileged(
    token: Token,
    made: Seq<Reply>,
    safer: Token,
    asked: Seq<Reply>,
    facts: TokenFacts,
    level: PrivilegeLevel,
)
    requires
        conforms(Progress::Pending(SaferToken::CreateLevel { token: token.token }), made),
        run(Progress::Pending(SaferToken::CreateLevel { token: token.token }), made)
            == Progress::<SaferToken, Token>::Finished(Ok(safer)),
        conforms(Progress::Pending(safer.privilege_query()), asked),
        run(Progress::Pending(safer.privilege_query()), asked) == Progress::<
            PrivilegeQuery,
            PrivilegeLevel,
        >::Finished(Ok(level)),
        forall|i: int|
            0 <= i < asked.len() ==> truthful(
                #[trigger] history(Progress::Pending(safer.privilege_query()), asked)[i],
                facts,
            ),
        labelled_medium(
            history(Progress::Pending(SaferToken::CreateLevel { token: token.token }), made),
            safer,
        ) ==> !facts.high,
    ensures
        level != PrivilegeLevel::HighIntegrityAdmin,
        facts.elevation != TOKEN_ELEVATION_TYPE_FULL ==> level == PrivilegeLevel::NotPrivileged,
{
    law_safer_token_is_labelled(token, made, safer);
    lemma_level_is_true(safer.privilege_query(), asked, facts);
}

/// Whatever the token was that a safer token is built from, the label of the safer token is
/// not the one of high integrity; given that the system keeps the label of medium integrity
/// that was put on it, and tells the truth about the label that it hands out.
pub proof fn law_safer_token_is_not_high(
    token: Token,
    made: Seq<Reply>,
    safer: Token,
    asked: Seq<Reply>,
    label: TokenIntegrityLevel,
    checked: Seq<Reply>,
    facts: TokenFacts,
    high: bool,
)
    requires
        conforms(Progress::Pending(SaferToken::CreateLevel { token: token.token }), made),
        run(Progress::Pending(SaferToken::CreateLevel { token: token.token }), made)
            == Progress::<SaferToken, Token>::Finished(Ok(safer)),
        conforms(Progress::Pending(IntegrityQuery::Size { token: safer.token }), asked),
        run(Progress::Pending(IntegrityQuery::Size { token: safer.token }), asked)
            == Progress::<IntegrityQuery, TokenIntegrityLevel>::Finished(Ok(label)),
        conforms(Progress::Pending(HighCheck { label }), checked),
        run(Progress::Pending(HighCheck { label }), checked) == Progress::<
            HighCheck,
            bool,
        >::Finished(Ok(high)),
        forall|i: int|
            0 <= i < checked.len() ==> truthful(
                #[trigger] history(Progress::Pending(HighCheck { label }), checked)[i],
                facts,
            ),
        labelled_medium(
            history(Progress::Pending(SaferToken::CreateLevel { token: token.token }), made),
            safer,
        ) ==> !facts.high,
    ensures
        label.well_formed(),
        label.data == asked[1]->Information_data,
        !high,
{
    law_safer_token_is_labelled(token, made, safer);
    let q = IntegrityQuery::Size { token: safer.token };
    lemma_stages(Progress::Pending(q), asked);
    law_every_run_ends(q, asked);
    lemma_first_stages(Progress::Pending(q), asked);
    let c = HighCheck { label };
    lemma_stages(Progress::Pending(c), checked);
    law_every_run_ends(c, checked);
    lemma_first_stages(Progress::Pending(c), checked);
    assert(truthful(history(Progress::Pending(c), checked)[0], facts));
}

/// The call that setting the label of medium integrity makes when `i` calls have succeeded.
pub open spec fn set_medium_call(token: Token, replies: Seq<Reply>, i: int) -> Call<Seq<u8>> {
    if i == 0 {
        Call::CreateWellKnownSid { kind: WIN_MEDIUM_LABEL_SID }
    } else if i == 1 {
        Call::GetLengthSid { sid: replies[0]->Sid_sid->Ok_0@ }
    } else {
        Call::SetTokenInformation {
            token: token.token,
            class: TOKEN_INTEGRITY_LEVEL,
            attributes: SE_GROUP_INTEGRITY,
            sid: replies[0]->Sid_sid->Ok_0@,
            length: (label_width() + replies[1]->Length_length) as u32,
        }
    }
}

/// Setting the label of medium integrity makes the SID of that label, measures it, and then
/// asks for the label to be put on the token itself, each if what came before did not fail.
pub proof fn law_set_medium_integrity_asks(token: Token, replies: Seq<Reply>, i: int)
    requires
        conforms(Progress::Pending(SetMediumIntegrity::MakeSid { token: token.token }), replies),
        0 <= i < replies.len(),
        forall|j: int|
            0 <= j < i ==> (#[trigger] history(
                Progress::Pending(SetMediumIntegrity::MakeSid { token: token.token }),
                replies,
            )[j]).failed() is None,
    ensures
        i < 3,
        history(
            Progress::Pending(SetMediumIntegrity::MakeSid { token: token.token }),
            replies,
        )[i].call == set_medium_call(token, replies, i),
{
    let p = SetMediumIntegrity::MakeSid { token: token.token };
    lemma_stages(Progress::Pending(p), replies);
    law_every_run_ends(p, replies);
    lemma_first_stages(Progress::Pending(p), replies);
}

/// The SID of the label that the calls leave on `token`, if nothing else labels it: that of
/// the last label that was put on it with success, or `before` where none was.
pub open spec fn label_left(history: Seq<Exchange>, token: Token, before: Seq<u8>) -> Seq<u8>
    decreases history.len(),
{
    if history.len() == 0 {
        before
    } else {
        let earlier = label_left(history.drop_last(), token, before);
        match history.last().call {
            Call::SetTokenInformation { token: labelled, class, sid, .. } => {
                if labelled == token.token && class == TOKEN_INTEGRITY_LEVEL
                    && history.last().failed() is None {
                    sid
                } else {
                    earlier
                }
            },
            _ => earlier,
        }
    }
}

/// Where the label of medium integrity was set, the three calls for it were made of this very
/// token, none of them closed anything, and what is left on the token is the SID that was
/// made.
pub proof fn law_set_medium_integrity(token: Token, replies: Seq<Reply>, before: Seq<u8>)
    requires
        conforms(Progress::Pending(SetMediumIntegrity::MakeSid { token: token.token }), replies),
        run(Progress::Pending(SetMediumIntegrity::MakeSid { token: token.token }), replies)
            == Progress::<SetMediumIntegrity, ()>::Finished(Ok(())),
    ensures
        replies.len() == 3,
        replies[0]->Sid_sid is Ok,
        replies[2]->Status_res == 1,
        history(
            Progress::Pending(SetMediumIntegrity::MakeSid { token: token.token }),
            replies,
        ).len() == 3,
        forall|i: int|
            0 <= i < 3 ==> (#[trigger] history(
                Progress::Pending(SetMediumIntegrity::MakeSid { token: token.token }),
                replies,
            )[i]).call == set_medium_call(token, replies, i),
        forall|i: int|
            0 <= i < 3 ==> !is_release(
                (#[trigger] history(
                    Progress::Pending(SetMediumIntegrity::MakeSid { token: token.token }),
                    replies,
                )[i]).call,
            ),
        label_left(
            history(
                Progress::Pending(SetMediumIntegrity::MakeSid { token: token.token }),
                replies,
            ),
            token,
            before,
        ) == replies[0]->Sid_sid->Ok_0@,
{
    let p = SetMediumIntegrity::MakeSid { token: token.token };
    let h = history(Progress::Pending(p), replies);
    lemma_stages(Progress::Pending(p), replies);
    law_every_run_ends(p, replies);
    lemma_first_stages(Progress::Pending(p), replies);
    law_failed_call_decides(p, replies);
    assert forall|i: int| 0 <= i < 3 implies (#[trigger] h[i]).call == set_medium_call(
        token,
        replies,
        i,
    ) by {
        law_set_medium_integrity_asks(token, replies, i);
    }
    assert(h.last() == h[2]);
}

/// To set the label of medium integrity again changes nothing, given that the system makes
/// the same SID again: the label after the second time is the one after the first. Where the
/// SID measures the same too, the very same calls are made. The token is not closed.
pub proof fn law_set_medium_integrity_twice(
    token: Token,
    first: Seq<Reply>,
    second: Seq<Reply>,
    before: Seq<u8>,
)
    requires
        conforms(Progress::Pending(SetMediumIntegrity::MakeSid { token: token.token }), first),
        run(Progress::Pending(SetMediumIntegrity::MakeSid { token: token.token }), first)
            == Progress::<SetMediumIntegrity, ()>::Finished(Ok(())),
        conforms(Progress::Pending(SetMediumIntegrity::MakeSid { token: token.token }), second),
        run(Progress::Pending(SetMediumIntegrity::MakeSid { token: token.token }), second)
            == Progress::<SetMediumIntegrity, ()>::Finished(Ok(())),
        first[0]->Sid_sid->Ok_0@ == second[0]->Sid_sid->Ok_0@,
    ensures
        ({
            let p = SetMediumIntegrity::MakeSid { token: token.token };
            let once = history(Progress::Pending(p), first);
            let again = history(Progress::Pending(p), second);
            &&& label_left(once + again, token, before) == label_left(once, token, before)
            &&& once.len() == again.len()
            &&& first[1]->Length_length == second[1]->Length_length ==> forall|i: int|
                #![trigger once[i]]
                #![trigger again[i]]
                0 <= i < once.len() ==> once[i].call == again[i].call
            &&& forall|i: int|
                0 <= i < once.len() + again.len() ==> !is_release(
                    (#[trigger] (once + again)[i]).call,
                )
        }),
{
    let p = SetMediumIntegrity::MakeSid { token: token.token };
    let once = history(Progress::Pending(p), first);
    let again = history(Progress::Pending(p), second);
    law_set_medium_integrity(token, first, before);
    law_set_medium_integrity(token, second, before);
    law_failed_call_decides(p, second);
    assert((once + again).last() == again[2]);
    assert(again.last() == again[2]);
    assert(again[2].call == set_medium_call(token, second, 2));
    lemma_history_len(Progress::Pending(p), second);
    assert(again[2].failed() is None);
}

/// None of the calls closes `token` or puts a label on it.
pub open spec fn leaves_alone(history: Seq<Exchange>, token: Token) -> bool {
    forall|i: int|
        0 <= i < history.len() ==> touched((#[trigger] history[i]).call) != Some(
            Resource::Handle(token.token),
        )
}

/// Calls that leave a token alone leave it the label that it had.
pub proof fn law_left_alone_keeps_its_label(history: Seq<Exchange>, token: Token, before: Seq<u8>)
    requires
        leaves_alone(history, token),
    ensures
        label_left(history, token, before) == before,
    decreases history.len(),
{
    if history.len() > 0 {
        let earlier = history.drop_last();
        assert forall|i: int| 0 <= i < earlier.len() implies touched((#[trigger] earlier[i]).call)
            != Some(Resource::Handle(token.token)) by {
            assert(earlier[i] == history[i]);
        }
        law_left_alone_keeps_its_label(earlier, token, before);
        assert(history.last() == history[history.len() - 1]);
    }
}

/// Two handles are apart: they differ, closing either closes that one only, and setting a
/// label by way of either makes no such call of the other.
pub open spec fn separate(a: Token, b: Token) -> bool {
    &&& a.token != b.token
    &&& touched(a.closing()) == Some(Resource::Handle(a.token))
    &&& touched(b.closing()) == Some(Resource::Handle(b.token))
    &&& forall|replies: Seq<Reply>| #[trigger] relabelling_leaves_alone(a, b, replies)
    &&& forall|replies: Seq<Reply>| #[trigger] relabelling_leaves_alone(b, a, replies)
}

/// With these replies, setting the label of medium integrity on `relabelled` neither closes
/// `other` nor asks for a label on it.
pub open spec fn relabelling_leaves_alone(
    relabelled: Token,
    other: Token,
    replies: Seq<Reply>,
) -> bool {
    let p = SetMediumIntegrity::MakeSid { token: relabelled.token };
    conforms(Progress::Pending(p), replies) ==> leaves_alone(
        history(Progress::Pending(p), replies),
        other,
    )
}

/// With these replies, setting the label of medium integrity on `relabelled` leaves on `other`
/// the label that it had `before`.
pub open spec fn relabelling_keeps_label(
    relabelled: Token,
    other: Token,
    replies: Seq<Reply>,
    before: Seq<u8>,
) -> bool {
    let p = SetMediumIntegrity::MakeSid { token: relabelled.token };
    conforms(Progress::Pending(p), replies) ==> label_left(
        history(Progress::Pending(p), replies),
        other,
        before,
    ) == before
}

/// Tokens with different handles are apart.
pub proof fn law_different_handles_are_separate(a: Token, b: Token)
    requires
        a.token != b.token,
    ensures
        separate(a, b),
{
    assert forall|replies: Seq<Reply>| #[trigger] relabelling_leaves_alone(a, b, replies) by {
        lemma_relabels_only_its_own(a, b, replies);
    }
    assert forall|replies: Seq<Reply>| #[trigger] relabelling_leaves_alone(b, a, replies) by {
        lemma_relabels_only_its_own(b, a, replies);
    }
}

/// Setting the label of a token leaves every other handle alone.
proof fn lemma_relabels_only_its_own(relabelled: Token, other: Token, replies: Seq<Reply>)
    requires
        other.token != relabelled.token,
    ensures
        relabelling_leaves_alone(relabelled, other, replies),
{
    let p = SetMediumIntegrity::MakeSid { token: relabelled.token };
    if conforms(Progress::Pending(p), replies) {
        let h = history(Progress::Pending(p), replies);
        lemma_stages(Progress::Pending(p), replies);
        law_every_run_ends(p, replies);
        lemma_first_stages(Progress::Pending(p), replies);
        assert forall|j: int| 0 <= j < replies.len() implies acquired(
            (#[trigger] h[j]).call,
            h[j].reply,
        ).count(Resource::Handle(other.token)) == 0 by {
            assert(j == 0 || j == 1 || j == 2);
        }
        law_open_handle_is_left_alone(p, replies, other.token);
    }
}

/// The label of a token stays as it was when that of another token is set.
proof fn lemma_other_label_is_kept(
    relabelled: Token,
    other: Token,
    replies: Seq<Reply>,
    before: Seq<u8>,
)
    requires
        other.token != relabelled.token,
    ensures
        relabelling_keeps_label(relabelled, other, replies, before),
{
    let p = SetMediumIntegrity::MakeSid { token: relabelled.token };
    if conforms(Progress::Pending(p), replies) {
        lemma_relabels_only_its_own(relabelled, other, replies);
        law_left_alone_keeps_its_label(history(Progress::Pending(p), replies), other, before);
    }
}

/// A token and its duplicate are two tokens, apart from each other: closing either leaves the
/// other open, setting the label of either leaves the other its label, and duplicating leaves
/// the token alone; given that the system hands out no handle that is open.
pub proof fn law_duplicate_is_separate(token: Token, kind: u32, made: Seq<Reply>, copy: Token)
    requires
        conforms(Progress::Pending(Duplicate { token: token.token, kind }), made),
        run(Progress::Pending(Duplicate { token: token.token, kind }), made) == Progress::<
            Duplicate,
            Token,
        >::Finished(Ok(copy)),
        !acquired_within(
            history(Progress::Pending(Duplicate { token: token.token, kind }), made),
            made.len() as int,
            Resource::Handle(token.token),
        ),
    ensures
        leaves_alone(
            history(Progress::Pending(Duplicate { token: token.token, kind }), made),
            token,
        ),
        separate(token, copy),
        forall|replies: Seq<Reply>, before: Seq<u8>| #[trigger]
            relabelling_keeps_label(copy, token, replies, before),
        forall|replies: Seq<Reply>, before: Seq<u8>| #[trigger]
            relabelling_keeps_label(token, copy, replies, before),
{
    let p = Duplicate { token: token.token, kind };
    let h = history(Progress::Pending(p), made);
    lemma_stages(Progress::Pending(p), made);
    law_every_run_ends(p, made);
    lemma_first_stages(Progress::Pending(p), made);
    law_open_handle_is_left_alone(p, made, token.token);
    assert(acquired(h[0].call, h[0].reply).count(Resource::Handle(copy.token)) > 0);
    law_different_handles_are_separate(token, copy);
    assert forall|replies: Seq<Reply>, before: Seq<u8>| #[trigger]
        relabelling_keeps_label(copy, token, replies, before) by {
        lemma_other_label_is_kept(copy, token, replies, before);
    }
    assert forall|replies: Seq<Reply>, before: Seq<u8>| #[trigger]
        relabelling_keeps_label(token, copy, replies, before) by {
        lemma_other_label_is_kept(token, copy, replies, before);
    }
}

/// The token of the current process, opened twice, is held by two handles apart from each
/// other, both opened for the same access: closing either leaves the other open, and opening
/// the second leaves the first alone; given that the system hands out no handle that is open.
///
/// It is one token all the same, so a label that is set by way of either is its label.
pub proof fn law_current_process_tokens_are_separate(
    made_a: Seq<Reply>,
    a: Token,
    made_b: Seq<Reply>,
    b: Token,
)
    requires
        conforms(Progress::Pending(CurrentProcess), made_a),
        run(Progress::Pending(CurrentProcess), made_a) == Progress::<
            CurrentProcess,
            Token,
        >::Finished(Ok(a)),
        conforms(Progress::Pending(CurrentProcess), made_b),
        run(Progress::Pending(CurrentProcess), made_b) == Progress::<
            CurrentProcess,
            Token,
        >::Finished(Ok(b)),
        !acquired_within(
            history(Progress::Pending(CurrentProcess), made_b),
            made_b.len() as int,
            Resource::Handle(a.token),
        ),
    ensures
        history(Progress::Pending(CurrentProcess), made_a)[0].call == history(
            Progress::Pending(CurrentProcess),
            made_b,
        )[0].call,
        leaves_alone(history(Progress::Pending(CurrentProcess), made_b), a),
        separate(a, b),
{
    let p = CurrentProcess;
    let h = history(Progress::Pending(p), made_b);
    lemma_stages(Progress::Pending(p), made_a);
    law_every_run_ends(p, made_a);
    lemma_first_stages(Progress::Pending(p), made_a);
    lemma_stages(Progress::Pending(p), made_b);
    law_every_run_ends(p, made_b);
    lemma_first_stages(Progress::Pending(p), made_b);
    law_open_handle_is_left_alone(p, made_b, a.token);
    assert(acquired(h[0].call, h[0].reply).count(Resource::Handle(b.token)) > 0);
    law_different_handles_are_separate(a, b);
}

/// A duplicate can be used for whatever the token of the current process can: all that was
/// asked for on the one is asked for on the other. Either lets the token be queried and be
/// duplicated, which finding its privilege level takes.
pub proof fn law_access_masks()
    ensures
        CURRENT_PROCESS_TOKEN_ACCESS == 0x000e,
        DUPLICATE_TOKEN_ACCESS == 0x018f,
        DUPLICATE_TOKEN_ACCESS & CURRENT_PROCESS_TOKEN_ACCESS == CURRENT_PROCESS_TOKEN_ACCESS,
        CURRENT_PROCESS_TOKEN_ACCESS & TOKEN_QUERY == TOKEN_QUERY,
        CURRENT_PROCESS_TOKEN_ACCESS & TOKEN_DUPLICATE == TOKEN_DUPLICATE,
        CURRENT_PROCESS_TOKEN_ACCESS & TOKEN_IMPERSONATE == TOKEN_IMPERSONATE,
{
    assert(0x0008u32 | 0x0002u32 | 0x0004u32 == 0x000eu32) by (bit_vector);
    assert(0x0100u32 | 0x0080u32 | 0x0001u32 | 0x0004u32 | 0x0002u32 | 0x0008u32 == 0x018fu32)
        by (bit_vector);
    assert(0x018fu32 & 0x000eu32 == 0x000eu32) by (bit_vector);
    assert(0x000eu32 & 0x0008u32 == 0x0008u32) by (bit_vector);
    assert(0x000eu32 & 0x0002u32 == 0x0002u32) by (bit_vector);
    assert(0x000eu32 & 0x0004u32 == 0x0004u32) by (bit_vector);
}

} // verus!
