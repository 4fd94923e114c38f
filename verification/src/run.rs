//! Whole runs of a procedure, and what holds of every one of them.

use crate::call::{answers, failure, Call, Reply};
use crate::error::TokenError;
use crate::procedure::{acquired, fresh, is_release, released, Procedure, Progress, Resource};
use vstd::multiset::Multiset;
use vstd::prelude::*;

verus! {

/// A call that was made, and the reply to it.
pub ghost struct Exchange {
    pub call: Call<Seq<u8>>,
    pub reply: Reply,
}

impl Exchange {
    /// The error that the reply reports.
    pub open spec fn failed(self) -> Option<TokenError> {
        failure(self.call, self.reply)
    }
}

/// Each of `replies` is one that the call it comes to can bring back, and none comes after
/// the end.
pub open spec fn conforms<P: Procedure>(
    start: Progress<P, P::Output>,
    replies: Seq<Reply>,
) -> bool
    decreases replies.len(),
{
    replies.len() == 0 || match start {
        Progress::Pending(p) => answers(p.pending(), replies.first()) && conforms(
            p.after(replies.first()),
            replies.drop_first(),
        ),
        Progress::Finished(_) => false,
    }
}

/// How far `replies` take the procedure.
pub open spec fn run<P: Procedure>(
    start: Progress<P, P::Output>,
    replies: Seq<Reply>,
) -> Progress<P, P::Output>
    decreases replies.len(),
{
    if replies.len() == 0 {
        start
    } else {
        match start {
            Progress::Pending(p) => run(p.after(replies.first()), replies.drop_first()),
            Progress::Finished(_) => start,
        }
    }
}

/// The calls that are made on the way, each with its reply.
pub open spec fn history<P: Procedure>(
    start: Progress<P, P::Output>,
    replies: Seq<Reply>,
) -> Seq<Exchange>
    decreases replies.len(),
{
    if replies.len() == 0 {
        seq![]
    } else {
        match start {
            Progress::Pending(p) => seq![
                Exchange { call: p.pending(), reply: replies.first() },
            ] + history(p.after(replies.first()), replies.drop_first()),
            Progress::Finished(_) => seq![],
        }
    }
}

/// All that was put in the procedure's hands.
pub open spec fn all_acquired(history: Seq<Exchange>) -> Multiset<Resource>
    decreases history.len(),
{
    if history.len() == 0 {
        Multiset::empty()
    } else {
        acquired(history.first().call, history.first().reply).add(
            all_acquired(history.drop_first()),
        )
    }
}

/// All that was given back.
pub open spec fn all_released(history: Seq<Exchange>) -> Multiset<Resource>
    decreases history.len(),
{
    if history.len() == 0 {
        Multiset::empty()
    } else {
        released(history.first().call).add(all_released(history.drop_first()))
    }
}

/// The first exchange of a run, and the rest.
pub proof fn lemma_history_parts<P: Procedure>(p: P, replies: Seq<Reply>)
    requires
        replies.len() > 0,
    ensures
        conforms(Progress::Pending(p), replies) ==> answers(p.pending(), replies.first())
            && conforms(p.after(replies.first()), replies.drop_first()),
        history(Progress::Pending(p), replies).len() > 0,
        history(Progress::Pending(p), replies).first() == (Exchange {
            call: p.pending(),
            reply: replies.first(),
        }),
        history(Progress::Pending(p), replies).drop_first() == history(
            p.after(replies.first()),
            replies.drop_first(),
        ),
        run(Progress::Pending(p), replies) == run(
            p.after(replies.first()),
            replies.drop_first(),
        ),
        forall|i: int|
            0 < i < history(Progress::Pending(p), replies).len() ==> (
            #[trigger] history(Progress::Pending(p), replies)[i]) == history(
                p.after(replies.first()),
                replies.drop_first(),
            )[i - 1],
{
    let rest = history(p.after(replies.first()), replies.drop_first());
    assert(history(Progress::Pending(p), replies).drop_first() =~= rest);
}

/// A run has one exchange for each reply.
pub proof fn lemma_history_len<P: Procedure>(start: Progress<P, P::Output>, replies: Seq<Reply>)
    requires
        conforms(start, replies),
    ensures
        history(start, replies).len() == replies.len(),
        forall|i: int|
            0 <= i < replies.len() ==> (#[trigger] history(start, replies)[i]).reply
                == replies[i],
    decreases replies.len(),
{
    if replies.len() > 0 {
        let p = start->Pending_0;
        lemma_history_parts(p, replies);
        lemma_history_len(p.after(replies.first()), replies.drop_first());
        assert forall|i: int| 0 <= i < replies.len() implies (#[trigger] history(
            start,
            replies,
        )[i]).reply == replies[i] by {
            if i > 0 {
                assert(replies.drop_first()[i - 1] == replies[i]);
            }
        }
    }
}

/// Where `reply` takes the procedure from where it is.
pub open spec fn advance<P: Procedure>(
    progress: Progress<P, P::Output>,
    reply: Reply,
) -> Progress<P, P::Output> {
    match progress {
        Progress::Pending(p) => p.after(reply),
        Progress::Finished(_) => progress,
    }
}

/// How far the first `k` of `replies` take the procedure.
pub open spec fn stage<P: Procedure>(
    start: Progress<P, P::Output>,
    replies: Seq<Reply>,
    k: nat,
) -> Progress<P, P::Output>
    decreases k,
{
    if k == 0 {
        start
    } else {
        advance(stage(start, replies, (k - 1) as nat), replies[k - 1])
    }
}

/// What comes after the first reply does not depend on where one began.
proof fn lemma_stage_shift<P: Procedure>(p: P, replies: Seq<Reply>, k: nat)
    requires
        0 < k <= replies.len(),
    ensures
        stage(Progress::Pending(p), replies, k) == stage(
            p.after(replies.first()),
            replies.drop_first(),
            (k - 1) as nat,
        ),
    decreases k,
{
    reveal_with_fuel(stage, 2);
    if k > 1 {
        lemma_stage_shift(p, replies, (k - 1) as nat);
        assert(replies.drop_first()[k - 2] == replies[k - 1]);
    }
}

/// A run goes through its stages: at each of them the call is made that is pending there.
pub proof fn lemma_stages<P: Procedure>(start: Progress<P, P::Output>, replies: Seq<Reply>)
    requires
        conforms(start, replies),
    ensures
        run(start, replies) == stage(start, replies, replies.len()),
        history(start, replies).len() == replies.len(),
        forall|k: nat|
            k < replies.len() ==> {
                &&& #[trigger] stage(start, replies, k) is Pending
                &&& answers(stage(start, replies, k)->Pending_0.pending(), replies[k as int])
                &&& history(start, replies)[k as int] == (Exchange {
                    call: stage(start, replies, k)->Pending_0.pending(),
                    reply: replies[k as int],
                })
            },
    decreases replies.len(),
{
    if replies.len() > 0 {
        let p = start->Pending_0;
        let next = p.after(replies.first());
        let rest = replies.drop_first();
        lemma_history_parts(p, replies);
        lemma_history_len(start, replies);
        lemma_stages(next, rest);
        lemma_stage_shift(p, replies, replies.len());
        assert forall|k: nat| k < replies.len() implies {
            &&& #[trigger] stage(start, replies, k) is Pending
            &&& answers(stage(start, replies, k)->Pending_0.pending(), replies[k as int])
            &&& history(start, replies)[k as int] == (Exchange {
                call: stage(start, replies, k)->Pending_0.pending(),
                reply: replies[k as int],
            })
        } by {
            if k > 0 {
                lemma_stage_shift(p, replies, k);
                assert(rest[k - 1] == replies[k as int]);
                assert(stage(next, rest, (k - 1) as nat) is Pending);
            }
        }
    }
}

/// Where every reply answers the call of its stage, the replies conform.
pub proof fn lemma_stages_conform<P: Procedure>(start: Progress<P, P::Output>, replies: Seq<Reply>)
    requires
        forall|k: nat|
            k < replies.len() ==> #[trigger] stage(start, replies, k) is Pending && answers(
                stage(start, replies, k)->Pending_0.pending(),
                replies[k as int],
            ),
    ensures
        conforms(start, replies),
    decreases replies.len(),
{
    if replies.len() > 0 {
        assert(stage(start, replies, 0) is Pending);
        let p = start->Pending_0;
        let next = p.after(replies.first());
        let rest = replies.drop_first();
        assert forall|k: nat| k < rest.len() implies #[trigger] stage(next, rest, k) is Pending
            && answers(stage(next, rest, k)->Pending_0.pending(), rest[k as int]) by {
            lemma_stage_shift(p, replies, (k + 1) as nat);
            assert(stage(start, replies, (k + 1) as nat) is Pending);
            assert(rest[k as int] == replies[(k + 1) as int]);
        }
        lemma_stages_conform(next, rest);
    }
}

/// The first stages, one by one.
pub proof fn lemma_first_stages<P: Procedure>(start: Progress<P, P::Output>, replies: Seq<Reply>)
    ensures
        stage(start, replies, 0) == start,
        stage(start, replies, 1) == advance(start, replies[0]),
        stage(start, replies, 2) == advance(stage(start, replies, 1), replies[1]),
        stage(start, replies, 3) == advance(stage(start, replies, 2), replies[2]),
        stage(start, replies, 4) == advance(stage(start, replies, 3), replies[3]),
        stage(start, replies, 5) == advance(stage(start, replies, 4), replies[4]),
        stage(start, replies, 6) == advance(stage(start, replies, 5), replies[5]),
        stage(start, replies, 7) == advance(stage(start, replies, 6), replies[6]),
        stage(start, replies, 8) == advance(stage(start, replies, 7), replies[7]),
{
}

/// Every procedure comes to its end, whatever the system answers: it makes no more calls
/// than it announced, and when it has made them all it is finished.
pub proof fn law_every_run_ends<P: Procedure>(p: P, replies: Seq<Reply>)
    requires
        p.well_formed(),
        conforms(Progress::Pending(p), replies),
    ensures
        replies.len() <= p.calls_left(),
        replies.len() == p.calls_left() ==> run(Progress::Pending(p), replies) is Finished,
    decreases replies.len(),
{
    p.under_way();
    if replies.len() > 0 {
        lemma_history_parts(p, replies);
        p.step(replies.first());
        match p.after(replies.first()) {
            Progress::Pending(next) => law_every_run_ends(next, replies.drop_first()),
            Progress::Finished(_) => {
                assert(replies.drop_first().len() == 0);
            },
        }
    }
}

/// Nothing leaks and nothing is given back twice: at the end, what was held at the start and
/// what was acquired on the way is what was given back and what passes to the caller. Before
/// the end, it is what was given back and what is still held.
pub proof fn law_nothing_leaks<P: Procedure>(p: P, replies: Seq<Reply>)
    requires
        p.well_formed(),
        conforms(Progress::Pending(p), replies),
    ensures
        p.held().add(all_acquired(history(Progress::Pending(p), replies))) == all_released(
            history(Progress::Pending(p), replies),
        ).add(
            match run(Progress::Pending(p), replies) {
                Progress::Pending(q) => q.held(),
                Progress::Finished(outcome) => P::handed_over(outcome),
            },
        ),
    decreases replies.len(),
{
    let h = history(Progress::Pending(p), replies);
    let left = match run(Progress::Pending(p), replies) {
        Progress::Pending(q) => q.held(),
        Progress::Finished(outcome) => P::handed_over(outcome),
    };
    if replies.len() > 0 {
        let first = replies.first();
        let rest = history(p.after(first), replies.drop_first());
        lemma_history_parts(p, replies);
        p.step(first);
        assert(all_acquired(h) == acquired(p.pending(), first).add(all_acquired(rest)));
        assert(all_released(h) == released(p.pending()).add(all_released(rest)));
        match p.after(first) {
            Progress::Pending(next) => {
                law_nothing_leaks(next, replies.drop_first());
                assert(p.held().add(all_acquired(h)) =~= p.held().add(
                    acquired(p.pending(), first),
                ).add(all_acquired(rest)));
                assert(all_released(h).add(left) =~= released(p.pending()).add(
                    all_released(rest).add(left),
                ));
                assert(next.held().add(released(p.pending())).add(all_acquired(rest))
                    =~= released(p.pending()).add(next.held().add(all_acquired(rest))));
            },
            Progress::Finished(_) => {
                assert(replies.drop_first().len() == 0);
                assert(p.held().add(all_acquired(h)) =~= p.held().add(
                    acquired(p.pending(), first),
                ));
                assert(all_released(h).add(left) =~= left.add(released(p.pending())));
            },
        }
    } else {
        assert(p.held().add(all_acquired(h)) =~= all_released(h).add(left));
    }
}

/// An operation gives back everything that it acquired, but for what it ends with, which
/// passes to the caller; this whether it succeeds or fails.
pub proof fn law_operation_balances<P: Procedure>(
    p: P,
    replies: Seq<Reply>,
    outcome: Result<P::Output, TokenError>,
)
    requires
        fresh(p),
        conforms(Progress::Pending(p), replies),
        run(Progress::Pending(p), replies) == Progress::<P, P::Output>::Finished(outcome),
    ensures
        all_acquired(history(Progress::Pending(p), replies)) == all_released(
            history(Progress::Pending(p), replies),
        ).add(P::handed_over(outcome)),
{
    law_nothing_leaks(p, replies);
    let gained = all_acquired(history(Progress::Pending(p), replies));
    assert(p.held().add(gained) =~= gained);
}

/// A procedure gives back only what it holds itself, so never the token that it was asked
/// about, unless it acquired a handle of that very value too.
pub proof fn law_only_held_is_released<P: Procedure>(p: P)
    requires
        p.well_formed(),
    ensures
        released(p.pending()).subset_of(p.held()),
{
    if is_release(p.pending()) {
        let reply = Reply::Closed;
        p.step(reply);
        assert(p.held().add(acquired(p.pending(), reply)) =~= p.held());
        match p.after(reply) {
            Progress::Pending(next) => {
                assert(next.held().add(released(p.pending())) == p.held());
            },
            Progress::Finished(outcome) => {
                assert(P::handed_over(outcome).add(released(p.pending())) == p.held());
            },
        }
    }
}

/// What `call` closes, or puts a label on.
pub open spec fn touched(call: Call<Seq<u8>>) -> Option<Resource> {
    match call {
        Call::CloseHandle { handle } => Some(Resource::Handle(handle)),
        Call::SaferCloseLevel { level } => Some(Resource::Level(level)),
        Call::SetTokenInformation { token, .. } => Some(Resource::Handle(token)),
        _ => None,
    }
}

/// One of the first `n` exchanges put `resource` in the procedure's hands.
pub open spec fn acquired_within(history: Seq<Exchange>, n: int, resource: Resource) -> bool {
    exists|j: int|
        0 <= j < n && acquired((#[trigger] history[j]).call, history[j].reply).count(resource) > 0
}

proof fn lemma_only_own_is_touched<P: Procedure>(
    p: P,
    replies: Seq<Reply>,
    i: int,
    resource: Resource,
)
    requires
        p.well_formed(),
        conforms(Progress::Pending(p), replies),
        0 <= i < replies.len(),
        touched(history(Progress::Pending(p), replies)[i].call) == Some(resource),
    ensures
        ({
            let h = history(Progress::Pending(p), replies);
            ||| p.held().count(resource) > 0
            ||| acquired_within(h, i, resource)
            ||| h[i].call matches Call::SetTokenInformation { token, .. } && p.relabels() == Some(
                token,
            )
        }),
    decreases replies.len(),
{
    let h = history(Progress::Pending(p), replies);
    let first = replies.first();
    lemma_history_len(Progress::Pending(p), replies);
    lemma_history_parts(p, replies);
    p.step(first);
    law_only_held_is_released(p);
    if i > 0 {
        let next = p.after(first)->Pending_0;
        let rest = replies.drop_first();
        let hr = history(Progress::Pending(next), rest);
        lemma_history_len(Progress::Pending(next), rest);
        assert(h[i] == hr[i - 1]);
        lemma_only_own_is_touched(next, rest, i - 1, resource);
        if next.held().count(resource) > 0 {
            assert(next.held().add(released(p.pending())).count(resource) > 0);
            assert(p.held().count(resource) > 0 || acquired(p.pending(), first).count(resource)
                > 0);
            assert(h[0] == (Exchange { call: p.pending(), reply: first }));
        } else if acquired_within(hr, i - 1, resource) {
            let j = choose|j: int|
                0 <= j < i - 1 && acquired((#[trigger] hr[j]).call, hr[j].reply).count(resource)
                    > 0;
            assert(h[j + 1] == hr[j]);
        }
    }
}

/// An operation closes nothing, and puts a label on nothing, that it did not itself acquire
/// before; but for setting the label of the token that it was asked to relabel.
pub proof fn law_only_own_is_touched<P: Procedure>(
    p: P,
    replies: Seq<Reply>,
    i: int,
    resource: Resource,
)
    requires
        fresh(p),
        conforms(Progress::Pending(p), replies),
        0 <= i < replies.len(),
        touched(history(Progress::Pending(p), replies)[i].call) == Some(resource),
    ensures
        acquired_within(history(Progress::Pending(p), replies), i, resource) || (history(
            Progress::Pending(p),
            replies,
        )[i].call matches Call::SetTokenInformation { token, .. } && p.relabels() == Some(token)),
{
    lemma_only_own_is_touched(p, replies, i, resource);
}

/// A handle that is already open when an operation begins is neither closed nor relabelled
/// by it, unless to relabel it is what was asked; given that the system hands out no handle
/// that is open.
pub proof fn law_open_handle_is_left_alone<P: Procedure>(p: P, replies: Seq<Reply>, handle: usize)
    requires
        fresh(p),
        conforms(Progress::Pending(p), replies),
        p.relabels() != Some(handle),
        !acquired_within(
            history(Progress::Pending(p), replies),
            replies.len() as int,
            Resource::Handle(handle),
        ),
    ensures
        forall|i: int|
            0 <= i < replies.len() ==> touched(
                (#[trigger] history(Progress::Pending(p), replies)[i]).call,
            ) != Some(Resource::Handle(handle)),
{
    let h = history(Progress::Pending(p), replies);
    assert forall|i: int| 0 <= i < replies.len() implies touched((#[trigger] h[i]).call) != Some(
        Resource::Handle(handle),
    ) by {
        if touched(h[i].call) == Some(Resource::Handle(handle)) {
            law_only_own_is_touched(p, replies, i, Resource::Handle(handle));
            let j = choose|j: int|
                0 <= j < i && acquired((#[trigger] h[j]).call, h[j].reply).count(
                    Resource::Handle(handle),
                ) > 0;
            assert(acquired_within(h, replies.len() as int, Resource::Handle(handle)));
        }
    }
}

/// Once a procedure has begun to give back, it makes no other calls, so nothing is used
/// after it was given back.
pub proof fn law_releases_come_last<P: Procedure>(p: P, replies: Seq<Reply>, i: int, j: int)
    requires
        p.well_formed(),
        conforms(Progress::Pending(p), replies),
        0 <= i <= j < replies.len(),
        is_release(history(Progress::Pending(p), replies)[i].call),
    ensures
        is_release(history(Progress::Pending(p), replies)[j].call),
    decreases replies.len(),
{
    lemma_history_len(Progress::Pending(p), replies);
    lemma_history_parts(p, replies);
    let first = replies.first();
    p.step(first);
    if i > 0 {
        law_releases_come_last(p.after(first)->Pending_0, replies.drop_first(), i - 1, j - 1);
    } else if j > 0 {
        let next = p.after(first)->Pending_0;
        lemma_history_parts(next, replies.drop_first());
        lemma_history_len(Progress::Pending(next), replies.drop_first());
        next.step(replies.drop_first().first());
        law_releases_come_last(next, replies.drop_first(), 0, j - 1);
    }
}

/// Where the outcome is decided, the run ends with it if it ends.
pub proof fn lemma_decided_stays<P: Procedure>(p: P, replies: Seq<Reply>)
    requires
        p.well_formed(),
        conforms(Progress::Pending(p), replies),
        p.decided() is Some,
    ensures
        match run(Progress::Pending(p), replies) {
            Progress::Pending(q) => q.decided() == p.decided(),
            Progress::Finished(outcome) => Some(outcome) == p.decided(),
        },
        forall|i: int|
            0 <= i < replies.len() ==> (#[trigger] history(
                Progress::Pending(p),
                replies,
            )[i]).failed() is None,
    decreases replies.len(),
{
    if replies.len() > 0 {
        let first = replies.first();
        p.step(first);
        lemma_history_parts(p, replies);
        lemma_history_len(Progress::Pending(p), replies);
        match p.after(first) {
            Progress::Pending(next) => lemma_decided_stays(next, replies.drop_first()),
            Progress::Finished(_) => {
                assert(replies.drop_first().len() == 0);
            },
        }
    }
}

/// A procedure ends with an error exactly when a call of it failed, and with the error of
/// that call; at most one call fails in a run, and only giving back comes after it.
pub proof fn law_failed_call_decides<P: Procedure>(p: P, replies: Seq<Reply>)
    requires
        p.well_formed(),
        p.decided() is None,
        conforms(Progress::Pending(p), replies),
    ensures
        forall|i: int|
            0 <= i < replies.len() ==> ((#[trigger] history(
                Progress::Pending(p),
                replies,
            )[i]).failed() matches Some(error) ==> match run(Progress::Pending(p), replies) {
                Progress::Pending(q) => q.decided() == Some(Err::<P::Output, TokenError>(error)),
                Progress::Finished(outcome) => outcome == Err::<P::Output, TokenError>(error),
            }),
        forall|i: int, j: int|
            #![trigger history(Progress::Pending(p), replies)[i], history(
                Progress::Pending(p),
                replies,
            )[j]]
            0 <= i < j < replies.len() && history(
                Progress::Pending(p),
                replies,
            )[i].failed() is Some ==> is_release(history(Progress::Pending(p), replies)[j].call)
                && history(Progress::Pending(p), replies)[j].failed() is None,
        run(Progress::Pending(p), replies) matches Progress::Finished(Err(error)) ==> exists|i: int|
            0 <= i < replies.len() && (#[trigger] history(
                Progress::Pending(p),
                replies,
            )[i]).failed() == Some(error),
    decreases replies.len(),
{
    if replies.len() > 0 {
        let h = history(Progress::Pending(p), replies);
        let first = replies.first();
        p.step(first);
        lemma_history_parts(p, replies);
        lemma_history_len(Progress::Pending(p), replies);
        match p.after(first) {
            Progress::Pending(next) => {
                let rest = replies.drop_first();
                let hr = history(Progress::Pending(next), rest);
                lemma_history_len(Progress::Pending(next), rest);
                if next.decided() is Some {
                    lemma_decided_stays(next, rest);
                    assert forall|j: int| 0 < j < replies.len() implies is_release(
                        (#[trigger] h[j]).call,
                    ) && h[j].failed() is None by {
                        assert(h[j] == hr[j - 1]);
                        lemma_history_parts(next, rest);
                        next.step(rest.first());
                        law_releases_come_last(next, rest, 0, j - 1);
                    }
                    if let Progress::Finished(Err(error)) = run(Progress::Pending(p), replies) {
                        assert(h[0].failed() == Some(error));
                    }
                } else {
                    law_failed_call_decides(next, rest);
                    if let Progress::Finished(Err(error)) = run(Progress::Pending(p), replies) {
                        let k = choose|k: int|
                            0 <= k < rest.len() && (#[trigger] hr[k]).failed() == Some(error);
                        assert(h[k + 1].failed() == Some(error));
                    }
                    assert forall|i: int, j: int|
                        #![trigger h[i], h[j]]
                        0 <= i < j < replies.len() && h[i].failed() is Some implies is_release(
                        h[j].call,
                    ) && h[j].failed() is None by {
                        assert(h[j] == hr[j - 1]);
                        if i > 0 {
                            assert(h[i] == hr[i - 1]);
                        }
                    }
                }
            },
            Progress::Finished(outcome) => {
                assert(replies.drop_first().len() == 0);
                if let Err(error) = outcome {
                    assert(h[0].failed() == Some(error));
                }
            },
        }
    }
}

} // verus!
