//! Decisions taken by the vote routes: casting a vote for a bot or a server
//! (`PATCH /users/{user_id}/bots/{bot_id}/votes`, and the same for servers),
//! and telling whether a user has voted (`GET` on the same paths).
//!
//! Casting a vote alternates database work and decisions; the decisions are
//! a state machine here, run by the handler: it performs each action and
//! hands back what came of it as the next event.

use vstd::prelude::*;
use crate::routes::Status;

verus! {

/// Whether any of the flags in `check` is set in `flags`.
pub fn flags_check(flags: &Vec<i32>, check: &Vec<i32>) -> (res: bool)
    ensures
        res == exists|i: int| 0 <= i < check@.len() && flags@.contains(#[trigger] check@[i]),
{
    let n = check.len();
    for i in 0..n
        invariant
            n == check@.len(),
            forall|k: int| 0 <= k < i ==> !flags@.contains(#[trigger] check@[k]),
    {
        if contains_flag(flags, check[i]) {
            return true;
        }
    }
    false
}

/// Whether `flag` is set in `flags`.
pub fn contains_flag(flags: &Vec<i32>, flag: i32) -> (res: bool)
    ensures
        res == flags@.contains(flag),
{
    let n = flags.len();
    for i in 0..n
        invariant
            n == flags@.len(),
            forall|k: int| 0 <= k < i ==> flags@[k] != flag,
    {
        if flags[i] == flag {
            return true;
        }
    }
    false
}

/// Whether a user keeps their votes private: then `GET .../votes` answers
/// that the user can vote right now, without asking the database.
pub fn votes_are_private(user_flags: &Vec<i32>, votes_private: i32) -> (res: bool)
    ensures
        res == user_flags@.contains(votes_private),
{
    contains_flag(user_flags, votes_private)
}

/// Where a vote request stands. `system_flag` is the flag that marks a
/// system bot or server, which cannot be voted for.
#[derive(PartialEq, Eq, Structural, Clone, Copy, Debug)]
pub enum VoteState {
    /// Waiting for the user's authorization to be checked.
    Authorizing { system_flag: i32 },
    /// Waiting for the bot or server voted for.
    Fetching { system_flag: i32 },
    /// Waiting for the vote to be recorded.
    Voting,
    /// Answered.
    Done,
}

/// What the handler reports back.
pub enum VoteEvent<E> {
    /// Whether the `Authorization` header authorizes the user.
    Authorized(bool),
    /// The flags of the bot or server voted for, or `None` where it does not exist.
    TargetFetched(Option<Vec<i32>>),
    /// What the database answered to the vote.
    VoteCast(Result<(), E>),
}

/// The reply to a vote request.
pub enum VoteReply<E> {
    /// The vote was recorded.
    Voted,
    /// The bot or server does not exist.
    NotFound,
    /// The bot or server is a system one.
    SystemTarget,
    /// The database refused the vote, with this error.
    Rejected(E),
    /// The user is not authorized.
    Forbidden,
}

impl<E> VoteReply<E> {
    pub open spec fn spec_status(&self) -> Status {
        match self {
            VoteReply::Voted => Status::Success,
            VoteReply::NotFound => Status::NotFound,
            VoteReply::SystemTarget => Status::BadRequest,
            VoteReply::Rejected(_) => Status::BadRequest,
            VoteReply::Forbidden => Status::Forbidden,
        }
    }

    /// The status of the reply: 200 when voted, 404 for a missing target,
    /// 400 for a system target or a refused vote, 403 when not authorized.
    pub fn status(&self) -> (s: Status)
        ensures
            s == self.spec_status(),
    {
        match self {
            VoteReply::Voted => Status::Success,
            VoteReply::NotFound => Status::NotFound,
            VoteReply::SystemTarget => Status::BadRequest,
            VoteReply::Rejected(_) => Status::BadRequest,
            VoteReply::Forbidden => Status::Forbidden,
        }
    }
}

/// What the handler does next.
pub enum VoteAction<E> {
    /// Check the user's authorization.
    Authorize,
    /// Fetch the bot or server voted for.
    FetchTarget,
    /// Record the vote.
    CastVote,
    /// Send this reply; the request is done.
    Reply(VoteReply<E>),
}

/// The state a vote request starts in, and its first action.
pub open spec fn vote_begin<E>(system_flag: i32) -> (VoteState, VoteAction<E>) {
    (VoteState::Authorizing { system_flag }, VoteAction::Authorize)
}

/// The next state and action on an event, or `None` where the state does
/// not wait for such an event.
pub open spec fn next_vote<E>(state: VoteState, event: VoteEvent<E>) -> Option<
    (VoteState, VoteAction<E>),
> {
    match (state, event) {
        (VoteState::Authorizing { system_flag }, VoteEvent::Authorized(ok)) => if ok {
            Some((VoteState::Fetching { system_flag }, VoteAction::FetchTarget))
        } else {
            Some((VoteState::Done, VoteAction::Reply(VoteReply::Forbidden)))
        },
        (VoteState::Fetching { system_flag }, VoteEvent::TargetFetched(target)) => match target {
            None => Some((VoteState::Done, VoteAction::Reply(VoteReply::NotFound))),
            Some(flags) => if flags@.contains(system_flag) {
                Some((VoteState::Done, VoteAction::Reply(VoteReply::SystemTarget)))
            } else {
                Some((VoteState::Voting, VoteAction::CastVote))
            },
        },
        (VoteState::Voting, VoteEvent::VoteCast(result)) => match result {
            Ok(()) => Some((VoteState::Done, VoteAction::Reply(VoteReply::Voted))),
            Err(e) => Some((VoteState::Done, VoteAction::Reply(VoteReply::Rejected(e)))),
        },
        _ => None,
    }
}

/// Whether `state` waits for an event of the kind of `event`.
pub open spec fn vote_accepts<E>(state: VoteState, event: VoteEvent<E>) -> bool {
    next_vote(state, event) is Some
}

/// A vote request starts by checking the user's authorization.
pub fn vote_start<E>(system_flag: i32) -> (res: (VoteState, VoteAction<E>))
    ensures
        res == vote_begin::<E>(system_flag),
{
    (VoteState::Authorizing { system_flag }, VoteAction::Authorize)
}

/// The next state and action of a vote request on an event: an unauthorized
/// user is answered 403; a missing target 404; a system target, or a vote
/// the database refuses, 400; a recorded vote 200.
pub fn vote_step<E>(state: VoteState, event: VoteEvent<E>) -> (res: (VoteState, VoteAction<E>))
    requires
        vote_accepts(state, event),
    ensures
        next_vote(state, event) == Some(res),
{
    match state {
        VoteState::Authorizing { system_flag } => match event {
            VoteEvent::Authorized(ok) => if ok {
                (VoteState::Fetching { system_flag }, VoteAction::FetchTarget)
            } else {
                (VoteState::Done, VoteAction::Reply(VoteReply::Forbidden))
            },
            _ => {
                proof {
                    assert(false);
                }
                (state, VoteAction::Authorize)
            },
        },
        VoteState::Fetching { system_flag } => match event {
            VoteEvent::TargetFetched(target) => match target {
                None => (VoteState::Done, VoteAction::Reply(VoteReply::NotFound)),
                Some(flags) => {
                    let check = vec![system_flag];
                    if flags_check(&flags, &check) {
                        assert(check@[0] == system_flag);
                        (VoteState::Done, VoteAction::Reply(VoteReply::SystemTarget))
                    } else {
                        assert(check@[0] == system_flag);
                        (VoteState::Voting, VoteAction::CastVote)
                    }
                },
            },
            _ => {
                proof {
                    assert(false);
                }
                (state, VoteAction::Authorize)
            },
        },
        VoteState::Voting => match event {
            VoteEvent::VoteCast(result) => match result {
                Ok(()) => (VoteState::Done, VoteAction::Reply(VoteReply::Voted)),
                Err(e) => (VoteState::Done, VoteAction::Reply(VoteReply::Rejected(e))),
            },
            _ => {
                proof {
                    assert(false);
                }
                (state, VoteAction::Authorize)
            },
        },
        VoteState::Done => {
            proof {
                assert(false);
            }
            (state, VoteAction::Authorize)
        },
    }
}

/// The actions a vote request takes from `state` on the events, in order,
/// up to the first event that the state it has reached does not wait for.
pub open spec fn vote_run<E>(state: VoteState, events: Seq<VoteEvent<E>>) -> Seq<VoteAction<E>>
    decreases events.len(),
{
    if events.len() == 0 {
        Seq::empty()
    } else {
        match next_vote(state, events[0]) {
            Some((next, action)) => seq![action] + vote_run(next, events.drop_first()),
            None => Seq::empty(),
        }
    }
}

proof fn lemma_run_done<E>(events: Seq<VoteEvent<E>>)
    ensures
        vote_run(VoteState::Done, events) =~= Seq::<VoteAction<E>>::empty(),
{
}

proof fn lemma_run_voting<E>(events: Seq<VoteEvent<E>>)
    ensures
        vote_run(VoteState::Voting, events).len() <= 1,
        forall|i: int|
            0 <= i < vote_run(VoteState::Voting, events).len() ==> #[trigger] vote_run(
                VoteState::Voting,
                events,
            )[i] is Reply,
{
    if events.len() > 0 {
        lemma_run_done(events.drop_first());
    }
}

proof fn lemma_run_fetching<E>(system_flag: i32, events: Seq<VoteEvent<E>>)
    ensures
        ({
            let run = vote_run(VoteState::Fetching { system_flag }, events);
            &&& run.len() <= 2
            &&& forall|i: int| 1 <= i < run.len() ==> #[trigger] run[i] is Reply
            &&& run.len() == 2 ==> !(run[0] is Reply)
            &&& (run.len() >= 1 && run[0] is CastVote) ==> (events[0] matches VoteEvent::TargetFetched(
                Some(flags),
            ) && !flags@.contains(system_flag))
            &&& run.len() >= 1 ==> !(run[0] is FetchTarget) && !(run[0] is Authorize)
        }),
{
    if events.len() > 0 {
        let rest = events.drop_first();
        lemma_run_done(rest);
        lemma_run_voting(rest);
    }
}

proof fn lemma_run_authorizing<E>(system_flag: i32, events: Seq<VoteEvent<E>>)
    ensures
        ({
            let run = vote_run(VoteState::Authorizing { system_flag }, events);
            &&& run.len() <= 3
            &&& forall|i: int| 0 <= i < run.len() - 1 ==> !(#[trigger] run[i] is Reply)
            &&& forall|i: int|
                0 <= i < run.len() && #[trigger] run[i] is CastVote ==> {
                    &&& i == 1
                    &&& events.len() >= 2
                    &&& events[0] == VoteEvent::<E>::Authorized(true)
                    &&& events[1] matches VoteEvent::TargetFetched(Some(flags))
                    &&& !flags@.contains(system_flag)
                }
            &&& (events.len() >= 1 && events[0] == VoteEvent::<E>::Authorized(false)) ==> run
                =~= seq![VoteAction::<E>::Reply(VoteReply::Forbidden)]
        }),
{
    if events.len() > 0 {
        let rest = events.drop_first();
        lemma_run_done(rest);
        lemma_run_fetching(system_flag, rest);
        let run = vote_run(VoteState::Authorizing { system_flag }, events);
        if events[0] == VoteEvent::<E>::Authorized(true) {
            let tail = vote_run(VoteState::Fetching { system_flag }, rest);
            assert(run == seq![VoteAction::<E>::FetchTarget] + tail);
            assert forall|i: int| 0 <= i < run.len() && #[trigger] run[i] is CastVote implies {
                &&& i == 1
                &&& events.len() >= 2
                &&& events[0] == VoteEvent::<E>::Authorized(true)
                &&& events[1] matches VoteEvent::TargetFetched(Some(flags))
                &&& !flags@.contains(system_flag)
            } by {
                assert(run[i] == tail[i - 1]);
                assert(rest[0] == events[1]);
            }
            assert forall|i: int| 0 <= i < run.len() - 1 implies !(#[trigger] run[i] is Reply) by {
                if i > 0 {
                    assert(run[i] == tail[i - 1]);
                }
            }
        }
    }
}

/// A vote request whose authorization fails is answered 403 Forbidden, and
/// nothing else is done for it: whatever events follow, that reply is its
/// only action after the authorization check.
pub proof fn law_unauthorized_vote_is_forbidden<E>(system_flag: i32, events: Seq<VoteEvent<E>>)
    requires
        events.len() >= 1,
        events[0] == VoteEvent::<E>::Authorized(false),
    ensures
        vote_run(vote_begin::<E>(system_flag).0, events) == seq![
            VoteAction::<E>::Reply(VoteReply::Forbidden),
        ],
{
    lemma_run_authorizing(system_flag, events);
}

/// A vote is cast only for an authorized user, on a bot or server that
/// exists and is not a system one: in any run, the vote is the second
/// action, after the authorization succeeded and the target was fetched
/// without the system flag.
pub proof fn law_vote_cast_only_when_permitted<E>(
    system_flag: i32,
    events: Seq<VoteEvent<E>>,
    i: int,
)
    requires
        0 <= i < vote_run(vote_begin::<E>(system_flag).0, events).len(),
        vote_run(vote_begin::<E>(system_flag).0, events)[i] is CastVote,
    ensures
        i == 1,
        events.len() >= 2,
        events[0] == VoteEvent::<E>::Authorized(true),
        events[1] matches VoteEvent::TargetFetched(Some(flags)) && !flags@.contains(system_flag),
{
    lemma_run_authorizing(system_flag, events);
}

/// A vote request takes at most three actions after its authorization
/// check, and a reply, if any, is the last of them.
pub proof fn law_vote_reply_is_final<E>(system_flag: i32, events: Seq<VoteEvent<E>>)
    ensures
        vote_run(vote_begin::<E>(system_flag).0, events).len() <= 3,
        forall|i: int|
            0 <= i < vote_run(vote_begin::<E>(system_flag).0, events).len() - 1 ==> !(
            #[trigger] vote_run(vote_begin::<E>(system_flag).0, events)[i] is Reply),
{
    lemma_run_authorizing(system_flag, events);
}

/// A reply reports success (200) only for a recorded vote. A vote the
/// database refuses and a vote for a system target are reported 400, a
/// missing target 404 and a missing authorization 403.
pub proof fn law_vote_reply_status<E>(reply: VoteReply<E>)
    ensures
        (reply.spec_status() == Status::Success) == (reply is Voted),
        reply is Rejected ==> reply.spec_status() == Status::BadRequest
            && reply.spec_status().spec_code() == 400,
        reply is SystemTarget ==> reply.spec_status() == Status::BadRequest
            && reply.spec_status().spec_code() == 400,
        reply is NotFound ==> reply.spec_status().spec_code() == 404,
        reply is Forbidden ==> reply.spec_status().spec_code() == 403,
        reply is Voted ==> reply.spec_status().spec_code() == 200,
{
}

/// A permitted vote that the database refuses ends with a 400 reply that
/// carries the database's error.
pub proof fn law_refused_vote_is_bad_request<E>(
    system_flag: i32,
    flags: Vec<i32>,
    error: E,
    events: Seq<VoteEvent<E>>,
)
    requires
        !flags@.contains(system_flag),
        events =~= seq![
            VoteEvent::<E>::Authorized(true),
            VoteEvent::<E>::TargetFetched(Some(flags)),
            VoteEvent::<E>::VoteCast(Err(error)),
        ],
    ensures
        vote_run(vote_begin::<E>(system_flag).0, events) == seq![
            VoteAction::<E>::FetchTarget,
            VoteAction::<E>::CastVote,
            VoteAction::<E>::Reply(VoteReply::Rejected(error)),
        ],
        VoteReply::<E>::Rejected(error).spec_status().spec_code() == 400,
{
    let rest = events.drop_first();
    let rest2 = rest.drop_first();
    let rest3 = rest2.drop_first();
    assert(rest[0] == events[1]);
    assert(rest2[0] == events[2]);
    assert(rest3.len() == 0);
    assert(vote_run(VoteState::Done, rest3) =~= Seq::<VoteAction<E>>::empty());
    assert(next_vote(VoteState::Voting, rest2[0]) == Some(
        (VoteState::Done, VoteAction::<E>::Reply(VoteReply::Rejected(error))),
    ));
    assert(vote_run(VoteState::Voting, rest2) =~= seq![
        VoteAction::<E>::Reply(VoteReply::Rejected(error)),
    ] + Seq::<VoteAction<E>>::empty());
    assert(vote_run(VoteState::Fetching { system_flag }, rest) =~= seq![
        VoteAction::<E>::CastVote,
    ] + vote_run(VoteState::Voting, rest2));
    assert(vote_run(vote_begin::<E>(system_flag).0, events) =~= seq![
        VoteAction::<E>::FetchTarget,
    ] + vote_run(VoteState::Fetching { system_flag }, rest));
}

} // verus!
