use fates_api::routes::Status;
use fates_api::votes::{
    contains_flag, flags_check, vote_start, vote_step, votes_are_private, VoteAction, VoteEvent,
    VoteReply, VoteState,
};

const SYSTEM: i32 = 5;

#[test]
fn flags_check_finds_any_flag() {
    assert!(flags_check(&vec![1, 5, 7], &vec![5]));
    assert!(flags_check(&vec![1, 5, 7], &vec![2, 7]));
    assert!(!flags_check(&vec![1, 5, 7], &vec![2, 3]));
    assert!(!flags_check(&vec![], &vec![5]));
    assert!(!flags_check(&vec![5], &vec![]));
}

#[test]
fn contains_flag_and_private_votes() {
    assert!(contains_flag(&vec![3, 4], 4));
    assert!(!contains_flag(&vec![3, 4], 2));
    assert!(votes_are_private(&vec![0, 2], 2));
    assert!(!votes_are_private(&vec![], 2));
}

#[test]
fn vote_starts_with_authorization() {
    let (state, action) = vote_start::<String>(SYSTEM);
    assert_eq!(state, VoteState::Authorizing { system_flag: SYSTEM });
    assert!(matches!(action, VoteAction::Authorize));
}

#[test]
fn unauthorized_vote_is_forbidden() {
    let (state, _) = vote_start::<String>(SYSTEM);
    let (state, action) = vote_step::<String>(state, VoteEvent::Authorized(false));
    assert_eq!(state, VoteState::Done);
    match action {
        VoteAction::Reply(reply) => {
            assert!(matches!(reply, VoteReply::Forbidden));
            assert_eq!(reply.status(), Status::Forbidden);
        }
        _ => panic!("expected a reply"),
    }
}

#[test]
fn vote_for_missing_target_is_not_found() {
    let (state, _) = vote_start::<String>(SYSTEM);
    let (state, action) = vote_step::<String>(state, VoteEvent::Authorized(true));
    assert_eq!(state, VoteState::Fetching { system_flag: SYSTEM });
    assert!(matches!(action, VoteAction::FetchTarget));
    let (state, action) = vote_step::<String>(state, VoteEvent::TargetFetched(None));
    assert_eq!(state, VoteState::Done);
    match action {
        VoteAction::Reply(reply) => assert_eq!(reply.status(), Status::NotFound),
        _ => panic!("expected a reply"),
    }
}

#[test]
fn vote_for_system_target_is_bad_request() {
    let state = VoteState::Fetching { system_flag: SYSTEM };
    let (state, action) =
        vote_step::<String>(state, VoteEvent::TargetFetched(Some(vec![1, SYSTEM])));
    assert_eq!(state, VoteState::Done);
    match action {
        VoteAction::Reply(reply) => {
            assert!(matches!(reply, VoteReply::SystemTarget));
            assert_eq!(reply.status(), Status::BadRequest);
        }
        _ => panic!("expected a reply"),
    }
}

#[test]
fn refused_vote_is_bad_request_with_error() {
    let state = VoteState::Fetching { system_flag: SYSTEM };
    let (state, action) = vote_step::<String>(state, VoteEvent::TargetFetched(Some(vec![1, 2])));
    assert_eq!(state, VoteState::Voting);
    assert!(matches!(action, VoteAction::CastVote));
    let (state, action) =
        vote_step(state, VoteEvent::VoteCast(Err("already voted".to_string())));
    assert_eq!(state, VoteState::Done);
    match action {
        VoteAction::Reply(VoteReply::Rejected(e)) => assert_eq!(e, "already voted"),
        _ => panic!("expected a rejection"),
    }
}

#[test]
fn recorded_vote_is_success() {
    let (state, _) = vote_start::<String>(SYSTEM);
    let (state, _) = vote_step::<String>(state, VoteEvent::Authorized(true));
    let (state, _) = vote_step::<String>(state, VoteEvent::TargetFetched(Some(vec![])));
    let (state, action) = vote_step::<String>(state, VoteEvent::VoteCast(Ok(())));
    assert_eq!(state, VoteState::Done);
    match action {
        VoteAction::Reply(reply) => {
            assert!(matches!(reply, VoteReply::Voted));
            assert_eq!(reply.status(), Status::Success);
        }
        _ => panic!("expected a reply"),
    }
}
