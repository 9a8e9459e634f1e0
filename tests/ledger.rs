use uchat::endpoint::{
    Bookmark, BookmarkAction, Boost, BoostAction, LikeStatus, React, Vote, VoteCast,
};
use uchat::ids::{PollChoiceId, PostId, UserId};
use uchat::query::{
    aggregate_reactions, bookmark, boost, delete_bookmark, delete_boost, did_vote, get_bookmark,
    get_boost, get_poll_results, get_reaction, get_viewer_state, react, vote, DeleteStatus,
    Reaction, Store,
};

fn user(n: u128) -> UserId {
    UserId::from_u128(n)
}

fn post(n: u128) -> PostId {
    PostId::from_u128(1000 + n)
}

fn reaction(u: UserId, p: PostId, status: i16, at: i64) -> Reaction {
    Reaction { user_id: u, post_id: p, created_at: at, like_status: status, reaction: None }
}

#[test]
fn like_then_dislike_leaves_one_dislike() {
    let mut store = Store::new();
    react(&mut store, reaction(user(1), post(1), 1, 10));
    react(&mut store, reaction(user(1), post(1), -1, 20));
    let r = get_reaction(&store, post(1), user(1)).expect("reaction stored");
    assert_eq!(r.like_status, -1);
    assert_eq!(r.created_at, 10);
    let info = aggregate_reactions(&store, post(1));
    assert_eq!(info.likes, 0);
    assert_eq!(info.dislikes, 1);
}

#[test]
fn reaction_of_other_user_or_post_is_absent() {
    let mut store = Store::new();
    react(&mut store, reaction(user(1), post(1), 1, 10));
    assert!(get_reaction(&store, post(2), user(1)).is_none());
    assert!(get_reaction(&store, post(1), user(2)).is_none());
}

#[test]
fn bookmark_twice_keeps_one_row() {
    let mut store = Store::new();
    bookmark(&mut store, user(1), post(1));
    bookmark(&mut store, user(1), post(1));
    assert!(get_bookmark(&store, user(1), post(1)));
    assert_eq!(delete_bookmark(&mut store, user(1), post(1)), DeleteStatus::Deleted);
    assert!(!get_bookmark(&store, user(1), post(1)));
    assert_eq!(delete_bookmark(&mut store, user(1), post(1)), DeleteStatus::NotFound);
}

#[test]
fn bookmark_request_reports_success_both_times() {
    let mut store = Store::new();
    let first = Bookmark { post_id: post(1), action: BookmarkAction::Add }
        .process_request(&mut store, user(1));
    let second = Bookmark { post_id: post(1), action: BookmarkAction::Add }
        .process_request(&mut store, user(1));
    assert_eq!(first.status, BookmarkAction::Add);
    assert_eq!(second.status, BookmarkAction::Add);
    assert!(get_bookmark(&store, user(1), post(1)));
}

#[test]
fn remove_absent_bookmark_is_not_found() {
    let mut store = Store::new();
    bookmark(&mut store, user(2), post(1));
    assert_eq!(delete_bookmark(&mut store, user(1), post(1)), DeleteStatus::NotFound);
    assert!(get_bookmark(&store, user(2), post(1)));
    assert!(!get_bookmark(&store, user(1), post(1)));
}

#[test]
fn boosts_are_presence_rows() {
    let mut store = Store::new();
    boost(&mut store, user(1), post(1), 5);
    boost(&mut store, user(1), post(1), 6);
    boost(&mut store, user(2), post(1), 7);
    assert!(get_boost(&store, user(1), post(1)));
    assert_eq!(aggregate_reactions(&store, post(1)).boosts, 2);
    assert_eq!(delete_boost(&mut store, user(1), post(1)), DeleteStatus::Deleted);
    assert_eq!(delete_boost(&mut store, user(1), post(1)), DeleteStatus::NotFound);
    assert_eq!(aggregate_reactions(&store, post(1)).boosts, 1);
    let ok = Boost { post_id: post(2), action: BoostAction::Add }.process_request(&mut store, user(3), 9);
    assert_eq!(ok.status, BoostAction::Add);
    assert!(get_boost(&store, user(3), post(2)));
    let ok = Boost { post_id: post(2), action: BoostAction::Remove }.process_request(&mut store, user(3), 9);
    assert_eq!(ok.status, BoostAction::Remove);
    assert!(!get_boost(&store, user(3), post(2)));
}

#[test]
fn second_vote_is_refused_and_first_stays() {
    let mut store = Store::new();
    let a = PollChoiceId::from_u128(1);
    let b = PollChoiceId::from_u128(2);
    assert_eq!(vote(&mut store, user(1), post(1), a, 1), VoteCast::Yes);
    assert_eq!(vote(&mut store, user(1), post(1), b, 2), VoteCast::AlreadyVoted);
    assert_eq!(did_vote(&store, user(1), post(1)), Some(a));
    assert_eq!(did_vote(&store, user(2), post(1)), None);
}

#[test]
fn poll_results_cover_every_choice() {
    let mut store = Store::new();
    let choices = vec![PollChoiceId::from_u128(1), PollChoiceId::from_u128(2), PollChoiceId::from_u128(3)];
    vote(&mut store, user(1), post(1), choices[0], 1);
    vote(&mut store, user(2), post(1), choices[0], 1);
    vote(&mut store, user(3), post(1), choices[2], 1);
    vote(&mut store, user(4), post(2), choices[1], 1);
    let results = get_poll_results(&store, post(1), &choices);
    assert_eq!(results.post_id, post(1));
    assert_eq!(results.results, vec![(choices[0], 2), (choices[1], 0), (choices[2], 1)]);
    let total: u64 = results.results.iter().map(|(_, n)| *n).sum();
    assert_eq!(total, 3);
}

#[test]
fn reaction_counts_from_distinct_users_in_any_order() {
    let statuses = [1i16, -1, 1, 1, -1];
    let mut forward = Store::new();
    for (i, s) in statuses.iter().enumerate() {
        react(&mut forward, reaction(user(i as u128), post(1), *s, 0));
    }
    let mut backward = Store::new();
    for (i, s) in statuses.iter().enumerate().rev() {
        react(&mut backward, reaction(user(i as u128), post(1), *s, 0));
    }
    for store in [&forward, &backward] {
        let info = aggregate_reactions(store, post(1));
        assert_eq!((info.likes, info.dislikes), (3, 2));
    }
}

#[test]
fn react_request_returns_live_counts() {
    let mut store = Store::new();
    let ok = React { post_id: post(1), like_status: LikeStatus::Like }.process_request(&mut store, user(1), 1);
    assert_eq!((ok.likes, ok.dislikes), (1, 0));
    let ok = React { post_id: post(1), like_status: LikeStatus::Dislike }.process_request(&mut store, user(2), 2);
    assert_eq!((ok.likes, ok.dislikes), (1, 1));
    let ok = React { post_id: post(1), like_status: LikeStatus::NoReaction }.process_request(&mut store, user(1), 3);
    assert_eq!(ok.like_status, LikeStatus::NoReaction);
    assert_eq!((ok.likes, ok.dislikes), (0, 1));
}

#[test]
fn viewer_state_reads_all_ledgers() {
    let mut store = Store::new();
    react(&mut store, reaction(user(1), post(1), -1, 0));
    bookmark(&mut store, user(1), post(1));
    let c = PollChoiceId::from_u128(7);
    let cast = Vote { post_id: post(1), choice_id: c }.process_request(&mut store, user(1), 0);
    assert_eq!(cast.cast, VoteCast::Yes);
    let state = get_viewer_state(&store, user(1), post(1));
    assert_eq!(state.like_status, -1);
    assert!(state.bookmarked);
    assert!(!state.boosted);
    assert_eq!(state.voted, Some(c));
    let other = get_viewer_state(&store, user(2), post(1));
    assert_eq!(other.like_status, 0);
    assert!(!other.bookmarked);
    assert_eq!(other.voted, None);
}
