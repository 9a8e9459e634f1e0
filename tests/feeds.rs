use uchat::content::{Chat, Content};
use uchat::domain::{Message, Username};
use uchat::endpoint::{BookmarkedPosts, LikedPosts, TrendingPosts};
use uchat::ids::{PostId, UserId};
use uchat::query::{
    add_user, bookmark, get_bookmarked_posts, get_liked_posts, get_trending, new, react, Post,
    Reaction, Store, User, TRENDING_LIMIT,
};

const API: &str = "http://localhost:8070/";

fn setup() -> (Store, UserId) {
    let mut store = Store::new();
    let a = UserId::from_u128(1);
    add_user(&mut store, User { id: a, handle: Username::new("alice".to_string()).unwrap(), display_name: None })
        .unwrap();
    (store, a)
}

fn put(store: &mut Store, n: u128, by: UserId, time_posted: i64, dm: Option<UserId>) -> PostId {
    let id = PostId::from_u128(n);
    let content = Content::Chat(Chat { headline: None, message: Message::new(format!("post {n}")).unwrap() });
    new(
        store,
        Post {
            id,
            user_id: by,
            content: uchat::query::Content(content.to_json()),
            time_posted,
            direct_message_to: dm,
            reply_to: None,
            created_at: 0,
        },
    )
    .unwrap();
    id
}

#[test]
fn trending_is_newest_first_and_excludes_future_and_direct_messages() {
    let (mut store, a) = setup();
    let old = put(&mut store, 1, a, 10, None);
    let newer = put(&mut store, 2, a, 30, None);
    let _future = put(&mut store, 3, a, 500, None);
    let _dm = put(&mut store, 4, a, 20, Some(UserId::from_u128(2)));
    let middle = put(&mut store, 5, a, 20, None);
    assert_eq!(get_trending(&store, 100), vec![newer, middle, old]);
    assert_eq!(get_trending(&store, 10), Vec::<PostId>::new());
}

#[test]
fn trending_is_capped() {
    let (mut store, a) = setup();
    for n in 0..40u128 {
        put(&mut store, n, a, n as i64, None);
    }
    let top = get_trending(&store, 1000);
    assert_eq!(top.len(), TRENDING_LIMIT);
    let expected: Vec<PostId> = (10..40u128).rev().map(PostId::from_u128).collect();
    assert_eq!(top, expected);
    let feed = TrendingPosts {}.process_request(&store, a, 1000, API);
    assert_eq!(feed.len(), TRENDING_LIMIT);
    assert_eq!(feed[0].id, PostId::from_u128(39));
}

#[test]
fn liked_and_bookmarked_listings() {
    let (mut store, a) = setup();
    let p1 = put(&mut store, 1, a, 1, None);
    let p2 = put(&mut store, 2, a, 2, None);
    let p3 = put(&mut store, 3, a, 3, None);
    react(&mut store, Reaction { user_id: a, post_id: p2, created_at: 0, like_status: 1, reaction: None });
    react(&mut store, Reaction { user_id: a, post_id: p3, created_at: 0, like_status: -1, reaction: None });
    react(&mut store, Reaction { user_id: UserId::from_u128(9), post_id: p1, created_at: 0, like_status: 1, reaction: None });
    bookmark(&mut store, a, p3);
    bookmark(&mut store, a, p1);
    assert_eq!(get_liked_posts(&store, a), vec![p2]);
    assert_eq!(get_bookmarked_posts(&store, a), vec![p3, p1]);
    let liked = LikedPosts {}.process_request(&store, a, API);
    assert_eq!(liked.len(), 1);
    assert!(liked[0].like_status == uchat::endpoint::LikeStatus::Like);
    let marked = BookmarkedPosts {}.process_request(&store, a, API);
    assert_eq!(marked.iter().map(|p| p.id).collect::<Vec<_>>(), vec![p3, p1]);
    assert!(marked.iter().all(|p| p.bookmarked));
}
