use uchat::content::{Chat, Content, Image, ImageKind, Poll, PollChoice};
use uchat::domain::{DisplayName, Message, PollChoiceDescription, PollHeadline, Username};
use uchat::endpoint::{LikeStatus, NewPost, NewPostOptions, Vote, VoteCast};
use uchat::handler::{
    domain_and, public_feed, resolve_image_url, to_public, NewPostFailure, PublicPostError,
};
use uchat::ids::{ImageId, PollChoiceId, PostId, UserId};
use uchat::json::Json;
use uchat::query::{
    add_user, bookmark, boost, get, get_poll_results, new, react, NewPostError, Post, QueryError,
    Reaction, Store, User,
};

const API: &str = "http://localhost:8070/";

fn add(store: &mut Store, n: u128, handle: &str) -> UserId {
    let id = UserId::from_u128(n);
    add_user(
        store,
        User {
            id,
            handle: Username::new(handle.to_string()).unwrap(),
            display_name: Some(DisplayName::new(format!("{handle} name")).unwrap()),
        },
    )
    .unwrap();
    id
}

fn options(reply_to: Option<PostId>) -> NewPostOptions {
    NewPostOptions { reply_to, direct_message_to: None, time_posted: 100 }
}

fn chat(message: &str) -> Content {
    Content::Chat(Chat { headline: None, message: Message::new(message.to_string()).unwrap() })
}

fn store_post(store: &mut Store, n: u128, by: UserId, payload: Json, reply_to: Option<PostId>) -> PostId {
    let id = PostId::from_u128(n);
    let post = Post {
        id,
        user_id: by,
        content: uchat::query::Content(payload),
        time_posted: 100 + n as i64,
        direct_message_to: None,
        reply_to,
        created_at: 1,
    };
    assert_eq!(new(store, post), Ok(id));
    id
}

#[test]
fn poll_scenario_counts_and_refuses_second_vote() {
    let mut store = Store::new();
    let a = add(&mut store, 1, "alice");
    let b = add(&mut store, 2, "bob");
    let c = add(&mut store, 3, "carol");
    let yes = PollChoiceId::from_u128(11);
    let no = PollChoiceId::from_u128(12);
    let poll = Content::Poll(Poll {
        headline: PollHeadline::new("Agree?".to_string()).unwrap(),
        choices: vec![
            PollChoice { id: yes, num_votes: 0, description: PollChoiceDescription::new("yes".to_string()).unwrap() },
            PollChoice { id: no, num_votes: 0, description: PollChoiceDescription::new("no".to_string()).unwrap() },
        ],
        voted: None,
    });
    let post_id = NewPost { content: poll, options: options(None) }
        .process_request(&mut store, a, None)
        .unwrap();
    assert_eq!(Vote { post_id, choice_id: yes }.process_request(&mut store, b, 1).cast, VoteCast::Yes);
    assert_eq!(Vote { post_id, choice_id: yes }.process_request(&mut store, c, 2).cast, VoteCast::Yes);
    assert_eq!(
        Vote { post_id, choice_id: no }.process_request(&mut store, c, 3).cast,
        VoteCast::AlreadyVoted
    );
    let results = get_poll_results(&store, post_id, &vec![yes, no]);
    assert_eq!(results.results, vec![(yes, 2), (no, 0)]);

    let post = get(&store, post_id).unwrap();
    let public = to_public(&store, post, Some(c), API).unwrap();
    match public.content {
        Content::Poll(p) => {
            assert_eq!(p.choices[0].num_votes, 2);
            assert_eq!(p.choices[1].num_votes, 0);
            assert_eq!(p.voted, Some(yes));
        }
        _ => panic!("wrong variant"),
    }
    let anonymous = to_public(&store, post, None, API).unwrap();
    match anonymous.content {
        Content::Poll(p) => assert_eq!(p.voted, None),
        _ => panic!("wrong variant"),
    }
}

#[test]
fn undecodable_payload_is_a_typed_error() {
    let mut store = Store::new();
    let a = add(&mut store, 1, "alice");
    let id = store_post(&mut store, 1, a, Json::Str("garbage".to_string()), None);
    let post = get(&store, id).unwrap();
    assert_eq!(to_public(&store, post, None, API).err(), Some(PublicPostError::ContentDecode));
}

#[test]
fn feed_skips_the_corrupt_post() {
    let mut store = Store::new();
    let a = add(&mut store, 1, "alice");
    let mut ids = Vec::new();
    for n in 0..5u128 {
        let payload = if n == 2 { Json::Arr(vec![]) } else { chat(&format!("post {n}")).to_json() };
        ids.push(store_post(&mut store, n, a, payload, None));
    }
    let feed = public_feed(&store, &ids, Some(a), API);
    assert_eq!(feed.len(), 4);
    let got: Vec<PostId> = feed.iter().map(|p| p.id).collect();
    assert_eq!(got, vec![ids[0], ids[1], ids[3], ids[4]]);
}

#[test]
fn public_post_overlays_viewer_state() {
    let mut store = Store::new();
    let a = add(&mut store, 1, "alice");
    let b = add(&mut store, 2, "bob");
    let first_post = store_post(&mut store, 1, a, chat("first").to_json(), None);
    let reply = store_post(&mut store, 2, b, chat("second").to_json(), Some(first_post));
    react(&mut store, Reaction { user_id: a, post_id: reply, created_at: 0, like_status: 1, reaction: None });
    react(&mut store, Reaction { user_id: b, post_id: reply, created_at: 0, like_status: -1, reaction: None });
    bookmark(&mut store, a, reply);
    boost(&mut store, b, reply, 0);

    let post = get(&store, reply).unwrap();
    let seen_by_a = to_public(&store, post, Some(a), API).unwrap();
    assert_eq!(seen_by_a.id, reply);
    assert_eq!(seen_by_a.by_user.id, b);
    assert_eq!(seen_by_a.by_user.handle.as_str(), "bob");
    assert_eq!(seen_by_a.by_user.display_name.as_ref().unwrap().as_str(), "bob name");
    assert_eq!(seen_by_a.time_posted, 102);
    let (handle, uid, pid) = seen_by_a.reply_to.as_ref().unwrap();
    assert_eq!((handle.as_str(), *uid, *pid), ("alice", a, first_post));
    assert_eq!(seen_by_a.like_status, LikeStatus::Like);
    assert!(seen_by_a.bookmarked);
    assert!(!seen_by_a.boosted);
    assert_eq!((seen_by_a.likes, seen_by_a.dislikes, seen_by_a.boosts), (1, 1, 1));

    let seen_by_b = to_public(&store, post, Some(b), API).unwrap();
    assert_eq!(seen_by_b.like_status, LikeStatus::Dislike);
    assert!(!seen_by_b.bookmarked);
    assert!(seen_by_b.boosted);

    let anonymous = to_public(&store, post, None, API).unwrap();
    assert_eq!(anonymous.like_status, LikeStatus::NoReaction);
    assert!(!anonymous.bookmarked);
    assert!(!anonymous.boosted);
}

#[test]
fn missing_author_or_reply_is_not_found() {
    let mut store = Store::new();
    let a = add(&mut store, 1, "alice");
    let ghost_user = UserId::from_u128(99);
    let orphan = store_post(&mut store, 1, ghost_user, chat("x").to_json(), None);
    let dangling = store_post(&mut store, 2, a, chat("y").to_json(), Some(PostId::from_u128(77)));
    for id in [orphan, dangling] {
        let post = get(&store, id).unwrap();
        assert_eq!(to_public(&store, post, None, API).err(), Some(PublicPostError::NotFound));
    }
    assert_eq!(get(&store, PostId::from_u128(77)).err(), Some(QueryError::NotFound));
}

#[test]
fn image_links_resolve_under_service_url() {
    let id = ImageId::from_u128(0x67e5504410b1426f9247bb680e5fe0c8);
    assert_eq!(
        resolve_image_url(API, id).unwrap(),
        "http://localhost:8070/usercontent/img/67e55044-10b1-426f-9247-bb680e5fe0c8"
    );
    assert_eq!(domain_and(API, "a/b").unwrap(), "http://localhost:8070/a/b");
    assert_eq!(resolve_image_url("not a url", id), None);

    let mut store = Store::new();
    let a = add(&mut store, 1, "alice");
    let content = Content::Image(Image { caption: None, kind: ImageKind::Id(id) });
    let pid = store_post(&mut store, 1, a, content.to_json(), None);
    let public = to_public(&store, get(&store, pid).unwrap(), None, API).unwrap();
    match public.content {
        Content::Image(img) => match img.kind {
            ImageKind::Url(u) => {
                assert_eq!(u, "http://localhost:8070/usercontent/img/67e55044-10b1-426f-9247-bb680e5fe0c8")
            }
            _ => panic!("link not resolved"),
        },
        _ => panic!("wrong variant"),
    }
    let unresolved = to_public(&store, get(&store, pid).unwrap(), None, "nope").unwrap();
    match unresolved.content {
        Content::Image(img) => assert!(matches!(img.kind, ImageKind::Id(_))),
        _ => panic!("wrong variant"),
    }
}

#[test]
fn inline_image_must_be_stored_first() {
    let mut store = Store::new();
    let a = add(&mut store, 1, "alice");
    let inline = || Content::Image(Image { caption: None, kind: ImageKind::DataUrl("data:image/png;base64,AAAA".to_string()) });
    let request = NewPost { content: inline(), options: options(None) };
    assert_eq!(request.image_to_store().map(|s| s.as_str()), Some("data:image/png;base64,AAAA"));
    assert_eq!(request.process_request(&mut store, a, None), Err(NewPostFailure::UnstoredImage));
    assert_eq!(Post::new(a, inline(), options(None)).err(), Some(NewPostError::UnstoredImage));

    let blob = ImageId::from_u128(5);
    let id = NewPost { content: inline(), options: options(None) }
        .process_request(&mut store, a, Some(blob))
        .unwrap();
    let post = get(&store, id).unwrap();
    assert_eq!(post.user_id, a);
    assert_eq!(post.time_posted, 100);
    match Content::from_json(&post.content.0).unwrap() {
        Content::Image(img) => assert!(matches!(img.kind, ImageKind::Id(b) if b == blob)),
        _ => panic!("wrong variant"),
    }
}

#[test]
fn new_post_is_stamped_now() {
    let a = UserId::from_u128(1);
    let post = Post::new(a, chat("hello"), options(None)).unwrap();
    assert!(post.created_at > 1_600_000_000_000_000);
    assert_eq!(post.user_id, a);
    let other = Post::new(a, chat("hello"), options(None)).unwrap();
    assert_ne!(post.id, other.id);
}

#[test]
fn duplicate_post_and_user_ids_conflict() {
    let mut store = Store::new();
    let a = add(&mut store, 1, "alice");
    let dup = User { id: a, handle: Username::new("again".to_string()).unwrap(), display_name: None };
    assert_eq!(add_user(&mut store, dup), Err(QueryError::Conflict));
    store_post(&mut store, 1, a, chat("x").to_json(), None);
    let again = Post {
        id: PostId::from_u128(1),
        user_id: a,
        content: uchat::query::Content(Json::Null),
        time_posted: 0,
        direct_message_to: None,
        reply_to: None,
        created_at: 0,
    };
    assert_eq!(new(&mut store, again), Err(QueryError::Conflict));
}
