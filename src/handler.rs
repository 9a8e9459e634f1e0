//! Materializing stored posts into the viewer-scoped public read model, and
//! the request handlers of the interaction ledger.

use vstd::prelude::*;

use crate::content::{
    choices_view, decode_content, stored_view, Content, ContentView, Image, ImageKind,
    ImageKindView, Poll, PollChoice, PollChoiceView,
};
use crate::domain::{DisplayName, Username};
use crate::endpoint::{
    like_status_of, like_status_value, Bookmark, BookmarkAction, BookmarkOk, BookmarkedPosts,
    Boost, BoostAction, BoostOk, LikeStatus, LikedPosts, NewPost, React, ReactOk, TrendingPosts,
    Vote, VoteOk,
};
use crate::ids::{uuid_text, ImageId, PollChoiceId, PostId, UserId};
use crate::query::new as insert_post;
use crate::query::{
    aggregate_reactions, bookmark, bookmarked_by, boost, count_choice, count_post, count_status,
    count_votes_of, delete_bookmark, delete_boost, delete_key, did_vote, get, get_bookmark,
    get_bookmarked_posts, get_boost, get_liked_posts, get_reaction, get_trending, get_user,
    has_key, insert_or_ignore, liked_by, post_with_id, react, reaction_status, trending_ids,
    upsert_reaction, user_with_id, vote, vote_cast, voted_choice, BookmarkRow, BoostRow,
    NewPostError, Post, Reaction, Store, StoreView, User, VoteRow,
};

verus! {

/// The text that `url::Url::join` gives for `input` resolved against the URL
/// written in `base`, if `base` parses and the join succeeds.
pub uninterp spec fn url_join(base: Seq<char>, input: Seq<char>) -> Option<Seq<char>>;

/// Relies on `url::Url::parse` of `base` followed by `url::Url::join`: the
/// serialization of `input` resolved against `base`, or `None` where either
/// fails.
#[verifier::external_body]
fn join_url(base: &str, input: &str) -> (r: Option<String>)
    ensures
        match url_join(base@, input@) {
            Some(u) => r matches Some(s) && s@ == u,
            None => r is None,
        },
{
    match url::Url::parse(base) {
        Ok(b) => b.join(input).ok().map(String::from),
        Err(_) => None,
    }
}

/// The path of user content under the service's URL.
pub const USER_CONTENT_ROOT: &'static str = "usercontent/";

/// The path of images under the user content path.
pub const USER_CONTENT_IMAGES: &'static str = "img/";

/// `fragment` resolved against the service's URL `api_url`.
pub fn domain_and(api_url: &str, fragment: &str) -> (r: Option<String>)
    ensures
        match url_join(api_url@, fragment@) {
            Some(u) => r matches Some(s) && s@ == u,
            None => r is None,
        },
{
    join_url(api_url, fragment)
}

/// The public link of stored image `id` under the service's URL `base`.
pub open spec fn image_link(base: Seq<char>, id: u128) -> Option<Seq<char>> {
    match url_join(base, USER_CONTENT_ROOT@) {
        Some(root) => match url_join(root, USER_CONTENT_IMAGES@) {
            Some(images) => url_join(images, uuid_text(id)),
            None => None,
        },
        None => None,
    }
}

/// The public link of stored image `id`; `None` where it cannot be formed.
pub fn resolve_image_url(api_url: &str, id: ImageId) -> (r: Option<String>)
    ensures
        match image_link(api_url@, id@) {
            Some(l) => r matches Some(s) && s@ == l,
            None => r is None,
        },
{
    let root = match domain_and(api_url, USER_CONTENT_ROOT) {
        Some(u) => u,
        None => return None,
    };
    let images = match join_url(root.as_str(), USER_CONTENT_IMAGES) {
        Some(u) => u,
        None => return None,
    };
    let name = id.to_string();
    join_url(images.as_str(), name.as_str())
}

/// An image kind as it is shown: a stored blob becomes its public link;
/// where no link can be formed it stays a blob id, which renders as
/// unavailable.
pub open spec fn shown_kind(kind: ImageKindView, base: Seq<char>) -> ImageKindView {
    match kind {
        ImageKindView::Id(id) => match image_link(base, id) {
            Some(u) => ImageKindView::Url(u),
            None => kind,
        },
        _ => kind,
    }
}

/// A poll choice with its live tally on post `p`.
pub open spec fn tallied(votes: Seq<VoteRow>, p: PostId, ch: PollChoiceView) -> PollChoiceView {
    PollChoiceView {
        num_votes: count_choice(votes, p, PollChoiceId { value: ch.id }) as u64,
        ..ch
    }
}

/// Content as the viewer sees it: image links resolved, poll choices with
/// live tallies, and, for a viewer, the choice they voted for.
pub open spec fn shown_content(
    s: StoreView,
    p: PostId,
    c: ContentView,
    viewer: Option<UserId>,
    base: Seq<char>,
) -> ContentView {
    match c {
        ContentView::Image { caption, kind } => ContentView::Image {
            caption,
            kind: shown_kind(kind, base),
        },
        ContentView::Poll { headline, choices, voted } => ContentView::Poll {
            headline,
            choices: choices.map_values(|ch: PollChoiceView| tallied(s.votes, p, ch)),
            voted: match viewer {
                Some(u) => match voted_choice(s.votes, u, p) {
                    Some(v) => Some(v@),
                    None => None,
                },
                None => voted,
            },
        },
        _ => c,
    }
}

fn show_image_kind(kind: ImageKind, api_url: &str) -> (r: ImageKind)
    ensures
        r@ == shown_kind(kind@, api_url@),
{
    match kind {
        ImageKind::Id(id) => match resolve_image_url(api_url, id) {
            Some(u) => ImageKind::Url(u),
            None => ImageKind::Id(id),
        },
        other => other,
    }
}

fn tally_choices(store: &Store, post_id: PostId, choices: Vec<PollChoice>) -> (r: Vec<PollChoice>)
    ensures
        choices_view(r@) == choices_view(choices@).map_values(
            |ch: PollChoiceView| tallied(store@.votes, post_id, ch),
        ),
{
    let mut out: Vec<PollChoice> = Vec::new();
    let mut rest = choices;
    let ghost all = rest@;
    let mut i: usize = 0;
    let total: usize = rest.len();
    while rest.len() > 0
        invariant
            i + rest@.len() == all.len(),
            all.len() == total,
            rest@ == all.subrange(i as int, all.len() as int),
            choices_view(out@) == choices_view(
                all.subrange(0, i as int),
            ).map_values(|ch: PollChoiceView| tallied(store@.votes, post_id, ch)),
        decreases rest@.len(),
    {
        let c = rest.remove(0);
        let n = count_votes_of(store, post_id, c.id);
        let ghost before = out@;
        out.push(PollChoice { id: c.id, num_votes: n, description: c.description });
        assert(all.subrange(0, i + 1) == all.subrange(0, i as int).push(all[i as int]));
        assert(choices_view(out@) == choices_view(before).push(
            out@[i as int]@,
        ));
        assert(choices_view(all.subrange(0, i + 1)) == choices_view(
            all.subrange(0, i as int),
        ).push(all[i as int]@));
        i = i + 1;
    }
    assert(all.subrange(0, all.len() as int) == all);
    out
}

fn show_content(
    store: &Store,
    post_id: PostId,
    content: Content,
    session: Option<UserId>,
    api_url: &str,
) -> (r: Content)
    requires
        store.wf(),
    ensures
        r@ == shown_content(store@, post_id, content@, session, api_url@),
{
    match content {
        Content::Image(image) => {
            let Image { caption, kind } = image;
            Content::Image(Image { caption, kind: show_image_kind(kind, api_url) })
        },
        Content::Poll(poll) => {
            let Poll { headline, choices, voted } = poll;
            let choices = tally_choices(store, post_id, choices);
            let voted = match session {
                Some(u) => did_vote(store, u, post_id),
                None => voted,
            };
            Content::Poll(Poll { headline, choices, voted })
        },
        other => other,
    }
}

/// A user's public profile.
#[derive(Debug)]
pub struct PublicUserProfile {
    pub id: UserId,
    pub display_name: Option<DisplayName>,
    pub handle: Username,
}

/// A post as one viewer sees it, with live counts.
#[derive(Debug)]
pub struct PublicPost {
    pub id: PostId,
    pub by_user: PublicUserProfile,
    pub content: Content,
    pub time_posted: i64,
    /// The handle and id of the author of the post replied to, and its id.
    pub reply_to: Option<(Username, UserId, PostId)>,
    pub like_status: LikeStatus,
    pub bookmarked: bool,
    pub boosted: bool,
    pub likes: u64,
    pub dislikes: u64,
    pub boosts: u64,
}

/// Why a post could not be materialized. The caller assembling a feed
/// skips the post and goes on.
#[derive(Clone, Copy, Debug, PartialEq, Eq, Structural)]
pub enum PublicPostError {
    /// The stored payload matches none of the content variants.
    ContentDecode,
    /// The author, the post replied to, or its author is not stored.
    NotFound,
}

pub open spec fn display_name_view(d: Option<DisplayName>) -> Option<Seq<char>> {
    match d {
        Some(n) => Some(n@),
        None => None,
    }
}

/// The author of `post`, the post it replies to, and that post's author are stored.
pub open spec fn references_found(s: StoreView, post: Post) -> bool {
    &&& user_with_id(s.users, post.user_id) is Some
    &&& (post.reply_to matches Some(rid) ==> (post_with_id(s.posts, rid) matches Some(op)
        && user_with_id(s.users, op.user_id) is Some))
}

/// `p` is the public profile of `u`.
pub open spec fn profile_of(p: PublicUserProfile, u: User) -> bool {
    &&& p.id == u.id
    &&& p.handle@ == u.handle@
    &&& display_name_view(p.display_name) == display_name_view(u.display_name)
}

/// The viewer's reaction to post `p`; none without a viewer.
pub open spec fn viewer_like_status(s: StoreView, viewer: Option<UserId>, p: PostId) -> LikeStatus {
    match viewer {
        Some(u) => like_status_of(reaction_status(s.reactions, u, p)),
        None => LikeStatus::NoReaction,
    }
}

/// `pp` is the public form of `post`, whose payload decodes to `c`, for
/// `viewer`, with images linked under `base`.
pub open spec fn public_form(
    s: StoreView,
    post: Post,
    c: ContentView,
    viewer: Option<UserId>,
    base: Seq<char>,
    pp: PublicPost,
) -> bool {
    &&& pp.id == post.id
    &&& profile_of(pp.by_user, user_with_id(s.users, post.user_id)->Some_0)
    &&& pp.content@ == shown_content(s, post.id, c, viewer, base)
    &&& pp.time_posted == post.time_posted
    &&& match post.reply_to {
        None => pp.reply_to is None,
        Some(rid) => pp.reply_to matches Some(q) && q.2 == rid && q.1 == user_with_id(
            s.users,
            post_with_id(s.posts, rid)->Some_0.user_id,
        )->Some_0.id && q.0@ == user_with_id(
            s.users,
            post_with_id(s.posts, rid)->Some_0.user_id,
        )->Some_0.handle@,
    }
    &&& pp.like_status == viewer_like_status(s, viewer, post.id)
    &&& pp.bookmarked == (viewer matches Some(u) && has_key(s.bookmarks, u, post.id))
    &&& pp.boosted == (viewer matches Some(u) && has_key(s.boosts, u, post.id))
    &&& pp.likes == count_status(s.reactions, post.id, 1i16)
    &&& pp.dislikes == count_status(s.reactions, post.id, -1i16)
    &&& pp.boosts == count_post(s.boosts, post.id)
}

fn public_profile(u: &User) -> (r: PublicUserProfile)
    ensures
        profile_of(r, *u),
{
    let display_name = match &u.display_name {
        Some(d) => Some(d.clone()),
        None => None,
    };
    PublicUserProfile { id: u.id, display_name, handle: u.handle.clone() }
}

/// The public form of `post` for `session` (the viewer, if signed in), with
/// images linked under the service's URL `api_url`. A payload that does not
/// decode gives `ContentDecode`; a missing author or replied-to post gives
/// `NotFound`. Without a viewer the reaction is none and the post is
/// neither bookmarked nor boosted.
pub fn to_public(store: &Store, post: &Post, session: Option<UserId>, api_url: &str) -> (r: Result<
    PublicPost,
    PublicPostError,
>)
    requires
        store.wf(),
    ensures
        match decode_content(post.content.0) {
            None => r == Err::<PublicPost, PublicPostError>(PublicPostError::ContentDecode),
            Some(c) => if references_found(store@, *post) {
                r matches Ok(pp) && public_form(store@, *post, c, session, api_url@, pp)
            } else {
                r == Err::<PublicPost, PublicPostError>(PublicPostError::NotFound)
            },
        },
{
    let info = aggregate_reactions(store, post.id);
    let content = match Content::from_json(&post.content.0) {
        Ok(c) => c,
        Err(_) => return Err(PublicPostError::ContentDecode),
    };
    let content = show_content(store, post.id, content, session, api_url);
    let by_user = match get_user(store, post.user_id) {
        Ok(u) => public_profile(u),
        Err(_) => return Err(PublicPostError::NotFound),
    };
    let reply_to = match post.reply_to {
        Some(other_post_id) => {
            let replied_post = match get(store, other_post_id) {
                Ok(p) => p,
                Err(_) => return Err(PublicPostError::NotFound),
            };
            let replied_author = match get_user(store, replied_post.user_id) {
                Ok(u) => u,
                Err(_) => return Err(PublicPostError::NotFound),
            };
            Some((replied_author.handle.clone(), replied_author.id, other_post_id))
        },
        None => None,
    };
    let like_status = match session {
        Some(u) => match get_reaction(store, post.id, u) {
            Some(reaction) => LikeStatus::from_value(reaction.like_status),
            None => LikeStatus::NoReaction,
        },
        None => LikeStatus::NoReaction,
    };
    let bookmarked = match session {
        Some(u) => get_bookmark(store, u, post.id),
        None => false,
    };
    let boosted = match session {
        Some(u) => get_boost(store, u, post.id),
        None => false,
    };
    Ok(PublicPost {
        id: post.id,
        by_user,
        content,
        time_posted: post.time_posted,
        reply_to,
        like_status,
        bookmarked,
        boosted,
        likes: info.likes,
        dislikes: info.dislikes,
        boosts: info.boosts,
    })
}

/// Post `id` is stored, its payload decodes and its references are stored.
pub open spec fn materializes(s: StoreView, id: PostId) -> bool {
    post_with_id(s.posts, id) matches Some(p) && decode_content(p.content.0) is Some
        && references_found(s, p)
}

/// The ids of `ids` whose posts materialize, in order.
pub open spec fn kept_posts(s: StoreView, ids: Seq<PostId>) -> Seq<PostId>
    decreases ids.len(),
{
    if ids.len() == 0 {
        Seq::empty()
    } else if materializes(s, ids.last()) {
        kept_posts(s, ids.drop_last()).push(ids.last())
    } else {
        kept_posts(s, ids.drop_last())
    }
}

/// `pp` is the public form of stored post `id`.
pub open spec fn public_form_of(
    s: StoreView,
    id: PostId,
    viewer: Option<UserId>,
    base: Seq<char>,
    pp: PublicPost,
) -> bool {
    public_form(
        s,
        post_with_id(s.posts, id)->Some_0,
        decode_content(post_with_id(s.posts, id)->Some_0.content.0)->Some_0,
        viewer,
        base,
        pp,
    )
}

/// `feed` holds the public forms of the posts of `ids` that materialize,
/// in order.
pub open spec fn feed_of(
    s: StoreView,
    ids: Seq<PostId>,
    viewer: Option<UserId>,
    base: Seq<char>,
    feed: Seq<PublicPost>,
) -> bool {
    &&& feed.len() == kept_posts(s, ids).len()
    &&& forall|k: int|
        0 <= k < feed.len() ==> public_form_of(s, kept_posts(s, ids)[k], viewer, base, #[trigger] feed[k])
}

/// The public forms of the posts `post_ids`, in order. A post that cannot
/// be materialized is skipped; the others are all there.
pub fn public_feed(store: &Store, post_ids: &Vec<PostId>, session: Option<UserId>, api_url: &str) -> (r:
    Vec<PublicPost>)
    requires
        store.wf(),
    ensures
        feed_of(store@, post_ids@, session, api_url@, r@),
{
    let mut posts: Vec<PublicPost> = Vec::new();
    let mut i: usize = 0;
    while i < post_ids.len()
        invariant
            i <= post_ids@.len(),
            store.wf(),
            posts@.len() == kept_posts(store@, post_ids@.subrange(0, i as int)).len(),
            forall|k: int|
                0 <= k < posts@.len() ==> public_form_of(
                    store@,
                    kept_posts(store@, post_ids@.subrange(0, i as int))[k],
                    session,
                    api_url@,
                    #[trigger] posts@[k],
                ),
        decreases post_ids@.len() - i,
    {
        let ghost prefix = post_ids@.subrange(0, i as int);
        let ghost next = post_ids@.subrange(0, i + 1);
        assert(next.drop_last() == prefix);
        assert(next.last() == post_ids@[i as int]);
        let id = post_ids[i];
        if let Ok(post) = get(store, id) {
            match to_public(store, post, session, api_url) {
                Ok(pp) => {
                    posts.push(pp);
                },
                Err(_) => {},
            }
        }
        i = i + 1;
    }
    assert(post_ids@.subrange(0, post_ids@.len() as int) == post_ids@);
    posts
}

proof fn lemma_all_kept(s: StoreView, ids: Seq<PostId>)
    requires
        forall|i: int| 0 <= i < ids.len() ==> materializes(s, #[trigger] ids[i]),
    ensures
        kept_posts(s, ids).len() == ids.len(),
    decreases ids.len(),
{
    if ids.len() > 0 {
        let init = ids.drop_last();
        assert forall|i: int| 0 <= i < init.len() implies materializes(s, #[trigger] init[i]) by {
            assert(init[i] == ids[i]);
        }
        lemma_all_kept(s, init);
        assert(materializes(s, ids[ids.len() - 1]));
    }
}

/// In a feed of stored posts whose references are all stored, where exactly
/// one post's payload does not decode, every post but that one is kept.
pub proof fn lemma_one_corrupt_post(s: StoreView, ids: Seq<PostId>, bad: int)
    requires
        0 <= bad < ids.len(),
        forall|i: int|
            0 <= i < ids.len() ==> (post_with_id(s.posts, #[trigger] ids[i]) matches Some(p)
                && references_found(s, p)),
        forall|i: int|
            0 <= i < ids.len() && i != bad ==> decode_content(
                post_with_id(s.posts, #[trigger] ids[i])->Some_0.content.0,
            ) is Some,
        decode_content(post_with_id(s.posts, ids[bad])->Some_0.content.0) is None,
    ensures
        kept_posts(s, ids).len() == ids.len() - 1,
    decreases ids.len(),
{
    let init = ids.drop_last();
    if bad == ids.len() - 1 {
        assert forall|i: int| 0 <= i < init.len() implies materializes(s, #[trigger] init[i]) by {
            assert(init[i] == ids[i]);
        }
        lemma_all_kept(s, init);
    } else {
        assert forall|i: int| 0 <= i < init.len() implies (post_with_id(s.posts, #[trigger] init[i]) matches Some(p)
            && references_found(s, p)) by {
            assert(init[i] == ids[i]);
        }
        assert forall|i: int| 0 <= i < init.len() && i != bad implies decode_content(
            post_with_id(s.posts, #[trigger] init[i])->Some_0.content.0,
        ) is Some by {
            assert(init[i] == ids[i]);
        }
        assert(init[bad] == ids[bad]);
        lemma_one_corrupt_post(s, init, bad);
        assert(materializes(s, ids[ids.len() - 1]));
    }
}

impl React {
    /// Records the signed-in user's reaction at time `now` and returns the
    /// post's live like and dislike counts after it.
    pub fn process_request(self, store: &mut Store, user_id: UserId, now: i64) -> (r: ReactOk)
        requires
            old(store).wf(),
        ensures
            final(store).wf(),
            final(store)@ == (StoreView {
                reactions: upsert_reaction(
                    old(store)@.reactions,
                    Reaction {
                        user_id,
                        post_id: self.post_id,
                        created_at: now,
                        like_status: like_status_value(self.like_status),
                        reaction: None,
                    },
                ),
                ..old(store)@
            }),
            r.like_status == self.like_status,
            r.likes == count_status(final(store)@.reactions, self.post_id, 1i16),
            r.dislikes == count_status(final(store)@.reactions, self.post_id, -1i16),
    {
        let reaction = Reaction {
            post_id: self.post_id,
            user_id,
            reaction: None,
            like_status: self.like_status.to_value(),
            created_at: now,
        };
        react(store, reaction);
        let info = aggregate_reactions(store, self.post_id);
        ReactOk { like_status: self.like_status, likes: info.likes, dislikes: info.dislikes }
    }
}

impl Bookmark {
    /// Adds or removes the signed-in user's bookmark; either way the action
    /// is reported as done.
    pub fn process_request(self, store: &mut Store, user_id: UserId) -> (r: BookmarkOk)
        requires
            old(store).wf(),
        ensures
            final(store).wf(),
            r.status == self.action,
            self.action == BookmarkAction::Add ==> final(store)@ == (StoreView {
                bookmarks: insert_or_ignore(
                    old(store)@.bookmarks,
                    BookmarkRow { user_id, post_id: self.post_id },
                ),
                ..old(store)@
            }),
            self.action == BookmarkAction::Remove ==> final(store)@ == (StoreView {
                bookmarks: delete_key(old(store)@.bookmarks, user_id, self.post_id),
                ..old(store)@
            }),
    {
        match self.action {
            BookmarkAction::Add => {
                bookmark(store, user_id, self.post_id);
            },
            BookmarkAction::Remove => {
                delete_bookmark(store, user_id, self.post_id);
            },
        }
        BookmarkOk { status: self.action }
    }
}

impl Boost {
    /// Adds (at time `now`) or removes the signed-in user's boost; either way
    /// the action is reported as done.
    pub fn process_request(self, store: &mut Store, user_id: UserId, now: i64) -> (r: BoostOk)
        requires
            old(store).wf(),
        ensures
            final(store).wf(),
            r.status == self.action,
            self.action == BoostAction::Add ==> final(store)@ == (StoreView {
                boosts: insert_or_ignore(
                    old(store)@.boosts,
                    BoostRow { user_id, post_id: self.post_id, boosted_at: now },
                ),
                ..old(store)@
            }),
            self.action == BoostAction::Remove ==> final(store)@ == (StoreView {
                boosts: delete_key(old(store)@.boosts, user_id, self.post_id),
                ..old(store)@
            }),
    {
        match self.action {
            BoostAction::Add => {
                boost(store, user_id, self.post_id, now);
            },
            BoostAction::Remove => {
                delete_boost(store, user_id, self.post_id);
            },
        }
        BoostOk { status: self.action }
    }
}

impl Vote {
    /// Casts the signed-in user's vote at time `now`, once per post.
    pub fn process_request(self, store: &mut Store, user_id: UserId, now: i64) -> (r: VoteOk)
        requires
            old(store).wf(),
        ensures
            final(store).wf(),
            r.cast == vote_cast(old(store)@.votes, user_id, self.post_id),
            final(store)@ == (StoreView {
                votes: insert_or_ignore(
                    old(store)@.votes,
                    VoteRow {
                        user_id,
                        post_id: self.post_id,
                        choice_id: self.choice_id,
                        created_at: now,
                    },
                ),
                ..old(store)@
            }),
    {
        let cast = vote(store, user_id, self.post_id, self.choice_id, now);
        VoteOk { cast }
    }
}

/// Why a new post was not stored.
#[derive(Clone, Copy, Debug, PartialEq, Eq, Structural)]
pub enum NewPostFailure {
    /// The image was not stored as a blob first.
    UnstoredImage,
    /// A post with the new post's id is already stored.
    Conflict,
}

/// The content once an uploaded image has been stored as blob `stored`.
pub open spec fn with_stored_image(c: ContentView, stored: Option<ImageId>) -> ContentView {
    match (c, stored) {
        (ContentView::Image { caption, kind: ImageKindView::DataUrl(_) }, Some(id)) => ContentView::Image {
            caption,
            kind: ImageKindView::Id(id@),
        },
        _ => c,
    }
}

/// The content may be stored: an image must be a stored blob reference.
pub open spec fn storable_view(c: ContentView) -> bool {
    match c {
        ContentView::Image { kind, .. } => kind is Id,
        _ => true,
    }
}

impl NewPost {
    /// The inline image data that must be stored as a blob before the post
    /// can be created, if any.
    pub fn image_to_store(&self) -> (r: Option<&String>)
        ensures
            match self.content@ {
                ContentView::Image { kind: ImageKindView::DataUrl(d), .. } => r matches Some(s)
                    && s@ == d,
                _ => r is None,
            },
    {
        match &self.content {
            Content::Image(image) => match &image.kind {
                ImageKind::DataUrl(data) => Some(data),
                _ => None,
            },
            _ => None,
        }
    }

    /// Creates the post of the signed-in user. `stored_image` is the blob
    /// id under which an inline image was stored, if it was. An image that
    /// is not then a stored blob refuses the post and changes nothing.
    /// Otherwise the post gets a fresh random id and is stored; only where
    /// that id is already taken is it refused with `Conflict`, which cannot
    /// happen in a store without posts.
    pub fn process_request(self, store: &mut Store, user_id: UserId, stored_image: Option<ImageId>) -> (r:
        Result<PostId, NewPostFailure>)
        requires
            old(store).wf(),
        ensures
            final(store).wf(),
            !storable_view(with_stored_image(self.content@, stored_image)) ==> r == Err::<
                PostId,
                NewPostFailure,
            >(NewPostFailure::UnstoredImage) && final(store)@ == old(store)@,
            storable_view(with_stored_image(self.content@, stored_image)) && old(store)@.posts.len()
                == 0 ==> r is Ok,
            match r {
                Ok(id) => post_with_id(old(store)@.posts, id) is None && final(store)@.posts
                    == old(store)@.posts.push(final(store)@.posts.last()) && final(store)@.posts.last().id
                    == id && final(store)@.posts.last().user_id == user_id && decode_content(
                    final(store)@.posts.last().content.0,
                ) == Some(
                    stored_view(with_stored_image(self.content@, stored_image)),
                ) && final(store)@.posts.last().time_posted == self.options.time_posted
                    && final(store)@.posts.last().reply_to == self.options.reply_to
                    && final(store)@.posts.last().direct_message_to
                    == self.options.direct_message_to && final(store)@.users == old(store)@.users
                    && final(store)@.reactions == old(store)@.reactions && final(store)@.boosts
                    == old(store)@.boosts && final(store)@.bookmarks == old(store)@.bookmarks
                    && final(store)@.votes == old(store)@.votes,
                Err(NewPostFailure::UnstoredImage) => !storable_view(
                    with_stored_image(self.content@, stored_image),
                ) && final(store)@ == old(store)@,
                Err(NewPostFailure::Conflict) => final(store)@ == old(store)@,
            },
    {
        let NewPost { content, options } = self;
        let content = match content {
            Content::Image(image) => {
                let Image { caption, kind } = image;
                let kind = match (kind, stored_image) {
                    (ImageKind::DataUrl(_), Some(id)) => ImageKind::Id(id),
                    (other, _) => other,
                };
                Content::Image(Image { caption, kind })
            },
            other => other,
        };
        let post = match Post::new(user_id, content, options) {
            Ok(p) => p,
            Err(NewPostError::UnstoredImage) => return Err(NewPostFailure::UnstoredImage),
        };
        match insert_post(store, post) {
            Ok(id) => Ok(id),
            Err(_) => Err(NewPostFailure::Conflict),
        }
    }
}

impl TrendingPosts {
    /// The newest posts at time `now` as the signed-in user sees them.
    pub fn process_request(self, store: &Store, user_id: UserId, now: i64, api_url: &str) -> (r: Vec<
        PublicPost,
    >)
        requires
            store.wf(),
        ensures
            exists|ids: Seq<PostId>|
                trending_ids(store@.posts, now, ids) && feed_of(
                    store@,
                    ids,
                    Some(user_id),
                    api_url@,
                    r@,
                ),
    {
        let ids = get_trending(store, now);
        public_feed(store, &ids, Some(user_id), api_url)
    }
}

impl LikedPosts {
    /// The posts the signed-in user likes, as they see them.
    pub fn process_request(self, store: &Store, user_id: UserId, api_url: &str) -> (r: Vec<PublicPost>)
        requires
            store.wf(),
        ensures
            feed_of(store@, liked_by(store@.reactions, user_id), Some(user_id), api_url@, r@),
    {
        let ids = get_liked_posts(store, user_id);
        public_feed(store, &ids, Some(user_id), api_url)
    }
}

impl BookmarkedPosts {
    /// The posts the signed-in user has bookmarked, as they see them.
    pub fn process_request(self, store: &Store, user_id: UserId, api_url: &str) -> (r: Vec<PublicPost>)
        requires
            store.wf(),
        ensures
            feed_of(store@, bookmarked_by(store@.bookmarks, user_id), Some(user_id), api_url@, r@),
    {
        let ids = get_bookmarked_posts(store, user_id);
        public_feed(store, &ids, Some(user_id), api_url)
    }
}

} // verus!
