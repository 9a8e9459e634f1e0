//! The store of posts, users and the interaction ledger: reactions, boosts,
//! bookmarks and poll votes, each keyed by (user, post), and the live
//! aggregate counts computed from them.

use vstd::prelude::*;

use crate::domain::{DisplayName, Username};
use crate::content::{decode_content, stored_view, Content as PostContent, ImageKind};
use crate::endpoint::{NewPostOptions, VoteCast};
use crate::ids::{PollChoiceId, PostId, UserId};
use crate::json::Json;

verus! {

/// Relies on `chrono::Utc::now` and `DateTime::timestamp_micros`: the
/// current time in microseconds since the Unix epoch. Nothing is promised
/// of the value.
#[verifier::external_body]
pub(crate) fn now_micros() -> i64 {
    chrono::Utc::now().timestamp_micros()
}

/// Why a post cannot be stored.
#[derive(Clone, Copy, Debug, PartialEq, Eq, Structural)]
pub enum NewPostError {
    /// The content is an image that is not yet a stored blob reference.
    UnstoredImage,
}

/// Whether `c` may be stored: an image must be a stored blob reference.
pub open spec fn storable(c: PostContent) -> bool {
    match c {
        PostContent::Image(i) => i.kind is Id,
        _ => true,
    }
}

/// A post's stored payload: the encoded content variant.
#[derive(Debug)]
pub struct Content(pub Json);

/// A stored post. Times are microseconds since the Unix epoch.
#[derive(Debug)]
pub struct Post {
    pub id: PostId,
    pub user_id: UserId,
    pub content: Content,
    pub time_posted: i64,
    pub direct_message_to: Option<UserId>,
    pub reply_to: Option<PostId>,
    pub created_at: i64,
}

impl Post {
    /// A new post by `posted_by` with a fresh id, created now. Refused while
    /// an image is not yet a stored blob reference.
    pub fn new(posted_by: UserId, content: PostContent, options: NewPostOptions) -> (r: Result<
        Post,
        NewPostError,
    >)
        ensures
            !storable(content) ==> r == Err::<Post, NewPostError>(NewPostError::UnstoredImage),
            storable(content) ==> (r matches Ok(p) && p.user_id == posted_by && decode_content(
                p.content.0,
            ) == Some(stored_view(content@)) && p.time_posted == options.time_posted
                && p.direct_message_to == options.direct_message_to && p.reply_to
                == options.reply_to),
    {
        if let PostContent::Image(image) = &content {
            match &image.kind {
                ImageKind::Id(_) => {},
                _ => return Err(NewPostError::UnstoredImage),
            }
        }
        Ok(Post {
            id: PostId::new(),
            user_id: posted_by,
            content: Content(content.to_json()),
            time_posted: options.time_posted,
            direct_message_to: options.direct_message_to,
            reply_to: options.reply_to,
            created_at: now_micros(),
        })
    }
}

/// A registered user, as the store keeps it.
#[derive(Debug)]
pub struct User {
    pub id: UserId,
    pub handle: Username,
    pub display_name: Option<DisplayName>,
}

/// Free-form data attached to a reaction.
#[derive(Debug)]
pub struct ReactionData(pub Json);

/// A user's reaction to a post: `like_status` is 1 for a like, -1 for a
/// dislike and 0 for none.
#[derive(Debug)]
pub struct Reaction {
    pub user_id: UserId,
    pub post_id: PostId,
    pub created_at: i64,
    pub like_status: i16,
    pub reaction: Option<ReactionData>,
}

/// A user's boost of a post.
#[derive(Clone, Copy, Debug, PartialEq, Eq, Structural)]
pub struct BoostRow {
    pub user_id: UserId,
    pub post_id: PostId,
    pub boosted_at: i64,
}

/// A user's bookmark of a post.
#[derive(Clone, Copy, Debug, PartialEq, Eq, Structural)]
pub struct BookmarkRow {
    pub user_id: UserId,
    pub post_id: PostId,
}

/// A user's vote on a poll post.
#[derive(Clone, Copy, Debug, PartialEq, Eq, Structural)]
pub struct VoteRow {
    pub user_id: UserId,
    pub post_id: PostId,
    pub choice_id: PollChoiceId,
    pub created_at: i64,
}

/// The error of a store operation.
#[derive(Clone, Copy, Debug, PartialEq, Eq, Structural)]
pub enum QueryError {
    /// No row has the key asked for.
    NotFound,
    /// A row with the same key is already stored.
    Conflict,
}

/// Whether a delete removed a row.
#[derive(Clone, Copy, Debug, PartialEq, Eq, Structural)]
pub enum DeleteStatus {
    Deleted,
    NotFound,
}

/// Live counts for one post.
#[derive(Clone, Copy, Debug, PartialEq, Eq, Structural)]
pub struct AggregatePostInfo {
    pub post_id: PostId,
    pub likes: u64,
    pub dislikes: u64,
    pub boosts: u64,
}

/// A ledger row keyed by the user who made it and the post it is about.
pub trait Keyed {
    spec fn user_of(&self) -> UserId;

    spec fn post_of(&self) -> PostId;

    fn user_post(&self) -> (r: (UserId, PostId))
        ensures
            r == (self.user_of(), self.post_of()),
    ;
}

impl Keyed for Reaction {
    open spec fn user_of(&self) -> UserId {
        self.user_id
    }

    open spec fn post_of(&self) -> PostId {
        self.post_id
    }

    fn user_post(&self) -> (r: (UserId, PostId)) {
        (self.user_id, self.post_id)
    }
}

impl Keyed for BoostRow {
    open spec fn user_of(&self) -> UserId {
        self.user_id
    }

    open spec fn post_of(&self) -> PostId {
        self.post_id
    }

    fn user_post(&self) -> (r: (UserId, PostId)) {
        (self.user_id, self.post_id)
    }
}

impl Keyed for BookmarkRow {
    open spec fn user_of(&self) -> UserId {
        self.user_id
    }

    open spec fn post_of(&self) -> PostId {
        self.post_id
    }

    fn user_post(&self) -> (r: (UserId, PostId)) {
        (self.user_id, self.post_id)
    }
}

impl Keyed for VoteRow {
    open spec fn user_of(&self) -> UserId {
        self.user_id
    }

    open spec fn post_of(&self) -> PostId {
        self.post_id
    }

    fn user_post(&self) -> (r: (UserId, PostId)) {
        (self.user_id, self.post_id)
    }
}

/// Row `i` has the key (u, p).
pub open spec fn has_key_at<R: Keyed>(rows: Seq<R>, i: int, u: UserId, p: PostId) -> bool {
    0 <= i < rows.len() && rows[i].user_of() == u && rows[i].post_of() == p
}

/// Some row has the key (u, p).
pub open spec fn has_key<R: Keyed>(rows: Seq<R>, u: UserId, p: PostId) -> bool {
    exists|i: int| has_key_at(rows, i, u, p)
}

/// No two rows share a key.
pub open spec fn keys_unique<R: Keyed>(rows: Seq<R>) -> bool {
    forall|i: int, j: int|
        0 <= i < rows.len() && 0 <= j < rows.len() && i != j ==> !(#[trigger] rows[i].user_of()
            == #[trigger] rows[j].user_of() && rows[i].post_of() == rows[j].post_of())
}

/// The position of the row with key (u, p), if there is one.
pub open spec fn key_index<R: Keyed>(rows: Seq<R>, u: UserId, p: PostId) -> Option<int> {
    if has_key(rows, u, p) {
        Some(choose|i: int| has_key_at(rows, i, u, p))
    } else {
        None
    }
}

/// Exactly one row has the key (u, p).
pub open spec fn exactly_one<R: Keyed>(rows: Seq<R>, u: UserId, p: PostId) -> bool {
    exists|i: int|
        has_key_at(rows, i, u, p) && forall|j: int|
            0 <= j < rows.len() && j != i ==> !#[trigger] has_key_at(rows, j, u, p)
}

/// Insert `row` unless a row with its key is there.
pub open spec fn insert_or_ignore<R: Keyed>(rows: Seq<R>, row: R) -> Seq<R> {
    if has_key(rows, row.user_of(), row.post_of()) {
        rows
    } else {
        rows.push(row)
    }
}

/// Remove the row with key (u, p), if there is one.
pub open spec fn delete_key<R: Keyed>(rows: Seq<R>, u: UserId, p: PostId) -> Seq<R> {
    match key_index(rows, u, p) {
        Some(i) => rows.remove(i),
        None => rows,
    }
}

/// Insert `r`, or where a reaction with its key is there, set that row's
/// status and data to those of `r` (its creation time stays).
pub open spec fn upsert_reaction(rows: Seq<Reaction>, r: Reaction) -> Seq<Reaction> {
    match key_index(rows, r.user_id, r.post_id) {
        Some(i) => rows.update(
            i,
            Reaction { like_status: r.like_status, reaction: r.reaction, ..rows[i] },
        ),
        None => rows.push(r),
    }
}

/// The number of reactions to `p` with status `s`.
pub open spec fn count_status(rows: Seq<Reaction>, p: PostId, s: i16) -> nat
    decreases rows.len(),
{
    if rows.len() == 0 {
        0
    } else {
        count_status(rows.drop_last(), p, s) + if rows.last().post_id == p
            && rows.last().like_status == s {
            1nat
        } else {
            0nat
        }
    }
}

/// The number of rows about `p`.
pub open spec fn count_post<R: Keyed>(rows: Seq<R>, p: PostId) -> nat
    decreases rows.len(),
{
    if rows.len() == 0 {
        0
    } else {
        count_post(rows.drop_last(), p) + if rows.last().post_of() == p {
            1nat
        } else {
            0nat
        }
    }
}

/// The number of votes on `p` for choice `c`.
pub open spec fn count_choice(rows: Seq<VoteRow>, p: PostId, c: PollChoiceId) -> nat
    decreases rows.len(),
{
    if rows.len() == 0 {
        0
    } else {
        count_choice(rows.drop_last(), p, c) + if rows.last().post_id == p
            && rows.last().choice_id == c {
            1nat
        } else {
            0nat
        }
    }
}

/// No two posts share an id.
pub open spec fn post_ids_unique(posts: Seq<Post>) -> bool {
    forall|i: int, j: int|
        0 <= i < posts.len() && 0 <= j < posts.len() && i != j ==> #[trigger] posts[i].id
            != #[trigger] posts[j].id
}

/// No two users share an id.
pub open spec fn user_ids_unique(users: Seq<User>) -> bool {
    forall|i: int, j: int|
        0 <= i < users.len() && 0 <= j < users.len() && i != j ==> #[trigger] users[i].id
            != #[trigger] users[j].id
}

/// The post with id `id`, if one is stored.
pub open spec fn post_with_id(posts: Seq<Post>, id: PostId) -> Option<Post> {
    if exists|i: int| 0 <= i < posts.len() && posts[i].id == id {
        Some(posts[choose|i: int| 0 <= i < posts.len() && posts[i].id == id])
    } else {
        None
    }
}

/// The user with id `id`, if one is stored.
pub open spec fn user_with_id(users: Seq<User>, id: UserId) -> Option<User> {
    if exists|i: int| 0 <= i < users.len() && users[i].id == id {
        Some(users[choose|i: int| 0 <= i < users.len() && users[i].id == id])
    } else {
        None
    }
}

/// The contents of a store.
pub struct StoreView {
    pub posts: Seq<Post>,
    pub users: Seq<User>,
    pub reactions: Seq<Reaction>,
    pub boosts: Seq<BoostRow>,
    pub bookmarks: Seq<BookmarkRow>,
    pub votes: Seq<VoteRow>,
}

impl StoreView {
    /// Every unique key is unique.
    pub open spec fn wf(self) -> bool {
        &&& post_ids_unique(self.posts)
        &&& user_ids_unique(self.users)
        &&& keys_unique(self.reactions)
        &&& keys_unique(self.boosts)
        &&& keys_unique(self.bookmarks)
        &&& keys_unique(self.votes)
    }
}

/// Posts, users and the interaction ledger.
pub struct Store {
    posts: Vec<Post>,
    users: Vec<User>,
    reactions: Vec<Reaction>,
    boosts: Vec<BoostRow>,
    bookmarks: Vec<BookmarkRow>,
    votes: Vec<VoteRow>,
}

impl View for Store {
    type V = StoreView;

    closed spec fn view(&self) -> StoreView {
        StoreView {
            posts: self.posts@,
            users: self.users@,
            reactions: self.reactions@,
            boosts: self.boosts@,
            bookmarks: self.bookmarks@,
            votes: self.votes@,
        }
    }
}

impl Store {
    pub open spec fn wf(&self) -> bool {
        self@.wf()
    }

    /// An empty store.
    pub fn new() -> (r: Store)
        ensures
            r.wf(),
            r@.posts.len() == 0,
            r@.users.len() == 0,
            r@.reactions.len() == 0,
            r@.boosts.len() == 0,
            r@.bookmarks.len() == 0,
            r@.votes.len() == 0,
    {
        Store {
            posts: Vec::new(),
            users: Vec::new(),
            reactions: Vec::new(),
            boosts: Vec::new(),
            bookmarks: Vec::new(),
            votes: Vec::new(),
        }
    }
}

/// Where keys are unique, the row with a key is the one `key_index` picks.
pub proof fn lemma_key_index<R: Keyed>(rows: Seq<R>, i: int, u: UserId, p: PostId)
    requires
        keys_unique(rows),
        has_key_at(rows, i, u, p),
    ensures
        key_index(rows, u, p) == Some(i),
{
    assert(has_key(rows, u, p));
    let k = choose|k: int| has_key_at(rows, k, u, p);
    if k != i {
        assert(!(rows[k].user_of() == rows[i].user_of() && rows[k].post_of() == rows[i].post_of()));
    }
}

/// The position of the row with key (u, p), if there is one.
pub fn find_row<R: Keyed>(rows: &Vec<R>, u: UserId, p: PostId) -> (r: Option<usize>)
    requires
        keys_unique(rows@),
    ensures
        match key_index(rows@, u, p) {
            Some(i) => r == Some(i as usize),
            None => r is None,
        },
        r matches Some(i) ==> has_key_at(rows@, i as int, u, p),
{
    let mut i: usize = 0;
    while i < rows.len()
        invariant
            i <= rows@.len(),
            keys_unique(rows@),
            forall|j: int| 0 <= j < i ==> !has_key_at(rows@, j, u, p),
        decreases rows@.len() - i,
    {
        let (ru, rp) = rows[i].user_post();
        if ru == u && rp == p {
            proof {
                lemma_key_index(rows@, i as int, u, p);
            }
            return Some(i);
        }
        i = i + 1;
    }
    None
}

/// Appending a row whose key is absent keeps keys unique.
pub proof fn lemma_push_unique<R: Keyed>(rows: Seq<R>, row: R)
    requires
        keys_unique(rows),
        !has_key(rows, row.user_of(), row.post_of()),
    ensures
        keys_unique(rows.push(row)),
{
    let s = rows.push(row);
    assert forall|i: int, j: int|
        0 <= i < s.len() && 0 <= j < s.len() && i != j implies !(#[trigger] s[i].user_of()
        == #[trigger] s[j].user_of() && s[i].post_of() == s[j].post_of()) by {
        if i == rows.len() {
            assert(!has_key_at(rows, j, row.user_of(), row.post_of()));
        } else if j == rows.len() {
            assert(!has_key_at(rows, i, row.user_of(), row.post_of()));
        } else {
            assert(s[i] == rows[i] && s[j] == rows[j]);
        }
    }
}

/// Removing a row keeps keys unique, and the removed key is then absent.
pub proof fn lemma_remove_unique<R: Keyed>(rows: Seq<R>, k: int)
    requires
        keys_unique(rows),
        0 <= k < rows.len(),
    ensures
        keys_unique(rows.remove(k)),
        !has_key(rows.remove(k), rows[k].user_of(), rows[k].post_of()),
{
    let s = rows.remove(k);
    assert forall|i: int, j: int|
        0 <= i < s.len() && 0 <= j < s.len() && i != j implies !(#[trigger] s[i].user_of()
        == #[trigger] s[j].user_of() && s[i].post_of() == s[j].post_of()) by {
        let oi = if i < k { i } else { i + 1 };
        let oj = if j < k { j } else { j + 1 };
        assert(s[i] == rows[oi] && s[j] == rows[oj]);
        assert(rows[oi].user_of() == rows[oi].user_of());
        assert(rows[oj].user_of() == rows[oj].user_of());
    }
    if has_key(s, rows[k].user_of(), rows[k].post_of()) {
        let i = choose|i: int| has_key_at(s, i, rows[k].user_of(), rows[k].post_of());
        let oi = if i < k { i } else { i + 1 };
        assert(s[i] == rows[oi]);
        assert(rows[oi].user_of() == rows[k].user_of());
    }
}

/// Whether some row has the key (u, p).
fn contains_key<R: Keyed>(rows: &Vec<R>, u: UserId, p: PostId) -> (r: bool)
    requires
        keys_unique(rows@),
    ensures
        r == has_key(rows@, u, p),
{
    match find_row(rows, u, p) {
        Some(_) => true,
        None => false,
    }
}

/// Appends `row` unless a row with its key is there; says whether it did.
fn insert_row<R: Keyed>(rows: &mut Vec<R>, row: R) -> (r: bool)
    requires
        keys_unique(old(rows)@),
    ensures
        keys_unique(final(rows)@),
        final(rows)@ == insert_or_ignore(old(rows)@, row),
        r == !has_key(old(rows)@, row.user_of(), row.post_of()),
{
    let (u, p) = row.user_post();
    if contains_key(rows, u, p) {
        false
    } else {
        proof {
            lemma_push_unique(rows@, row);
        }
        rows.push(row);
        true
    }
}

/// Removes the row with key (u, p); says whether there was one.
fn remove_row<R: Keyed>(rows: &mut Vec<R>, u: UserId, p: PostId) -> (r: DeleteStatus)
    requires
        keys_unique(old(rows)@),
    ensures
        keys_unique(final(rows)@),
        final(rows)@ == delete_key(old(rows)@, u, p),
        !has_key(final(rows)@, u, p),
        r == (if has_key(old(rows)@, u, p) {
            DeleteStatus::Deleted
        } else {
            DeleteStatus::NotFound
        }),
{
    match find_row(rows, u, p) {
        Some(i) => {
            proof {
                lemma_remove_unique(rows@, i as int);
            }
            rows.remove(i);
            DeleteStatus::Deleted
        },
        None => DeleteStatus::NotFound,
    }
}

/// The number of rows about `p`.
fn count_rows<R: Keyed>(rows: &Vec<R>, p: PostId) -> (r: u64)
    ensures
        r == count_post(rows@, p),
{
    let mut n: u64 = 0;
    let mut i: usize = 0;
    while i < rows.len()
        invariant
            i <= rows@.len(),
            n <= i,
            n == count_post(rows@.subrange(0, i as int), p),
        decreases rows@.len() - i,
    {
        assert(rows@.subrange(0, i + 1).drop_last() == rows@.subrange(0, i as int));
        let (_, rp) = rows[i].user_post();
        if rp == p {
            n = n + 1;
        }
        i = i + 1;
    }
    assert(rows@.subrange(0, rows@.len() as int) == rows@);
    n
}

/// The number of reactions to `p` with status `s`.
fn count_reactions(rows: &Vec<Reaction>, p: PostId, s: i16) -> (r: u64)
    ensures
        r == count_status(rows@, p, s),
{
    let mut n: u64 = 0;
    let mut i: usize = 0;
    while i < rows.len()
        invariant
            i <= rows@.len(),
            n <= i,
            n == count_status(rows@.subrange(0, i as int), p, s),
        decreases rows@.len() - i,
    {
        assert(rows@.subrange(0, i + 1).drop_last() == rows@.subrange(0, i as int));
        if rows[i].post_id == p && rows[i].like_status == s {
            n = n + 1;
        }
        i = i + 1;
    }
    assert(rows@.subrange(0, rows@.len() as int) == rows@);
    n
}

/// The number of votes on `p` for choice `c`.
fn count_votes(rows: &Vec<VoteRow>, p: PostId, c: PollChoiceId) -> (r: u64)
    ensures
        r == count_choice(rows@, p, c),
{
    let mut n: u64 = 0;
    let mut i: usize = 0;
    while i < rows.len()
        invariant
            i <= rows@.len(),
            n <= i,
            n == count_choice(rows@.subrange(0, i as int), p, c),
        decreases rows@.len() - i,
    {
        assert(rows@.subrange(0, i + 1).drop_last() == rows@.subrange(0, i as int));
        if rows[i].post_id == p && rows[i].choice_id == c {
            n = n + 1;
        }
        i = i + 1;
    }
    assert(rows@.subrange(0, rows@.len() as int) == rows@);
    n
}

/// The number of votes on `post_id` for choice `choice_id`.
pub fn count_votes_of(store: &Store, post_id: PostId, choice_id: PollChoiceId) -> (r: u64)
    ensures
        r == count_choice(store@.votes, post_id, choice_id),
{
    count_votes(&store.votes, post_id, choice_id)
}

/// Bookmarks `post_id` for `user_id`. A bookmark that is already there stays
/// as it is, so the call may be repeated.
pub fn bookmark(store: &mut Store, user_id: UserId, post_id: PostId)
    requires
        old(store).wf(),
    ensures
        final(store).wf(),
        final(store)@ == (StoreView {
            bookmarks: insert_or_ignore(old(store)@.bookmarks, BookmarkRow { user_id, post_id }),
            ..old(store)@
        }),
{
    insert_row(&mut store.bookmarks, BookmarkRow { user_id, post_id });
}

/// Removes the bookmark of `post_id` by `user_id`: `Deleted` if there was
/// one, else `NotFound` with nothing changed.
pub fn delete_bookmark(store: &mut Store, user_id: UserId, post_id: PostId) -> (r: DeleteStatus)
    requires
        old(store).wf(),
    ensures
        final(store).wf(),
        final(store)@ == (StoreView {
            bookmarks: delete_key(old(store)@.bookmarks, user_id, post_id),
            ..old(store)@
        }),
        !has_key(final(store)@.bookmarks, user_id, post_id),
        has_key(old(store)@.bookmarks, user_id, post_id) ==> r == DeleteStatus::Deleted,
        !has_key(old(store)@.bookmarks, user_id, post_id) ==> r == DeleteStatus::NotFound
            && final(store)@ == old(store)@,
{
    remove_row(&mut store.bookmarks, user_id, post_id)
}

/// Whether `user_id` has bookmarked `post_id`.
pub fn get_bookmark(store: &Store, user_id: UserId, post_id: PostId) -> (r: bool)
    requires
        store.wf(),
    ensures
        r == has_key(store@.bookmarks, user_id, post_id),
{
    contains_key(&store.bookmarks, user_id, post_id)
}

/// Boosts `post_id` for `user_id` at time `boosted_at`. A boost that is
/// already there stays as it is.
pub fn boost(store: &mut Store, user_id: UserId, post_id: PostId, boosted_at: i64)
    requires
        old(store).wf(),
    ensures
        final(store).wf(),
        final(store)@ == (StoreView {
            boosts: insert_or_ignore(old(store)@.boosts, BoostRow { user_id, post_id, boosted_at }),
            ..old(store)@
        }),
{
    insert_row(&mut store.boosts, BoostRow { user_id, post_id, boosted_at });
}

/// Removes the boost of `post_id` by `user_id`: `Deleted` if there was
/// one, else `NotFound` with nothing changed.
pub fn delete_boost(store: &mut Store, user_id: UserId, post_id: PostId) -> (r: DeleteStatus)
    requires
        old(store).wf(),
    ensures
        final(store).wf(),
        final(store)@ == (StoreView {
            boosts: delete_key(old(store)@.boosts, user_id, post_id),
            ..old(store)@
        }),
        !has_key(final(store)@.boosts, user_id, post_id),
        has_key(old(store)@.boosts, user_id, post_id) ==> r == DeleteStatus::Deleted,
        !has_key(old(store)@.boosts, user_id, post_id) ==> r == DeleteStatus::NotFound
            && final(store)@ == old(store)@,
{
    remove_row(&mut store.boosts, user_id, post_id)
}

/// Whether `user_id` has boosted `post_id`.
pub fn get_boost(store: &Store, user_id: UserId, post_id: PostId) -> (r: bool)
    requires
        store.wf(),
    ensures
        r == has_key(store@.boosts, user_id, post_id),
{
    contains_key(&store.boosts, user_id, post_id)
}

/// Records `reaction`. Where its user already reacted to its post, that
/// row's status and data are overwritten: reactions never accumulate.
pub fn react(store: &mut Store, reaction: Reaction)
    requires
        old(store).wf(),
    ensures
        final(store).wf(),
        final(store)@ == (StoreView {
            reactions: upsert_reaction(old(store)@.reactions, reaction),
            ..old(store)@
        }),
{
    match find_row(&store.reactions, reaction.user_id, reaction.post_id) {
        Some(i) => {
            let ghost before = store.reactions@;
            let created_at = store.reactions[i].created_at;
            let row = Reaction {
                user_id: reaction.user_id,
                post_id: reaction.post_id,
                created_at,
                like_status: reaction.like_status,
                reaction: reaction.reaction,
            };
            store.reactions[i] = row;
            proof {
                let after = store.reactions@;
                assert forall|a: int, b: int|
                    0 <= a < after.len() && 0 <= b < after.len() && a != b implies !(
                #[trigger] after[a].user_of() == #[trigger] after[b].user_of()
                    && after[a].post_of() == after[b].post_of()) by {
                    assert(after[a].user_of() == before[a].user_of());
                    assert(after[b].user_of() == before[b].user_of());
                    assert(before[a].user_of() == before[a].user_of());
                    assert(before[b].user_of() == before[b].user_of());
                }
            }
        },
        None => {
            proof {
                lemma_push_unique(store.reactions@, reaction);
            }
            store.reactions.push(reaction);
        },
    }
}

/// The reaction of `user_id` to `post_id`, if there is one.
pub fn get_reaction(store: &Store, post_id: PostId, user_id: UserId) -> (r: Option<&Reaction>)
    requires
        store.wf(),
    ensures
        match key_index(store@.reactions, user_id, post_id) {
            Some(i) => r matches Some(x) && *x == store@.reactions[i],
            None => r is None,
        },
{
    match find_row(&store.reactions, user_id, post_id) {
        Some(i) => Some(&store.reactions[i]),
        None => None,
    }
}

/// The live likes, dislikes and boosts of `post_id`, counted from the ledger.
pub fn aggregate_reactions(store: &Store, post_id: PostId) -> (r: AggregatePostInfo)
    ensures
        r.post_id == post_id,
        r.likes == count_status(store@.reactions, post_id, 1i16),
        r.dislikes == count_status(store@.reactions, post_id, -1i16),
        r.boosts == count_post(store@.boosts, post_id),
{
    let likes = count_reactions(&store.reactions, post_id, 1);
    let dislikes = count_reactions(&store.reactions, post_id, -1);
    let boosts = count_rows(&store.boosts, post_id);
    AggregatePostInfo { post_id, likes, dislikes, boosts }
}

/// The outcome of a vote by `user_id` on `post_id` given the stored votes.
pub open spec fn vote_cast(votes: Seq<VoteRow>, user_id: UserId, post_id: PostId) -> VoteCast {
    if has_key(votes, user_id, post_id) {
        VoteCast::AlreadyVoted
    } else {
        VoteCast::Yes
    }
}

/// Records the vote of `user_id` on `post_id` for `choice_id`, once: where
/// the user already voted on the post, whatever the choice, nothing changes
/// and the stored vote stays.
pub fn vote(
    store: &mut Store,
    user_id: UserId,
    post_id: PostId,
    choice_id: PollChoiceId,
    created_at: i64,
) -> (r: VoteCast)
    requires
        old(store).wf(),
    ensures
        final(store).wf(),
        final(store)@ == (StoreView {
            votes: insert_or_ignore(
                old(store)@.votes,
                VoteRow { user_id, post_id, choice_id, created_at },
            ),
            ..old(store)@
        }),
        r == vote_cast(old(store)@.votes, user_id, post_id),
{
    if insert_row(&mut store.votes, VoteRow { user_id, post_id, choice_id, created_at }) {
        VoteCast::Yes
    } else {
        VoteCast::AlreadyVoted
    }
}

/// The choice that `user_id` voted for on `post_id`, if any.
pub open spec fn voted_choice(votes: Seq<VoteRow>, user_id: UserId, post_id: PostId) -> Option<
    PollChoiceId,
> {
    match key_index(votes, user_id, post_id) {
        Some(i) => Some(votes[i].choice_id),
        None => None,
    }
}

/// The choice that `user_id` voted for on `post_id`, if any.
pub fn did_vote(store: &Store, user_id: UserId, post_id: PostId) -> (r: Option<PollChoiceId>)
    requires
        store.wf(),
    ensures
        r == voted_choice(store@.votes, user_id, post_id),
{
    match find_row(&store.votes, user_id, post_id) {
        Some(i) => Some(store.votes[i].choice_id),
        None => None,
    }
}

/// The tally of each configured choice of a poll.
pub struct PollResults {
    pub post_id: PostId,
    pub results: Vec<(PollChoiceId, u64)>,
}

/// The tally of each of `choices` on `post_id`, in the order given; a choice
/// with no votes has 0.
pub fn get_poll_results(store: &Store, post_id: PostId, choices: &Vec<PollChoiceId>) -> (r:
    PollResults)
    ensures
        r.post_id == post_id,
        r.results@.len() == choices@.len(),
        forall|i: int|
            0 <= i < choices@.len() ==> #[trigger] r.results@[i] == (
            choices@[i],
            count_choice(store@.votes, post_id, choices@[i]) as u64,
        ),
        forall|i: int|
            0 <= i < choices@.len() ==> r.results@[i].1 == count_choice(
                store@.votes,
                post_id,
                choices@[i],
            ),
{
    let mut results: Vec<(PollChoiceId, u64)> = Vec::new();
    let mut i: usize = 0;
    while i < choices.len()
        invariant
            i <= choices@.len(),
            results@.len() == i,
            forall|k: int|
                0 <= k < i ==> #[trigger] results@[k] == (
                    choices@[k],
                    count_choice(store@.votes, post_id, choices@[k]) as u64,
                ) && results@[k].1 == count_choice(store@.votes, post_id, choices@[k]),
        decreases choices@.len() - i,
    {
        let c = choices[i];
        let n = count_votes(&store.votes, post_id, c);
        results.push((c, n));
        i = i + 1;
    }
    PollResults { post_id, results }
}

/// What one viewer has done to one post.
#[derive(Clone, Copy, Debug, PartialEq, Eq, Structural)]
pub struct ViewerState {
    pub like_status: i16,
    pub bookmarked: bool,
    pub boosted: bool,
    pub voted: Option<PollChoiceId>,
}

/// The stored reaction status of `user_id` on `post_id`, 0 where there is none.
pub open spec fn reaction_status(rows: Seq<Reaction>, user_id: UserId, post_id: PostId) -> i16 {
    match key_index(rows, user_id, post_id) {
        Some(i) => rows[i].like_status,
        None => 0,
    }
}

/// The reaction status, bookmark, boost and vote of `user_id` on `post_id`,
/// read from one state of the store.
pub fn get_viewer_state(store: &Store, user_id: UserId, post_id: PostId) -> (r: ViewerState)
    requires
        store.wf(),
    ensures
        r.like_status == reaction_status(store@.reactions, user_id, post_id),
        r.bookmarked == has_key(store@.bookmarks, user_id, post_id),
        r.boosted == has_key(store@.boosts, user_id, post_id),
        r.voted == voted_choice(store@.votes, user_id, post_id),
{
    let like_status = match get_reaction(store, post_id, user_id) {
        Some(reaction) => reaction.like_status,
        None => 0,
    };
    ViewerState {
        like_status,
        bookmarked: get_bookmark(store, user_id, post_id),
        boosted: get_boost(store, user_id, post_id),
        voted: did_vote(store, user_id, post_id),
    }
}

/// Stores `post`; refused with `Conflict` where a post with its id is stored.
pub fn new(store: &mut Store, post: Post) -> (r: Result<PostId, QueryError>)
    requires
        old(store).wf(),
    ensures
        final(store).wf(),
        post_with_id(old(store)@.posts, post.id) is Some ==> r == Err::<PostId, QueryError>(
            QueryError::Conflict,
        ) && final(store)@ == old(store)@,
        post_with_id(old(store)@.posts, post.id) is None ==> r == Ok::<PostId, QueryError>(post.id)
            && final(store)@ == (StoreView { posts: old(store)@.posts.push(post), ..old(store)@ }),
{
    let mut i: usize = 0;
    while i < store.posts.len()
        invariant
            i <= store.posts@.len(),
            store@.wf(),
            forall|j: int| 0 <= j < i ==> store.posts@[j].id != post.id,
        decreases store.posts@.len() - i,
    {
        if store.posts[i].id == post.id {
            return Err(QueryError::Conflict);
        }
        i = i + 1;
    }
    let id = post.id;
    let ghost before = store.posts@;
    store.posts.push(post);
    proof {
        let s = store.posts@;
        assert forall|a: int, b: int|
            0 <= a < s.len() && 0 <= b < s.len() && a != b implies #[trigger] s[a].id
            != #[trigger] s[b].id by {
            if a < before.len() && b < before.len() {
                assert(s[a] == before[a] && s[b] == before[b]);
            }
        }
    }
    Ok(id)
}

/// The position of the post with id `id`, if one is stored.
fn find_post(posts: &Vec<Post>, id: PostId) -> (r: Option<usize>)
    requires
        post_ids_unique(posts@),
    ensures
        match post_with_id(posts@, id) {
            Some(p) => r matches Some(i) && i < posts@.len() && posts@[i as int] == p,
            None => r is None,
        },
{
    let mut i: usize = 0;
    while i < posts.len()
        invariant
            i <= posts@.len(),
            post_ids_unique(posts@),
            forall|j: int| 0 <= j < i ==> posts@[j].id != id,
        decreases posts@.len() - i,
    {
        if posts[i].id == id {
            let ghost k = choose|k: int| 0 <= k < posts@.len() && posts@[k].id == id;
            assert(posts@[k].id == posts@[i as int].id);
            return Some(i);
        }
        i = i + 1;
    }
    None
}

/// The post with id `post_id`; `NotFound` where none is stored.
pub fn get(store: &Store, post_id: PostId) -> (r: Result<&Post, QueryError>)
    requires
        store.wf(),
    ensures
        match post_with_id(store@.posts, post_id) {
            Some(p) => r matches Ok(x) && *x == p,
            None => r == Err::<&Post, QueryError>(QueryError::NotFound),
        },
{
    match find_post(&store.posts, post_id) {
        Some(i) => Ok(&store.posts[i]),
        None => Err(QueryError::NotFound),
    }
}

/// The most posts that `get_trending` lists.
pub const TRENDING_LIMIT: usize = 30;

/// A post that trending listings may show at time `now`: posted before
/// `now` and not a direct message.
pub open spec fn trending_candidate(p: Post, now: i64) -> bool {
    p.time_posted < now && p.direct_message_to is None
}

/// The number of candidates among the first `n` posts.
pub open spec fn count_candidates(posts: Seq<Post>, n: int, now: i64) -> nat
    decreases n,
{
    if n <= 0 {
        0
    } else {
        count_candidates(posts, n - 1, now) + if trending_candidate(posts[n - 1], now) {
            1nat
        } else {
            0nat
        }
    }
}

/// `top` lists distinct positions of candidates among the first `n` posts,
/// newest first, `min(TRENDING_LIMIT, candidates)` of them; all candidates
/// where fewer than the limit are listed, and otherwise every candidate left
/// out is no newer than the last one listed.
pub open spec fn is_newest(posts: Seq<Post>, n: int, now: i64, top: Seq<usize>) -> bool {
    &&& 0 <= n <= posts.len()
    &&& top.no_duplicates()
    &&& forall|k: int| 0 <= k < top.len() ==> #[trigger] top[k] < n
    &&& forall|k: int|
        0 <= k < top.len() ==> trending_candidate(posts[#[trigger] top[k] as int], now)
    &&& forall|a: int, b: int|
        0 <= a < b < top.len() ==> posts[#[trigger] top[a] as int].time_posted
            >= posts[#[trigger] top[b] as int].time_posted
    &&& top.len() == if count_candidates(posts, n, now) < TRENDING_LIMIT {
        count_candidates(posts, n, now)
    } else {
        TRENDING_LIMIT as nat
    }
    &&& top.len() < TRENDING_LIMIT ==> forall|j: int|
        0 <= j < n && trending_candidate(#[trigger] posts[j], now) ==> top.contains(j as usize)
    &&& forall|j: int|
        0 <= j < n && trending_candidate(posts[j], now) && !top.contains(j as usize) ==> top.len()
            > 0 && #[trigger] posts[j].time_posted <= posts[top.last() as int].time_posted
}

/// The list after candidate `i` is placed at position `k`, cut to the limit.
pub open spec fn place(top: Seq<usize>, k: int, i: usize) -> Seq<usize> {
    let t = top.insert(k, i);
    if t.len() > TRENDING_LIMIT {
        t.drop_last()
    } else {
        t
    }
}

proof fn lemma_skip(posts: Seq<Post>, n: int, now: i64, top: Seq<usize>)
    requires
        is_newest(posts, n, now, top),
        n < posts.len(),
        !trending_candidate(posts[n], now),
    ensures
        is_newest(posts, n + 1, now, top),
{
}

proof fn lemma_place(posts: Seq<Post>, n: int, now: i64, top: Seq<usize>, k: int)
    requires
        is_newest(posts, n, now, top),
        n < posts.len(),
        n < usize::MAX,
        trending_candidate(posts[n], now),
        0 <= k <= top.len(),
        forall|x: int| 0 <= x < k ==> posts[#[trigger] top[x] as int].time_posted >= posts[n].time_posted,
        k < top.len() ==> posts[top[k] as int].time_posted < posts[n].time_posted,
    ensures
        is_newest(posts, n + 1, now, place(top, k, n as usize)),
{
    let i = n as usize;
    let t = top.insert(k, i);
    let r = place(top, k, i);
    let m = top.len() as int;
    let tn = posts[n].time_posted;
    assert forall|x: int| 0 <= x < m implies #[trigger] top[x] != i by {
        assert(top[x] < n);
    }
    assert forall|x: int| 0 <= x < t.len() implies #[trigger] t[x] == if x < k {
        top[x]
    } else if x == k {
        i
    } else {
        top[x - 1]
    } by {}
    // later positions of `top` are older than the new post
    assert forall|x: int| k <= x < m implies posts[#[trigger] top[x] as int].time_posted < tn by {
        if x > k {
            assert(posts[top[k] as int].time_posted >= posts[top[x] as int].time_posted);
        }
    }
    assert(t.no_duplicates()) by {
        assert forall|a: int, b: int| 0 <= a < t.len() && 0 <= b < t.len() && a != b implies t[a]
            != t[b] by {
            if a != k && b != k {
                let oa = if a < k { a } else { a - 1 };
                let ob = if b < k { b } else { b - 1 };
                assert(top[oa] != top[ob]);
            } else if a == k {
                let ob = if b < k { b } else { b - 1 };
                assert(top[ob] != i);
            } else {
                let oa = if a < k { a } else { a - 1 };
                assert(top[oa] != i);
            }
        }
    }
    assert forall|a: int, b: int| 0 <= a < b < t.len() implies posts[#[trigger] t[a] as int].time_posted
        >= posts[#[trigger] t[b] as int].time_posted by {
        let oa = if a < k { a } else { a - 1 };
        let ob = if b < k { b } else { b - 1 };
        if a != k && b != k {
            assert(posts[top[oa] as int].time_posted >= posts[top[ob] as int].time_posted);
        } else if a == k {
            assert(posts[top[ob] as int].time_posted < tn);
        } else {
            assert(posts[top[oa] as int].time_posted >= tn);
        }
    }
    assert(count_candidates(posts, n + 1, now) == count_candidates(posts, n, now) + 1);
    assert forall|x: int| 0 <= x < t.len() implies #[trigger] t[x] < n + 1 && trending_candidate(
        posts[t[x] as int],
        now,
    ) by {
        if x < k {
            assert(top[x] < n);
        } else if x > k {
            assert(top[x - 1] < n);
        }
    }
    assert forall|x: int| 0 <= x < m implies t.contains(#[trigger] top[x]) by {
        if x < k {
            assert(t[x] == top[x]);
        } else {
            assert(t[x + 1] == top[x]);
        }
    }
    assert(t[k] == i);
    if t.len() > TRENDING_LIMIT {
        assert(m == TRENDING_LIMIT);
        assert forall|x: int| 0 <= x < r.len() implies #[trigger] r[x] == t[x] by {}
        assert(r.no_duplicates()) by {
            assert forall|a: int, b: int| 0 <= a < r.len() && 0 <= b < r.len() && a != b implies r[a]
                != r[b] by {
                assert(t[a] != t[b]);
            }
        }
        assert forall|a: int, b: int| 0 <= a < b < r.len() implies posts[#[trigger] r[a] as int].time_posted
            >= posts[#[trigger] r[b] as int].time_posted by {
            assert(posts[t[a] as int].time_posted >= posts[t[b] as int].time_posted);
        }
        assert forall|x: int| 0 <= x < r.len() implies #[trigger] r[x] < n + 1 && trending_candidate(
            posts[r[x] as int],
            now,
        ) by {
            assert(t[x] < n + 1);
        }
        let last = t[t.len() - 1];
        assert(posts[r.last() as int].time_posted >= posts[last as int].time_posted) by {
            assert(posts[t[t.len() - 2] as int].time_posted >= posts[t[t.len() - 1] as int].time_posted);
        }
        assert forall|j: int|
            0 <= j < n + 1 && trending_candidate(posts[j], now) && !r.contains(j as usize) implies r.len()
            > 0 && #[trigger] posts[j].time_posted <= posts[r.last() as int].time_posted by {
            if j as usize == last {
            } else if !t.contains(j as usize) {
                if j == n {
                    assert(t[k] == j as usize);
                } else {
                    assert(!top.contains(j as usize));
                    assert(posts[j].time_posted <= posts[top.last() as int].time_posted);
                    if k < m {
                        assert(t[m] == top[m - 1]);
                        assert(posts[t[m - 1] as int].time_posted >= posts[t[m] as int].time_posted);
                    } else {
                        assert(t[m - 1] == top[m - 1]);
                    }
                }
            } else {
                let y = choose|y: int| 0 <= y < t.len() && t[y] == j as usize;
                if y < t.len() - 1 {
                    assert(r[y] == j as usize);
                }
            }
        }
    } else {
        assert(r == t);
        assert forall|j: int|
            0 <= j < n + 1 && trending_candidate(#[trigger] posts[j], now) implies t.contains(
            j as usize,
        ) by {
            if j < n {
                assert(top.contains(j as usize));
                let y = choose|y: int| 0 <= y < m && top[y] == j as usize;
                assert(t.contains(top[y]));
            }
        }
    }
}

/// `ids` are the ids of the newest candidates among `posts` at time `now`,
/// newest first, at most `TRENDING_LIMIT` of them.
pub open spec fn trending_ids(posts: Seq<Post>, now: i64, ids: Seq<PostId>) -> bool {
    exists|top: Seq<usize>|
        is_newest(posts, posts.len() as int, now, top) && ids == top.map_values(
            |i: usize| posts[i as int].id,
        )
}

/// The ids of the newest candidates at time `now`, newest first, at most
/// `TRENDING_LIMIT` of them.
pub fn get_trending(store: &Store, now: i64) -> (r: Vec<PostId>)
    ensures
        trending_ids(store@.posts, now, r@),
{
    let posts = &store.posts;
    let mut top: Vec<usize> = Vec::new();
    let mut i: usize = 0;
    while i < posts.len()
        invariant
            i <= posts@.len(),
            is_newest(posts@, i as int, now, top@),
        decreases posts@.len() - i,
    {
        if posts[i].time_posted < now && posts[i].direct_message_to.is_none() {
            let t = posts[i].time_posted;
            let mut k: usize = 0;
            while k < top.len() && posts[top[k]].time_posted >= t
                invariant
                    k <= top@.len(),
                    i < posts@.len(),
                    t == posts@[i as int].time_posted,
                    is_newest(posts@, i as int, now, top@),
                    forall|x: int|
                        0 <= x < k ==> posts@[#[trigger] top@[x] as int].time_posted >= t,
                decreases top@.len() - k,
            {
                k = k + 1;
            }
            proof {
                lemma_place(posts@, i as int, now, top@, k as int);
            }
            let ghost before = top@;
            top.insert(k, i);
            if top.len() > TRENDING_LIMIT {
                top.pop();
            }
            assert(top@ == place(before, k as int, i));
        } else {
            proof {
                lemma_skip(posts@, i as int, now, top@);
            }
        }
        i = i + 1;
    }
    let mut ids: Vec<PostId> = Vec::new();
    let mut j: usize = 0;
    while j < top.len()
        invariant
            j <= top@.len(),
            is_newest(posts@, posts@.len() as int, now, top@),
            ids@ == top@.subrange(0, j as int).map_values(|x: usize| posts@[x as int].id),
        decreases top@.len() - j,
    {
        ids.push(posts[top[j]].id);
        assert(top@.subrange(0, j + 1).map_values(|x: usize| posts@[x as int].id) == top@.subrange(
            0,
            j as int,
        ).map_values(|x: usize| posts@[x as int].id).push(posts@[top@[j as int] as int].id));
        j = j + 1;
    }
    assert(top@.subrange(0, top@.len() as int) == top@);
    assert(is_newest(store@.posts, store@.posts.len() as int, now, top@) && ids@ == top@.map_values(
        |x: usize| store@.posts[x as int].id,
    ));
    ids
}

/// The posts of the bookmarks of `user_id`, in the order they were made.
pub open spec fn bookmarked_by(rows: Seq<BookmarkRow>, user_id: UserId) -> Seq<PostId>
    decreases rows.len(),
{
    if rows.len() == 0 {
        Seq::empty()
    } else if rows.last().user_id == user_id {
        bookmarked_by(rows.drop_last(), user_id).push(rows.last().post_id)
    } else {
        bookmarked_by(rows.drop_last(), user_id)
    }
}

/// The posts that `user_id` likes, in the order the reactions were first made.
pub open spec fn liked_by(rows: Seq<Reaction>, user_id: UserId) -> Seq<PostId>
    decreases rows.len(),
{
    if rows.len() == 0 {
        Seq::empty()
    } else if rows.last().user_id == user_id && rows.last().like_status == 1 {
        liked_by(rows.drop_last(), user_id).push(rows.last().post_id)
    } else {
        liked_by(rows.drop_last(), user_id)
    }
}

/// The posts that `user_id` has bookmarked.
pub fn get_bookmarked_posts(store: &Store, user_id: UserId) -> (r: Vec<PostId>)
    ensures
        r@ == bookmarked_by(store@.bookmarks, user_id),
{
    let rows = &store.bookmarks;
    let mut ids: Vec<PostId> = Vec::new();
    let mut i: usize = 0;
    while i < rows.len()
        invariant
            i <= rows@.len(),
            ids@ == bookmarked_by(rows@.subrange(0, i as int), user_id),
        decreases rows@.len() - i,
    {
        assert(rows@.subrange(0, i + 1).drop_last() == rows@.subrange(0, i as int));
        if rows[i].user_id == user_id {
            ids.push(rows[i].post_id);
        }
        i = i + 1;
    }
    assert(rows@.subrange(0, rows@.len() as int) == rows@);
    ids
}

/// The posts that `user_id` likes.
pub fn get_liked_posts(store: &Store, user_id: UserId) -> (r: Vec<PostId>)
    ensures
        r@ == liked_by(store@.reactions, user_id),
{
    let rows = &store.reactions;
    let mut ids: Vec<PostId> = Vec::new();
    let mut i: usize = 0;
    while i < rows.len()
        invariant
            i <= rows@.len(),
            ids@ == liked_by(rows@.subrange(0, i as int), user_id),
        decreases rows@.len() - i,
    {
        assert(rows@.subrange(0, i + 1).drop_last() == rows@.subrange(0, i as int));
        if rows[i].user_id == user_id && rows[i].like_status == 1 {
            ids.push(rows[i].post_id);
        }
        i = i + 1;
    }
    assert(rows@.subrange(0, rows@.len() as int) == rows@);
    ids
}

/// Stores `user`; refused with `Conflict` where a user with its id is stored.
pub fn add_user(store: &mut Store, user: User) -> (r: Result<(), QueryError>)
    requires
        old(store).wf(),
    ensures
        final(store).wf(),
        user_with_id(old(store)@.users, user.id) is Some ==> r == Err::<(), QueryError>(
            QueryError::Conflict,
        ) && final(store)@ == old(store)@,
        user_with_id(old(store)@.users, user.id) is None ==> r == Ok::<(), QueryError>(())
            && final(store)@ == (StoreView { users: old(store)@.users.push(user), ..old(store)@ }),
{
    let mut i: usize = 0;
    while i < store.users.len()
        invariant
            i <= store.users@.len(),
            store@.wf(),
            forall|j: int| 0 <= j < i ==> store.users@[j].id != user.id,
        decreases store.users@.len() - i,
    {
        if store.users[i].id == user.id {
            return Err(QueryError::Conflict);
        }
        i = i + 1;
    }
    let ghost before = store.users@;
    store.users.push(user);
    proof {
        let s = store.users@;
        assert forall|a: int, b: int|
            0 <= a < s.len() && 0 <= b < s.len() && a != b implies #[trigger] s[a].id
            != #[trigger] s[b].id by {
            if a < before.len() && b < before.len() {
                assert(s[a] == before[a] && s[b] == before[b]);
            }
        }
    }
    Ok(())
}

/// The user with id `user_id`; `NotFound` where none is stored.
pub fn get_user(store: &Store, user_id: UserId) -> (r: Result<&User, QueryError>)
    requires
        store.wf(),
    ensures
        match user_with_id(store@.users, user_id) {
            Some(u) => r matches Ok(x) && *x == u,
            None => r == Err::<&User, QueryError>(QueryError::NotFound),
        },
{
    match find_user(&store.users, user_id) {
        Some(i) => Ok(&store.users[i]),
        None => Err(QueryError::NotFound),
    }
}

/// The position of the user with id `id`, if one is stored.
fn find_user(users: &Vec<User>, id: UserId) -> (r: Option<usize>)
    requires
        user_ids_unique(users@),
    ensures
        match user_with_id(users@, id) {
            Some(u) => r matches Some(i) && i < users@.len() && users@[i as int] == u,
            None => r is None,
        },
{
    let mut i: usize = 0;
    while i < users.len()
        invariant
            i <= users@.len(),
            user_ids_unique(users@),
            forall|j: int| 0 <= j < i ==> users@[j].id != id,
        decreases users@.len() - i,
    {
        if users[i].id == id {
            let ghost k = choose|k: int| 0 <= k < users@.len() && users@[k].id == id;
            assert(users@[k].id == users@[i as int].id);
            return Some(i);
        }
        i = i + 1;
    }
    None
}

} // verus!
