//! Request and response values of the HTTP interface, and the routes they
//! are served under.

use vstd::prelude::*;

use crate::content::Content;
use crate::ids::{PollChoiceId, PostId, UserId};
use crate::query::now_micros;

verus! {

/// A request type served under a fixed route.
pub trait Endpoint {
    fn url(&self) -> &'static str;
}

/// The body of a failed request.
#[derive(Clone, Debug)]
pub struct RequestFailed {
    pub msg: String,
}

/// A field of an update request: set it, leave it, or clear it.
#[derive(Clone, Debug)]
pub enum Update<T> {
    Change(T),
    NoChange,
    SetNull,
}

impl<T> Update<T> {
    /// The new value, if the field is to be set.
    pub fn into_option(self) -> (r: Option<T>)
        ensures
            match self {
                Update::Change(v) => r == Some(v),
                _ => r is None,
            },
    {
        match self {
            Update::Change(data) => Some(data),
            Update::NoChange => None,
            Update::SetNull => None,
        }
    }

    /// `None` to leave the field, `Some(None)` to clear it, `Some(Some(v))` to set it.
    pub fn into_nullable(self) -> (r: Option<Option<T>>)
        ensures
            match self {
                Update::Change(v) => r == Some(Some(v)),
                Update::NoChange => r is None,
                Update::SetNull => r == Some(None::<T>),
            },
    {
        match self {
            Update::Change(data) => Some(Some(data)),
            Update::NoChange => None,
            Update::SetNull => Some(None),
        }
    }
}

/// A viewer's reaction to a post.
#[derive(Clone, Copy, Debug, PartialEq, Eq, Structural)]
pub enum LikeStatus {
    Dislike,
    Like,
    NoReaction,
}

/// The value a reaction row stores for each status.
pub open spec fn like_status_value(s: LikeStatus) -> i16 {
    match s {
        LikeStatus::Like => 1i16,
        LikeStatus::Dislike => -1i16,
        LikeStatus::NoReaction => 0i16,
    }
}

/// The status that a stored reaction value stands for.
pub open spec fn like_status_of(v: i16) -> LikeStatus {
    if v == 1 {
        LikeStatus::Like
    } else if v == -1 {
        LikeStatus::Dislike
    } else {
        LikeStatus::NoReaction
    }
}

impl LikeStatus {
    pub fn to_value(self) -> (r: i16)
        ensures
            r == like_status_value(self),
    {
        match self {
            LikeStatus::Like => 1,
            LikeStatus::Dislike => -1,
            LikeStatus::NoReaction => 0,
        }
    }

    pub fn from_value(v: i16) -> (r: LikeStatus)
        ensures
            r == like_status_of(v),
    {
        if v == 1 {
            LikeStatus::Like
        } else if v == -1 {
            LikeStatus::Dislike
        } else {
            LikeStatus::NoReaction
        }
    }
}

#[derive(Clone, Copy, Debug, PartialEq, Eq, Structural)]
pub enum BookmarkAction {
    Add,
    Remove,
}

#[derive(Clone, Copy, Debug, PartialEq, Eq, Structural)]
pub enum BoostAction {
    Add,
    Remove,
}

/// The outcome of casting a vote.
#[derive(Clone, Copy, Debug, PartialEq, Eq, Structural)]
pub enum VoteCast {
    Yes,
    AlreadyVoted,
}

/// Options of a new post. `time_posted` is in microseconds since the Unix epoch.
#[derive(Clone, Copy, Debug, PartialEq, Eq, Structural)]
pub struct NewPostOptions {
    pub reply_to: Option<PostId>,
    pub direct_message_to: Option<UserId>,
    pub time_posted: i64,
}

impl Default for NewPostOptions {
    /// A top-level, public post, posted now.
    fn default() -> (r: NewPostOptions)
        ensures
            r.reply_to is None,
            r.direct_message_to is None,
    {
        NewPostOptions { reply_to: None, direct_message_to: None, time_posted: now_micros() }
    }
}

pub struct NewPost {
    pub content: Content,
    pub options: NewPostOptions,
}

pub struct React {
    pub post_id: PostId,
    pub like_status: LikeStatus,
}

pub struct ReactOk {
    pub like_status: LikeStatus,
    pub likes: u64,
    pub dislikes: u64,
}

pub struct Bookmark {
    pub post_id: PostId,
    pub action: BookmarkAction,
}

pub struct BookmarkOk {
    pub status: BookmarkAction,
}

pub struct Boost {
    pub post_id: PostId,
    pub action: BoostAction,
}

pub struct BoostOk {
    pub status: BoostAction,
}

pub struct Vote {
    pub post_id: PostId,
    pub choice_id: PollChoiceId,
}

pub struct VoteOk {
    pub cast: VoteCast,
}

pub struct TrendingPosts {}

/// The home listing: posts of the users the viewer follows. The store
/// keeps no follow relation, so this library serves only its route; a
/// caller that has the followed users' post ids passes them to
/// `handler::public_feed`.
pub struct HomePosts {}

pub struct LikedPosts {}

pub struct BookmarkedPosts {}

impl Endpoint for NewPost {
    fn url(&self) -> &'static str {
        "/post/new"
    }
}

impl Endpoint for React {
    fn url(&self) -> &'static str {
        "/post/react"
    }
}

impl Endpoint for Bookmark {
    fn url(&self) -> &'static str {
        "/post/bookmark"
    }
}

impl Endpoint for Boost {
    fn url(&self) -> &'static str {
        "/post/boost"
    }
}

impl Endpoint for Vote {
    fn url(&self) -> &'static str {
        "/post/vote"
    }
}

impl Endpoint for TrendingPosts {
    fn url(&self) -> &'static str {
        "/posts/trending"
    }
}

impl Endpoint for HomePosts {
    fn url(&self) -> &'static str {
        "/posts/home"
    }
}

impl Endpoint for LikedPosts {
    fn url(&self) -> &'static str {
        "/posts/liked"
    }
}

impl Endpoint for BookmarkedPosts {
    fn url(&self) -> &'static str {
        "/posts/bookmarked"
    }
}

} // verus!
