//! Identifiers of users, posts, images and poll choices.
//!
//! Each identifier holds a UUID as its 128-bit big-endian value.

use vstd::prelude::*;

verus! {

/// The textual UUID forms that `uuid::Uuid::try_parse` accepts, with the value each denotes.
pub uninterp spec fn uuid_parse(s: Seq<char>) -> Option<u128>;

/// `16` to the power `e`.
pub open spec fn pow16(e: nat) -> int
    decreases e,
{
    if e == 0 {
        1
    } else {
        16 * pow16((e - 1) as nat)
    }
}

/// The lower-case hexadecimal digit of `n`, for `n` from 0 to 15.
pub open spec fn hex_digit(n: int) -> char {
    seq!['0', '1', '2', '3', '4', '5', '6', '7', '8', '9', 'a', 'b', 'c', 'd', 'e', 'f'][n]
}

/// Hex digit `k` of `v`, counted from the most significant (0 to 31).
pub open spec fn nibble(v: u128, k: int) -> int {
    (v as int / pow16((31 - k) as nat)) % 16
}

/// How many hyphens of the text form come before position `i`.
pub open spec fn hyphens_before(i: int) -> int {
    (if i > 8 { 1int } else { 0int }) + (if i > 13 { 1int } else { 0int }) + (if i > 18 {
        1int
    } else {
        0int
    }) + (if i > 23 { 1int } else { 0int })
}

/// The hyphenated text of a UUID: its 32 lower-case hex digits, most
/// significant first, with hyphens at positions 8, 13, 18 and 23.
pub open spec fn uuid_text(v: u128) -> Seq<char> {
    Seq::new(
        36,
        |i: int|
            if i == 8 || i == 13 || i == 18 || i == 23 {
                '-'
            } else {
                hex_digit(nibble(v, i - hyphens_before(i)))
            },
    )
}

/// Relies on `uuid::Uuid::new_v4`: a random version-4 UUID. Nothing is promised of the value.
#[verifier::external_body]
fn fresh_uuid() -> u128 {
    uuid::Uuid::new_v4().as_u128()
}

/// Relies on `uuid::Uuid::try_parse`: the value of the UUID written in `s`, if `s` is one.
#[verifier::external_body]
pub(crate) fn parse_uuid(s: &str) -> (r: Option<u128>)
    ensures
        r == uuid_parse(s@),
{
    uuid::Uuid::try_parse(s).ok().map(|u| u.as_u128())
}

/// Relies on `uuid::Uuid`'s `Display`: the hyphenated lower-case form, which
/// `uuid::Uuid::try_parse` reads back as `v`.
#[verifier::external_body]
fn format_uuid(v: u128) -> (r: String)
    ensures
        r@ == uuid_text(v),
        uuid_parse(r@) == Some(v),
{
    uuid::Uuid::from_u128(v).to_string()
}

/// The error of parsing an identifier from text.
#[derive(Clone, Copy, Debug, PartialEq, Eq, Structural)]
pub enum IdError {
    Parse,
}

/// The identifier of a user.
#[derive(Clone, Copy, Debug, PartialEq, Eq, Structural, PartialOrd, Ord, Hash)]
pub struct UserId {
    pub value: u128,
}

/// The identifier of a post.
#[derive(Clone, Copy, Debug, PartialEq, Eq, Structural, PartialOrd, Ord, Hash)]
pub struct PostId {
    pub value: u128,
}

/// The identifier of a stored image blob.
#[derive(Clone, Copy, Debug, PartialEq, Eq, Structural, PartialOrd, Ord, Hash)]
pub struct ImageId {
    pub value: u128,
}

/// The identifier of one choice of a poll.
#[derive(Clone, Copy, Debug, PartialEq, Eq, Structural, PartialOrd, Ord, Hash)]
pub struct PollChoiceId {
    pub value: u128,
}

impl View for UserId {
    type V = u128;

    open spec fn view(&self) -> u128 {
        self.value
    }
}

impl View for PostId {
    type V = u128;

    open spec fn view(&self) -> u128 {
        self.value
    }
}

impl View for ImageId {
    type V = u128;

    open spec fn view(&self) -> u128 {
        self.value
    }
}

impl View for PollChoiceId {
    type V = u128;

    open spec fn view(&self) -> u128 {
        self.value
    }
}

impl UserId {
    /// A fresh random identifier.
    pub fn new() -> (r: UserId) {
        UserId { value: fresh_uuid() }
    }

    pub fn from_u128(value: u128) -> (r: UserId)
        ensures
            r@ == value,
    {
        UserId { value }
    }

    pub fn into_inner(self) -> (r: u128)
        ensures
            r == self@,
    {
        self.value
    }

    /// Parses the text form of a UUID.
    pub fn parse(s: &str) -> (r: Result<UserId, IdError>)
        ensures
            match uuid_parse(s@) {
                Some(v) => r matches Ok(id) && id@ == v,
                None => r == Err::<UserId, IdError>(IdError::Parse),
            },
    {
        match parse_uuid(s) {
            Some(value) => Ok(UserId { value }),
            None => Err(IdError::Parse),
        }
    }

    pub fn to_string(&self) -> (r: String)
        ensures
            r@ == uuid_text(self@),
            uuid_parse(r@) == Some(self@),
    {
        format_uuid(self.value)
    }
}

impl PostId {
    /// A fresh random identifier.
    pub fn new() -> (r: PostId) {
        PostId { value: fresh_uuid() }
    }

    pub fn from_u128(value: u128) -> (r: PostId)
        ensures
            r@ == value,
    {
        PostId { value }
    }

    pub fn into_inner(self) -> (r: u128)
        ensures
            r == self@,
    {
        self.value
    }

    /// Parses the text form of a UUID.
    pub fn parse(s: &str) -> (r: Result<PostId, IdError>)
        ensures
            match uuid_parse(s@) {
                Some(v) => r matches Ok(id) && id@ == v,
                None => r == Err::<PostId, IdError>(IdError::Parse),
            },
    {
        match parse_uuid(s) {
            Some(value) => Ok(PostId { value }),
            None => Err(IdError::Parse),
        }
    }

    pub fn to_string(&self) -> (r: String)
        ensures
            r@ == uuid_text(self@),
            uuid_parse(r@) == Some(self@),
    {
        format_uuid(self.value)
    }
}

impl ImageId {
    /// A fresh random identifier.
    pub fn new() -> (r: ImageId) {
        ImageId { value: fresh_uuid() }
    }

    pub fn from_u128(value: u128) -> (r: ImageId)
        ensures
            r@ == value,
    {
        ImageId { value }
    }

    pub fn into_inner(self) -> (r: u128)
        ensures
            r == self@,
    {
        self.value
    }

    /// Parses the text form of a UUID.
    pub fn parse(s: &str) -> (r: Result<ImageId, IdError>)
        ensures
            match uuid_parse(s@) {
                Some(v) => r matches Ok(id) && id@ == v,
                None => r == Err::<ImageId, IdError>(IdError::Parse),
            },
    {
        match parse_uuid(s) {
            Some(value) => Ok(ImageId { value }),
            None => Err(IdError::Parse),
        }
    }

    pub fn to_string(&self) -> (r: String)
        ensures
            r@ == uuid_text(self@),
            uuid_parse(r@) == Some(self@),
    {
        format_uuid(self.value)
    }
}

impl PollChoiceId {
    /// A fresh random identifier.
    pub fn new() -> (r: PollChoiceId) {
        PollChoiceId { value: fresh_uuid() }
    }

    pub fn from_u128(value: u128) -> (r: PollChoiceId)
        ensures
            r@ == value,
    {
        PollChoiceId { value }
    }

    pub fn into_inner(self) -> (r: u128)
        ensures
            r == self@,
    {
        self.value
    }

    /// Parses the text form of a UUID.
    pub fn parse(s: &str) -> (r: Result<PollChoiceId, IdError>)
        ensures
            match uuid_parse(s@) {
                Some(v) => r matches Ok(id) && id@ == v,
                None => r == Err::<PollChoiceId, IdError>(IdError::Parse),
            },
    {
        match parse_uuid(s) {
            Some(value) => Ok(PollChoiceId { value }),
            None => Err(IdError::Parse),
        }
    }

    pub fn to_string(&self) -> (r: String)
        ensures
            r@ == uuid_text(self@),
            uuid_parse(r@) == Some(self@),
    {
        format_uuid(self.value)
    }
}

} // verus!
