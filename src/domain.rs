//! Validated text values: headlines, messages, captions, user names and
//! the like. Each is a `String` whose length in characters lies within
//! the bounds of its kind.

use vstd::prelude::*;
use vstd::string::StrSliceExecFns;

verus! {

/// A validation failure that can be shown to the user who typed the value.
pub trait UserFacingError {
    fn formatted_error(&self) -> &'static str;
}

pub const HEADLINE_MAX_CHARS: usize = 30;
pub const MESSAGE_MAX_CHARS: usize = 100;
pub const CAPTION_MAX_CHARS: usize = 60;
pub const POLL_HEADLINE_MAX_CHARS: usize = 30;
pub const POLL_CHOICE_MAX_CHARS: usize = 40;
pub const USERNAME_MIN_CHARS: usize = 3;
pub const USERNAME_MAX_CHARS: usize = 30;
pub const PASSWORD_MIN_CHARS: usize = 8;
pub const DISPLAY_NAME_MAX_CHARS: usize = 30;

/// Text of 1 to `max` characters.
pub open spec fn present_within(s: Seq<char>, max: usize) -> bool {
    0 < s.len() <= max
}

pub open spec fn valid_headline(s: Seq<char>) -> bool {
    present_within(s, HEADLINE_MAX_CHARS)
}

pub open spec fn valid_message(s: Seq<char>) -> bool {
    present_within(s, MESSAGE_MAX_CHARS)
}

pub open spec fn valid_caption(s: Seq<char>) -> bool {
    s.len() <= CAPTION_MAX_CHARS
}

pub open spec fn valid_poll_headline(s: Seq<char>) -> bool {
    present_within(s, POLL_HEADLINE_MAX_CHARS)
}

pub open spec fn valid_poll_choice(s: Seq<char>) -> bool {
    present_within(s, POLL_CHOICE_MAX_CHARS)
}

pub open spec fn valid_username(s: Seq<char>) -> bool {
    USERNAME_MIN_CHARS <= s.len() <= USERNAME_MAX_CHARS
}

pub open spec fn valid_password(s: Seq<char>) -> bool {
    PASSWORD_MIN_CHARS <= s.len()
}

pub open spec fn valid_display_name(s: Seq<char>) -> bool {
    s.len() <= DISPLAY_NAME_MAX_CHARS
}

/// Why a text of at least one and at most some number of characters was refused.
#[derive(Clone, Copy, Debug, PartialEq, Eq, Structural)]
pub enum LengthError {
    Missing,
    TooShort,
    TooLong,
}

/// The outcome of checking that `s` holds between `min` (at least one) and `max` characters.
pub open spec fn check_length_spec(s: Seq<char>, present: bool, min: usize, max: usize) -> Option<
    LengthError,
> {
    if present && s.len() == 0 {
        Some(LengthError::Missing)
    } else if s.len() < min {
        Some(LengthError::TooShort)
    } else if s.len() > max {
        Some(LengthError::TooLong)
    } else {
        None
    }
}

fn check_length(s: &str, present: bool, min: usize, max: usize) -> (r: Option<LengthError>)
    ensures
        r == check_length_spec(s@, present, min, max),
        s@.len() <= usize::MAX,
{
    let n = s.unicode_len();
    if present && n == 0 {
        Some(LengthError::Missing)
    } else if n < min {
        Some(LengthError::TooShort)
    } else if n > max {
        Some(LengthError::TooLong)
    } else {
        None
    }
}

#[derive(Clone, Copy, Debug, PartialEq, Eq, Structural)]
pub enum HeadlineError {
    Missing,
    TooLong,
}

/// A chat post's headline: 1 to 30 characters.
#[derive(Debug)]
pub struct Headline {
    inner: String,
}

impl View for Headline {
    type V = Seq<char>;

    closed spec fn view(&self) -> Seq<char> {
        self.inner@
    }
}

impl Headline {
    #[verifier::type_invariant]
    spec fn inv(&self) -> bool {
        valid_headline(self.inner@)
    }

    pub fn new(value: String) -> (r: Result<Headline, HeadlineError>)
        ensures
            r matches Ok(v) ==> v@ == value@,
            r is Ok <==> valid_headline(value@),
            r == Err::<Headline, HeadlineError>(HeadlineError::Missing) <==> value@.len() == 0,
            r == Err::<Headline, HeadlineError>(HeadlineError::TooLong) <==> value@.len() > HEADLINE_MAX_CHARS,
    {
        match check_length(value.as_str(), true, 0, HEADLINE_MAX_CHARS) {
            None => Ok(Headline { inner: value }),
            Some(LengthError::Missing) => Err(HeadlineError::Missing),
            Some(_) => Err(HeadlineError::TooLong),
        }
    }

    pub fn as_str(&self) -> (r: &str)
        ensures
            r@ == self@,
            valid_headline(self@),
    {
        proof {
            use_type_invariant(self);
        }
        self.inner.as_str()
    }

    pub fn into_inner(self) -> (r: String)
        ensures
            r@ == self@,
    {
        self.inner
    }
}

impl Clone for Headline {
    fn clone(&self) -> (r: Headline)
        ensures
            r@ == self@,
    {
        proof {
            use_type_invariant(self);
        }
        Headline { inner: self.inner.clone() }
    }
}

impl UserFacingError for HeadlineError {
    fn formatted_error(&self) -> &'static str {
        match self {
            HeadlineError::Missing => "Headline cannot be empty",
            HeadlineError::TooLong => "Headline is too long. Must be at most 30 characters.",
        }
    }
}

#[derive(Clone, Copy, Debug, PartialEq, Eq, Structural)]
pub enum MessageError {
    Missing,
    TooLong,
}

/// A chat post's message: 1 to 100 characters.
#[derive(Debug)]
pub struct Message {
    inner: String,
}

impl View for Message {
    type V = Seq<char>;

    closed spec fn view(&self) -> Seq<char> {
        self.inner@
    }
}

impl Message {
    #[verifier::type_invariant]
    spec fn inv(&self) -> bool {
        valid_message(self.inner@)
    }

    pub fn new(value: String) -> (r: Result<Message, MessageError>)
        ensures
            r matches Ok(v) ==> v@ == value@,
            r is Ok <==> valid_message(value@),
            r == Err::<Message, MessageError>(MessageError::Missing) <==> value@.len() == 0,
            r == Err::<Message, MessageError>(MessageError::TooLong) <==> value@.len() > MESSAGE_MAX_CHARS,
    {
        match check_length(value.as_str(), true, 0, MESSAGE_MAX_CHARS) {
            None => Ok(Message { inner: value }),
            Some(LengthError::Missing) => Err(MessageError::Missing),
            Some(_) => Err(MessageError::TooLong),
        }
    }

    pub fn as_str(&self) -> (r: &str)
        ensures
            r@ == self@,
            valid_message(self@),
    {
        proof {
            use_type_invariant(self);
        }
        self.inner.as_str()
    }

    pub fn into_inner(self) -> (r: String)
        ensures
            r@ == self@,
    {
        self.inner
    }
}

impl Clone for Message {
    fn clone(&self) -> (r: Message)
        ensures
            r@ == self@,
    {
        proof {
            use_type_invariant(self);
        }
        Message { inner: self.inner.clone() }
    }
}

impl UserFacingError for MessageError {
    fn formatted_error(&self) -> &'static str {
        match self {
            MessageError::Missing => "Message cannot be empty",
            MessageError::TooLong => "Message is too long. Must be at most 100 characters.",
        }
    }
}

#[derive(Clone, Copy, Debug, PartialEq, Eq, Structural)]
pub enum CaptionError {
    TooLong,
}

/// An image post's caption: at most 60 characters.
#[derive(Debug)]
pub struct Caption {
    inner: String,
}

impl View for Caption {
    type V = Seq<char>;

    closed spec fn view(&self) -> Seq<char> {
        self.inner@
    }
}

impl Caption {
    #[verifier::type_invariant]
    spec fn inv(&self) -> bool {
        valid_caption(self.inner@)
    }

    pub fn new(value: String) -> (r: Result<Caption, CaptionError>)
        ensures
            r matches Ok(v) ==> v@ == value@,
            r is Ok <==> valid_caption(value@),
            r == Err::<Caption, CaptionError>(CaptionError::TooLong) <==> value@.len() > CAPTION_MAX_CHARS,
    {
        match check_length(value.as_str(), false, 0, CAPTION_MAX_CHARS) {
            None => Ok(Caption { inner: value }),
            Some(_) => Err(CaptionError::TooLong),
        }
    }

    pub fn as_str(&self) -> (r: &str)
        ensures
            r@ == self@,
            valid_caption(self@),
    {
        proof {
            use_type_invariant(self);
        }
        self.inner.as_str()
    }

    pub fn into_inner(self) -> (r: String)
        ensures
            r@ == self@,
    {
        self.inner
    }
}

impl Clone for Caption {
    fn clone(&self) -> (r: Caption)
        ensures
            r@ == self@,
    {
        proof {
            use_type_invariant(self);
        }
        Caption { inner: self.inner.clone() }
    }
}

impl UserFacingError for CaptionError {
    fn formatted_error(&self) -> &'static str {
        match self {
            CaptionError::TooLong => "Caption is too long. Must be at most 60 characters.",
        }
    }
}

#[derive(Clone, Copy, Debug, PartialEq, Eq, Structural)]
pub enum PollHeadlineError {
    Missing,
    TooLong,
}

/// A poll's question: 1 to 30 characters.
#[derive(Debug)]
pub struct PollHeadline {
    inner: String,
}

impl View for PollHeadline {
    type V = Seq<char>;

    closed spec fn view(&self) -> Seq<char> {
        self.inner@
    }
}

impl PollHeadline {
    #[verifier::type_invariant]
    spec fn inv(&self) -> bool {
        valid_poll_headline(self.inner@)
    }

    pub fn new(value: String) -> (r: Result<PollHeadline, PollHeadlineError>)
        ensures
            r matches Ok(v) ==> v@ == value@,
            r is Ok <==> valid_poll_headline(value@),
            r == Err::<PollHeadline, PollHeadlineError>(PollHeadlineError::Missing) <==> value@.len() == 0,
            r == Err::<PollHeadline, PollHeadlineError>(PollHeadlineError::TooLong) <==> value@.len() > POLL_HEADLINE_MAX_CHARS,
    {
        match check_length(value.as_str(), true, 0, POLL_HEADLINE_MAX_CHARS) {
            None => Ok(PollHeadline { inner: value }),
            Some(LengthError::Missing) => Err(PollHeadlineError::Missing),
            Some(_) => Err(PollHeadlineError::TooLong),
        }
    }

    pub fn as_str(&self) -> (r: &str)
        ensures
            r@ == self@,
            valid_poll_headline(self@),
    {
        proof {
            use_type_invariant(self);
        }
        self.inner.as_str()
    }

    pub fn into_inner(self) -> (r: String)
        ensures
            r@ == self@,
    {
        self.inner
    }
}

impl Clone for PollHeadline {
    fn clone(&self) -> (r: PollHeadline)
        ensures
            r@ == self@,
    {
        proof {
            use_type_invariant(self);
        }
        PollHeadline { inner: self.inner.clone() }
    }
}

impl UserFacingError for PollHeadlineError {
    fn formatted_error(&self) -> &'static str {
        match self {
            PollHeadlineError::Missing => "Headline cannot be empty",
            PollHeadlineError::TooLong => "Headline is too long. Must be at most 30 characters.",
        }
    }
}

#[derive(Clone, Copy, Debug, PartialEq, Eq, Structural)]
pub enum PollChoiceDescriptionError {
    Missing,
    TooLong,
}

/// The text of one poll choice: 1 to 40 characters.
#[derive(Debug)]
pub struct PollChoiceDescription {
    inner: String,
}

impl View for PollChoiceDescription {
    type V = Seq<char>;

    closed spec fn view(&self) -> Seq<char> {
        self.inner@
    }
}

impl PollChoiceDescription {
    #[verifier::type_invariant]
    spec fn inv(&self) -> bool {
        valid_poll_choice(self.inner@)
    }

    pub fn new(value: String) -> (r: Result<PollChoiceDescription, PollChoiceDescriptionError>)
        ensures
            r matches Ok(v) ==> v@ == value@,
            r is Ok <==> valid_poll_choice(value@),
            r == Err::<PollChoiceDescription, PollChoiceDescriptionError>(PollChoiceDescriptionError::Missing) <==> value@.len() == 0,
            r == Err::<PollChoiceDescription, PollChoiceDescriptionError>(PollChoiceDescriptionError::TooLong) <==> value@.len() > POLL_CHOICE_MAX_CHARS,
    {
        match check_length(value.as_str(), true, 0, POLL_CHOICE_MAX_CHARS) {
            None => Ok(PollChoiceDescription { inner: value }),
            Some(LengthError::Missing) => Err(PollChoiceDescriptionError::Missing),
            Some(_) => Err(PollChoiceDescriptionError::TooLong),
        }
    }

    pub fn as_str(&self) -> (r: &str)
        ensures
            r@ == self@,
            valid_poll_choice(self@),
    {
        proof {
            use_type_invariant(self);
        }
        self.inner.as_str()
    }

    pub fn into_inner(self) -> (r: String)
        ensures
            r@ == self@,
    {
        self.inner
    }
}

impl Clone for PollChoiceDescription {
    fn clone(&self) -> (r: PollChoiceDescription)
        ensures
            r@ == self@,
    {
        proof {
            use_type_invariant(self);
        }
        PollChoiceDescription { inner: self.inner.clone() }
    }
}

impl UserFacingError for PollChoiceDescriptionError {
    fn formatted_error(&self) -> &'static str {
        match self {
            PollChoiceDescriptionError::Missing => "Poll choice cannot be empty",
            PollChoiceDescriptionError::TooLong => "Poll choice is too long. Must be at most 40 characters.",
        }
    }
}

#[derive(Clone, Copy, Debug, PartialEq, Eq, Structural)]
pub enum UsernameError {
    Missing,
    TooShort,
    TooLong,
}

/// A user's handle: 3 to 30 characters.
#[derive(Debug)]
pub struct Username {
    inner: String,
}

impl View for Username {
    type V = Seq<char>;

    closed spec fn view(&self) -> Seq<char> {
        self.inner@
    }
}

impl Username {
    #[verifier::type_invariant]
    spec fn inv(&self) -> bool {
        valid_username(self.inner@)
    }

    pub fn new(value: String) -> (r: Result<Username, UsernameError>)
        ensures
            r matches Ok(v) ==> v@ == value@,
            r is Ok <==> valid_username(value@),
            r == Err::<Username, UsernameError>(UsernameError::Missing) <==> value@.len() == 0,
            r == Err::<Username, UsernameError>(UsernameError::TooShort) <==> 0 < value@.len() < USERNAME_MIN_CHARS,
            r == Err::<Username, UsernameError>(UsernameError::TooLong) <==> value@.len() > USERNAME_MAX_CHARS,
    {
        match check_length(value.as_str(), true, USERNAME_MIN_CHARS, USERNAME_MAX_CHARS) {
            None => Ok(Username { inner: value }),
            Some(LengthError::Missing) => Err(UsernameError::Missing),
            Some(LengthError::TooShort) => Err(UsernameError::TooShort),
            Some(LengthError::TooLong) => Err(UsernameError::TooLong),
        }
    }

    pub fn as_str(&self) -> (r: &str)
        ensures
            r@ == self@,
            valid_username(self@),
    {
        proof {
            use_type_invariant(self);
        }
        self.inner.as_str()
    }

    pub fn into_inner(self) -> (r: String)
        ensures
            r@ == self@,
    {
        self.inner
    }
}

impl Clone for Username {
    fn clone(&self) -> (r: Username)
        ensures
            r@ == self@,
    {
        proof {
            use_type_invariant(self);
        }
        Username { inner: self.inner.clone() }
    }
}

impl UserFacingError for UsernameError {
    fn formatted_error(&self) -> &'static str {
        match self {
            UsernameError::Missing => "Username cannot be empty",
            UsernameError::TooShort => "Username is too short. Must be at least 3 characters.",
            UsernameError::TooLong => "Username is too long. Must be at most 30 characters.",
        }
    }
}

#[derive(Clone, Copy, Debug, PartialEq, Eq, Structural)]
pub enum PasswordError {
    Missing,
    TooShort,
}

/// A password: at least 8 characters.
#[derive(Debug)]
pub struct Password {
    inner: String,
}

impl View for Password {
    type V = Seq<char>;

    closed spec fn view(&self) -> Seq<char> {
        self.inner@
    }
}

impl Password {
    #[verifier::type_invariant]
    spec fn inv(&self) -> bool {
        valid_password(self.inner@)
    }

    pub fn new(value: String) -> (r: Result<Password, PasswordError>)
        ensures
            r matches Ok(v) ==> v@ == value@,
            r is Ok <==> valid_password(value@),
            r == Err::<Password, PasswordError>(PasswordError::Missing) <==> value@.len() == 0,
            r == Err::<Password, PasswordError>(PasswordError::TooShort) <==> 0 < value@.len() < PASSWORD_MIN_CHARS,
    {
        match check_length(value.as_str(), true, PASSWORD_MIN_CHARS, usize::MAX) {
            None => Ok(Password { inner: value }),
            Some(LengthError::Missing) => Err(PasswordError::Missing),
            Some(_) => Err(PasswordError::TooShort),
        }
    }

    pub fn as_str(&self) -> (r: &str)
        ensures
            r@ == self@,
            valid_password(self@),
    {
        proof {
            use_type_invariant(self);
        }
        self.inner.as_str()
    }

    pub fn into_inner(self) -> (r: String)
        ensures
            r@ == self@,
    {
        self.inner
    }
}

impl Clone for Password {
    fn clone(&self) -> (r: Password)
        ensures
            r@ == self@,
    {
        proof {
            use_type_invariant(self);
        }
        Password { inner: self.inner.clone() }
    }
}

impl UserFacingError for PasswordError {
    fn formatted_error(&self) -> &'static str {
        match self {
            PasswordError::Missing => "Password cannot be empty",
            PasswordError::TooShort => "Password is too short. Must be at least 8 characters.",
        }
    }
}

#[derive(Clone, Copy, Debug, PartialEq, Eq, Structural)]
pub enum DisplayNameError {
    TooLong,
}

/// A user's display name: at most 30 characters.
#[derive(Debug)]
pub struct DisplayName {
    inner: String,
}

impl View for DisplayName {
    type V = Seq<char>;

    closed spec fn view(&self) -> Seq<char> {
        self.inner@
    }
}

impl DisplayName {
    #[verifier::type_invariant]
    spec fn inv(&self) -> bool {
        valid_display_name(self.inner@)
    }

    pub fn new(value: String) -> (r: Result<DisplayName, DisplayNameError>)
        ensures
            r matches Ok(v) ==> v@ == value@,
            r is Ok <==> valid_display_name(value@),
            r == Err::<DisplayName, DisplayNameError>(DisplayNameError::TooLong) <==> value@.len() > DISPLAY_NAME_MAX_CHARS,
    {
        match check_length(value.as_str(), false, 0, DISPLAY_NAME_MAX_CHARS) {
            None => Ok(DisplayName { inner: value }),
            Some(_) => Err(DisplayNameError::TooLong),
        }
    }

    pub fn as_str(&self) -> (r: &str)
        ensures
            r@ == self@,
            valid_display_name(self@),
    {
        proof {
            use_type_invariant(self);
        }
        self.inner.as_str()
    }

    pub fn into_inner(self) -> (r: String)
        ensures
            r@ == self@,
    {
        self.inner
    }
}

impl Clone for DisplayName {
    fn clone(&self) -> (r: DisplayName)
        ensures
            r@ == self@,
    {
        proof {
            use_type_invariant(self);
        }
        DisplayName { inner: self.inner.clone() }
    }
}

impl UserFacingError for DisplayNameError {
    fn formatted_error(&self) -> &'static str {
        match self {
            DisplayNameError::TooLong => "Username is too long. Must be at most 30 characters.",
        }
    }
}

} // verus!
