use uchat::domain::{
    Caption, DisplayName, DisplayNameError, Headline, HeadlineError, Message, MessageError,
    Password, PasswordError, UserFacingError, Username, UsernameError,
};
use uchat::endpoint::{Endpoint, LikeStatus, React, Update};
use uchat::ids::{IdError, PostId, UserId};

#[test]
fn headline_bounds() {
    assert_eq!(Headline::new(String::new()).err(), Some(HeadlineError::Missing));
    assert!(Headline::new("x".repeat(30)).is_ok());
    assert_eq!(Headline::new("x".repeat(31)).err(), Some(HeadlineError::TooLong));
    assert_eq!(Headline::new("é".repeat(30)).unwrap().as_str(), "é".repeat(30));
}

#[test]
fn message_bounds() {
    assert_eq!(Message::new(String::new()).err(), Some(MessageError::Missing));
    assert!(Message::new("m".repeat(100)).is_ok());
    assert_eq!(Message::new("m".repeat(101)).err(), Some(MessageError::TooLong));
}

#[test]
fn username_bounds() {
    assert_eq!(Username::new(String::new()).err(), Some(UsernameError::Missing));
    assert_eq!(Username::new("ab".to_string()).err(), Some(UsernameError::TooShort));
    assert!(Username::new("abc".to_string()).is_ok());
    assert!(Username::new("a".repeat(30)).is_ok());
    assert_eq!(Username::new("a".repeat(31)).err(), Some(UsernameError::TooLong));
}

#[test]
fn password_and_display_name_bounds() {
    assert_eq!(Password::new(String::new()).err(), Some(PasswordError::Missing));
    assert_eq!(Password::new("1234567".to_string()).err(), Some(PasswordError::TooShort));
    assert!(Password::new("12345678".to_string()).is_ok());
    assert!(DisplayName::new(String::new()).is_ok());
    assert_eq!(DisplayName::new("d".repeat(31)).err(), Some(DisplayNameError::TooLong));
    assert!(Caption::new(String::new()).is_ok());
}

#[test]
fn user_facing_messages() {
    assert_eq!(HeadlineError::Missing.formatted_error(), "Headline cannot be empty");
    assert_eq!(
        UsernameError::TooShort.formatted_error(),
        "Username is too short. Must be at least 3 characters."
    );
    assert_eq!(PasswordError::TooShort.formatted_error(), "Password is too short. Must be at least 8 characters.");
}

#[test]
fn ids_format_and_parse() {
    let id = UserId::from_u128(0x67e5504410b1426f9247bb680e5fe0c8);
    assert_eq!(id.to_string(), "67e55044-10b1-426f-9247-bb680e5fe0c8");
    assert_eq!(UserId::parse("67e55044-10b1-426f-9247-bb680e5fe0c8"), Ok(id));
    assert_eq!(PostId::parse("nope"), Err(IdError::Parse));
    assert_ne!(UserId::new(), UserId::new());
}

#[test]
fn update_variants() {
    assert_eq!(Update::Change(3).into_option(), Some(3));
    assert_eq!(Update::<i32>::NoChange.into_option(), None);
    assert_eq!(Update::<i32>::SetNull.into_option(), None);
    assert_eq!(Update::Change(3).into_nullable(), Some(Some(3)));
    assert_eq!(Update::<i32>::NoChange.into_nullable(), None);
    assert_eq!(Update::<i32>::SetNull.into_nullable(), Some(None));
}

#[test]
fn like_status_values() {
    assert_eq!(LikeStatus::Like.to_value(), 1);
    assert_eq!(LikeStatus::Dislike.to_value(), -1);
    assert_eq!(LikeStatus::NoReaction.to_value(), 0);
    assert_eq!(LikeStatus::from_value(-1), LikeStatus::Dislike);
    assert_eq!(LikeStatus::from_value(7), LikeStatus::NoReaction);
}

#[test]
fn endpoint_routes() {
    let r = React { post_id: PostId::from_u128(1), like_status: LikeStatus::Like };
    assert_eq!(r.url(), "/post/react");
}
