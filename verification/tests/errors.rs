use shbot::models::{Priority, Role};
use shbot::slack::slash::{ResponseType, SlashResponse};
use shbot::slack::Response;
use shbot::{Error, UserError};

#[test]
fn the_texts_of_the_errors() {
    assert_eq!("Invalid input: x", Error::InvalidArg("x".to_string()).message());
    assert_eq!("Duplicate data: film", Error::Duplicate("film".to_string()).message());
    assert_eq!("Not found: U1", Error::NotFound("U1".to_string()).message());
    assert_eq!("Impossible state", Error::Internal("Impossible state".to_string()).message());
    assert_eq!("Matching variant not found", Error::ParseError.message());
    assert_eq!("Unreachable.", Error::Unreachable.message());
}

#[test]
fn user_errors_hide_what_is_internal() {
    assert_eq!(UserError::InvalidArg("x".to_string()), UserError::from(Error::InvalidArg("x".to_string())));
    assert_eq!(UserError::Duplicate("x".to_string()), UserError::from(Error::Duplicate("x".to_string())));
    assert_eq!(UserError::NotFound("x".to_string()), UserError::from(Error::NotFound("x".to_string())));
    assert_eq!(
        UserError::Internal(Error::Internal("x".to_string())),
        UserError::from(Error::Internal("x".to_string()))
    );
    assert_eq!(UserError::Internal(Error::Unreachable), UserError::from(Error::Unreachable));
    assert_eq!(UserError::Internal(Error::ParseError), Error::ParseError.into());

    assert_eq!("Invalid input: x", UserError::InvalidArg("x".to_string()).report());
    assert_eq!("Duplicate data: x", UserError::Duplicate("x".to_string()).report());
    assert_eq!("Not found: x", UserError::NotFound("x".to_string()).report());
    assert_eq!(
        "Internal Error! Please let Michael know.",
        UserError::Internal(Error::Internal("secret".to_string())).report()
    );
}

#[test]
fn roles_and_priorities_are_read_from_their_names() {
    assert_eq!(Ok(Role::Ae), Role::from_str("AE"));
    assert_eq!(Ok(Role::Editor), Role::from_str("EDITOR"));
    assert_eq!(Ok(Role::Sound), Role::from_str("SOUND"));
    assert_eq!(Ok(Role::Finish), Role::from_str("FINISH"));
    assert_eq!(Ok(Role::Done), Role::from_str("DONE"));
    assert_eq!(Err(Error::ParseError), Role::from_str("ae"));
    assert_eq!(Err(Error::ParseError), Role::from_str(""));
    assert_eq!(Err(Error::ParseError), Role::from_str("COLOR"));
    assert_eq!(Ok(Priority::Low), Priority::from_str("LOW"));
    assert_eq!(Ok(Priority::High), Priority::from_str("HIGH"));
    assert_eq!(Err(Error::ParseError), Priority::from_str("High"));
    for role in [Role::Ae, Role::Editor, Role::Sound, Role::Finish, Role::Done] {
        assert_eq!(Ok(role), Role::from_str(role.as_ref()));
    }
}

#[test]
fn responses_hold_what_they_are_given() {
    let r = Response::new("C".to_string(), "hi".to_string(), Some("1.5".to_string()));
    assert_eq!("C", r.channel);
    assert_eq!("hi", r.text);
    assert_eq!(Some("1.5".to_string()), r.thread_ts);
    let r = Response::new("C".to_string(), "hi".to_string(), None);
    assert_eq!(None, r.thread_ts);
    let s = SlashResponse::new("testing".to_string(), Some(ResponseType::Ephemeral));
    assert_eq!("testing", s.text);
    assert_eq!(Some(ResponseType::Ephemeral), s.response_type);
    assert_eq!(None, SlashResponse::new("x".to_string(), None).response_type);
}
