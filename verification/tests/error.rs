use mutatis::error::ResultExt;
use mutatis::{Error, ErrorKind, ErrorMessage};
use std::borrow::Cow;

#[test]
fn exhausted_is_only_exhausted() {
    let error = Error::exhausted();
    assert!(error.is_exhausted());
    assert!(!error.is_invalid_range());
    assert!(!error.is_other());
    assert!(matches!(error.kind(), ErrorKind::Exhausted));
}

#[test]
fn invalid_range_is_only_invalid_range() {
    let error = Error::invalid_range();
    assert!(!error.is_exhausted());
    assert!(error.is_invalid_range());
    assert!(!error.is_other());
    assert!(matches!(error.kind(), ErrorKind::InvalidRange));
}

#[test]
fn other_carries_its_message() {
    let error = Error::other("something went wrong");
    assert!(!error.is_exhausted());
    assert!(!error.is_invalid_range());
    assert!(error.is_other());
    match error.kind() {
        ErrorKind::Other(message) => assert_eq!(message.as_str(), "something went wrong"),
        _ => panic!("the error should be of kind `Other`"),
    }
}

#[test]
fn other_takes_an_owned_message() {
    let error = Error::other(format!("bad value {}", 7));
    match error.into_kind() {
        ErrorKind::Other(message) => assert_eq!(message.as_str(), "bad value 7"),
        _ => panic!("the error should be of kind `Other`"),
    }
}

#[test]
fn error_from_kind_keeps_the_kind() {
    assert!(Error::from(ErrorKind::Exhausted).is_exhausted());
    assert!(Error::from(ErrorKind::InvalidRange).is_invalid_range());
    let error = Error::from(ErrorKind::Other(ErrorMessage::new("x")));
    assert!(error.is_other());
    assert!(matches!(Error::exhausted().into_kind(), ErrorKind::Exhausted));
    assert!(matches!(Error::invalid_range().into_kind(), ErrorKind::InvalidRange));
}

#[test]
fn error_message_as_str() {
    let msg = ErrorMessage::new("something went wrong");
    assert_eq!(msg.as_str(), "something went wrong");
}

#[test]
fn error_message_from_each_kind_of_string() {
    assert_eq!(ErrorMessage::from("borrowed").as_str(), "borrowed");
    assert_eq!(ErrorMessage::from(String::from("owned")).as_str(), "owned");
    assert_eq!(ErrorMessage::from(Cow::Borrowed("cow")).as_str(), "cow");
    assert_eq!(ErrorMessage::from(Cow::Owned(String::from("owned cow"))).as_str(), "owned cow");
    assert_eq!(ErrorMessage::new(String::new()).as_str(), "");
}

#[test]
fn error_texts() {
    assert_eq!(Error::exhausted().to_string(), "the mutator is exhausted");
    assert_eq!(Error::invalid_range().to_string(), "the mutator was given an invalid range");
    assert_eq!(Error::other("oh no").to_string(), "an unknown error occurred: oh no");
    assert_eq!(Error::other("").to_string(), "an unknown error occurred: ");
}

#[test]
fn ignore_exhausted_turns_exhaustion_into_success() {
    let result: Result<(), Error> = Err(Error::exhausted());
    let result = result.ignore_exhausted();
    assert!(result.is_ok());
}

#[test]
fn ignore_exhausted_keeps_other_errors() {
    let result: Result<u8, Error> = Err(Error::invalid_range());
    assert!(result.ignore_exhausted().err().unwrap().is_invalid_range());

    let result: Result<u8, Error> = Err(Error::other("kept"));
    assert_eq!(
        result.ignore_exhausted().err().unwrap().to_string(),
        "an unknown error occurred: kept"
    );
}

#[test]
fn ignore_exhausted_drops_the_value_of_a_success() {
    let result: Result<u8, Error> = Ok(3);
    assert_eq!(result.ignore_exhausted().ok(), Some(()));
}

#[test]
fn result_is_a_result_with_this_error() {
    fn exhausted() -> mutatis::Result<u8> {
        Err(Error::exhausted())
    }
    assert!(exhausted().ignore_exhausted().is_ok());
    let result: mutatis::check::CheckResult<u8> = Ok(());
    assert!(result.is_ok());
}
