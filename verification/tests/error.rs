use settings::Error;
use std::io::{Error as IoError, ErrorKind};
use std::path::PathBuf;

#[test]
fn message_of_open() {
    let error = Error::Open {
        source: IoError::from(ErrorKind::NotFound),
        path: PathBuf::from("/nowhere/settings.ron"),
    };
    assert_eq!(error.message(), "Could not open settings file");
}

#[test]
fn message_of_deserialize() {
    let cause = ron::de::from_str::<u32>("not a number").unwrap_err();
    assert_eq!(Error::Deserialize(cause).message(), "Could not deserialize settings file");
}

#[test]
fn message_of_serialize() {
    let cause = ron::Error::Message(String::from("unsupported"));
    assert_eq!(Error::Serialize(cause).message(), "Could not serialize settings file");
}

#[test]
fn message_of_not_found() {
    assert_eq!(Error::NotFound.message(), "Cound not find a settings file");
}

#[test]
fn errors_can_be_printed_for_debugging() {
    assert_eq!(format!("{:?}", Error::NotFound), "NotFound");
    let error = Error::Open {
        source: IoError::from(ErrorKind::NotFound),
        path: PathBuf::from("/nowhere/settings.ron"),
    };
    assert!(format!("{:?}", error).contains("/nowhere/settings.ron"));
}

#[test]
fn unread_is_the_parsers_diagnostic_for_the_cause() {
    match Error::unread(IoError::new(ErrorKind::Other, "disk fell off")) {
        Error::Deserialize(cause) => {
            assert_eq!(cause.code, ron::Error::Io("disk fell off".to_string()));
            assert_eq!(cause.position.line, 0);
            assert_eq!(cause.position.col, 0);
        }
        other => panic!("expected a deserialize error, got {:?}", other),
    }
}

#[test]
fn unwritten_is_the_encoders_diagnostic_for_the_cause() {
    match Error::unwritten(IoError::new(ErrorKind::Other, "disk full")) {
        Error::Serialize(cause) => assert_eq!(cause, ron::Error::Io("disk full".to_string())),
        other => panic!("expected a serialize error, got {:?}", other),
    }
}
