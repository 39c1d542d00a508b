use cj_ascii::ascii_common::ReadLineResult;

#[test]
fn test_is_success() {
    assert!(ReadLineResult::Success(0).is_success());
    assert!(!ReadLineResult::EOF.is_success());
    assert!(
        !ReadLineResult::Error(std::io::Error::new(std::io::ErrorKind::Other, "test"))
            .is_success()
    );
}

#[test]
fn test_is_eof() {
    assert!(!ReadLineResult::Success(0).is_eof());
    assert!(ReadLineResult::EOF.is_eof());
    assert!(
        !ReadLineResult::Error(std::io::Error::new(std::io::ErrorKind::Other, "test")).is_eof()
    );
}

#[test]
fn test_is_error() {
    assert!(!ReadLineResult::Success(0).is_error());
    assert!(!ReadLineResult::EOF.is_error());
    assert!(
        ReadLineResult::Error(std::io::Error::new(std::io::ErrorKind::Other, "test")).is_error()
    );
}

#[test]
fn unwrap_gives_the_count_of_a_success() {
    assert_eq!(ReadLineResult::Success(0).unwrap(), 0);
    assert_eq!(ReadLineResult::Success(17).unwrap(), 17);
}
