use usage_monitor::error::{ErrorKind, ScraperError};

#[test]
fn kinds_of_failures() {
    assert_eq!(ScraperError::Io(String::new()).kind(), ErrorKind::IoFailure);
    assert_eq!(ScraperError::Timeout(String::new()).kind(), ErrorKind::Timeout);
    assert_eq!(ScraperError::JsonParse(String::new()).kind(), ErrorKind::ProtocolViolation);
    assert_eq!(ScraperError::Protocol(String::new()).kind(), ErrorKind::ProtocolViolation);
    assert_eq!(ScraperError::Execution(String::new()).kind(), ErrorKind::ExecutionFailure);
}

#[test]
fn failures_as_one_line() {
    assert_eq!(ScraperError::Io("x".to_string()).to_string(), "Io: x");
    assert_eq!(ScraperError::Timeout("x y".to_string()).to_string(), "Timeout: x y");
    assert_eq!(ScraperError::JsonParse("".to_string()).to_string(), "JsonParse: ");
    assert_eq!(ScraperError::Protocol("p".to_string()).to_string(), "Protocol: p");
    assert_eq!(ScraperError::Execution("é".to_string()).to_string(), "Execution: é");
    assert_eq!(ScraperError::Execution("é".to_string()).message(), "é");
}

#[test]
fn io_error_becomes_io() {
    let e = ScraperError::from(std::io::Error::new(std::io::ErrorKind::Other, "pipe closed"));
    match e {
        ScraperError::Io(m) => assert_eq!(m, "pipe closed"),
        other => panic!("unexpected error: {:?}", other),
    }
}

#[test]
fn json_error_becomes_json_parse() {
    let cause = serde_json::from_str::<serde_json::Value>("{\"a\":").unwrap_err();
    let text = cause.to_string();
    match ScraperError::from(cause) {
        ScraperError::JsonParse(m) => {
            assert_eq!(m, text);
            assert_eq!(m, "EOF while parsing a value at line 1 column 5");
        }
        other => panic!("unexpected error: {:?}", other),
    }
}
