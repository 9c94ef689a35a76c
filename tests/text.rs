use hexarch_example::config::{Config, ConfigError};
use hexarch_example::http::{parse_id, HttpError, ParseIdError};
use hexarch_example::model::{CreateAuthorError, FindAllAuthorsError};
use hexarch_example::text::{decimal_string, parse_unsigned};

#[test]
fn decimal_numerals() {
    assert_eq!(decimal_string(0), "0");
    assert_eq!(decimal_string(7), "7");
    assert_eq!(decimal_string(1234567890), "1234567890");
    assert_eq!(decimal_string(u64::MAX), "18446744073709551615");
}

#[test]
fn unsigned_parsing_follows_std() {
    for s in ["0", "42", "+42", "007", "18446744073709551615", "", "+", "-1", "1a", " 1", "18446744073709551616", "99999999999999999999"] {
        assert_eq!(parse_unsigned(s, u64::MAX), s.parse::<u64>().ok(), "{s}");
    }
    for s in ["65535", "65536", "8080", "+1", "-0"] {
        assert_eq!(parse_unsigned(s, 65535), s.parse::<u16>().ok().map(u64::from), "{s}");
    }
    assert_eq!(parse_unsigned("10", 9), None);
    assert_eq!(parse_unsigned("9", 9), Some(9));
    assert_eq!(parse_unsigned("5", 0), None);
}

#[test]
fn ids_are_parsed() {
    assert_eq!(parse_id("999999".to_string()).unwrap(), 999999);
    let err = parse_id("12x".to_string()).unwrap_err();
    assert_eq!(err.id, "12x");
    assert_eq!(err.to_string(), "Cannot parse id from \"12x\"");
}

#[test]
fn errors_map_to_statuses() {
    let e = HttpError::from(ParseIdError { id: "q".to_string() });
    assert_eq!((e.status, e.message.as_str()), (400, "Cannot parse id from \"q\""));
    let e = HttpError::from(CreateAuthorError::Unknown("secret detail".to_string()));
    assert_eq!((e.status, e.message.as_str()), (500, "Internal server error"));
    let e = HttpError::from(FindAllAuthorsError("secret".to_string()));
    assert_eq!((e.status, e.message.as_str()), (500, "Internal server error"));
}

#[test]
fn config_from_values() {
    let c = Config::from_values("sqlite://authors.db".to_string(), "3000").unwrap();
    assert_eq!(c.database_url(), "sqlite://authors.db");
    assert_eq!(c.server_port(), 3000);
    match Config::from_values("x".to_string(), "65536") {
        Err(ConfigError::InvalidServerPort(t)) => assert_eq!(t, "65536"),
        other => panic!("expected an invalid port, got {other:?}"),
    }
    let err = Config::from_values("x".to_string(), "http").unwrap_err();
    assert_eq!(err.to_string(), "Failed to parse environment variable SERVER_PORT");
}
