//! Unit tests for the parsing and classification helpers.

use redis_aio::Cmd;
use redis_aio::ConnectionLike;
use redis_aio::ErrorKind;
use redis_aio::Pipeline;
use redis_aio::PipelineRetryStrategy;
use redis_aio::RedisError;
use redis_aio::SetupError;
use redis_aio::Value;
use redis_aio::connection::classify_negotiation_error;
use redis_aio::discovery_outcome;
use redis_aio::connection::is_auth_arity_error;
use redis_aio::contains_bytes;
use redis_aio::info::info_az;
use redis_aio::starts_with_bytes;
use redis_aio::update_az_from_info;

#[test]
fn contains_finds_inner_bytes() {
    let hay = b"ERR wrong number of arguments for 'auth' command sent".to_vec();
    assert!(contains_bytes(&hay, &b"wrong number of arguments for 'auth' command".to_vec()));
    assert!(contains_bytes(&hay, &b"ERR".to_vec()));
    assert!(contains_bytes(&hay, &b"".to_vec()));
    assert!(!contains_bytes(&hay, &b"unknown".to_vec()));
}

#[test]
fn starts_with_checks_prefix_only() {
    let hay = b"unknown command `HELLO`".to_vec();
    assert!(starts_with_bytes(&hay, &b"unknown command".to_vec()));
    assert!(!starts_with_bytes(&hay, &b"command".to_vec()));
    assert!(!starts_with_bytes(&b"un".to_vec(), &b"unknown".to_vec()));
}

#[test]
fn arity_error_detection_is_exact() {
    let arity = RedisError {
        kind: ErrorKind::ResponseError,
        detail: Some(b"ERR wrong number of arguments for 'auth' command".to_vec()),
    };
    assert!(is_auth_arity_error(&arity));
    let other = RedisError {
        kind: ErrorKind::ResponseError,
        detail: Some(b"ERR wrong number of arguments for 'get' command".to_vec()),
    };
    assert!(!is_auth_arity_error(&other));
    let bare = RedisError { kind: ErrorKind::AuthenticationFailed, detail: None };
    assert!(!is_auth_arity_error(&bare));
}

#[test]
fn negotiation_classification_distinguishes_unknown_command() {
    let unknown = RedisError {
        kind: ErrorKind::ResponseError,
        detail: Some(b"unknown command `HELLO`, with args beginning with: `3`".to_vec()),
    };
    assert!(matches!(
        classify_negotiation_error(unknown),
        SetupError::VersionNotSupported
    ));
    let other = RedisError {
        kind: ErrorKind::IoError,
        detail: Some(b"connection reset".to_vec()),
    };
    match classify_negotiation_error(other) {
        SetupError::Negotiation(e) => {
            assert_eq!(e.kind, ErrorKind::IoError);
            assert_eq!(e.detail, Some(b"connection reset".to_vec()));
        }
        _ => panic!("expected the cause to be carried through"),
    }
}

#[test]
fn info_az_extracts_field_value() {
    let payload = b"# Server\r\nredis_version:7.2.0\r\navailability_zone:us-east-1a\r\nrole:master\r\n"
        .to_vec();
    assert_eq!(info_az(&payload), Some(b"us-east-1a".to_vec()));
}

#[test]
fn info_az_missing_field_is_none() {
    let payload = b"# Server\r\nredis_version:7.2.0\r\n".to_vec();
    assert_eq!(info_az(&payload), None);
}

#[test]
fn info_az_takes_first_occurrence_and_needs_exact_key() {
    let payload =
        b"xavailability_zone:wrong\navailability_zone:right\navailability_zone:later\n".to_vec();
    assert_eq!(info_az(&payload), Some(b"right".to_vec()));
}

#[test]
fn info_az_handles_bare_line_feeds_and_empty_value() {
    let payload = b"availability_zone:\nrole:master".to_vec();
    assert_eq!(info_az(&payload), Some(b"".to_vec()));
    let no_colon = b"availability_zone\nrole:master".to_vec();
    assert_eq!(info_az(&no_colon), None);
}

#[test]
fn info_az_value_may_contain_colons() {
    let payload = b"availability_zone:zone:a\n".to_vec();
    assert_eq!(info_az(&payload), Some(b"zone:a".to_vec()));
}

/// A dispatcher for driving `update_az_from_info` alone.
struct InfoOnly {
    reply: Option<Result<Value, RedisError>>,
    az: Option<Vec<u8>>,
}

impl ConnectionLike for InfoOnly {
    fn req_packed_command(&mut self, _cmd: &Cmd) -> Result<Value, RedisError> {
        self.reply.take().unwrap()
    }

    fn req_packed_commands(
        &mut self,
        _cmd: &Pipeline,
        _offset: usize,
        _count: usize,
        _pipeline_retry_strategy: Option<PipelineRetryStrategy>,
    ) -> Result<Vec<Value>, RedisError> {
        Ok(Vec::new())
    }

    fn get_db(&self) -> i64 {
        0
    }

    fn is_closed(&self) -> bool {
        false
    }

    fn get_az(&self) -> Option<Vec<u8>> {
        self.az.clone()
    }

    fn set_az(&mut self, az: Option<Vec<u8>>) {
        self.az = az;
    }
}

#[test]
fn discovery_outcome_classifies_every_reply() {
    let ok = discovery_outcome(Ok(Value::BulkString(
        b"availability_zone:us-east-1a\r\n".to_vec(),
    )));
    match ok {
        Ok(Some(az)) => assert_eq!(az, b"us-east-1a".to_vec()),
        _ => panic!("expected success with the zone"),
    }
    let absent = discovery_outcome(Ok(Value::BulkString(b"role:master\r\n".to_vec())));
    assert!(matches!(absent, Ok(None)));
    let shape = discovery_outcome(Ok(Value::Int(7)));
    assert!(matches!(shape, Err(SetupError::LocalityDiscovery(None))));
    let cause = RedisError { kind: ErrorKind::IoError, detail: Some(b"reset".to_vec()) };
    match discovery_outcome(Err(cause)) {
        Err(SetupError::LocalityDiscovery(Some(e))) => {
            assert_eq!(e.kind, ErrorKind::IoError);
            assert_eq!(e.detail, Some(b"reset".to_vec()));
        }
        _ => panic!("expected the dispatch error to be carried"),
    }
}

#[test]
fn update_az_stores_zone_from_reply() {
    let mut con = InfoOnly {
        reply: Some(Ok(Value::BulkString(b"availability_zone:eu-west-1b\r\n".to_vec()))),
        az: None,
    };
    assert!(update_az_from_info(&mut con).is_ok());
    assert_eq!(con.get_az(), Some(b"eu-west-1b".to_vec()));
}

#[test]
fn update_az_accepts_status_reply() {
    let mut con = InfoOnly {
        reply: Some(Ok(Value::SimpleString(b"availability_zone:ap-south-1c\n".to_vec()))),
        az: None,
    };
    assert!(update_az_from_info(&mut con).is_ok());
    assert_eq!(con.get_az(), Some(b"ap-south-1c".to_vec()));
}

#[test]
fn update_az_rejects_wrong_reply_shape() {
    let mut con = InfoOnly {
        reply: Some(Ok(Value::Array(vec![Value::Okay]))),
        az: None,
    };
    let r = update_az_from_info(&mut con);
    assert!(matches!(r, Err(SetupError::LocalityDiscovery(None))));
}

#[test]
fn update_az_propagates_dispatch_failure() {
    let mut con = InfoOnly {
        reply: Some(Err(RedisError { kind: ErrorKind::IoError, detail: None })),
        az: None,
    };
    let r = update_az_from_info(&mut con);
    assert!(matches!(r, Err(SetupError::LocalityDiscovery(Some(_)))));
    assert_eq!(con.get_az(), None);
}
