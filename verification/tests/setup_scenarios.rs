//! End-to-end handshake scenarios against a recording fake dispatcher.

use redis_aio::Cmd;
use redis_aio::CmdArg;
use redis_aio::ConnectionLike;
use redis_aio::ErrorKind;
use redis_aio::Pipeline;
use redis_aio::PipelineRetryStrategy;
use redis_aio::ProtocolVersion;
use redis_aio::PubSubSubscriptionInfo;
use redis_aio::PubSubSubscriptionKind;
use redis_aio::PushKind;
use redis_aio::RedisConnectionInfo;
use redis_aio::RedisError;
use redis_aio::SetupError;
use redis_aio::Value;
use redis_aio::setup_connection;

/// A command as the fake sees it: the name followed by the rendered
/// arguments.
fn render(cmd: &Cmd) -> Vec<Vec<u8>> {
    let mut out = vec![cmd.name.clone()];
    for a in &cmd.args {
        match a {
            CmdArg::Bytes(b) => out.push(b.clone()),
            CmdArg::Int(i) => out.push(i.to_string().into_bytes()),
        }
    }
    out
}

/// A recording fake dispatcher: logs every dispatched command, answers
/// through a scripted closure, and keeps the handle bookkeeping a real
/// connection would.
struct Fake {
    log: Vec<Vec<Vec<u8>>>,
    batches: usize,
    batch_fails: bool,
    db: i64,
    az: Option<Vec<u8>>,
    on_cmd: Box<dyn FnMut(&[Vec<u8>]) -> Result<Value, RedisError>>,
}

impl Fake {
    fn new(on_cmd: Box<dyn FnMut(&[Vec<u8>]) -> Result<Value, RedisError>>) -> Fake {
        Fake { log: Vec::new(), batches: 0, batch_fails: false, db: 0, az: None, on_cmd }
    }

    fn count(&self, name: &[u8]) -> usize {
        self.log.iter().filter(|c| c[0] == name).count()
    }
}

impl ConnectionLike for Fake {
    fn req_packed_command(&mut self, cmd: &Cmd) -> Result<Value, RedisError> {
        let rendered = render(cmd);
        self.log.push(rendered.clone());
        let reply = (self.on_cmd)(&rendered);
        if rendered[0] == b"SELECT" && matches!(reply, Ok(Value::Okay)) {
            self.db = String::from_utf8(rendered[1].clone()).unwrap().parse().unwrap();
        }
        reply
    }

    fn req_packed_commands(
        &mut self,
        cmd: &Pipeline,
        _offset: usize,
        count: usize,
        _pipeline_retry_strategy: Option<PipelineRetryStrategy>,
    ) -> Result<Vec<Value>, RedisError> {
        self.batches += 1;
        for c in &cmd.commands {
            self.log.push(render(c));
        }
        if self.batch_fails {
            Err(RedisError { kind: ErrorKind::ResponseError, detail: Some(b"nope".to_vec()) })
        } else {
            let mut replies = Vec::new();
            for _ in 0..count {
                replies.push(Value::Okay);
            }
            Ok(replies)
        }
    }

    fn get_db(&self) -> i64 {
        self.db
    }

    fn is_closed(&self) -> bool {
        false
    }

    fn get_az(&self) -> Option<Vec<u8>> {
        self.az.clone()
    }

    fn set_az(&mut self, az: Option<Vec<u8>>) {
        self.az = az;
    }
}

fn plain_info() -> RedisConnectionInfo {
    RedisConnectionInfo {
        db: 0,
        username: None,
        password: None,
        protocol: ProtocolVersion::RESP2,
        client_name: None,
        pubsub_subscriptions: None,
    }
}

fn always_okay() -> Box<dyn FnMut(&[Vec<u8>]) -> Result<Value, RedisError>> {
    Box::new(|_c| Ok(Value::Okay))
}

fn push_for(kind: PushKind, channel: &[u8]) -> Value {
    Value::Push { kind, data: vec![Value::BulkString(channel.to_vec())] }
}

#[test]
fn select_binds_configured_database() {
    let mut info = plain_info();
    info.db = 5;
    let mut con = Fake::new(always_okay());
    let r = setup_connection(&info, &mut con, false);
    assert!(r.is_ok());
    assert_eq!(con.get_db(), 5);
    assert_eq!(con.count(b"SELECT"), 1);
    assert_eq!(con.log[0], vec![b"SELECT".to_vec(), b"5".to_vec()]);
}

#[test]
fn zero_database_issues_no_select() {
    let info = plain_info();
    let mut con = Fake::new(always_okay());
    let r = setup_connection(&info, &mut con, false);
    assert!(r.is_ok());
    assert_eq!(con.count(b"SELECT"), 0);
    assert_eq!(con.get_db(), 0);
}

#[test]
fn auth_arity_error_retries_without_username() {
    let mut info = plain_info();
    info.username = Some(b"alice".to_vec());
    info.password = Some(b"secret".to_vec());
    let mut con = Fake::new(Box::new(|c: &[Vec<u8>]| {
        if c[0] == b"AUTH" && c.len() == 3 {
            Err(RedisError {
                kind: ErrorKind::ResponseError,
                detail: Some(b"ERR wrong number of arguments for 'auth' command".to_vec()),
            })
        } else {
            Ok(Value::Okay)
        }
    }));
    let r = setup_connection(&info, &mut con, false);
    assert!(r.is_ok());
    let auths: Vec<_> = con.log.iter().filter(|c| c[0] == b"AUTH").collect();
    assert_eq!(auths.len(), 2);
    assert_eq!(auths[0], &vec![b"AUTH".to_vec(), b"alice".to_vec(), b"secret".to_vec()]);
    assert_eq!(auths[1], &vec![b"AUTH".to_vec(), b"secret".to_vec()]);
}

#[test]
fn auth_generic_error_fails_without_retry() {
    let mut info = plain_info();
    info.username = Some(b"alice".to_vec());
    info.password = Some(b"secret".to_vec());
    let mut con = Fake::new(Box::new(|c: &[Vec<u8>]| {
        if c[0] == b"AUTH" {
            Err(RedisError {
                kind: ErrorKind::AuthenticationFailed,
                detail: Some(b"WRONGPASS invalid username-password pair".to_vec()),
            })
        } else {
            Ok(Value::Okay)
        }
    }));
    let r = setup_connection(&info, &mut con, false);
    assert!(matches!(r, Err(SetupError::Authentication)));
    assert_eq!(con.count(b"AUTH"), 1);
}

#[test]
fn auth_wrong_value_fails_without_retry() {
    let mut info = plain_info();
    info.password = Some(b"secret".to_vec());
    let mut con = Fake::new(Box::new(|c: &[Vec<u8>]| {
        if c[0] == b"AUTH" {
            Ok(Value::Int(1))
        } else {
            Ok(Value::Okay)
        }
    }));
    let r = setup_connection(&info, &mut con, false);
    assert!(matches!(r, Err(SetupError::Authentication)));
    assert_eq!(con.count(b"AUTH"), 1);
}

fn three_subscriptions() -> RedisConnectionInfo {
    let mut info = plain_info();
    info.protocol = ProtocolVersion::RESP3;
    info.pubsub_subscriptions = Some(PubSubSubscriptionInfo {
        exact: vec![b"news".to_vec()],
        pattern: vec![b"news.*".to_vec()],
        sharded: vec![b"shard-news".to_vec()],
    });
    info
}

fn confirming_dispatcher() -> Box<dyn FnMut(&[Vec<u8>]) -> Result<Value, RedisError>> {
    Box::new(|c: &[Vec<u8>]| {
        if c[0] == b"SUBSCRIBE" {
            Ok(push_for(PushKind::Subscribe, &c[1]))
        } else if c[0] == b"PSUBSCRIBE" {
            Ok(push_for(PushKind::PSubscribe, &c[1]))
        } else if c[0] == b"SSUBSCRIBE" {
            Ok(push_for(PushKind::SSubscribe, &c[1]))
        } else {
            Ok(Value::Okay)
        }
    })
}

#[test]
fn subscriptions_restored_in_kind_order() {
    let info = three_subscriptions();
    let mut con = Fake::new(confirming_dispatcher());
    let r = setup_connection(&info, &mut con, false);
    assert!(r.is_ok());
    let subs: Vec<_> = con
        .log
        .iter()
        .filter(|c| c[0] == b"SUBSCRIBE" || c[0] == b"PSUBSCRIBE" || c[0] == b"SSUBSCRIBE")
        .collect();
    assert_eq!(subs.len(), 3);
    assert_eq!(subs[0], &vec![b"SUBSCRIBE".to_vec(), b"news".to_vec()]);
    assert_eq!(subs[1], &vec![b"PSUBSCRIBE".to_vec(), b"news.*".to_vec()]);
    assert_eq!(subs[2], &vec![b"SSUBSCRIBE".to_vec(), b"shard-news".to_vec()]);
}

#[test]
fn mismatched_push_fails_fast() {
    let info = three_subscriptions();
    let mut con = Fake::new(Box::new(|c: &[Vec<u8>]| {
        if c[0] == b"SUBSCRIBE" {
            Ok(push_for(PushKind::Subscribe, &c[1]))
        } else if c[0] == b"PSUBSCRIBE" {
            Ok(push_for(PushKind::PSubscribe, b"some-other-channel"))
        } else if c[0] == b"SSUBSCRIBE" {
            Ok(push_for(PushKind::SSubscribe, &c[1]))
        } else {
            Ok(Value::Okay)
        }
    }));
    let r = setup_connection(&info, &mut con, false);
    assert!(matches!(r, Err(SetupError::Restoration(PubSubSubscriptionKind::Pattern))));
    assert_eq!(con.count(b"SSUBSCRIBE"), 0);
}

#[test]
fn wrong_push_kind_fails_restoration() {
    let mut info = three_subscriptions();
    info.pubsub_subscriptions = Some(PubSubSubscriptionInfo {
        exact: vec![b"news".to_vec()],
        pattern: vec![],
        sharded: vec![],
    });
    let mut con = Fake::new(Box::new(|c: &[Vec<u8>]| {
        if c[0] == b"SUBSCRIBE" {
            Ok(push_for(PushKind::Message, &c[1]))
        } else {
            Ok(Value::Okay)
        }
    }));
    let r = setup_connection(&info, &mut con, false);
    assert!(matches!(r, Err(SetupError::Restoration(PubSubSubscriptionKind::Exact))));
}

#[test]
fn ordinary_reply_to_subscribe_fails_restoration() {
    let mut info = three_subscriptions();
    info.pubsub_subscriptions = Some(PubSubSubscriptionInfo {
        exact: vec![b"news".to_vec()],
        pattern: vec![],
        sharded: vec![],
    });
    let mut con = Fake::new(always_okay());
    let r = setup_connection(&info, &mut con, false);
    assert!(matches!(r, Err(SetupError::Restoration(PubSubSubscriptionKind::Exact))));
}

#[test]
fn legacy_protocol_skips_restoration() {
    let mut info = three_subscriptions();
    info.protocol = ProtocolVersion::RESP2;
    let mut con = Fake::new(always_okay());
    let r = setup_connection(&info, &mut con, false);
    assert!(r.is_ok());
    assert_eq!(con.count(b"SUBSCRIBE"), 0);
    assert_eq!(con.count(b"PSUBSCRIBE"), 0);
    assert_eq!(con.count(b"SSUBSCRIBE"), 0);
}

#[test]
fn metadata_failure_does_not_abort_setup() {
    let info = plain_info();
    let mut con = Fake::new(always_okay());
    con.batch_fails = true;
    let r = setup_connection(&info, &mut con, false);
    assert!(r.is_ok());
    assert_eq!(con.batches, 1);
}

#[test]
fn setup_is_deterministic_across_fresh_handles() {
    let info = three_subscriptions();
    let mut first = Fake::new(confirming_dispatcher());
    let mut second = Fake::new(confirming_dispatcher());
    let r1 = setup_connection(&info, &mut first, false);
    let r2 = setup_connection(&info, &mut second, false);
    assert!(r1.is_ok());
    assert!(r2.is_ok());
    assert_eq!(first.log, second.log);
}

#[test]
fn cancelled_handle_is_discarded_not_resumed() {
    // A handshake aborted mid-sequence leaves the handle in an unusable,
    // non-resumable state: a conforming caller discards it and retries on
    // a freshly constructed handle, whose command sequence is the full
    // sequence from the start, not a continuation of the aborted one.
    let mut info = plain_info();
    info.db = 3;
    let mut aborted = Fake::new(Box::new(|c: &[Vec<u8>]| {
        if c[0] == b"SELECT" {
            Err(RedisError { kind: ErrorKind::IoError, detail: Some(b"broken pipe".to_vec()) })
        } else {
            Ok(Value::Okay)
        }
    }));
    let r = setup_connection(&info, &mut aborted, false);
    assert!(matches!(r, Err(SetupError::DatabaseSwitchRefused)));
    let log_at_abort = aborted.log.clone();

    let mut fresh = Fake::new(always_okay());
    let r2 = setup_connection(&info, &mut fresh, false);
    assert!(r2.is_ok());
    // The aborted handle saw nothing further, and the fresh handle replays
    // the whole sequence from its own start.
    assert_eq!(aborted.log, log_at_abort);
    assert_eq!(fresh.log[0], vec![b"SELECT".to_vec(), b"3".to_vec()]);
}

#[test]
fn negotiation_command_carries_credentials() {
    let mut info = plain_info();
    info.protocol = ProtocolVersion::RESP3;
    info.username = Some(b"alice".to_vec());
    info.password = Some(b"secret".to_vec());
    let mut con = Fake::new(always_okay());
    let r = setup_connection(&info, &mut con, false);
    assert!(r.is_ok());
    assert_eq!(
        con.log[0],
        vec![
            b"HELLO".to_vec(),
            b"3".to_vec(),
            b"AUTH".to_vec(),
            b"alice".to_vec(),
            b"secret".to_vec(),
        ]
    );
    assert_eq!(con.count(b"AUTH"), 0);
}

#[test]
fn negotiation_uses_default_username_when_absent() {
    let mut info = plain_info();
    info.protocol = ProtocolVersion::RESP3;
    info.password = Some(b"secret".to_vec());
    let mut con = Fake::new(always_okay());
    let r = setup_connection(&info, &mut con, false);
    assert!(r.is_ok());
    assert_eq!(
        con.log[0],
        vec![
            b"HELLO".to_vec(),
            b"3".to_vec(),
            b"AUTH".to_vec(),
            b"default".to_vec(),
            b"secret".to_vec(),
        ]
    );
}

#[test]
fn unknown_negotiation_command_reports_version_unsupported() {
    let mut info = plain_info();
    info.protocol = ProtocolVersion::RESP3;
    let mut con = Fake::new(Box::new(|c: &[Vec<u8>]| {
        if c[0] == b"HELLO" {
            Err(RedisError {
                kind: ErrorKind::ResponseError,
                detail: Some(b"unknown command `HELLO`".to_vec()),
            })
        } else {
            Ok(Value::Okay)
        }
    }));
    let r = setup_connection(&info, &mut con, false);
    assert!(matches!(r, Err(SetupError::VersionNotSupported)));
}

#[test]
fn failed_negotiation_carries_cause_through() {
    let mut info = plain_info();
    info.protocol = ProtocolVersion::RESP3;
    let mut con = Fake::new(Box::new(|c: &[Vec<u8>]| {
        if c[0] == b"HELLO" {
            Err(RedisError {
                kind: ErrorKind::AuthenticationFailed,
                detail: Some(b"WRONGPASS invalid username-password pair".to_vec()),
            })
        } else {
            Ok(Value::Okay)
        }
    }));
    let r = setup_connection(&info, &mut con, false);
    match r {
        Err(SetupError::Negotiation(e)) => {
            assert_eq!(e.kind, ErrorKind::AuthenticationFailed);
            assert_eq!(e.detail, Some(b"WRONGPASS invalid username-password pair".to_vec()));
        }
        other => panic!("expected a negotiation error, got {:?}", other.is_ok()),
    }
}

#[test]
fn client_name_is_registered() {
    let mut info = plain_info();
    info.client_name = Some(b"my-client".to_vec());
    let mut con = Fake::new(always_okay());
    let r = setup_connection(&info, &mut con, false);
    assert!(r.is_ok());
    assert_eq!(
        con.log[0],
        vec![b"CLIENT".to_vec(), b"SETNAME".to_vec(), b"my-client".to_vec()]
    );
}

#[test]
fn refused_client_name_is_fatal() {
    let mut info = plain_info();
    info.client_name = Some(b"my-client".to_vec());
    let mut con = Fake::new(Box::new(|c: &[Vec<u8>]| {
        if c[0] == b"CLIENT" && c[1] == b"SETNAME" {
            Ok(Value::Nil)
        } else {
            Ok(Value::Okay)
        }
    }));
    let r = setup_connection(&info, &mut con, false);
    assert!(matches!(r, Err(SetupError::ClientNameRefused)));
}

#[test]
fn refused_database_switch_is_fatal() {
    let mut info = plain_info();
    info.db = 2;
    let mut con = Fake::new(Box::new(|c: &[Vec<u8>]| {
        if c[0] == b"SELECT" {
            Ok(Value::Nil)
        } else {
            Ok(Value::Okay)
        }
    }));
    let r = setup_connection(&info, &mut con, false);
    assert!(matches!(r, Err(SetupError::DatabaseSwitchRefused)));
    assert_eq!(con.get_db(), 0);
}

#[test]
fn discovery_stores_availability_zone() {
    let info = plain_info();
    let mut con = Fake::new(Box::new(|c: &[Vec<u8>]| {
        if c[0] == b"INFO" {
            Ok(Value::BulkString(
                b"# Server\r\nredis_version:7.2.0\r\navailability_zone:us-east-1a\r\n".to_vec(),
            ))
        } else {
            Ok(Value::Okay)
        }
    }));
    let r = setup_connection(&info, &mut con, true);
    assert!(r.is_ok());
    assert_eq!(con.get_az(), Some(b"us-east-1a".to_vec()));
}

#[test]
fn discovery_without_zone_field_is_not_an_error() {
    let info = plain_info();
    let mut con = Fake::new(Box::new(|c: &[Vec<u8>]| {
        if c[0] == b"INFO" {
            Ok(Value::BulkString(b"# Server\r\nredis_version:7.2.0\r\n".to_vec()))
        } else {
            Ok(Value::Okay)
        }
    }));
    let r = setup_connection(&info, &mut con, true);
    assert!(r.is_ok());
    assert_eq!(con.get_az(), None);
}

#[test]
fn discovery_failure_is_fatal_and_distinct() {
    let info = plain_info();
    let mut con = Fake::new(Box::new(|c: &[Vec<u8>]| {
        if c[0] == b"INFO" {
            Err(RedisError { kind: ErrorKind::IoError, detail: None })
        } else {
            Ok(Value::Okay)
        }
    }));
    let r = setup_connection(&info, &mut con, true);
    assert!(matches!(r, Err(SetupError::LocalityDiscovery(Some(_)))));
}

#[test]
fn discovery_with_wrong_reply_shape_is_fatal() {
    let info = plain_info();
    let mut con = Fake::new(Box::new(|c: &[Vec<u8>]| {
        if c[0] == b"INFO" {
            Ok(Value::Int(7))
        } else {
            Ok(Value::Okay)
        }
    }));
    let r = setup_connection(&info, &mut con, true);
    assert!(matches!(r, Err(SetupError::LocalityDiscovery(None))));
}

#[test]
fn no_discovery_flag_issues_no_info_command() {
    let info = plain_info();
    let mut con = Fake::new(always_okay());
    let r = setup_connection(&info, &mut con, false);
    assert!(r.is_ok());
    assert_eq!(con.count(b"INFO"), 0);
}

#[test]
fn legacy_username_without_password_issues_no_auth() {
    // Under the legacy protocol only a configured password triggers
    // authentication; a username alone is not sent anywhere.
    let mut info = plain_info();
    info.username = Some(b"alice".to_vec());
    let mut con = Fake::new(always_okay());
    let r = setup_connection(&info, &mut con, false);
    assert!(r.is_ok());
    assert_eq!(con.count(b"AUTH"), 0);
    assert_eq!(con.count(b"HELLO"), 0);
}

#[test]
fn metadata_batch_is_always_sent() {
    let info = plain_info();
    let mut con = Fake::new(always_okay());
    let r = setup_connection(&info, &mut con, false);
    assert!(r.is_ok());
    assert_eq!(con.batches, 1);
    let setinfo: Vec<_> =
        con.log.iter().filter(|c| c[0] == b"CLIENT" && c[1] == b"SETINFO").collect();
    assert_eq!(setinfo.len(), 2);
    assert_eq!(setinfo[0][1], b"SETINFO".to_vec());
    assert_eq!(setinfo[0][2], b"LIB-NAME".to_vec());
    assert_eq!(setinfo[1][2], b"LIB-VER".to_vec());
}
