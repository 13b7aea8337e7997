//! Connection-bootstrap layer of an asynchronous key-value store client.
//!
//! Given a live command channel (anything implementing [`ConnectionLike`])
//! and a set of connection parameters, [`setup_connection`] drives the
//! handshake that turns a raw connection into a ready-to-use one: protocol
//! negotiation, authentication (with the legacy arity fallback), database
//! selection, client naming, locality discovery, best-effort client
//! metadata, and restoration of previously active subscriptions.
//!
//! The decision logic of the handshake lives in [`SetupMachine`], a pure
//! state machine whose every transition is pinned down by a specification;
//! [`setup_connection`] is a thin driver that dispatches the machine's
//! commands and feeds the replies back.

pub mod aio;
pub mod bytes;
pub mod cmd;
pub mod connection;
pub mod info;
pub mod setup;
pub mod types;

pub use aio::AsyncStream;
pub use aio::ConnectionLike;
pub use aio::DisconnectNotifier;
pub use bytes::contains_bytes;
pub use bytes::starts_with_bytes;
pub use cmd::Cmd;
pub use cmd::CmdArg;
pub use cmd::Pipeline;
pub use cmd::PipelineRetryStrategy;
pub use connection::PubSubSubscriptionInfo;
pub use connection::PubSubSubscriptionKind;
pub use connection::RedisConnectionInfo;
pub use connection::SetupError;
pub use setup::Dispatch;
pub use setup::discovery_outcome;
pub use setup::SetupMachine;
pub use setup::SetupState;
pub use setup::setup_connection;
pub use setup::update_az_from_info;
pub use types::ErrorKind;
pub use types::ProtocolVersion;
pub use types::PushKind;
pub use types::RedisError;
pub use types::Value;
