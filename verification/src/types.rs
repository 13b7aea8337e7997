//! Reply values, push-message kinds and errors exchanged with the server,
//! and the protocol version selector.

use vstd::prelude::*;

verus! {

/// Which protocol version the connection is configured for.
#[derive(Clone, Copy, Debug, PartialEq, Eq, Structural)]
pub enum ProtocolVersion {
    /// The legacy request/response-only protocol: no capability
    /// negotiation, no push-based subscription acknowledgment.
    RESP2,
    /// The negotiated protocol with out-of-band push messages.
    RESP3,
}

/// The kind tag of a server-initiated push message. Only the three
/// subscribe acknowledgments matter to the handshake; the rest exist so
/// that unrelated pushes can be represented (and rejected) faithfully.
#[derive(Clone, Copy, Debug, PartialEq, Eq, Structural)]
pub enum PushKind {
    /// Acknowledges an exact-channel subscription.
    Subscribe,
    /// Acknowledges a pattern subscription.
    PSubscribe,
    /// Acknowledges a sharded-channel subscription.
    SSubscribe,
    /// An ordinary published message; never a valid subscribe ack.
    Message,
    /// Any other push kind; never a valid subscribe ack.
    Other,
}

/// A reply value, as the wire decoder hands it to this layer.
pub enum Value {
    /// The nil reply.
    Nil,
    /// The positive acknowledgment ("OK") status.
    Okay,
    /// An integer reply.
    Int(i64),
    /// A status string other than the positive acknowledgment.
    SimpleString(Vec<u8>),
    /// A bulk byte string.
    BulkString(Vec<u8>),
    /// An array of replies.
    Array(Vec<Value>),
    /// An out-of-band push message: a kind tag and its payload values.
    Push { kind: PushKind, data: Vec<Value> },
}

/// Coarse classification of an error as the command dispatcher reports it.
#[derive(Clone, Copy, Debug, PartialEq, Eq, Structural)]
pub enum ErrorKind {
    /// The server answered with an error reply.
    ResponseError,
    /// The server rejected the supplied credentials.
    AuthenticationFailed,
    /// The transport failed (connection reset, timeout, ...).
    IoError,
    /// The reply could not be decoded or had an unexpected shape.
    ParseError,
}

/// An error from the command dispatcher: a kind plus the server's own
/// message text, when there is one. The handshake inspects the text to
/// recognize two situations the kind alone cannot convey: a server that
/// predates username-capable authentication, and one that predates
/// protocol negotiation.
pub struct RedisError {
    /// Coarse classification.
    pub kind: ErrorKind,
    /// The server's message text, if any.
    pub detail: Option<Vec<u8>>,
}

} // verus!
