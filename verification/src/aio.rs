//! The contracts every connection variant satisfies: command dispatch,
//! connection metadata, and disconnect notification.

use vstd::prelude::*;
use crate::cmd::Cmd;
use crate::cmd::Pipeline;
use crate::cmd::PipelineRetryStrategy;
use crate::types::RedisError;
use crate::types::Value;

verus! {

/// Marks a type as a readable and writable byte stream. Purely a
/// capability marker: transports opt in by implementing it, and the rest
/// of the crate names streams only through this bound.
pub trait AsyncStream {

}

/// The uniform command-dispatch contract every connection type implements:
/// send pre-encoded commands, receive their replies, and expose the
/// handle's bookkeeping. Nothing is promised about what a dispatcher
/// answers; the handshake states what it does with every possible reply.
pub trait ConnectionLike {
    /// Sends one pre-encoded command and returns its single reply, or the
    /// dispatch error.
    fn req_packed_command(&mut self, cmd: &Cmd) -> Result<Value, RedisError>;

    /// Sends `count` consecutive commands of `cmd` starting at `offset`
    /// and returns their replies in request order, or the dispatch error.
    /// Callers must keep `offset + count` within the batch; implementations
    /// need not validate this.
    fn req_packed_commands(
        &mut self,
        cmd: &Pipeline,
        offset: usize,
        count: usize,
        pipeline_retry_strategy: Option<PipelineRetryStrategy>,
    ) -> Result<Vec<Value>, RedisError>;

    /// The last known bound database index; may be stale if the binding
    /// was changed outside this layer.
    fn get_db(&self) -> i64;

    /// Best-effort liveness flag; a failed transport may still report
    /// `false` until the failure is observed.
    fn is_closed(&self) -> bool;

    /// The availability-zone tag, if one has been stored; absent by
    /// default.
    fn get_az(&self) -> (r: Option<Vec<u8>>)
        default_ensures
            r is None,
    {
        None
    }

    /// Stores the availability-zone tag; the default discards it and
    /// leaves the handle unchanged.
    fn set_az(&mut self, _az: Option<Vec<u8>>) where Self: Sized
        default_ensures
            *final(self) == *old(self),
    {
    }
}

/// The disconnect-notification contract reconnection logic relies on.
/// Implementations are handles to shared state: duplicating a handle (for
/// instance through `Clone`) must yield a second handle to the same state,
/// so that a notification through one wakes waiters on every other.
pub trait DisconnectNotifier {
    /// Records that a disconnect was detected; safe to call more than
    /// once.
    fn notify_disconnect(&mut self);

    /// Suspends the caller until a disconnect has been notified or
    /// `max_wait_ms` milliseconds have passed, whichever comes first; the
    /// two outcomes are not distinguished.
    fn wait_for_disconnect_with_timeout(&self, max_wait_ms: u64);
}

} // verus!
