//! Connection parameters, subscription descriptors, and the classified
//! errors the handshake can end in.

use vstd::prelude::*;
use crate::bytes::contains_bytes;
use crate::bytes::spec_contains;
use crate::bytes::spec_starts_with;
use crate::bytes::starts_with_bytes;
use crate::types::ProtocolVersion;
use crate::types::RedisError;

verus! {

/// Which flavor of subscription a descriptor restores.
#[derive(Clone, Copy, Debug, PartialEq, Eq, Structural)]
pub enum PubSubSubscriptionKind {
    /// A subscription to one exact channel.
    Exact,
    /// A subscription to a channel pattern.
    Pattern,
    /// A subscription to one sharded channel.
    Sharded,
}

/// The subscriptions to restore after a reconnect, grouped by kind. Within
/// each group the identifiers are attempted in the order given here; the
/// groups themselves are attempted in declaration order (exact, pattern,
/// sharded). A well-formed set names each (kind, identifier) pair at most
/// once: see [`PubSubSubscriptionInfo::wf`].
pub struct PubSubSubscriptionInfo {
    /// Exact channel names.
    pub exact: Vec<Vec<u8>>,
    /// Channel patterns.
    pub pattern: Vec<Vec<u8>>,
    /// Sharded channel names.
    pub sharded: Vec<Vec<u8>>,
}

impl PubSubSubscriptionInfo {
    /// No identifier repeats within its kind, so each (kind, identifier)
    /// pair is attempted at most once.
    pub open spec fn wf(self) -> bool {
        &&& no_repeats(self.exact@)
        &&& no_repeats(self.pattern@)
        &&& no_repeats(self.sharded@)
    }
}

/// No two elements of `s` hold the same bytes.
pub open spec fn no_repeats(s: Seq<Vec<u8>>) -> bool {
    forall|i: int, j: int| 0 <= i < j < s.len() ==> s[i]@ != s[j]@
}

/// Everything the handshake needs to know about the connection being set
/// up. Constructed once by the caller and never mutated by this layer.
pub struct RedisConnectionInfo {
    /// The database index to bind; zero means the default database and
    /// issues no select command.
    pub db: i64,
    /// The username, if the server's accounts require one.
    pub username: Option<Vec<u8>>,
    /// The password, if authentication is configured.
    pub password: Option<Vec<u8>>,
    /// Which protocol version to negotiate.
    pub protocol: ProtocolVersion,
    /// A display name to register for this client, if any.
    pub client_name: Option<Vec<u8>>,
    /// Subscriptions to restore once the handshake reaches the negotiated
    /// protocol's push-capable state.
    pub pubsub_subscriptions: Option<PubSubSubscriptionInfo>,
}

impl RedisConnectionInfo {
    /// The restoration set, if present, is well-formed.
    pub open spec fn wf(self) -> bool {
        self.pubsub_subscriptions matches Some(subs) ==> subs.wf()
    }
}

/// A classified, fatal handshake failure. Exactly one of these comes back
/// from a failed setup; best-effort metadata failures never appear here.
pub enum SetupError {
    /// The server does not know the negotiation command, so the requested
    /// protocol version cannot be used.
    VersionNotSupported,
    /// Negotiation failed for another reason; carries the dispatcher's
    /// error unmodified.
    Negotiation(RedisError),
    /// Authentication failed, after the single legacy-compatibility retry
    /// where that retry applies.
    Authentication,
    /// The server refused to switch to the configured database.
    DatabaseSwitchRefused,
    /// The server refused to set the configured client name.
    ClientNameRefused,
    /// Locality discovery failed: the introspection command errored
    /// (`Some` carries that error) or its reply had the wrong shape
    /// (`None`).
    LocalityDiscovery(Option<RedisError>),
    /// Restoring the subscriptions of this kind failed: a missing, wrongly
    /// shaped, or mismatched acknowledgment push.
    Restoration(PubSubSubscriptionKind),
}

/// The server message that marks an authenticate command rejected for its
/// arity: "wrong number of arguments for 'auth' command". Older servers
/// answer this to a username-carrying authenticate call.
pub open spec fn arity_error_text() -> Seq<u8> {
    seq![119u8, 114u8, 111u8, 110u8, 103u8, 32u8, 110u8, 117u8, 109u8, 98u8, 101u8, 114u8, 32u8, 111u8, 102u8, 32u8, 97u8, 114u8, 103u8, 117u8, 109u8, 101u8, 110u8, 116u8, 115u8, 32u8, 102u8, 111u8, 114u8, 32u8, 39u8, 97u8, 117u8, 116u8, 104u8, 39u8, 32u8, 99u8, 111u8, 109u8, 109u8, 97u8, 110u8, 100u8]
}

/// The prefix that marks a command the server does not know:
/// "unknown command". A negotiation answered so means the server predates
/// the negotiation command.
pub open spec fn unknown_command_text() -> Seq<u8> {
    seq![117u8, 110u8, 107u8, 110u8, 111u8, 119u8, 110u8, 32u8, 99u8, 111u8, 109u8, 109u8, 97u8, 110u8, 100u8]
}

/// The error `e` is an arity complaint about the authenticate command, the
/// one signal that the server predates username-capable authentication.
pub open spec fn spec_is_auth_arity_error(e: RedisError) -> bool {
    e.detail matches Some(d) && spec_contains(d@, arity_error_text())
}

/// The error `e` marks a server that does not know the negotiation
/// command.
pub open spec fn spec_is_unknown_command_error(e: RedisError) -> bool {
    e.detail matches Some(d) && spec_starts_with(d@, unknown_command_text())
}

/// Decides whether an authenticate failure is the arity complaint that
/// warrants the single password-only retry.
pub fn is_auth_arity_error(e: &RedisError) -> (r: bool)
    ensures
        r == spec_is_auth_arity_error(*e),
{
    let needle = vec![119u8, 114u8, 111u8, 110u8, 103u8, 32u8, 110u8, 117u8, 109u8, 98u8, 101u8, 114u8, 32u8, 111u8, 102u8, 32u8, 97u8, 114u8, 103u8, 117u8, 109u8, 101u8, 110u8, 116u8, 115u8, 32u8, 102u8, 111u8, 114u8, 32u8, 39u8, 97u8, 117u8, 116u8, 104u8, 39u8, 32u8, 99u8, 111u8, 109u8, 109u8, 97u8, 110u8, 100u8];
    proof {
        assert(needle@ =~= arity_error_text());
    }
    match &e.detail {
        Some(d) => contains_bytes(d, &needle),
        None => false,
    }
}

/// Classifies a failed negotiation: a server that does not know the
/// negotiation command is distinguished from every other failure, whose
/// error is carried through unmodified.
pub fn classify_negotiation_error(e: RedisError) -> (r: SetupError)
    ensures
        spec_is_unknown_command_error(e) ==> r is VersionNotSupported,
        !spec_is_unknown_command_error(e) ==> r == SetupError::Negotiation(e),
{
    let needle = vec![117u8, 110u8, 107u8, 110u8, 111u8, 119u8, 110u8, 32u8, 99u8, 111u8, 109u8, 109u8, 97u8, 110u8, 100u8];
    proof {
        assert(needle@ =~= unknown_command_text());
    }
    let unknown = match &e.detail {
        Some(d) => starts_with_bytes(d, &needle),
        None => false,
    };
    if unknown {
        SetupError::VersionNotSupported
    } else {
        SetupError::Negotiation(e)
    }
}

} // verus!
