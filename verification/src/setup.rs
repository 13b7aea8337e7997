//! The connection-setup handshake: a state machine that decides, from the
//! connection parameters and each reply, which command to issue next, and
//! a driver that runs it over any [`ConnectionLike`] dispatcher.
//!
//! The machine is pure and fully specified: `spec_start_state`,
//! `spec_dispatch` and `spec_step` pin down the initial state, the command
//! each state issues, and the transition every reply causes. The driver
//! [`setup_connection`] only dispatches and feeds replies back, so the
//! whole command sequence of a setup is a function of the parameters and
//! the replies alone (see [`lemma_setup_deterministic`]).

use vstd::prelude::*;
use crate::aio::ConnectionLike;
use crate::bytes::bytes_eq;
use crate::bytes::copy_bytes;
use crate::cmd::ArgModel;
use crate::cmd::Cmd;
use crate::cmd::CmdModel;
use crate::cmd::Pipeline;
use crate::cmd::arg_default_user;
use crate::cmd::arg_lib_name;
use crate::cmd::arg_lib_ver;
use crate::cmd::arg_resp3;
use crate::cmd::arg_setinfo;
use crate::cmd::arg_setname;
use crate::cmd::auth_name;
use crate::cmd::client_name;
use crate::cmd::default_user_arg;
use crate::cmd::hello_name;
use crate::cmd::info_name;
use crate::cmd::lib_name_arg;
use crate::cmd::lib_name_value;
use crate::cmd::lib_name_value_arg;
use crate::cmd::lib_ver_arg;
use crate::cmd::lib_ver_value;
use crate::cmd::lib_ver_value_arg;
use crate::cmd::name_auth;
use crate::cmd::name_client;
use crate::cmd::name_hello;
use crate::cmd::name_info;
use crate::cmd::name_psubscribe;
use crate::cmd::name_select;
use crate::cmd::name_ssubscribe;
use crate::cmd::name_subscribe;
use crate::cmd::psubscribe_name;
use crate::cmd::resp3_arg;
use crate::cmd::select_name;
use crate::cmd::setinfo_arg;
use crate::cmd::setname_arg;
use crate::cmd::ssubscribe_name;
use crate::cmd::subscribe_name;
use crate::connection::PubSubSubscriptionKind;
use crate::connection::RedisConnectionInfo;
use crate::connection::SetupError;
use crate::connection::classify_negotiation_error;
use crate::connection::is_auth_arity_error;
use crate::connection::spec_is_auth_arity_error;
use crate::connection::spec_is_unknown_command_error;
use crate::info::info_az;
use crate::info::spec_info_az;
use crate::types::ProtocolVersion;
use crate::types::PushKind;
use crate::types::RedisError;
use crate::types::Value;

verus! {

/// Where the handshake stands: which command has just been issued and
/// awaits its reply, or how it ended. Each non-terminal state issues
/// exactly one dispatch (see `spec_dispatch`).
pub enum SetupState {
    /// The protocol-negotiation command is outstanding.
    Negotiating,
    /// The first authenticate attempt is outstanding; it carries the
    /// username when one is configured.
    AuthInitial,
    /// The single legacy retry is outstanding: authenticate with the
    /// password alone.
    AuthRetry,
    /// The database-selection command is outstanding.
    SelectingDb,
    /// The client-naming command is outstanding.
    SettingName,
    /// The introspection command for locality discovery is outstanding.
    DiscoveringAz,
    /// The best-effort client-metadata batch is outstanding; its outcome
    /// is ignored.
    SendingMetadata,
    /// The subscribe command for identifier `idx` of group `kind` is
    /// outstanding and awaits its acknowledgment push.
    Restoring { kind: PubSubSubscriptionKind, idx: usize },
    /// The handshake succeeded; the connection is ready for general use.
    Ready,
    /// The handshake failed; no further command is issued.
    Failed(SetupError),
}

/// One unit of work for the dispatcher: a single command expecting one
/// reply, or a batch whose replies are ignored.
pub enum Dispatch {
    /// Dispatch one command and feed the reply to `on_reply`.
    Command(Cmd),
    /// Dispatch the whole batch; the handshake ignores its outcome.
    Batch(Pipeline),
}

/// The mathematical model of a dispatch.
pub enum DispatchModel {
    One(CmdModel),
    Batch(Seq<CmdModel>),
}

impl View for Dispatch {
    type V = DispatchModel;

    open spec fn view(&self) -> DispatchModel {
        match self {
            Dispatch::Command(c) => DispatchModel::One(c@),
            Dispatch::Batch(p) => DispatchModel::Batch(p@),
        }
    }
}

/// The identifiers to restore for `kind`: empty when no restoration set
/// is configured.
pub open spec fn spec_sub_list(
    info: RedisConnectionInfo,
    kind: PubSubSubscriptionKind,
) -> Seq<Vec<u8>> {
    match info.pubsub_subscriptions {
        Some(subs) => match kind {
            PubSubSubscriptionKind::Exact => subs.exact@,
            PubSubSubscriptionKind::Pattern => subs.pattern@,
            PubSubSubscriptionKind::Sharded => subs.sharded@,
        },
        None => Seq::empty(),
    }
}

/// The push kind that acknowledges a subscription of `kind`.
pub open spec fn spec_push_kind(kind: PubSubSubscriptionKind) -> PushKind {
    match kind {
        PubSubSubscriptionKind::Exact => PushKind::Subscribe,
        PubSubSubscriptionKind::Pattern => PushKind::PSubscribe,
        PubSubSubscriptionKind::Sharded => PushKind::SSubscribe,
    }
}

/// The wire name of the subscribe command for `kind`.
pub open spec fn spec_sub_command_name(kind: PubSubSubscriptionKind) -> Seq<u8> {
    match kind {
        PubSubSubscriptionKind::Exact => name_subscribe(),
        PubSubSubscriptionKind::Pattern => name_psubscribe(),
        PubSubSubscriptionKind::Sharded => name_ssubscribe(),
    }
}

/// The state after client naming: locality discovery if asked for, else
/// the best-effort metadata step.
pub open spec fn spec_after_name(discover_az: bool) -> SetupState {
    if discover_az {
        SetupState::DiscoveringAz
    } else {
        SetupState::SendingMetadata
    }
}

/// The state after database selection: client naming if a name is
/// configured, else onward.
pub open spec fn spec_after_select(info: RedisConnectionInfo, discover_az: bool) -> SetupState {
    if info.client_name is Some {
        SetupState::SettingName
    } else {
        spec_after_name(discover_az)
    }
}

/// The state after negotiation or authentication: database selection if a
/// non-zero index is configured, else onward.
pub open spec fn spec_select_state(info: RedisConnectionInfo, discover_az: bool) -> SetupState {
    if info.db != 0 {
        SetupState::SelectingDb
    } else {
        spec_after_select(info, discover_az)
    }
}

/// The state that begins subscription restoration: the first identifier of
/// the first non-empty group, in group order — or `Ready` when the
/// negotiated push-capable protocol is not in use or nothing is declared.
pub open spec fn spec_sub_start(info: RedisConnectionInfo) -> SetupState {
    if !(info.protocol is RESP3) {
        SetupState::Ready
    } else if info.pubsub_subscriptions is None {
        SetupState::Ready
    } else if spec_sub_list(info, PubSubSubscriptionKind::Exact).len() > 0 {
        SetupState::Restoring { kind: PubSubSubscriptionKind::Exact, idx: 0 }
    } else if spec_sub_list(info, PubSubSubscriptionKind::Pattern).len() > 0 {
        SetupState::Restoring { kind: PubSubSubscriptionKind::Pattern, idx: 0 }
    } else if spec_sub_list(info, PubSubSubscriptionKind::Sharded).len() > 0 {
        SetupState::Restoring { kind: PubSubSubscriptionKind::Sharded, idx: 0 }
    } else {
        SetupState::Ready
    }
}

/// The state after a confirmed subscription: the next identifier of the
/// same group, else the first identifier of the next non-empty group, else
/// `Ready`.
pub open spec fn spec_after_restore(
    info: RedisConnectionInfo,
    kind: PubSubSubscriptionKind,
    idx: int,
) -> SetupState {
    if idx + 1 < spec_sub_list(info, kind).len() {
        SetupState::Restoring { kind, idx: (idx + 1) as usize }
    } else {
        match kind {
            PubSubSubscriptionKind::Exact => {
                if spec_sub_list(info, PubSubSubscriptionKind::Pattern).len() > 0 {
                    SetupState::Restoring { kind: PubSubSubscriptionKind::Pattern, idx: 0 }
                } else if spec_sub_list(info, PubSubSubscriptionKind::Sharded).len() > 0 {
                    SetupState::Restoring { kind: PubSubSubscriptionKind::Sharded, idx: 0 }
                } else {
                    SetupState::Ready
                }
            },
            PubSubSubscriptionKind::Pattern => {
                if spec_sub_list(info, PubSubSubscriptionKind::Sharded).len() > 0 {
                    SetupState::Restoring { kind: PubSubSubscriptionKind::Sharded, idx: 0 }
                } else {
                    SetupState::Ready
                }
            },
            PubSubSubscriptionKind::Sharded => SetupState::Ready,
        }
    }
}

/// The state the handshake starts in: negotiation unless the legacy
/// protocol is configured; under the legacy protocol, authentication when
/// a password is configured, else straight to the later steps.
pub open spec fn spec_start_state(info: RedisConnectionInfo, discover_az: bool) -> SetupState {
    if !(info.protocol is RESP2) {
        SetupState::Negotiating
    } else if info.password is Some {
        SetupState::AuthInitial
    } else {
        spec_select_state(info, discover_az)
    }
}

/// The reply is the one positive acknowledgment value.
pub open spec fn spec_okay(reply: Result<Value, RedisError>) -> bool {
    reply matches Ok(v) && v is Okay
}

/// The reply is the push that confirms subscribing `channel`: a push of
/// the expected kind whose first payload element is exactly `channel`.
pub open spec fn spec_push_confirms(
    reply: Result<Value, RedisError>,
    expect: PushKind,
    channel: Seq<u8>,
) -> bool {
    &&& reply matches Ok(v)
    &&& v matches Value::Push { kind, data }
    &&& kind == expect
    &&& data@.len() > 0
    &&& data@[0] matches Value::BulkString(b)
    &&& b@ == channel
}

/// The transition a reply causes. Terminal states do not move; the
/// best-effort metadata state moves on whatever the reply was.
pub open spec fn spec_step(
    st: SetupState,
    info: RedisConnectionInfo,
    discover_az: bool,
    reply: Result<Value, RedisError>,
) -> SetupState {
    match st {
        SetupState::Negotiating => match reply {
            Ok(_) => spec_select_state(info, discover_az),
            Err(e) => if spec_is_unknown_command_error(e) {
                SetupState::Failed(SetupError::VersionNotSupported)
            } else {
                SetupState::Failed(SetupError::Negotiation(e))
            },
        },
        SetupState::AuthInitial => match reply {
            Ok(v) => if v is Okay {
                spec_select_state(info, discover_az)
            } else {
                SetupState::Failed(SetupError::Authentication)
            },
            Err(e) => if spec_is_auth_arity_error(e) {
                SetupState::AuthRetry
            } else {
                SetupState::Failed(SetupError::Authentication)
            },
        },
        SetupState::AuthRetry => if spec_okay(reply) {
            spec_select_state(info, discover_az)
        } else {
            SetupState::Failed(SetupError::Authentication)
        },
        SetupState::SelectingDb => if spec_okay(reply) {
            spec_after_select(info, discover_az)
        } else {
            SetupState::Failed(SetupError::DatabaseSwitchRefused)
        },
        SetupState::SettingName => if spec_okay(reply) {
            spec_after_name(discover_az)
        } else {
            SetupState::Failed(SetupError::ClientNameRefused)
        },
        SetupState::DiscoveringAz => match reply {
            Ok(v) => if v is BulkString || v is SimpleString {
                SetupState::SendingMetadata
            } else {
                SetupState::Failed(SetupError::LocalityDiscovery(None))
            },
            Err(e) => SetupState::Failed(SetupError::LocalityDiscovery(Some(e))),
        },
        SetupState::SendingMetadata => spec_sub_start(info),
        SetupState::Restoring { kind, idx } => if spec_push_confirms(
            reply,
            spec_push_kind(kind),
            spec_sub_list(info, kind)[idx as int]@,
        ) {
            spec_after_restore(info, kind, idx as int)
        } else {
            SetupState::Failed(SetupError::Restoration(kind))
        },
        SetupState::Ready => st,
        SetupState::Failed(_) => st,
    }
}

/// The availability zone a reply establishes: only the locality-discovery
/// state with a well-shaped reply yields one.
pub open spec fn spec_step_az(st: SetupState, reply: Result<Value, RedisError>) -> Option<
    Seq<u8>,
> {
    if st is DiscoveringAz {
        match reply {
            Ok(Value::BulkString(text)) => spec_info_az(text@),
            Ok(Value::SimpleString(text)) => spec_info_az(text@),
            _ => None,
        }
    } else {
        None
    }
}

/// The bytes of an optional byte string.
pub open spec fn opt_bytes(o: Option<Vec<u8>>) -> Option<Seq<u8>> {
    match o {
        Some(v) => Some(v@),
        None => None,
    }
}

// The commands each state issues, at the model level.
/// The negotiation command: the version argument, then the credentials
/// when a password is configured (with the default username standing in
/// for an absent one).
pub open spec fn spec_hello_cmd(info: RedisConnectionInfo) -> CmdModel {
    CmdModel {
        name: name_hello(),
        args: match info.password {
            Some(p) => seq![
                ArgModel::Bytes(arg_resp3()),
                ArgModel::Bytes(name_auth()),
                ArgModel::Bytes(
                    match info.username {
                        Some(u) => u@,
                        None => arg_default_user(),
                    },
                ),
                ArgModel::Bytes(p@),
            ],
            None => seq![ArgModel::Bytes(arg_resp3())],
        },
    }
}

/// The authenticate command: the username (when asked for and configured)
/// and the password.
pub open spec fn spec_auth_cmd(info: RedisConnectionInfo, with_username: bool) -> CmdModel {
    CmdModel {
        name: name_auth(),
        args: match info.password {
            Some(p) => if with_username && info.username is Some {
                seq![ArgModel::Bytes(info.username->0@), ArgModel::Bytes(p@)]
            } else {
                seq![ArgModel::Bytes(p@)]
            },
            None => seq![],
        },
    }
}

/// The database-selection command.
pub open spec fn spec_select_cmd(info: RedisConnectionInfo) -> CmdModel {
    CmdModel { name: name_select(), args: seq![ArgModel::Int(info.db as int)] }
}

/// The client-naming command.
pub open spec fn spec_setname_cmd(info: RedisConnectionInfo) -> CmdModel {
    CmdModel {
        name: name_client(),
        args: seq![
            ArgModel::Bytes(arg_setname()),
            ArgModel::Bytes(
                match info.client_name {
                    Some(n) => n@,
                    None => Seq::empty(),
                },
            ),
        ],
    }
}

/// The introspection command.
pub open spec fn spec_info_cmd() -> CmdModel {
    CmdModel { name: name_info(), args: Seq::empty() }
}

/// The fixed best-effort metadata batch: the library's name and version.
pub open spec fn spec_metadata_batch() -> Seq<CmdModel> {
    seq![
        CmdModel {
            name: name_client(),
            args: seq![
                ArgModel::Bytes(arg_setinfo()),
                ArgModel::Bytes(arg_lib_name()),
                ArgModel::Bytes(lib_name_value()),
            ],
        },
        CmdModel {
            name: name_client(),
            args: seq![
                ArgModel::Bytes(arg_setinfo()),
                ArgModel::Bytes(arg_lib_ver()),
                ArgModel::Bytes(lib_ver_value()),
            ],
        },
    ]
}

/// The subscribe command for identifier `idx` of group `kind`.
pub open spec fn spec_subscribe_cmd(
    info: RedisConnectionInfo,
    kind: PubSubSubscriptionKind,
    idx: int,
) -> CmdModel {
    CmdModel {
        name: spec_sub_command_name(kind),
        args: seq![ArgModel::Bytes(spec_sub_list(info, kind)[idx]@)],
    }
}

/// The dispatch each non-terminal state issues.
pub open spec fn spec_dispatch(st: SetupState, info: RedisConnectionInfo) -> DispatchModel {
    match st {
        SetupState::Negotiating => DispatchModel::One(spec_hello_cmd(info)),
        SetupState::AuthInitial => DispatchModel::One(spec_auth_cmd(info, true)),
        SetupState::AuthRetry => DispatchModel::One(spec_auth_cmd(info, false)),
        SetupState::SelectingDb => DispatchModel::One(spec_select_cmd(info)),
        SetupState::SettingName => DispatchModel::One(spec_setname_cmd(info)),
        SetupState::DiscoveringAz => DispatchModel::One(spec_info_cmd()),
        SetupState::SendingMetadata => DispatchModel::Batch(spec_metadata_batch()),
        SetupState::Restoring { kind, idx } => DispatchModel::One(
            spec_subscribe_cmd(info, kind, idx as int),
        ),
        SetupState::Ready => arbitrary(),
        SetupState::Failed(_) => arbitrary(),
    }
}

/// How many subscriptions remain to confirm from identifier `idx` of
/// group `kind` on, counting the later groups.
pub open spec fn subs_remaining(
    info: RedisConnectionInfo,
    kind: PubSubSubscriptionKind,
    idx: int,
) -> int {
    match kind {
        PubSubSubscriptionKind::Exact => (spec_sub_list(info, PubSubSubscriptionKind::Exact).len()
            - idx) + spec_sub_list(info, PubSubSubscriptionKind::Pattern).len() + spec_sub_list(
            info,
            PubSubSubscriptionKind::Sharded,
        ).len(),
        PubSubSubscriptionKind::Pattern => (spec_sub_list(
            info,
            PubSubSubscriptionKind::Pattern,
        ).len() - idx) + spec_sub_list(info, PubSubSubscriptionKind::Sharded).len(),
        PubSubSubscriptionKind::Sharded => spec_sub_list(info, PubSubSubscriptionKind::Sharded).len()
            - idx,
    }
}

/// How many subscriptions are declared in all.
pub open spec fn total_subs(info: RedisConnectionInfo) -> int {
    spec_sub_list(info, PubSubSubscriptionKind::Exact).len() + spec_sub_list(
        info,
        PubSubSubscriptionKind::Pattern,
    ).len() + spec_sub_list(info, PubSubSubscriptionKind::Sharded).len() as int
}

/// A bound on the work left from state `st`: every transition strictly
/// lowers it (see `lemma_step_decreases`), so the handshake terminates.
pub open spec fn state_rank(st: SetupState, info: RedisConnectionInfo) -> int {
    match st {
        SetupState::Ready => 0,
        SetupState::Failed(_) => 0,
        SetupState::Restoring { kind, idx } => 1 + subs_remaining(info, kind, idx as int),
        SetupState::SendingMetadata => 2 + total_subs(info),
        SetupState::DiscoveringAz => 3 + total_subs(info),
        SetupState::SettingName => 4 + total_subs(info),
        SetupState::SelectingDb => 5 + total_subs(info),
        SetupState::AuthRetry => 6 + total_subs(info),
        SetupState::AuthInitial => 7 + total_subs(info),
        SetupState::Negotiating => 8 + total_subs(info),
    }
}

/// Every reply moves a non-terminal state strictly down the rank, so a
/// setup issues finitely many commands.
pub proof fn lemma_step_decreases(
    st: SetupState,
    info: RedisConnectionInfo,
    discover_az: bool,
    reply: Result<Value, RedisError>,
)
    requires
        !(st is Ready),
        !(st is Failed),
        st matches SetupState::Restoring { kind, idx } ==> idx < spec_sub_list(info, kind).len(),
        forall|kind: PubSubSubscriptionKind|
            #[trigger] spec_sub_list(info, kind).len() <= usize::MAX,
    ensures
        0 <= state_rank(spec_step(st, info, discover_az, reply), info) < state_rank(st, info),
{
    match st {
        SetupState::Restoring { kind, idx } => {
            assert(subs_remaining(info, kind, idx as int) >= 1);
            match kind {
                PubSubSubscriptionKind::Exact => {},
                PubSubSubscriptionKind::Pattern => {},
                PubSubSubscriptionKind::Sharded => {},
            }
        },
        _ => {},
    }
}

/// The handshake state machine: the current state, whether locality
/// discovery was asked for, and an availability-zone update waiting to be
/// applied to the handle.
pub struct SetupMachine {
    /// Where the handshake stands.
    pub state: SetupState,
    /// Whether the locality-discovery step runs.
    pub discover_az: bool,
    /// A zone value established by the last transition, to be applied to
    /// the handle before the next dispatch.
    pub az_update: Option<Vec<u8>>,
}

impl SetupMachine {
    /// The handshake has ended, in success or failure.
    pub open spec fn terminal(self) -> bool {
        self.state is Ready || self.state is Failed
    }

    /// The state fits the parameters: every state that reads a parameter
    /// is only reached when that parameter is present, and the restoration
    /// lists have machine-representable lengths.
    pub open spec fn wf(self, info: RedisConnectionInfo) -> bool {
        &&& (self.state is AuthInitial || self.state is AuthRetry) ==> info.password is Some
        &&& self.state is SettingName ==> info.client_name is Some
        &&& self.state matches SetupState::Restoring { kind, idx } ==> idx < spec_sub_list(
            info,
            kind,
        ).len()
        &&& forall|kind: PubSubSubscriptionKind|
            #[trigger] spec_sub_list(info, kind).len() <= usize::MAX
    }

    /// Starts a handshake for the given parameters.
    pub fn start(info: &RedisConnectionInfo, discover_az: bool) -> (m: SetupMachine)
        ensures
            m.state == spec_start_state(*info, discover_az),
            m.discover_az == discover_az,
            m.az_update is None,
            m.wf(*info),
    {
        note_sub_list_bounds(info);
        let state = match info.protocol {
            ProtocolVersion::RESP2 => {
                if info.password.is_some() {
                    SetupState::AuthInitial
                } else {
                    select_state_exec(info, discover_az)
                }
            },
            ProtocolVersion::RESP3 => SetupState::Negotiating,
        };
        SetupMachine { state, discover_az, az_update: None }
    }

    /// Whether the handshake has ended.
    pub fn is_terminal(&self) -> (b: bool)
        ensures
            b == self.terminal(),
    {
        match &self.state {
            SetupState::Ready => true,
            SetupState::Failed(_) => true,
            _ => false,
        }
    }

    /// The handshake's outcome.
    pub fn finish(self) -> (r: Result<(), SetupError>)
        requires
            self.terminal(),
        ensures
            self.state is Ready ==> r == Ok::<(), SetupError>(()),
            self.state matches SetupState::Failed(e) ==> r == Err::<(), SetupError>(e),
    {
        match self.state {
            SetupState::Ready => Ok(()),
            SetupState::Failed(e) => Err(e),
            _ => vstd::pervasive::unreached(),
        }
    }

    /// Hands out the pending availability-zone update, if any, clearing
    /// it.
    pub fn take_az_update(&mut self) -> (r: Option<Vec<u8>>)
        ensures
            r == old(self).az_update,
            final(self).az_update is None,
            final(self).state == old(self).state,
            final(self).discover_az == old(self).discover_az,
    {
        self.az_update.take()
    }

    /// The dispatch the current state issues.
    pub fn next_dispatch(&self, info: &RedisConnectionInfo) -> (d: Dispatch)
        requires
            self.wf(*info),
            !self.terminal(),
        ensures
            d@ == spec_dispatch(self.state, *info),
    {
        match &self.state {
            SetupState::Negotiating => Dispatch::Command(make_hello_cmd(info)),
            SetupState::AuthInitial => Dispatch::Command(make_auth_cmd(info, true)),
            SetupState::AuthRetry => Dispatch::Command(make_auth_cmd(info, false)),
            SetupState::SelectingDb => Dispatch::Command(make_select_cmd(info)),
            SetupState::SettingName => Dispatch::Command(make_setname_cmd(info)),
            SetupState::DiscoveringAz => Dispatch::Command(make_info_cmd()),
            SetupState::SendingMetadata => Dispatch::Batch(client_set_info_pipeline()),
            SetupState::Restoring { kind, idx } => Dispatch::Command(
                make_subscribe_cmd(info, *kind, *idx),
            ),
            SetupState::Ready => vstd::pervasive::unreached(),
            SetupState::Failed(_) => vstd::pervasive::unreached(),
        }
    }

    /// Feeds the reply of a single-command dispatch to the machine. The
    /// transition taken is exactly `spec_step`; a zone update established
    /// here waits in `az_update`.
    pub fn on_reply(&mut self, info: &RedisConnectionInfo, reply: Result<Value, RedisError>)
        requires
            old(self).wf(*info),
            !old(self).terminal(),
            !(old(self).state is SendingMetadata),
            old(self).az_update is None,
        ensures
            final(self).state == spec_step(old(self).state, *info, old(self).discover_az, reply),
            final(self).discover_az == old(self).discover_az,
            opt_bytes(final(self).az_update) == spec_step_az(old(self).state, reply),
            final(self).wf(*info),
    {
        let discover = self.discover_az;
        let new_state: SetupState = match &self.state {
            SetupState::Negotiating => match reply {
                Ok(_) => select_state_exec(info, discover),
                Err(e) => SetupState::Failed(classify_negotiation_error(e)),
            },
            SetupState::AuthInitial => match reply {
                Ok(v) => if is_okay(&v) {
                    select_state_exec(info, discover)
                } else {
                    SetupState::Failed(SetupError::Authentication)
                },
                Err(e) => if is_auth_arity_error(&e) {
                    SetupState::AuthRetry
                } else {
                    SetupState::Failed(SetupError::Authentication)
                },
            },
            SetupState::AuthRetry => match reply {
                Ok(v) => if is_okay(&v) {
                    select_state_exec(info, discover)
                } else {
                    SetupState::Failed(SetupError::Authentication)
                },
                Err(_) => SetupState::Failed(SetupError::Authentication),
            },
            SetupState::SelectingDb => match reply {
                Ok(v) => if is_okay(&v) {
                    after_select_exec(info, discover)
                } else {
                    SetupState::Failed(SetupError::DatabaseSwitchRefused)
                },
                Err(_) => SetupState::Failed(SetupError::DatabaseSwitchRefused),
            },
            SetupState::SettingName => match reply {
                Ok(v) => if is_okay(&v) {
                    if discover {
                        SetupState::DiscoveringAz
                    } else {
                        SetupState::SendingMetadata
                    }
                } else {
                    SetupState::Failed(SetupError::ClientNameRefused)
                },
                Err(_) => SetupState::Failed(SetupError::ClientNameRefused),
            },
            SetupState::DiscoveringAz => match reply {
                Ok(v) => match v {
                    Value::BulkString(text) => {
                        self.az_update = info_az(&text);
                        SetupState::SendingMetadata
                    },
                    Value::SimpleString(text) => {
                        self.az_update = info_az(&text);
                        SetupState::SendingMetadata
                    },
                    _ => SetupState::Failed(SetupError::LocalityDiscovery(None)),
                },
                Err(e) => SetupState::Failed(SetupError::LocalityDiscovery(Some(e))),
            },
            SetupState::Restoring { kind, idx } => {
                let kind = *kind;
                let idx = *idx;
                let expect = push_kind_for(kind);
                let confirmed = {
                    let list = sub_list_ref(info, kind);
                    confirm_push(&reply, expect, &list[idx])
                };
                if confirmed {
                    after_restore_exec(info, kind, idx)
                } else {
                    SetupState::Failed(SetupError::Restoration(kind))
                }
            },
            SetupState::SendingMetadata => vstd::pervasive::unreached(),
            SetupState::Ready => vstd::pervasive::unreached(),
            SetupState::Failed(_) => vstd::pervasive::unreached(),
        };
        self.state = new_state;
    }

    /// Moves past the best-effort metadata step: whatever the batch came
    /// back with is ignored, and restoration (or readiness) follows.
    pub fn on_batch_reply(&mut self, info: &RedisConnectionInfo)
        requires
            old(self).wf(*info),
            old(self).state is SendingMetadata,
            old(self).az_update is None,
        ensures
            final(self).state == spec_sub_start(*info),
            final(self).discover_az == old(self).discover_az,
            final(self).az_update is None,
            final(self).wf(*info),
    {
        self.state = sub_start_exec(info);
    }
}

/// Observes that each restoration list, being held in a vector, has a
/// machine-representable length.
fn note_sub_list_bounds(info: &RedisConnectionInfo)
    ensures
        forall|kind: PubSubSubscriptionKind|
            #[trigger] spec_sub_list(*info, kind).len() <= usize::MAX,
{
    match &info.pubsub_subscriptions {
        Some(subs) => {
            let exact_n: usize = subs.exact.len();
            let pattern_n: usize = subs.pattern.len();
            let sharded_n: usize = subs.sharded.len();
            proof {
                assert forall|kind: PubSubSubscriptionKind|
                    #[trigger] spec_sub_list(*info, kind).len() <= usize::MAX by {
                    match kind {
                        PubSubSubscriptionKind::Exact => {
                            assert(spec_sub_list(*info, kind).len() == exact_n);
                        },
                        PubSubSubscriptionKind::Pattern => {
                            assert(spec_sub_list(*info, kind).len() == pattern_n);
                        },
                        PubSubSubscriptionKind::Sharded => {
                            assert(spec_sub_list(*info, kind).len() == sharded_n);
                        },
                    }
                }
            }
        },
        None => {
            proof {
                assert forall|kind: PubSubSubscriptionKind|
                    #[trigger] spec_sub_list(*info, kind).len() <= usize::MAX by {
                    assert(spec_sub_list(*info, kind) =~= Seq::empty());
                }
            }
        },
    }
}

/// The dispatches a handshake issues from state `st` on, when the
/// dispatcher answers with `replies`, in order: each non-terminal state
/// issues its dispatch and steps on the next reply; the sequence ends at a
/// terminal state or when the replies run out. This is exactly the
/// dispatch sequence of [`setup_connection`], whose machine starts at
/// `spec_start_state`, issues `spec_dispatch` and steps by `spec_step`.
pub open spec fn spec_run(
    st: SetupState,
    info: RedisConnectionInfo,
    discover_az: bool,
    replies: Seq<Result<Value, RedisError>>,
) -> Seq<DispatchModel>
    decreases replies.len(),
{
    if st is Ready || st is Failed {
        Seq::empty()
    } else if replies.len() == 0 {
        seq![spec_dispatch(st, info)]
    } else {
        seq![spec_dispatch(st, info)] + spec_run(
            spec_step(st, info, discover_az, replies[0]),
            info,
            discover_az,
            replies.drop_first(),
        )
    }
}

/// The whole command trace of one setup: what `setup_connection` issues
/// for the given parameters when the dispatcher answers with `replies`.
pub open spec fn spec_setup_trace(
    info: RedisConnectionInfo,
    discover_az: bool,
    replies: Seq<Result<Value, RedisError>>,
) -> Seq<DispatchModel> {
    spec_run(spec_start_state(info, discover_az), info, discover_az, replies)
}

/// Setup is deterministic: two handshakes with equal parameters, answered
/// with equal reply sequences, issue exactly the same commands.
pub proof fn lemma_setup_deterministic(
    info1: RedisConnectionInfo,
    info2: RedisConnectionInfo,
    discover_az1: bool,
    discover_az2: bool,
    replies1: Seq<Result<Value, RedisError>>,
    replies2: Seq<Result<Value, RedisError>>,
)
    requires
        info1 == info2,
        discover_az1 == discover_az2,
        replies1 == replies2,
    ensures
        spec_setup_trace(info1, discover_az1, replies1) == spec_setup_trace(
            info2,
            discover_az2,
            replies2,
        ),
{
}

/// The dispatch is the database-selection command.
pub open spec fn is_select_dispatch(d: DispatchModel) -> bool {
    d matches DispatchModel::One(c) && c.name == name_select()
}

/// From a state other than database selection, a handshake for the
/// default database (index zero) never issues a select command, whatever
/// the replies.
pub proof fn lemma_run_no_select(
    st: SetupState,
    info: RedisConnectionInfo,
    discover_az: bool,
    replies: Seq<Result<Value, RedisError>>,
)
    requires
        info.db == 0,
        !(st is SelectingDb),
    ensures
        forall|i: int|
            0 <= i < spec_run(st, info, discover_az, replies).len() ==> !is_select_dispatch(
                #[trigger] spec_run(st, info, discover_az, replies)[i],
            ),
    decreases replies.len(),
{
    if st is Ready || st is Failed {
    } else {
        assert(name_client()[0] != name_select()[0]);
        assert(!is_select_dispatch(spec_dispatch(st, info)));
        let run = spec_run(st, info, discover_az, replies);
        if replies.len() == 0 {
            assert(run[0] == spec_dispatch(st, info));
        } else {
            let next = spec_step(st, info, discover_az, replies[0]);
            assert(!(next is SelectingDb));
            lemma_run_no_select(next, info, discover_az, replies.drop_first());
            let rest = spec_run(next, info, discover_az, replies.drop_first());
            assert forall|i: int| 0 <= i < run.len() implies !is_select_dispatch(run[i]) by {
                if i == 0 {
                    assert(run[0] == spec_dispatch(st, info));
                } else {
                    assert(run[i] == rest[i - 1]);
                }
            }
        }
    }
}

/// A handshake for the default database never selects a database: no
/// dispatch of its trace is the select command.
pub proof fn lemma_db_zero_no_select(
    info: RedisConnectionInfo,
    discover_az: bool,
    replies: Seq<Result<Value, RedisError>>,
)
    requires
        info.db == 0,
    ensures
        forall|i: int|
            0 <= i < spec_setup_trace(info, discover_az, replies).len() ==> !is_select_dispatch(
                #[trigger] spec_setup_trace(info, discover_az, replies)[i],
            ),
{
    lemma_run_no_select(spec_start_state(info, discover_az), info, discover_az, replies);
}

/// How many dispatches of `s` are the database-selection command.
pub open spec fn select_count(s: Seq<DispatchModel>) -> int
    decreases s.len(),
{
    if s.len() == 0 {
        0
    } else {
        (if is_select_dispatch(s[0]) {
            1int
        } else {
            0int
        }) + select_count(s.drop_first())
    }
}

/// From any state ranked strictly below database selection, no run ever
/// dispatches a select: the selection state is never revisited.
proof fn lemma_no_select_below_rank(
    st: SetupState,
    info: RedisConnectionInfo,
    discover_az: bool,
    replies: Seq<Result<Value, RedisError>>,
)
    requires
        state_rank(st, info) < 5 + total_subs(info),
        st matches SetupState::Restoring { kind, idx } ==> idx < spec_sub_list(info, kind).len(),
        forall|kind: PubSubSubscriptionKind|
            #[trigger] spec_sub_list(info, kind).len() <= usize::MAX,
    ensures
        select_count(spec_run(st, info, discover_az, replies)) == 0,
    decreases replies.len(),
{
    assert(select_count(Seq::<DispatchModel>::empty()) == 0);
    if st is Ready || st is Failed {
    } else {
        assert(!(st is SelectingDb));
        assert(name_client()[0] != name_select()[0]);
        let head = spec_dispatch(st, info);
        assert(!is_select_dispatch(head));
        let run = spec_run(st, info, discover_az, replies);
        if replies.len() == 0 {
            assert(run.drop_first() =~= Seq::<DispatchModel>::empty());
        } else {
            let next = spec_step(st, info, discover_az, replies[0]);
            lemma_step_decreases(st, info, discover_az, replies[0]);
            lemma_no_select_below_rank(next, info, discover_az, replies.drop_first());
            let rest = spec_run(next, info, discover_az, replies.drop_first());
            assert(run.drop_first() =~= rest);
        }
    }
}

/// In any run the database-selection command is dispatched at most once:
/// every transition strictly lowers the rank, so the selection state is
/// never entered twice.
pub proof fn lemma_run_select_at_most_once(
    st: SetupState,
    info: RedisConnectionInfo,
    discover_az: bool,
    replies: Seq<Result<Value, RedisError>>,
)
    requires
        st matches SetupState::Restoring { kind, idx } ==> idx < spec_sub_list(info, kind).len(),
        forall|kind: PubSubSubscriptionKind|
            #[trigger] spec_sub_list(info, kind).len() <= usize::MAX,
    ensures
        0 <= select_count(spec_run(st, info, discover_az, replies)) <= 1,
    decreases replies.len(),
{
    assert(select_count(Seq::<DispatchModel>::empty()) == 0);
    if st is Ready || st is Failed {
    } else {
        let run = spec_run(st, info, discover_az, replies);
        if replies.len() == 0 {
            assert(run.drop_first() =~= Seq::<DispatchModel>::empty());
        } else {
            let next = spec_step(st, info, discover_az, replies[0]);
            lemma_step_decreases(st, info, discover_az, replies[0]);
            if st is SelectingDb {
                lemma_no_select_below_rank(next, info, discover_az, replies.drop_first());
            } else {
                assert(name_client()[0] != name_select()[0]);
                assert(!is_select_dispatch(spec_dispatch(st, info)));
                lemma_run_select_at_most_once(next, info, discover_az, replies.drop_first());
            }
            let rest = spec_run(next, info, discover_az, replies.drop_first());
            assert(run.drop_first() =~= rest);
        }
    }
}

/// Over a whole setup the select command goes out at most once, whatever
/// the replies; with the default database it never goes out at all (see
/// [`lemma_db_zero_no_select`]).
pub proof fn lemma_setup_select_at_most_once(
    info: RedisConnectionInfo,
    discover_az: bool,
    replies: Seq<Result<Value, RedisError>>,
)
    requires
        forall|kind: PubSubSubscriptionKind|
            #[trigger] spec_sub_list(info, kind).len() <= usize::MAX,
    ensures
        0 <= select_count(spec_setup_trace(info, discover_az, replies)) <= 1,
{
    lemma_run_select_at_most_once(spec_start_state(info, discover_az), info, discover_az, replies);
}

/// The state a handshake from `st` ends in after consuming `replies` (or
/// stands in when they run out), stepping as [`spec_run`] does.
pub open spec fn spec_final_state(
    st: SetupState,
    info: RedisConnectionInfo,
    discover_az: bool,
    replies: Seq<Result<Value, RedisError>>,
) -> SetupState
    decreases replies.len(),
{
    if st is Ready || st is Failed {
        st
    } else if replies.len() == 0 {
        st
    } else {
        spec_final_state(
            spec_step(st, info, discover_az, replies[0]),
            info,
            discover_az,
            replies.drop_first(),
        )
    }
}

/// From any of the states that precede or perform database selection, a
/// handshake that ends ready has dispatched the select command exactly
/// once.
proof fn lemma_select_exactly_once_from(
    st: SetupState,
    info: RedisConnectionInfo,
    discover_az: bool,
    replies: Seq<Result<Value, RedisError>>,
)
    requires
        info.db != 0,
        st is Negotiating || st is AuthInitial || st is AuthRetry || st is SelectingDb,
        forall|kind: PubSubSubscriptionKind|
            #[trigger] spec_sub_list(info, kind).len() <= usize::MAX,
    ensures
        spec_final_state(st, info, discover_az, replies) is Ready ==> select_count(
            spec_run(st, info, discover_az, replies),
        ) == 1,
    decreases replies.len(),
{
    assert(select_count(Seq::<DispatchModel>::empty()) == 0);
    let run = spec_run(st, info, discover_az, replies);
    if replies.len() == 0 {
        assert(!(spec_final_state(st, info, discover_az, replies) is Ready));
    } else {
        let next = spec_step(st, info, discover_az, replies[0]);
        let rest = spec_run(next, info, discover_az, replies.drop_first());
        if st is SelectingDb {
            assert(is_select_dispatch(spec_dispatch(st, info)));
            lemma_step_decreases(st, info, discover_az, replies[0]);
            lemma_no_select_below_rank(next, info, discover_az, replies.drop_first());
        } else {
            assert(!is_select_dispatch(spec_dispatch(st, info)));
            assert(next is Negotiating || next is AuthInitial || next is AuthRetry
                || next is SelectingDb || next is Failed);
            if next is Failed {
                assert(rest =~= Seq::<DispatchModel>::empty());
                assert(spec_final_state(st, info, discover_az, replies) == spec_final_state(
                    next,
                    info,
                    discover_az,
                    replies.drop_first(),
                ));
                assert(spec_final_state(next, info, discover_az, replies.drop_first()) == next);
            } else {
                lemma_select_exactly_once_from(next, info, discover_az, replies.drop_first());
            }
        }
        assert(run.drop_first() =~= rest);
    }
}

/// With a non-zero database index, a setup that ends ready has issued the
/// select command exactly once, whatever the replies; at most once in
/// every case (see [`lemma_setup_select_at_most_once`]), and never for the
/// default database (see [`lemma_db_zero_no_select`]).
pub proof fn lemma_setup_select_exactly_once_on_success(
    info: RedisConnectionInfo,
    discover_az: bool,
    replies: Seq<Result<Value, RedisError>>,
)
    requires
        info.db != 0,
        forall|kind: PubSubSubscriptionKind|
            #[trigger] spec_sub_list(info, kind).len() <= usize::MAX,
    ensures
        spec_final_state(spec_start_state(info, discover_az), info, discover_az, replies)
            is Ready ==> select_count(spec_setup_trace(info, discover_az, replies)) == 1,
{
    lemma_select_exactly_once_from(
        spec_start_state(info, discover_az),
        info,
        discover_az,
        replies,
    );
}

/// The dispatch is an authenticate command. (The negotiation command may
/// carry the word as an argument; only the command name counts.)
pub open spec fn is_auth_dispatch(d: DispatchModel) -> bool {
    d matches DispatchModel::One(c) && c.name == name_auth()
}

/// How many dispatches of `s` are authenticate commands.
pub open spec fn auth_count(s: Seq<DispatchModel>) -> int
    decreases s.len(),
{
    if s.len() == 0 {
        0
    } else {
        (if is_auth_dispatch(s[0]) {
            1int
        } else {
            0int
        }) + auth_count(s.drop_first())
    }
}

/// How many authenticate dispatches a run from `st` may still make: one
/// for each authentication state at or below `st`'s rank.
pub open spec fn auth_allowance(st: SetupState, info: RedisConnectionInfo) -> int {
    if state_rank(st, info) >= 7 + total_subs(info) {
        2
    } else if state_rank(st, info) >= 6 + total_subs(info) {
        1
    } else {
        0
    }
}

/// A run dispatches at most as many authenticate commands as its starting
/// state allows: each of the two authentication states is entered at most
/// once, since every transition strictly lowers the rank.
proof fn lemma_run_auth_bound(
    st: SetupState,
    info: RedisConnectionInfo,
    discover_az: bool,
    replies: Seq<Result<Value, RedisError>>,
)
    requires
        st matches SetupState::Restoring { kind, idx } ==> idx < spec_sub_list(info, kind).len(),
        forall|kind: PubSubSubscriptionKind|
            #[trigger] spec_sub_list(info, kind).len() <= usize::MAX,
    ensures
        0 <= auth_count(spec_run(st, info, discover_az, replies)) <= auth_allowance(st, info),
    decreases replies.len(),
{
    assert(auth_count(Seq::<DispatchModel>::empty()) == 0);
    if st is Ready || st is Failed {
    } else {
        assert(name_info()[0] != name_auth()[0]);
        let head = spec_dispatch(st, info);
        assert(is_auth_dispatch(head) ==> (st is AuthInitial || st is AuthRetry));
        let run = spec_run(st, info, discover_az, replies);
        if replies.len() == 0 {
            assert(run.drop_first() =~= Seq::<DispatchModel>::empty());
        } else {
            let next = spec_step(st, info, discover_az, replies[0]);
            lemma_step_decreases(st, info, discover_az, replies[0]);
            lemma_run_auth_bound(next, info, discover_az, replies.drop_first());
            let rest = spec_run(next, info, discover_az, replies.drop_first());
            assert(run.drop_first() =~= rest);
        }
    }
}

/// Over a whole setup, authenticate goes out at most twice, whatever the
/// replies: the initial attempt and at most one legacy retry.
pub proof fn lemma_setup_auth_at_most_two(
    info: RedisConnectionInfo,
    discover_az: bool,
    replies: Seq<Result<Value, RedisError>>,
)
    requires
        forall|kind: PubSubSubscriptionKind|
            #[trigger] spec_sub_list(info, kind).len() <= usize::MAX,
    ensures
        0 <= auth_count(spec_setup_trace(info, discover_az, replies)) <= 2,
{
    lemma_run_auth_bound(spec_start_state(info, discover_az), info, discover_az, replies);
}

/// The position of a subscription kind in declaration order.
pub open spec fn sub_kind_rank(kind: PubSubSubscriptionKind) -> int {
    match kind {
        PubSubSubscriptionKind::Exact => 0,
        PubSubSubscriptionKind::Pattern => 1,
        PubSubSubscriptionKind::Sharded => 2,
    }
}

/// The subscription kind a dispatch restores, if it is a subscribe
/// command.
pub open spec fn dispatch_sub_kind(d: DispatchModel) -> Option<PubSubSubscriptionKind> {
    match d {
        DispatchModel::One(c) => if c.name == name_subscribe() {
            Some(PubSubSubscriptionKind::Exact)
        } else if c.name == name_psubscribe() {
            Some(PubSubSubscriptionKind::Pattern)
        } else if c.name == name_ssubscribe() {
            Some(PubSubSubscriptionKind::Sharded)
        } else {
            None
        },
        DispatchModel::Batch(_) => None,
    }
}

/// The lowest kind rank a run from `st` may still subscribe: states before
/// restoration may subscribe anything, a restoring state nothing earlier
/// than its own kind.
pub open spec fn restore_floor(st: SetupState) -> int {
    match st {
        SetupState::Restoring { kind, idx } => sub_kind_rank(kind),
        _ => 0,
    }
}

/// Every subscribe dispatch of a run is at or past the run's starting
/// floor: restoration never goes back to an earlier kind.
proof fn lemma_run_sub_floor(
    st: SetupState,
    info: RedisConnectionInfo,
    discover_az: bool,
    replies: Seq<Result<Value, RedisError>>,
)
    ensures
        forall|i: int|
            0 <= i < spec_run(st, info, discover_az, replies).len()
                && dispatch_sub_kind(#[trigger] spec_run(st, info, discover_az, replies)[i])
                is Some ==> sub_kind_rank(
                dispatch_sub_kind(spec_run(st, info, discover_az, replies)[i]).unwrap(),
            ) >= restore_floor(st),
    decreases replies.len(),
{
    if st is Ready || st is Failed {
    } else {
        assert(name_psubscribe()[0] != name_ssubscribe()[0]);
        let head = spec_dispatch(st, info);
        assert(dispatch_sub_kind(head) is Some ==> sub_kind_rank(dispatch_sub_kind(head).unwrap())
            >= restore_floor(st));
        let run = spec_run(st, info, discover_az, replies);
        if replies.len() == 0 {
            assert(run[0] == head);
        } else {
            let next = spec_step(st, info, discover_az, replies[0]);
            lemma_run_sub_floor(next, info, discover_az, replies.drop_first());
            let rest = spec_run(next, info, discover_az, replies.drop_first());
            assert(!(next is Ready) && !(next is Failed) ==> restore_floor(next) >= restore_floor(
                st,
            ));
            assert forall|i: int|
                0 <= i < run.len() && dispatch_sub_kind(#[trigger] run[i]) is Some implies sub_kind_rank(
                dispatch_sub_kind(run[i]).unwrap(),
            ) >= restore_floor(st) by {
                if i == 0 {
                    assert(run[0] == head);
                } else {
                    assert(run[i] == rest[i - 1]);
                }
            }
        }
    }
}

/// Restoration proceeds in declaration order across kinds: in any run, a
/// subscribe dispatch for a later kind never precedes one for an earlier
/// kind.
pub proof fn lemma_run_subscribes_in_kind_order(
    st: SetupState,
    info: RedisConnectionInfo,
    discover_az: bool,
    replies: Seq<Result<Value, RedisError>>,
)
    ensures
        forall|i: int, j: int|
            0 <= i < j < spec_run(st, info, discover_az, replies).len() && dispatch_sub_kind(
                #[trigger] spec_run(st, info, discover_az, replies)[i],
            ) is Some && dispatch_sub_kind(
                #[trigger] spec_run(st, info, discover_az, replies)[j],
            ) is Some ==> sub_kind_rank(
                dispatch_sub_kind(spec_run(st, info, discover_az, replies)[i]).unwrap(),
            ) <= sub_kind_rank(
                dispatch_sub_kind(spec_run(st, info, discover_az, replies)[j]).unwrap(),
            ),
    decreases replies.len(),
{
    if st is Ready || st is Failed {
    } else if replies.len() == 0 {
    } else {
        assert(name_psubscribe()[0] != name_ssubscribe()[0]);
        let run = spec_run(st, info, discover_az, replies);
        let head = spec_dispatch(st, info);
        let next = spec_step(st, info, discover_az, replies[0]);
        lemma_run_subscribes_in_kind_order(next, info, discover_az, replies.drop_first());
        lemma_run_sub_floor(next, info, discover_az, replies.drop_first());
        let rest = spec_run(next, info, discover_az, replies.drop_first());
        assert forall|i: int, j: int|
            0 <= i < j < run.len() && dispatch_sub_kind(#[trigger] run[i]) is Some
                && dispatch_sub_kind(#[trigger] run[j]) is Some implies sub_kind_rank(
            dispatch_sub_kind(run[i]).unwrap(),
        ) <= sub_kind_rank(dispatch_sub_kind(run[j]).unwrap()) by {
            if i == 0 {
                assert(run[0] == head);
                assert(run[j] == rest[j - 1]);
                match st {
                    SetupState::Restoring { kind, idx } => {
                        assert(dispatch_sub_kind(head) == Some(kind));
                        assert(!(next is Ready) && !(next is Failed) ==> restore_floor(next)
                            >= sub_kind_rank(kind));
                    },
                    _ => {
                        assert(dispatch_sub_kind(head) is None);
                    },
                }
            } else {
                assert(run[i] == rest[i - 1]);
                assert(run[j] == rest[j - 1]);
            }
        }
    }
}

/// Over a whole setup, subscriptions are restored in kind declaration
/// order: exact, then pattern, then sharded.
pub proof fn lemma_setup_subscribes_in_kind_order(
    info: RedisConnectionInfo,
    discover_az: bool,
    replies: Seq<Result<Value, RedisError>>,
)
    ensures
        forall|i: int, j: int|
            0 <= i < j < spec_setup_trace(info, discover_az, replies).len() && dispatch_sub_kind(
                #[trigger] spec_setup_trace(info, discover_az, replies)[i],
            ) is Some && dispatch_sub_kind(
                #[trigger] spec_setup_trace(info, discover_az, replies)[j],
            ) is Some ==> sub_kind_rank(
                dispatch_sub_kind(spec_setup_trace(info, discover_az, replies)[i]).unwrap(),
            ) <= sub_kind_rank(
                dispatch_sub_kind(spec_setup_trace(info, discover_az, replies)[j]).unwrap(),
            ),
{
    lemma_run_subscribes_in_kind_order(
        spec_start_state(info, discover_az),
        info,
        discover_az,
        replies,
    );
}

/// How many dispatches of `s` are exactly the single command `c`.
pub open spec fn command_count(s: Seq<DispatchModel>, c: CmdModel) -> int
    decreases s.len(),
{
    if s.len() == 0 {
        0
    } else {
        (if s[0] == DispatchModel::One(c) {
            1int
        } else {
            0int
        }) + command_count(s.drop_first(), c)
    }
}

/// No state other than `Restoring { kind, idx }` itself dispatches the
/// subscribe command for identifier `idx` of group `kind`: the group names
/// its identifiers at most once, and the kinds' command names differ.
proof fn lemma_subscribe_dispatch_unique(
    st: SetupState,
    info: RedisConnectionInfo,
    kind: PubSubSubscriptionKind,
    idx: usize,
)
    requires
        info.wf(),
        idx < spec_sub_list(info, kind).len(),
        !(st is Ready),
        !(st is Failed),
        st != (SetupState::Restoring { kind, idx }),
        st matches SetupState::Restoring { kind: k2, idx: i2 } ==> i2 < spec_sub_list(
            info,
            k2,
        ).len(),
    ensures
        spec_dispatch(st, info) != DispatchModel::One(spec_subscribe_cmd(info, kind, idx as int)),
{
    assert(name_psubscribe()[0] != name_ssubscribe()[0]);
    match st {
        SetupState::Restoring { kind: kind2, idx: idx2 } => {
            if kind2 == kind {
                let list = spec_sub_list(info, kind);
                if idx < idx2 {
                    assert(list[idx as int]@ != list[idx2 as int]@);
                } else {
                    assert(list[idx2 as int]@ != list[idx as int]@);
                }
                assert(spec_subscribe_cmd(info, kind, idx2 as int).args[0] != spec_subscribe_cmd(
                    info,
                    kind,
                    idx as int,
                ).args[0]);
            }
        },
        _ => {},
    }
}

/// From any state ranked strictly below `Restoring { kind, idx }`, no run
/// dispatches that pair's subscribe command again.
proof fn lemma_no_subscribe_below_rank(
    st: SetupState,
    info: RedisConnectionInfo,
    discover_az: bool,
    replies: Seq<Result<Value, RedisError>>,
    kind: PubSubSubscriptionKind,
    idx: usize,
)
    requires
        info.wf(),
        idx < spec_sub_list(info, kind).len(),
        state_rank(st, info) < 1 + subs_remaining(info, kind, idx as int),
        st matches SetupState::Restoring { kind: k2, idx: i2 } ==> i2 < spec_sub_list(
            info,
            k2,
        ).len(),
        forall|k: PubSubSubscriptionKind| #[trigger] spec_sub_list(info, k).len() <= usize::MAX,
    ensures
        command_count(
            spec_run(st, info, discover_az, replies),
            spec_subscribe_cmd(info, kind, idx as int),
        ) == 0,
    decreases replies.len(),
{
    let target = spec_subscribe_cmd(info, kind, idx as int);
    assert(command_count(Seq::<DispatchModel>::empty(), target) == 0);
    if st is Ready || st is Failed {
    } else {
        assert(st != (SetupState::Restoring { kind, idx }));
        lemma_subscribe_dispatch_unique(st, info, kind, idx);
        let run = spec_run(st, info, discover_az, replies);
        if replies.len() == 0 {
            assert(run.drop_first() =~= Seq::<DispatchModel>::empty());
        } else {
            let next = spec_step(st, info, discover_az, replies[0]);
            lemma_step_decreases(st, info, discover_az, replies[0]);
            lemma_no_subscribe_below_rank(
                next,
                info,
                discover_az,
                replies.drop_first(),
                kind,
                idx,
            );
            let rest = spec_run(next, info, discover_az, replies.drop_first());
            assert(run.drop_first() =~= rest);
        }
    }
}

/// Every (kind, identifier) pair is attempted at most once: in any run,
/// the subscribe command for identifier `idx` of group `kind` is
/// dispatched at most once, whatever the replies.
pub proof fn lemma_run_subscribe_at_most_once(
    st: SetupState,
    info: RedisConnectionInfo,
    discover_az: bool,
    replies: Seq<Result<Value, RedisError>>,
    kind: PubSubSubscriptionKind,
    idx: usize,
)
    requires
        info.wf(),
        idx < spec_sub_list(info, kind).len(),
        st matches SetupState::Restoring { kind: k2, idx: i2 } ==> i2 < spec_sub_list(
            info,
            k2,
        ).len(),
        forall|k: PubSubSubscriptionKind| #[trigger] spec_sub_list(info, k).len() <= usize::MAX,
    ensures
        0 <= command_count(
            spec_run(st, info, discover_az, replies),
            spec_subscribe_cmd(info, kind, idx as int),
        ) <= 1,
    decreases replies.len(),
{
    let target = spec_subscribe_cmd(info, kind, idx as int);
    assert(command_count(Seq::<DispatchModel>::empty(), target) == 0);
    if st is Ready || st is Failed {
    } else {
        if st != (SetupState::Restoring { kind, idx }) {
            lemma_subscribe_dispatch_unique(st, info, kind, idx);
        }
        let run = spec_run(st, info, discover_az, replies);
        if replies.len() == 0 {
            assert(run.drop_first() =~= Seq::<DispatchModel>::empty());
        } else {
            let next = spec_step(st, info, discover_az, replies[0]);
            lemma_step_decreases(st, info, discover_az, replies[0]);
            if st == (SetupState::Restoring { kind, idx }) {
                lemma_no_subscribe_below_rank(
                    next,
                    info,
                    discover_az,
                    replies.drop_first(),
                    kind,
                    idx,
                );
            } else {
                lemma_run_subscribe_at_most_once(
                    next,
                    info,
                    discover_az,
                    replies.drop_first(),
                    kind,
                    idx,
                );
            }
            let rest = spec_run(next, info, discover_az, replies.drop_first());
            assert(run.drop_first() =~= rest);
        }
    }
}

/// Over a whole setup, each declared (kind, identifier) pair is subscribed
/// at most once, whatever the replies.
pub proof fn lemma_setup_subscribe_at_most_once(
    info: RedisConnectionInfo,
    discover_az: bool,
    replies: Seq<Result<Value, RedisError>>,
    kind: PubSubSubscriptionKind,
    idx: usize,
)
    requires
        info.wf(),
        idx < spec_sub_list(info, kind).len(),
        forall|k: PubSubSubscriptionKind| #[trigger] spec_sub_list(info, k).len() <= usize::MAX,
    ensures
        0 <= command_count(
            spec_setup_trace(info, discover_az, replies),
            spec_subscribe_cmd(info, kind, idx as int),
        ) <= 1,
{
    lemma_run_subscribe_at_most_once(
        spec_start_state(info, discover_az),
        info,
        discover_az,
        replies,
        kind,
        idx,
    );
}

/// Two distinct declared pairs stand at distinct positions: within a kind
/// the remaining count falls with the index, and a whole later kind always
/// has strictly fewer subscriptions left than any position of an earlier
/// one.
proof fn lemma_remaining_distinct(
    info: RedisConnectionInfo,
    kind1: PubSubSubscriptionKind,
    idx1: usize,
    kind2: PubSubSubscriptionKind,
    idx2: usize,
)
    requires
        idx1 < spec_sub_list(info, kind1).len(),
        idx2 < spec_sub_list(info, kind2).len(),
        kind1 != kind2 || idx1 != idx2,
    ensures
        subs_remaining(info, kind1, idx1 as int) != subs_remaining(info, kind2, idx2 as int),
{
    match kind1 {
        PubSubSubscriptionKind::Exact => {},
        PubSubSubscriptionKind::Pattern => {},
        PubSubSubscriptionKind::Sharded => {},
    }
    match kind2 {
        PubSubSubscriptionKind::Exact => {},
        PubSubSubscriptionKind::Pattern => {},
        PubSubSubscriptionKind::Sharded => {},
    }
}

/// From any state at or before the pair (kind, idx) in restoration order,
/// a handshake that ends ready has dispatched that pair's subscribe
/// command exactly once.
proof fn lemma_subscribe_once_from(
    st: SetupState,
    info: RedisConnectionInfo,
    discover_az: bool,
    replies: Seq<Result<Value, RedisError>>,
    kind: PubSubSubscriptionKind,
    idx: usize,
)
    requires
        info.wf(),
        info.protocol is RESP3,
        idx < spec_sub_list(info, kind).len(),
        !(st is Ready),
        !(st is Failed),
        st matches SetupState::Restoring { kind: k2, idx: i2 } ==> (i2 < spec_sub_list(
            info,
            k2,
        ).len() && subs_remaining(info, k2, i2 as int) >= subs_remaining(info, kind, idx as int)),
        forall|k: PubSubSubscriptionKind| #[trigger] spec_sub_list(info, k).len() <= usize::MAX,
    ensures
        spec_final_state(st, info, discover_az, replies) is Ready ==> command_count(
            spec_run(st, info, discover_az, replies),
            spec_subscribe_cmd(info, kind, idx as int),
        ) == 1,
    decreases replies.len(),
{
    let target = spec_subscribe_cmd(info, kind, idx as int);
    assert(command_count(Seq::<DispatchModel>::empty(), target) == 0);
    if replies.len() == 0 {
        assert(spec_final_state(st, info, discover_az, replies) == st);
    } else {
        let run = spec_run(st, info, discover_az, replies);
        let next = spec_step(st, info, discover_az, replies[0]);
        let rest = spec_run(next, info, discover_az, replies.drop_first());
        assert(run.drop_first() =~= rest);
        assert(spec_final_state(st, info, discover_az, replies) == spec_final_state(
            next,
            info,
            discover_az,
            replies.drop_first(),
        ));
        if st == (SetupState::Restoring { kind, idx }) {
            lemma_step_decreases(st, info, discover_az, replies[0]);
            lemma_no_subscribe_below_rank(next, info, discover_az, replies.drop_first(), kind, idx);
        } else {
            lemma_subscribe_dispatch_unique(st, info, kind, idx);
            match st {
                SetupState::Restoring { kind: k2, idx: i2 } => {
                    lemma_remaining_distinct(info, k2, i2, kind, idx);
                    assert(subs_remaining(info, k2, i2 as int) > subs_remaining(
                        info,
                        kind,
                        idx as int,
                    ));
                },
                _ => {},
            }
            if next is Ready || next is Failed {
                assert(spec_final_state(next, info, discover_az, replies.drop_first()) == next);
                assert(next is Ready ==> false);
            } else {
                lemma_subscribe_once_from(
                    next,
                    info,
                    discover_az,
                    replies.drop_first(),
                    kind,
                    idx,
                );
            }
        }
    }
}

/// Over a whole setup under the negotiated protocol, a handshake that ends
/// ready has subscribed each declared (kind, identifier) pair exactly
/// once, whatever the replies — together with
/// [`lemma_setup_subscribes_in_kind_order`], the restoration plan is
/// executed completely, once, and in order.
pub proof fn lemma_setup_subscribe_exactly_once_on_success(
    info: RedisConnectionInfo,
    discover_az: bool,
    replies: Seq<Result<Value, RedisError>>,
    kind: PubSubSubscriptionKind,
    idx: usize,
)
    requires
        info.wf(),
        info.protocol is RESP3,
        idx < spec_sub_list(info, kind).len(),
        forall|k: PubSubSubscriptionKind| #[trigger] spec_sub_list(info, k).len() <= usize::MAX,
    ensures
        spec_final_state(spec_start_state(info, discover_az), info, discover_az, replies)
            is Ready ==> command_count(
            spec_setup_trace(info, discover_az, replies),
            spec_subscribe_cmd(info, kind, idx as int),
        ) == 1,
{
    lemma_subscribe_once_from(
        spec_start_state(info, discover_az),
        info,
        discover_az,
        replies,
        kind,
        idx,
    );
}

/// A restoration failure can only name the floor's kind or a later one:
/// once restoration has reached a kind, no earlier kind fails.
proof fn lemma_fail_kind_floor(
    st: SetupState,
    info: RedisConnectionInfo,
    discover_az: bool,
    replies: Seq<Result<Value, RedisError>>,
)
    ensures
        spec_final_state(st, info, discover_az, replies) matches SetupState::Failed(
            SetupError::Restoration(k),
        ) ==> sub_kind_rank(k) >= restore_floor(st),
    decreases replies.len(),
{
    if st is Ready || st is Failed {
    } else if replies.len() == 0 {
        assert(spec_final_state(st, info, discover_az, replies) == st);
    } else {
        let next = spec_step(st, info, discover_az, replies[0]);
        assert(spec_final_state(st, info, discover_az, replies) == spec_final_state(
            next,
            info,
            discover_az,
            replies.drop_first(),
        ));
        lemma_fail_kind_floor(next, info, discover_az, replies.drop_first());
        assert(!(next is Ready) && !(next is Failed) ==> restore_floor(next) >= restore_floor(st));
        assert(next matches SetupState::Failed(SetupError::Restoration(k)) ==> sub_kind_rank(k)
            >= restore_floor(st));
    }
}

/// In a run that ends in a restoration failure of kind `k`, every
/// subscribe dispatched along the way was for `k` or an earlier kind:
/// restoration fails fast and no later kind is ever attempted.
proof fn lemma_restoration_fail_no_later_kind(
    st: SetupState,
    info: RedisConnectionInfo,
    discover_az: bool,
    replies: Seq<Result<Value, RedisError>>,
    k: PubSubSubscriptionKind,
)
    requires
        spec_final_state(st, info, discover_az, replies) == SetupState::Failed(
            SetupError::Restoration(k),
        ),
    ensures
        forall|i: int|
            0 <= i < spec_run(st, info, discover_az, replies).len() && dispatch_sub_kind(
                #[trigger] spec_run(st, info, discover_az, replies)[i],
            ) is Some ==> sub_kind_rank(
                dispatch_sub_kind(spec_run(st, info, discover_az, replies)[i]).unwrap(),
            ) <= sub_kind_rank(k),
    decreases replies.len(),
{
    if st is Ready || st is Failed {
    } else if replies.len() == 0 {
        assert(spec_final_state(st, info, discover_az, replies) == st);
    } else {
        assert(name_psubscribe()[0] != name_ssubscribe()[0]);
        let run = spec_run(st, info, discover_az, replies);
        let head = spec_dispatch(st, info);
        lemma_fail_kind_floor(st, info, discover_az, replies);
        assert(dispatch_sub_kind(head) matches Some(hk) ==> sub_kind_rank(hk) == restore_floor(
            st,
        ));
        let next = spec_step(st, info, discover_az, replies[0]);
        assert(spec_final_state(st, info, discover_az, replies) == spec_final_state(
            next,
            info,
            discover_az,
            replies.drop_first(),
        ));
        let rest = spec_run(next, info, discover_az, replies.drop_first());
        if next is Ready || next is Failed {
            assert(spec_final_state(next, info, discover_az, replies.drop_first()) == next);
            assert(rest =~= Seq::<DispatchModel>::empty());
        } else {
            lemma_restoration_fail_no_later_kind(next, info, discover_az, replies.drop_first(), k);
        }
        assert forall|i: int|
            0 <= i < run.len() && dispatch_sub_kind(#[trigger] run[i]) is Some implies sub_kind_rank(
            dispatch_sub_kind(run[i]).unwrap(),
        ) <= sub_kind_rank(k) by {
            if i == 0 {
                assert(run[0] == head);
            } else {
                assert(run[i] == rest[i - 1]);
            }
        }
    }
}

/// A setup that ends in a restoration failure of kind `k` never dispatched
/// a subscribe command for any later kind — in particular, a pattern
/// failure means no sharded subscribe ever went out.
pub proof fn lemma_setup_restoration_fails_fast(
    info: RedisConnectionInfo,
    discover_az: bool,
    replies: Seq<Result<Value, RedisError>>,
    k: PubSubSubscriptionKind,
)
    requires
        spec_final_state(spec_start_state(info, discover_az), info, discover_az, replies)
            == SetupState::Failed(SetupError::Restoration(k)),
    ensures
        forall|i: int|
            0 <= i < spec_setup_trace(info, discover_az, replies).len() && dispatch_sub_kind(
                #[trigger] spec_setup_trace(info, discover_az, replies)[i],
            ) is Some ==> sub_kind_rank(
                dispatch_sub_kind(spec_setup_trace(info, discover_az, replies)[i]).unwrap(),
            ) <= sub_kind_rank(k),
{
    lemma_restoration_fail_no_later_kind(
        spec_start_state(info, discover_az),
        info,
        discover_az,
        replies,
        k,
    );
}

/// The metadata step is best-effort: every outcome of the batch moves the
/// handshake to the same next state, and never to a failure.
pub proof fn lemma_metadata_best_effort(
    info: RedisConnectionInfo,
    discover_az: bool,
    reply1: Result<Value, RedisError>,
    reply2: Result<Value, RedisError>,
)
    ensures
        spec_step(SetupState::SendingMetadata, info, discover_az, reply1) == spec_step(
            SetupState::SendingMetadata,
            info,
            discover_az,
            reply2,
        ),
        !(spec_step(SetupState::SendingMetadata, info, discover_az, reply1) is Failed),
{
}

/// A failed handshake issues nothing more, whatever replies would have
/// come: failure is fail-fast.
pub proof fn lemma_fail_fast(
    e: SetupError,
    info: RedisConnectionInfo,
    discover_az: bool,
    replies: Seq<Result<Value, RedisError>>,
)
    ensures
        spec_run(SetupState::Failed(e), info, discover_az, replies) == Seq::<
            DispatchModel,
        >::empty(),
{
}

/// The reply value is the positive acknowledgment.
fn is_okay(v: &Value) -> (r: bool)
    ensures
        r == (*v is Okay),
{
    match v {
        Value::Okay => true,
        _ => false,
    }
}

/// The acknowledgment push kind for a subscription kind.
fn push_kind_for(kind: PubSubSubscriptionKind) -> (r: PushKind)
    ensures
        r == spec_push_kind(kind),
{
    match kind {
        PubSubSubscriptionKind::Exact => PushKind::Subscribe,
        PubSubSubscriptionKind::Pattern => PushKind::PSubscribe,
        PubSubSubscriptionKind::Sharded => PushKind::SSubscribe,
    }
}

/// The identifiers declared for `kind`.
fn sub_list_ref<'a>(info: &'a RedisConnectionInfo, kind: PubSubSubscriptionKind) -> (r: &'a Vec<
    Vec<u8>,
>)
    requires
        info.pubsub_subscriptions is Some,
    ensures
        r@ == spec_sub_list(*info, kind),
{
    match &info.pubsub_subscriptions {
        Some(subs) => match kind {
            PubSubSubscriptionKind::Exact => &subs.exact,
            PubSubSubscriptionKind::Pattern => &subs.pattern,
            PubSubSubscriptionKind::Sharded => &subs.sharded,
        },
        None => vstd::pervasive::unreached(),
    }
}

/// Decides whether `reply` is the push that confirms subscribing
/// `channel`.
pub fn confirm_push(reply: &Result<Value, RedisError>, expect: PushKind, channel: &Vec<u8>) -> (r:
    bool)
    ensures
        r == spec_push_confirms(*reply, expect, channel@),
{
    match reply {
        Ok(Value::Push { kind, data }) => {
            if *kind == expect {
                if data.len() > 0 {
                    match &data[0] {
                        Value::BulkString(b) => bytes_eq(b, channel),
                        _ => false,
                    }
                } else {
                    false
                }
            } else {
                false
            }
        },
        _ => false,
    }
}

/// The state after negotiation or authentication.
fn select_state_exec(info: &RedisConnectionInfo, discover_az: bool) -> (s: SetupState)
    ensures
        s == spec_select_state(*info, discover_az),
{
    if info.db != 0 {
        SetupState::SelectingDb
    } else {
        after_select_exec(info, discover_az)
    }
}

/// The state after database selection.
fn after_select_exec(info: &RedisConnectionInfo, discover_az: bool) -> (s: SetupState)
    ensures
        s == spec_after_select(*info, discover_az),
{
    if info.client_name.is_some() {
        SetupState::SettingName
    } else if discover_az {
        SetupState::DiscoveringAz
    } else {
        SetupState::SendingMetadata
    }
}

/// The state that begins restoration.
fn sub_start_exec(info: &RedisConnectionInfo) -> (s: SetupState)
    ensures
        s == spec_sub_start(*info),
{
    match info.protocol {
        ProtocolVersion::RESP2 => {
            return SetupState::Ready;
        },
        ProtocolVersion::RESP3 => {},
    }
    let subs = match &info.pubsub_subscriptions {
        Some(subs) => subs,
        None => {
            return SetupState::Ready;
        },
    };
    if subs.exact.len() > 0 {
        SetupState::Restoring { kind: PubSubSubscriptionKind::Exact, idx: 0 }
    } else if subs.pattern.len() > 0 {
        SetupState::Restoring { kind: PubSubSubscriptionKind::Pattern, idx: 0 }
    } else if subs.sharded.len() > 0 {
        SetupState::Restoring { kind: PubSubSubscriptionKind::Sharded, idx: 0 }
    } else {
        SetupState::Ready
    }
}

/// The state after a confirmed subscription.
fn after_restore_exec(
    info: &RedisConnectionInfo,
    kind: PubSubSubscriptionKind,
    idx: usize,
) -> (s: SetupState)
    requires
        info.pubsub_subscriptions is Some,
        idx < spec_sub_list(*info, kind).len(),
    ensures
        s == spec_after_restore(*info, kind, idx as int),
{
    let list = sub_list_ref(info, kind);
    let n: usize = list.len();
    if n - idx > 1 {
        return SetupState::Restoring { kind, idx: idx + 1 };
    }
    let subs = match &info.pubsub_subscriptions {
        Some(subs) => subs,
        None => vstd::pervasive::unreached(),
    };
    match kind {
        PubSubSubscriptionKind::Exact => {
            if subs.pattern.len() > 0 {
                SetupState::Restoring { kind: PubSubSubscriptionKind::Pattern, idx: 0 }
            } else if subs.sharded.len() > 0 {
                SetupState::Restoring { kind: PubSubSubscriptionKind::Sharded, idx: 0 }
            } else {
                SetupState::Ready
            }
        },
        PubSubSubscriptionKind::Pattern => {
            if subs.sharded.len() > 0 {
                SetupState::Restoring { kind: PubSubSubscriptionKind::Sharded, idx: 0 }
            } else {
                SetupState::Ready
            }
        },
        PubSubSubscriptionKind::Sharded => SetupState::Ready,
    }
}

/// Builds the negotiation command.
fn make_hello_cmd(info: &RedisConnectionInfo) -> (c: Cmd)
    ensures
        c@ == spec_hello_cmd(*info),
{
    let mut c = Cmd::new(hello_name());
    c.arg_bytes(resp3_arg());
    match &info.password {
        Some(p) => {
            c.arg_bytes(auth_name());
            match &info.username {
                Some(u) => c.arg_bytes(copy_bytes(u)),
                None => c.arg_bytes(default_user_arg()),
            }
            c.arg_bytes(copy_bytes(p));
        },
        None => {},
    }
    proof {
        assert(c@.args =~= spec_hello_cmd(*info).args);
    }
    c
}

/// Builds an authenticate command; the username goes along only when
/// `with_username` asks for it and one is configured.
fn make_auth_cmd(info: &RedisConnectionInfo, with_username: bool) -> (c: Cmd)
    requires
        info.password is Some,
    ensures
        c@ == spec_auth_cmd(*info, with_username),
{
    let mut c = Cmd::new(auth_name());
    if with_username {
        match &info.username {
            Some(u) => c.arg_bytes(copy_bytes(u)),
            None => {},
        }
    }
    match &info.password {
        Some(p) => c.arg_bytes(copy_bytes(p)),
        None => vstd::pervasive::unreached(),
    }
    proof {
        assert(c@.args =~= spec_auth_cmd(*info, with_username).args);
    }
    c
}

/// Builds the database-selection command.
fn make_select_cmd(info: &RedisConnectionInfo) -> (c: Cmd)
    ensures
        c@ == spec_select_cmd(*info),
{
    let mut c = Cmd::new(select_name());
    c.arg_int(info.db);
    proof {
        assert(c@.args =~= spec_select_cmd(*info).args);
    }
    c
}

/// Builds the client-naming command.
fn make_setname_cmd(info: &RedisConnectionInfo) -> (c: Cmd)
    requires
        info.client_name is Some,
    ensures
        c@ == spec_setname_cmd(*info),
{
    let mut c = Cmd::new(client_name());
    c.arg_bytes(setname_arg());
    match &info.client_name {
        Some(n) => c.arg_bytes(copy_bytes(n)),
        None => vstd::pervasive::unreached(),
    }
    proof {
        assert(c@.args =~= spec_setname_cmd(*info).args);
    }
    c
}

/// Builds the introspection command.
fn make_info_cmd() -> (c: Cmd)
    ensures
        c@ == spec_info_cmd(),
{
    let c = Cmd::new(info_name());
    proof {
        assert(c@.args =~= spec_info_cmd().args);
    }
    c
}

/// Builds a subscribe command for identifier `idx` of group `kind`.
fn make_subscribe_cmd(
    info: &RedisConnectionInfo,
    kind: PubSubSubscriptionKind,
    idx: usize,
) -> (c: Cmd)
    requires
        idx < spec_sub_list(*info, kind).len(),
    ensures
        c@ == spec_subscribe_cmd(*info, kind, idx as int),
{
    proof {
        assert(info.pubsub_subscriptions is Some);
    }
    let list = sub_list_ref(info, kind);
    let name = match kind {
        PubSubSubscriptionKind::Exact => subscribe_name(),
        PubSubSubscriptionKind::Pattern => psubscribe_name(),
        PubSubSubscriptionKind::Sharded => ssubscribe_name(),
    };
    let mut c = Cmd::new(name);
    c.arg_bytes(copy_bytes(&list[idx]));
    proof {
        assert(c@.args =~= spec_subscribe_cmd(*info, kind, idx as int).args);
    }
    c
}

/// Builds the fixed best-effort metadata batch.
pub fn client_set_info_pipeline() -> (p: Pipeline)
    ensures
        p@ == spec_metadata_batch(),
{
    let mut first = Cmd::new(client_name());
    first.arg_bytes(setinfo_arg());
    first.arg_bytes(lib_name_arg());
    first.arg_bytes(lib_name_value_arg());
    let mut second = Cmd::new(client_name());
    second.arg_bytes(setinfo_arg());
    second.arg_bytes(lib_ver_arg());
    second.arg_bytes(lib_ver_value_arg());
    proof {
        assert(first@.args =~= spec_metadata_batch()[0].args);
        assert(second@.args =~= spec_metadata_batch()[1].args);
    }
    let mut commands: Vec<Cmd> = Vec::new();
    commands.push(first);
    commands.push(second);
    let p = Pipeline { commands };
    proof {
        assert(p@ =~= spec_metadata_batch());
    }
    p
}

/// What one introspection reply decides, exactly: a textual payload is a
/// success carrying the zone it names (`None` when the field is absent —
/// that is not an error); any other value is a locality-discovery failure
/// with no cause to carry; a dispatch error is one carrying that error
/// unmodified.
pub fn discovery_outcome(reply: Result<Value, RedisError>) -> (r: Result<
    Option<Vec<u8>>,
    SetupError,
>)
    ensures
        reply matches Ok(v) && (v is BulkString || v is SimpleString) ==> (r matches Ok(az)
            && opt_bytes(az) == spec_step_az(SetupState::DiscoveringAz, reply)),
        reply matches Ok(v) && !(v is BulkString) && !(v is SimpleString) ==> r == Err::<
            Option<Vec<u8>>,
            SetupError,
        >(SetupError::LocalityDiscovery(None)),
        reply matches Err(e) ==> r == Err::<Option<Vec<u8>>, SetupError>(
            SetupError::LocalityDiscovery(Some(e)),
        ),
{
    match reply {
        Ok(Value::BulkString(text)) => Ok(info_az(&text)),
        Ok(Value::SimpleString(text)) => Ok(info_az(&text)),
        Ok(_) => Err(SetupError::LocalityDiscovery(None)),
        Err(e) => Err(SetupError::LocalityDiscovery(Some(e))),
    }
}

/// Issues the introspection command through `con` and stores the
/// availability zone its reply names, if any, on the handle. The reply is
/// judged by [`discovery_outcome`]: a dispatch failure or a wrongly shaped
/// reply is a locality-discovery error; a missing field is not an error
/// and stores nothing.
pub fn update_az_from_info<C: ConnectionLike>(con: &mut C) -> (r: Result<(), SetupError>)
    ensures
        r matches Err(e) ==> e is LocalityDiscovery,
{
    let c = make_info_cmd();
    let reply = con.req_packed_command(&c);
    match discovery_outcome(reply) {
        Ok(Some(az)) => {
            con.set_az(Some(az));
            Ok(())
        },
        Ok(None) => Ok(()),
        Err(e) => Err(e),
    }
}

/// A configuration in which no dispatcher reply decides anything: the
/// legacy protocol skips negotiation, no password skips authentication,
/// the default database skips selection, no name skips naming, and no
/// discovery skips introspection. Only the ignored metadata batch is
/// dispatched, so setup is owed success.
pub open spec fn spec_no_decisions(info: RedisConnectionInfo, discover_az: bool) -> bool {
    &&& info.protocol is RESP2
    &&& info.password is None
    &&& info.db == 0
    &&& info.client_name is None
    &&& !discover_az
}

/// Which configurations can produce each classified failure: an error only
/// ever comes from a step the configuration enables.
pub open spec fn spec_error_fits(
    e: SetupError,
    info: RedisConnectionInfo,
    discover_az: bool,
) -> bool {
    &&& (e is VersionNotSupported || e is Negotiation) ==> !(info.protocol is RESP2)
    &&& e is Authentication ==> info.protocol is RESP2 && info.password is Some
    &&& e is DatabaseSwitchRefused ==> info.db != 0
    &&& e is ClientNameRefused ==> info.client_name is Some
    &&& e is LocalityDiscovery ==> discover_az
    &&& e matches SetupError::Restoration(kind) ==> info.protocol is RESP3 && spec_sub_list(
        info,
        kind,
    ).len() > 0
}

/// Runs the whole handshake over `con`: negotiation or legacy
/// authentication, database selection, client naming, locality discovery
/// when `discover_az` asks for it, the best-effort metadata batch, and
/// subscription restoration — in that order, stopping at the first fatal
/// failure. Every decision is the machine's; this driver only dispatches
/// commands, applies zone updates to the handle, and feeds replies back.
/// Where no reply decides anything, success is owed; a failure is always
/// one the configuration enables.
pub fn setup_connection<C: ConnectionLike>(
    connection_info: &RedisConnectionInfo,
    con: &mut C,
    discover_az: bool,
) -> (r: Result<(), SetupError>)
    requires
        connection_info.wf(),
    ensures
        spec_no_decisions(*connection_info, discover_az) ==> r == Ok::<(), SetupError>(()),
        r matches Err(e) ==> spec_error_fits(e, *connection_info, discover_az),
{
    let mut m = SetupMachine::start(connection_info, discover_az);
    loop
        invariant
            m.wf(*connection_info),
            m.discover_az == discover_az,
            m.state is Negotiating ==> !(connection_info.protocol is RESP2),
            (m.state is AuthInitial || m.state is AuthRetry) ==> connection_info.protocol
                is RESP2,
            m.state is SelectingDb ==> connection_info.db != 0,
            m.state is DiscoveringAz ==> discover_az,
            m.state is Restoring ==> connection_info.protocol is RESP3,
            m.state matches SetupState::Failed(e) ==> spec_error_fits(
                e,
                *connection_info,
                discover_az,
            ),
            spec_no_decisions(*connection_info, discover_az) ==> (m.state is SendingMetadata
                || m.state is Ready),
        decreases state_rank(m.state, *connection_info),
    {
        if m.is_terminal() {
            return m.finish();
        }
        match m.take_az_update() {
            Some(az) => con.set_az(Some(az)),
            None => {},
        }
        let ghost pre = m.state;
        let d = m.next_dispatch(connection_info);
        match d {
            Dispatch::Command(c) => {
                let reply = con.req_packed_command(&c);
                m.on_reply(connection_info, reply);
                proof {
                    lemma_step_decreases(pre, *connection_info, m.discover_az, reply);
                }
            },
            Dispatch::Batch(p) => {
                let count: usize = p.commands.len();
                let _ignored = con.req_packed_commands(&p, 0, count, None);
                m.on_batch_reply(connection_info);
                proof {
                    lemma_step_decreases(
                        pre,
                        *connection_info,
                        m.discover_az,
                        Result::Ok(Value::Nil),
                    );
                }
            },
        }
    }
}

} // verus!
