//! Commands as this layer hands them to the wire encoder: a command name
//! plus an ordered argument list, and batches of such commands. The wire
//! encoding itself is the encoder collaborator's business; interop rests
//! on the exact command names and argument order pinned down here.

use vstd::prelude::*;

verus! {

/// One command argument: a byte string or an integer the encoder renders.
pub enum CmdArg {
    /// A byte-string argument.
    Bytes(Vec<u8>),
    /// An integer argument.
    Int(i64),
}

/// The mathematical model of an argument.
pub enum ArgModel {
    Bytes(Seq<u8>),
    Int(int),
}

impl View for CmdArg {
    type V = ArgModel;

    open spec fn view(&self) -> ArgModel {
        match self {
            CmdArg::Bytes(b) => ArgModel::Bytes(b@),
            CmdArg::Int(i) => ArgModel::Int(*i as int),
        }
    }
}

/// The mathematical model of a command: its name and its arguments.
pub struct CmdModel {
    pub name: Seq<u8>,
    pub args: Seq<ArgModel>,
}

/// A single command: a name and an ordered list of arguments.
pub struct Cmd {
    /// The command name (the first word on the wire).
    pub name: Vec<u8>,
    /// The arguments, in the order they go on the wire.
    pub args: Vec<CmdArg>,
}

impl View for Cmd {
    type V = CmdModel;

    open spec fn view(&self) -> CmdModel {
        CmdModel { name: self.name@, args: self.args@.map_values(|a: CmdArg| a@) }
    }
}

impl Cmd {
    /// A command with the given name and no arguments yet.
    pub fn new(name: Vec<u8>) -> (c: Cmd)
        ensures
            c@.name == name@,
            c@.args == Seq::<ArgModel>::empty(),
    {
        let c = Cmd { name, args: Vec::new() };
        proof {
            assert(c@.args =~= Seq::<ArgModel>::empty());
        }
        c
    }

    /// Appends a byte-string argument.
    pub fn arg_bytes(&mut self, a: Vec<u8>)
        ensures
            final(self)@.name == old(self)@.name,
            final(self)@.args == old(self)@.args.push(ArgModel::Bytes(a@)),
    {
        let ghost before = self@.args;
        self.args.push(CmdArg::Bytes(a));
        proof {
            assert(self@.args =~= before.push(ArgModel::Bytes(a@)));
        }
    }

    /// Appends an integer argument.
    pub fn arg_int(&mut self, a: i64)
        ensures
            final(self)@.name == old(self)@.name,
            final(self)@.args == old(self)@.args.push(ArgModel::Int(a as int)),
    {
        let ghost before = self@.args;
        self.args.push(CmdArg::Int(a));
        proof {
            assert(self@.args =~= before.push(ArgModel::Int(a as int)));
        }
    }
}

/// A batch of commands dispatched as one pipelined unit.
pub struct Pipeline {
    /// The commands, in dispatch order.
    pub commands: Vec<Cmd>,
}

impl View for Pipeline {
    type V = Seq<CmdModel>;

    open spec fn view(&self) -> Seq<CmdModel> {
        self.commands@.map_values(|c: Cmd| c@)
    }
}

/// How a dispatcher may retry a partially failed batch. The handshake
/// itself never asks for retries; the type exists because the dispatch
/// contract carries it.
#[derive(Clone, Copy, Debug, PartialEq, Eq, Structural)]
pub struct PipelineRetryStrategy {
    /// Retry commands the server answered with an error.
    pub retry_server_error: bool,
    /// Retry commands lost to a connection failure.
    pub retry_connection_error: bool,
}

// The wire names this layer relies on, pinned byte for byte.
/// "HELLO"
pub open spec fn name_hello() -> Seq<u8> {
    seq![72u8, 69u8, 76u8, 76u8, 79u8]
}

/// "AUTH"
pub open spec fn name_auth() -> Seq<u8> {
    seq![65u8, 85u8, 84u8, 72u8]
}

/// "SELECT"
pub open spec fn name_select() -> Seq<u8> {
    seq![83u8, 69u8, 76u8, 69u8, 67u8, 84u8]
}

/// "CLIENT"
pub open spec fn name_client() -> Seq<u8> {
    seq![67u8, 76u8, 73u8, 69u8, 78u8, 84u8]
}

/// "SETNAME"
pub open spec fn arg_setname() -> Seq<u8> {
    seq![83u8, 69u8, 84u8, 78u8, 65u8, 77u8, 69u8]
}

/// "SETINFO"
pub open spec fn arg_setinfo() -> Seq<u8> {
    seq![83u8, 69u8, 84u8, 73u8, 78u8, 70u8, 79u8]
}

/// "INFO"
pub open spec fn name_info() -> Seq<u8> {
    seq![73u8, 78u8, 70u8, 79u8]
}

/// "SUBSCRIBE"
pub open spec fn name_subscribe() -> Seq<u8> {
    seq![83u8, 85u8, 66u8, 83u8, 67u8, 82u8, 73u8, 66u8, 69u8]
}

/// "PSUBSCRIBE"
pub open spec fn name_psubscribe() -> Seq<u8> {
    seq![80u8, 83u8, 85u8, 66u8, 83u8, 67u8, 82u8, 73u8, 66u8, 69u8]
}

/// "SSUBSCRIBE"
pub open spec fn name_ssubscribe() -> Seq<u8> {
    seq![83u8, 83u8, 85u8, 66u8, 83u8, 67u8, 82u8, 73u8, 66u8, 69u8]
}

/// "3": the protocol version requested during negotiation.
pub open spec fn arg_resp3() -> Seq<u8> {
    seq![51u8]
}

/// "default": the username sent during negotiation when none is configured.
pub open spec fn arg_default_user() -> Seq<u8> {
    seq![100u8, 101u8, 102u8, 97u8, 117u8, 108u8, 116u8]
}

/// "LIB-NAME"
pub open spec fn arg_lib_name() -> Seq<u8> {
    seq![76u8, 73u8, 66u8, 45u8, 78u8, 65u8, 77u8, 69u8]
}

/// "LIB-VER"
pub open spec fn arg_lib_ver() -> Seq<u8> {
    seq![76u8, 73u8, 66u8, 45u8, 86u8, 69u8, 82u8]
}

/// The library name sent in the best-effort metadata step.
pub open spec fn lib_name_value() -> Seq<u8> {
    seq![114u8, 101u8, 100u8, 105u8, 115u8, 95u8, 97u8, 105u8, 111u8]
}

/// The library version sent in the best-effort metadata step.
pub open spec fn lib_ver_value() -> Seq<u8> {
    seq![48u8, 46u8, 49u8, 46u8, 48u8]
}

/// Builds "HELLO".
pub fn hello_name() -> (r: Vec<u8>)
    ensures
        r@ == name_hello(),
{
    let r = vec![72u8, 69u8, 76u8, 76u8, 79u8];
    proof {
        assert(r@ =~= name_hello());
    }
    r
}

/// Builds "AUTH".
pub fn auth_name() -> (r: Vec<u8>)
    ensures
        r@ == name_auth(),
{
    let r = vec![65u8, 85u8, 84u8, 72u8];
    proof {
        assert(r@ =~= name_auth());
    }
    r
}

/// Builds "SELECT".
pub fn select_name() -> (r: Vec<u8>)
    ensures
        r@ == name_select(),
{
    let r = vec![83u8, 69u8, 76u8, 69u8, 67u8, 84u8];
    proof {
        assert(r@ =~= name_select());
    }
    r
}

/// Builds "CLIENT".
pub fn client_name() -> (r: Vec<u8>)
    ensures
        r@ == name_client(),
{
    let r = vec![67u8, 76u8, 73u8, 69u8, 78u8, 84u8];
    proof {
        assert(r@ =~= name_client());
    }
    r
}

/// Builds "SETNAME".
pub fn setname_arg() -> (r: Vec<u8>)
    ensures
        r@ == arg_setname(),
{
    let r = vec![83u8, 69u8, 84u8, 78u8, 65u8, 77u8, 69u8];
    proof {
        assert(r@ =~= arg_setname());
    }
    r
}

/// Builds "SETINFO".
pub fn setinfo_arg() -> (r: Vec<u8>)
    ensures
        r@ == arg_setinfo(),
{
    let r = vec![83u8, 69u8, 84u8, 73u8, 78u8, 70u8, 79u8];
    proof {
        assert(r@ =~= arg_setinfo());
    }
    r
}

/// Builds "INFO".
pub fn info_name() -> (r: Vec<u8>)
    ensures
        r@ == name_info(),
{
    let r = vec![73u8, 78u8, 70u8, 79u8];
    proof {
        assert(r@ =~= name_info());
    }
    r
}

/// Builds "SUBSCRIBE".
pub fn subscribe_name() -> (r: Vec<u8>)
    ensures
        r@ == name_subscribe(),
{
    let r = vec![83u8, 85u8, 66u8, 83u8, 67u8, 82u8, 73u8, 66u8, 69u8];
    proof {
        assert(r@ =~= name_subscribe());
    }
    r
}

/// Builds "PSUBSCRIBE".
pub fn psubscribe_name() -> (r: Vec<u8>)
    ensures
        r@ == name_psubscribe(),
{
    let r = vec![80u8, 83u8, 85u8, 66u8, 83u8, 67u8, 82u8, 73u8, 66u8, 69u8];
    proof {
        assert(r@ =~= name_psubscribe());
    }
    r
}

/// Builds "SSUBSCRIBE".
pub fn ssubscribe_name() -> (r: Vec<u8>)
    ensures
        r@ == name_ssubscribe(),
{
    let r = vec![83u8, 83u8, 85u8, 66u8, 83u8, 67u8, 82u8, 73u8, 66u8, 69u8];
    proof {
        assert(r@ =~= name_ssubscribe());
    }
    r
}

/// Builds "3".
pub fn resp3_arg() -> (r: Vec<u8>)
    ensures
        r@ == arg_resp3(),
{
    let r = vec![51u8];
    proof {
        assert(r@ =~= arg_resp3());
    }
    r
}

/// Builds "default".
pub fn default_user_arg() -> (r: Vec<u8>)
    ensures
        r@ == arg_default_user(),
{
    let r = vec![100u8, 101u8, 102u8, 97u8, 117u8, 108u8, 116u8];
    proof {
        assert(r@ =~= arg_default_user());
    }
    r
}

/// Builds "LIB-NAME".
pub fn lib_name_arg() -> (r: Vec<u8>)
    ensures
        r@ == arg_lib_name(),
{
    let r = vec![76u8, 73u8, 66u8, 45u8, 78u8, 65u8, 77u8, 69u8];
    proof {
        assert(r@ =~= arg_lib_name());
    }
    r
}

/// Builds "LIB-VER".
pub fn lib_ver_arg() -> (r: Vec<u8>)
    ensures
        r@ == arg_lib_ver(),
{
    let r = vec![76u8, 73u8, 66u8, 45u8, 86u8, 69u8, 82u8];
    proof {
        assert(r@ =~= arg_lib_ver());
    }
    r
}

/// Builds the library name value.
pub fn lib_name_value_arg() -> (r: Vec<u8>)
    ensures
        r@ == lib_name_value(),
{
    let r = vec![114u8, 101u8, 100u8, 105u8, 115u8, 95u8, 97u8, 105u8, 111u8];
    proof {
        assert(r@ =~= lib_name_value());
    }
    r
}

/// Builds the library version value.
pub fn lib_ver_value_arg() -> (r: Vec<u8>)
    ensures
        r@ == lib_ver_value(),
{
    let r = vec![48u8, 46u8, 49u8, 46u8, 48u8];
    proof {
        assert(r@ =~= lib_ver_value());
    }
    r
}

} // verus!
