//! Plain values exchanged between the harness, its handlers and test code.

use vstd::prelude::*;

verus! {

/// A unique integer identifier of an account. Zero is the null account.
#[derive(Clone, Copy, Debug, PartialEq, Eq, Structural)]
pub struct AccountId {
    pub id: u64,
}

/// The id of the account that the harness acts as when it creates client accounts.
pub const ROOT_ACCOUNT_ID: u64 = 1;

/// The gas limit that stands for an unrestricted budget.
pub const UNLIMITED_GAS: u64 = 0;

impl AccountId {
    pub fn new(id: u64) -> (r: AccountId)
        ensures
            r.id == id,
    {
        AccountId { id }
    }

    /// The root account.
    pub fn root() -> (r: AccountId)
        ensures
            r.id == ROOT_ACCOUNT_ID,
    {
        AccountId { id: ROOT_ACCOUNT_ID }
    }

    pub fn is_empty(&self) -> (r: bool)
        ensures
            r == (self.id == 0),
    {
        self.id == 0
    }
}

/// Error codes that the runtime itself raises or that handlers use to signal
/// well-known conditions.
#[derive(Clone, Copy, Debug, PartialEq, Eq, Structural)]
pub enum SystemCode {
    FatalExecutionError,
    AccountNotFound,
    HandlerNotFound,
    UnauthorizedCallerAccess,
    InvalidHandler,
    HandlerAlreadyRegistered,
    IdentifiersExhausted,
    Other,
    MessageNotHandled,
    EncodingError,
    OutOfGas,
}

/// The error half of every handler and runtime result.
#[derive(Clone, Copy, Debug, PartialEq, Eq, Structural)]
pub enum ErrorCode {
    SystemCode(SystemCode),
    HandlerCode(u8),
}

/// The sentinel with which a handler declines a message.
pub open spec fn is_not_handled(r: Result<(), ErrorCode>) -> bool {
    r == Err::<(), ErrorCode>(ErrorCode::SystemCode(SystemCode::MessageNotHandled))
}

pub fn not_handled() -> (r: Result<(), ErrorCode>)
    ensures
        is_not_handled(r),
{
    Err(ErrorCode::SystemCode(SystemCode::MessageNotHandled))
}

pub fn check_not_handled(r: &Result<(), ErrorCode>) -> (b: bool)
    ensures
        b == is_not_handled(*r),
{
    match r {
        Err(ErrorCode::SystemCode(SystemCode::MessageNotHandled)) => true,
        _ => false,
    }
}

/// Raised when a handler instance cannot be constructed.
#[derive(Clone, Copy, Debug, PartialEq, Eq, Structural)]
pub enum InitializationError {
    Other,
}

/// The resources from which a handler instance is built; the harness always
/// hands out an empty scope.
#[derive(Clone, Debug)]
pub struct ResourceScope {
    /// The prefix of all state objects under this scope.
    pub state_scope: Vec<u8>,
}

impl ResourceScope {
    pub fn empty() -> (r: ResourceScope)
        ensures
            r.state_scope@.len() == 0,
    {
        ResourceScope { state_scope: Vec::new() }
    }
}

/// The caller, target and budget under which one message is executed.
#[derive(Clone, Copy, Debug, PartialEq, Eq, Structural)]
pub struct Context {
    pub account: AccountId,
    pub caller: AccountId,
    pub gas_limit: u64,
}

/// A message addressed to an account: its header, its selector, an opaque
/// input payload and the output that the handling account writes.
#[derive(Clone, Debug)]
pub struct MessagePacket {
    pub target: AccountId,
    pub caller: AccountId,
    pub selector: u64,
    pub input: Vec<u8>,
    pub output: Vec<u8>,
}

impl MessagePacket {
    pub fn new(ctx: &Context, target: AccountId, selector: u64, input: Vec<u8>) -> (r: MessagePacket)
        ensures
            r.target == target,
            r.caller == ctx.account,
            r.selector == selector,
            r.input@ == input@,
            r.output@.len() == 0,
    {
        MessagePacket { target, caller: ctx.account, selector, input, output: Vec::new() }
    }
}

} // verus!
