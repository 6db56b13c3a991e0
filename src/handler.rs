//! What a handler is: code that processes messages addressed to an account.

use vstd::prelude::*;
use crate::types::{not_handled, is_not_handled, ErrorCode, InitializationError, MessagePacket, ResourceScope};

verus! {

/// Processes one message and returns success or a structured error. A handler
/// that declines a message returns `ErrorCode::SystemCode(MessageNotHandled)`.
pub trait RawHandler {
    fn handle(&self, message: &mut MessagePacket) -> Result<(), ErrorCode>;
}

/// A handler type that can be registered by name and built from a resource
/// scope.
pub trait Handler: RawHandler + Sized {
    /// The name under which instances of this type are registered.
    fn handler_name() -> String;

    /// Builds a fresh instance.
    fn new(scope: &ResourceScope) -> Result<Self, InitializationError>;
}

/// The name of the built-in handler that backs plain client accounts.
pub fn default_account_name() -> (r: String)
    ensures
        r@ == default_account_name_spec(),
{
    String::from_str("ixc_testing.DefaultAccount")
}

pub open spec fn default_account_name_spec() -> Seq<char> {
    "ixc_testing.DefaultAccount"@
}

/// The built-in handler of client accounts. It has no routes, so it declines
/// every message.
#[derive(Clone, Copy, Debug, PartialEq, Eq, Structural)]
pub struct DefaultAccount {}

impl DefaultAccount {
    pub fn new() -> (r: DefaultAccount) {
        DefaultAccount {}
    }

    pub fn dispatch(&self, message: &mut MessagePacket) -> (r: Result<(), ErrorCode>)
        ensures
            is_not_handled(r),
            *final(message) == *old(message),
    {
        not_handled()
    }
}

impl RawHandler for DefaultAccount {
    fn handle(&self, message: &mut MessagePacket) -> Result<(), ErrorCode> {
        self.dispatch(message)
    }
}

} // verus!
