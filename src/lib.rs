//! A test harness for an account-based, message-passing runtime: handlers are
//! registered by name, accounts are bound to them, and mock handlers can be
//! composed into fallthrough chains.

pub mod handler;
pub mod harness;
pub mod mock;
pub mod naming;
pub mod registry;
pub mod types;

pub use handler::{DefaultAccount, Handler, RawHandler};


pub use harness::{AccountRecord, HandlerEntry, RegistrationError, TestApp};
pub use mock::{DispatchTrace, MockHandler};
pub use registry::HandlerRegistry;
pub use types::{
    AccountId, Context, ErrorCode, InitializationError, MessagePacket, ResourceScope, SystemCode,
};
