use std::cell::Cell;
use std::rc::Rc;

use ixc_testing::{
    AccountId, Context, ErrorCode, Handler, HandlerRegistry, InitializationError, MessagePacket,
    MockHandler, RawHandler, RegistrationError, ResourceScope, SystemCode, TestApp,
};

const COUNTER_NAME: &str = "test.Counter";

/// A handler for tests: a counter that counts the messages it handles, and
/// mock candidates that log each call in a shared cell.
enum TestHandler {
    Counter(Cell<u64>),
    Decline(Rc<Cell<u32>>),
    Accept(Rc<Cell<u32>>),
    Fail(Rc<Cell<u32>>, u8),
}

impl RawHandler for TestHandler {
    fn handle(&self, message: &mut MessagePacket) -> Result<(), ErrorCode> {
        match self {
            TestHandler::Counter(c) => {
                c.set(c.get() + 1);
                message.output = c.get().to_le_bytes().to_vec();
                Ok(())
            }
            TestHandler::Decline(log) => {
                log.set(log.get() + 1);
                Err(ErrorCode::SystemCode(SystemCode::MessageNotHandled))
            }
            TestHandler::Accept(log) => {
                log.set(log.get() + 1);
                message.output = vec![7];
                Ok(())
            }
            TestHandler::Fail(log, code) => {
                log.set(log.get() + 1);
                Err(ErrorCode::HandlerCode(*code))
            }
        }
    }
}

impl Handler for TestHandler {
    fn handler_name() -> String {
        COUNTER_NAME.to_string()
    }

    fn new(_scope: &ResourceScope) -> Result<Self, InitializationError> {
        Ok(TestHandler::Counter(Cell::new(0)))
    }
}

/// A handler type whose construction always fails.
struct Broken;

impl RawHandler for Broken {
    fn handle(&self, _message: &mut MessagePacket) -> Result<(), ErrorCode> {
        Ok(())
    }
}

impl Handler for Broken {
    fn handler_name() -> String {
        "test.Broken".to_string()
    }

    fn new(_scope: &ResourceScope) -> Result<Self, InitializationError> {
        Err(InitializationError::Other)
    }
}

fn message_to(ctx: &Context, target: AccountId) -> MessagePacket {
    MessagePacket::new(ctx, target, 42, vec![1, 2, 3])
}

fn not_handled() -> Result<(), ErrorCode> {
    Err(ErrorCode::SystemCode(SystemCode::MessageNotHandled))
}

#[test]
fn mock_chain_second_candidate_answers_after_one_decline() {
    let mut app: TestApp<TestHandler> = TestApp::new();
    assert_eq!(app.register_handler(), Ok(()));
    let ctx = app.new_client_context().unwrap();
    let log = Rc::new(Cell::new(0u32));
    let mut mock = MockHandler::new();
    mock.add_handler(TestHandler::Decline(log.clone()));
    mock.add_handler(TestHandler::Accept(log.clone()));
    let account = app.add_mock(&ctx, mock).unwrap();
    let mut msg = message_to(&ctx, account);
    assert_eq!(app.invoke(&mut msg), Ok(()));
    assert_eq!(log.get(), 2);
    assert_eq!(msg.output, vec![7]);
}

#[test]
fn mock_chain_stops_at_the_only_acceptor() {
    let declined = Rc::new(Cell::new(0u32));
    let accepted = Rc::new(Cell::new(0u32));
    let after = Rc::new(Cell::new(0u32));
    let mut mock = MockHandler::new();
    mock.add_handler(TestHandler::Decline(declined.clone()));
    mock.add_handler(TestHandler::Decline(declined.clone()));
    mock.add_handler(TestHandler::Fail(accepted.clone(), 9));
    mock.add_handler(TestHandler::Accept(after.clone()));
    let ctx = Context { account: AccountId::new(5), caller: AccountId::new(5), gas_limit: 0 };
    let mut msg = message_to(&ctx, AccountId::new(5));
    let trace = mock.handle_traced(&mut msg);
    assert_eq!(trace.result, Err(ErrorCode::HandlerCode(9)));
    assert_eq!(trace.responses.len(), 3);
    assert_eq!(trace.responses[0], not_handled());
    assert_eq!(trace.responses[1], not_handled());
    assert_eq!(trace.responses[2], Err(ErrorCode::HandlerCode(9)));
    assert_eq!(declined.get(), 2);
    assert_eq!(accepted.get(), 1);
    assert_eq!(after.get(), 0);
}

#[test]
fn mock_chain_where_all_decline_returns_not_handled() {
    let log = Rc::new(Cell::new(0u32));
    let mut mock = MockHandler::new();
    for _ in 0..3 {
        mock.add_handler(TestHandler::Decline(log.clone()));
    }
    let ctx = Context { account: AccountId::new(3), caller: AccountId::new(3), gas_limit: 0 };
    let mut msg = message_to(&ctx, AccountId::new(3));
    let trace = mock.handle_traced(&mut msg);
    assert_eq!(trace.result, not_handled());
    assert_eq!(trace.responses.len(), 3);
    assert_eq!(log.get(), 3);
    assert_eq!(mock.dispatch(&mut msg), not_handled());
    assert_eq!(log.get(), 6);
}

#[test]
fn empty_mock_chain_returns_not_handled() {
    let mock: MockHandler<TestHandler> = MockHandler::new();
    assert_eq!(mock.len(), 0);
    let ctx = Context { account: AccountId::new(3), caller: AccountId::new(3), gas_limit: 0 };
    let mut msg = message_to(&ctx, AccountId::new(3));
    let trace = mock.handle_traced(&mut msg);
    assert_eq!(trace.result, not_handled());
    assert!(trace.responses.is_empty());
    assert_eq!(mock.handle(&mut msg), not_handled());
}

#[test]
fn client_accounts_are_pairwise_distinct() {
    let mut app: TestApp<TestHandler> = TestApp::new();
    let mut ids = Vec::new();
    for _ in 0..10 {
        ids.push(app.new_client_account().unwrap());
    }
    for i in 0..ids.len() {
        assert!(ids[i] != AccountId::root());
        assert!(!ids[i].is_empty());
        for j in (i + 1)..ids.len() {
            assert_ne!(ids[i], ids[j]);
        }
    }
    assert_eq!(ids[0], AccountId::new(2));
    assert_eq!(ids[9], AccountId::new(11));
    assert_eq!(app.account_count(), 10);
}

#[test]
fn mock_names_follow_the_counter() {
    let mut app: TestApp<TestHandler> = TestApp::new();
    let ctx = app.new_client_context().unwrap();
    let a = app.add_mock(&ctx, MockHandler::new()).unwrap();
    let b = app.add_mock(&ctx, MockHandler::new()).unwrap();
    assert_ne!(a, b);
    assert!(app.is_registered(&"mock0".to_string()));
    assert!(app.is_registered(&"mock1".to_string()));
    assert!(!app.is_registered(&"mock2".to_string()));
    for _ in 0..9 {
        app.add_mock(&ctx, MockHandler::new()).unwrap();
    }
    assert!(app.is_registered(&"mock10".to_string()));
    assert!(!app.is_registered(&"mock11".to_string()));
}

#[test]
fn mock_name_taken_by_a_handler_is_refused() {
    let mut app: TestApp<TestHandler> = TestApp::new();
    let ctx = app.new_client_context().unwrap();
    assert_eq!(
        app.register_named("mock0".to_string(), TestHandler::Counter(Cell::new(0))),
        Ok(())
    );
    assert_eq!(
        app.add_mock(&ctx, MockHandler::new()),
        Err(ErrorCode::SystemCode(SystemCode::HandlerAlreadyRegistered))
    );
    assert!(app.add_mock(&ctx, MockHandler::new()).is_ok());
    assert!(app.is_registered(&"mock1".to_string()));
}

#[test]
fn client_context_calls_itself_with_unlimited_gas() {
    let app: TestApp<TestHandler> = TestApp::new();
    let ctx = app.client_context_for(AccountId::new(77));
    assert_eq!(ctx.account, AccountId::new(77));
    assert_eq!(ctx.caller, AccountId::new(77));
    assert_eq!(ctx.gas_limit, 0);
}

#[test]
fn new_client_context_names_the_new_account() {
    let mut app: TestApp<TestHandler> = TestApp::new();
    let first = app.new_client_account().unwrap();
    let ctx = app.new_client_context().unwrap();
    assert_eq!(ctx.account, ctx.caller);
    assert_ne!(ctx.account, first);
    assert_eq!(ctx.gas_limit, 0);
}

#[test]
fn registering_a_name_twice_is_refused() {
    let mut app: TestApp<TestHandler> = TestApp::new();
    assert_eq!(app.register_handler(), Ok(()));
    assert_eq!(app.register_handler(), Err(RegistrationError::AlreadyRegistered));
    let default_name = "ixc_testing.DefaultAccount".to_string();
    assert!(app.is_registered(&default_name));
    assert_eq!(
        app.register_named(default_name, TestHandler::Counter(Cell::new(0))),
        Err(RegistrationError::AlreadyRegistered)
    );
}

#[test]
fn registry_keeps_the_first_registration() {
    let mut reg: HandlerRegistry<u32> = HandlerRegistry::new();
    assert_eq!(reg.register("a".to_string(), 1), Ok(()));
    assert_eq!(
        reg.register("a".to_string(), 2),
        Err(ErrorCode::SystemCode(SystemCode::HandlerAlreadyRegistered))
    );
    assert_eq!(reg.resolve(&"a".to_string()), Ok(&1));
    assert_eq!(reg.len(), 1);
    assert_eq!(
        reg.resolve(&"b".to_string()),
        Err(ErrorCode::SystemCode(SystemCode::HandlerNotFound))
    );
}

#[test]
fn failed_construction_is_returned() {
    let mut app: TestApp<Broken> = TestApp::new();
    assert_eq!(
        app.register_handler(),
        Err(RegistrationError::Initialization(InitializationError::Other))
    );
    assert!(!app.is_registered(&"test.Broken".to_string()));
    assert_eq!(
        app.exec_in(AccountId::new(2), |_h, _ctx| 1u8),
        Err(InitializationError::Other)
    );
}

#[test]
fn exec_in_sees_a_fresh_instance() {
    let mut app: TestApp<TestHandler> = TestApp::new();
    assert_eq!(app.register_handler(), Ok(()));
    let root = app.client_context_for(AccountId::root());
    let account = app.create_account(&root, &COUNTER_NAME.to_string()).unwrap();
    let ctx = app.client_context_for(account);
    let mut msg = message_to(&ctx, account);
    assert_eq!(app.invoke(&mut msg), Ok(()));
    let mut msg = message_to(&ctx, account);
    assert_eq!(app.invoke(&mut msg), Ok(()));
    assert_eq!(msg.output, 2u64.to_le_bytes().to_vec());
    let seen = app.exec_in(account, |h, c| {
        assert_eq!(c.account, account);
        assert_eq!(c.caller, account);
        match h {
            TestHandler::Counter(n) => n.get(),
            _ => u64::MAX,
        }
    });
    assert_eq!(seen, Ok(0));
}

#[test]
fn default_account_declines_messages() {
    let mut app: TestApp<TestHandler> = TestApp::new();
    let ctx = app.new_client_context().unwrap();
    let mut msg = message_to(&ctx, ctx.account);
    assert_eq!(app.invoke(&mut msg), not_handled());
}

#[test]
fn message_to_unknown_account_is_refused() {
    let mut app: TestApp<TestHandler> = TestApp::new();
    let ctx = app.new_client_context().unwrap();
    let mut msg = message_to(&ctx, AccountId::new(999));
    assert_eq!(
        app.invoke(&mut msg),
        Err(ErrorCode::SystemCode(SystemCode::AccountNotFound))
    );
}

#[test]
fn account_for_unknown_handler_is_refused() {
    let mut app: TestApp<TestHandler> = TestApp::new();
    let root = app.client_context_for(AccountId::root());
    assert_eq!(
        app.create_account(&root, &"nobody".to_string()),
        Err(ErrorCode::SystemCode(SystemCode::HandlerNotFound))
    );
    assert_eq!(app.account_count(), 0);
}

#[test]
fn mock_error_other_than_not_handled_is_returned() {
    let mut app: TestApp<TestHandler> = TestApp::new();
    let ctx = app.new_client_context().unwrap();
    let log = Rc::new(Cell::new(0u32));
    let mut mock = MockHandler::new();
    mock.add_handler(TestHandler::Fail(log.clone(), 3));
    mock.add_handler(TestHandler::Accept(log.clone()));
    let account = app.add_mock(&ctx, mock).unwrap();
    let mut msg = message_to(&ctx, account);
    assert_eq!(app.invoke(&mut msg), Err(ErrorCode::HandlerCode(3)));
    assert_eq!(log.get(), 1);
}

#[test]
fn invoke_traced_reports_each_candidate() {
    let mut app: TestApp<TestHandler> = TestApp::new();
    let ctx = app.new_client_context().unwrap();
    let log = Rc::new(Cell::new(0u32));
    let mut mock = MockHandler::new();
    mock.add_handler(TestHandler::Decline(log.clone()));
    mock.add_handler(TestHandler::Accept(log.clone()));
    mock.add_handler(TestHandler::Accept(log.clone()));
    let account = app.add_mock(&ctx, mock).unwrap();
    let mut msg = message_to(&ctx, account);
    let trace = app.invoke_traced(&mut msg).unwrap();
    assert_eq!(trace.result, Ok(()));
    assert_eq!(trace.responses, vec![not_handled(), Ok(())]);
    assert_eq!(log.get(), 2);
}

#[test]
fn invoke_traced_on_default_and_registered_accounts() {
    let mut app: TestApp<TestHandler> = TestApp::new();
    assert_eq!(app.register_handler(), Ok(()));
    let ctx = app.new_client_context().unwrap();
    let mut msg = message_to(&ctx, ctx.account);
    let trace = app.invoke_traced(&mut msg).unwrap();
    assert_eq!(trace.result, not_handled());
    assert!(trace.responses.is_empty());
    let root = app.client_context_for(AccountId::root());
    let counter = app.create_account(&root, &COUNTER_NAME.to_string()).unwrap();
    let mut msg = message_to(&ctx, counter);
    let trace = app.invoke_traced(&mut msg).unwrap();
    assert_eq!(trace.result, Ok(()));
    assert_eq!(trace.responses, vec![Ok(())]);
    let mut msg = message_to(&ctx, AccountId::new(500));
    assert!(matches!(
        app.invoke_traced(&mut msg),
        Err(ErrorCode::SystemCode(SystemCode::AccountNotFound))
    ));
}

#[test]
fn register_constructed_passes_construction_errors_through() {
    let mut app: TestApp<TestHandler> = TestApp::new();
    assert_eq!(
        app.register_constructed("x".to_string(), Err(InitializationError::Other)),
        Err(RegistrationError::Initialization(InitializationError::Other))
    );
    assert!(!app.is_registered(&"x".to_string()));
    assert_eq!(
        app.register_constructed("x".to_string(), Ok(TestHandler::Counter(Cell::new(0)))),
        Ok(())
    );
    assert!(app.is_registered(&"x".to_string()));
    assert_eq!(
        app.register_constructed("x".to_string(), Ok(TestHandler::Counter(Cell::new(0)))),
        Err(RegistrationError::AlreadyRegistered)
    );
}

#[test]
fn exec_with_hands_over_the_built_instance() {
    let app: TestApp<TestHandler> = TestApp::new();
    let calls = Cell::new(0u32);
    let built = Ok(TestHandler::Counter(Cell::new(41)));
    let r = app.exec_with(AccountId::new(9), built, |h, c| {
        calls.set(calls.get() + 1);
        assert_eq!(c.account, AccountId::new(9));
        assert_eq!(c.caller, AccountId::new(9));
        assert_eq!(c.gas_limit, 0);
        match h {
            TestHandler::Counter(n) => n.get(),
            _ => 0,
        }
    });
    assert_eq!(r, Ok(41));
    assert_eq!(calls.get(), 1);
    let r = app.exec_with(AccountId::new(9), Err(InitializationError::Other), |_h, _c| {
        calls.set(calls.get() + 1);
        0u64
    });
    assert_eq!(r, Err(InitializationError::Other));
    assert_eq!(calls.get(), 1);
}

#[test]
fn exec_on_uses_the_given_instance() {
    let app: TestApp<TestHandler> = TestApp::new();
    let h = TestHandler::Counter(Cell::new(5));
    let r = app.exec_on(AccountId::new(4), &h, |h, c| match h {
        TestHandler::Counter(n) => n.get() + c.account.id,
        _ => 0,
    });
    assert_eq!(r, 9);
}
