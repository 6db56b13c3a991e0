//! The test harness: a handler registry, the accounts bound to its handlers,
//! and the entry point through which messages reach them.

use vstd::prelude::*;
use crate::handler::{default_account_name, default_account_name_spec, DefaultAccount, Handler, RawHandler};
use crate::mock::{chain_outcome, is_chain_walk, DispatchTrace, MockHandler};
use crate::naming::{lemma_mock_names_distinct, mock_handler_name, mock_name};
use crate::registry::HandlerRegistry;
use crate::types::{
    is_not_handled, AccountId, Context, ErrorCode, InitializationError, MessagePacket,
    ResourceScope, SystemCode, ROOT_ACCOUNT_ID, UNLIMITED_GAS,
};

verus! {

/// What a registry entry of the harness holds.
pub enum HandlerEntry<H> {
    /// The built-in handler of plain client accounts.
    Default(DefaultAccount),
    /// A handler registered by the test.
    Custom(H),
    /// A chain of mock candidates.
    Mock(MockHandler<H>),
}

impl<H: RawHandler> HandlerEntry<H> {
    /// How many candidates the entry walks: none for the default handler,
    /// which declines outright, one for a registered handler, whose answer is
    /// returned as it is, and the chain's length for a mock.
    pub open spec fn candidates(&self) -> nat {
        match self {
            HandlerEntry::Default(_) => 0,
            HandlerEntry::Custom(_) => 1,
            HandlerEntry::Mock(m) => m.mocks().len(),
        }
    }

    /// Dispatches `message` and reports what each invoked candidate returned.
    pub fn dispatch_traced(&self, message: &mut MessagePacket) -> (t: DispatchTrace)
        ensures
            is_chain_walk(t.responses@, self.candidates()),
            t.result == chain_outcome(t.responses@),
    {
        match self {
            HandlerEntry::Default(d) => {
                let result = d.dispatch(message);
                let responses: Vec<Result<(), ErrorCode>> = Vec::new();
                DispatchTrace { result, responses }
            },
            HandlerEntry::Custom(h) => {
                let result = h.handle(message);
                let mut responses: Vec<Result<(), ErrorCode>> = Vec::new();
                responses.push(result);
                proof {
                    assert(responses@.last() == result);
                }
                DispatchTrace { result, responses }
            },
            HandlerEntry::Mock(m) => m.handle_traced(message),
        }
    }

    pub fn dispatch(&self, message: &mut MessagePacket) -> (r: Result<(), ErrorCode>)
        ensures
            self is Default ==> is_not_handled(r),
            self matches HandlerEntry::Mock(m) ==> exists|rs: Seq<Result<(), ErrorCode>>|
                is_chain_walk(rs, m.mocks().len()) && r == chain_outcome(rs),
    {
        match self {
            HandlerEntry::Default(d) => d.dispatch(message),
            HandlerEntry::Custom(h) => h.handle(message),
            HandlerEntry::Mock(m) => m.dispatch(message),
        }
    }
}

impl<H: RawHandler> RawHandler for HandlerEntry<H> {
    fn handle(&self, message: &mut MessagePacket) -> Result<(), ErrorCode> {
        self.dispatch(message)
    }
}

/// An account: its identity, the registry position of its handler, and the
/// account on whose behalf it was created.
#[derive(Clone, Copy, Debug, PartialEq, Eq, Structural)]
pub struct AccountRecord {
    pub id: AccountId,
    pub handler: usize,
    pub creator: AccountId,
}

/// Why a handler type could not be registered.
#[derive(Clone, Copy, Debug, PartialEq, Eq, Structural)]
pub enum RegistrationError {
    /// Building the handler instance failed.
    Initialization(InitializationError),
    /// The name is bound already; the first registration is kept.
    AlreadyRegistered,
}

/// The context in which `account` calls itself with an unrestricted budget.
pub open spec fn client_context(account: AccountId) -> Context {
    Context { account, caller: account, gas_limit: UNLIMITED_GAS }
}

/// Defines a test harness for running tests against account and handler
/// implementations.
pub struct TestApp<H> {
    registry: HandlerRegistry<HandlerEntry<H>>,
    accounts: Vec<AccountRecord>,
    next_account: u64,
    mock_id: u64,
}

impl<H: RawHandler> TestApp<H> {
    pub closed spec fn registry(&self) -> HandlerRegistry<HandlerEntry<H>> {
        self.registry
    }

    /// The accounts, in creation order.
    pub closed spec fn accounts(&self) -> Seq<AccountRecord> {
        self.accounts@
    }

    /// The identity that the next created account gets.
    pub closed spec fn next_account(&self) -> nat {
        self.next_account as nat
    }

    /// The counter from which the next mock name is made.
    pub closed spec fn mock_counter(&self) -> nat {
        self.mock_id as nat
    }

    pub open spec fn account_ids(&self) -> Seq<AccountId> {
        self.accounts().map_values(|a: AccountRecord| a.id)
    }

    pub open spec fn has_account(&self, id: AccountId) -> bool {
        exists|i: int| 0 <= i < self.accounts().len() && self.accounts()[i].id == id
    }

    /// The registry entry that backs account `id`, if `id` is an account.
    pub open spec fn handler_of(&self, id: AccountId) -> Option<HandlerEntry<H>> {
        if self.has_account(id) {
            let i = choose|i: int| 0 <= i < self.accounts().len() && self.accounts()[i].id == id;
            Some(self.registry().handlers()[self.accounts()[i].handler as int])
        } else {
            None
        }
    }

    pub open spec fn wf(&self) -> bool {
        &&& self.registry().wf()
        &&& self.registry().names().len() >= 1
        &&& self.registry().names()[0] == default_account_name_spec()
        &&& self.registry().handlers()[0] is Default
        &&& ROOT_ACCOUNT_ID < self.next_account() <= u64::MAX
        &&& self.mock_counter() <= u64::MAX
        &&& forall|i: int| 0 <= i < self.accounts().len() ==>
            (#[trigger] self.accounts()[i]).handler < self.registry().names().len()
                && ROOT_ACCOUNT_ID < self.accounts()[i].id.id < self.next_account()
        &&& forall|i: int, j: int| 0 <= i < j < self.accounts().len() ==>
            (#[trigger] self.accounts()[i]).id != (#[trigger] self.accounts()[j]).id
    }

    /// A harness whose registry holds only the built-in default account
    /// handler, with no accounts and no mocks.
    pub fn new() -> (r: TestApp<H>)
        ensures
            r.wf(),
            r.registry().names() == seq![default_account_name_spec()],
            r.accounts().len() == 0,
            r.next_account() == ROOT_ACCOUNT_ID + 1,
            r.mock_counter() == 0,
    {
        let mut registry = HandlerRegistry::new();
        registry.register(default_account_name(), HandlerEntry::Default(DefaultAccount::new()));
        proof {
            assert(registry.names() =~= seq![default_account_name_spec()]);
        }
        TestApp { registry, accounts: Vec::new(), next_account: ROOT_ACCOUNT_ID + 1, mock_id: 0 }
    }

    /// Binds `name` to `handler` in the registry; a name that is bound already
    /// is refused and the first registration stays.
    pub fn register_named(&mut self, name: String, handler: H) -> (r: Result<(), RegistrationError>)
        requires
            old(self).wf(),
        ensures
            final(self).wf(),
            r is Err <==> old(self).registry().contains(name@),
            r is Err ==> r == Err::<(), RegistrationError>(RegistrationError::AlreadyRegistered)
                && final(self).registry().names() == old(self).registry().names()
                && final(self).registry().handlers() == old(self).registry().handlers(),
            r is Ok ==> final(self).registry().names() == old(self).registry().names().push(name@)
                && final(self).registry().handlers()
                    == old(self).registry().handlers().push(HandlerEntry::Custom(handler)),
            final(self).accounts() == old(self).accounts(),
            final(self).next_account() == old(self).next_account(),
            final(self).mock_counter() == old(self).mock_counter(),
    {
        let res = self.registry.register(name, HandlerEntry::Custom(handler));
        proof {
            assert(self.registry().names()[0] == old(self).registry().names()[0]);
            assert(self.registry().handlers()[0] == old(self).registry().handlers()[0]);
            assert(self.accounts() == old(self).accounts());
            assert(self.registry().names().len() >= old(self).registry().names().len());
            assert forall|i: int| 0 <= i < self.accounts().len() implies
                (#[trigger] self.accounts()[i]).handler < self.registry().names().len() by {
                assert(old(self).accounts()[i].handler < old(self).registry().names().len());
            }
        }
        match res {
            Ok(()) => Ok(()),
            Err(_) => Err(RegistrationError::AlreadyRegistered),
        }
    }

    /// The context in which `account_id` calls itself with an unrestricted
    /// budget.
    pub fn client_context_for(&self, account_id: AccountId) -> (r: Context)
        ensures
            r == client_context(account_id),
            r.account == account_id,
            r.caller == account_id,
            r.gas_limit == UNLIMITED_GAS,
    {
        Context { account: account_id, caller: account_id, gas_limit: UNLIMITED_GAS }
    }

    /// Whether a handler is registered under `name`.
    pub fn is_registered(&self, name: &String) -> (r: bool)
        requires
            self.wf(),
        ensures
            r == self.registry().contains(name@),
    {
        self.registry.position(name).is_some()
    }

    /// The number of accounts created so far.
    pub fn account_count(&self) -> (r: usize)
        ensures
            r == self.accounts().len(),
    {
        self.accounts.len()
    }

    /// The position of account `id` among the accounts, if it is one.
    fn find_account(&self, id: AccountId) -> (r: Option<usize>)
        requires
            self.wf(),
        ensures
            r is None <==> !self.has_account(id),
            r matches Some(i) ==> i < self.accounts().len() && self.accounts()[i as int].id == id,
    {
        let mut i: usize = 0;
        while i < self.accounts.len()
            invariant
                i <= self.accounts@.len(),
                forall|j: int| 0 <= j < i ==> (#[trigger] self.accounts@[j]).id != id,
            decreases self.accounts@.len() - i,
        {
            if self.accounts[i].id == id {
                proof { assert(self.accounts()[i as int].id == id); }
                return Some(i);
            }
            i = i + 1;
        }
        None
    }

    /// Creates an account bound to the handler registered under `name`, on
    /// behalf of `ctx`'s account.
    pub fn create_account(&mut self, ctx: &Context, name: &String) -> (r: Result<AccountId, ErrorCode>)
        requires
            old(self).wf(),
        ensures
            final(self).wf(),
            !old(self).registry().contains(name@) ==> r == Err::<AccountId, ErrorCode>(
                ErrorCode::SystemCode(SystemCode::HandlerNotFound)),
            old(self).registry().contains(name@) && old(self).next_account() == u64::MAX
                ==> r == Err::<AccountId, ErrorCode>(ErrorCode::SystemCode(SystemCode::IdentifiersExhausted)),
            old(self).registry().contains(name@) && old(self).next_account() < u64::MAX ==> r is Ok,
            r is Err ==> final(self).accounts() == old(self).accounts()
                && final(self).next_account() == old(self).next_account(),
            r matches Ok(id) ==> account_created(*old(self), *final(self), id)
                && final(self).registry().names()[final(self).accounts().last().handler as int] == name@
                && final(self).accounts().last().creator == ctx.account,
            final(self).registry() == old(self).registry(),
            final(self).mock_counter() == old(self).mock_counter(),
    {
        match self.registry.position(name) {
            None => Err(ErrorCode::SystemCode(SystemCode::HandlerNotFound)),
            Some(handler) => {
                if self.next_account == u64::MAX {
                    return Err(ErrorCode::SystemCode(SystemCode::IdentifiersExhausted));
                }
                let id = AccountId::new(self.next_account);
                proof {
                    if self.has_account(id) {
                        let i = choose|i: int| 0 <= i < self.accounts().len() && self.accounts()[i].id == id;
                        assert(self.accounts()[i].id.id < self.next_account());
                    }
                }
                self.accounts.push(AccountRecord { id, handler, creator: ctx.account });
                self.next_account = self.next_account + 1;
                proof {
                    let n = old(self).accounts().len();
                    assert forall|i: int| 0 <= i < self.accounts().len() implies
                        (#[trigger] self.accounts()[i]).handler < self.registry().names().len()
                            && ROOT_ACCOUNT_ID < self.accounts()[i].id.id < self.next_account() by {
                        if i < n {
                            assert(self.accounts()[i] == old(self).accounts()[i]);
                        }
                    }
                    assert forall|i: int, j: int| 0 <= i < j < self.accounts().len() implies
                        (#[trigger] self.accounts()[i]).id != (#[trigger] self.accounts()[j]).id by {
                        assert(self.accounts()[i] == old(self).accounts()[i]);
                        if j < n {
                            assert(self.accounts()[j] == old(self).accounts()[j]);
                        }
                    }
                }
                Ok(id)
            },
        }
    }

    /// Creates a plain client account, bound to the built-in default handler
    /// and created on behalf of the root account.
    pub fn new_client_account(&mut self) -> (r: Result<AccountId, ErrorCode>)
        requires
            old(self).wf(),
        ensures
            final(self).wf(),
            r is Err <==> old(self).next_account() == u64::MAX,
            r is Err ==> r == Err::<AccountId, ErrorCode>(ErrorCode::SystemCode(SystemCode::IdentifiersExhausted))
                && final(self).accounts() == old(self).accounts()
                && final(self).next_account() == old(self).next_account(),
            r matches Ok(id) ==> account_created(*old(self), *final(self), id)
                && final(self).accounts().last() == (AccountRecord {
                    id,
                    handler: 0,
                    creator: AccountId { id: ROOT_ACCOUNT_ID },
                }),
            final(self).registry() == old(self).registry(),
            final(self).mock_counter() == old(self).mock_counter(),
    {
        let ctx = self.client_context_for(AccountId::root());
        let name = default_account_name();
        proof {
            assert(self.registry().names()[0] == name@);
        }
        let r = self.create_account(&ctx, &name);
        proof {
            if r is Ok {
                let h = self.accounts().last().handler as int;
                assert(self.registry().names()[h] == self.registry().names()[0]);
            }
        }
        r
    }

    /// Registers `mock` under a fresh name made from the mock counter and
    /// creates an account bound to it on behalf of `ctx`'s account. The counter
    /// moves on even when a later step fails; the registration stays in place
    /// when only the account creation fails.
    pub fn add_mock(&mut self, ctx: &Context, mock: MockHandler<H>) -> (r: Result<AccountId, ErrorCode>)
        requires
            old(self).wf(),
        ensures
            final(self).wf(),
            old(self).mock_counter() == u64::MAX ==> r == Err::<AccountId, ErrorCode>(
                ErrorCode::SystemCode(SystemCode::IdentifiersExhausted))
                && final(self).registry() == old(self).registry()
                && final(self).mock_counter() == old(self).mock_counter(),
            old(self).mock_counter() < u64::MAX ==> final(self).mock_counter() == old(self).mock_counter() + 1,
            old(self).mock_counter() < u64::MAX && old(self).registry().contains(mock_name(old(self).mock_counter()))
                ==> r == Err::<AccountId, ErrorCode>(ErrorCode::SystemCode(SystemCode::HandlerAlreadyRegistered))
                && final(self).registry().names() == old(self).registry().names()
                && final(self).registry().handlers() == old(self).registry().handlers(),
            old(self).mock_counter() < u64::MAX && !old(self).registry().contains(mock_name(old(self).mock_counter()))
                ==> mock_registered(*old(self), *final(self))
                && final(self).registry().handlers() == old(self).registry().handlers().push(HandlerEntry::Mock(mock)),
            old(self).mock_counter() < u64::MAX && !old(self).registry().contains(mock_name(old(self).mock_counter()))
                && old(self).next_account() == u64::MAX ==> r == Err::<AccountId, ErrorCode>(
                ErrorCode::SystemCode(SystemCode::IdentifiersExhausted)),
            old(self).mock_counter() < u64::MAX && !old(self).registry().contains(mock_name(old(self).mock_counter()))
                && old(self).next_account() < u64::MAX ==> r is Ok,
            r is Err ==> final(self).accounts() == old(self).accounts()
                && final(self).next_account() == old(self).next_account(),
            r matches Ok(id) ==> account_created(*old(self), *final(self), id)
                && final(self).accounts().last().handler == old(self).registry().names().len()
                && final(self).accounts().last().creator == ctx.account,
    {
        if self.mock_id == u64::MAX {
            return Err(ErrorCode::SystemCode(SystemCode::IdentifiersExhausted));
        }
        let name = mock_handler_name(self.mock_id);
        self.mock_id = self.mock_id + 1;
        let ghost before = self.registry;
        proof {
            assert(before == old(self).registry());
            assert(name@ == mock_name(old(self).mock_counter()));
        }
        let res = self.registry.register(name.clone(), HandlerEntry::Mock(mock));
        proof {
            assert(self.registry().names()[0] == old(self).registry().names()[0]);
            assert(self.registry().handlers()[0] == old(self).registry().handlers()[0]);
            assert forall|i: int| 0 <= i < self.accounts().len() implies
                (#[trigger] self.accounts()[i]).handler < self.registry().names().len() by {
                assert(old(self).accounts()[i].handler < old(self).registry().names().len());
            }
        }
        match res {
            Err(e) => {
                proof {
                    assert(before.contains(name@));
                }
                Err(e)
            },
            Ok(()) => {
                proof {
                    let last = self.registry().names().len() - 1;
                    assert(self.registry().names()[last] == name@);
                    assert(self.registry().contains(name@));
                }
                let r = self.create_account(ctx, &name);
                proof {
                    if r is Ok {
                        let h = self.accounts().last().handler as int;
                        assert(self.registry().names()[h] == name@);
                    }
                }
                r
            },
        }
    }

    /// Delivers `message` to the handler of its target account and reports
    /// what each candidate that the handler walked returned.
    pub fn invoke_traced(&self, message: &mut MessagePacket) -> (r: Result<DispatchTrace, ErrorCode>)
        requires
            self.wf(),
        ensures
            r is Err <==> !self.has_account(old(message).target),
            r is Err ==> r == Err::<DispatchTrace, ErrorCode>(ErrorCode::SystemCode(SystemCode::AccountNotFound)),
            r matches Ok(t) ==> self.handler_of(old(message).target) matches Some(e)
                && is_chain_walk(t.responses@, e.candidates())
                && t.result == chain_outcome(t.responses@),
    {
        match self.find_account(message.target) {
            None => Err(ErrorCode::SystemCode(SystemCode::AccountNotFound)),
            Some(i) => {
                let entry = self.registry.handler_at(self.accounts[i].handler);
                proof {
                    let id = old(message).target;
                    let j = choose|j: int| 0 <= j < self.accounts().len() && self.accounts()[j].id == id;
                    if j != i as int {
                        if j < i as int {
                            assert(self.accounts()[j].id != self.accounts()[i as int].id);
                        } else {
                            assert(self.accounts()[i as int].id != self.accounts()[j].id);
                        }
                    }
                    assert(self.handler_of(id) == Some(*entry));
                }
                Ok(entry.dispatch_traced(message))
            },
        }
    }

    /// Delivers `message` to the handler of its target account and returns
    /// what that handler returns.
    pub fn invoke(&self, message: &mut MessagePacket) -> (r: Result<(), ErrorCode>)
        requires
            self.wf(),
        ensures
            !self.has_account(old(message).target) ==> r == Err::<(), ErrorCode>(
                ErrorCode::SystemCode(SystemCode::AccountNotFound)),
            self.handler_of(old(message).target) matches Some(e) ==> exists|rs: Seq<Result<(), ErrorCode>>|
                is_chain_walk(rs, e.candidates()) && r == chain_outcome(rs),
    {
        match self.invoke_traced(message) {
            Ok(t) => {
                proof {
                    assert(is_chain_walk(t.responses@, self.handler_of(old(message).target)->Some_0.candidates()));
                }
                t.result
            },
            Err(e) => Err(e),
        }
    }

    /// Registers the outcome `built` of constructing a handler under `name`:
    /// a failed construction is returned as `Initialization` with its error
    /// and nothing is registered; otherwise as `register_named`.
    pub fn register_constructed(&mut self, name: String, built: Result<H, InitializationError>) -> (r: Result<(), RegistrationError>)
        requires
            old(self).wf(),
        ensures
            final(self).wf(),
            built matches Err(e) ==> r == Err::<(), RegistrationError>(RegistrationError::Initialization(e))
                && final(self).registry().names() == old(self).registry().names()
                && final(self).registry().handlers() == old(self).registry().handlers(),
            built is Ok && old(self).registry().contains(name@)
                ==> r == Err::<(), RegistrationError>(RegistrationError::AlreadyRegistered)
                && final(self).registry().names() == old(self).registry().names()
                && final(self).registry().handlers() == old(self).registry().handlers(),
            built is Ok && !old(self).registry().contains(name@) ==> r is Ok
                && final(self).registry().names() == old(self).registry().names().push(name@)
                && final(self).registry().handlers()
                    == old(self).registry().handlers().push(HandlerEntry::Custom(built->Ok_0)),
            final(self).accounts() == old(self).accounts(),
            final(self).next_account() == old(self).next_account(),
            final(self).mock_counter() == old(self).mock_counter(),
    {
        match built {
            Err(e) => Err(RegistrationError::Initialization(e)),
            Ok(h) => self.register_named(name, h),
        }
    }

    /// Calls `f` with the handler instance `h` and the context in which
    /// `client` calls itself, and returns what `f` returns.
    pub fn exec_on<F, R>(&self, client: AccountId, h: &H, f: F) -> (r: R)
        where
            F: FnOnce(&H, &Context) -> R,
        requires
            f.requires((h, &client_context(client))),
        ensures
            f.ensures((h, &client_context(client)), r),
    {
        let ctx = self.client_context_for(client);
        f(h, &ctx)
    }

    /// Runs `f` on the outcome `built` of constructing a handler: a failed
    /// construction is returned as it came and `f` is not called; otherwise
    /// `f` gets the constructed instance, as `exec_on` gives it.
    pub fn exec_with<F, R>(&self, client: AccountId, built: Result<H, InitializationError>, f: F) -> (r: Result<R, InitializationError>)
        where
            F: FnOnce(&H, &Context) -> R,
        requires
            built is Ok ==> f.requires((&built->Ok_0, &client_context(client))),
        ensures
            built matches Err(e) ==> r == Err::<R, InitializationError>(e),
            built is Ok ==> r is Ok && f.ensures((&built->Ok_0, &client_context(client)), r->Ok_0),
    {
        match built {
            Err(e) => Err(e),
            Ok(h) => Ok(self.exec_on(client, &h, f)),
        }
    }

    /// Creates a plain client account and the context in which it calls
    /// itself.
    pub fn new_client_context(&mut self) -> (r: Result<Context, ErrorCode>)
        requires
            old(self).wf(),
        ensures
            final(self).wf(),
            r is Err <==> old(self).next_account() == u64::MAX,
            r is Err ==> r == Err::<Context, ErrorCode>(ErrorCode::SystemCode(SystemCode::IdentifiersExhausted))
                && final(self).accounts() == old(self).accounts(),
            r matches Ok(ctx) ==> account_created(*old(self), *final(self), ctx.account)
                && ctx == client_context(ctx.account)
                && final(self).accounts().last().handler == 0,
            final(self).registry() == old(self).registry(),
            final(self).mock_counter() == old(self).mock_counter(),
    {
        match self.new_client_account() {
            Ok(id) => Ok(self.client_context_for(id)),
            Err(e) => Err(e),
        }
    }
}


impl<H: RawHandler> Default for TestApp<H> {
    fn default() -> (r: TestApp<H>)
        ensures
            r.wf(),
            r.registry().names() == seq![default_account_name_spec()],
            r.accounts().len() == 0,
            r.mock_counter() == 0,
    {
        TestApp::new()
    }
}

impl<H: Handler> TestApp<H> {
    /// Builds an instance of `H` from an empty resource scope and registers it
    /// under `H`'s name. A failed construction is returned as it came; a name
    /// that is bound already is refused and the first registration stays.
    pub fn register_handler(&mut self) -> (r: Result<(), RegistrationError>)
        requires
            old(self).wf(),
        ensures
            final(self).wf(),
            r is Err ==> final(self).registry().names() == old(self).registry().names()
                && final(self).registry().handlers() == old(self).registry().handlers(),
            r is Ok ==> exists|name: Seq<char>, h: H|
                !old(self).registry().contains(name)
                && final(self).registry().names() == old(self).registry().names().push(name)
                && final(self).registry().handlers() == old(self).registry().handlers().push(HandlerEntry::Custom(h)),
            final(self).accounts() == old(self).accounts(),
            final(self).next_account() == old(self).next_account(),
            final(self).mock_counter() == old(self).mock_counter(),
    {
        let scope = ResourceScope::empty();
        let built = H::new(&scope);
        let name = H::handler_name();
        let ghost n = name@;
        let r = self.register_constructed(name, built);
        proof {
            if r is Ok {
                let h = built->Ok_0;
                assert(!old(self).registry().contains(n));
                assert(final(self).registry().handlers() == old(self).registry().handlers().push(HandlerEntry::Custom(h)));
            }
        }
        r
    }

    /// Builds a fresh instance of `H` from an empty resource scope and hands
    /// it to `f` together with the context in which `client` calls itself,
    /// through `exec_with`. The instance is not the one registered under
    /// `H`'s name: it shows the state that construction gives, not what
    /// earlier messages changed.
    pub fn exec_in<F, R>(&self, client: AccountId, f: F) -> (r: Result<R, InitializationError>)
        where
            F: FnOnce(&H, &Context) -> R,
        requires
            forall|h: &H| f.requires((h, &client_context(client))),
        ensures
            r is Ok ==> exists|h: &H| f.ensures((h, &client_context(client)), r->Ok_0),
    {
        let scope = ResourceScope::empty();
        let built = H::new(&scope);
        let r = self.exec_with(client, built, f);
        proof {
            if r is Ok {
                let h = built->Ok_0;
                assert(f.ensures((&h, &client_context(client)), r->Ok_0));
            }
        }
        r
    }
}

/// `after` is `before` with one more account, `id`, which is fresh: it takes the
/// next identity, and the identity counter moves past it.
pub open spec fn account_created<H: RawHandler>(before: TestApp<H>, after: TestApp<H>, id: AccountId) -> bool {
    &&& id.id == before.next_account()
    &&& !before.has_account(id)
    &&& after.accounts() == before.accounts().push(after.accounts().last())
    &&& after.accounts().last().id == id
    &&& after.next_account() == before.next_account() + 1
}

/// `after` is `before` with one more mock registered, under the name made from
/// `before`'s counter, and the counter moved on by one.
pub open spec fn mock_registered<H: RawHandler>(before: TestApp<H>, after: TestApp<H>) -> bool {
    &&& after.mock_counter() == before.mock_counter() + 1
    &&& after.registry().names() == before.registry().names().push(mock_name(before.mock_counter()))
}

/// Accounts created one after the other get different identities, and none of
/// them was an account before.
pub proof fn lemma_successive_accounts_distinct<H: RawHandler>(
    a0: TestApp<H>,
    a1: TestApp<H>,
    a2: TestApp<H>,
    id1: AccountId,
    id2: AccountId,
)
    requires
        account_created(a0, a1, id1),
        account_created(a1, a2, id2),
    ensures
        id1 != id2,
        a2.has_account(id1),
        a2.has_account(id2),
        !a0.has_account(id2),
{
    let n = a0.accounts().len();
    assert(a1.accounts()[n as int].id == id1);
    assert(a2.accounts()[n as int] == a1.accounts()[n as int]);
    assert(a2.accounts()[(n + 1) as int].id == id2);
    if a0.has_account(id2) {
        let i = choose|i: int| 0 <= i < a0.accounts().len() && a0.accounts()[i].id == id2;
        assert(a1.accounts()[i] == a0.accounts()[i]);
        assert(a1.has_account(id2));
    }
}

/// In a well-formed harness no two accounts share an identity.
pub proof fn lemma_account_ids_distinct<H: RawHandler>(app: TestApp<H>)
    requires
        app.wf(),
    ensures
        app.account_ids().no_duplicates(),
{
    assert forall|i: int, j: int| 0 <= i < j < app.account_ids().len() implies
        app.account_ids()[i] != app.account_ids()[j] by {
        assert(app.accounts()[i].id != app.accounts()[j].id);
    }
}

/// Mocks registered one after the other get strictly increasing counter values
/// and different names.
pub proof fn lemma_successive_mock_names<H: RawHandler>(a0: TestApp<H>, a1: TestApp<H>, a2: TestApp<H>)
    requires
        mock_registered(a0, a1),
        mock_registered(a1, a2),
    ensures
        a0.mock_counter() < a1.mock_counter(),
        mock_name(a0.mock_counter()) != mock_name(a1.mock_counter()),
        a2.registry().names().contains(mock_name(a0.mock_counter())),
        a2.registry().names().contains(mock_name(a1.mock_counter())),
{
    lemma_mock_names_distinct(a0.mock_counter(), a1.mock_counter());
    let n = a0.registry().names().len();
    assert(a2.registry().names()[n as int] == mock_name(a0.mock_counter()));
    assert(a2.registry().names()[(n + 1) as int] == mock_name(a1.mock_counter()));
}

} // verus!
