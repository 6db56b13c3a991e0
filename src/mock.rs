//! Mock handlers: an ordered chain of candidates under one account, walked
//! until one of them answers.

use vstd::prelude::*;
use crate::handler::RawHandler;
use crate::types::{check_not_handled, is_not_handled, not_handled, ErrorCode, MessagePacket};

verus! {

/// The responses of the candidates that a dispatch invoked, one per candidate
/// in chain order, and the result that the chain returned.
pub struct DispatchTrace {
    pub result: Result<(), ErrorCode>,
    pub responses: Vec<Result<(), ErrorCode>>,
}

/// `responses` is how a chain of `n` candidates is walked: the candidates are
/// invoked from the first on, each at most once; all but the last invoked one
/// declined, and the walk stops at the first answer or at the end of the chain.
pub open spec fn is_chain_walk(responses: Seq<Result<(), ErrorCode>>, n: nat) -> bool {
    &&& responses.len() <= n
    &&& forall|i: int| 0 <= i < responses.len() - 1 ==> is_not_handled(#[trigger] responses[i])
    &&& (responses.len() == n || (responses.len() > 0 && !is_not_handled(responses.last())))
}

/// What the chain returns after the walk `responses`: the answer of the last
/// invoked candidate, or the not-handled sentinel if every candidate declined.
pub open spec fn chain_outcome(responses: Seq<Result<(), ErrorCode>>) -> Result<(), ErrorCode> {
    if responses.len() > 0 && !is_not_handled(responses.last()) {
        responses.last()
    } else {
        Err(ErrorCode::SystemCode(crate::types::SystemCode::MessageNotHandled))
    }
}

/// A handler composed of candidate handlers, dispatched in insertion order.
pub struct MockHandler<H> {
    mocks: Vec<H>,
}

impl<H: RawHandler> MockHandler<H> {
    /// The candidates, in insertion order.
    pub closed spec fn mocks(&self) -> Seq<H> {
        self.mocks@
    }

    pub fn new() -> (r: MockHandler<H>)
        ensures
            r.mocks().len() == 0,
    {
        MockHandler { mocks: Vec::new() }
    }

    /// Appends a candidate at the end of the chain.
    pub fn add_handler(&mut self, mock: H)
        ensures
            final(self).mocks() == old(self).mocks().push(mock),
    {
        self.mocks.push(mock);
    }

    pub fn len(&self) -> (r: usize)
        ensures
            r == self.mocks().len(),
    {
        self.mocks.len()
    }

    /// Walks the chain for `message` and reports what each invoked candidate
    /// returned.
    pub fn handle_traced(&self, message: &mut MessagePacket) -> (t: DispatchTrace)
        ensures
            is_chain_walk(t.responses@, self.mocks().len()),
            t.result == chain_outcome(t.responses@),
    {
        let mut responses: Vec<Result<(), ErrorCode>> = Vec::new();
        let mut i: usize = 0;
        while i < self.mocks.len()
            invariant
                i <= self.mocks@.len(),
                responses@.len() == i,
                forall|j: int| 0 <= j < i ==> is_not_handled(#[trigger] responses@[j]),
            decreases self.mocks@.len() - i,
        {
            let res = self.mocks[i].handle(message);
            let declined = check_not_handled(&res);
            responses.push(res);
            if !declined {
                proof {
                    assert(responses@.last() == res);
                }
                return DispatchTrace { result: res, responses };
            }
            i = i + 1;
        }
        proof {
            if responses@.len() > 0 {
                assert(is_not_handled(responses@[responses@.len() - 1]));
            }
        }
        DispatchTrace { result: not_handled(), responses }
    }

    /// Walks the chain for `message` and returns the first answer other than
    /// the not-handled sentinel, or the sentinel if every candidate declines.
    pub fn dispatch(&self, message: &mut MessagePacket) -> (r: Result<(), ErrorCode>)
        ensures
            exists|rs: Seq<Result<(), ErrorCode>>|
                is_chain_walk(rs, self.mocks().len()) && r == chain_outcome(rs),
    {
        let t = self.handle_traced(message);
        t.result
    }
}

impl<H: RawHandler> RawHandler for MockHandler<H> {
    fn handle(&self, message: &mut MessagePacket) -> Result<(), ErrorCode> {
        self.dispatch(message)
    }
}

/// When exactly one candidate `k` (counted from 1) of a chain of `n` accepts
/// the message and every other declines, the walk invokes the candidates
/// before it once each, stops at `k`, and the chain returns `k`'s answer.
pub proof fn lemma_single_acceptor_answers(responses: Seq<Result<(), ErrorCode>>, n: nat, k: nat)
    requires
        is_chain_walk(responses, n),
        1 <= k <= n,
        forall|i: int| 0 <= i < responses.len() ==>
            (is_not_handled(#[trigger] responses[i]) <==> i != k - 1),
    ensures
        responses.len() == k,
        chain_outcome(responses) == responses[k - 1],
{
    if responses.len() > k {
        assert(is_not_handled(responses[k - 1]));
    }
    if responses.len() < k {
        if responses.len() > 0 {
            assert(is_not_handled(responses[responses.len() - 1]));
        }
    }
}

/// When every candidate declines, all `n` of them are invoked, once each and
/// in order, and the chain returns the not-handled sentinel.
pub proof fn lemma_all_decline(responses: Seq<Result<(), ErrorCode>>, n: nat)
    requires
        is_chain_walk(responses, n),
        forall|i: int| 0 <= i < responses.len() ==> is_not_handled(#[trigger] responses[i]),
    ensures
        responses.len() == n,
        is_not_handled(chain_outcome(responses)),
{
    if responses.len() > 0 {
        assert(is_not_handled(responses[responses.len() - 1]));
    }
}

} // verus!
