//! Maps handler names to handler instances.

use vstd::prelude::*;
use crate::types::{ErrorCode, SystemCode};

verus! {

/// Handlers bound to unique names, in the order in which they were registered.
pub struct HandlerRegistry<H> {
    names: Vec<String>,
    handlers: Vec<H>,
}

impl<H> HandlerRegistry<H> {
    /// The registered names, in registration order.
    pub closed spec fn names(&self) -> Seq<Seq<char>> {
        self.names@.map_values(|n: String| n@)
    }

    /// The registered handlers, position for position with `names`.
    pub closed spec fn handlers(&self) -> Seq<H> {
        self.handlers@
    }

    pub open spec fn contains(&self, name: Seq<char>) -> bool {
        self.names().contains(name)
    }

    /// Names are unique and each has exactly one handler.
    pub open spec fn wf(&self) -> bool {
        &&& self.names().len() == self.handlers().len()
        &&& self.names().no_duplicates()
    }

    pub fn new() -> (r: HandlerRegistry<H>)
        ensures
            r.wf(),
            r.names().len() == 0,
    {
        let r = HandlerRegistry { names: Vec::new(), handlers: Vec::new() };
        assert(r.names() =~= Seq::<Seq<char>>::empty());
        r
    }

    pub fn len(&self) -> (r: usize)
        requires
            self.wf(),
        ensures
            r == self.names().len(),
    {
        proof { assert(self.names().len() == self.names@.len()); }
        self.names.len()
    }

    /// The position of `name`, if it is registered.
    pub fn position(&self, name: &String) -> (r: Option<usize>)
        requires
            self.wf(),
        ensures
            r is None <==> !self.contains(name@),
            r matches Some(i) ==> i < self.names().len() && self.names()[i as int] == name@,
    {
        let mut i: usize = 0;
        while i < self.names.len()
            invariant
                0 <= i <= self.names@.len(),
                self.names().len() == self.names@.len(),
                forall|j: int| 0 <= j < i ==> self.names()[j] != name@,
            decreases self.names@.len() - i,
        {
            if self.names[i] == *name {
                proof { assert(self.names()[i as int] == name@); }
                return Some(i);
            }
            i = i + 1;
        }
        proof {
            if self.contains(name@) {
                let j = self.names().index_of(name@);
                assert(self.names()[j] == name@);
            }
        }
        None
    }

    /// Binds `name` to `handler`. A name that is already bound is refused and
    /// the first registration stays as it was.
    pub fn register(&mut self, name: String, handler: H) -> (r: Result<(), ErrorCode>)
        requires
            old(self).wf(),
        ensures
            final(self).wf(),
            r is Err <==> old(self).contains(name@),
            r is Err ==> r == Err::<(), ErrorCode>(ErrorCode::SystemCode(SystemCode::HandlerAlreadyRegistered))
                && final(self).names() == old(self).names()
                && final(self).handlers() == old(self).handlers(),
            r is Ok ==> final(self).names() == old(self).names().push(name@)
                && final(self).handlers() == old(self).handlers().push(handler),
    {
        match self.position(&name) {
            Some(_) => Err(ErrorCode::SystemCode(SystemCode::HandlerAlreadyRegistered)),
            None => {
                let ghost n = name@;
                self.names.push(name);
                self.handlers.push(handler);
                proof {
                    assert(self.names() =~= old(self).names().push(n));
                    assert forall|a: int, b: int|
                        0 <= a < b < self.names().len() implies self.names()[a] != self.names()[b] by {
                        if b == self.names().len() - 1 {
                            assert(old(self).names().contains(old(self).names()[a]));
                        }
                    }
                }
                Ok(())
            },
        }
    }

    /// The handler bound to `name`, or `HandlerNotFound`.
    pub fn resolve(&self, name: &String) -> (r: Result<&H, ErrorCode>)
        requires
            self.wf(),
        ensures
            r is Err <==> !self.contains(name@),
            r is Err ==> r == Err::<&H, ErrorCode>(ErrorCode::SystemCode(SystemCode::HandlerNotFound)),
            r matches Ok(h) ==> exists|i: int|
                0 <= i < self.names().len() && self.names()[i] == name@ && self.handlers()[i] == *h,
    {
        match self.position(name) {
            Some(i) => Ok(self.handler_at(i)),
            None => Err(ErrorCode::SystemCode(SystemCode::HandlerNotFound)),
        }
    }

    /// The handler at registration position `i`.
    pub fn handler_at(&self, i: usize) -> (r: &H)
        requires
            self.wf(),
            i < self.names().len(),
        ensures
            *r == self.handlers()[i as int],
    {
        &self.handlers[i]
    }
}

} // verus!
