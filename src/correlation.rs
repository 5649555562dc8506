//! Bounded tables that carry what an entry probe saw over to the matching exit probe.
use std::collections::HashMap;
use vstd::prelude::*;

verus! {

broadcast use vstd::std_specs::hash::group_hash_axioms;

/// The contexts after an entry on `key`: a stale context of the key is dropped, then the new
/// one is kept if the table has room for it.
pub open spec fn after_entry<C>(m: Map<u64, C>, capacity: nat, key: u64, ctx: C) -> Map<u64, C> {
    if m.remove(key).len() < capacity {
        m.remove(key).insert(key, ctx)
    } else {
        m.remove(key)
    }
}

/// An entry on `key` finds room for its context.
pub open spec fn entry_recorded<C>(m: Map<u64, C>, capacity: nat, key: u64) -> bool {
    m.remove(key).len() < capacity
}

/// What an exit on `key` finds.
pub open spec fn exit_context<C>(m: Map<u64, C>, key: u64) -> Option<C> {
    if m.contains_key(key) {
        Some(m[key])
    } else {
        None
    }
}

/// A table of in-flight calls keyed by thread, holding at most `capacity` contexts and at most
/// one per thread.
pub struct CorrelationTable<C> {
    contexts: HashMap<u64, C>,
    capacity: usize,
}

impl<C> View for CorrelationTable<C> {
    type V = Map<u64, C>;

    closed spec fn view(&self) -> Map<u64, C> {
        self.contexts@
    }
}

impl<C> CorrelationTable<C> {
    pub closed spec fn capacity(&self) -> nat {
        self.capacity as nat
    }

    /// The table holds no more contexts than its capacity.
    pub closed spec fn wf(&self) -> bool {
        &&& self.contexts@.dom().finite()
        &&& self.contexts@.len() <= self.capacity
    }

    pub fn new(capacity: usize) -> (r: Self)
        ensures
            r.wf(),
            r@ == Map::<u64, C>::empty(),
            r.capacity() == capacity,
    {
        CorrelationTable { contexts: HashMap::new(), capacity }
    }

    pub fn len(&self) -> (r: usize)
        requires
            self.wf(),
        ensures
            r == self@.len(),
    {
        self.contexts.len()
    }

    /// Records the context of a call entered on `key`, replacing a stale one; returns whether
    /// there was room for it.
    pub fn record(&mut self, key: u64, ctx: C) -> (recorded: bool)
        requires
            old(self).wf(),
        ensures
            final(self).wf(),
            final(self).capacity() == old(self).capacity(),
            recorded == entry_recorded(old(self)@, old(self).capacity(), key),
            final(self)@ == after_entry(old(self)@, old(self).capacity(), key, ctx),
    {
        let _ = self.contexts.remove(&key);
        proof {
            if old(self)@.contains_key(key) {
                old(self)@.lemma_remove_key_len(key);
            } else {
                assert(old(self)@.remove(key) =~= old(self)@);
            }
        }
        if self.contexts.len() < self.capacity {
            self.contexts.insert(key, ctx);
            true
        } else {
            false
        }
    }

    /// Takes the context of a call that returns on `key`, if one is held.
    pub fn take(&mut self, key: u64) -> (r: Option<C>)
        requires
            old(self).wf(),
        ensures
            final(self).wf(),
            final(self).capacity() == old(self).capacity(),
            final(self)@ == old(self)@.remove(key),
            r == exit_context(old(self)@, key),
    {
        let r = self.contexts.remove(&key);
        proof {
            if old(self)@.contains_key(key) {
                old(self)@.lemma_remove_key_len(key);
            } else {
                assert(old(self)@.remove(key) =~= old(self)@);
            }
        }
        r
    }
}

/// One probe invocation on a table.
pub enum TableOp<C> {
    Entry(u64, C),
    Exit(u64),
}

impl<C> TableOp<C> {
    pub open spec fn key(self) -> u64 {
        match self {
            TableOp::Entry(k, _) => k,
            TableOp::Exit(k) => k,
        }
    }
}

/// The contexts after the invocations `ops`, in order.
pub open spec fn run_ops<C>(m: Map<u64, C>, capacity: nat, ops: Seq<TableOp<C>>) -> Map<u64, C>
    decreases ops.len(),
{
    if ops.len() == 0 {
        m
    } else {
        let next = match ops[0] {
            TableOp::Entry(k, c) => after_entry(m, capacity, k, c),
            TableOp::Exit(k) => m.remove(k),
        };
        run_ops(next, capacity, ops.drop_first())
    }
}

proof fn lemma_other_keys_keep<C>(m: Map<u64, C>, capacity: nat, ops: Seq<TableOp<C>>, key: u64)
    requires
        forall|i: int| 0 <= i < ops.len() ==> (#[trigger] ops[i]).key() != key,
    ensures
        exit_context(run_ops(m, capacity, ops), key) == exit_context(m, key),
    decreases ops.len(),
{
    if ops.len() > 0 {
        let next = match ops[0] {
            TableOp::Entry(k, c) => after_entry(m, capacity, k, c),
            TableOp::Exit(k) => m.remove(k),
        };
        assert(ops[0].key() != key);
        assert(exit_context(next, key) == exit_context(m, key));
        assert forall|i: int| 0 <= i < ops.drop_first().len() implies (
        #[trigger] ops.drop_first()[i]).key() != key by {
            assert(ops[i + 1].key() != key);
        }
        lemma_other_keys_keep(next, capacity, ops.drop_first(), key);
    }
}

/// An entry on `key` that finds room, followed by any calls on other threads, leaves its
/// context for the exit on `key` to find, and that exit finds exactly that context.
pub proof fn lemma_entry_then_exit<C>(
    m: Map<u64, C>,
    capacity: nat,
    key: u64,
    ctx: C,
    between: Seq<TableOp<C>>,
)
    requires
        entry_recorded(m, capacity, key),
        forall|i: int| 0 <= i < between.len() ==> (#[trigger] between[i]).key() != key,
    ensures
        exit_context(run_ops(after_entry(m, capacity, key, ctx), capacity, between), key) == Some(
            ctx,
        ),
{
    lemma_other_keys_keep(after_entry(m, capacity, key, ctx), capacity, between, key);
}

/// An exit on a key that no entry recorded finds nothing; nor does a second exit after the
/// first one took the context; and a second entry on a key replaces the first one's context.
pub proof fn lemma_unmatched_exit<C>(m: Map<u64, C>, capacity: nat, key: u64, c1: C, c2: C)
    ensures
        !m.contains_key(key) ==> exit_context(m, key) is None,
        exit_context(m.remove(key), key) is None,
        entry_recorded(after_entry(m, capacity, key, c1), capacity, key) ==> exit_context(
            after_entry(after_entry(m, capacity, key, c1), capacity, key, c2),
            key,
        ) == Some(c2),
{
}

} // verus!
