use vstd::prelude::*;
use crate::error::ErrorCode;
use crate::identity::Identity;
use crate::request::CircuitId;

verus! {

/// A computation in flight: its offset, the circuit it runs, and the owner of
/// the balance account that its callback will commit to.
#[derive(Clone, Copy, Debug, PartialEq, Eq, Structural)]
pub struct PendingComputation {
    pub offset: u64,
    pub circuit: CircuitId,
    pub owner: Identity,
}

/// Some computation in flight holds `offset`.
pub open spec fn holds_offset(s: Seq<PendingComputation>, offset: u64) -> bool {
    exists|i: int| 0 <= i < s.len() && (#[trigger] s[i]).offset == offset
}

/// Some computation in flight will commit to `owner`'s account.
pub open spec fn holds_owner(s: Seq<PendingComputation>, owner: Identity) -> bool {
    exists|i: int| 0 <= i < s.len() && (#[trigger] s[i]).owner == owner
}

/// The computation in flight under `offset`, if any.
pub open spec fn lookup(s: Seq<PendingComputation>, offset: u64) -> Option<PendingComputation> {
    if holds_offset(s, offset) {
        Some(s[choose|i: int| 0 <= i < s.len() && (#[trigger] s[i]).offset == offset])
    } else {
        None
    }
}

/// No two computations in flight share an offset or an account.
pub open spec fn unique(s: Seq<PendingComputation>) -> bool {
    forall|i: int, j: int|
        0 <= i < s.len() && 0 <= j < s.len() && i != j ==> (#[trigger] s[i]).offset != (
        #[trigger] s[j]).offset && s[i].owner != s[j].owner
}

/// What `enqueue` does to the computations in flight.
pub open spec fn enqueue_spec(s: Seq<PendingComputation>, p: PendingComputation) -> Result<
    Seq<PendingComputation>,
    ErrorCode,
> {
    if holds_offset(s, p.offset) {
        Err(ErrorCode::DuplicateComputationOffset)
    } else if holds_owner(s, p.owner) {
        Err(ErrorCode::ComputationPending)
    } else {
        Ok(s.push(p))
    }
}

/// The computations in flight after the one under `offset` resolves.
pub open spec fn without(s: Seq<PendingComputation>, offset: u64) -> Seq<PendingComputation> {
    s.filter(|p: PendingComputation| p.offset != offset)
}

/// The table of computations in flight, keyed by offset.
pub struct ComputationQueue {
    items: Vec<PendingComputation>,
}

impl View for ComputationQueue {
    type V = Seq<PendingComputation>;

    closed spec fn view(&self) -> Seq<PendingComputation> {
        self.items@
    }
}

impl ComputationQueue {
    pub fn new() -> (r: ComputationQueue)
        ensures
            r@ == Seq::<PendingComputation>::empty(),
    {
        ComputationQueue { items: Vec::new() }
    }

    /// Index of the computation under `offset`.
    pub fn position(&self, offset: u64) -> (r: Option<usize>)
        requires
            unique(self@),
        ensures
            r is None <==> !holds_offset(self@, offset),
            r matches Some(i) ==> i < self@.len() && self@[i as int].offset == offset
                && lookup(self@, offset) == Some(self@[i as int]),
    {
        let mut i: usize = 0;
        while i < self.items.len()
            invariant
                i <= self@.len(),
                self@ == self.items@,
                unique(self@),
                forall|j: int| 0 <= j < i ==> (#[trigger] self@[j]).offset != offset,
            decreases self@.len() - i,
        {
            if self.items[i].offset == offset {
                assert(holds_offset(self@, offset));
                proof {
                    let k = choose|k: int| 0 <= k < self@.len() && (#[trigger] self@[k]).offset == offset;
                    if k != i as int {
                        assert(self@[k].offset != self@[i as int].offset);
                    }
                }
                return Some(i);
            }
            i = i + 1;
        }
        None
    }

    fn has_owner(&self, owner: Identity) -> (r: bool)
        ensures
            r == holds_owner(self@, owner),
    {
        let mut i: usize = 0;
        while i < self.items.len()
            invariant
                i <= self@.len(),
                self@ == self.items@,
                forall|j: int| 0 <= j < i ==> (#[trigger] self@[j]).owner != owner,
            decreases self@.len() - i,
        {
            if self.items[i].owner == owner {
                assert(self@[i as int].owner == owner);
                return true;
            }
            i = i + 1;
        }
        false
    }

    /// Registers a computation. An offset already in flight is
    /// `DuplicateComputationOffset`; an account with a computation in flight is
    /// `ComputationPending`. On rejection the table is unchanged.
    pub fn enqueue(&mut self, p: PendingComputation) -> (r: Result<(), ErrorCode>)
        requires
            unique(old(self)@),
        ensures
            unique(final(self)@),
            match enqueue_spec(old(self)@, p) {
                Ok(s) => r is Ok && final(self)@ == s,
                Err(e) => r == Err::<(), ErrorCode>(e) && *final(self) == *old(self),
            },
    {
        if self.position(p.offset).is_some() {
            return Err(ErrorCode::DuplicateComputationOffset);
        }
        if self.has_owner(p.owner) {
            return Err(ErrorCode::ComputationPending);
        }
        self.items.push(p);
        assert forall|i: int, j: int|
            0 <= i < self@.len() && 0 <= j < self@.len() && i != j implies (
            #[trigger] self@[i]).offset != (#[trigger] self@[j]).offset && self@[i].owner
                != self@[j].owner by {
            if i == self@.len() - 1 {
                assert(old(self)@[j] == self@[j]);
            } else if j == self@.len() - 1 {
                assert(old(self)@[i] == self@[i]);
            } else {
                assert(old(self)@[i] == self@[i] && old(self)@[j] == self@[j]);
            }
        }
        Ok(())
    }

    /// The computation at index `i`.
    pub fn get(&self, i: usize) -> (r: PendingComputation)
        requires
            i < self@.len(),
        ensures
            r == self@[i as int],
    {
        self.items[i]
    }

    /// Takes the computation at index `i` out of the table.
    pub fn remove_at(&mut self, i: usize) -> (r: PendingComputation)
        requires
            unique(old(self)@),
            i < old(self)@.len(),
        ensures
            unique(final(self)@),
            r == old(self)@[i as int],
            final(self)@ == without(old(self)@, r.offset),
            !holds_offset(final(self)@, r.offset),
    {
        let ghost s = self@;
        let r = self.items.remove(i);
        let ghost t = self@;
        assert(t =~= s.remove(i as int));
        proof {
            lemma_remove_is_without(s, i as int);
        }
        assert forall|a: int, b: int|
            0 <= a < t.len() && 0 <= b < t.len() && a != b implies (
            #[trigger] t[a]).offset != (#[trigger] t[b]).offset && t[a].owner != t[b].owner by {
            let a2 = if a < i { a } else { a + 1 };
            let b2 = if b < i { b } else { b + 1 };
            assert(t[a] == s[a2] && t[b] == s[b2]);
        }
        assert forall|k: int| 0 <= k < t.len() implies (#[trigger] t[k]).offset != r.offset by {
            let k2 = if k < i { k } else { k + 1 };
            assert(t[k] == s[k2]);
        }
        r
    }
}

proof fn lemma_remove_is_without(s: Seq<PendingComputation>, i: int)
    requires
        unique(s),
        0 <= i < s.len(),
    ensures
        s.remove(i) == without(s, s[i].offset),
    decreases s.len(),
{
    let off = s[i].offset;
    let f = |p: PendingComputation| p.offset != off;
    reveal(Seq::filter);
    if i == s.len() - 1 {
        let d = s.drop_last();
        assert forall|k: int| 0 <= k < d.len() implies f(#[trigger] d[k]) by {
            assert(d[k] == s[k]);
        }
        lemma_filter_all(d, off);
        assert(s.remove(i) =~= d);
    } else {
        let d = s.drop_last();
        assert(unique(d)) by {
            assert forall|a: int, b: int|
                0 <= a < d.len() && 0 <= b < d.len() && a != b implies (
                #[trigger] d[a]).offset != (#[trigger] d[b]).offset && d[a].owner
                    != d[b].owner by {
                assert(d[a] == s[a] && d[b] == s[b]);
            }
        }
        lemma_remove_is_without(d, i);
        assert(d[i] == s[i]);
        assert(s.last().offset != off);
        assert(s.remove(i) =~= d.remove(i).push(s.last()));
    }
}

proof fn lemma_filter_all(s: Seq<PendingComputation>, off: u64)
    requires
        forall|k: int| 0 <= k < s.len() ==> (#[trigger] s[k]).offset != off,
    ensures
        without(s, off) == s,
    decreases s.len(),
{
    reveal(Seq::filter);
    if s.len() > 0 {
        let d = s.drop_last();
        assert forall|k: int| 0 <= k < d.len() implies (#[trigger] d[k]).offset != off by {
            assert(d[k] == s[k]);
        }
        lemma_filter_all(d, off);
        assert(d.push(s.last()) =~= s);
    }
}

} // verus!
