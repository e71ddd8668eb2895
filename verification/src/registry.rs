//! The handler registry: a mapping from method selector to handler slot,
//! built by explicit registration at startup.
//!
//! Handlers themselves are closures of the embedding program and live beside
//! this structure, one per slot, in registration order; the registry owns
//! only the selectors and the verified lookup. An `Invoke` action's selector
//! is looked up here, and the slot index names the handler to run.

use vstd::prelude::*;

verus! {

/// The selectors registered so far, in registration order.
pub struct Registry {
    selectors: Vec<Vec<u8>>,
}

impl View for Registry {
    type V = Seq<Seq<u8>>;

    closed spec fn view(&self) -> Seq<Seq<u8>> {
        self.selectors@.map_values(|s: Vec<u8>| s@)
    }
}

impl Registry {
    /// An empty registry.
    pub fn new() -> (r: Registry)
        ensures
            r@ == Seq::<Seq<u8>>::empty(),
    {
        let r = Registry { selectors: Vec::new() };
        proof {
            assert(r@ =~= Seq::<Seq<u8>>::empty());
        }
        r
    }

    /// How many slots are registered.
    pub fn len(&self) -> (n: usize)
        ensures
            n == self@.len(),
    {
        self.selectors.len()
    }

    /// Registers a selector and returns its slot index. Registering a
    /// selector a second time is allowed but shadowed: lookup finds the
    /// first registration.
    pub fn register(&mut self, selector: Vec<u8>) -> (slot: usize)
        ensures
            slot == old(self)@.len(),
            final(self)@ == old(self)@.push(selector@),
    {
        let slot = self.selectors.len();
        self.selectors.push(selector);
        proof {
            assert(final(self)@ =~= old(self)@.push(final(self).selectors@[slot as int]@));
        }
        slot
    }

    /// The slot of the first registration whose selector equals `method`
    /// byte-for-byte, or `None` when no registration matches.
    pub fn lookup(&self, method: &[u8]) -> (r: Option<usize>)
        ensures
            (match r {
                Some(slot) => slot < self@.len() && self@[slot as int] == method@ && (forall|k: int|
                    0 <= k < slot ==> self@[k] != method@),
                None => forall|k: int| 0 <= k < self@.len() ==> self@[k] != method@,
            }),
    {
        let mut i: usize = 0;
        while i < self.selectors.len()
            invariant
                i <= self@.len(),
                self@.len() == self.selectors@.len(),
                forall|k: int| 0 <= k < i ==> self@[k] != method@,
            decreases self@.len() - i,
        {
            if bytes_eq(self.selectors[i].as_slice(), method) {
                return Some(i);
            }
            i = i + 1;
        }
        None
    }
}

/// Byte-for-byte equality of two slices.
pub fn bytes_eq(a: &[u8], b: &[u8]) -> (r: bool)
    ensures
        r == (a@ == b@),
{
    if a.len() != b.len() {
        return false;
    }
    let mut i: usize = 0;
    while i < a.len()
        invariant
            a@.len() == b@.len(),
            i <= a@.len(),
            forall|k: int| 0 <= k < i ==> a@[k] == b@[k],
        decreases a@.len() - i,
    {
        if *vstd::slice::slice_index_get(a, i) != *vstd::slice::slice_index_get(b, i) {
            return false;
        }
        i = i + 1;
    }
    proof {
        assert(a@ =~= b@);
    }
    true
}

} // verus!
