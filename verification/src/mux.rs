//! The request/response multiplexer: allocates correlation ids for outgoing
//! requests and routes each incoming response to the waiter with the same id,
//! whatever order responses arrive in.
//!
//! Ids grow monotonically on one connection and are never reused, so a
//! response can always be judged: it resolves a pending request, it is
//! silently dropped because the request was locally cancelled, or it is a
//! protocol violation.

use vstd::prelude::*;

verus! {

broadcast use {vstd::seq_lib::seq_to_set_is_finite, vstd::set::group_set_axioms};

/// What became of a delivered response id.
#[derive(Clone, Copy, Debug, PartialEq, Eq, Structural)]
pub enum DeliverOutcome {
    /// The id was pending: the waiter registered for it gets the body.
    Resolved,
    /// The id was locally cancelled: the response is dropped without error.
    Cancelled,
    /// The id was never issued, or was already resolved: a protocol
    /// violation that closes the connection.
    Unknown,
}

/// The mathematical model of a multiplexer: the next fresh id, the ids still
/// awaiting a response, and the ids cancelled while a response could still
/// arrive.
pub struct MuxView {
    pub next_id: u64,
    pub pending: Set<u64>,
    pub cancelled: Set<u64>,
}

impl MuxView {
    /// Every issued id is below the allocation cursor, no id is both
    /// pending and cancelled, and ids start at 1.
    pub open spec fn wf(self) -> bool {
        &&& self.pending.finite()
        &&& self.cancelled.finite()
        &&& self.pending.disjoint(self.cancelled)
        &&& (forall|i: u64| self.pending.contains(i) ==> i < self.next_id)
        &&& (forall|i: u64| self.cancelled.contains(i) ==> i < self.next_id)
        &&& self.next_id >= 1
    }
}

/// Issuing a request: the allocation cursor becomes the fresh id, joins the
/// pending set, and the cursor moves on.
pub open spec fn spec_register(m: MuxView) -> (MuxView, u64)
    recommends
        m.next_id < u64::MAX,
{
    (
        MuxView {
            next_id: (m.next_id + 1) as u64,
            pending: m.pending.insert(m.next_id),
            cancelled: m.cancelled,
        },
        m.next_id,
    )
}

/// Judging an incoming response id: pending ids resolve, cancelled ids are
/// dropped, anything else is a protocol violation; no other id is touched.
pub open spec fn spec_deliver(m: MuxView, id: u64) -> (MuxView, DeliverOutcome) {
    if m.pending.contains(id) {
        (
            MuxView { next_id: m.next_id, pending: m.pending.remove(id), cancelled: m.cancelled },
            DeliverOutcome::Resolved,
        )
    } else if m.cancelled.contains(id) {
        (
            MuxView { next_id: m.next_id, pending: m.pending, cancelled: m.cancelled.remove(id) },
            DeliverOutcome::Cancelled,
        )
    } else {
        (m, DeliverOutcome::Unknown)
    }
}

/// Cancelling locally: a pending id moves to the cancelled set so that a
/// late response for it is dropped silently; any other id is left alone.
pub open spec fn spec_cancel(m: MuxView, id: u64) -> (MuxView, bool) {
    if m.pending.contains(id) {
        (
            MuxView {
                next_id: m.next_id,
                pending: m.pending.remove(id),
                cancelled: m.cancelled.insert(id),
            },
            true,
        )
    } else {
        (m, false)
    }
}

/// Registering preserves well-formedness, and the id it hands out was never
/// issued before.
pub proof fn lemma_register_wf(m: MuxView)
    requires
        m.wf(),
        m.next_id < u64::MAX,
    ensures
        spec_register(m).0.wf(),
        !m.pending.contains(spec_register(m).1),
        !m.cancelled.contains(spec_register(m).1),
        spec_register(m).0.pending.contains(spec_register(m).1),
{
}

/// Delivery preserves well-formedness.
pub proof fn lemma_deliver_wf(m: MuxView, id: u64)
    requires
        m.wf(),
    ensures
        spec_deliver(m, id).0.wf(),
{
}

/// Cancellation preserves well-formedness.
pub proof fn lemma_cancel_wf(m: MuxView, id: u64)
    requires
        m.wf(),
    ensures
        spec_cancel(m, id).0.wf(),
{
}

/// Responses correlate by id alone: delivering a response for one pending id
/// resolves exactly that id and leaves every other pending id pending,
/// whatever order responses arrive in.
pub proof fn lemma_out_of_order_independence(m: MuxView, id: u64, other: u64)
    requires
        m.wf(),
        m.pending.contains(id),
        m.pending.contains(other),
        other != id,
    ensures
        spec_deliver(m, id).1 == DeliverOutcome::Resolved,
        !spec_deliver(m, id).0.pending.contains(id),
        spec_deliver(m, id).0.pending.contains(other),
        spec_deliver(m, id).0.cancelled == m.cancelled,
{
}

/// Cancellation is independent and silent: after cancelling one pending id,
/// a later response for it is dropped without error, while every other
/// pending id still resolves normally.
pub proof fn lemma_cancellation_independence(m: MuxView, cancelled_id: u64, other: u64)
    requires
        m.wf(),
        m.pending.contains(cancelled_id),
        m.pending.contains(other),
        other != cancelled_id,
    ensures
        spec_cancel(m, cancelled_id).1 == true,
        spec_deliver(spec_cancel(m, cancelled_id).0, cancelled_id).1 == DeliverOutcome::Cancelled,
        spec_deliver(spec_cancel(m, cancelled_id).0, other).1 == DeliverOutcome::Resolved,
        spec_deliver(spec_cancel(m, cancelled_id).0, cancelled_id).0.pending.contains(other),
{
    let after_cancel = spec_cancel(m, cancelled_id).0;
    assert(!after_cancel.pending.contains(cancelled_id));
    assert(after_cancel.cancelled.contains(cancelled_id));
    assert(after_cancel.pending.contains(other));
}

/// The id correlation engine of one client connection.
pub struct Multiplexer {
    next_id: u64,
    pending: Vec<u64>,
    cancelled: Vec<u64>,
}

impl View for Multiplexer {
    type V = MuxView;

    closed spec fn view(&self) -> MuxView {
        MuxView {
            next_id: self.next_id,
            pending: self.pending@.to_set(),
            cancelled: self.cancelled@.to_set(),
        }
    }
}

impl Multiplexer {
    /// The internal invariant: the id vectors hold no duplicates and the
    /// model they present is well formed.
    pub closed spec fn inv(self) -> bool {
        &&& self.pending@.no_duplicates()
        &&& self.cancelled@.no_duplicates()
        &&& self@.wf()
    }

    /// The invariant keeps the model well formed.
    pub proof fn lemma_inv_wf(&self)
        requires
            self.inv(),
        ensures
            self@.wf(),
    {
    }

    /// A multiplexer with no request in flight; ids are issued from 1.
    pub fn new() -> (m: Multiplexer)
        ensures
            m.inv(),
            m@ == (MuxView { next_id: 1u64, pending: Set::<u64>::empty(), cancelled: Set::<
                u64,
            >::empty() }),
    {
        let m = Multiplexer { next_id: 1, pending: Vec::new(), cancelled: Vec::new() };
        proof {
            assert(m.pending@.to_set() =~= Set::<u64>::empty());
            assert(m.cancelled@.to_set() =~= Set::<u64>::empty());
        }
        m
    }

    /// The id the next request will get.
    pub fn next_id(&self) -> (id: u64)
        ensures
            id == self@.next_id,
    {
        self.next_id
    }

    /// Whether a response for `id` is still awaited.
    pub fn is_pending(&self, id: u64) -> (b: bool)
        ensures
            b == self@.pending.contains(id),
    {
        vec_contains(&self.pending, id)
    }

    /// Allocates a fresh id for an outgoing request and registers it as
    /// pending, as [`spec_register`] describes.
    pub fn register(&mut self) -> (id: u64)
        requires
            old(self).inv(),
            old(self)@.next_id < u64::MAX,
        ensures
            final(self).inv(),
            final(self)@ == spec_register(old(self)@).0,
            id == spec_register(old(self)@).1,
    {
        let id = self.next_id;
        proof {
            assert(!self@.pending.contains(id));
            assert(!self.pending@.contains(id));
            lemma_push_to_set(self.pending@, id);
        }
        self.pending.push(id);
        self.next_id = self.next_id + 1;
        id
    }

    /// Routes an incoming response id, as [`spec_deliver`] describes: the
    /// outcome says whether a waiter resolves, the response is silently
    /// dropped, or the connection must close.
    pub fn deliver(&mut self, id: u64) -> (outcome: DeliverOutcome)
        requires
            old(self).inv(),
        ensures
            final(self).inv(),
            final(self)@ == spec_deliver(old(self)@, id).0,
            outcome == spec_deliver(old(self)@, id).1,
    {
        match vec_index_of(&self.pending, id) {
            Some(i) => {
                proof {
                    lemma_remove_to_set(self.pending@, i as int);
                }
                self.pending.remove(i);
                DeliverOutcome::Resolved
            },
            None => {
                match vec_index_of(&self.cancelled, id) {
                    Some(i) => {
                        proof {
                            lemma_remove_to_set(self.cancelled@, i as int);
                        }
                        self.cancelled.remove(i);
                        DeliverOutcome::Cancelled
                    },
                    None => DeliverOutcome::Unknown,
                }
            },
        }
    }

    /// Cancels a pending request locally, as [`spec_cancel`] describes. The
    /// remote peer is not told: work already dispatched there continues, and
    /// its eventual response will be dropped silently.
    pub fn cancel(&mut self, id: u64) -> (was_pending: bool)
        requires
            old(self).inv(),
        ensures
            final(self).inv(),
            final(self)@ == spec_cancel(old(self)@, id).0,
            was_pending == spec_cancel(old(self)@, id).1,
    {
        match vec_index_of(&self.pending, id) {
            Some(i) => {
                proof {
                    assert(self@.pending.contains(id));
                    assert(!self@.cancelled.contains(id));
                    assert(!self.cancelled@.contains(id));
                    lemma_remove_to_set(self.pending@, i as int);
                    lemma_push_to_set(self.cancelled@, id);
                }
                self.pending.remove(i);
                self.cancelled.push(id);
                true
            },
            None => false,
        }
    }
}

/// Whether `x` occurs in `v`.
fn vec_contains(v: &Vec<u64>, x: u64) -> (b: bool)
    ensures
        b == v@.contains(x),
{
    match vec_index_of(v, x) {
        Some(_) => true,
        None => false,
    }
}

/// The index of the first occurrence of `x` in `v`, if any.
fn vec_index_of(v: &Vec<u64>, x: u64) -> (r: Option<usize>)
    ensures
        (match r {
            Some(i) => i < v@.len() && v@[i as int] == x && v@.contains(x),
            None => !v@.contains(x),
        }),
{
    let mut i: usize = 0;
    while i < v.len()
        invariant
            i <= v@.len(),
            forall|k: int| 0 <= k < i ==> v@[k] != x,
        decreases v@.len() - i,
    {
        if v[i] == x {
            return Some(i);
        }
        i = i + 1;
    }
    None
}

/// Appending a fresh element inserts it into the set a sequence presents.
proof fn lemma_push_to_set(s: Seq<u64>, x: u64)
    requires
        s.no_duplicates(),
        !s.contains(x),
    ensures
        s.push(x).no_duplicates(),
        s.push(x).to_set() == s.to_set().insert(x),
{
    assert forall|a: u64| s.push(x).to_set().contains(a) implies s.to_set().insert(x).contains(
        a,
    ) by {
        let k = choose|k: int| 0 <= k < s.push(x).len() && s.push(x)[k] == a;
        if k < s.len() {
            assert(s[k] == a);
        }
    }
    assert forall|a: u64| s.to_set().insert(x).contains(a) implies s.push(x).to_set().contains(
        a,
    ) by {
        if a == x {
            assert(s.push(x)[s.len() as int] == a);
        } else {
            let k = choose|k: int| 0 <= k < s.len() && s[k] == a;
            assert(s.push(x)[k] == a);
        }
    }
    assert(s.push(x).to_set() =~= s.to_set().insert(x));
}

/// Removing the element at one index removes exactly its value from the set
/// a duplicate-free sequence presents.
proof fn lemma_remove_to_set(s: Seq<u64>, i: int)
    requires
        s.no_duplicates(),
        0 <= i < s.len(),
    ensures
        s.remove(i).no_duplicates(),
        s.remove(i).to_set() == s.to_set().remove(s[i]),
{
    s.remove_ensures(i);
    assert forall|a: u64| s.remove(i).to_set().contains(a) implies s.to_set().remove(
        s[i],
    ).contains(a) by {
        let k = choose|k: int| 0 <= k < s.remove(i).len() && s.remove(i)[k] == a;
        if k < i {
            assert(s[k] == a);
            assert(a != s[i]);
        } else {
            assert(s[k + 1] == a);
            assert(a != s[i]);
        }
    }
    assert forall|a: u64| s.to_set().remove(s[i]).contains(a) implies s.remove(i).to_set().contains(
        a,
    ) by {
        let k = choose|k: int| 0 <= k < s.len() && s[k] == a;
        if k < i {
            assert(s.remove(i)[k] == a);
        } else {
            assert(k != i);
            assert(s.remove(i)[k - 1] == a);
        }
    }
    assert(s.remove(i).to_set() =~= s.to_set().remove(s[i]));
}

} // verus!
