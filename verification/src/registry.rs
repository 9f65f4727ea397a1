//! The subscriber registry and the pruning step of a broadcast.
//!
//! A broadcast pass writes one event to every registered subscriber and
//! then removes, in the same pass, each subscriber whose write failed.
//! The writes are the caller's; which subscribers stay is decided here.

use vstd::prelude::*;

verus! {

/// The subscribers that are currently registered, in the order in which
/// they were added. `H` is the write handle of one subscriber.
pub struct Registry<H> {
    handles: Vec<H>,
}

/// Whether the outcomes of a pass say that the write to the subscriber at
/// `index` failed. A subscriber without an outcome was not written to and
/// has not failed.
pub open spec fn write_failed(delivered: Seq<bool>, index: int) -> bool {
    0 <= index < delivered.len() && !delivered[index]
}

/// The subscribers at positions `lo..hi` whose write did not fail, in
/// their order.
pub open spec fn survivors_between<H>(
    handles: Seq<H>,
    delivered: Seq<bool>,
    lo: int,
    hi: int,
) -> Seq<H>
    decreases hi - lo,
{
    if hi <= lo {
        Seq::empty()
    } else if write_failed(delivered, hi - 1) {
        survivors_between(handles, delivered, lo, hi - 1)
    } else {
        survivors_between(handles, delivered, lo, hi - 1).push(handles[hi - 1])
    }
}

/// The subscribers that stay registered after a pass with the given
/// outcomes: those whose write did not fail, in their order.
pub open spec fn survivors<H>(handles: Seq<H>, delivered: Seq<bool>) -> Seq<H> {
    survivors_between(handles, delivered, 0, handles.len() as int)
}

proof fn lemma_survivors_unfold_front<H>(handles: Seq<H>, delivered: Seq<bool>, lo: int, hi: int)
    requires
        0 <= lo < hi <= handles.len(),
    ensures
        survivors_between(handles, delivered, lo, hi) == (if write_failed(delivered, lo) {
            survivors_between(handles, delivered, lo + 1, hi)
        } else {
            seq![handles[lo]] + survivors_between(handles, delivered, lo + 1, hi)
        }),
    decreases hi - lo,
{
    if lo + 1 < hi {
        lemma_survivors_unfold_front(handles, delivered, lo, hi - 1);
    } else {
        assert(survivors_between(handles, delivered, lo, lo) =~= Seq::<H>::empty());
    }
}

impl<H> View for Registry<H> {
    type V = Seq<H>;

    closed spec fn view(&self) -> Seq<H> {
        self.handles@
    }
}

impl<H> Registry<H> {
    /// The registry with no subscriber.
    pub fn new() -> (registry: Registry<H>)
        ensures
            registry@ == Seq::<H>::empty(),
    {
        Registry { handles: Vec::new() }
    }

    /// Registers a subscriber after those already registered.
    pub fn add(&mut self, handle: H)
        ensures
            final(self)@ == old(self)@.push(handle),
    {
        self.handles.push(handle);
    }

    /// The number of registered subscribers.
    pub fn len(&self) -> (n: usize)
        ensures
            n == self@.len(),
    {
        self.handles.len()
    }

    /// Whether no subscriber is registered.
    pub fn is_empty(&self) -> (empty: bool)
        ensures
            empty == (self@.len() == 0),
    {
        self.handles.len() == 0
    }

    /// The subscriber at `index`.
    pub fn handle(&self, index: usize) -> (handle: &H)
        requires
            index < self@.len(),
        ensures
            *handle == self@[index as int],
    {
        &self.handles[index]
    }

    /// The subscriber at `index`, to write to. Nothing but that
    /// subscriber can change through the borrow.
    pub fn handle_mut(&mut self, index: usize) -> (handle: &mut H)
        requires
            index < old(self)@.len(),
        ensures
            *handle == old(self)@[index as int],
            final(self)@ == old(self)@.update(index as int, *final(handle)),
    {
        &mut self.handles[index]
    }

    /// Ends a broadcast pass: removes every subscriber whose write failed
    /// and keeps the others in their order. `delivered[i]` tells whether
    /// the write to the subscriber at `i` succeeded. Returns how many
    /// subscribers were removed.
    pub fn prune(&mut self, delivered: &[bool]) -> (removed: usize)
        ensures
            final(self)@ == survivors(old(self)@, delivered@),
            removed == old(self)@.len() - final(self)@.len(),
    {
        let ghost before = self.handles@;
        let total: usize = self.handles.len();
        let mut kept_reversed: Vec<H> = Vec::new();
        let mut i: usize = total;
        while i > 0
            invariant
                i <= total,
                total == before.len(),
                self.handles@ == before.take(i as int),
                kept_reversed@ == survivors_between(
                    before,
                    delivered@,
                    i as int,
                    total as int,
                ).reverse(),
                kept_reversed@.len() <= total - i,
            decreases i,
        {
            i -= 1;
            let handle = self.handles.pop().unwrap();
            let failed = i < delivered.len() && !delivered[i];
            proof {
                lemma_survivors_unfold_front(before, delivered@, i as int, total as int);
            }
            if !failed {
                kept_reversed.push(handle);
            }
        }
        let ghost kept = survivors(before, delivered@);
        while kept_reversed.len() > 0
            invariant
                kept_reversed@.len() <= total,
                self.handles@ + kept_reversed@.reverse() == kept,
            decreases kept_reversed.len(),
        {
            let handle = kept_reversed.pop().unwrap();
            self.handles.push(handle);
        }
        total - self.handles.len()
    }
}

// ---------------------------------------------------------------------
// What holds of every pass
// ---------------------------------------------------------------------

/// How many of the first `n` subscribers had a failed write.
pub open spec fn failures_among(delivered: Seq<bool>, n: int) -> nat
    decreases n,
{
    if n <= 0 {
        0
    } else if write_failed(delivered, n - 1) {
        failures_among(delivered, n - 1) + 1
    } else {
        failures_among(delivered, n - 1)
    }
}

/// A pass decides about each subscriber by its own outcome and keeps the
/// order: the survivors of the first `n + 1` subscribers are those of the
/// first `n`, followed by the subscriber at `n` unless its write failed.
pub proof fn lemma_survivors_step<H>(handles: Seq<H>, delivered: Seq<bool>, n: int)
    requires
        0 <= n < handles.len(),
    ensures
        survivors(handles.take(n + 1), delivered) == (if write_failed(delivered, n) {
            survivors(handles.take(n), delivered)
        } else {
            survivors(handles.take(n), delivered).push(handles[n])
        }),
{
    lemma_survivors_of_prefix(handles.take(n + 1), handles.take(n), delivered, n);
}

proof fn lemma_survivors_of_prefix<H>(
    longer: Seq<H>,
    shorter: Seq<H>,
    delivered: Seq<bool>,
    hi: int,
)
    requires
        0 <= hi <= shorter.len() <= longer.len(),
        forall|i: int| 0 <= i < hi ==> longer[i] == shorter[i],
    ensures
        survivors_between(longer, delivered, 0, hi) == survivors_between(
            shorter,
            delivered,
            0,
            hi,
        ),
    decreases hi,
{
    if hi > 0 {
        lemma_survivors_of_prefix(longer, shorter, delivered, hi - 1);
    }
}

/// A pass removes exactly as many subscribers as writes failed.
pub proof fn lemma_survivors_count<H>(handles: Seq<H>, delivered: Seq<bool>)
    ensures
        survivors(handles, delivered).len() + failures_among(delivered, handles.len() as int)
            == handles.len(),
{
    lemma_survivors_between_count(handles, delivered, handles.len() as int);
}

proof fn lemma_survivors_between_count<H>(handles: Seq<H>, delivered: Seq<bool>, hi: int)
    requires
        0 <= hi <= handles.len(),
    ensures
        survivors_between(handles, delivered, 0, hi).len() + failures_among(delivered, hi) == hi,
    decreases hi,
{
    if hi > 0 {
        lemma_survivors_between_count(handles, delivered, hi - 1);
    }
}

/// Exactly the subscribers whose write did not fail stay: each of them
/// is among the survivors, and each survivor is a subscriber that was
/// registered at a position whose write did not fail.
pub proof fn lemma_survivors_are_the_delivered<H>(handles: Seq<H>, delivered: Seq<bool>)
    ensures
        forall|i: int|
            0 <= i < handles.len() && !write_failed(delivered, i) ==> survivors(
                handles,
                delivered,
            ).contains(#[trigger] handles[i]),
        forall|k: int|
            0 <= k < survivors(handles, delivered).len() ==> exists|i: int|
                0 <= i < handles.len() && !write_failed(delivered, i) && handles[i]
                    == #[trigger] survivors(handles, delivered)[k],
{
    lemma_survivors_between_are_the_delivered(handles, delivered, handles.len() as int);
}

proof fn lemma_survivors_between_are_the_delivered<H>(
    handles: Seq<H>,
    delivered: Seq<bool>,
    hi: int,
)
    requires
        0 <= hi <= handles.len(),
    ensures
        forall|i: int|
            0 <= i < hi && !write_failed(delivered, i) ==> survivors_between(
                handles,
                delivered,
                0,
                hi,
            ).contains(#[trigger] handles[i]),
        forall|k: int|
            0 <= k < survivors_between(handles, delivered, 0, hi).len() ==> exists|i: int|
                0 <= i < hi && !write_failed(delivered, i) && handles[i]
                    == #[trigger] survivors_between(handles, delivered, 0, hi)[k],
    decreases hi,
{
    if hi > 0 {
        lemma_survivors_between_are_the_delivered(handles, delivered, hi - 1);
        let before = survivors_between(handles, delivered, 0, hi - 1);
        let now = survivors_between(handles, delivered, 0, hi);
        assert forall|i: int| 0 <= i < hi && !write_failed(delivered, i) implies now.contains(
            #[trigger] handles[i],
        ) by {
            if i < hi - 1 {
                let k = choose|k: int| 0 <= k < before.len() && before[k] == handles[i];
                assert(now[k] == handles[i]);
            } else {
                assert(now[now.len() - 1] == handles[i]);
            }
        }
        assert forall|k: int| 0 <= k < now.len() implies exists|i: int|
            0 <= i < hi && !write_failed(delivered, i) && handles[i] == #[trigger] now[k] by {
            if k < before.len() {
                let i = choose|i: int|
                    0 <= i < hi - 1 && !write_failed(delivered, i) && handles[i] == before[k];
                assert(0 <= i < hi && !write_failed(delivered, i) && handles[i] == now[k]);
            } else {
                assert(!write_failed(delivered, hi - 1) && handles[hi - 1] == now[k]);
            }
        }
    }
}

/// A pass in which no write failed removes nobody.
pub proof fn lemma_no_failure_keeps_all<H>(handles: Seq<H>, delivered: Seq<bool>)
    requires
        forall|i: int| 0 <= i < handles.len() ==> !write_failed(delivered, i),
    ensures
        survivors(handles, delivered) == handles,
{
    lemma_no_failure_keeps_prefix(handles, delivered, handles.len() as int);
}

proof fn lemma_no_failure_keeps_prefix<H>(handles: Seq<H>, delivered: Seq<bool>, hi: int)
    requires
        0 <= hi <= handles.len(),
        forall|i: int| 0 <= i < hi ==> !write_failed(delivered, i),
    ensures
        survivors_between(handles, delivered, 0, hi) == handles.take(hi),
    decreases hi,
{
    if hi > 0 {
        lemma_no_failure_keeps_prefix(handles, delivered, hi - 1);
    }
}

} // verus!
