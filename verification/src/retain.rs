use vstd::prelude::*;

verus! {

/// Model of the manually reference-counted object heap behind the native
/// capture framework.
///
/// A handle is an index into the ledger; each entry records the object's
/// current retain count. A count of zero means the object has been fully
/// released and must not be touched again. Every wrapper in this crate states
/// in its contract exactly which counts it raises and lowers, so that the
/// single-release-per-owned-reference discipline is checked rather than
/// trusted.
pub struct RetainLedger {
    counts: Vec<u64>,
}

impl View for RetainLedger {
    type V = Seq<u64>;

    closed spec fn view(&self) -> Seq<u64> {
        self.counts@
    }
}

impl RetainLedger {
    /// A handle is live while its object still holds at least one reference.
    pub open spec fn live(&self, h: int) -> bool {
        0 <= h < self@.len() && self@[h] > 0
    }

    pub fn new() -> (ledger: RetainLedger)
        ensures
            ledger@.len() == 0,
    {
        RetainLedger { counts: Vec::new() }
    }

    /// Models an owning allocation (alloc + init): a fresh object whose one
    /// reference belongs to the caller that performed the allocation.
    pub fn allocate(&mut self) -> (h: usize)
        requires
            old(self)@.len() < usize::MAX,
        ensures
            h == old(self)@.len(),
            final(self)@ == old(self)@.push(1u64),
    {
        let h: usize = self.counts.len();
        self.counts.push(1);
        h
    }

    /// Models taking one additional reference on a live object.
    pub fn retain(&mut self, h: usize)
        requires
            old(self).live(h as int),
            old(self)@[h as int] < u64::MAX,
        ensures
            final(self)@ == old(self)@.update(h as int, (old(self)@[h as int] + 1) as u64),
    {
        let c: u64 = self.counts[h];
        self.counts.set(h, c + 1);
    }

    /// Models giving up one reference on a live object. Releasing a handle
    /// whose count is already zero would be a double release, so liveness is
    /// demanded up front.
    pub fn release(&mut self, h: usize)
        requires
            old(self).live(h as int),
        ensures
            final(self)@ == old(self)@.update(h as int, (old(self)@[h as int] - 1) as u64),
    {
        let c: u64 = self.counts[h];
        self.counts.set(h, c - 1);
    }

    pub fn retain_count(&self, h: usize) -> (c: u64)
        requires
            h < self@.len(),
        ensures
            c == self@[h as int],
    {
        self.counts[h]
    }

    pub fn len(&self) -> (n: usize)
        ensures
            n == self@.len(),
    {
        self.counts.len()
    }
}

/// The ledger `cur` has returned to the baseline `base`: every object that
/// existed at the baseline keeps its baseline count, and every object
/// allocated since has been fully released.
pub open spec fn restored(base: Seq<u64>, cur: Seq<u64>) -> bool {
    &&& cur.len() >= base.len()
    &&& forall|h: int| 0 <= h < base.len() ==> cur[h] == base[h]
    &&& forall|h: int| base.len() <= h < cur.len() ==> cur[h] == 0
}

/// Law: restoration composes. If one balanced episode brings the ledger from
/// `a` back to `a`'s baseline as `b`, and a further balanced episode brings
/// `b` back to `b`'s baseline as `c`, then `c` is still at `a`'s baseline.
/// Repeatedly building and destroying an object therefore leaks nothing,
/// however many rounds are run.
pub proof fn lemma_restored_trans(a: Seq<u64>, b: Seq<u64>, c: Seq<u64>)
    requires
        restored(a, b),
        restored(b, c),
    ensures
        restored(a, c),
{
    assert forall|h: int| a.len() <= h < c.len() implies c[h] == 0 by {
        if h < b.len() {
            assert(c[h] == b[h]);
        }
    }
}

} // verus!
