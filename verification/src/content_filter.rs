use vstd::prelude::*;

use crate::retain::{restored, lemma_restored_trans, RetainLedger};

verus! {

/// Owning adapter around a native array object.
///
/// Building it takes an owning allocation for the array itself plus one extra
/// reference owned by the adapter; destroying it gives both back. The element
/// handles are stored as non-owning references: their retain counts are never
/// touched by the adapter.
pub struct SafeNSArray {
    pub handle: usize,
    pub elems: Vec<usize>,
}

impl SafeNSArray {
    /// The resulting array holds exactly the input handles, in the input
    /// order, and raises no count but its own.
    pub fn new(ledger: &mut RetainLedger, elems: Vec<usize>) -> (a: SafeNSArray)
        requires
            old(ledger)@.len() < usize::MAX,
            forall|i: int| 0 <= i < elems@.len() ==> old(ledger).live(elems@[i] as int),
        ensures
            a.elems@ == elems@,
            a.handle == old(ledger)@.len(),
            final(ledger)@ == old(ledger)@.push(2u64),
    {
        let h: usize = ledger.allocate();
        ledger.retain(h);
        proof {
            assert(ledger@ =~= old(ledger)@.push(2u64));
        }
        SafeNSArray { handle: h, elems }
    }

    /// Borrowing accessor for the underlying array handle; takes no
    /// reference of its own.
    pub fn as_inner(&self) -> (h: usize)
        ensures
            h == self.handle,
    {
        self.handle
    }

    pub fn len(&self) -> (n: usize)
        ensures
            n == self.elems@.len(),
    {
        self.elems.len()
    }

    pub fn get(&self, i: usize) -> (h: usize)
        requires
            i < self.elems@.len(),
        ensures
            h == self.elems@[i as int],
    {
        self.elems[i]
    }

    /// Models the adapter's drop glue: one release for the extra reference
    /// the adapter took for itself, one for the owning pointer it wraps. The
    /// elements' counts are left alone.
    pub fn destroy(self, ledger: &mut RetainLedger)
        requires
            self.handle < old(ledger)@.len(),
            old(ledger)@[self.handle as int] >= 2,
        ensures
            final(ledger)@ == old(ledger)@.update(
                self.handle as int,
                (old(ledger)@[self.handle as int] - 2) as u64,
            ),
    {
        ledger.release(self.handle);
        ledger.release(self.handle);
        proof {
            assert(ledger@ =~= old(ledger)@.update(
                self.handle as int,
                (old(ledger)@[self.handle as int] - 2) as u64,
            ));
        }
    }
}

/// The six mutually exclusive selection variants a content filter can be
/// built from. The variant type itself enforces which combination of
/// display, window and application handles is legal.
pub enum UnsafeInitParams {
    DesktopIndependentWindow(usize),
    Display(usize),
    DisplayIncludingWindows(usize, Vec<usize>),
    DisplayExcludingWindows(usize, Vec<usize>),
    DisplayIncludingApplicationsExceptingWindows(usize, Vec<usize>, Vec<usize>),
    DisplayExcludingApplicationsExceptingWindows(usize, Vec<usize>, Vec<usize>),
}

/// Every handle the selection names is still live in the given ledger.
pub open spec fn params_live(params: UnsafeInitParams, ledger: RetainLedger) -> bool {
    match params {
        UnsafeInitParams::DesktopIndependentWindow(w) => ledger.live(w as int),
        UnsafeInitParams::Display(d) => ledger.live(d as int),
        UnsafeInitParams::DisplayIncludingWindows(d, ws) => ledger.live(d as int)
            && (forall|i: int| 0 <= i < ws@.len() ==> ledger.live(ws@[i] as int)),
        UnsafeInitParams::DisplayExcludingWindows(d, ws) => ledger.live(d as int)
            && (forall|i: int| 0 <= i < ws@.len() ==> ledger.live(ws@[i] as int)),
        UnsafeInitParams::DisplayIncludingApplicationsExceptingWindows(d, apps, ws) => ledger.live(
            d as int,
        ) && (forall|i: int| 0 <= i < apps@.len() ==> ledger.live(apps@[i] as int)) && (forall|
            i: int,
        |
            0 <= i < ws@.len() ==> ledger.live(ws@[i] as int)),
        UnsafeInitParams::DisplayExcludingApplicationsExceptingWindows(d, apps, ws) => ledger.live(
            d as int,
        ) && (forall|i: int| 0 <= i < apps@.len() ==> ledger.live(apps@[i] as int)) && (forall|
            i: int,
        |
            0 <= i < ws@.len() ==> ledger.live(ws@[i] as int)),
    }
}

fn copy_handles(src: &Vec<usize>) -> (r: Vec<usize>)
    ensures
        r@ == src@,
{
    let mut r: Vec<usize> = Vec::new();
    let mut i: usize = 0;
    while i < src.len()
        invariant
            i <= src@.len(),
            r@ == src@.subrange(0, i as int),
        decreases src@.len() - i,
    {
        r.push(src[i]);
        proof {
            assert(r@ =~= src@.subrange(0, i as int + 1));
        }
        i += 1;
    }
    proof {
        assert(r@ =~= src@);
    }
    r
}

/// Opaque selector describing which displays, windows and applications a
/// capture stream observes. Immutable once built; it owns exactly one
/// reference on its native handle, given back by [`Self::destroy`].
pub struct UnsafeContentFilter {
    pub handle: usize,
}

impl UnsafeContentFilter {
    /// Builds one owned filter handle from one of the six selection
    /// variants.
    ///
    /// A display with no further selection is built by excluding the empty
    /// window set rather than through a distinct initializer. Temporary
    /// array objects assembled for the initializer's arguments are fully
    /// released before the call returns, as if reclaimed at the end of a
    /// scoped temporary-object region: the contract says that every handle
    /// allocated here other than the filter's own ends at count zero, and
    /// that no pre-existing count moves.
    pub fn init(ledger: &mut RetainLedger, params: &UnsafeInitParams) -> (f: UnsafeContentFilter)
        requires
            params_live(*params, *old(ledger)),
            old(ledger)@.len() + 3 <= usize::MAX,
        ensures
            old(ledger)@.len() <= f.handle < final(ledger)@.len(),
            final(ledger)@.len() <= old(ledger)@.len() + 3,
            final(ledger)@[f.handle as int] == 1,
            forall|h: int| 0 <= h < old(ledger)@.len() ==> final(ledger)@[h] == old(ledger)@[h],
            forall|h: int|
                old(ledger)@.len() <= h < final(ledger)@.len() && h != f.handle
                    ==> final(ledger)@[h] == 0,
    {
        match params {
            UnsafeInitParams::DesktopIndependentWindow(_w) => {
                let h: usize = ledger.allocate();
                UnsafeContentFilter { handle: h }
            },
            UnsafeInitParams::Display(_d) => {
                let empty: SafeNSArray = SafeNSArray::new(ledger, Vec::new());
                let h: usize = ledger.allocate();
                empty.destroy(ledger);
                UnsafeContentFilter { handle: h }
            },
            UnsafeInitParams::DisplayIncludingWindows(_d, ws) => {
                let arr: SafeNSArray = SafeNSArray::new(ledger, copy_handles(ws));
                let h: usize = ledger.allocate();
                arr.destroy(ledger);
                UnsafeContentFilter { handle: h }
            },
            UnsafeInitParams::DisplayExcludingWindows(_d, ws) => {
                let arr: SafeNSArray = SafeNSArray::new(ledger, copy_handles(ws));
                let h: usize = ledger.allocate();
                arr.destroy(ledger);
                UnsafeContentFilter { handle: h }
            },
            UnsafeInitParams::DisplayIncludingApplicationsExceptingWindows(_d, apps, ws) => {
                let apps_arr: SafeNSArray = SafeNSArray::new(ledger, copy_handles(apps));
                let ws_arr: SafeNSArray = SafeNSArray::new(ledger, copy_handles(ws));
                let h: usize = ledger.allocate();
                apps_arr.destroy(ledger);
                ws_arr.destroy(ledger);
                UnsafeContentFilter { handle: h }
            },
            UnsafeInitParams::DisplayExcludingApplicationsExceptingWindows(_d, apps, ws) => {
                let apps_arr: SafeNSArray = SafeNSArray::new(ledger, copy_handles(apps));
                let ws_arr: SafeNSArray = SafeNSArray::new(ledger, copy_handles(ws));
                let h: usize = ledger.allocate();
                apps_arr.destroy(ledger);
                ws_arr.destroy(ledger);
                UnsafeContentFilter { handle: h }
            },
        }
    }

    /// Models the filter wrapper's drop glue: the one owned reference is
    /// given back exactly once.
    pub fn destroy(self, ledger: &mut RetainLedger)
        requires
            old(ledger).live(self.handle as int),
        ensures
            final(ledger)@ == old(ledger)@.update(
                self.handle as int,
                (old(ledger)@[self.handle as int] - 1) as u64,
            ),
    {
        ledger.release(self.handle);
    }
}

/// Law: for any of the six filter variants, building and then destroying a
/// filter any number of times returns every reference-counted object to its
/// baseline count — no leak, no double release.
pub fn build_and_destroy_filters(
    ledger: &mut RetainLedger,
    params: &UnsafeInitParams,
    rounds: usize,
)
    requires
        params_live(*params, *old(ledger)),
        old(ledger)@.len() + 3 * (rounds as int) <= usize::MAX,
    ensures
        restored(old(ledger)@, final(ledger)@),
        params_live(*params, *final(ledger)),
{
    let mut i: usize = 0;
    while i < rounds
        invariant
            i <= rounds,
            restored(old(ledger)@, ledger@),
            params_live(*params, *ledger),
            ledger@.len() + 3 * ((rounds - i) as int) <= usize::MAX,
        decreases rounds - i,
    {
        let ghost pre: Seq<u64> = ledger@;
        let f: UnsafeContentFilter = UnsafeContentFilter::init(ledger, params);
        f.destroy(ledger);
        proof {
            assert(restored(pre, ledger@));
            lemma_restored_trans(old(ledger)@, pre, ledger@);
        }
        i += 1;
    }
}

} // verus!
