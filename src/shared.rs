use vstd::prelude::*;
use std::sync::atomic::{AtomicBool, AtomicU64, Ordering};

verus! {

/// Whether `candidate` replaces the stored best size `stored`: only a strictly
/// smaller size does.
pub open spec fn replaces(stored: u64, candidate: u64) -> bool {
    candidate < stored
}

/// The stored best size after the submissions `cands`, taken in the order in
/// which they reached the shared state, starting from `init`.
pub open spec fn stored_after(init: u64, cands: Seq<u64>) -> u64
    decreases cands.len(),
{
    if cands.len() == 0 {
        init
    } else {
        let before = stored_after(init, cands.drop_last());
        if replaces(before, cands.last()) { cands.last() } else { before }
    }
}

/// With no result meeting the target, the size a search ends with does not
/// depend on the order in which the results arrived: two arrival orders of the
/// same successful sizes fold, from the same first-pass size, into the same
/// best size.
pub proof fn lemma_search_order_free(start: u64, a: Seq<u64>, b: Seq<u64>)
    requires
        a.to_multiset() == b.to_multiset(),
    ensures
        stored_after(start, a) == stored_after(start, b),
{
    lemma_best_size_is_minimum(start, a);
    lemma_best_size_is_minimum(start, b);
    a.to_multiset_ensures();
    b.to_multiset_ensures();
    let x = stored_after(start, a);
    let y = stored_after(start, b);
    if x != start {
        let i = choose|i: int| 0 <= i < a.len() && x == #[trigger] a[i];
        assert(a.contains(a[i]));
        assert(a.to_multiset().count(a[i]) > 0);
        assert(b.to_multiset().count(a[i]) > 0);
        assert(b.contains(a[i]));
        let j = choose|j: int| 0 <= j < b.len() && b[j] == a[i];
        assert(y <= b[j]);
    }
    if y != start {
        let j = choose|j: int| 0 <= j < b.len() && y == #[trigger] b[j];
        assert(b.contains(b[j]));
        assert(b.to_multiset().count(b[j]) > 0);
        assert(a.to_multiset().count(b[j]) > 0);
        assert(a.contains(b[j]));
        let i = choose|i: int| 0 <= i < a.len() && a[i] == b[j];
        assert(x <= a[i]);
    }
}

/// Decides whether a submitted size is an improvement on the stored one.
pub fn improves(stored: u64, candidate: u64) -> (r: bool)
    ensures
        r == replaces(stored, candidate),
{
    candidate < stored
}

/// One submission replaces the stored size exactly when it is smaller.
pub proof fn lemma_stored_after_one(init: u64, c: u64)
    ensures
        stored_after(init, seq![c]) == if c < init { c } else { init },
{
    assert(seq![c].drop_last() =~= Seq::<u64>::empty());
    assert(stored_after(init, Seq::<u64>::empty()) == init);
}

/// Whatever the order in which submissions reach the shared state, the stored
/// best size is the minimum of the initial value and every size submitted, it
/// never grows, and a submission no smaller than what is stored is refused.
pub proof fn lemma_best_size_is_minimum(init: u64, cands: Seq<u64>)
    ensures
        stored_after(init, cands) <= init,
        forall|i: int| 0 <= i < cands.len() ==> stored_after(init, cands) <= #[trigger] cands[i],
        stored_after(init, cands) == init || exists|i: int|
            0 <= i < cands.len() && stored_after(init, cands) == #[trigger] cands[i],
        cands.len() > 0 ==> stored_after(init, cands) <= stored_after(init, cands.drop_last()),
        cands.len() > 0 && cands.last() >= stored_after(init, cands.drop_last()) ==> stored_after(
            init,
            cands,
        ) == stored_after(init, cands.drop_last()),
    decreases cands.len(),
{
    if cands.len() > 0 {
        let prefix = cands.drop_last();
        lemma_best_size_is_minimum(init, prefix);
        assert forall|i: int| 0 <= i < cands.len() implies stored_after(init, cands)
            <= #[trigger] cands[i] by {
            if i < cands.len() - 1 {
                assert(cands[i] == prefix[i]);
            }
        }
        if stored_after(init, cands) != init && stored_after(init, cands) != cands.last() {
            let j = choose|j: int| 0 <= j < prefix.len() && stored_after(init, prefix) == #[trigger] prefix[j];
            assert(cands[j] == prefix[j]);
        }
    }
}

/// Relies on num_cpus's `get`: the number of logical CPUs this process may
/// use, which its documentation promises is at least 1.
#[verifier::external_body]
fn available_cpus() -> (r: usize)
    ensures
        r >= 1,
{
    num_cpus::get()
}

/// The number of threads to use: the number asked for, or, when that is 0,
/// one per available CPU.
pub fn resolve_threads(requested: usize) -> (r: usize)
    ensures
        requested != 0 ==> r == requested,
        r >= 1,
{
    if requested == 0 {
        available_cpus()
    } else {
        requested
    }
}

/// State that every worker of one run shares: whether some result already meets
/// the target, and the smallest size in bytes reported so far.
#[derive(Debug)]
pub struct SharedState {
    found_target: AtomicBool,
    best_size: AtomicU64,
}

impl SharedState {
    /// No target met yet, and no size reported (the best size is `u64::MAX`).
    pub fn new() -> Self {
        SharedState { found_target: AtomicBool::new(false), best_size: AtomicU64::new(u64::MAX) }
    }

    /// Submits `size`; it becomes the best size only if it is strictly smaller
    /// than the one stored, and the answer says whether it did. The comparison
    /// and the store are one atomic step.
    pub fn update_best_size(&self, size: u64) -> (r: bool) {
        let before = self.best_size.fetch_min(size, Ordering::SeqCst);
        improves(before, size)
    }

    /// The smallest size submitted so far, `u64::MAX` while none was.
    pub fn get_best_size(&self) -> u64 {
        self.best_size.load(Ordering::SeqCst)
    }

    /// Tells every worker that a result meeting the target exists.
    pub fn set_found_target(&self) {
        self.found_target.store(true, Ordering::SeqCst);
    }

    /// Whether a result meeting the target was announced.
    pub fn is_target_found(&self) -> bool {
        self.found_target.load(Ordering::SeqCst)
    }

    /// Records a finished worker's result: a successful size is submitted as a
    /// candidate best, and one within `target` announces that the target is met.
    pub fn publish(&self, success: bool, size: u64, target: u64) {
        if success {
            self.update_best_size(size);
            if size <= target {
                self.set_found_target();
            }
        }
    }
}

} // verus!
