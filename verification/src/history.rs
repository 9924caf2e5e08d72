//! Fixed-length rolling histories.
//!
//! A history holds a fixed number of values, pre-filled with zeros at
//! construction. Each push evicts the oldest value and appends the newest,
//! so the contents are always the most recent values in chronological
//! order, oldest first.

use vstd::prelude::*;

verus! {

/// One push: the oldest value leaves, the newest enters at the back.
pub open spec fn pushed_once(h: Seq<i64>, v: i64) -> Seq<i64> {
    h.subrange(1, h.len() as int).push(v)
}

/// A whole sequence of pushes, applied oldest first.
pub open spec fn pushed_all(h: Seq<i64>, vs: Seq<i64>) -> Seq<i64>
    decreases vs.len(),
{
    if vs.len() == 0 {
        h
    } else {
        pushed_once(pushed_all(h, vs.drop_last()), vs.last())
    }
}

/// A fixed-capacity FIFO of Q32.32 values; the capacity is the length of
/// `values`, which never changes after construction.
#[derive(Debug)]
pub struct RollingHistory {
    pub values: Vec<i64>,
}

impl RollingHistory {
    /// A zero-filled history of the given capacity.
    pub fn new(capacity: usize) -> (r: RollingHistory)
        ensures
            r.values@.len() == capacity,
            forall|i: int| 0 <= i < capacity ==> r.values@[i] == 0i64,
    {
        let mut values: Vec<i64> = Vec::new();
        let mut i: usize = 0;
        while i < capacity
            invariant
                0 <= i <= capacity,
                values@.len() == i,
                forall|j: int| 0 <= j < i ==> values@[j] == 0i64,
            decreases capacity - i,
        {
            values.push(0);
            i = i + 1;
        }
        RollingHistory { values }
    }

    /// Evicts the oldest value and appends `v`; the length is unchanged.
    pub fn push(&mut self, v: i64)
        requires
            old(self).values@.len() >= 1,
        ensures
            final(self).values@ == pushed_once(old(self).values@, v),
            final(self).values@.len() == old(self).values@.len(),
    {
        self.values.remove(0);
        self.values.push(v);
        proof {
            assert(self.values@ =~= pushed_once(old(self).values@, v));
        }
    }
}

/// Pushing keeps the length: a history never grows or shrinks.
pub proof fn lemma_pushed_all_len(h: Seq<i64>, vs: Seq<i64>)
    requires
        h.len() >= 1,
    ensures
        pushed_all(h, vs).len() == h.len(),
    decreases vs.len(),
{
    if vs.len() > 0 {
        lemma_pushed_all_len(h, vs.drop_last());
    }
}

/// Law: after any sequence of pushes, a history of capacity `c` holds
/// exactly the last `c` values of the initial contents followed by the
/// pushed values, in chronological order.
pub proof fn lemma_rolling_window(h: Seq<i64>, vs: Seq<i64>)
    requires
        h.len() >= 1,
    ensures
        pushed_all(h, vs) == (h + vs).subrange((h + vs).len() - h.len(), (h + vs).len() as int),
    decreases vs.len(),
{
    if vs.len() == 0 {
        assert((h + vs).subrange((h + vs).len() - h.len(), (h + vs).len() as int) =~= h);
    } else {
        lemma_rolling_window(h, vs.drop_last());
        lemma_pushed_all_len(h, vs.drop_last());
        let all = h + vs;
        let prev_all = h + vs.drop_last();
        let c = h.len() as int;
        assert(pushed_all(h, vs) =~= all.subrange(all.len() - c, all.len() as int)) by {
            assert(pushed_all(h, vs) == pushed_once(pushed_all(h, vs.drop_last()), vs.last()));
            assert(forall|i: int|
                0 <= i < prev_all.len() ==> prev_all[i] == #[trigger] all[i]);
        }
    }
}

/// Law: once at least `capacity` values have been pushed, the history holds
/// exactly the most recent `capacity` pushed values, oldest first.
pub proof fn lemma_rolling_window_full(h: Seq<i64>, vs: Seq<i64>)
    requires
        h.len() >= 1,
        vs.len() >= h.len(),
    ensures
        pushed_all(h, vs) == vs.subrange(vs.len() - h.len(), vs.len() as int),
{
    lemma_rolling_window(h, vs);
    assert((h + vs).subrange((h + vs).len() - h.len(), (h + vs).len() as int) =~= vs.subrange(
        vs.len() - h.len(),
        vs.len() as int,
    ));
}

} // verus!
