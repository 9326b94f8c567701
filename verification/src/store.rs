use vstd::prelude::*;

verus! {

/// The set of values a node has learned, kept in first-learned order.
/// The store only grows, and no value ever appears in it twice.
pub struct ValueStore {
    values: Vec<u64>,
}

impl View for ValueStore {
    type V = Seq<u64>;

    closed spec fn view(&self) -> Seq<u64> {
        self.values@
    }
}

/// The contents of a store after recording `v`: unchanged when `v` was
/// already present, extended by `v` at the end otherwise.
pub open spec fn recorded(s: Seq<u64>, v: u64) -> Seq<u64> {
    if s.contains(v) {
        s
    } else {
        s.push(v)
    }
}

/// A sequence in which no value appears twice.
pub open spec fn distinct_values(s: Seq<u64>) -> bool {
    forall|i: int, j: int| 0 <= i < j < s.len() ==> s[i] != s[j]
}

impl ValueStore {
    /// The store's invariant: it never holds a duplicate value.
    pub open spec fn wf(&self) -> bool {
        distinct_values(self@)
    }

    /// An empty store, the state of a node before any value arrives.
    pub fn new() -> (s: Self)
        ensures
            s@ == Seq::<u64>::empty(),
            s.wf(),
    {
        ValueStore { values: Vec::new() }
    }

    /// Whether `v` has been recorded on this node.
    pub fn contains(&self, v: u64) -> (r: bool)
        ensures
            r == self@.contains(v),
    {
        let mut i: usize = 0;
        while i < self.values.len()
            invariant
                i <= self.values.len(),
                forall|k: int| 0 <= k < i ==> self.values@[k] != v,
            decreases self.values.len() - i,
        {
            if self.values[i] == v {
                return true;
            }
            i += 1;
        }
        false
    }

    /// Inserts `v` if it is absent and reports whether it was newly
    /// inserted: `true` means first time seen (so it must be propagated),
    /// `false` means duplicate (propagation is suppressed).
    pub fn record(&mut self, v: u64) -> (newly: bool)
        requires
            old(self).wf(),
        ensures
            newly == !old(self)@.contains(v),
            final(self)@ == recorded(old(self)@, v),
            final(self).wf(),
    {
        if self.contains(v) {
            false
        } else {
            self.values.push(v);
            true
        }
    }

    /// A point-in-time copy of everything recorded so far.
    pub fn snapshot(&self) -> (r: Vec<u64>)
        ensures
            r@ == self@,
    {
        let r = self.values.clone();
        proof {
            assert(r@ =~= self@);
        }
        r
    }
}

} // verus!
