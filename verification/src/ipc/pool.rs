//! Pools of connections: each connection counts its users, and the least used
//! one is handed out.

use vstd::prelude::*;
use std::sync::Arc;
use std::sync::atomic::AtomicUsize;

verus! {

/// The index of the smallest count; the first such index when several counts
/// are equally small.
pub fn least_used_index(counts: &Vec<usize>) -> (i: usize)
    requires
        counts@.len() > 0,
    ensures
        i < counts@.len(),
        forall|j: int| 0 <= j < counts@.len() ==> counts@[i as int] <= counts@[j],
        forall|j: int| 0 <= j < i ==> counts@[j] > counts@[i as int],
{
    let mut best: usize = 0;
    let mut k: usize = 1;
    while k < counts.len()
        invariant
            counts@.len() > 0,
            best < k <= counts@.len(),
            forall|j: int| 0 <= j < k ==> counts@[best as int] <= counts@[j],
            forall|j: int| 0 <= j < best ==> counts@[j] > counts@[best as int],
        decreases counts@.len() - k,
    {
        if counts[k] < counts[best] {
            best = k;
        }
        k = k + 1;
    }
    best
}

/// A value shared by several users, with a count of its users that all
/// clones of the guard share.
pub struct PoolGuard<T> {
    inner: T,
    count: Arc<AtomicUsize>,
}

impl<T> PoolGuard<T> {
    /// The guarded value.
    pub closed spec fn spec_inner(&self) -> T {
        self.inner
    }

    /// A guard for `inner` with a user count of zero.
    pub fn new(inner: T) -> (g: PoolGuard<T>)
        ensures
            g.spec_inner() == inner,
    {
        PoolGuard { inner, count: Arc::new(AtomicUsize::new(0)) }
    }

    /// Adds one user to the count.
    pub fn acquire(&self) {
        let _previous = self.count.fetch_add(1, std::sync::atomic::Ordering::Relaxed);
    }

    /// Removes one user from the count.
    pub fn release(&self) {
        let _previous = self.count.fetch_sub(1, std::sync::atomic::Ordering::Relaxed);
    }

    /// The current user count. Other users may change it at any time, so
    /// nothing is known of the number returned.
    pub fn count(&self) -> usize {
        self.count.load(std::sync::atomic::Ordering::Relaxed)
    }

    /// The guarded value.
    pub fn inner(&self) -> (r: &T)
        ensures
            *r == self.spec_inner(),
    {
        &self.inner
    }
}

impl<T: Clone> Clone for PoolGuard<T> {
    /// Another guard for a clone of the value, sharing the user count, which
    /// grows by one.
    fn clone(&self) -> (r: Self)
        ensures
            cloned::<T>(self.spec_inner(), r.spec_inner()),
    {
        self.acquire();
        PoolGuard { inner: self.inner.clone(), count: Arc::clone(&self.count) }
    }
}

/// Several values of which the least used one is handed out.
pub struct PooledContext<T> {
    contexts: Vec<PoolGuard<T>>,
}

impl<T: Clone> PooledContext<T> {
    /// The number of values in the pool.
    pub closed spec fn spec_len(&self) -> nat {
        self.contexts@.len()
    }

    /// The value at position `i` of the pool.
    pub closed spec fn spec_at(&self, i: int) -> T {
        self.contexts@[i].spec_inner()
    }

    /// A pool of the values `contexts`, each with a user count of zero.
    pub fn new(contexts: Vec<T>) -> (p: PooledContext<T>)
        ensures
            p.spec_len() == contexts@.len(),
            forall|i: int| 0 <= i < contexts@.len() ==> p.spec_at(i) == contexts@[i],
    {
        let mut guards: Vec<PoolGuard<T>> = Vec::new();
        let mut rest = contexts;
        let ghost all = rest@;
        while rest.len() > 0
            invariant
                guards@.len() + rest@.len() == all.len(),
                forall|i: int| 0 <= i < guards@.len() ==> #[trigger] guards@[i].spec_inner() == all[all.len() - 1 - i],
                forall|i: int| 0 <= i < rest@.len() ==> rest@[i] == all[i],
            decreases rest@.len(),
        {
            let c = rest.pop().unwrap();
            guards.push(PoolGuard::new(c));
        }
        // the guards were collected back to front
        let mut ordered: Vec<PoolGuard<T>> = Vec::new();
        while guards.len() > 0
            invariant
                ordered@.len() + guards@.len() == all.len(),
                forall|i: int| 0 <= i < ordered@.len() ==> #[trigger] ordered@[i].spec_inner() == all[i],
                forall|i: int| 0 <= i < guards@.len() ==> #[trigger] guards@[i].spec_inner() == all[all.len() - 1 - i],
            decreases guards@.len(),
        {
            let g = guards.pop().unwrap();
            ordered.push(g);
        }
        PooledContext { contexts: ordered }
    }

    /// A clone of the value with the smallest user count (the first such one
    /// when several are equally used); its count grows by one.
    pub fn acquire(&self) -> (g: PoolGuard<T>)
        requires
            self.spec_len() > 0,
        ensures
            exists|i: int| 0 <= i < self.spec_len() && cloned::<T>(self.spec_at(i), g.spec_inner()),
    {
        let mut counts: Vec<usize> = Vec::new();
        let mut k: usize = 0;
        while k < self.contexts.len()
            invariant
                k <= self.contexts@.len(),
                counts@.len() == k,
            decreases self.contexts@.len() - k,
        {
            counts.push(self.contexts[k].count());
            k = k + 1;
        }
        let i = least_used_index(&counts);
        let g = self.contexts[i].clone();
        assert(cloned::<T>(self.spec_at(i as int), g.spec_inner()));
        g
    }
}

} // verus!
