//! The shared state store: an immutable name and a counter that request
//! handlers increment. The surrounding runtime funnels every access
//! through a mutual-exclusion lock held only across the read-add-write
//! step, so each call here is atomic against all other callers.

use vstd::prelude::*;

verus! {

/// Mathematical model of the store.
pub struct StateModel {
    pub name: Seq<u8>,
    pub counter: int,
}

/// Process-wide shared state: created once at startup, shared by
/// reference across concurrently handled requests.
pub struct AppState {
    pub name: Vec<u8>,
    pub counter: i32,
}

impl AppState {
    pub open spec fn model(&self) -> StateModel {
        StateModel { name: self.name@, counter: self.counter as int }
    }

    pub fn new(name: Vec<u8>) -> (r: AppState)
        ensures
            r.model() == (StateModel { name: name@, counter: 0 }),
    {
        AppState { name, counter: 0 }
    }

    /// Read the counter, add one, write it back, and return the new
    /// value. The caller holds the store's lock across exactly this
    /// step, so concurrent increments serialize with no torn reads.
    pub fn increment(&mut self) -> (r: i32)
        requires
            old(self).counter < i32::MAX,
        ensures
            final(self).model() == (StateModel {
                name: old(self).model().name,
                counter: old(self).model().counter + 1,
            }),
            r as int == old(self).model().counter + 1,
    {
        self.counter = self.counter + 1;
        self.counter
    }
}

/// The counter after `n` atomic increments from `c0`.
pub open spec fn counter_after(c0: int, n: nat) -> int {
    c0 + n
}

/// The values the `n` callers see, in serialization order.
pub open spec fn returns_after(c0: int, n: nat) -> Seq<int> {
    Seq::new(n, |i: int| c0 + i + 1)
}

/// Counter atomicity: when `n` concurrent increments of a counter at
/// `c0` serialize under the lock, the final value is exactly `c0 + n`,
/// and the values handed back to the callers are exactly `c0 + 1`
/// through `c0 + n` — no duplicates and no gaps — whichever caller got
/// which position in the serialization order.
pub proof fn lemma_counter_atomicity(c0: int, n: nat)
    ensures
        returns_after(c0, n).len() == n,
        counter_after(c0, n) == c0 + n,
        forall|i: int| 0 <= i < n ==> returns_after(c0, n)[i] == c0 + i + 1,
        forall|i: int, j: int| 0 <= i < j < n
            ==> returns_after(c0, n)[i] != returns_after(c0, n)[j],
        forall|v: int| #[trigger] returns_after(c0, n).contains(v) <==> c0 < v <= c0 + n,
{
    assert forall|v: int| #[trigger] returns_after(c0, n).contains(v) <==> c0 < v <= c0 + n by {
        if c0 < v <= c0 + n {
            assert(returns_after(c0, n)[v - c0 - 1] == v);
        }
        if returns_after(c0, n).contains(v) {
            let i = choose|i: int| 0 <= i < n && returns_after(c0, n)[i] == v;
            assert(returns_after(c0, n)[i] == c0 + i + 1);
        }
    }
}

/// Run `n` increments back to back, as the lock serializes `n`
/// concurrent callers, and collect the returned values in order.
pub fn run_increments(state: &mut AppState, n: u32) -> (r: Vec<i32>)
    requires
        old(state).counter + n <= i32::MAX,
    ensures
        final(state).model().counter == counter_after(old(state).model().counter, n as nat),
        final(state).model().name == old(state).model().name,
        r@.len() == n,
        forall|i: int| 0 <= i < n
            ==> r@[i] as int == returns_after(old(state).model().counter, n as nat)[i],
{
    let mut r: Vec<i32> = Vec::new();
    let ghost c0 = state.model().counter;
    let ghost nm = state.model().name;
    let mut k: u32 = 0;
    while k < n
        invariant
            k <= n,
            c0 + n <= i32::MAX,
            state.model().counter == c0 + k,
            state.model().name == nm,
            r@.len() == k,
            forall|i: int| 0 <= i < k ==> r@[i] as int == c0 + i + 1,
        decreases n - k,
    {
        let v = state.increment();
        r.push(v);
        k = k + 1;
    }
    r
}

} // verus!
