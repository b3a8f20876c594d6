use vstd::prelude::*;

verus! {

/// The nonces handed out by `count` calls starting from `start`.
pub open spec fn nonce_run(start: u64, count: nat) -> Seq<u64> {
    Seq::new(count, |i: int| (start + i) as u64)
}

/// Hands out strictly increasing nonces for one account.
///
/// Concurrent submitters share one sequencer behind a lock; the lock is held
/// only for one call of `next`.
pub struct NonceSequencer {
    start: u64,
    current: u64,
}

impl NonceSequencer {
    /// The first nonce this sequencer handed out (or will hand out).
    pub closed spec fn start_spec(&self) -> u64 {
        self.start
    }

    /// The nonce that the next call of `next` returns.
    pub closed spec fn current_spec(&self) -> u64 {
        self.current
    }

    /// Everything handed out so far, in order.
    pub open spec fn issued(&self) -> Seq<u64> {
        nonce_run(self.start_spec(), (self.current_spec() - self.start_spec()) as nat)
    }

    pub closed spec fn wf(&self) -> bool {
        self.start <= self.current
    }

    /// Starts from the account's current transaction count.
    pub fn new(start: u64) -> (r: Self)
        ensures
            r.wf(),
            r.start_spec() == start,
            r.current_spec() == start,
            r.issued() == Seq::<u64>::empty(),
    {
        let r = NonceSequencer { start, current: start };
        assert(r.issued() =~= Seq::<u64>::empty());
        r
    }

    /// The nonce that the next call of `next` returns.
    pub fn peek(&self) -> (r: u64)
        ensures
            r == self.current_spec(),
    {
        self.current
    }

    /// Returns the next nonce and advances the counter by one.
    pub fn next(&mut self) -> (r: u64)
        requires
            old(self).wf(),
            old(self).current_spec() < u64::MAX,
        ensures
            final(self).wf(),
            r == old(self).current_spec(),
            final(self).start_spec() == old(self).start_spec(),
            final(self).current_spec() == old(self).current_spec() + 1,
            final(self).issued() == old(self).issued().push(r),
    {
        let r = self.current;
        self.current = self.current + 1;
        assert(self.issued() =~= old(self).issued().push(r));
        r
    }

    /// Draws `count` nonces one after another.
    pub fn next_many(&mut self, count: u64) -> (r: Vec<u64>)
        requires
            old(self).wf(),
            old(self).current_spec() + count <= u64::MAX,
        ensures
            final(self).wf(),
            r@ == nonce_run(old(self).current_spec(), count as nat),
            final(self).start_spec() == old(self).start_spec(),
            final(self).current_spec() == old(self).current_spec() + count,
            final(self).issued() == old(self).issued() + r@,
    {
        let mut r: Vec<u64> = Vec::new();
        let mut k: u64 = 0;
        while k < count
            invariant
                self.wf(),
                k <= count,
                old(self).current_spec() + count <= u64::MAX,
                self.start_spec() == old(self).start_spec(),
                self.current_spec() == old(self).current_spec() + k,
                r@ == nonce_run(old(self).current_spec(), k as nat),
                self.issued() == old(self).issued() + r@,
            decreases count - k,
        {
            let n = self.next();
            r.push(n);
            k = k + 1;
            assert(r@ =~= nonce_run(old(self).current_spec(), k as nat));
            assert(self.issued() =~= old(self).issued() + r@);
        }
        r
    }
}

/// However many nonces are drawn, they are exactly `start, start + 1, ...,
/// start + count - 1`: no value twice and no value left out.
pub proof fn lemma_nonce_run_exact(start: u64, count: nat)
    requires
        start + count <= u64::MAX + 1,
    ensures
        nonce_run(start, count).no_duplicates(),
        nonce_run(start, count).to_set() =~= Set::new(
            |n: u64| start <= n && n < start + count,
        ),
        forall|i: int, j: int|
            0 <= i < j < count ==> nonce_run(start, count)[i] < nonce_run(start, count)[j],
{
    let s = nonce_run(start, count);
    assert forall|n: u64| #[trigger] s.to_set().contains(n) <==> (start <= n && n < start + count) by {
        if start <= n && n < start + count {
            assert(s[n - start] == n);
        }
    }
}

} // verus!
