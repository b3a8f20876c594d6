use vstd::prelude::*;

verus! {

/// Number of entries the ledger keeps.
pub const LEDGER_CAPACITY: usize = 10;

/// Settlement state of a submitted transaction.
#[derive(Clone, Copy, Debug, PartialEq, Eq, Structural)]
pub enum TxStatus {
    Pending,
    Confirmed,
    Failed,
}

/// One row of the ledger. `tag` is caller metadata that the ledger does not
/// read (the game stores the intended direction there).
#[derive(Clone, Copy, Debug)]
pub struct LedgerEntry<T> {
    pub nonce: u64,
    /// The transaction hash.
    pub hash: [u8; 32],
    pub status: TxStatus,
    /// Milliseconds since the caller's epoch when submission began.
    pub submitted_at: u64,
    /// Milliseconds from submission to settlement, once known.
    pub confirmed_after: Option<u64>,
    pub tag: Option<T>,
    pub applied: bool,
}

impl<T: Copy> LedgerEntry<T> {
    /// An entry as a submission path records it: never applied yet.
    pub fn submitted(
        nonce: u64,
        hash: [u8; 32],
        status: TxStatus,
        submitted_at: u64,
        confirmed_after: Option<u64>,
        tag: Option<T>,
    ) -> (r: Self)
        ensures
            r.nonce == nonce,
            r.hash == hash,
            r.status == status,
            r.submitted_at == submitted_at,
            r.confirmed_after == confirmed_after,
            r.tag == tag,
            !r.applied,
    {
        LedgerEntry { nonce, hash, status, submitted_at, confirmed_after, tag, applied: false }
    }
}

/// The last `cap` items of `s` (all of them when there are fewer).
pub open spec fn keep_last<A>(s: Seq<A>, cap: nat) -> Seq<A> {
    if s.len() <= cap {
        s
    } else {
        s.subrange(s.len() - cap, s.len() as int)
    }
}

/// The nonces of a sequence of entries.
pub open spec fn nonces_of<T>(s: Seq<LedgerEntry<T>>) -> Seq<u64> {
    s.map_values(|e: LedgerEntry<T>| e.nonce)
}

/// Whether `new` is a legal successor of `old` for one entry: identity is
/// kept, status only leaves `Pending`, and `applied` never reverts.
pub open spec fn entry_step<T>(old: LedgerEntry<T>, new: LedgerEntry<T>) -> bool {
    &&& new.nonce == old.nonce
    &&& new.hash == old.hash
    &&& new.submitted_at == old.submitted_at
    &&& new.tag == old.tag
    &&& (old.status != TxStatus::Pending ==> new.status == old.status && new.confirmed_after
        == old.confirmed_after)
    &&& (old.applied ==> new.applied)
}

/// Whether `i` is the position of the oldest entry with this nonce.
pub open spec fn first_with_nonce<T>(s: Seq<LedgerEntry<T>>, nonce: u64, i: int) -> bool {
    &&& 0 <= i < s.len()
    &&& s[i].nonce == nonce
    &&& forall|j: int| 0 <= j < i ==> s[j].nonce != nonce
}

/// Whether an entry may have its effect applied now.
pub open spec fn applicable<T>(e: LedgerEntry<T>) -> bool {
    e.status == TxStatus::Confirmed && e.tag.is_some() && !e.applied
}

/// Whether `i` is the position of the oldest applicable entry.
pub open spec fn first_applicable<T>(s: Seq<LedgerEntry<T>>, i: int) -> bool {
    &&& 0 <= i < s.len()
    &&& applicable(s[i])
    &&& forall|j: int| 0 <= j < i ==> !applicable(#[trigger] s[j])
}

/// The tag of the oldest applicable entry, if there is one.
pub open spec fn next_applied<T>(s: Seq<LedgerEntry<T>>) -> Option<T> {
    if exists|i: int| first_applicable(s, i) {
        s[choose|i: int| first_applicable(s, i)].tag
    } else {
        None
    }
}

/// There is at most one oldest applicable entry.
pub proof fn lemma_first_applicable_unique<T>(s: Seq<LedgerEntry<T>>, i: int, j: int)
    requires
        first_applicable(s, i),
        first_applicable(s, j),
    ensures
        i == j,
{
    if i < j {
        assert(!applicable(s[i]));
    } else if j < i {
        assert(!applicable(s[j]));
    }
}

/// `e` settled with `status` after `after` milliseconds.
pub open spec fn settled<T>(e: LedgerEntry<T>, status: TxStatus, after: Option<u64>) -> LedgerEntry<T> {
    LedgerEntry { status, confirmed_after: after, ..e }
}

/// `e` with its effect marked as applied.
pub open spec fn marked<T>(e: LedgerEntry<T>) -> LedgerEntry<T> {
    LedgerEntry { applied: true, ..e }
}

/// Whether every entry of `new` is a legal successor of the same entry of `old`.
pub open spec fn ledger_step<T>(old: Seq<LedgerEntry<T>>, new: Seq<LedgerEntry<T>>) -> bool {
    &&& new.len() == old.len()
    &&& forall|i: int| 0 <= i < old.len() ==> entry_step(old[i], new[i])
}

/// Bounded history of submitted transactions, oldest first.
pub struct Ledger<T> {
    entries: Vec<LedgerEntry<T>>,
    /// Nonces of every entry recorded since the ledger was made or last
    /// cleared, oldest first.
    recorded: Ghost<Seq<u64>>,
}

impl<T: Copy> Ledger<T> {
    pub closed spec fn view(&self) -> Seq<LedgerEntry<T>> {
        self.entries@
    }

    /// The nonces of all entries recorded since the ledger was made or last
    /// cleared, evicted ones included.
    pub closed spec fn history(&self) -> Seq<u64> {
        self.recorded@
    }

    /// At most the capacity, and exactly the most recently recorded entries.
    pub open spec fn wf(&self) -> bool {
        &&& self@.len() <= LEDGER_CAPACITY
        &&& nonces_of(self@) == keep_last(self.history(), LEDGER_CAPACITY as nat)
    }

    pub fn new() -> (r: Self)
        ensures
            r.wf(),
            r@ == Seq::<LedgerEntry<T>>::empty(),
            r.history() == Seq::<u64>::empty(),
    {
        let r = Ledger { entries: Vec::new(), recorded: Ghost(Seq::empty()) };
        assert(nonces_of(r.entries@) =~= Seq::<u64>::empty());
        r
    }

    pub fn len(&self) -> (r: usize)
        ensures
            r == self@.len(),
    {
        self.entries.len()
    }

    /// The entries, oldest first.
    pub fn snapshot(&self) -> (r: &Vec<LedgerEntry<T>>)
        ensures
            r@ == self@,
    {
        &self.entries
    }

    /// Forgets every entry, as when a new game starts.
    pub fn clear(&mut self)
        requires
            old(self).wf(),
        ensures
            final(self).wf(),
            final(self)@ == Seq::<LedgerEntry<T>>::empty(),
            final(self).history() == Seq::<u64>::empty(),
    {
        self.entries.clear();
        self.recorded = Ghost(Seq::empty());
        assert(nonces_of(self.entries@) =~= Seq::<u64>::empty());
    }

    /// Appends an entry; if the ledger then holds more than its capacity,
    /// the oldest entry is dropped.
    pub fn record(&mut self, entry: LedgerEntry<T>)
        requires
            old(self).wf(),
        ensures
            final(self).wf(),
            final(self)@ == keep_last(old(self)@.push(entry), LEDGER_CAPACITY as nat),
            final(self).history() == old(self).history().push(entry.nonce),
    {
        self.entries.push(entry);
        self.recorded = Ghost(self.recorded@.push(entry.nonce));
        let ghost pushed = old(self)@.push(entry);
        assert(nonces_of(pushed) =~= nonces_of(old(self)@).push(entry.nonce));
        if self.entries.len() > LEDGER_CAPACITY {
            self.entries.remove(0);
            assert(self.entries@ =~= keep_last(pushed, LEDGER_CAPACITY as nat));
            assert(nonces_of(self.entries@) =~= nonces_of(pushed).subrange(1, pushed.len() as int));
            assert(old(self).recorded@.len() >= LEDGER_CAPACITY);
            assert(nonces_of(self.entries@) =~= keep_last(self.recorded@, LEDGER_CAPACITY as nat));
        } else {
            assert(nonces_of(self.entries@) =~= keep_last(self.recorded@, LEDGER_CAPACITY as nat));
        }
    }

    /// Position of the oldest entry with this nonce.
    fn find_nonce(&self, nonce: u64) -> (r: Option<usize>)
        ensures
            match r {
                Some(i) => first_with_nonce(self@, nonce, i as int),
                None => forall|j: int| 0 <= j < self@.len() ==> self@[j].nonce != nonce,
            },
    {
        let mut i: usize = 0;
        while i < self.entries.len()
            invariant
                i <= self.entries@.len(),
                forall|j: int| 0 <= j < i ==> self.entries@[j].nonce != nonce,
            decreases self.entries@.len() - i,
        {
            if self.entries[i].nonce == nonce {
                return Some(i);
            }
            i = i + 1;
        }
        None
    }

    /// Settles the oldest entry with this nonce, if it is still pending.
    /// Returns whether an entry changed; a nonce that is no longer present,
    /// or an entry already settled, leaves the ledger as it is.
    pub fn update_status(&mut self, nonce: u64, status: TxStatus, confirmed_after: Option<u64>) -> (r: bool)
        requires
            old(self).wf(),
            status != TxStatus::Pending,
        ensures
            final(self).wf(),
            final(self).history() == old(self).history(),
            r <==> exists|i: int| first_with_nonce(old(self)@, nonce, i) && old(self)@[i].status == TxStatus::Pending,
            r ==> exists|i: int| first_with_nonce(old(self)@, nonce, i)
                && final(self)@ == old(self)@.update(i, settled(old(self)@[i], status, confirmed_after)),
            !r ==> final(self)@ == old(self)@,
            ledger_step(old(self)@, final(self)@),
    {
        match self.find_nonce(nonce) {
            Some(i) => {
                let e = self.entries[i];
                if e.status == TxStatus::Pending {
                    let new_e = LedgerEntry { status, confirmed_after, ..e };
                    self.entries.set(i, new_e);
                    assert(nonces_of(self.entries@) =~= nonces_of(old(self).entries@));
                    assert(self@ =~= old(self)@.update(i as int, settled(old(self)@[i as int], status, confirmed_after)));
                    true
                } else {
                    assert(forall|k: int| first_with_nonce(old(self)@, nonce, k) ==> k == i);
                    false
                }
            },
            None => false,
        }
    }

    /// Marks the oldest entry with this nonce as applied, if it is confirmed,
    /// carries a tag and was not applied before. Returns whether it changed.
    pub fn mark_applied(&mut self, nonce: u64) -> (r: bool)
        requires
            old(self).wf(),
        ensures
            final(self).wf(),
            final(self).history() == old(self).history(),
            r <==> exists|i: int| first_with_nonce(old(self)@, nonce, i) && applicable(old(self)@[i]),
            r ==> exists|i: int| first_with_nonce(old(self)@, nonce, i)
                && final(self)@ == old(self)@.update(i, marked(old(self)@[i])),
            !r ==> final(self)@ == old(self)@,
            ledger_step(old(self)@, final(self)@),
    {
        match self.find_nonce(nonce) {
            Some(i) => {
                let e = self.entries[i];
                if e.status == TxStatus::Confirmed && e.tag.is_some() && !e.applied {
                    self.entries.set(i, LedgerEntry { applied: true, ..e });
                    assert(nonces_of(self.entries@) =~= nonces_of(old(self).entries@));
                    assert(self@ =~= old(self)@.update(i as int, marked(old(self)@[i as int])));
                    true
                } else {
                    assert(forall|k: int| first_with_nonce(old(self)@, nonce, k) ==> k == i);
                    false
                }
            },
            None => false,
        }
    }

    /// Marks the oldest applicable entry as applied and returns its tag.
    pub fn take_next_applicable(&mut self) -> (r: Option<T>)
        requires
            old(self).wf(),
        ensures
            final(self).wf(),
            final(self).history() == old(self).history(),
            ledger_step(old(self)@, final(self)@),
            r == next_applied(old(self)@),
            match r {
                Some(t) => exists|i: int| first_applicable(old(self)@, i)
                    && old(self)@[i].tag == Some(t)
                    && final(self)@ == old(self)@.update(i, marked(old(self)@[i])),
                None => final(self)@ == old(self)@
                    && forall|j: int| 0 <= j < old(self)@.len() ==> !applicable(#[trigger] old(self)@[j]),
            },
    {
        let mut i: usize = 0;
        while i < self.entries.len()
            invariant
                i <= self.entries@.len(),
                self.entries@ == old(self).entries@,
                self.recorded@ == old(self).recorded@,
                old(self).wf(),
                forall|j: int| 0 <= j < i ==> !applicable(#[trigger] self.entries@[j]),
            decreases self.entries@.len() - i,
        {
            let e = self.entries[i];
            if e.status == TxStatus::Confirmed && e.tag.is_some() && !e.applied {
                self.entries.set(i, LedgerEntry { applied: true, ..e });
                assert(nonces_of(self.entries@) =~= nonces_of(old(self).entries@));
                assert(self@ =~= old(self)@.update(i as int, marked(old(self)@[i as int])));
                assert(first_applicable(old(self)@, i as int));
                proof {
                    let k = choose|k: int| first_applicable(old(self)@, k);
                    lemma_first_applicable_unique(old(self)@, i as int, k);
                }
                return e.tag;
            }
            i = i + 1;
        }
        None
    }
}


/// However many entries were recorded, the ledger holds at most its
/// capacity, and what it holds are the most recently recorded ones, oldest
/// first.
pub proof fn lemma_ledger_keeps_newest<T: Copy>(l: Ledger<T>)
    requires
        l.wf(),
    ensures
        l@.len() <= LEDGER_CAPACITY,
        nonces_of(l@) == keep_last(l.history(), LEDGER_CAPACITY as nat),
{
}

/// `applied` only ever goes from false to true: across any step of the
/// ledger an applied entry stays applied and can never be applied again.
pub proof fn lemma_applied_once<T>(a: Seq<LedgerEntry<T>>, b: Seq<LedgerEntry<T>>, i: int)
    requires
        ledger_step(a, b),
        0 <= i < a.len(),
    ensures
        a[i].applied ==> b[i].applied,
        a[i].applied ==> !applicable(b[i]),
        !applicable(marked(a[i])),
{
}

} // verus!
