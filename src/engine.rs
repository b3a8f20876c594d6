use vstd::prelude::*;
use crate::fee::{MarketFees, market_fees_for, max_fee_for, PRIORITY_FEE};
use crate::inflight::{InFlight, after_acquire, after_release};
use crate::ledger::{
    Ledger, LedgerEntry, TxStatus, applicable, first_applicable, first_with_nonce, keep_last, ledger_step,
    marked, next_applied, settled, LEDGER_CAPACITY,
};
use crate::method::TxMethod;
use crate::nonce::NonceSequencer;
use crate::poller::{Outcome, receipt_outcome, classify_receipt};

verus! {

/// Gas limit of a plain value transfer.
pub const TRANSFER_GAS: u64 = 21000;

/// How a transaction pays for gas.
#[derive(Clone, Copy, Debug, PartialEq, Eq, Structural)]
pub enum FeeChoice {
    /// A single gas price.
    Legacy(u128),
    /// Fee-market fields.
    Market(MarketFees),
}

/// A transfer to the sender's own account, ready to be signed.
#[derive(Clone, Copy, Debug, PartialEq, Eq, Structural)]
pub struct PlannedTx {
    pub nonce: u64,
    pub value: u64,
    pub gas: u64,
    pub fee: FeeChoice,
}

/// The fee fields a method uses for a fee chosen by the fee policy.
pub open spec fn fee_choice_for(method: TxMethod, fee: u128) -> FeeChoice {
    match method {
        TxMethod::Async => FeeChoice::Legacy(fee),
        _ => FeeChoice::Market(MarketFees { max_fee: max_fee_for(fee) as u128, priority_fee: PRIORITY_FEE }),
    }
}

/// The transaction to sign for one submission.
pub fn plan_tx(method: TxMethod, nonce: u64, value: u64, fee: u128) -> (r: PlannedTx)
    ensures
        r == (PlannedTx { nonce, value, gas: TRANSFER_GAS, fee: fee_choice_for(method, fee) }),
{
    let fee = match method {
        TxMethod::Async => FeeChoice::Legacy(fee),
        _ => FeeChoice::Market(market_fees_for(fee)),
    };
    PlannedTx { nonce, value, gas: TRANSFER_GAS, fee }
}

/// The ledger status an outcome settles to.
pub open spec fn status_of(o: Outcome) -> TxStatus {
    match o {
        Outcome::Confirmed => TxStatus::Confirmed,
        Outcome::Failed(_) => TxStatus::Failed,
    }
}

fn outcome_status(o: Outcome) -> (r: TxStatus)
    ensures
        r == status_of(o),
{
    match o {
        Outcome::Confirmed => TxStatus::Confirmed,
        Outcome::Failed(_) => TxStatus::Failed,
    }
}

/// Starts a speculative submission: takes an in-flight slot and the next
/// nonce, and plans the transaction. At the cap the intent is dropped:
/// nothing changes and the result is `None`.
pub fn begin_submission(
    seq: &mut NonceSequencer,
    slots: &mut InFlight,
    method: TxMethod,
    value: u64,
    fee: u128,
) -> (r: Option<PlannedTx>)
    requires
        old(seq).wf(),
        old(slots).wf(),
        old(seq).current_spec() < u64::MAX,
    ensures
        final(seq).wf(),
        final(slots).wf(),
        final(slots).cap_spec() == old(slots).cap_spec(),
        final(slots).count_spec() == after_acquire(old(slots).count_spec(), old(slots).cap_spec()),
        final(seq).start_spec() == old(seq).start_spec(),
        old(slots).count_spec() < old(slots).cap_spec() ==> {
            &&& r == Some(PlannedTx { nonce: old(seq).current_spec(), value, gas: TRANSFER_GAS, fee: fee_choice_for(method, fee) })
            &&& final(seq).current_spec() == old(seq).current_spec() + 1
        },
        old(slots).count_spec() >= old(slots).cap_spec() ==> {
            &&& r is None
            &&& final(seq).current_spec() == old(seq).current_spec()
        },
{
    if !slots.try_acquire() {
        return None;
    }
    let nonce = seq.next();
    Some(plan_tx(method, nonce, value, fee))
}

/// A submission failed before anything was recorded: its slot is released.
pub fn submission_failed(slots: &mut InFlight)
    requires
        old(slots).wf(),
    ensures
        final(slots).wf(),
        final(slots).cap_spec() == old(slots).cap_spec(),
        final(slots).count_spec() == after_release(old(slots).count_spec()),
{
    slots.release();
}

/// A polled transaction was sent and its hash is known: it is recorded as
/// pending.
pub fn record_sent<T: Copy>(ledger: &mut Ledger<T>, nonce: u64, hash: [u8; 32], submitted_at: u64, tag: Option<T>)
    requires
        old(ledger).wf(),
    ensures
        final(ledger).wf(),
        final(ledger)@ == keep_last(
            old(ledger)@.push(LedgerEntry { nonce, hash, status: TxStatus::Pending, submitted_at, confirmed_after: None, tag, applied: false }),
            LEDGER_CAPACITY as nat,
        ),
        final(ledger).history() == old(ledger).history().push(nonce),
{
    ledger.record(LedgerEntry::submitted(nonce, hash, TxStatus::Pending, submitted_at, None, tag));
}

/// A single-round-trip submission came back with a receipt: the entry is
/// recorded already settled by the receipt's status flag, and a failure
/// releases its slot.
pub fn record_receipt<T: Copy>(
    ledger: &mut Ledger<T>,
    slots: &mut InFlight,
    nonce: u64,
    hash: [u8; 32],
    receipt_status: Option<u64>,
    submitted_at: u64,
    elapsed: u64,
    tag: Option<T>,
) -> (r: Outcome)
    requires
        old(ledger).wf(),
        old(slots).wf(),
    ensures
        r == receipt_outcome(receipt_status),
        final(ledger).wf(),
        final(slots).wf(),
        final(ledger)@ == keep_last(
            old(ledger)@.push(LedgerEntry { nonce, hash, status: status_of(r), submitted_at, confirmed_after: Some(elapsed), tag, applied: false }),
            LEDGER_CAPACITY as nat,
        ),
        final(ledger).history() == old(ledger).history().push(nonce),
        final(slots).cap_spec() == old(slots).cap_spec(),
        final(slots).count_spec() == if r == Outcome::Confirmed {
            old(slots).count_spec()
        } else {
            after_release(old(slots).count_spec())
        },
{
    let outcome = classify_receipt(receipt_status);
    let status = outcome_status(outcome);
    ledger.record(LedgerEntry::submitted(nonce, hash, status, submitted_at, Some(elapsed), tag));
    if status == TxStatus::Failed {
        slots.release();
    }
    outcome
}

/// The poller settled a transaction: its entry (if still present and still
/// pending) takes the outcome, and a failure releases the slot, exactly
/// once, whether or not the entry was still present.
pub fn settle_polled<T: Copy>(
    ledger: &mut Ledger<T>,
    slots: &mut InFlight,
    nonce: u64,
    outcome: Outcome,
    elapsed: u64,
) -> (r: bool)
    requires
        old(ledger).wf(),
        old(slots).wf(),
    ensures
        final(ledger).wf(),
        final(slots).wf(),
        final(ledger).history() == old(ledger).history(),
        ledger_step(old(ledger)@, final(ledger)@),
        r <==> exists|i: int| first_with_nonce(old(ledger)@, nonce, i)
            && old(ledger)@[i].status == TxStatus::Pending,
        r ==> exists|i: int| first_with_nonce(old(ledger)@, nonce, i)
            && final(ledger)@ == old(ledger)@.update(
                i,
                settled(old(ledger)@[i], status_of(outcome), Some(elapsed)),
            ),
        !r ==> final(ledger)@ == old(ledger)@,
        final(slots).cap_spec() == old(slots).cap_spec(),
        final(slots).count_spec() == if outcome == Outcome::Confirmed {
            old(slots).count_spec()
        } else {
            after_release(old(slots).count_spec())
        },
{
    let status = outcome_status(outcome);
    let changed = ledger.update_status(nonce, status, Some(elapsed));
    if status == TxStatus::Failed {
        slots.release();
    }
    changed
}

/// One tick of the speculative applier: the oldest confirmed, tagged entry
/// not yet applied is marked applied, its slot is released, and its tag is
/// returned. With none, nothing changes.
pub fn apply_next<T: Copy>(ledger: &mut Ledger<T>, slots: &mut InFlight) -> (r: Option<T>)
    requires
        old(ledger).wf(),
        old(slots).wf(),
    ensures
        final(ledger).wf(),
        final(slots).wf(),
        final(ledger).history() == old(ledger).history(),
        ledger_step(old(ledger)@, final(ledger)@),
        final(slots).cap_spec() == old(slots).cap_spec(),
        r == next_applied(old(ledger)@),
        match r {
            Some(t) => {
                &&& exists|i: int| first_applicable(old(ledger)@, i)
                    && old(ledger)@[i].tag == Some(t)
                    && final(ledger)@ == old(ledger)@.update(i, marked(old(ledger)@[i]))
                &&& final(slots).count_spec() == after_release(old(slots).count_spec())
            },
            None => {
                &&& final(ledger)@ == old(ledger)@
                &&& forall|j: int| 0 <= j < old(ledger)@.len() ==> !applicable(#[trigger] old(ledger)@[j])
                &&& final(slots).count_spec() == old(slots).count_spec()
            },
        },
{
    let r = ledger.take_next_applicable();
    if r.is_some() {
        slots.release();
    }
    r
}

/// Effects are applied in insertion order: when an entry's effect is
/// applied, no older entry was waiting to be applied, whatever order the
/// confirmations arrived in.
pub proof fn lemma_applied_in_insertion_order<T>(s: Seq<LedgerEntry<T>>, i: int, j: int)
    requires
        first_applicable(s, i),
        0 <= j < i,
    ensures
        !applicable(s[j]),
{
}

} // verus!
