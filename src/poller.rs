use vstd::prelude::*;

verus! {

/// Receipt queries made before a transaction is declared timed out.
pub const POLL_ATTEMPTS: u32 = 300;

/// Pause between two receipt queries, in milliseconds.
pub const POLL_INTERVAL_MS: u64 = 100;

/// Why a transaction failed.
#[derive(Clone, Copy, Debug, PartialEq, Eq, Structural)]
pub enum FailReason {
    /// No receipt within the attempt budget.
    Timeout,
    /// The receipt query itself failed.
    Transport,
    /// A receipt came back without a success flag.
    Protocol,
}

/// Final outcome of a submitted transaction.
#[derive(Clone, Copy, Debug, PartialEq, Eq, Structural)]
pub enum Outcome {
    Confirmed,
    Failed(FailReason),
}

/// What one receipt query returned.
#[derive(Clone, Copy, Debug, PartialEq, Eq, Structural)]
pub enum ReceiptPoll {
    /// Not included yet.
    NotYet,
    /// A receipt, with its status flag if it carries one.
    Receipt(Option<u64>),
    /// The query failed.
    TransportError,
}

/// What the driver of the poll loop does next.
#[derive(Clone, Copy, Debug, PartialEq, Eq, Structural)]
pub enum PollAction {
    /// Sleep this many milliseconds, then query again.
    Wait(u64),
    /// Stop polling; the transaction settled.
    Settle(Outcome),
}

/// The outcome a receipt stands for: confirmed only with status flag 1.
pub open spec fn receipt_outcome(status: Option<u64>) -> Outcome {
    if status == Some(1u64) {
        Outcome::Confirmed
    } else {
        Outcome::Failed(FailReason::Protocol)
    }
}

/// What the poll loop does after the query numbered `attempts + 1` of a
/// budget of `max` returned `polled`.
pub open spec fn poll_decision(attempts: nat, max: nat, polled: ReceiptPoll) -> PollAction {
    match polled {
        ReceiptPoll::Receipt(status) => PollAction::Settle(receipt_outcome(status)),
        ReceiptPoll::TransportError => PollAction::Settle(Outcome::Failed(FailReason::Transport)),
        ReceiptPoll::NotYet => if attempts + 1 >= max {
            PollAction::Settle(Outcome::Failed(FailReason::Timeout))
        } else {
            PollAction::Wait(POLL_INTERVAL_MS)
        },
    }
}

/// Runs the poll loop from `attempts` over the replies a transport gives:
/// the outcome (if it settled within them), the milliseconds waited and the
/// number of queries made.
pub open spec fn poll_run(attempts: nat, max: nat, replies: Seq<ReceiptPoll>) -> (Option<Outcome>, nat, nat)
    decreases replies.len(),
{
    if replies.len() == 0 {
        (None, 0, 0)
    } else {
        match poll_decision(attempts, max, replies[0]) {
            PollAction::Settle(o) => (Some(o), 0, 1),
            PollAction::Wait(ms) => {
                let rest = poll_run(attempts + 1, max, replies.drop_first());
                (rest.0, (rest.1 + ms) as nat, rest.2 + 1)
            },
        }
    }
}

/// `n` replies without a receipt.
pub open spec fn misses(n: nat) -> Seq<ReceiptPoll> {
    Seq::new(n, |i: int| ReceiptPoll::NotYet)
}

/// A receipt that arrives after `k` misses, within the budget, settles by
/// its status flag after `k` waits of one interval and `k + 1` queries.
pub proof fn lemma_receipt_after_misses(attempts: nat, max: nat, k: nat, status: Option<u64>)
    requires
        attempts + k < max,
    ensures
        poll_run(attempts, max, misses(k).push(ReceiptPoll::Receipt(status))) == (
            Some(receipt_outcome(status)),
            k * (POLL_INTERVAL_MS as nat),
            k + 1,
        ),
    decreases k,
{
    let replies = misses(k).push(ReceiptPoll::Receipt(status));
    if k > 0 {
        assert(replies.drop_first() =~= misses((k - 1) as nat).push(ReceiptPoll::Receipt(status)));
        assert(replies[0] == ReceiptPoll::NotYet);
        lemma_receipt_after_misses(attempts + 1, max, (k - 1) as nat, status);
        assert((k - 1) * 100 + 100 == k * 100) by (nonlinear_arith)
            requires k > 0;
    } else {
        assert(replies[0] == ReceiptPoll::Receipt(status));
    }
}

/// A transport that never returns a receipt gets exactly as many queries as
/// the budget has left; the loop then settles as a timeout, having waited
/// one interval between each two queries.
pub proof fn lemma_timeout_after_budget(attempts: nat, max: nat, n: nat)
    requires
        attempts < max,
        attempts + n >= max,
    ensures
        poll_run(attempts, max, misses(n)) == (
            Some(Outcome::Failed(FailReason::Timeout)),
            ((max - attempts - 1) as nat) * (POLL_INTERVAL_MS as nat),
            (max - attempts) as nat,
        ),
    decreases n,
{
    let replies = misses(n);
    assert(replies[0] == ReceiptPoll::NotYet);
    if attempts + 1 < max {
        assert(replies.drop_first() =~= misses((n - 1) as nat));
        lemma_timeout_after_budget(attempts + 1, max, (n - 1) as nat);
        let m: int = max - attempts - 2;
        assert(m * 100 + 100 == (m + 1) * 100) by (nonlinear_arith);
    }
}

/// Classifies a receipt by its status flag.
pub fn classify_receipt(status: Option<u64>) -> (r: Outcome)
    ensures
        r == receipt_outcome(status),
{
    match status {
        Some(flag) => {
            if flag == 1 {
                Outcome::Confirmed
            } else {
                Outcome::Failed(FailReason::Protocol)
            }
        },
        None => Outcome::Failed(FailReason::Protocol),
    }
}

/// Decisions of the receipt poll loop. The driver performs each query and
/// each pause, and hands back what the query returned.
pub struct Poller {
    attempts: u32,
    max_attempts: u32,
    done: bool,
}

impl Poller {
    pub closed spec fn attempts_spec(&self) -> nat {
        self.attempts as nat
    }

    pub closed spec fn max_attempts_spec(&self) -> nat {
        self.max_attempts as nat
    }

    /// Whether the poll loop has settled.
    pub closed spec fn is_done(&self) -> bool {
        self.done
    }

    /// Attempts never exceed the budget, and a poller that has not settled
    /// has at least one attempt left.
    pub open spec fn wf(&self) -> bool {
        &&& self.attempts_spec() <= self.max_attempts_spec()
        &&& !self.is_done() ==> self.attempts_spec() < self.max_attempts_spec()
    }

    /// A poller that gives up after `max_attempts` queries without a receipt.
    pub fn new(max_attempts: u32) -> (r: Self)
        requires
            max_attempts > 0,
        ensures
            r.wf(),
            !r.is_done(),
            r.attempts_spec() == 0,
            r.max_attempts_spec() == max_attempts,
    {
        Poller { attempts: 0, max_attempts, done: false }
    }

    pub fn attempts(&self) -> (r: u32)
        ensures
            r == self.attempts_spec(),
    {
        self.attempts
    }

    pub fn done(&self) -> (r: bool)
        ensures
            r == self.is_done(),
    {
        self.done
    }

    /// Takes the result of one query. A receipt settles by its status flag;
    /// a failed query settles as a transport failure at once; a missing
    /// receipt waits one interval, unless the attempt budget is spent, which
    /// settles as a timeout.
    pub fn step(&mut self, polled: ReceiptPoll) -> (r: PollAction)
        requires
            old(self).wf(),
            !old(self).is_done(),
        ensures
            final(self).wf(),
            final(self).max_attempts_spec() == old(self).max_attempts_spec(),
            final(self).attempts_spec() == old(self).attempts_spec() + 1,
            r == poll_decision(old(self).attempts_spec(), old(self).max_attempts_spec(), polled),
            final(self).is_done() == (r is Settle),
    {
        self.attempts = self.attempts + 1;
        let r = match polled {
            ReceiptPoll::Receipt(status) => PollAction::Settle(classify_receipt(status)),
            ReceiptPoll::TransportError => PollAction::Settle(Outcome::Failed(FailReason::Transport)),
            ReceiptPoll::NotYet => {
                if self.attempts >= self.max_attempts {
                    PollAction::Settle(Outcome::Failed(FailReason::Timeout))
                } else {
                    PollAction::Wait(POLL_INTERVAL_MS)
                }
            },
        };
        self.done = match r {
            PollAction::Settle(_) => true,
            PollAction::Wait(_) => false,
        };
        r
    }
}

} // verus!
