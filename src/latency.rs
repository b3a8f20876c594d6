use vstd::prelude::*;

verus! {

/// Sum of a sequence of milliseconds.
pub open spec fn sum_of(s: Seq<u64>) -> int
    decreases s.len(),
{
    if s.len() == 0 {
        0
    } else {
        sum_of(s.drop_last()) + s.last()
    }
}

/// Least element; zero for the empty sequence.
pub open spec fn min_of(s: Seq<u64>) -> int
    decreases s.len(),
{
    if s.len() == 0 {
        0
    } else if s.len() == 1 {
        s[0] as int
    } else if s.last() < min_of(s.drop_last()) {
        s.last() as int
    } else {
        min_of(s.drop_last())
    }
}

/// Greatest element; zero for the empty sequence.
pub open spec fn max_of(s: Seq<u64>) -> int
    decreases s.len(),
{
    if s.len() == 0 {
        0
    } else if s.len() == 1 {
        s[0] as int
    } else if s.last() > max_of(s.drop_last()) {
        s.last() as int
    } else {
        max_of(s.drop_last())
    }
}

/// Truncated mean; zero for the empty sequence.
pub open spec fn avg_of(s: Seq<u64>) -> int {
    if s.len() == 0 {
        0
    } else {
        sum_of(s) / (s.len() as int)
    }
}

/// Minimum, maximum and truncated average of one measure, in milliseconds.
#[derive(Clone, Copy, Debug, PartialEq, Eq, Structural)]
pub struct Stats {
    pub min: u64,
    pub max: u64,
    pub avg: u64,
}

/// Whether `st` summarizes `s`.
pub open spec fn stats_match(st: Stats, s: Seq<u64>) -> bool {
    st.min == min_of(s) && st.max == max_of(s) && st.avg == avg_of(s)
}

/// Timings of one settled transaction, in milliseconds.
#[derive(Clone, Copy, Debug, PartialEq, Eq, Structural)]
pub struct Sample {
    pub send_ms: u64,
    pub confirm_ms: u64,
    pub total_ms: u64,
}

impl Sample {
    /// A transaction sent and then polled for its receipt: send and confirm
    /// are two separate intervals.
    pub fn polled(send_ms: u64, confirm_ms: u64, total_ms: u64) -> (r: Self)
        ensures
            r.send_ms == send_ms,
            r.confirm_ms == confirm_ms,
            r.total_ms == total_ms,
    {
        Sample { send_ms, confirm_ms, total_ms }
    }

    /// A transaction whose receipt came back with the send call: no
    /// separate confirmation, so the total is the send time.
    pub fn single_round_trip(send_ms: u64) -> (r: Self)
        ensures
            r.send_ms == send_ms,
            r.confirm_ms == 0,
            r.total_ms == send_ms,
    {
        Sample { send_ms, confirm_ms: 0, total_ms: send_ms }
    }
}

/// Statistics for send, confirm and total time.
#[derive(Clone, Copy, Debug, PartialEq, Eq, Structural)]
pub struct LatencySummary {
    pub send: Stats,
    pub confirm: Stats,
    pub total: Stats,
}

pub open spec fn send_times(s: Seq<Sample>) -> Seq<u64> {
    s.map_values(|x: Sample| x.send_ms)
}

pub open spec fn confirm_times(s: Seq<Sample>) -> Seq<u64> {
    s.map_values(|x: Sample| x.confirm_ms)
}

pub open spec fn total_times(s: Seq<Sample>) -> Seq<u64> {
    s.map_values(|x: Sample| x.total_ms)
}

proof fn lemma_sum_bound(s: Seq<u64>)
    ensures
        0 <= sum_of(s) <= s.len() * u64::MAX,
    decreases s.len(),
{
    if s.len() > 0 {
        lemma_sum_bound(s.drop_last());
        assert((s.len() - 1) * u64::MAX + u64::MAX == s.len() * u64::MAX) by (nonlinear_arith);
    }
}

/// Minimum, maximum and truncated average of `values`; all zero when empty.
pub fn stats_of(values: &Vec<u64>) -> (r: Stats)
    ensures
        stats_match(r, values@),
{
    let n = values.len();
    if n == 0 {
        return Stats { min: 0, max: 0, avg: 0 };
    }
    let mut sum: u128 = 0;
    let mut lo: u64 = values[0];
    let mut hi: u64 = values[0];
    let mut i: usize = 0;
    while i < n
        invariant
            n == values@.len(),
            n > 0,
            i <= n,
            sum == sum_of(values@.take(i as int)),
            i > 0 ==> lo == min_of(values@.take(i as int)),
            i > 0 ==> hi == max_of(values@.take(i as int)),
            i == 0 ==> lo == values@[0] && hi == values@[0],
        decreases n - i,
    {
        let v = values[i];
        let ghost prefix = values@.take(i as int + 1);
        assert(prefix.drop_last() =~= values@.take(i as int));
        proof {
            lemma_sum_bound(prefix);
            assert(prefix.len() * u64::MAX <= 18446744073709551616 * 18446744073709551615) by (nonlinear_arith)
                requires prefix.len() <= 18446744073709551616;
        }
        sum = sum + v as u128;
        if i == 0 {
            lo = v;
            hi = v;
        } else {
            if v < lo {
                lo = v;
            }
            if v > hi {
                hi = v;
            }
        }
        i = i + 1;
    }
    assert(values@.take(n as int) =~= values@);
    let avg = sum / (n as u128);
    proof {
        lemma_avg_between(values@);
    }
    Stats { min: lo, max: hi, avg: avg as u64 }
}

proof fn lemma_bounds(s: Seq<u64>)
    requires
        s.len() > 0,
    ensures
        forall|i: int| 0 <= i < s.len() ==> min_of(s) <= #[trigger] s[i] <= max_of(s),
        s.len() * min_of(s) <= sum_of(s) <= s.len() * max_of(s),
        0 <= min_of(s) <= max_of(s) <= u64::MAX,
    decreases s.len(),
{
    if s.len() > 1 {
        let t = s.drop_last();
        lemma_bounds(t);
        assert forall|i: int| 0 <= i < s.len() implies min_of(s) <= #[trigger] s[i] <= max_of(s) by {
            if i < s.len() - 1 {
                assert(s[i] == t[i]);
            }
        }
        let n = t.len();
        assert(n * min_of(t) <= sum_of(t) <= n * max_of(t));
        assert(min_of(s) <= min_of(t));
        assert(max_of(s) >= max_of(t));
        assert(n * min_of(s) <= n * min_of(t)) by (nonlinear_arith)
            requires min_of(s) <= min_of(t), n >= 0;
        assert(n * max_of(s) >= n * max_of(t)) by (nonlinear_arith)
            requires max_of(s) >= max_of(t), n >= 0;
        assert(min_of(s) <= s.last() <= max_of(s));
        assert((n + 1) * min_of(s) == n * min_of(s) + min_of(s)) by (nonlinear_arith);
        assert((n + 1) * max_of(s) == n * max_of(s) + max_of(s)) by (nonlinear_arith);
        assert(sum_of(s) == sum_of(t) + s.last());
        assert(n + 1 == s.len());
    } else {
        assert(sum_of(s.drop_last()) == 0);
        assert(sum_of(s) == s[0]);
    }
}

proof fn lemma_avg_between(s: Seq<u64>)
    requires
        s.len() > 0,
    ensures
        min_of(s) <= avg_of(s) <= max_of(s),
        0 <= min_of(s) <= max_of(s) <= u64::MAX,
{
    lemma_bounds(s);
    let n = s.len() as int;
    let lo = min_of(s);
    let hi = max_of(s);
    let sm = sum_of(s);
    assert(lo <= sm / n) by (nonlinear_arith)
        requires n > 0, n * lo <= sm;
    assert(sm / n <= hi) by (nonlinear_arith)
        requires n > 0, sm <= n * hi;
}

/// Collects one measure of every sample.
fn column(samples: &Vec<Sample>, which: u8) -> (r: Vec<u64>)
    requires
        which < 3,
    ensures
        which == 0 ==> r@ == send_times(samples@),
        which == 1 ==> r@ == confirm_times(samples@),
        which == 2 ==> r@ == total_times(samples@),
{
    let mut r: Vec<u64> = Vec::new();
    let mut i: usize = 0;
    while i < samples.len()
        invariant
            i <= samples@.len(),
            which < 3,
            which == 0 ==> r@ == send_times(samples@).take(i as int),
            which == 1 ==> r@ == confirm_times(samples@).take(i as int),
            which == 2 ==> r@ == total_times(samples@).take(i as int),
        decreases samples@.len() - i,
    {
        let s = samples[i];
        let v = if which == 0 {
            s.send_ms
        } else if which == 1 {
            s.confirm_ms
        } else {
            s.total_ms
        };
        r.push(v);
        i = i + 1;
        assert(send_times(samples@).take(i as int) =~= send_times(samples@).take(i - 1).push(samples@[i - 1].send_ms));
        assert(confirm_times(samples@).take(i as int) =~= confirm_times(samples@).take(i - 1).push(samples@[i - 1].confirm_ms));
        assert(total_times(samples@).take(i as int) =~= total_times(samples@).take(i - 1).push(samples@[i - 1].total_ms));
    }
    assert(send_times(samples@).take(i as int) =~= send_times(samples@));
    assert(confirm_times(samples@).take(i as int) =~= confirm_times(samples@));
    assert(total_times(samples@).take(i as int) =~= total_times(samples@));
    r
}

/// Statistics of each measure over the settled samples; zeros when there are
/// none.
pub fn summarize(samples: &Vec<Sample>) -> (r: LatencySummary)
    ensures
        stats_match(r.send, send_times(samples@)),
        stats_match(r.confirm, confirm_times(samples@)),
        stats_match(r.total, total_times(samples@)),
{
    let send = stats_of(&column(samples, 0));
    let confirm = stats_of(&column(samples, 1));
    let total = stats_of(&column(samples, 2));
    LatencySummary { send, confirm, total }
}

/// For any non-empty set of settled samples, each of the three measures has
/// `min <= avg <= max`.
pub proof fn lemma_summary_ordered(samples: Seq<Sample>, r: LatencySummary)
    requires
        samples.len() > 0,
        stats_match(r.send, send_times(samples)),
        stats_match(r.confirm, confirm_times(samples)),
        stats_match(r.total, total_times(samples)),
    ensures
        r.send.min <= r.send.avg <= r.send.max,
        r.confirm.min <= r.confirm.avg <= r.confirm.max,
        r.total.min <= r.total.avg <= r.total.max,
{
    lemma_avg_between(send_times(samples));
    lemma_avg_between(confirm_times(samples));
    lemma_avg_between(total_times(samples));
}

} // verus!
