use vstd::prelude::*;

verus! {

/// How transactions are submitted.
#[derive(Clone, Copy, Debug, PartialEq, Eq, Structural)]
pub enum TxMethod {
    /// Send, then poll for the receipt.
    Async,
    /// One `eth_sendRawTransactionSync` call that returns the receipt.
    Rise,
    /// One `realtime_sendRawTransaction` call that returns the receipt.
    Mega,
}

/// What `str::to_lowercase` makes of a text.
pub uninterp spec fn lower_of(s: Seq<char>) -> Seq<char>;

/// Relies on str::to_lowercase: the result depends on the characters alone,
/// and an empty text stays empty.
#[verifier::external_body]
fn lowercase(s: &str) -> (r: String)
    ensures
        r@ == lower_of(s@),
        s@.len() == 0 ==> r@.len() == 0,
{
    s.to_lowercase()
}

/// The method a lowercase name stands for among those the game plays
/// with: `async` and `rise`.
pub open spec fn method_named(s: Seq<char>) -> Option<TxMethod> {
    if s == seq!['a', 's', 'y', 'n', 'c'] {
        Some(TxMethod::Async)
    } else if s == seq!['r', 'i', 's', 'e'] {
        Some(TxMethod::Rise)
    } else {
        None
    }
}

/// The message for a method name that is not accepted.
pub open spec fn invalid_method_message(s: Seq<char>) -> Seq<char> {
    seq!['I', 'n', 'v', 'a', 'l', 'i', 'd', ' ', 'm', 'e', 't', 'h', 'o', 'd', ':', ' '] + s
}

/// Whether `needle` occurs in `hay` as a contiguous run.
pub open spec fn contains_run(hay: Seq<char>, needle: Seq<char>) -> bool {
    exists|i: int| 0 <= i && i + needle.len() <= hay.len() && #[trigger] hay.subrange(i, i + needle.len()) == needle
}

/// Whether `s` equals the characters of `lit`.
fn text_eq(s: &str, lit: &Vec<char>) -> (r: bool)
    ensures
        r == (s@ == lit@),
{
    let n = s.unicode_len();
    if n != lit.len() {
        return false;
    }
    let mut i: usize = 0;
    while i < n
        invariant
            n == s@.len(),
            n == lit@.len(),
            i <= n,
            forall|j: int| 0 <= j < i ==> s@[j] == lit@[j],
        decreases n - i,
    {
        if s.get_char(i) != lit[i] {
            return false;
        }
        i = i + 1;
    }
    assert(s@ =~= lit@);
    true
}

/// Whether `needle` occurs in `hay`.
fn text_contains(hay: &str, needle: &Vec<char>) -> (r: bool)
    ensures
        r == contains_run(hay@, needle@),
{
    let n = hay.unicode_len();
    let m = needle.len();
    if m > n {
        assert forall|i: int| 0 <= i && i + m <= n implies #[trigger] hay@.subrange(i, i + m) != needle@ by {}
        return false;
    }
    let mut i: usize = 0;
    while i <= n - m
        invariant
            n == hay@.len(),
            m == needle@.len(),
            m <= n,
            i <= n - m + 1,
            forall|k: int| 0 <= k < i ==> #[trigger] hay@.subrange(k, k + m) != needle@,
        decreases n - i,
    {
        let mut j: usize = 0;
        let mut same = true;
        while j < m
            invariant
                n == hay@.len(),
                m == needle@.len(),
                i + m <= n,
                j <= m,
                same == (forall|t: int| 0 <= t < j ==> hay@[i + t] == needle@[t]),
            decreases m - j,
        {
            if hay.get_char(i + j) != needle[j] {
                same = false;
            }
            j = j + 1;
        }
        if same {
            assert(hay@.subrange(i as int, i + m) =~= needle@);
            return true;
        }
        assert(hay@.subrange(i as int, i + m)[0] == hay@[i as int]);
        assert(!(hay@.subrange(i as int, i + m) =~= needle@));
        i = i + 1;
    }
    false
}

impl TxMethod {
    /// The name shown for this method.
    pub fn name(&self) -> (r: String)
        ensures
            r@ == match self {
                TxMethod::Async => seq!['a', 's', 'y', 'n', 'c'],
                TxMethod::Rise => seq!['r', 'i', 's', 'e'],
                TxMethod::Mega => seq!['m', 'e', 'g', 'a'],
            },
    {
        proof {
            reveal_strlit("async");
            reveal_strlit("rise");
            reveal_strlit("mega");
        }
        match self {
            TxMethod::Async => "async".to_owned(),
            TxMethod::Rise => "rise".to_owned(),
            TxMethod::Mega => "mega".to_owned(),
        }
    }

    /// Whether the receipt comes back with the submission call itself.
    pub fn is_single_round_trip(&self) -> (r: bool)
        ensures
            r == !(self == TxMethod::Async),
    {
        match self {
            TxMethod::Async => false,
            _ => true,
        }
    }

    /// Reads a game method (`async` or `rise`) from a name already in
    /// lowercase.
    pub fn from_lowercase(lowered: &str) -> (r: Option<TxMethod>)
        ensures
            r == method_named(lowered@),
    {
        if text_eq(lowered, &vec!['a', 's', 'y', 'n', 'c']) {
            Some(TxMethod::Async)
        } else if text_eq(lowered, &vec!['r', 'i', 's', 'e']) {
            Some(TxMethod::Rise)
        } else {
            None
        }
    }

    /// Reads a game method from its name in any letter case: `async` or
    /// `rise`. Any other name is refused with a message that quotes it.
    pub fn from_str(s: &str) -> (r: Result<TxMethod, String>)
        ensures
            match method_named(lower_of(s@)) {
                Some(m) => r == Ok::<TxMethod, String>(m),
                None => r is Err && r->Err_0@ == invalid_method_message(s@),
            },
    {
        let lowered = lowercase(s);
        match TxMethod::from_lowercase(lowered.as_str()) {
            Some(m) => Ok(m),
            None => {
                proof {
                    reveal_strlit("Invalid method: ");
                }
                let mut msg = "Invalid method: ".to_owned();
                msg.append(s);
                Err(msg)
            },
        }
    }

    /// The method to use for an endpoint whose URL is already in lowercase:
    /// an endpoint whose URL mentions `rise` takes `Rise`, any other keeps
    /// the requested method.
    pub fn for_lowercase_endpoint(lowered_url: &str, requested: TxMethod) -> (r: TxMethod)
        ensures
            r == if contains_run(lowered_url@, seq!['r', 'i', 's', 'e']) {
                TxMethod::Rise
            } else {
                requested
            },
    {
        if text_contains(lowered_url, &vec!['r', 'i', 's', 'e']) {
            TxMethod::Rise
        } else {
            requested
        }
    }

    /// The method to use for an endpoint, judged by its URL in lowercase.
    pub fn for_endpoint(url: &str, requested: TxMethod) -> (r: TxMethod)
        ensures
            r == if contains_run(lower_of(url@), seq!['r', 'i', 's', 'e']) {
                TxMethod::Rise
            } else {
                requested
            },
    {
        let lowered = lowercase(url);
        TxMethod::for_lowercase_endpoint(lowered.as_str(), requested)
    }
}

} // verus!
