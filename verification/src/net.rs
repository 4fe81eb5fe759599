//! Decisions of the paginated, rate-limited, retrying fetch of the training
//! corpus.
//!
//! The fetch itself (HTTP, sleeping, task scheduling) belongs to the host; the
//! functions here decide, from plain values, what the host does next: how long
//! to back off, whether to give up, and which pages are still pending.
use vstd::prelude::*;

verus! {

/// Pagination header of one fetched page.
#[derive(Clone, Copy, Debug, PartialEq, Eq, Structural)]
pub struct Pagination {
    pub current_page: u64,
    pub total_pages: u64,
    pub total_count: u64,
    pub next_page: u64,
}

/// What one fetch attempt came to, as the host reports it.
pub enum FetchOutcome {
    /// The server rate-limited the request; the payload is the parsed
    /// retry-after delay in seconds, if the header held one.
    RateLimited(Option<u64>),
    /// The body arrived and decoded.
    Fetched,
    /// The body arrived but did not decode.
    BodyError,
    /// The request itself failed.
    TransportError,
}

/// What the host does next.
#[derive(Clone, Copy, Debug, PartialEq, Eq, Structural)]
pub enum FetchAction {
    /// Keep the result; the fetch is done.
    Accept,
    /// Wait the given number of milliseconds, then retry.
    Sleep(u64),
    /// Give up: the attempt budget is spent.
    GiveUp,
}

/// The exponential backoff before attempt `n + 1`: 500 ms doubled `n` times,
/// saturating at the largest representable delay.
pub open spec fn backoff_upto(n: int) -> int
    decreases n,
{
    if n <= 0 {
        500
    } else {
        let p = backoff_upto(n - 1);
        if 2 * p > u64::MAX {
            u64::MAX as int
        } else {
            2 * p
        }
    }
}

proof fn lemma_backoff_range(n: int)
    ensures
        500 <= backoff_upto(n) <= u64::MAX,
    decreases (if n >= 0 { n } else { 0 }),
{
    if n > 0 {
        lemma_backoff_range(n - 1);
    }
}

proof fn lemma_backoff_stable(i: int, n: int)
    requires
        0 <= i <= n,
        backoff_upto(i) == u64::MAX,
    ensures
        backoff_upto(n) == u64::MAX,
    decreases n - i,
{
    if i < n {
        lemma_backoff_range(i);
        assert(backoff_upto(i + 1) == u64::MAX);
        lemma_backoff_stable(i + 1, n);
    }
}

/// The backoff, in milliseconds, to wait before retrying after `attempt`
/// failed attempts: 500 ms doubled per failure beyond the first, saturating.
pub fn backoff_ms(attempt: u64) -> (r: u64)
    ensures
        r == backoff_upto(attempt - 1),
{
    let n: u64 = if attempt >= 1 {
        attempt - 1
    } else {
        0
    };
    let mut b: u64 = 500;
    let mut i: u64 = 0;
    while i < n
        invariant
            i <= n,
            b == backoff_upto(i as int),
            backoff_upto(n as int) == backoff_upto(attempt - 1),
        decreases n - i,
    {
        proof {
            lemma_backoff_range(i as int);
        }
        if b > u64::MAX / 2 {
            proof {
                assert(backoff_upto(i + 1) == u64::MAX);
                lemma_backoff_stable(i + 1, n as int);
            }
            return u64::MAX;
        }
        b = 2 * b;
        i += 1;
    }
    b
}

/// Decides what follows one fetch attempt: a rate limit with a parsed
/// retry-after waits that long without spending an attempt; a decode or
/// transport failure (or a rate limit without a usable header) spends one
/// attempt and either gives up, once `retries` attempts are spent, or backs
/// off exponentially.
pub fn retry_decision(attempt: u64, retries: u64, outcome: &FetchOutcome) -> (r: (u64, FetchAction))
    requires
        attempt < u64::MAX,
    ensures
        outcome matches FetchOutcome::Fetched ==> r == (attempt, FetchAction::Accept),
        (outcome matches FetchOutcome::RateLimited(Some(secs)) ==> r.0 == attempt && r.1
            == FetchAction::Sleep(
            if secs <= u64::MAX / 1000 {
                (secs * 1000) as u64
            } else {
                u64::MAX
            },
        )),
        (outcome matches FetchOutcome::RateLimited(None) || outcome matches FetchOutcome::BodyError
            || outcome matches FetchOutcome::TransportError) ==> {
            &&& r.0 == attempt + 1
            &&& (attempt + 1 >= retries ==> r.1 == FetchAction::GiveUp)
            &&& (attempt + 1 < retries ==> r.1 == FetchAction::Sleep(
                backoff_upto(attempt as int) as u64,
            ))
        },
{
    match outcome {
        FetchOutcome::Fetched => (attempt, FetchAction::Accept),
        FetchOutcome::RateLimited(Some(secs)) => {
            let ms = if *secs <= u64::MAX / 1000 {
                *secs * 1000
            } else {
                u64::MAX
            };
            (attempt, FetchAction::Sleep(ms))
        },
        _ => {
            let next = attempt + 1;
            if next >= retries {
                (next, FetchAction::GiveUp)
            } else {
                proof {
                    lemma_backoff_range(next - 1);
                }
                (next, FetchAction::Sleep(backoff_ms(next)))
            }
        },
    }
}

/// Whether a character is an ASCII decimal digit.
pub open spec fn is_digit(c: char) -> bool {
    48 <= c as u32 <= 57
}

/// The digit's value.
pub open spec fn digit_val(c: char) -> int {
    c as u32 - 48
}

/// The value of the first `i` digits of `s`, most significant first.
pub open spec fn digits_val(s: Seq<char>, i: int) -> int
    decreases i,
{
    if i <= 0 {
        0
    } else {
        10 * digits_val(s, i - 1) + digit_val(s[i - 1])
    }
}

/// The parse of a decimal seconds value: a non-empty, all-digit string whose
/// value fits in a `u64`.
pub open spec fn parse_secs_spec(s: Seq<char>) -> Option<int> {
    if s.len() >= 1 && (forall|k: int| 0 <= k < s.len() ==> is_digit(s[k])) && digits_val(
        s,
        s.len() as int,
    ) <= u64::MAX {
        Some(digits_val(s, s.len() as int))
    } else {
        None
    }
}

proof fn lemma_digits_nonneg(s: Seq<char>, i: int)
    requires
        forall|k: int| 0 <= k < i ==> is_digit(s[k]),
    ensures
        digits_val(s, i) >= 0,
    decreases (if i >= 0 { i } else { 0 }),
{
    if i > 0 {
        lemma_digits_nonneg(s, i - 1);
    }
}

proof fn lemma_digits_monotone(s: Seq<char>, i: int, j: int)
    requires
        0 <= i <= j,
        forall|k: int| 0 <= k < j ==> is_digit(s[k]),
    ensures
        0 <= digits_val(s, i) <= digits_val(s, j),
    decreases j - i,
{
    lemma_digits_nonneg(s, i);
    if i < j {
        lemma_digits_monotone(s, i, j - 1);
        lemma_digits_nonneg(s, j - 1);
    }
}

/// Parses a decimal seconds value.
pub fn parse_secs(v: &Vec<char>) -> (r: Option<u64>)
    ensures
        r matches Some(x) ==> parse_secs_spec(v@) == Some(x as int),
        r is None ==> parse_secs_spec(v@) is None,
{
    let n = v.len();
    if n == 0 {
        return None;
    }
    let mut val: u64 = 0;
    let mut i: usize = 0;
    while i < n
        invariant
            i <= n == v@.len(),
            forall|k: int| 0 <= k < i ==> is_digit(v@[k]),
            val == digits_val(v@, i as int),
        decreases n - i,
    {
        let c = v[i];
        let u = c as u32;
        if !(48 <= u && u <= 57) {
            return None;
        }
        let d = (u - 48) as u64;
        if val > (u64::MAX - d) / 10 {
            proof {
                vstd::arithmetic::div_mod::lemma_fundamental_div_mod(u64::MAX - d, 10);
                vstd::arithmetic::div_mod::lemma_mod_division_less_than_divisor(u64::MAX - d, 10);
                assert(10 * (val as int) + d > u64::MAX);
                if forall|k: int| 0 <= k < v@.len() ==> is_digit(v@[k]) {
                    lemma_digits_monotone(v@, i + 1, v@.len() as int);
                }
            }
            return None;
        }
        val = val * 10 + d;
        i += 1;
    }
    Some(val)
}

/// What `httpdate` read from an HTTP date string, as seconds since the Unix
/// epoch; dates before the epoch give nothing.
pub uninterp spec fn http_date_epoch_of(s: Seq<char>) -> Option<u64>;

/// Relies on `httpdate::parse_http_date`: parsing an HTTP date string is a
/// function of the string alone; converted here to whole seconds since the
/// Unix epoch.
#[verifier::external_body]
fn parse_http_date_epoch(s: &str) -> (r: Option<u64>)
    ensures
        r == http_date_epoch_of(s@),
{
    httpdate::parse_http_date(s)
        .ok()
        .and_then(|t| t.duration_since(std::time::UNIX_EPOCH).ok())
        .map(|d| d.as_secs())
}

/// The seconds to wait that a retry-after header asks for, given the time now:
/// a plain decimal value is taken as is; otherwise an HTTP date, when it
/// parses and does not lie in the past, counts from `now_epoch`.
pub open spec fn retry_after_spec(s: Seq<char>, now_epoch: u64) -> Option<u64> {
    if parse_secs_spec(s) is Some {
        match parse_secs_spec(s) {
            Some(v) => Some(v as u64),
            None => None,
        }
    } else {
        match http_date_epoch_of(s) {
            Some(date) => if date >= now_epoch {
                Some((date - now_epoch) as u64)
            } else {
                None
            },
            None => None,
        }
    }
}

/// Parses a retry-after header value into the seconds to wait.
pub fn parse_retry_after(header: &str, now_epoch: u64) -> (r: Option<u64>)
    ensures
        r == retry_after_spec(header@, now_epoch),
{
    let chars = crate::chars::chars_of(header);
    match parse_secs(&chars) {
        Some(v) => Some(v),
        None => {
            match parse_http_date_epoch(header) {
                Some(date) => {
                    if date >= now_epoch {
                        Some(date - now_epoch)
                    } else {
                        None
                    }
                },
                None => None,
            }
        },
    }
}

/// The pages still pending after a round: index `k` of the fetched flags holds
/// page `k + 1`, and a page is pending while its flag is down.
pub open spec fn pending_upto(fetched: Seq<bool>, i: int) -> Seq<int>
    decreases i,
{
    if i <= 0 {
        Seq::empty()
    } else {
        pending_upto(fetched, i - 1) + if fetched[i - 1] {
            Seq::empty()
        } else {
            seq![i]
        }
    }
}

/// Lists the pages whose fetched flag is still down.
pub fn remaining_pages(fetched: &Vec<bool>) -> (r: Vec<usize>)
    ensures
        r@.map_values(|p: usize| p as int) == pending_upto(fetched@, fetched@.len() as int),
{
    let mut r: Vec<usize> = Vec::new();
    let mut i: usize = 0;
    while i < fetched.len()
        invariant
            i <= fetched@.len(),
            r@.map_values(|p: usize| p as int) == pending_upto(fetched@, i as int),
        decreases fetched@.len() - i,
    {
        if !fetched[i] {
            let ghost before = r@;
            r.push(i + 1);
            proof {
                assert(r@.map_values(|p: usize| p as int) =~= before.map_values(
                    |p: usize| p as int,
                ) + seq![i + 1]);
            }
        } else {
            proof {
                assert(pending_upto(fetched@, i + 1) =~= pending_upto(fetched@, i as int));
            }
        }
        i += 1;
    }
    r
}

/// The first round's pending pages: every page from 2 up to `total_pages`,
/// page 1 having been fetched to learn the page count.
pub fn initial_pending(total_pages: usize) -> (r: Vec<usize>)
    requires
        total_pages < usize::MAX,
    ensures
        r@.len() == (if total_pages >= 2 {
            total_pages - 1
        } else {
            0int
        }),
        forall|k: int| 0 <= k < r@.len() ==> r@[k] == k + 2,
{
    let mut r: Vec<usize> = Vec::new();
    if total_pages < 2 {
        return r;
    }
    let mut p: usize = 2;
    while p <= total_pages
        invariant
            2 <= p <= total_pages + 1,
            total_pages < usize::MAX,
            p <= usize::MAX,
            r@.len() == p - 2,
            forall|k: int| 0 <= k < r@.len() ==> r@[k] == k + 2,
        decreases total_pages + 1 - p,
    {
        r.push(p);
        p += 1;
    }
    r
}

} // verus!
