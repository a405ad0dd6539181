use vstd::prelude::*;

verus! {

/// Exponential backoff. `backoff_percent` is the growth of the delay after
/// each failure, in percent (200 doubles it).
#[derive(Debug, Clone, Copy, PartialEq, Eq, Structural)]
pub struct RetryPolicy {
    /// Attempts made before the last error is returned.
    pub max_retries: u32,
    pub initial_delay_ms: u64,
    pub backoff_percent: u64,
    pub max_delay_ms: u64,
    /// When set, a failure that is not transient (see `is_retryable`) ends
    /// the operation at once; by default every failure is retried.
    pub retry_only_transient: bool,
}

impl Default for RetryPolicy {
    fn default() -> (r: Self)
        ensures
            r.max_retries == 3,
            r.initial_delay_ms == 1000,
            r.backoff_percent == 200,
            r.max_delay_ms == 10000,
            !r.retry_only_transient,
    {
        RetryPolicy {
            max_retries: 3,
            initial_delay_ms: 1000,
            backoff_percent: 200,
            max_delay_ms: 10000,
            retry_only_transient: false,
        }
    }
}

/// Progress of one retried operation: failed attempts so far, and the wait
/// before the next attempt.
#[derive(Debug, Clone, Copy, PartialEq, Eq, Structural)]
pub struct RetryState {
    pub attempts: u32,
    pub delay_ms: u64,
}

/// What to do with the outcome of one attempt.
pub enum RetryStep<T, E> {
    /// Return this: the success, or the last error once attempts ran out.
    Done(Result<T, E>),
    /// Wait this many milliseconds, then try again.
    RetryAfter(u64),
}

/// The delay after `d`: grown by the policy's factor, capped.
pub open spec fn next_delay_spec(p: RetryPolicy, d: u64) -> u64 {
    let grown = (d as int * p.backoff_percent as int) / 100;
    if grown > p.max_delay_ms as int {
        p.max_delay_ms
    } else {
        grown as u64
    }
}

/// The failure that brings the attempts to the policy's maximum ends the
/// operation.
pub open spec fn gives_up(p: RetryPolicy, s: RetryState) -> bool {
    s.attempts as int + 1 >= p.max_retries as int
}

/// The state after one failure that is retried.
pub open spec fn failure_state(p: RetryPolicy, s: RetryState) -> RetryState {
    RetryState { attempts: (s.attempts + 1) as u32, delay_ms: next_delay_spec(p, s.delay_ms) }
}

pub open spec fn start_state(p: RetryPolicy) -> RetryState {
    RetryState { attempts: 0, delay_ms: p.initial_delay_ms }
}

/// The state after `n` failures, each of them retried.
pub open spec fn state_after_failures(p: RetryPolicy, n: nat) -> RetryState
    decreases n,
{
    if n == 0 {
        start_state(p)
    } else {
        failure_state(p, state_after_failures(p, (n - 1) as nat))
    }
}

impl RetryPolicy {
    pub fn next_delay(&self, delay_ms: u64) -> (r: u64)
        ensures
            r == next_delay_spec(*self, delay_ms),
    {
        let a = delay_ms as u128;
        let b = self.backoff_percent as u128;
        assert(a * b <= u64::MAX as int * u64::MAX as int) by (nonlinear_arith)
            requires
                a <= u64::MAX,
                b <= u64::MAX,
        ;
        let grown: u128 = a * b / 100;
        if grown > self.max_delay_ms as u128 {
            self.max_delay_ms
        } else {
            grown as u64
        }
    }

    /// The state before the first attempt.
    pub fn start(&self) -> (r: RetryState)
        ensures
            r == start_state(*self),
    {
        RetryState { attempts: 0, delay_ms: self.initial_delay_ms }
    }

    /// Settles the outcome of one attempt, counting every failure as
    /// transient. A success is returned as it is.
    /// A failure is retried after the current delay, which then grows, until
    /// the attempts reach `max_retries`; then the failure itself is returned,
    /// unchanged.
    pub fn settle<T, E>(&self, state: &mut RetryState, outcome: Result<T, E>) -> (r: RetryStep<T, E>)
        requires
            old(state).attempts < u32::MAX,
        ensures
            (*final(state), r) == self.settle_step(*old(state), outcome, true),
            outcome is Ok ==> r == RetryStep::<T, E>::Done(outcome) && *final(state) == *old(state),
            outcome is Err && gives_up(*self, *old(state)) ==> r == RetryStep::<T, E>::Done(outcome)
                && final(state).attempts == old(state).attempts + 1,
            outcome is Err && !gives_up(*self, *old(state)) ==> r == RetryStep::<T, E>::RetryAfter(
                old(state).delay_ms,
            ) && *final(state) == failure_state(*self, *old(state)),
    {
        self.settle_classified(state, outcome, true)
    }

    /// What `settle_classified` does, as a function of the state before.
    pub open spec fn settle_step<T, E>(&self, s: RetryState, outcome: Result<T, E>, transient: bool) -> (
        RetryState,
        RetryStep<T, E>,
    ) {
        match outcome {
            Ok(_) => (s, RetryStep::Done(outcome)),
            Err(_) => {
                let t = RetryState { attempts: (s.attempts + 1) as u32, ..s };
                if gives_up(*self, s) || (self.retry_only_transient && !transient) {
                    (t, RetryStep::Done(outcome))
                } else {
                    (failure_state(*self, s), RetryStep::RetryAfter(s.delay_ms))
                }
            },
        }
    }

    /// Like `settle`, for a failure known to be transient or not: with
    /// `retry_only_transient` set, a failure that is not transient ends the
    /// operation at once, unchanged.
    pub fn settle_classified<T, E>(&self, state: &mut RetryState, outcome: Result<T, E>, transient: bool) -> (r:
        RetryStep<T, E>)
        requires
            old(state).attempts < u32::MAX,
        ensures
            (*final(state), r) == self.settle_step(*old(state), outcome, transient),
    {
        match outcome {
            Ok(v) => RetryStep::Done(Ok(v)),
            Err(e) => {
                state.attempts = state.attempts + 1;
                if state.attempts >= self.max_retries || (self.retry_only_transient && !transient) {
                    RetryStep::Done(Err(e))
                } else {
                    let wait = state.delay_ms;
                    state.delay_ms = self.next_delay(wait);
                    RetryStep::RetryAfter(wait)
                }
            },
        }
    }
}

/// With at least one attempt allowed, the first `max_retries - 1` failures
/// are all retried, and the one after them ends the operation. So an
/// operation that fails `max_retries - 1` times and then succeeds returns its
/// success after exactly that many failures, and one that always fails is
/// attempted exactly `max_retries` times and returns its last error.
pub proof fn lemma_retry_attempt_count(p: RetryPolicy, n: nat)
    requires
        p.max_retries >= 1,
    ensures
        n < p.max_retries ==> state_after_failures(p, n).attempts == n,
        n + 1 < p.max_retries ==> !gives_up(p, state_after_failures(p, n)),
        n + 1 == p.max_retries ==> gives_up(p, state_after_failures(p, n)),
    decreases n,
{
    if n > 0 {
        lemma_retry_attempt_count(p, (n - 1) as nat);
    }
}

/// The same, through `settle` itself, starting from `start`: each of the
/// first `max_retries - 1` failures leads to a retry and to the state after
/// one more failure; after them a success is returned as it is, and a
/// failure is returned unchanged, ending the operation with `max_retries`
/// attempts made. Every failure counts, whatever its text.
pub proof fn lemma_settle_runs<T, E>(p: RetryPolicy, n: nat, e: E, v: T)
    requires
        p.max_retries >= 1,
    ensures
        n + 1 < p.max_retries ==> p.settle_step(state_after_failures(p, n), Err::<T, E>(e), true) == (
            state_after_failures(p, n + 1),
            RetryStep::<T, E>::RetryAfter(state_after_failures(p, n).delay_ms),
        ),
        n + 1 == p.max_retries ==> p.settle_step(state_after_failures(p, n), Ok::<T, E>(v), true).1
            == RetryStep::<T, E>::Done(Ok(v)),
        n + 1 == p.max_retries ==> p.settle_step(state_after_failures(p, n), Err::<T, E>(e), true).1
            == RetryStep::<T, E>::Done(Err(e)),
        n + 1 == p.max_retries ==> p.settle_step(
            state_after_failures(p, n),
            Err::<T, E>(e),
            true,
        ).0.attempts == p.max_retries,
{
    lemma_retry_attempt_count(p, n);
    if n + 1 < p.max_retries {
        lemma_retry_attempt_count(p, n + 1);
    }
}

/// Delays never exceed the cap once the first one has passed, and never
/// shrink while the factor is at least one.
pub proof fn lemma_delay_bounds(p: RetryPolicy, d: u64)
    ensures
        next_delay_spec(p, d) <= p.max_delay_ms,
        p.backoff_percent >= 100 && d <= p.max_delay_ms ==> next_delay_spec(p, d) >= d,
{
    if p.backoff_percent >= 100 {
        assert(d as int * p.backoff_percent as int >= d as int * 100) by (nonlinear_arith)
            requires
                p.backoff_percent >= 100,
        ;
    }
}

/// Names what `str::to_lowercase` returns.
pub uninterp spec fn lower_of(s: Seq<char>) -> Seq<char>;

/// Relies on `str::to_lowercase`: the result depends on the characters
/// alone, and an empty text stays empty.
#[verifier::external_body]
fn lowercase(s: &str) -> (r: String)
    ensures
        r@ == lower_of(s@),
        s@.len() == 0 ==> r@.len() == 0,
{
    s.to_lowercase()
}

/// `pat` occurs in `s` as a run of consecutive characters.
pub open spec fn occurs_in(pat: Seq<char>, s: Seq<char>) -> bool {
    exists|i: int| 0 <= i && i + pat.len() <= s.len() && #[trigger] s.subrange(i, i + pat.len()) == pat
}

/// Whether `pat` occurs in `s` at character position `i`.
fn occurs_at(s: &str, pat: &str, i: usize) -> (r: bool)
    requires
        i + pat@.len() <= s@.len(),
    ensures
        r == (s@.subrange(i as int, i + pat@.len()) == pat@),
{
    let n = s.unicode_len();
    let m = pat.unicode_len();
    let mut j: usize = 0;
    while j < m
        invariant
            n == s@.len(),
            m == pat@.len(),
            i + m <= s@.len(),
            j <= m,
            forall|k: int| 0 <= k < j ==> s@[i + k] == pat@[k],
        decreases m - j,
    {
        if s.get_char(i + j) != pat.get_char(j) {
            proof {
                assert(s@.subrange(i as int, i + m)[j as int] != pat@[j as int]);
            }
            return false;
        }
        j = j + 1;
    }
    proof {
        assert(s@.subrange(i as int, i + m) =~= pat@);
    }
    true
}

/// Whether `pat` occurs in `s`, as `str::contains` tells.
fn text_contains(s: &str, pat: &str) -> (r: bool)
    ensures
        r == occurs_in(pat@, s@),
{
    let n = s.unicode_len();
    let m = pat.unicode_len();
    if m > n {
        return false;
    }
    let last = n - m;
    let mut i: usize = 0;
    loop
        invariant
            n == s@.len(),
            m == pat@.len(),
            last == n - m,
            i <= last,
            forall|k: int| 0 <= k < i ==> #[trigger] s@.subrange(k, k + m) != pat@,
        decreases last - i,
    {
        if occurs_at(s, pat, i) {
            return true;
        }
        if i == last {
            return false;
        }
        i = i + 1;
    }
}

/// Signals of a transport failure or a server-side error.
pub open spec fn transient_text(t: Seq<char>) -> bool {
    occurs_in("timeout"@, t) || occurs_in("connection"@, t) || occurs_in("network"@, t) || occurs_in(
        "500"@,
        t,
    ) || occurs_in("502"@, t) || occurs_in("503"@, t) || occurs_in("504"@, t)
}

/// Whether an already lower-cased error text reports a transient failure.
pub fn is_retryable_lowered(lowered: &str) -> (r: bool)
    ensures
        r == transient_text(lowered@),
{
    text_contains(lowered, "timeout") || text_contains(lowered, "connection") || text_contains(
        lowered,
        "network",
    ) || text_contains(lowered, "500") || text_contains(lowered, "502") || text_contains(
        lowered,
        "503",
    ) || text_contains(lowered, "504")
}

/// Whether an error's text, read case-insensitively, reports a transient
/// failure. Informational: `settle` retries every failure.
pub fn is_retryable(error_text: &str) -> (r: bool)
    ensures
        r == transient_text(lower_of(error_text@)),
{
    let lowered = lowercase(error_text);
    is_retryable_lowered(lowered.as_str())
}

} // verus!
