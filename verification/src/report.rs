//! Score reporting: the report request's URL, form fields and
//! timestamp rendering, and the bounded retry policy with exponential
//! backoff that wraps the network call.

use vstd::prelude::*;

use crate::strutil::{pad2, pad4, spec_pad2, spec_pad4};

verus! {

// ---------------------------------------------------------------------
// The submit timestamp.
// ---------------------------------------------------------------------
/// A civil timestamp with a fixed UTC offset, held as plain fields.
#[derive(Clone, Copy, Debug)]
pub struct Timestamp {
    pub year: u64,
    pub month: u64,
    pub day: u64,
    pub hour: u64,
    pub minute: u64,
    pub second: u64,
    /// True when the UTC offset is negative.
    pub offset_negative: bool,
    pub offset_hours: u64,
    pub offset_minutes: u64,
}

impl Timestamp {
    /// A renderable timestamp: calendar fields in range and an offset
    /// below one day.
    pub open spec fn wf(self) -> bool {
        &&& self.year <= 9999
        &&& 1 <= self.month <= 12
        &&& 1 <= self.day <= 31
        &&& self.hour < 24
        &&& self.minute < 60
        &&& self.second < 60
        &&& self.offset_hours < 24
        &&& self.offset_minutes < 60
    }
}

/// The timestamp rendered as `YYYY-MM-DD HH:MM:SS±HHMM`.
pub open spec fn spec_submit_time(ts: Timestamp) -> Seq<char> {
    spec_pad4(ts.year as nat) + "-"@ + spec_pad2(ts.month as nat) + "-"@ + spec_pad2(
        ts.day as nat,
    ) + " "@ + spec_pad2(ts.hour as nat) + ":"@ + spec_pad2(ts.minute as nat) + ":"@ + spec_pad2(
        ts.second as nat,
    ) + (if ts.offset_negative {
        "-"@
    } else {
        "+"@
    }) + spec_pad2(ts.offset_hours as nat) + spec_pad2(ts.offset_minutes as nat)
}

/// Renders the timestamp for the `submit_time` form field.
pub fn format_submit_time(ts: &Timestamp) -> (r: String)
    requires
        ts.wf(),
    ensures
        r@ == spec_submit_time(*ts),
{
    let mut s = pad4(ts.year);
    s.append("-");
    let month = pad2(ts.month);
    s.append(month.as_str());
    s.append("-");
    let day = pad2(ts.day);
    s.append(day.as_str());
    s.append(" ");
    let hour = pad2(ts.hour);
    s.append(hour.as_str());
    s.append(":");
    let minute = pad2(ts.minute);
    s.append(minute.as_str());
    s.append(":");
    let second = pad2(ts.second);
    s.append(second.as_str());
    if ts.offset_negative {
        s.append("-");
    } else {
        s.append("+");
    }
    let oh = pad2(ts.offset_hours);
    s.append(oh.as_str());
    let om = pad2(ts.offset_minutes);
    s.append(om.as_str());
    s
}

// ---------------------------------------------------------------------
// The report request.
// ---------------------------------------------------------------------
/// The endpoint of one report: `{base_url}/api/{course}/report`.
pub open spec fn spec_report_url(base_url: Seq<char>, course: Seq<char>) -> Seq<char> {
    base_url + "/api/"@ + course + "/report"@
}

/// Builds the report endpoint URL.
pub fn report_url(base_url: &str, course: &str) -> (r: String)
    ensures
        r@ == spec_report_url(base_url@, course@),
{
    let mut s = String::from_str(base_url);
    s.append("/api/");
    s.append(course);
    s.append("/report");
    s
}

/// Builds the report's form fields: the task, the reporting user and
/// the rendered submit time, in that order.
pub fn report_form(task: &str, username: &str, ts: &Timestamp) -> (r: Vec<(String, String)>)
    requires
        ts.wf(),
    ensures
        r@.len() == 3,
        r@[0].0@ == "task"@ && r@[0].1@ == task@,
        r@[1].0@ == "username"@ && r@[1].1@ == username@,
        r@[2].0@ == "submit_time"@ && r@[2].1@ == spec_submit_time(*ts),
{
    let mut form: Vec<(String, String)> = Vec::new();
    form.push((String::from_str("task"), String::from_str(task)));
    form.push((String::from_str("username"), String::from_str(username)));
    form.push((String::from_str("submit_time"), format_submit_time(ts)));
    form
}

/// The authorization header value carrying the tester token.
pub fn bearer_header(token: &str) -> (r: String)
    ensures
        r@ == "Bearer "@ + token@,
{
    let mut s = String::from_str("Bearer ");
    s.append(token);
    s
}

// ---------------------------------------------------------------------
// The retry policy.
// ---------------------------------------------------------------------
/// `base^e`.
pub open spec fn spec_pow(base: nat, e: nat) -> nat
    decreases e,
{
    if e == 0 {
        1
    } else {
        base * spec_pow(base, (e - 1) as nat)
    }
}

/// An explicit bounded-retry policy: how many attempts in all, the
/// delay after the first failed attempt, and the factor each further
/// delay grows by.
#[derive(Clone, Copy, Debug, PartialEq, Eq, Structural)]
pub struct RetryPolicy {
    pub max_attempts: u64,
    pub base_delay_secs: u64,
    pub multiplier: u64,
}

/// The delay slept after the `attempt`-th failed attempt (1-based):
/// the base delay grown by the multiplier for each earlier attempt.
pub open spec fn spec_delay(p: RetryPolicy, attempt: nat) -> nat
    recommends
        attempt >= 1,
{
    (p.base_delay_secs as nat) * spec_pow(p.multiplier as nat, (attempt - 1) as nat)
}

impl RetryPolicy {
    /// A usable policy: at least one attempt, a positive growing
    /// backoff, and every delay the policy can sleep fits the clock.
    pub open spec fn wf(self) -> bool {
        &&& self.max_attempts >= 1
        &&& self.base_delay_secs >= 1
        &&& self.multiplier >= 2
        &&& spec_delay(self, self.max_attempts as nat) <= u64::MAX
    }
}

/// The score-reporting policy: 3 attempts in all, backoff starting at
/// 2 seconds and doubling each attempt.
pub fn default_report_policy() -> (r: RetryPolicy)
    ensures
        r == (RetryPolicy { max_attempts: 3, base_delay_secs: 2, multiplier: 2 }),
        r.wf(),
        spec_delay(r, 1) == 2,
        spec_delay(r, 2) == 4,
{
    let r = RetryPolicy { max_attempts: 3, base_delay_secs: 2, multiplier: 2 };
    proof {
        assert(spec_pow(2, 0) == 1);
        assert(spec_pow(2, 1) == 2);
        assert(spec_pow(2, 2) == 4);
        assert(spec_delay(r, 3) == 8);
    }
    r
}

/// Delays grow strictly: each backoff is strictly longer than the one
/// before it.
pub proof fn lemma_delays_strictly_increase(p: RetryPolicy, attempt: nat)
    requires
        p.base_delay_secs >= 1,
        p.multiplier >= 2,
        attempt >= 1,
    ensures
        spec_delay(p, attempt) < spec_delay(p, attempt + 1),
    decreases attempt,
{
    lemma_pow_positive(p.multiplier as nat, (attempt - 1) as nat);
    let d = spec_delay(p, attempt);
    assert(spec_pow(p.multiplier as nat, attempt as nat) == p.multiplier * spec_pow(
        p.multiplier as nat,
        (attempt - 1) as nat,
    ));
    assert(d >= 1) by (nonlinear_arith)
        requires
            p.base_delay_secs >= 1,
            spec_pow(p.multiplier as nat, (attempt - 1) as nat) >= 1,
            d == p.base_delay_secs * spec_pow(p.multiplier as nat, (attempt - 1) as nat),
    ;
    assert(spec_delay(p, attempt + 1) == p.multiplier * d) by (nonlinear_arith)
        requires
            spec_delay(p, attempt + 1) == p.base_delay_secs * spec_pow(
                p.multiplier as nat,
                attempt as nat,
            ),
            spec_pow(p.multiplier as nat, attempt as nat) == p.multiplier * spec_pow(
                p.multiplier as nat,
                (attempt - 1) as nat,
            ),
            d == p.base_delay_secs * spec_pow(p.multiplier as nat, (attempt - 1) as nat),
    ;
    assert(p.multiplier * d >= 2 * d) by (nonlinear_arith)
        requires
            p.multiplier >= 2,
            d >= 1,
    ;
}

/// A power of a positive base is positive.
pub proof fn lemma_pow_positive(base: nat, e: nat)
    requires
        base >= 1,
    ensures
        spec_pow(base, e) >= 1,
    decreases e,
{
    if e > 0 {
        lemma_pow_positive(base, (e - 1) as nat);
        assert(spec_pow(base, e) == base * spec_pow(base, (e - 1) as nat));
        assert(base * spec_pow(base, (e - 1) as nat) >= 1) by (nonlinear_arith)
            requires
                base >= 1,
                spec_pow(base, (e - 1) as nat) >= 1,
        ;
    }
}

/// Backoff delays are monotone in the attempt number.
pub proof fn lemma_delays_monotone(p: RetryPolicy, a: nat, b: nat)
    requires
        p.base_delay_secs >= 1,
        p.multiplier >= 2,
        1 <= a <= b,
    ensures
        spec_delay(p, a) <= spec_delay(p, b),
    decreases b - a,
{
    if a < b {
        lemma_delays_strictly_increase(p, (b - 1) as nat);
        lemma_delays_monotone(p, a, (b - 1) as nat);
    }
}

/// One decision of the retry loop.
#[derive(PartialEq, Eq, Structural, Debug, Clone, Copy)]
pub enum RetryDecision {
    /// Stop: return the last attempt's result.
    Done { success: bool },
    /// Log, sleep this many seconds, and attempt again.
    RetryAfter { delay_secs: u64 },
}

/// The state of one bounded retry loop.
pub struct ReportRetry {
    pub policy: RetryPolicy,
    pub attempts: u64,
}

impl ReportRetry {
    /// Starts a retry loop under a policy.
    pub fn new(policy: RetryPolicy) -> (r: Self)
        requires
            policy.wf(),
        ensures
            r.policy == policy,
            r.attempts == 0,
    {
        ReportRetry { policy, attempts: 0 }
    }

    /// Records one attempt's result and decides what follows: success
    /// returns at once, failure retries after the scheduled backoff
    /// until the attempt budget is spent, and the final failure is
    /// returned.
    pub fn on_attempt(&mut self, ok: bool) -> (d: RetryDecision)
        requires
            old(self).policy.wf(),
            old(self).attempts < old(self).policy.max_attempts,
        ensures
            final(self).policy == old(self).policy,
            final(self).attempts == old(self).attempts + 1,
            ok ==> d == (RetryDecision::Done { success: true }),
            !ok && final(self).attempts == final(self).policy.max_attempts ==> d == (
            RetryDecision::Done { success: false }),
            !ok && final(self).attempts < final(self).policy.max_attempts ==> d
                == (RetryDecision::RetryAfter {
                delay_secs: spec_delay(final(self).policy, final(self).attempts as nat) as u64,
            }),
    {
        self.attempts = self.attempts + 1;
        if ok {
            RetryDecision::Done { success: true }
        } else if self.attempts == self.policy.max_attempts {
            RetryDecision::Done { success: false }
        } else {
            let delay = delay_for_attempt(&self.policy, self.attempts);
            RetryDecision::RetryAfter { delay_secs: delay }
        }
    }
}

/// Computes the backoff slept after the given failed attempt.
pub fn delay_for_attempt(p: &RetryPolicy, attempt: u64) -> (r: u64)
    requires
        p.wf(),
        1 <= attempt <= p.max_attempts,
    ensures
        r == spec_delay(*p, attempt as nat),
{
    let mut delay: u64 = p.base_delay_secs;
    let mut i: u64 = 1;
    proof {
        assert(spec_pow(p.multiplier as nat, 0) == 1);
        assert(spec_delay(*p, 1) == p.base_delay_secs) by (nonlinear_arith)
            requires
                spec_delay(*p, 1) == p.base_delay_secs * spec_pow(p.multiplier as nat, 0),
                spec_pow(p.multiplier as nat, 0) == 1,
        ;
    }
    while i < attempt
        invariant
            p.wf(),
            1 <= i <= attempt <= p.max_attempts,
            delay == spec_delay(*p, i as nat),
        decreases attempt - i,
    {
        proof {
            lemma_delays_strictly_increase(*p, i as nat);
            lemma_delays_monotone(*p, (i + 1) as nat, p.max_attempts as nat);
            assert(spec_delay(*p, (i + 1) as nat) <= u64::MAX);
            assert(spec_delay(*p, (i + 1) as nat) == p.multiplier * delay) by (nonlinear_arith)
                requires
                    spec_delay(*p, (i + 1) as nat) == p.base_delay_secs * spec_pow(
                        p.multiplier as nat,
                        i as nat,
                    ),
                    spec_pow(p.multiplier as nat, i as nat) == p.multiplier * spec_pow(
                        p.multiplier as nat,
                        (i - 1) as nat,
                    ),
                    delay == p.base_delay_secs * spec_pow(p.multiplier as nat, (i - 1) as nat),
            ;
        }
        delay = p.multiplier * delay;
        i = i + 1;
    }
    delay
}

// ---------------------------------------------------------------------
// The retry loop as a whole.
// ---------------------------------------------------------------------
/// How many attempts a run of the retry loop makes, given the results
/// the attempts would observe in order: it stops at the first success,
/// and never exceeds the attempt budget.
pub open spec fn spec_attempts_used(results: Seq<bool>, budget: nat) -> nat
    decreases budget,
{
    if budget == 0 || results.len() == 0 {
        0
    } else if results[0] {
        1
    } else {
        1 + spec_attempts_used(results.drop_first(), (budget - 1) as nat)
    }
}

/// On persistent failure the loop uses its whole attempt budget:
/// with every attempt failing, exactly `budget` attempts are made.
pub proof fn lemma_persistent_failure_uses_budget(results: Seq<bool>, budget: nat)
    requires
        results.len() >= budget,
        forall|j: int| 0 <= j < results.len() ==> !results[j],
    ensures
        spec_attempts_used(results, budget) == budget,
    decreases budget,
{
    if budget > 0 {
        assert(!results[0]);
        assert(forall|j: int|
            0 <= j < results.drop_first().len() ==> !(#[trigger] results.drop_first()[j]));
        lemma_persistent_failure_uses_budget(results.drop_first(), (budget - 1) as nat);
    }
}

/// A success stops the loop at once: when the first `k` attempts fail
/// and attempt `k + 1` succeeds within the budget, exactly `k + 1`
/// attempts are made and no further attempt follows.
pub proof fn lemma_success_returns_immediately(results: Seq<bool>, budget: nat, k: nat)
    requires
        k < results.len(),
        k + 1 <= budget,
        forall|j: int| 0 <= j < k ==> !results[j],
        results[k as int],
    ensures
        spec_attempts_used(results, budget) == k + 1,
    decreases k,
{
    if k == 0 {
    } else {
        assert(!results[0]);
        assert(forall|j: int|
            0 <= j < k - 1 ==> !(#[trigger] results.drop_first()[j]));
        assert(results.drop_first()[k - 1]);
        lemma_success_returns_immediately(results.drop_first(), (budget - 1) as nat, (k - 1) as nat);
    }
}

} // verus!
