use vstd::prelude::*;

verus! {

/// Two to the power `n`.
pub open spec fn pow2(n: nat) -> nat
    decreases n,
{
    if n == 0 {
        1
    } else {
        2 * pow2((n - 1) as nat)
    }
}

/// The exponential part of the delay before retry number `attempt`:
/// `base_ms * 2^(attempt - 1)`, with attempt zero treated as the first.
pub open spec fn grown_delay(attempt: u32, base_ms: u32) -> nat {
    let exponent: nat = if attempt == 0 {
        0
    } else {
        (attempt - 1) as nat
    };
    base_ms as nat * pow2(exponent)
}

pub open spec fn min_nat(a: nat, b: nat) -> nat {
    if a <= b {
        a
    } else {
        b
    }
}

/// The delay in milliseconds before the next connection attempt: the grown
/// delay clipped to `cap_ms`, plus `jitter` and clipped to `cap_ms` again,
/// minus the time already spent on the failed attempt, and never below zero.
pub open spec fn delay_spec(
    elapsed_ms: u32,
    attempt: u32,
    base_ms: u32,
    cap_ms: u32,
    jitter: u32,
) -> nat {
    let clipped = min_nat(grown_delay(attempt, base_ms), cap_ms as nat);
    let ceiling = min_nat(clipped + jitter as nat, cap_ms as nat);
    if ceiling > elapsed_ms as nat {
        (ceiling - elapsed_ms as nat) as nat
    } else {
        0
    }
}

proof fn lemma_pow2_monotone(a: nat, b: nat)
    requires
        a <= b,
    ensures
        pow2(a) <= pow2(b),
    decreases b,
{
    if a < b {
        lemma_pow2_monotone(a, (b - 1) as nat);
    }
}

proof fn lemma_grown_monotone(a1: u32, a2: u32, base_ms: u32)
    requires
        a1 <= a2,
    ensures
        grown_delay(a1, base_ms) <= grown_delay(a2, base_ms),
{
    let e1: nat = if a1 == 0 { 0 } else { (a1 - 1) as nat };
    let e2: nat = if a2 == 0 { 0 } else { (a2 - 1) as nat };
    lemma_pow2_monotone(e1, e2);
    let p1 = pow2(e1);
    let p2 = pow2(e2);
    let b = base_ms as nat;
    assert(b * p1 <= b * p2) by (nonlinear_arith)
        requires
            p1 <= p2,
    ;
}

/// The delay is never above the ceiling, and for the same time spent it
/// never shrinks as the attempt count grows: the delays rise until they
/// reach the ceiling and stay there.
pub proof fn lemma_delay_bounded_and_monotone(
    elapsed_ms: u32,
    a1: u32,
    a2: u32,
    base_ms: u32,
    cap_ms: u32,
    jitter: u32,
)
    requires
        1 <= a1 <= a2,
    ensures
        delay_spec(elapsed_ms, a1, base_ms, cap_ms, jitter) <= cap_ms,
        delay_spec(elapsed_ms, a1, base_ms, cap_ms, jitter) <= delay_spec(
            elapsed_ms,
            a2,
            base_ms,
            cap_ms,
            jitter,
        ),
{
    lemma_grown_monotone(a1, a2, base_ms);
}

/// Milliseconds to wait before the next connection attempt, given the time
/// already spent on the attempt that failed and how many attempts were made.
pub fn next_delay(
    elapsed_this_attempt_ms: u32,
    attempt_count: u32,
    base_ms: u32,
    cap_ms: u32,
    jitter: u32,
) -> (r: u32)
    ensures
        r as nat == delay_spec(elapsed_this_attempt_ms, attempt_count, base_ms, cap_ms, jitter),
        r <= cap_ms,
{
    let cap: u64 = cap_ms as u64;
    let mut grown: u64 = base_ms as u64;
    let mut i: u32 = 1;
    let last: u32 = if attempt_count == 0 {
        1
    } else {
        attempt_count
    };
    assert(pow2(0) == 1);
    assert((i - 1) as nat == 0);
    assert(pow2((i - 1) as nat) == 1);
    assert(base_ms as nat * pow2((i - 1) as nat) == base_ms as nat);
    while i < last && grown < cap
        invariant
            1 <= i <= last,
            last == (if attempt_count == 0 { 1 } else { attempt_count }),
            grown as nat == base_ms as nat * pow2((i - 1) as nat),
            grown <= 2 * (u32::MAX as u64),
            cap == cap_ms as u64,
        decreases last - i,
    {
        proof {
            assert(pow2(i as nat) == 2 * pow2((i - 1) as nat));
            assert(base_ms as nat * (2 * pow2((i - 1) as nat)) == 2 * (base_ms as nat * pow2(
                (i - 1) as nat,
            ))) by (nonlinear_arith);
        }
        grown = grown * 2;
        i = i + 1;
    }
    proof {
        let e: nat = (last - 1) as nat;
        assert(grown_delay(attempt_count, base_ms) == base_ms as nat * pow2(e));
        if i < last {
            lemma_pow2_monotone((i - 1) as nat, e);
            let p1 = pow2((i - 1) as nat);
            let p2 = pow2(e);
            let b = base_ms as nat;
            assert(b * p1 <= b * p2) by (nonlinear_arith)
                requires
                    p1 <= p2,
            ;
        }
    }
    let clipped: u64 = if grown < cap {
        grown
    } else {
        cap
    };
    let with_jitter: u64 = clipped + jitter as u64;
    let ceiling: u64 = if with_jitter < cap {
        with_jitter
    } else {
        cap
    };
    let elapsed: u64 = elapsed_this_attempt_ms as u64;
    if ceiling > elapsed {
        (ceiling - elapsed) as u32
    } else {
        0
    }
}

/// The retry schedule of the connection supervisor: the first delay, the
/// ceiling, and a fixed perturbation, all in milliseconds.
#[derive(PartialEq, Eq, Structural, Clone, Copy, Debug)]
pub struct BackoffPolicy {
    pub base_ms: u32,
    pub cap_ms: u32,
    pub jitter: u32,
}

impl BackoffPolicy {
    /// One second at first, doubling up to ten minutes, without jitter.
    pub fn standard() -> (r: BackoffPolicy)
        ensures
            r.base_ms == 1000,
            r.cap_ms == 600_000,
            r.jitter == 0,
    {
        BackoffPolicy { base_ms: 1000, cap_ms: 600_000, jitter: 0 }
    }

    /// The delay before the next attempt under this policy.
    pub fn delay(&self, elapsed_this_attempt_ms: u32, attempt_count: u32) -> (r: u32)
        ensures
            r as nat == delay_spec(
                elapsed_this_attempt_ms,
                attempt_count,
                self.base_ms,
                self.cap_ms,
                self.jitter,
            ),
            r <= self.cap_ms,
    {
        next_delay(elapsed_this_attempt_ms, attempt_count, self.base_ms, self.cap_ms, self.jitter)
    }
}

} // verus!
