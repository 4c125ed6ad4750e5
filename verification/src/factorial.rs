//! Integer factorial, the arithmetic behind the postfix `!` operator: the
//! product of the integers from 1 up to the operand, with the empty product
//! equal to 1.

use vstd::prelude::*;

verus! {

/// `n!` as unbounded mathematics: the product of the integers `1..=n`, with
/// the empty product equal to 1.
pub open spec fn spec_factorial(n: nat) -> nat
    decreases n,
{
    if n == 0 {
        1
    } else {
        n * spec_factorial((n - 1) as nat)
    }
}

pub proof fn lemma_factorial_at_least_one(n: nat)
    ensures
        spec_factorial(n) >= 1,
    decreases n,
{
    if n > 0 {
        lemma_factorial_at_least_one((n - 1) as nat);
        assert(n * spec_factorial((n - 1) as nat) >= 1) by (nonlinear_arith)
            requires
                n >= 1,
                spec_factorial((n - 1) as nat) >= 1,
        ;
    }
}

pub proof fn lemma_factorial_monotone(m: nat, n: nat)
    requires
        m <= n,
    ensures
        spec_factorial(m) <= spec_factorial(n),
    decreases n,
{
    if m < n {
        lemma_factorial_monotone(m, (n - 1) as nat);
        lemma_factorial_at_least_one((n - 1) as nat);
        assert(n * spec_factorial((n - 1) as nat) >= spec_factorial((n - 1) as nat))
            by (nonlinear_arith)
            requires
                n >= 1,
                spec_factorial((n - 1) as nat) >= 0,
        ;
    }
}

/// The factorial of `n` when it fits in a `u64`, and `None` when it would
/// overflow.
pub fn checked_factorial(n: u64) -> (r: Option<u64>)
    ensures
        match r {
            Some(f) => f == spec_factorial(n as nat),
            None => spec_factorial(n as nat) > u64::MAX,
        },
{
    let mut acc: u64 = 1;
    let mut i: u64 = 0;
    while i < n
        invariant
            i <= n,
            acc == spec_factorial(i as nat),
        decreases n - i,
    {
        i = i + 1;
        acc = match acc.checked_mul(i) {
            Some(v) => v,
            None => {
                proof {
                    assert(spec_factorial(i as nat) == i * spec_factorial((i - 1) as nat));
                    assert(i * spec_factorial((i - 1) as nat) > u64::MAX) by (nonlinear_arith)
                        requires
                            spec_factorial((i - 1) as nat) * i > u64::MAX,
                    ;
                    lemma_factorial_monotone(i as nat, n as nat);
                }
                return None;
            },
        };
        proof {
            assert(acc == i * spec_factorial((i - 1) as nat)) by (nonlinear_arith)
                requires
                    acc == spec_factorial((i - 1) as nat) * i,
            ;
        }
    }
    Some(acc)
}

} // verus!
