use vstd::prelude::*;

verus! {

/// The sum of the integers from 1 through `n`, defined by recursion;
/// 0 when `n <= 0`.
pub open spec fn sum_to(n: int) -> int
    decreases n,
{
    if n <= 0 {
        0
    } else {
        n + sum_to(n - 1)
    }
}

/// The value of a summation that starts from the seed `init` instead of 0.
pub open spec fn seeded_sum(n: int, init: int) -> int {
    init + sum_to(n)
}

/// The sum of the integers 1 through `n` is never negative.
pub proof fn lemma_sum_to_nonneg(n: int)
    ensures
        0 <= sum_to(n),
    decreases n,
{
    if n > 0 {
        lemma_sum_to_nonneg(n - 1);
    }
}

/// Summing up to a larger bound never yields a smaller total.
pub proof fn lemma_sum_to_monotonic(i: int, j: int)
    requires
        i <= j,
    ensures
        sum_to(i) <= sum_to(j),
    decreases j - i,
{
    if i < j {
        lemma_sum_to_monotonic(i, j - 1);
    }
}

/// Twice the sum of 1 through `n` is `n * (n + 1)`.
pub proof fn lemma_twice_sum_to(n: int)
    requires
        0 <= n,
    ensures
        2 * sum_to(n) == n * (n + 1),
    decreases n,
{
    if n == 0 {
        assert(n * (n + 1) == 0) by (nonlinear_arith)
            requires
                n == 0,
        {
        }
    } else {
        lemma_twice_sum_to(n - 1);
        assert(2 * n + (n - 1) * n == n * (n + 1)) by (nonlinear_arith);
    }
}

/// Closed form: the sum of 1 through `n` is the triangular number
/// `n * (n + 1) / 2`.
pub proof fn lemma_sum_to_closed_form(n: int)
    requires
        0 <= n,
    ensures
        sum_to(n) == n * (n + 1) / 2,
{
    lemma_twice_sum_to(n);
    assert(sum_to(n) == n * (n + 1) / 2) by (nonlinear_arith)
        requires
            2 * sum_to(n) == n * (n + 1),
    {
    }
}

/// A summation of no terms leaves the seed untouched.
pub proof fn lemma_empty_sum_is_seed(init: int)
    ensures
        seeded_sum(0, init) == init,
{
}

/// Seeding composes additively: summing 1 through `n` onto the seed `init`
/// gives `init` plus the same summation onto a zero seed.
pub proof fn lemma_seed_composes(n: int, init: int)
    ensures
        seeded_sum(n, init) == init + seeded_sum(n, 0),
{
}

/// The two strategies agree: a seeded summation with a zero seed equals
/// the plain recursive sum.
pub proof fn lemma_strategies_agree(n: int)
    ensures
        seeded_sum(n, 0) == sum_to(n),
{
}

/// Computes the sum of 1 through `n` by recursion, one call per unit of `n`.
pub fn sum_recur(n: i64) -> (r: i64)
    requires
        0 <= n,
        sum_to(n as int) <= i64::MAX,
    ensures
        r == sum_to(n as int),
    decreases n,
{
    if n == 0 {
        0
    } else {
        proof {
            lemma_sum_to_nonneg(n - 1);
        }
        n + sum_recur(n - 1)
    }
}

/// Computes the sum of 1 through `n` on top of the seed `init`, by counting
/// `n` down to 0 and accumulating; uses constant auxiliary space.
pub fn sum_iter(n: i64, init: i64) -> (r: i64)
    requires
        0 <= n,
        init + sum_to(n as int) <= i64::MAX,
    ensures
        r == seeded_sum(n as int, init as int),
{
    let mut count: i64 = n;
    let mut acc: i64 = init;
    while count != 0
        invariant
            0 <= count <= n,
            acc == init + sum_to(n as int) - sum_to(count as int),
            init + sum_to(n as int) <= i64::MAX,
        decreases count,
    {
        proof {
            lemma_sum_to_nonneg(count - 1);
            lemma_sum_to_monotonic(count - 1, n as int);
        }
        acc = acc + count;
        count = count - 1;
    }
    acc
}

} // verus!
