//! Naive recursive Fibonacci numbers.

use vstd::prelude::*;

verus! {

/// The mathematical Fibonacci sequence: 0, 1, 1, 2, 3, 5, ...
pub open spec fn fib_spec(n: nat) -> nat
    decreases n,
{
    if n == 0 {
        0
    } else if n == 1 {
        1
    } else {
        fib_spec((n - 1) as nat) + fib_spec((n - 2) as nat)
    }
}

/// The Fibonacci sequence never decreases as the index grows.
pub proof fn lemma_fib_is_monotonic(i: nat, j: nat)
    requires
        i <= j,
    ensures
        fib_spec(i) <= fib_spec(j),
    decreases j - i,
{
    if i < 2 && j < 2 {
        // base indices are settled by unfolding the definition
    } else if i == j {
    } else if i == j - 1 {
        lemma_fib_is_monotonic(i, (j - 1) as nat);
        assert(fib_spec(j) == fib_spec((j - 1) as nat) + fib_spec((j - 2) as nat));
    } else {
        lemma_fib_is_monotonic(i, (j - 1) as nat);
        lemma_fib_is_monotonic(i, (j - 2) as nat);
        assert(fib_spec(j) == fib_spec((j - 1) as nat) + fib_spec((j - 2) as nat));
    }
}

/// The largest index whose Fibonacci number fits in an `i32`.
pub proof fn lemma_fib_46()
    ensures
        fib_spec(46) == 1836311903,
{
    assert(fib_spec(0) == 0);
    assert(fib_spec(1) == 1);
    assert(fib_spec(2) == 1);
    assert(fib_spec(3) == 2);
    assert(fib_spec(4) == 3);
    assert(fib_spec(5) == 5);
    assert(fib_spec(6) == 8);
    assert(fib_spec(7) == 13);
    assert(fib_spec(8) == 21);
    assert(fib_spec(9) == 34);
    assert(fib_spec(10) == 55);
    assert(fib_spec(11) == 89);
    assert(fib_spec(12) == 144);
    assert(fib_spec(13) == 233);
    assert(fib_spec(14) == 377);
    assert(fib_spec(15) == 610);
    assert(fib_spec(16) == 987);
    assert(fib_spec(17) == 1597);
    assert(fib_spec(18) == 2584);
    assert(fib_spec(19) == 4181);
    assert(fib_spec(20) == 6765);
    assert(fib_spec(21) == 10946);
    assert(fib_spec(22) == 17711);
    assert(fib_spec(23) == 28657);
    assert(fib_spec(24) == 46368);
    assert(fib_spec(25) == 75025);
    assert(fib_spec(26) == 121393);
    assert(fib_spec(27) == 196418);
    assert(fib_spec(28) == 317811);
    assert(fib_spec(29) == 514229);
    assert(fib_spec(30) == 832040);
    assert(fib_spec(31) == 1346269);
    assert(fib_spec(32) == 2178309);
    assert(fib_spec(33) == 3524578);
    assert(fib_spec(34) == 5702887);
    assert(fib_spec(35) == 9227465);
    assert(fib_spec(36) == 14930352);
    assert(fib_spec(37) == 24157817);
    assert(fib_spec(38) == 39088169);
    assert(fib_spec(39) == 63245986);
    assert(fib_spec(40) == 102334155);
    assert(fib_spec(41) == 165580141);
    assert(fib_spec(42) == 267914296);
    assert(fib_spec(43) == 433494437);
    assert(fib_spec(44) == 701408733);
    assert(fib_spec(45) == 1134903170);
    assert(fib_spec(46) == 1836311903);
}

/// Each Fibonacci number past the first two is the sum of the previous two.
pub proof fn lemma_fib_recurrence(n: nat)
    requires
        n > 1,
    ensures
        fib_spec(n) == fib_spec((n - 1) as nat) + fib_spec((n - 2) as nat),
{
}

/// The nth Fibonacci number, by naive double recursion with no memoization.
///
/// Indices above 46 are excluded: their Fibonacci numbers do not fit in an
/// `i32`. Behaviour on a negative index is left unspecified by the exercise,
/// so negative indices are excluded as well.
pub fn fib(n: i32) -> (r: i32)
    requires
        0 <= n <= 46,
    ensures
        r == fib_spec(n as nat),
    decreases n,
{
    if n <= 1 {
        return n;
    }
    proof {
        lemma_fib_is_monotonic(n as nat, 46);
        lemma_fib_46();
    }
    let a = fib(n - 1);
    let b = fib(n - 2);
    a + b
}

} // verus!
