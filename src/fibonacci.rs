use vstd::prelude::*;

verus! {

/// The Fibonacci sequence: 0, 1, 1, 2, 3, 5, ...
pub open spec fn fib_spec(n: nat) -> nat
    decreases n,
{
    if n < 2 {
        n
    } else {
        fib_spec((n - 1) as nat) + fib_spec((n - 2) as nat)
    }
}

/// The largest argument whose Fibonacci number fits in a `u32`.
pub const FIB_MAX_ARG: u32 = 47;

/// The sequence never decreases.
pub proof fn lemma_fib_monotone(i: nat, j: nat)
    requires
        i <= j,
    ensures
        fib_spec(i) <= fib_spec(j),
    decreases j,
{
    if i < j {
        if j >= 2 {
            lemma_fib_monotone(i, (j - 1) as nat);
        }
    }
}

/// The Fibonacci number at `FIB_MAX_ARG`, worked out one step at a time.
proof fn lemma_fib_at_max_arg()
    ensures
        fib_spec(47) == 2971215073,
{
    reveal_with_fuel(fib_spec, 2);
    assert(fib_spec(2) == 1);
    assert(fib_spec(3) == 2);
    assert(fib_spec(4) == 3);
    assert(fib_spec(5) == 5);
    assert(fib_spec(6) == 8);
    assert(fib_spec(7) == 13);
    assert(fib_spec(8) == 21);
    assert(fib_spec(9) == 34);
    assert(fib_spec(10) == 55);
    assert(fib_spec(11) == 89);
    assert(fib_spec(12) == 144);
    assert(fib_spec(13) == 233);
    assert(fib_spec(14) == 377);
    assert(fib_spec(15) == 610);
    assert(fib_spec(16) == 987);
    assert(fib_spec(17) == 1597);
    assert(fib_spec(18) == 2584);
    assert(fib_spec(19) == 4181);
    assert(fib_spec(20) == 6765);
    assert(fib_spec(21) == 10946);
    assert(fib_spec(22) == 17711);
    assert(fib_spec(23) == 28657);
    assert(fib_spec(24) == 46368);
    assert(fib_spec(25) == 75025);
    assert(fib_spec(26) == 121393);
    assert(fib_spec(27) == 196418);
    assert(fib_spec(28) == 317811);
    assert(fib_spec(29) == 514229);
    assert(fib_spec(30) == 832040);
    assert(fib_spec(31) == 1346269);
    assert(fib_spec(32) == 2178309);
    assert(fib_spec(33) == 3524578);
    assert(fib_spec(34) == 5702887);
    assert(fib_spec(35) == 9227465);
    assert(fib_spec(36) == 14930352);
    assert(fib_spec(37) == 24157817);
    assert(fib_spec(38) == 39088169);
    assert(fib_spec(39) == 63245986);
    assert(fib_spec(40) == 102334155);
    assert(fib_spec(41) == 165580141);
    assert(fib_spec(42) == 267914296);
    assert(fib_spec(43) == 433494437);
    assert(fib_spec(44) == 701408733);
    assert(fib_spec(45) == 1134903170);
    assert(fib_spec(46) == 1836311903);
    assert(fib_spec(47) == 2971215073);
}

/// Every Fibonacci number up to index `FIB_MAX_ARG` fits in a `u32`.
pub proof fn lemma_fib_fits_u32(n: nat)
    requires
        n <= FIB_MAX_ARG,
    ensures
        fib_spec(n) <= u32::MAX,
{
    lemma_fib_at_max_arg();
    lemma_fib_monotone(n, 47);
}

/// The `n`-th Fibonacci number, by the textbook recursion.
pub fn fib(n: u32) -> (r: u32)
    requires
        n <= FIB_MAX_ARG,
    ensures
        r == fib_spec(n as nat),
    decreases n,
{
    proof {
        lemma_fib_fits_u32(n as nat);
    }
    match n {
        0 | 1 => n,
        _ => fib(n - 1) + fib(n - 2),
    }
}

} // verus!
