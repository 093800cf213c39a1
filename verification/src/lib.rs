//! A small library of greeting and arithmetic helpers: a greeting
//! formatter, checked integer addition, an increment-by-two helper, and a
//! factorial function, each with a full functional contract.

use vstd::prelude::*;

pub mod decimal;
pub mod demo;

verus! {

/// Greets someone with a friendly message.
///
/// For every name, including the empty one, the result is exactly
/// `"Hello, "` followed by the name followed by `"!"`.
pub fn greet(name: &str) -> (r: String)
    ensures
        r@ == "Hello, "@ + name@ + "!"@,
{
    let mut message = String::from_str("Hello, ");
    message.append(name);
    message.append("!");
    message
}

/// The mathematical sum that `add` and `add_two` compute.
pub open spec fn sum(a: int, b: int) -> int {
    a + b
}

/// Adds two numbers together.
///
/// The inputs are required to have a sum representable as an `i32`;
/// within that range the result is exactly the mathematical sum.
pub fn add(a: i32, b: i32) -> (r: i32)
    requires
        i32::MIN <= a + b <= i32::MAX,
    ensures
        r == sum(a as int, b as int),
{
    a + b
}

/// Addition is commutative: the sum of `a` and `b` equals the sum of
/// `b` and `a`.
pub proof fn lemma_add_commutative(a: int, b: int)
    ensures
        sum(a, b) == sum(b, a),
{
}

/// Adds two to a number.
///
/// The result of `add_two(x)` is exactly the result of `add(x, 2)`.
pub fn add_two(x: i32) -> (r: i32)
    requires
        x + 2 <= i32::MAX,
    ensures
        r == sum(x as int, 2),
{
    crate::add(x, 2)
}

/// The mathematical factorial that `factorial` computes.
pub open spec fn fact(n: nat) -> nat
    decreases n,
{
    if n <= 1 {
        1
    } else {
        n * fact((n - 1) as nat)
    }
}

/// Every factorial is at least one.
pub proof fn lemma_fact_at_least_one(n: nat)
    ensures
        fact(n) >= 1,
    decreases n,
{
    if n > 1 {
        lemma_fact_at_least_one((n - 1) as nat);
        assert(n * fact((n - 1) as nat) >= fact((n - 1) as nat)) by (nonlinear_arith)
            requires
                n >= 1,
                fact((n - 1) as nat) >= 0,
        ;
    }
}

/// Factorial is monotone: a larger argument gives a factorial at least
/// as large.
pub proof fn lemma_fact_monotone(m: nat, n: nat)
    requires
        m <= n,
    ensures
        fact(m) <= fact(n),
    decreases n,
{
    if m < n {
        lemma_fact_monotone(m, (n - 1) as nat);
        lemma_fact_at_least_one((n - 1) as nat);
        assert(n * fact((n - 1) as nat) >= fact((n - 1) as nat)) by (nonlinear_arith)
            requires
                n >= 1,
                fact((n - 1) as nat) >= 0,
        ;
    }
}

/// The factorial recurrence: for every `n >= 1`,
/// `fact(n) == n * fact(n - 1)`.
pub proof fn lemma_factorial_recurrence(n: nat)
    requires
        n >= 1,
    ensures
        fact(n) == n * fact((n - 1) as nat),
{
}

/// The value of `fact(12)`, the largest factorial that `factorial`
/// accepts; it fits in a `u32`.
proof fn lemma_fact_twelve()
    ensures
        fact(12) == 479001600,
{
    reveal_with_fuel(fact, 2);
    assert(fact(2) == 2);
    assert(fact(3) == 6);
    assert(fact(4) == 24);
    assert(fact(5) == 120);
    assert(fact(6) == 720);
    assert(fact(7) == 5040);
    assert(fact(8) == 40320);
    assert(fact(9) == 362880);
    assert(fact(10) == 3628800);
    assert(fact(11) == 39916800);
    assert(fact(12) == 479001600);
}

/// Calculates the factorial of a number.
///
/// The argument is a non-negative integer by construction; it is
/// bounded so that the result fits in a `u32`, and the result is
/// exactly the mathematical factorial.
pub fn factorial(n: u32) -> (r: u32)
    requires
        n <= 12,
    ensures
        r == fact(n as nat),
    decreases n,
{
    match n {
        0 | 1 => 1,
        _ => {
            proof {
                lemma_fact_monotone(n as nat, 12);
                lemma_fact_twelve();
            }
            n * factorial(n - 1)
        },
    }
}

} // verus!
