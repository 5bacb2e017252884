//! The integer square root that sizes a pool's first deposit, computed with
//! the Babylonian method.
//!
//! The iteration starts from the radicand itself and stops when two
//! successive guesses agree or after 100 steps. It then stands on
//! `floor(sqrt(n))` or, when `n + 1` is a perfect square `k * k` (where the
//! guesses alternate between `k - 1` and `k`), possibly on `k`; a final
//! check of the square brings it down to `floor(sqrt(n))` in every case.
use vstd::prelude::*;
use vstd::arithmetic::power2::{lemma2_to64, lemma_pow2_unfold, pow2};

verus! {

/// Most Babylonian steps taken when sizing the first deposit.
pub const MAX_SQRT_ITERATIONS: u32 = 100;

/// One Babylonian step towards `sqrt(n)` from the guess `g`.
spec fn newton_step(n: nat, g: nat) -> nat {
    if g == 0 { 0 } else { ((g + n / g) / 2) as nat }
}

/// The Babylonian iteration as the pool runs it: from `guess` (the previous
/// guess being `prev`, `iterations` steps taken), step until two successive
/// guesses agree or 100 steps are taken; a step that reaches 0 ends at 1.
spec fn babylonian(n: nat, guess: nat, prev: nat, iterations: nat) -> nat
    decreases 100 - iterations,
{
    if guess == prev || iterations >= 100 {
        guess
    } else {
        let next = newton_step(n, guess);
        if next == 0 {
            1
        } else {
            babylonian(n, next, guess, iterations + 1)
        }
    }
}

/// Where the Babylonian iteration started from `n` itself stops.
spec fn pool_sqrt(n: nat) -> nat {
    babylonian(n, n, 0, 0)
}

/// `s` is the integer square root of `n`.
pub open spec fn is_isqrt(n: nat, s: nat) -> bool {
    s * s <= n < (s + 1) * (s + 1)
}

/// The integer square root of `n`: the `s` with `s * s <= n < (s + 1) * (s + 1)`.
pub open spec fn int_sqrt(n: nat) -> nat {
    choose|s: nat| #[trigger] is_isqrt(n, s)
}

/// A number has at most one integer square root, so any `s` with
/// `s * s <= n < (s + 1) * (s + 1)` is `int_sqrt(n)`.
pub proof fn lemma_int_sqrt_unique(n: nat, s: nat)
    requires
        is_isqrt(n, s),
    ensures
        int_sqrt(n) == s,
{
    let t = int_sqrt(n);
    assert(is_isqrt(n, t));
    if t < s {
        assert((t + 1) * (t + 1) <= s * s) by (nonlinear_arith)
            requires
                t + 1 <= s,
        ;
    }
    if s < t {
        assert((s + 1) * (s + 1) <= t * t) by (nonlinear_arith)
            requires
                s + 1 <= t,
        ;
    }
}

proof fn lemma_step_bounds(n: nat, g: nat)
    requires
        1 <= g <= n,
    ensures
        g + n / g <= n + 1,
        newton_step(n, g) <= n,
        newton_step(n, g) >= 1,
{
    let q = n / g;
    assert(q * g <= n) by (nonlinear_arith)
        requires
            q == n / g,
            g >= 1,
    ;
    assert(g + q <= n + 1) by (nonlinear_arith)
        requires
            1 <= g <= n,
            q * g <= n,
            q >= 0,
    {
        assert((g - 1) * (n - g) >= 0);
        if q > n + 1 - g {
            assert(q * g >= (n + 2 - g) * g);
        }
    }
    assert(q >= 1) by (nonlinear_arith)
        requires
            q == n / g,
            1 <= g <= n,
    ;
}

/// The integer square root the pool uses to size a first deposit: the
/// Babylonian iteration from `n` (at most 100 steps), checked against `n`.
pub fn pool_integer_sqrt(n: u128) -> (r: u128)
    requires
        0 < n < u128::MAX,
    ensures
        is_isqrt(n as nat, r as nat),
        r == int_sqrt(n as nat),
        1 <= r <= n,
{
    let g = babylonian_guess(n);
    let ghost s: nat = choose|s: nat| #[trigger] is_isqrt(n as nat, s);
    proof {
        lemma_isqrt_exists(n as nat);
        lemma_iteration_near_root(n as nat, s);
    }
    let r = match g.checked_mul(g) {
        Some(sq) => if sq <= n {
            g
        } else {
            g - 1
        },
        None => g - 1,
    };
    proof {
        if r == g {
            assert(g * g <= n);
            if g == s + 1 {
                assert(false);
            }
        } else {
            assert(g * g > n);
            assert(g != s);
        }
        assert(r == s);
        lemma_int_sqrt_unique(n as nat, s);
        assert(s >= 1) by (nonlinear_arith)
            requires
                n < (s + 1) * (s + 1),
                n > 0,
        ;
    }
    r
}

/// `int_sqrt(n)` is the integer square root of `n`.
pub proof fn lemma_int_sqrt_is_isqrt(n: nat)
    ensures
        is_isqrt(n, int_sqrt(n)),
{
    lemma_isqrt_exists(n);
}

/// Every number has an integer square root.
proof fn lemma_isqrt_exists(n: nat)
    ensures
        exists|s: nat| #[trigger] is_isqrt(n, s),
    decreases n,
{
    if n == 0 {
        assert(is_isqrt(0, 0)) by (nonlinear_arith);
    } else {
        lemma_isqrt_exists((n - 1) as nat);
        let t = choose|s: nat| #[trigger] is_isqrt((n - 1) as nat, s);
        if (t + 1) * (t + 1) <= n {
            assert(n < (t + 2) * (t + 2)) by (nonlinear_arith)
                requires
                    n - 1 < (t + 1) * (t + 1),
            ;
            assert(is_isqrt(n, t + 1));
        } else {
            assert(is_isqrt(n, t));
        }
    }
}

/// The Babylonian iteration from `n`, at most 100 steps.
fn babylonian_guess(n: u128) -> (r: u128)
    requires
        0 < n < u128::MAX,
    ensures
        r == pool_sqrt(n as nat),
        1 <= r <= n,
{
    let mut guess: u128 = n;
    let mut prev_guess: u128 = 0;
    let mut iterations: u32 = 0;
    while guess != prev_guess && iterations < MAX_SQRT_ITERATIONS
        invariant
            0 < n < u128::MAX,
            1 <= guess <= n,
            iterations <= 100,
            babylonian(n as nat, guess as nat, prev_guess as nat, iterations as nat) == pool_sqrt(
                n as nat,
            ),
        ensures
            1 <= guess <= n,
            guess == pool_sqrt(n as nat),
        decreases 100 - iterations,
    {
        proof {
            lemma_step_bounds(n as nat, guess as nat);
        }
        prev_guess = guess;
        let quotient = n / guess;
        guess = (guess + quotient) / 2;
        if guess == 0 {
            guess = 1;
            break;
        }
        iterations = iterations + 1;
    }
    guess
}

/// A Babylonian step from any positive guess lands at or above the integer
/// square root.
proof fn lemma_step_at_least_root(n: nat, s: nat, g: nat)
    requires
        is_isqrt(n, s),
        g >= 1,
    ensures
        newton_step(n, g) >= s,
{
    let q = n / g;
    let g2 = newton_step(n, g);
    assert(n < g * (q + 1)) by (nonlinear_arith)
        requires
            q == n / g,
            g >= 1,
    ;
    assert(2 * (g2 + 1) >= g + q + 1) by (nonlinear_arith)
        requires
            g2 == (g + q) / 2,
            q >= 0,
    ;
    assert((g + q + 1) * (g + q + 1) >= 4 * g * (q + 1)) by (nonlinear_arith)
        requires
            g >= 1,
            q >= 0,
    {
        assert((g - (q + 1)) * (g - (q + 1)) >= 0);
    }
    assert(4 * (g2 + 1) * (g2 + 1) >= (g + q + 1) * (g + q + 1)) by (nonlinear_arith)
        requires
            2 * (g2 + 1) >= g + q + 1,
            g + q + 1 > 0,
    ;
    assert((g2 + 1) * (g2 + 1) > n) by (nonlinear_arith)
        requires
            4 * (g2 + 1) * (g2 + 1) >= (g + q + 1) * (g + q + 1),
            (g + q + 1) * (g + q + 1) >= 4 * g * (q + 1),
            n < g * (q + 1),
    ;
    if g2 < s {
        assert((g2 + 1) * (g2 + 1) <= s * s) by (nonlinear_arith)
            requires
                g2 + 1 <= s,
                g2 >= 0,
        ;
    }
}

/// Above the root the error shrinks: with `e = g - s` and `e2` the error
/// after one step, `2 * e2 * (s + e) <= e * e + 2 * s`.
proof fn lemma_step_contracts(n: nat, s: nat, g: nat)
    requires
        is_isqrt(n, s),
        s >= 1,
        g >= s + 1,
    ensures
        2 * (newton_step(n, g) - s) * g <= (g - s) * (g - s) + 2 * s,
        g - s >= 2 ==> 2 * (newton_step(n, g) - s) <= g - s,
        g - s == 1 ==> newton_step(n, g) == s,
{
    let q = n / g;
    let g2 = newton_step(n, g);
    let e = g - s;
    lemma_step_at_least_root(n, s, g);
    assert(q * g <= n) by (nonlinear_arith)
        requires
            q == n / g,
            g >= 1,
    ;
    assert(n <= s * s + 2 * s) by (nonlinear_arith)
        requires
            n < (s + 1) * (s + 1),
    ;
    assert(2 * g2 <= g + q) by (nonlinear_arith)
        requires
            g2 == (g + q) / 2,
            q >= 0,
    ;
    assert(2 * (g2 - s) * g <= (g - s) * (g - s) + 2 * s) by (nonlinear_arith)
        requires
            2 * g2 <= g + q,
            q * g <= s * s + 2 * s,
            g >= s + 1,
            g2 >= s,
    {
        assert(2 * (g2 - s) * g <= (g - 2 * s + q) * g);
        assert((g - 2 * s + q) * g == (g - 2 * s) * g + q * g);
    }
    if e >= 2 {
        assert(2 * (g2 - s) <= e) by (nonlinear_arith)
            requires
                2 * (g2 - s) * g <= e * e + 2 * s,
                g == s + e,
                e >= 2,
                s >= 1,
                g2 >= s,
        {
            assert(e * e + 2 * s <= e * g);
            if 2 * (g2 - s) > e {
                assert(2 * (g2 - s) * g >= (e + 1) * g);
            }
        }
    }
    if e == 1 {
        assert(g2 - s == 0) by (nonlinear_arith)
            requires
                2 * (g2 - s) * g <= (g - s) * (g - s) + 2 * s,
                g == s + 1,
                g2 >= s,
        {
            if g2 - s >= 1 {
                assert(2 * (g2 - s) * g >= 2 * g);
            }
        }
    }
}

/// At the root itself a step stays there, except one below a perfect square
/// (`n == s * s + 2 * s`), where it goes one up; from one above the root it
/// comes back down.
proof fn lemma_step_near_root(n: nat, s: nat)
    requires
        is_isqrt(n, s),
        s >= 1,
    ensures
        n < s * s + 2 * s ==> newton_step(n, s) == s,
        n == s * s + 2 * s ==> newton_step(n, s) == s + 1,
        n == s * s + 2 * s ==> newton_step(n, s + 1) == s,
{
    let q = n / s;
    assert(s * s <= n <= s * s + 2 * s) by (nonlinear_arith)
        requires
            s * s <= n < (s + 1) * (s + 1),
    ;
    assert(s <= q <= s + 2) by (nonlinear_arith)
        requires
            q == n / s,
            s >= 1,
            s * s <= n <= s * s + 2 * s,
    {
        assert((s * s) / s == s);
        assert((s * s + 2 * s) / s == s + 2);
    }
    if n < s * s + 2 * s {
        assert(q <= s + 1) by (nonlinear_arith)
            requires
                q == n / s,
                s >= 1,
                n < s * s + 2 * s,
        {
            if q >= s + 2 {
                assert(q * s >= (s + 2) * s);
                assert(q * s <= n);
            }
        }
    } else {
        assert(q == s + 2) by (nonlinear_arith)
            requires
                q == n / s,
                s >= 1,
                n == s * s + 2 * s,
        {
            assert(n == (s + 2) * s);
        }
        assert(n / (s + 1) == s) by (nonlinear_arith)
            requires
                n == s * s + 2 * s,
                s >= 1,
        {
            assert(s * (s + 1) <= n < (s + 1) * (s + 1));
        }
    }
}

/// `r` is where the pool's square root may land for `n` with integer root
/// `s`: the root itself, or one above it when `n + 1` is a perfect square.
spec fn near_root(n: nat, s: nat, r: nat) -> bool {
    &&& s <= r <= s + 1
    &&& r == s + 1 ==> n == s * s + 2 * s
}

/// Once a guess is within one of the root the iteration ends near the root.
proof fn lemma_endgame(n: nat, s: nat, g: nat, prev: nat, it: nat)
    requires
        is_isqrt(n, s),
        s >= 1,
        s <= g <= s + 1,
        it <= 100,
        prev == g ==> newton_step(n, g) == g,
        g == s + 1 && n != s * s + 2 * s ==> it < 100,
    ensures
        near_root(n, s, babylonian(n, g, prev, it)),
    decreases 100 - it,
{
    lemma_step_near_root(n, s);
    assert(n <= s * s + 2 * s) by (nonlinear_arith)
        requires
            n < (s + 1) * (s + 1),
    ;
    if g == s + 1 && n != s * s + 2 * s {
        lemma_step_contracts(n, s, g);
    }
    if g == prev || it >= 100 {
    } else {
        let next = newton_step(n, g);
        assert(next == s || next == s + 1);
        lemma_endgame(n, s, next, g, it + 1);
    }
}

proof fn lemma_level_step(s: int, e: int, e2: int, p: int)
    requires
        p >= 4,
        s >= 4,
        e >= 0,
        e2 >= 0,
        p * e <= s + 2 * p,
        2 * e2 * s <= e * e + 2 * s,
    ensures
        2 * p * p * e2 <= s + 4 * p * p,
{
    assert(p * p * (e * e) <= (s + 2 * p) * (s + 2 * p)) by (nonlinear_arith)
        requires
            0 <= p * e <= s + 2 * p,
    {
        assert(p * p * (e * e) == (p * e) * (p * e));
    }
    assert(2 * s + 2 * p <= p * s) by (nonlinear_arith)
        requires
            p >= 4,
            s >= 4,
    {
        assert((p - 2) * (s - 2) >= 4);
    }
    assert(2 * p * p * e2 * s <= (s + 4 * p * p) * s) by (nonlinear_arith)
        requires
            2 * e2 * s <= e * e + 2 * s,
            p * p * (e * e) <= (s + 2 * p) * (s + 2 * p),
            2 * s + 2 * p <= p * s,
            p >= 4,
            s >= 4,
    {
        assert(2 * p * p * e2 * s <= p * p * (e * e) + 2 * s * p * p);
        assert((s + 2 * p) * (s + 2 * p) + 2 * s * p * p == s * s + 4 * p * s + 4 * p * p + 2 * s * p * p);
        assert(4 * p * s + 4 * p * p <= 2 * p * (p * s));
    }
    assert(2 * p * p * e2 <= s + 4 * p * p) by (nonlinear_arith)
        requires
            2 * p * p * e2 * s <= (s + 4 * p * p) * s,
            s >= 4,
    ;
}

/// The scale of the error bound at each level of the quadratic phase.
spec fn level_scale(level: nat) -> int {
    if level == 1 {
        8
    } else if level == 2 {
        128
    } else if level == 3 {
        32768
    } else if level == 4 {
        0x8000_0000
    } else {
        0x8000_0000_0000_0000
    }
}

/// Quadratic phase: once the error is at most half the root, each step
/// squares the relative error, so six more steps bring the guess within one
/// of the root.
proof fn lemma_quadratic_phase(n: nat, s: nat, g: nat, prev: nat, it: nat, level: nat)
    requires
        is_isqrt(n, s),
        4 <= s < 0x1_0000_0000_0000_0000,
        g >= s,
        level <= 5,
        it <= 91 + level,
        prev == g ==> newton_step(n, g) == g,
        level == 0 ==> 2 * (g - s) <= s,
        level > 0 ==> level_scale(level) * (g - s) <= s + 2 * level_scale(level),
    ensures
        near_root(n, s, babylonian(n, g, prev, it)),
    decreases 100 - it,
{
    let e = g - s;
    if e <= 1 {
        lemma_endgame(n, s, g, prev, it);
    } else {
        lemma_step_contracts(n, s, g);
        lemma_step_at_least_root(n, s, g);
        let next = newton_step(n, g);
        let e2 = next - s;
        assert(2 * e2 * s <= e * e + 2 * s) by (nonlinear_arith)
            requires
                2 * e2 * g <= e * e + 2 * s,
                g >= s,
                e2 >= 0,
        ;
        assert(g != prev);
        if level == 5 {
            assert(e <= 3) by (nonlinear_arith)
                requires
                    0x8000_0000_0000_0000 * e <= s + 0x1_0000_0000_0000_0000,
                    s < 0x1_0000_0000_0000_0000,
            ;
            assert(e2 <= 1);
            lemma_step_at_least_root(n, s, next);
            lemma_endgame(n, s, next, g, it + 1);
        } else if level == 0 {
            assert(8 * e2 <= s + 16) by (nonlinear_arith)
                requires
                    2 * e2 * s <= e * e + 2 * s,
                    2 * e <= s,
                    e >= 0,
                    s >= 4,
            {
                assert(e * e <= e * s / 2 + 1) by (nonlinear_arith)
                    requires
                        2 * e <= s,
                        e >= 0,
                ;
                assert(2 * e2 * s <= e * s / 2 + 1 + 2 * s);
            }
            lemma_quadratic_phase(n, s, next, g, it + 1, 1);
        } else {
            let p = level_scale(level);
            lemma_level_step(s as int, e as int, e2 as int, p);
            assert(level_scale((level + 1) as nat) == 2 * p * p);
            lemma_quadratic_phase(n, s, next, g, it + 1, (level + 1) as nat);
        }
    }
}

/// Halving phase: above the root each step at least halves the error, so
/// after `it` steps the error times `2^it` is at most `n`; after 65 steps the
/// error is at most half the root.
proof fn lemma_halving_phase(n: nat, s: nat, g: nat, prev: nat, it: nat)
    requires
        is_isqrt(n, s),
        1 <= s < 0x1_0000_0000_0000_0000,
        g >= s,
        it <= 65,
        prev == g ==> newton_step(n, g) == g,
        (g - s) * pow2(it) <= n,
    ensures
        near_root(n, s, babylonian(n, g, prev, it)),
    decreases 65 - it,
{
    let e = g - s;
    if e <= 1 {
        lemma_endgame(n, s, g, prev, it);
    } else if it == 65 {
        lemma2_to64();
        lemma_pow2_unfold(65);
        assert(2 * e <= s) by (nonlinear_arith)
            requires
                e * 0x2_0000_0000_0000_0000 <= n,
                n < (s + 1) * (s + 1),
                s + 1 <= 0x1_0000_0000_0000_0000,
                e >= 0,
        {
            assert((s + 1) * (s + 1) <= (s + 1) * 0x1_0000_0000_0000_0000);
        }
        if s < 4 {
            assert(false);
        }
        lemma_quadratic_phase(n, s, g, prev, it, 0);
    } else {
        lemma_step_contracts(n, s, g);
        lemma_step_at_least_root(n, s, g);
        let next = newton_step(n, g);
        assert(g != prev);
        lemma_pow2_unfold(it + 1);
        assert((next - s) * pow2(it + 1) <= n) by (nonlinear_arith)
            requires
                2 * (next - s) <= e,
                pow2(it + 1) == 2 * pow2(it),
                e * pow2(it) <= n,
                next >= s,
        {
            assert((next - s) * pow2(it + 1) == 2 * (next - s) * pow2(it));
        }
        lemma_halving_phase(n, s, next, g, it + 1);
    }
}

/// The iteration stops on the integer square root `s` of `n`, or on `s + 1`
/// when `n + 1` is a perfect square (where the guesses alternate).
proof fn lemma_iteration_near_root(n: nat, s: nat)
    requires
        0 < n < u128::MAX,
        is_isqrt(n, s),
    ensures
        s <= pool_sqrt(n) <= s + 1,
        pool_sqrt(n) == s + 1 ==> n + 1 == (s + 1) * (s + 1),
        pool_sqrt(n) * pool_sqrt(n) <= n + 1,
{
    assert(s >= 1) by (nonlinear_arith)
        requires
            n < (s + 1) * (s + 1),
            n > 0,
    ;
    assert(s < 0x1_0000_0000_0000_0000) by (nonlinear_arith)
        requires
            s * s <= n,
            n < u128::MAX,
    {
        if s >= 0x1_0000_0000_0000_0000 {
            assert(s * s >= 0x1_0000_0000_0000_0000 * 0x1_0000_0000_0000_0000);
        }
    }
    assert(s <= n) by (nonlinear_arith)
        requires
            s * s <= n,
            s >= 1,
    ;
    lemma2_to64();
    lemma_halving_phase(n, s, n, 0, 0);
    let r = pool_sqrt(n);
    assert(r * r <= n + 1) by (nonlinear_arith)
        requires
            s <= r <= s + 1,
            r == s + 1 ==> n == s * s + 2 * s,
            s * s <= n,
    ;
}

} // verus!
