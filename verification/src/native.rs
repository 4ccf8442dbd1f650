//! Native reference implementations of the benchmark workloads: the
//! greatest common divisor and a trial-division primality test. They are the
//! host-side halves of the guest-versus-native comparison and are verified
//! against direct mathematical statements.

use vstd::prelude::*;

verus! {

/// The greatest common divisor by Euclid's rule; `gcd_nat(0, b) == b`.
pub open spec fn gcd_nat(a: nat, b: nat) -> nat
    decreases a,
{
    if a == 0 {
        b
    } else {
        gcd_nat(b % a, a)
    }
}

/// The greatest common divisor of a non-zero number bounds it from below.
pub proof fn lemma_gcd_le(a: nat, b: nat)
    requires
        a != 0,
    ensures
        gcd_nat(a, b) <= a,
    decreases a,
{
    let r = b % a;
    if r == 0 {
        assert(gcd_nat(a, b) == gcd_nat(0nat, a));
    } else {
        lemma_gcd_le(r, a);
    }
}

/// Whether `d` divides `x`; every number divides zero.
pub open spec fn divides(d: nat, x: nat) -> bool {
    exists|k: nat| x == #[trigger] (d * k)
}

/// Law: the greatest common divisor divides both its arguments.
pub proof fn lemma_gcd_divides(a: nat, b: nat)
    ensures
        divides(gcd_nat(a, b), a),
        divides(gcd_nat(a, b), b),
    decreases a,
{
    let g = gcd_nat(a, b);
    if a == 0 {
        assert(a == g * 0);
        assert(b == g * 1);
    } else {
        let r = b % a;
        lemma_gcd_divides(r, a);
        assert(g == gcd_nat(r, a));
        let k1 = choose|k: nat| a == #[trigger] (g * k);
        let k2 = choose|k: nat| r == #[trigger] (g * k);
        vstd::arithmetic::div_mod::lemma_fundamental_div_mod(b as int, a as int);
        let q = b as int / a as int;
        assert(q >= 0) by {
            vstd::arithmetic::div_mod::lemma_div_pos_is_pos(b as int, a as int);
        }
        assert(b == g * (k1 * q + k2)) by (nonlinear_arith)
            requires
                b == a * q + r,
                a == g * k1,
                r == g * k2,
        ;
        assert(k1 * q + k2 >= 0) by (nonlinear_arith)
            requires
                k1 >= 0,
                q >= 0,
                k2 >= 0,
        ;
        assert(b == g * ((k1 * q + k2) as nat));
    }
}

/// Law: every common divisor of the two arguments divides their greatest
/// common divisor — together with `lemma_gcd_divides`, `gcd_nat` is the
/// greatest common divisor in the divisibility order.
pub proof fn lemma_gcd_greatest(a: nat, b: nat, d: nat)
    requires
        divides(d, a),
        divides(d, b),
    ensures
        divides(d, gcd_nat(a, b)),
    decreases a,
{
    if a == 0 {
    } else {
        let r = b % a;
        if d == 0 {
            let k = choose|k: nat| a == #[trigger] (d * k);
            assert(a == 0);
        }
        let ka = choose|k: nat| a == #[trigger] (d * k);
        let kb = choose|k: nat| b == #[trigger] (d * k);
        vstd::arithmetic::div_mod::lemma_fundamental_div_mod(b as int, a as int);
        let q = b as int / a as int;
        assert(q >= 0) by {
            vstd::arithmetic::div_mod::lemma_div_pos_is_pos(b as int, a as int);
        }
        let m = kb - ka * q;
        assert(d * m == r) by (nonlinear_arith)
            requires
                b == a * q + r,
                a == d * ka,
                b == d * kb,
                m == kb - ka * q,
        ;
        assert(m >= 0) by (nonlinear_arith)
            requires
                d * m == r,
                r >= 0,
                d > 0,
        ;
        assert(r == d * (m as nat));
        assert(divides(d, r));
        lemma_gcd_greatest(r, a, d);
    }
}

/// The greatest common divisor of `a` and `b`, by Euclid's algorithm;
/// `gcd(0, 0)` is `0` and `gcd(0, b) == b`. The workloads compare guest and
/// native results on non-negative pairs, which is all this function admits.
pub fn gcd(a: i32, b: i32) -> (r: i32)
    requires
        0 <= a,
        0 <= b,
    ensures
        r == gcd_nat(a as nat, b as nat),
{
    let mut x: u32 = a as u32;
    let mut y: u32 = b as u32;
    let ghost g = gcd_nat(a as nat, b as nat);
    while x != 0
        invariant
            gcd_nat(x as nat, y as nat) == g,
        decreases x,
    {
        proof {
            assert(gcd_nat(x as nat, y as nat) == gcd_nat((y as nat) % (x as nat), x as nat));
        }
        let t = y % x;
        y = x;
        x = t;
    }
    proof {
        assert(gcd_nat(0nat, y as nat) == y as nat);
        if a != 0 {
            lemma_gcd_le(a as nat, b as nat);
            assert(g <= a <= i32::MAX);
        } else {
            assert(g == b as nat);
            assert(g <= i32::MAX);
        }
    }
    y as i32
}

/// Whether some divisor of `t` that is at least 2 has a square no larger
/// than `t`. Trial division up to the square root decides exactly this.
pub open spec fn has_small_factor(t: u64) -> bool {
    exists|d: int| 2 <= d && d * d <= t && #[trigger] ((t as int) % d) == 0
}

/// The largest trial divisor whose square a 64-bit word can hold, squared:
/// `4294967295 * 4294967295`. A target at or above this bound exhausts the
/// 64-bit trial divisors before the square root is reached.
pub const TRIAL_LIMIT_SQUARED: u64 = 18446744065119617025;

/// Trial division: `Some(true)` when no divisor with square at most `target`
/// exists and the square root was reached within 64-bit arithmetic;
/// `Some(false)` when such a divisor exists; `None` when the answer is
/// undetermined because squaring the next trial divisor would overflow
/// before the square root was reached. Note that targets below 4 have no
/// divisor with a small enough square, so they all yield `Some(true)`.
pub fn is_prime(target: u64) -> (r: Option<bool>)
    ensures
        r == Some(false) <==> has_small_factor(target),
        r == Some(true) <==> (!has_small_factor(target) && target < TRIAL_LIMIT_SQUARED),
        r is None <==> (!has_small_factor(target) && target >= TRIAL_LIMIT_SQUARED),
{
    let mut i: u64 = 2;
    loop
        invariant
            2 <= i,
            forall|j: int| 2 <= j < i ==> #[trigger] ((target as int) % j) != 0,
            i == 2 || (i - 1) * (i - 1) <= target,
        decreases u64::MAX as int - i,
    {
        match i.checked_mul(i) {
            Some(x) => {
                if x > target {
                    proof {
                        assert(i <= 4294967295) by (nonlinear_arith)
                            requires
                                i * i <= u64::MAX as int,
                                i >= 2,
                        ;
                        assert(i * i <= TRIAL_LIMIT_SQUARED as int) by (nonlinear_arith)
                            requires
                                2 <= i <= 4294967295,
                        ;
                        assert(target < TRIAL_LIMIT_SQUARED);
                        assert forall|d: int| 2 <= d && d * d <= target implies #[trigger] ((
                        target as int) % d) != 0 by {
                            assert(d < i) by (nonlinear_arith)
                                requires
                                    d * d <= target,
                                    (i as int) * (i as int) > target,
                                    d >= 2,
                                    i >= 2,
                            ;
                        }
                        assert(!has_small_factor(target));
                    }
                    return Some(true);
                } else if target % i == 0 {
                    proof {
                        assert(2 <= i as int && (i as int) * (i as int) <= target && (
                        target as int) % (i as int) == 0);
                        assert(has_small_factor(target));
                    }
                    return Some(false);
                } else {
                    i = i + 1;
                }
            },
            None => {
                proof {
                    assert(i >= 4294967296) by (nonlinear_arith)
                        requires
                            i * i > u64::MAX as int,
                            i >= 2,
                            u64::MAX as int == 18446744073709551615,
                    ;
                    assert((i - 1) * (i - 1) >= TRIAL_LIMIT_SQUARED as int) by (nonlinear_arith)
                        requires
                            i >= 4294967296,
                    ;
                    assert(target >= TRIAL_LIMIT_SQUARED);
                    assert forall|d: int| 2 <= d && d * d <= target implies #[trigger] ((
                    target as int) % d) != 0 by {
                        assert(d < i) by (nonlinear_arith)
                            requires
                                d * d <= u64::MAX as int,
                                d >= 2,
                                i >= 4294967296,
                                u64::MAX as int == 18446744073709551615,
                        ;
                    }
                    assert(!has_small_factor(target));
                }
                return None;
            },
        }
    }
}

/// Whether `t` is prime: at least 2, with no divisor strictly between 1
/// and itself.
pub open spec fn is_prime_math(t: u64) -> bool {
    t >= 2 && forall|d: int| 2 <= d < t ==> #[trigger] ((t as int) % d) != 0
}

/// Law: for targets of at least 2, a divisor whose square is within the
/// target exists exactly when the target is composite — so trial division
/// up to the square root decides primality. (Targets 0 and 1 are left out:
/// they have no divisor of small enough square, yet are not prime.)
pub proof fn lemma_small_factor_decides(t: u64)
    requires
        t >= 2,
    ensures
        has_small_factor(t) <==> !is_prime_math(t),
{
    if has_small_factor(t) {
        let d = choose|d: int| 2 <= d && d * d <= t && #[trigger] ((t as int) % d) == 0;
        assert(2 * d <= d * d) by (nonlinear_arith)
            requires
                d >= 2,
        ;
        assert(d < t);
        assert(!is_prime_math(t));
    }
    if !is_prime_math(t) {
        let d = choose|d: int| 2 <= d < t && #[trigger] ((t as int) % d) == 0;
        vstd::arithmetic::div_mod::lemma_fundamental_div_mod(t as int, d);
        let q = (t as int) / d;
        assert(t == d * q);
        if d * d <= t {
            assert(has_small_factor(t));
        } else {
            assert(q >= 1) by (nonlinear_arith)
                requires
                    t == d * q,
                    2 <= d,
                    t >= 2,
            ;
            assert(q >= 2) by (nonlinear_arith)
                requires
                    t == d * q,
                    d < t,
                    d >= 2,
                    q >= 1,
            ;
            assert(q < d) by (nonlinear_arith)
                requires
                    t == d * q,
                    d * d > t,
                    d >= 2,
                    q >= 1,
            ;
            assert(q * q <= t) by (nonlinear_arith)
                requires
                    t == d * q,
                    q < d,
                    q >= 1,
            ;
            vstd::arithmetic::div_mod::lemma_mod_multiples_basic(d, q);
            assert((d * q) % q == 0);
            assert((t as int) % q == 0);
            assert(2 <= q && q * q <= t && (t as int) % q == 0);
            assert(has_small_factor(t));
        }
    }
}

/// Law: a determined trial-division answer is never wrong. For a target of
/// at least 2, `Some(true)` means prime and `Some(false)` means composite;
/// the undetermined answer arises only at or beyond `TRIAL_LIMIT_SQUARED`,
/// never in place of a boolean the test could have been wrong about. The
/// premises are exactly what `is_prime` ensures of its result.
pub proof fn lemma_trial_division_sound(t: u64, r: Option<bool>)
    requires
        t >= 2,
        r == Some(false) <==> has_small_factor(t),
        r == Some(true) <==> (!has_small_factor(t) && t < TRIAL_LIMIT_SQUARED),
    ensures
        r matches Some(b) ==> (b <==> is_prime_math(t)),
        r is None ==> t >= TRIAL_LIMIT_SQUARED,
{
    lemma_small_factor_decides(t);
    if r is None {
        if !has_small_factor(t) && t < TRIAL_LIMIT_SQUARED {
            assert(r == Some(true));
        }
    }
}

} // verus!
