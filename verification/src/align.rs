//! Alignment arithmetic shared by the Host driver and the run proofs:
//! rounding a length up to a whole number of sectors, and facts about
//! aligned addresses.

use vstd::arithmetic::div_mod::lemma_add_mod_noop;
use vstd::arithmetic::div_mod::lemma_fundamental_div_mod;
use vstd::arithmetic::div_mod::lemma_mod_division_less_than_divisor;
use vstd::arithmetic::div_mod::lemma_mod_multiples_basic;
use vstd::arithmetic::div_mod::lemma_mod_self_0;
use vstd::arithmetic::div_mod::lemma_small_mod;
use vstd::arithmetic::div_mod::lemma_sub_mod_noop;
use vstd::prelude::*;

verus! {

/// `n` rounded up to the next multiple of `k`.
pub open spec fn round_up(n: int, k: int) -> int {
    if n % k == 0 {
        n
    } else {
        n + k - n % k
    }
}

/// `round_up` yields the least multiple of `k` that is at least `n`.
pub proof fn lemma_round_up(n: int, k: int)
    requires
        n >= 0,
        k > 0,
    ensures
        round_up(n, k) % k == 0,
        n <= round_up(n, k) < n + k,
{
    lemma_mod_division_less_than_divisor(n, k);
    if n % k != 0 {
        let r = n % k;
        lemma_add_mod_noop(n, k - r, k);
        lemma_small_mod((k - r) as nat, k as nat);
        lemma_mod_self_0(k);
        assert((n + (k - r)) % k == (r + (k - r)) % k);
    }
}

/// Two distinct multiples of `k` lie at least `k` apart.
pub proof fn lemma_multiple_gap(a: int, b: int, k: int)
    requires
        k > 0,
        a % k == 0,
        b % k == 0,
        a < b,
    ensures
        a + k <= b,
{
    if b < a + k {
        lemma_sub_mod_noop(b, a, k);
        lemma_small_mod(0nat, k as nat);
        lemma_small_mod((b - a) as nat, k as nat);
    }
}

/// A multiple of `k` is a multiple of every divisor of `k`.
pub proof fn lemma_mod_chain(a: int, k: int, c: int)
    requires
        c > 0,
        k > 0,
        a % k == 0,
        k % c == 0,
    ensures
        a % c == 0,
{
    let q = a / k;
    let p = k / c;
    lemma_fundamental_div_mod(a, k);
    lemma_fundamental_div_mod(k, c);
    assert(a == (p * q) * c) by (nonlinear_arith)
        requires
            a == k * q + 0,
            k == c * p + 0,
    ;
    lemma_mod_multiples_basic(p * q, c);
}

} // verus!
