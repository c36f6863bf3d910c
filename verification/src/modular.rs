//! Counting up modulo a natural number.

use vstd::prelude::*;

verus! {

/// Adding one below a modulus either stays below it or wraps to zero.
pub proof fn lemma_successor_mod(x: int, m: int)
    requires
        0 <= x < m,
    ensures
        (x + 1) % m == (if x + 1 == m {
            0
        } else {
            x + 1
        }),
{
    if x + 1 == m {
        vstd::arithmetic::div_mod::lemma_mod_self_0(m);
    } else {
        vstd::arithmetic::div_mod::lemma_small_mod((x + 1) as nat, m as nat);
    }
}

/// Taking a remainder before adding one changes nothing once the remainder
/// is taken again.
pub proof fn lemma_successor_of_mod(x: int, m: int)
    requires
        0 <= x,
        0 < m,
    ensures
        (x % m + 1) % m == (x + 1) % m,
{
    vstd::arithmetic::div_mod::lemma_add_mod_noop(x, 1, m);
    if m > 1 {
        vstd::arithmetic::div_mod::lemma_small_mod(1, m as nat);
    }
}

} // verus!
