use crate::error::ConfigError;
use crate::modular::lemma_successor_of_mod;
use vstd::prelude::*;

verus! {

/// A periodic trigger: out of every `period` consecutive calls of
/// [`Sampler::check`] exactly one reports `true`, and the very first call
/// after construction is such a call.
pub struct Sampler {
    period: u8,
    count: u8,
}

/// Whether the call of `check` that follows `calls` earlier calls reports
/// `true`, for a sampler with the given period.
pub open spec fn fires(period: nat, calls: nat) -> bool
    recommends
        period >= 1,
{
    calls % period == 0
}

/// How many of the calls numbered `from`, `from + 1`, .., `from + n - 1`
/// report `true`.
pub open spec fn fired_in(period: nat, from: nat, n: nat) -> nat
    recommends
        period >= 1,
    decreases n,
{
    if n == 0 {
        0
    } else {
        let last = (from + n - 1) as nat;
        fired_in(period, from, (n - 1) as nat) + if fires(period, last) {
            1nat
        } else {
            0nat
        }
    }
}

/// The counter of a sampler after `calls` calls of `check`, counted from
/// its construction. It starts one short of the period, and each call moves
/// it on by one, modulo the period.
pub open spec fn counter_after(period: nat, calls: nat) -> nat
    recommends
        period >= 1,
    decreases calls,
{
    if calls == 0 {
        (period - 1) as nat
    } else {
        (counter_after(period, (calls - 1) as nat) + 1) % period
    }
}

/// The offset from call number `from` to the next call that reports `true`.
pub open spec fn next_hit(period: nat, from: nat) -> nat
    recommends
        period >= 1,
{
    ((period - from % period) as nat) % period
}

/// After `calls` calls the counter is the number of calls, less one, modulo
/// the period. So the call that follows `calls` earlier ones leaves the
/// counter at zero, and reports `true`, exactly when `fires` says so.
pub proof fn lemma_counter_after(period: nat, calls: nat)
    requires
        period >= 1,
    ensures
        counter_after(period, calls) == (calls + period - 1) % (period as int),
        counter_after(period, calls) < period,
        (counter_after(period, calls + 1) == 0) == fires(period, calls),
    decreases calls,
{
    let m = period as int;
    let n = calls as int;
    if calls == 0 {
        vstd::arithmetic::div_mod::lemma_small_mod((period - 1) as nat, period);
    } else {
        lemma_counter_after(period, (calls - 1) as nat);
        lemma_successor_of_mod(n + m - 2, m);
        assert(counter_after(period, calls) == (n + m - 1) % m);
    }
    vstd::arithmetic::div_mod::lemma_mod_pos_bound(n + m - 1, m);
    // One call more.
    lemma_successor_of_mod(n + m - 1, m);
    vstd::arithmetic::div_mod::lemma_mod_add_multiples_vanish(n, m);
    assert(counter_after(period, calls + 1) == (counter_after(period, calls) + 1) % period);
    assert(counter_after(period, calls + 1) == n % m);
}

/// Within the `period` calls that start at call number `from`, the call at
/// offset `j` reports `true` exactly when `j` is `next_hit(period, from)`.
pub proof fn lemma_hit_offset(period: nat, from: nat, j: nat)
    requires
        period >= 1,
        j < period,
    ensures
        next_hit(period, from) < period,
        fires(period, from + j) <==> j == next_hit(period, from),
{
    let m = period as int;
    let r = from as int % m;
    let q = from as int / m;
    vstd::arithmetic::div_mod::lemma_fundamental_div_mod(from as int, m);
    vstd::arithmetic::div_mod::lemma_mod_pos_bound(from as int, m);
    vstd::arithmetic::div_mod::lemma_mod_multiples_vanish(q, r + j, m);
    assert((from + j) as int == m * q + (r + j));
    assert((from + j) as int % m == (r + j) % m);
    if r == 0 {
        vstd::arithmetic::div_mod::lemma_mod_self_0(m);
        assert(next_hit(period, from) == 0);
        if j == 0 {
            vstd::arithmetic::div_mod::lemma_small_mod(0, period);
        } else {
            vstd::arithmetic::div_mod::lemma_small_mod(j, period);
        }
    } else {
        vstd::arithmetic::div_mod::lemma_small_mod((m - r) as nat, period);
        assert(next_hit(period, from) == m - r);
        if r + j < m {
            vstd::arithmetic::div_mod::lemma_small_mod((r + j) as nat, period);
        } else {
            vstd::arithmetic::div_mod::lemma_mod_add_multiples_vanish(r + j - m, m);
            assert((m + (r + j - m)) == r + j);
            vstd::arithmetic::div_mod::lemma_small_mod((r + j - m) as nat, period);
        }
    }
}

/// Among the first `n` calls of a window that starts at call number
/// `from`, with `n` no more than the period, one reports `true` if the
/// window's hit lies among them, and none otherwise.
pub proof fn lemma_fired_in_prefix(period: nat, from: nat, n: nat)
    requires
        period >= 1,
        n <= period,
    ensures
        fired_in(period, from, n) == (if next_hit(period, from) < n {
            1nat
        } else {
            0nat
        }),
    decreases n,
{
    if n > 0 {
        lemma_fired_in_prefix(period, from, (n - 1) as nat);
        lemma_hit_offset(period, from, (n - 1) as nat);
    }
}

/// Of any `period` consecutive calls exactly one reports `true`.
pub proof fn lemma_one_hit_per_period(period: nat, from: nat)
    requires
        period >= 1,
    ensures
        fired_in(period, from, period) == 1,
{
    lemma_hit_offset(period, from, 0);
    lemma_fired_in_prefix(period, from, period);
}

/// Of the first `period` calls after construction the first one reports
/// `true` and no other does.
pub proof fn lemma_first_call_hits(period: nat, k: nat)
    requires
        period >= 1,
        k < period,
    ensures
        fires(period, k) <==> k == 0,
        (counter_after(period, k + 1) == 0) <==> k == 0,
{
    lemma_hit_offset(period, 0, k);
    lemma_hit_offset(period, 0, 0);
    lemma_counter_after(period, k);
    vstd::arithmetic::div_mod::lemma_small_mod(0, period);
}

impl Sampler {
    #[verifier::type_invariant]
    spec fn well_formed(self) -> bool {
        self.count < self.period
    }

    /// The number of calls between two that report `true`, counting one of them.
    pub closed spec fn spec_period(&self) -> nat {
        self.period as nat
    }

    /// The rolling counter: one short of the period at first, then moved
    /// on by one, modulo the period, by every call of `check`.
    pub closed spec fn counter(&self) -> nat {
        self.count as nat
    }

    /// A sampler that reports `true` on its first call and then on every
    /// `period`-th call after it. A period of zero is refused.
    pub fn new(period: u8) -> (made: Result<Sampler, ConfigError>)
        ensures
            period == 0 <==> made is Err,
            made matches Err(e) ==> e == ConfigError::ZeroPeriod,
            made matches Ok(s) ==> s.spec_period() == period && s.counter() == period - 1,
    {
        if period == 0 {
            Err(ConfigError::ZeroPeriod)
        } else {
            // One short of a full period, so that the first check wraps to zero.
            Ok(Sampler { period, count: period - 1 })
        }
    }

    /// The period this sampler was made with.
    pub fn period(&self) -> (p: u8)
        ensures
            p == self.spec_period(),
            p >= 1,
            self.counter() < p,
    {
        proof {
            use_type_invariant(self);
        }
        self.period
    }

    /// Moves the counter on by one, modulo the period, and reports whether
    /// it is now zero: whether this call is one to record.
    pub fn check(&mut self) -> (hit: bool)
        ensures
            final(self).spec_period() == old(self).spec_period(),
            final(self).counter() == (old(self).counter() + 1) % old(self).spec_period(),
            final(self).counter() < final(self).spec_period(),
            hit == (final(self).counter() == 0),
    {
        proof {
            use_type_invariant(&*self);
        }
        self.count = (self.count + 1) % self.period;
        self.count == 0
    }
}

} // verus!
