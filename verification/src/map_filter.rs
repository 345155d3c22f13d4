use vstd::prelude::*;
use crate::random_tone::next_count;

verus! {

/// Modifies each sample of a stream by a given function, which also receives
/// the number of the sample, counting from one.
/// The stream itself is read by the caller, which hands each sample (or the
/// end of the stream) to `next`.
pub struct SampleMap<F> {
    func: F,
    num_sample: usize,
}

impl<F> SampleMap<F> {
    pub closed spec fn func(&self) -> F {
        self.func
    }

    /// Number of samples asked for so far, wrapping after `usize::MAX`.
    pub closed spec fn num_sample(&self) -> usize {
        self.num_sample
    }

    pub fn new(func: F) -> (m: SampleMap<F>)
        ensures
            m.func() == func,
            m.num_sample() == 0,
    {
        SampleMap { func, num_sample: 0 }
    }

    /// Counts one more sample and maps `input`, the stream's next sample, with
    /// the function and that count. The end of the stream stays the end.
    pub fn next<T>(&mut self, input: Option<T>) -> (out: Option<T>)
        where F: Fn(T, usize) -> T,
        requires
            input matches Some(v) ==> call_requires(
                old(self).func(),
                (v, next_count(old(self).num_sample())),
            ),
        ensures
            final(self).func() == old(self).func(),
            final(self).num_sample() == next_count(old(self).num_sample()),
            final(self).num_sample() == (if old(self).num_sample() == usize::MAX { 0 } else {
                old(self).num_sample() + 1
            }),
            out is None <==> input is None,
            input matches Some(v) ==> call_ensures(
                old(self).func(),
                (v, final(self).num_sample()),
                out.unwrap(),
            ),
    {
        self.num_sample = self.num_sample.wrapping_add(1);
        match input {
            Some(value) => Some((self.func)(value, self.num_sample)),
            None => None,
        }
    }
}

/// Where a counter that starts at `start` stands after `k` steps of `next_count`.
pub open spec fn count_after(start: usize, k: nat) -> usize
    decreases k,
{
    if k == 0 {
        start
    } else {
        next_count(count_after(start, (k - 1) as nat))
    }
}

/// A fresh `SampleMap` hands the `k`-th sample the number `k`, modulo `usize::MAX + 1`:
/// samples are numbered from one in the order they come.
pub proof fn samples_numbered_in_order(k: nat)
    ensures
        count_after(0, k) == k % (usize::MAX as nat + 1),
    decreases k,
{
    let m: int = usize::MAX as int + 1;
    if k == 0 {
        vstd::arithmetic::div_mod::lemma_small_mod(0, m as nat);
    } else {
        let p: int = k - 1;
        samples_numbered_in_order(p as nat);
        vstd::arithmetic::div_mod::lemma_add_mod_noop_right(1, p, m);
        let r: int = p % m;
        assert(0 <= r < m);
        if r + 1 < m {
            vstd::arithmetic::div_mod::lemma_small_mod((r + 1) as nat, m as nat);
        } else {
            vstd::arithmetic::div_mod::lemma_mod_self_0(m);
        }
    }
}

} // verus!
