use vstd::prelude::*;
use crate::random::{random_choice, random_in_range};

verus! {

/// Samples per second at which tones are played.
pub const SAMPLE_RATE: usize = 48000;

/// The number a sample counter moves on to: one more, back to zero after `usize::MAX`.
pub open spec fn next_count(n: usize) -> usize {
    if n == usize::MAX {
        0
    } else {
        (n + 1) as usize
    }
}

/// A new target tone is picked at the sample whose number is a whole second.
pub open spec fn starts_second(n: usize) -> bool {
    n % SAMPLE_RATE == 0
}

/// A new note to slide towards: one of the tone's frequencies, shifted by
/// `octave` octaves (two down to one up), reached in `chirp_steps` samples.
#[derive(Debug, PartialEq, Eq)]
pub struct Retarget<F> {
    pub freq: F,
    pub octave: i32,
    pub chirp_steps: i32,
}

/// When and where a chirping tone moves: a counter of samples, and once per
/// second a randomly drawn new target among the tone's frequencies.
/// The frequencies are carried as they are given; the sine itself is computed
/// by whoever plays the tone.
pub struct ToneSchedule<F> {
    freqs: Vec<F>,
    num_sample: usize,
    chirp_max_length: i32,
}

impl<F> ToneSchedule<F> {
    pub closed spec fn freqs(&self) -> Seq<F> {
        self.freqs@
    }

    /// Number of the last sample played.
    pub closed spec fn num_sample(&self) -> usize {
        self.num_sample
    }

    /// A chirp takes fewer samples than this.
    pub closed spec fn chirp_max_length(&self) -> i32 {
        self.chirp_max_length
    }

    /// Whether a target can be drawn at the next sample without panicking.
    pub open spec fn can_step(&self) -> bool {
        &&& self.freqs().len() > 0
        &&& starts_second(next_count(self.num_sample())) ==> self.chirp_max_length() > 1
    }

    pub fn new(freqs: Vec<F>, chirp_max_length: i32) -> (s: ToneSchedule<F>)
        requires
            freqs@.len() > 0,
        ensures
            s.freqs() == freqs@,
            s.num_sample() == 0,
            s.chirp_max_length() == chirp_max_length,
    {
        ToneSchedule { freqs, num_sample: 0, chirp_max_length }
    }

    /// Whether `next` can run: it panics otherwise, as rand does for an empty
    /// range of chirp lengths.
    pub fn ready(&self) -> (b: bool)
        ensures
            b == self.can_step(),
            b == (self.freqs().len() > 0 && ((if self.num_sample() == usize::MAX { 0 } else {
                self.num_sample() + 1
            }) % 48000 == 0 ==> self.chirp_max_length() > 1)),
    {
        self.freqs.len() > 0 && (self.num_sample.wrapping_add(1) % SAMPLE_RATE != 0
            || self.chirp_max_length > 1)
    }

    /// Moves on by one sample and returns that sample's number. At each whole
    /// second it also draws a new target: a frequency of the tone, an octave
    /// shift in `[-2, 2)`, and a chirp length in `[1, chirp_max_length)`.
    pub fn next(&mut self) -> (r: (usize, Option<Retarget<F>>))
        where F: Copy,
        requires
            old(self).can_step(),
        ensures
            final(self).freqs() == old(self).freqs(),
            final(self).chirp_max_length() == old(self).chirp_max_length(),
            final(self).num_sample() == next_count(old(self).num_sample()),
            r.0 == final(self).num_sample(),
            r.1 is Some <==> starts_second(r.0),
            r.0 == (if old(self).num_sample() == usize::MAX { 0 } else { old(self).num_sample() + 1 }),
            r.1 is Some <==> r.0 % 48000 == 0,
            r.1 matches Some(t) ==> {
                &&& old(self).freqs().contains(t.freq)
                &&& -2 <= t.octave < 2
                &&& 1 <= t.chirp_steps < old(self).chirp_max_length()
            },
    {
        self.num_sample = self.num_sample.wrapping_add(1);
        if self.num_sample % SAMPLE_RATE == 0 {
            let freq = *random_choice(self.freqs.as_slice()).unwrap();
            let octave = random_in_range(-2, 2);
            let chirp_steps = random_in_range(1, self.chirp_max_length);
            (self.num_sample, Some(Retarget { freq, octave, chirp_steps }))
        } else {
            (self.num_sample, None)
        }
    }
}

/// Sample `n + j` starts a second.
pub open spec fn starts_second_after(n: usize, j: int) -> bool {
    starts_second((n + j) as usize)
}

/// Over any second of samples that does not run the counter past `usize::MAX`,
/// exactly one sample starts a second: a tone picks a new target once per second.
pub proof fn retarget_once_per_second(n: usize) -> (k: int)
    requires
        n + SAMPLE_RATE <= usize::MAX,
    ensures
        1 <= k <= SAMPLE_RATE,
        starts_second_after(n, k),
        forall|j: int| 1 <= j <= SAMPLE_RATE && #[trigger] starts_second_after(n, j) ==> j == k,
{
    let r = (n % SAMPLE_RATE) as int;
    let k = SAMPLE_RATE - r;
    assert(starts_second_after(n, k));
    assert forall|j: int| 1 <= j <= SAMPLE_RATE && #[trigger] starts_second_after(n, j) implies j == k by {
        assert((n + j) % 48000 == 0);
    }
    k
}

} // verus!
