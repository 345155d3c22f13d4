use vstd::prelude::*;

verus! {

/// One note of a pattern: a sine frequency in hertz, held for a number of milliseconds.
#[derive(Clone, Copy, Debug, PartialEq, Eq)]
pub struct Tone {
    pub freq: u32,
    pub millis: u64,
}

/// A list of notes can be played when it is not empty and every note holds
/// at least a frequency and a length, `[frequency, milliseconds, ..]`.
pub open spec fn playable(tones: Seq<Seq<u32>>) -> bool {
    &&& tones.len() > 0
    &&& forall|i: int| 0 <= i < tones.len() ==> #[trigger] tones[i].len() >= 2
}

/// The note that stands at `i` in `tones`.
pub open spec fn tone_at(tones: Seq<Seq<u32>>, i: int) -> Tone {
    Tone { freq: tones[i][0], millis: tones[i][1] as u64 }
}

/// Plays a sequence of notes with durations, over and over.
pub struct TonePattern {
    tones: Vec<Vec<u32>>,
    index: usize,
}

impl TonePattern {
    /// The notes of the pattern, each `[frequency, milliseconds]`.
    pub closed spec fn tones(&self) -> Seq<Seq<u32>> {
        self.tones.deep_view()
    }

    /// Position of the note that the next call plays.
    pub closed spec fn index(&self) -> int {
        self.index as int
    }

    /// The pattern can play its next note.
    pub open spec fn wf(&self) -> bool {
        &&& playable(self.tones())
        &&& 0 <= self.index() < self.tones().len()
    }

    pub fn new(tones: Vec<Vec<u32>>) -> (p: TonePattern)
        ensures
            p.tones() == tones.deep_view(),
            p.index() == 0,
            playable(tones.deep_view()) ==> p.wf(),
            (tones@.len() > 0 && forall|i: int| 0 <= i < tones@.len() ==> #[trigger] tones@[i]@.len() >= 2)
                ==> p.wf(),
    {
        TonePattern { tones, index: 0 }
    }

    /// Whether the pattern can play its next note: `next` panics otherwise.
    pub fn is_playable(&self) -> (b: bool)
        ensures
            b == self.wf(),
            b == {
                &&& self.tones().len() > 0
                &&& 0 <= self.index() < self.tones().len()
                &&& forall|i: int| 0 <= i < self.tones().len() ==> #[trigger] self.tones()[i].len() >= 2
            },
    {
        let n = self.tones.len();
        if n == 0 || self.index >= n {
            return false;
        }
        let mut i: usize = 0;
        while i < n
            invariant
                n == self.tones@.len(),
                i <= n,
                forall|j: int| 0 <= j < i ==> #[trigger] self.tones@[j]@.len() >= 2,
            decreases n - i,
        {
            if self.tones[i].len() < 2 {
                assert(self.tones()[i as int] == self.tones@[i as int]@);
                return false;
            }
            i = i + 1;
        }
        assert forall|j: int| 0 <= j < self.tones().len() implies #[trigger] self.tones()[j].len() >= 2 by {
            assert(self.tones()[j] == self.tones@[j]@);
        }
        true
    }

    /// Plays the current note and moves on to the following one, back to
    /// the first after the last. The pattern never runs out.
    pub fn next(&mut self) -> (t: Option<Tone>)
        requires
            old(self).wf(),
        ensures
            final(self).wf(),
            final(self).tones() == old(self).tones(),
            final(self).index() == (old(self).index() + 1) % (old(self).tones().len() as int),
            t == Some(tone_at(old(self).tones(), old(self).index())),
            t == Some(Tone {
                freq: old(self).tones()[old(self).index()][0],
                millis: old(self).tones()[old(self).index()][1] as u64,
            }),
    {
        let ghost tones = self.tones();
        assert(tones.len() == self.tones.len());
        assert(tones[self.index as int] == self.tones[self.index as int].deep_view());
        let tone = &self.tones[self.index];
        let freq = tone[0];
        let millis = tone[1] as u64;
        self.index = (self.index + 1) % self.tones.len();
        Some(Tone { freq, millis })
    }
}

/// The bass line for voice `step`: three octaves of a note a little above A,
/// held a little longer for each further voice, so that the voices drift apart.
pub fn bass_tones(step: u32) -> (tones: Vec<Vec<u32>>)
    requires
        1000 + 101 * step <= u32::MAX,
    ensures
        tones.deep_view() == seq![
            seq![(55 + step) as u32, (1000 + 101 * step) as u32],
            seq![(110 + step) as u32, (1000 + 101 * step) as u32],
            seq![(220 + step) as u32, (500 + 101 * step) as u32],
        ],
{
    let freq_offset = step;
    let time_offset = 101 * step;
    let tones = vec![
        vec![55 + freq_offset, 1000 + time_offset],
        vec![110 + freq_offset, 1000 + time_offset],
        vec![220 + freq_offset, 500 + time_offset],
    ];
    proof {
        assert(tones.deep_view() =~~= seq![
            seq![(55 + step) as u32, (1000 + 101 * step) as u32],
            seq![(110 + step) as u32, (1000 + 101 * step) as u32],
            seq![(220 + step) as u32, (500 + 101 * step) as u32],
        ]);
    }
    tones
}

/// Where a pattern that starts at note `start` of `len` stands after `k` notes.
pub open spec fn index_after(start: int, len: int, k: nat) -> int
    decreases k,
{
    if k == 0 {
        start
    } else {
        (index_after(start, len, (k - 1) as nat) + 1) % len
    }
}

/// After `k` notes a pattern stands `k` places further on, counted round the cycle.
pub proof fn pattern_advances(start: int, len: int, k: nat)
    requires
        0 <= start < len,
    ensures
        index_after(start, len, k) == (start + k) % len,
    decreases k,
{
    if k > 0 {
        pattern_advances(start, len, (k - 1) as nat);
        vstd::arithmetic::div_mod::lemma_add_mod_noop_right(1, start + k - 1, len);
    } else {
        vstd::arithmetic::div_mod::lemma_small_mod(start as nat, len as nat);
    }
}

/// A pattern repeats: after as many notes as it holds, it stands where it stood.
pub proof fn pattern_repeats(start: int, len: int, k: nat)
    requires
        0 <= start < len,
    ensures
        index_after(start, len, k + len as nat) == index_after(start, len, k),
        index_after(start, len, len as nat) == start,
{
    pattern_advances(start, len, k + len as nat);
    pattern_advances(start, len, k);
    pattern_advances(start, len, len as nat);
    vstd::arithmetic::div_mod::lemma_mod_add_multiples_vanish(start + k, len);
    vstd::arithmetic::div_mod::lemma_mod_add_multiples_vanish(start, len);
    vstd::arithmetic::div_mod::lemma_small_mod(start as nat, len as nat);
}

/// Every note of a pattern is played within one round of it.
pub proof fn pattern_plays_every_note(start: int, len: int, j: int) -> (k: nat)
    requires
        0 <= start < len,
        0 <= j < len,
    ensures
        k < len,
        index_after(start, len, k) == j,
{
    let k: nat = if j >= start { (j - start) as nat } else { (j - start + len) as nat };
    pattern_advances(start, len, k);
    if j >= start {
        vstd::arithmetic::div_mod::lemma_small_mod(j as nat, len as nat);
    } else {
        vstd::arithmetic::div_mod::lemma_mod_add_multiples_vanish(j, len);
        vstd::arithmetic::div_mod::lemma_small_mod(j as nat, len as nat);
    }
    k
}

} // verus!
