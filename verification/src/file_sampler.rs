use vstd::prelude::*;
use crate::random::{random_choice, random_in_range};

verus! {

/// Channels of the second of silence played between samples.
pub const SILENCE_CHANNELS: u16 = 1;

/// Sample rate of the second of silence played between samples.
pub const SILENCE_RATE: u32 = 48000;

/// A buffer of interleaved samples, to be played at `samples_rate` over `channels` channels.
#[derive(Debug, PartialEq, Eq)]
pub struct SampleChunk {
    pub channels: u16,
    pub samples_rate: u32,
    pub samples: Vec<i16>,
}

impl View for SampleChunk {
    type V = (u16, u32, Seq<i16>);

    open spec fn view(&self) -> (u16, u32, Seq<i16>) {
        (self.channels, self.samples_rate, self.samples@)
    }
}

/// One second of silence: one channel at 48 kHz, all samples zero.
pub open spec fn silence_view() -> (u16, u32, Seq<i16>) {
    (SILENCE_CHANNELS, SILENCE_RATE, Seq::new(SILENCE_RATE as nat, |i: int| 0i16))
}

/// Plays regions of a decoded audio file at random, with a second of silence
/// in between most of the time. A region is a range `[start, end)` of sample
/// positions in the decoded data.
pub struct FileSampler {
    data: Vec<i16>,
    channels: u16,
    samples_rate: u32,
    regions: Vec<(usize, usize)>,
}

impl FileSampler {
    /// The decoded samples, interleaved over the channels.
    pub closed spec fn data(&self) -> Seq<i16> {
        self.data@
    }

    pub closed spec fn channels(&self) -> u16 {
        self.channels
    }

    pub closed spec fn samples_rate(&self) -> u32 {
        self.samples_rate
    }

    /// The regions to play, as sample positions.
    pub closed spec fn regions(&self) -> Seq<(usize, usize)> {
        self.regions@
    }

    /// The region lies within the data.
    pub open spec fn region_ok(&self, region: (usize, usize)) -> bool {
        region.0 <= region.1 <= self.data().len()
    }

    /// What playing `region` gives: its samples, in the file's format.
    pub open spec fn region_view(&self, region: (usize, usize)) -> (u16, u32, Seq<i16>) {
        (self.channels(), self.samples_rate(), self.data().subrange(region.0 as int, region.1 as int))
    }

    /// Every region can be played, and there is one at least.
    pub open spec fn wf(&self) -> bool {
        &&& self.regions().len() > 0
        &&& forall|i: int| 0 <= i < self.regions().len() ==> #[trigger] self.region_ok(self.regions()[i])
    }

    /// What one step of the sampler may give: silence, or one of its regions.
    pub open spec fn may_give(&self, chunk: (u16, u32, Seq<i16>)) -> bool {
        ||| chunk == silence_view()
        ||| exists|i: int| 0 <= i < self.regions().len() && chunk == #[trigger] self.region_view(self.regions()[i])
    }

    pub fn new(data: Vec<i16>, channels: u16, samples_rate: u32, regions: Vec<(usize, usize)>) -> (s: FileSampler)
        ensures
            s.data() == data@,
            s.channels() == channels,
            s.samples_rate() == samples_rate,
            s.regions() == regions@,
    {
        FileSampler { data, channels, samples_rate, regions }
    }

    /// Whether every region can be played, and there is one at least: `next`
    /// panics otherwise.
    pub fn regions_ok(&self) -> (b: bool)
        ensures
            b == self.wf(),
            b == (self.regions().len() > 0 && forall|i: int| 0 <= i < self.regions().len()
                ==> #[trigger] self.regions()[i].0 <= self.regions()[i].1 <= self.data().len()),
    {
        let n = self.regions.len();
        if n == 0 {
            return false;
        }
        let mut i: usize = 0;
        while i < n
            invariant
                n == self.regions@.len(),
                i <= n,
                forall|j: int| 0 <= j < i ==> #[trigger] self.region_ok(self.regions@[j]),
            decreases n - i,
        {
            let (start, end) = self.regions[i];
            if !(start <= end && end <= self.data.len()) {
                assert(!self.region_ok(self.regions()[i as int]));
                return false;
            }
            i = i + 1;
        }
        assert forall|j: int| 0 <= j < self.regions().len() implies
            #[trigger] self.regions()[j].0 <= self.regions()[j].1 <= self.data().len() by {
            assert(self.region_ok(self.regions@[j]));
        }
        true
    }

    /// One second of silence.
    pub fn silence() -> (c: SampleChunk)
        ensures
            c@ == silence_view(),
            c.channels == 1,
            c.samples_rate == 48000,
            c.samples@.len() == 48000,
            forall|j: int| 0 <= j < 48000 ==> #[trigger] c.samples@[j] == 0,
    {
        let mut samples: Vec<i16> = Vec::new();
        let mut i: u32 = 0;
        while i < SILENCE_RATE
            invariant
                i <= SILENCE_RATE,
                samples@ == Seq::new(i as nat, |j: int| 0i16),
            decreases SILENCE_RATE - i,
        {
            samples.push(0);
            i = i + 1;
            assert(samples@ =~= Seq::new(i as nat, |j: int| 0i16));
        }
        SampleChunk { channels: SILENCE_CHANNELS, samples_rate: SILENCE_RATE, samples }
    }

    /// The samples of `region`, in the file's format.
    pub fn region_chunk(&self, region: (usize, usize)) -> (c: SampleChunk)
        requires
            self.region_ok(region),
        ensures
            c@ == self.region_view(region),
            c.channels == self.channels(),
            c.samples_rate == self.samples_rate(),
            c.samples@.len() == region.1 - region.0,
            c.samples@ == self.data().subrange(region.0 as int, region.1 as int),
            forall|j: int| 0 <= j < region.1 - region.0 ==> #[trigger] c.samples@[j] == self.data()[region.0 + j],
    {
        let (start, end) = region;
        let mut samples: Vec<i16> = Vec::new();
        let mut i: usize = start;
        while i < end
            invariant
                start <= i <= end <= self.data@.len(),
                samples@ == self.data@.subrange(start as int, i as int),
            decreases end - i,
        {
            samples.push(self.data[i]);
            i = i + 1;
            assert(samples@ =~= self.data@.subrange(start as int, i as int));
        }
        SampleChunk { channels: self.channels, samples_rate: self.samples_rate, samples }
    }

    /// The chunk for a roll of the die and a drawn region: the region on a
    /// roll of zero, a second of silence otherwise.
    pub fn chunk_for(&self, roll: i32, region: (usize, usize)) -> (c: SampleChunk)
        requires
            roll == 0 ==> self.region_ok(region),
        ensures
            c@ == (if roll == 0 { self.region_view(region) } else { silence_view() }),
            roll == 0 ==> {
                &&& c.channels == self.channels()
                &&& c.samples_rate == self.samples_rate()
                &&& c.samples@ == self.data().subrange(region.0 as int, region.1 as int)
            },
            roll != 0 ==> {
                &&& c.channels == 1
                &&& c.samples_rate == 48000
                &&& c.samples@.len() == 48000
                &&& forall|j: int| 0 <= j < 48000 ==> #[trigger] c.samples@[j] == 0
            },
    {
        if roll == 0 {
            self.region_chunk(region)
        } else {
            Self::silence()
        }
    }

    /// The next chunk to play: with a one-in-five roll of a die, a region
    /// drawn at random; otherwise one second of silence. It never runs out.
    pub fn next(&mut self) -> (c: Option<SampleChunk>)
        requires
            old(self).wf(),
        ensures
            *final(self) == *old(self),
            c matches Some(chunk) && old(self).may_give(chunk@),
            c matches Some(chunk) && {
                ||| {
                    &&& chunk.channels == 1
                    &&& chunk.samples_rate == 48000
                    &&& chunk.samples@.len() == 48000
                    &&& forall|j: int| 0 <= j < 48000 ==> #[trigger] chunk.samples@[j] == 0
                }
                ||| exists|i: int| 0 <= i < old(self).regions().len() && {
                    &&& chunk.channels == old(self).channels()
                    &&& chunk.samples_rate == old(self).samples_rate()
                    &&& chunk.samples@ == old(self).data().subrange(
                        (#[trigger] old(self).regions()[i]).0 as int,
                        old(self).regions()[i].1 as int,
                    )
                }
            },
    {
        let roll = random_in_range(0, 5);
        if roll == 0 {
            let region = *random_choice(self.regions.as_slice()).unwrap();
            let c = self.chunk_for(roll, region);
            proof {
                let i = choose|i: int| 0 <= i < self.regions@.len() && self.regions@[i] == region;
                assert(self.region_ok(self.regions()[i]));
                assert(c@ == self.region_view(self.regions()[i]));
            }
            Some(c)
        } else {
            Some(self.chunk_for(roll, (0, 0)))
        }
    }
}

} // verus!
