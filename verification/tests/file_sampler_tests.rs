use coolsounds::file_sampler::{FileSampler, SampleChunk};

fn sampler() -> FileSampler {
    let data: Vec<i16> = (0..100).collect();
    FileSampler::new(data, 2, 44100, vec![(10, 14), (50, 60)])
}

#[test]
fn silence_is_one_second_of_mono_zeros() {
    let c = FileSampler::silence();
    assert_eq!(c.channels, 1);
    assert_eq!(c.samples_rate, 48000);
    assert_eq!(c.samples.len(), 48000);
    assert!(c.samples.iter().all(|s| *s == 0));
}

#[test]
fn region_chunk_copies_the_region() {
    let s = sampler();
    let c = s.region_chunk((10, 14));
    assert_eq!(c, SampleChunk { channels: 2, samples_rate: 44100, samples: vec![10, 11, 12, 13] });
    let empty = s.region_chunk((30, 30));
    assert!(empty.samples.is_empty());
}

#[test]
fn roll_of_zero_plays_the_region() {
    let s = sampler();
    assert_eq!(s.chunk_for(0, (50, 52)).samples, vec![50, 51]);
    let other = s.chunk_for(4, (50, 52));
    assert_eq!(other.channels, 1);
    assert_eq!(other.samples.len(), 48000);
}

#[test]
fn next_gives_silence_or_a_region() {
    let mut s = sampler();
    assert!(s.regions_ok());
    let mut silences = 0;
    let mut regions = 0;
    for _ in 0..300 {
        let c = s.next().unwrap();
        if c.channels == 1 && c.samples_rate == 48000 && c.samples.len() == 48000 {
            assert!(c.samples.iter().all(|v| *v == 0));
            silences += 1;
        } else {
            assert_eq!(c.channels, 2);
            assert_eq!(c.samples_rate, 44100);
            let a: Vec<i16> = (10..14).collect();
            let b: Vec<i16> = (50..60).collect();
            assert!(c.samples == a || c.samples == b);
            regions += 1;
        }
    }
    assert!(silences > 0);
    assert!(regions > 0);
}

#[test]
fn bad_regions_are_refused() {
    let data: Vec<i16> = vec![0; 10];
    assert!(!FileSampler::new(data.clone(), 1, 8000, Vec::new()).regions_ok());
    assert!(!FileSampler::new(data.clone(), 1, 8000, vec![(0, 11)]).regions_ok());
    assert!(!FileSampler::new(data.clone(), 1, 8000, vec![(0, 2), (5, 4)]).regions_ok());
    assert!(FileSampler::new(data, 1, 8000, vec![(0, 10), (4, 4)]).regions_ok());
}
