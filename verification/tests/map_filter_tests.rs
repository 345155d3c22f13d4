use coolsounds::map_filter::SampleMap;

#[test]
fn samples_are_numbered_from_one() {
    let mut m = SampleMap::new(|s: i64, n: usize| s * 100 + n as i64);
    assert_eq!(m.next(Some(1)), Some(101));
    assert_eq!(m.next(Some(2)), Some(202));
    assert_eq!(m.next(Some(3)), Some(303));
}

#[test]
fn end_of_stream_stays_the_end_and_still_counts() {
    let mut m = SampleMap::new(|s: i64, n: usize| s + n as i64);
    assert_eq!(m.next(None), None);
    assert_eq!(m.next(Some(10)), Some(12));
    assert_eq!(m.next(None), None);
    assert_eq!(m.next(Some(10)), Some(14));
}

#[test]
fn map_with_identity_keeps_samples() {
    let mut m = SampleMap::new(|s: i16, _n: usize| s);
    let input = vec![3i16, -7, 0, 32767];
    let out: Vec<i16> = input.iter().map(|v| m.next(Some(*v)).unwrap()).collect();
    assert_eq!(out, input);
}

#[test]
fn kth_sample_gets_number_k() {
    let mut m = SampleMap::new(|_s: u64, n: usize| n as u64);
    for k in 1..=1000u64 {
        assert_eq!(m.next(Some(0)), Some(k));
    }
}
