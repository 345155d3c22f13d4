use coolsounds::tone_pattern::{bass_tones, Tone, TonePattern};

#[test]
fn bass_tones_for_first_voice() {
    assert_eq!(bass_tones(0), vec![vec![55, 1000], vec![110, 1000], vec![220, 500]]);
}

#[test]
fn bass_tones_drift_with_voice() {
    assert_eq!(bass_tones(4), vec![vec![59, 1404], vec![114, 1404], vec![224, 904]]);
}

#[test]
fn pattern_plays_notes_in_order_and_repeats() {
    let mut p = TonePattern::new(bass_tones(1));
    assert!(p.is_playable());
    let first = p.next();
    assert_eq!(first, Some(Tone { freq: 56, millis: 1101 }));
    assert_eq!(p.next(), Some(Tone { freq: 111, millis: 1101 }));
    assert_eq!(p.next(), Some(Tone { freq: 221, millis: 601 }));
    assert_eq!(p.next(), first);
    assert!(p.is_playable());
}

#[test]
fn single_note_pattern_repeats_that_note() {
    let mut p = TonePattern::new(vec![vec![440, 250, 7]]);
    for _ in 0..5 {
        assert_eq!(p.next(), Some(Tone { freq: 440, millis: 250 }));
    }
}

#[test]
fn pattern_plays_every_note_within_a_round() {
    let tones = vec![vec![1, 10], vec![2, 20], vec![3, 30], vec![4, 40]];
    let mut p = TonePattern::new(tones);
    let mut seen = Vec::new();
    for _ in 0..4 {
        seen.push(p.next().unwrap().freq);
    }
    assert_eq!(seen, vec![1, 2, 3, 4]);
    // A second round is the same as the first.
    for k in 0..4 {
        assert_eq!(p.next().unwrap().freq, seen[k]);
    }
}

#[test]
fn empty_pattern_cannot_play() {
    let p = TonePattern::new(Vec::new());
    assert!(!p.is_playable());
}

#[test]
fn pattern_with_short_note_cannot_play() {
    let p = TonePattern::new(vec![vec![55, 1000], vec![110]]);
    assert!(!p.is_playable());
}
