use coolsounds::mix::{mix_frame_len, mix_size_hint, mix_total_duration};

#[test]
fn size_hint_of_mix_is_that_of_longest_input() {
    assert_eq!(mix_size_hint(&vec![(3, Some(5)), (7, Some(9)), (1, Some(2))]), (7, Some(9)));
}

#[test]
fn size_hint_unbounded_when_an_input_is() {
    assert_eq!(mix_size_hint(&vec![(3, Some(5)), (2, None), (4, Some(20))]), (4, None));
}

#[test]
fn size_hint_of_empty_mix() {
    assert_eq!(mix_size_hint(&Vec::new()), (0, Some(0)));
}

#[test]
fn frame_len_is_shortest_frame() {
    assert_eq!(mix_frame_len(&vec![Some(512), Some(128), Some(1024)]), Some(128));
    assert_eq!(mix_frame_len(&vec![Some(512), None, Some(1)]), None);
    assert_eq!(mix_frame_len(&Vec::new()), Some(usize::MAX));
}

#[test]
fn total_duration_is_longest_input() {
    let d = vec![Some((2, 500_000_000)), Some((3, 0)), Some((3, 1)), Some((1, 999_999_999))];
    assert_eq!(mix_total_duration(&d), Some((3, 1)));
    assert_eq!(mix_total_duration(&vec![Some((2, 0)), None]), None);
    assert_eq!(mix_total_duration(&Vec::new()), Some((0, 0)));
}
