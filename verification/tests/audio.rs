use p1::audio::wav_player::sample_index;

#[test]
fn sample_index_inside_the_buffer_is_the_sum() {
    assert_eq!(sample_index(0, 0, 10), 0);
    assert_eq!(sample_index(3, 4, 10), 7);
    assert_eq!(sample_index(9, 0, 10), 9);
}

#[test]
fn sample_index_starts_over_at_the_end() {
    assert_eq!(sample_index(6, 4, 10), 0);
    assert_eq!(sample_index(8, 5, 10), 3);
    assert_eq!(sample_index(25, 7, 10), 2);
    assert_eq!(sample_index(usize::MAX, 0, 1), 0);
    assert_eq!(sample_index(usize::MAX - 1, 1, usize::MAX), 0);
}

#[test]
fn sample_index_walks_a_short_buffer_in_a_cycle() {
    let places: Vec<usize> = (0..7).map(|offset| sample_index(1, offset, 3)).collect();
    assert_eq!(places, vec![1, 2, 0, 1, 2, 0, 1]);
}
