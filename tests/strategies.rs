use gif_shrink::{generate_strategies, select_frame_indices, GifError, Strategy};

fn strides(v: &[Strategy]) -> Vec<usize> {
    v.iter().map(|s| s.skip).collect()
}

#[test]
fn hundred_frames_ten_percent_gives_strides_two_to_ten() {
    let v = generate_strategies(100, 10).unwrap();
    assert!(v.len() >= 8);
    assert_eq!(strides(&v), vec![2, 3, 4, 5, 6, 7, 8, 9, 10]);
    for s in &v {
        assert_eq!(s.delay as usize, s.skip + 10);
    }
}

#[test]
fn zero_frames_is_refused() {
    assert!(matches!(generate_strategies(0, 10), Err(GifError::NoFrames)));
}

#[test]
fn single_frame_still_gets_stride_two() {
    let v = generate_strategies(1, 10).unwrap();
    assert_eq!(v, vec![Strategy { skip: 2, delay: 210 }]);
}

#[test]
fn aggressive_strides_added_when_enough_frames_remain() {
    let v = generate_strategies(1000, 1).unwrap();
    assert_eq!(strides(&v), vec![2, 3, 4, 5, 6, 7, 8, 9, 10, 15, 20]);
    assert_eq!(v[9].delay, 11);
    assert_eq!(v[10].delay, 12);
    assert_eq!(v[0].delay, 10);
}

#[test]
fn aggressive_strides_dropped_when_too_few_frames_remain() {
    let v = generate_strategies(300, 10).unwrap();
    assert_eq!(strides(&v), vec![2, 3, 4, 5, 6, 7, 8, 9, 10]);
}

#[test]
fn thirty_frames_gets_no_aggressive_strides() {
    // min_frames = 3, ceil(30 / 3) = 10
    let v = generate_strategies(30, 10).unwrap();
    assert_eq!(strides(&v), vec![2, 3, 4, 5, 6, 7, 8, 9, 10]);
    assert_eq!(v[8].delay, 100 * 10 / 30 + 10);
}

#[test]
fn large_percentage_clamps_to_stride_two() {
    let v = generate_strategies(50, 100).unwrap();
    assert_eq!(strides(&v), vec![2]);
    assert_eq!(v[0].delay, 14);
}

#[test]
fn huge_counts_do_not_overflow() {
    let v = generate_strategies(usize::MAX, u32::MAX).unwrap();
    assert_eq!(strides(&v), vec![2]);
}

#[test]
fn every_strategy_keeps_min_frames() {
    let v = generate_strategies(100, 10).unwrap();
    for s in &v {
        assert!(select_frame_indices(100, s.skip).len() >= 10);
    }
    let v = generate_strategies(1000, 1).unwrap();
    for s in &v {
        assert!(select_frame_indices(1000, s.skip).len() >= 10);
    }
}

#[test]
fn small_input_can_keep_fewer_than_min_frames() {
    // four frames at stride two keep two, under the floor of three
    let v = generate_strategies(4, 10).unwrap();
    assert_eq!(strides(&v), vec![2]);
    assert_eq!(select_frame_indices(4, 2).len(), 2);
}

#[test]
fn frame_indices_at_stride() {
    assert_eq!(select_frame_indices(10, 3), vec![0, 3, 6, 9]);
    assert_eq!(select_frame_indices(9, 3), vec![0, 3, 6]);
    assert_eq!(select_frame_indices(0, 2), Vec::<usize>::new());
    assert_eq!(select_frame_indices(1, 5), vec![0]);
    assert_eq!(select_frame_indices(5, 10), vec![0]);
    assert_eq!(select_frame_indices(4, 1), vec![0, 1, 2, 3]);
}

#[test]
fn frame_indices_near_usize_max() {
    let v = select_frame_indices(usize::MAX, usize::MAX / 2 + 1);
    assert_eq!(v, vec![0, usize::MAX / 2 + 1]);
}
