use plato_sonar_text::{count_sign_changes, left_channel, right_channel, BaselineFrames};

#[test]
fn channels_of_even_frame() {
    let frame = [1.0f64, -1.0, 2.0, -2.0, 3.0, -3.0];
    assert_eq!(left_channel(&frame), vec![1.0, 2.0, 3.0]);
    assert_eq!(right_channel(&frame), vec![-1.0, -2.0, -3.0]);
}

#[test]
fn channels_of_odd_frame() {
    let frame = [10u32, 20, 30, 40, 50];
    assert_eq!(left_channel(&frame), vec![10, 30, 50]);
    assert_eq!(right_channel(&frame), vec![20, 40]);
}

#[test]
fn channels_of_tiny_frames() {
    let empty: [i32; 0] = [];
    assert!(left_channel(&empty).is_empty());
    assert!(right_channel(&empty).is_empty());
    assert_eq!(left_channel(&[7]), vec![7]);
    assert!(right_channel(&[7]).is_empty());
}

#[test]
fn sign_changes_counted() {
    assert_eq!(count_sign_changes(&[]), 0);
    assert_eq!(count_sign_changes(&[true]), 0);
    assert_eq!(count_sign_changes(&[true, false, true, false]), 3);
    assert_eq!(count_sign_changes(&[true, true, false, false, true]), 2);
}

#[test]
fn silence_has_no_sign_changes() {
    let silence = vec![0.0f64; 200];
    let nonneg: Vec<bool> = silence.iter().map(|s| *s >= 0.0).collect();
    assert_eq!(count_sign_changes(&nonneg), 0);
}

#[test]
fn baseline_accumulates_left_samples() {
    let mut baseline: BaselineFrames<i32> = BaselineFrames::new();
    assert_eq!(baseline.len(), 0);
    assert!(baseline.left_samples().is_empty());
    baseline.push_frame(&[1, -1, 2, -2]);
    assert_eq!(baseline.len(), 1);
    assert_eq!(baseline.left_samples(), vec![1, 2]);
    baseline.push_frame(&[0, 0, 0]);
    assert_eq!(baseline.len(), 2);
    assert_eq!(baseline.left_samples(), vec![1, 2, 0, 0]);
}
