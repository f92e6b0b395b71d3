use stt::accumulator::FrameAccumulator;
use stt::accumulator::WINDOW_SIZE;

#[test]
fn window_forms_exactly_when_cumulative_count_reaches_480() {
    // Batches of sizes [100, 100, 100, 100, 200]: cumulative 600 >= 480 only
    // at the fifth batch, so exactly one window forms, there.
    let mut acc = FrameAccumulator::new();
    for _ in 0..4 {
        let batch = vec![1i16; 100];
        assert!(acc.push(&batch).is_none());
    }
    assert_eq!(acc.len(), 400);
    let batch = vec![2i16; 200];
    let w = acc.push(&batch).expect("fifth batch must form a window");
    assert_eq!(w.len(), WINDOW_SIZE);
    // The 120 samples beyond the window are discarded, not carried forward.
    assert_eq!(acc.len(), 0);
}

#[test]
fn window_holds_buffered_samples_then_batch() {
    let mut acc = FrameAccumulator::new();
    let first = vec![7i16; 100];
    assert!(acc.push(&first).is_none());
    let second = vec![9i16; 400];
    let w = acc.push(&second).expect("480 samples are available");
    assert_eq!(w.len(), WINDOW_SIZE);
    assert!(w[..100].iter().all(|&s| s == 7));
    assert!(w[100..].iter().all(|&s| s == 9));
}

#[test]
fn exact_window_in_one_batch() {
    let mut acc = FrameAccumulator::new();
    let batch: Vec<i16> = (0..480).map(|i| i as i16).collect();
    let w = acc.push(&batch).expect("one full batch forms a window");
    assert_eq!(w, batch);
    assert_eq!(acc.len(), 0);
}

#[test]
fn empty_batch_changes_nothing() {
    let mut acc = FrameAccumulator::new();
    let batch = vec![5i16; 300];
    assert!(acc.push(&batch).is_none());
    let empty: Vec<i16> = vec![];
    assert!(acc.push(&empty).is_none());
    assert_eq!(acc.len(), 300);
    let mut fresh = FrameAccumulator::new();
    assert!(fresh.push(&empty).is_none());
    assert_eq!(fresh.len(), 0);
}

#[test]
fn clear_drops_all_buffered_samples() {
    let mut acc = FrameAccumulator::new();
    let batch = vec![5i16; 300];
    assert!(acc.push(&batch).is_none());
    acc.clear();
    assert_eq!(acc.len(), 0);
    acc.clear();
    assert_eq!(acc.len(), 0);
}
