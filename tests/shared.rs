use gif_shrink::{improves, resolve_threads, SharedState};

#[test]
fn best_size_only_decreases() {
    let s = SharedState::new();
    assert_eq!(s.get_best_size(), u64::MAX);
    assert!(s.update_best_size(500));
    assert!(!s.update_best_size(600));
    assert!(!s.update_best_size(500));
    assert!(s.update_best_size(400));
    assert!(!s.update_best_size(450));
    assert_eq!(s.get_best_size(), 400);
}

#[test]
fn best_size_is_minimum_of_all_submissions() {
    let s = SharedState::new();
    let mut accepted = 0;
    for t in 0..8u64 {
        for k in 0..1000u64 {
            if s.update_best_size(10_000 + (k * 7 + t * 13) % 5000) {
                accepted += 1;
            }
        }
    }
    assert_eq!(s.get_best_size(), 10_000);
    assert!(accepted >= 1);
}

#[test]
fn target_flag() {
    let s = SharedState::new();
    assert!(!s.is_target_found());
    s.set_found_target();
    assert!(s.is_target_found());
    s.set_found_target();
    assert!(s.is_target_found());
}

#[test]
fn publish_records_size_and_flag() {
    let s = SharedState::new();
    s.publish(false, 10, 100);
    assert_eq!(s.get_best_size(), u64::MAX);
    assert!(!s.is_target_found());
    s.publish(true, 200, 100);
    assert_eq!(s.get_best_size(), 200);
    assert!(!s.is_target_found());
    s.publish(true, 90, 100);
    assert_eq!(s.get_best_size(), 90);
    assert!(s.is_target_found());
}

#[test]
fn improvement_is_strict() {
    assert!(improves(10, 9));
    assert!(!improves(10, 10));
    assert!(!improves(10, 11));
}

#[test]
fn thread_count() {
    assert_eq!(resolve_threads(3), 3);
    assert!(resolve_threads(0) >= 1);
}
