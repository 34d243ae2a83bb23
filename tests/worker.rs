use gif_shrink::{
    FailReason, Outcome, Strategy, StrategyResult, TempFile, Worker, WorkerAction,
    WorkerEvent,
};

/// Drives a worker with scripted step results. `sizes` gives, in order, the
/// size each external step reports (`None` for a failure); `cancel_at` is the
/// step number from which the announcement is seen. Returns the result, the
/// levels tried, and the files created and released.
fn drive(
    target: u64,
    sizes: &[Option<u64>],
    cancel_at: usize,
) -> (StrategyResult, Vec<u32>, Vec<String>, Vec<String>) {
    let mut w = Worker::new(Strategy { skip: 3, delay: 13 }, target);
    let mut created: Vec<String> = Vec::new();
    let mut released: Vec<String> = Vec::new();
    let mut levels: Vec<u32> = Vec::new();
    let mut next_size = 0;
    let mut ev = WorkerEvent::Begin;
    let mut n = 0;
    loop {
        let st = w.step(ev, n >= cancel_at);
        n += 1;
        for f in st.discard {
            released.push(f.path_str());
        }
        ev = match st.action {
            WorkerAction::CreateFile => {
                let name = format!("f{}", created.len());
                created.push(name.clone());
                WorkerEvent::Created(Some(TempFile::adopt(name)))
            }
            WorkerAction::Extract { skip, delay, .. } => {
                assert_eq!((skip, delay), (3, 13));
                next_size += 1;
                WorkerEvent::Finished(sizes[next_size - 1])
            }
            WorkerAction::Optimize { .. } => {
                next_size += 1;
                WorkerEvent::Finished(sizes[next_size - 1])
            }
            WorkerAction::Lossy { level, .. } => {
                levels.push(level);
                next_size += 1;
                WorkerEvent::Finished(sizes[next_size - 1])
            }
            WorkerAction::Finish(r) => {
                assert!(w.is_done());
                if let Some(f) = &r.file {
                    released.push(f.path_str());
                }
                return (r, levels, created, released);
            }
        };
    }
}

fn sorted(mut v: Vec<String>) -> Vec<String> {
    v.sort();
    v
}

#[test]
fn success_right_after_lossless_pass() {
    let (r, levels, created, released) = drive(5000, &[Some(9000), Some(4000)], usize::MAX);
    assert_eq!(r.outcome, Outcome::Success);
    assert_eq!(r.size, 4000);
    assert_eq!(r.file.unwrap().path_str(), "f1");
    assert!(levels.is_empty());
    assert_eq!(sorted(created), sorted(released));
}

#[test]
fn lossy_sweep_stops_at_target() {
    let (r, levels, created, released) =
        drive(5000, &[Some(9000), Some(8000), Some(7000), Some(7500), Some(4900)], usize::MAX);
    assert_eq!(r.outcome, Outcome::Success);
    assert_eq!(r.size, 4900);
    assert_eq!(levels, vec![30, 60, 90]);
    assert_eq!(r.file.unwrap().path_str(), "f4");
    assert_eq!(sorted(created), sorted(released));
}

#[test]
fn lossy_sweep_runs_all_levels_and_keeps_smallest() {
    let mut sizes = vec![Some(9000), Some(8000)];
    sizes.extend([Some(7000), None, Some(6500), Some(6600), Some(6000), Some(6000), Some(5500), Some(5600)]);
    let (r, levels, created, released) = drive(1000, &sizes, usize::MAX);
    assert_eq!(r.outcome, Outcome::Success);
    assert_eq!(r.size, 5500);
    assert_eq!(levels, vec![30, 60, 90, 120, 150, 180, 210, 240]);
    assert_eq!(created.len(), 10);
    assert_eq!(sorted(created), sorted(released));
}

#[test]
fn each_trial_starts_from_current_best() {
    let mut w = Worker::new(Strategy { skip: 2, delay: 12 }, 10);
    let _ = w.step(WorkerEvent::Begin, false);
    let _ = w.step(WorkerEvent::Created(Some(TempFile::adopt("raw".to_string()))), false);
    let _ = w.step(WorkerEvent::Finished(Some(5000)), false);
    let st = w.step(WorkerEvent::Created(Some(TempFile::adopt("opt".to_string()))), false);
    assert!(matches!(st.action, WorkerAction::Optimize { ref input, ref output } if input == "raw" && output == "opt"));
    let st = w.step(WorkerEvent::Finished(Some(4000)), false);
    assert_eq!(st.discard.len(), 1);
    assert_eq!(st.discard[0].path_str(), "raw");
    let _ = w.step(WorkerEvent::Created(Some(TempFile::adopt("t1".to_string()))), false);
    let st = w.step(WorkerEvent::Finished(Some(3000)), false);
    assert_eq!(st.discard[0].path_str(), "opt");
    let st = w.step(WorkerEvent::Created(Some(TempFile::adopt("t2".to_string()))), false);
    assert!(matches!(st.action, WorkerAction::Lossy { level: 60, ref input, ref output } if input == "t1" && output == "t2"));
    assert_eq!(w.is_done(), false);
}

#[test]
fn cancelled_before_start() {
    let (r, _, created, released) = drive(5000, &[], 0);
    assert_eq!(r.outcome, Outcome::Cancelled);
    assert!(r.file.is_none());
    assert_eq!(r.size, u64::MAX);
    assert!(created.is_empty() && released.is_empty());
}

#[test]
fn cancelled_after_extraction_discards_file() {
    let (r, _, created, released) = drive(5000, &[Some(9000)], 3);
    assert_eq!(r.outcome, Outcome::Cancelled);
    assert_eq!(sorted(created), sorted(released));
}

#[test]
fn cancelled_during_sweep_returns_local_best() {
    let (r, levels, created, released) = drive(1000, &[Some(9000), Some(8000), Some(7000)], 6);
    assert_eq!(r.outcome, Outcome::Success);
    assert_eq!(r.size, 7000);
    assert_eq!(levels, vec![30]);
    assert_eq!(sorted(created), sorted(released));
}

#[test]
fn extraction_failure_and_zero_frames() {
    let (r, _, created, released) = drive(5000, &[None], usize::MAX);
    assert_eq!(r.outcome, Outcome::Failed(FailReason::Extract));
    assert!(r.file.is_none());
    assert_eq!(sorted(created), sorted(released));
}

#[test]
fn tiny_extraction_is_rejected() {
    let (r, _, created, released) = drive(5000, &[Some(1023)], usize::MAX);
    assert_eq!(r.outcome, Outcome::Failed(FailReason::TooSmall));
    assert_eq!(sorted(created), sorted(released));
    let (r, _, _, _) = drive(5000, &[Some(1024), Some(900)], usize::MAX);
    assert_eq!(r.outcome, Outcome::Success);
}

#[test]
fn optimize_failure_discards_both_files() {
    let (r, _, created, released) = drive(5000, &[Some(9000), None], usize::MAX);
    assert_eq!(r.outcome, Outcome::Failed(FailReason::Optimize));
    assert_eq!(created.len(), 2);
    assert_eq!(sorted(created), sorted(released));
}

#[test]
fn temp_file_failure() {
    let mut w = Worker::new(Strategy { skip: 2, delay: 12 }, 10);
    let _ = w.step(WorkerEvent::Begin, false);
    let st = w.step(WorkerEvent::Created(None), false);
    assert!(matches!(st.action, WorkerAction::Finish(StrategyResult { outcome: Outcome::Failed(FailReason::TempFile), .. })));
}

#[test]
fn unexpected_event_releases_everything() {
    let mut w = Worker::new(Strategy { skip: 2, delay: 12 }, 10);
    let _ = w.step(WorkerEvent::Begin, false);
    let _ = w.step(WorkerEvent::Created(Some(TempFile::adopt("a".to_string()))), false);
    let st = w.step(WorkerEvent::Created(Some(TempFile::adopt("b".to_string()))), false);
    let names: Vec<String> = st.discard.iter().map(|f| f.path_str()).collect();
    assert_eq!(names, vec!["a".to_string(), "b".to_string()]);
    assert!(matches!(st.action, WorkerAction::Finish(StrategyResult { outcome: Outcome::Failed(FailReason::Protocol), .. })));
    assert!(w.is_done());
}
