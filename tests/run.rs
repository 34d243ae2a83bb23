use gif_shrink::{
    choose_output, generate_strategies, GifError, Outcome, OutputSource, Run, RunAction,
    RunEvent, StrategyResult, TempFile,
};

const KB: u64 = 1024;

fn result(size: u64, name: &str) -> StrategyResult {
    StrategyResult { size, file: Some(TempFile::adopt(name.to_string())), outcome: Outcome::Success }
}

fn names(v: &[TempFile]) -> Vec<String> {
    let mut n: Vec<String> = v.iter().map(|f| f.path_str()).collect();
    n.sort();
    n
}

/// Takes a run through the first pass to the search, the input holding
/// `frames` frames and the first pass leaving `baseline` bytes.
fn to_search(target: u64, frames: usize, baseline: u64) -> (Run, usize) {
    let mut run = Run::new(target, 10, 4);
    assert!(matches!(run.step(RunEvent::Begin).action, RunAction::MeasureInput));
    assert!(matches!(run.step(RunEvent::InputSize(2048 * KB)).action, RunAction::ProbeCompressor));
    assert!(matches!(run.step(RunEvent::Probe(true)).action, RunAction::CountFrames));
    assert!(matches!(run.step(RunEvent::FrameCount(Ok(frames))).action, RunAction::CreateFile));
    let st = run.step(RunEvent::Created(Ok(TempFile::adopt("base".to_string()))));
    assert!(matches!(st.action, RunAction::RunBaseline { ref output } if output == "base"));
    let st = run.step(RunEvent::BaselineDone(Ok(baseline)));
    match st.action {
        RunAction::Spawn { strategies, threads } => {
            assert_eq!(strategies, generate_strategies(frames, 10).unwrap());
            assert_eq!(threads, 4.min(strategies.len()));
            (run, strategies.len())
        }
        other => panic!("expected a spawn, got {:?}", other),
    }
}

/// Feeds the sizes in as results and returns the delivered size and whether it
/// met the target.
fn search(target: u64, sizes: &[u64]) -> (u64, bool) {
    let (mut run, _) = to_search(target, 100, 1800 * KB);
    for (i, s) in sizes.iter().enumerate() {
        let st = run.step(RunEvent::Received(result(*s, &format!("w{}", i))));
        if let RunAction::Deliver { size, reached, .. } = st.action {
            return (size, reached);
        }
    }
    match run.step(RunEvent::Closed).action {
        RunAction::Deliver { size, reached, .. } => (size, reached),
        other => panic!("expected a delivery, got {:?}", other),
    }
}

#[test]
fn input_within_target_is_copied_without_search() {
    let mut run = Run::new(500 * KB, 10, 4);
    let _ = run.step(RunEvent::Begin);
    let st = run.step(RunEvent::InputSize(300 * KB));
    assert!(matches!(st.action, RunAction::CopyInput));
    assert!(st.discard.is_empty());
    assert!(run.is_done());
}

#[test]
fn input_exactly_at_target_is_copied() {
    let mut run = Run::new(500 * KB, 10, 4);
    let _ = run.step(RunEvent::Begin);
    assert!(matches!(run.step(RunEvent::InputSize(500 * KB)).action, RunAction::CopyInput));
}

#[test]
fn missing_compressor_fails_before_any_file() {
    let mut run = Run::new(500 * KB, 10, 4);
    let _ = run.step(RunEvent::Begin);
    let st = run.step(RunEvent::InputSize(2048 * KB));
    assert!(matches!(st.action, RunAction::ProbeCompressor));
    let st = run.step(RunEvent::Probe(false));
    assert!(matches!(st.action, RunAction::Fail(GifError::GifsicleNotFound)));
    assert!(st.discard.is_empty());
    assert!(run.is_done());
}

#[test]
fn zero_frames_fail_the_run() {
    let mut run = Run::new(500 * KB, 10, 4);
    let _ = run.step(RunEvent::Begin);
    let _ = run.step(RunEvent::InputSize(2048 * KB));
    let _ = run.step(RunEvent::Probe(true));
    let st = run.step(RunEvent::FrameCount(Ok(0)));
    assert!(matches!(st.action, RunAction::Fail(GifError::NoFrames)));
}

#[test]
fn baseline_failure_discards_its_file() {
    let mut run = Run::new(500 * KB, 10, 4);
    let _ = run.step(RunEvent::Begin);
    let _ = run.step(RunEvent::InputSize(2048 * KB));
    let _ = run.step(RunEvent::Probe(true));
    let _ = run.step(RunEvent::FrameCount(Ok(10)));
    let _ = run.step(RunEvent::Created(Ok(TempFile::adopt("base".to_string()))));
    let st = run.step(RunEvent::BaselineDone(Err(GifError::GifsicleExecFailed("bad".to_string()))));
    assert!(matches!(st.action, RunAction::Fail(GifError::GifsicleExecFailed(ref m)) if m == "bad"));
    assert_eq!(names(&st.discard), vec!["base".to_string()]);
}

#[test]
fn baseline_within_target_is_delivered() {
    let mut run = Run::new(500 * KB, 10, 4);
    let _ = run.step(RunEvent::Begin);
    let _ = run.step(RunEvent::InputSize(600 * KB));
    let _ = run.step(RunEvent::Probe(true));
    let _ = run.step(RunEvent::FrameCount(Ok(10)));
    let _ = run.step(RunEvent::Created(Ok(TempFile::adopt("base".to_string()))));
    let st = run.step(RunEvent::BaselineDone(Ok(450 * KB)));
    match st.action {
        RunAction::Deliver { winner, fallback, size, reached } => {
            assert_eq!(winner.path_str(), "base");
            assert_eq!(fallback, "base");
            assert_eq!(size, 450 * KB);
            assert!(reached);
        }
        other => panic!("expected a delivery, got {:?}", other),
    }
    assert!(matches!(run.step(RunEvent::Delivered).action, RunAction::Done));
}

#[test]
fn hundred_frames_search_finds_winner() {
    let (mut run, n) = to_search(500 * KB, 100, 1800 * KB);
    assert!(n >= 8);
    let st = run.step(RunEvent::Received(result(900 * KB, "w1")));
    assert!(matches!(st.action, RunAction::Receive));
    let st = run.step(RunEvent::Received(StrategyResult { size: u64::MAX, file: None, outcome: Outcome::Cancelled }));
    assert!(matches!(st.action, RunAction::Receive));
    let st = run.step(RunEvent::Received(result(1000 * KB, "w2")));
    assert!(matches!(st.action, RunAction::Receive));
    let st = run.step(RunEvent::Received(result(480 * KB, "w3")));
    match st.action {
        RunAction::Deliver { winner, fallback, size, reached } => {
            assert_eq!(winner.path_str(), "w3");
            assert_eq!(fallback, "base");
            assert_eq!(size, 480 * KB);
            assert!(reached);
        }
        other => panic!("expected a delivery, got {:?}", other),
    }
    assert_eq!(names(&st.discard), vec!["base".to_string(), "w1".to_string(), "w2".to_string()]);
    // stragglers are drained and cleaned up
    assert!(matches!(run.step(RunEvent::Delivered).action, RunAction::Receive));
    let st = run.step(RunEvent::Received(result(300 * KB, "late")));
    assert_eq!(names(&st.discard), vec!["late".to_string()]);
    assert!(matches!(st.action, RunAction::Receive));
    assert!(matches!(run.step(RunEvent::Closed).action, RunAction::Done));
    assert!(run.is_done());
}

#[test]
fn hundred_frames_search_without_winner_delivers_smallest() {
    let (mut run, _) = to_search(500 * KB, 100, 1800 * KB);
    let _ = run.step(RunEvent::Received(result(900 * KB, "w1")));
    let _ = run.step(RunEvent::Received(result(700 * KB, "w2")));
    let _ = run.step(RunEvent::Received(result(800 * KB, "w3")));
    let st = run.step(RunEvent::Closed);
    match st.action {
        RunAction::Deliver { winner, size, reached, .. } => {
            assert_eq!(winner.path_str(), "w2");
            assert_eq!(size, 700 * KB);
            assert!(!reached);
        }
        other => panic!("expected a delivery, got {:?}", other),
    }
    assert_eq!(names(&st.discard), vec!["base".to_string(), "w1".to_string(), "w3".to_string()]);
    assert!(matches!(run.step(RunEvent::Delivered).action, RunAction::Done));
}

#[test]
fn search_keeps_baseline_when_nothing_beats_it() {
    assert_eq!(search(500 * KB, &[1900 * KB, 2000 * KB]), (1800 * KB, false));
}

#[test]
fn same_results_give_same_size() {
    let sizes = [900 * KB, 700 * KB, 650 * KB, 1200 * KB];
    assert_eq!(search(500 * KB, &sizes), search(500 * KB, &sizes));
    let reordered = [1200 * KB, 650 * KB, 900 * KB, 700 * KB];
    assert_eq!(search(500 * KB, &sizes), (650 * KB, false));
    assert_eq!(search(500 * KB, &reordered), (650 * KB, false));
}

#[test]
fn every_created_file_is_released_once() {
    let (mut run, _) = to_search(500 * KB, 100, 1800 * KB);
    let mut released: Vec<String> = Vec::new();
    for (i, s) in [900u64, 700, 800, 650].iter().enumerate() {
        let st = run.step(RunEvent::Received(result(s * KB, &format!("w{}", i))));
        released.extend(names(&st.discard));
    }
    let st = run.step(RunEvent::Closed);
    released.extend(names(&st.discard));
    if let RunAction::Deliver { winner, .. } = st.action {
        released.push(winner.path_str());
    }
    released.sort();
    assert_eq!(released, vec!["base", "w0", "w1", "w2", "w3"]);
}

#[test]
fn unexpected_event_fails_the_run() {
    let mut run = Run::new(500 * KB, 10, 4);
    let st = run.step(RunEvent::Closed);
    assert!(matches!(st.action, RunAction::Fail(GifError::Other(_))));
    assert!(run.is_done());
}

#[test]
fn output_source() {
    assert_eq!(choose_output(true, true).unwrap(), OutputSource::Winner);
    assert_eq!(choose_output(true, false).unwrap(), OutputSource::Winner);
    assert_eq!(choose_output(false, true).unwrap(), OutputSource::Fallback);
    assert!(matches!(choose_output(false, false), Err(GifError::NoValidResults)));
}
