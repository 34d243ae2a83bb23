use vstd::prelude::*;
use vstd::multiset::Multiset;

use crate::artifact::{files_in, files_of, lemma_files_in_push, TempFile};
use crate::strategy::Strategy;

verus! {

/// Number of lossy strengths a worker tries.
pub const LOSSY_STEPS: usize = 8;

/// An extracted animation smaller than this many bytes is taken for a corrupt encode.
pub const MIN_EXTRACT_BYTES: u64 = 1024;

/// The `k`-th lossy strength of the sweep: 30, 60, ..., 240.
pub open spec fn lossy_level(k: int) -> int {
    30 * (k + 1)
}

/// Why a worker gave up.
#[derive(Clone, Copy, Debug, PartialEq, Eq, Structural)]
pub enum FailReason {
    /// A temporary file could not be created.
    TempFile,
    /// The frames could not be extracted into a new animation.
    Extract,
    /// The extracted animation is implausibly small.
    TooSmall,
    /// The lossless pass over the extracted frames failed.
    Optimize,
    /// The worker was handed an event its stage does not expect.
    Protocol,
}

/// How a worker ended.
#[derive(Clone, Copy, Debug, PartialEq, Eq, Structural)]
pub enum Outcome {
    Success,
    Cancelled,
    Failed(FailReason),
}

/// What a worker reports: its best size in bytes (`u64::MAX` when it has none)
/// and, on success, the file holding it.
#[derive(Debug)]
pub struct StrategyResult {
    pub size: u64,
    pub file: Option<TempFile>,
    pub outcome: Outcome,
}

/// What the caller reports back to a worker.
#[derive(Debug)]
pub enum WorkerEvent {
    /// The worker may start.
    Begin,
    /// The temporary file asked for, or `None` where none could be created.
    Created(Option<TempFile>),
    /// The external step asked for ended: the size in bytes of what it wrote, or
    /// `None` where it failed.
    Finished(Option<u64>),
}

/// What a worker asks the caller to do next.
#[derive(Debug)]
pub enum WorkerAction {
    /// Create a temporary file and report it with `Created`.
    CreateFile,
    /// Extract every `skip`-th frame of the input into `output`, with `delay`
    /// between frames, and report with `Finished`.
    Extract { output: String, skip: usize, delay: u16 },
    /// Run the lossless pass from `input` to `output` and report with `Finished`.
    Optimize { input: String, output: String },
    /// Run a lossy pass of strength `level` from `input` to `output` and report
    /// with `Finished`.
    Lossy { level: u32, input: String, output: String },
    /// The worker is done; the result is handed over.
    Finish(StrategyResult),
}

/// One decision: files the worker no longer needs, to be deleted now, and the
/// next action.
#[derive(Debug)]
pub struct WorkerStep {
    pub discard: Vec<TempFile>,
    pub action: WorkerAction,
}

/// Where a worker stands.
#[derive(Clone, Copy, Debug, PartialEq, Eq, Structural)]
pub enum Stage {
    Start,
    AwaitExtractFile,
    Extracting,
    AwaitOptimizeFile,
    Optimizing,
    AwaitTrialFile,
    Trying,
    Done,
}

/// Runs one strategy: extraction, a lossless pass, then a sweep of lossy
/// strengths, each from the best file so far, until the target is met.
#[derive(Debug)]
pub struct Worker {
    strategy: Strategy,
    target: u64,
    stage: Stage,
    extracted: Option<TempFile>,
    best: Option<TempFile>,
    best_size: u64,
    trial: Option<TempFile>,
    level: usize,
}

/// The file handed in by an event.
pub open spec fn incoming(ev: WorkerEvent) -> Multiset<Seq<char>> {
    match ev {
        WorkerEvent::Created(f) => files_of(f),
        _ => Multiset::empty(),
    }
}

/// The files a decision hands out: those to delete and the reported one.
pub open spec fn outgoing(step: WorkerStep) -> Multiset<Seq<char>> {
    files_in(step.discard@).add(
        match step.action {
            WorkerAction::Finish(r) => files_of(r.file),
            _ => Multiset::empty(),
        },
    )
}

/// The decision reports `outcome` with `size`, and hands over the file at
/// `file`, or none.
pub open spec fn reports(
    step: WorkerStep,
    outcome: Outcome,
    size: u64,
    file: Option<Seq<char>>,
) -> bool {
    step.action matches WorkerAction::Finish(res) && res.outcome == outcome && res.size == size
        && match file {
        Some(p) => res.file matches Some(t) && t@ == p,
        None => res.file is None,
    }
}

/// The decision gives up with `outcome`, reporting no file and no size.
pub open spec fn gives_up(step: WorkerStep, outcome: Outcome) -> bool {
    reports(step, outcome, u64::MAX, None)
}

/// The paths of a list of handles, in order.
pub open spec fn paths(s: Seq<TempFile>) -> Seq<Seq<char>> {
    s.map_values(|t: TempFile| t@)
}

impl Worker {
    pub closed spec fn spec_stage(&self) -> Stage {
        self.stage
    }

    pub closed spec fn spec_strategy(&self) -> Strategy {
        self.strategy
    }

    pub closed spec fn spec_target(&self) -> u64 {
        self.target
    }

    /// Size in bytes of the best file so far.
    pub closed spec fn spec_best_size(&self) -> u64 {
        self.best_size
    }

    /// Index of the lossy strength being tried or next to try.
    pub closed spec fn spec_level(&self) -> int {
        self.level as int
    }

    pub closed spec fn best_path(&self) -> Seq<char> {
        self.best->0@
    }

    pub closed spec fn extracted_path(&self) -> Seq<char> {
        self.extracted->0@
    }

    pub closed spec fn trial_path(&self) -> Seq<char> {
        self.trial->0@
    }

    /// The files the worker owns.
    pub closed spec fn held(&self) -> Multiset<Seq<char>> {
        files_of(self.extracted).add(files_of(self.best)).add(files_of(self.trial))
    }

    /// Which files exist in each stage; in the sweep the best file so far is
    /// still above the target, and there is a strength left to try.
    pub closed spec fn wf(&self) -> bool {
        &&& self.strategy.skip >= 1
        &&& match self.stage {
            Stage::Start | Stage::AwaitExtractFile | Stage::Done => self.extracted is None
                && self.best is None && self.trial is None,
            Stage::Extracting | Stage::AwaitOptimizeFile => self.extracted is Some
                && self.best is None && self.trial is None,
            Stage::Optimizing => self.extracted is Some && self.best is Some && self.trial is None,
            Stage::AwaitTrialFile => self.extracted is None && self.best is Some
                && self.trial is None && self.level < LOSSY_STEPS && self.best_size > self.target,
            Stage::Trying => self.extracted is None && self.best is Some && self.trial is Some
                && self.level < LOSSY_STEPS && self.best_size > self.target,
        }
    }

    /// A worker for `strategy` that succeeds as soon as a file of at most
    /// `target` bytes is found.
    pub fn new(strategy: Strategy, target: u64) -> (r: Self)
        requires
            strategy.skip >= 1,
        ensures
            r.wf(),
            r.spec_stage() == Stage::Start,
            r.spec_strategy() == strategy,
            r.spec_target() == target,
            r.held() =~= Multiset::empty(),
    {
        Worker {
            strategy,
            target,
            stage: Stage::Start,
            extracted: None,
            best: None,
            best_size: u64::MAX,
            trial: None,
            level: 0,
        }
    }

    /// Whether the worker has reported its result.
    pub fn is_done(&self) -> (r: bool)
        ensures
            r == (self.spec_stage() == Stage::Done),
    {
        self.stage == Stage::Done
    }

    fn finish(
        &mut self,
        discard: Vec<TempFile>,
        size: u64,
        file: Option<TempFile>,
        outcome: Outcome,
    ) -> (r: WorkerStep)
        requires
            old(self).strategy.skip >= 1,
            old(self).extracted is None,
            old(self).best is None,
            old(self).trial is None,
        ensures
            final(self).wf(),
            final(self).stage == Stage::Done,
            final(self).held() =~= Multiset::empty(),
            final(self).strategy == old(self).strategy,
            final(self).target == old(self).target,
            final(self).best_size == old(self).best_size,
            r.discard@ == discard@,
            r.action matches WorkerAction::Finish(res) && res.size == size && res.file == file
                && res.outcome == outcome,
    {
        self.stage = Stage::Done;
        WorkerStep { discard, action: WorkerAction::Finish(StrategyResult { size, file, outcome }) }
    }

    /// Whether the stage is waiting for this kind of event.
    pub open spec fn expects(&self, event: WorkerEvent) -> bool {
        match event {
            WorkerEvent::Begin => self.spec_stage() == Stage::Start,
            WorkerEvent::Created(_) => self.spec_stage() == Stage::AwaitExtractFile
                || self.spec_stage() == Stage::AwaitOptimizeFile || self.spec_stage()
                == Stage::AwaitTrialFile,
            WorkerEvent::Finished(_) => self.spec_stage() == Stage::Extracting
                || self.spec_stage() == Stage::Optimizing || self.spec_stage() == Stage::Trying,
        }
    }

    /// The checkpoint before lossy trial `k`, with the best file of `best_size`
    /// bytes at `best_path`: the worker reports its best file when cancelled or
    /// when no strength is left, and otherwise asks for the trial's file.
    pub open spec fn sweeps_on(
        &self,
        r: WorkerStep,
        k: int,
        cancelled: bool,
        best_path: Seq<char>,
        best_size: u64,
    ) -> bool {
        if cancelled || k == LOSSY_STEPS {
            &&& self.spec_stage() == Stage::Done
            &&& reports(r, Outcome::Success, best_size, Some(best_path))
        } else {
            &&& self.spec_stage() == Stage::AwaitTrialFile
            &&& r.action is CreateFile
            &&& self.spec_level() == k
            &&& self.best_path() == best_path
            &&& self.spec_best_size() == best_size
        }
    }

    /// The sweep at strength index `k`, with the best file held: the checkpoint
    /// before a trial, or the end of the sweep.
    fn sweep_from(&mut self, k: usize, discard: Vec<TempFile>, cancelled: bool) -> (r: WorkerStep)
        requires
            old(self).strategy.skip >= 1,
            old(self).extracted is None,
            old(self).best is Some,
            old(self).trial is None,
            old(self).best_size > old(self).target,
            k <= LOSSY_STEPS,
        ensures
            final(self).wf(),
            final(self).strategy == old(self).strategy,
            final(self).target == old(self).target,
            final(self).best_size == old(self).best_size,
            r.discard@ == discard@,
            files_in(r.discard@).add(files_of(old(self).best)) == final(self).held().add(outgoing(r)),
            final(self).sweeps_on(r, k as int, cancelled, old(self).best_path(), old(self).best_size),
            (cancelled || k == LOSSY_STEPS) ==> {
                &&& final(self).stage == Stage::Done
                &&& r.action matches WorkerAction::Finish(res) && res.size == old(self).best_size
                    && res.file == old(self).best && res.outcome == Outcome::Success
            },
            !(cancelled || k == LOSSY_STEPS) ==> {
                &&& final(self).stage == Stage::AwaitTrialFile
                &&& final(self).level == k
                &&& final(self).best == old(self).best
                &&& r.action is CreateFile
            },
    {
        if cancelled || k == LOSSY_STEPS {
            let best = self.best.take();
            let size = self.best_size;
            let r = self.finish(discard, size, best, Outcome::Success);
            r
        } else {
            self.stage = Stage::AwaitTrialFile;
            self.level = k;
            WorkerStep { discard, action: WorkerAction::CreateFile }
        }
    }

    /// Gives up with `outcome`: every file held, and the one handed in, is
    /// discarded.
    fn abandon(&mut self, incoming: Option<TempFile>, outcome: Outcome) -> (r: WorkerStep)
        requires
            old(self).strategy.skip >= 1,
        ensures
            final(self).wf(),
            final(self).stage == Stage::Done,
            final(self).strategy == old(self).strategy,
            final(self).target == old(self).target,
            old(self).held().add(files_of(incoming)) == final(self).held().add(outgoing(r)),
            gives_up(r, outcome),
            paths(r.discard@) == paths(seq![]).add(
                match old(self).extracted { Some(t) => seq![t@], None => seq![] },
            ).add(match old(self).best { Some(t) => seq![t@], None => seq![] }).add(
                match old(self).trial { Some(t) => seq![t@], None => seq![] },
            ).add(match incoming { Some(t) => seq![t@], None => seq![] }),
    {
        let mut discard: Vec<TempFile> = Vec::new();
        let ghost e = self.extracted;
        let ghost b = self.best;
        let ghost t = self.trial;
        let ghost i = incoming;
        if let Some(f) = self.extracted.take() {
            proof { lemma_files_in_push(discard@, f); }
            discard.push(f);
        }
        if let Some(f) = self.best.take() {
            proof { lemma_files_in_push(discard@, f); }
            discard.push(f);
        }
        if let Some(f) = self.trial.take() {
            proof { lemma_files_in_push(discard@, f); }
            discard.push(f);
        }
        if let Some(f) = incoming {
            proof { lemma_files_in_push(discard@, f); }
            discard.push(f);
        }
        assert(paths(discard@) =~= paths(seq![]).add(
            match e { Some(t) => seq![t@], None => seq![] },
        ).add(match b { Some(t) => seq![t@], None => seq![] }).add(
            match t { Some(t) => seq![t@], None => seq![] },
        ).add(match i { Some(t) => seq![t@], None => seq![] }));
        self.finish(discard, u64::MAX, None, outcome)
    }

    /// Takes the next decision, given what the caller reports and whether a
    /// result meeting the target was announced (read just before the call).
    /// The announcement is consulted only at the checkpoints: before
    /// extraction, after it, after validation, and before each lossy trial.
    ///
    /// Files are conserved: what the worker held before, with the file handed
    /// in, is exactly what it holds after, with the files it hands out.
    pub fn step(&mut self, event: WorkerEvent, cancelled: bool) -> (r: WorkerStep)
        requires
            old(self).wf(),
        ensures
            final(self).wf(),
            final(self).spec_strategy() == old(self).spec_strategy(),
            final(self).spec_target() == old(self).spec_target(),
            old(self).held().add(incoming(event)) == final(self).held().add(outgoing(r)),
            (r.action is Finish) == (final(self).spec_stage() == Stage::Done),
            // starting
            old(self).spec_stage() == Stage::Start && event is Begin ==> if cancelled {
                gives_up(r, Outcome::Cancelled)
            } else {
                r.action is CreateFile && final(self).spec_stage() == Stage::AwaitExtractFile
            },
            // the file for the extraction
            event matches WorkerEvent::Created(None) ==> (
                old(self).spec_stage() == Stage::AwaitExtractFile ==> (
                    gives_up(r, Outcome::Failed(FailReason::TempFile)))),
            event matches WorkerEvent::Created(Some(f)) ==> (
                old(self).spec_stage() == Stage::AwaitExtractFile ==> (if cancelled {
                gives_up(r, Outcome::Cancelled) && paths(r.discard@) == seq![f@]
            } else {
                &&& r.action matches WorkerAction::Extract { output, skip, delay } && output@ == f@
                    && skip == old(self).spec_strategy().skip && delay == old(
                    self,
                ).spec_strategy().delay
                &&& final(self).spec_stage() == Stage::Extracting
                &&& final(self).extracted_path() == f@
            })),
            // the extraction
            event matches WorkerEvent::Finished(None) ==> (
                old(self).spec_stage() == Stage::Extracting ==> (
                    gives_up(r, Outcome::Failed(FailReason::Extract)) && paths(r.discard@) == seq![
                old(self).extracted_path(),
            ])),
            event matches WorkerEvent::Finished(Some(size)) ==> (
                old(self).spec_stage() == Stage::Extracting ==> (if cancelled {
                gives_up(r, Outcome::Cancelled) && paths(r.discard@) == seq![
                    old(self).extracted_path(),
                ]
            } else if size < MIN_EXTRACT_BYTES {
                gives_up(r, Outcome::Failed(FailReason::TooSmall)) && paths(r.discard@) == seq![
                    old(self).extracted_path(),
                ]
            } else {
                r.action is CreateFile && final(self).spec_stage() == Stage::AwaitOptimizeFile
                    && final(self).extracted_path() == old(self).extracted_path()
            })),
            // the file for the lossless pass
            event matches WorkerEvent::Created(None) ==> (
                old(self).spec_stage() == Stage::AwaitOptimizeFile ==> (
                    gives_up(r, Outcome::Failed(FailReason::TempFile)) && paths(r.discard@) == seq![
                old(self).extracted_path(),
            ])),
            event matches WorkerEvent::Created(Some(f)) ==> (
                old(self).spec_stage() == Stage::AwaitOptimizeFile ==> (if cancelled {
                gives_up(r, Outcome::Cancelled) && paths(r.discard@) == seq![
                    old(self).extracted_path(),
                    f@,
                ]
            } else {
                &&& r.action matches WorkerAction::Optimize { input, output } && input@ == old(
                    self,
                ).extracted_path() && output@ == f@
                &&& final(self).spec_stage() == Stage::Optimizing
                &&& final(self).best_path() == f@
            })),
            // the lossless pass
            event matches WorkerEvent::Finished(None) ==> (
                old(self).spec_stage() == Stage::Optimizing ==> (
                    gives_up(r, Outcome::Failed(FailReason::Optimize)) && paths(r.discard@) == seq![
                old(self).extracted_path(),
                old(self).best_path(),
            ])),
            event matches WorkerEvent::Finished(Some(size)) ==> (
                old(self).spec_stage() == Stage::Optimizing ==> ({
                &&& paths(r.discard@) == seq![old(self).extracted_path()]
                &&& if size <= old(self).spec_target() {
                    reports(r, Outcome::Success, size, Some(old(self).best_path()))
                } else {
                    final(self).sweeps_on(r, 0, cancelled, old(self).best_path(), size)
                }
            })),
            // the file for a lossy trial
            event matches WorkerEvent::Created(None) ==> (
                old(self).spec_stage() == Stage::AwaitTrialFile ==> (
                    r.discard@.len() == 0 && final(self).sweeps_on(
                r,
                old(self).spec_level() + 1,
                cancelled,
                old(self).best_path(),
                old(self).spec_best_size(),
            ))),
            event matches WorkerEvent::Created(Some(f)) ==> (
                old(self).spec_stage() == Stage::AwaitTrialFile ==> ({
                &&& r.discard@.len() == 0
                &&& r.action matches WorkerAction::Lossy { level, input, output } && level
                    == lossy_level(old(self).spec_level()) && input@ == old(self).best_path()
                    && output@ == f@
                &&& final(self).spec_stage() == Stage::Trying
                &&& final(self).trial_path() == f@
                &&& final(self).best_path() == old(self).best_path()
                &&& final(self).spec_level() == old(self).spec_level()
                &&& final(self).spec_best_size() == old(self).spec_best_size()
            })),
            // a lossy trial
            event matches WorkerEvent::Finished(None) ==> (
                old(self).spec_stage() == Stage::Trying ==> (
                    paths(r.discard@) == seq![old(self).trial_path()] && final(self).sweeps_on(
                r,
                old(self).spec_level() + 1,
                cancelled,
                old(self).best_path(),
                old(self).spec_best_size(),
            ))),
            event matches WorkerEvent::Finished(Some(size)) ==> (
                old(self).spec_stage() == Stage::Trying ==> (if size <= old(self).spec_target() {
                paths(r.discard@) == seq![old(self).best_path()] && reports(
                    r,
                    Outcome::Success,
                    size,
                    Some(old(self).trial_path()),
                )
            } else if size < old(self).spec_best_size() {
                paths(r.discard@) == seq![old(self).best_path()] && final(self).sweeps_on(
                    r,
                    old(self).spec_level() + 1,
                    cancelled,
                    old(self).trial_path(),
                    size,
                )
            } else {
                paths(r.discard@) == seq![old(self).trial_path()] && final(self).sweeps_on(
                    r,
                    old(self).spec_level() + 1,
                    cancelled,
                    old(self).best_path(),
                    old(self).spec_best_size(),
                )
            })),
            // an event the stage does not expect
            !(old(self).expects(event)) ==> gives_up(r, Outcome::Failed(FailReason::Protocol)),
    {
        match event {
            WorkerEvent::Begin => {
                if self.stage != Stage::Start {
                    return self.abandon(None, Outcome::Failed(FailReason::Protocol));
                }
                if cancelled {
                    return self.finish(Vec::new(), u64::MAX, None, Outcome::Cancelled);
                }
                self.stage = Stage::AwaitExtractFile;
                WorkerStep { discard: Vec::new(), action: WorkerAction::CreateFile }
            },
            WorkerEvent::Created(file) => {
                if self.stage == Stage::AwaitExtractFile {
                    match file {
                        None => self.finish(
                            Vec::new(),
                            u64::MAX,
                            None,
                            Outcome::Failed(FailReason::TempFile),
                        ),
                        Some(f) => {
                            if cancelled {
                                self.abandon(Some(f), Outcome::Cancelled)
                            } else {
                                let output = f.path_str();
                                self.extracted = Some(f);
                                self.stage = Stage::Extracting;
                                let action = WorkerAction::Extract {
                                    output,
                                    skip: self.strategy.skip,
                                    delay: self.strategy.delay,
                                };
                                WorkerStep { discard: Vec::new(), action }
                            }
                        },
                    }
                } else if self.stage == Stage::AwaitOptimizeFile {
                    match file {
                        None => self.abandon(None, Outcome::Failed(FailReason::TempFile)),
                        Some(f) => {
                            if cancelled {
                                self.abandon(Some(f), Outcome::Cancelled)
                            } else {
                                let input = self.extracted.as_ref().unwrap().path_str();
                                let output = f.path_str();
                                self.best = Some(f);
                                self.stage = Stage::Optimizing;
                                WorkerStep {
                                    discard: Vec::new(),
                                    action: WorkerAction::Optimize { input, output },
                                }
                            }
                        },
                    }
                } else if self.stage == Stage::AwaitTrialFile {
                    match file {
                        None => {
                            let k = self.level + 1;
                            self.sweep_from(k, Vec::new(), cancelled)
                        },
                        Some(f) => {
                            let input = self.best.as_ref().unwrap().path_str();
                            let output = f.path_str();
                            let level = 30 * (self.level as u32 + 1);
                            self.trial = Some(f);
                            self.stage = Stage::Trying;
                            WorkerStep {
                                discard: Vec::new(),
                                action: WorkerAction::Lossy { level, input, output },
                            }
                        },
                    }
                } else {
                    self.abandon(file, Outcome::Failed(FailReason::Protocol))
                }
            },
            WorkerEvent::Finished(result) => {
                if self.stage == Stage::Extracting {
                    match result {
                        None => self.abandon(None, Outcome::Failed(FailReason::Extract)),
                        Some(size) => {
                            if cancelled {
                                self.abandon(None, Outcome::Cancelled)
                            } else if size < MIN_EXTRACT_BYTES {
                                self.abandon(None, Outcome::Failed(FailReason::TooSmall))
                            } else {
                                self.stage = Stage::AwaitOptimizeFile;
                                WorkerStep { discard: Vec::new(), action: WorkerAction::CreateFile }
                            }
                        },
                    }
                } else if self.stage == Stage::Optimizing {
                    match result {
                        None => self.abandon(None, Outcome::Failed(FailReason::Optimize)),
                        Some(size) => {
                            let mut discard: Vec<TempFile> = Vec::new();
                            if let Some(e) = self.extracted.take() {
                                proof { lemma_files_in_push(discard@, e); }
                                discard.push(e);
                            }
                            if size <= self.target {
                                let best = self.best.take();
                                self.finish(discard, size, best, Outcome::Success)
                            } else {
                                self.best_size = size;
                                self.sweep_from(0, discard, cancelled)
                            }
                        },
                    }
                } else if self.stage == Stage::Trying {
                    let trial = self.trial.take();
                    let mut discard: Vec<TempFile> = Vec::new();
                    match result {
                        None => {
                            if let Some(t) = trial {
                                proof { lemma_files_in_push(discard@, t); }
                                discard.push(t);
                            }
                            let k = self.level + 1;
                            self.sweep_from(k, discard, cancelled)
                        },
                        Some(size) => {
                            if size <= self.target || size < self.best_size {
                                if let Some(b) = self.best.take() {
                                    proof { lemma_files_in_push(discard@, b); }
                                    discard.push(b);
                                }
                                if size <= self.target {
                                    self.finish(discard, size, trial, Outcome::Success)
                                } else {
                                    self.best = trial;
                                    self.best_size = size;
                                    let k = self.level + 1;
                                    self.sweep_from(k, discard, cancelled)
                                }
                            } else {
                                if let Some(t) = trial {
                                    proof { lemma_files_in_push(discard@, t); }
                                    discard.push(t);
                                }
                                let k = self.level + 1;
                                self.sweep_from(k, discard, cancelled)
                            }
                        },
                    }
                } else {
                    self.abandon(None, Outcome::Failed(FailReason::Protocol))
                }
            },
        }
    }
}

} // verus!
