use vstd::prelude::*;
use vstd::multiset::Multiset;
use vstd::string::StringExecFns;

use crate::artifact::{files_in, files_of, lemma_files_in_push, TempFile};
use crate::error::GifError;
use crate::strategy::{generate_strategies, strategies_for, Strategy};
use crate::shared::{lemma_stored_after_one, stored_after};
use crate::worker::{Outcome, StrategyResult};

verus! {

/// What the caller reports back to a run.
#[derive(Debug)]
pub enum RunEvent {
    /// The run may start.
    Begin,
    /// The input's size in bytes.
    InputSize(u64),
    /// How many frames the input holds.
    FrameCount(Result<usize, GifError>),
    /// Whether the compressor answered the version query.
    Probe(bool),
    /// The temporary file for the first pass.
    Created(Result<TempFile, GifError>),
    /// The first pass ended: the size in bytes of what it wrote.
    BaselineDone(Result<u64, GifError>),
    /// A worker's result arrived.
    Received(StrategyResult),
    /// Every worker has reported.
    Closed,
    /// The output was written from the delivered file.
    Delivered,
}

/// What a run asks the caller to do next.
#[derive(Debug)]
pub enum RunAction {
    /// Measure the input and report `InputSize`.
    MeasureInput,
    /// Copy the input, unchanged, to the output. The run is over.
    CopyInput,
    /// Count the input's frames and report `FrameCount`.
    CountFrames,
    /// Ask the compressor for its version and report `Probe`.
    ProbeCompressor,
    /// Create a temporary file and report `Created`.
    CreateFile,
    /// Run the first pass over the input into `output` and report `BaselineDone`.
    RunBaseline { output: String },
    /// Start one worker per strategy, on at most `threads` threads, then report
    /// each result with `Received` and the end with `Closed`.
    Spawn { strategies: Vec<Strategy>, threads: usize },
    /// Report the next result with `Received`, or `Closed`.
    Receive,
    /// Write the output from `winner`, or from `fallback` where the winner's
    /// file has gone, delete the winner, and report `Delivered`. `reached` says
    /// whether its `size` meets the target; when it does, the workers still
    /// running are told to stop.
    Deliver { winner: TempFile, fallback: String, size: u64, reached: bool },
    /// The run failed.
    Fail(GifError),
    /// The run is over.
    Done,
}

/// One decision: files to delete once the action is carried out, and the action.
#[derive(Debug)]
pub struct RunStep {
    pub discard: Vec<TempFile>,
    pub action: RunAction,
}

#[derive(Clone, Copy, Debug, PartialEq, Eq, Structural)]
pub enum RunStage {
    Start,
    Measuring,
    Counting,
    Probing,
    AwaitBaselineFile,
    Baseline,
    Searching,
    Delivering,
    Draining,
    Done,
}

/// Which file the output is written from.
#[derive(Clone, Copy, Debug, PartialEq, Eq, Structural)]
pub enum OutputSource {
    Winner,
    Fallback,
}

/// The output comes from the winner while its file exists, else from the
/// fallback while that exists; with neither there is nothing to deliver.
pub fn choose_output(winner_exists: bool, fallback_exists: bool) -> (r: Result<OutputSource, GifError>)
    ensures
        winner_exists ==> r == Ok::<OutputSource, GifError>(OutputSource::Winner),
        !winner_exists && fallback_exists ==> r == Ok::<OutputSource, GifError>(OutputSource::Fallback),
        !winner_exists && !fallback_exists ==> r matches Err(GifError::NoValidResults),
{
    if winner_exists {
        Ok(OutputSource::Winner)
    } else if fallback_exists {
        Ok(OutputSource::Fallback)
    } else {
        Err(GifError::NoValidResults)
    }
}

/// The file handed in by an event.
pub open spec fn run_incoming(ev: RunEvent) -> Multiset<Seq<char>> {
    match ev {
        RunEvent::Created(Ok(f)) => Multiset::singleton(f@),
        RunEvent::Received(r) => files_of(r.file),
        _ => Multiset::empty(),
    }
}

/// The files a decision hands out.
pub open spec fn run_outgoing(step: RunStep) -> Multiset<Seq<char>> {
    files_in(step.discard@).add(
        match step.action {
            RunAction::Deliver { winner, .. } => Multiset::singleton(winner@),
            _ => Multiset::empty(),
        },
    )
}

/// Optimises one input: a first lossless pass, then, unless that already meets
/// the target, a search over strategies whose results are folded into the
/// smallest file seen, the first one meeting the target winning at once.
#[derive(Debug)]
pub struct Run {
    target: u64,
    min_frame_percent: u32,
    threads: usize,
    stage: RunStage,
    frame_count: usize,
    fallback: String,
    best: Option<TempFile>,
    best_size: u64,
    disposal: Vec<TempFile>,
    workers_running: bool,
}

impl Run {
    pub closed spec fn spec_stage(&self) -> RunStage {
        self.stage
    }

    pub closed spec fn spec_target(&self) -> u64 {
        self.target
    }

    /// Size in bytes of the best file so far.
    pub closed spec fn spec_best_size(&self) -> u64 {
        self.best_size
    }

    pub closed spec fn best_path(&self) -> Seq<char> {
        self.best->0@
    }

    /// The first pass's file, delivered in place of a winner whose file has gone.
    pub closed spec fn fallback_path(&self) -> Seq<char> {
        self.fallback@
    }

    pub closed spec fn spec_frame_count(&self) -> usize {
        self.frame_count
    }

    pub closed spec fn spec_threads(&self) -> usize {
        self.threads
    }

    pub closed spec fn spec_min_frame_percent(&self) -> u32 {
        self.min_frame_percent
    }

    /// Whether workers were started and have not all reported.
    pub closed spec fn spec_workers_running(&self) -> bool {
        self.workers_running
    }

    /// Whether the stage is waiting for this kind of event.
    pub open spec fn expects(&self, event: RunEvent) -> bool {
        match event {
            RunEvent::Begin => self.spec_stage() == RunStage::Start,
            RunEvent::InputSize(_) => self.spec_stage() == RunStage::Measuring,
            RunEvent::FrameCount(_) => self.spec_stage() == RunStage::Counting,
            RunEvent::Probe(_) => self.spec_stage() == RunStage::Probing,
            RunEvent::Created(_) => self.spec_stage() == RunStage::AwaitBaselineFile,
            RunEvent::BaselineDone(_) => self.spec_stage() == RunStage::Baseline,
            RunEvent::Received(_) | RunEvent::Closed => self.spec_stage() == RunStage::Searching
                || self.spec_stage() == RunStage::Draining,
            RunEvent::Delivered => self.spec_stage() == RunStage::Delivering,
        }
    }

    /// Paths of the files set aside for deletion at the end.
    pub closed spec fn disposal_paths(&self) -> Multiset<Seq<char>> {
        files_in(self.disposal@)
    }

    /// The files the run owns.
    pub closed spec fn held(&self) -> Multiset<Seq<char>> {
        files_of(self.best).add(files_in(self.disposal@))
    }

    pub closed spec fn wf(&self) -> bool {
        &&& match self.stage {
            RunStage::Baseline | RunStage::Searching => self.best is Some,
            _ => self.best is None && self.disposal@.len() == 0,
        }
        &&& (self.stage == RunStage::Baseline ==> self.disposal@.len() == 0)
        &&& (self.stage == RunStage::Searching ==> self.best_size > self.target
            && self.frame_count > 0 && self.workers_running)
        &&& (self.stage == RunStage::AwaitBaselineFile || self.stage == RunStage::Baseline
            ==> self.frame_count > 0)
    }

    /// A run that aims at `target` bytes, keeps at least `min_frame_percent`
    /// percent of the frames, and uses at most `threads` threads.
    pub fn new(target: u64, min_frame_percent: u32, threads: usize) -> (r: Self)
        ensures
            r.wf(),
            r.spec_stage() == RunStage::Start,
            r.spec_target() == target,
            r.spec_min_frame_percent() == min_frame_percent,
            r.spec_threads() == threads,
            r.held() =~= Multiset::empty(),
    {
        Run {
            target,
            min_frame_percent,
            threads,
            stage: RunStage::Start,
            frame_count: 0,
            fallback: String::new(),
            best: None,
            best_size: u64::MAX,
            disposal: Vec::new(),
            workers_running: false,
        }
    }

    /// Whether the run is over.
    pub fn is_done(&self) -> (r: bool)
        ensures
            r == (self.spec_stage() == RunStage::Done),
    {
        self.stage == RunStage::Done
    }

    /// Ends the run with `action`, handing out every file held, and the one
    /// handed in, for deletion.
    fn end(&mut self, incoming: Option<TempFile>, action: RunAction) -> (r: RunStep)
        requires
            !(action is Deliver),
        ensures
            final(self).wf(),
            final(self).stage == RunStage::Done,
            final(self).target == old(self).target,
            final(self).min_frame_percent == old(self).min_frame_percent,
            final(self).threads == old(self).threads,
            final(self).frame_count == old(self).frame_count,
            final(self).fallback == old(self).fallback,
            old(self).held().add(files_of(incoming)) == final(self).held().add(run_outgoing(r)),
            r.action == action,
            old(self).best is None && old(self).disposal@.len() == 0 && incoming is None
                ==> r.discard@.len() == 0,
    {
        let mut discard: Vec<TempFile> = Vec::new();
        std::mem::swap(&mut discard, &mut self.disposal);
        if let Some(b) = self.best.take() {
            proof { lemma_files_in_push(discard@, b); }
            discard.push(b);
        }
        if let Some(f) = incoming {
            proof { lemma_files_in_push(discard@, f); }
            discard.push(f);
        }
        self.stage = RunStage::Done;
        RunStep { discard, action }
    }

    /// Hands the best file over for delivery, with the files set aside.
    fn deliver(&mut self) -> (r: RunStep)
        requires
            old(self).best is Some,
        ensures
            final(self).wf(),
            final(self).stage == RunStage::Delivering,
            final(self).target == old(self).target,
            final(self).min_frame_percent == old(self).min_frame_percent,
            final(self).threads == old(self).threads,
            final(self).frame_count == old(self).frame_count,
            final(self).fallback == old(self).fallback,
            final(self).best_size == old(self).best_size,
            final(self).workers_running == old(self).workers_running,
            old(self).held() == final(self).held().add(run_outgoing(r)),
            files_in(r.discard@) == old(self).disposal_paths(),
            r.action matches RunAction::Deliver { winner, fallback, size, reached } && winner@ == old(
                self,
            ).best_path() && fallback@ == old(self).fallback_path() && size == old(self).best_size
                && reached == (old(self).best_size <= old(self).target),
    {
        let mut discard: Vec<TempFile> = Vec::new();
        std::mem::swap(&mut discard, &mut self.disposal);
        let winner = self.best.take().unwrap();
        self.stage = RunStage::Delivering;
        let size = self.best_size;
        let action = RunAction::Deliver {
            winner,
            fallback: self.fallback.clone(),
            size,
            reached: size <= self.target,
        };
        RunStep { discard, action }
    }

    /// Takes the next decision, given what the caller reports.
    ///
    /// Files are conserved: what the run held before, with the file handed in,
    /// is exactly what it holds after, with the files it hands out.
    pub fn step(&mut self, event: RunEvent) -> (r: RunStep)
        requires
            old(self).wf(),
        ensures
            final(self).wf(),
            final(self).spec_target() == old(self).spec_target(),
            final(self).spec_min_frame_percent() == old(self).spec_min_frame_percent(),
            final(self).spec_threads() == old(self).spec_threads(),
            old(self).spec_stage() != RunStage::Counting ==> final(self).spec_frame_count() == old(
                self,
            ).spec_frame_count(),
            old(self).spec_stage() != RunStage::AwaitBaselineFile ==> final(self).fallback_path()
                == old(self).fallback_path(),
            old(self).held().add(run_incoming(event)) == final(self).held().add(run_outgoing(r)),
            (final(self).spec_stage() == RunStage::Done) == (r.action is CopyInput || r.action is Fail
                || r.action is Done),
            event is Begin ==> (old(self).spec_stage() == RunStage::Start ==> (r.action is MeasureInput
                && final(self).spec_stage() == RunStage::Measuring)),
            // an input already within the target is copied unchanged, with no search
            event matches RunEvent::InputSize(size) ==> (old(self).spec_stage() == RunStage::Measuring
                ==> (if size <= old(self).spec_target() {
                r.action is CopyInput && r.discard@.len() == 0
            } else {
                r.action is ProbeCompressor && final(self).spec_stage() == RunStage::Probing
            })),
            // the compressor is probed before the input is decoded or any file is made
            event matches RunEvent::Probe(present) ==> (old(self).spec_stage() == RunStage::Probing
                ==> (if present {
                r.action is CountFrames && final(self).spec_stage() == RunStage::Counting
            } else {
                r.action matches RunAction::Fail(GifError::GifsicleNotFound) && r.discard@.len() == 0
            })),
            event matches RunEvent::FrameCount(Err(e)) ==> (old(self).spec_stage() == RunStage::Counting
                ==> r.action == RunAction::Fail(e)),
            event matches RunEvent::FrameCount(Ok(n)) ==> (old(self).spec_stage() == RunStage::Counting
                ==> (if n == 0 {
                r.action matches RunAction::Fail(GifError::NoFrames)
            } else {
                &&& r.action is CreateFile
                &&& final(self).spec_stage() == RunStage::AwaitBaselineFile
                &&& final(self).spec_frame_count() == n
                &&& r.discard@.len() == 0
            })),
            event matches RunEvent::Created(Err(e)) ==> (old(self).spec_stage()
                == RunStage::AwaitBaselineFile ==> r.action == RunAction::Fail(e)),
            event matches RunEvent::Created(Ok(f)) ==> (old(self).spec_stage()
                == RunStage::AwaitBaselineFile ==> {
                &&& r.action matches RunAction::RunBaseline { output } && output@ == f@
                &&& final(self).spec_stage() == RunStage::Baseline
                &&& final(self).best_path() == f@
                &&& final(self).fallback_path() == f@
            }),
            event matches RunEvent::BaselineDone(Err(e)) ==> (old(self).spec_stage()
                == RunStage::Baseline ==> r.action == RunAction::Fail(e)),
            event matches RunEvent::BaselineDone(Ok(size)) ==> (old(self).spec_stage()
                == RunStage::Baseline ==> (if size <= old(self).spec_target() {
                &&& r.action matches RunAction::Deliver { winner, fallback, size: s, reached }
                    && winner@ == old(self).best_path() && fallback@ == old(self).fallback_path()
                    && s == size && reached
                &&& final(self).spec_stage() == RunStage::Delivering
                &&& !final(self).spec_workers_running()
            } else {
                &&& r.action matches RunAction::Spawn { strategies, threads } && strategies@
                    == strategies_for(
                    old(self).spec_frame_count() as int,
                    old(self).spec_min_frame_percent() as int,
                ) && threads == vstd::math::min(
                    old(self).spec_threads() as int,
                    strategies@.len() as int,
                )
                &&& final(self).spec_stage() == RunStage::Searching
                &&& final(self).spec_best_size() == size
                &&& final(self).best_path() == old(self).best_path()
            })),
            // results are folded in as they arrive; the first that meets the target wins
            event matches RunEvent::Received(res) ==> (old(self).spec_stage() == RunStage::Searching
                ==> (if res.outcome == Outcome::Success && res.file is Some && res.size <= old(
                self,
            ).spec_target() {
                &&& r.action matches RunAction::Deliver { winner, fallback, size, reached }
                    && winner@ == res.file->0@ && fallback@ == old(self).fallback_path() && size
                    == res.size && reached
                &&& files_in(r.discard@) == old(self).disposal_paths().insert(old(self).best_path())
                &&& final(self).spec_stage() == RunStage::Delivering
                &&& final(self).spec_workers_running()
            } else if res.outcome == Outcome::Success && res.file is Some && res.size < old(
                self,
            ).spec_best_size() {
                &&& r.action is Receive
                &&& r.discard@.len() == 0
                &&& final(self).spec_stage() == RunStage::Searching
                &&& final(self).best_path() == res.file->0@
                &&& final(self).spec_best_size() == res.size
                &&& final(self).disposal_paths() == old(self).disposal_paths().insert(
                    old(self).best_path(),
                )
            } else {
                &&& r.action is Receive
                &&& r.discard@.len() == 0
                &&& final(self).spec_stage() == RunStage::Searching
                &&& final(self).best_path() == old(self).best_path()
                &&& final(self).spec_best_size() == old(self).spec_best_size()
                &&& final(self).disposal_paths() == old(self).disposal_paths().add(
                    files_of(res.file),
                )
            })),
            // a successful result short of the target is folded in as a candidate
            // best size, exactly as the shared state folds submissions
            event matches RunEvent::Received(res) ==> (old(self).spec_stage() == RunStage::Searching
                ==> (res.outcome == Outcome::Success && res.file is Some && res.size > old(
                self,
            ).spec_target() ==> final(self).spec_best_size() == stored_after(
                old(self).spec_best_size(),
                seq![res.size],
            ))),
            // when every worker has reported, the smallest file seen is delivered
            event is Closed ==> (old(self).spec_stage() == RunStage::Searching ==> {
                &&& r.action matches RunAction::Deliver { winner, fallback, size, reached }
                    && winner@ == old(self).best_path() && fallback@ == old(self).fallback_path()
                    && size == old(self).spec_best_size() && !reached
                &&& files_in(r.discard@) == old(self).disposal_paths()
                &&& final(self).spec_stage() == RunStage::Delivering
                &&& !final(self).spec_workers_running()
            }),
            event is Delivered ==> (old(self).spec_stage() == RunStage::Delivering ==> (if old(
                self,
            ).spec_workers_running() {
                r.action is Receive && final(self).spec_stage() == RunStage::Draining
            } else {
                r.action is Done
            })),
            // results that arrive after the winner are only cleaned up
            event matches RunEvent::Received(res) ==> (old(self).spec_stage() == RunStage::Draining
                ==> {
                &&& r.action is Receive
                &&& files_in(r.discard@) == files_of(res.file)
                &&& final(self).spec_stage() == RunStage::Draining
            }),
            event is Closed ==> (old(self).spec_stage() == RunStage::Draining ==> r.action is Done),
            !old(self).expects(event) ==> r.action matches RunAction::Fail(GifError::Other(_)),
    {
        match event {
            RunEvent::Begin => {
                if self.stage != RunStage::Start {
                    return self.unexpected(None);
                }
                self.stage = RunStage::Measuring;
                RunStep { discard: Vec::new(), action: RunAction::MeasureInput }
            },
            RunEvent::InputSize(size) => {
                if self.stage != RunStage::Measuring {
                    return self.unexpected(None);
                }
                if size <= self.target {
                    self.end(None, RunAction::CopyInput)
                } else {
                    self.stage = RunStage::Probing;
                    RunStep { discard: Vec::new(), action: RunAction::ProbeCompressor }
                }
            },
            RunEvent::FrameCount(count) => {
                if self.stage != RunStage::Counting {
                    return self.unexpected(None);
                }
                match count {
                    Err(e) => self.end(None, RunAction::Fail(e)),
                    Ok(n) => {
                        if n == 0 {
                            self.end(None, RunAction::Fail(GifError::NoFrames))
                        } else {
                            self.frame_count = n;
                            self.stage = RunStage::AwaitBaselineFile;
                            RunStep { discard: Vec::new(), action: RunAction::CreateFile }
                        }
                    },
                }
            },
            RunEvent::Probe(present) => {
                if self.stage != RunStage::Probing {
                    return self.unexpected(None);
                }
                if present {
                    self.stage = RunStage::Counting;
                    RunStep { discard: Vec::new(), action: RunAction::CountFrames }
                } else {
                    self.end(None, RunAction::Fail(GifError::GifsicleNotFound))
                }
            },
            RunEvent::Created(created) => {
                if self.stage != RunStage::AwaitBaselineFile {
                    return match created {
                        Ok(f) => self.unexpected(Some(f)),
                        Err(_) => self.unexpected(None),
                    };
                }
                match created {
                    Err(e) => self.end(None, RunAction::Fail(e)),
                    Ok(f) => {
                        let output = f.path_str();
                        self.fallback = f.path_str();
                        self.best = Some(f);
                        self.stage = RunStage::Baseline;
                        RunStep { discard: Vec::new(), action: RunAction::RunBaseline { output } }
                    },
                }
            },
            RunEvent::BaselineDone(done) => {
                if self.stage != RunStage::Baseline {
                    return self.unexpected(None);
                }
                match done {
                    Err(e) => self.end(None, RunAction::Fail(e)),
                    Ok(size) => {
                        self.best_size = size;
                        if size <= self.target {
                            self.workers_running = false;
                            self.deliver()
                        } else {
                            let strategies = match generate_strategies(
                                self.frame_count,
                                self.min_frame_percent,
                            ) {
                                Ok(v) => v,
                                Err(_) => Vec::new(),
                            };
                            let threads = if self.threads < strategies.len() {
                                self.threads
                            } else {
                                strategies.len()
                            };
                            self.stage = RunStage::Searching;
                            self.workers_running = true;
                            RunStep { discard: Vec::new(), action: RunAction::Spawn { strategies, threads } }
                        }
                    },
                }
            },
            RunEvent::Received(res) => {
                if self.stage == RunStage::Searching {
                    let size = res.size;
                    proof { lemma_stored_after_one(self.best_size, size); }
                    let success = res.outcome == Outcome::Success;
                    match res.file {
                        Some(f) => {
                            if success && size <= self.target {
                                if let Some(b) = self.best.take() {
                                    self.set_aside(b);
                                }
                                self.best = Some(f);
                                self.best_size = size;
                                self.deliver()
                            } else if success && size < self.best_size {
                                if let Some(b) = self.best.take() {
                                    self.set_aside(b);
                                }
                                self.best = Some(f);
                                self.best_size = size;
                                RunStep { discard: Vec::new(), action: RunAction::Receive }
                            } else {
                                self.set_aside(f);
                                RunStep { discard: Vec::new(), action: RunAction::Receive }
                            }
                        },
                        None => RunStep { discard: Vec::new(), action: RunAction::Receive },
                    }
                } else if self.stage == RunStage::Draining {
                    let mut discard: Vec<TempFile> = Vec::new();
                    if let Some(f) = res.file {
                        proof { lemma_files_in_push(discard@, f); }
                        discard.push(f);
                    }
                    RunStep { discard, action: RunAction::Receive }
                } else {
                    self.unexpected(res.file)
                }
            },
            RunEvent::Closed => {
                if self.stage == RunStage::Searching {
                    self.workers_running = false;
                    self.deliver()
                } else if self.stage == RunStage::Draining {
                    self.end(None, RunAction::Done)
                } else {
                    self.unexpected(None)
                }
            },
            RunEvent::Delivered => {
                if self.stage != RunStage::Delivering {
                    return self.unexpected(None);
                }
                if self.workers_running {
                    self.stage = RunStage::Draining;
                    RunStep { discard: Vec::new(), action: RunAction::Receive }
                } else {
                    self.end(None, RunAction::Done)
                }
            },
        }
    }

    /// Ends the run on an event its stage does not expect.
    fn unexpected(&mut self, incoming: Option<TempFile>) -> (r: RunStep)
        ensures
            final(self).wf(),
            final(self).stage == RunStage::Done,
            final(self).target == old(self).target,
            final(self).min_frame_percent == old(self).min_frame_percent,
            final(self).threads == old(self).threads,
            final(self).frame_count == old(self).frame_count,
            final(self).fallback == old(self).fallback,
            old(self).held().add(files_of(incoming)) == final(self).held().add(run_outgoing(r)),
            r.action matches RunAction::Fail(GifError::Other(_)),
    {
        let message = String::from_str("unexpected event");
        self.end(incoming, RunAction::Fail(GifError::Other(message)))
    }

    /// Sets a file aside, to be deleted at the end.
    fn set_aside(&mut self, f: TempFile)
        ensures
            final(self).disposal_paths() == old(self).disposal_paths().insert(f@),
            final(self).disposal@.len() > 0,
            final(self).best == old(self).best,
            final(self).stage == old(self).stage,
            final(self).target == old(self).target,
            final(self).best_size == old(self).best_size,
            final(self).frame_count == old(self).frame_count,
            final(self).fallback == old(self).fallback,
            final(self).workers_running == old(self).workers_running,
            final(self).min_frame_percent == old(self).min_frame_percent,
            final(self).threads == old(self).threads,
    {
        proof { lemma_files_in_push(self.disposal@, f); }
        self.disposal.push(f);
    }
}

} // verus!
