//! Shrinks an animated GIF below a byte budget by searching frame strides,
//! frame delays and lossy strengths, keeping the smallest result found.
//!
//! The decisions of the search (which strategies to try, what each worker does
//! next, which artifact wins, which artifacts are discarded) are verified state
//! machines; the caller performs the file and process work they ask for.

pub mod artifact;
pub mod compressor;
pub mod error;
pub mod frames;
pub mod run;
pub mod shared;
pub mod strategy;
pub mod worker;

pub use artifact::TempFile;
pub use compressor::{
    baseline_args, decimal_string, lossy_args, merge_args, optimize_args, probe_args,
};
pub use error::GifError;
pub use frames::{extract_frames, get_frame_count, select_frame_indices};
pub use run::{choose_output, OutputSource, Run, RunAction, RunEvent, RunStage, RunStep};
pub use shared::{improves, resolve_threads, SharedState};
pub use strategy::{generate_strategies, Strategy};
pub use worker::{
    FailReason, Outcome, Stage, StrategyResult, Worker, WorkerAction, WorkerEvent, WorkerStep,
    LOSSY_STEPS, MIN_EXTRACT_BYTES,
};
