use vstd::prelude::*;

use crate::limiter::RateLimiter;

verus! {

/// Where one track's download stands.
#[derive(Debug, Clone, Copy, PartialEq, Eq, Structural)]
pub enum Stage {
    Resolving,
    Streaming,
    Buffering,
    Encoding,
    Writing,
    Tagging,
    /// Finished; `skipped` when the output file already existed.
    Done { skipped: bool },
    /// Ended by an error that concerns this track alone.
    Failed,
    /// Ended by an error that aborts the whole batch.
    Fatal,
}

/// What the work of the current stage came to.
#[derive(Debug, Clone, Copy, PartialEq, Eq, Structural)]
pub enum StageResult {
    Succeeded,
    Failed,
    /// Metadata was resolved and the output file is already on disk.
    /// Reported by a later stage it counts as success.
    DestinationExists,
}

impl Stage {
    pub open spec fn terminal(&self) -> bool {
        matches!(self, Stage::Done { .. } | Stage::Failed | Stage::Fatal)
    }

    pub fn is_terminal(&self) -> (r: bool)
        ensures
            r == self.terminal(),
    {
        matches!(self, Stage::Done { .. } | Stage::Failed | Stage::Fatal)
    }

    /// The stage in which the track's content has started to be fetched.
    pub open spec fn past_resolving(&self) -> bool {
        matches!(self, Stage::Streaming | Stage::Buffering | Stage::Encoding | Stage::Writing | Stage::Tagging)
    }
}

/// The stage that follows `stage` when its work came to `result`.
/// Fetching failures end the track softly; encoding, writing and tagging
/// failures are fatal; a terminal stage stays.
pub open spec fn stage_after(stage: Stage, result: StageResult, force: bool) -> Stage {
    let failed = result == StageResult::Failed;
    match stage {
        Stage::Resolving => if failed {
            Stage::Failed
        } else if result == StageResult::DestinationExists && !force {
            Stage::Done { skipped: true }
        } else {
            Stage::Streaming
        },
        Stage::Streaming => if failed {
            Stage::Failed
        } else {
            Stage::Buffering
        },
        Stage::Buffering => if failed {
            Stage::Failed
        } else {
            Stage::Encoding
        },
        Stage::Encoding => if failed {
            Stage::Fatal
        } else {
            Stage::Writing
        },
        Stage::Writing => if failed {
            Stage::Fatal
        } else {
            Stage::Tagging
        },
        Stage::Tagging => if failed {
            Stage::Fatal
        } else {
            Stage::Done { skipped: false }
        },
        _ => stage,
    }
}

/// The stages a pipeline passes through from `stage` as `results` come in,
/// `stage` first.
pub open spec fn stage_trace(stage: Stage, results: Seq<StageResult>, force: bool) -> Seq<Stage>
    decreases results.len(),
{
    if results.len() == 0 {
        seq![stage]
    } else {
        seq![stage] + stage_trace(stage_after(stage, results[0], force), results.drop_first(), force)
    }
}

/// The state machine of one track's download.
#[derive(Debug, Clone, Copy, PartialEq, Eq, Structural)]
pub struct JobPipeline {
    pub stage: Stage,
    /// Download even when the output file exists.
    pub force: bool,
}

impl JobPipeline {
    pub fn new(force: bool) -> (r: Self)
        ensures
            r.stage == Stage::Resolving,
            r.force == force,
    {
        JobPipeline { stage: Stage::Resolving, force }
    }

    /// Moves to the stage that follows the current one's `result`.
    pub fn advance(&mut self, result: StageResult) -> (r: Stage)
        ensures
            final(self).stage == stage_after(old(self).stage, result, old(self).force),
            final(self).force == old(self).force,
            r == final(self).stage,
    {
        let failed = match result {
            StageResult::Failed => true,
            _ => false,
        };
        let next = match self.stage {
            Stage::Resolving => if failed {
                Stage::Failed
            } else if matches!(result, StageResult::DestinationExists) && !self.force {
                Stage::Done { skipped: true }
            } else {
                Stage::Streaming
            },
            Stage::Streaming => if failed {
                Stage::Failed
            } else {
                Stage::Buffering
            },
            Stage::Buffering => if failed {
                Stage::Failed
            } else {
                Stage::Encoding
            },
            Stage::Encoding => if failed {
                Stage::Fatal
            } else {
                Stage::Writing
            },
            Stage::Writing => if failed {
                Stage::Fatal
            } else {
                Stage::Tagging
            },
            Stage::Tagging => if failed {
                Stage::Fatal
            } else {
                Stage::Done { skipped: false }
            },
            other => other,
        };
        self.stage = next;
        next
    }
}

/// What a finished track asks of its worker.
#[derive(Debug, Clone, Copy, PartialEq, Eq, Structural)]
pub enum JobFinish {
    /// Nothing more: the worker may take the next track.
    Completed,
    /// Sleep this long before taking the next track.
    Backoff { delay_ms: u64 },
    /// Abort the batch.
    Abort,
}

/// Reports a finished track to the shared limiter at `now`: a success resets
/// the backoff, a soft failure advances it and holds the worker for the
/// delay, a fatal error leaves it alone and aborts the batch.
pub fn finish_job(limiter: &mut RateLimiter, stage: Stage, now: u64) -> (r: JobFinish)
    requires
        stage.terminal(),
    ensures
        stage matches Stage::Done { .. } ==> *final(limiter) == old(limiter).after_success(now)
            && r == JobFinish::Completed,
        stage == Stage::Failed ==> *final(limiter) == old(limiter).after_failure(now) && r == (
        if old(limiter).failure_delay() == 0 {
            JobFinish::Completed
        } else {
            JobFinish::Backoff { delay_ms: old(limiter).failure_delay() }
        }),
        stage == Stage::Fatal ==> *final(limiter) == *old(limiter) && r == JobFinish::Abort,
{
    match stage {
        Stage::Done { .. } => {
            limiter.on_success(now);
            JobFinish::Completed
        },
        Stage::Failed => {
            let delay = limiter.on_failure(now);
            if delay == 0 {
                JobFinish::Completed
            } else {
                JobFinish::Backoff { delay_ms: delay }
            }
        },
        _ => JobFinish::Abort,
    }
}

/// A track whose output file exists is, unless forced, done and skipped at
/// once: whatever is reported afterwards, it never reaches the stage that
/// opens the stream, nor any later one.
pub proof fn lemma_skip_path(force: bool, results: Seq<StageResult>)
    requires
        !force,
    ensures
        stage_after(Stage::Resolving, StageResult::DestinationExists, force) == (Stage::Done {
            skipped: true,
        }),
        stage_trace(Stage::Done { skipped: true }, results, force).last() == (Stage::Done {
            skipped: true,
        }),
        forall|i: int|
            0 <= i < results.len() + 1 ==> !#[trigger] stage_trace(
                Stage::Done { skipped: true },
                results,
                force,
            )[i].past_resolving(),
{
    lemma_terminal_trace(Stage::Done { skipped: true }, results, force);
}

proof fn lemma_terminal_trace(stage: Stage, results: Seq<StageResult>, force: bool)
    requires
        stage.terminal(),
    ensures
        stage_trace(stage, results, force).len() == results.len() + 1,
        forall|i: int|
            0 <= i < results.len() + 1 ==> #[trigger] stage_trace(stage, results, force)[i]
                == stage,
    decreases results.len(),
{
    if results.len() > 0 {
        lemma_terminal_trace(stage, results.drop_first(), force);
    }
}

} // verus!
