use vstd::prelude::*;

verus! {

/// Which of the two snapshots of a job is meant.
#[derive(Clone, Copy, Debug, PartialEq, Eq, Structural)]
pub enum SnapshotStage {
    /// The samples as captured.
    Pre,
    /// The samples after conditioning.
    Post,
}

/// What the worker announces once a job is done: the snapshots that were
/// written. A snapshot whose write failed is absent.
#[derive(Debug)]
pub struct Completion {
    pub pre_path: Option<String>,
    pub post_path: Option<String>,
}

/// Where the worker stands in its loop. Jobs are taken one at a time.
#[derive(Debug)]
pub enum WorkerPhase {
    /// Waiting for the next job.
    Idle,
    /// The raw snapshot of a job is being written.
    WritingPre { pre_path: String, post_path: String },
    /// The conditioner runs on the job's samples.
    Conditioning { pre_written: Option<String>, post_path: String },
    /// The conditioned snapshot is being written.
    WritingPost { pre_written: Option<String>, post_path: String },
    /// The queue was closed: the loop is over.
    Finished,
}

/// What the worker's surroundings report back.
#[derive(Debug)]
pub enum WorkerEvent {
    /// A job was taken from the queue and given these two snapshot paths.
    JobReady { pre_path: String, post_path: String },
    /// The snapshot requested last was written, or its write failed.
    SnapshotWritten { ok: bool },
    /// The conditioner has finished with the job's samples.
    Conditioned,
    /// The queue will deliver no more jobs.
    QueueClosed,
}

/// What the worker asks its surroundings to do next.
#[derive(Debug)]
pub enum WorkerAction {
    AwaitJob,
    WriteSnapshot { path: String, stage: SnapshotStage },
    RunConditioner,
    Emit { completion: Completion },
    Exit,
}

/// The action a phase is waiting to see done.
pub open spec fn pending_action(phase: WorkerPhase) -> WorkerAction {
    match phase {
        WorkerPhase::Idle => WorkerAction::AwaitJob,
        WorkerPhase::WritingPre { pre_path, .. } => WorkerAction::WriteSnapshot {
            path: pre_path,
            stage: SnapshotStage::Pre,
        },
        WorkerPhase::Conditioning { .. } => WorkerAction::RunConditioner,
        WorkerPhase::WritingPost { post_path, .. } => WorkerAction::WriteSnapshot {
            path: post_path,
            stage: SnapshotStage::Post,
        },
        WorkerPhase::Finished => WorkerAction::Exit,
    }
}

/// `Some(path)` when the write succeeded, else nothing.
pub open spec fn kept_if(ok: bool, path: String) -> Option<String> {
    if ok {
        Some(path)
    } else {
        None
    }
}

/// The worker's transition. An event that does not fit the phase changes
/// nothing and the pending action is asked for again; in particular a closed
/// queue does not cut a job short.
pub open spec fn next_step(phase: WorkerPhase, event: WorkerEvent) -> (WorkerPhase, WorkerAction) {
    match (phase, event) {
        (WorkerPhase::Idle, WorkerEvent::JobReady { pre_path, post_path }) => (
            WorkerPhase::WritingPre { pre_path, post_path },
            WorkerAction::WriteSnapshot { path: pre_path, stage: SnapshotStage::Pre },
        ),
        (WorkerPhase::Idle, WorkerEvent::QueueClosed) => (WorkerPhase::Finished, WorkerAction::Exit),
        (WorkerPhase::WritingPre { pre_path, post_path }, WorkerEvent::SnapshotWritten { ok }) => (
            WorkerPhase::Conditioning { pre_written: kept_if(ok, pre_path), post_path },
            WorkerAction::RunConditioner,
        ),
        (WorkerPhase::Conditioning { pre_written, post_path }, WorkerEvent::Conditioned) => (
            WorkerPhase::WritingPost { pre_written, post_path },
            WorkerAction::WriteSnapshot { path: post_path, stage: SnapshotStage::Post },
        ),
        (WorkerPhase::WritingPost { pre_written, post_path }, WorkerEvent::SnapshotWritten { ok }) => (
            WorkerPhase::Idle,
            WorkerAction::Emit {
                completion: Completion { pre_path: pre_written, post_path: kept_if(ok, post_path) },
            },
        ),
        (p, _) => (p, pending_action(p)),
    }
}

fn keep_if(ok: bool, path: String) -> (r: Option<String>)
    ensures
        r == kept_if(ok, path),
{
    if ok {
        Some(path)
    } else {
        None
    }
}

impl WorkerPhase {
    /// The phase of a worker that has not yet seen a job.
    pub fn new() -> (r: WorkerPhase)
        ensures
            r == WorkerPhase::Idle,
    {
        WorkerPhase::Idle
    }

    /// The action this phase waits on.
    pub fn pending(&self) -> (r: WorkerAction)
        ensures
            r == pending_action(*self),
    {
        match self {
            WorkerPhase::Idle => WorkerAction::AwaitJob,
            WorkerPhase::WritingPre { pre_path, .. } => WorkerAction::WriteSnapshot {
                path: pre_path.clone(),
                stage: SnapshotStage::Pre,
            },
            WorkerPhase::Conditioning { .. } => WorkerAction::RunConditioner,
            WorkerPhase::WritingPost { post_path, .. } => WorkerAction::WriteSnapshot {
                path: post_path.clone(),
                stage: SnapshotStage::Post,
            },
            WorkerPhase::Finished => WorkerAction::Exit,
        }
    }

    /// Takes one event and says what to do next.
    pub fn step(self, event: WorkerEvent) -> (r: (WorkerPhase, WorkerAction))
        ensures
            r == next_step(self, event),
    {
        match self {
            WorkerPhase::Idle => match event {
                WorkerEvent::JobReady { pre_path, post_path } => {
                    let path = pre_path.clone();
                    (
                        WorkerPhase::WritingPre { pre_path, post_path },
                        WorkerAction::WriteSnapshot { path, stage: SnapshotStage::Pre },
                    )
                },
                WorkerEvent::QueueClosed => (WorkerPhase::Finished, WorkerAction::Exit),
                _ => (WorkerPhase::Idle, WorkerAction::AwaitJob),
            },
            WorkerPhase::WritingPre { pre_path, post_path } => match event {
                WorkerEvent::SnapshotWritten { ok } => (
                    WorkerPhase::Conditioning { pre_written: keep_if(ok, pre_path), post_path },
                    WorkerAction::RunConditioner,
                ),
                _ => {
                    let path = pre_path.clone();
                    (
                        WorkerPhase::WritingPre { pre_path, post_path },
                        WorkerAction::WriteSnapshot { path, stage: SnapshotStage::Pre },
                    )
                },
            },
            WorkerPhase::Conditioning { pre_written, post_path } => match event {
                WorkerEvent::Conditioned => {
                    let path = post_path.clone();
                    (
                        WorkerPhase::WritingPost { pre_written, post_path },
                        WorkerAction::WriteSnapshot { path, stage: SnapshotStage::Post },
                    )
                },
                _ => (WorkerPhase::Conditioning { pre_written, post_path }, WorkerAction::RunConditioner),
            },
            WorkerPhase::WritingPost { pre_written, post_path } => match event {
                WorkerEvent::SnapshotWritten { ok } => (
                    WorkerPhase::Idle,
                    WorkerAction::Emit {
                        completion: Completion { pre_path: pre_written, post_path: keep_if(ok, post_path) },
                    },
                ),
                _ => {
                    let path = post_path.clone();
                    (
                        WorkerPhase::WritingPost { pre_written, post_path },
                        WorkerAction::WriteSnapshot { path, stage: SnapshotStage::Post },
                    )
                },
            },
            WorkerPhase::Finished => (WorkerPhase::Finished, WorkerAction::Exit),
        }
    }
}

/// A job taken while idle runs to its end whatever the writes report: the raw
/// snapshot is written, the conditioner runs, the conditioned snapshot is
/// written, and exactly one completion is emitted, naming the snapshots whose
/// write succeeded; the worker is then idle again.
pub proof fn lemma_job_runs_to_completion(
    pre_path: String,
    post_path: String,
    pre_ok: bool,
    post_ok: bool,
)
    ensures
        ({
            let (w1, a1) = next_step(WorkerPhase::Idle, WorkerEvent::JobReady { pre_path, post_path });
            let (w2, a2) = next_step(w1, WorkerEvent::SnapshotWritten { ok: pre_ok });
            let (w3, a3) = next_step(w2, WorkerEvent::Conditioned);
            let (w4, a4) = next_step(w3, WorkerEvent::SnapshotWritten { ok: post_ok });
            &&& a1 == WorkerAction::WriteSnapshot { path: pre_path, stage: SnapshotStage::Pre }
            &&& a2 == WorkerAction::RunConditioner
            &&& a3 == WorkerAction::WriteSnapshot { path: post_path, stage: SnapshotStage::Post }
            &&& a4 == WorkerAction::Emit {
                completion: Completion {
                    pre_path: kept_if(pre_ok, pre_path),
                    post_path: kept_if(post_ok, post_path),
                },
            }
            &&& w4 == WorkerPhase::Idle
        }),
{
}

/// A closed queue ends an idle worker, and a finished worker stays finished.
pub proof fn lemma_closed_queue_ends_loop(event: WorkerEvent)
    ensures
        next_step(WorkerPhase::Idle, WorkerEvent::QueueClosed) == (WorkerPhase::Finished, WorkerAction::Exit),
        next_step(WorkerPhase::Finished, event) == (WorkerPhase::Finished, WorkerAction::Exit),
{
}

} // verus!
