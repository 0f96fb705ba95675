use vstd::prelude::*;
use crate::recorder::RecordError;

verus! {

/// How far the capture thread has taken its session.
#[derive(Clone, Copy, Debug, PartialEq, Eq, Structural)]
pub enum Stage {
    /// The input stream runs and its callback appends samples to the writer.
    Streaming,
    /// The input stream has been stopped; the writer is not finalised yet.
    StreamStopped,
    /// The writer has been finalised; the thread may exit.
    Finalized,
}

/// What the capture thread must do next.
#[derive(Clone, Copy, Debug, PartialEq, Eq, Structural)]
pub enum CaptureAction {
    /// Sleep one polling interval, then poll again.
    Wait,
    /// Stop (drop) the input stream.
    StopStream,
    /// Take the writer and finalise the container.
    Finalize,
    /// Leave the thread; nothing is left to release.
    Exit,
}

pub struct CaptureModel {
    pub stage: Stage,
    /// Samples the writer accepted, saturating at `u64::MAX`.
    pub written: nat,
    /// Whether a write into the container failed.
    pub failed: bool,
}

/// The next state and action when the capture thread polls the shared flag.
/// A failed write ends the session as a stop request does.
pub open spec fn poll_step(m: CaptureModel, keep_running: bool) -> (CaptureModel, CaptureAction) {
    match m.stage {
        Stage::Streaming => if keep_running && !m.failed {
            (m, CaptureAction::Wait)
        } else {
            (CaptureModel { stage: Stage::StreamStopped, ..m }, CaptureAction::StopStream)
        },
        Stage::StreamStopped => (CaptureModel { stage: Stage::Finalized, ..m }, CaptureAction::Finalize),
        Stage::Finalized => (m, CaptureAction::Exit),
    }
}

/// The bookkeeping of one capture session, owned by the capture thread and
/// shared with the stream callback under the writer's lock.
pub struct Capture {
    stage: Stage,
    written: u64,
    failed: bool,
}

impl View for Capture {
    type V = CaptureModel;

    closed spec fn view(&self) -> CaptureModel {
        CaptureModel { stage: self.stage, written: self.written as nat, failed: self.failed }
    }
}

impl Capture {
    /// A session whose stream has just started, with nothing written yet.
    pub fn new() -> (r: Capture)
        ensures
            r@ == (CaptureModel { stage: Stage::Streaming, written: 0, failed: false }),
    {
        Capture { stage: Stage::Streaming, written: 0, failed: false }
    }

    pub fn stage(&self) -> (r: Stage)
        ensures
            r == self@.stage,
    {
        self.stage
    }

    /// The number of samples the writer accepted.
    pub fn written(&self) -> (r: u64)
        ensures
            r as nat == self@.written,
    {
        self.written
    }

    /// Whether the stream callback may append a buffer: only while the stream
    /// runs and no write has failed, so never after the writer was finalised.
    pub fn accepts_samples(&self) -> (r: bool)
        ensures
            r == (self@.stage == Stage::Streaming && !self@.failed),
    {
        self.stage == Stage::Streaming && !self.failed
    }

    /// Records that the writer accepted `n` more samples.
    pub fn record_written(&mut self, n: usize)
        ensures
            final(self)@ == (CaptureModel {
                written: if old(self)@.written + n <= u64::MAX {
                    (old(self)@.written + n) as nat
                } else {
                    u64::MAX as nat
                },
                ..old(self)@
            }),
    {
        self.written = self.written.saturating_add(n as u64);
    }

    /// Records that a write into the container failed; the session then ends
    /// at the next poll and is reported as failed.
    pub fn record_write_error(&mut self)
        ensures
            final(self)@ == (CaptureModel { failed: true, ..old(self)@ }),
    {
        self.failed = true;
    }

    /// Decides the next action of the capture thread, given the shared
    /// "keep running" flag as it was just read.
    pub fn poll(&mut self, keep_running: bool) -> (r: CaptureAction)
        ensures
            (final(self)@, r) == poll_step(old(self)@, keep_running),
    {
        match self.stage {
            Stage::Streaming => {
                if keep_running && !self.failed {
                    CaptureAction::Wait
                } else {
                    self.stage = Stage::StreamStopped;
                    CaptureAction::StopStream
                }
            },
            Stage::StreamStopped => {
                self.stage = Stage::Finalized;
                CaptureAction::Finalize
            },
            Stage::Finalized => CaptureAction::Exit,
        }
    }

    /// How the session ended, for the recorder: an error if a write failed.
    pub fn outcome(&self) -> (r: Result<(), RecordError>)
        ensures
            r == (if self@.failed { Err(RecordError::IoError) } else { Ok::<(), RecordError>(()) }),
    {
        if self.failed {
            Err(RecordError::IoError)
        } else {
            Ok(())
        }
    }
}

/// Polling only asks to finalise a session whose stream was already stopped,
/// and after finalising it only ever asks to exit: the container is finalised
/// at most once, and never while the callback can still append.
pub proof fn lemma_finalize_after_stop_and_once(m: CaptureModel, keep_running: bool, again: bool)
    ensures
        poll_step(m, keep_running).1 == CaptureAction::Finalize ==> m.stage == Stage::StreamStopped,
        poll_step(m, keep_running).1 == CaptureAction::Finalize ==> poll_step(poll_step(m, keep_running).0, again).1 == CaptureAction::Exit,
        poll_step(m, keep_running).1 == CaptureAction::Finalize ==> poll_step(m, keep_running).0.stage != Stage::Streaming,
        m.stage == Stage::Finalized ==> poll_step(m, keep_running) == (m, CaptureAction::Exit),
{
}

/// Once the flag reads false, a session is finalised within two polls, keeping
/// the count of samples written, and ends without error unless a write failed.
pub proof fn lemma_stop_finalizes(m: CaptureModel, keep_running: bool)
    requires
        m.stage == Stage::Streaming,
    ensures
        poll_step(m, false).1 == CaptureAction::StopStream,
        poll_step(poll_step(m, false).0, keep_running).1 == CaptureAction::Finalize,
        poll_step(poll_step(m, false).0, keep_running).0 == (CaptureModel { stage: Stage::Finalized, ..m }),
{
}

/// A session stopped before any buffer arrived stops its stream, is then
/// finalised with no sample written, and ends without error.
pub proof fn lemma_empty_session(keep_running: bool)
    ensures
        ({
            let m0 = CaptureModel { stage: Stage::Streaming, written: 0, failed: false };
            let (m1, a1) = poll_step(m0, false);
            let (m2, a2) = poll_step(m1, keep_running);
            a1 == CaptureAction::StopStream && a2 == CaptureAction::Finalize && m2.written == 0
                && !m2.failed
        }),
{
}

} // verus!
