use vstd::prelude::*;

verus! {

/// Where the recorder stands in its lifecycle.
#[derive(Clone, Copy, Debug, PartialEq, Eq, Structural)]
pub enum Phase {
    /// No session exists; a start request is accepted.
    Idle,
    /// A capture session is running and writing samples.
    Recording,
    /// Stop was requested; the capture thread is tearing the session down.
    Stopping,
}

/// Why a recording could not be started or did not complete.
#[derive(Clone, Copy, Debug, PartialEq, Eq, Structural)]
pub enum RecordError {
    /// The host has no default input device.
    NoInputDevice,
    /// The input device has no usable default configuration, or its stream could not be built.
    DeviceConfigError,
    /// The output file could not be created or written.
    IoError,
    /// A session is already active.
    AlreadyRecording,
}

/// The abstract state of a recorder: its phase, the output path of the
/// current (or last) session, and whether the last session failed.
pub struct RecorderModel {
    pub phase: Phase,
    pub path: Option<Seq<char>>,
    pub failed: bool,
}

/// The state after a start request: accepted only from `Idle`.
pub open spec fn start_model(m: RecorderModel, path: Seq<char>) -> RecorderModel {
    if m.phase == Phase::Idle {
        RecorderModel { phase: Phase::Recording, path: Some(path), failed: false }
    } else {
        m
    }
}

/// What a start request answers.
pub open spec fn start_result(m: RecorderModel, path: Seq<char>) -> Result<Seq<char>, RecordError> {
    if m.phase == Phase::Idle {
        Ok(path)
    } else {
        Err(RecordError::AlreadyRecording)
    }
}

/// The state after a stop request: only a running session moves, to `Stopping`.
pub open spec fn stop_model(m: RecorderModel) -> RecorderModel {
    if m.phase == Phase::Recording {
        RecorderModel { phase: Phase::Stopping, ..m }
    } else {
        m
    }
}

/// Whether a stop request must signal the capture thread.
pub open spec fn stop_signals(m: RecorderModel) -> bool {
    m.phase == Phase::Recording
}

/// The state after the capture thread reported that it ended.
/// A session that ends before it was asked to stop, or with an error, has failed.
pub open spec fn finish_model(m: RecorderModel, outcome: Result<(), RecordError>) -> RecorderModel {
    if m.phase == Phase::Idle {
        m
    } else {
        RecorderModel {
            phase: Phase::Idle,
            failed: outcome is Err || m.phase == Phase::Recording,
            ..m
        }
    }
}

/// The control surface shared by the command layer and the capture thread:
/// it decides which requests are accepted and which actions they call for.
pub struct Recorder {
    phase: Phase,
    path: Option<String>,
    failed: bool,
}

impl View for Recorder {
    type V = RecorderModel;

    closed spec fn view(&self) -> RecorderModel {
        RecorderModel {
            phase: self.phase,
            path: match self.path {
                Some(p) => Some(p@),
                None => None,
            },
            failed: self.failed,
        }
    }
}

impl Recorder {
    /// A recorder with no session.
    pub fn new() -> (r: Recorder)
        ensures
            r@ == (RecorderModel { phase: Phase::Idle, path: None, failed: false }),
    {
        Recorder { phase: Phase::Idle, path: None, failed: false }
    }

    pub fn phase(&self) -> (r: Phase)
        ensures
            r == self@.phase,
    {
        self.phase
    }

    /// Whether a session is running or tearing down.
    pub fn is_active(&self) -> (r: bool)
        ensures
            r == (self@.phase != Phase::Idle),
    {
        self.phase != Phase::Idle
    }

    /// Whether the last session ended in failure, so that its file may be incomplete.
    pub fn last_failed(&self) -> (r: bool)
        ensures
            r == self@.failed,
    {
        self.failed
    }

    /// The output path of the current or last session.
    pub fn output_path(&self) -> (r: Option<String>)
        ensures
            r matches Some(p) ==> self@.path == Some(p@),
            r is None ==> self@.path is None,
    {
        match &self.path {
            Some(p) => Some(p.clone()),
            None => None,
        }
    }

    /// Accepts a start request for a session writing to `path`, or rejects it
    /// with `AlreadyRecording` while a session is running or tearing down.
    /// On `Ok` the caller spawns the capture thread; on `Err` nothing is spawned.
    pub fn start_recording(&mut self, path: String) -> (r: Result<String, RecordError>)
        ensures
            final(self)@ == start_model(old(self)@, path@),
            r matches Ok(p) ==> start_result(old(self)@, path@) == Ok::<Seq<char>, RecordError>(p@),
            r matches Err(e) ==> start_result(old(self)@, path@) == Err::<Seq<char>, RecordError>(e),
    {
        if self.phase != Phase::Idle {
            return Err(RecordError::AlreadyRecording);
        }
        let out = path.clone();
        self.phase = Phase::Recording;
        self.path = Some(path);
        self.failed = false;
        Ok(out)
    }

    /// Handles a stop request. Returns whether the capture thread must be signalled;
    /// a request when no session is running changes nothing.
    pub fn stop_recording(&mut self) -> (signal: bool)
        ensures
            final(self)@ == stop_model(old(self)@),
            signal == stop_signals(old(self)@),
    {
        if self.phase == Phase::Recording {
            self.phase = Phase::Stopping;
            true
        } else {
            false
        }
    }

    /// Records that the capture thread has ended, after finalising its file or
    /// after failing with an error.
    pub fn capture_ended(&mut self, outcome: Result<(), RecordError>)
        ensures
            final(self)@ == finish_model(old(self)@, outcome),
    {
        if self.phase != Phase::Idle {
            let early = self.phase == Phase::Recording;
            self.failed = outcome.is_err() || early;
            self.phase = Phase::Idle;
        }
    }
}

/// A second stop request right after a first changes nothing and signals nothing.
pub proof fn lemma_stop_idempotent(m: RecorderModel)
    ensures
        stop_model(stop_model(m)) == stop_model(m),
        !stop_signals(stop_model(m)),
{
}

/// A start request while a session is running or tearing down is rejected with
/// `AlreadyRecording`, leaves the state as it was, and so starts no second session.
pub proof fn lemma_start_rejected_while_active(m: RecorderModel, path: Seq<char>)
    requires
        m.phase != Phase::Idle,
    ensures
        start_result(m, path) == Err::<Seq<char>, RecordError>(RecordError::AlreadyRecording),
        start_model(m, path) == m,
{
}

/// A start followed at once by a stop leaves one session in `Stopping`, writing to
/// the path the start returned; once its thread ends cleanly the recorder is idle
/// and the session is not marked failed.
pub proof fn lemma_start_stop_completes(m: RecorderModel, path: Seq<char>)
    requires
        m.phase == Phase::Idle,
    ensures
        start_result(m, path) == Ok::<Seq<char>, RecordError>(path),
        stop_signals(start_model(m, path)),
        stop_model(start_model(m, path)).phase == Phase::Stopping,
        stop_model(start_model(m, path)).path == Some(path),
        finish_model(stop_model(start_model(m, path)), Ok(())) == (RecorderModel {
            phase: Phase::Idle,
            path: Some(path),
            failed: false,
        }),
{
}

} // verus!
