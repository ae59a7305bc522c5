use vstd::prelude::*;

use crate::error::Error;

verus! {

/// Where a streaming download stands.
#[derive(Debug, Clone, Copy, PartialEq, Eq)]
pub enum DownloadPhase {
    /// Opening the destination for writing.
    Creating,
    /// Sending the request.
    Requesting,
    /// Waiting for the next chunk of the body.
    Reading,
    /// Writing the chunk just read.
    Writing,
    /// Flushing what is buffered to the file.
    Flushing,
    Done,
    Failed,
    /// The interrupt fired; the file keeps what was written.
    Cancelled,
}

/// What the session asks its driver to do next.
#[derive(Debug, Clone, Copy, PartialEq, Eq)]
pub enum DownloadAction {
    CreateFile,
    SendRequest,
    ReadChunk,
    WriteChunk,
    Flush,
    /// Nothing more: the session has ended.
    Stop,
}

/// What the driver reports back.
#[derive(Debug)]
pub enum DownloadEvent {
    FileCreated,
    Responded,
    /// A chunk of this many bytes was read.
    Chunk(u64),
    EndOfBody,
    /// The chunk read last is written.
    Written,
    Flushed,
    /// The file or the transport failed.
    Failed(Error),
    Interrupted,
}

pub open spec fn is_terminal(p: DownloadPhase) -> bool {
    p == DownloadPhase::Done || p == DownloadPhase::Failed || p == DownloadPhase::Cancelled
}

/// The action that a phase waits on.
pub open spec fn action_of(p: DownloadPhase) -> DownloadAction {
    match p {
        DownloadPhase::Creating => DownloadAction::CreateFile,
        DownloadPhase::Requesting => DownloadAction::SendRequest,
        DownloadPhase::Reading => DownloadAction::ReadChunk,
        DownloadPhase::Writing => DownloadAction::WriteChunk,
        DownloadPhase::Flushing => DownloadAction::Flush,
        _ => DownloadAction::Stop,
    }
}

pub ghost struct SessionView {
    pub phase: DownloadPhase,
    /// Bytes of the body written to the file so far (held at the largest
    /// `u64` rather than wrapping).
    pub written: u64,
    /// Bytes of the chunk being written.
    pub pending: u64,
    /// The outcome, once the session has ended.
    pub outcome: Option<Result<(), Error>>,
}

pub open spec fn ended(v: SessionView, phase: DownloadPhase, outcome: Result<(), Error>) -> SessionView {
    SessionView { phase, outcome: Some(outcome), ..v }
}

/// The session after an event. Failures and the interrupt end any session
/// that has not ended; an ended session ignores every event; an event that
/// does not fit the phase changes nothing.
pub open spec fn next(v: SessionView, ev: DownloadEvent) -> SessionView {
    if is_terminal(v.phase) {
        v
    } else {
        match ev {
            DownloadEvent::Interrupted => ended(v, DownloadPhase::Cancelled, Err(Error::Cancelled)),
            DownloadEvent::Failed(e) => ended(v, DownloadPhase::Failed, Err(e)),
            DownloadEvent::FileCreated => if v.phase == DownloadPhase::Creating {
                SessionView { phase: DownloadPhase::Requesting, ..v }
            } else {
                v
            },
            DownloadEvent::Responded => if v.phase == DownloadPhase::Requesting {
                SessionView { phase: DownloadPhase::Reading, ..v }
            } else {
                v
            },
            DownloadEvent::Chunk(n) => if v.phase == DownloadPhase::Reading {
                SessionView { phase: DownloadPhase::Writing, pending: n, ..v }
            } else {
                v
            },
            DownloadEvent::Written => if v.phase == DownloadPhase::Writing {
                SessionView {
                    phase: DownloadPhase::Reading,
                    written: if v.written + v.pending <= u64::MAX {
                        (v.written + v.pending) as u64
                    } else {
                        u64::MAX
                    },
                    pending: 0,
                    ..v
                }
            } else {
                v
            },
            DownloadEvent::EndOfBody => if v.phase == DownloadPhase::Reading {
                SessionView { phase: DownloadPhase::Flushing, ..v }
            } else {
                v
            },
            DownloadEvent::Flushed => if v.phase == DownloadPhase::Flushing {
                ended(v, DownloadPhase::Done, Ok(()))
            } else {
                v
            },
        }
    }
}

/// One download streamed to disk chunk by chunk: the decisions, with the
/// file and network work left to a driver that reports each step back.
#[derive(Debug)]
pub struct DownloadSession {
    phase: DownloadPhase,
    written: u64,
    pending: u64,
    outcome: Option<Result<(), Error>>,
}

impl DownloadSession {
    pub closed spec fn view(&self) -> SessionView {
        SessionView {
            phase: self.phase,
            written: self.written,
            pending: self.pending,
            outcome: self.outcome,
        }
    }

    /// A session that has done nothing yet; its first action is to create
    /// the destination file.
    pub fn new() -> (r: Self)
        ensures
            r.view() == (SessionView {
                phase: DownloadPhase::Creating,
                written: 0,
                pending: 0,
                outcome: None,
            }),
    {
        DownloadSession { phase: DownloadPhase::Creating, written: 0, pending: 0, outcome: None }
    }

    pub fn phase(&self) -> (r: DownloadPhase)
        ensures
            r == self.view().phase,
    {
        self.phase
    }

    /// Bytes written to the file so far.
    pub fn written(&self) -> (r: u64)
        ensures
            r == self.view().written,
    {
        self.written
    }

    /// The action the session waits on.
    pub fn action(&self) -> (r: DownloadAction)
        ensures
            r == action_of(self.view().phase),
    {
        match self.phase {
            DownloadPhase::Creating => DownloadAction::CreateFile,
            DownloadPhase::Requesting => DownloadAction::SendRequest,
            DownloadPhase::Reading => DownloadAction::ReadChunk,
            DownloadPhase::Writing => DownloadAction::WriteChunk,
            DownloadPhase::Flushing => DownloadAction::Flush,
            _ => DownloadAction::Stop,
        }
    }

    /// The outcome of an ended session: success, the failure, or a
    /// cancellation error.
    pub fn outcome(&self) -> (r: Option<Result<(), Error>>)
        ensures
            r == self.view().outcome,
    {
        match &self.outcome {
            None => None,
            Some(o) => {
                let c: Result<(), Error> = match o {
                    Ok(u) => Ok(*u),
                    Err(e) => Err(copy_error(e)),
                };
                assert(c == *o);
                Some(c)
            },
        }
    }

    fn finish(&mut self, phase: DownloadPhase, outcome: Result<(), Error>)
        ensures
            final(self).view() == ended(old(self).view(), phase, outcome),
    {
        self.phase = phase;
        self.outcome = Some(outcome);
    }

    /// Takes the driver's report and returns the next action.
    pub fn step(&mut self, ev: DownloadEvent) -> (r: DownloadAction)
        ensures
            final(self).view() == next(old(self).view(), ev),
            r == action_of(final(self).view().phase),
    {
        match self.phase {
            DownloadPhase::Done | DownloadPhase::Failed | DownloadPhase::Cancelled => {
                return DownloadAction::Stop;
            },
            _ => {},
        }
        match ev {
            DownloadEvent::Interrupted => self.finish(DownloadPhase::Cancelled, Err(Error::Cancelled)),
            DownloadEvent::Failed(e) => self.finish(DownloadPhase::Failed, Err(e)),
            DownloadEvent::FileCreated => {
                if let DownloadPhase::Creating = self.phase {
                    self.phase = DownloadPhase::Requesting;
                }
            },
            DownloadEvent::Responded => {
                if let DownloadPhase::Requesting = self.phase {
                    self.phase = DownloadPhase::Reading;
                }
            },
            DownloadEvent::Chunk(n) => {
                if let DownloadPhase::Reading = self.phase {
                    self.phase = DownloadPhase::Writing;
                    self.pending = n;
                }
            },
            DownloadEvent::Written => {
                if let DownloadPhase::Writing = self.phase {
                    self.written = self.written.saturating_add(self.pending);
                    self.pending = 0;
                    self.phase = DownloadPhase::Reading;
                }
            },
            DownloadEvent::EndOfBody => {
                if let DownloadPhase::Reading = self.phase {
                    self.phase = DownloadPhase::Flushing;
                }
            },
            DownloadEvent::Flushed => {
                if let DownloadPhase::Flushing = self.phase {
                    self.finish(DownloadPhase::Done, Ok(()));
                }
            },
        }
        self.action()
    }
}

fn copy_error(e: &Error) -> (r: Error)
    ensures
        r == *e,
{
    match e {
        Error::Io(m) => Error::Io(m.clone()),
        Error::Transport(m) => Error::Transport(m.clone()),
        Error::Validation(m) => Error::Validation(m.clone()),
        Error::Callback(m) => Error::Callback(m.clone()),
        Error::Cancelled => Error::Cancelled,
    }
}

/// An interrupted download is not rolled back: whatever its phase, even in
/// the middle of the stream, the interrupt ends it with a cancellation
/// error, keeps the count of bytes already in the file, and asks for no
/// further action, so the partial file is neither removed nor completed.
pub proof fn lemma_interrupt_leaves_partial_file(v: SessionView)
    requires
        !is_terminal(v.phase),
    ensures
        next(v, DownloadEvent::Interrupted).phase == DownloadPhase::Cancelled,
        next(v, DownloadEvent::Interrupted).outcome == Some(Err::<(), Error>(Error::Cancelled)),
        next(v, DownloadEvent::Interrupted).written == v.written,
        action_of(next(v, DownloadEvent::Interrupted).phase) == DownloadAction::Stop,
        forall|ev: DownloadEvent| #[trigger] next(next(v, DownloadEvent::Interrupted), ev) == next(v, DownloadEvent::Interrupted),
{
}

} // verus!
