//! The download run: the requested pipeline slots in the order given; the
//! first failure of any kind ends the run.
use vstd::prelude::*;

use crate::error::ErrorKind;
use crate::error::SyncError;
use crate::outcome::Outcome;
use crate::resource::ResourceId;
use crate::transcode::disk_form;
use crate::transcode::to_disk;

verus! {

/// What the caller reports after carrying out an action.
#[derive(Debug, Clone)]
pub enum DownloadEvent {
    /// The appliance answered with this payload.
    Received(Vec<u8>),
    /// The appliance has nothing at the slot.
    Absent,
    /// The request did not complete.
    FetchFailed,
    /// The file and its directory were written.
    Stored,
    /// The file or its directory could not be written.
    StoreFailed,
}

/// What the caller is to do next.
#[derive(Debug, Clone)]
pub enum DownloadAction {
    /// Request the resource from its download URL.
    Fetch(ResourceId),
    /// Create the directory of the resource's local path and write these bytes there.
    Store(ResourceId, Vec<u8>),
    /// The run is complete.
    Finish,
    /// The run ends with this failure.
    Abort(SyncError),
}

/// The state of a download run, as a mathematical value.
pub struct DownloadState {
    /// The requested slots, in order.
    pub indices: Seq<usize>,
    /// Position of the slot being handled.
    pub pos: nat,
    /// Whether its file is being written.
    pub storing: bool,
    /// Whether the run is over.
    pub stopped: bool,
    /// One outcome per slot handled so far, in order.
    pub outcomes: Seq<Outcome>,
}

impl DownloadState {
    /// Whether the run waits for `ev`.
    pub open spec fn accepts(self, ev: DownloadEvent) -> bool {
        &&& !self.stopped
        &&& if self.storing {
            ev is Stored || ev is StoreFailed
        } else {
            ev is Received || ev is Absent || ev is FetchFailed
        }
    }

    /// The resource being handled.
    pub open spec fn current(self) -> ResourceId {
        ResourceId::Pipeline(self.indices[self.pos as int])
    }

    /// The state after the current resource was written.
    pub open spec fn advanced(self) -> DownloadState {
        DownloadState {
            pos: self.pos + 1,
            storing: false,
            stopped: self.pos + 1 == self.indices.len(),
            outcomes: self.outcomes.push(Outcome::Fetched(self.current())),
            ..self
        }
    }

    /// The state after a failure.
    pub open spec fn halted(self) -> DownloadState {
        DownloadState { stopped: true, ..self }
    }

    /// What follows once `pos` slots have been handled.
    pub open spec fn next_action(self, pos: nat) -> DownloadAction {
        if pos >= self.indices.len() {
            DownloadAction::Finish
        } else {
            DownloadAction::Fetch(ResourceId::Pipeline(self.indices[pos as int]))
        }
    }
}

/// A run of a download, fed one event at a time.
pub struct DownloadSession {
    indices: Vec<usize>,
    pos: usize,
    storing: bool,
    stopped: bool,
    outcomes: Vec<Outcome>,
}

impl View for DownloadSession {
    type V = DownloadState;

    closed spec fn view(&self) -> DownloadState {
        DownloadState {
            indices: self.indices@,
            pos: self.pos as nat,
            storing: self.storing,
            stopped: self.stopped,
            outcomes: self.outcomes@,
        }
    }
}

impl DownloadSession {
    /// The run's invariant: every slot handled so far was fetched, in the
    /// order requested, and the run stops once the slots are exhausted.
    pub open spec fn wf(&self) -> bool {
        &&& self@.pos <= self@.indices.len()
        &&& self@.outcomes.len() == self@.pos
        &&& forall|k: int|
            0 <= k < self@.pos ==> #[trigger] self@.outcomes[k] == Outcome::Fetched(
                ResourceId::Pipeline(self@.indices[k]),
            )
        &&& self@.pos == self@.indices.len() ==> self@.stopped
    }

    /// A new run over the requested slots, and its first action.
    pub fn begin(indices: Vec<usize>) -> (r: (DownloadSession, DownloadAction))
        ensures
            r.0.wf(),
            r.0@ == (DownloadState {
                indices: indices@,
                pos: 0,
                storing: false,
                stopped: indices@.len() == 0,
                outcomes: Seq::empty(),
            }),
            r.1 == r.0@.next_action(0),
    {
        let stopped = indices.len() == 0;
        let a = if stopped {
            DownloadAction::Finish
        } else {
            DownloadAction::Fetch(ResourceId::Pipeline(indices[0]))
        };
        let s = DownloadSession { indices, pos: 0, storing: false, stopped, outcomes: Vec::new() };
        assert(s@.outcomes =~= Seq::<Outcome>::empty());
        (s, a)
    }

    /// Whether the run waits for `ev`.
    pub fn accepts(&self, ev: &DownloadEvent) -> (r: bool)
        ensures
            r == self@.accepts(*ev),
    {
        !self.stopped && if self.storing {
            matches!(ev, DownloadEvent::Stored | DownloadEvent::StoreFailed)
        } else {
            matches!(ev, DownloadEvent::Received(_) | DownloadEvent::Absent | DownloadEvent::FetchFailed)
        }
    }

    /// The outcomes of the slots handled so far, in order.
    pub fn outcomes(&self) -> (r: &Vec<Outcome>)
        ensures
            r@ == self@.outcomes,
    {
        &self.outcomes
    }

    /// Whether the run is over.
    pub fn is_stopped(&self) -> (r: bool)
        ensures
            r == self@.stopped,
    {
        self.stopped
    }

    /// Takes the report of the last action and says what to do next.
    ///
    /// A received payload is transcoded and stored; once stored, the next
    /// slot is fetched. An absent slot, a failed request, a payload that
    /// cannot be transcoded or a failed write ends the run.
    pub fn step(&mut self, ev: DownloadEvent) -> (a: DownloadAction)
        requires
            old(self).wf(),
            old(self)@.accepts(ev),
        ensures
            final(self).wf(),
            ({
                let s = old(self)@;
                let cur = s.current();
                match ev {
                    DownloadEvent::Received(b) => match disk_form(cur, b@) {
                        Ok(d) => {
                            &&& final(self)@ == (DownloadState { storing: true, ..s })
                            &&& a matches DownloadAction::Store(id, body) && id == cur && body@ == d
                        },
                        Err(e) => {
                            &&& final(self)@ == s.halted()
                            &&& a == DownloadAction::Abort(SyncError::about(ErrorKind::Format(e), cur))
                        },
                    },
                    DownloadEvent::Absent => {
                        &&& final(self)@ == s.halted()
                        &&& a == DownloadAction::Abort(SyncError::about(ErrorKind::NotFound, cur))
                    },
                    DownloadEvent::FetchFailed => {
                        &&& final(self)@ == s.halted()
                        &&& a == DownloadAction::Abort(SyncError::about(ErrorKind::Transport, cur))
                    },
                    DownloadEvent::Stored => {
                        &&& final(self)@ == s.advanced()
                        &&& a == s.next_action(s.pos + 1)
                    },
                    DownloadEvent::StoreFailed => {
                        &&& final(self)@ == s.halted()
                        &&& a == DownloadAction::Abort(SyncError::about(ErrorKind::Io, cur))
                    },
                }
            }),
    {
        let cur = ResourceId::Pipeline(self.indices[self.pos]);
        match ev {
            DownloadEvent::Received(b) => match to_disk(&cur, b.as_slice()) {
                Ok(body) => {
                    self.storing = true;
                    DownloadAction::Store(cur, body)
                },
                Err(e) => {
                    self.stopped = true;
                    DownloadAction::Abort(SyncError::about(ErrorKind::Format(e), cur))
                },
            },
            DownloadEvent::Absent => {
                self.stopped = true;
                DownloadAction::Abort(SyncError::about(ErrorKind::NotFound, cur))
            },
            DownloadEvent::FetchFailed => {
                self.stopped = true;
                DownloadAction::Abort(SyncError::about(ErrorKind::Transport, cur))
            },
            DownloadEvent::Stored => {
                let n = self.indices.len();
                self.outcomes.push(Outcome::Fetched(cur));
                self.pos = self.pos + 1;
                self.storing = false;
                if self.pos == n {
                    self.stopped = true;
                    DownloadAction::Finish
                } else {
                    DownloadAction::Fetch(ResourceId::Pipeline(self.indices[self.pos]))
                }
            },
            DownloadEvent::StoreFailed => {
                self.stopped = true;
                DownloadAction::Abort(SyncError::about(ErrorKind::Io, cur))
            },
        }
    }
}

} // verus!
