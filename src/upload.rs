//! The upload run: every slot of a fixed range, each kind in turn; a missing
//! local file is skipped, any other failure ends the run.
use vstd::prelude::*;

use crate::error::ErrorKind;
use crate::error::SyncError;
use crate::outcome::Outcome;
use crate::outcome::SkipReason;
use crate::resource::ResourceId;
use crate::transcode::to_wire;
use crate::transcode::wire_form;

verus! {

/// Slots `0` to `SLOTS - 1` are uploaded.
pub const SLOTS: usize = 10;

/// Resources per slot: a pipeline, a detector model and detector labels.
pub const KINDS: usize = 3;

/// Number of resources an upload run visits.
pub const PLAN_LEN: usize = SLOTS * KINDS;

/// The `k`-th resource an upload run visits: slots in increasing order and,
/// within a slot, pipeline, detector model, detector labels.
pub open spec fn plan_entry(k: nat) -> ResourceId {
    let i = (k / KINDS as nat) as usize;
    if k % KINDS as nat == 0 {
        ResourceId::Pipeline(i)
    } else if k % KINDS as nat == 1 {
        ResourceId::DetectorModel(i)
    } else {
        ResourceId::DetectorLabels(i)
    }
}

/// The `k`-th resource an upload run visits.
pub fn plan_entry_at(k: usize) -> (r: ResourceId)
    requires
        k < PLAN_LEN,
    ensures
        r == plan_entry(k as nat),
{
    let i = k / KINDS;
    if k % KINDS == 0 {
        ResourceId::Pipeline(i)
    } else if k % KINDS == 1 {
        ResourceId::DetectorModel(i)
    } else {
        ResourceId::DetectorLabels(i)
    }
}

/// What the caller reports after carrying out an action.
#[derive(Debug, Clone)]
pub enum UploadEvent {
    /// The local file of the resource does not exist.
    Missing,
    /// The local file was read; these are its bytes.
    Loaded(Vec<u8>),
    /// The local file exists and could not be read.
    LoadFailed,
    /// The appliance accepted the upload.
    Posted,
    /// The upload did not complete.
    PostFailed,
}

/// What the caller is to do next.
#[derive(Debug, Clone)]
pub enum UploadAction {
    /// Look for the resource's local file and read it if it is there.
    Load(ResourceId),
    /// Send these bytes to the resource's upload URL.
    Post(ResourceId, Vec<u8>),
    /// The run is complete.
    Finish,
    /// The run ends with this failure.
    Abort(SyncError),
}

/// The state of an upload run, as a mathematical value.
pub struct UploadState {
    /// Position in the plan of the resource being handled.
    pub pos: nat,
    /// Whether its upload is under way.
    pub posting: bool,
    /// Whether the run is over.
    pub stopped: bool,
    /// One outcome per resource handled so far, in plan order.
    pub outcomes: Seq<Outcome>,
}

impl UploadState {
    /// Whether the run waits for `ev`.
    pub open spec fn accepts(self, ev: UploadEvent) -> bool {
        &&& !self.stopped
        &&& if self.posting {
            ev is Posted || ev is PostFailed
        } else {
            ev is Missing || ev is Loaded || ev is LoadFailed
        }
    }

    /// The resource being handled.
    pub open spec fn current(self) -> ResourceId {
        plan_entry(self.pos)
    }

    /// The state after the current resource ended with `o`.
    pub open spec fn advanced(self, o: Outcome) -> UploadState {
        UploadState {
            pos: self.pos + 1,
            posting: false,
            stopped: self.pos + 1 == PLAN_LEN,
            outcomes: self.outcomes.push(o),
        }
    }

    /// The state after a failure.
    pub open spec fn halted(self) -> UploadState {
        UploadState { stopped: true, ..self }
    }
}

/// What follows once `pos` resources have been handled.
pub open spec fn next_upload_action(pos: nat) -> UploadAction {
    if pos >= PLAN_LEN {
        UploadAction::Finish
    } else {
        UploadAction::Load(plan_entry(pos))
    }
}

/// A run of an upload, fed one event at a time.
pub struct UploadSession {
    pos: usize,
    posting: bool,
    stopped: bool,
    outcomes: Vec<Outcome>,
}

impl View for UploadSession {
    type V = UploadState;

    closed spec fn view(&self) -> UploadState {
        UploadState {
            pos: self.pos as nat,
            posting: self.posting,
            stopped: self.stopped,
            outcomes: self.outcomes@,
        }
    }
}

impl UploadSession {
    /// The run's invariant: every handled resource has its outcome, in plan
    /// order, and the run stops once the plan is exhausted.
    pub open spec fn wf(&self) -> bool {
        &&& self@.pos <= PLAN_LEN
        &&& self@.outcomes.len() == self@.pos
        &&& forall|k: int|
            0 <= k < self@.pos ==> (#[trigger] self@.outcomes[k]).id() == plan_entry(k as nat)
        &&& self@.pos == PLAN_LEN ==> self@.stopped
    }

    /// A new run and its first action.
    pub fn begin() -> (r: (UploadSession, UploadAction))
        ensures
            r.0.wf(),
            r.0@ == (UploadState { pos: 0, posting: false, stopped: false, outcomes: Seq::empty() }),
            r.1 == next_upload_action(0),
    {
        let s = UploadSession { pos: 0, posting: false, stopped: false, outcomes: Vec::new() };
        assert(s@.outcomes =~= Seq::<Outcome>::empty());
        (s, UploadAction::Load(plan_entry_at(0)))
    }

    /// Whether the run waits for `ev`.
    pub fn accepts(&self, ev: &UploadEvent) -> (r: bool)
        ensures
            r == self@.accepts(*ev),
    {
        !self.stopped && if self.posting {
            matches!(ev, UploadEvent::Posted | UploadEvent::PostFailed)
        } else {
            matches!(ev, UploadEvent::Missing | UploadEvent::Loaded(_) | UploadEvent::LoadFailed)
        }
    }

    /// The outcomes of the resources handled so far, in plan order.
    pub fn outcomes(&self) -> (r: &Vec<Outcome>)
        ensures
            r@ == self@.outcomes,
    {
        &self.outcomes
    }

    /// Whether the run is over.
    pub fn is_stopped(&self) -> (r: bool)
        ensures
            r == self@.stopped,
    {
        self.stopped
    }

    fn advance(&mut self, o: Outcome) -> (a: UploadAction)
        requires
            old(self).wf(),
            !old(self)@.stopped,
            old(self)@.pos < PLAN_LEN,
            o.id() == old(self)@.current(),
        ensures
            final(self).wf(),
            final(self)@ == old(self)@.advanced(o),
            a == next_upload_action(final(self)@.pos),
    {
        self.outcomes.push(o);
        self.pos = self.pos + 1;
        self.posting = false;
        if self.pos == PLAN_LEN {
            self.stopped = true;
            UploadAction::Finish
        } else {
            UploadAction::Load(plan_entry_at(self.pos))
        }
    }

    /// Takes the report of the last action and says what to do next.
    ///
    /// A missing file is skipped and the run moves on; a file that is there
    /// is transcoded (pipelines) and posted; a failed read, a transcoding
    /// failure or a failed post ends the run.
    pub fn step(&mut self, ev: UploadEvent) -> (a: UploadAction)
        requires
            old(self).wf(),
            old(self)@.accepts(ev),
        ensures
            final(self).wf(),
            ({
                let s = old(self)@;
                let cur = s.current();
                match ev {
                    UploadEvent::Missing => {
                        &&& final(self)@ == s.advanced(Outcome::Skipped(cur, SkipReason::NotFound))
                        &&& a == next_upload_action(s.pos + 1)
                    },
                    UploadEvent::Loaded(b) => match wire_form(cur, b@) {
                        Ok(w) => {
                            &&& final(self)@ == (UploadState { posting: true, ..s })
                            &&& a matches UploadAction::Post(id, body) && id == cur && body@ == w
                        },
                        Err(e) => {
                            &&& final(self)@ == s.halted()
                            &&& a == UploadAction::Abort(SyncError::about(ErrorKind::Format(e), cur))
                        },
                    },
                    UploadEvent::LoadFailed => {
                        &&& final(self)@ == s.halted()
                        &&& a == UploadAction::Abort(SyncError::about(ErrorKind::Io, cur))
                    },
                    UploadEvent::Posted => {
                        &&& final(self)@ == s.advanced(Outcome::Uploaded(cur))
                        &&& a == next_upload_action(s.pos + 1)
                    },
                    UploadEvent::PostFailed => {
                        &&& final(self)@ == s.halted()
                        &&& a == UploadAction::Abort(SyncError::about(ErrorKind::Transport, cur))
                    },
                }
            }),
    {
        let cur = plan_entry_at(self.pos);
        match ev {
            UploadEvent::Missing => self.advance(Outcome::Skipped(cur, SkipReason::NotFound)),
            UploadEvent::Loaded(b) => match to_wire(&cur, b.as_slice()) {
                Ok(body) => {
                    self.posting = true;
                    UploadAction::Post(cur, body)
                },
                Err(e) => {
                    self.stopped = true;
                    UploadAction::Abort(SyncError::about(ErrorKind::Format(e), cur))
                },
            },
            UploadEvent::LoadFailed => {
                self.stopped = true;
                UploadAction::Abort(SyncError::about(ErrorKind::Io, cur))
            },
            UploadEvent::Posted => self.advance(Outcome::Uploaded(cur)),
            UploadEvent::PostFailed => {
                self.stopped = true;
                UploadAction::Abort(SyncError::about(ErrorKind::Transport, cur))
            },
        }
    }
}

} // verus!
