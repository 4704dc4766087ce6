use vstd::prelude::*;
use crate::paths::{copy_path, path_eq};
use crate::picture::{Picture, PictureError};

verus! {

// The background-decoder protocol.  One worker decodes one picture at a
// time; the outcome goes into a single-slot mailbox, and the worker then
// waits until the consumer has acknowledged the slot.  The I/O shell runs
// the thread and the channels; this model is the protocol itself, and its
// operations are the only ways the state ever moves, so the back-pressure
// rule — a result is never overwritten before it was consumed — is a
// property of these contracts.

/// What one decode hands back.
pub type DecodeOutcome = Result<Picture, PictureError>;

/// Where the worker stands.
pub enum WorkerPhase {
    /// Ready to pick up the next request.
    Idle,
    /// Decoding this path.
    Busy(Vec<u8>),
    /// Published a result and blocked until it is acknowledged.
    AwaitingAck,
}

/// The whole decode pipeline as one state.
pub struct DecoderPipe {
    /// The latest request not yet picked up; a newer request replaces it.
    pub pending: Option<Vec<u8>>,
    /// Where the worker stands; at most one decode is ever in flight.
    pub phase: WorkerPhase,
    /// The single-slot outcome mailbox, tagged by its path.
    pub mailbox: Option<(Vec<u8>, DecodeOutcome)>,
    /// The path the consumer is currently interested in.
    pub current: Option<Vec<u8>>,
}

/// How a new request moves the pipe: only the request slot and the path
/// of interest change; a result already in the mailbox stays exactly as
/// it is.
pub open spec fn requested_rel(pre: DecoderPipe, post: DecoderPipe, path: Seq<u8>) -> bool {
    &&& post.pending matches Some(p) && p@ == path
    &&& post.current matches Some(c) && c@ == path
    &&& post.phase == pre.phase
    &&& post.mailbox == pre.mailbox
}

/// The pipe after the consumer's non-blocking poll.
pub open spec fn polled(pipe: DecoderPipe) -> DecoderPipe {
    match pipe.phase {
        WorkerPhase::AwaitingAck => DecoderPipe {
            mailbox: None,
            phase: WorkerPhase::Idle,
            ..pipe
        },
        _ => pipe,
    }
}

/// What the consumer's poll hands back: the mailbox outcome when it
/// answers the path of interest, nothing when the job was superseded or
/// no result is ready.
pub open spec fn polled_value(pipe: DecoderPipe) -> Option<DecodeOutcome> {
    match (pipe.phase, pipe.mailbox, pipe.current) {
        (WorkerPhase::AwaitingAck, Some((p, outcome)), Some(c)) => if p@ == c@ {
            Some(outcome)
        } else {
            None
        },
        _ => None,
    }
}

impl DecoderPipe {
    /// The protocol invariant: the mailbox is full exactly while the
    /// worker waits for the acknowledgement, so a busy worker always has
    /// an empty mailbox to publish into and can never overwrite an
    /// unconsumed result.
    pub open spec fn wf(self) -> bool {
        (self.mailbox is Some) <==> (self.phase is AwaitingAck)
    }

    /// A fresh pipeline: no request, no result, worker ready.
    pub fn new() -> (r: DecoderPipe)
        ensures
            r.wf(),
            r.pending is None,
            r.phase is Idle,
            r.mailbox is None,
            r.current is None,
    {
        DecoderPipe { pending: None, phase: WorkerPhase::Idle, mailbox: None, current: None }
    }

    /// The consumer asks for a path.  A request that the worker has not
    /// picked up yet is superseded; everything else — in particular an
    /// unconsumed result — is left untouched.
    pub fn request(&mut self, path: Vec<u8>)
        requires
            old(self).wf(),
        ensures
            final(self).wf(),
            requested_rel(*old(self), *final(self), path@),
    {
        self.current = Some(copy_path(&path));
        self.pending = Some(path);
    }

    /// The worker picks up the latest request.  Only possible while it is
    /// idle, which the protocol guarantees implies an empty mailbox.
    pub fn worker_take(&mut self) -> (r: Option<Vec<u8>>)
        requires
            old(self).wf(),
            old(self).phase is Idle,
        ensures
            final(self).wf(),
            final(self).mailbox == old(self).mailbox,
            final(self).current == old(self).current,
            final(self).pending is None,
            match old(self).pending {
                Some(p) => {
                    &&& r matches Some(q) && q@ == p@
                    &&& final(self).phase matches WorkerPhase::Busy(b) && b@ == p@
                },
                None => r is None && final(self).phase is Idle,
            },
    {
        match self.pending.take() {
            Some(p) => {
                let handed = copy_path(&p);
                self.phase = WorkerPhase::Busy(p);
                Some(handed)
            },
            None => None,
        }
    }

    /// The worker publishes the outcome of the decode it was busy with.
    /// The protocol invariant says the mailbox is empty here: nothing is
    /// ever lost.
    pub fn worker_publish(&mut self, outcome: DecodeOutcome)
        requires
            old(self).wf(),
            old(self).phase is Busy,
        ensures
            final(self).wf(),
            old(self).mailbox is None,
            match old(self).phase {
                WorkerPhase::Busy(p) => final(self).mailbox == Some((p, outcome)),
                _ => false,
            },
            final(self).phase is AwaitingAck,
            final(self).pending == old(self).pending,
            final(self).current == old(self).current,
    {
        let mut phase = WorkerPhase::AwaitingAck;
        core::mem::swap(&mut self.phase, &mut phase);
        match phase {
            WorkerPhase::Busy(p) => {
                self.mailbox = Some((p, outcome));
            },
            _ => {
                proof {
                    assert(false);
                }
            },
        }
    }

    /// The consumer's non-blocking poll.  A published result for the path
    /// of interest is consumed and handed back; a published result for a
    /// superseded path is drained and discarded; either way the worker is
    /// released.  With no published result, nothing happens.
    pub fn try_fetch(&mut self) -> (r: Option<DecodeOutcome>)
        requires
            old(self).wf(),
        ensures
            final(self).wf(),
            *final(self) == polled(*old(self)),
            r == polled_value(*old(self)),
    {
        let phase_was_ack = match &self.phase {
            WorkerPhase::AwaitingAck => true,
            _ => false,
        };
        if !phase_was_ack {
            return None;
        }
        self.phase = WorkerPhase::Idle;
        match self.mailbox.take() {
            Some((p, outcome)) => {
                match &self.current {
                    Some(c) => {
                        if path_eq(&p, c) {
                            Some(outcome)
                        } else {
                            None
                        }
                    },
                    None => None,
                }
            },
            None => None,
        }
    }
}

/// The consumer-side decision on a finished decode, for a shell that
/// runs the worker on its own channels: the outcome counts only when the
/// finished path is the path of interest; a superseded job's outcome is
/// discarded whole.
pub fn accept_arrival(
    finished: &Vec<u8>,
    current: &Option<Vec<u8>>,
    outcome: DecodeOutcome,
) -> (r: Option<DecodeOutcome>)
    ensures
        match *current {
            Some(c) => r == if c@ == finished@ {
                Some(outcome)
            } else {
                None::<DecodeOutcome>
            },
            None => r is None,
        },
{
    match current {
        Some(c) => {
            if path_eq(finished, c) {
                Some(outcome)
            } else {
                None
            }
        },
        None => None,
    }
}

/// Law: the pipeline is single-flight, and a superseding request neither
/// loses nor corrupts an unconsumed result.  If the mailbox holds the
/// outcome of an earlier request when a new path is requested, the
/// mailbox still holds exactly that outcome afterwards; draining then
/// hands back the very outcome when the paths agree and discards the
/// stale result whole when they do not.
pub proof fn lemma_single_flight(
    pipe: DecoderPipe,
    post: DecoderPipe,
    p1: Vec<u8>,
    o1: DecodeOutcome,
    path: Seq<u8>,
)
    requires
        pipe.wf(),
        pipe.mailbox == Some((p1, o1)),
        requested_rel(pipe, post, path),
    ensures
        post.mailbox == Some((p1, o1)),
        polled_value(post) == if p1@ == path {
            Some(o1)
        } else {
            None::<DecodeOutcome>
        },
        polled(post).mailbox is None,
{
}

} // verus!
