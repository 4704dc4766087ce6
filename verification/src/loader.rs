use vstd::prelude::*;
use crate::picture::{FramesPlayer, Picture, PictureError, StillPicture};

verus! {

// The picture load sequencer: for one decode session it yields first the
// fast dimension probe, then polls for the decoded picture, then streams
// frames.  Probing, decoding and the clock are the I/O shell's work; they
// arrive here as plain values, so every step of the sequence is a pure
// transition that the contracts below pin down exactly.

/// What one poll of the loading sequence yields.
pub enum PictureLoadResult {
    PictureError(PictureError),
    /// The picture's dimensions, known before its pixels.
    Loading([u32; 2]),
    Loaded(StillPicture),
}

/// The frames of one decoded picture: a still yields exactly once, an
/// animation loops through its frame list.
pub enum FrameStreamer {
    Still(Option<StillPicture>),
    Motion(FramesPlayer),
}

impl FrameStreamer {
    pub open spec fn wf(self) -> bool {
        match self {
            FrameStreamer::Still(Some(s)) => s.wf(),
            FrameStreamer::Still(None) => true,
            FrameStreamer::Motion(p) => p.wf(),
        }
    }

    /// The streamer that remains after one poll at `now`.
    pub open spec fn stepped(self, now: u64) -> FrameStreamer {
        match self {
            FrameStreamer::Still(_) => FrameStreamer::Still(None),
            FrameStreamer::Motion(p) => FrameStreamer::Motion(p.stepped(now)),
        }
    }

    /// Polls the stream: a still picture is handed out once and the
    /// stream is exhausted; an animation yields a copy of its next due
    /// frame.  Copying goes through the colour profile and can fail; the
    /// stream advances either way.
    pub fn next(&mut self, now: u64) -> (r: Option<Result<StillPicture, PictureError>>)
        requires
            old(self).wf(),
        ensures
            final(self).wf(),
            *final(self) == old(self).stepped(now),
            match *old(self) {
                FrameStreamer::Still(stored) => match stored {
                    Some(s) => r == Some(Result::<StillPicture, PictureError>::Ok(s)),
                    None => r is None,
                },
                FrameStreamer::Motion(p) => {
                    if p.due(now) {
                        match r {
                            Some(Ok(s)) => {
                                let frame = p.frames_spec()[p.playhead_spec()].still;
                                &&& s.wf()
                                &&& s.pixel_data.spec_len() == frame.pixel_data.spec_len()
                                &&& s.resolution == frame.resolution
                                &&& s.channel_count == frame.channel_count
                                &&& s.channel_interpretation == frame.channel_interpretation
                                &&& s.gamma == frame.gamma
                            },
                            Some(Err(PictureError::ICCError(_))) => true,
                            _ => false,
                        }
                    } else {
                        r is None
                    }
                },
            },
    {
        match self {
            FrameStreamer::Still(stored) => {
                let taken = stored.take();
                *self = FrameStreamer::Still(None);
                match taken {
                    Some(s) => Some(Ok(s)),
                    None => None,
                }
            },
            FrameStreamer::Motion(player) => {
                match player.next(now) {
                    Some(still) => Some(still.duplicate()),
                    None => None,
                }
            },
        }
    }
}

/// Where one decode session stands.
pub enum PictureLoadState {
    /// An error still to be reported, or nothing more after it was.
    PictureError(Option<PictureError>),
    /// Waiting for the decoder; the dimension probe may still be owed.
    Loading(Option<[u32; 2]>),
    /// The picture arrived and its frames are streaming.
    Loaded(FrameStreamer),
}

impl PictureLoadState {
    pub open spec fn wf(self) -> bool {
        match self {
            PictureLoadState::Loaded(s) => s.wf(),
            _ => true,
        }
    }
}

/// The load sequencer for at most one picture at a time.
pub struct PictureLoader {
    picture: Option<PictureLoadState>,
}

/// The deterministic state transition one poll makes: errors are reported
/// once, the probe is handed out once, a decoded picture becomes a
/// stream, and a stream advances by its own rule.
pub open spec fn loader_step(
    s: Option<PictureLoadState>,
    fetched: Option<Result<Picture, PictureError>>,
    now: u64,
) -> Option<PictureLoadState> {
    match s {
        None => None,
        Some(PictureLoadState::PictureError(_)) => Some(PictureLoadState::PictureError(None)),
        Some(PictureLoadState::Loading(Some(_))) => Some(PictureLoadState::Loading(None)),
        Some(PictureLoadState::Loading(None)) => match fetched {
            None => Some(PictureLoadState::Loading(None)),
            Some(Err(_)) => Some(PictureLoadState::Loading(None)),
            Some(Ok(Picture::Still(still))) => Some(
                PictureLoadState::Loaded(FrameStreamer::Still(None)),
            ),
            Some(Ok(Picture::Motion(p))) => Some(
                PictureLoadState::Loaded(FrameStreamer::Motion(p.stepped(now))),
            ),
        },
        Some(PictureLoadState::Loaded(streamer)) => Some(
            PictureLoadState::Loaded(streamer.stepped(now)),
        ),
    }
}

impl PictureLoader {
    pub closed spec fn state_spec(self) -> Option<PictureLoadState> {
        self.picture
    }

    pub open spec fn wf(self) -> bool {
        match self.state_spec() {
            Some(s) => s.wf(),
            None => true,
        }
    }

    /// A sequencer with no session yet.
    pub fn new() -> (r: PictureLoader)
        ensures
            r.state_spec() is None,
            r.wf(),
    {
        PictureLoader { picture: None }
    }

    /// Whether an animation is streaming: more frames will come.
    pub fn is_streaming(&self) -> (r: bool)
        ensures
            r == (self.state_spec() matches Some(PictureLoadState::Loaded(
                FrameStreamer::Motion(_),
            ))),
    {
        match &self.picture {
            Some(PictureLoadState::Loaded(FrameStreamer::Motion(_))) => true,
            _ => false,
        }
    }

    /// Starts a session from the dimension probe's outcome; the shell has
    /// asked the decoder for the full picture at the same time.
    pub fn load(&mut self, probe: Result<[u32; 2], PictureError>)
        ensures
            final(self).wf(),
            final(self).state_spec() == match probe {
                Ok(d) => Some(PictureLoadState::Loading(Some(d))),
                Err(e) => Some(PictureLoadState::PictureError(Some(e))),
            },
    {
        self.picture = Some(
            match probe {
                Ok(d) => PictureLoadState::Loading(Some(d)),
                Err(e) => PictureLoadState::PictureError(Some(e)),
            },
        );
    }

    /// One poll of the sequence.  `fetched` is what the decoder handed
    /// back this tick, if anything; `now` is the monotonic clock in
    /// milliseconds.  The session state advances by `loader_step`; the
    /// yield is exact in every case except a frame copy, whose colour
    /// profile round trip may fail.
    pub fn next(
        &mut self,
        fetched: Option<Result<Picture, PictureError>>,
        now: u64,
    ) -> (r: Option<PictureLoadResult>)
        requires
            old(self).wf(),
            match fetched {
                Some(Ok(p)) => p.wf(),
                _ => true,
            },
        ensures
            final(self).wf(),
            final(self).state_spec() == loader_step(old(self).state_spec(), fetched, now),
            match old(self).state_spec() {
                None => r is None,
                Some(PictureLoadState::PictureError(stored)) => match stored {
                    Some(e) => r == Some(PictureLoadResult::PictureError(e)),
                    None => r is None,
                },
                Some(PictureLoadState::Loading(Some(d))) => r == Some(
                    PictureLoadResult::Loading(d),
                ),
                Some(PictureLoadState::Loading(None)) => match fetched {
                    None => r is None,
                    Some(Err(e)) => r == Some(PictureLoadResult::PictureError(e)),
                    Some(Ok(Picture::Still(still))) => r == Some(
                        PictureLoadResult::Loaded(still),
                    ),
                    Some(Ok(Picture::Motion(p))) => {
                        if p.due(now) {
                            match r {
                                Some(PictureLoadResult::Loaded(s)) => s.wf(),
                                Some(PictureLoadResult::PictureError(
                                    PictureError::ICCError(_),
                                )) => true,
                                _ => false,
                            }
                        } else {
                            r is None
                        }
                    },
                },
                Some(PictureLoadState::Loaded(streamer)) => match streamer {
                    FrameStreamer::Still(stored) => match stored {
                        Some(s) => r == Some(PictureLoadResult::Loaded(s)),
                        None => r is None,
                    },
                    FrameStreamer::Motion(p) => {
                        if p.due(now) {
                            match r {
                                Some(PictureLoadResult::Loaded(s)) => s.wf(),
                                Some(PictureLoadResult::PictureError(
                                    PictureError::ICCError(_),
                                )) => true,
                                _ => false,
                            }
                        } else {
                            r is None
                        }
                    },
                },
            },
    {
        let state = self.picture.take();
        match state {
            None => {
                self.picture = None;
                None
            },
            Some(PictureLoadState::PictureError(stored)) => {
                self.picture = Some(PictureLoadState::PictureError(None));
                match stored {
                    Some(e) => Some(PictureLoadResult::PictureError(e)),
                    None => None,
                }
            },
            Some(PictureLoadState::Loading(Some(d))) => {
                self.picture = Some(PictureLoadState::Loading(None));
                Some(PictureLoadResult::Loading(d))
            },
            Some(PictureLoadState::Loading(None)) => {
                match fetched {
                    None => {
                        self.picture = Some(PictureLoadState::Loading(None));
                        None
                    },
                    Some(Err(e)) => {
                        self.picture = Some(PictureLoadState::Loading(None));
                        Some(PictureLoadResult::PictureError(e))
                    },
                    Some(Ok(picture)) => {
                        let mut streamer = match picture {
                            Picture::Still(still) => FrameStreamer::Still(Some(still)),
                            Picture::Motion(p) => FrameStreamer::Motion(p),
                        };
                        let first = streamer.next(now);
                        self.picture = Some(PictureLoadState::Loaded(streamer));
                        match first {
                            Some(Ok(s)) => Some(PictureLoadResult::Loaded(s)),
                            Some(Err(e)) => Some(PictureLoadResult::PictureError(e)),
                            None => None,
                        }
                    },
                }
            },
            Some(PictureLoadState::Loaded(mut streamer)) => {
                let item = streamer.next(now);
                self.picture = Some(PictureLoadState::Loaded(streamer));
                match item {
                    Some(Ok(s)) => Some(PictureLoadResult::Loaded(s)),
                    Some(Err(e)) => Some(PictureLoadResult::PictureError(e)),
                    None => None,
                }
            },
        }
    }
}

/// Law: a decode error is yielded exactly once and does not poison the
/// sequencer: from the reported-error state every further poll yields
/// nothing and stays put.
pub proof fn lemma_error_reported_once(
    e: PictureError,
    fetched: Option<Result<Picture, PictureError>>,
    later: Option<Result<Picture, PictureError>>,
    now: u64,
    then: u64,
)
    ensures
        loader_step(Some(PictureLoadState::PictureError(Some(e))), fetched, now) == Some(
            PictureLoadState::PictureError(None),
        ),
        loader_step(Some(PictureLoadState::PictureError(None)), later, then) == Some(
            PictureLoadState::PictureError(None),
        ),
{
}

/// Law: a still picture runs through exactly the phases Dimensions, then
/// the loaded frame, then exhaustion: the probe is yielded and cleared,
/// the decoded still moves the session to an exhausted stream, and the
/// exhausted stream never yields again.
pub proof fn lemma_still_phase_order(
    d: [u32; 2],
    still: StillPicture,
    later: Option<Result<Picture, PictureError>>,
    t0: u64,
    t1: u64,
    t2: u64,
)
    ensures
        loader_step(Some(PictureLoadState::Loading(Some(d))), None, t0) == Some(
            PictureLoadState::Loading(None),
        ),
        loader_step(
            Some(PictureLoadState::Loading(None)),
            Some(Ok(Picture::Still(still))),
            t1,
        ) == Some(PictureLoadState::Loaded(FrameStreamer::Still(None))),
        loader_step(Some(PictureLoadState::Loaded(FrameStreamer::Still(None))), later, t2)
            == Some(PictureLoadState::Loaded(FrameStreamer::Still(None))),
{
}

} // verus!
