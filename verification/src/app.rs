use vstd::prelude::*;

verus! {

// The per-frame refresh cycle of the application: a small state machine
// ticked once per event-loop pass, never blocking.  The shell performs
// the probing, decoding and drawing each phase asks for; the phases and
// their order are decided here.

/// How long the session must have been quiet before the directory is
/// polled again, in milliseconds.
pub const QUIESCENCE_MS: u64 = 125;

/// Where the refresh cycle stands.
#[derive(Clone, Copy, PartialEq, Eq, Structural, Debug)]
pub enum AppPhase {
    /// The session is being set up: resolve the directory and request
    /// the placeholder.
    Init,
    /// Waiting on the decoder.
    Loading,
    /// Frames are streaming.
    Drawing,
    /// At rest since this timestamp; the directory is polled only after
    /// the quiescence interval.
    Idle(u64),
    /// The session is over until a new path arrives.
    Disabled,
}

/// What the load sequencer did this tick, reduced for the driver.
pub enum LoadStep {
    /// Nothing was yielded.
    Quiet,
    /// The dimension placeholder was shown.
    Dimensions,
    /// A frame was shown; `more` says whether the stream continues.
    Frame { more: bool },
    /// The load failed and the error was shown.
    Failed,
}

/// The application driver: the refresh cycle's state.
pub struct App {
    pub phase: AppPhase,
}

impl App {
    /// A driver about to set its session up.
    pub fn new() -> (r: App)
        ensures
            r.phase is Init,
    {
        App { phase: AppPhase::Init }
    }

    /// The session is resolved and the placeholder was requested.
    pub fn session_started(&mut self)
        requires
            old(self).phase is Init,
        ensures
            final(self).phase is Loading,
    {
        self.phase = AppPhase::Loading;
    }

    /// One sequencer outcome while loading or drawing: a failure or the
    /// last frame of a still picture puts the session to rest with a
    /// fresh timestamp, a continuing stream keeps drawing, and anything
    /// else leaves the phase alone.
    pub fn load_stepped(&mut self, step: LoadStep, now: u64)
        requires
            old(self).phase is Loading || old(self).phase is Drawing,
        ensures
            final(self).phase == match step {
                LoadStep::Quiet => old(self).phase,
                LoadStep::Dimensions => old(self).phase,
                LoadStep::Frame { more } => if more {
                    AppPhase::Drawing
                } else {
                    AppPhase::Idle(now)
                },
                LoadStep::Failed => AppPhase::Idle(now),
            },
    {
        match step {
            LoadStep::Quiet => {},
            LoadStep::Dimensions => {},
            LoadStep::Frame { more } => {
                if more {
                    self.phase = AppPhase::Drawing;
                } else {
                    self.phase = AppPhase::Idle(now);
                }
            },
            LoadStep::Failed => {
                self.phase = AppPhase::Idle(now);
            },
        }
    }

    /// Whether the directory may be polled this tick: only at rest, and
    /// only once the quiescence interval has passed.
    pub fn directory_poll_due(&self, now: u64) -> (r: bool)
        ensures
            r == match self.phase {
                AppPhase::Idle(since) => now as int >= since as int + QUIESCENCE_MS as int,
                _ => false,
            },
    {
        match self.phase {
            AppPhase::Idle(since) => now >= since && now - since >= QUIESCENCE_MS,
            _ => false,
        }
    }

    /// The selected file changed on disk or the selection moved: load it
    /// again.
    pub fn reload(&mut self)
        requires
            old(self).phase is Idle || old(self).phase is Drawing || old(
                self,
            ).phase is Loading,
        ensures
            final(self).phase is Loading,
    {
        self.phase = AppPhase::Loading;
    }

    /// An unrecoverable session error: stay put until a new path
    /// restarts the cycle.
    pub fn disable(&mut self)
        ensures
            final(self).phase is Disabled,
    {
        self.phase = AppPhase::Disabled;
    }

    /// A new path arrived (a drop or a command line): the cycle starts
    /// over.
    pub fn restart(&mut self)
        ensures
            final(self).phase is Init,
    {
        self.phase = AppPhase::Init;
    }
}

} // verus!
