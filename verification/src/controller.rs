//! The session controller: the single serialization point for session
//! lifecycle.
//!
//! The controller owns at most one playback session, receives the play,
//! stop and set-volume requests from the UI layer, and surfaces each
//! session's terminal outcome exactly once. A play request first hands the
//! superseded session back — with cancellation already requested, so it can
//! only terminate — and only then lets a new session be constructed: a new
//! play always wins a race with an in-flight previous session.

use vstd::prelude::*;

use crate::buffer::spec_prefetch_bytes;
use crate::buffer::spec_resolve_bitrate;
use crate::errors::PlayerError;
use crate::session::CancelSignal;
use crate::session::DriveAction;
use crate::session::Outcome;
use crate::session::PlaybackSession;
use crate::session::SessionPhase;
use crate::session::SessionView;
use crate::session::SyncAction;
use crate::session::spec_outcome;
use crate::volume::Volume;

verus! {

/// The mathematical state of the controller.
#[verifier::ext_equal]
pub struct ControllerView {
    /// The one active session, if any.
    pub session: Option<SessionView>,
    /// The shared volume setting, in thousandths of full gain; written by
    /// the UI at any time, read by the synchronizer, and handed to every new
    /// session.
    pub volume: u32,
}

impl ControllerView {
    /// The controller's invariant: the volume is a unit-interval gain and
    /// whatever session it owns is well-formed.
    pub open spec fn wf(self) -> bool {
        &&& self.volume <= crate::volume::VOLUME_UNIT
        &&& (self.session matches Some(s) ==> s.wf())
    }
}

/// The owner of at most one active playback session.
pub struct Controller {
    session: Option<PlaybackSession>,
    volume: Volume,
}

impl View for Controller {
    type V = ControllerView;

    closed spec fn view(&self) -> ControllerView {
        ControllerView {
            session: match self.session {
                Some(s) => Some(s@),
                None => None,
            },
            volume: self.volume.spec_units(),
        }
    }
}

impl Controller {
    /// A controller with no active session and full volume.
    pub fn new() -> (c: Controller)
        ensures
            c@.wf(),
            c@.session is None,
            c@.volume == crate::volume::VOLUME_UNIT,
    {
        Controller { session: None, volume: Volume::full() }
    }

    /// Whether a session is active at all.
    pub fn has_session(&self) -> (b: bool)
        ensures
            b == (self@.session is Some),
    {
        self.session.is_some()
    }

    /// Where the active session stands, if one is active at all.
    pub fn session_phase(&self) -> (p: Option<SessionPhase>)
        ensures
            p == match self@.session {
                Some(s) => Some(s.phase),
                None => None::<SessionPhase>,
            },
    {
        match &self.session {
            Some(s) => Some(s.phase()),
            None => None,
        }
    }

    /// The active session's sink gain, if one is active at all.
    pub fn session_gain(&self) -> (g: Option<Volume>)
        ensures
            g is Some <==> self@.session is Some,
            g matches Some(v) ==> Some(v.spec_units() as int) == match self@.session {
                Some(s) => Some(s.gain as int),
                None => None::<int>,
            },
    {
        match &self.session {
            Some(s) => Some(s.gain()),
            None => None,
        }
    }

    /// The shared volume setting.
    pub fn volume(&self) -> (v: Volume)
        ensures
            v.spec_units() == self@.volume,
    {
        self.volume
    }

    /// Stores the shared volume and applies it to the active session's sink,
    /// if one is open; with no session active the value is merely retained
    /// for the next one.
    pub fn set_volume(&mut self, v: Volume)
        requires
            old(self)@.wf(),
            v.wf(),
        ensures
            final(self)@.wf(),
            final(self)@.volume == v.spec_units(),
            old(self)@.session is None ==> final(self)@.session is None,
            old(self)@.session matches Some(s) ==> final(self)@.session == Some(
                s.with_gain(v.spec_units()),
            ),
    {
        self.volume = v;
        match &mut self.session {
            Some(s) => s.set_gain(v),
            None => (),
        }
    }

    /// Begins a play request: releases the current session, if any, with
    /// cancellation already requested, and leaves the controller with no
    /// active session so that a new one can be opened. The superseded
    /// session is handed back for its loops to tear down; with its signal
    /// off `Running` it can only terminate, never play again.
    pub fn begin_play(&mut self) -> (prev: Option<PlaybackSession>)
        requires
            old(self)@.wf(),
        ensures
            final(self)@.wf(),
            final(self)@.session is None,
            final(self)@.volume == old(self)@.volume,
            prev is Some <==> old(self)@.session is Some,
            old(self)@.session matches Some(s) ==> prev matches Some(p) && p@
                == s.with_cancel_requested() && p@.cancel != CancelSignal::Running,
    {
        let mut prev = self.session.take();
        match &mut prev {
            Some(p) => p.request_cancel(),
            None => (),
        }
        prev
    }

    /// Installs the session for a freshly opened stream: it starts in
    /// `Starting` behind its prefetch gate, with the gain the shared volume
    /// last held — a volume set while nothing played is applied here.
    pub fn on_stream_opened(&mut self, advertised_bitrate: Option<u32>, capacity: usize)
        requires
            old(self)@.wf(),
            old(self)@.session is None,
            1 <= capacity,
        ensures
            final(self)@.wf(),
            final(self)@.volume == old(self)@.volume,
            final(self)@.session == Some(SessionView {
                phase: SessionPhase::Starting,
                cancel: CancelSignal::Running,
                bitrate: spec_resolve_bitrate(advertised_bitrate),
                threshold: spec_prefetch_bytes(spec_resolve_bitrate(advertised_bitrate)),
                buffered: Seq::<u8>::empty(),
                capacity: capacity as int,
                gain: old(self)@.volume,
                frames: 0nat,
                source_exhausted: false,
                reported: false,
            }),
    {
        let s = PlaybackSession::new(advertised_bitrate, capacity, self.volume);
        self.session = Some(s);
    }

    /// Surfaces a play attempt whose stream never opened: no session was
    /// constructed, no audio hardware was touched, and the controller is
    /// exactly as it was — a later play request starts from a clean state.
    pub fn on_open_failed(&mut self, reason: PlayerError) -> (o: Outcome)
        requires
            old(self)@.wf(),
            old(self)@.session is None,
        ensures
            final(self)@ == old(self)@,
            o == Outcome::Failed(reason),
    {
        let o = Outcome::Failed(reason);
        proof {
            assert(self@ =~= old(self)@);
        }
        o
    }

    /// Requests cancellation on the current session; a no-op when none is
    /// active.
    pub fn stop(&mut self)
        requires
            old(self)@.wf(),
        ensures
            final(self)@.wf(),
            final(self)@.volume == old(self)@.volume,
            old(self)@.session is None ==> final(self)@ == old(self)@,
            old(self)@.session matches Some(s) ==> final(self)@.session == Some(
                s.with_cancel_requested(),
            ),
    {
        match &mut self.session {
            Some(s) => s.request_cancel(),
            None => (),
        }
        proof {
            if old(self)@.session is None {
                assert(self@ =~= old(self)@);
            }
        }
    }

    /// Feeds bytes pulled from the stream source into the active session's
    /// buffer window; with no session active nothing is accepted.
    pub fn feed_session(&mut self, chunk: &[u8]) -> (accepted: usize)
        requires
            old(self)@.wf(),
        ensures
            final(self)@.wf(),
            final(self)@.volume == old(self)@.volume,
            old(self)@.session is None ==> final(self)@ == old(self)@ && accepted == 0,
            old(self)@.session matches Some(s) ==> {
                &&& accepted == if chunk@.len() <= s.capacity - s.buffered.len() {
                    chunk@.len() as int
                } else {
                    s.capacity - s.buffered.len()
                }
                &&& final(self)@.session == Some(
                    s.with_buffered(s.buffered + chunk@.take(accepted as int)),
                )
            },
    {
        let accepted = match &mut self.session {
            Some(s) => s.feed(chunk),
            None => 0,
        };
        proof {
            if old(self)@.session is None {
                assert(self@ =~= old(self)@);
            }
        }
        accepted
    }

    /// Records that the active session's stream source reached its end.
    pub fn mark_source_exhausted(&mut self)
        requires
            old(self)@.wf(),
        ensures
            final(self)@.wf(),
            final(self)@.volume == old(self)@.volume,
            old(self)@.session is None ==> final(self)@ == old(self)@,
            old(self)@.session matches Some(s) ==> final(self)@.session == Some(
                s.with_source_exhausted(),
            ),
    {
        match &mut self.session {
            Some(s) => s.notify_source_exhausted(),
            None => (),
        }
        proof {
            if old(self)@.session is None {
                assert(self@ =~= old(self)@);
            }
        }
    }

    /// One iteration of the sink-driving loop over the active session; with
    /// no session active there is nothing to drive and the loop is told to
    /// stop.
    pub fn drive_session(&mut self, frame_bytes: usize) -> (r: (DriveAction, Option<Vec<u8>>))
        requires
            old(self)@.wf(),
            1 <= frame_bytes,
            old(self)@.session matches Some(s) ==> s.frames < u64::MAX,
        ensures
            final(self)@.wf(),
            final(self)@.volume == old(self)@.volume,
            old(self)@.session is None ==> final(self)@ == old(self)@ && r.0
                == DriveAction::StopSink && r.1 is None,
            old(self)@.session matches Some(s) ==> {
                &&& final(self)@.session == Some(s.drive(frame_bytes).0)
                &&& r.0 == s.drive(frame_bytes).1
                &&& (r.1 is Some <==> r.0 == DriveAction::RenderFrame)
                &&& (r.0 == DriveAction::RenderFrame ==> r.1->0@ == s.buffered.take(
                    s.frame_take(frame_bytes),
                ))
            },
    {
        let r = match &mut self.session {
            Some(s) => s.drive_step(frame_bytes),
            None => (DriveAction::StopSink, None),
        };
        proof {
            if old(self)@.session is None {
                assert(self@ =~= old(self)@);
            }
        }
        r
    }

    /// One iteration of the volume synchronizer over the active session: the
    /// shared volume is applied to the sink, then the cancellation signal is
    /// polled; with no session active the synchronizer is told to exit.
    pub fn sync_session(&mut self) -> (a: SyncAction)
        requires
            old(self)@.wf(),
        ensures
            final(self)@.wf(),
            final(self)@.volume == old(self)@.volume,
            old(self)@.session is None ==> final(self)@ == old(self)@ && a
                == SyncAction::StopAndExit,
            old(self)@.session matches Some(s) ==> {
                &&& final(self)@.session == Some(s.sync(old(self)@.volume).0)
                &&& a == s.sync(old(self)@.volume).1
            },
    {
        let v = self.volume;
        let a = match &mut self.session {
            Some(s) => s.volume_sync_step(v),
            None => SyncAction::StopAndExit,
        };
        proof {
            if old(self)@.session is None {
                assert(self@ =~= old(self)@);
            }
        }
        a
    }

    /// Aborts the active session with an error reported by its pipeline —
    /// decode failure, device failure — unless it already terminated; a
    /// no-op when none is active.
    pub fn fail_session(&mut self, reason: PlayerError)
        requires
            old(self)@.wf(),
        ensures
            final(self)@.wf(),
            final(self)@.volume == old(self)@.volume,
            old(self)@.session is None ==> final(self)@ == old(self)@,
            old(self)@.session matches Some(s) ==> final(self)@.session == Some(
                if s.phase is Terminated {
                    s
                } else {
                    s.terminated(Outcome::Failed(reason))
                },
            ),
    {
        match &mut self.session {
            Some(s) => {
                let terminated = match s.phase() {
                    SessionPhase::Terminated(_) => true,
                    _ => false,
                };
                if !terminated {
                    s.fail(reason);
                }
            },
            None => (),
        }
        proof {
            if old(self)@.session is None {
                assert(self@ =~= old(self)@);
            }
        }
    }

    /// Collects the terminal outcome of a finished session, exactly once:
    /// when the active session has terminated and not yet been reported,
    /// the outcome comes back and the controller returns cleanly to "no
    /// active session"; otherwise nothing changes.
    pub fn reap(&mut self) -> (o: Option<Outcome>)
        requires
            old(self)@.wf(),
        ensures
            final(self)@.wf(),
            final(self)@.volume == old(self)@.volume,
            o == match old(self)@.session {
                Some(s) => if s.reported {
                    None::<Outcome>
                } else {
                    spec_outcome(s.phase)
                },
                None => None::<Outcome>,
            },
            o is Some ==> final(self)@.session is None,
            o is None ==> final(self)@ == old(self)@,
    {
        let o = match &mut self.session {
            Some(s) => s.take_outcome(),
            None => None,
        };
        if o.is_some() {
            self.session = None;
        }
        proof {
            if o is None {
                assert(self@ =~= old(self)@);
            }
        }
        o
    }
}

} // verus!
