//! The playback session: one play-through of a single station.
//!
//! A session owns one stream-source → buffer-window → decode-and-render-sink
//! pipeline. Its life is the state machine `Starting → Playing →
//! Terminated`: `Starting` covers stream open and prefetch, `Playing` begins
//! once the sink produces audio, and `Terminated` is reached by exactly one
//! of a stop request, end of stream, or an error at any stage. Cancellation
//! is cooperative: a one-shot signal, idempotent to set, observed at a
//! bounded interval by the sink-driving loop and the volume synchronizer.
//!
//! The session is a plain state machine over plain values. The loops that
//! feed it — the network pull, the sink-driving thread, the synchronizer
//! timer — live at the unverified boundary and call one step at a time;
//! every step's outcome is pinned by the transition functions on
//! [`SessionView`].

use vstd::prelude::*;

use crate::buffer::BufferWindow;
use crate::buffer::prefetch_bytes;
use crate::buffer::resolve_bitrate;
use crate::buffer::spec_prefetch_bytes;
use crate::buffer::spec_resolve_bitrate;
use crate::errors::PlayerError;
use crate::volume::Volume;

verus! {

/// How a session ended; reported to the controller exactly once.
#[derive(Clone, Copy, Debug, PartialEq, Eq, Structural)]
pub enum Outcome {
    /// An explicit stop request was observed.
    StoppedByUser,
    /// The sink consumed the whole stream and no more bytes will arrive.
    EndOfStream,
    /// An error aborted the session at some stage.
    Failed(PlayerError),
}

/// Where a session stands in its life: there is no transition out of
/// `Terminated`; a new play request always constructs a brand-new session.
#[derive(Clone, Copy, Debug, PartialEq, Eq, Structural)]
pub enum SessionPhase {
    /// Stream open and prefetch; no audio yet.
    Starting,
    /// The sink is producing audio.
    Playing,
    /// The session is over, with its single tagged outcome.
    Terminated(Outcome),
}

/// The cooperative cancellation signal: set once per session, idempotent to
/// set again, polled by the driving loops.
#[derive(Clone, Copy, Debug, PartialEq, Eq, Structural)]
pub enum CancelSignal {
    /// No one has asked the session to stop.
    Running,
    /// A stop was requested; the loops will observe it at their next poll.
    CancelRequested,
    /// The session has fully torn down.
    Terminated,
}

/// What one iteration of the sink-driving loop asks its caller to do.
#[derive(Clone, Copy, Debug, PartialEq, Eq, Structural)]
pub enum DriveAction {
    /// Nothing to do yet: wait for more bytes from the source.
    AwaitData,
    /// The prefetch gate opened: acquire the device and start audio.
    BeginAudio,
    /// A frame of buffered bytes was handed out to decode and play.
    RenderFrame,
    /// The session terminated: halt output and release the device.
    StopSink,
}

/// What one iteration of the volume synchronizer asks its caller to do.
#[derive(Clone, Copy, Debug, PartialEq, Eq, Structural)]
pub enum SyncAction {
    /// Sleep one poll interval and run again.
    Continue,
    /// Cancellation (or termination) was observed: stop the sink and exit.
    StopAndExit,
}

/// The outcome a phase carries, if it is terminal.
pub open spec fn spec_outcome(p: SessionPhase) -> Option<Outcome> {
    match p {
        SessionPhase::Terminated(o) => Some(o),
        _ => None,
    }
}

/// The mathematical state of a playback session: what every transition is
/// specified over.
#[verifier::ext_equal]
pub struct SessionView {
    /// Where the session stands in `Starting → Playing → Terminated`.
    pub phase: SessionPhase,
    /// The cooperative cancellation signal.
    pub cancel: CancelSignal,
    /// The bitrate the session runs with, bits per second.
    pub bitrate: u32,
    /// The prefetch threshold, in bytes.
    pub threshold: int,
    /// The buffered-but-undecoded bytes, earliest first.
    pub buffered: Seq<u8>,
    /// The fixed capacity of the buffer window.
    pub capacity: int,
    /// The sink gain, in thousandths of full gain.
    pub gain: u32,
    /// How many frames have been handed to the output device.
    pub frames: nat,
    /// Whether the source has reported that no more bytes will arrive.
    pub source_exhausted: bool,
    /// Whether the terminal outcome has already been reported.
    pub reported: bool,
}

impl SessionView {
    /// Every state a session can reach satisfies this: memory is bounded by
    /// the window capacity, the threshold matches the bitrate, the signal
    /// agrees with the phase, and no frame is rendered before `Playing`.
    pub open spec fn wf(self) -> bool {
        &&& 1 <= self.capacity
        &&& self.buffered.len() <= self.capacity
        &&& self.threshold == spec_prefetch_bytes(self.bitrate)
        &&& self.gain <= crate::volume::VOLUME_UNIT
        &&& (self.cancel == CancelSignal::Terminated <==> self.phase is Terminated)
        &&& (self.phase == SessionPhase::Starting ==> self.frames == 0)
        &&& (self.reported ==> self.phase is Terminated)
    }

    /// The same session with another sink gain.
    pub open spec fn with_gain(self, gain: u32) -> SessionView {
        SessionView { gain, ..self }
    }

    /// The same session with other buffered bytes.
    pub open spec fn with_buffered(self, buffered: Seq<u8>) -> SessionView {
        SessionView { buffered, ..self }
    }

    /// The same session after its source reported end of stream.
    pub open spec fn with_source_exhausted(self) -> SessionView {
        SessionView { source_exhausted: true, ..self }
    }

    /// Requesting cancellation: a one-shot, idempotent to set — it moves the
    /// signal off `Running` once and changes nothing else, ever after.
    pub open spec fn with_cancel_requested(self) -> SessionView {
        if self.cancel == CancelSignal::Running {
            SessionView { cancel: CancelSignal::CancelRequested, ..self }
        } else {
            self
        }
    }

    /// The session torn down with its single tagged outcome.
    pub open spec fn terminated(self, outcome: Outcome) -> SessionView {
        SessionView { phase: SessionPhase::Terminated(outcome), cancel: CancelSignal::Terminated, ..self }
    }

    /// How many bytes one frame takes out of the buffer: a whole frame, or
    /// whatever is left.
    pub open spec fn frame_take(self, frame_bytes: usize) -> int {
        if frame_bytes <= self.buffered.len() {
            frame_bytes as int
        } else {
            self.buffered.len() as int
        }
    }

    /// One iteration of the sink-driving loop. In order: a terminated
    /// session stays put; a requested cancellation is honored before any
    /// output; in `Starting` the prefetch gate decides whether audio may
    /// begin; in `Playing` a frame is rendered while bytes remain, and an
    /// exhausted source with an empty window ends the stream.
    pub open spec fn drive(self, frame_bytes: usize) -> (SessionView, DriveAction) {
        if self.phase is Terminated {
            (self, DriveAction::StopSink)
        } else if self.cancel == CancelSignal::CancelRequested {
            (self.terminated(Outcome::StoppedByUser), DriveAction::StopSink)
        } else if self.phase == SessionPhase::Starting {
            if self.buffered.len() >= self.threshold {
                (SessionView { phase: SessionPhase::Playing, ..self }, DriveAction::BeginAudio)
            } else {
                (self, DriveAction::AwaitData)
            }
        } else if self.buffered.len() == 0 {
            if self.source_exhausted {
                (self.terminated(Outcome::EndOfStream), DriveAction::StopSink)
            } else {
                (self, DriveAction::AwaitData)
            }
        } else {
            (
                SessionView {
                    buffered: self.buffered.skip(self.frame_take(frame_bytes)),
                    frames: self.frames + 1,
                    ..self
                },
                DriveAction::RenderFrame,
            )
        }
    }

    /// One iteration of the volume synchronizer: apply the shared volume to
    /// the sink, then poll the cancellation signal; on observing it, stop
    /// the sink and exit.
    pub open spec fn sync(self, shared_gain: u32) -> (SessionView, SyncAction) {
        let gained = self.with_gain(shared_gain);
        if self.cancel == CancelSignal::CancelRequested {
            (gained.terminated(Outcome::StoppedByUser), SyncAction::StopAndExit)
        } else if self.cancel == CancelSignal::Terminated {
            (gained, SyncAction::StopAndExit)
        } else {
            (gained, SyncAction::Continue)
        }
    }
}

/// The active unit of work: the executable session, whose every operation
/// is pinned to a transition on its [`SessionView`].
pub struct PlaybackSession {
    phase: SessionPhase,
    cancel: CancelSignal,
    bitrate: u32,
    prefetch_threshold: u64,
    window: BufferWindow,
    gain: Volume,
    frames_rendered: u64,
    source_exhausted: bool,
    outcome_reported: bool,
}

impl View for PlaybackSession {
    type V = SessionView;

    closed spec fn view(&self) -> SessionView {
        SessionView {
            phase: self.phase,
            cancel: self.cancel,
            bitrate: self.bitrate,
            threshold: self.prefetch_threshold as int,
            buffered: self.window.contents(),
            capacity: self.window.spec_capacity() as int,
            gain: self.gain.spec_units(),
            frames: self.frames_rendered as nat,
            source_exhausted: self.source_exhausted,
            reported: self.outcome_reported,
        }
    }
}

impl PlaybackSession {
    /// A fresh session in `Starting`, right after its stream opened: the
    /// advertised bitrate (or the conservative default) sizes the prefetch
    /// gate, the window is empty, and the gain starts at whatever the shared
    /// volume held — a volume set before or during `Starting` is retained
    /// and applied once the sink opens.
    pub fn new(advertised_bitrate: Option<u32>, capacity: usize, initial_gain: Volume) -> (s:
        PlaybackSession)
        requires
            1 <= capacity,
            initial_gain.wf(),
        ensures
            s@.wf(),
            s@ == (SessionView {
                phase: SessionPhase::Starting,
                cancel: CancelSignal::Running,
                bitrate: spec_resolve_bitrate(advertised_bitrate),
                threshold: spec_prefetch_bytes(spec_resolve_bitrate(advertised_bitrate)),
                buffered: Seq::<u8>::empty(),
                capacity: capacity as int,
                gain: initial_gain.spec_units(),
                frames: 0nat,
                source_exhausted: false,
                reported: false,
            }),
    {
        let bitrate = resolve_bitrate(advertised_bitrate);
        let s = PlaybackSession {
            phase: SessionPhase::Starting,
            cancel: CancelSignal::Running,
            bitrate,
            prefetch_threshold: prefetch_bytes(bitrate),
            window: BufferWindow::new(capacity),
            gain: initial_gain,
            frames_rendered: 0,
            source_exhausted: false,
            outcome_reported: false,
        };
        proof {
            assert(s@ =~= (SessionView {
                phase: SessionPhase::Starting,
                cancel: CancelSignal::Running,
                bitrate: spec_resolve_bitrate(advertised_bitrate),
                threshold: spec_prefetch_bytes(spec_resolve_bitrate(advertised_bitrate)),
                buffered: Seq::<u8>::empty(),
                capacity: capacity as int,
                gain: initial_gain.spec_units(),
                frames: 0nat,
                source_exhausted: false,
                reported: false,
            }));
        }
        s
    }

    /// Feeds bytes pulled from the stream source into the buffer window,
    /// accepting only what fits (backpressure) and reporting how much was
    /// accepted.
    pub fn feed(&mut self, chunk: &[u8]) -> (accepted: usize)
        requires
            old(self)@.wf(),
        ensures
            final(self)@.wf(),
            accepted == if chunk@.len() <= old(self)@.capacity - old(self)@.buffered.len() {
                chunk@.len() as int
            } else {
                old(self)@.capacity - old(self)@.buffered.len()
            },
            final(self)@ == old(self)@.with_buffered(
                old(self)@.buffered + chunk@.take(accepted as int),
            ),
    {
        let accepted = self.window.feed(chunk);
        proof {
            assert(self@ =~= old(self)@.with_buffered(
                old(self)@.buffered + chunk@.take(accepted as int),
            ));
        }
        accepted
    }

    /// Records that the stream source reached its end: once the window
    /// drains, the drive loop will terminate the session with
    /// `EndOfStream`.
    pub fn notify_source_exhausted(&mut self)
        requires
            old(self)@.wf(),
        ensures
            final(self)@.wf(),
            final(self)@ == old(self)@.with_source_exhausted(),
    {
        self.source_exhausted = true;
        proof {
            assert(self@ =~= old(self)@.with_source_exhausted());
        }
    }

    /// Requests cancellation: one-shot and idempotent — the signal leaves
    /// `Running` and nothing else changes; the driving loops observe it at
    /// their next poll.
    pub fn request_cancel(&mut self)
        requires
            old(self)@.wf(),
        ensures
            final(self)@.wf(),
            final(self)@ == old(self)@.with_cancel_requested(),
            final(self)@.cancel != CancelSignal::Running,
    {
        if self.cancel == CancelSignal::Running {
            self.cancel = CancelSignal::CancelRequested;
        }
        proof {
            assert(self@ =~= old(self)@.with_cancel_requested());
        }
    }

    /// Sets the sink gain; safe at any point in the session's life, and
    /// idempotent: the gain afterwards is exactly the volume given,
    /// whatever it was before.
    pub fn set_gain(&mut self, v: Volume)
        requires
            old(self)@.wf(),
            v.wf(),
        ensures
            final(self)@.wf(),
            final(self)@ == old(self)@.with_gain(v.spec_units()),
            final(self)@.gain == v.spec_units(),
    {
        self.gain = v;
        proof {
            assert(self@ =~= old(self)@.with_gain(v.spec_units()));
        }
    }

    /// Aborts the session with an error: any failure — stream open,
    /// prefetch, decode, device — moves it straight to
    /// `Terminated(Failed(reason))`.
    pub fn fail(&mut self, reason: PlayerError)
        requires
            old(self)@.wf(),
            !(old(self)@.phase is Terminated),
        ensures
            final(self)@.wf(),
            final(self)@ == old(self)@.terminated(Outcome::Failed(reason)),
    {
        self.phase = SessionPhase::Terminated(Outcome::Failed(reason));
        self.cancel = CancelSignal::Terminated;
        proof {
            assert(self@ =~= old(self)@.terminated(Outcome::Failed(reason)));
        }
    }

    /// One iteration of the sink-driving loop: polls cancellation, holds
    /// playback behind the prefetch gate, renders one frame of at most
    /// `frame_bytes` bytes while the session plays, and ends the stream when
    /// an exhausted source leaves the window empty. Returns the action taken
    /// and, when a frame was rendered, its bytes for the decoder.
    ///
    /// Cancellation latency: a requested cancellation is honored by the very
    /// next iteration — the sink is stopped and no further frame is
    /// rendered.
    pub fn drive_step(&mut self, frame_bytes: usize) -> (r: (DriveAction, Option<Vec<u8>>))
        requires
            old(self)@.wf(),
            1 <= frame_bytes,
            old(self)@.frames < u64::MAX,
        ensures
            final(self)@.wf(),
            final(self)@ == old(self)@.drive(frame_bytes).0,
            r.0 == old(self)@.drive(frame_bytes).1,
            r.1 is Some <==> r.0 == DriveAction::RenderFrame,
            r.0 == DriveAction::RenderFrame ==> r.1->0@ == old(self)@.buffered.take(
                old(self)@.frame_take(frame_bytes),
            ),
            old(self)@.cancel == CancelSignal::CancelRequested ==> {
                &&& r.0 == DriveAction::StopSink
                &&& final(self)@.phase == SessionPhase::Terminated(Outcome::StoppedByUser)
                &&& final(self)@.frames == old(self)@.frames
            },
            old(self)@.phase == SessionPhase::Starting && old(self)@.cancel
                == CancelSignal::Running && old(self)@.buffered.len() < old(self)@.threshold ==> {
                &&& r.0 == DriveAction::AwaitData
                &&& final(self)@.frames == 0
                &&& final(self)@.phase == SessionPhase::Starting
            },
            old(self)@.phase == SessionPhase::Starting && old(self)@.cancel
                == CancelSignal::Running && old(self)@.buffered.len() >= old(self)@.threshold ==> {
                &&& r.0 == DriveAction::BeginAudio
                &&& final(self)@.phase == SessionPhase::Playing
            },
    {
        let r: (DriveAction, Option<Vec<u8>>);
        let terminated = match self.phase {
            SessionPhase::Terminated(_) => true,
            _ => false,
        };
        if terminated {
            r = (DriveAction::StopSink, None);
        } else if self.cancel == CancelSignal::CancelRequested {
            self.phase = SessionPhase::Terminated(Outcome::StoppedByUser);
            self.cancel = CancelSignal::Terminated;
            r = (DriveAction::StopSink, None);
        } else if self.phase == SessionPhase::Starting {
            if self.window.prefetch_met(self.prefetch_threshold) {
                self.phase = SessionPhase::Playing;
                r = (DriveAction::BeginAudio, None);
            } else {
                r = (DriveAction::AwaitData, None);
            }
        } else if self.window.len() == 0 {
            if self.source_exhausted {
                self.phase = SessionPhase::Terminated(Outcome::EndOfStream);
                self.cancel = CancelSignal::Terminated;
                r = (DriveAction::StopSink, None);
            } else {
                r = (DriveAction::AwaitData, None);
            }
        } else {
            let buffered = self.window.len();
            let take: usize = if frame_bytes <= buffered {
                frame_bytes
            } else {
                buffered
            };
            let frame = self.window.consume(take);
            self.frames_rendered = self.frames_rendered + 1;
            r = (DriveAction::RenderFrame, Some(frame));
        }
        proof {
            assert(self@ =~= old(self)@.drive(frame_bytes).0);
        }
        r
    }

    /// One iteration of the volume synchronizer loop: applies the shared
    /// volume to the sink, then polls the cancellation signal; on observing
    /// a requested cancellation it tears the session down as stopped by the
    /// user. Repeated calls with the same volume leave the gain exactly
    /// there.
    pub fn volume_sync_step(&mut self, shared: Volume) -> (a: SyncAction)
        requires
            old(self)@.wf(),
            shared.wf(),
        ensures
            final(self)@.wf(),
            final(self)@ == old(self)@.sync(shared.spec_units()).0,
            a == old(self)@.sync(shared.spec_units()).1,
            final(self)@.gain == shared.spec_units(),
            old(self)@.cancel == CancelSignal::Running ==> a == SyncAction::Continue
                && final(self)@.phase == old(self)@.phase,
            old(self)@.cancel == CancelSignal::CancelRequested ==> a == SyncAction::StopAndExit
                && final(self)@.phase == SessionPhase::Terminated(Outcome::StoppedByUser)
                && final(self)@.frames == old(self)@.frames,
    {
        self.gain = shared;
        let a: SyncAction;
        if self.cancel == CancelSignal::CancelRequested {
            self.phase = SessionPhase::Terminated(Outcome::StoppedByUser);
            self.cancel = CancelSignal::Terminated;
            a = SyncAction::StopAndExit;
        } else if self.cancel == CancelSignal::Terminated {
            a = SyncAction::StopAndExit;
        } else {
            a = SyncAction::Continue;
        }
        proof {
            assert(self@ =~= old(self)@.sync(shared.spec_units()).0);
        }
        a
    }

    /// Surfaces the terminal outcome, exactly once: `Some` the first time it
    /// is asked of a terminated session, `None` ever after and `None` while
    /// the session still runs.
    pub fn take_outcome(&mut self) -> (o: Option<Outcome>)
        requires
            old(self)@.wf(),
        ensures
            final(self)@.wf(),
            o == if old(self)@.reported {
                None::<Outcome>
            } else {
                spec_outcome(old(self)@.phase)
            },
            o is Some ==> final(self)@ == (SessionView { reported: true, ..old(self)@ }),
            o is None ==> final(self)@ == old(self)@,
    {
        if self.outcome_reported {
            return None;
        }
        let o = match self.phase {
            SessionPhase::Terminated(out) => {
                self.outcome_reported = true;
                Some(out)
            },
            _ => None,
        };
        proof {
            if o is Some {
                assert(self@ =~= (SessionView { reported: true, ..old(self)@ }));
            } else {
                assert(self@ =~= old(self)@);
            }
        }
        o
    }

    /// Where the session stands.
    pub fn phase(&self) -> (p: SessionPhase)
        ensures
            p == self@.phase,
    {
        self.phase
    }

    /// The cancellation signal as last recorded.
    pub fn cancel_state(&self) -> (c: CancelSignal)
        ensures
            c == self@.cancel,
    {
        self.cancel
    }

    /// The sink gain as last applied.
    pub fn gain(&self) -> (v: Volume)
        ensures
            v.spec_units() == self@.gain,
    {
        self.gain
    }

    /// How many bytes are buffered but not yet decoded.
    pub fn buffered_len(&self) -> (n: usize)
        ensures
            n == self@.buffered.len(),
    {
        self.window.len()
    }

    /// The prefetch threshold playback is held behind.
    pub fn prefetch_threshold(&self) -> (n: u64)
        ensures
            n == self@.threshold,
    {
        self.prefetch_threshold
    }

    /// The bitrate the session runs with.
    pub fn bitrate(&self) -> (b: u32)
        ensures
            b == self@.bitrate,
    {
        self.bitrate
    }

    /// How many frames have been handed to the output device.
    pub fn frames_rendered(&self) -> (n: u64)
        ensures
            n == self@.frames,
    {
        self.frames_rendered
    }
}

/// Volume idempotence, as a law: applying a volume is absorbing — applying
/// the same volume again changes nothing, and the gain afterwards is exactly
/// the volume applied.
pub proof fn lemma_volume_idempotent(v: SessionView, gain: u32)
    ensures
        v.with_gain(gain).with_gain(gain) == v.with_gain(gain),
        v.with_gain(gain).gain == gain,
{
    assert(v.with_gain(gain).with_gain(gain) =~= v.with_gain(gain));
}

/// Cancellation is one-shot and idempotent, as a law: requesting it again
/// changes nothing, and after a request the signal is never `Running`.
pub proof fn lemma_cancel_request_idempotent(v: SessionView)
    ensures
        v.with_cancel_requested().with_cancel_requested() == v.with_cancel_requested(),
        v.with_cancel_requested().cancel != CancelSignal::Running,
{
    assert(v.with_cancel_requested().with_cancel_requested() =~= v.with_cancel_requested());
}

/// Cancellation latency, as a law: once cancellation is requested, the very
/// next iteration of the sink-driving loop stops the sink, terminates the
/// session as stopped by the user, and renders no further frame.
pub proof fn lemma_cancel_halts_drive(v: SessionView, frame_bytes: usize)
    requires
        v.wf(),
        v.cancel == CancelSignal::CancelRequested,
    ensures
        v.drive(frame_bytes).1 == DriveAction::StopSink,
        v.drive(frame_bytes).0.phase == SessionPhase::Terminated(Outcome::StoppedByUser),
        v.drive(frame_bytes).0.frames == v.frames,
{
}

/// At most one session plays, supporting law: a superseded session — one
/// whose cancellation signal has left `Running` — can never reach `Playing`
/// nor render another frame; its next drive iteration only stops the sink.
pub proof fn lemma_superseded_session_never_plays(v: SessionView, frame_bytes: usize)
    requires
        v.wf(),
        v.cancel != CancelSignal::Running,
    ensures
        v.drive(frame_bytes).0.phase is Terminated,
        v.drive(frame_bytes).0.frames == v.frames,
        v.drive(frame_bytes).1 == DriveAction::StopSink,
{
}

/// There is no transition out of `Terminated`, as a law: further drive
/// iterations leave a terminated session exactly as it is and only keep
/// telling the sink to stop. With `lemma_superseded_session_never_plays`
/// this pins the fate of a superseded session for its whole remaining life.
pub proof fn lemma_terminated_stays_terminated(v: SessionView, frame_bytes: usize)
    requires
        v.phase is Terminated,
    ensures
        v.drive(frame_bytes).0 == v,
        v.drive(frame_bytes).1 == DriveAction::StopSink,
{
}

/// The prefetch gate, as a law: while fewer bytes are buffered than the
/// threshold, a session in `Starting` neither begins audio nor renders a
/// frame — playback never starts before the prefetch is met.
pub proof fn lemma_prefetch_gate(v: SessionView, frame_bytes: usize)
    requires
        v.wf(),
        v.phase == SessionPhase::Starting,
        v.buffered.len() < v.threshold,
    ensures
        v.drive(frame_bytes).0.phase != SessionPhase::Playing,
        v.drive(frame_bytes).0.frames == 0,
        v.drive(frame_bytes).1 != DriveAction::BeginAudio,
        v.drive(frame_bytes).1 != DriveAction::RenderFrame,
{
}

/// Every transition preserves well-formedness: the buffer bound, the
/// threshold–bitrate tie, and the signal–phase agreement hold in every
/// reachable state.
pub proof fn lemma_drive_preserves_wf(v: SessionView, frame_bytes: usize)
    requires
        v.wf(),
    ensures
        v.drive(frame_bytes).0.wf(),
{
}

} // verus!
