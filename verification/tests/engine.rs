use relmy_vibes::buffer::{
    prefetch_bytes, resolve_bitrate, BufferWindow, BUFFER_CAPACITY_BYTES,
    DEFAULT_BITRATE_BITS_PER_SEC,
};
use relmy_vibes::controller::Controller;
use relmy_vibes::errors::PlayerError;
use relmy_vibes::session::{
    CancelSignal, DriveAction, Outcome, PlaybackSession, SessionPhase, SyncAction,
};
use relmy_vibes::volume::Volume;

#[test]
fn prefetch_formula_64000() {
    assert_eq!(prefetch_bytes(64000), 64000 / 8 * 2);
    assert_eq!(prefetch_bytes(64000), 16000);
}

#[test]
fn prefetch_formula_128000() {
    assert_eq!(prefetch_bytes(128000), 128000 / 8 * 2);
    assert_eq!(prefetch_bytes(128000), 32000);
}

#[test]
fn prefetch_formula_320000() {
    assert_eq!(prefetch_bytes(320000), 320000 / 8 * 2);
    assert_eq!(prefetch_bytes(320000), 80000);
}

#[test]
fn missing_bitrate_falls_back_to_default() {
    assert_eq!(resolve_bitrate(None), DEFAULT_BITRATE_BITS_PER_SEC);
    assert_eq!(resolve_bitrate(Some(96000)), 96000);
}

#[test]
fn bounded_memory_under_infinite_source() {
    // A source that never runs dry: the window must never exceed capacity,
    // however long it runs.
    let mut w = BufferWindow::new(1024);
    let chunk = [7u8; 300];
    for round in 0..10_000 {
        let accepted = w.feed(&chunk);
        assert!(w.len() <= w.capacity());
        assert!(accepted <= 300);
        // Drain a little now and then, as a decoder would.
        if round % 3 == 0 && w.len() >= 100 {
            let taken = w.consume(100);
            assert_eq!(taken.len(), 100);
        }
    }
    assert!(w.len() <= 1024);
}

#[test]
fn full_window_applies_backpressure() {
    let mut w = BufferWindow::new(8);
    assert_eq!(w.free_space(), 8);
    assert_eq!(w.feed(&[1, 2, 3, 4, 5, 6]), 6);
    assert_eq!(w.free_space(), 2);
    assert_eq!(w.feed(&[7, 8, 9, 10]), 2); // only what fits
    assert_eq!(w.len(), 8);
    assert_eq!(w.feed(&[11]), 0); // full: nothing accepted
    assert_eq!(w.free_space(), 0);
    let head = w.consume(3);
    assert_eq!(head, vec![1, 2, 3]);
    assert_eq!(w.feed(&[11, 12, 13]), 3); // resumes as the decoder drains
    assert_eq!(w.len(), 8);
}

#[test]
fn consume_is_fifo() {
    let mut w = BufferWindow::new(16);
    w.feed(&[1, 2, 3, 4, 5]);
    assert_eq!(w.consume(2), vec![1, 2]);
    assert_eq!(w.consume(3), vec![3, 4, 5]);
    assert_eq!(w.len(), 0);
}

#[test]
fn prefetch_gate_blocks_playback_until_threshold() {
    // bitrate 64000 -> threshold 16000 bytes.
    let mut s = PlaybackSession::new(Some(64000), BUFFER_CAPACITY_BYTES, Volume::full());
    assert_eq!(s.prefetch_threshold(), 16000);
    let chunk = [0u8; 15999];
    assert_eq!(s.feed(&chunk), 15999);
    // One byte short of the threshold: playback stays held back.
    let (a, f) = s.drive_step(4096);
    assert_eq!(a, DriveAction::AwaitData);
    assert!(f.is_none());
    assert_eq!(s.phase(), SessionPhase::Starting);
    assert_eq!(s.frames_rendered(), 0);
    // The last byte arrives: the threshold is met, audio begins.
    assert_eq!(s.feed(&[0u8]), 1);
    let (a, _) = s.drive_step(4096);
    assert_eq!(a, DriveAction::BeginAudio);
    assert_eq!(s.phase(), SessionPhase::Playing);
    // Only now is a frame rendered.
    let (a, f) = s.drive_step(4096);
    assert_eq!(a, DriveAction::RenderFrame);
    assert_eq!(f.unwrap().len(), 4096);
    assert_eq!(s.frames_rendered(), 1);
}

#[test]
fn cancellation_stops_by_next_drive_poll() {
    let mut s = PlaybackSession::new(Some(64000), BUFFER_CAPACITY_BYTES, Volume::full());
    let chunk = [0u8; 16000];
    s.feed(&chunk);
    s.drive_step(4096); // gate opens
    s.drive_step(4096); // one frame plays
    assert_eq!(s.frames_rendered(), 1);
    s.request_cancel();
    assert_eq!(s.cancel_state(), CancelSignal::CancelRequested);
    // The very next poll stops the sink: no further frame, ever.
    let (a, f) = s.drive_step(4096);
    assert_eq!(a, DriveAction::StopSink);
    assert!(f.is_none());
    assert_eq!(s.phase(), SessionPhase::Terminated(Outcome::StoppedByUser));
    assert_eq!(s.frames_rendered(), 1);
    let (a, f) = s.drive_step(4096);
    assert_eq!(a, DriveAction::StopSink);
    assert!(f.is_none());
    assert_eq!(s.frames_rendered(), 1);
}

#[test]
fn cancellation_observed_by_synchronizer() {
    let mut s = PlaybackSession::new(Some(64000), BUFFER_CAPACITY_BYTES, Volume::full());
    let v = Volume::new(400);
    assert_eq!(s.volume_sync_step(v), SyncAction::Continue);
    assert_eq!(s.gain().units(), 400);
    s.request_cancel();
    assert_eq!(s.volume_sync_step(v), SyncAction::StopAndExit);
    assert_eq!(s.phase(), SessionPhase::Terminated(Outcome::StoppedByUser));
}

#[test]
fn cancel_request_is_idempotent() {
    let mut s = PlaybackSession::new(None, BUFFER_CAPACITY_BYTES, Volume::full());
    s.request_cancel();
    assert_eq!(s.cancel_state(), CancelSignal::CancelRequested);
    s.request_cancel();
    s.request_cancel();
    assert_eq!(s.cancel_state(), CancelSignal::CancelRequested);
}

#[test]
fn volume_is_idempotent_and_retained_from_starting() {
    let mut c = Controller::new();
    assert_eq!(c.volume().units(), 1000);
    // Set while nothing plays: retained for the next session.
    let v = Volume::new(250);
    c.set_volume(v);
    c.set_volume(v);
    c.set_volume(v);
    assert_eq!(c.volume().units(), 250);
    let prev = c.begin_play();
    assert!(prev.is_none());
    c.on_stream_opened(Some(128000), BUFFER_CAPACITY_BYTES);
    // The session opened with the retained volume as its sink gain.
    assert_eq!(c.session_gain().unwrap().units(), 250);
    // The synchronizer applies the shared value; repeating changes nothing.
    assert_eq!(c.sync_session(), SyncAction::Continue);
    assert_eq!(c.sync_session(), SyncAction::Continue);
    assert_eq!(c.session_gain().unwrap().units(), 250);
    c.set_volume(Volume::new(250));
    assert_eq!(c.session_gain().unwrap().units(), 250);
    assert_eq!(c.volume().units(), 250);
}

#[test]
fn at_most_one_session_new_play_supersedes() {
    let mut c = Controller::new();
    // First play request.
    let prev = c.begin_play();
    assert!(prev.is_none());
    c.on_stream_opened(Some(64000), BUFFER_CAPACITY_BYTES);
    c.feed_session(&[0u8; 16000]);
    let (a, _) = c.drive_session(4096);
    assert_eq!(a, DriveAction::BeginAudio);
    assert_eq!(c.session_phase(), Some(SessionPhase::Playing));
    // Second play request without a stop: the first session is handed back
    // with cancellation already requested.
    let prev = c.begin_play();
    let mut first = prev.expect("the superseded session is handed back");
    assert_eq!(first.cancel_state(), CancelSignal::CancelRequested);
    c.on_stream_opened(Some(64000), BUFFER_CAPACITY_BYTES);
    // The superseded session can only terminate: it never plays again.
    let (a, f) = first.drive_step(4096);
    assert_eq!(a, DriveAction::StopSink);
    assert!(f.is_none());
    assert_eq!(first.phase(), SessionPhase::Terminated(Outcome::StoppedByUser));
    // The new session is the one that reaches Playing.
    c.feed_session(&[0u8; 16000]);
    let (a, _) = c.drive_session(4096);
    assert_eq!(a, DriveAction::BeginAudio);
    assert_eq!(c.session_phase(), Some(SessionPhase::Playing));
}

#[test]
fn open_failure_leaves_engine_clean_for_next_play() {
    let mut c = Controller::new();
    // Station A: the stream never opens.
    let prev = c.begin_play();
    assert!(prev.is_none());
    let outcome = c.on_open_failed(PlayerError::StreamOpenError);
    assert_eq!(outcome, Outcome::Failed(PlayerError::StreamOpenError));
    assert!(!c.has_session());
    assert_eq!(c.session_phase(), None);
    // Station B: a subsequent play starts from a clean state and succeeds.
    let prev = c.begin_play();
    assert!(prev.is_none());
    c.on_stream_opened(Some(128000), BUFFER_CAPACITY_BYTES);
    c.feed_session(&[0u8; 32000]);
    let (a, _) = c.drive_session(4096);
    assert_eq!(a, DriveAction::BeginAudio);
    assert_eq!(c.session_phase(), Some(SessionPhase::Playing));
}

#[test]
fn decode_error_aborts_session_and_is_reported_once() {
    let mut c = Controller::new();
    c.begin_play();
    c.on_stream_opened(Some(128000), BUFFER_CAPACITY_BYTES);
    c.fail_session(PlayerError::DecodeOpenError);
    assert_eq!(
        c.session_phase(),
        Some(SessionPhase::Terminated(Outcome::Failed(PlayerError::DecodeOpenError)))
    );
    assert_eq!(c.reap(), Some(Outcome::Failed(PlayerError::DecodeOpenError)));
    assert!(!c.has_session());
    assert_eq!(c.reap(), None);
}

#[test]
fn device_error_aborts_mid_playback() {
    let mut s = PlaybackSession::new(Some(64000), BUFFER_CAPACITY_BYTES, Volume::full());
    s.feed(&[0u8; 16000]);
    s.drive_step(4096);
    assert_eq!(s.phase(), SessionPhase::Playing);
    s.fail(PlayerError::DeviceError);
    assert_eq!(
        s.phase(),
        SessionPhase::Terminated(Outcome::Failed(PlayerError::DeviceError))
    );
    assert_eq!(s.take_outcome(), Some(Outcome::Failed(PlayerError::DeviceError)));
    assert_eq!(s.take_outcome(), None);
}

#[test]
fn decode_runtime_error_reported() {
    let mut s = PlaybackSession::new(None, BUFFER_CAPACITY_BYTES, Volume::full());
    s.fail(PlayerError::DecodeRuntimeError);
    assert_eq!(s.take_outcome(), Some(Outcome::Failed(PlayerError::DecodeRuntimeError)));
}

#[test]
fn missing_metadata_error_reported() {
    let mut s = PlaybackSession::new(None, BUFFER_CAPACITY_BYTES, Volume::full());
    s.fail(PlayerError::MissingStreamMetadata);
    assert_eq!(s.take_outcome(), Some(Outcome::Failed(PlayerError::MissingStreamMetadata)));
}

#[test]
fn stop_without_session_is_noop() {
    let mut c = Controller::new();
    c.stop();
    assert!(!c.has_session());
    assert_eq!(c.reap(), None);
}

#[test]
fn end_to_end_one_mebibyte_of_silence() {
    // A fake stream source of exactly 1 MiB of encoded silence at a declared
    // bitrate of 128000 bits/s: prefetch threshold 32000 bytes.
    const TOTAL: usize = 1 << 20;
    const CHUNK: usize = 4000;
    const FRAME: usize = 4096;
    let mut c = Controller::new();
    let prev = c.begin_play();
    assert!(prev.is_none());
    c.on_stream_opened(Some(128000), BUFFER_CAPACITY_BYTES);
    let source = vec![0u8; TOTAL];
    let mut offset = 0usize;
    let mut began = false;
    let mut consumed = 0usize;
    // Starting: the session keeps waiting until exactly the
    // threshold is buffered.
    let mut buffered = 0usize;
    while !began {
        assert_eq!(c.session_phase(), Some(SessionPhase::Starting));
        let end = (offset + CHUNK).min(TOTAL);
        let accepted = c.feed_session(&source[offset..end]);
        offset += accepted;
        buffered += accepted;
        let (a, f) = c.drive_session(FRAME);
        if buffered >= 32000 {
            assert_eq!(a, DriveAction::BeginAudio);
            began = true;
        } else {
            assert_eq!(a, DriveAction::AwaitData);
        }
        assert!(f.is_none());
    }
    assert_eq!(c.session_phase(), Some(SessionPhase::Playing));
    // Playing: feed the rest and render until the source runs dry.
    loop {
        if offset < TOTAL {
            let end = (offset + CHUNK).min(TOTAL);
            offset += c.feed_session(&source[offset..end]);
        } else {
            c.mark_source_exhausted();
        }
        let (a, f) = c.drive_session(FRAME);
        match a {
            DriveAction::RenderFrame => {
                consumed += f.unwrap().len();
            }
            DriveAction::AwaitData => {}
            DriveAction::StopSink => break,
            DriveAction::BeginAudio => unreachable!(),
        }
    }
    // Every byte of the mebibyte was decoded, and the session ended with
    // end-of-stream, reported exactly once.
    assert_eq!(consumed, TOTAL);
    assert_eq!(
        c.session_phase(),
        Some(SessionPhase::Terminated(Outcome::EndOfStream))
    );
    assert_eq!(c.reap(), Some(Outcome::EndOfStream));
    assert!(!c.has_session());
    assert_eq!(c.reap(), None);
}

#[test]
fn session_gain_starts_at_shared_volume() {
    let s = PlaybackSession::new(Some(128000), BUFFER_CAPACITY_BYTES, Volume::new(330));
    assert_eq!(s.gain().units(), 330);
    assert_eq!(s.bitrate(), 128000);
    assert_eq!(s.buffered_len(), 0);
}

#[test]
fn set_gain_applies_during_starting() {
    let mut s = PlaybackSession::new(Some(128000), BUFFER_CAPACITY_BYTES, Volume::full());
    assert_eq!(s.phase(), SessionPhase::Starting);
    s.set_gain(Volume::new(120));
    s.set_gain(Volume::new(120));
    assert_eq!(s.gain().units(), 120);
}
