//! Decisions of the live-recording poll: on every tick, stop when asked,
//! wait until a whole window of captured audio that has not been read yet is
//! there, read it once, and transcribe it only when it holds speech (or when
//! speech detection is off).

use vstd::prelude::*;

verus! {

/// Seconds of audio in each window that the poll reads.
pub const WINDOW_SECONDS: u32 = 4;

/// Captured samples in a window of `seconds` at `rate` Hz with `channels`
/// interleaved channels, or `None` when that does not fit in a `usize`.
pub fn window_raw_len(rate: u32, channels: u16, seconds: u32) -> (r: Option<usize>)
    ensures
        r is Some <==> rate * channels * seconds <= usize::MAX,
        r matches Some(n) ==> n == rate * channels * seconds,
{
    assert(rate * seconds <= 0xffff_ffff * 0xffff_ffff) by (nonlinear_arith)
        requires
            rate <= 0xffff_ffff,
            seconds <= 0xffff_ffff,
    ;
    let frames: u64 = rate as u64 * seconds as u64;
    match frames.checked_mul(channels as u64) {
        None => {
            assert(rate * channels * seconds > u64::MAX) by (nonlinear_arith)
                requires
                    frames == rate * seconds,
                    frames * channels > u64::MAX,
            ;
            assert(rate * channels * seconds > usize::MAX);
            None
        },
        Some(n) => {
            assert(n == rate * channels * seconds) by (nonlinear_arith)
                requires
                    frames == rate * seconds,
                    n == frames * channels,
            ;
            if n > usize::MAX as u64 {
                None
            } else {
                Some(n as usize)
            }
        },
    }
}

/// How far the poll has read: the captured samples consumed so far, and the
/// length of a window in captured samples.
pub struct RecordPoll {
    pub consumed: usize,
    pub window: usize,
}

/// What the recording poll has just learned.
pub enum PollEvent {
    /// A tick: whether a stop was asked for, and how many samples have been
    /// captured so far.
    Tick { cancelled: bool, captured: usize },
    /// The window asked for has been read; whether speech detection is on.
    WindowRead { vad_enabled: bool },
    /// The speech detector's verdict on the window.
    SpeechJudged(bool),
}

/// What the recording poll does next.
pub enum PollAction {
    /// Leave the loop.
    Stop,
    /// Nothing to do this tick; wait for the next.
    Sleep,
    /// Read the captured samples `start .. start + len`.
    ReadWindow { start: usize, len: usize },
    /// Ask the speech detector about the window.
    JudgeSpeech,
    /// Transcribe the window and report its text.
    Transcribe,
    /// Report no text for the window.
    Skip,
}

/// Whether a whole unread window has been captured.
pub open spec fn window_ready(consumed: usize, window: usize, captured: usize) -> bool {
    consumed + window <= captured
}

/// The poll's answer to an event when `consumed` samples have been read and
/// a window is `window` samples long.
pub open spec fn poll_reaction(consumed: usize, window: usize, event: PollEvent) -> PollAction {
    match event {
        PollEvent::Tick { cancelled, captured } => if cancelled {
            PollAction::Stop
        } else if window_ready(consumed, window, captured) {
            PollAction::ReadWindow { start: consumed, len: window }
        } else {
            PollAction::Sleep
        },
        PollEvent::WindowRead { vad_enabled } => if vad_enabled {
            PollAction::JudgeSpeech
        } else {
            PollAction::Transcribe
        },
        PollEvent::SpeechJudged(speech) => if speech {
            PollAction::Transcribe
        } else {
            PollAction::Skip
        },
    }
}

/// The samples consumed after the poll answers an event: a window more when
/// it reads one, as many as before otherwise.
pub open spec fn consumed_after(consumed: usize, window: usize, event: PollEvent) -> int {
    match poll_reaction(consumed, window, event) {
        PollAction::ReadWindow { start, len } => start + len,
        _ => consumed as int,
    }
}

/// One step of the recording poll.
pub fn poll_step(state: &mut RecordPoll, event: PollEvent) -> (r: PollAction)
    ensures
        r == poll_reaction(old(state).consumed, old(state).window, event),
        final(state).consumed == consumed_after(old(state).consumed, old(state).window, event),
        final(state).window == old(state).window,
{
    match event {
        PollEvent::Tick { cancelled, captured } => {
            if cancelled {
                PollAction::Stop
            } else if state.consumed <= captured && state.window <= captured - state.consumed {
                let start = state.consumed;
                state.consumed = start + state.window;
                PollAction::ReadWindow { start, len: state.window }
            } else {
                PollAction::Sleep
            }
        },
        PollEvent::WindowRead { vad_enabled } => {
            if vad_enabled {
                PollAction::JudgeSpeech
            } else {
                PollAction::Transcribe
            }
        },
        PollEvent::SpeechJudged(speech) => {
            if speech {
                PollAction::Transcribe
            } else {
                PollAction::Skip
            }
        },
    }
}

/// Every captured sample is read at most once and in order: a window is read
/// only once it has been captured whole, starts where the last one ended and
/// moves the count on by exactly its length, and nothing else moves the
/// count; a stop comes exactly when one is asked for; and a window is
/// transcribed only when it holds speech or speech detection is off.
pub proof fn lemma_windows_read_once_in_order(consumed: usize, window: usize, event: PollEvent)
    ensures
        poll_reaction(consumed, window, event) matches PollAction::ReadWindow { start, len } ==> {
            &&& start == consumed
            &&& len == window
            &&& event matches PollEvent::Tick { captured, .. } && start + len <= captured
        },
        !(poll_reaction(consumed, window, event) is ReadWindow) ==> consumed_after(consumed, window, event)
            == consumed,
        consumed_after(consumed, window, event) >= consumed,
        poll_reaction(consumed, window, event) is Stop <==> (event matches PollEvent::Tick {
            cancelled,
            ..
        } && cancelled),
        poll_reaction(consumed, window, event) is Transcribe <==> (event == (PollEvent::WindowRead {
            vad_enabled: false,
        }) || event == PollEvent::SpeechJudged(true)),
{
}

/// The poll never falls behind for good: on a tick that is not a stop, it
/// reads the next window whenever the samples captured reach at least one
/// whole window past those consumed, however far ahead the capture is, and it
/// sleeps only when they do not.
pub proof fn lemma_poll_reads_every_ready_window(consumed: usize, window: usize, captured: usize)
    ensures
        consumed + window <= captured ==> poll_reaction(
            consumed,
            window,
            PollEvent::Tick { cancelled: false, captured },
        ) == (PollAction::ReadWindow { start: consumed, len: window }),
        consumed + window <= captured ==> consumed_after(
            consumed,
            window,
            PollEvent::Tick { cancelled: false, captured },
        ) == consumed + window,
        poll_reaction(consumed, window, PollEvent::Tick { cancelled: false, captured }) is Sleep
            <==> captured < consumed + window,
        poll_reaction(consumed, window, PollEvent::Tick { cancelled: true, captured }) is Stop,
{
}

} // verus!
