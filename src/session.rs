use crate::frames::{depad_frame, depad_rows, GifCaptureFrames};
use crate::encode::{
    all_frames_fit, encode_gif, encoded_from, encoded_shape, first_bad_frame, EncodedGif,
    GifEncodeError,
};
use crate::layout::RowLayout;
use crate::settings::GifCaptureSettings;
use crate::timer::CaptureTimer;
use vstd::prelude::*;

verus! {

/// Where a capture session stands.
#[derive(Clone, Copy, Debug, PartialEq, Eq, Structural)]
pub enum GifCaptureState {
    Off,
    CurrentlyCapturing,
    JustFinishedCapturing,
}

impl Default for GifCaptureState {
    fn default() -> (r: GifCaptureState)
        ensures
            r == GifCaptureState::Off,
    {
        GifCaptureState::Off
    }
}

/// What a start signal does when it meets the end of a capture window: on the
/// tick the window closes, or while the finished capture still waits for its
/// encode.
#[derive(Clone, Copy, Debug, PartialEq, Eq, Structural)]
pub enum RestartPolicy {
    /// The start signal restarts the capture; the pending encode is dropped.
    RestartWins,
    /// The finished capture is encoded; the start signal is ignored.
    FinishWins,
}

impl Default for RestartPolicy {
    /// A new start always supersedes what is in progress.
    fn default() -> (r: RestartPolicy)
        ensures
            r == RestartPolicy::RestartWins,
    {
        RestartPolicy::RestartWins
    }
}

/// The start signals of a tick, however many, counted as one.
#[derive(Clone, Copy, Debug, PartialEq, Eq, Structural)]
pub struct GifCaptureStartEvent;

/// Capture of the primary surface into animated GIFs: the choices a host
/// makes once, when it sets capture up.
#[derive(Clone, Copy, Debug, PartialEq, Eq, Structural)]
pub struct GifCapturePlugin {
    pub policy: RestartPolicy,
}

impl Default for GifCapturePlugin {
    fn default() -> (r: GifCapturePlugin)
        ensures
            r.policy == RestartPolicy::RestartWins,
    {
        GifCapturePlugin { policy: RestartPolicy::RestartWins }
    }
}

impl GifCapturePlugin {
    /// The session that a host starts with: off, with no frames, its window
    /// as long as the settings say.
    pub fn session(&self, settings: &GifCaptureSettings) -> (r: CaptureSession)
        ensures
            r.wf(),
            r.state == GifCaptureState::Off,
            r.timer == CaptureTimer::started(settings.duration),
            r.frames@ == Seq::<Seq<u8>>::empty(),
            r.policy == self.policy,
    {
        CaptureSession::new(settings.duration, self.policy)
    }
}

/// Whether a start signal observed on a tick restarts the capture, given the
/// state before the tick and whether the timer closed the window on it.
pub open spec fn start_accepted(
    state: GifCaptureState,
    start: bool,
    window_closed: bool,
    policy: RestartPolicy,
) -> bool {
    start && !(policy == RestartPolicy::FinishWins && (state
        == GifCaptureState::JustFinishedCapturing || (state == GifCaptureState::CurrentlyCapturing
        && window_closed)))
}

/// The state after one tick.
pub open spec fn next_state(
    state: GifCaptureState,
    start: bool,
    window_closed: bool,
    policy: RestartPolicy,
) -> GifCaptureState {
    if start_accepted(state, start, window_closed, policy) {
        GifCaptureState::CurrentlyCapturing
    } else if window_closed && state == GifCaptureState::CurrentlyCapturing {
        GifCaptureState::JustFinishedCapturing
    } else {
        state
    }
}

/// One capture session: its state, the timer over its window, and the
/// frames captured so far.
pub struct CaptureSession {
    pub state: GifCaptureState,
    pub timer: CaptureTimer,
    pub frames: GifCaptureFrames,
    pub policy: RestartPolicy,
}

impl CaptureSession {
    pub open spec fn wf(&self) -> bool {
        &&& self.timer.wf()
        &&& self.state == GifCaptureState::JustFinishedCapturing ==> self.timer.finished
    }

    /// The timer after a tick of `delta` nanoseconds with or without a start signal.
    pub open spec fn timer_after(self, delta: u64, start: bool) -> CaptureTimer {
        step(self.state, self.timer, self.policy, delta, start).1
    }

    /// A session that is off, with a window of `duration` nanoseconds and no frames.
    pub fn new(duration: u64, policy: RestartPolicy) -> (r: CaptureSession)
        ensures
            r.wf(),
            r.state == GifCaptureState::Off,
            r.timer == CaptureTimer::started(duration),
            r.frames@ == Seq::<Seq<u8>>::empty(),
            r.policy == policy,
    {
        CaptureSession {
            state: GifCaptureState::Off,
            timer: CaptureTimer::new(duration),
            frames: GifCaptureFrames::new(),
            policy,
        }
    }

    /// Advances the session by one tick of `delta` nanoseconds; `start` tells
    /// whether a start signal was observed on it.
    ///
    /// The timer is advanced first. An accepted start signal restarts the
    /// timer and sets the state to capturing; otherwise a capture whose
    /// window closed on this tick becomes just finished. Frames are untouched.
    pub fn tick(&mut self, delta: u64, start: bool)
        requires
            old(self).wf(),
        ensures
            final(self).wf(),
            final(self).state == next_state(
                old(self).state,
                start,
                old(self).timer.advanced(delta).just_finished,
                old(self).policy,
            ),
            final(self).timer == old(self).timer_after(delta, start),
            (final(self).state, final(self).timer) == step(
                old(self).state,
                old(self).timer,
                old(self).policy,
                delta,
                start,
            ),
            final(self).frames@ == old(self).frames@,
            final(self).policy == old(self).policy,
    {
        self.timer.tick(delta);
        let closed = self.timer.just_finished;
        let finish_wins = match self.policy {
            RestartPolicy::FinishWins => true,
            RestartPolicy::RestartWins => false,
        };
        let blocked = finish_wins && match self.state {
            GifCaptureState::JustFinishedCapturing => true,
            GifCaptureState::CurrentlyCapturing => closed,
            GifCaptureState::Off => false,
        };
        if start && !blocked {
            self.timer.reset();
            self.state = GifCaptureState::CurrentlyCapturing;
        } else if closed && self.state == GifCaptureState::CurrentlyCapturing {
            self.state = GifCaptureState::JustFinishedCapturing;
        }
    }

    /// Sets the length of the capture window. A session that is off takes it
    /// at once; a capture in progress or waiting for its encode keeps the
    /// window it has.
    pub fn set_window(&mut self, duration: u64)
        requires
            old(self).wf(),
        ensures
            final(self).wf(),
            final(self).state == old(self).state,
            final(self).frames@ == old(self).frames@,
            final(self).policy == old(self).policy,
            old(self).state == GifCaptureState::Off ==> final(self).timer == CaptureTimer::started(
                duration,
            ),
            old(self).state != GifCaptureState::Off ==> final(self).timer == old(self).timer,
    {
        if self.state == GifCaptureState::Off {
            self.timer = CaptureTimer::new(duration);
        }
    }

    /// Stores the frame of a mapped read-back buffer while capturing.
    ///
    /// `mapped` is `None` when the surface had no texture on this tick; the
    /// tick is then skipped. Outside a capture nothing is stored.
    pub fn capture_frame(&mut self, mapped: Option<&Vec<u8>>, layout: &RowLayout)
        requires
            layout.wf(),
            mapped matches Some(m) ==> m@.len() == layout.buffer_size,
        ensures
            final(self).frames@ == if old(self).state == GifCaptureState::CurrentlyCapturing
                && mapped is Some {
                old(self).frames@.push(
                    depad_rows(
                        mapped.unwrap()@,
                        layout.unpadded_bytes_per_row as nat,
                        layout.padded_bytes_per_row as nat,
                        layout.height as nat,
                    ),
                )
            } else {
                old(self).frames@
            },
            final(self).state == old(self).state,
            final(self).timer == old(self).timer,
            final(self).policy == old(self).policy,
            old(self).wf() ==> final(self).wf(),
    {
        if self.state == GifCaptureState::CurrentlyCapturing {
            if let Some(m) = mapped {
                let frame = depad_frame(m, layout);
                self.frames.push(frame);
            }
        }
    }

    /// Whether the stored frames wait to be encoded.
    pub fn encode_pending(&self) -> (r: bool)
        ensures
            r == (self.state == GifCaptureState::JustFinishedCapturing),
    {
        self.state == GifCaptureState::JustFinishedCapturing
    }

    /// Encodes the stored frames when the capture has just finished, and
    /// closes the session whatever the encode gave; otherwise does nothing
    /// and returns `None`.
    pub fn finish_capture(&mut self, settings: &GifCaptureSettings, width: u16, height: u16) -> (r: Option<Result<EncodedGif, GifEncodeError>>)
        requires
            old(self).wf(),
            settings.wf(),
        ensures
            final(self).wf(),
            final(self).policy == old(self).policy,
            final(self).timer == old(self).timer,
            old(self).state != GifCaptureState::JustFinishedCapturing ==> {
                &&& r is None
                &&& final(self).state == old(self).state
                &&& final(self).frames@ == old(self).frames@
            },
            old(self).state == GifCaptureState::JustFinishedCapturing ==> {
                &&& r is Some
                &&& final(self).state == GifCaptureState::Off
                &&& final(self).frames@ == Seq::<Seq<u8>>::empty()
                &&& (all_frames_fit(old(self).frames@, width, height) <==> r matches Some(Ok(_)))
                &&& (r matches Some(Err(e)) ==> e is FrameSize)
                &&& (r matches Some(Err(GifEncodeError::FrameSize(i))) ==> first_bad_frame(old(self).frames@, width, height, i as int))
                &&& (r matches Some(Ok(g)) ==> encoded_shape(old(self).frames@, width, height, g))
                &&& (r matches Some(Ok(g)) ==> encoded_from(
                    old(self).frames@,
                    settings.repeat,
                    settings.speed,
                    g,
                ))
            },
    {
        if self.state != GifCaptureState::JustFinishedCapturing {
            return None;
        }
        let result = encode_gif(self.frames.frames(), width, height, settings.repeat, settings.speed);
        self.end_session();
        Some(result)
    }

    /// Closes the session after its encode, whether the encode succeeded or
    /// not: the state goes back to off and the stored frames are dropped.
    pub fn end_session(&mut self)
        requires
            old(self).wf(),
        ensures
            final(self).wf(),
            final(self).state == GifCaptureState::Off,
            final(self).frames@ == Seq::<Seq<u8>>::empty(),
            final(self).timer == old(self).timer,
            final(self).policy == old(self).policy,
    {
        self.state = GifCaptureState::Off;
        self.frames.clear();
    }
}

/// A start signal on a session that is off begins a capture on the same tick
/// and restarts its window.
pub proof fn lemma_start_from_off(s: CaptureSession, delta: u64)
    requires
        s.wf(),
        s.state == GifCaptureState::Off,
    ensures
        next_state(s.state, true, s.timer.advanced(delta).just_finished, s.policy)
            == GifCaptureState::CurrentlyCapturing,
        s.timer_after(delta, true).elapsed == 0,
{
}

/// A capture goes on while its window is open, and becomes just finished on
/// the tick that the window closes, when no start signal comes.
pub proof fn lemma_capture_until_window_closes(s: CaptureSession, delta: u64)
    requires
        s.wf(),
        s.state == GifCaptureState::CurrentlyCapturing,
        !s.timer.finished,
    ensures
        next_state(s.state, false, s.timer.advanced(delta).just_finished, s.policy) == if s.timer.elapsed
            + delta >= s.timer.duration {
            GifCaptureState::JustFinishedCapturing
        } else {
            GifCaptureState::CurrentlyCapturing
        },
{
}

/// A capture whose window has closed is reported as just finished once: the
/// next tick without a start signal leaves that state alone, and the timer
/// does not close the window again.
pub proof fn lemma_just_finished_once(s: CaptureSession, delta: u64)
    requires
        s.wf(),
        s.state == GifCaptureState::JustFinishedCapturing,
    ensures
        next_state(s.state, false, s.timer.advanced(delta).just_finished, s.policy)
            == GifCaptureState::JustFinishedCapturing,
        !s.timer.advanced(delta).just_finished,
{
}

/// A start signal during a capture restarts its window without leaving the
/// capture, as long as the finish does not take precedence on that tick.
pub proof fn lemma_restart_while_capturing(s: CaptureSession, delta: u64)
    requires
        s.wf(),
        s.state == GifCaptureState::CurrentlyCapturing,
        s.policy == RestartPolicy::RestartWins || !s.timer.advanced(delta).just_finished,
    ensures
        next_state(s.state, true, s.timer.advanced(delta).just_finished, s.policy)
            == GifCaptureState::CurrentlyCapturing,
        s.timer_after(delta, true).elapsed == 0,
        s.timer_after(delta, true).duration == s.timer.duration,
{
}

} // verus!

verus! {

/// State and timer after one tick, for a session with the given policy.
pub open spec fn step(
    state: GifCaptureState,
    timer: CaptureTimer,
    policy: RestartPolicy,
    delta: u64,
    start: bool,
) -> (GifCaptureState, CaptureTimer) {
    let advanced = timer.advanced(delta);
    (
        next_state(state, start, advanced.just_finished, policy),
        if start_accepted(state, start, advanced.just_finished, policy) {
            CaptureTimer::started(timer.duration)
        } else {
            advanced
        },
    )
}

/// State and timer after a run of ticks of the given lengths, none with a
/// start signal.
pub open spec fn run_without_start(
    state: GifCaptureState,
    timer: CaptureTimer,
    policy: RestartPolicy,
    deltas: Seq<u64>,
) -> (GifCaptureState, CaptureTimer)
    decreases deltas.len(),
{
    if deltas.len() == 0 {
        (state, timer)
    } else {
        let (s, t) = run_without_start(state, timer, policy, deltas.drop_last());
        step(s, t, policy, deltas.last(), false)
    }
}

/// Sum of tick lengths.
pub open spec fn total_time(deltas: Seq<u64>) -> int
    decreases deltas.len(),
{
    if deltas.len() == 0 {
        0
    } else {
        total_time(deltas.drop_last()) + deltas.last()
    }
}

/// A capture in progress, left without start signals, stays capturing while
/// the time it has run is below its duration, and is just finished from the
/// first tick whose end reaches the duration on. Since that time only grows, the
/// capture becomes just finished exactly once.
pub proof fn lemma_capture_window(
    timer: CaptureTimer,
    policy: RestartPolicy,
    deltas: Seq<u64>,
)
    requires
        timer.wf(),
        !timer.finished,
    ensures
        ({
            let (s, t) = run_without_start(
                GifCaptureState::CurrentlyCapturing,
                timer,
                policy,
                deltas,
            );
            &&& t.wf()
            &&& t.duration == timer.duration
            &&& s == if deltas.len() > 0 && timer.elapsed + total_time(deltas) >= timer.duration {
                GifCaptureState::JustFinishedCapturing
            } else {
                GifCaptureState::CurrentlyCapturing
            }
            &&& s == GifCaptureState::JustFinishedCapturing ==> t.finished
            &&& s == GifCaptureState::CurrentlyCapturing ==> !t.finished && t.elapsed
                == timer.elapsed + total_time(deltas)
        }),
    decreases deltas.len(),
{
    if deltas.len() > 0 {
        let prev = deltas.drop_last();
        lemma_capture_window(timer, policy, prev);
        let (s, t) = run_without_start(GifCaptureState::CurrentlyCapturing, timer, policy, prev);
        if s == GifCaptureState::CurrentlyCapturing {
            crate::timer::lemma_timer_finishes_at_duration(t, deltas.last());
        }
    }
}

} // verus!

verus! {

proof fn lemma_total_time_constant(k: nat, d: u64)
    ensures
        total_time(Seq::new(k, |i: int| d)) == k * d,
    decreases k,
{
    if k > 0 {
        let s = Seq::new(k, |i: int| d);
        assert(s.drop_last() =~= Seq::new((k - 1) as nat, |i: int| d));
        lemma_total_time_constant((k - 1) as nat, d);
        assert(s.last() == d);
        assert(k * d == (k - 1) * d + d) by (nonlinear_arith);
    } else {
        assert(k * d == 0) by (nonlinear_arith)
            requires k == 0;
    }
}

/// A two second window ticked at 60 ticks per second (16 666 667 ns each),
/// started on a tick of its own: after each of the first 119 ticks the
/// capture goes on, and the 120th tick finishes it.
pub proof fn lemma_two_seconds_at_sixty_hertz(policy: RestartPolicy, k: nat)
    requires
        1 <= k <= 120,
    ensures
        run_without_start(
            GifCaptureState::CurrentlyCapturing,
            CaptureTimer::started(2_000_000_000),
            policy,
            Seq::new(k, |i: int| 16_666_667u64),
        ).0 == if k == 120 {
            GifCaptureState::JustFinishedCapturing
        } else {
            GifCaptureState::CurrentlyCapturing
        },
{
    lemma_total_time_constant(k, 16_666_667u64);
    lemma_capture_window(CaptureTimer::started(2_000_000_000), policy, Seq::new(k, |i: int| 16_666_667u64));
    if k < 120 {
        assert(k * 16_666_667 <= 119 * 16_666_667) by (nonlinear_arith)
            requires k <= 119;
    }
}

} // verus!
