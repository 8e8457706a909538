//! Frame pacing: when the next frame is due, how long to wait for it, and
//! the frames-per-second counter.
//!
//! Times are readings of a millisecond counter that starts again from zero
//! after its largest value, so the time between two readings is their
//! difference on that circle.

use vstd::prelude::*;

verus! {

/// The most frames that are started in a second.
pub const FRAME_RATE: u32 = 60;

/// The milliseconds of a second.
pub const SECOND: u32 = 1_000;

/// The shortest time between two frames in whole milliseconds: the first
/// whole number of them that is no less than a second divided by the frame
/// rate.
pub const INTERVAL: u32 = 17;

/// The frame counter is reported once more than this many milliseconds
/// have passed since the last report.
pub const REPORT_PERIOD: u32 = 1_000;

/// What the loop does at one reading of the clock.
#[derive(Clone, Copy, Debug, PartialEq, Eq, Structural)]
pub enum Tick {
    /// The frame is not due yet: sleep for this many milliseconds and read
    /// the clock again.
    Wait(u32),
    /// A frame is due. `elapsed` is the time since the previous frame in
    /// milliseconds; `fps` holds the number of frames counted since the
    /// last report when a report is due.
    Frame { elapsed: u32, fps: Option<u16> },
}

/// The milliseconds from the reading `from` to the reading `to`.
pub open spec fn elapsed(from: u32, to: u32) -> int {
    if from <= to {
        to - from
    } else {
        to - from + 0x1_0000_0000
    }
}

/// The timing state of the loop as plain values.
#[derive(Clone, Copy, Debug, PartialEq, Eq, Structural)]
pub struct ClockState {
    /// When the last frame started.
    pub last_tick: u32,
    /// When the frame counter was last reported.
    pub last_report: u32,
    /// The frames counted since then.
    pub frames: u16,
}

impl ClockState {
    /// The time from the last report to the last frame.
    pub open spec fn unreported(self) -> int {
        elapsed(self.last_report, self.last_tick)
    }

    /// What holds of the state of every loop that paces itself by `next`:
    /// the last frame lies no more than a report period after the last
    /// report, and the frames counted since fit, one interval apart, into
    /// the time that has passed and one interval more.
    pub open spec fn wf(self) -> bool {
        &&& self.unreported() <= REPORT_PERIOD
        &&& self.frames * INTERVAL <= self.unreported() + INTERVAL
    }

    /// The state in which a loop starts at time `now`.
    pub open spec fn start(now: u32) -> ClockState {
        ClockState { last_tick: now, last_report: now, frames: 0 }
    }

    /// Whether a frame is due at time `now`: at least a second divided by
    /// the frame rate has passed since the last frame.
    pub open spec fn due(self, now: u32) -> bool {
        FRAME_RATE * elapsed(self.last_tick, now) >= SECOND
    }

    /// Whether the frame that starts at `now` reports the frame counter.
    pub open spec fn reports(self, now: u32) -> bool {
        self.unreported() + elapsed(self.last_tick, now) > REPORT_PERIOD
    }

    /// The state after the clock was read at `now`.
    pub open spec fn next(self, now: u32) -> ClockState {
        if !self.due(now) {
            self
        } else if self.reports(now) {
            ClockState { last_tick: now, last_report: now, frames: 0 }
        } else {
            ClockState {
                last_tick: now,
                last_report: self.last_report,
                frames: (self.frames + 1) as u16,
            }
        }
    }

    /// What the loop does when the clock was read at `now`: it waits for
    /// the rest of the interval, or starts a frame.
    pub open spec fn decide(self, now: u32) -> Tick {
        if !self.due(now) {
            Tick::Wait((INTERVAL - elapsed(self.last_tick, now)) as u32)
        } else {
            Tick::Frame {
                elapsed: elapsed(self.last_tick, now) as u32,
                fps: if self.reports(now) {
                    Some((self.frames + 1) as u16)
                } else {
                    None
                },
            }
        }
    }
}

/// The milliseconds from the reading `from` to the reading `to`.
fn since(from: u32, to: u32) -> (ms: u32)
    ensures
        ms == elapsed(from, to),
{
    if from <= to {
        to - from
    } else {
        u32::MAX - from + to + 1
    }
}

/// The timing state of a running loop.
#[derive(Clone, Copy, Debug)]
pub struct FrameClock {
    state: ClockState,
}

impl View for FrameClock {
    type V = ClockState;

    closed spec fn view(&self) -> ClockState {
        self.state
    }
}

impl FrameClock {
    #[verifier::type_invariant]
    spec fn inv(&self) -> bool {
        self.state.wf()
    }

    /// The clock of a loop that starts at `now`.
    pub fn new(now: u32) -> (clock: FrameClock)
        ensures
            clock@ == ClockState::start(now),
    {
        FrameClock { state: ClockState { last_tick: now, last_report: now, frames: 0 } }
    }

    /// The timing state as plain values. It is always well formed.
    pub fn state(&self) -> (s: ClockState)
        ensures
            s == self@,
            s.wf(),
    {
        proof {
            use_type_invariant(self);
        }
        self.state
    }

    /// Reads the clock at `now`.
    ///
    /// While less than a second divided by `FRAME_RATE` has passed since
    /// the last frame, nothing changes and the result says how long to
    /// wait. Otherwise a frame starts at `now`: it is counted, and when more
    /// than `REPORT_PERIOD` has passed since the last report the count is
    /// handed out and starts again from zero.
    pub fn tick(&mut self, now: u32) -> (t: Tick)
        ensures
            final(self)@ == old(self)@.next(now),
            t == old(self)@.decide(now),
    {
        proof {
            use_type_invariant(&*self);
            lemma_frames_bounded(self@);
        }
        let dt = since(self.state.last_tick, now);
        if dt < INTERVAL {
            return Tick::Wait(INTERVAL - dt);
        }
        let frames = self.state.frames + 1;
        let unreported = since(self.state.last_report, self.state.last_tick);
        if unreported as u64 + dt as u64 > REPORT_PERIOD as u64 {
            self.state = ClockState { last_tick: now, last_report: now, frames: 0 };
            Tick::Frame { elapsed: dt, fps: Some(frames) }
        } else {
            self.state = ClockState { last_tick: now, last_report: self.state.last_report, frames };
            Tick::Frame { elapsed: dt, fps: None }
        }
    }
}

/// A whole number of milliseconds is at least a second divided by the
/// frame rate exactly when it is at least `INTERVAL`, which is 17.
pub proof fn lemma_interval(ms: int)
    ensures
        INTERVAL == 17,
        FRAME_RATE * ms >= SECOND <==> ms >= INTERVAL,
        FRAME_RATE * (INTERVAL - 1) < SECOND <= FRAME_RATE * INTERVAL,
{
}

/// In a well-formed state no more frames are counted than fit, one
/// interval apart, into a report period and one interval more: fewer than
/// the frame rate.
pub proof fn lemma_frames_bounded(s: ClockState)
    requires
        s.wf(),
    ensures
        s.frames * INTERVAL <= REPORT_PERIOD + INTERVAL,
        s.frames < FRAME_RATE,
{
}

/// A loop starts in a well-formed state, and reading the clock keeps the
/// state well formed.
pub proof fn lemma_next_wf(s: ClockState, now: u32)
    requires
        s.wf(),
    ensures
        s.next(now).wf(),
        ClockState::start(now).wf(),
{
}

/// The frame rate is capped: a frame starts only when at least a second
/// divided by the frame rate has passed since the one before, and then the
/// new frame starts at `now`. Until then the state stays as it is, and the
/// wait that is asked for ends exactly one interval after the last frame.
pub proof fn lemma_rate_is_capped(s: ClockState, now: u32)
    requires
        s.wf(),
    ensures
        s.decide(now) is Frame <==> FRAME_RATE * elapsed(s.last_tick, now) >= SECOND,
        s.decide(now) is Frame <==> elapsed(s.last_tick, now) >= INTERVAL,
        s.decide(now) is Frame ==> s.next(now).last_tick == now && s.decide(now)->elapsed
            == elapsed(s.last_tick, now),
        s.decide(now) matches Tick::Wait(ms) ==> s.next(now) == s && elapsed(s.last_tick, now)
            + ms == INTERVAL,
{
}

/// A count that is handed out never exceeds the frame rate, and the
/// counter starts again from zero.
pub proof fn lemma_report_resets(s: ClockState, now: u32)
    requires
        s.wf(),
        s.decide(now) matches Tick::Frame { fps: Some(_), .. },
    ensures
        s.decide(now)->fps == Some((s.frames + 1) as u16),
        s.frames + 1 <= FRAME_RATE,
        s.next(now).frames == 0,
        s.next(now).last_report == now,
        s.unreported() + elapsed(s.last_tick, now) > REPORT_PERIOD,
{
}

/// As long as the counter does not start again from zero between two
/// readings, the time between them is their plain difference, and a report
/// is due exactly when more than a report period lies between the last
/// report and `now`.
pub proof fn lemma_plain_differences(s: ClockState, now: u32)
    requires
        s.last_report <= s.last_tick <= now,
    ensures
        elapsed(s.last_tick, now) == now - s.last_tick,
        s.unreported() == s.last_tick - s.last_report,
        s.reports(now) <==> now - s.last_report > REPORT_PERIOD,
{
}

} // verus!
