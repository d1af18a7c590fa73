//! The repeating timer that gates how often a wave may start.

use vstd::prelude::*;
use crate::error::ConfigError;

verus! {

/// The canonical time between two waves: three seconds, in nanoseconds.
pub const WAVE_PERIOD: i64 = 3_000_000_000;

/// What a [`WaveTimer`] holds, as plain numbers.
pub struct TimerState {
    /// Time between two firings.
    pub period: nat,
    /// Time accumulated since the last firing or reset.
    pub elapsed: nat,
    /// Whether accumulation is halted.
    pub paused: bool,
    /// Whether the last tick fired.
    pub finished: bool,
}

impl TimerState {
    /// The period is positive and less than a period has accumulated.
    pub open spec fn wf(self) -> bool {
        self.period > 0 && self.elapsed < self.period
    }

    /// A running timer that has accumulated nothing.
    pub open spec fn fresh(period: nat) -> TimerState {
        TimerState { period, elapsed: 0, paused: false, finished: false }
    }

    /// Whether a tick of `delta` fires: the timer runs and the accumulated
    /// time reaches the period.
    pub open spec fn fires(self, delta: nat) -> bool {
        !self.paused && self.elapsed + delta >= self.period
    }

    /// The timer after a tick of `delta`. A paused timer accumulates nothing.
    /// A firing timer keeps what it accumulated beyond whole periods.
    pub open spec fn ticked(self, delta: nat) -> TimerState {
        if self.paused {
            TimerState { finished: false, ..self }
        } else if self.elapsed + delta >= self.period {
            TimerState {
                elapsed: (self.elapsed + delta) % self.period,
                finished: true,
                ..self
            }
        } else {
            TimerState { elapsed: self.elapsed + delta, finished: false, ..self }
        }
    }

    pub open spec fn with_pause(self) -> TimerState {
        TimerState { paused: true, ..self }
    }

    pub open spec fn without_pause(self) -> TimerState {
        TimerState { paused: false, ..self }
    }

    /// The timer with its progress cleared. Pausing is left as it was.
    pub open spec fn cleared(self) -> TimerState {
        TimerState { elapsed: 0, finished: false, ..self }
    }
}

/// A repeating countdown in nanoseconds.
pub struct WaveTimer {
    period: u64,
    elapsed: u64,
    paused: bool,
    finished: bool,
}

impl View for WaveTimer {
    type V = TimerState;

    closed spec fn view(&self) -> TimerState {
        TimerState {
            period: self.period as nat,
            elapsed: self.elapsed as nat,
            paused: self.paused,
            finished: self.finished,
        }
    }
}

impl WaveTimer {
    #[verifier::type_invariant]
    pub open spec fn inv(self) -> bool {
        self@.wf()
    }

    /// A running timer with the given period and nothing accumulated.
    /// A period of zero or less is refused.
    pub fn new(period: i64) -> (made: Result<WaveTimer, ConfigError>)
        ensures
            period <= 0 ==> made == Err::<WaveTimer, ConfigError>(ConfigError::NonPositivePeriod),
            period > 0 ==> made is Ok && made->Ok_0@ == TimerState::fresh(period as nat),
    {
        if period <= 0 {
            Err(ConfigError::NonPositivePeriod)
        } else {
            Ok(WaveTimer { period: period as u64, elapsed: 0, paused: false, finished: false })
        }
    }

    /// Advances the timer by `delta` and says whether it fired.
    pub fn tick(&mut self, delta: u64) -> (fired: bool)
        ensures
            final(self)@ == old(self)@.ticked(delta as nat),
            fired == old(self)@.fires(delta as nat),
    {
        proof {
            use_type_invariant(&*self);
        }
        if self.paused {
            self.finished = false;
            return false;
        }
        let total: u128 = self.elapsed as u128 + delta as u128;
        let period: u128 = self.period as u128;
        if total >= period {
            let rest: u128 = total % period;
            self.elapsed = rest as u64;
            self.finished = true;
            true
        } else {
            self.elapsed = total as u64;
            self.finished = false;
            false
        }
    }

    /// Halts accumulation.
    pub fn pause(&mut self)
        ensures
            final(self)@ == old(self)@.with_pause(),
    {
        proof {
            use_type_invariant(&*self);
        }
        self.paused = true;
    }

    /// Resumes accumulation.
    pub fn unpause(&mut self)
        ensures
            final(self)@ == old(self)@.without_pause(),
    {
        proof {
            use_type_invariant(&*self);
        }
        self.paused = false;
    }

    /// Clears the accumulated progress.
    pub fn reset(&mut self)
        ensures
            final(self)@ == old(self)@.cleared(),
    {
        proof {
            use_type_invariant(&*self);
        }
        self.elapsed = 0;
        self.finished = false;
    }

    pub fn period(&self) -> (p: u64)
        ensures
            p == self@.period,
    {
        self.period
    }

    pub fn elapsed(&self) -> (e: u64)
        ensures
            e == self@.elapsed,
    {
        self.elapsed
    }

    pub fn paused(&self) -> (p: bool)
        ensures
            p == self@.paused,
    {
        self.paused
    }

    /// Whether the last tick fired.
    pub fn finished(&self) -> (f: bool)
        ensures
            f == self@.finished,
    {
        self.finished
    }
}

} // verus!
