//! A reusable cooldown/duration primitive: an elapsed-time or tick-count
//! gated boolean trigger that can deactivate itself after a configured
//! number of firings.
//!
//! The simulation core is a discrete-step model and never reads a clock
//! itself: the driver hands every time-gated entry point the current time
//! in milliseconds.

use vstd::prelude::*;

verus! {

/// A cooldown timer. `duration` is the optional maximum number of
/// firings (`0` means unlimited), `current` the number of firings so
/// far. Time that appears to run backwards is clamped defensively: the
/// elapsed time is then treated as zero.
#[derive(Clone, Debug)]
pub struct Timer {
    /// Time of the last firing (milliseconds).
    pub last_action_time: u64,
    /// Minimum time between firings (milliseconds).
    pub interval_ms: u64,
    /// Maximum number of firings; `0` means no maximum.
    pub duration: u32,
    /// Number of firings since the last start or reset.
    pub current: u32,
    /// Whether the timer still fires at all.
    pub active: bool,
    /// A diagnostic label.
    pub name: String,
}

/// The elapsed time `now - last`, clamped to zero when time appears to
/// have run backwards.
pub open spec fn elapsed_ms(last: u64, now: u64) -> int {
    if now >= last {
        now - last
    } else {
        0
    }
}

/// Whether a tick at time `now` fires the timer.
pub open spec fn timer_fires(t: Timer, now: u64) -> bool {
    t.active && elapsed_ms(t.last_action_time, now) >= t.interval_ms
}

impl Timer {
    /// A fresh, active timer with the given firing interval and no
    /// maximum number of firings.
    pub fn new(interval_ms: u64, now_ms: u64) -> (t: Timer)
        ensures
            t.last_action_time == now_ms,
            t.interval_ms == interval_ms,
            t.duration == 0,
            t.current == 0,
            t.active,
            t.name@ == Seq::<char>::empty(),
    {
        Timer {
            last_action_time: now_ms,
            interval_ms,
            duration: 0,
            current: 0,
            active: true,
            name: String::new(),
        }
    }

    /// A fresh, active timer that deactivates after `duration` firings.
    pub fn new_with_duration(interval_ms: u64, duration: u32, name: &str, now_ms: u64) -> (t: Timer)
        ensures
            t.last_action_time == now_ms,
            t.interval_ms == interval_ms,
            t.duration == duration,
            t.current == 0,
            t.active,
            t.name@ == name@,
    {
        Timer {
            last_action_time: now_ms,
            interval_ms,
            duration,
            current: 0,
            active: true,
            name: name.to_string(),
        }
    }

    /// Elapsed-time gated trigger: returns true and rearms when at least
    /// `interval_ms` have passed since the last firing; when a maximum
    /// number of firings is configured and reached, the timer
    /// deactivates (that final tick still reports true).
    pub fn tick(&mut self, now_ms: u64) -> (fired: bool)
        ensures
            fired == timer_fires(*old(self), now_ms),
            final(self).interval_ms == old(self).interval_ms,
            final(self).duration == old(self).duration,
            final(self).name == old(self).name,
            !fired ==> *final(self) == *old(self),
            fired ==> final(self).last_action_time == now_ms,
            fired ==> final(self).current == old(self).current.checked_add(1).unwrap_or(u32::MAX),
            fired ==> final(self).active == !(old(self).duration > 0
                && final(self).current >= old(self).duration),
    {
        if !self.active {
            return false;
        }

        let elapsed: u64 = if now_ms >= self.last_action_time {
            now_ms - self.last_action_time
        } else {
            0
        };

        if elapsed >= self.interval_ms {
            self.last_action_time = now_ms;
            self.current = self.current.saturating_add(1);

            if self.duration > 0 && self.current >= self.duration {
                self.active = false;
                return true;
            }

            return true;
        }

        false
    }

    /// Tick-count gated trigger: counts one tick and reports true only
    /// on the tick that exhausts a configured maximum, deactivating the
    /// timer then.
    pub fn logic_tick(&mut self) -> (expired: bool)
        ensures
            final(self).interval_ms == old(self).interval_ms,
            final(self).duration == old(self).duration,
            final(self).last_action_time == old(self).last_action_time,
            final(self).name == old(self).name,
            !old(self).active ==> *final(self) == *old(self) && !expired,
            old(self).active ==> final(self).current
                == old(self).current.checked_add(1).unwrap_or(u32::MAX),
            old(self).active ==> expired == (old(self).duration > 0
                && final(self).current >= old(self).duration),
            old(self).active ==> final(self).active == !expired,
    {
        if !self.active {
            return false;
        }

        self.current = self.current.saturating_add(1);

        if self.duration > 0 && self.current >= self.duration {
            self.active = false;
            true
        } else {
            false
        }
    }

    /// Rearm the timer: firings reset to zero, the timer reactivates and
    /// the elapsed time restarts at `now_ms`.
    pub fn start(&mut self, now_ms: u64)
        ensures
            *final(self) == (Timer {
                current: 0,
                active: true,
                last_action_time: now_ms,
                ..*old(self)
            }),
    {
        self.current = 0;
        self.active = true;
        self.last_action_time = now_ms;
    }

    /// Deactivate the timer; further ticks report false until it is
    /// started or reset.
    pub fn stop(&mut self)
        ensures
            *final(self) == (Timer { active: false, ..*old(self) }),
    {
        self.active = false;
    }

    /// Same as `start`: rearm the timer.
    pub fn reset(&mut self, now_ms: u64)
        ensures
            *final(self) == (Timer {
                current: 0,
                active: true,
                last_action_time: now_ms,
                ..*old(self)
            }),
    {
        self.current = 0;
        self.active = true;
        self.last_action_time = now_ms;
    }

    /// Whether the timer still fires at all.
    pub fn is_active(&self) -> (r: bool)
        ensures
            r == self.active,
    {
        self.active
    }

    /// How many firings are left before the timer deactivates; zero when
    /// inactive or when no maximum is configured.
    pub fn remaining(&self) -> (r: u32)
        ensures
            r == if !self.active || self.duration == 0 {
                0u32
            } else if self.duration >= self.current {
                (self.duration - self.current) as u32
            } else {
                0u32
            },
    {
        if !self.active || self.duration == 0 {
            return 0;
        }
        if self.duration >= self.current {
            self.duration - self.current
        } else {
            0
        }
    }

    /// Change the firing interval.
    pub fn set_interval(&mut self, interval_ms: u64)
        ensures
            *final(self) == (Timer { interval_ms, ..*old(self) }),
    {
        self.interval_ms = interval_ms;
    }

    /// Change the maximum number of firings (`0` means no maximum).
    pub fn set_duration(&mut self, duration: u32)
        ensures
            *final(self) == (Timer { duration, ..*old(self) }),
    {
        self.duration = duration;
    }

    /// Change the diagnostic label.
    pub fn set_name(&mut self, name: &str)
        ensures
            final(self).name@ == name@,
            final(self).last_action_time == old(self).last_action_time,
            final(self).interval_ms == old(self).interval_ms,
            final(self).duration == old(self).duration,
            final(self).current == old(self).current,
            final(self).active == old(self).active,
    {
        self.name = name.to_string();
    }

    /// The diagnostic label.
    pub fn name(&self) -> (r: &str)
        ensures
            r@ == self.name@,
    {
        self.name.as_str()
    }
}

} // verus!
