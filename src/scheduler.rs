//! The reload scheduler: a two-state machine that owns the polling interval
//! and the poll timer, and decides on each tick whether a reload is due.
//!
//! The caller runs the event loop: it carries out each `TimerCommand`, samples
//! the gamma ramp when a tick asks for it, and launches the reload when the
//! sample calls for one.
use vstd::prelude::*;
use crate::gamma::{drift_of, is_gamma_linear, DriftState, GammaRamp, ProbeError};
use crate::settings::{
    interval_in_range, CalibrationConfig, MAX_INTERVAL_MS, MIN_INTERVAL_MS,
};

verus! {

/// Whether the gamma ramp is checked periodically.
#[derive(Clone, Copy, Debug, PartialEq, Eq, Structural)]
pub enum PollingState {
    Disabled,
    Enabled,
}

/// What the caller does with the poll timer.
#[derive(Clone, Copy, Debug, PartialEq, Eq, Structural)]
pub enum TimerCommand {
    /// Leave the timer as it is.
    Keep,
    /// (Re)arm the repeating timer with this period, in milliseconds.
    Arm(u32),
    /// Stop the timer.
    Cancel,
}

/// What a tick of the poll timer asks of the caller.
#[derive(Clone, Copy, Debug, PartialEq, Eq, Structural)]
pub enum TickStep {
    /// Polling has been disabled since the tick was queued: sample nothing and
    /// stop the timer.
    Stale,
    /// Keep the timer at this period, in milliseconds, and sample the ramp.
    Sample(u32),
}

/// What to do once a tick's sample has been taken.
#[derive(Clone, Copy, Debug, PartialEq, Eq, Structural)]
pub enum TickAction {
    /// The calibration was lost: reassert the last profile.
    Reload,
    /// Nothing to do this tick.
    Idle,
}

/// Why a change of the polling interval was refused.
#[derive(Clone, Copy, Debug, PartialEq, Eq, Structural)]
pub enum SchedulerError {
    /// The interval lies outside the accepted range; nothing was changed.
    IntervalOutOfRange,
}

/// The scheduler's state, the interval it polls at, and the period the poll
/// timer is armed with (none while stopped).
#[derive(Clone, Copy, Debug, PartialEq, Eq, Structural)]
pub struct ReloadScheduler {
    state: PollingState,
    interval_ms: u32,
    timer: Option<u32>,
}

/// The abstract state of a scheduler.
pub struct SchedulerView {
    pub state: PollingState,
    pub interval_ms: u32,
    pub timer: Option<u32>,
}

impl View for ReloadScheduler {
    type V = SchedulerView;

    closed spec fn view(&self) -> SchedulerView {
        SchedulerView { state: self.state, interval_ms: self.interval_ms, timer: self.timer }
    }
}

/// The timer runs, at the current interval, exactly while polling is enabled.
pub open spec fn view_wf(s: SchedulerView) -> bool {
    &&& interval_in_range(s.interval_ms as int)
    &&& s.timer == (if s.state == PollingState::Enabled {
        Some(s.interval_ms)
    } else {
        None::<u32>
    })
}

/// The state after enabling polling at `ms`.
pub open spec fn enable_spec(s: SchedulerView, ms: u32) -> SchedulerView {
    SchedulerView { state: PollingState::Enabled, interval_ms: ms, timer: Some(ms) }
}

/// The state after disabling polling: the interval is kept.
pub open spec fn disable_spec(s: SchedulerView) -> SchedulerView {
    SchedulerView { state: PollingState::Disabled, interval_ms: s.interval_ms, timer: None }
}

/// The state after a change of interval: a running timer is re-armed.
pub open spec fn set_interval_spec(s: SchedulerView, ms: u32) -> SchedulerView {
    SchedulerView {
        state: s.state,
        interval_ms: ms,
        timer: if s.state == PollingState::Enabled {
            Some(ms)
        } else {
            None
        },
    }
}

/// What a tick asks for in a given state.
pub open spec fn tick_spec(s: SchedulerView) -> TickStep {
    if s.state == PollingState::Enabled {
        TickStep::Sample(s.interval_ms)
    } else {
        TickStep::Stale
    }
}

/// What a sampling attempt calls for: a reload exactly when the ramp was read
/// and is the identity.
pub open spec fn action_of(sample: Result<GammaRamp, ProbeError>) -> TickAction {
    if drift_of(sample) == DriftState::Linear {
        TickAction::Reload
    } else {
        TickAction::Idle
    }
}

/// The command that starts a scheduler in a given state.
pub open spec fn start_command(s: SchedulerView) -> TimerCommand {
    if s.state == PollingState::Enabled {
        TimerCommand::Arm(s.interval_ms)
    } else {
        TimerCommand::Keep
    }
}

/// Whether `ms` is an accepted interval.
pub fn interval_is_valid(ms: u32) -> (r: bool)
    ensures
        r == interval_in_range(ms as int),
{
    MIN_INTERVAL_MS <= ms && ms <= MAX_INTERVAL_MS
}

impl ReloadScheduler {
    /// The scheduler's invariant.
    pub open spec fn wf(&self) -> bool {
        view_wf(self@)
    }

    /// A scheduler started from a loaded configuration: enabled at the loaded
    /// interval when polling is enabled, else disabled.
    pub fn new(config: &CalibrationConfig) -> (r: ReloadScheduler)
        requires
            config.wf(),
        ensures
            r.wf(),
            r@.interval_ms == config.polling_interval_ms,
            r@.state == (if config.polling_enabled {
                PollingState::Enabled
            } else {
                PollingState::Disabled
            }),
    {
        if config.polling_enabled {
            ReloadScheduler {
                state: PollingState::Enabled,
                interval_ms: config.polling_interval_ms,
                timer: Some(config.polling_interval_ms),
            }
        } else {
            ReloadScheduler {
                state: PollingState::Disabled,
                interval_ms: config.polling_interval_ms,
                timer: None,
            }
        }
    }

    /// The timer command that brings a freshly started scheduler into effect.
    pub fn start(&self) -> (r: TimerCommand)
        requires
            self.wf(),
        ensures
            r == start_command(self@),
    {
        match self.state {
            PollingState::Enabled => TimerCommand::Arm(self.interval_ms),
            PollingState::Disabled => TimerCommand::Keep,
        }
    }

    /// The current state.
    pub fn state(&self) -> (r: PollingState)
        ensures
            r == self@.state,
    {
        self.state
    }

    /// Whether polling is enabled.
    pub fn is_polling_enabled(&self) -> (r: bool)
        ensures
            r == (self@.state == PollingState::Enabled),
    {
        match self.state {
            PollingState::Enabled => true,
            PollingState::Disabled => false,
        }
    }

    /// The polling interval, in milliseconds.
    pub fn interval_ms(&self) -> (r: u32)
        ensures
            r == self@.interval_ms,
    {
        self.interval_ms
    }

    /// The period the poll timer is armed with, if it runs.
    pub fn timer(&self) -> (r: Option<u32>)
        ensures
            r == self@.timer,
    {
        self.timer
    }

    /// Enables polling at `ms` and arms the timer with it; when already
    /// enabled, only the interval is applied. An interval out of range is
    /// refused and nothing changes.
    pub fn enable(&mut self, ms: u32) -> (r: Result<TimerCommand, SchedulerError>)
        requires
            old(self).wf(),
        ensures
            final(self).wf(),
            interval_in_range(ms as int) ==> r == Ok::<TimerCommand, SchedulerError>(
                TimerCommand::Arm(ms),
            ) && final(self)@ == enable_spec(old(self)@, ms),
            !interval_in_range(ms as int) ==> r == Err::<TimerCommand, SchedulerError>(
                SchedulerError::IntervalOutOfRange,
            ) && final(self)@ == old(self)@,
    {
        if !interval_is_valid(ms) {
            return Err(SchedulerError::IntervalOutOfRange);
        }
        self.state = PollingState::Enabled;
        self.interval_ms = ms;
        self.timer = Some(ms);
        Ok(TimerCommand::Arm(ms))
    }

    /// Disables polling and stops the timer; does nothing when already
    /// disabled. The interval is kept as the stored preference.
    pub fn disable(&mut self) -> (r: TimerCommand)
        requires
            old(self).wf(),
        ensures
            final(self).wf(),
            final(self)@ == disable_spec(old(self)@),
            r == (if old(self)@.state == PollingState::Enabled {
                TimerCommand::Cancel
            } else {
                TimerCommand::Keep
            }),
    {
        match self.state {
            PollingState::Enabled => {
                self.state = PollingState::Disabled;
                self.timer = None;
                TimerCommand::Cancel
            },
            PollingState::Disabled => TimerCommand::Keep,
        }
    }

    /// Changes the polling interval. While enabled the timer is re-armed with
    /// the new period at once; while disabled only the preference changes. An
    /// interval out of range is refused and nothing changes.
    pub fn set_interval(&mut self, ms: u32) -> (r: Result<TimerCommand, SchedulerError>)
        requires
            old(self).wf(),
        ensures
            final(self).wf(),
            interval_in_range(ms as int) ==> final(self)@ == set_interval_spec(old(self)@, ms)
                && r == Ok::<TimerCommand, SchedulerError>(
                if old(self)@.state == PollingState::Enabled {
                    TimerCommand::Arm(ms)
                } else {
                    TimerCommand::Keep
                },
            ),
            !interval_in_range(ms as int) ==> r == Err::<TimerCommand, SchedulerError>(
                SchedulerError::IntervalOutOfRange,
            ) && final(self)@ == old(self)@,
    {
        if !interval_is_valid(ms) {
            return Err(SchedulerError::IntervalOutOfRange);
        }
        self.interval_ms = ms;
        match self.state {
            PollingState::Enabled => {
                self.timer = Some(ms);
                Ok(TimerCommand::Arm(ms))
            },
            PollingState::Disabled => Ok(TimerCommand::Keep),
        }
    }

    /// Enables polling at the current interval, or disables it.
    pub fn set_polling_enabled(&mut self, enabled: bool) -> (r: TimerCommand)
        requires
            old(self).wf(),
        ensures
            final(self).wf(),
            enabled ==> final(self)@ == enable_spec(old(self)@, old(self)@.interval_ms) && r
                == TimerCommand::Arm(old(self)@.interval_ms),
            !enabled ==> final(self)@ == disable_spec(old(self)@) && r == (if old(self)@.state
                == PollingState::Enabled {
                TimerCommand::Cancel
            } else {
                TimerCommand::Keep
            }),
    {
        if enabled {
            self.state = PollingState::Enabled;
            self.timer = Some(self.interval_ms);
            TimerCommand::Arm(self.interval_ms)
        } else {
            self.disable()
        }
    }

    /// Flips polling between enabled and disabled.
    pub fn toggle_polling(&mut self) -> (r: TimerCommand)
        requires
            old(self).wf(),
        ensures
            final(self).wf(),
            old(self)@.state == PollingState::Disabled ==> final(self)@ == enable_spec(
                old(self)@,
                old(self)@.interval_ms,
            ) && r == TimerCommand::Arm(old(self)@.interval_ms),
            old(self)@.state == PollingState::Enabled ==> final(self)@ == disable_spec(old(self)@)
                && r == TimerCommand::Cancel,
    {
        let enabled = self.is_polling_enabled();
        self.set_polling_enabled(!enabled)
    }

    /// A tick of the poll timer. The state is checked afresh: a tick queued
    /// before polling was disabled is stale and samples nothing. Otherwise the
    /// timer is kept at the current interval and the ramp is to be sampled.
    pub fn on_tick(&self) -> (r: TickStep)
        requires
            self.wf(),
        ensures
            r == tick_spec(self@),
    {
        match self.state {
            PollingState::Enabled => TickStep::Sample(self.interval_ms),
            PollingState::Disabled => TickStep::Stale,
        }
    }

    /// The configuration to save: `base` with this scheduler's interval and
    /// enabled state.
    pub fn to_config(&self, base: &CalibrationConfig) -> (r: CalibrationConfig)
        requires
            self.wf(),
            base.wf(),
        ensures
            r.wf(),
            r == (CalibrationConfig {
                polling_interval_ms: self@.interval_ms,
                polling_enabled: self@.state == PollingState::Enabled,
                ..*base
            }),
    {
        CalibrationConfig {
            polling_interval_ms: self.interval_ms,
            polling_enabled: self.is_polling_enabled(),
            language: base.language,
            configured: base.configured,
        }
    }
}

/// What a tick does with its sample: a reload when the ramp was read and is
/// the identity; nothing when it is calibrated or could not be read.
pub fn after_sample(sample: &Result<GammaRamp, ProbeError>) -> (r: TickAction)
    ensures
        r == action_of(*sample),
{
    if is_gamma_linear(sample) {
        TickAction::Reload
    } else {
        TickAction::Idle
    }
}

/// While polling is enabled, changing the interval arms the timer with the new
/// period and the next tick runs at it; the old period is gone.
pub proof fn lemma_set_interval_rearms(s: SchedulerView, ms: u32)
    requires
        view_wf(s),
        s.state == PollingState::Enabled,
        interval_in_range(ms as int),
    ensures
        view_wf(set_interval_spec(s, ms)),
        set_interval_spec(s, ms).state == PollingState::Enabled,
        set_interval_spec(s, ms).timer == Some(ms),
        tick_spec(set_interval_spec(s, ms)) == TickStep::Sample(ms),
{
}

/// A tick that arrives after polling was disabled is stale: it samples
/// nothing, whatever state polling was disabled from.
pub proof fn lemma_tick_after_disable_is_stale(s: SchedulerView)
    requires
        view_wf(s),
    ensures
        view_wf(disable_spec(s)),
        tick_spec(disable_spec(s)) == TickStep::Stale,
{
}

} // verus!
