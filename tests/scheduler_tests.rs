use icc_auto_reloader::gamma::{GammaRamp, ProbeError};
use icc_auto_reloader::scheduler::{
    after_sample, interval_is_valid, PollingState, ReloadScheduler, SchedulerError, TickAction,
    TickStep, TimerCommand,
};
use icc_auto_reloader::settings::CalibrationConfig;

fn config(interval: u32, enabled: bool) -> CalibrationConfig {
    CalibrationConfig { polling_interval_ms: interval, polling_enabled: enabled, language: 0, configured: true }
}

fn identity_ramp() -> GammaRamp {
    let mut ramp = [[0u16; 256]; 3];
    for channel in ramp.iter_mut() {
        for (i, entry) in channel.iter_mut().enumerate() {
            *entry = (i as u32 * 257) as u16;
        }
    }
    ramp
}

fn calibrated_ramp() -> GammaRamp {
    let mut ramp = identity_ramp();
    for channel in ramp.iter_mut() {
        for (i, entry) in channel.iter_mut().enumerate() {
            *entry = (i as u32 * 240) as u16;
        }
    }
    ramp
}

/// Runs one tick and reports whether it launched a reload.
fn tick(scheduler: &ReloadScheduler, sample: Result<GammaRamp, ProbeError>) -> bool {
    match scheduler.on_tick() {
        TickStep::Stale => false,
        TickStep::Sample(_) => after_sample(&sample) == TickAction::Reload,
    }
}

#[test]
fn starts_enabled_from_the_loaded_config() {
    let scheduler = ReloadScheduler::new(&config(3000, true));
    assert_eq!(scheduler.state(), PollingState::Enabled);
    assert!(scheduler.is_polling_enabled());
    assert_eq!(scheduler.interval_ms(), 3000);
    assert_eq!(scheduler.timer(), Some(3000));
    assert_eq!(scheduler.start(), TimerCommand::Arm(3000));
}

#[test]
fn starts_disabled_from_the_loaded_config() {
    let scheduler = ReloadScheduler::new(&config(4000, false));
    assert_eq!(scheduler.state(), PollingState::Disabled);
    assert_eq!(scheduler.timer(), None);
    assert_eq!(scheduler.start(), TimerCommand::Keep);
    assert_eq!(scheduler.on_tick(), TickStep::Stale);
}

#[test]
fn set_interval_while_enabled_rearms_at_the_new_period() {
    let mut scheduler = ReloadScheduler::new(&config(3000, true));
    assert_eq!(scheduler.set_interval(5000), Ok(TimerCommand::Arm(5000)));
    assert_eq!(scheduler.timer(), Some(5000));
    assert_eq!(scheduler.on_tick(), TickStep::Sample(5000));
    assert_eq!(scheduler.state(), PollingState::Enabled);
}

#[test]
fn set_interval_while_disabled_only_stores_it() {
    let mut scheduler = ReloadScheduler::new(&config(3000, false));
    assert_eq!(scheduler.set_interval(8000), Ok(TimerCommand::Keep));
    assert_eq!(scheduler.timer(), None);
    assert_eq!(scheduler.interval_ms(), 8000);
    assert_eq!(scheduler.set_polling_enabled(true), TimerCommand::Arm(8000));
    assert_eq!(scheduler.on_tick(), TickStep::Sample(8000));
}

#[test]
fn interval_out_of_range_is_rejected() {
    let mut scheduler = ReloadScheduler::new(&config(3000, true));
    assert_eq!(scheduler.set_interval(15000), Err(SchedulerError::IntervalOutOfRange));
    assert_eq!(scheduler.interval_ms(), 3000);
    assert_eq!(scheduler.timer(), Some(3000));
    assert_eq!(scheduler.set_interval(999), Err(SchedulerError::IntervalOutOfRange));
    assert_eq!(scheduler.enable(10001), Err(SchedulerError::IntervalOutOfRange));
    assert_eq!(scheduler.on_tick(), TickStep::Sample(3000));
    assert!(interval_is_valid(1000));
    assert!(interval_is_valid(10000));
    assert!(!interval_is_valid(10001));
    assert!(!interval_is_valid(0));
}

#[test]
fn tick_after_disable_is_stale() {
    let mut scheduler = ReloadScheduler::new(&config(3000, true));
    assert_eq!(scheduler.disable(), TimerCommand::Cancel);
    assert_eq!(scheduler.on_tick(), TickStep::Stale);
    assert!(!tick(&scheduler, Ok(identity_ramp())));
    assert_eq!(scheduler.timer(), None);
    assert_eq!(scheduler.interval_ms(), 3000);
}

#[test]
fn disable_twice_is_a_no_op() {
    let mut scheduler = ReloadScheduler::new(&config(3000, false));
    assert_eq!(scheduler.disable(), TimerCommand::Keep);
    assert_eq!(scheduler.state(), PollingState::Disabled);
}

#[test]
fn enable_applies_the_requested_interval() {
    let mut scheduler = ReloadScheduler::new(&config(3000, false));
    assert_eq!(scheduler.enable(2000), Ok(TimerCommand::Arm(2000)));
    assert_eq!(scheduler.state(), PollingState::Enabled);
    assert_eq!(scheduler.enable(6000), Ok(TimerCommand::Arm(6000)));
    assert_eq!(scheduler.timer(), Some(6000));
}

#[test]
fn toggle_flips_polling() {
    let mut scheduler = ReloadScheduler::new(&config(4000, true));
    assert_eq!(scheduler.toggle_polling(), TimerCommand::Cancel);
    assert!(!scheduler.is_polling_enabled());
    assert_eq!(scheduler.toggle_polling(), TimerCommand::Arm(4000));
    assert!(scheduler.is_polling_enabled());
}

#[test]
fn three_calibrated_ticks_launch_no_reload() {
    let scheduler = ReloadScheduler::new(&config(3000, true));
    let mut reloads = 0;
    for _ in 0..3 {
        if tick(&scheduler, Ok(calibrated_ramp())) {
            reloads += 1;
        }
    }
    assert_eq!(reloads, 0);
}

#[test]
fn one_linear_tick_launches_one_reload() {
    let scheduler = ReloadScheduler::new(&config(3000, true));
    let mut reloads = 0;
    for sample in [Ok(calibrated_ramp()), Ok(identity_ramp()), Ok(calibrated_ramp())] {
        if tick(&scheduler, sample) {
            reloads += 1;
        }
    }
    assert_eq!(reloads, 1);
    assert_eq!(scheduler.state(), PollingState::Enabled);
}

#[test]
fn unavailable_sample_launches_no_reload() {
    assert_eq!(after_sample(&Err(ProbeError::Unavailable)), TickAction::Idle);
    assert_eq!(after_sample(&Ok(identity_ramp())), TickAction::Reload);
    assert_eq!(after_sample(&Ok(calibrated_ramp())), TickAction::Idle);
}

#[test]
fn config_to_save_reflects_the_scheduler() {
    let base = CalibrationConfig { polling_interval_ms: 3000, polling_enabled: true, language: 2, configured: true };
    let mut scheduler = ReloadScheduler::new(&base);
    scheduler.set_interval(7000).unwrap();
    scheduler.disable();
    let saved = scheduler.to_config(&base);
    assert_eq!(
        saved,
        CalibrationConfig { polling_interval_ms: 7000, polling_enabled: false, language: 2, configured: true }
    );
}
