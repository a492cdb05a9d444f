//! Keeps a display's calibration active: detects when the video card's gamma
//! ramp has fallen back to the identity ramp and decides when the calibration
//! helper has to reassert the installed profile.
//!
//! Everything here is pure decision logic over plain values. Reading the gamma
//! ramp, the settings store, launching the helper and driving the timer are
//! left to the caller, which hands the outcomes back in.
pub mod gamma;
pub mod settings;
pub mod installer;
pub mod scheduler;
pub mod startup;
pub mod text;
pub mod wizard;
