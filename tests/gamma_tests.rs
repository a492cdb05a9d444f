use icc_auto_reloader::gamma::{
    classify, entry_within_tolerance, is_gamma_linear, sample_drift, DriftState, GammaRamp,
    ProbeError,
};

fn identity_ramp() -> GammaRamp {
    let mut ramp = [[0u16; 256]; 3];
    for channel in ramp.iter_mut() {
        for (i, entry) in channel.iter_mut().enumerate() {
            *entry = (i as u32 * 65535 / 255) as u16;
        }
    }
    ramp
}

#[test]
fn identity_ramp_is_linear() {
    assert_eq!(classify(&identity_ramp()), DriftState::Linear);
}

#[test]
fn identity_levels_are_multiples_of_257() {
    let ramp = identity_ramp();
    assert_eq!(ramp[0][0], 0);
    assert_eq!(ramp[1][1], 257);
    assert_eq!(ramp[2][128], 32896);
    assert_eq!(ramp[2][255], 65535);
}

#[test]
fn entries_at_the_tolerance_stay_linear() {
    let mut ramp = identity_ramp();
    for c in 0..3 {
        for i in 1..255 {
            ramp[c][i] = if i % 2 == 0 { ramp[c][i] + 256 } else { ramp[c][i] - 256 };
        }
    }
    ramp[0][0] = 256;
    ramp[1][255] = 65535 - 256;
    assert_eq!(classify(&ramp), DriftState::Linear);
}

#[test]
fn one_entry_past_the_tolerance_flips_to_calibrated() {
    let mut ramp = identity_ramp();
    ramp[2][100] += 257;
    assert_eq!(classify(&ramp), DriftState::Calibrated);

    let mut low = identity_ramp();
    low[0][200] -= 257;
    assert_eq!(classify(&low), DriftState::Calibrated);

    let mut first = identity_ramp();
    first[1][0] = 257;
    assert_eq!(classify(&first), DriftState::Calibrated);
}

#[test]
fn a_flat_ramp_is_calibrated() {
    let ramp = [[32768u16; 256]; 3];
    assert_eq!(classify(&ramp), DriftState::Calibrated);
}

#[test]
fn a_typical_calibration_curve_is_calibrated() {
    let mut ramp = identity_ramp();
    for i in 0..256 {
        ramp[0][i] = (i as u32 * 60000 / 255) as u16;
    }
    assert_eq!(classify(&ramp), DriftState::Calibrated);
}

#[test]
fn single_entry_tolerance() {
    assert!(entry_within_tolerance(0, 0));
    assert!(entry_within_tolerance(256, 0));
    assert!(!entry_within_tolerance(257, 0));
    assert!(entry_within_tolerance(257 * 10 + 256, 10));
    assert!(entry_within_tolerance(257 * 10 - 256, 10));
    assert!(!entry_within_tolerance(257 * 10 - 257, 10));
    assert!(entry_within_tolerance(65535 - 256, 255));
    assert!(!entry_within_tolerance(65535 - 257, 255));
}

#[test]
fn unreadable_ramp_is_unavailable_and_never_linear() {
    let failed: Result<GammaRamp, ProbeError> = Err(ProbeError::Unavailable);
    assert_eq!(sample_drift(&failed), DriftState::Unavailable);
    assert!(!is_gamma_linear(&failed));
}

#[test]
fn sample_results_are_classified() {
    let linear: Result<GammaRamp, ProbeError> = Ok(identity_ramp());
    assert_eq!(sample_drift(&linear), DriftState::Linear);
    assert!(is_gamma_linear(&linear));

    let calibrated: Result<GammaRamp, ProbeError> = Ok([[0u16; 256]; 3]);
    assert_eq!(sample_drift(&calibrated), DriftState::Calibrated);
    assert!(!is_gamma_linear(&calibrated));
}
