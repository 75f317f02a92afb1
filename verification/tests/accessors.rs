use integration_params::dynamics::integration_parameters::IntegrationConfig;
use integration_params::dynamics::integration_parameters::RawIntegrationParameters;
use integration_params::scalar::Scalar;

fn sc(x: f32) -> Scalar {
    Scalar::from_bits(x.to_bits())
}

fn samples() -> Vec<Scalar> {
    vec![
        sc(0.0),
        sc(-0.0),
        sc(0.35),
        sc(1.0),
        sc(-17.5),
        sc(f32::MAX),
        sc(f32::MIN),
        sc(f32::MIN_POSITIVE),
        sc(f32::INFINITY),
        sc(f32::NEG_INFINITY),
        Scalar::from_bits(0x7fc0_0001),
        Scalar::from_bits(0xffff_ffff),
        Scalar::from_bits(1),
    ]
}

fn same_but(before: IntegrationConfig, after: IntegrationConfig) -> bool {
    before == after
}

#[test]
fn real_valued_fields_read_back_what_was_written() {
    for v in samples() {
        let mut p = RawIntegrationParameters::new();
        p.set_erp(v);
        assert_eq!(p.erp(), v);
        p.set_jointErp(v);
        assert_eq!(p.jointErp(), v);
        p.set_warmstartCoeff(v);
        assert_eq!(p.warmstartCoeff(), v);
        p.set_restitutionVelocityThreshold(v);
        assert_eq!(p.restitutionVelocityThreshold(), v);
        p.set_allowedLinearError(v);
        assert_eq!(p.allowedLinearError(), v);
        p.set_predictionDistance(v);
        assert_eq!(p.predictionDistance(), v);
        p.set_allowedAngularError(v);
        assert_eq!(p.allowedAngularError(), v);
        p.set_maxLinearCorrection(v);
        assert_eq!(p.maxLinearCorrection(), v);
        p.set_maxAngularCorrection(v);
        assert_eq!(p.maxAngularCorrection(), v);
        p.set_maxStabilizationMultiplier(v);
        assert_eq!(p.maxStabilizationMultiplier(), v);
    }
}

#[test]
fn counts_read_back_what_was_written() {
    for n in [0usize, 1, 2, 128, 65_536, usize::MAX] {
        let mut p = RawIntegrationParameters::new();
        p.set_maxVelocityIterations(n);
        assert_eq!(p.maxVelocityIterations(), n);
        p.set_maxPositionIterations(n);
        assert_eq!(p.maxPositionIterations(), n);
        p.set_minIslandSize(n);
        assert_eq!(p.minIslandSize(), n);
        p.set_maxCcdPositionIterations(n);
        assert_eq!(p.maxCcdPositionIterations(), n);
        p.set_maxCcdSubsteps(n);
        assert_eq!(p.maxCcdSubsteps(), n);
    }
}

#[test]
fn switches_read_back_what_was_written() {
    for b in [true, false, true] {
        let mut p = RawIntegrationParameters::new();
        p.set_returnAfterCcdSubstep(b);
        assert_eq!(p.returnAfterCcdSubstep(), b);
        p.set_multipleCcdSubstepSensorEventsEnabled(b);
        assert_eq!(p.multipleCcdSubstepSensorEventsEnabled(), b);
        p.set_ccdOnPenetrationEnabled(b);
        assert_eq!(p.ccdOnPenetrationEnabled(), b);
    }
}

#[test]
fn a_write_leaves_the_other_fields_alone() {
    let mut p = RawIntegrationParameters::new();
    let before = p.snapshot();
    p.set_erp(sc(0.5));
    assert!(same_but(IntegrationConfig { erp: sc(0.5), ..before }, p.snapshot()));
    let before = p.snapshot();
    p.set_maxPositionIterations(9);
    assert!(same_but(
        IntegrationConfig { max_position_iterations: 9, ..before },
        p.snapshot()
    ));
    let before = p.snapshot();
    p.set_ccdOnPenetrationEnabled(true);
    assert!(same_but(
        IntegrationConfig { ccd_on_penetration_enabled: true, ..before },
        p.snapshot()
    ));
    let before = p.snapshot();
    p.set_dt(sc(0.25));
    assert!(same_but(
        IntegrationConfig { dt: sc(0.25), inv_dt: sc(4.0), ..before },
        p.snapshot()
    ));
}

#[test]
fn adjacent_fields_are_not_mixed_up() {
    let mut p = RawIntegrationParameters::new();
    p.set_erp(sc(0.01));
    p.set_jointErp(sc(0.02));
    p.set_warmstartCoeff(sc(0.03));
    p.set_restitutionVelocityThreshold(sc(0.04));
    p.set_allowedLinearError(sc(0.05));
    p.set_predictionDistance(sc(0.06));
    p.set_allowedAngularError(sc(0.07));
    p.set_maxLinearCorrection(sc(0.08));
    p.set_maxAngularCorrection(sc(0.09));
    p.set_maxStabilizationMultiplier(sc(0.10));
    p.set_maxVelocityIterations(11);
    p.set_maxPositionIterations(12);
    p.set_minIslandSize(13);
    p.set_maxCcdPositionIterations(14);
    p.set_maxCcdSubsteps(15);
    p.set_returnAfterCcdSubstep(true);
    p.set_multipleCcdSubstepSensorEventsEnabled(false);
    p.set_ccdOnPenetrationEnabled(true);
    assert_eq!(p.erp(), sc(0.01));
    assert_eq!(p.jointErp(), sc(0.02));
    assert_eq!(p.warmstartCoeff(), sc(0.03));
    assert_eq!(p.restitutionVelocityThreshold(), sc(0.04));
    assert_eq!(p.allowedLinearError(), sc(0.05));
    assert_eq!(p.predictionDistance(), sc(0.06));
    assert_eq!(p.allowedAngularError(), sc(0.07));
    assert_eq!(p.maxLinearCorrection(), sc(0.08));
    assert_eq!(p.maxAngularCorrection(), sc(0.09));
    assert_eq!(p.maxStabilizationMultiplier(), sc(0.10));
    assert_eq!(p.maxVelocityIterations(), 11);
    assert_eq!(p.maxPositionIterations(), 12);
    assert_eq!(p.minIslandSize(), 13);
    assert_eq!(p.maxCcdPositionIterations(), 14);
    assert_eq!(p.maxCcdSubsteps(), 15);
    assert!(p.returnAfterCcdSubstep());
    assert!(!p.multipleCcdSubstepSensorEventsEnabled());
    assert!(p.ccdOnPenetrationEnabled());
    assert_eq!(p.dt().to_bits(), 0x3c88_8889);
}

#[test]
fn the_step_reads_back_with_its_inverse() {
    let mut p = RawIntegrationParameters::new();
    p.set_dt(sc(0.5));
    assert_eq!(p.dt(), sc(0.5));
    assert_eq!(f32::from_bits(p.inv_dt().to_bits()), 2.0);
    p.set_dt(sc(1.0 / 120.0));
    assert_eq!(p.dt(), sc(1.0 / 120.0));
    assert_eq!(p.inv_dt(), sc(1.0 / (1.0 / 120.0)));
}

#[test]
fn the_step_agrees_with_the_engine() {
    for x in [0.0f32, 1.0 / 60.0, 0.5, 3.0, 1.0e-3, f32::MIN_POSITIVE, f32::MAX, f32::INFINITY] {
        let mut e = rapier3d::dynamics::IntegrationParameters::default();
        e.set_dt(x);
        let mut p = RawIntegrationParameters::new();
        p.set_dt(sc(x));
        assert_eq!(p.dt().to_bits(), e.dt().to_bits());
        assert_eq!(p.inv_dt().to_bits(), e.inv_dt().to_bits());
    }
}

#[test]
fn a_paused_step_has_a_zero_inverse() {
    let mut p = RawIntegrationParameters::new();
    p.set_dt(sc(0.0));
    assert_eq!(p.dt(), sc(0.0));
    assert_eq!(p.inv_dt().to_bits(), 0);
    p.set_dt(sc(-0.0));
    assert_eq!(p.dt().to_bits(), 0x8000_0000);
    assert_eq!(p.inv_dt().to_bits(), 0);
}

#[test]
fn a_negative_step_is_stored_as_given() {
    let mut p = RawIntegrationParameters::new();
    p.set_dt(sc(-0.25));
    assert_eq!(f32::from_bits(p.dt().to_bits()), -0.25);
    assert_eq!(f32::from_bits(p.inv_dt().to_bits()), -4.0);
    p.set_dt(Scalar::from_bits(0x7fc0_0000));
    assert_eq!(p.dt().to_bits(), 0x7fc0_0000);
    assert_eq!(p.inv_dt().to_bits(), 0x7fc0_0000);
}

#[test]
fn zero_substeps_switch_ccd_off() {
    let mut p = RawIntegrationParameters::new();
    assert!(p.ccd_enabled());
    p.set_maxCcdSubsteps(0);
    assert_eq!(p.maxCcdSubsteps(), 0);
    assert!(!p.ccd_enabled());
    p.set_ccdOnPenetrationEnabled(true);
    assert!(!p.ccd_enabled());
    p.set_ccdOnPenetrationEnabled(false);
    assert!(!p.ccd_enabled());
    p.set_maxCcdSubsteps(3);
    assert!(p.ccd_enabled());
}
