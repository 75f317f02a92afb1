//! The record of step parameters, its engine defaults and its accessors.

use crate::reciprocal::default_inverse_is_nearest;
use crate::reciprocal::inverse_cached;
use crate::reciprocal::inverse_is_one;
use crate::reciprocal::inverse_of;
use crate::reciprocal::nearest_reciprocal;
use crate::scalar::encodes_non_negative;
use crate::scalar::encodes_zero;
use crate::scalar::Scalar;
use crate::scalar::INFINITY_MAGNITUDE;
use vstd::prelude::*;

verus! {

/// All the values that parameterize one simulation step.
///
/// This is the plain record: every field can be read and built freely. The
/// guarded holder of one is [`RawIntegrationParameters`].
#[derive(Clone, Copy, Debug, PartialEq, Eq, Structural)]
pub struct IntegrationConfig {
    /// The length of a step; zero means that the simulation is paused.
    pub dt: Scalar,
    /// The cached inverse of `dt`.
    pub inv_dt: Scalar,
    /// Whether a step hands control back after each CCD substep.
    pub return_after_ccd_substep: bool,
    /// The error-reduction parameter of contacts.
    pub erp: Scalar,
    /// The error-reduction parameter of joints.
    pub joint_erp: Scalar,
    /// The share of the last step's impulses that seeds the solver.
    pub warmstart_coeff: Scalar,
    /// The approach velocity below which no restitution is applied.
    pub restitution_velocity_threshold: Scalar,
    /// The penetration that is left uncorrected.
    pub allowed_linear_error: Scalar,
    /// The distance within which contacts are predicted.
    pub prediction_distance: Scalar,
    /// The angular drift that is left uncorrected.
    pub allowed_angular_error: Scalar,
    /// The cap on the linear correction of one step.
    pub max_linear_correction: Scalar,
    /// The cap on the angular correction of one step.
    pub max_angular_correction: Scalar,
    /// The cap on the scaling of the stabilization pass.
    pub max_stabilization_multiplier: Scalar,
    /// The iteration cap of the velocity solver.
    pub max_velocity_iterations: usize,
    /// The iteration cap of the position solver.
    pub max_position_iterations: usize,
    /// The least number of bodies in an island that is scheduled on its own.
    pub min_island_size: usize,
    /// The iteration cap of the position solver in CCD passes.
    pub max_ccd_position_iterations: usize,
    /// The most substeps CCD may take within one step.
    pub max_ccd_substeps: usize,
    /// Whether sensor events may fire once per CCD substep.
    pub multiple_ccd_substep_sensor_events_enabled: bool,
    /// Whether CCD stays engaged for bodies that already penetrate.
    pub ccd_on_penetration_enabled: bool,
}

/// The record that the engine recommends: tuned for sixty steps a second.
pub open spec fn default_config() -> IntegrationConfig {
    IntegrationConfig {
        // 1 / 60
        dt: Scalar { bits: 0x3c88_8889 },
        // 59.999996, the single-precision inverse of the step above
        inv_dt: Scalar { bits: 0x426f_ffff },
        return_after_ccd_substep: false,
        // 0.2
        erp: Scalar { bits: 0x3e4c_cccd },
        // 0.2
        joint_erp: Scalar { bits: 0x3e4c_cccd },
        // 1.0
        warmstart_coeff: Scalar { bits: 0x3f80_0000 },
        // 1.0
        restitution_velocity_threshold: Scalar { bits: 0x3f80_0000 },
        // 0.005
        allowed_linear_error: Scalar { bits: 0x3ba3_d70a },
        // 0.002
        prediction_distance: Scalar { bits: 0x3b03_126f },
        // 0.001
        allowed_angular_error: Scalar { bits: 0x3a83_126f },
        // 0.2
        max_linear_correction: Scalar { bits: 0x3e4c_cccd },
        // 0.2
        max_angular_correction: Scalar { bits: 0x3e4c_cccd },
        // 0.2
        max_stabilization_multiplier: Scalar { bits: 0x3e4c_cccd },
        max_velocity_iterations: 4,
        max_position_iterations: 1,
        min_island_size: 128,
        max_ccd_position_iterations: 10,
        max_ccd_substeps: 1,
        multiple_ccd_substep_sensor_events_enabled: false,
        ccd_on_penetration_enabled: false,
    }
}

/// Whether CCD runs at all under this record: it does unless the substep cap
/// is zero, whatever the other CCD switches say.
pub open spec fn ccd_active(c: IntegrationConfig) -> bool {
    c.max_ccd_substeps > 0
}

/// The engine's defaults, `rapier3d::dynamics::IntegrationParameters::default()`,
/// read field by field: first the real-valued fields as bit patterns (the
/// step by `dt()`, its inverse by `inv_dt()`, then the others in the order of
/// the record), then the counts, then the switches.
///
/// Not proved: the contract claims that each of them is the value of
/// [`default_config`], which repeats the literals that this `default` passes
/// on, the island size that the engine's constructor fixes, and the inverse
/// that the constructor computes from the step.
#[verifier::external_body]
fn engine_defaults() -> (d: ([u32; 12], [usize; 5], [bool; 3]))
    ensures
        d.0[0] == default_config().dt@,
        d.0[1] == default_config().inv_dt@,
        d.0[2] == default_config().erp@,
        d.0[3] == default_config().joint_erp@,
        d.0[4] == default_config().warmstart_coeff@,
        d.0[5] == default_config().restitution_velocity_threshold@,
        d.0[6] == default_config().allowed_linear_error@,
        d.0[7] == default_config().prediction_distance@,
        d.0[8] == default_config().allowed_angular_error@,
        d.0[9] == default_config().max_linear_correction@,
        d.0[10] == default_config().max_angular_correction@,
        d.0[11] == default_config().max_stabilization_multiplier@,
        d.1[0] == default_config().max_velocity_iterations,
        d.1[1] == default_config().max_position_iterations,
        d.1[2] == default_config().min_island_size,
        d.1[3] == default_config().max_ccd_position_iterations,
        d.1[4] == default_config().max_ccd_substeps,
        d.2[0] == default_config().return_after_ccd_substep,
        d.2[1] == default_config().multiple_ccd_substep_sensor_events_enabled,
        d.2[2] == default_config().ccd_on_penetration_enabled,
{
    let e = rapier3d::dynamics::IntegrationParameters::default();
    (
        [e.dt().to_bits(), e.inv_dt().to_bits(), e.erp.to_bits(), e.joint_erp.to_bits(),
            e.warmstart_coeff.to_bits(), e.restitution_velocity_threshold.to_bits(),
            e.allowed_linear_error.to_bits(), e.prediction_distance.to_bits(),
            e.allowed_angular_error.to_bits(), e.max_linear_correction.to_bits(),
            e.max_angular_correction.to_bits(), e.max_stabilization_multiplier.to_bits()],
        [e.max_velocity_iterations, e.max_position_iterations, e.min_island_size,
            e.max_ccd_position_iterations, e.max_ccd_substeps],
        [e.return_after_ccd_substep, e.multiple_ccd_substep_sensor_events_enabled,
            e.ccd_on_penetration_enabled],
    )
}

/// The step parameters of one simulation, owned by its stepping loop.
///
/// The record inside is reached only through the accessors, so that the step
/// can change only together with its cached inverse: the cache always holds
/// the inverse of the step, which is `+0` while the step is a zero. Every
/// write accepts every value of its type and stores it as given; which
/// values the solver is stable with is told, on request, by
/// [`crate::dynamics::validation::validate`].
#[derive(Debug)]
pub struct RawIntegrationParameters {
    state: IntegrationConfig,
}

impl View for RawIntegrationParameters {
    type V = IntegrationConfig;

    closed spec fn view(&self) -> IntegrationConfig {
        self.state
    }
}

impl RawIntegrationParameters {
    #[verifier::type_invariant]
    spec fn inverse_is_cached(self) -> bool {
        inverse_cached(self.state.dt@, self.state.inv_dt@)
    }

    /// The engine's recommended parameters. CCD may take a substep, an island
    /// holds at least one body, and the tolerated errors and the caps on
    /// corrections are numbers that are at least zero.
    pub fn new() -> (params: RawIntegrationParameters)
        ensures
            params@ == default_config(),
            params@.max_ccd_substeps >= 1,
            params@.min_island_size >= 1,
            encodes_non_negative(params@.allowed_linear_error@),
            encodes_non_negative(params@.allowed_angular_error@),
            encodes_non_negative(params@.max_linear_correction@),
            encodes_non_negative(params@.max_angular_correction@),
    {
        let d = engine_defaults();
        proof {
            default_inverse_is_nearest();
        }
        RawIntegrationParameters {
            state: IntegrationConfig {
                dt: Scalar::from_bits(d.0[0]),
                inv_dt: Scalar::from_bits(d.0[1]),
                return_after_ccd_substep: d.2[0],
                erp: Scalar::from_bits(d.0[2]),
                joint_erp: Scalar::from_bits(d.0[3]),
                warmstart_coeff: Scalar::from_bits(d.0[4]),
                restitution_velocity_threshold: Scalar::from_bits(d.0[5]),
                allowed_linear_error: Scalar::from_bits(d.0[6]),
                prediction_distance: Scalar::from_bits(d.0[7]),
                allowed_angular_error: Scalar::from_bits(d.0[8]),
                max_linear_correction: Scalar::from_bits(d.0[9]),
                max_angular_correction: Scalar::from_bits(d.0[10]),
                max_stabilization_multiplier: Scalar::from_bits(d.0[11]),
                max_velocity_iterations: d.1[0],
                max_position_iterations: d.1[1],
                min_island_size: d.1[2],
                max_ccd_position_iterations: d.1[3],
                max_ccd_substeps: d.1[4],
                multiple_ccd_substep_sensor_events_enabled: d.2[1],
                ccd_on_penetration_enabled: d.2[2],
            },
        }
    }

    /// The whole record as it stands, for a reader that wants one consistent
    /// copy for the length of a step.
    pub fn snapshot(&self) -> (config: IntegrationConfig)
        ensures
            config == self@,
            inverse_cached(config.dt@, config.inv_dt@),
    {
        proof {
            use_type_invariant(self);
        }
        self.state
    }

    /// Reads the length of a step.
    pub fn dt(&self) -> (value: Scalar)
        ensures
            value == self@.dt,
    {
        self.state.dt
    }

    /// Reads the cached inverse of the step. It is `+0` while the step is a
    /// zero, and for a positive finite step the number nearest to one over
    /// it.
    pub fn inv_dt(&self) -> (value: Scalar)
        ensures
            value == self@.inv_dt,
            inverse_cached(self@.dt@, value@),
    {
        proof {
            use_type_invariant(self);
        }
        self.state.inv_dt
    }

    /// Whether CCD runs at all: it does unless the substep cap is zero.
    pub fn ccd_enabled(&self) -> (enabled: bool)
        ensures
            enabled == ccd_active(self@),
    {
        self.state.max_ccd_substeps > 0
    }

    /// Reads whether a step hands control back after each CCD substep.
    pub fn returnAfterCcdSubstep(&self) -> (value: bool)
        ensures
            value == self@.return_after_ccd_substep,
    {
        self.state.return_after_ccd_substep
    }

    /// Reads the error-reduction parameter of contacts: the share of the positional error corrected at each step.
    pub fn erp(&self) -> (value: Scalar)
        ensures
            value == self@.erp,
    {
        self.state.erp
    }

    /// Reads the error-reduction parameter of joints.
    pub fn jointErp(&self) -> (value: Scalar)
        ensures
            value == self@.joint_erp,
    {
        self.state.joint_erp
    }

    /// Reads the share of the last step's impulses that seeds the solver.
    pub fn warmstartCoeff(&self) -> (value: Scalar)
        ensures
            value == self@.warmstart_coeff,
    {
        self.state.warmstart_coeff
    }

    /// Reads the approach velocity below which no restitution is applied.
    pub fn restitutionVelocityThreshold(&self) -> (value: Scalar)
        ensures
            value == self@.restitution_velocity_threshold,
    {
        self.state.restitution_velocity_threshold
    }

    /// Reads the penetration that is left uncorrected.
    pub fn allowedLinearError(&self) -> (value: Scalar)
        ensures
            value == self@.allowed_linear_error,
    {
        self.state.allowed_linear_error
    }

    /// Reads the distance within which contacts are predicted.
    pub fn predictionDistance(&self) -> (value: Scalar)
        ensures
            value == self@.prediction_distance,
    {
        self.state.prediction_distance
    }

    /// Reads the angular drift that is left uncorrected.
    pub fn allowedAngularError(&self) -> (value: Scalar)
        ensures
            value == self@.allowed_angular_error,
    {
        self.state.allowed_angular_error
    }

    /// Reads the cap on the linear correction of one step.
    pub fn maxLinearCorrection(&self) -> (value: Scalar)
        ensures
            value == self@.max_linear_correction,
    {
        self.state.max_linear_correction
    }

    /// Reads the cap on the angular correction of one step.
    pub fn maxAngularCorrection(&self) -> (value: Scalar)
        ensures
            value == self@.max_angular_correction,
    {
        self.state.max_angular_correction
    }

    /// Reads the cap on the scaling of the stabilization pass.
    pub fn maxStabilizationMultiplier(&self) -> (value: Scalar)
        ensures
            value == self@.max_stabilization_multiplier,
    {
        self.state.max_stabilization_multiplier
    }

    /// Reads the iteration cap of the velocity solver.
    pub fn maxVelocityIterations(&self) -> (value: usize)
        ensures
            value == self@.max_velocity_iterations,
    {
        self.state.max_velocity_iterations
    }

    /// Reads the iteration cap of the position solver.
    pub fn maxPositionIterations(&self) -> (value: usize)
        ensures
            value == self@.max_position_iterations,
    {
        self.state.max_position_iterations
    }

    /// Reads the least number of bodies in an island that is scheduled on its own.
    pub fn minIslandSize(&self) -> (value: usize)
        ensures
            value == self@.min_island_size,
    {
        self.state.min_island_size
    }

    /// Reads the iteration cap of the position solver in CCD passes.
    pub fn maxCcdPositionIterations(&self) -> (value: usize)
        ensures
            value == self@.max_ccd_position_iterations,
    {
        self.state.max_ccd_position_iterations
    }

    /// Reads the most substeps CCD may take within one step; zero switches CCD off.
    pub fn maxCcdSubsteps(&self) -> (value: usize)
        ensures
            value == self@.max_ccd_substeps,
    {
        self.state.max_ccd_substeps
    }

    /// Reads whether sensor events may fire once per CCD substep.
    pub fn multipleCcdSubstepSensorEventsEnabled(&self) -> (value: bool)
        ensures
            value == self@.multiple_ccd_substep_sensor_events_enabled,
    {
        self.state.multiple_ccd_substep_sensor_events_enabled
    }

    /// Reads whether CCD stays engaged for bodies that already penetrate.
    pub fn ccdOnPenetrationEnabled(&self) -> (value: bool)
        ensures
            value == self@.ccd_on_penetration_enabled,
    {
        self.state.ccd_on_penetration_enabled
    }

    /// Writes the length of a step and renews the cached inverse in the same
    /// move. The step is stored as given, whatever it encodes, and the cache
    /// takes its inverse. No other field changes.
    pub fn set_dt(&mut self, value: Scalar)
        ensures
            final(self)@ == (IntegrationConfig {
                dt: value,
                inv_dt: Scalar { bits: inverse_of(value@) },
                ..old(self)@
            }),
            inverse_cached(value@, final(self)@.inv_dt@),
    {
        let inverse = value.inverse();
        self.state = IntegrationConfig { dt: value, inv_dt: inverse, ..self.state };
    }

    /// Writes whether a step hands control back after each CCD substep. The value is stored as given; no other field changes.
    pub fn set_returnAfterCcdSubstep(&mut self, value: bool)
        ensures
            final(self)@ == (IntegrationConfig { return_after_ccd_substep: value, ..old(self)@ }),
    {
        proof {
            use_type_invariant(&*self);
        }
        self.state = IntegrationConfig { return_after_ccd_substep: value, ..self.state };
    }

    /// Writes the error-reduction parameter of contacts: the share of the positional error corrected at each step. The value is stored as given; no other field changes.
    pub fn set_erp(&mut self, value: Scalar)
        ensures
            final(self)@ == (IntegrationConfig { erp: value, ..old(self)@ }),
    {
        proof {
            use_type_invariant(&*self);
        }
        self.state = IntegrationConfig { erp: value, ..self.state };
    }

    /// Writes the error-reduction parameter of joints. The value is stored as given; no other field changes.
    pub fn set_jointErp(&mut self, value: Scalar)
        ensures
            final(self)@ == (IntegrationConfig { joint_erp: value, ..old(self)@ }),
    {
        proof {
            use_type_invariant(&*self);
        }
        self.state = IntegrationConfig { joint_erp: value, ..self.state };
    }

    /// Writes the share of the last step's impulses that seeds the solver. The value is stored as given; no other field changes.
    pub fn set_warmstartCoeff(&mut self, value: Scalar)
        ensures
            final(self)@ == (IntegrationConfig { warmstart_coeff: value, ..old(self)@ }),
    {
        proof {
            use_type_invariant(&*self);
        }
        self.state = IntegrationConfig { warmstart_coeff: value, ..self.state };
    }

    /// Writes the approach velocity below which no restitution is applied. The value is stored as given; no other field changes.
    pub fn set_restitutionVelocityThreshold(&mut self, value: Scalar)
        ensures
            final(self)@ == (IntegrationConfig { restitution_velocity_threshold: value, ..old(self)@ }),
    {
        proof {
            use_type_invariant(&*self);
        }
        self.state = IntegrationConfig { restitution_velocity_threshold: value, ..self.state };
    }

    /// Writes the penetration that is left uncorrected. The value is stored as given; no other field changes.
    pub fn set_allowedLinearError(&mut self, value: Scalar)
        ensures
            final(self)@ == (IntegrationConfig { allowed_linear_error: value, ..old(self)@ }),
    {
        proof {
            use_type_invariant(&*self);
        }
        self.state = IntegrationConfig { allowed_linear_error: value, ..self.state };
    }

    /// Writes the distance within which contacts are predicted. The value is stored as given; no other field changes.
    pub fn set_predictionDistance(&mut self, value: Scalar)
        ensures
            final(self)@ == (IntegrationConfig { prediction_distance: value, ..old(self)@ }),
    {
        proof {
            use_type_invariant(&*self);
        }
        self.state = IntegrationConfig { prediction_distance: value, ..self.state };
    }

    /// Writes the angular drift that is left uncorrected. The value is stored as given; no other field changes.
    pub fn set_allowedAngularError(&mut self, value: Scalar)
        ensures
            final(self)@ == (IntegrationConfig { allowed_angular_error: value, ..old(self)@ }),
    {
        proof {
            use_type_invariant(&*self);
        }
        self.state = IntegrationConfig { allowed_angular_error: value, ..self.state };
    }

    /// Writes the cap on the linear correction of one step. The value is stored as given; no other field changes.
    pub fn set_maxLinearCorrection(&mut self, value: Scalar)
        ensures
            final(self)@ == (IntegrationConfig { max_linear_correction: value, ..old(self)@ }),
    {
        proof {
            use_type_invariant(&*self);
        }
        self.state = IntegrationConfig { max_linear_correction: value, ..self.state };
    }

    /// Writes the cap on the angular correction of one step. The value is stored as given; no other field changes.
    pub fn set_maxAngularCorrection(&mut self, value: Scalar)
        ensures
            final(self)@ == (IntegrationConfig { max_angular_correction: value, ..old(self)@ }),
    {
        proof {
            use_type_invariant(&*self);
        }
        self.state = IntegrationConfig { max_angular_correction: value, ..self.state };
    }

    /// Writes the cap on the scaling of the stabilization pass. The value is stored as given; no other field changes.
    pub fn set_maxStabilizationMultiplier(&mut self, value: Scalar)
        ensures
            final(self)@ == (IntegrationConfig { max_stabilization_multiplier: value, ..old(self)@ }),
    {
        proof {
            use_type_invariant(&*self);
        }
        self.state = IntegrationConfig { max_stabilization_multiplier: value, ..self.state };
    }

    /// Writes the iteration cap of the velocity solver. The value is stored as given; no other field changes.
    pub fn set_maxVelocityIterations(&mut self, value: usize)
        ensures
            final(self)@ == (IntegrationConfig { max_velocity_iterations: value, ..old(self)@ }),
    {
        proof {
            use_type_invariant(&*self);
        }
        self.state = IntegrationConfig { max_velocity_iterations: value, ..self.state };
    }

    /// Writes the iteration cap of the position solver. The value is stored as given; no other field changes.
    pub fn set_maxPositionIterations(&mut self, value: usize)
        ensures
            final(self)@ == (IntegrationConfig { max_position_iterations: value, ..old(self)@ }),
    {
        proof {
            use_type_invariant(&*self);
        }
        self.state = IntegrationConfig { max_position_iterations: value, ..self.state };
    }

    /// Writes the least number of bodies in an island that is scheduled on its own. The value is stored as given; no other field changes.
    pub fn set_minIslandSize(&mut self, value: usize)
        ensures
            final(self)@ == (IntegrationConfig { min_island_size: value, ..old(self)@ }),
    {
        proof {
            use_type_invariant(&*self);
        }
        self.state = IntegrationConfig { min_island_size: value, ..self.state };
    }

    /// Writes the iteration cap of the position solver in CCD passes. The value is stored as given; no other field changes.
    pub fn set_maxCcdPositionIterations(&mut self, value: usize)
        ensures
            final(self)@ == (IntegrationConfig { max_ccd_position_iterations: value, ..old(self)@ }),
    {
        proof {
            use_type_invariant(&*self);
        }
        self.state = IntegrationConfig { max_ccd_position_iterations: value, ..self.state };
    }

    /// Writes the most substeps CCD may take within one step; zero switches CCD off. The value is stored as given; no other field changes.
    pub fn set_maxCcdSubsteps(&mut self, value: usize)
        ensures
            final(self)@ == (IntegrationConfig { max_ccd_substeps: value, ..old(self)@ }),
    {
        proof {
            use_type_invariant(&*self);
        }
        self.state = IntegrationConfig { max_ccd_substeps: value, ..self.state };
    }

    /// Writes whether sensor events may fire once per CCD substep. The value is stored as given; no other field changes.
    pub fn set_multipleCcdSubstepSensorEventsEnabled(&mut self, value: bool)
        ensures
            final(self)@ == (IntegrationConfig { multiple_ccd_substep_sensor_events_enabled: value, ..old(self)@ }),
    {
        proof {
            use_type_invariant(&*self);
        }
        self.state = IntegrationConfig { multiple_ccd_substep_sensor_events_enabled: value, ..self.state };
    }

    /// Writes whether CCD stays engaged for bodies that already penetrate. The value is stored as given; no other field changes.
    pub fn set_ccdOnPenetrationEnabled(&mut self, value: bool)
        ensures
            final(self)@ == (IntegrationConfig { ccd_on_penetration_enabled: value, ..old(self)@ }),
    {
        proof {
            use_type_invariant(&*self);
        }
        self.state = IntegrationConfig { ccd_on_penetration_enabled: value, ..self.state };
    }
}

/// What is written to a field is what the field then holds, bit for bit, for
/// every field that is written alone and every value of its type.
pub proof fn write_then_read(c: IntegrationConfig, s: Scalar, n: usize, b: bool)
    ensures
        (IntegrationConfig { return_after_ccd_substep: b, ..c }).return_after_ccd_substep == b,
        (IntegrationConfig { erp: s, ..c }).erp == s,
        (IntegrationConfig { joint_erp: s, ..c }).joint_erp == s,
        (IntegrationConfig { warmstart_coeff: s, ..c }).warmstart_coeff == s,
        (IntegrationConfig { restitution_velocity_threshold: s, ..c }).restitution_velocity_threshold == s,
        (IntegrationConfig { allowed_linear_error: s, ..c }).allowed_linear_error == s,
        (IntegrationConfig { prediction_distance: s, ..c }).prediction_distance == s,
        (IntegrationConfig { allowed_angular_error: s, ..c }).allowed_angular_error == s,
        (IntegrationConfig { max_linear_correction: s, ..c }).max_linear_correction == s,
        (IntegrationConfig { max_angular_correction: s, ..c }).max_angular_correction == s,
        (IntegrationConfig { max_stabilization_multiplier: s, ..c }).max_stabilization_multiplier == s,
        (IntegrationConfig { max_velocity_iterations: n, ..c }).max_velocity_iterations == n,
        (IntegrationConfig { max_position_iterations: n, ..c }).max_position_iterations == n,
        (IntegrationConfig { min_island_size: n, ..c }).min_island_size == n,
        (IntegrationConfig { max_ccd_position_iterations: n, ..c }).max_ccd_position_iterations == n,
        (IntegrationConfig { max_ccd_substeps: n, ..c }).max_ccd_substeps == n,
        (IntegrationConfig { multiple_ccd_substep_sensor_events_enabled: b, ..c }).multiple_ccd_substep_sensor_events_enabled == b,
        (IntegrationConfig { ccd_on_penetration_enabled: b, ..c }).ccd_on_penetration_enabled == b,
{
}

/// After the step is written it reads as written, and the cache holds its
/// inverse and nothing else: `+0` for a zero step, and for a positive finite
/// step the number nearest to one over it.
pub proof fn step_write_then_read(before: IntegrationConfig, after: IntegrationConfig, value: Scalar)
    requires
        after == (IntegrationConfig {
            dt: value,
            inv_dt: Scalar { bits: inverse_of(value@) },
            ..before
        }),
        inverse_cached(value@, after.inv_dt@),
    ensures
        after.dt == value,
        encodes_zero(value@) ==> after.inv_dt@ == 0,
        0 < value@ < INFINITY_MAGNITUDE ==> nearest_reciprocal(value@, after.inv_dt@),
        forall|other: u32| inverse_cached(value@, other) ==> other == after.inv_dt@,
{
    assert forall|other: u32| inverse_cached(value@, other) implies other == after.inv_dt@ by {
        inverse_is_one(value@, other, after.inv_dt@);
    }
}

} // verus!
