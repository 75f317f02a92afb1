//! A check of a record against the domains of its fields, for tooling.
//!
//! The accessors store what they are given. This module tells, on request,
//! which fields hold a value outside the domain in which the solver is stable.

use crate::dynamics::integration_parameters::default_config;
use crate::dynamics::integration_parameters::IntegrationConfig;
use crate::dynamics::integration_parameters::RawIntegrationParameters;
use crate::scalar::at_most_one_has_value_at_most_one;
use crate::scalar::encodes_at_most_one;
use crate::scalar::encodes_non_negative;
use crate::scalar::encodes_share;
use crate::scalar::non_negative_has_value_at_least_zero;
use crate::scalar::Scalar;
use crate::scalar::scaled_one;
use crate::scalar::scaled_value;
use vstd::prelude::*;

verus! {

/// The fields whose domain is narrower than their type: the real-valued
/// fields, named as in the record, and the least island size.
#[derive(Clone, Copy, Debug, PartialEq, Eq, Structural)]
pub enum Field {
    Dt,
    Erp,
    JointErp,
    WarmstartCoeff,
    RestitutionVelocityThreshold,
    AllowedLinearError,
    PredictionDistance,
    AllowedAngularError,
    MaxLinearCorrection,
    MaxAngularCorrection,
    MaxStabilizationMultiplier,
    MinIslandSize,
}

/// How a value misses its domain.
#[derive(Clone, Copy, Debug, PartialEq, Eq, Structural)]
pub enum Issue {
    /// The value is negative or no number.
    NotNonNegative,
    /// The value is a share and exceeds one.
    AboveOne,
    /// The value is a count that must be at least one, and is zero.
    BelowOne,
}

/// One field that misses its domain, and how.
#[derive(Clone, Copy, Debug, PartialEq, Eq, Structural)]
pub struct Warning {
    /// The field that holds the value.
    pub field: Field,
    /// What is wrong with the value.
    pub issue: Issue,
}

/// What is wrong with a real-valued field, if anything. Every such field must
/// be a number that is at least zero; a share must also be at most one.
pub open spec fn scalar_issue(value: Scalar, share: bool) -> Option<Issue> {
    if !encodes_non_negative(value@) {
        Some(Issue::NotNonNegative)
    } else if share && !encodes_at_most_one(value@) {
        Some(Issue::AboveOne)
    } else {
        None
    }
}

/// What is wrong with the least island size, if anything: it must be at least
/// one.
pub open spec fn island_issue(size: usize) -> Option<Issue> {
    if size < 1 {
        Some(Issue::BelowOne)
    } else {
        None
    }
}

/// The warning for a field with an issue, and nothing for a field without.
pub open spec fn note(field: Field, issue: Option<Issue>) -> Seq<Warning> {
    match issue {
        Some(i) => seq![Warning { field: field, issue: i }],
        None => Seq::empty(),
    }
}

/// The warnings of a record: at most one for each field, in the order of the
/// fields.
pub open spec fn warnings(c: IntegrationConfig) -> Seq<Warning> {
    Seq::<Warning>::empty()
        + note(Field::Dt, scalar_issue(c.dt, false))
        + note(Field::Erp, scalar_issue(c.erp, true))
        + note(Field::JointErp, scalar_issue(c.joint_erp, true))
        + note(Field::WarmstartCoeff, scalar_issue(c.warmstart_coeff, true))
        + note(Field::RestitutionVelocityThreshold, scalar_issue(c.restitution_velocity_threshold, false))
        + note(Field::AllowedLinearError, scalar_issue(c.allowed_linear_error, false))
        + note(Field::PredictionDistance, scalar_issue(c.prediction_distance, false))
        + note(Field::AllowedAngularError, scalar_issue(c.allowed_angular_error, false))
        + note(Field::MaxLinearCorrection, scalar_issue(c.max_linear_correction, false))
        + note(Field::MaxAngularCorrection, scalar_issue(c.max_angular_correction, false))
        + note(Field::MaxStabilizationMultiplier, scalar_issue(c.max_stabilization_multiplier, false))
        + note(Field::MinIslandSize, island_issue(c.min_island_size))
}

/// Every field of the record is within its domain: the step, the tolerated
/// errors, the thresholds and the caps are numbers that are at least zero, the
/// three shares lie between zero and one, and an island holds at least one
/// body.
pub open spec fn in_domain(c: IntegrationConfig) -> bool {
    &&& encodes_non_negative(c.dt@)
    &&& encodes_share(c.erp@)
    &&& encodes_share(c.joint_erp@)
    &&& encodes_share(c.warmstart_coeff@)
    &&& encodes_non_negative(c.restitution_velocity_threshold@)
    &&& encodes_non_negative(c.allowed_linear_error@)
    &&& encodes_non_negative(c.prediction_distance@)
    &&& encodes_non_negative(c.allowed_angular_error@)
    &&& encodes_non_negative(c.max_linear_correction@)
    &&& encodes_non_negative(c.max_angular_correction@)
    &&& encodes_non_negative(c.max_stabilization_multiplier@)
    &&& c.min_island_size >= 1
}

fn check_scalar(found: &mut Vec<Warning>, field: Field, value: Scalar, share: bool)
    ensures
        final(found)@ == old(found)@ + note(field, scalar_issue(value, share)),
{
    if !value.is_non_negative() {
        found.push(Warning { field: field, issue: Issue::NotNonNegative });
    } else if share && !value.is_at_most_one() {
        found.push(Warning { field: field, issue: Issue::AboveOne });
    }
    assert(found@ =~= old(found)@ + note(field, scalar_issue(value, share)));
}

/// Lists the fields of `params` that miss their domain. The parameters are
/// only read, and nothing calls this but the tool that wants the list.
pub fn validate(params: &RawIntegrationParameters) -> (found: Vec<Warning>)
    ensures
        found@ == warnings(params@),
{
    let c = params.snapshot();
    let mut found: Vec<Warning> = Vec::new();
    assert(found@ =~= Seq::<Warning>::empty());
    check_scalar(&mut found, Field::Dt, c.dt, false);
    check_scalar(&mut found, Field::Erp, c.erp, true);
    check_scalar(&mut found, Field::JointErp, c.joint_erp, true);
    check_scalar(&mut found, Field::WarmstartCoeff, c.warmstart_coeff, true);
    check_scalar(&mut found, Field::RestitutionVelocityThreshold, c.restitution_velocity_threshold, false);
    check_scalar(&mut found, Field::AllowedLinearError, c.allowed_linear_error, false);
    check_scalar(&mut found, Field::PredictionDistance, c.prediction_distance, false);
    check_scalar(&mut found, Field::AllowedAngularError, c.allowed_angular_error, false);
    check_scalar(&mut found, Field::MaxLinearCorrection, c.max_linear_correction, false);
    check_scalar(&mut found, Field::MaxAngularCorrection, c.max_angular_correction, false);
    check_scalar(&mut found, Field::MaxStabilizationMultiplier, c.max_stabilization_multiplier, false);
    if c.min_island_size < 1 {
        found.push(Warning { field: Field::MinIslandSize, issue: Issue::BelowOne });
    }
    assert(found@ =~= warnings(c));
    found
}

/// A record draws no warning exactly when every field is within its domain.
pub proof fn silent_iff_in_domain(c: IntegrationConfig)
    ensures
        warnings(c).len() == 0 <==> in_domain(c),
{
}

/// In a record within its domain the real-valued fields encode numbers that
/// are at least zero, and the three shares numbers that are at most one.
pub proof fn domain_in_numbers(c: IntegrationConfig)
    requires
        in_domain(c),
    ensures
        scaled_value(c.dt@) >= 0,
        scaled_value(c.restitution_velocity_threshold@) >= 0,
        scaled_value(c.allowed_linear_error@) >= 0,
        scaled_value(c.prediction_distance@) >= 0,
        scaled_value(c.allowed_angular_error@) >= 0,
        scaled_value(c.max_linear_correction@) >= 0,
        scaled_value(c.max_angular_correction@) >= 0,
        scaled_value(c.max_stabilization_multiplier@) >= 0,
        0 <= scaled_value(c.erp@) <= scaled_one(),
        0 <= scaled_value(c.joint_erp@) <= scaled_one(),
        0 <= scaled_value(c.warmstart_coeff@) <= scaled_one(),
{
    non_negative_has_value_at_least_zero(c.dt@);
    non_negative_has_value_at_least_zero(c.restitution_velocity_threshold@);
    non_negative_has_value_at_least_zero(c.allowed_linear_error@);
    non_negative_has_value_at_least_zero(c.prediction_distance@);
    non_negative_has_value_at_least_zero(c.allowed_angular_error@);
    non_negative_has_value_at_least_zero(c.max_linear_correction@);
    non_negative_has_value_at_least_zero(c.max_angular_correction@);
    non_negative_has_value_at_least_zero(c.max_stabilization_multiplier@);
    non_negative_has_value_at_least_zero(c.erp@);
    non_negative_has_value_at_least_zero(c.joint_erp@);
    non_negative_has_value_at_least_zero(c.warmstart_coeff@);
    at_most_one_has_value_at_most_one(c.erp@);
    at_most_one_has_value_at_most_one(c.joint_erp@);
    at_most_one_has_value_at_most_one(c.warmstart_coeff@);
}

/// The engine's defaults are within their domains: CCD may take at least one
/// substep, an island holds at least one body, and the tolerated errors and
/// the caps on corrections are numbers that are at least zero.
pub proof fn defaults_in_domain()
    ensures
        in_domain(default_config()),
        warnings(default_config()) =~= Seq::<Warning>::empty(),
        default_config().max_ccd_substeps >= 1,
        default_config().min_island_size >= 1,
        encodes_non_negative(default_config().allowed_linear_error@),
        encodes_non_negative(default_config().allowed_angular_error@),
        encodes_non_negative(default_config().max_linear_correction@),
        encodes_non_negative(default_config().max_angular_correction@),
{
}

} // verus!
