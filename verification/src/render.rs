//! The control-flow core of the recursive radiance estimator.
//!
//! Tracing a ray yields one of three outcomes; together with the current
//! bounce depth they decide whether the estimator returns the background
//! gradient, returns black, or recurses on the scattered ray. The decision
//! is pure integer logic, so it is verified here; the caller performs the
//! intersection and scattering arithmetic and obeys the returned step.

use vstd::prelude::*;

verus! {

/// Bounce-depth cutoff of the radiance estimator: at this depth a path
/// contributes no further light.
pub const MAX_DEPTH: usize = 50;

/// What intersecting a ray with the scene and consulting the hit's
/// material produced.
#[derive(Clone, Copy, Debug, PartialEq, Eq, Structural)]
pub enum TraceOutcome {
    /// The ray hit nothing.
    Miss,
    /// The nearest hit's material scattered the ray.
    Scattered,
    /// The nearest hit's material absorbed the ray.
    Absorbed,
}

/// What the radiance estimator does next.
#[derive(Clone, Copy, Debug, PartialEq, Eq, Structural)]
pub enum PathStep {
    /// Return the background gradient for this ray.
    Background,
    /// Return black: the path is cut off or absorbed.
    Black,
    /// Recurse on the scattered ray, weighted by the attenuation.
    Continue,
}

/// The radiance decision: black at or beyond the depth cutoff, otherwise
/// background on a miss, recursion on a scatter, black on absorption.
pub open spec fn radiance_step_spec(depth: usize, outcome: TraceOutcome) -> PathStep {
    if depth >= MAX_DEPTH {
        PathStep::Black
    } else {
        match outcome {
            TraceOutcome::Miss => PathStep::Background,
            TraceOutcome::Scattered => PathStep::Continue,
            TraceOutcome::Absorbed => PathStep::Black,
        }
    }
}

/// Decides the next step of the radiance estimator from the bounce depth
/// and the trace outcome.
///
/// The second clause is the termination guarantee: at depth `MAX_DEPTH`
/// (or beyond) the estimator returns black whatever the scene and the
/// materials did, so a path never recurses more than `MAX_DEPTH` times.
pub fn radiance_step(depth: usize, outcome: TraceOutcome) -> (r: PathStep)
    ensures
        r == radiance_step_spec(depth, outcome),
        depth >= MAX_DEPTH ==> r == PathStep::Black,
{
    if depth >= MAX_DEPTH {
        PathStep::Black
    } else {
        match outcome {
            TraceOutcome::Miss => PathStep::Background,
            TraceOutcome::Scattered => PathStep::Continue,
            TraceOutcome::Absorbed => PathStep::Black,
        }
    }
}

} // verus!
