//! The decisions of the two light-transport strategies.
//!
//! Tracing a ray alternates colour arithmetic with decisions: whether the
//! ray is still worth following, and what to do with the sphere it met. The
//! decisions stand here; the caller does the arithmetic and feeds the next
//! ray back in with the depth that the step names.
use vstd::prelude::*;

verus! {

/// Depth at which the direct-lighting strategy stops and returns the
/// background colour.
pub const DIRECT_MAX_DEPTH: u32 = 3;

/// Depth at which the path-tracing strategy stops and returns black.
pub const PATH_MAX_DEPTH: u32 = 5;

/// How light reaching a hit point is gathered.
#[derive(Debug, Clone, Copy, PartialEq, Eq, Structural)]
pub enum Integrator {
    /// One bounce: each hit is lit by the point light, with a hard shadow ray.
    DirectLighting,
    /// Materials scatter and emit; rays are followed until the depth limit.
    PathTracing,
}

/// What becomes of a ray at a given depth.
#[derive(Debug, Clone, Copy, PartialEq, Eq, Structural)]
pub enum TraceStep {
    /// The ray's colour is the scene's background colour.
    Background,
    /// The ray gathers no light.
    Black,
    /// Shade the hit on sphere `sphere` from the point light.
    Shade { sphere: usize },
    /// Add the emission of sphere `sphere` to its colour times the light
    /// brought by a scattered ray traced at depth `next_depth`.
    Scatter { sphere: usize, next_depth: u32 },
}

/// Depth at which a strategy stops following rays.
pub open spec fn depth_limit(integrator: Integrator) -> u32 {
    match integrator {
        Integrator::DirectLighting => DIRECT_MAX_DEPTH,
        Integrator::PathTracing => PATH_MAX_DEPTH,
    }
}

/// The step taken for a ray at `depth` whose nearest hit is on sphere
/// `nearest`, or that meets nothing.
pub open spec fn step_spec(integrator: Integrator, depth: u32, nearest: Option<usize>) -> TraceStep {
    match integrator {
        Integrator::DirectLighting => if depth >= DIRECT_MAX_DEPTH {
            TraceStep::Background
        } else {
            match nearest {
                None => TraceStep::Background,
                Some(s) => TraceStep::Shade { sphere: s },
            }
        },
        Integrator::PathTracing => if depth >= PATH_MAX_DEPTH {
            TraceStep::Black
        } else {
            match nearest {
                None => TraceStep::Background,
                Some(s) => TraceStep::Scatter { sphere: s, next_depth: (depth + 1) as u32 },
            }
        },
    }
}

/// Depth at which `integrator` stops following rays.
pub fn max_depth(integrator: Integrator) -> (r: u32)
    ensures
        r == depth_limit(integrator),
{
    match integrator {
        Integrator::DirectLighting => DIRECT_MAX_DEPTH,
        Integrator::PathTracing => PATH_MAX_DEPTH,
    }
}

/// Decides what becomes of a ray at `depth`, given the index of the sphere
/// it meets first (`None` when it meets none).
pub fn trace_step(integrator: Integrator, depth: u32, nearest: Option<usize>) -> (r: TraceStep)
    ensures
        r == step_spec(integrator, depth, nearest),
{
    match integrator {
        Integrator::DirectLighting => {
            if depth >= DIRECT_MAX_DEPTH {
                TraceStep::Background
            } else {
                match nearest {
                    None => TraceStep::Background,
                    Some(s) => TraceStep::Shade { sphere: s },
                }
            }
        },
        Integrator::PathTracing => {
            if depth >= PATH_MAX_DEPTH {
                TraceStep::Black
            } else {
                match nearest {
                    None => TraceStep::Background,
                    Some(s) => TraceStep::Scatter { sphere: s, next_depth: depth + 1 },
                }
            }
        },
    }
}

/// Number of further rays that may still be traced after one at `depth`.
pub open spec fn rays_left(integrator: Integrator, depth: u32) -> nat {
    if depth >= depth_limit(integrator) {
        0
    } else {
        (depth_limit(integrator) - depth) as nat
    }
}

/// Tracing terminates within the depth limit: a step asks for another ray
/// only below the limit, one level deeper, so that fewer rays remain to be
/// traced; and only the path-tracing strategy ever asks for one.
pub proof fn lemma_trace_recursion_bounded(integrator: Integrator, depth: u32, nearest: Option<usize>)
    ensures
        step_spec(integrator, depth, nearest) matches TraceStep::Scatter { sphere, next_depth } ==> {
            &&& integrator == Integrator::PathTracing
            &&& depth < depth_limit(integrator)
            &&& next_depth == depth + 1
            &&& next_depth <= depth_limit(integrator)
            &&& rays_left(integrator, next_depth) < rays_left(integrator, depth)
        },
        depth >= depth_limit(integrator) ==> !(step_spec(integrator, depth, nearest) is Scatter),
        depth >= depth_limit(integrator) ==> !(step_spec(integrator, depth, nearest) is Shade),
{
}

/// A ray that meets nothing takes the background colour, unless the
/// path-tracing strategy has already reached its depth limit.
pub proof fn lemma_miss_is_background(integrator: Integrator, depth: u32)
    ensures
        step_spec(integrator, depth, None) == (if integrator == Integrator::PathTracing && depth
            >= PATH_MAX_DEPTH {
            TraceStep::Black
        } else {
            TraceStep::Background
        }),
{
}

} // verus!
