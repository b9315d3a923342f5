use raytracer::integrator::{
    max_depth, trace_step, Integrator, TraceStep, DIRECT_MAX_DEPTH, PATH_MAX_DEPTH,
};

#[test]
fn depth_limits() {
    assert_eq!(max_depth(Integrator::DirectLighting), 3);
    assert_eq!(max_depth(Integrator::PathTracing), 5);
    assert_eq!(DIRECT_MAX_DEPTH, 3);
    assert_eq!(PATH_MAX_DEPTH, 5);
}

#[test]
fn direct_lighting_shades_nearest_hit() {
    assert_eq!(
        trace_step(Integrator::DirectLighting, 0, Some(2)),
        TraceStep::Shade { sphere: 2 }
    );
    assert_eq!(
        trace_step(Integrator::DirectLighting, 2, Some(0)),
        TraceStep::Shade { sphere: 0 }
    );
}

#[test]
fn direct_lighting_miss_is_background() {
    assert_eq!(trace_step(Integrator::DirectLighting, 0, None), TraceStep::Background);
}

#[test]
fn direct_lighting_past_limit_is_background() {
    assert_eq!(trace_step(Integrator::DirectLighting, 3, Some(1)), TraceStep::Background);
    assert_eq!(trace_step(Integrator::DirectLighting, u32::MAX, Some(1)), TraceStep::Background);
}

#[test]
fn path_tracing_scatters_one_level_deeper() {
    assert_eq!(
        trace_step(Integrator::PathTracing, 0, Some(4)),
        TraceStep::Scatter { sphere: 4, next_depth: 1 }
    );
    assert_eq!(
        trace_step(Integrator::PathTracing, 4, Some(0)),
        TraceStep::Scatter { sphere: 0, next_depth: 5 }
    );
}

#[test]
fn path_tracing_miss_is_background() {
    assert_eq!(trace_step(Integrator::PathTracing, 3, None), TraceStep::Background);
}

#[test]
fn path_tracing_at_limit_is_black() {
    assert_eq!(trace_step(Integrator::PathTracing, 5, Some(0)), TraceStep::Black);
    assert_eq!(trace_step(Integrator::PathTracing, 5, None), TraceStep::Black);
}

#[test]
fn path_tracing_chain_ends_within_limit() {
    let mut depth = 0u32;
    let mut rays = 1u32;
    loop {
        match trace_step(Integrator::PathTracing, depth, Some(0)) {
            TraceStep::Scatter { next_depth, .. } => {
                assert_eq!(next_depth, depth + 1);
                depth = next_depth;
                rays += 1;
            }
            other => {
                assert_eq!(other, TraceStep::Black);
                break;
            }
        }
    }
    assert_eq!(depth, 5);
    assert_eq!(rays, 6);
}
