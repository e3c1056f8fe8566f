use path_tracer::render::{radiance_step, PathStep, TraceOutcome, MAX_DEPTH};

#[test]
fn miss_below_cutoff_gives_background() {
    assert_eq!(radiance_step(0, TraceOutcome::Miss), PathStep::Background);
    assert_eq!(radiance_step(49, TraceOutcome::Miss), PathStep::Background);
}

#[test]
fn scatter_below_cutoff_continues() {
    assert_eq!(radiance_step(0, TraceOutcome::Scattered), PathStep::Continue);
    assert_eq!(radiance_step(49, TraceOutcome::Scattered), PathStep::Continue);
}

#[test]
fn absorption_gives_black() {
    assert_eq!(radiance_step(0, TraceOutcome::Absorbed), PathStep::Black);
    assert_eq!(radiance_step(10, TraceOutcome::Absorbed), PathStep::Black);
}

#[test]
fn at_the_cutoff_every_outcome_gives_black() {
    assert_eq!(MAX_DEPTH, 50);
    assert_eq!(radiance_step(50, TraceOutcome::Miss), PathStep::Black);
    assert_eq!(radiance_step(50, TraceOutcome::Scattered), PathStep::Black);
    assert_eq!(radiance_step(50, TraceOutcome::Absorbed), PathStep::Black);
    assert_eq!(radiance_step(51, TraceOutcome::Scattered), PathStep::Black);
    assert_eq!(radiance_step(usize::MAX, TraceOutcome::Miss), PathStep::Black);
}
