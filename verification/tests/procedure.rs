use vizia_platform::application::ApplicationError;
use vizia_platform::surface::{BoundingBox, Procedure, Rect, Step};
use vizia_platform::units::Fixed;

fn fixed(value: f64) -> Fixed {
    Fixed::from_raw((value * 1e6).round() as i64)
}

/// Runs a procedure to its end; the step at place `failing` of what is
/// handed out fails. Returns what was handed out.
fn run(procedure: &mut Procedure, failing: Option<usize>) -> Vec<Step> {
    let mut handed_out = Vec::new();
    let mut succeeded = true;
    while let Some(step) = procedure.advance(succeeded) {
        succeeded = Some(handed_out.len()) != failing;
        handed_out.push(step);
        assert!(handed_out.len() < 100);
    }
    handed_out
}

fn plan() -> Vec<Step> {
    vec![
        Step::MakeCurrent,
        Step::QueryFramebuffer,
        Step::WrapFramebuffer { width: 640, height: 480 },
        Step::CreateOffscreen { width: 640, height: 480 },
    ]
}

#[test]
fn steps_come_in_order_and_the_context_is_released_at_the_end() {
    let mut procedure = Procedure::new(plan());
    assert_eq!(procedure.steps(), &plan());
    let mut expected = plan();
    expected.push(Step::MakeNotCurrent);
    assert_eq!(run(&mut procedure, None), expected);
    assert!(procedure.is_done());
    assert_eq!(procedure.error(), None);
    assert_eq!(procedure.advance(true), None);
    assert_eq!(procedure.advance(false), None);
    assert_eq!(procedure.error(), None);
}

#[test]
fn a_failure_stops_the_plan_and_releases_the_context() {
    let mut procedure = Procedure::new(plan());
    assert_eq!(
        run(&mut procedure, Some(2)),
        vec![
            Step::MakeCurrent,
            Step::QueryFramebuffer,
            Step::WrapFramebuffer { width: 640, height: 480 },
            Step::MakeNotCurrent,
        ]
    );
    assert!(procedure.is_done());
    assert_eq!(procedure.error(), Some(ApplicationError::SurfaceCreation));
}

#[test]
fn a_failure_of_the_release_changes_nothing() {
    let mut procedure = Procedure::new(plan());
    assert_eq!(run(&mut procedure, Some(4)).len(), 5);
    assert!(procedure.is_done());
    assert_eq!(procedure.error(), None);
}

#[test]
fn a_context_that_was_never_current_is_not_released() {
    let mut procedure = Procedure::new(plan());
    assert_eq!(run(&mut procedure, Some(0)), vec![Step::MakeCurrent]);
    assert!(procedure.is_done());
    assert_eq!(procedure.error(), Some(ApplicationError::SurfaceCreation));
    let mut procedure = Procedure::new(vec![Step::ReleaseResources, Step::ResetContext]);
    assert_eq!(run(&mut procedure, None), vec![Step::ReleaseResources, Step::ResetContext]);
    let mut procedure = Procedure::new(vec![Step::CreateContext, Step::MakeCurrent]);
    assert_eq!(run(&mut procedure, Some(0)), vec![Step::CreateContext]);
    assert_eq!(procedure.error(), Some(ApplicationError::DeviceAcquisition));
}

#[test]
fn a_plan_that_releases_by_itself_is_not_released_twice() {
    let steps = vec![Step::MakeCurrent, Step::Flush, Step::MakeNotCurrent, Step::DropSurfaces];
    let mut procedure = Procedure::new(steps.clone());
    assert_eq!(run(&mut procedure, None), steps);
    let mut procedure = Procedure::new(steps);
    assert_eq!(
        run(&mut procedure, Some(1)),
        vec![Step::MakeCurrent, Step::Flush, Step::MakeNotCurrent]
    );
    assert_eq!(procedure.error(), Some(ApplicationError::Present));
}

#[test]
fn an_empty_plan_is_done_at_once() {
    let mut procedure = Procedure::new(vec![]);
    assert!(!procedure.is_done());
    assert_eq!(procedure.advance(false), None);
    assert!(procedure.is_done());
    assert_eq!(procedure.error(), None);
}

#[test]
fn the_first_call_ignores_the_outcome_it_is_given() {
    let mut procedure = Procedure::new(plan());
    assert_eq!(procedure.advance(false), Some(Step::MakeCurrent));
    assert_eq!(procedure.advance(true), Some(Step::QueryFramebuffer));
    assert_eq!(procedure.error(), None);
}

#[test]
fn failures_are_told_apart_by_the_step() {
    assert_eq!(Step::CreateContext.failure(), ApplicationError::DeviceAcquisition);
    assert_eq!(Step::LoadFunctions.failure(), ApplicationError::DeviceAcquisition);
    assert_eq!(Step::CreateDirectContext.failure(), ApplicationError::DeviceAcquisition);
    assert_eq!(Step::CreateCommandQueue.failure(), ApplicationError::DeviceAcquisition);
    assert_eq!(Step::Flush.failure(), ApplicationError::Present);
    assert_eq!(Step::SwapBuffers.failure(), ApplicationError::Present);
    assert_eq!(Step::WaitFrameLatency { timeout_ms: 1 }.failure(), ApplicationError::Present);
    assert_eq!(Step::FlushSurface { index: 0 }.failure(), ApplicationError::Present);
    assert_eq!(
        Step::PresentFrame { sync_interval: 1, flags: 0 }.failure(),
        ApplicationError::Present
    );
    assert_eq!(
        Step::ResizeBuffers { count: 2, width: 1, height: 1 }.failure(),
        ApplicationError::SurfaceCreation
    );
    assert_eq!(Step::MakeCurrent.failure(), ApplicationError::SurfaceCreation);
    assert_eq!(
        Step::WrapBackBuffer { index: 0, width: 1, height: 1 }.failure(),
        ApplicationError::SurfaceCreation
    );
}

#[test]
fn a_region_is_cut_to_whole_pixels_at_or_above_zero() {
    let region = BoundingBox { x: fixed(-3.5), y: fixed(2.9), w: fixed(10.2), h: fixed(5.0) };
    assert!(!region.is_empty());
    assert_eq!(region.rect(), Rect { left: 0, top: 2, right: 6, bottom: 7 });
    let region = BoundingBox { x: fixed(-30.0), y: fixed(-30.0), w: fixed(10.0), h: fixed(5.0) };
    assert_eq!(region.rect(), Rect { left: 0, top: 0, right: 0, bottom: 0 });
    let far = Fixed::from_raw(i64::MAX);
    let region = BoundingBox { x: far, y: fixed(0.0), w: far, h: fixed(1.0) };
    assert_eq!(region.rect(), Rect { left: i32::MAX, top: 0, right: i32::MAX, bottom: 1 });
}

#[test]
fn a_region_without_extent_is_empty() {
    let region = |w: f64, h: f64| BoundingBox { x: fixed(1.0), y: fixed(1.0), w: fixed(w), h: fixed(h) };
    assert!(region(0.0, 5.0).is_empty());
    assert!(region(5.0, 0.0).is_empty());
    assert!(region(-1.0, 5.0).is_empty());
    assert!(region(5.0, -0.000001).is_empty());
    assert!(!region(0.000001, 0.000001).is_empty());
}

#[test]
fn a_procedure_has_succeeded_once_every_step_went_through() {
    let mut procedure = Procedure::new(plan());
    assert!(!procedure.succeeded());
    assert!(procedure.follows(&plan()));
    assert!(!procedure.follows(&plan()[..3].to_vec()));
    let mut other = plan();
    other[2] = Step::WrapFramebuffer { width: 641, height: 480 };
    assert!(!procedure.follows(&other));
    procedure.advance(true);
    procedure.advance(true);
    assert!(!procedure.succeeded());
    run(&mut procedure, None);
    assert!(procedure.succeeded());
    let mut failed = Procedure::new(plan());
    run(&mut failed, Some(3));
    assert!(failed.is_done());
    assert!(!failed.succeeded());
    let mut released = Procedure::new(plan());
    run(&mut released, Some(4));
    assert!(released.succeeded());
    let mut empty = Procedure::new(vec![]);
    assert!(!empty.succeeded());
    empty.advance(true);
    assert!(empty.succeeded());
}
